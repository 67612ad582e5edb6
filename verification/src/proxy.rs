//! What both kinds of weak proxy are built from.

use vstd::multiset::Multiset;
use vstd::prelude::*;

use crate::laws::law_evolution_is_a_preorder;
use crate::object::{
    ExceptionView, FuncArgs, PyBaseException, PyComparisonOp, PyComparisonValue, PyFloatRef,
    PyIntRef, PyIter, PyIterReturn, PyObjectRef, PyResult, PySetterValue, PyStrRef, PyTypeRef,
    PyWeak, comparison_result, float_result, int_result, iter_result, outcome, raises,
    spec_comparison_result, spec_float_result, spec_int_result, spec_iter_result,
};
use crate::protocol::{
    BinaryOp, ConversionOp, MappingOp, ObjectProtocol, PyMappingMethods, PyNumberMethods,
    PySequenceMethods, SequenceOp, TernaryOp, UnaryOp,
};
use crate::text::{prefixed_hex, to_prefixed_hex};
use crate::vm::{Context, Payload, PyObject, VirtualMachine, VmState};

verus! {

/// The exception that a dead proxy raises.
pub open spec fn reference_error(ctx: Context) -> ExceptionView {
    ExceptionView {
        class: ctx.exceptions.reference_error,
        msg: "weakly-referenced object no longer exists"@,
    }
}

/// The referent while it lives, and `ReferenceError` after that.
pub open spec fn try_upgraded<P>(weak: PyWeak, state: VmState<P>) -> Result<
    PyObjectRef,
    ExceptionView,
> {
    match weak.upgraded(state) {
        Some(referent) => Ok(referent),
        None => Err(reference_error(state.ctx)),
    }
}

/// The weak reference inside a proxy of either kind.
pub open spec fn proxied<P>(obj: PyObjectRef, state: VmState<P>) -> Option<PyWeak> {
    match state.object(obj) {
        Some(PyObject { payload: Payload::WeakProxy(proxy), .. }) => Some(proxy.weak),
        Some(PyObject { payload: Payload::WeakCallableProxy(proxy), .. }) => Some(proxy.weak),
        _ => None,
    }
}

/// What an operation works on when it is given `obj`: the referent of a proxy,
/// and any other object itself.
pub open spec fn operand<P>(obj: PyObjectRef, state: VmState<P>) -> Result<
    PyObjectRef,
    ExceptionView,
> {
    match proxied(obj, state) {
        Some(weak) => try_upgraded(weak, state),
        None => Ok(obj),
    }
}

/// The object to which an operation takes a strong reference when it is given
/// `obj`: the referent of a proxy. Any other object is lent to it.
pub open spec fn taken<P>(obj: PyObjectRef, state: VmState<P>) -> Option<PyObjectRef> {
    match proxied(obj, state) {
        Some(weak) => Some(weak.referent),
        None => None,
    }
}

/// `state` with the references that an operation on `a` and `b` takes.
pub open spec fn both_took<P>(a: PyObjectRef, b: PyObjectRef, state: VmState<P>) -> VmState<P> {
    state.took_opt(taken(a, state)).took_opt(taken(b, state))
}

/// `post` without the references that an operation on `a` and `b` took in `pre`,
/// the last one first.
pub open spec fn both_gave_back<P>(
    a: PyObjectRef,
    b: PyObjectRef,
    pre: VmState<P>,
    post: VmState<P>,
) -> VmState<P> {
    post.gave_back_opt(taken(b, pre)).gave_back_opt(taken(a, pre))
}

/// `state` with the references that an operation on `a`, `b` and `c` takes.
pub open spec fn three_took<P>(
    a: PyObjectRef,
    b: PyObjectRef,
    c: PyObjectRef,
    state: VmState<P>,
) -> VmState<P> {
    both_took(a, b, state).took_opt(taken(c, state))
}

/// `post` without the references that an operation on `a`, `b` and `c` took in
/// `pre`, the last one first.
pub open spec fn three_gave_back<P>(
    a: PyObjectRef,
    b: PyObjectRef,
    c: PyObjectRef,
    pre: VmState<P>,
    post: VmState<P>,
) -> VmState<P> {
    both_gave_back(a, b, pre, post.gave_back_opt(taken(c, pre)))
}

/// What an operation on two objects works on. A dead proxy on either side makes
/// it fail.
pub open spec fn operands<P>(a: PyObjectRef, b: PyObjectRef, state: VmState<P>) -> Result<
    (PyObjectRef, PyObjectRef),
    ExceptionView,
> {
    match (operand(a, state), operand(b, state)) {
        (Ok(x), Ok(y)) => Ok((x, y)),
        (Err(e), _) => Err(e),
        (_, Err(e)) => Err(e),
    }
}

/// What an operation on three objects works on. A dead proxy anywhere makes it
/// fail.
pub open spec fn three_operands<P>(
    a: PyObjectRef,
    b: PyObjectRef,
    c: PyObjectRef,
    state: VmState<P>,
) -> Result<(PyObjectRef, PyObjectRef, PyObjectRef), ExceptionView> {
    match (operands(a, b, state), operand(c, state)) {
        (Ok((x, y)), Ok(z)) => Ok((x, y, z)),
        (Err(e), _) => Err(e),
        (_, Err(e)) => Err(e),
    }
}

/// What a comparison of the proxy of `weak` with `other` works on.
pub open spec fn compared<P>(weak: PyWeak, other: PyObjectRef, state: VmState<P>) -> Result<
    (PyObjectRef, PyObjectRef),
    ExceptionView,
> {
    match (try_upgraded(weak, state), operand(other, state)) {
        (Ok(x), Ok(y)) => Ok((x, y)),
        (Err(e), _) => Err(e),
        (_, Err(e)) => Err(e),
    }
}

/// The exception for a referent that is no iterator but is asked for an item.
pub open spec fn non_iterator_error<P>(obj: PyObjectRef, state: VmState<P>) -> ExceptionView {
    ExceptionView {
        class: state.ctx.exceptions.type_error,
        msg: "Weakref proxy referenced a non-iterator '"@ + state.class_of(obj).name@ + "' object"@,
    }
}

/// The exception for the hash of an object of a class without one.
pub open spec fn unhashable_error(class: PyTypeRef, ctx: Context) -> ExceptionView {
    ExceptionView {
        class: ctx.exceptions.type_error,
        msg: "unhashable type: '"@ + ctx.class(class).name@ + "'"@,
    }
}

/// How a proxy with the identity `id` is represented.
pub open spec fn repr_text<P>(id: usize, weak: PyWeak, state: VmState<P>) -> Seq<char> {
    match weak.upgraded(state) {
        Some(obj) => "<weakproxy at "@ + prefixed_hex(id as nat) + "; to '"@ + state.class_of(
            obj,
        ).name@ + "' at "@ + prefixed_hex(obj.id as nat) + ">"@,
        None => "<weakproxy at "@ + prefixed_hex(id as nat) + "; dead>"@,
    }
}

/// `post` is `pre` in which the class of the weak references inside proxies is
/// sure to have been made: `pre` itself where it had been, and `pre` with that
/// class added where it had not.
pub open spec fn weak_subclass_made(pre: Context, post: Context) -> bool {
    match pre.weak_subclass {
        Some(_) => post == pre,
        None => {
            let class = PyTypeRef { index: pre.classes@.len() as usize };
            &&& post.classes@.len() == pre.classes@.len() + 1
            &&& post.classes@ == pre.classes@.push(post.class(class))
            &&& post.types == pre.types
            &&& post.exceptions == pre.exceptions
            &&& post.weak_subclass == Some(class)
            &&& post.is_weak_subclass(class)
            &&& post.class(class).slots == PyWeak::spec_make_slots()
            &&& post.class(class).has_weakref == pre.class(pre.types.weakref_type).has_weakref
        },
    }
}

/// A reference that was held during an operation is given back.
proof fn lemma_given_back<P>(
    pre: VmState<P>,
    mid: VmState<P>,
    held: Multiset<PyObjectRef>,
    obj: PyObjectRef,
)
    requires
        mid.wf(),
        mid.evolved_from(pre),
        mid.held == held.insert(obj),
    ensures
        mid.held.count(obj) > 0,
        mid.gave_back(obj).wf(),
        mid.gave_back(obj).evolved_from(pre),
        mid.gave_back(obj).held == held,
{
    mid.lemma_gave_back(obj);
    law_evolution_is_a_preorder(pre, mid, mid.gave_back(obj));
    assert(mid.gave_back(obj).held =~= held);
}

/// [`lemma_given_back`], where there was a reference.
proof fn lemma_given_back_opt<P>(
    pre: VmState<P>,
    mid: VmState<P>,
    held: Multiset<PyObjectRef>,
    obj: Option<PyObjectRef>,
)
    requires
        mid.wf(),
        mid.evolved_from(pre),
        match obj {
            Some(obj) => mid.held == held.insert(obj),
            None => mid.held == held,
        },
    ensures
        obj matches Some(obj) ==> mid.held.count(obj) > 0,
        mid.gave_back_opt(obj).wf(),
        mid.gave_back_opt(obj).evolved_from(pre),
        mid.gave_back_opt(obj).held == held,
{
    if let Some(obj) = obj {
        lemma_given_back(pre, mid, held, obj);
    }
}

/// Taking a reference, where there is an object, leaves the state well formed.
pub proof fn lemma_took_opt<P>(state: VmState<P>, obj: Option<PyObjectRef>)
    requires
        state.wf(),
        obj matches Some(obj) ==> state.is_live(obj),
    ensures
        state.took_opt(obj).wf(),
        state.took_opt(obj).evolved_from(state),
        state.took_opt(obj).gave_back_opt(obj) == state,
        obj matches Some(obj) ==> state.took_opt(Some(obj)).held.count(obj) > 0,
        forall|other: PyObjectRef| #[trigger]
            state.took_opt(obj).object(other) == state.object(other),
{
    if let Some(obj) = obj {
        state.lemma_took(obj);
    }
}

/// The exception that a dead proxy raises.
pub fn new_reference_error<P>(vm: &VirtualMachine<P>) -> (exception: PyBaseException)
    ensures
        exception@ == reference_error(vm@.ctx),
{
    vm.new_exception_msg(
        vm.ctx.exceptions.reference_error,
        "weakly-referenced object no longer exists".to_owned(),
    )
}

/// The exception for a referent that is no iterator but is asked for an item.
pub fn new_non_iterator_error<P>(obj: PyObjectRef, vm: &VirtualMachine<P>) -> (exception:
    PyBaseException)
    requires
        vm@.wf(),
        vm@.is_live(obj),
    ensures
        exception@ == non_iterator_error(obj, vm@),
{
    vm.new_type_error(
        "Weakref proxy referenced a non-iterator '".to_owned().concat(vm.class_name(obj)).concat(
            "' object",
        ),
    )
}

/// The exception for the hash of an object of a class without one.
pub fn new_unhashable_error<P>(class: PyTypeRef, vm: &VirtualMachine<P>) -> (exception:
    PyBaseException)
    requires
        vm@.ctx.has_class(class),
    ensures
        exception@ == unhashable_error(class, vm@.ctx),
{
    vm.new_type_error(
        "unhashable type: '".to_owned().concat(vm.ctx.classes[class.index].name.as_str()).concat(
            "'",
        ),
    )
}

/// The referent while it lives, and `ReferenceError` after that. With the
/// referent comes a strong reference to it, which is held until it is given
/// back.
pub fn proxy_try_upgrade<P>(weak: &PyWeak, vm: &mut VirtualMachine<P>) -> (res: PyResult<
    PyObjectRef,
>)
    requires
        old(vm)@.wf(),
    ensures
        outcome(res) == try_upgraded(*weak, old(vm)@),
        final(vm)@ == (match res {
            Ok(obj) => old(vm)@.took(obj),
            Err(_) => old(vm)@,
        }),
        final(vm)@.wf(),
        final(vm)@.evolved_from(old(vm)@),
{
    match weak.upgrade(vm) {
        Some(obj) => Ok(obj),
        None => Err(new_reference_error(vm)),
    }
}

/// If `obj` is a proxy, upgrades it to the referent. Otherwise returns `None`.
/// With a referent comes a strong reference to it, which is held until it is
/// given back.
pub fn proxy_upgrade_opt<P>(obj: PyObjectRef, vm: &mut VirtualMachine<P>) -> (res: PyResult<
    Option<PyObjectRef>,
>)
    requires
        old(vm)@.wf(),
    ensures
        outcome(res) == (match proxied(obj, old(vm)@) {
            Some(weak) => match try_upgraded(weak, old(vm)@) {
                Ok(referent) => Ok(Some(referent)),
                Err(e) => Err(e),
            },
            None => Ok(None),
        }),
        final(vm)@ == (match res {
            Ok(referent) => old(vm)@.took_opt(referent),
            Err(_) => old(vm)@,
        }),
        final(vm)@.wf(),
        final(vm)@.evolved_from(old(vm)@),
{
    if let Some(proxy) = vm.downcast_weak_proxy(obj) {
        Ok(Some(proxy_try_upgrade(&proxy.payload.weak, vm)?))
    } else if let Some(proxy) = vm.downcast_weak_callable_proxy(obj) {
        Ok(Some(proxy_try_upgrade(&proxy.payload.weak, vm)?))
    } else {
        Ok(None)
    }
}

/// What an operation works on when it is given `obj`, with a strong reference to
/// it, which is held until it is given back.
fn proxy_operand<P>(obj: PyObjectRef, vm: &mut VirtualMachine<P>) -> (res: PyResult<PyObjectRef>)
    requires
        old(vm)@.wf(),
        old(vm)@.is_live(obj),
    ensures
        outcome(res) == operand(obj, old(vm)@),
        final(vm)@ == (match res {
            Ok(operand) => old(vm)@.took(operand),
            Err(_) => old(vm)@,
        }),
        final(vm)@.wf(),
        final(vm)@.evolved_from(old(vm)@),
{
    match proxy_upgrade_opt(obj, vm)? {
        Some(referent) => Ok(referent),
        None => {
            vm.take(obj);
            Ok(obj)
        },
    }
}

/// Represents a proxy with the identity `id`.
pub fn proxy_repr<P>(id: usize, weak: &PyWeak, vm: &VirtualMachine<P>) -> (text: String)
    requires
        vm@.wf(),
    ensures
        text@ == repr_text(id, *weak, vm@),
{
    if let Some(obj) = weak.peek(vm) {
        "<weakproxy at ".to_owned().concat(to_prefixed_hex(id).as_str()).concat("; to '").concat(
            vm.class_name(obj),
        ).concat("' at ").concat(to_prefixed_hex(obj.get_id()).as_str()).concat(">")
    } else {
        "<weakproxy at ".to_owned().concat(to_prefixed_hex(id).as_str()).concat("; dead>")
    }
}

/// Makes the weak reference for a proxy to `referent`. Its class is made by the
/// first call and shared by all later ones, whether or not they succeed.
///
/// The strong reference to `referent` is dropped in the end: where it was the
/// last one, the weak reference is dead from the start. The strong reference to
/// `callback` goes with the weak reference, or is dropped where there is none.
pub fn make_weak_ref<P>(
    referent: PyObjectRef,
    callback: Option<PyObjectRef>,
    vm: &mut VirtualMachine<P>,
) -> (res: PyResult<PyWeak>)
    requires
        old(vm)@.wf(),
        old(vm)@.owns(referent),
        old(vm)@.adopted(referent).owns_opt(callback),
    ensures
        final(vm)@.kept_from(old(vm)@),
        weak_subclass_made(old(vm)@.ctx, final(vm)@.ctx),
        match old(vm)@.downgraded(referent, callback, final(vm)@.ctx.weak_subclass->0) {
            Ok(weak) => {
                &&& res == Ok::<PyWeak, PyBaseException>(weak)
                &&& final(vm)@ == (VmState { ctx: final(vm)@.ctx, ..old(vm)@ }).released(referent)
                &&& final(vm)@.owns_opt(callback)
            },
            Err(e) => {
                &&& raises(res, e)
                &&& final(vm)@ == (VmState { ctx: final(vm)@.ctx, ..old(vm)@ }).released_opt(
                    callback,
                ).released(referent)
            },
        },
{
    let weak_cls = match vm.ctx.weak_subclass {
        Some(class) => class,
        None => {
            let base = vm.ctx.types.weakref_type;
            let class = vm.ctx.new_class(None, "__weakproxy", base, PyWeak::make_slots());
            vm.ctx.weak_subclass = Some(class);
            class
        },
    };
    proof {
        let pre = old(vm)@;
        let mid = vm@;
        assert forall|class: PyTypeRef| #[trigger] pre.ctx.has_class(class) implies (
            mid.ctx.class(class) == pre.ctx.class(class)) by {}
        assert(mid == (VmState { ctx: mid.ctx, ..pre }));
        assert forall|obj: PyObjectRef| #[trigger] mid.object(obj) == pre.object(obj) by {}
        assert forall|obj: PyObjectRef| #[trigger] mid.is_live(obj) <==> mid.strong.count(obj)
            > 0 by {
            assert(pre.is_live(obj) <==> pre.strong.count(obj) > 0);
        }
        assert forall|obj: PyObjectRef| #[trigger] mid.free(obj) >= 0 by {
            assert(pre.free(obj) >= 0);
        }
        assert(pre.is_live(referent) <==> pre.strong.count(referent) > 0);
        assert(mid.kept_from(pre));
        assert(pre.free(referent) == mid.free(referent));
        if let Some(callback) = callback {
            assert(pre.adopted(referent).free(callback) == mid.adopted(referent).free(callback));
        }
        mid.lemma_released(referent);
        mid.lemma_adopted(referent);
        mid.lemma_released_while_held(callback, referent);
        if let Some(callback) = callback {
            mid.lemma_released_frame(mid, callback);
        }
        let rest = mid.released_opt(callback);
        rest.lemma_released_frame(rest, referent);
    }
    let ghost mid = vm@;
    vm.adopt(referent);
    let ghost handed = vm@;
    proof {
        law_evolution_is_a_preorder(old(vm)@, mid, handed);
        assert(handed.downgraded(referent, callback, weak_cls) == old(vm)@.downgraded(
            referent,
            callback,
            weak_cls,
        ));
    }
    let res = vm.downgrade_with_typ(referent, callback, weak_cls);
    proof {
        law_evolution_is_a_preorder(old(vm)@, handed, vm@);
        lemma_given_back(old(vm)@, vm@, old(vm)@.held, referent);
        if let Some(callback) = callback {
            assert(mid.adopted(referent).free(callback) == mid.free(callback) - (if callback
                == referent {
                1int
            } else {
                0
            }));
            assert(mid.released(referent).free(callback) == mid.adopted(referent).free(callback));
        }
    }
    vm.give_back(referent);
    res
}

/// The referent as a `str`.
pub fn proxy_str<P: ObjectProtocol>(
    weak: &PyWeak,
    vm: &mut VirtualMachine<P>,
) -> (res: PyResult<PyStrRef>)
    requires
        old(vm)@.wf(),
    ensures
        final(vm)@.kept_from(old(vm)@),
        match try_upgraded(*weak, old(vm)@) {
            Err(e) => raises(res, e) && final(vm)@ == old(vm)@,
            Ok(obj) => exists|v: &mut VirtualMachine<P>|
                {
                    &&& v@ == old(vm)@.took(obj)
                    &&& final(vm)@ == final(v)@.gave_back(obj)
                    &&& #[trigger] call_ensures(P::str, (v, obj), res)
                },
        },
{
    let obj = proxy_try_upgrade(weak, vm)?;
    assert(try_upgraded(*weak, old(vm)@)->Ok_0 == obj);
    let res = P::str(vm, obj);
    proof {
        lemma_given_back(old(vm)@, vm@, old(vm)@.held, obj);
    }
    vm.give_back(obj);
    res
}

/// The referent as `bytes`.
pub fn proxy_bytes<P: ObjectProtocol>(
    weak: &PyWeak,
    vm: &mut VirtualMachine<P>,
) -> (res: PyResult<PyObjectRef>)
    requires
        old(vm)@.wf(),
    ensures
        final(vm)@.kept_from(old(vm)@),
        match try_upgraded(*weak, old(vm)@) {
            Err(e) => raises(res, e) && final(vm)@ == old(vm)@,
            Ok(obj) => exists|v: &mut VirtualMachine<P>|
                {
                    &&& v@ == old(vm)@.took(obj)
                    &&& final(vm)@ == final(v)@.gave_back(obj)
                    &&& #[trigger] call_ensures(P::bytes, (v, obj), res)
                },
        },
{
    let obj = proxy_try_upgrade(weak, vm)?;
    assert(try_upgraded(*weak, old(vm)@)->Ok_0 == obj);
    let res = P::bytes(vm, obj);
    proof {
        lemma_given_back(old(vm)@, vm@, old(vm)@.held, obj);
    }
    vm.give_back(obj);
    res
}

/// An iterator that walks the referent backwards.
pub fn proxy_reversed<P: ObjectProtocol>(
    weak: &PyWeak,
    vm: &mut VirtualMachine<P>,
) -> (res: PyResult<PyObjectRef>)
    requires
        old(vm)@.wf(),
    ensures
        final(vm)@.kept_from(old(vm)@),
        match try_upgraded(*weak, old(vm)@) {
            Err(e) => raises(res, e) && final(vm)@ == old(vm)@,
            Ok(obj) => exists|v: &mut VirtualMachine<P>|
                {
                    &&& v@ == old(vm)@.took(obj)
                    &&& final(vm)@ == final(v)@.gave_back(obj)
                    &&& #[trigger] call_ensures(P::reversed, (v, obj), res)
                },
        },
{
    let obj = proxy_try_upgrade(weak, vm)?;
    assert(try_upgraded(*weak, old(vm)@)->Ok_0 == obj);
    let res = P::reversed(vm, obj);
    proof {
        lemma_given_back(old(vm)@, vm@, old(vm)@.held, obj);
    }
    vm.give_back(obj);
    res
}

/// The truth value of the referent.
pub fn proxy_is_true<P: ObjectProtocol>(
    weak: &PyWeak,
    vm: &mut VirtualMachine<P>,
) -> (res: PyResult<bool>)
    requires
        old(vm)@.wf(),
    ensures
        final(vm)@.kept_from(old(vm)@),
        match try_upgraded(*weak, old(vm)@) {
            Err(e) => raises(res, e) && final(vm)@ == old(vm)@,
            Ok(obj) => exists|v: &mut VirtualMachine<P>|
                {
                    &&& v@ == old(vm)@.took(obj)
                    &&& final(vm)@ == final(v)@.gave_back(obj)
                    &&& #[trigger] call_ensures(P::is_true, (v, obj), res)
                },
        },
{
    let obj = proxy_try_upgrade(weak, vm)?;
    assert(try_upgraded(*weak, old(vm)@)->Ok_0 == obj);
    let res = P::is_true(vm, obj);
    proof {
        lemma_given_back(old(vm)@, vm@, old(vm)@.held, obj);
    }
    vm.give_back(obj);
    res
}

/// An attribute of the referent.
pub fn proxy_get_attr<P: ObjectProtocol>(
    weak: &PyWeak,
    name: PyStrRef,
    vm: &mut VirtualMachine<P>,
) -> (res: PyResult<PyObjectRef>)
    requires
        old(vm)@.wf(),
    ensures
        final(vm)@.kept_from(old(vm)@),
        match try_upgraded(*weak, old(vm)@) {
            Err(e) => raises(res, e) && final(vm)@ == old(vm)@,
            Ok(obj) => exists|v: &mut VirtualMachine<P>|
                {
                    &&& v@ == old(vm)@.took(obj)
                    &&& final(vm)@ == final(v)@.gave_back(obj)
                    &&& #[trigger] call_ensures(P::get_attr, (v, obj, name), res)
                },
        },
{
    let obj = proxy_try_upgrade(weak, vm)?;
    assert(try_upgraded(*weak, old(vm)@)->Ok_0 == obj);
    let res = P::get_attr(vm, obj, name);
    proof {
        lemma_given_back(old(vm)@, vm@, old(vm)@.held, obj);
    }
    vm.give_back(obj);
    res
}

/// Sets or deletes an attribute of the referent. The strong reference to a value goes
/// with it; a dead proxy drops it.
pub fn proxy_set_attr<P: ObjectProtocol>(
    weak: &PyWeak,
    name: PyStrRef,
    value: PySetterValue,
    vm: &mut VirtualMachine<P>,
) -> (res: PyResult<()>)
    requires
        old(vm)@.wf(),
        old(vm)@.owns_opt(value.as_option()),
    ensures
        final(vm)@.kept_from(old(vm)@),
        match try_upgraded(*weak, old(vm)@) {
            Err(e) => raises(res, e) && final(vm)@ == old(vm)@.released_opt(value.as_option()),
            Ok(obj) => exists|v: &mut VirtualMachine<P>|
                {
                    &&& v@ == old(vm)@.took(obj)
                    &&& final(vm)@ == final(v)@.gave_back(obj)
                    &&& #[trigger] call_ensures(P::call_set_attr, (v, obj, name, value), res)
                },
        },
{
    let obj = match proxy_try_upgrade(weak, vm) {
        Ok(obj) => obj,
        Err(e) => {
            vm.release_opt(value.into_option());
            return Err(e);
        },
    };
    assert(try_upgraded(*weak, old(vm)@)->Ok_0 == obj);
    let res = P::call_set_attr(vm, obj, name, value);
    proof {
        lemma_given_back(old(vm)@, vm@, old(vm)@.held, obj);
    }
    vm.give_back(obj);
    res
}

/// The number of items of the referent.
pub fn proxy_length<P: ObjectProtocol>(
    weak: &PyWeak,
    vm: &mut VirtualMachine<P>,
) -> (res: PyResult<usize>)
    requires
        old(vm)@.wf(),
    ensures
        final(vm)@.kept_from(old(vm)@),
        match try_upgraded(*weak, old(vm)@) {
            Err(e) => raises(res, e) && final(vm)@ == old(vm)@,
            Ok(obj) => exists|v: &mut VirtualMachine<P>|
                {
                    &&& v@ == old(vm)@.took(obj)
                    &&& final(vm)@ == final(v)@.gave_back(obj)
                    &&& #[trigger] call_ensures(P::length, (v, obj), res)
                },
        },
{
    let obj = proxy_try_upgrade(weak, vm)?;
    assert(try_upgraded(*weak, old(vm)@)->Ok_0 == obj);
    let res = P::length(vm, obj);
    proof {
        lemma_given_back(old(vm)@, vm@, old(vm)@.held, obj);
    }
    vm.give_back(obj);
    res
}

/// Whether `needle` is among the items of the referent.
pub fn proxy_contains<P: ObjectProtocol>(
    weak: &PyWeak,
    needle: PyObjectRef,
    vm: &mut VirtualMachine<P>,
) -> (res: PyResult<bool>)
    requires
        old(vm)@.wf(),
    ensures
        final(vm)@.kept_from(old(vm)@),
        match try_upgraded(*weak, old(vm)@) {
            Err(e) => raises(res, e) && final(vm)@ == old(vm)@,
            Ok(obj) => exists|v: &mut VirtualMachine<P>|
                {
                    &&& v@ == old(vm)@.took(obj)
                    &&& final(vm)@ == final(v)@.gave_back(obj)
                    &&& #[trigger] call_ensures(P::contains, (v, obj, needle), res)
                },
        },
{
    let obj = proxy_try_upgrade(weak, vm)?;
    assert(try_upgraded(*weak, old(vm)@)->Ok_0 == obj);
    let res = P::contains(vm, obj, needle);
    proof {
        lemma_given_back(old(vm)@, vm@, old(vm)@.held, obj);
    }
    vm.give_back(obj);
    res
}

/// The item of the referent at `needle`.
pub fn proxy_get_item<P: ObjectProtocol>(
    weak: &PyWeak,
    needle: PyObjectRef,
    vm: &mut VirtualMachine<P>,
) -> (res: PyResult<PyObjectRef>)
    requires
        old(vm)@.wf(),
    ensures
        final(vm)@.kept_from(old(vm)@),
        match try_upgraded(*weak, old(vm)@) {
            Err(e) => raises(res, e) && final(vm)@ == old(vm)@,
            Ok(obj) => exists|v: &mut VirtualMachine<P>|
                {
                    &&& v@ == old(vm)@.took(obj)
                    &&& final(vm)@ == final(v)@.gave_back(obj)
                    &&& #[trigger] call_ensures(P::get_item, (v, obj, needle), res)
                },
        },
{
    let obj = proxy_try_upgrade(weak, vm)?;
    assert(try_upgraded(*weak, old(vm)@)->Ok_0 == obj);
    let res = P::get_item(vm, obj, needle);
    proof {
        lemma_given_back(old(vm)@, vm@, old(vm)@.held, obj);
    }
    vm.give_back(obj);
    res
}

/// Calls the referent. The strong references to the arguments go with them; a dead
/// proxy drops them.
pub fn proxy_call<P: ObjectProtocol>(
    weak: &PyWeak,
    args: FuncArgs,
    vm: &mut VirtualMachine<P>,
) -> (res: PyResult<PyObjectRef>)
    requires
        old(vm)@.wf(),
        old(vm)@.owns_all(args.spec_refs()),
    ensures
        final(vm)@.kept_from(old(vm)@),
        match try_upgraded(*weak, old(vm)@) {
            Err(e) => raises(res, e) && final(vm)@ == old(vm)@.released_all(args.spec_refs()),
            Ok(obj) => exists|v: &mut VirtualMachine<P>|
                {
                    &&& v@ == old(vm)@.took(obj)
                    &&& final(vm)@ == final(v)@.gave_back(obj)
                    &&& #[trigger] call_ensures(P::call, (v, obj, args), res)
                },
        },
{
    let obj = match proxy_try_upgrade(weak, vm) {
        Ok(obj) => obj,
        Err(e) => {
            vm.release_all(&args.refs());
            return Err(e);
        },
    };
    assert(try_upgraded(*weak, old(vm)@)->Ok_0 == obj);
    let res = P::call(vm, obj, args);
    proof {
        lemma_given_back(old(vm)@, vm@, old(vm)@.held, obj);
    }
    vm.give_back(obj);
    res
}

/// An iterator over the referent. The strong reference to the proxy itself, `zelf`, is
/// dropped in the end.
pub fn proxy_iter<P: ObjectProtocol>(
    zelf: PyObjectRef,
    weak: &PyWeak,
    vm: &mut VirtualMachine<P>,
) -> (res: PyResult<PyObjectRef>)
    requires
        old(vm)@.wf(),
        old(vm)@.owns(zelf),
    ensures
        final(vm)@.kept_from(old(vm)@),
        match try_upgraded(*weak, old(vm)@) {
            Err(e) => raises(res, e) && final(vm)@ == old(vm)@.released(zelf),
            Ok(obj) => exists|v: &mut VirtualMachine<P>, reply: PyResult<PyIter>|
                {
                    &&& v@ == old(vm)@.adopted(zelf).took(obj)
                    &&& final(vm)@ == final(v)@.gave_back(obj).gave_back(zelf)
                    &&& #[trigger] call_ensures(P::get_iter, (v, obj), reply)
                    &&& res == spec_iter_result(reply)
                },
        },
{
    proof {
        old(vm)@.lemma_adopted(zelf);
    }
    vm.adopt(zelf);
    let obj = match proxy_try_upgrade(weak, vm) {
        Ok(obj) => obj,
        Err(e) => {
            proof {
                lemma_given_back(old(vm)@, vm@, old(vm)@.held, zelf);
            }
            vm.give_back(zelf);
            return Err(e);
        },
    };
    assert(try_upgraded(*weak, old(vm)@)->Ok_0 == obj);
    proof {
        law_evolution_is_a_preorder(old(vm)@, old(vm)@.adopted(zelf), vm@);
    }
    let ghost handed = vm@;
    let reply = P::get_iter(vm, obj);
    proof {
        law_evolution_is_a_preorder(old(vm)@, handed, vm@);
        lemma_given_back(old(vm)@, vm@, old(vm)@.held.insert(zelf), obj);
    }
    vm.give_back(obj);
    proof {
        lemma_given_back(old(vm)@, vm@, old(vm)@.held, zelf);
    }
    vm.give_back(zelf);
    iter_result(reply)
}

/// The next item of the referent, which has to be an iterator.
pub fn proxy_next<P: ObjectProtocol>(
    weak: &PyWeak,
    vm: &mut VirtualMachine<P>,
) -> (res: PyResult<PyIterReturn>)
    requires
        old(vm)@.wf(),
    ensures
        final(vm)@.kept_from(old(vm)@),
        match try_upgraded(*weak, old(vm)@) {
            Err(e) => raises(res, e) && final(vm)@ == old(vm)@,
            Ok(obj) => if old(vm)@.is_iterator(obj) {
                exists|v: &mut VirtualMachine<P>|
                    {
                        &&& v@ == old(vm)@.took(obj)
                        &&& final(vm)@ == final(v)@.gave_back(obj)
                        &&& #[trigger] call_ensures(P::next, (v, PyIter { object: obj }), res)
                    }
            } else {
                raises(res, non_iterator_error(obj, old(vm)@)) && final(vm)@ == old(vm)@
            },
        },
{
    let obj = proxy_try_upgrade(weak, vm)?;
    assert(try_upgraded(*weak, old(vm)@)->Ok_0 == obj);
    proof {
        old(vm)@.lemma_took(obj);
    }
    if !PyIter::check(obj, vm) {
        let e = new_non_iterator_error(obj, vm);
        vm.give_back(obj);
        return Err(e);
    }
    let res = P::next(vm, PyIter::new(obj));
    proof {
        lemma_given_back(old(vm)@, vm@, old(vm)@.held, obj);
    }
    vm.give_back(obj);
    res
}

/// Compares the referent with `other`, or with its referent if it is a proxy.
pub fn proxy_compare<P: ObjectProtocol>(
    weak: &PyWeak,
    other: PyObjectRef,
    op: PyComparisonOp,
    vm: &mut VirtualMachine<P>,
) -> (res: PyResult<PyComparisonValue>)
    requires
        old(vm)@.wf(),
    ensures
        final(vm)@.kept_from(old(vm)@),
        match compared(*weak, other, old(vm)@) {
            Err(e) => raises(res, e) && final(vm)@ == old(vm)@,
            Ok((x, y)) => exists|v: &mut VirtualMachine<P>, reply: PyResult<bool>|
                {
                    &&& v@ == old(vm)@.took(x).took_opt(taken(other, old(vm)@))
                    &&& final(vm)@ == final(v)@.gave_back_opt(
                        taken(other, old(vm)@),
                    ).gave_back(x)
                    &&& #[trigger] call_ensures(P::rich_compare_bool, (v, x, y, op), reply)
                    &&& res == spec_comparison_result(reply)
                },
        },
{
    let obj = proxy_try_upgrade(weak, vm)?;
    proof {
        old(vm)@.lemma_took(obj);
    }
    let other_up = match proxy_upgrade_opt(other, vm) {
        Ok(other_up) => other_up,
        Err(e) => {
            vm.give_back(obj);
            return Err(e);
        },
    };
    let other_ref = match other_up {
        Some(referent) => referent,
        None => other,
    };
    proof {
        let target = compared(*weak, other, old(vm)@)->Ok_0;
        assert(target.0 == obj);
        assert(target.1 == other_ref);
        law_evolution_is_a_preorder(old(vm)@, old(vm)@.took(obj), vm@);
    }
    let ghost handed = vm@;
    let reply = P::rich_compare_bool(vm, obj, other_ref, op);
    proof {
        law_evolution_is_a_preorder(old(vm)@, handed, vm@);
        lemma_given_back_opt(old(vm)@, vm@, old(vm)@.held.insert(obj), other_up);
    }
    vm.give_back_opt(other_up);
    proof {
        lemma_given_back(old(vm)@, vm@, old(vm)@.held, obj);
    }
    vm.give_back(obj);
    comparison_result(reply)
}

/// Sets the item of the referent at `needle`, or deletes it where no value is given. The
/// strong reference to the value goes with it; a dead proxy drops it.
pub fn proxy_ass_item<P: ObjectProtocol>(
    weak: &PyWeak,
    needle: PyObjectRef,
    value: Option<PyObjectRef>,
    vm: &mut VirtualMachine<P>,
) -> (res: PyResult<()>)
    requires
        old(vm)@.wf(),
        old(vm)@.owns_opt(value),
    ensures
        final(vm)@.kept_from(old(vm)@),
        match try_upgraded(*weak, old(vm)@) {
            Err(e) => raises(res, e) && final(vm)@ == old(vm)@.released_opt(value),
            Ok(obj) => match value {
                Some(value) => exists|v: &mut VirtualMachine<P>|
                    {
                        &&& v@ == old(vm)@.took(obj)
                        &&& final(vm)@ == final(v)@.gave_back(obj)
                        &&& #[trigger] call_ensures(P::set_item, (v, obj, needle, value), res)
                    },
                None => exists|v: &mut VirtualMachine<P>|
                    {
                        &&& v@ == old(vm)@.took(obj)
                        &&& final(vm)@ == final(v)@.gave_back(obj)
                        &&& #[trigger] call_ensures(P::del_item, (v, obj, needle), res)
                    },
            },
        },
{
    let obj = match proxy_try_upgrade(weak, vm) {
        Ok(obj) => obj,
        Err(e) => {
            vm.release_opt(value);
            return Err(e);
        },
    };
    assert(try_upgraded(*weak, old(vm)@)->Ok_0 == obj);
    let res = if let Some(value) = value {
        P::set_item(vm, obj, needle, value)
    } else {
        P::del_item(vm, obj, needle)
    };
    proof {
        lemma_given_back(old(vm)@, vm@, old(vm)@.held, obj);
    }
    vm.give_back(obj);
    res
}

/// Hands the operand that `obj` stands for to `op`.
pub fn proxy_unary_op<P, F>(
    obj: PyObjectRef,
    vm: &mut VirtualMachine<P>,
    op: F,
) -> (res: PyResult<PyObjectRef>) where
    F: FnOnce(&mut VirtualMachine<P>, PyObjectRef) -> PyResult<PyObjectRef>,

    requires
        old(vm)@.wf(),
        old(vm)@.is_live(obj),
        operand(obj, old(vm)@) matches Ok(x) ==> forall|
            v: &mut VirtualMachine<P>,
        |
            v@ == old(vm)@.took(x) ==> #[trigger] call_requires(op, (v, x)),
        operand(obj, old(vm)@) matches Ok(x) ==> forall|
            v: &mut VirtualMachine<P>,
            res: PyResult<PyObjectRef>,
        |
            v@ == old(vm)@.took(x) && #[trigger] call_ensures(op, (v, x), res)
                ==> final(v)@.kept_from(v@),
    ensures
        final(vm)@.kept_from(old(vm)@),
        match operand(obj, old(vm)@) {
            Err(e) => raises(res, e) && final(vm)@ == old(vm)@,
            Ok(x) => exists|v: &mut VirtualMachine<P>|
                {
                    &&& v@ == old(vm)@.took(x)
                    &&& final(vm)@ == final(v)@.gave_back(x)
                    &&& #[trigger] call_ensures(op, (v, x), res)
                },
        },
{
    let upgraded = proxy_operand(obj, vm)?;
    assert(operand(obj, old(vm)@)->Ok_0 == upgraded);
    let res = op(vm, upgraded);
    proof {
        lemma_given_back(old(vm)@, vm@, old(vm)@.held, upgraded);
    }
    vm.give_back(upgraded);
    res
}

/// Hands the operands that `a` and `b` stand for to `op`.
pub fn proxy_binary_op<P, F>(
    a: PyObjectRef,
    b: PyObjectRef,
    vm: &mut VirtualMachine<P>,
    op: F,
) -> (res: PyResult<PyObjectRef>) where
    F: FnOnce(&mut VirtualMachine<P>, PyObjectRef, PyObjectRef) -> PyResult<PyObjectRef>,

    requires
        old(vm)@.wf(),
        operands(a, b, old(vm)@) matches Ok((x, y)) ==> forall|
            v: &mut VirtualMachine<P>,
        |
            v@ == both_took(a, b, old(vm)@) ==> #[trigger] call_requires(op, (v, x, y)),
        operands(a, b, old(vm)@) matches Ok((x, y)) ==> forall|
            v: &mut VirtualMachine<P>,
            res: PyResult<PyObjectRef>,
        |
            v@ == both_took(a, b, old(vm)@) && #[trigger] call_ensures(op, (v, x, y), res)
                ==> final(v)@.kept_from(v@),
    ensures
        final(vm)@.kept_from(old(vm)@),
        match operands(a, b, old(vm)@) {
            Err(e) => raises(res, e) && final(vm)@ == old(vm)@,
            Ok((x, y)) => exists|v: &mut VirtualMachine<P>|
                {
                    &&& v@ == both_took(a, b, old(vm)@)
                    &&& final(vm)@ == both_gave_back(a, b, old(vm)@, final(v)@)
                    &&& #[trigger] call_ensures(op, (v, x, y), res)
                },
        },
{
    let a_up = proxy_upgrade_opt(a, vm)?;
    proof {
        lemma_took_opt(old(vm)@, a_up);
    }
    let b_up = match proxy_upgrade_opt(b, vm) {
        Ok(b_up) => b_up,
        Err(e) => {
            vm.give_back_opt(a_up);
            return Err(e);
        },
    };
    proof {
        lemma_took_opt(old(vm)@.took_opt(a_up), b_up);
        law_evolution_is_a_preorder(old(vm)@, old(vm)@.took_opt(a_up), vm@);
    }
    let a_ref = match a_up {
        Some(referent) => referent,
        None => a,
    };
    let b_ref = match b_up {
        Some(referent) => referent,
        None => b,
    };
    proof {
        let target = operands(a, b, old(vm)@)->Ok_0;
        assert(target.0 == a_ref);
        assert(target.1 == b_ref);
    }
    let ghost handed = vm@;
    let res = op(vm, a_ref, b_ref);
    proof {
        law_evolution_is_a_preorder(old(vm)@, handed, vm@);
        lemma_given_back_opt(old(vm)@, vm@, old(vm)@.took_opt(a_up).held, b_up);
    }
    vm.give_back_opt(b_up);
    proof {
        lemma_given_back_opt(old(vm)@, vm@, old(vm)@.held, a_up);
    }
    vm.give_back_opt(a_up);
    res
}

/// Hands the operands that `a`, `b` and `c` stand for to `op`.
#[verifier::rlimit(60)]
pub fn proxy_ternary_op<P, F>(
    a: PyObjectRef,
    b: PyObjectRef,
    c: PyObjectRef,
    vm: &mut VirtualMachine<P>,
    op: F,
) -> (res: PyResult<PyObjectRef>) where
    F: FnOnce(&mut VirtualMachine<P>, PyObjectRef, PyObjectRef, PyObjectRef) -> PyResult<
        PyObjectRef,
    >,

    requires
        old(vm)@.wf(),
        three_operands(a, b, c, old(vm)@) matches Ok((x, y, z)) ==> forall|
            v: &mut VirtualMachine<P>,
        |
            v@ == three_took(a, b, c, old(vm)@) ==> #[trigger] call_requires(
                op,
                (v, x, y, z),
            ),
        three_operands(a, b, c, old(vm)@) matches Ok((x, y, z)) ==> forall|
            v: &mut VirtualMachine<P>,
            res: PyResult<PyObjectRef>,
        |
            v@ == three_took(a, b, c, old(vm)@) && #[trigger] call_ensures(
                op,
                (v, x, y, z),
                res,
            ) ==> final(v)@.kept_from(v@),
    ensures
        final(vm)@.kept_from(old(vm)@),
        match three_operands(a, b, c, old(vm)@) {
            Err(e) => raises(res, e) && final(vm)@ == old(vm)@,
            Ok((x, y, z)) => exists|v: &mut VirtualMachine<P>|
                {
                    &&& v@ == three_took(a, b, c, old(vm)@)
                    &&& final(vm)@ == three_gave_back(a, b, c, old(vm)@, final(v)@)
                    &&& #[trigger] call_ensures(op, (v, x, y, z), res)
                },
        },
{
    let a_up = proxy_upgrade_opt(a, vm)?;
    proof {
        lemma_took_opt(old(vm)@, a_up);
    }
    let b_up = match proxy_upgrade_opt(b, vm) {
        Ok(b_up) => b_up,
        Err(e) => {
            vm.give_back_opt(a_up);
            return Err(e);
        },
    };
    proof {
        lemma_took_opt(old(vm)@.took_opt(a_up), b_up);
        law_evolution_is_a_preorder(old(vm)@, old(vm)@.took_opt(a_up), vm@);
    }
    let c_up = match proxy_upgrade_opt(c, vm) {
        Ok(c_up) => c_up,
        Err(e) => {
            vm.give_back_opt(b_up);
            vm.give_back_opt(a_up);
            return Err(e);
        },
    };
    proof {
        lemma_took_opt(old(vm)@.took_opt(a_up).took_opt(b_up), c_up);
        law_evolution_is_a_preorder(old(vm)@, old(vm)@.took_opt(a_up).took_opt(b_up), vm@);
    }
    let a_ref = match a_up {
        Some(referent) => referent,
        None => a,
    };
    let b_ref = match b_up {
        Some(referent) => referent,
        None => b,
    };
    let c_ref = match c_up {
        Some(referent) => referent,
        None => c,
    };
    proof {
        let target = three_operands(a, b, c, old(vm)@)->Ok_0;
        assert(target.0 == a_ref);
        assert(target.1 == b_ref);
        assert(target.2 == c_ref);
    }
    let ghost handed = vm@;
    let res = op(vm, a_ref, b_ref, c_ref);
    proof {
        law_evolution_is_a_preorder(old(vm)@, handed, vm@);
        lemma_given_back_opt(old(vm)@, vm@, old(vm)@.took_opt(a_up).took_opt(b_up).held, c_up);
    }
    vm.give_back_opt(c_up);
    proof {
        lemma_given_back_opt(old(vm)@, vm@, old(vm)@.took_opt(a_up).held, b_up);
    }
    vm.give_back_opt(b_up);
    proof {
        lemma_given_back_opt(old(vm)@, vm@, old(vm)@.held, a_up);
    }
    vm.give_back_opt(a_up);
    res
}

/// The slot of an operation on one number.
pub fn proxy_unary_slot<P: ObjectProtocol>(
    op: UnaryOp,
    number: PyObjectRef,
    vm: &mut VirtualMachine<P>,
) -> (res: PyResult<PyObjectRef>)
    requires
        old(vm)@.wf(),
        old(vm)@.is_live(number),
    ensures
        final(vm)@.kept_from(old(vm)@),
        match operand(number, old(vm)@) {
            Err(e) => raises(res, e) && final(vm)@ == old(vm)@,
            Ok(x) => exists|v: &mut VirtualMachine<P>|
                {
                    &&& v@ == old(vm)@.took(x)
                    &&& final(vm)@ == final(v)@.gave_back(x)
                    &&& #[trigger] call_ensures(P::unary, (v, op, x), res)
                },
        },
{
    let apply = |
        vm: &mut VirtualMachine<P>,
        x: PyObjectRef,
    | -> (res: PyResult<PyObjectRef>)
        requires
            old(vm)@.wf(),
        ensures
            final(vm)@.kept_from(old(vm)@),
            (exists|v: &mut VirtualMachine<P>|
                v@ == old(vm)@ && final(vm)@ == final(v)@ && #[trigger] call_ensures(
                    P::unary,
                    (v, op, x),
                    res,
                )),
        { P::unary(vm, op, x) };
    proof {
        if let Ok(x) = operand(number, vm@) {
            vm@.lemma_took(x);
        }
    }
    proxy_unary_op(number, vm, apply)
}

/// The slot of an operation on two numbers.
pub fn proxy_binary_slot<P: ObjectProtocol>(
    op: BinaryOp,
    a: PyObjectRef,
    b: PyObjectRef,
    vm: &mut VirtualMachine<P>,
) -> (res: PyResult<PyObjectRef>)
    requires
        old(vm)@.wf(),
    ensures
        final(vm)@.kept_from(old(vm)@),
        match operands(a, b, old(vm)@) {
            Err(e) => raises(res, e) && final(vm)@ == old(vm)@,
            Ok((x, y)) => exists|v: &mut VirtualMachine<P>|
                {
                    &&& v@ == both_took(a, b, old(vm)@)
                    &&& final(vm)@ == both_gave_back(a, b, old(vm)@, final(v)@)
                    &&& #[trigger] call_ensures(P::binary, (v, op, x, y), res)
                },
        },
{
    let apply = |
        vm: &mut VirtualMachine<P>,
        x: PyObjectRef,
        y: PyObjectRef,
    | -> (res: PyResult<PyObjectRef>)
        requires
            old(vm)@.wf(),
        ensures
            final(vm)@.kept_from(old(vm)@),
            (exists|v: &mut VirtualMachine<P>|
                v@ == old(vm)@ && final(vm)@ == final(v)@ && #[trigger] call_ensures(
                    P::binary,
                    (v, op, x, y),
                    res,
                )),
        { P::binary(vm, op, x, y) };
    proof {
        if operands(a, b, vm@) is Ok {
            lemma_took_opt(vm@, taken(a, vm@));
            lemma_took_opt(vm@.took_opt(taken(a, vm@)), taken(b, vm@));
        }
    }
    proxy_binary_op(a, b, vm, apply)
}

/// The slot of an operation on three numbers.
pub fn proxy_ternary_slot<P: ObjectProtocol>(
    op: TernaryOp,
    a: PyObjectRef,
    b: PyObjectRef,
    c: PyObjectRef,
    vm: &mut VirtualMachine<P>,
) -> (res: PyResult<PyObjectRef>)
    requires
        old(vm)@.wf(),
    ensures
        final(vm)@.kept_from(old(vm)@),
        match three_operands(a, b, c, old(vm)@) {
            Err(e) => raises(res, e) && final(vm)@ == old(vm)@,
            Ok((x, y, z)) => exists|v: &mut VirtualMachine<P>|
                {
                    &&& v@ == three_took(a, b, c, old(vm)@)
                    &&& final(vm)@ == three_gave_back(a, b, c, old(vm)@, final(v)@)
                    &&& #[trigger] call_ensures(P::ternary, (v, op, x, y, z), res)
                },
        },
{
    let apply = |
        vm: &mut VirtualMachine<P>,
        x: PyObjectRef,
        y: PyObjectRef,
        z: PyObjectRef,
    | -> (res: PyResult<PyObjectRef>)
        requires
            old(vm)@.wf(),
        ensures
            final(vm)@.kept_from(old(vm)@),
            (exists|v: &mut VirtualMachine<P>|
                v@ == old(vm)@ && final(vm)@ == final(v)@ && #[trigger] call_ensures(
                    P::ternary,
                    (v, op, x, y, z),
                    res,
                )),
        { P::ternary(vm, op, x, y, z) };
    proof {
        if three_operands(a, b, c, vm@) is Ok {
            lemma_took_opt(vm@, taken(a, vm@));
            lemma_took_opt(vm@.took_opt(taken(a, vm@)), taken(b, vm@));
            lemma_took_opt(vm@.took_opt(taken(a, vm@)).took_opt(taken(b, vm@)), taken(c, vm@));
        }
    }
    proxy_ternary_op(a, b, c, vm, apply)
}

/// The slot of the conversion to `int`.
pub fn proxy_int_slot<P: ObjectProtocol>(
    number: PyObjectRef,
    vm: &mut VirtualMachine<P>,
) -> (res: PyResult<PyObjectRef>)
    requires
        old(vm)@.wf(),
        old(vm)@.is_live(number),
    ensures
        final(vm)@.kept_from(old(vm)@),
        match operand(number, old(vm)@) {
            Err(e) => raises(res, e) && final(vm)@ == old(vm)@,
            Ok(obj) => exists|v: &mut VirtualMachine<P>, reply: PyResult<PyIntRef>|
                {
                    &&& v@ == old(vm)@.took(obj)
                    &&& final(vm)@ == final(v)@.gave_back(obj)
                    &&& #[trigger] call_ensures(P::try_int, (v, obj), reply)
                    &&& res == spec_int_result(reply)
                },
        },
{
    let obj = proxy_operand(number, vm)?;
    assert(operand(number, old(vm)@)->Ok_0 == obj);
    let reply = P::try_int(vm, obj);
    proof {
        lemma_given_back(old(vm)@, vm@, old(vm)@.held, obj);
    }
    vm.give_back(obj);
    int_result(reply)
}

/// The slot of the conversion to `float`.
pub fn proxy_float_slot<P: ObjectProtocol>(
    number: PyObjectRef,
    vm: &mut VirtualMachine<P>,
) -> (res: PyResult<PyObjectRef>)
    requires
        old(vm)@.wf(),
        old(vm)@.is_live(number),
    ensures
        final(vm)@.kept_from(old(vm)@),
        match operand(number, old(vm)@) {
            Err(e) => raises(res, e) && final(vm)@ == old(vm)@,
            Ok(obj) => exists|v: &mut VirtualMachine<P>, reply: PyResult<PyFloatRef>|
                {
                    &&& v@ == old(vm)@.took(obj)
                    &&& final(vm)@ == final(v)@.gave_back(obj)
                    &&& #[trigger] call_ensures(P::try_float, (v, obj), reply)
                    &&& res == spec_float_result(reply)
                },
        },
{
    let obj = proxy_operand(number, vm)?;
    assert(operand(number, old(vm)@)->Ok_0 == obj);
    let reply = P::try_float(vm, obj);
    proof {
        lemma_given_back(old(vm)@, vm@, old(vm)@.held, obj);
    }
    vm.give_back(obj);
    float_result(reply)
}

/// The slot of the conversion to an index.
pub fn proxy_index_slot<P: ObjectProtocol>(
    number: PyObjectRef,
    vm: &mut VirtualMachine<P>,
) -> (res: PyResult<PyObjectRef>)
    requires
        old(vm)@.wf(),
        old(vm)@.is_live(number),
    ensures
        final(vm)@.kept_from(old(vm)@),
        match operand(number, old(vm)@) {
            Err(e) => raises(res, e) && final(vm)@ == old(vm)@,
            Ok(obj) => exists|v: &mut VirtualMachine<P>, reply: PyResult<PyIntRef>|
                {
                    &&& v@ == old(vm)@.took(obj)
                    &&& final(vm)@ == final(v)@.gave_back(obj)
                    &&& #[trigger] call_ensures(P::try_index, (v, obj), reply)
                    &&& res == spec_int_result(reply)
                },
        },
{
    let obj = proxy_operand(number, vm)?;
    assert(operand(number, old(vm)@)->Ok_0 == obj);
    let reply = P::try_index(vm, obj);
    proof {
        lemma_given_back(old(vm)@, vm@, old(vm)@.held, obj);
    }
    vm.give_back(obj);
    int_result(reply)
}

/// The number slots of a proxy: all of them are filled. The conversions are
/// carried out by the function of the proxy's type for the truth value and by
/// [`proxy_int_slot`], [`proxy_float_slot`] and [`proxy_index_slot`]; the other
/// operations by [`proxy_unary_slot`], [`proxy_binary_slot`] and
/// [`proxy_ternary_slot`].
pub open spec fn number_methods() -> PyNumberMethods {
    PyNumberMethods {
        boolean: Some(ConversionOp::Bool),
        int: Some(ConversionOp::Int),
        float: Some(ConversionOp::Float),
        index: Some(ConversionOp::Index),
        negative: Some(UnaryOp::Neg),
        positive: Some(UnaryOp::Pos),
        absolute: Some(UnaryOp::Abs),
        invert: Some(UnaryOp::Invert),
        add: Some(BinaryOp::Add),
        subtract: Some(BinaryOp::Sub),
        multiply: Some(BinaryOp::Mul),
        remainder: Some(BinaryOp::Mod),
        divmod: Some(BinaryOp::Divmod),
        lshift: Some(BinaryOp::Lshift),
        rshift: Some(BinaryOp::Rshift),
        and: Some(BinaryOp::And),
        xor: Some(BinaryOp::Xor),
        or: Some(BinaryOp::Or),
        floor_divide: Some(BinaryOp::Floordiv),
        true_divide: Some(BinaryOp::Truediv),
        matrix_multiply: Some(BinaryOp::Matmul),
        inplace_add: Some(BinaryOp::Iadd),
        inplace_subtract: Some(BinaryOp::Isub),
        inplace_multiply: Some(BinaryOp::Imul),
        inplace_remainder: Some(BinaryOp::Imod),
        inplace_lshift: Some(BinaryOp::Ilshift),
        inplace_rshift: Some(BinaryOp::Irshift),
        inplace_and: Some(BinaryOp::Iand),
        inplace_xor: Some(BinaryOp::Ixor),
        inplace_or: Some(BinaryOp::Ior),
        inplace_floor_divide: Some(BinaryOp::Ifloordiv),
        inplace_true_divide: Some(BinaryOp::Itruediv),
        inplace_matrix_multiply: Some(BinaryOp::Imatmul),
        power: Some(TernaryOp::Pow),
        inplace_power: Some(TernaryOp::Ipow),
    }
}

/// The number slots of a proxy.
pub fn proxy_number_methods() -> (methods: PyNumberMethods)
    ensures
        methods == number_methods(),
{
    PyNumberMethods {
        boolean: Some(ConversionOp::Bool),
        int: Some(ConversionOp::Int),
        float: Some(ConversionOp::Float),
        index: Some(ConversionOp::Index),
        negative: Some(UnaryOp::Neg),
        positive: Some(UnaryOp::Pos),
        absolute: Some(UnaryOp::Abs),
        invert: Some(UnaryOp::Invert),
        add: Some(BinaryOp::Add),
        subtract: Some(BinaryOp::Sub),
        multiply: Some(BinaryOp::Mul),
        remainder: Some(BinaryOp::Mod),
        divmod: Some(BinaryOp::Divmod),
        lshift: Some(BinaryOp::Lshift),
        rshift: Some(BinaryOp::Rshift),
        and: Some(BinaryOp::And),
        xor: Some(BinaryOp::Xor),
        or: Some(BinaryOp::Or),
        floor_divide: Some(BinaryOp::Floordiv),
        true_divide: Some(BinaryOp::Truediv),
        matrix_multiply: Some(BinaryOp::Matmul),
        inplace_add: Some(BinaryOp::Iadd),
        inplace_subtract: Some(BinaryOp::Isub),
        inplace_multiply: Some(BinaryOp::Imul),
        inplace_remainder: Some(BinaryOp::Imod),
        inplace_lshift: Some(BinaryOp::Ilshift),
        inplace_rshift: Some(BinaryOp::Irshift),
        inplace_and: Some(BinaryOp::Iand),
        inplace_xor: Some(BinaryOp::Ixor),
        inplace_or: Some(BinaryOp::Ior),
        inplace_floor_divide: Some(BinaryOp::Ifloordiv),
        inplace_true_divide: Some(BinaryOp::Itruediv),
        inplace_matrix_multiply: Some(BinaryOp::Imatmul),
        power: Some(TernaryOp::Pow),
        inplace_power: Some(TernaryOp::Ipow),
    }
}

/// The sequence slots of a proxy: the number of items and the search for one. The
/// others are empty.
pub open spec fn sequence_methods() -> PySequenceMethods {
    PySequenceMethods {
        length: Some(SequenceOp::Length),
        contains: Some(SequenceOp::Contains),
        ..PySequenceMethods::spec_not_implemented()
    }
}

/// The sequence slots of a proxy.
pub fn proxy_sequence_methods() -> (methods: PySequenceMethods)
    ensures
        methods == sequence_methods(),
{
    PySequenceMethods {
        length: Some(SequenceOp::Length),
        contains: Some(SequenceOp::Contains),
        ..PySequenceMethods::not_implemented()
    }
}

/// The mapping slots of a proxy.
pub open spec fn mapping_methods() -> PyMappingMethods {
    PyMappingMethods {
        length: Some(MappingOp::Length),
        subscript: Some(MappingOp::Subscript),
        ass_subscript: Some(MappingOp::AssSubscript),
    }
}

/// The mapping slots of a proxy.
pub fn proxy_mapping_methods() -> (methods: PyMappingMethods)
    ensures
        methods == mapping_methods(),
{
    PyMappingMethods {
        length: Some(MappingOp::Length),
        subscript: Some(MappingOp::Subscript),
        ass_subscript: Some(MappingOp::AssSubscript),
    }
}

} // verus!
