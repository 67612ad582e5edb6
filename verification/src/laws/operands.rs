//! What the operations on proxies work on, and what is raised where they cannot.

use vstd::prelude::*;

use crate::object::{ExceptionView, PyObjectRef, PyTypeRef, PyWeak};
use crate::proxy::{
    both_gave_back, both_took, compared, non_iterator_error, operand, operands, proxied,
    reference_error, taken, three_gave_back, three_operands, three_took, try_upgraded,
    unhashable_error, weak_subclass_made,
};
use crate::vm::{Context, Payload, PyObject, VmState};
use crate::weakcallableproxy::PyWeakCallableProxy;
use crate::weakproxy::PyWeakProxy;

verus! {

/// The three exceptions that are raised here: their classes and their messages.
pub proof fn law_what_is_raised<P>(
    obj: PyObjectRef,
    class: PyTypeRef,
    payload: Payload,
    state: VmState<P>,
)
    requires
        obj.id < state.objects.len(),
        state.objects[obj.id as int] == Some(PyObject { class, payload }),
    ensures
        ({
            let name = state.ctx.classes@[class.index as int].name@;
            let type_error = state.ctx.exceptions.type_error;
            &&& reference_error(state.ctx).class == state.ctx.exceptions.reference_error
            &&& reference_error(state.ctx).msg == "weakly-referenced object no longer exists"@
            &&& non_iterator_error(obj, state).class == type_error
            &&& non_iterator_error(obj, state).msg == "Weakref proxy referenced a non-iterator '"@
                + name + "' object"@
            &&& unhashable_error(class, state.ctx).class == type_error
            &&& unhashable_error(class, state.ctx).msg == "unhashable type: '"@ + name + "'"@
        }),
{
}

/// A proxy of either kind, whatever its callback and its class, stands for the
/// referent of its weak reference while that lives; after that there is
/// `ReferenceError`. A strong reference to the referent is taken for the operation.
pub proof fn law_every_proxy_stands_for_its_referent<P>(
    obj: PyObjectRef,
    class: PyTypeRef,
    weak: PyWeak,
    state: VmState<P>,
)
    requires
        obj.id < state.objects.len(),
        state.objects[obj.id as int] == Some(
            PyObject { class, payload: Payload::WeakProxy(PyWeakProxy { weak }) },
        ) || state.objects[obj.id as int] == Some(
            PyObject { class, payload: Payload::WeakCallableProxy(PyWeakCallableProxy { weak }) },
        ),
    ensures
        ({
            let at = weak.referent.id as int;
            if at < state.objects.len() && state.objects[at] is Some {
                &&& operand(obj, state) == Ok::<PyObjectRef, ExceptionView>(weak.referent)
                &&& try_upgraded(weak, state) == Ok::<PyObjectRef, ExceptionView>(weak.referent)
            } else {
                &&& operand(obj, state) matches Err(e)
                &&& e.class == state.ctx.exceptions.reference_error
                &&& e.msg == "weakly-referenced object no longer exists"@
                &&& try_upgraded(weak, state) == Err::<PyObjectRef, ExceptionView>(e)
            }
        }),
        proxied(obj, state) == Some(weak),
        taken(obj, state) == Some(weak.referent),
{
}

/// An object that is no proxy stands for itself, and so does one that is gone. No
/// strong reference is taken.
pub proof fn law_whatever_is_no_proxy_stands_for_itself<P>(obj: PyObjectRef, state: VmState<P>)
    requires
        obj.id < state.objects.len() ==> (state.objects[obj.id as int] matches Some(object)
            ==> object.payload is Other),
    ensures
        operand(obj, state) == Ok::<PyObjectRef, ExceptionView>(obj),
        proxied(obj, state) is None,
        taken(obj, state) is None,
{
}

/// A weak reference with a living referent gives it, and any other `ReferenceError`,
/// whatever the callback and the class.
pub proof fn law_upgrade_rests_on_the_referent_alone<P>(weak: PyWeak, state: VmState<P>)
    ensures
        ({
            let at = weak.referent.id as int;
            if at < state.objects.len() && state.objects[at] is Some {
                try_upgraded(weak, state) == Ok::<PyObjectRef, ExceptionView>(weak.referent)
            } else {
                &&& try_upgraded(weak, state) matches Err(e)
                &&& e.class == state.ctx.exceptions.reference_error
                &&& e.msg == "weakly-referenced object no longer exists"@
            }
        }),
{
}

/// An operation on several objects works on what each of them stands for, in the
/// order in which they were given, and needs all of them. A comparison starts from
/// the referent of the proxy that it was asked of.
pub proof fn law_operands_keep_their_places<P>(
    a: PyObjectRef,
    b: PyObjectRef,
    c: PyObjectRef,
    weak: PyWeak,
    state: VmState<P>,
)
    ensures
        operand(a, state) is Ok && operand(b, state) is Ok <==> operands(a, b, state) is Ok,
        operands(a, b, state) matches Ok(both) ==> operand(a, state) == Ok::<_, ExceptionView>(
            both.0,
        ) && operand(b, state) == Ok::<_, ExceptionView>(both.1),
        operands(a, b, state) matches Err(e) ==> e == reference_error(state.ctx),
        operands(a, b, state) is Ok && operand(c, state) is Ok <==> three_operands(a, b, c, state)
            is Ok,
        three_operands(a, b, c, state) matches Ok(all) ==> operand(a, state) == Ok::<
            _,
            ExceptionView,
        >(all.0) && operand(b, state) == Ok::<_, ExceptionView>(all.1) && operand(c, state) == Ok::<
            _,
            ExceptionView,
        >(all.2),
        three_operands(a, b, c, state) matches Err(e) ==> e == reference_error(state.ctx),
        try_upgraded(weak, state) is Ok && operand(b, state) is Ok <==> compared(weak, b, state)
            is Ok,
        compared(weak, b, state) matches Ok(both) ==> both.0 == weak.referent && operand(b, state)
            == Ok::<_, ExceptionView>(both.1),
        compared(weak, b, state) matches Err(e) ==> e == reference_error(state.ctx),
{
}

/// The references that an operation on several objects takes are those to the
/// referents of the proxies among them, one for each, and when it is over it has
/// given them all back.
pub proof fn law_operations_take_and_give_back_alike<P>(
    a: PyObjectRef,
    b: PyObjectRef,
    c: PyObjectRef,
    pre: VmState<P>,
    post: VmState<P>,
)
    ensures
        both_took(a, b, pre) == pre.took_opt(taken(a, pre)).took_opt(taken(b, pre)),
        three_took(a, b, c, pre) == both_took(a, b, pre).took_opt(taken(c, pre)),
        both_gave_back(a, b, pre, post) == post.gave_back_opt(taken(b, pre)).gave_back_opt(
            taken(a, pre),
        ),
        three_gave_back(a, b, c, pre, post) == both_gave_back(
            a,
            b,
            pre,
            post.gave_back_opt(taken(c, pre)),
        ),
        pre.wf() && three_operands(a, b, c, pre) is Ok ==> three_gave_back(
            a,
            b,
            c,
            pre,
            three_took(a, b, c, pre),
        ) == pre && both_gave_back(a, b, pre, both_took(a, b, pre)) == pre,
{
    if pre.wf() && three_operands(a, b, c, pre) is Ok {
        let one = pre.took_opt(taken(a, pre));
        let two = one.took_opt(taken(b, pre));
        crate::proxy::lemma_took_opt(pre, taken(a, pre));
        crate::proxy::lemma_took_opt(one, taken(b, pre));
        crate::proxy::lemma_took_opt(two, taken(c, pre));
    }
}

/// The first weak reference behind a proxy makes the class of all of them: a class
/// after all others, in no module, by the name `__weakproxy`, derived from the weak
/// reference type, with the slots of a weak reference class. A later one makes none.
pub proof fn law_the_class_of_weak_references(pre: Context, post: Context)
    requires
        weak_subclass_made(pre, post),
        pre.classes@.len() <= usize::MAX,
    ensures
        pre.weak_subclass is Some ==> post == pre,
        pre.weak_subclass is None ==> {
            let made = post.classes@.last();
            &&& post.classes@.len() == pre.classes@.len() + 1
            &&& post.classes@.drop_last() == pre.classes@
            &&& post.weak_subclass == Some(PyTypeRef { index: pre.classes@.len() as usize })
            &&& post.types == pre.types
            &&& post.exceptions == pre.exceptions
            &&& made.module is None
            &&& made.name@ == "__weakproxy"@
            &&& made.base == Some(pre.types.weakref_type)
            &&& made.has_weakref == pre.classes@[pre.types.weakref_type.index as int].has_weakref
            &&& made.slots.new && made.slots.richcompare && made.slots.call && made.slots.repr
            &&& !made.slots.getattro && !made.slots.setattro
            &&& !made.slots.as_number && !made.slots.as_sequence && !made.slots.as_mapping
            &&& !made.slots.iter && !made.slots.iternext
            &&& !made.slots.str_method && !made.slots.bytes_method && !made.slots.reversed_method
            &&& !made.slots.unhashable
        },
{
    if pre.weak_subclass is None {
        assert(post.classes@.drop_last() =~= pre.classes@);
    }
}

} // verus!
