//! What the state of an interpreter is made of, and what the steps on it do.

use vstd::multiset::Multiset;
use vstd::prelude::*;

use crate::object::{PyIter, PyObjectRef, PyTypeRef, PyWeak};
use crate::vm::{Context, Payload, PyObject, PyTypeSlots, VirtualMachine, VmState, callbacks};
use crate::weakcallableproxy::PyWeakCallableProxy;
use crate::weakproxy::PyWeakProxy;

verus! {

/// The state of an interpreter is all that it holds.
pub proof fn law_state_leaves_nothing_out<P>(vm: VirtualMachine<P>)
    ensures
        vm@.ctx == vm.ctx,
        vm@.objects == vm.objects@,
        vm@.held == vm.held@,
        vm@.host == vm.host,
        vm@.strong == vm.strong@.to_multiset(),
{
}

/// A handle leads to the entry of its number, and to nothing where that is empty or
/// not there. The object lives as long as the entry is there, and its class is the
/// one that the entry names.
pub proof fn law_handle_leads_to_its_entry<P>(
    obj: PyObjectRef,
    class: PyTypeRef,
    payload: Payload,
    state: VmState<P>,
)
    ensures
        obj.id >= state.objects.len() ==> state.object(obj) is None,
        obj.id < state.objects.len() ==> state.object(obj) == state.objects[obj.id as int],
        state.is_live(obj) <==> obj.id < state.objects.len() && state.objects[obj.id as int]
            is Some,
        obj.id < state.objects.len() && state.objects[obj.id as int] == Some(
            PyObject { class, payload },
        ) ==> state.class_of(obj) == state.ctx.classes@[class.index as int],
{
}

/// A handle to a class leads to the class of its number, if there are that many.
pub proof fn law_class_handle_leads_to_its_class(class: PyTypeRef, ctx: Context)
    ensures
        ctx.has_class(class) <==> class.index < ctx.classes@.len(),
        ctx.class(class) == ctx.classes@[class.index as int],
{
}

/// A living object is an iterator exactly when its class has the slot for the next
/// item. No other slot has a part in it.
pub proof fn law_iterators_have_the_slot_for_the_next_item<P>(
    obj: PyObjectRef,
    class: PyTypeRef,
    payload: Payload,
    vm: VirtualMachine<P>,
    is_iterator: bool,
)
    requires
        obj.id < vm.objects@.len(),
        vm.objects@[obj.id as int] == Some(PyObject { class, payload }),
        is_iterator == vm@.is_iterator(obj) || call_ensures(
            PyIter::check::<P>,
            (obj, &vm),
            is_iterator,
        ),
    ensures
        is_iterator == vm.ctx.classes@[class.index as int].slots.iternext,
{
}

/// Whatever else two classes differ in, their instances are alike iterators if both
/// classes have the slot for the next item, or neither has.
pub proof fn law_other_slots_make_no_iterator<P>(
    one: PyObjectRef,
    other: PyObjectRef,
    state: VmState<P>,
)
    requires
        state.class_of(one).slots.iternext == state.class_of(other).slots.iternext,
    ensures
        state.is_iterator(one) == state.is_iterator(other),
{
}

/// A weak reference can be made to a living object exactly when the class of the
/// object supports weak references, whatever its slots are. It then refers to that
/// object, with the callback and of the class that were given; otherwise `TypeError`
/// is raised.
pub proof fn law_weak_reference_needs_support_alone<P>(
    referent: PyObjectRef,
    class: PyTypeRef,
    payload: Payload,
    callback: Option<PyObjectRef>,
    typ: PyTypeRef,
    state: VmState<P>,
)
    requires
        referent.id < state.objects.len(),
        state.objects[referent.id as int] == Some(PyObject { class, payload }),
    ensures
        ({
            let made = state.downgraded(referent, callback, typ);
            let of = state.ctx.classes@[class.index as int];
            &&& of.has_weakref <==> made is Ok
            &&& made matches Ok(weak) ==> weak.referent == referent && weak.callback == callback
                && weak.typ == typ
            &&& made matches Err(e) ==> e.class == state.ctx.exceptions.type_error && e.msg
                == "cannot create weak reference to '"@ + of.name@ + "' object"@
        }),
{
}

/// An object is a proxy of a kind exactly when its payload is one, whatever is in it.
pub proof fn law_proxies_are_known_by_their_payload<P>(obj: PyObjectRef, state: VmState<P>)
    ensures
        state.weak_proxy(obj) is Some <==> {
            &&& obj.id < state.objects.len()
            &&& state.objects[obj.id as int] matches Some(object)
            &&& object.payload is WeakProxy
        },
        state.weak_proxy(obj) matches Some(proxy) ==> proxy.object == obj && Payload::WeakProxy(
            proxy.payload,
        ) == state.objects[obj.id as int]->0.payload,
        state.weak_callable_proxy(obj) is Some <==> {
            &&& obj.id < state.objects.len()
            &&& state.objects[obj.id as int] matches Some(object)
            &&& object.payload is WeakCallableProxy
        },
        state.weak_callable_proxy(obj) matches Some(proxy) ==> proxy.object == obj
            && Payload::WeakCallableProxy(proxy.payload)
            == state.objects[obj.id as int]->0.payload,
{
}

/// The strong references of proxies are one to the callback of each living proxy
/// that has one, of either kind. Dead entries and other objects have none.
pub proof fn law_proxies_own_their_callbacks(
    objects: Seq<Option<PyObject>>,
    class: PyTypeRef,
    weak: PyWeak,
)
    ensures
        callbacks(Seq::empty()) == Multiset::<PyObjectRef>::empty(),
        callbacks(objects.push(None)) == callbacks(objects),
        callbacks(objects.push(Some(PyObject { class, payload: Payload::Other }))) == callbacks(
            objects,
        ),
        ({
            let payload = Payload::WeakProxy(PyWeakProxy { weak });
            let more = callbacks(objects.push(Some(PyObject { class, payload })));
            match weak.callback {
                Some(callback) => more == callbacks(objects).insert(callback),
                None => more == callbacks(objects),
            }
        }),
        ({
            let payload = Payload::WeakCallableProxy(PyWeakCallableProxy { weak });
            let more = callbacks(objects.push(Some(PyObject { class, payload })));
            match weak.callback {
                Some(callback) => more == callbacks(objects).insert(callback),
                None => more == callbacks(objects),
            }
        }),
{
    let plain = PyObject { class, payload: Payload::WeakProxy(PyWeakProxy { weak }) };
    let callable = PyObject {
        class,
        payload: Payload::WeakCallableProxy(PyWeakCallableProxy { weak }),
    };
    assert(objects.push(None).drop_last() =~= objects);
    assert(objects.push(Some(PyObject { class, payload: Payload::Other })).drop_last() =~= objects);
    assert(objects.push(Some(plain)).drop_last() =~= objects);
    assert(objects.push(Some(callable)).drop_last() =~= objects);
}

/// A reference may be given away exactly when more strong references exist than are
/// held or belong to proxies.
pub proof fn law_what_may_be_given_away<P>(
    obj: PyObjectRef,
    refs: Seq<PyObjectRef>,
    state: VmState<P>,
)
    ensures
        state.free(obj) == state.strong.count(obj) - state.held.count(obj) - callbacks(
            state.objects,
        ).count(obj),
        state.owns(obj) <==> state.held.count(obj) + callbacks(state.objects).count(obj)
            < state.strong.count(obj),
        state.owns_opt(Some(obj)) == state.owns(obj),
        state.owns_opt(None),
        state.owns_all(refs) <==> forall|x: PyObjectRef| #[trigger]
            refs.to_multiset().count(x) + state.held.count(x) + callbacks(state.objects).count(x)
                <= state.strong.count(x),
{
    assert forall|x: PyObjectRef| state.owns_all(refs) implies #[trigger] refs.to_multiset().count(
        x,
    ) + state.held.count(x) + callbacks(state.objects).count(x) <= state.strong.count(x) by {
        assert(refs.to_multiset().count(x) <= state.free(x));
    }
}

/// The classes are well formed exactly when the named ones exist, the two proxy
/// classes are different, and the class of the weak references inside proxies, if it
/// has been made, is a direct subclass of the weak reference type by its name.
pub proof fn law_well_formed_classes(ctx: Context)
    ensures
        ctx.wf() <==> {
            let n = ctx.classes@.len();
            &&& ctx.types.weakref_type.index < n
            &&& ctx.types.weakproxy_type.index < n
            &&& ctx.types.weakcallableproxy_type.index < n
            &&& ctx.exceptions.reference_error.index < n
            &&& ctx.exceptions.type_error.index < n
            &&& ctx.types.weakproxy_type.index != ctx.types.weakcallableproxy_type.index
            &&& ctx.weak_subclass matches Some(class) ==> class.index < n && {
                let made = ctx.classes@[class.index as int];
                &&& made.module is None
                &&& made.name@ == "__weakproxy"@
                &&& made.base == Some(ctx.types.weakref_type)
            }
        },
{
}

/// A state is well formed exactly when its classes are, its living objects are of
/// existing classes, an object lives just as long as there is a strong reference to
/// it, and no reference belongs to two.
pub proof fn law_well_formed_states<P>(state: VmState<P>)
    ensures
        state.wf() <==> {
            &&& state.ctx.wf()
            &&& forall|obj: PyObjectRef|
                (obj.id < state.objects.len() && #[trigger] state.objects[obj.id as int] is Some)
                    ==> state.objects[obj.id as int]->0.class.index < state.ctx.classes@.len()
            &&& forall|obj: PyObjectRef| #[trigger]
                state.strong.count(obj) > 0 <==> (obj.id < state.objects.len()
                    && state.objects[obj.id as int] is Some)
            &&& forall|obj: PyObjectRef|
                state.held.count(obj) + callbacks(state.objects).count(obj)
                    <= #[trigger] state.strong.count(obj)
        },
{
    if state.wf() {
        assert forall|obj: PyObjectRef|
            (obj.id < state.objects.len() && #[trigger] state.objects[obj.id as int] is Some)
            implies state.objects[obj.id as int]->0.class.index < state.ctx.classes@.len() by {
            assert(state.object(obj) == state.objects[obj.id as int]);
        }
        assert forall|obj: PyObjectRef| #[trigger]
            state.strong.count(obj) > 0 <==> (obj.id < state.objects.len()
                && state.objects[obj.id as int] is Some) by {
            assert(state.is_live(obj) <==> state.strong.count(obj) > 0);
        }
        assert forall|obj: PyObjectRef|
            state.held.count(obj) + callbacks(state.objects).count(obj)
                <= #[trigger] state.strong.count(obj) by {
            assert(state.free(obj) >= 0);
        }
    } else if state.ctx.wf() && (forall|obj: PyObjectRef|
        (obj.id < state.objects.len() && #[trigger] state.objects[obj.id as int] is Some)
            ==> state.objects[obj.id as int]->0.class.index < state.ctx.classes@.len()) && (forall|
        obj: PyObjectRef,
    | #[trigger]
        state.strong.count(obj) > 0 <==> (obj.id < state.objects.len()
            && state.objects[obj.id as int] is Some)) && (forall|obj: PyObjectRef|
        state.held.count(obj) + callbacks(state.objects).count(obj)
            <= #[trigger] state.strong.count(obj)) {
        assert forall|obj: PyObjectRef| #[trigger]
            state.object(obj) matches Some(object) implies state.ctx.has_class(
            state.object(obj)->0.class,
        ) by {
            assert(state.objects[obj.id as int] is Some);
        }
        assert forall|obj: PyObjectRef| #[trigger] state.is_live(obj) <==> state.strong.count(obj)
            > 0 by {}
        assert forall|obj: PyObjectRef| #[trigger] state.free(obj) >= 0 by {
            assert(state.strong.count(obj) >= 0);
        }
        assert(state.wf());
    }
}

/// One state can come after another exactly when it has the classes that were named,
/// and the class of the weak references inside proxies if it had been made; no class
/// and no entry is taken away; and what lives in an old entry lived there before, with
/// the same payload.
pub proof fn law_what_a_later_state_keeps<P>(post: VmState<P>, pre: VmState<P>)
    ensures
        post.evolved_from(pre) <==> {
            &&& pre.ctx.classes@.len() <= post.ctx.classes@.len()
            &&& post.ctx.types == pre.ctx.types
            &&& post.ctx.exceptions == pre.ctx.exceptions
            &&& pre.ctx.weak_subclass is Some ==> post.ctx.weak_subclass == pre.ctx.weak_subclass
            &&& pre.objects.len() <= post.objects.len()
            &&& forall|obj: PyObjectRef|
                obj.id < pre.objects.len() && #[trigger] post.objects[obj.id as int] is Some
                    ==> pre.objects[obj.id as int] is Some
                    && pre.objects[obj.id as int]->0.payload
                    == post.objects[obj.id as int]->0.payload
        },
        post.kept_from(pre) <==> post.evolved_from(pre) && post.wf() && post.held == pre.held,
{
    if post.evolved_from(pre) {
        assert forall|obj: PyObjectRef|
            obj.id < pre.objects.len() && #[trigger] post.objects[obj.id as int] is Some implies {
            &&& pre.objects[obj.id as int] is Some
            &&& pre.objects[obj.id as int]->0.payload == post.objects[obj.id as int]->0.payload
        } by {
            assert(post.object(obj) == post.objects[obj.id as int]);
        }
    } else if pre.objects.len() <= post.objects.len() && (forall|obj: PyObjectRef|
        obj.id < pre.objects.len() && #[trigger] post.objects[obj.id as int] is Some
            ==> pre.objects[obj.id as int] is Some && pre.objects[obj.id as int]->0.payload
            == post.objects[obj.id as int]->0.payload) {
        assert forall|obj: PyObjectRef| obj.id < pre.objects.len() implies (
            #[trigger] post.object(obj) matches Some(now) ==> {
            &&& pre.object(obj) matches Some(was)
            &&& now.payload == was.payload
        }) by {
            assert(post.object(obj) == post.objects[obj.id as int]);
        }
    }
}

/// Taking a reference adds one strong reference that is held. Holding one that is
/// there, or holding it no longer, changes what is held and nothing else.
pub proof fn law_references_that_are_held<P>(obj: PyObjectRef, state: VmState<P>)
    ensures
        state.retained(obj) == (VmState { strong: state.strong.insert(obj), ..state }),
        state.took(obj) == (VmState {
            strong: state.strong.insert(obj),
            held: state.held.insert(obj),
            ..state
        }),
        state.adopted(obj) == (VmState { held: state.held.insert(obj), ..state }),
        state.handed_on(obj) == (VmState { held: state.held.remove(obj), ..state }),
        state.gave_back(obj) == (VmState { held: state.held.remove(obj), ..state }).released(obj),
        state.took_opt(Some(obj)) == state.took(obj),
        state.took_opt(None) == state,
        state.gave_back_opt(Some(obj)) == state.gave_back(obj),
        state.gave_back_opt(None) == state,
{
}

/// Dropping a reference that is not the last one takes the reference away and
/// nothing else. The last one takes the object with it, and, where that is a proxy
/// with a callback, the reference to the callback is dropped next.
pub proof fn law_dropping_a_reference<P>(
    obj: PyObjectRef,
    class: PyTypeRef,
    payload: Payload,
    refs: Seq<PyObjectRef>,
    state: VmState<P>,
)
    requires
        obj.id < state.objects.len(),
        state.objects[obj.id as int] == Some(PyObject { class, payload }),
        state.strong.count(obj) > 0,
    ensures
        state.strong.count(obj) > 1 ==> state.released(obj) == (VmState {
            strong: state.strong.remove(obj),
            ..state
        }),
        state.strong.count(obj) == 1 ==> {
            let without = VmState {
                strong: state.strong.remove(obj),
                objects: state.objects.update(obj.id as int, None),
                ..state
            };
            state.released(obj) == match payload {
                Payload::WeakProxy(
                    PyWeakProxy { weak: PyWeak { callback: Some(callback), .. } },
                ) => without.released(callback),
                Payload::WeakCallableProxy(
                    PyWeakCallableProxy { weak: PyWeak { callback: Some(callback), .. } },
                ) => without.released(callback),
                _ => without,
            }
        },
        state.released_opt(Some(obj)) == state.released(obj),
        state.released_opt(None) == state,
        state.released_all(Seq::empty()) == state,
        state.released_all(refs.push(obj)) == state.released_all(refs).released(obj),
{
    assert(state.object(obj) == Some(PyObject { class, payload }));
    assert(refs.push(obj).drop_last() =~= refs);
}

/// Dropping a reference that may be given away uses up that one alone: as many
/// references to any other object may be given away as before, what is held stays
/// held, and the state stays well formed. No entry becomes another object.
pub proof fn law_dropping_uses_up_one_reference<P>(
    obj: PyObjectRef,
    other: PyObjectRef,
    state: VmState<P>,
)
    requires
        state.wf(),
        state.owns(obj),
    ensures
        state.released(obj).wf(),
        state.released(obj).held == state.held,
        state.released(obj).ctx == state.ctx,
        state.released(obj).host == state.host,
        state.released(obj).free(obj) == state.free(obj) - 1,
        other != obj ==> state.released(obj).free(other) == state.free(other),
        state.released(obj).object(other) is Some ==> state.released(obj).object(other)
            == state.object(other),
        other != obj && state.free(other) + state.held.count(other) > 0 ==> state.released(
            obj,
        ).object(other) == state.object(other),
{
    state.lemma_released(obj);
    let post = state.released(obj);
    assert(state.free(other) >= 0);
    assert(post.free(other) >= 0);
    assert(post.is_live(other) <==> post.strong.count(other) > 0);
    assert(post.object(other) == if state.dies_with(obj, other) {
        None
    } else {
        state.object(other)
    });
}

/// A weak reference gives its referent while the entry of that is there, whatever
/// else the weak reference has in it, and nothing after that.
pub proof fn law_weak_reference_gives_what_lives<P>(weak: PyWeak, state: VmState<P>)
    ensures
        ({
            let at = weak.referent.id as int;
            if at < state.objects.len() && state.objects[at] is Some {
                weak.upgraded(state) == Some(weak.referent)
            } else {
                weak.upgraded(state) is None
            }
        }),
{
}

/// A new class comes after the others, which stay as they are. It has the name, the
/// module, the base and the slots that were given, and supports weak references if
/// its base does.
pub proof fn law_new_class(
    module: Option<String>,
    name: &str,
    base: PyTypeRef,
    slots: PyTypeSlots,
    ctx: &mut Context,
    class: PyTypeRef,
)
    requires
        call_ensures(Context::new_class, (ctx, module, name, base, slots), class),
    ensures
        ({
            let had = old(ctx).classes@;
            let has = final(ctx).classes@;
            &&& class.index == had.len()
            &&& has.len() == had.len() + 1
            &&& has.drop_last() == had
            &&& has.last().module == module
            &&& has.last().name@ == name@
            &&& has.last().base == Some(base)
            &&& has.last().slots == slots
            &&& has.last().has_weakref == had[base.index as int].has_weakref
        }),
        final(ctx).types == old(ctx).types,
        final(ctx).exceptions == old(ctx).exceptions,
        final(ctx).weak_subclass == old(ctx).weak_subclass,
{
    assert(final(ctx).classes@.drop_last() =~= old(ctx).classes@);
}

/// A new class without a base comes after the others, and supports weak references
/// as it was asked to.
pub proof fn law_new_base_class(
    module: Option<String>,
    name: &str,
    slots: PyTypeSlots,
    has_weakref: bool,
    ctx: &mut Context,
    class: PyTypeRef,
)
    requires
        call_ensures(Context::new_base_class, (ctx, module, name, slots, has_weakref), class),
    ensures
        ({
            let had = old(ctx).classes@;
            let has = final(ctx).classes@;
            &&& class.index == had.len()
            &&& has.len() == had.len() + 1
            &&& has.drop_last() == had
            &&& has.last().module == module
            &&& has.last().name@ == name@
            &&& has.last().base is None
            &&& has.last().slots == slots
            &&& has.last().has_weakref == has_weakref
        }),
        final(ctx).types == old(ctx).types,
        final(ctx).exceptions == old(ctx).exceptions,
        final(ctx).weak_subclass == old(ctx).weak_subclass,
{
    assert(final(ctx).classes@.drop_last() =~= old(ctx).classes@);
}

/// Extending a class changes its slots alone, and no other class.
pub proof fn law_extended_class(
    class: PyTypeRef,
    slots: PyTypeSlots,
    ctx: &mut Context,
    other: int,
)
    requires
        call_ensures(Context::extend_class, (ctx, class, slots), ()),
        class.index < old(ctx).classes@.len(),
    ensures
        ({
            let at = class.index as int;
            let had = old(ctx).classes@;
            let has = final(ctx).classes@;
            &&& has.len() == had.len()
            &&& 0 <= other < had.len() && other != at ==> has[other] == had[other]
            &&& has[at].slots == had[at].slots.union(slots)
            &&& has[at].module == had[at].module
            &&& has[at].name == had[at].name
            &&& has[at].base == had[at].base
            &&& has[at].has_weakref == had[at].has_weakref
        }),
        final(ctx).types == old(ctx).types,
        final(ctx).exceptions == old(ctx).exceptions,
        final(ctx).weak_subclass == old(ctx).weak_subclass,
{
}

} // verus!
