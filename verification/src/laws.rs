//! What holds of the proxies as a whole.

use vstd::prelude::*;

use crate::object::{ExceptionView, PyObjectRef, PyTypeRef, PyWeak};
use crate::protocol::{MappingCall, SequenceCall, SlotCall};
use crate::proxy::{
    compared, lemma_took_opt, mapping_methods, operand, operands, proxied, reference_error,
    repr_text, sequence_methods, taken, three_operands, three_took, try_upgraded,
    weak_subclass_made,
};
use crate::text::{hex_digit, hex_digits, prefixed_hex};
use crate::vm::{Context, PyTypeSlots, VmState};
use crate::weakcallableproxy::PyWeakCallableProxy;
use crate::weakproxy::{PyWeakProxy, initialized};

pub mod inputs;
pub mod operands;
pub mod operations;
pub mod state;
pub mod tables;
pub mod text;
pub mod values;

verus! {

/// An object that is no proxy is worked on as it is.
pub proof fn law_other_objects_stand_for_themselves<P>(obj: PyObjectRef, state: VmState<P>)
    requires
        proxied(obj, state) is None,
    ensures
        operand(obj, state) == Ok::<PyObjectRef, ExceptionView>(obj),
{
}

/// A proxy whose referent is gone makes every operation that it takes part in
/// raise `ReferenceError`, whatever the other operands are and wherever among
/// them it stands.
pub proof fn law_dead_proxy_raises<P>(
    dead: PyObjectRef,
    weak: PyWeak,
    a: PyObjectRef,
    b: PyObjectRef,
    other: PyWeak,
    state: VmState<P>,
)
    requires
        proxied(dead, state) == Some(weak),
        !state.is_live(weak.referent),
    ensures
        try_upgraded(weak, state) == Err::<PyObjectRef, ExceptionView>(reference_error(state.ctx)),
        operand(dead, state) == Err::<PyObjectRef, ExceptionView>(reference_error(state.ctx)),
        operands(dead, a, state) == Err::<(PyObjectRef, PyObjectRef), ExceptionView>(
            reference_error(state.ctx),
        ),
        operands(a, dead, state) == Err::<(PyObjectRef, PyObjectRef), ExceptionView>(
            reference_error(state.ctx),
        ),
        three_operands(dead, a, b, state) == Err::<
            (PyObjectRef, PyObjectRef, PyObjectRef),
            ExceptionView,
        >(reference_error(state.ctx)),
        three_operands(a, dead, b, state) == Err::<
            (PyObjectRef, PyObjectRef, PyObjectRef),
            ExceptionView,
        >(reference_error(state.ctx)),
        three_operands(a, b, dead, state) == Err::<
            (PyObjectRef, PyObjectRef, PyObjectRef),
            ExceptionView,
        >(reference_error(state.ctx)),
        compared(weak, a, state) == Err::<(PyObjectRef, PyObjectRef), ExceptionView>(
            reference_error(state.ctx),
        ),
        compared(other, dead, state) == Err::<(PyObjectRef, PyObjectRef), ExceptionView>(
            reference_error(state.ctx),
        ),
{
}

/// A proxy to a living object that is no proxy itself can be put in the place of
/// that object in every operation, on any side.
pub proof fn law_live_proxy_is_transparent<P>(
    proxy: PyObjectRef,
    weak: PyWeak,
    a: PyObjectRef,
    b: PyObjectRef,
    other: PyWeak,
    state: VmState<P>,
)
    requires
        proxied(proxy, state) == Some(weak),
        state.is_live(weak.referent),
        proxied(weak.referent, state) is None,
    ensures
        try_upgraded(weak, state) == Ok::<PyObjectRef, ExceptionView>(weak.referent),
        operand(proxy, state) == operand(weak.referent, state),
        operands(proxy, a, state) == operands(weak.referent, a, state),
        operands(a, proxy, state) == operands(a, weak.referent, state),
        three_operands(proxy, a, b, state) == three_operands(weak.referent, a, b, state),
        three_operands(a, proxy, b, state) == three_operands(a, weak.referent, b, state),
        three_operands(a, b, proxy, state) == three_operands(a, b, weak.referent, state),
        compared(weak, a, state) == operands(weak.referent, a, state),
        compared(other, proxy, state) == compared(other, weak.referent, state),
{
}

/// A proxy to a living proxy is undone one level at a time: what an operation
/// works on is the inner proxy itself.
pub proof fn law_one_level_at_a_time<P>(
    outer: PyObjectRef,
    inner: PyObjectRef,
    weak: PyWeak,
    state: VmState<P>,
)
    requires
        proxied(outer, state) == Some(weak),
        weak.referent == inner,
        proxied(inner, state) is Some,
    ensures
        operand(outer, state) == Ok::<PyObjectRef, ExceptionView>(inner),
{
}

/// `ReferenceError` for a dead proxy is the one reason for which operands
/// cannot be had.
pub proof fn law_only_dead_proxies_raise<P>(
    a: PyObjectRef,
    b: PyObjectRef,
    c: PyObjectRef,
    state: VmState<P>,
)
    ensures
        operand(a, state) is Err <==> (proxied(a, state) matches Some(weak) && !state.is_live(
            weak.referent,
        )),
        operands(a, b, state) is Err <==> operand(a, state) is Err || operand(b, state) is Err,
        three_operands(a, b, c, state) is Err <==> operands(a, b, state) is Err || operand(
            c,
            state,
        ) is Err,
        three_operands(a, b, c, state) matches Err(e) ==> e == reference_error(state.ctx),
{
}

/// The two kinds of proxy to one object are worked on alike, and their classes
/// differ in the call alone.
pub proof fn law_kinds_differ_in_the_call_alone<P>(
    plain: PyObjectRef,
    callable: PyObjectRef,
    state: VmState<P>,
)
    requires
        state.weak_proxy(plain) is Some,
        state.weak_callable_proxy(callable) is Some,
        proxied(plain, state) == proxied(callable, state),
    ensures
        operand(plain, state) == operand(callable, state),
        !PyWeakProxy::class_slots().call,
        PyWeakCallableProxy::class_slots() == (PyTypeSlots {
            call: true,
            ..PyWeakProxy::class_slots()
        }),
{
}

/// An operation on several objects holds the referents of all the proxies among
/// them while it runs.
pub proof fn law_operation_holds_all_its_referents<P>(
    a: PyObjectRef,
    b: PyObjectRef,
    c: PyObjectRef,
    state: VmState<P>,
)
    requires
        state.wf(),
        three_operands(a, b, c, state) is Ok,
    ensures
        ({
            let handed = three_took(a, b, c, state);
            &&& handed.wf()
            &&& handed.evolved_from(state)
            &&& proxied(a, state) matches Some(weak) ==> handed.held.count(weak.referent) > 0
            &&& proxied(b, state) matches Some(weak) ==> handed.held.count(weak.referent) > 0
            &&& proxied(c, state) matches Some(weak) ==> handed.held.count(weak.referent) > 0
        }),
{
    let one = state.took_opt(taken(a, state));
    let two = one.took_opt(taken(b, state));
    let three = two.took_opt(taken(c, state));
    lemma_took_opt(state, taken(a, state));
    lemma_took_opt(one, taken(b, state));
    lemma_took_opt(two, taken(c, state));
    law_evolution_is_a_preorder(state, one, two);
    law_evolution_is_a_preorder(state, two, three);
}

/// A weak reference that was just made gives back the object that it was made
/// for.
pub proof fn law_new_reference_gives_its_referent<P>(
    referent: PyObjectRef,
    callback: Option<PyObjectRef>,
    typ: PyTypeRef,
    state: VmState<P>,
)
    requires
        state.is_live(referent),
        state.downgraded(referent, callback, typ) is Ok,
    ensures
        try_upgraded(state.downgraded(referent, callback, typ)->Ok_0, state) == Ok::<
            PyObjectRef,
            ExceptionView,
        >(referent),
{
}

/// The states of an interpreter form a history: each state evolved from itself,
/// and from whatever the state before it evolved from.
pub proof fn law_evolution_is_a_preorder<P>(
    first: VmState<P>,
    second: VmState<P>,
    third: VmState<P>,
)
    requires
        second.evolved_from(first),
        third.evolved_from(second),
    ensures
        first.evolved_from(first),
        third.evolved_from(first),
{
    assert forall|obj: PyObjectRef| obj.id < first.objects.len() implies (
        #[trigger] third.object(obj) matches Some(now) ==> {
        &&& first.object(obj) matches Some(was)
        &&& now.payload == was.payload
    }) by {
        assert(second.object(obj) == second.object(obj));
    }
}

/// A dead reference never comes back: once an upgrade has failed, it fails in
/// every later state, whatever operations ran in between.
pub proof fn law_dead_stays_dead<P>(weak: PyWeak, pre: VmState<P>, post: VmState<P>)
    requires
        post.evolved_from(pre),
        weak.referent.id < pre.objects.len(),
        try_upgraded(weak, pre) is Err,
    ensures
        try_upgraded(weak, post) == try_upgraded(weak, pre),
        try_upgraded(weak, post) == Err::<PyObjectRef, ExceptionView>(reference_error(post.ctx)),
{
    assert(post.object(weak.referent) is None);
}

/// A proxy never comes to stand for another object: what a later state gives
/// for it is what an earlier state gave, or nothing. The class of that object may
/// have changed.
pub proof fn law_proxy_never_changes_its_referent<P>(
    weak: PyWeak,
    pre: VmState<P>,
    post: VmState<P>,
)
    requires
        post.evolved_from(pre),
        weak.referent.id < pre.objects.len(),
    ensures
        weak.upgraded(post) == weak.upgraded(pre) || weak.upgraded(post) is None,
        weak.upgraded(post) matches Some(obj) ==> post.object(obj)->0.payload == pre.object(
            obj,
        )->0.payload,
{
    assert(post.object(weak.referent) == post.object(weak.referent));
}

/// An upgrade gives a strong reference: it is held from then on, and so the
/// referent lives. The weak reference is not used up.
pub proof fn law_upgrade_takes_a_strong_reference<P>(weak: PyWeak, state: VmState<P>)
    requires
        state.wf(),
        try_upgraded(weak, state) is Ok,
    ensures
        state.took(weak.referent).wf(),
        state.took(weak.referent).evolved_from(state),
        state.took(weak.referent).held.count(weak.referent) > 0,
        try_upgraded(weak, state.took(weak.referent)) == try_upgraded(weak, state),
        state.took(weak.referent).gave_back(weak.referent) == state,
{
    state.lemma_took(weak.referent);
    assert(state.took(weak.referent).object(weak.referent) == state.object(weak.referent));
}

/// As long as the object that an upgrade gave is held, every later upgrade gives
/// the same object, whatever operations ran in between.
pub proof fn law_held_referent_stays_alive<P>(
    weak: PyWeak,
    obj: PyObjectRef,
    pre: VmState<P>,
    post: VmState<P>,
)
    requires
        try_upgraded(weak, pre) == Ok::<PyObjectRef, ExceptionView>(obj),
        post.wf(),
        post.evolved_from(pre),
        post.held.count(obj) > 0,
    ensures
        try_upgraded(weak, post) == Ok::<PyObjectRef, ExceptionView>(obj),
        post.object(obj)->0.payload == pre.object(obj)->0.payload,
{
    assert(post.free(obj) >= 0);
    assert(post.is_live(obj) <==> post.strong.count(obj) > 0);
}

/// What is held when an operation of the interpreter begins is held, and alive,
/// when it is over.
pub proof fn law_operations_keep_what_is_held<P>(
    obj: PyObjectRef,
    pre: VmState<P>,
    post: VmState<P>,
)
    requires
        pre.wf(),
        pre.held.count(obj) > 0,
        post.kept_from(pre),
    ensures
        post.held.count(obj) == pre.held.count(obj),
        post.is_live(obj),
        post.object(obj)->0.payload == pre.object(obj)->0.payload,
{
    assert(pre.free(obj) >= 0);
    assert(pre.is_live(obj) <==> pre.strong.count(obj) > 0);
    assert(post.free(obj) >= 0);
    assert(post.is_live(obj) <==> post.strong.count(obj) > 0);
}

/// A reference that an upgrade gave can be handed on like any other: it is then
/// free, and nothing else has changed. Holding it again undoes that.
pub proof fn law_upgraded_reference_can_be_handed_on<P>(weak: PyWeak, state: VmState<P>)
    requires
        state.wf(),
        try_upgraded(weak, state) is Ok,
    ensures
        ({
            let upgraded = state.took(weak.referent);
            &&& upgraded.handed_on(weak.referent) == state.retained(weak.referent)
            &&& upgraded.handed_on(weak.referent).wf()
            &&& upgraded.handed_on(weak.referent).owns(weak.referent)
            &&& upgraded.handed_on(weak.referent).adopted(weak.referent) == upgraded
        }),
{
    let upgraded = state.took(weak.referent);
    state.lemma_took(weak.referent);
    upgraded.lemma_handed_on(weak.referent);
    assert(upgraded.handed_on(weak.referent).held =~= state.held);
}

/// An object dies with its last strong reference, and all of its proxies with
/// it. As long as there is another strong reference it lives, however many
/// proxies there are. The proxies to other objects give what they gave, unless
/// their referent dies too: as the callback of a proxy that dies.
///
/// This is what dropping a reference does by itself. What the interpreter does
/// for a death besides, such as calling callbacks, may kill others.
pub proof fn law_last_reference_kills_exactly_its_proxies<P>(
    obj: PyObjectRef,
    weak: PyWeak,
    pre: VmState<P>,
)
    requires
        pre.wf(),
        pre.owns(obj),
    ensures
        weak.upgraded(pre.released(obj)) == (if pre.dies_with(obj, weak.referent) {
            None
        } else {
            weak.upgraded(pre)
        }),
        pre.dies_with(obj, obj) <==> pre.strong.count(obj) == 1,
        pre.strong.count(obj) > 1 ==> !pre.dies_with(obj, weak.referent),
        pre.orphaned(obj) is None ==> (pre.dies_with(obj, weak.referent) ==> weak.referent == obj),
{
    pre.lemma_released(obj);
    assert(pre.released(obj).object(weak.referent) == if pre.dies_with(obj, weak.referent) {
        None
    } else {
        pre.object(weak.referent)
    });
    assert(pre.free(obj) > 0);
}

/// What dies with an object besides it is the callback of a proxy that dies with
/// it.
pub proof fn law_only_callbacks_die_with_an_object<P>(
    obj: PyObjectRef,
    other: PyObjectRef,
    pre: VmState<P>,
)
    requires
        pre.wf(),
        pre.owns(obj),
        pre.dies_with(obj, other),
    ensures
        other == obj || exists|proxy: PyObjectRef| #[trigger]
            pre.dies_with(obj, proxy) && pre.callback_of(proxy) == Some(other),
    decreases pre.strong.len(),
{
    if other != obj {
        let callback = pre.orphaned(obj)->0;
        let mid = pre.dropped(obj);
        pre.lemma_dropped(obj);
        assert(pre.dies_with(obj, obj));
        if other != callback {
            law_only_callbacks_die_with_an_object(callback, other, mid);
            let proxy = choose|proxy: PyObjectRef| #[trigger]
                mid.dies_with(callback, proxy) && mid.callback_of(proxy) == Some(other);
            assert(mid.object(proxy) == pre.object(proxy));
            assert(pre.dies_with(obj, proxy));
        }
    }
}

/// A proxy that dies drops the strong reference to its callback: the callback dies
/// if that was the last one, and has one strong reference less if it was not.
pub proof fn law_callback_goes_with_its_proxy<P>(
    proxy: PyObjectRef,
    weak: PyWeak,
    callback: PyObjectRef,
    pre: VmState<P>,
)
    requires
        pre.wf(),
        pre.owns(proxy),
        pre.strong.count(proxy) == 1,
        proxied(proxy, pre) == Some(weak),
        weak.callback == Some(callback),
    ensures
        callback != proxy,
        !pre.released(proxy).is_live(proxy),
        pre.strong.count(callback) == 1 ==> !pre.released(proxy).is_live(callback),
        pre.strong.count(callback) > 1 ==> {
            &&& pre.released(proxy).is_live(callback)
            &&& pre.released(proxy).strong == pre.strong.remove(proxy).remove(callback)
        },
{
    let mid = pre.dropped(proxy);
    let post = pre.released(proxy);
    pre.lemma_owned_callback(proxy, callback);
    pre.lemma_released(proxy);
    pre.lemma_dropped(proxy);
    assert(pre.orphaned(proxy) == Some(callback));
    assert(post == mid.released(callback));
    if pre.strong.count(callback) > 1 {
        assert(mid.orphaned(callback) is None);
        assert(mid.released(callback) == mid.dropped(callback));
    }
    assert(mid.strong.count(callback) == pre.strong.count(callback));
    assert(mid.dies_with(callback, callback) <==> mid.strong.count(callback) == 1);
    assert(pre.dies_with(proxy, proxy));
    assert(post.object(proxy) is None);
    assert(pre.dies_with(proxy, callback) <==> mid.dies_with(callback, callback));
    assert(post.object(callback) == if pre.dies_with(proxy, callback) {
        None
    } else {
        pre.object(callback)
    });
}

/// A living proxy keeps its callback alive.
pub proof fn law_proxy_keeps_its_callback_alive<P>(
    proxy: PyObjectRef,
    weak: PyWeak,
    callback: PyObjectRef,
    state: VmState<P>,
)
    requires
        state.wf(),
        proxied(proxy, state) == Some(weak),
        weak.callback == Some(callback),
    ensures
        state.is_live(callback),
{
    state.lemma_owned_callback(proxy, callback);
    assert(state.is_live(callback) <==> state.strong.count(callback) > 0);
}

/// A proxy made with the only strong reference to its referent is dead from the
/// start: it keeps no referent alive.
pub proof fn law_proxy_keeps_nothing_alive<P>(
    referent: PyObjectRef,
    weak: PyWeak,
    pre: VmState<P>,
    post: VmState<P>,
)
    requires
        pre.wf(),
        pre.strong.count(referent) == 1,
        pre.owns(referent),
        weak.referent == referent,
        post == (VmState { ctx: post.ctx, ..pre }).released(referent),
    ensures
        try_upgraded(weak, post) == Err::<PyObjectRef, ExceptionView>(reference_error(post.ctx)),
{
    pre.lemma_released(referent);
    (VmState { ctx: post.ctx, ..pre }).lemma_released_frame(pre, referent);
    assert(pre.dies_with(referent, referent));
    assert(pre.released(referent).object(referent) is None);
    assert(post.object(referent) is None);
}

/// Making a proxy disturbs no other proxy: all give what they gave, and are
/// represented as they were, but for those to an object that dies because its last
/// reference was used up by making the proxy.
///
/// As in [`law_last_reference_kills_exactly_its_proxies`], what the interpreter
/// does for a death is not part of this.
pub proof fn law_making_a_proxy_disturbs_no_other<P>(
    id: usize,
    weak: PyWeak,
    referent: PyObjectRef,
    pre: VmState<P>,
    post: VmState<P>,
)
    requires
        pre.wf(),
        pre.owns(referent),
        weak_subclass_made(pre.ctx, post.ctx),
        post == (VmState { ctx: post.ctx, ..pre }).released(referent),
        !pre.dies_with(referent, weak.referent),
    ensures
        try_upgraded(weak, post) == try_upgraded(weak, pre),
        repr_text(id, weak, post) == repr_text(id, weak, pre),
{
    pre.lemma_released(referent);
    (VmState { ctx: post.ctx, ..pre }).lemma_released_frame(pre, referent);
    assert(pre.released(referent).object(weak.referent) == pre.object(weak.referent));
    assert(post.object(weak.referent) == pre.object(weak.referent));
}

/// All weak references behind proxies have one and the same class: a reference
/// that is made in any later state gets the class that the first one got,
/// whatever operations ran in between, and in whichever interpreter of the process
/// they ran.
pub proof fn law_weak_references_share_one_class(
    first: PyWeak,
    before: Context,
    later: Context,
    after: Context,
)
    requires
        before.weak_subclass == Some(first.typ),
        later.evolved_from(before),
        weak_subclass_made(later, after),
    ensures
        after.weak_subclass == Some(first.typ),
        after == later,
{
}

/// The class of the weak references inside proxies is made once: later proxies
/// share it with the first.
pub proof fn law_weak_subclass_is_made_once(first: Context, second: Context, third: Context)
    requires
        weak_subclass_made(first, second),
        weak_subclass_made(second, third),
    ensures
        second.weak_subclass is Some,
        third == second,
        weak_subclass_made(first, third),
{
}

/// Initializing twice is initializing once.
pub proof fn law_init_is_idempotent(first: Context, second: Context, third: Context)
    requires
        first.wf(),
        initialized(first, second),
        initialized(second, third),
    ensures
        third.classes@ == second.classes@,
        third.types == second.types,
        third.exceptions == second.exceptions,
        third.weak_subclass == second.weak_subclass,
{
    assert(third.classes@ =~= second.classes@);
}

/// After initialization both proxy classes have their slots, and are marked
/// unhashable, so that asking for a hash runs the slot that refuses.
pub proof fn law_init_fills_the_proxy_classes(pre: Context, post: Context)
    requires
        pre.wf(),
        initialized(pre, post),
    ensures
        SlotCall::Hash.spec_is_in(post.class(post.types.weakproxy_type).slots),
        SlotCall::Hash.spec_is_in(post.class(post.types.weakcallableproxy_type).slots),
        forall|call: SlotCall| #[trigger]
            call.spec_is_in(post.class(post.types.weakcallableproxy_type).slots),
        forall|call: SlotCall|
            call !is Call ==> #[trigger] call.spec_is_in(
                post.class(post.types.weakproxy_type).slots,
            ),
{
}

/// Each slot in the sequence and mapping tables of the proxies names the operation
/// that is run for it.
pub proof fn law_tables_name_what_is_run(key: PyObjectRef, value: Option<PyObjectRef>)
    ensures
        sequence_methods().length == Some(SequenceCall::Length.op()),
        sequence_methods().contains == Some(SequenceCall::Contains(key).op()),
        mapping_methods().length == Some(MappingCall::Length.op()),
        mapping_methods().subscript == Some(MappingCall::Subscript(key).op()),
        mapping_methods().ass_subscript == Some(MappingCall::AssSubscript(key, value).op()),
{
}

/// Different numbers are written with different digits.
proof fn lemma_hex_digits_injective(m: nat, n: nat)
    requires
        hex_digits(m) == hex_digits(n),
    ensures
        m == n,
    decreases m,
{
    reveal_strlit("0123456789abcdef");
    lemma_hex_digits_nonempty(m);
    lemma_hex_digits_nonempty(n);
    assert(hex_digits(m).last() == hex_digit(m % 16));
    assert(hex_digits(n).last() == hex_digit(n % 16));
    assert(m % 16 == n % 16);
    if m >= 16 && n >= 16 {
        assert(hex_digits(m / 16) =~= hex_digits(m).drop_last());
        assert(hex_digits(n / 16) =~= hex_digits(n).drop_last());
        lemma_hex_digits_injective(m / 16, n / 16);
    } else if m >= 16 {
        lemma_hex_digits_nonempty(m / 16);
    } else if n >= 16 {
        lemma_hex_digits_nonempty(n / 16);
    }
}

proof fn lemma_hex_digits_nonempty(n: nat)
    ensures
        hex_digits(n).len() > 0,
    decreases n,
{
}

/// No digit is a semicolon.
proof fn lemma_hex_digits_hold_no_semicolon(n: nat, i: int)
    requires
        0 <= i < hex_digits(n).len(),
    ensures
        hex_digits(n)[i] != ';',
    decreases n,
{
    reveal_strlit("0123456789abcdef");
    if n >= 16 && i < hex_digits(n / 16).len() {
        lemma_hex_digits_hold_no_semicolon(n / 16, i);
    }
}

/// How every representation begins: with the identity of the proxy, and then a
/// semicolon.
proof fn lemma_repr_begins<P>(id: usize, weak: PyWeak, state: VmState<P>)
    ensures
        ({
            let head = "<weakproxy at "@ + "0x"@;
            let digits = hex_digits(id as nat);
            let text = repr_text(id, weak, state);
            &&& text.len() > head.len() + digits.len()
            &&& text.subrange(head.len() as int, (head.len() + digits.len()) as int) == digits
            &&& text[(head.len() + digits.len()) as int] == ';'
        }),
{
    reveal_strlit("; dead>");
    reveal_strlit("; to '");
    let head = "<weakproxy at "@ + "0x"@;
    let digits = hex_digits(id as nat);
    let text = repr_text(id, weak, state);
    assert(text.subrange(head.len() as int, (head.len() + digits.len()) as int) =~= digits);
}

/// The representations of two proxies differ when the proxies do, dead or alive.
pub proof fn law_repr_tells_proxies_apart<P>(
    id: usize,
    other_id: usize,
    weak: PyWeak,
    other: PyWeak,
    state: VmState<P>,
    other_state: VmState<P>,
)
    requires
        id != other_id,
    ensures
        repr_text(id, weak, state) != repr_text(other_id, other, other_state),
{
    let text = repr_text(id, weak, state);
    if text == repr_text(other_id, other, other_state) {
        let n = ("<weakproxy at "@ + "0x"@).len();
        let one = hex_digits(id as nat);
        let two = hex_digits(other_id as nat);
        lemma_repr_begins(id, weak, state);
        lemma_repr_begins(other_id, other, other_state);
        if one.len() < two.len() {
            assert(two[one.len() as int] == text[(n + one.len()) as int]);
            lemma_hex_digits_hold_no_semicolon(other_id as nat, one.len() as int);
        } else if two.len() < one.len() {
            assert(one[two.len() as int] == text[(n + two.len()) as int]);
            lemma_hex_digits_hold_no_semicolon(id as nat, two.len() as int);
        } else {
            lemma_hex_digits_injective(id as nat, other_id as nat);
        }
    }
}

/// The representation of a proxy shows whether it is dead.
pub proof fn law_repr_shows_death<P>(
    id: usize,
    live: PyWeak,
    dead: PyWeak,
    state: VmState<P>,
)
    requires
        live.upgraded(state) is Some,
        dead.upgraded(state) is None,
    ensures
        repr_text(id, live, state) != repr_text(id, dead, state),
{
    reveal_strlit("; dead>");
    reveal_strlit("; to '");
    let head = "<weakproxy at "@ + prefixed_hex(id as nat);
    assert(repr_text(id, dead, state)[head.len() as int + 2] == 'd');
    assert(repr_text(id, live, state)[head.len() as int + 2] == 't');
}

} // verus!
