//! How proxies are represented.

use vstd::prelude::*;

use crate::laws::lemma_hex_digits_injective;
use crate::object::{Py, PyObjectRef, PyResult, PyWeak, mapped};
use crate::protocol::{ObjectProtocol, SlotCall, SlotValue};
use crate::proxy::{proxy_repr, repr_text};
use crate::text::{hex_digits, prefixed_hex, to_prefixed_hex};
use crate::vm::{VirtualMachine, VmState};
use crate::weakcallableproxy::PyWeakCallableProxy;
use crate::weakproxy::PyWeakProxy;

verus! {

/// The numbers below sixteen are written with one digit, in lower case.
pub proof fn law_one_digit_numbers(d: nat)
    requires
        d < 16,
    ensures
        prefixed_hex(d) == seq![
            '0',
            'x',
            seq!['0', '1', '2', '3', '4', '5', '6', '7', '8', '9', 'a', 'b', 'c', 'd', 'e', 'f'][
                d as int
            ],
        ],
{
    reveal_strlit("0x");
    reveal_strlit("0123456789abcdef");
    assert(hex_digits(d).len() == 1);
    assert(prefixed_hex(d)[2] == hex_digits(d)[0]);
}

/// The digits of a longer number are those of its sixteenth followed by that of the
/// remainder.
pub proof fn law_digits_go_down_by_sixteen(m: nat, d: nat)
    requires
        m > 0,
        d < 16,
    ensures
        prefixed_hex(16 * m + d) == prefixed_hex(m) + prefixed_hex(d).skip(2),
{
    reveal_strlit("0x");
    let n = 16 * m + d;
    assert(n / 16 == m && n % 16 == d);
    assert(hex_digits(n) =~= hex_digits(m) + hex_digits(d));
    assert(prefixed_hex(d).skip(2) =~= hex_digits(d));
    assert(prefixed_hex(n) =~= prefixed_hex(m) + prefixed_hex(d).skip(2));
}

/// Different numbers are written differently.
pub proof fn law_different_numbers_look_different(m: usize, n: usize, a: String, b: String)
    requires
        call_ensures(to_prefixed_hex, (m,), a),
        call_ensures(to_prefixed_hex, (n,), b),
        a@ == b@,
    ensures
        m == n,
{
    reveal_strlit("0x");
    assert(hex_digits(m as nat) =~= a@.skip(2));
    assert(hex_digits(n as nat) =~= b@.skip(2));
    lemma_hex_digits_injective(m as nat, n as nat);
}

/// The representation of a proxy with a living referent names, in this order, the
/// identity of the proxy, the class of the referent and the identity of the
/// referent. That of a dead proxy names its identity and says that it is dead. It
/// never fails, and does not rest on the kind of proxy.
pub proof fn law_repr_names_proxy_class_and_referent<P: ObjectProtocol>(
    object: PyObjectRef,
    weak: PyWeak,
    vm: VirtualMachine<P>,
    res: PyResult<String>,
)
    requires
        call_ensures(
            PyWeakProxy::repr_str::<P>,
            (&Py { object, payload: PyWeakProxy { weak } }, &vm),
            res,
        ) || call_ensures(
            PyWeakCallableProxy::repr_str::<P>,
            (&Py { object, payload: PyWeakCallableProxy { weak } }, &vm),
            res,
        ) || (res is Ok && call_ensures(proxy_repr::<P>, (object.id, &weak, &vm), res->Ok_0)),
    ensures
        res is Ok,
        ({
            let at = weak.referent.id as int;
            let text = res->Ok_0@;
            let head = "<weakproxy at "@ + prefixed_hex(object.id as nat);
            let objects = vm.objects@;
            if at < objects.len() && objects[at] is Some {
                let name = vm.ctx.classes@[objects[at]->0.class.index as int].name@;
                let tail = "' at "@ + prefixed_hex(weak.referent.id as nat) + ">"@;
                let from = head.len() + "; to '"@.len() as int;
                let to = from + name.len();
                &&& to + tail.len() == text.len()
                &&& text.take(head.len() as int) == head
                &&& text.subrange(head.len() as int, from) == "; to '"@
                &&& text.subrange(from, to) == name
                &&& text.skip(to) == tail
            } else {
                &&& text.take(head.len() as int) == head
                &&& text.skip(head.len() as int) == "; dead>"@
            }
        }),
{
    let text = res->Ok_0@;
    let head = "<weakproxy at "@ + prefixed_hex(object.id as nat);
    assert(text == repr_text(object.id, weak, vm@));
    assert(text.take(head.len() as int) =~= head);
    if vm@.is_live(weak.referent) {
        let name = vm@.class_of(weak.referent).name@;
        let tail = "' at "@ + prefixed_hex(weak.referent.id as nat) + ">"@;
        assert(text =~= head + "; to '"@ + name + tail);
        let from = head.len() + "; to '"@.len() as int;
        let to = from + name.len();
        assert(text.subrange(head.len() as int, from) =~= "; to '"@);
        assert(text.subrange(from, to) =~= name);
        assert(text.skip(to) =~= tail);
    } else {
        assert(text.skip(head.len() as int) =~= "; dead>"@);
    }
}

/// The slot for the representation gives the representation.
pub proof fn law_repr_slot_represents<P: ObjectProtocol>(
    object: PyObjectRef,
    weak: PyWeak,
    vm: &mut VirtualMachine<P>,
    res: PyResult<String>,
)
    requires
        call_ensures(
            PyWeakProxy::run_slot::<P>,
            (Py { object, payload: PyWeakProxy { weak } }, SlotCall::Repr, vm),
            Some(mapped(res, |text: String| SlotValue::Text(text))),
        ) || call_ensures(
            PyWeakCallableProxy::run_slot::<P>,
            (Py { object, payload: PyWeakCallableProxy { weak } }, SlotCall::Repr, vm),
            Some(mapped(res, |text: String| SlotValue::Text(text))),
        ),
    ensures
        res matches Ok(text) && text@ == repr_text(object.id, weak, old(vm)@),
        *final(vm) == *old(vm),
{
}

/// Two living referents of classes of one name are told apart by the
/// representations of their proxies, even of proxies with one identity.
pub proof fn law_repr_tells_referents_apart<P>(
    id: usize,
    one: PyWeak,
    other: PyWeak,
    state: VmState<P>,
    other_state: VmState<P>,
)
    requires
        one.upgraded(state) is Some,
        other.upgraded(other_state) is Some,
        state.class_of(one.referent).name@ == other_state.class_of(other.referent).name@,
        one.referent != other.referent,
    ensures
        repr_text(id, one, state) != repr_text(id, other, other_state),
{
    let name = state.class_of(one.referent).name@;
    let head = "<weakproxy at "@ + prefixed_hex(id as nat) + "; to '"@ + name + "' at "@;
    let a = one.referent.id as nat;
    let b = other.referent.id as nat;
    let text = repr_text(id, one, state);
    if text == repr_text(id, other, other_state) {
        reveal_strlit("0x");
        assert(text =~= head + prefixed_hex(a) + ">"@);
        assert(text =~= head + prefixed_hex(b) + ">"@);
        let from = head.len() + 2;
        assert(hex_digits(a).len() == hex_digits(b).len());
        assert(hex_digits(a) =~= text.subrange(from as int, (from + hex_digits(a).len()) as int));
        assert(hex_digits(b) =~= text.subrange(from as int, (from + hex_digits(b).len()) as int));
        lemma_hex_digits_injective(a, b);
    }
}

/// The representations of the proxies of a living object change when the name of
/// its class does.
pub proof fn law_repr_shows_the_class<P>(
    id: usize,
    weak: PyWeak,
    state: VmState<P>,
    other_state: VmState<P>,
)
    requires
        weak.upgraded(state) is Some,
        weak.upgraded(other_state) is Some,
        state.class_of(weak.referent).name@ != other_state.class_of(weak.referent).name@,
    ensures
        repr_text(id, weak, state) != repr_text(id, weak, other_state),
{
    let head = "<weakproxy at "@ + prefixed_hex(id as nat) + "; to '"@;
    let tail = "' at "@ + prefixed_hex(weak.referent.id as nat) + ">"@;
    let a = state.class_of(weak.referent).name@;
    let b = other_state.class_of(weak.referent).name@;
    let text = repr_text(id, weak, state);
    if text == repr_text(id, weak, other_state) {
        assert(text =~= head + a + tail);
        assert(text =~= head + b + tail);
        assert(a =~= text.subrange(head.len() as int, (head.len() + a.len()) as int));
        assert(b =~= text.subrange(head.len() as int, (head.len() + b.len()) as int));
    }
}

} // verus!
