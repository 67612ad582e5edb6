//! Which inputs the operations accept.

use vstd::prelude::*;

use crate::object::{FuncArgs, Py, PyComparisonOp, PyObjectRef, PySetterValue, PyStrRef};
use crate::protocol::{
    BinaryOp, ConversionOp, MappingCall, NumberCall, ObjectProtocol, SequenceCall, SlotCall,
    TernaryOp, UnaryOp,
};
use crate::vm::{VirtualMachine, VmState};
use crate::weakcallableproxy::PyWeakCallableProxy;
use crate::weakproxy::PyWeakProxy;

verus! {

/// A call of the number slots is in order when the truth value is asked of a proxy,
/// and another operation on one number of a living object. Those on more numbers are
/// always in order.
pub proof fn law_number_calls_in_order<P>(
    call: NumberCall,
    state: VmState<P>,
    is_proxy: spec_fn(PyObjectRef) -> bool,
)
    ensures
        call is Binary || call is Ternary ==> call.is_ready(state, is_proxy),
        call matches NumberCall::Unary(_, number) ==> (call.is_ready(state, is_proxy)
            <==> state.is_live(number)),
        call matches NumberCall::Convert(op, number) ==> (call.is_ready(state, is_proxy) <==> (
        if op is Bool {
            is_proxy(number)
        } else {
            state.is_live(number)
        })),
{
}

/// A call of the mapping slots is in order when the reference to a value to set is
/// there to be given away.
pub proof fn law_mapping_calls_in_order<P>(
    key: PyObjectRef,
    value: Option<PyObjectRef>,
    state: VmState<P>,
)
    ensures
        MappingCall::Length.is_ready(state),
        MappingCall::Subscript(key).is_ready(state),
        MappingCall::AssSubscript(key, value).is_ready(state) <==> state.owns_opt(value),
{
}

/// A call of a slot is in order when the references that go with it are there to be
/// given away, and what is asked of the number and mapping slots is in order.
pub proof fn law_slot_calls_in_order<P>(
    call: SlotCall,
    zelf: PyObjectRef,
    state: VmState<P>,
    is_proxy: spec_fn(PyObjectRef) -> bool,
)
    ensures
        ({
            let ready = call.is_ready(zelf, state, is_proxy);
            match call {
                SlotCall::SetAttr(_, value) => ready <==> state.owns_opt(value.as_option()),
                SlotCall::Call(args) => ready <==> state.owns_all(args.spec_refs()),
                SlotCall::Number(number) => ready <==> number.is_ready(state, is_proxy),
                SlotCall::Mapping(mapping) => ready <==> mapping.is_ready(state),
                SlotCall::Iter => ready <==> state.owns(zelf),
                _ => ready,
            }
        }),
{
}

/// Every operation on a weak proxy is in order in every well-formed state,
/// whatever the proxy and its referent are, if the references that are handed over are
/// there to be given away.
pub proof fn law_plain_proxies_take_part_in_everything<P: ObjectProtocol>(
    zelf: Py<PyWeakProxy>,
    object: PyObjectRef,
    key: PyObjectRef,
    name: PyStrRef,
    value: PySetterValue,
    item: Option<PyObjectRef>,
    op: PyComparisonOp,
)
    ensures
        forall|vm: &mut VirtualMachine<P>|
            vm@.wf() ==> #[trigger] call_requires(PyWeakProxy::__str__::<P>, (&zelf, vm)),
        forall|vm: &mut VirtualMachine<P>|
            vm@.wf() ==> #[trigger] call_requires(PyWeakProxy::__bytes__::<P>, (&zelf.payload, vm)),
        forall|vm: &mut VirtualMachine<P>|
            vm@.wf() ==> #[trigger] call_requires(
                PyWeakProxy::__reversed__::<P>,
                (&zelf.payload, vm),
            ),
        forall|vm: &mut VirtualMachine<P>|
            vm@.wf() ==> #[trigger] call_requires(
                PyWeakProxy::try_upgrade::<P>,
                (&zelf.payload, vm),
            ),
        forall|vm: &mut VirtualMachine<P>|
            vm@.wf() ==> #[trigger] call_requires(PyWeakProxy::next::<P>, (&zelf, vm)),
        forall|vm: &mut VirtualMachine<P>|
            vm@.wf() ==> #[trigger] call_requires(PyWeakProxy::getattro::<P>, (&zelf, name, vm)),
        forall|vm: &mut VirtualMachine<P>|
            vm@.wf() ==> #[trigger] call_requires(PyWeakProxy::cmp::<P>, (&zelf, object, op, vm)),
        forall|vm: &mut VirtualMachine<P>|
            vm@.wf() && vm@.owns(zelf.object) ==> #[trigger] call_requires(
                PyWeakProxy::iter::<P>,
                (zelf, vm),
            ),
        forall|vm: &mut VirtualMachine<P>|
            vm@.wf() && vm@.owns_opt(value.as_option()) ==> #[trigger] call_requires(
                PyWeakProxy::setattro::<P>,
                (&zelf, name, value, vm),
            ),
        forall|vm: &mut VirtualMachine<P>|
            vm@.wf() && vm@.weak_proxy(object) is Some ==> #[trigger] call_requires(
                PyWeakProxy::number_boolean::<P>,
                (object, vm),
            ),
        forall|vm: &mut VirtualMachine<P>|
            vm@.wf() && vm@.weak_proxy(object) is Some ==> #[trigger] call_requires(
                PyWeakProxy::sequence_length::<P>,
                (object, vm),
            ),
        forall|vm: &mut VirtualMachine<P>|
            vm@.wf() && vm@.weak_proxy(object) is Some ==> #[trigger] call_requires(
                PyWeakProxy::sequence_contains::<P>,
                (object, key, vm),
            ),
        forall|vm: &mut VirtualMachine<P>|
            vm@.wf() && vm@.weak_proxy(object) is Some ==> #[trigger] call_requires(
                PyWeakProxy::mapping_length::<P>,
                (object, vm),
            ),
        forall|vm: &mut VirtualMachine<P>|
            vm@.wf() && vm@.weak_proxy(object) is Some ==> #[trigger] call_requires(
                PyWeakProxy::mapping_subscript::<P>,
                (object, key, vm),
            ),
        forall|vm: &mut VirtualMachine<P>|
            {
                &&& vm@.wf()
                &&& vm@.weak_proxy(object) is Some
                &&& vm@.owns_opt(item)
            } ==> #[trigger] call_requires(
                PyWeakProxy::mapping_ass_subscript::<P>,
                (object, key, item, vm),
            ),
        forall|vm: &mut VirtualMachine<P>|
            {
                &&& vm@.wf()
                &&& vm@.owns(object)
                &&& vm@.adopted(object).owns_opt(item)
            } ==> #[trigger] call_requires(
                PyWeakProxy::new::<P>,
                (object, item, vm),
            ),
        forall|vm: &VirtualMachine<P>|
            vm@.wf() ==> #[trigger] call_requires(PyWeakProxy::repr_str::<P>, (&zelf, vm)),
        forall|vm: &VirtualMachine<P>|
            vm@.wf() ==> #[trigger] call_requires(PyWeakProxy::hash::<P>, (&zelf, vm)),
{
}

/// The slot tables of a weak proxy can be run on whatever numbers there are, and on
/// every such proxy.
pub proof fn law_plain_proxies_run_their_tables<P: ObjectProtocol>(
    unary: UnaryOp,
    binary: BinaryOp,
    ternary: TernaryOp,
    convert: ConversionOp,
    sequence: SequenceCall,
    mapping: MappingCall,
    a: PyObjectRef,
    b: PyObjectRef,
    c: PyObjectRef,
)
    ensures
        forall|vm: &mut VirtualMachine<P>|
            vm@.wf() && vm@.is_live(a) ==> #[trigger] call_requires(
                PyWeakProxy::number_slot::<P>,
                (NumberCall::Unary(unary, a), vm),
            ),
        forall|vm: &mut VirtualMachine<P>|
            vm@.wf() ==> #[trigger] call_requires(
                PyWeakProxy::number_slot::<P>,
                (NumberCall::Binary(binary, a, b), vm),
            ),
        forall|vm: &mut VirtualMachine<P>|
            vm@.wf() ==> #[trigger] call_requires(
                PyWeakProxy::number_slot::<P>,
                (NumberCall::Ternary(ternary, a, b, c), vm),
            ),
        forall|vm: &mut VirtualMachine<P>|
            vm@.wf() && vm@.is_live(a) && vm@.weak_proxy(a) is Some ==> #[trigger] call_requires(
                PyWeakProxy::number_slot::<P>,
                (NumberCall::Convert(convert, a), vm),
            ),
        forall|vm: &mut VirtualMachine<P>|
            vm@.wf() && vm@.weak_proxy(a) is Some ==> #[trigger] call_requires(
                PyWeakProxy::sequence_slot::<P>,
                (a, sequence, vm),
            ),
        forall|vm: &mut VirtualMachine<P>|
            {
                &&& vm@.wf()
                &&& vm@.weak_proxy(a) is Some
                &&& mapping.is_ready(vm@)
            } ==> #[trigger] call_requires(
                PyWeakProxy::mapping_slot::<P>,
                (a, mapping, vm),
            ),
{
}

/// A slot of a living weak proxy can be run whenever the call is in order.
pub proof fn law_plain_proxies_run_their_slots<P: ObjectProtocol>(
    zelf: Py<PyWeakProxy>,
    call: SlotCall,
)
    ensures
        forall|vm: &mut VirtualMachine<P>|
            {
                &&& vm@.wf()
                &&& vm@.weak_proxy(zelf.object) == Some(zelf)
                &&& call.is_ready(
                    zelf.object,
                    vm@,
                    |obj: PyObjectRef| vm@.weak_proxy(obj) is Some,
                )
            } ==> #[trigger] call_requires(PyWeakProxy::run_slot::<P>, (zelf, call, vm)),
{
}

/// Every operation on a weak callable proxy is in order in every well-formed state,
/// whatever the proxy and its referent are, if the references that are handed over are
/// there to be given away.
pub proof fn law_callable_proxies_take_part_in_everything<P: ObjectProtocol>(
    zelf: Py<PyWeakCallableProxy>,
    object: PyObjectRef,
    key: PyObjectRef,
    name: PyStrRef,
    value: PySetterValue,
    item: Option<PyObjectRef>,
    op: PyComparisonOp,
    args: FuncArgs,
)
    ensures
        forall|vm: &mut VirtualMachine<P>|
            vm@.wf() ==> #[trigger] call_requires(PyWeakCallableProxy::__str__::<P>, (&zelf, vm)),
        forall|vm: &mut VirtualMachine<P>|
            vm@.wf() ==> #[trigger] call_requires(
                PyWeakCallableProxy::__bytes__::<P>,
                (&zelf.payload, vm),
            ),
        forall|vm: &mut VirtualMachine<P>|
            vm@.wf() ==> #[trigger] call_requires(
                PyWeakCallableProxy::__reversed__::<P>,
                (&zelf.payload, vm),
            ),
        forall|vm: &mut VirtualMachine<P>|
            vm@.wf() ==> #[trigger] call_requires(
                PyWeakCallableProxy::try_upgrade::<P>,
                (&zelf.payload, vm),
            ),
        forall|vm: &mut VirtualMachine<P>|
            vm@.wf() ==> #[trigger] call_requires(PyWeakCallableProxy::next::<P>, (&zelf, vm)),
        forall|vm: &mut VirtualMachine<P>|
            vm@.wf() ==> #[trigger] call_requires(
                PyWeakCallableProxy::getattro::<P>,
                (&zelf, name, vm),
            ),
        forall|vm: &mut VirtualMachine<P>|
            vm@.wf() ==> #[trigger] call_requires(
                PyWeakCallableProxy::cmp::<P>,
                (&zelf, object, op, vm),
            ),
        forall|vm: &mut VirtualMachine<P>|
            vm@.wf() && vm@.owns(zelf.object) ==> #[trigger] call_requires(
                PyWeakCallableProxy::iter::<P>,
                (zelf, vm),
            ),
        forall|vm: &mut VirtualMachine<P>|
            vm@.wf() && vm@.owns_opt(value.as_option()) ==> #[trigger] call_requires(
                PyWeakCallableProxy::setattro::<P>,
                (&zelf, name, value, vm),
            ),
        forall|vm: &mut VirtualMachine<P>|
            vm@.wf() && vm@.weak_callable_proxy(object) is Some ==> #[trigger] call_requires(
                PyWeakCallableProxy::number_boolean::<P>,
                (object, vm),
            ),
        forall|vm: &mut VirtualMachine<P>|
            vm@.wf() && vm@.weak_callable_proxy(object) is Some ==> #[trigger] call_requires(
                PyWeakCallableProxy::sequence_length::<P>,
                (object, vm),
            ),
        forall|vm: &mut VirtualMachine<P>|
            vm@.wf() && vm@.weak_callable_proxy(object) is Some ==> #[trigger] call_requires(
                PyWeakCallableProxy::sequence_contains::<P>,
                (object, key, vm),
            ),
        forall|vm: &mut VirtualMachine<P>|
            vm@.wf() && vm@.weak_callable_proxy(object) is Some ==> #[trigger] call_requires(
                PyWeakCallableProxy::mapping_length::<P>,
                (object, vm),
            ),
        forall|vm: &mut VirtualMachine<P>|
            vm@.wf() && vm@.weak_callable_proxy(object) is Some ==> #[trigger] call_requires(
                PyWeakCallableProxy::mapping_subscript::<P>,
                (object, key, vm),
            ),
        forall|vm: &mut VirtualMachine<P>|
            {
                &&& vm@.wf()
                &&& vm@.weak_callable_proxy(object) is Some
                &&& vm@.owns_opt(item)
            } ==> #[trigger] call_requires(
                PyWeakCallableProxy::mapping_ass_subscript::<P>,
                (object, key, item, vm),
            ),
        forall|vm: &mut VirtualMachine<P>|
            {
                &&& vm@.wf()
                &&& vm@.owns(object)
                &&& vm@.adopted(object).owns_opt(item)
            } ==> #[trigger] call_requires(
                PyWeakCallableProxy::new::<P>,
                (object, item, vm),
            ),
        forall|vm: &mut VirtualMachine<P>|
            vm@.wf() && vm@.owns_all(args.spec_refs()) ==> #[trigger] call_requires(
                PyWeakCallableProxy::call::<P>,
                (&zelf, args, vm),
            ),
        forall|vm: &VirtualMachine<P>|
            vm@.wf() ==> #[trigger] call_requires(PyWeakCallableProxy::repr_str::<P>, (&zelf, vm)),
        forall|vm: &VirtualMachine<P>|
            vm@.wf() ==> #[trigger] call_requires(PyWeakCallableProxy::hash::<P>, (&zelf, vm)),
{
}

/// The slot tables of a weak callable proxy can be run on whatever numbers there are, and on
/// every such proxy.
pub proof fn law_callable_proxies_run_their_tables<P: ObjectProtocol>(
    unary: UnaryOp,
    binary: BinaryOp,
    ternary: TernaryOp,
    convert: ConversionOp,
    sequence: SequenceCall,
    mapping: MappingCall,
    a: PyObjectRef,
    b: PyObjectRef,
    c: PyObjectRef,
)
    ensures
        forall|vm: &mut VirtualMachine<P>|
            vm@.wf() && vm@.is_live(a) ==> #[trigger] call_requires(
                PyWeakCallableProxy::number_slot::<P>,
                (NumberCall::Unary(unary, a), vm),
            ),
        forall|vm: &mut VirtualMachine<P>|
            vm@.wf() ==> #[trigger] call_requires(
                PyWeakCallableProxy::number_slot::<P>,
                (NumberCall::Binary(binary, a, b), vm),
            ),
        forall|vm: &mut VirtualMachine<P>|
            vm@.wf() ==> #[trigger] call_requires(
                PyWeakCallableProxy::number_slot::<P>,
                (NumberCall::Ternary(ternary, a, b, c), vm),
            ),
        forall|vm: &mut VirtualMachine<P>|
            {
                &&& vm@.wf()
                &&& vm@.is_live(a)
                &&& vm@.weak_callable_proxy(a) is Some
            } ==> #[trigger] call_requires(
                PyWeakCallableProxy::number_slot::<P>,
                (NumberCall::Convert(convert, a), vm),
            ),
        forall|vm: &mut VirtualMachine<P>|
            vm@.wf() && vm@.weak_callable_proxy(a) is Some ==> #[trigger] call_requires(
                PyWeakCallableProxy::sequence_slot::<P>,
                (a, sequence, vm),
            ),
        forall|vm: &mut VirtualMachine<P>|
            {
                &&& vm@.wf()
                &&& vm@.weak_callable_proxy(a) is Some
                &&& mapping.is_ready(vm@)
            } ==> #[trigger] call_requires(
                PyWeakCallableProxy::mapping_slot::<P>,
                (a, mapping, vm),
            ),
{
}

/// A slot of a living weak callable proxy can be run whenever the call is in order.
pub proof fn law_callable_proxies_run_their_slots<P: ObjectProtocol>(
    zelf: Py<PyWeakCallableProxy>,
    call: SlotCall,
)
    ensures
        forall|vm: &mut VirtualMachine<P>|
            {
                &&& vm@.wf()
                &&& vm@.weak_callable_proxy(zelf.object) == Some(zelf)
                &&& call.is_ready(
                    zelf.object,
                    vm@,
                    |obj: PyObjectRef| vm@.weak_callable_proxy(obj) is Some,
                )
            } ==> #[trigger] call_requires(PyWeakCallableProxy::run_slot::<P>, (zelf, call, vm)),
{
}

} // verus!
