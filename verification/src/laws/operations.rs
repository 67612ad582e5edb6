//! What the operations on proxies do, from the objects that they are given to what
//! the interpreter is asked for and what comes back. Each law speaks of both kinds of
//! proxy, and of the slots as well as of the functions behind them.

use vstd::prelude::*;

use crate::object::{
    FuncArgs, OptionalArg, Py, PyBaseException, PyComparisonOp, PyComparisonValue, PyFloatRef,
    PyIntRef, PyIter, PyIterReturn, PyObjectRef, PyResult, PySetterValue, PyStrRef, PyTypeRef,
    PyWeak, mapped, raises,
};
use crate::protocol::{
    BinaryOp, ConversionOp, MappingCall, MappingValue, NumberCall, NumberValue, ObjectProtocol,
    SequenceCall, SequenceValue, SlotCall, SlotValue, TernaryOp, UnaryOp,
};
use crate::proxy::{
    compared, make_weak_ref, operand, proxied, proxy_ass_item, proxy_binary_slot, proxy_bytes,
    proxy_call, proxy_compare, proxy_contains, proxy_float_slot, proxy_get_attr, proxy_get_item,
    proxy_index_slot, proxy_int_slot, proxy_is_true, proxy_iter, proxy_length, proxy_next,
    proxy_reversed, proxy_set_attr, proxy_str, proxy_ternary_slot, proxy_try_upgrade,
    proxy_unary_slot, proxy_upgrade_opt, reference_error, taken, weak_subclass_made,
};
use crate::vm::{Payload, PyObject, VirtualMachine, VmState};
use crate::weakcallableproxy::PyWeakCallableProxy;
use crate::weakproxy::{PyWeakProxy, WeakProxyNewArgs};

verus! {

/// `str` of a proxy is `str` of its referent, asked for while a strong reference to it is
/// held. A dead proxy raises.
pub proof fn law_str_is_of_the_referent<P: ObjectProtocol>(
    object: PyObjectRef,
    weak: PyWeak,
    vm: &mut VirtualMachine<P>,
    res: PyResult<PyStrRef>,
)
    requires
        call_ensures(
            PyWeakProxy::__str__::<P>,
            (&Py { object, payload: PyWeakProxy { weak } }, vm),
            res,
        ) || call_ensures(
            PyWeakProxy::run_slot::<P>,
            (Py { object, payload: PyWeakProxy { weak } }, SlotCall::Str, vm),
            Some(mapped(res, |value: PyStrRef| SlotValue::Str(value))),
        ) || call_ensures(
            PyWeakCallableProxy::__str__::<P>,
            (&Py { object, payload: PyWeakCallableProxy { weak } }, vm),
            res,
        ) || call_ensures(
            PyWeakCallableProxy::run_slot::<P>,
            (Py { object, payload: PyWeakCallableProxy { weak } }, SlotCall::Str, vm),
            Some(mapped(res, |value: PyStrRef| SlotValue::Str(value))),
        ) || call_ensures(proxy_str::<P>, (&weak, vm), res),
    ensures
        old(vm)@.is_live(weak.referent) ==> exists|v: &mut VirtualMachine<P>|
            {
                &&& v@ == old(vm)@.took(weak.referent)
                &&& final(vm)@ == final(v)@.gave_back(weak.referent)
                &&& #[trigger] call_ensures(P::str, (v, weak.referent), res)
            },
        !old(vm)@.is_live(weak.referent) ==> {
            &&& raises(res, reference_error(old(vm)@.ctx))
            &&& final(vm)@ == old(vm)@
        },
{
}

/// `bytes` of a proxy is `bytes` of its referent. A dead proxy raises.
pub proof fn law_bytes_are_of_the_referent<P: ObjectProtocol>(
    object: PyObjectRef,
    weak: PyWeak,
    vm: &mut VirtualMachine<P>,
    res: PyResult<PyObjectRef>,
)
    requires
        call_ensures(PyWeakProxy::__bytes__::<P>, (&PyWeakProxy { weak }, vm), res) || call_ensures(
            PyWeakProxy::run_slot::<P>,
            (Py { object, payload: PyWeakProxy { weak } }, SlotCall::Bytes, vm),
            Some(mapped(res, |value: PyObjectRef| SlotValue::Object(value))),
        ) || call_ensures(
            PyWeakCallableProxy::__bytes__::<P>,
            (&PyWeakCallableProxy { weak }, vm),
            res,
        ) || call_ensures(
            PyWeakCallableProxy::run_slot::<P>,
            (Py { object, payload: PyWeakCallableProxy { weak } }, SlotCall::Bytes, vm),
            Some(mapped(res, |value: PyObjectRef| SlotValue::Object(value))),
        ) || call_ensures(proxy_bytes::<P>, (&weak, vm), res),
    ensures
        old(vm)@.is_live(weak.referent) ==> exists|v: &mut VirtualMachine<P>|
            {
                &&& v@ == old(vm)@.took(weak.referent)
                &&& final(vm)@ == final(v)@.gave_back(weak.referent)
                &&& #[trigger] call_ensures(P::bytes, (v, weak.referent), res)
            },
        !old(vm)@.is_live(weak.referent) ==> {
            &&& raises(res, reference_error(old(vm)@.ctx))
            &&& final(vm)@ == old(vm)@
        },
{
}

/// `reversed` of a proxy is `reversed` of its referent. A dead proxy raises.
pub proof fn law_reversed_is_of_the_referent<P: ObjectProtocol>(
    object: PyObjectRef,
    weak: PyWeak,
    vm: &mut VirtualMachine<P>,
    res: PyResult<PyObjectRef>,
)
    requires
        call_ensures(
            PyWeakProxy::__reversed__::<P>,
            (&PyWeakProxy { weak }, vm),
            res,
        ) || call_ensures(
            PyWeakProxy::run_slot::<P>,
            (Py { object, payload: PyWeakProxy { weak } }, SlotCall::Reversed, vm),
            Some(mapped(res, |value: PyObjectRef| SlotValue::Object(value))),
        ) || call_ensures(
            PyWeakCallableProxy::__reversed__::<P>,
            (&PyWeakCallableProxy { weak }, vm),
            res,
        ) || call_ensures(
            PyWeakCallableProxy::run_slot::<P>,
            (Py { object, payload: PyWeakCallableProxy { weak } }, SlotCall::Reversed, vm),
            Some(mapped(res, |value: PyObjectRef| SlotValue::Object(value))),
        ) || call_ensures(proxy_reversed::<P>, (&weak, vm), res),
    ensures
        old(vm)@.is_live(weak.referent) ==> exists|v: &mut VirtualMachine<P>|
            {
                &&& v@ == old(vm)@.took(weak.referent)
                &&& final(vm)@ == final(v)@.gave_back(weak.referent)
                &&& #[trigger] call_ensures(P::reversed, (v, weak.referent), res)
            },
        !old(vm)@.is_live(weak.referent) ==> {
            &&& raises(res, reference_error(old(vm)@.ctx))
            &&& final(vm)@ == old(vm)@
        },
{
}

/// An attribute of a proxy is the attribute of that name of its referent. A dead proxy
/// raises.
pub proof fn law_attributes_are_of_the_referent<P: ObjectProtocol>(
    object: PyObjectRef,
    weak: PyWeak,
    name: PyStrRef,
    vm: &mut VirtualMachine<P>,
    res: PyResult<PyObjectRef>,
)
    requires
        call_ensures(
            PyWeakProxy::getattro::<P>,
            (&Py { object, payload: PyWeakProxy { weak } }, name, vm),
            res,
        ) || call_ensures(
            PyWeakProxy::run_slot::<P>,
            (Py { object, payload: PyWeakProxy { weak } }, SlotCall::GetAttr(name), vm),
            Some(mapped(res, |value: PyObjectRef| SlotValue::Object(value))),
        ) || call_ensures(
            PyWeakCallableProxy::getattro::<P>,
            (&Py { object, payload: PyWeakCallableProxy { weak } }, name, vm),
            res,
        ) || call_ensures(
            PyWeakCallableProxy::run_slot::<P>,
            (Py { object, payload: PyWeakCallableProxy { weak } }, SlotCall::GetAttr(name), vm),
            Some(mapped(res, |value: PyObjectRef| SlotValue::Object(value))),
        ) || call_ensures(proxy_get_attr::<P>, (&weak, name, vm), res),
    ensures
        old(vm)@.is_live(weak.referent) ==> exists|v: &mut VirtualMachine<P>|
            {
                &&& v@ == old(vm)@.took(weak.referent)
                &&& final(vm)@ == final(v)@.gave_back(weak.referent)
                &&& #[trigger] call_ensures(P::get_attr, (v, weak.referent, name), res)
            },
        !old(vm)@.is_live(weak.referent) ==> {
            &&& raises(res, reference_error(old(vm)@.ctx))
            &&& final(vm)@ == old(vm)@
        },
{
}

/// An attribute that is set or deleted on a proxy is set or deleted, under that name and
/// with that value, on its referent. A dead proxy raises and drops the value.
pub proof fn law_attributes_are_set_on_the_referent<P: ObjectProtocol>(
    object: PyObjectRef,
    weak: PyWeak,
    name: PyStrRef,
    value: PySetterValue,
    vm: &mut VirtualMachine<P>,
    res: PyResult<()>,
)
    requires
        call_ensures(
            PyWeakProxy::setattro::<P>,
            (&Py { object, payload: PyWeakProxy { weak } }, name, value, vm),
            res,
        ) || call_ensures(
            PyWeakProxy::run_slot::<P>,
            (Py { object, payload: PyWeakProxy { weak } }, SlotCall::SetAttr(name, value), vm),
            Some(mapped(res, |value: ()| SlotValue::Done)),
        ) || call_ensures(
            PyWeakCallableProxy::setattro::<P>,
            (&Py { object, payload: PyWeakCallableProxy { weak } }, name, value, vm),
            res,
        ) || call_ensures(
            PyWeakCallableProxy::run_slot::<P>,
            (
                Py { object, payload: PyWeakCallableProxy { weak } },
                SlotCall::SetAttr(name, value),
                vm,
            ),
            Some(mapped(res, |value: ()| SlotValue::Done)),
        ) || call_ensures(proxy_set_attr::<P>, (&weak, name, value, vm), res),
    ensures
        old(vm)@.is_live(weak.referent) ==> exists|v: &mut VirtualMachine<P>|
            {
                &&& v@ == old(vm)@.took(weak.referent)
                &&& final(vm)@ == final(v)@.gave_back(weak.referent)
                &&& #[trigger] call_ensures(P::call_set_attr, (v, weak.referent, name, value), res)
            },
        !old(vm)@.is_live(weak.referent) ==> {
            &&& raises(res, reference_error(old(vm)@.ctx))
            &&& value matches PySetterValue::Assign(assigned) ==> final(vm)@ == old(vm)@.released(
                assigned,
            )
            &&& value is Delete ==> final(vm)@ == old(vm)@
        },
{
}

/// A call of a callable proxy is a call of its referent with the same arguments. A dead
/// proxy raises and drops the arguments.
pub proof fn law_call_is_of_the_referent<P: ObjectProtocol>(
    object: PyObjectRef,
    weak: PyWeak,
    args: FuncArgs,
    vm: &mut VirtualMachine<P>,
    res: PyResult<PyObjectRef>,
)
    requires
        call_ensures(
            PyWeakCallableProxy::call::<P>,
            (&Py { object, payload: PyWeakCallableProxy { weak } }, args, vm),
            res,
        ) || call_ensures(
            PyWeakCallableProxy::run_slot::<P>,
            (Py { object, payload: PyWeakCallableProxy { weak } }, SlotCall::Call(args), vm),
            Some(mapped(res, |value: PyObjectRef| SlotValue::Object(value))),
        ) || call_ensures(proxy_call::<P>, (&weak, args, vm), res),
    ensures
        old(vm)@.is_live(weak.referent) ==> exists|v: &mut VirtualMachine<P>|
            {
                &&& v@ == old(vm)@.took(weak.referent)
                &&& final(vm)@ == final(v)@.gave_back(weak.referent)
                &&& #[trigger] call_ensures(P::call, (v, weak.referent, args), res)
            },
        !old(vm)@.is_live(weak.referent) ==> {
            &&& raises(res, reference_error(old(vm)@.ctx))
            &&& final(vm)@ == old(vm)@.released_all(args.spec_refs())
        },
{
}

/// The iterator over a proxy is the one that its referent gives. A dead proxy raises. The
/// reference to the proxy that was handed over is dropped either way.
pub proof fn law_iterator_is_of_the_referent<P: ObjectProtocol>(
    object: PyObjectRef,
    weak: PyWeak,
    vm: &mut VirtualMachine<P>,
    res: PyResult<PyObjectRef>,
)
    requires
        call_ensures(
            PyWeakProxy::iter::<P>,
            (Py { object, payload: PyWeakProxy { weak } }, vm),
            res,
        ) || call_ensures(
            PyWeakProxy::run_slot::<P>,
            (Py { object, payload: PyWeakProxy { weak } }, SlotCall::Iter, vm),
            Some(mapped(res, |value: PyObjectRef| SlotValue::Object(value))),
        ) || call_ensures(
            PyWeakCallableProxy::iter::<P>,
            (Py { object, payload: PyWeakCallableProxy { weak } }, vm),
            res,
        ) || call_ensures(
            PyWeakCallableProxy::run_slot::<P>,
            (Py { object, payload: PyWeakCallableProxy { weak } }, SlotCall::Iter, vm),
            Some(mapped(res, |value: PyObjectRef| SlotValue::Object(value))),
        ) || call_ensures(proxy_iter::<P>, (object, &weak, vm), res),
    ensures
        old(vm)@.is_live(weak.referent) ==> exists|
            v: &mut VirtualMachine<P>,
            reply: PyResult<PyIter>,
        |
            {
                &&& v@ == old(vm)@.adopted(object).took(weak.referent)
                &&& final(vm)@ == final(v)@.gave_back(weak.referent).gave_back(object)
                &&& #[trigger] call_ensures(P::get_iter, (v, weak.referent), reply)
                &&& reply matches Ok(iter) ==> res == Ok::<_, PyBaseException>(iter.object)
                &&& reply matches Err(e) ==> res == Err::<PyObjectRef, _>(e)
            },
        !old(vm)@.is_live(weak.referent) ==> {
            &&& raises(res, reference_error(old(vm)@.ctx))
            &&& final(vm)@ == old(vm)@.released(object)
        },
{
}

/// The next item of a proxy is that of its referent, if the class of that has the slot for
/// the next item; whatever else the class has plays no part. Without the slot there is
/// `TypeError`, and the referent is not asked. A dead proxy raises.
pub proof fn law_next_item_is_of_the_referent<P: ObjectProtocol>(
    object: PyObjectRef,
    weak: PyWeak,
    class: PyTypeRef,
    payload: Payload,
    vm: &mut VirtualMachine<P>,
    res: PyResult<PyIterReturn>,
)
    requires
        call_ensures(
            PyWeakProxy::next::<P>,
            (&Py { object, payload: PyWeakProxy { weak } }, vm),
            res,
        ) || call_ensures(
            PyWeakProxy::run_slot::<P>,
            (Py { object, payload: PyWeakProxy { weak } }, SlotCall::IterNext, vm),
            Some(mapped(res, |value: PyIterReturn| SlotValue::Next(value))),
        ) || call_ensures(
            PyWeakCallableProxy::next::<P>,
            (&Py { object, payload: PyWeakCallableProxy { weak } }, vm),
            res,
        ) || call_ensures(
            PyWeakCallableProxy::run_slot::<P>,
            (Py { object, payload: PyWeakCallableProxy { weak } }, SlotCall::IterNext, vm),
            Some(mapped(res, |value: PyIterReturn| SlotValue::Next(value))),
        ) || call_ensures(proxy_next::<P>, (&weak, vm), res),
    ensures
        weak.referent.id < old(vm)@.objects.len() && old(vm)@.objects[weak.referent.id as int]
            == Some(PyObject { class, payload }) ==> {
            let of = old(vm)@.ctx.classes@[class.index as int];
            &&& of.slots.iternext ==> exists|v: &mut VirtualMachine<P>|
                {
                    &&& v@ == old(vm)@.took(weak.referent)
                    &&& final(vm)@ == final(v)@.gave_back(weak.referent)
                    &&& #[trigger] call_ensures(P::next, (v, PyIter { object: weak.referent }), res)
                }
            &&& !of.slots.iternext ==> {
                &&& res matches Err(e)
                &&& e.class == old(vm)@.ctx.exceptions.type_error
                &&& e.msg@ == "Weakref proxy referenced a non-iterator '"@ + of.name@ + "' object"@
                &&& final(vm)@ == old(vm)@
            }
        },
        !old(vm)@.is_live(weak.referent) ==> {
            &&& raises(res, reference_error(old(vm)@.ctx))
            &&& final(vm)@ == old(vm)@
        },
{
}

/// The truth value of a proxy is that of its referent. A dead proxy raises.
pub proof fn law_truth_is_of_the_referent<P: ObjectProtocol>(
    object: PyObjectRef,
    weak: PyWeak,
    class: PyTypeRef,
    vm: &mut VirtualMachine<P>,
    res: PyResult<bool>,
)
    requires
        object.id < old(vm)@.objects.len(),
        (old(vm)@.objects[object.id as int] == Some(
            PyObject { class, payload: Payload::WeakProxy(PyWeakProxy { weak }) },
        ) && (call_ensures(
            PyWeakProxy::number_boolean::<P>,
            (object, vm),
            res,
        ) || call_ensures(
            PyWeakProxy::number_slot::<P>,
            (NumberCall::Convert(ConversionOp::Bool, object), vm),
            mapped(res, |value: bool| NumberValue::Truth(value)),
        ) || call_ensures(
            PyWeakProxy::run_slot::<P>,
            (
                Py { object, payload: PyWeakProxy { weak } },
                SlotCall::Number(NumberCall::Convert(ConversionOp::Bool, object)),
                vm,
            ),
            Some(mapped(res, |value: bool| SlotValue::Number(NumberValue::Truth(value)))),
        ))) || (old(vm)@.objects[object.id as int] == Some(
            PyObject { class, payload: Payload::WeakCallableProxy(PyWeakCallableProxy { weak }) },
        ) && (call_ensures(
            PyWeakCallableProxy::number_boolean::<P>,
            (object, vm),
            res,
        ) || call_ensures(
            PyWeakCallableProxy::number_slot::<P>,
            (NumberCall::Convert(ConversionOp::Bool, object), vm),
            mapped(res, |value: bool| NumberValue::Truth(value)),
        ) || call_ensures(
            PyWeakCallableProxy::run_slot::<P>,
            (
                Py { object, payload: PyWeakCallableProxy { weak } },
                SlotCall::Number(NumberCall::Convert(ConversionOp::Bool, object)),
                vm,
            ),
            Some(mapped(res, |value: bool| SlotValue::Number(NumberValue::Truth(value)))),
        ))) || call_ensures(proxy_is_true::<P>, (&weak, vm), res),
    ensures
        old(vm)@.is_live(weak.referent) ==> exists|v: &mut VirtualMachine<P>|
            {
                &&& v@ == old(vm)@.took(weak.referent)
                &&& final(vm)@ == final(v)@.gave_back(weak.referent)
                &&& #[trigger] call_ensures(P::is_true, (v, weak.referent), res)
            },
        !old(vm)@.is_live(weak.referent) ==> {
            &&& raises(res, reference_error(old(vm)@.ctx))
            &&& final(vm)@ == old(vm)@
        },
{
}

/// The number of items of a proxy, as a sequence and as a mapping, is that of its
/// referent. A dead proxy raises.
pub proof fn law_length_is_of_the_referent<P: ObjectProtocol>(
    object: PyObjectRef,
    weak: PyWeak,
    class: PyTypeRef,
    vm: &mut VirtualMachine<P>,
    res: PyResult<usize>,
)
    requires
        object.id < old(vm)@.objects.len(),
        (old(vm)@.objects[object.id as int] == Some(
            PyObject { class, payload: Payload::WeakProxy(PyWeakProxy { weak }) },
        ) && (call_ensures(
            PyWeakProxy::sequence_length::<P>,
            (object, vm),
            res,
        ) || call_ensures(
            PyWeakProxy::sequence_slot::<P>,
            (object, SequenceCall::Length, vm),
            mapped(res, |value: usize| SequenceValue::Length(value)),
        ) || call_ensures(
            PyWeakProxy::run_slot::<P>,
            (
                Py { object, payload: PyWeakProxy { weak } },
                SlotCall::Sequence(SequenceCall::Length),
                vm,
            ),
            Some(mapped(res, |value: usize| SlotValue::Sequence(SequenceValue::Length(value)))),
        ) || call_ensures(
            PyWeakProxy::mapping_length::<P>,
            (object, vm),
            res,
        ) || call_ensures(
            PyWeakProxy::mapping_slot::<P>,
            (object, MappingCall::Length, vm),
            mapped(res, |value: usize| MappingValue::Length(value)),
        ) || call_ensures(
            PyWeakProxy::run_slot::<P>,
            (
                Py { object, payload: PyWeakProxy { weak } },
                SlotCall::Mapping(MappingCall::Length),
                vm,
            ),
            Some(mapped(res, |value: usize| SlotValue::Mapping(MappingValue::Length(value)))),
        ))) || (old(vm)@.objects[object.id as int] == Some(
            PyObject { class, payload: Payload::WeakCallableProxy(PyWeakCallableProxy { weak }) },
        ) && (call_ensures(
            PyWeakCallableProxy::sequence_length::<P>,
            (object, vm),
            res,
        ) || call_ensures(
            PyWeakCallableProxy::sequence_slot::<P>,
            (object, SequenceCall::Length, vm),
            mapped(res, |value: usize| SequenceValue::Length(value)),
        ) || call_ensures(
            PyWeakCallableProxy::run_slot::<P>,
            (
                Py { object, payload: PyWeakCallableProxy { weak } },
                SlotCall::Sequence(SequenceCall::Length),
                vm,
            ),
            Some(mapped(res, |value: usize| SlotValue::Sequence(SequenceValue::Length(value)))),
        ) || call_ensures(
            PyWeakCallableProxy::mapping_length::<P>,
            (object, vm),
            res,
        ) || call_ensures(
            PyWeakCallableProxy::mapping_slot::<P>,
            (object, MappingCall::Length, vm),
            mapped(res, |value: usize| MappingValue::Length(value)),
        ) || call_ensures(
            PyWeakCallableProxy::run_slot::<P>,
            (
                Py { object, payload: PyWeakCallableProxy { weak } },
                SlotCall::Mapping(MappingCall::Length),
                vm,
            ),
            Some(mapped(res, |value: usize| SlotValue::Mapping(MappingValue::Length(value)))),
        ))) || call_ensures(proxy_length::<P>, (&weak, vm), res),
    ensures
        old(vm)@.is_live(weak.referent) ==> exists|v: &mut VirtualMachine<P>|
            {
                &&& v@ == old(vm)@.took(weak.referent)
                &&& final(vm)@ == final(v)@.gave_back(weak.referent)
                &&& #[trigger] call_ensures(P::length, (v, weak.referent), res)
            },
        !old(vm)@.is_live(weak.referent) ==> {
            &&& raises(res, reference_error(old(vm)@.ctx))
            &&& final(vm)@ == old(vm)@
        },
{
}

/// What is searched for in a proxy is searched for in its referent. A dead proxy raises.
pub proof fn law_search_is_in_the_referent<P: ObjectProtocol>(
    object: PyObjectRef,
    weak: PyWeak,
    class: PyTypeRef,
    needle: PyObjectRef,
    vm: &mut VirtualMachine<P>,
    res: PyResult<bool>,
)
    requires
        object.id < old(vm)@.objects.len(),
        (old(vm)@.objects[object.id as int] == Some(
            PyObject { class, payload: Payload::WeakProxy(PyWeakProxy { weak }) },
        ) && (call_ensures(
            PyWeakProxy::sequence_contains::<P>,
            (object, needle, vm),
            res,
        ) || call_ensures(
            PyWeakProxy::sequence_slot::<P>,
            (object, SequenceCall::Contains(needle), vm),
            mapped(res, |value: bool| SequenceValue::Contains(value)),
        ) || call_ensures(
            PyWeakProxy::run_slot::<P>,
            (
                Py { object, payload: PyWeakProxy { weak } },
                SlotCall::Sequence(SequenceCall::Contains(needle)),
                vm,
            ),
            Some(mapped(res, |value: bool| SlotValue::Sequence(SequenceValue::Contains(value)))),
        ))) || (old(vm)@.objects[object.id as int] == Some(
            PyObject { class, payload: Payload::WeakCallableProxy(PyWeakCallableProxy { weak }) },
        ) && (call_ensures(
            PyWeakCallableProxy::sequence_contains::<P>,
            (object, needle, vm),
            res,
        ) || call_ensures(
            PyWeakCallableProxy::sequence_slot::<P>,
            (object, SequenceCall::Contains(needle), vm),
            mapped(res, |value: bool| SequenceValue::Contains(value)),
        ) || call_ensures(
            PyWeakCallableProxy::run_slot::<P>,
            (
                Py { object, payload: PyWeakCallableProxy { weak } },
                SlotCall::Sequence(SequenceCall::Contains(needle)),
                vm,
            ),
            Some(mapped(res, |value: bool| SlotValue::Sequence(SequenceValue::Contains(value)))),
        ))) || call_ensures(proxy_contains::<P>, (&weak, needle, vm), res),
    ensures
        old(vm)@.is_live(weak.referent) ==> exists|v: &mut VirtualMachine<P>|
            {
                &&& v@ == old(vm)@.took(weak.referent)
                &&& final(vm)@ == final(v)@.gave_back(weak.referent)
                &&& #[trigger] call_ensures(P::contains, (v, weak.referent, needle), res)
            },
        !old(vm)@.is_live(weak.referent) ==> {
            &&& raises(res, reference_error(old(vm)@.ctx))
            &&& final(vm)@ == old(vm)@
        },
{
}

/// An item of a proxy is the item of its referent at that place. A dead proxy raises.
pub proof fn law_items_are_of_the_referent<P: ObjectProtocol>(
    object: PyObjectRef,
    weak: PyWeak,
    class: PyTypeRef,
    needle: PyObjectRef,
    vm: &mut VirtualMachine<P>,
    res: PyResult<PyObjectRef>,
)
    requires
        object.id < old(vm)@.objects.len(),
        (old(vm)@.objects[object.id as int] == Some(
            PyObject { class, payload: Payload::WeakProxy(PyWeakProxy { weak }) },
        ) && (call_ensures(
            PyWeakProxy::mapping_subscript::<P>,
            (object, needle, vm),
            res,
        ) || call_ensures(
            PyWeakProxy::mapping_slot::<P>,
            (object, MappingCall::Subscript(needle), vm),
            mapped(res, |value: PyObjectRef| MappingValue::Item(value)),
        ) || call_ensures(
            PyWeakProxy::run_slot::<P>,
            (
                Py { object, payload: PyWeakProxy { weak } },
                SlotCall::Mapping(MappingCall::Subscript(needle)),
                vm,
            ),
            Some(
                mapped(res, |value: PyObjectRef| SlotValue::Mapping(MappingValue::Item(value))),
            ),
        ))) || (old(vm)@.objects[object.id as int] == Some(
            PyObject { class, payload: Payload::WeakCallableProxy(PyWeakCallableProxy { weak }) },
        ) && (call_ensures(
            PyWeakCallableProxy::mapping_subscript::<P>,
            (object, needle, vm),
            res,
        ) || call_ensures(
            PyWeakCallableProxy::mapping_slot::<P>,
            (object, MappingCall::Subscript(needle), vm),
            mapped(res, |value: PyObjectRef| MappingValue::Item(value)),
        ) || call_ensures(
            PyWeakCallableProxy::run_slot::<P>,
            (
                Py { object, payload: PyWeakCallableProxy { weak } },
                SlotCall::Mapping(MappingCall::Subscript(needle)),
                vm,
            ),
            Some(
                mapped(res, |value: PyObjectRef| SlotValue::Mapping(MappingValue::Item(value))),
            ),
        ))) || call_ensures(proxy_get_item::<P>, (&weak, needle, vm), res),
    ensures
        old(vm)@.is_live(weak.referent) ==> exists|v: &mut VirtualMachine<P>|
            {
                &&& v@ == old(vm)@.took(weak.referent)
                &&& final(vm)@ == final(v)@.gave_back(weak.referent)
                &&& #[trigger] call_ensures(P::get_item, (v, weak.referent, needle), res)
            },
        !old(vm)@.is_live(weak.referent) ==> {
            &&& raises(res, reference_error(old(vm)@.ctx))
            &&& final(vm)@ == old(vm)@
        },
{
}

/// An item that is given a value on a proxy gets it on the referent, at that place. A dead
/// proxy raises and drops the value.
pub proof fn law_items_are_set_on_the_referent<P: ObjectProtocol>(
    object: PyObjectRef,
    weak: PyWeak,
    class: PyTypeRef,
    needle: PyObjectRef,
    item: PyObjectRef,
    vm: &mut VirtualMachine<P>,
    res: PyResult<()>,
)
    requires
        object.id < old(vm)@.objects.len(),
        (old(vm)@.objects[object.id as int] == Some(
            PyObject { class, payload: Payload::WeakProxy(PyWeakProxy { weak }) },
        ) && (call_ensures(
            PyWeakProxy::mapping_ass_subscript::<P>,
            (object, needle, Some(item), vm),
            res,
        ) || call_ensures(
            PyWeakProxy::mapping_slot::<P>,
            (object, MappingCall::AssSubscript(needle, Some(item)), vm),
            mapped(res, |value: ()| MappingValue::Done),
        ) || call_ensures(
            PyWeakProxy::run_slot::<P>,
            (
                Py { object, payload: PyWeakProxy { weak } },
                SlotCall::Mapping(MappingCall::AssSubscript(needle, Some(item))),
                vm,
            ),
            Some(mapped(res, |value: ()| SlotValue::Mapping(MappingValue::Done))),
        ))) || (old(vm)@.objects[object.id as int] == Some(
            PyObject { class, payload: Payload::WeakCallableProxy(PyWeakCallableProxy { weak }) },
        ) && (call_ensures(
            PyWeakCallableProxy::mapping_ass_subscript::<P>,
            (object, needle, Some(item), vm),
            res,
        ) || call_ensures(
            PyWeakCallableProxy::mapping_slot::<P>,
            (object, MappingCall::AssSubscript(needle, Some(item)), vm),
            mapped(res, |value: ()| MappingValue::Done),
        ) || call_ensures(
            PyWeakCallableProxy::run_slot::<P>,
            (
                Py { object, payload: PyWeakCallableProxy { weak } },
                SlotCall::Mapping(MappingCall::AssSubscript(needle, Some(item))),
                vm,
            ),
            Some(mapped(res, |value: ()| SlotValue::Mapping(MappingValue::Done))),
        ))) || call_ensures(proxy_ass_item::<P>, (&weak, needle, Some(item), vm), res),
    ensures
        old(vm)@.is_live(weak.referent) ==> exists|v: &mut VirtualMachine<P>|
            {
                &&& v@ == old(vm)@.took(weak.referent)
                &&& final(vm)@ == final(v)@.gave_back(weak.referent)
                &&& #[trigger] call_ensures(P::set_item, (v, weak.referent, needle, item), res)
            },
        !old(vm)@.is_live(weak.referent) ==> {
            &&& raises(res, reference_error(old(vm)@.ctx))
            &&& final(vm)@ == old(vm)@.released(item)
        },
{
}

/// An item that is deleted on a proxy is deleted on the referent, at that place. A dead
/// proxy raises.
pub proof fn law_items_are_deleted_on_the_referent<P: ObjectProtocol>(
    object: PyObjectRef,
    weak: PyWeak,
    class: PyTypeRef,
    needle: PyObjectRef,
    vm: &mut VirtualMachine<P>,
    res: PyResult<()>,
)
    requires
        object.id < old(vm)@.objects.len(),
        (old(vm)@.objects[object.id as int] == Some(
            PyObject { class, payload: Payload::WeakProxy(PyWeakProxy { weak }) },
        ) && (call_ensures(
            PyWeakProxy::mapping_ass_subscript::<P>,
            (object, needle, None, vm),
            res,
        ) || call_ensures(
            PyWeakProxy::mapping_slot::<P>,
            (object, MappingCall::AssSubscript(needle, None), vm),
            mapped(res, |value: ()| MappingValue::Done),
        ) || call_ensures(
            PyWeakProxy::run_slot::<P>,
            (
                Py { object, payload: PyWeakProxy { weak } },
                SlotCall::Mapping(MappingCall::AssSubscript(needle, None)),
                vm,
            ),
            Some(mapped(res, |value: ()| SlotValue::Mapping(MappingValue::Done))),
        ))) || (old(vm)@.objects[object.id as int] == Some(
            PyObject { class, payload: Payload::WeakCallableProxy(PyWeakCallableProxy { weak }) },
        ) && (call_ensures(
            PyWeakCallableProxy::mapping_ass_subscript::<P>,
            (object, needle, None, vm),
            res,
        ) || call_ensures(
            PyWeakCallableProxy::mapping_slot::<P>,
            (object, MappingCall::AssSubscript(needle, None), vm),
            mapped(res, |value: ()| MappingValue::Done),
        ) || call_ensures(
            PyWeakCallableProxy::run_slot::<P>,
            (
                Py { object, payload: PyWeakCallableProxy { weak } },
                SlotCall::Mapping(MappingCall::AssSubscript(needle, None)),
                vm,
            ),
            Some(mapped(res, |value: ()| SlotValue::Mapping(MappingValue::Done))),
        ))) || call_ensures(proxy_ass_item::<P>, (&weak, needle, None, vm), res),
    ensures
        old(vm)@.is_live(weak.referent) ==> exists|v: &mut VirtualMachine<P>|
            {
                &&& v@ == old(vm)@.took(weak.referent)
                &&& final(vm)@ == final(v)@.gave_back(weak.referent)
                &&& #[trigger] call_ensures(P::del_item, (v, weak.referent, needle), res)
            },
        !old(vm)@.is_live(weak.referent) ==> {
            &&& raises(res, reference_error(old(vm)@.ctx))
            &&& final(vm)@ == old(vm)@
        },
{
}

/// A comparison of a proxy, by any operator, compares its referent, on the left, with what
/// the other object stands for, on the right, and gives that answer. A dead proxy on
/// either side raises.
pub proof fn law_comparison_is_of_the_referents<P: ObjectProtocol>(
    object: PyObjectRef,
    weak: PyWeak,
    other: PyObjectRef,
    op: PyComparisonOp,
    vm: &mut VirtualMachine<P>,
    res: PyResult<PyComparisonValue>,
)
    requires
        call_ensures(
            PyWeakProxy::cmp::<P>,
            (&Py { object, payload: PyWeakProxy { weak } }, other, op, vm),
            res,
        ) || call_ensures(
            PyWeakProxy::run_slot::<P>,
            (Py { object, payload: PyWeakProxy { weak } }, SlotCall::RichCompare(other, op), vm),
            Some(mapped(res, |value: PyComparisonValue| SlotValue::Compared(value))),
        ) || call_ensures(
            PyWeakCallableProxy::cmp::<P>,
            (&Py { object, payload: PyWeakCallableProxy { weak } }, other, op, vm),
            res,
        ) || call_ensures(
            PyWeakCallableProxy::run_slot::<P>,
            (
                Py { object, payload: PyWeakCallableProxy { weak } },
                SlotCall::RichCompare(other, op),
                vm,
            ),
            Some(mapped(res, |value: PyComparisonValue| SlotValue::Compared(value))),
        ) || call_ensures(proxy_compare::<P>, (&weak, other, op, vm), res),
    ensures
        old(vm)@.is_live(weak.referent) && operand(other, old(vm)@) is Ok ==> exists|
            v: &mut VirtualMachine<P>,
            reply: PyResult<bool>,
        |
            {
                &&& v@ == old(vm)@.took(weak.referent).took_opt(taken(other, old(vm)@))
                &&& final(vm)@ == final(v)@.gave_back_opt(taken(other, old(vm)@)).gave_back(
                    weak.referent,
                )
                &&& #[trigger] call_ensures(
                    P::rich_compare_bool,
                    (v, weak.referent, operand(other, old(vm)@)->Ok_0, op),
                    reply,
                )
                &&& reply matches Ok(yes) ==> res == Ok::<_, PyBaseException>(
                    PyComparisonValue::Implemented(yes),
                )
                &&& reply matches Err(e) ==> res == Err::<PyComparisonValue, _>(e)
            },
        !(old(vm)@.is_live(weak.referent) && operand(other, old(vm)@) is Ok) ==> {
            &&& raises(res, reference_error(old(vm)@.ctx))
            &&& final(vm)@ == old(vm)@
        },
{
    if compared(weak, other, old(vm)@) is Ok {
        assert(compared(weak, other, old(vm)@)->Ok_0.0 == weak.referent);
    }
}

/// An operation on one number asks for that very operation on what the number stands for.
/// A dead proxy raises.
pub proof fn law_unary_operation_is_on_the_referent<P: ObjectProtocol>(
    object: PyObjectRef,
    weak: PyWeak,
    op: UnaryOp,
    number: PyObjectRef,
    vm: &mut VirtualMachine<P>,
    res: PyResult<PyObjectRef>,
)
    requires
        call_ensures(proxy_unary_slot::<P>, (op, number, vm), res) || call_ensures(
            PyWeakProxy::number_slot::<P>,
            (NumberCall::Unary(op, number), vm),
            mapped(res, |value: PyObjectRef| NumberValue::Object(value)),
        ) || call_ensures(
            PyWeakProxy::run_slot::<P>,
            (
                Py { object, payload: PyWeakProxy { weak } },
                SlotCall::Number(NumberCall::Unary(op, number)),
                vm,
            ),
            Some(
                mapped(res, |value: PyObjectRef| SlotValue::Number(NumberValue::Object(value))),
            ),
        ) || call_ensures(
            PyWeakCallableProxy::number_slot::<P>,
            (NumberCall::Unary(op, number), vm),
            mapped(res, |value: PyObjectRef| NumberValue::Object(value)),
        ) || call_ensures(
            PyWeakCallableProxy::run_slot::<P>,
            (
                Py { object, payload: PyWeakCallableProxy { weak } },
                SlotCall::Number(NumberCall::Unary(op, number)),
                vm,
            ),
            Some(
                mapped(res, |value: PyObjectRef| SlotValue::Number(NumberValue::Object(value))),
            ),
        ),
    ensures
        operand(number, old(vm)@) matches Ok(x) ==> exists|v: &mut VirtualMachine<P>|
            {
                &&& v@ == old(vm)@.took(x)
                &&& final(vm)@ == final(v)@.gave_back(x)
                &&& #[trigger] call_ensures(P::unary, (v, op, x), res)
            },
        operand(number, old(vm)@) is Err ==> {
            &&& raises(res, reference_error(old(vm)@.ctx))
            &&& final(vm)@ == old(vm)@
        },
{
}

/// An operation on two numbers asks for that very operation on what the numbers stand for,
/// each on its own side. A dead proxy on either side raises.
pub proof fn law_binary_operation_is_on_the_referents<P: ObjectProtocol>(
    object: PyObjectRef,
    weak: PyWeak,
    op: BinaryOp,
    a: PyObjectRef,
    b: PyObjectRef,
    vm: &mut VirtualMachine<P>,
    res: PyResult<PyObjectRef>,
)
    requires
        call_ensures(proxy_binary_slot::<P>, (op, a, b, vm), res) || call_ensures(
            PyWeakProxy::number_slot::<P>,
            (NumberCall::Binary(op, a, b), vm),
            mapped(res, |value: PyObjectRef| NumberValue::Object(value)),
        ) || call_ensures(
            PyWeakProxy::run_slot::<P>,
            (
                Py { object, payload: PyWeakProxy { weak } },
                SlotCall::Number(NumberCall::Binary(op, a, b)),
                vm,
            ),
            Some(
                mapped(res, |value: PyObjectRef| SlotValue::Number(NumberValue::Object(value))),
            ),
        ) || call_ensures(
            PyWeakCallableProxy::number_slot::<P>,
            (NumberCall::Binary(op, a, b), vm),
            mapped(res, |value: PyObjectRef| NumberValue::Object(value)),
        ) || call_ensures(
            PyWeakCallableProxy::run_slot::<P>,
            (
                Py { object, payload: PyWeakCallableProxy { weak } },
                SlotCall::Number(NumberCall::Binary(op, a, b)),
                vm,
            ),
            Some(
                mapped(res, |value: PyObjectRef| SlotValue::Number(NumberValue::Object(value))),
            ),
        ),
    ensures
        operand(a, old(vm)@) is Ok && operand(b, old(vm)@) is Ok ==> exists|
            v: &mut VirtualMachine<P>,
        |
            {
                &&& v@ == old(vm)@.took_opt(taken(a, old(vm)@)).took_opt(taken(b, old(vm)@))
                &&& final(vm)@ == final(v)@.gave_back_opt(taken(b, old(vm)@)).gave_back_opt(
                    taken(a, old(vm)@),
                )
                &&& #[trigger] call_ensures(
                    P::binary,
                    (v, op, operand(a, old(vm)@)->Ok_0, operand(b, old(vm)@)->Ok_0),
                    res,
                )
            },
        operand(a, old(vm)@) is Err ==> {
            &&& raises(res, reference_error(old(vm)@.ctx))
            &&& final(vm)@ == old(vm)@
        },
        operand(b, old(vm)@) is Err ==> {
            &&& raises(res, reference_error(old(vm)@.ctx))
            &&& final(vm)@ == old(vm)@
        },
{
}

/// An operation on three numbers asks for that very operation on what the numbers stand
/// for, each in its own place. A dead proxy in any place raises.
pub proof fn law_ternary_operation_is_on_the_referents<P: ObjectProtocol>(
    object: PyObjectRef,
    weak: PyWeak,
    op: TernaryOp,
    a: PyObjectRef,
    b: PyObjectRef,
    c: PyObjectRef,
    vm: &mut VirtualMachine<P>,
    res: PyResult<PyObjectRef>,
)
    requires
        call_ensures(proxy_ternary_slot::<P>, (op, a, b, c, vm), res) || call_ensures(
            PyWeakProxy::number_slot::<P>,
            (NumberCall::Ternary(op, a, b, c), vm),
            mapped(res, |value: PyObjectRef| NumberValue::Object(value)),
        ) || call_ensures(
            PyWeakProxy::run_slot::<P>,
            (
                Py { object, payload: PyWeakProxy { weak } },
                SlotCall::Number(NumberCall::Ternary(op, a, b, c)),
                vm,
            ),
            Some(
                mapped(res, |value: PyObjectRef| SlotValue::Number(NumberValue::Object(value))),
            ),
        ) || call_ensures(
            PyWeakCallableProxy::number_slot::<P>,
            (NumberCall::Ternary(op, a, b, c), vm),
            mapped(res, |value: PyObjectRef| NumberValue::Object(value)),
        ) || call_ensures(
            PyWeakCallableProxy::run_slot::<P>,
            (
                Py { object, payload: PyWeakCallableProxy { weak } },
                SlotCall::Number(NumberCall::Ternary(op, a, b, c)),
                vm,
            ),
            Some(
                mapped(res, |value: PyObjectRef| SlotValue::Number(NumberValue::Object(value))),
            ),
        ),
    ensures
        (operand(a, old(vm)@) is Ok && operand(b, old(vm)@) is Ok && operand(c, old(vm)@) is Ok)
            ==> exists|v: &mut VirtualMachine<P>|
            {
                &&& v@ == old(vm)@.took_opt(taken(a, old(vm)@)).took_opt(
                    taken(b, old(vm)@),
                ).took_opt(taken(c, old(vm)@))
                &&& final(vm)@ == final(v)@.gave_back_opt(taken(c, old(vm)@)).gave_back_opt(
                    taken(b, old(vm)@),
                ).gave_back_opt(taken(a, old(vm)@))
                &&& #[trigger] call_ensures(
                    P::ternary,
                    (
                        v,
                        op,
                        operand(a, old(vm)@)->Ok_0,
                        operand(b, old(vm)@)->Ok_0,
                        operand(c, old(vm)@)->Ok_0,
                    ),
                    res,
                )
            },
        operand(a, old(vm)@) is Err ==> {
            &&& raises(res, reference_error(old(vm)@.ctx))
            &&& final(vm)@ == old(vm)@
        },
        operand(b, old(vm)@) is Err ==> {
            &&& raises(res, reference_error(old(vm)@.ctx))
            &&& final(vm)@ == old(vm)@
        },
        operand(c, old(vm)@) is Err ==> {
            &&& raises(res, reference_error(old(vm)@.ctx))
            &&& final(vm)@ == old(vm)@
        },
{
}

/// The conversion of a number to `int` is that of what the number stands for. A dead proxy
/// raises.
pub proof fn law_int_is_of_the_referent<P: ObjectProtocol>(
    object: PyObjectRef,
    weak: PyWeak,
    number: PyObjectRef,
    vm: &mut VirtualMachine<P>,
    res: PyResult<PyObjectRef>,
)
    requires
        call_ensures(proxy_int_slot::<P>, (number, vm), res) || call_ensures(
            PyWeakProxy::number_slot::<P>,
            (NumberCall::Convert(ConversionOp::Int, number), vm),
            mapped(res, |value: PyObjectRef| NumberValue::Object(value)),
        ) || call_ensures(
            PyWeakProxy::run_slot::<P>,
            (
                Py { object, payload: PyWeakProxy { weak } },
                SlotCall::Number(NumberCall::Convert(ConversionOp::Int, number)),
                vm,
            ),
            Some(
                mapped(res, |value: PyObjectRef| SlotValue::Number(NumberValue::Object(value))),
            ),
        ) || call_ensures(
            PyWeakCallableProxy::number_slot::<P>,
            (NumberCall::Convert(ConversionOp::Int, number), vm),
            mapped(res, |value: PyObjectRef| NumberValue::Object(value)),
        ) || call_ensures(
            PyWeakCallableProxy::run_slot::<P>,
            (
                Py { object, payload: PyWeakCallableProxy { weak } },
                SlotCall::Number(NumberCall::Convert(ConversionOp::Int, number)),
                vm,
            ),
            Some(
                mapped(res, |value: PyObjectRef| SlotValue::Number(NumberValue::Object(value))),
            ),
        ),
    ensures
        operand(number, old(vm)@) matches Ok(x) ==> exists|
            v: &mut VirtualMachine<P>,
            reply: PyResult<PyIntRef>,
        |
            {
                &&& v@ == old(vm)@.took(x)
                &&& final(vm)@ == final(v)@.gave_back(x)
                &&& #[trigger] call_ensures(P::try_int, (v, x), reply)
                &&& reply matches Ok(value) ==> res == Ok::<_, PyBaseException>(value.object)
                &&& reply matches Err(e) ==> res == Err::<PyObjectRef, _>(e)
            },
        operand(number, old(vm)@) is Err ==> {
            &&& raises(res, reference_error(old(vm)@.ctx))
            &&& final(vm)@ == old(vm)@
        },
{
}

/// The conversion of a number to `float` is that of what the number stands for. A dead proxy
/// raises.
pub proof fn law_float_is_of_the_referent<P: ObjectProtocol>(
    object: PyObjectRef,
    weak: PyWeak,
    number: PyObjectRef,
    vm: &mut VirtualMachine<P>,
    res: PyResult<PyObjectRef>,
)
    requires
        call_ensures(proxy_float_slot::<P>, (number, vm), res) || call_ensures(
            PyWeakProxy::number_slot::<P>,
            (NumberCall::Convert(ConversionOp::Float, number), vm),
            mapped(res, |value: PyObjectRef| NumberValue::Object(value)),
        ) || call_ensures(
            PyWeakProxy::run_slot::<P>,
            (
                Py { object, payload: PyWeakProxy { weak } },
                SlotCall::Number(NumberCall::Convert(ConversionOp::Float, number)),
                vm,
            ),
            Some(
                mapped(res, |value: PyObjectRef| SlotValue::Number(NumberValue::Object(value))),
            ),
        ) || call_ensures(
            PyWeakCallableProxy::number_slot::<P>,
            (NumberCall::Convert(ConversionOp::Float, number), vm),
            mapped(res, |value: PyObjectRef| NumberValue::Object(value)),
        ) || call_ensures(
            PyWeakCallableProxy::run_slot::<P>,
            (
                Py { object, payload: PyWeakCallableProxy { weak } },
                SlotCall::Number(NumberCall::Convert(ConversionOp::Float, number)),
                vm,
            ),
            Some(
                mapped(res, |value: PyObjectRef| SlotValue::Number(NumberValue::Object(value))),
            ),
        ),
    ensures
        operand(number, old(vm)@) matches Ok(x) ==> exists|
            v: &mut VirtualMachine<P>,
            reply: PyResult<PyFloatRef>,
        |
            {
                &&& v@ == old(vm)@.took(x)
                &&& final(vm)@ == final(v)@.gave_back(x)
                &&& #[trigger] call_ensures(P::try_float, (v, x), reply)
                &&& reply matches Ok(value) ==> res == Ok::<_, PyBaseException>(value.object)
                &&& reply matches Err(e) ==> res == Err::<PyObjectRef, _>(e)
            },
        operand(number, old(vm)@) is Err ==> {
            &&& raises(res, reference_error(old(vm)@.ctx))
            &&& final(vm)@ == old(vm)@
        },
{
}

/// The conversion of a number to an index is that of what the number stands for. A dead proxy
/// raises.
pub proof fn law_index_is_of_the_referent<P: ObjectProtocol>(
    object: PyObjectRef,
    weak: PyWeak,
    number: PyObjectRef,
    vm: &mut VirtualMachine<P>,
    res: PyResult<PyObjectRef>,
)
    requires
        call_ensures(proxy_index_slot::<P>, (number, vm), res) || call_ensures(
            PyWeakProxy::number_slot::<P>,
            (NumberCall::Convert(ConversionOp::Index, number), vm),
            mapped(res, |value: PyObjectRef| NumberValue::Object(value)),
        ) || call_ensures(
            PyWeakProxy::run_slot::<P>,
            (
                Py { object, payload: PyWeakProxy { weak } },
                SlotCall::Number(NumberCall::Convert(ConversionOp::Index, number)),
                vm,
            ),
            Some(
                mapped(res, |value: PyObjectRef| SlotValue::Number(NumberValue::Object(value))),
            ),
        ) || call_ensures(
            PyWeakCallableProxy::number_slot::<P>,
            (NumberCall::Convert(ConversionOp::Index, number), vm),
            mapped(res, |value: PyObjectRef| NumberValue::Object(value)),
        ) || call_ensures(
            PyWeakCallableProxy::run_slot::<P>,
            (
                Py { object, payload: PyWeakCallableProxy { weak } },
                SlotCall::Number(NumberCall::Convert(ConversionOp::Index, number)),
                vm,
            ),
            Some(
                mapped(res, |value: PyObjectRef| SlotValue::Number(NumberValue::Object(value))),
            ),
        ),
    ensures
        operand(number, old(vm)@) matches Ok(x) ==> exists|
            v: &mut VirtualMachine<P>,
            reply: PyResult<PyIntRef>,
        |
            {
                &&& v@ == old(vm)@.took(x)
                &&& final(vm)@ == final(v)@.gave_back(x)
                &&& #[trigger] call_ensures(P::try_index, (v, x), reply)
                &&& reply matches Ok(value) ==> res == Ok::<_, PyBaseException>(value.object)
                &&& reply matches Err(e) ==> res == Err::<PyObjectRef, _>(e)
            },
        operand(number, old(vm)@) is Err ==> {
            &&& raises(res, reference_error(old(vm)@.ctx))
            &&& final(vm)@ == old(vm)@
        },
{
}

/// The hash of a weak proxy is refused, dead or alive, with a `TypeError` that names
/// its class.
pub proof fn law_plain_proxy_is_never_hashed<P: ObjectProtocol>(
    zelf: Py<PyWeakProxy>,
    vm: &mut VirtualMachine<P>,
    res: PyResult<i64>,
)
    requires
        call_ensures(
            PyWeakProxy::run_slot::<P>,
            (zelf, SlotCall::Hash, vm),
            Some(mapped(res, |value: i64| SlotValue::Hash(value))),
        ) || (*final(vm) == *old(vm) && call_ensures(
            PyWeakProxy::hash::<P>,
            (&zelf, &*old(vm)),
            res,
        )),
    ensures
        ({
            let of = old(vm)@.ctx.classes@[old(vm)@.ctx.types.weakproxy_type.index as int];
            &&& res matches Err(e)
            &&& e.class == old(vm)@.ctx.exceptions.type_error
            &&& e.msg@ == "unhashable type: '"@ + of.name@ + "'"@
        }),
        *final(vm) == *old(vm),
{
}

/// A slot of the class of the weak proxies is run exactly when the class has it; the call
/// never is. Nothing happens otherwise.
pub proof fn law_plain_proxy_runs_the_slots_of_its_class<P: ObjectProtocol>(
    zelf: Py<PyWeakProxy>,
    call: SlotCall,
    vm: &mut VirtualMachine<P>,
    res: Option<PyResult<SlotValue>>,
)
    requires
        call_ensures(PyWeakProxy::run_slot::<P>, (zelf, call, vm), res),
    ensures
        ({
            let class = old(vm)@.ctx.types.weakproxy_type.index as int;
            let slots = old(vm)@.ctx.classes@[class].slots;
            res is None <==> !call.spec_is_in(slots) || call is Call
        }),
        res is None ==> *final(vm) == *old(vm),
{
}

/// The hash of a weak callable proxy is refused, dead or alive, with a `TypeError` that names
/// its class.
pub proof fn law_callable_proxy_is_never_hashed<P: ObjectProtocol>(
    zelf: Py<PyWeakCallableProxy>,
    vm: &mut VirtualMachine<P>,
    res: PyResult<i64>,
)
    requires
        call_ensures(
            PyWeakCallableProxy::run_slot::<P>,
            (zelf, SlotCall::Hash, vm),
            Some(mapped(res, |value: i64| SlotValue::Hash(value))),
        ) || (*final(vm) == *old(vm) && call_ensures(
            PyWeakCallableProxy::hash::<P>,
            (&zelf, &*old(vm)),
            res,
        )),
    ensures
        ({
            let of = old(vm)@.ctx.classes@[old(vm)@.ctx.types.weakcallableproxy_type.index as int];
            &&& res matches Err(e)
            &&& e.class == old(vm)@.ctx.exceptions.type_error
            &&& e.msg@ == "unhashable type: '"@ + of.name@ + "'"@
        }),
        *final(vm) == *old(vm),
{
}

/// A slot of the class of the weak callable proxies is run exactly when the class has it
/// by its name. Nothing happens otherwise.
pub proof fn law_callable_proxy_runs_the_slots_of_its_class<P: ObjectProtocol>(
    zelf: Py<PyWeakCallableProxy>,
    call: SlotCall,
    vm: &mut VirtualMachine<P>,
    res: Option<PyResult<SlotValue>>,
)
    requires
        call_ensures(PyWeakCallableProxy::run_slot::<P>, (zelf, call, vm), res),
    ensures
        ({
            let class = old(vm)@.ctx.types.weakcallableproxy_type.index as int;
            let slots = old(vm)@.ctx.classes@[class].slots;
            res is None <==> !call.spec_is_in(slots)
        }),
        res is None ==> *final(vm) == *old(vm),
{
}

/// An upgrade gives the living referent, with a strong reference that is held, and raises
/// for a dead one, leaving all as it was.
pub proof fn law_upgrade_gives_the_referent<P: ObjectProtocol>(
    weak: PyWeak,
    vm: &mut VirtualMachine<P>,
    res: PyResult<PyObjectRef>,
)
    requires
        call_ensures(
            PyWeakProxy::try_upgrade::<P>,
            (&PyWeakProxy { weak }, vm),
            res,
        ) || call_ensures(
            PyWeakCallableProxy::try_upgrade::<P>,
            (&PyWeakCallableProxy { weak }, vm),
            res,
        ) || call_ensures(proxy_try_upgrade::<P>, (&weak, vm), res),
    ensures
        old(vm)@.is_live(weak.referent) ==> {
            &&& res == Ok::<_, PyBaseException>(weak.referent)
            &&& final(vm)@ == old(vm)@.took(weak.referent)
        },
        !old(vm)@.is_live(weak.referent) ==> {
            &&& raises(res, reference_error(old(vm)@.ctx))
            &&& final(vm)@ == old(vm)@
        },
{
}

/// Asked of any object, an upgrade gives the living referent of a proxy, raises for a dead
/// proxy, and gives nothing for what is no proxy.
pub proof fn law_only_proxies_are_upgraded<P: ObjectProtocol>(
    obj: PyObjectRef,
    vm: &mut VirtualMachine<P>,
    res: PyResult<Option<PyObjectRef>>,
)
    requires
        call_ensures(proxy_upgrade_opt::<P>, (obj, vm), res),
    ensures
        proxied(obj, old(vm)@) is None ==> {
            &&& res == Ok::<_, PyBaseException>(None::<PyObjectRef>)
            &&& final(vm)@ == old(vm)@
        },
        proxied(obj, old(vm)@) matches Some(weak) ==> (old(vm)@.is_live(weak.referent) ==> {
            &&& res == Ok::<_, PyBaseException>(Some(weak.referent))
            &&& final(vm)@ == old(vm)@.took(weak.referent)
        }),
        proxied(obj, old(vm)@) matches Some(weak) ==> (!old(vm)@.is_live(weak.referent) ==> {
            &&& raises(res, reference_error(old(vm)@.ctx))
            &&& final(vm)@ == old(vm)@
        }),
{
}

/// A proxy of either kind to a living object is made exactly when the class of the object
/// supports weak references, whatever its slots are. It has the referent and the callback
/// that were given, and the one class of weak references inside proxies. The reference to
/// the referent is dropped, and that to the callback where no proxy was made.
pub proof fn law_proxy_is_made_where_its_referent_allows<P: ObjectProtocol>(
    referent: PyObjectRef,
    callback: Option<PyObjectRef>,
    arg: OptionalArg,
    cls: PyTypeRef,
    class: PyTypeRef,
    payload: Payload,
    vm: &mut VirtualMachine<P>,
    res: PyResult<PyWeak>,
)
    requires
        referent.id < old(vm)@.objects.len(),
        old(vm)@.objects[referent.id as int] == Some(PyObject { class, payload }),
        call_ensures(make_weak_ref::<P>, (referent, callback, vm), res) || call_ensures(
            PyWeakProxy::new::<P>,
            (referent, callback, vm),
            mapped(res, |value: PyWeak| PyWeakProxy { weak: value }),
        ) || (arg.as_option() == callback && call_ensures(
            PyWeakProxy::py_new::<P>,
            (cls, WeakProxyNewArgs { referent, callback: arg }, vm),
            mapped(res, |value: PyWeak| PyWeakProxy { weak: value }),
        )) || call_ensures(
            PyWeakCallableProxy::new::<P>,
            (referent, callback, vm),
            mapped(res, |value: PyWeak| PyWeakCallableProxy { weak: value }),
        ) || (arg.as_option() == callback && call_ensures(
            PyWeakCallableProxy::py_new::<P>,
            (cls, WeakProxyNewArgs { referent, callback: arg }, vm),
            mapped(res, |value: PyWeak| PyWeakCallableProxy { weak: value }),
        )),
    ensures
        weak_subclass_made(old(vm)@.ctx, final(vm)@.ctx),
        ({
            let of = old(vm)@.ctx.classes@[class.index as int];
            let next = VmState { ctx: final(vm)@.ctx, ..old(vm)@ };
            &&& of.has_weakref <==> res is Ok
            &&& res matches Ok(weak) ==> {
                &&& weak.referent == referent
                &&& weak.callback == callback
                &&& final(vm)@.ctx.weak_subclass == Some(weak.typ)
                &&& final(vm)@ == next.released(referent)
            }
            &&& res matches Err(e) ==> {
                &&& e.class == old(vm)@.ctx.exceptions.type_error
                &&& e.msg@ == "cannot create weak reference to '"@ + of.name@ + "' object"@
                &&& final(vm)@ == next.released_opt(callback).released(referent)
            }
        }),
{
}

} // verus!
