//! The weak proxy to an object that is not called.

use vstd::prelude::*;

use crate::object::{
    ArgumentError, FuncArgs, OptionalArg, Py, PyBaseException, PyComparisonOp, PyComparisonValue,
    PyIter, PyIterReturn, PyObjectRef, PyResult, PySetterValue, PyStrRef, PyTypeRef, PyWeak,
    mapped, outcome, raises, spec_comparison_result, spec_iter_result,
};
use crate::protocol::{
    ConversionOp, MappingCall, MappingValue, NumberCall, NumberValue, ObjectProtocol,
    PyMappingMethods, PyNumberMethods, PySequenceMethods, SequenceCall, SequenceValue, SlotCall,
    SlotValue,
};
use crate::proxy::{
    compared, make_weak_ref, mapping_methods, new_unhashable_error, non_iterator_error,
    number_methods, proxy_ass_item, proxy_binary_slot, proxy_bytes, proxy_compare, proxy_contains,
    proxy_float_slot, proxy_get_attr, proxy_get_item, proxy_index_slot, proxy_int_slot,
    proxy_is_true, proxy_iter, proxy_length, proxy_mapping_methods, proxy_next,
    proxy_number_methods, proxy_repr, proxy_reversed, proxy_sequence_methods, proxy_set_attr,
    proxy_str, proxy_ternary_slot, proxy_try_upgrade, proxy_unary_slot, repr_text,
    sequence_methods, taken, try_upgraded, unhashable_error, weak_subclass_made,
};
use crate::vm::{Context, PyType, PyTypeSlots, VirtualMachine, VmState};
use crate::weakcallableproxy::PyWeakCallableProxy;

verus! {

/// A weak proxy.
#[derive(Clone, Copy, Debug, PartialEq, Eq, Structural)]
pub struct PyWeakProxy {
    pub weak: PyWeak,
}

/// The arguments from which a proxy is made.
#[derive(Clone, Copy, Debug, PartialEq, Eq, Structural)]
pub struct WeakProxyNewArgs {
    pub referent: PyObjectRef,
    pub callback: OptionalArg,
}

impl WeakProxyNewArgs {
    /// Takes the arguments off a call: the referent, which has to be there, and
    /// the callback, both of them positional.
    pub fn from_args(args: &mut FuncArgs) -> (res: Result<Self, ArgumentError>)
        ensures
            final(args).kwargs == old(args).kwargs,
            old(args).args@.len() == 0 ==> res == Err::<Self, ArgumentError>(
                ArgumentError::TooFewArgs,
            ) && final(args).args@ == old(args).args@,
            old(args).args@.len() == 1 ==> res == Ok::<Self, ArgumentError>(
                WeakProxyNewArgs {
                    referent: old(args).args@[0],
                    callback: OptionalArg::Missing,
                },
            ) && final(args).args@.len() == 0,
            old(args).args@.len() > 1 ==> res == Ok::<Self, ArgumentError>(
                WeakProxyNewArgs {
                    referent: old(args).args@[0],
                    callback: OptionalArg::Present(old(args).args@[1]),
                },
            ) && final(args).args@ == old(args).args@.skip(2),
    {
        let referent = match args.take_positional() {
            Some(referent) => referent,
            None => {
                return Err(ArgumentError::TooFewArgs);
            },
        };
        let callback = match args.take_positional() {
            Some(callback) => OptionalArg::Present(callback),
            None => OptionalArg::Missing,
        };
        assert(old(args).args@.len() > 1 ==> args.args@ =~= old(args).args@.skip(2));
        Ok(WeakProxyNewArgs { referent, callback })
    }
}

impl PyWeakProxy {
    /// The class of the weak proxies.
    pub fn class(ctx: &Context) -> (class: PyTypeRef)
        ensures
            class == ctx.types.weakproxy_type,
    {
        ctx.types.weakproxy_type
    }

    /// Makes a weak proxy to `referent`, which keeps `callback` for the
    /// interpreter to call when the referent dies; nothing here calls it. The strong
    /// reference to `referent` is dropped in the end. That to `callback` goes with
    /// the proxy, into the object that is made of it, or is dropped where there is
    /// no proxy.
    pub fn new<P>(
        referent: PyObjectRef,
        callback: Option<PyObjectRef>,
        vm: &mut VirtualMachine<P>,
    ) -> (res: PyResult<Self>)
        requires
            old(vm)@.wf(),
            old(vm)@.owns(referent),
            old(vm)@.adopted(referent).owns_opt(callback),
        ensures
            final(vm)@.kept_from(old(vm)@),
            weak_subclass_made(old(vm)@.ctx, final(vm)@.ctx),
            match old(vm)@.downgraded(referent, callback, final(vm)@.ctx.weak_subclass->0) {
                Ok(weak) => {
                    &&& res == Ok::<Self, PyBaseException>(PyWeakProxy { weak })
                    &&& final(vm)@ == (VmState { ctx: final(vm)@.ctx, ..old(vm)@ }).released(
                        referent,
                    )
                    &&& final(vm)@.owns_opt(callback)
                },
                Err(e) => {
                    &&& raises(res, e)
                    &&& final(vm)@ == (VmState { ctx: final(vm)@.ctx, ..old(vm)@ }).released_opt(
                        callback,
                    ).released(referent)
                },
            },
    {
        Ok(PyWeakProxy { weak: make_weak_ref(referent, callback, vm)? })
    }

    /// The referent while it lives, and `ReferenceError` after that. With the
    /// referent comes a strong reference to it, which is held until it is given
    /// back.
    pub fn try_upgrade<P>(&self, vm: &mut VirtualMachine<P>) -> (res: PyResult<PyObjectRef>)
        requires
            old(vm)@.wf(),
        ensures
            outcome(res) == try_upgraded(self.weak, old(vm)@),
            final(vm)@ == (match res {
                Ok(obj) => old(vm)@.took(obj),
                Err(_) => old(vm)@,
            }),
            final(vm)@.wf(),
            final(vm)@.evolved_from(old(vm)@),
    {
        proxy_try_upgrade(&self.weak, vm)
    }

    /// The referent as a `str`.
    pub fn __str__<P: ObjectProtocol>(
        zelf: &Py<Self>,
        vm: &mut VirtualMachine<P>,
    ) -> (res: PyResult<PyStrRef>)
        requires
            old(vm)@.wf(),
        ensures
            final(vm)@.kept_from(old(vm)@),
            match try_upgraded(zelf.payload.weak, old(vm)@) {
                Err(e) => raises(res, e) && final(vm)@ == old(vm)@,
                Ok(obj) => exists|v: &mut VirtualMachine<P>|
                    {
                        &&& v@ == old(vm)@.took(obj)
                        &&& final(vm)@ == final(v)@.gave_back(obj)
                        &&& #[trigger] call_ensures(P::str, (v, obj), res)
                    },
            },
    {
        proxy_str(&zelf.payload.weak, vm)
    }

    /// The referent as `bytes`.
    pub fn __bytes__<P: ObjectProtocol>(
        &self,
        vm: &mut VirtualMachine<P>,
    ) -> (res: PyResult<PyObjectRef>)
        requires
            old(vm)@.wf(),
        ensures
            final(vm)@.kept_from(old(vm)@),
            match try_upgraded(self.weak, old(vm)@) {
                Err(e) => raises(res, e) && final(vm)@ == old(vm)@,
                Ok(obj) => exists|v: &mut VirtualMachine<P>|
                    {
                        &&& v@ == old(vm)@.took(obj)
                        &&& final(vm)@ == final(v)@.gave_back(obj)
                        &&& #[trigger] call_ensures(P::bytes, (v, obj), res)
                    },
            },
    {
        proxy_bytes(&self.weak, vm)
    }

    /// An iterator that walks the referent backwards.
    pub fn __reversed__<P: ObjectProtocol>(
        &self,
        vm: &mut VirtualMachine<P>,
    ) -> (res: PyResult<PyObjectRef>)
        requires
            old(vm)@.wf(),
        ensures
            final(vm)@.kept_from(old(vm)@),
            match try_upgraded(self.weak, old(vm)@) {
                Err(e) => raises(res, e) && final(vm)@ == old(vm)@,
                Ok(obj) => exists|v: &mut VirtualMachine<P>|
                    {
                        &&& v@ == old(vm)@.took(obj)
                        &&& final(vm)@ == final(v)@.gave_back(obj)
                        &&& #[trigger] call_ensures(P::reversed, (v, obj), res)
                    },
            },
    {
        proxy_reversed(&self.weak, vm)
    }

    /// Makes a weak proxy from the arguments of a call of its class.
    pub fn py_new<P>(
        _cls: PyTypeRef,
        args: WeakProxyNewArgs,
        vm: &mut VirtualMachine<P>,
    ) -> (res: PyResult<Self>)
        requires
            old(vm)@.wf(),
            old(vm)@.owns(args.referent),
            old(vm)@.adopted(args.referent).owns_opt(args.callback.as_option()),
        ensures
            final(vm)@.kept_from(old(vm)@),
            weak_subclass_made(old(vm)@.ctx, final(vm)@.ctx),
            match old(vm)@.downgraded(
                args.referent,
                args.callback.as_option(),
                final(vm)@.ctx.weak_subclass->0,
            ) {
                Ok(weak) => {
                    &&& res == Ok::<Self, PyBaseException>(PyWeakProxy { weak })
                    &&& final(vm)@ == (VmState { ctx: final(vm)@.ctx, ..old(vm)@ }).released(
                        args.referent,
                    )
                    &&& final(vm)@.owns_opt(args.callback.as_option())
                },
                Err(e) => {
                    &&& raises(res, e)
                    &&& final(vm)@ == (VmState { ctx: final(vm)@.ctx, ..old(vm)@ }).released_opt(
                        args.callback.as_option(),
                    ).released(args.referent)
                },
            },
    {
        let WeakProxyNewArgs { referent, callback } = args;
        Self::new(referent, callback.into_option(), vm)
    }

    /// An iterator over the referent. The strong reference to the proxy itself is
    /// dropped in the end.
    pub fn iter<P: ObjectProtocol>(
        zelf: Py<Self>,
        vm: &mut VirtualMachine<P>,
    ) -> (res: PyResult<PyObjectRef>)
        requires
            old(vm)@.wf(),
            old(vm)@.owns(zelf.object),
        ensures
            final(vm)@.kept_from(old(vm)@),
            match try_upgraded(zelf.payload.weak, old(vm)@) {
                Err(e) => raises(res, e) && final(vm)@ == old(vm)@.released(zelf.object),
                Ok(obj) => exists|v: &mut VirtualMachine<P>, reply: PyResult<PyIter>|
                    {
                        &&& v@ == old(vm)@.adopted(zelf.object).took(obj)
                        &&& final(vm)@ == final(v)@.gave_back(obj).gave_back(zelf.object)
                        &&& #[trigger] call_ensures(P::get_iter, (v, obj), reply)
                        &&& res == spec_iter_result(reply)
                    },
            },
    {
        proxy_iter(zelf.object, &zelf.payload.weak, vm)
    }

    /// The next item of the referent, which has to be an iterator.
    pub fn next<P: ObjectProtocol>(
        zelf: &Py<Self>,
        vm: &mut VirtualMachine<P>,
    ) -> (res: PyResult<PyIterReturn>)
        requires
            old(vm)@.wf(),
        ensures
            final(vm)@.kept_from(old(vm)@),
            match try_upgraded(zelf.payload.weak, old(vm)@) {
                Err(e) => raises(res, e) && final(vm)@ == old(vm)@,
                Ok(obj) => if old(vm)@.is_iterator(obj) {
                    exists|v: &mut VirtualMachine<P>|
                        {
                            &&& v@ == old(vm)@.took(obj)
                            &&& final(vm)@ == final(v)@.gave_back(obj)
                            &&& #[trigger] call_ensures(P::next, (v, PyIter { object: obj }), res)
                        }
                } else {
                    raises(res, non_iterator_error(obj, old(vm)@)) && final(vm)@ == old(vm)@
                },
            },
    {
        proxy_next(&zelf.payload.weak, vm)
    }

    /// An attribute of the referent.
    pub fn getattro<P: ObjectProtocol>(
        zelf: &Py<Self>,
        name: PyStrRef,
        vm: &mut VirtualMachine<P>,
    ) -> (res: PyResult<PyObjectRef>)
        requires
            old(vm)@.wf(),
        ensures
            final(vm)@.kept_from(old(vm)@),
            match try_upgraded(zelf.payload.weak, old(vm)@) {
                Err(e) => raises(res, e) && final(vm)@ == old(vm)@,
                Ok(obj) => exists|v: &mut VirtualMachine<P>|
                    {
                        &&& v@ == old(vm)@.took(obj)
                        &&& final(vm)@ == final(v)@.gave_back(obj)
                        &&& #[trigger] call_ensures(P::get_attr, (v, obj, name), res)
                    },
            },
    {
        proxy_get_attr(&zelf.payload.weak, name, vm)
    }

    /// Sets or deletes an attribute of the referent. The strong reference to a value goes
    /// with it; a dead proxy drops it.
    pub fn setattro<P: ObjectProtocol>(
        zelf: &Py<Self>,
        name: PyStrRef,
        value: PySetterValue,
        vm: &mut VirtualMachine<P>,
    ) -> (res: PyResult<()>)
        requires
            old(vm)@.wf(),
            old(vm)@.owns_opt(value.as_option()),
        ensures
            final(vm)@.kept_from(old(vm)@),
            match try_upgraded(zelf.payload.weak, old(vm)@) {
                Err(e) => raises(res, e) && final(vm)@ == old(vm)@.released_opt(value.as_option()),
                Ok(obj) => exists|v: &mut VirtualMachine<P>|
                    {
                        &&& v@ == old(vm)@.took(obj)
                        &&& final(vm)@ == final(v)@.gave_back(obj)
                        &&& #[trigger] call_ensures(P::call_set_attr, (v, obj, name, value), res)
                    },
            },
    {
        proxy_set_attr(&zelf.payload.weak, name, value, vm)
    }

    /// The number slots.
    pub fn as_number() -> (methods: PyNumberMethods)
        ensures
            methods == number_methods(),
    {
        proxy_number_methods()
    }

    /// The truth value of the referent.
    pub fn number_boolean<P: ObjectProtocol>(
        number: PyObjectRef,
        vm: &mut VirtualMachine<P>,
    ) -> (res: PyResult<bool>)
        requires
            old(vm)@.wf(),
            old(vm)@.weak_proxy(number) is Some,
        ensures
            final(vm)@.kept_from(old(vm)@),
            match try_upgraded(old(vm)@.weak_proxy(number)->0.payload.weak, old(vm)@) {
                Err(e) => raises(res, e) && final(vm)@ == old(vm)@,
                Ok(obj) => exists|v: &mut VirtualMachine<P>|
                    {
                        &&& v@ == old(vm)@.took(obj)
                        &&& final(vm)@ == final(v)@.gave_back(obj)
                        &&& #[trigger] call_ensures(P::is_true, (v, obj), res)
                    },
            },
    {
        let zelf = vm.downcast_weak_proxy(number).unwrap();
        proxy_is_true(&zelf.payload.weak, vm)
    }

    /// Runs the number slot that the table [`Self::as_number`] names by the operation of
    /// `call`.
    pub fn number_slot<P: ObjectProtocol>(
        call: NumberCall,
        vm: &mut VirtualMachine<P>,
    ) -> (res: PyResult<NumberValue>)
        requires
            old(vm)@.wf(),
            call.is_ready(old(vm)@, |obj: PyObjectRef| old(vm)@.weak_proxy(obj) is Some),
        ensures
            final(vm)@.kept_from(old(vm)@),
            match call {
                NumberCall::Convert(ConversionOp::Bool, number) => exists|
                    v: &mut VirtualMachine<P>,
                    reply: PyResult<bool>,
                |
                    {
                        &&& *v == *old(vm)
                        &&& *final(vm) == *final(v)
                        &&& #[trigger] call_ensures(Self::number_boolean::<P>, (number, v), reply)
                        &&& res == mapped(reply, |truth: bool| NumberValue::Truth(truth))
                    },
                NumberCall::Convert(ConversionOp::Int, number) => exists|
                    v: &mut VirtualMachine<P>,
                    reply: PyResult<PyObjectRef>,
                |
                    {
                        &&& *v == *old(vm)
                        &&& *final(vm) == *final(v)
                        &&& #[trigger] call_ensures(proxy_int_slot::<P>, (number, v), reply)
                        &&& res == mapped(reply, |object: PyObjectRef| NumberValue::Object(object))
                    },
                NumberCall::Convert(ConversionOp::Float, number) => exists|
                    v: &mut VirtualMachine<P>,
                    reply: PyResult<PyObjectRef>,
                |
                    {
                        &&& *v == *old(vm)
                        &&& *final(vm) == *final(v)
                        &&& #[trigger] call_ensures(proxy_float_slot::<P>, (number, v), reply)
                        &&& res == mapped(reply, |object: PyObjectRef| NumberValue::Object(object))
                    },
                NumberCall::Convert(ConversionOp::Index, number) => exists|
                    v: &mut VirtualMachine<P>,
                    reply: PyResult<PyObjectRef>,
                |
                    {
                        &&& *v == *old(vm)
                        &&& *final(vm) == *final(v)
                        &&& #[trigger] call_ensures(proxy_index_slot::<P>, (number, v), reply)
                        &&& res == mapped(reply, |object: PyObjectRef| NumberValue::Object(object))
                    },
                NumberCall::Unary(op, number) => exists|
                    v: &mut VirtualMachine<P>,
                    reply: PyResult<PyObjectRef>,
                |
                    {
                        &&& *v == *old(vm)
                        &&& *final(vm) == *final(v)
                        &&& #[trigger] call_ensures(proxy_unary_slot::<P>, (op, number, v), reply)
                        &&& res == mapped(reply, |object: PyObjectRef| NumberValue::Object(object))
                    },
                NumberCall::Binary(op, a, b) => exists|
                    v: &mut VirtualMachine<P>,
                    reply: PyResult<PyObjectRef>,
                |
                    {
                        &&& *v == *old(vm)
                        &&& *final(vm) == *final(v)
                        &&& #[trigger] call_ensures(proxy_binary_slot::<P>, (op, a, b, v), reply)
                        &&& res == mapped(reply, |object: PyObjectRef| NumberValue::Object(object))
                    },
                NumberCall::Ternary(op, a, b, c) => exists|
                    v: &mut VirtualMachine<P>,
                    reply: PyResult<PyObjectRef>,
                |
                    {
                        &&& *v == *old(vm)
                        &&& *final(vm) == *final(v)
                        &&& #[trigger] call_ensures(
                            proxy_ternary_slot::<P>,
                            (op, a, b, c, v),
                            reply,
                        )
                        &&& res == mapped(reply, |object: PyObjectRef| NumberValue::Object(object))
                    },
            },
    {
        let reply = match call {
            NumberCall::Convert(ConversionOp::Bool, number) => {
                return match Self::number_boolean(number, vm) {
                    Ok(truth) => Ok(NumberValue::Truth(truth)),
                    Err(e) => Err(e),
                };
            },
            NumberCall::Convert(ConversionOp::Int, number) => proxy_int_slot(number, vm),
            NumberCall::Convert(ConversionOp::Float, number) => proxy_float_slot(number, vm),
            NumberCall::Convert(ConversionOp::Index, number) => proxy_index_slot(number, vm),
            NumberCall::Unary(op, number) => proxy_unary_slot(op, number, vm),
            NumberCall::Binary(op, a, b) => proxy_binary_slot(op, a, b, vm),
            NumberCall::Ternary(op, a, b, c) => proxy_ternary_slot(op, a, b, c, vm),
        };
        match reply {
            Ok(object) => Ok(NumberValue::Object(object)),
            Err(e) => Err(e),
        }
    }

    /// Compares the referent with `other`, or with its referent if it is a proxy.
    pub fn cmp<P: ObjectProtocol>(
        zelf: &Py<Self>,
        other: PyObjectRef,
        op: PyComparisonOp,
        vm: &mut VirtualMachine<P>,
    ) -> (res: PyResult<PyComparisonValue>)
        requires
            old(vm)@.wf(),
        ensures
            final(vm)@.kept_from(old(vm)@),
            match compared(zelf.payload.weak, other, old(vm)@) {
                Err(e) => raises(res, e) && final(vm)@ == old(vm)@,
                Ok((x, y)) => exists|v: &mut VirtualMachine<P>, reply: PyResult<bool>|
                    {
                        &&& v@ == old(vm)@.took(x).took_opt(taken(other, old(vm)@))
                        &&& final(vm)@ == final(v)@.gave_back_opt(
                            taken(other, old(vm)@),
                        ).gave_back(x)
                        &&& #[trigger] call_ensures(P::rich_compare_bool, (v, x, y, op), reply)
                        &&& res == spec_comparison_result(reply)
                    },
            },
    {
        proxy_compare(&zelf.payload.weak, other, op, vm)
    }

    /// The sequence slots.
    pub fn as_sequence() -> (methods: PySequenceMethods)
        ensures
            methods == sequence_methods(),
    {
        proxy_sequence_methods()
    }

    /// The number of items of the referent.
    pub fn sequence_length<P: ObjectProtocol>(
        seq: PyObjectRef,
        vm: &mut VirtualMachine<P>,
    ) -> (res: PyResult<usize>)
        requires
            old(vm)@.wf(),
            old(vm)@.weak_proxy(seq) is Some,
        ensures
            final(vm)@.kept_from(old(vm)@),
            match try_upgraded(old(vm)@.weak_proxy(seq)->0.payload.weak, old(vm)@) {
                Err(e) => raises(res, e) && final(vm)@ == old(vm)@,
                Ok(obj) => exists|v: &mut VirtualMachine<P>|
                    {
                        &&& v@ == old(vm)@.took(obj)
                        &&& final(vm)@ == final(v)@.gave_back(obj)
                        &&& #[trigger] call_ensures(P::length, (v, obj), res)
                    },
            },
    {
        let zelf = vm.downcast_weak_proxy(seq).unwrap();
        proxy_length(&zelf.payload.weak, vm)
    }

    /// Whether `needle` is among the items of the referent.
    pub fn sequence_contains<P: ObjectProtocol>(
        seq: PyObjectRef,
        needle: PyObjectRef,
        vm: &mut VirtualMachine<P>,
    ) -> (res: PyResult<bool>)
        requires
            old(vm)@.wf(),
            old(vm)@.weak_proxy(seq) is Some,
        ensures
            final(vm)@.kept_from(old(vm)@),
            match try_upgraded(old(vm)@.weak_proxy(seq)->0.payload.weak, old(vm)@) {
                Err(e) => raises(res, e) && final(vm)@ == old(vm)@,
                Ok(obj) => exists|v: &mut VirtualMachine<P>|
                    {
                        &&& v@ == old(vm)@.took(obj)
                        &&& final(vm)@ == final(v)@.gave_back(obj)
                        &&& #[trigger] call_ensures(P::contains, (v, obj, needle), res)
                    },
            },
    {
        let zelf = vm.downcast_weak_proxy(seq).unwrap();
        proxy_contains(&zelf.payload.weak, needle, vm)
    }

    /// Runs the sequence slot that the table [`Self::as_sequence`] names by the operation of
    /// `call`.
    pub fn sequence_slot<P: ObjectProtocol>(
        seq: PyObjectRef,
        call: SequenceCall,
        vm: &mut VirtualMachine<P>,
    ) -> (res: PyResult<SequenceValue>)
        requires
            old(vm)@.wf(),
            old(vm)@.weak_proxy(seq) is Some,
        ensures
            final(vm)@.kept_from(old(vm)@),
            match call {
                SequenceCall::Length => exists|v: &mut VirtualMachine<P>, reply: PyResult<usize>|
                    {
                        &&& *v == *old(vm)
                        &&& *final(vm) == *final(v)
                        &&& #[trigger] call_ensures(Self::sequence_length::<P>, (seq, v), reply)
                        &&& res == mapped(reply, |length: usize| SequenceValue::Length(length))
                    },
                SequenceCall::Contains(needle) => exists|
                    v: &mut VirtualMachine<P>,
                    reply: PyResult<bool>,
                |
                    {
                        &&& *v == *old(vm)
                        &&& *final(vm) == *final(v)
                        &&& #[trigger] call_ensures(
                            Self::sequence_contains::<P>,
                            (seq, needle, v),
                            reply,
                        )
                        &&& res == mapped(reply, |found: bool| SequenceValue::Contains(found))
                    },
            },
    {
        match call {
            SequenceCall::Length => match Self::sequence_length(seq, vm) {
                Ok(value) => Ok(SequenceValue::Length(value)),
                Err(e) => Err(e),
            },
            SequenceCall::Contains(needle) => match Self::sequence_contains(seq, needle, vm) {
                Ok(value) => Ok(SequenceValue::Contains(value)),
                Err(e) => Err(e),
            },
        }
    }

    /// The mapping slots.
    pub fn as_mapping() -> (methods: PyMappingMethods)
        ensures
            methods == mapping_methods(),
    {
        proxy_mapping_methods()
    }

    /// The number of items of the referent.
    pub fn mapping_length<P: ObjectProtocol>(
        mapping: PyObjectRef,
        vm: &mut VirtualMachine<P>,
    ) -> (res: PyResult<usize>)
        requires
            old(vm)@.wf(),
            old(vm)@.weak_proxy(mapping) is Some,
        ensures
            final(vm)@.kept_from(old(vm)@),
            match try_upgraded(old(vm)@.weak_proxy(mapping)->0.payload.weak, old(vm)@) {
                Err(e) => raises(res, e) && final(vm)@ == old(vm)@,
                Ok(obj) => exists|v: &mut VirtualMachine<P>|
                    {
                        &&& v@ == old(vm)@.took(obj)
                        &&& final(vm)@ == final(v)@.gave_back(obj)
                        &&& #[trigger] call_ensures(P::length, (v, obj), res)
                    },
            },
    {
        let zelf = vm.downcast_weak_proxy(mapping).unwrap();
        proxy_length(&zelf.payload.weak, vm)
    }

    /// The item of the referent at `needle`.
    pub fn mapping_subscript<P: ObjectProtocol>(
        mapping: PyObjectRef,
        needle: PyObjectRef,
        vm: &mut VirtualMachine<P>,
    ) -> (res: PyResult<PyObjectRef>)
        requires
            old(vm)@.wf(),
            old(vm)@.weak_proxy(mapping) is Some,
        ensures
            final(vm)@.kept_from(old(vm)@),
            match try_upgraded(old(vm)@.weak_proxy(mapping)->0.payload.weak, old(vm)@) {
                Err(e) => raises(res, e) && final(vm)@ == old(vm)@,
                Ok(obj) => exists|v: &mut VirtualMachine<P>|
                    {
                        &&& v@ == old(vm)@.took(obj)
                        &&& final(vm)@ == final(v)@.gave_back(obj)
                        &&& #[trigger] call_ensures(P::get_item, (v, obj, needle), res)
                    },
            },
    {
        let zelf = vm.downcast_weak_proxy(mapping).unwrap();
        proxy_get_item(&zelf.payload.weak, needle, vm)
    }

    /// Sets the item of the referent at `needle`, or deletes it where no value is given. The
    /// strong reference to the value goes with it; a dead proxy drops it.
    pub fn mapping_ass_subscript<P: ObjectProtocol>(
        mapping: PyObjectRef,
        needle: PyObjectRef,
        value: Option<PyObjectRef>,
        vm: &mut VirtualMachine<P>,
    ) -> (res: PyResult<()>)
        requires
            old(vm)@.wf(),
            old(vm)@.owns_opt(value),
            old(vm)@.weak_proxy(mapping) is Some,
        ensures
            final(vm)@.kept_from(old(vm)@),
            match try_upgraded(old(vm)@.weak_proxy(mapping)->0.payload.weak, old(vm)@) {
                Err(e) => raises(res, e) && final(vm)@ == old(vm)@.released_opt(value),
                Ok(obj) => match value {
                    Some(value) => exists|v: &mut VirtualMachine<P>|
                        {
                            &&& v@ == old(vm)@.took(obj)
                            &&& final(vm)@ == final(v)@.gave_back(obj)
                            &&& #[trigger] call_ensures(P::set_item, (v, obj, needle, value), res)
                        },
                    None => exists|v: &mut VirtualMachine<P>|
                        {
                            &&& v@ == old(vm)@.took(obj)
                            &&& final(vm)@ == final(v)@.gave_back(obj)
                            &&& #[trigger] call_ensures(P::del_item, (v, obj, needle), res)
                        },
                },
            },
    {
        let zelf = vm.downcast_weak_proxy(mapping).unwrap();
        proxy_ass_item(&zelf.payload.weak, needle, value, vm)
    }

    /// Runs the mapping slot that the table [`Self::as_mapping`] names by the operation of
    /// `call`.
    pub fn mapping_slot<P: ObjectProtocol>(
        mapping: PyObjectRef,
        call: MappingCall,
        vm: &mut VirtualMachine<P>,
    ) -> (res: PyResult<MappingValue>)
        requires
            old(vm)@.wf(),
            old(vm)@.weak_proxy(mapping) is Some,
            call.is_ready(old(vm)@),
        ensures
            final(vm)@.kept_from(old(vm)@),
            match call {
                MappingCall::Length => exists|v: &mut VirtualMachine<P>, reply: PyResult<usize>|
                    {
                        &&& *v == *old(vm)
                        &&& *final(vm) == *final(v)
                        &&& #[trigger] call_ensures(Self::mapping_length::<P>, (mapping, v), reply)
                        &&& res == mapped(reply, |length: usize| MappingValue::Length(length))
                    },
                MappingCall::Subscript(needle) => exists|
                    v: &mut VirtualMachine<P>,
                    reply: PyResult<PyObjectRef>,
                |
                    {
                        &&& *v == *old(vm)
                        &&& *final(vm) == *final(v)
                        &&& #[trigger] call_ensures(
                            Self::mapping_subscript::<P>,
                            (mapping, needle, v),
                            reply,
                        )
                        &&& res == mapped(reply, |item: PyObjectRef| MappingValue::Item(item))
                    },
                MappingCall::AssSubscript(needle, value) => exists|
                    v: &mut VirtualMachine<P>,
                    reply: PyResult<()>,
                |
                    {
                        &&& *v == *old(vm)
                        &&& *final(vm) == *final(v)
                        &&& #[trigger] call_ensures(
                            Self::mapping_ass_subscript::<P>,
                            (mapping, needle, value, v),
                            reply,
                        )
                        &&& res == mapped(reply, |done: ()| MappingValue::Done)
                    },
            },
    {
        match call {
            MappingCall::Length => match Self::mapping_length(mapping, vm) {
                Ok(value) => Ok(MappingValue::Length(value)),
                Err(e) => Err(e),
            },
            MappingCall::Subscript(needle) => match Self::mapping_subscript(mapping, needle, vm) {
                Ok(value) => Ok(MappingValue::Item(value)),
                Err(e) => Err(e),
            },
            MappingCall::AssSubscript(needle, value) => match Self::mapping_ass_subscript(
                mapping,
                needle,
                value,
                vm,
            ) {
                Ok(()) => Ok(MappingValue::Done),
                Err(e) => Err(e),
            },
        }
    }

    /// Represents the weak proxy itself. This works for a dead one too.
    pub fn repr_str<P>(zelf: &Py<Self>, vm: &VirtualMachine<P>) -> (res: PyResult<String>)
        requires
            vm@.wf(),
        ensures
            res matches Ok(text) && text@ == repr_text(zelf.object.id, zelf.payload.weak, vm@),
    {
        Ok(proxy_repr(zelf.get_id(), &zelf.payload.weak, vm))
    }

    /// Refuses to hash the weak proxy, whether or not its referent lives or can be
    /// hashed.
    pub fn hash<P>(_zelf: &Py<Self>, vm: &VirtualMachine<P>) -> (res: PyResult<i64>)
        requires
            vm@.wf(),
        ensures
            raises(res, unhashable_error(vm@.ctx.types.weakproxy_type, vm@.ctx)),
    {
        Err(new_unhashable_error(Self::class(&vm.ctx), vm))
    }

    /// What the weak proxies support. What each slot runs is said by
    /// [`Self::run_slot`]; `new` is [`Self::py_new`].
    pub open spec fn class_slots() -> PyTypeSlots {
        PyTypeSlots {
            getattro: true,
            setattro: true,
            new: true,
            richcompare: true,
            call: false,
            as_number: true,
            as_sequence: true,
            as_mapping: true,
            repr: true,
            iter: true,
            iternext: true,
            str_method: true,
            bytes_method: true,
            reversed_method: true,
            unhashable: true,
        }
    }

    /// Gives the class of the weak proxies what they support.
    pub fn extend_class(ctx: &mut Context, class: PyTypeRef)
        requires
            old(ctx).has_class(class),
        ensures
            final(ctx).sets_slots(
                *old(ctx),
                class,
                old(ctx).class(class).slots.union(Self::class_slots()),
            ),
            old(ctx).wf() ==> final(ctx).wf(),
    {
        let slots = PyTypeSlots {
            getattro: true,
            setattro: true,
            new: true,
            richcompare: true,
            call: false,
            as_number: true,
            as_sequence: true,
            as_mapping: true,
            repr: true,
            iter: true,
            iternext: true,
            str_method: true,
            bytes_method: true,
            reversed_method: true,
            unhashable: true,
        };
        ctx.extend_class(class, slots);
    }

    /// Runs the slot of the class of the weak proxies that `call` asks for, on the
    /// living proxy `zelf`. There is no answer where the class does not have the slot.
    /// A proxy of this kind is never called.
    pub fn run_slot<P: ObjectProtocol>(
        zelf: Py<Self>,
        call: SlotCall,
        vm: &mut VirtualMachine<P>,
    ) -> (res: Option<PyResult<SlotValue>>)
        requires
            old(vm)@.wf(),
            old(vm)@.weak_proxy(zelf.object) == Some(zelf),
            call.is_ready(
                zelf.object,
                old(vm)@,
                |obj: PyObjectRef| old(vm)@.weak_proxy(obj) is Some,
            ),
        ensures
            final(vm)@.kept_from(old(vm)@),
            res is None <==> call is Call || !call.spec_is_in(
                old(vm)@.ctx.class(old(vm)@.ctx.types.weakproxy_type).slots,
            ),
            res is None ==> *final(vm) == *old(vm),
            res is Some ==> match call {
                SlotCall::GetAttr(name) => exists|
                    v: &mut VirtualMachine<P>,
                    reply: PyResult<PyObjectRef>,
                |
                    {
                        &&& *v == *old(vm)
                        &&& *final(vm) == *final(v)
                        &&& #[trigger] call_ensures(Self::getattro::<P>, (&zelf, name, v), reply)
                        &&& res == Some(
                            mapped(reply, |value: PyObjectRef| SlotValue::Object(value)),
                        )
                    },
                SlotCall::SetAttr(name, value) => exists|
                    v: &mut VirtualMachine<P>,
                    reply: PyResult<()>,
                |
                    {
                        &&& *v == *old(vm)
                        &&& *final(vm) == *final(v)
                        &&& #[trigger] call_ensures(
                            Self::setattro::<P>,
                            (&zelf, name, value, v),
                            reply,
                        )
                        &&& res == Some(mapped(reply, |done: ()| SlotValue::Done))
                    },
                SlotCall::RichCompare(other, op) => exists|
                    v: &mut VirtualMachine<P>,
                    reply: PyResult<PyComparisonValue>,
                |
                    {
                        &&& *v == *old(vm)
                        &&& *final(vm) == *final(v)
                        &&& #[trigger] call_ensures(Self::cmp::<P>, (&zelf, other, op, v), reply)
                        &&& res == Some(
                            mapped(reply, |value: PyComparisonValue| SlotValue::Compared(value)),
                        )
                    },
                SlotCall::Number(call) => exists|
                    v: &mut VirtualMachine<P>,
                    reply: PyResult<NumberValue>,
                |
                    {
                        &&& *v == *old(vm)
                        &&& *final(vm) == *final(v)
                        &&& #[trigger] call_ensures(Self::number_slot::<P>, (call, v), reply)
                        &&& res == Some(
                            mapped(reply, |value: NumberValue| SlotValue::Number(value)),
                        )
                    },
                SlotCall::Sequence(call) => exists|
                    v: &mut VirtualMachine<P>,
                    reply: PyResult<SequenceValue>,
                |
                    {
                        &&& *v == *old(vm)
                        &&& *final(vm) == *final(v)
                        &&& #[trigger] call_ensures(
                            Self::sequence_slot::<P>,
                            (zelf.object, call, v),
                            reply,
                        )
                        &&& res == Some(
                            mapped(reply, |value: SequenceValue| SlotValue::Sequence(value)),
                        )
                    },
                SlotCall::Mapping(call) => exists|
                    v: &mut VirtualMachine<P>,
                    reply: PyResult<MappingValue>,
                |
                    {
                        &&& *v == *old(vm)
                        &&& *final(vm) == *final(v)
                        &&& #[trigger] call_ensures(
                            Self::mapping_slot::<P>,
                            (zelf.object, call, v),
                            reply,
                        )
                        &&& res == Some(
                            mapped(reply, |value: MappingValue| SlotValue::Mapping(value)),
                        )
                    },
                SlotCall::Iter => exists|v: &mut VirtualMachine<P>, reply: PyResult<PyObjectRef>|
                    {
                        &&& *v == *old(vm)
                        &&& *final(vm) == *final(v)
                        &&& #[trigger] call_ensures(Self::iter::<P>, (zelf, v), reply)
                        &&& res == Some(
                            mapped(reply, |value: PyObjectRef| SlotValue::Object(value)),
                        )
                    },
                SlotCall::IterNext => exists|
                    v: &mut VirtualMachine<P>,
                    reply: PyResult<PyIterReturn>,
                |
                    {
                        &&& *v == *old(vm)
                        &&& *final(vm) == *final(v)
                        &&& #[trigger] call_ensures(Self::next::<P>, (&zelf, v), reply)
                        &&& res == Some(mapped(reply, |value: PyIterReturn| SlotValue::Next(value)))
                    },
                SlotCall::Str => exists|v: &mut VirtualMachine<P>, reply: PyResult<PyStrRef>|
                    {
                        &&& *v == *old(vm)
                        &&& *final(vm) == *final(v)
                        &&& #[trigger] call_ensures(Self::__str__::<P>, (&zelf, v), reply)
                        &&& res == Some(mapped(reply, |value: PyStrRef| SlotValue::Str(value)))
                    },
                SlotCall::Bytes => exists|v: &mut VirtualMachine<P>, reply: PyResult<PyObjectRef>|
                    {
                        &&& *v == *old(vm)
                        &&& *final(vm) == *final(v)
                        &&& #[trigger] call_ensures(Self::__bytes__::<P>, (&zelf.payload, v), reply)
                        &&& res == Some(
                            mapped(reply, |value: PyObjectRef| SlotValue::Object(value)),
                        )
                    },
                SlotCall::Reversed => exists|
                    v: &mut VirtualMachine<P>,
                    reply: PyResult<PyObjectRef>,
                |
                    {
                        &&& *v == *old(vm)
                        &&& *final(vm) == *final(v)
                        &&& #[trigger] call_ensures(
                            Self::__reversed__::<P>,
                            (&zelf.payload, v),
                            reply,
                        )
                        &&& res == Some(
                            mapped(reply, |value: PyObjectRef| SlotValue::Object(value)),
                        )
                    },
                SlotCall::Repr => exists|reply: PyResult<String>|
                    {
                        &&& *final(vm) == *old(vm)
                        &&& #[trigger] call_ensures(Self::repr_str::<P>, (&zelf, &*old(vm)), reply)
                        &&& res == Some(mapped(reply, |value: String| SlotValue::Text(value)))
                    },
                SlotCall::Hash => exists|reply: PyResult<i64>|
                    {
                        &&& *final(vm) == *old(vm)
                        &&& #[trigger] call_ensures(Self::hash::<P>, (&zelf, &*old(vm)), reply)
                        &&& res == Some(mapped(reply, |value: i64| SlotValue::Hash(value)))
                    },
                SlotCall::Call(_) => true,
            },
    {
        let class = Self::class(&vm.ctx);
        let slots = vm.ctx.classes[class.index].slots;
        if !call.is_in(slots) {
            return None;
        }
        let res = match call {
            SlotCall::GetAttr(name) => match Self::getattro(&zelf, name, vm) {
                Ok(value) => Ok(SlotValue::Object(value)),
                Err(e) => Err(e),
            },
            SlotCall::SetAttr(name, value) => match Self::setattro(&zelf, name, value, vm) {
                Ok(()) => Ok(SlotValue::Done),
                Err(e) => Err(e),
            },
            SlotCall::RichCompare(other, op) => match Self::cmp(&zelf, other, op, vm) {
                Ok(value) => Ok(SlotValue::Compared(value)),
                Err(e) => Err(e),
            },
            SlotCall::Number(call) => match Self::number_slot(call, vm) {
                Ok(value) => Ok(SlotValue::Number(value)),
                Err(e) => Err(e),
            },
            SlotCall::Sequence(call) => match Self::sequence_slot(zelf.object, call, vm) {
                Ok(value) => Ok(SlotValue::Sequence(value)),
                Err(e) => Err(e),
            },
            SlotCall::Mapping(call) => match Self::mapping_slot(zelf.object, call, vm) {
                Ok(value) => Ok(SlotValue::Mapping(value)),
                Err(e) => Err(e),
            },
            SlotCall::Iter => match Self::iter(zelf, vm) {
                Ok(value) => Ok(SlotValue::Object(value)),
                Err(e) => Err(e),
            },
            SlotCall::IterNext => match Self::next(&zelf, vm) {
                Ok(value) => Ok(SlotValue::Next(value)),
                Err(e) => Err(e),
            },
            SlotCall::Str => match Self::__str__(&zelf, vm) {
                Ok(value) => Ok(SlotValue::Str(value)),
                Err(e) => Err(e),
            },
            SlotCall::Bytes => match zelf.payload.__bytes__(vm) {
                Ok(value) => Ok(SlotValue::Object(value)),
                Err(e) => Err(e),
            },
            SlotCall::Reversed => match zelf.payload.__reversed__(vm) {
                Ok(value) => Ok(SlotValue::Object(value)),
                Err(e) => Err(e),
            },
            SlotCall::Repr => match Self::repr_str(&zelf, vm) {
                Ok(value) => Ok(SlotValue::Text(value)),
                Err(e) => Err(e),
            },
            SlotCall::Hash => match Self::hash(&zelf, vm) {
                Ok(value) => Ok(SlotValue::Hash(value)),
                Err(e) => Err(e),
            },
            SlotCall::Call(_) => {
                return None;
            },
        };
        Some(res)
    }
}

/// `post` is `pre` after the proxy classes have got what their instances
/// support; nothing else differs.
pub open spec fn initialized(pre: Context, post: Context) -> bool {
    let plain = pre.types.weakproxy_type;
    let callable = pre.types.weakcallableproxy_type;
    &&& post.classes@ == pre.classes@.update(
        plain.index as int,
        PyType {
            slots: pre.class(plain).slots.union(PyWeakProxy::class_slots()),
            ..pre.class(plain)
        },
    ).update(
        callable.index as int,
        PyType {
            slots: pre.class(callable).slots.union(PyWeakCallableProxy::class_slots()),
            ..pre.class(callable)
        },
    )
    &&& post.types == pre.types
    &&& post.exceptions == pre.exceptions
    &&& post.weak_subclass == pre.weak_subclass
}

/// Gives the proxy classes what their instances support.
pub fn init(context: &mut Context)
    requires
        old(context).wf(),
    ensures
        final(context).wf(),
        initialized(*old(context), *final(context)),
{
    let plain = context.types.weakproxy_type;
    PyWeakProxy::extend_class(context, plain);
    let callable = context.types.weakcallableproxy_type;
    PyWeakCallableProxy::extend_class(context, callable);
}

} // verus!
