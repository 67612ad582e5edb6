//! Which operation each slot stands for.

use vstd::prelude::*;

use crate::object::PyObjectRef;
use crate::protocol::{
    BinaryOp, ConversionOp, MappingCall, MappingOp, PyMappingMethods, PyNumberMethods,
    PySequenceMethods, SequenceCall, SequenceOp, SlotCall, TernaryOp, UnaryOp,
};
use crate::proxy::{
    mapping_methods, number_methods, proxy_mapping_methods, proxy_number_methods,
    proxy_sequence_methods, sequence_methods,
};
use crate::vm::{Context, PyTypeSlots};
use crate::weakcallableproxy::PyWeakCallableProxy;
use crate::weakproxy::{PyWeakProxy, init};

verus! {

/// Each number slot of a proxy, of either kind, stands for the operation of its own
/// name: the slot of `+` adds, the slot of `+=` adds in place, and so on. None is
/// empty.
pub proof fn law_number_slots_stand_for_their_names(methods: PyNumberMethods)
    requires
        methods == number_methods() || call_ensures(PyWeakProxy::as_number, (), methods)
            || call_ensures(PyWeakCallableProxy::as_number, (), methods) || call_ensures(
            proxy_number_methods,
            (),
            methods,
        ),
    ensures
        methods.boolean == Some(ConversionOp::Bool),
        methods.int == Some(ConversionOp::Int),
        methods.float == Some(ConversionOp::Float),
        methods.index == Some(ConversionOp::Index),
        methods.negative == Some(UnaryOp::Neg),
        methods.positive == Some(UnaryOp::Pos),
        methods.absolute == Some(UnaryOp::Abs),
        methods.invert == Some(UnaryOp::Invert),
        methods.add == Some(BinaryOp::Add),
        methods.subtract == Some(BinaryOp::Sub),
        methods.multiply == Some(BinaryOp::Mul),
        methods.remainder == Some(BinaryOp::Mod),
        methods.divmod == Some(BinaryOp::Divmod),
        methods.lshift == Some(BinaryOp::Lshift),
        methods.rshift == Some(BinaryOp::Rshift),
        methods.and == Some(BinaryOp::And),
        methods.xor == Some(BinaryOp::Xor),
        methods.or == Some(BinaryOp::Or),
        methods.floor_divide == Some(BinaryOp::Floordiv),
        methods.true_divide == Some(BinaryOp::Truediv),
        methods.matrix_multiply == Some(BinaryOp::Matmul),
        methods.inplace_add == Some(BinaryOp::Iadd),
        methods.inplace_subtract == Some(BinaryOp::Isub),
        methods.inplace_multiply == Some(BinaryOp::Imul),
        methods.inplace_remainder == Some(BinaryOp::Imod),
        methods.inplace_lshift == Some(BinaryOp::Ilshift),
        methods.inplace_rshift == Some(BinaryOp::Irshift),
        methods.inplace_and == Some(BinaryOp::Iand),
        methods.inplace_xor == Some(BinaryOp::Ixor),
        methods.inplace_or == Some(BinaryOp::Ior),
        methods.inplace_floor_divide == Some(BinaryOp::Ifloordiv),
        methods.inplace_true_divide == Some(BinaryOp::Itruediv),
        methods.inplace_matrix_multiply == Some(BinaryOp::Imatmul),
        methods.power == Some(TernaryOp::Pow),
        methods.inplace_power == Some(TernaryOp::Ipow),
{
}

/// Of the sequence slots a proxy, of either kind, has those for the number of items
/// and for the search, each under its own name, and no other.
pub proof fn law_sequence_slots_stand_for_their_names(methods: PySequenceMethods, key: PyObjectRef)
    requires
        methods == sequence_methods() || call_ensures(PyWeakProxy::as_sequence, (), methods)
            || call_ensures(PyWeakCallableProxy::as_sequence, (), methods) || call_ensures(
            proxy_sequence_methods,
            (),
            methods,
        ),
    ensures
        methods.length == Some(SequenceOp::Length),
        methods.contains == Some(SequenceOp::Contains),
        methods.concat is None,
        methods.repeat is None,
        methods.item is None,
        methods.ass_item is None,
        methods.inplace_concat is None,
        methods.inplace_repeat is None,
        SequenceCall::Length.op() == SequenceOp::Length,
        SequenceCall::Contains(key).op() == SequenceOp::Contains,
{
}

/// A proxy, of either kind, has all the mapping slots, each under its own name.
pub proof fn law_mapping_slots_stand_for_their_names(
    methods: PyMappingMethods,
    key: PyObjectRef,
    value: Option<PyObjectRef>,
)
    requires
        methods == mapping_methods() || call_ensures(PyWeakProxy::as_mapping, (), methods)
            || call_ensures(PyWeakCallableProxy::as_mapping, (), methods) || call_ensures(
            proxy_mapping_methods,
            (),
            methods,
        ),
    ensures
        methods.length == Some(MappingOp::Length),
        methods.subscript == Some(MappingOp::Subscript),
        methods.ass_subscript == Some(MappingOp::AssSubscript),
        MappingCall::Length.op() == MappingOp::Length,
        MappingCall::Subscript(key).op() == MappingOp::Subscript,
        MappingCall::AssSubscript(key, value).op() == MappingOp::AssSubscript,
{
}

/// What a class is asked for is found in the slot of that name, and in no other.
pub proof fn law_calls_look_in_their_own_slot(call: SlotCall, slots: PyTypeSlots, yes: bool)
    requires
        yes == call.spec_is_in(slots) || call_ensures(SlotCall::is_in, (&call, slots), yes),
    ensures
        call is GetAttr ==> yes == slots.getattro,
        call is SetAttr ==> yes == slots.setattro,
        call is RichCompare ==> yes == slots.richcompare,
        call is Call ==> yes == slots.call,
        call is Number ==> yes == slots.as_number,
        call is Sequence ==> yes == slots.as_sequence,
        call is Mapping ==> yes == slots.as_mapping,
        call is Repr ==> yes == slots.repr,
        call is Iter ==> yes == slots.iter,
        call is IterNext ==> yes == slots.iternext,
        call is Str ==> yes == slots.str_method,
        call is Bytes ==> yes == slots.bytes_method,
        call is Reversed ==> yes == slots.reversed_method,
        call is Hash ==> yes == slots.unhashable,
{
}

/// Giving a class more slots takes none away, adds those given, and adds no other.
pub proof fn law_extension_adds_what_is_given(
    had: PyTypeSlots,
    given: PyTypeSlots,
    has: PyTypeSlots,
)
    requires
        has == had.union(given),
    ensures
        has.getattro <==> had.getattro || given.getattro,
        has.setattro <==> had.setattro || given.setattro,
        has.new <==> had.new || given.new,
        has.richcompare <==> had.richcompare || given.richcompare,
        has.call <==> had.call || given.call,
        has.as_number <==> had.as_number || given.as_number,
        has.as_sequence <==> had.as_sequence || given.as_sequence,
        has.as_mapping <==> had.as_mapping || given.as_mapping,
        has.repr <==> had.repr || given.repr,
        has.iter <==> had.iter || given.iter,
        has.iternext <==> had.iternext || given.iternext,
        has.str_method <==> had.str_method || given.str_method,
        has.bytes_method <==> had.bytes_method || given.bytes_method,
        has.reversed_method <==> had.reversed_method || given.reversed_method,
        has.unhashable <==> had.unhashable || given.unhashable,
{
}

/// After initialization the classes of both kinds of proxy have every slot but the
/// call, and the class of the callable kind has that too; the call of the other is
/// what it was. Nothing but the slots has changed, and no other class.
pub proof fn law_init_touches_the_two_classes_alone(context: &mut Context)
    requires
        call_ensures(init, (context,), ()),
        old(context).wf(),
    ensures
        ({
            let plain = old(context).types.weakproxy_type.index as int;
            let callable = old(context).types.weakcallableproxy_type.index as int;
            let had = old(context).classes@;
            let has = final(context).classes@;
            &&& has.len() == had.len()
            &&& forall|i: int| #[trigger]
                has[i] == had[i] || i == plain || i == callable || i < 0 || i >= had.len()
            &&& has[plain].slots == (PyTypeSlots {
                getattro: true,
                setattro: true,
                new: true,
                richcompare: true,
                call: had[plain].slots.call,
                as_number: true,
                as_sequence: true,
                as_mapping: true,
                repr: true,
                iter: true,
                iternext: true,
                str_method: true,
                bytes_method: true,
                reversed_method: true,
                unhashable: true,
            })
            &&& has[callable].slots == (PyTypeSlots { call: true, ..has[plain].slots })
            &&& has[plain].name == had[plain].name
            &&& has[plain].module == had[plain].module
            &&& has[plain].base == had[plain].base
            &&& has[plain].has_weakref == had[plain].has_weakref
            &&& has[callable].name == had[callable].name
            &&& has[callable].module == had[callable].module
            &&& has[callable].base == had[callable].base
            &&& has[callable].has_weakref == had[callable].has_weakref
        }),
        final(context).types == old(context).types,
        final(context).exceptions == old(context).exceptions,
        final(context).weak_subclass == old(context).weak_subclass,
{
    let plain = old(context).types.weakproxy_type.index as int;
    let callable = old(context).types.weakcallableproxy_type.index as int;
    assert(plain != callable);
}

/// The table of no sequence slots is empty, and so is the set of no class slots.
pub proof fn law_nothing_is_in_the_empty_tables()
    ensures
        PySequenceMethods::spec_not_implemented() == (PySequenceMethods {
            length: None,
            concat: None,
            repeat: None,
            item: None,
            ass_item: None,
            contains: None,
            inplace_concat: None,
            inplace_repeat: None,
        }),
        forall|call: SlotCall| !#[trigger] call.spec_is_in(PyTypeSlots::spec_empty()),
        !PyTypeSlots::spec_empty().new,
{
}

} // verus!
