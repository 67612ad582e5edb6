//! The object protocols: what an interpreter does with an object, and the slot
//! tables by which a class says which of it its instances take part in.

use vstd::prelude::*;

use crate::object::{
    ExceptionView, FuncArgs, PyBaseException, PyComparisonOp, PyComparisonValue, PyFloatRef,
    PyIntRef, PyIter, PyIterReturn, PyObjectRef, PyResult, PySetterValue, PyStrRef, raises,
};
use crate::vm::{PyTypeSlots, VirtualMachine, VmState};

verus! {

/// A conversion of a number.
#[derive(Clone, Copy, Debug, PartialEq, Eq, Structural)]
pub enum ConversionOp {
    Bool,
    Int,
    Float,
    Index,
}

/// An operation on one number.
#[derive(Clone, Copy, Debug, PartialEq, Eq, Structural)]
pub enum UnaryOp {
    Neg,
    Pos,
    Abs,
    Invert,
}

/// An operation on two numbers. The names that begin with `I` are the in-place forms.
#[derive(Clone, Copy, Debug, PartialEq, Eq, Structural)]
pub enum BinaryOp {
    Add,
    Sub,
    Mul,
    Mod,
    Divmod,
    Lshift,
    Rshift,
    And,
    Xor,
    Or,
    Floordiv,
    Truediv,
    Matmul,
    Iadd,
    Isub,
    Imul,
    Imod,
    Ilshift,
    Irshift,
    Iand,
    Ixor,
    Ior,
    Ifloordiv,
    Itruediv,
    Imatmul,
}

/// An operation on three numbers. The name that begins with `I` is the in-place form.
#[derive(Clone, Copy, Debug, PartialEq, Eq, Structural)]
pub enum TernaryOp {
    Pow,
    Ipow,
}

/// An operation on a sequence.
#[derive(Clone, Copy, Debug, PartialEq, Eq, Structural)]
pub enum SequenceOp {
    Length,
    Contains,
}

/// An operation on a mapping.
#[derive(Clone, Copy, Debug, PartialEq, Eq, Structural)]
pub enum MappingOp {
    Length,
    Subscript,
    AssSubscript,
}

/// An operation of the number slots, with its operands.
#[derive(Clone, Copy, Debug, PartialEq, Eq, Structural)]
pub enum NumberCall {
    Convert(ConversionOp, PyObjectRef),
    Unary(UnaryOp, PyObjectRef),
    Binary(BinaryOp, PyObjectRef, PyObjectRef),
    Ternary(TernaryOp, PyObjectRef, PyObjectRef, PyObjectRef),
}

/// What an operation of the number slots gives.
#[derive(Clone, Copy, Debug, PartialEq, Eq, Structural)]
pub enum NumberValue {
    Truth(bool),
    Object(PyObjectRef),
}

/// An operation of the sequence slots, with its operands.
#[derive(Clone, Copy, Debug, PartialEq, Eq, Structural)]
pub enum SequenceCall {
    Length,
    Contains(PyObjectRef),
}

impl SequenceCall {
    /// The operation, by which the slot table names it.
    pub open spec fn op(self) -> SequenceOp {
        match self {
            SequenceCall::Length => SequenceOp::Length,
            SequenceCall::Contains(_) => SequenceOp::Contains,
        }
    }
}

/// What an operation of the sequence slots gives.
#[derive(Clone, Copy, Debug, PartialEq, Eq, Structural)]
pub enum SequenceValue {
    Length(usize),
    Contains(bool),
}

/// An operation of the mapping slots, with its operands.
#[derive(Clone, Copy, Debug, PartialEq, Eq, Structural)]
pub enum MappingCall {
    Length,
    Subscript(PyObjectRef),
    AssSubscript(PyObjectRef, Option<PyObjectRef>),
}

/// What an operation of the mapping slots gives.
#[derive(Clone, Copy, Debug, PartialEq, Eq, Structural)]
pub enum MappingValue {
    Length(usize),
    Item(PyObjectRef),
    Done,
}

impl NumberCall {
    /// The operands are alive, and the truth value is asked of a proxy: that is
    /// said by `is_proxy`.
    pub open spec fn is_ready<P>(
        self,
        state: VmState<P>,
        is_proxy: spec_fn(PyObjectRef) -> bool,
    ) -> bool {
        match self {
            NumberCall::Convert(ConversionOp::Bool, number) => is_proxy(number),
            NumberCall::Convert(_, number) => state.is_live(number),
            NumberCall::Unary(_, number) => state.is_live(number),
            _ => true,
        }
    }
}

impl MappingCall {
    /// The operation, by which the slot table names it.
    pub open spec fn op(self) -> MappingOp {
        match self {
            MappingCall::Length => MappingOp::Length,
            MappingCall::Subscript(_) => MappingOp::Subscript,
            MappingCall::AssSubscript(_, _) => MappingOp::AssSubscript,
        }
    }

    /// The strong reference to a value to set is there to be given away.
    pub open spec fn is_ready<P>(self, state: VmState<P>) -> bool {
        match self {
            MappingCall::AssSubscript(_, value) => state.owns_opt(value),
            _ => true,
        }
    }
}

/// What a class can be asked for through its slots, with the operands besides
/// the object itself.
#[derive(Debug, PartialEq, Eq)]
pub enum SlotCall {
    GetAttr(PyStrRef),
    SetAttr(PyStrRef, PySetterValue),
    RichCompare(PyObjectRef, PyComparisonOp),
    Call(FuncArgs),
    Number(NumberCall),
    Sequence(SequenceCall),
    Mapping(MappingCall),
    Repr,
    Iter,
    IterNext,
    Str,
    Bytes,
    Reversed,
    Hash,
}

impl SlotCall {
    /// The class has the slot that is asked for. A class that is marked
    /// unhashable has one for the hash: the one that refuses.
    pub open spec fn spec_is_in(self, slots: PyTypeSlots) -> bool {
        match self {
            SlotCall::GetAttr(_) => slots.getattro,
            SlotCall::SetAttr(_, _) => slots.setattro,
            SlotCall::RichCompare(_, _) => slots.richcompare,
            SlotCall::Call(_) => slots.call,
            SlotCall::Number(_) => slots.as_number,
            SlotCall::Sequence(_) => slots.as_sequence,
            SlotCall::Mapping(_) => slots.as_mapping,
            SlotCall::Repr => slots.repr,
            SlotCall::Iter => slots.iter,
            SlotCall::IterNext => slots.iternext,
            SlotCall::Str => slots.str_method,
            SlotCall::Bytes => slots.bytes_method,
            SlotCall::Reversed => slots.reversed_method,
            SlotCall::Hash => slots.unhashable,
        }
    }

    /// Whether the class has the slot that is asked for.
    pub fn is_in(&self, slots: PyTypeSlots) -> (yes: bool)
        ensures
            yes == self.spec_is_in(slots),
    {
        match self {
            SlotCall::GetAttr(_) => slots.getattro,
            SlotCall::SetAttr(_, _) => slots.setattro,
            SlotCall::RichCompare(_, _) => slots.richcompare,
            SlotCall::Call(_) => slots.call,
            SlotCall::Number(_) => slots.as_number,
            SlotCall::Sequence(_) => slots.as_sequence,
            SlotCall::Mapping(_) => slots.as_mapping,
            SlotCall::Repr => slots.repr,
            SlotCall::Iter => slots.iter,
            SlotCall::IterNext => slots.iternext,
            SlotCall::Str => slots.str_method,
            SlotCall::Bytes => slots.bytes_method,
            SlotCall::Reversed => slots.reversed_method,
            SlotCall::Hash => slots.unhashable,
        }
    }

    /// The operands are as the slot needs them; `zelf` is the object itself.
    pub open spec fn is_ready<P>(
        self,
        zelf: PyObjectRef,
        state: VmState<P>,
        is_proxy: spec_fn(PyObjectRef) -> bool,
    ) -> bool {
        match self {
            SlotCall::SetAttr(_, value) => state.owns_opt(value.as_option()),
            SlotCall::Call(args) => state.owns_all(args.spec_refs()),
            SlotCall::Number(call) => call.is_ready(state, is_proxy),
            SlotCall::Mapping(call) => call.is_ready(state),
            SlotCall::Iter => state.owns(zelf),
            _ => true,
        }
    }
}

/// What a slot gives.
#[derive(Debug, PartialEq, Eq)]
pub enum SlotValue {
    Done,
    Object(PyObjectRef),
    Str(PyStrRef),
    Text(String),
    Compared(PyComparisonValue),
    Next(PyIterReturn),
    Hash(i64),
    Number(NumberValue),
    Sequence(SequenceValue),
    Mapping(MappingValue),
}

/// What the rest of an interpreter does with an object.
///
/// Each operation may run any code of the program: it may change the
/// interpreter's state, and it may raise any exception. Nothing is promised of
/// its result. Of the state it leaves, only what every part of an interpreter
/// keeps: it is well formed, the strong references that are held elsewhere and
/// those of living proxies to their callbacks are still there, no dead object has
/// come back to life, and the class of the weak references inside proxies stays
/// the one it is. An object may have been given another class.
///
/// The objects are lent to the operation. What is assigned, set or passed in a
/// call is given to it, with the strong reference.
pub trait ObjectProtocol: Sized {
    /// The object as a `str`.
    fn str(vm: &mut VirtualMachine<Self>, obj: PyObjectRef) -> (res: PyResult<PyStrRef>)
        requires
            old(vm)@.wf(),
        ensures
            final(vm)@.kept_from(old(vm)@),
    ;

    /// The object as `bytes`.
    fn bytes(vm: &mut VirtualMachine<Self>, obj: PyObjectRef) -> (res: PyResult<PyObjectRef>)
        requires
            old(vm)@.wf(),
        ensures
            final(vm)@.kept_from(old(vm)@),
    ;

    /// An iterator that walks the object backwards.
    fn reversed(vm: &mut VirtualMachine<Self>, obj: PyObjectRef) -> (res: PyResult<PyObjectRef>)
        requires
            old(vm)@.wf(),
        ensures
            final(vm)@.kept_from(old(vm)@),
    ;

    /// The truth value of the object.
    fn is_true(vm: &mut VirtualMachine<Self>, obj: PyObjectRef) -> (res: PyResult<bool>)
        requires
            old(vm)@.wf(),
        ensures
            final(vm)@.kept_from(old(vm)@),
    ;

    /// The object as an `int`.
    fn try_int(vm: &mut VirtualMachine<Self>, obj: PyObjectRef) -> (res: PyResult<PyIntRef>)
        requires
            old(vm)@.wf(),
        ensures
            final(vm)@.kept_from(old(vm)@),
    ;

    /// The object as a `float`.
    fn try_float(vm: &mut VirtualMachine<Self>, obj: PyObjectRef) -> (res: PyResult<PyFloatRef>)
        requires
            old(vm)@.wf(),
        ensures
            final(vm)@.kept_from(old(vm)@),
    ;

    /// The object as an index.
    fn try_index(vm: &mut VirtualMachine<Self>, obj: PyObjectRef) -> (res: PyResult<PyIntRef>)
        requires
            old(vm)@.wf(),
        ensures
            final(vm)@.kept_from(old(vm)@),
    ;

    /// The result of `op` on a number.
    fn unary(vm: &mut VirtualMachine<Self>, op: UnaryOp, obj: PyObjectRef) -> (res: PyResult<
        PyObjectRef,
    >)
        requires
            old(vm)@.wf(),
        ensures
            final(vm)@.kept_from(old(vm)@),
    ;

    /// The result of `op` on two numbers.
    fn binary(
        vm: &mut VirtualMachine<Self>,
        op: BinaryOp,
        a: PyObjectRef,
        b: PyObjectRef,
    ) -> (res: PyResult<PyObjectRef>)
        requires
            old(vm)@.wf(),
        ensures
            final(vm)@.kept_from(old(vm)@),
    ;

    /// The result of `op` on three numbers.
    fn ternary(
        vm: &mut VirtualMachine<Self>,
        op: TernaryOp,
        a: PyObjectRef,
        b: PyObjectRef,
        c: PyObjectRef,
    ) -> (res: PyResult<PyObjectRef>)
        requires
            old(vm)@.wf(),
        ensures
            final(vm)@.kept_from(old(vm)@),
    ;

    /// An iterator over the object.
    fn get_iter(vm: &mut VirtualMachine<Self>, obj: PyObjectRef) -> (res: PyResult<PyIter>)
        requires
            old(vm)@.wf(),
        ensures
            final(vm)@.kept_from(old(vm)@),
    ;

    /// The next item of an iterator.
    fn next(vm: &mut VirtualMachine<Self>, iter: PyIter) -> (res: PyResult<PyIterReturn>)
        requires
            old(vm)@.wf(),
        ensures
            final(vm)@.kept_from(old(vm)@),
    ;

    /// The value of an attribute.
    fn get_attr(
        vm: &mut VirtualMachine<Self>,
        obj: PyObjectRef,
        name: PyStrRef,
    ) -> (res: PyResult<PyObjectRef>)
        requires
            old(vm)@.wf(),
        ensures
            final(vm)@.kept_from(old(vm)@),
    ;

    /// Sets or deletes an attribute.
    fn call_set_attr(
        vm: &mut VirtualMachine<Self>,
        obj: PyObjectRef,
        name: PyStrRef,
        value: PySetterValue,
    ) -> (res: PyResult<()>)
        requires
            old(vm)@.wf(),
            old(vm)@.owns_opt(value.as_option()),
        ensures
            final(vm)@.kept_from(old(vm)@),
    ;

    /// Whether `op` holds of the two objects.
    fn rich_compare_bool(
        vm: &mut VirtualMachine<Self>,
        obj: PyObjectRef,
        other: PyObjectRef,
        op: PyComparisonOp,
    ) -> (res: PyResult<bool>)
        requires
            old(vm)@.wf(),
        ensures
            final(vm)@.kept_from(old(vm)@),
    ;

    /// The number of items.
    fn length(vm: &mut VirtualMachine<Self>, obj: PyObjectRef) -> (res: PyResult<usize>)
        requires
            old(vm)@.wf(),
        ensures
            final(vm)@.kept_from(old(vm)@),
    ;

    /// Whether `needle` is among the items of a sequence.
    fn contains(
        vm: &mut VirtualMachine<Self>,
        obj: PyObjectRef,
        needle: PyObjectRef,
    ) -> (res: PyResult<bool>)
        requires
            old(vm)@.wf(),
        ensures
            final(vm)@.kept_from(old(vm)@),
    ;

    /// The item at `needle`.
    fn get_item(
        vm: &mut VirtualMachine<Self>,
        obj: PyObjectRef,
        needle: PyObjectRef,
    ) -> (res: PyResult<PyObjectRef>)
        requires
            old(vm)@.wf(),
        ensures
            final(vm)@.kept_from(old(vm)@),
    ;

    /// Sets the item at `needle`.
    fn set_item(
        vm: &mut VirtualMachine<Self>,
        obj: PyObjectRef,
        needle: PyObjectRef,
        value: PyObjectRef,
    ) -> (res: PyResult<()>)
        requires
            old(vm)@.wf(),
            old(vm)@.owns(value),
        ensures
            final(vm)@.kept_from(old(vm)@),
    ;

    /// Deletes the item at `needle`.
    fn del_item(
        vm: &mut VirtualMachine<Self>,
        obj: PyObjectRef,
        needle: PyObjectRef,
    ) -> (res: PyResult<()>)
        requires
            old(vm)@.wf(),
        ensures
            final(vm)@.kept_from(old(vm)@),
    ;

    /// Calls the object.
    fn call(
        vm: &mut VirtualMachine<Self>,
        obj: PyObjectRef,
        args: FuncArgs,
    ) -> (res: PyResult<PyObjectRef>)
        requires
            old(vm)@.wf(),
            old(vm)@.owns_all(args.spec_refs()),
        ensures
            final(vm)@.kept_from(old(vm)@),
    ;
}

/// An interpreter whose objects support no operation: each one raises
/// `TypeError`.
pub struct NoProtocol;

/// What an operation of [`NoProtocol`] raises.
pub open spec fn unsupported<P>(state: VmState<P>) -> ExceptionView {
    ExceptionView { class: state.ctx.exceptions.type_error, msg: "unsupported operation"@ }
}

/// What an operation of [`NoProtocol`] raises.
fn new_unsupported(vm: &VirtualMachine<NoProtocol>) -> (exception: PyBaseException)
    ensures
        exception@ == unsupported(vm@),
{
    vm.new_type_error("unsupported operation".to_owned())
}

impl ObjectProtocol for NoProtocol {
    fn str(vm: &mut VirtualMachine<Self>, _obj: PyObjectRef) -> (res: PyResult<PyStrRef>)
        ensures
            final(vm)@ == old(vm)@,
            raises(res, unsupported(old(vm)@)),
    {
        Err(new_unsupported(vm))
    }

    fn bytes(vm: &mut VirtualMachine<Self>, _obj: PyObjectRef) -> (res: PyResult<PyObjectRef>)
        ensures
            final(vm)@ == old(vm)@,
            raises(res, unsupported(old(vm)@)),
    {
        Err(new_unsupported(vm))
    }

    fn reversed(vm: &mut VirtualMachine<Self>, _obj: PyObjectRef) -> (res: PyResult<PyObjectRef>)
        ensures
            final(vm)@ == old(vm)@,
            raises(res, unsupported(old(vm)@)),
    {
        Err(new_unsupported(vm))
    }

    fn is_true(vm: &mut VirtualMachine<Self>, _obj: PyObjectRef) -> (res: PyResult<bool>)
        ensures
            final(vm)@ == old(vm)@,
            raises(res, unsupported(old(vm)@)),
    {
        Err(new_unsupported(vm))
    }

    fn try_int(vm: &mut VirtualMachine<Self>, _obj: PyObjectRef) -> (res: PyResult<PyIntRef>)
        ensures
            final(vm)@ == old(vm)@,
            raises(res, unsupported(old(vm)@)),
    {
        Err(new_unsupported(vm))
    }

    fn try_float(vm: &mut VirtualMachine<Self>, _obj: PyObjectRef) -> (res: PyResult<PyFloatRef>)
        ensures
            final(vm)@ == old(vm)@,
            raises(res, unsupported(old(vm)@)),
    {
        Err(new_unsupported(vm))
    }

    fn try_index(vm: &mut VirtualMachine<Self>, _obj: PyObjectRef) -> (res: PyResult<PyIntRef>)
        ensures
            final(vm)@ == old(vm)@,
            raises(res, unsupported(old(vm)@)),
    {
        Err(new_unsupported(vm))
    }

    fn unary(
        vm: &mut VirtualMachine<Self>,
        _op: UnaryOp,
        _obj: PyObjectRef,
    ) -> (res: PyResult<PyObjectRef>)
        ensures
            final(vm)@ == old(vm)@,
            raises(res, unsupported(old(vm)@)),
    {
        Err(new_unsupported(vm))
    }

    fn binary(
        vm: &mut VirtualMachine<Self>,
        _op: BinaryOp,
        _a: PyObjectRef,
        _b: PyObjectRef,
    ) -> (res: PyResult<PyObjectRef>)
        ensures
            final(vm)@ == old(vm)@,
            raises(res, unsupported(old(vm)@)),
    {
        Err(new_unsupported(vm))
    }

    fn ternary(
        vm: &mut VirtualMachine<Self>,
        _op: TernaryOp,
        _a: PyObjectRef,
        _b: PyObjectRef,
        _c: PyObjectRef,
    ) -> (res: PyResult<PyObjectRef>)
        ensures
            final(vm)@ == old(vm)@,
            raises(res, unsupported(old(vm)@)),
    {
        Err(new_unsupported(vm))
    }

    fn get_iter(vm: &mut VirtualMachine<Self>, _obj: PyObjectRef) -> (res: PyResult<PyIter>)
        ensures
            final(vm)@ == old(vm)@,
            raises(res, unsupported(old(vm)@)),
    {
        Err(new_unsupported(vm))
    }

    fn next(vm: &mut VirtualMachine<Self>, _iter: PyIter) -> (res: PyResult<PyIterReturn>)
        ensures
            final(vm)@ == old(vm)@,
            raises(res, unsupported(old(vm)@)),
    {
        Err(new_unsupported(vm))
    }

    fn get_attr(
        vm: &mut VirtualMachine<Self>,
        _obj: PyObjectRef,
        _name: PyStrRef,
    ) -> (res: PyResult<PyObjectRef>)
        ensures
            final(vm)@ == old(vm)@,
            raises(res, unsupported(old(vm)@)),
    {
        Err(new_unsupported(vm))
    }

    fn call_set_attr(
        vm: &mut VirtualMachine<Self>,
        _obj: PyObjectRef,
        _name: PyStrRef,
        value: PySetterValue,
    ) -> (res: PyResult<()>)
        ensures
            final(vm)@ == old(vm)@.released_opt(value.as_option()),
            raises(res, unsupported(old(vm)@)),
    {
        vm.release_opt(value.into_option());
        Err(new_unsupported(vm))
    }

    fn rich_compare_bool(
        vm: &mut VirtualMachine<Self>,
        _obj: PyObjectRef,
        _other: PyObjectRef,
        _op: PyComparisonOp,
    ) -> (res: PyResult<bool>)
        ensures
            final(vm)@ == old(vm)@,
            raises(res, unsupported(old(vm)@)),
    {
        Err(new_unsupported(vm))
    }

    fn length(vm: &mut VirtualMachine<Self>, _obj: PyObjectRef) -> (res: PyResult<usize>)
        ensures
            final(vm)@ == old(vm)@,
            raises(res, unsupported(old(vm)@)),
    {
        Err(new_unsupported(vm))
    }

    fn contains(
        vm: &mut VirtualMachine<Self>,
        _obj: PyObjectRef,
        _needle: PyObjectRef,
    ) -> (res: PyResult<bool>)
        ensures
            final(vm)@ == old(vm)@,
            raises(res, unsupported(old(vm)@)),
    {
        Err(new_unsupported(vm))
    }

    fn get_item(
        vm: &mut VirtualMachine<Self>,
        _obj: PyObjectRef,
        _needle: PyObjectRef,
    ) -> (res: PyResult<PyObjectRef>)
        ensures
            final(vm)@ == old(vm)@,
            raises(res, unsupported(old(vm)@)),
    {
        Err(new_unsupported(vm))
    }

    fn set_item(
        vm: &mut VirtualMachine<Self>,
        _obj: PyObjectRef,
        _needle: PyObjectRef,
        value: PyObjectRef,
    ) -> (res: PyResult<()>)
        ensures
            final(vm)@ == old(vm)@.released(value),
            raises(res, unsupported(old(vm)@)),
    {
        vm.release(value);
        Err(new_unsupported(vm))
    }

    fn del_item(
        vm: &mut VirtualMachine<Self>,
        _obj: PyObjectRef,
        _needle: PyObjectRef,
    ) -> (res: PyResult<()>)
        ensures
            final(vm)@ == old(vm)@,
            raises(res, unsupported(old(vm)@)),
    {
        Err(new_unsupported(vm))
    }

    fn call(
        vm: &mut VirtualMachine<Self>,
        _obj: PyObjectRef,
        args: FuncArgs,
    ) -> (res: PyResult<PyObjectRef>)
        ensures
            final(vm)@ == old(vm)@.released_all(args.spec_refs()),
            raises(res, unsupported(old(vm)@)),
    {
        vm.release_all(&args.refs());
        Err(new_unsupported(vm))
    }
}

/// The number slots of a class. An empty slot is an operation that the class does
/// not take part in.
#[derive(Clone, Copy, Debug, PartialEq, Eq, Structural)]
pub struct PyNumberMethods {
    pub boolean: Option<ConversionOp>,
    pub int: Option<ConversionOp>,
    pub float: Option<ConversionOp>,
    pub index: Option<ConversionOp>,
    pub negative: Option<UnaryOp>,
    pub positive: Option<UnaryOp>,
    pub absolute: Option<UnaryOp>,
    pub invert: Option<UnaryOp>,
    pub add: Option<BinaryOp>,
    pub subtract: Option<BinaryOp>,
    pub multiply: Option<BinaryOp>,
    pub remainder: Option<BinaryOp>,
    pub divmod: Option<BinaryOp>,
    pub lshift: Option<BinaryOp>,
    pub rshift: Option<BinaryOp>,
    pub and: Option<BinaryOp>,
    pub xor: Option<BinaryOp>,
    pub or: Option<BinaryOp>,
    pub floor_divide: Option<BinaryOp>,
    pub true_divide: Option<BinaryOp>,
    pub matrix_multiply: Option<BinaryOp>,
    pub inplace_add: Option<BinaryOp>,
    pub inplace_subtract: Option<BinaryOp>,
    pub inplace_multiply: Option<BinaryOp>,
    pub inplace_remainder: Option<BinaryOp>,
    pub inplace_lshift: Option<BinaryOp>,
    pub inplace_rshift: Option<BinaryOp>,
    pub inplace_and: Option<BinaryOp>,
    pub inplace_xor: Option<BinaryOp>,
    pub inplace_or: Option<BinaryOp>,
    pub inplace_floor_divide: Option<BinaryOp>,
    pub inplace_true_divide: Option<BinaryOp>,
    pub inplace_matrix_multiply: Option<BinaryOp>,
    pub power: Option<TernaryOp>,
    pub inplace_power: Option<TernaryOp>,
}

/// The sequence slots of a class.
#[derive(Clone, Copy, Debug, PartialEq, Eq, Structural)]
pub struct PySequenceMethods {
    pub length: Option<SequenceOp>,
    pub concat: Option<SequenceOp>,
    pub repeat: Option<SequenceOp>,
    pub item: Option<SequenceOp>,
    pub ass_item: Option<SequenceOp>,
    pub contains: Option<SequenceOp>,
    pub inplace_concat: Option<SequenceOp>,
    pub inplace_repeat: Option<SequenceOp>,
}

impl PySequenceMethods {
    /// No slot at all.
    pub open spec fn spec_not_implemented() -> PySequenceMethods {
        PySequenceMethods {
            length: None,
            concat: None,
            repeat: None,
            item: None,
            ass_item: None,
            contains: None,
            inplace_concat: None,
            inplace_repeat: None,
        }
    }

    /// No slot at all.
    pub fn not_implemented() -> (methods: PySequenceMethods)
        ensures
            methods == Self::spec_not_implemented(),
    {
        PySequenceMethods {
            length: None,
            concat: None,
            repeat: None,
            item: None,
            ass_item: None,
            contains: None,
            inplace_concat: None,
            inplace_repeat: None,
        }
    }
}

/// The mapping slots of a class.
#[derive(Clone, Copy, Debug, PartialEq, Eq, Structural)]
pub struct PyMappingMethods {
    pub length: Option<MappingOp>,
    pub subscript: Option<MappingOp>,
    pub ass_subscript: Option<MappingOp>,
}

} // verus!
