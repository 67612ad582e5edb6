//! Handles to objects and classes, and the plain values that pass between the
//! proxies and the interpreter.

use vstd::prelude::*;

verus! {

/// A handle to an object. A handle is never given to a second object, so one
/// whose object has been freed stays dangling for good.
#[derive(Clone, Copy, Debug, PartialEq, Eq, Structural)]
pub struct PyObjectRef {
    pub id: usize,
}

impl PyObjectRef {
    /// The identity of the object.
    pub fn get_id(&self) -> (id: usize)
        ensures
            id == self.id,
    {
        self.id
    }
}

/// A handle to a class of a [`Context`](crate::vm::Context).
#[derive(Clone, Copy, Debug, PartialEq, Eq, Structural)]
pub struct PyTypeRef {
    pub index: usize,
}

/// A handle to a `str` object.
#[derive(Clone, Copy, Debug, PartialEq, Eq, Structural)]
pub struct PyStrRef {
    pub object: PyObjectRef,
}

/// A handle to an `int` object.
#[derive(Clone, Copy, Debug, PartialEq, Eq, Structural)]
pub struct PyIntRef {
    pub object: PyObjectRef,
}

/// A handle to a `float` object.
#[derive(Clone, Copy, Debug, PartialEq, Eq, Structural)]
pub struct PyFloatRef {
    pub object: PyObjectRef,
}

/// An object that is to be used as an iterator.
#[derive(Clone, Copy, Debug, PartialEq, Eq, Structural)]
pub struct PyIter {
    pub object: PyObjectRef,
}

/// What one step of an iterator gives.
#[derive(Clone, Copy, Debug, PartialEq, Eq, Structural)]
pub enum PyIterReturn {
    Return(PyObjectRef),
    StopIteration(Option<PyObjectRef>),
}

/// A weak reference: it names its referent and does not keep it alive.
#[derive(Clone, Copy, Debug, PartialEq, Eq, Structural)]
pub struct PyWeak {
    /// The object referred to.
    pub referent: PyObjectRef,
    /// What the interpreter is to call when the referent dies. It is kept here, and
    /// kept alive, for that; nothing here calls it.
    pub callback: Option<PyObjectRef>,
    /// The class of the weak reference itself.
    pub typ: PyTypeRef,
}

/// An object whose payload is known to be a `T`.
#[derive(Clone, Copy, Debug, PartialEq, Eq, Structural)]
pub struct Py<T> {
    pub object: PyObjectRef,
    pub payload: T,
}

impl<T> Py<T> {
    /// The identity of the object.
    pub fn get_id(&self) -> (id: usize)
        ensures
            id == self.object.id,
    {
        self.object.get_id()
    }
}

/// A comparison operator.
#[derive(Clone, Copy, Debug, PartialEq, Eq, Structural)]
pub enum PyComparisonOp {
    Lt,
    Gt,
    Ne,
    Eq,
    Le,
    Ge,
}

/// What a comparison slot answers.
#[derive(Clone, Copy, Debug, PartialEq, Eq, Structural)]
pub enum PyComparisonValue {
    Implemented(bool),
    NotImplemented,
}

/// What is to become of an attribute.
#[derive(Clone, Copy, Debug, PartialEq, Eq, Structural)]
pub enum PySetterValue {
    Assign(PyObjectRef),
    Delete,
}

impl PySetterValue {
    /// The value to assign, if there is one.
    pub open spec fn as_option(self) -> Option<PyObjectRef> {
        match self {
            PySetterValue::Assign(value) => Some(value),
            PySetterValue::Delete => None,
        }
    }

    /// The value to assign, if there is one.
    pub fn into_option(self) -> (value: Option<PyObjectRef>)
        ensures
            value == self.as_option(),
    {
        match self {
            PySetterValue::Assign(value) => Some(value),
            PySetterValue::Delete => None,
        }
    }
}

/// An argument that the caller may leave out.
#[derive(Clone, Copy, Debug, PartialEq, Eq, Structural)]
pub enum OptionalArg {
    Present(PyObjectRef),
    Missing,
}

impl OptionalArg {
    /// The argument, if there is one.
    pub open spec fn as_option(self) -> Option<PyObjectRef> {
        match self {
            OptionalArg::Present(object) => Some(object),
            OptionalArg::Missing => None,
        }
    }

    /// The argument, if there is one.
    pub fn into_option(self) -> (value: Option<PyObjectRef>)
        ensures
            value == self.as_option(),
    {
        match self {
            OptionalArg::Present(object) => Some(object),
            OptionalArg::Missing => None,
        }
    }
}

/// The arguments of a call.
#[derive(Debug, PartialEq, Eq)]
pub struct FuncArgs {
    pub args: Vec<PyObjectRef>,
    pub kwargs: Vec<(String, PyObjectRef)>,
}

impl FuncArgs {
    /// All the arguments, the positional ones first.
    pub open spec fn spec_refs(self) -> Seq<PyObjectRef> {
        self.args@ + self.kwargs@.map_values(|pair: (String, PyObjectRef)| pair.1)
    }

    /// All the arguments, the positional ones first.
    pub fn refs(&self) -> (refs: Vec<PyObjectRef>)
        ensures
            refs@ == self.spec_refs(),
    {
        let mut refs: Vec<PyObjectRef> = Vec::new();
        let mut i: usize = 0;
        while i < self.args.len()
            invariant
                i <= self.args@.len(),
                refs@ == self.args@.take(i as int),
            decreases self.args@.len() - i,
        {
            refs.push(self.args[i]);
            i = i + 1;
        }
        let ghost values = self.kwargs@.map_values(|pair: (String, PyObjectRef)| pair.1);
        let mut j: usize = 0;
        while j < self.kwargs.len()
            invariant
                j <= self.kwargs@.len(),
                values == self.kwargs@.map_values(|pair: (String, PyObjectRef)| pair.1),
                refs@ == self.args@ + values.take(j as int),
            decreases self.kwargs@.len() - j,
        {
            refs.push(self.kwargs[j].1);
            j = j + 1;
        }
        assert(values.take(j as int) =~= values);
        refs
    }

    /// Takes the first positional argument, if there is one.
    pub fn take_positional(&mut self) -> (arg: Option<PyObjectRef>)
        ensures
            final(self).kwargs == old(self).kwargs,
            old(self).args@.len() == 0 ==> arg is None && final(self).args@ == old(self).args@,
            old(self).args@.len() > 0 ==> arg == Some(old(self).args@[0]) && final(self).args@
                == old(self).args@.skip(1),
    {
        if self.args.len() == 0 {
            None
        } else {
            let arg = self.args.remove(0);
            assert(self.args@ =~= old(self).args@.skip(1));
            Some(arg)
        }
    }
}

/// Why the arguments of a call do not fit.
#[derive(Clone, Copy, Debug, PartialEq, Eq, Structural)]
pub enum ArgumentError {
    TooFewArgs,
}

/// A raised exception: its class and its message.
#[derive(Debug, PartialEq, Eq)]
pub struct PyBaseException {
    pub class: PyTypeRef,
    pub msg: String,
}

/// A [`PyBaseException`] as a mathematical value.
pub struct ExceptionView {
    pub class: PyTypeRef,
    pub msg: Seq<char>,
}

impl View for PyBaseException {
    type V = ExceptionView;

    open spec fn view(&self) -> ExceptionView {
        ExceptionView { class: self.class, msg: self.msg@ }
    }
}

/// The result of an operation that may raise.
pub type PyResult<T> = Result<T, PyBaseException>;

/// A result with its exception taken as a mathematical value.
pub open spec fn outcome<T>(res: PyResult<T>) -> Result<T, ExceptionView> {
    match res {
        Ok(value) => Ok(value),
        Err(exception) => Err(exception@),
    }
}

/// A result with its value converted.
pub open spec fn mapped<T, U>(res: PyResult<T>, convert: spec_fn(T) -> U) -> PyResult<U> {
    match res {
        Ok(value) => Ok(convert(value)),
        Err(exception) => Err(exception),
    }
}

/// `res` is the exception `e`.
pub open spec fn raises<T>(res: PyResult<T>, e: ExceptionView) -> bool {
    res matches Err(exception) && exception@ == e
}

/// A conversion to `int`, as an object.
pub open spec fn spec_int_result(res: PyResult<PyIntRef>) -> PyResult<PyObjectRef> {
    match res {
        Ok(value) => Ok(value.object),
        Err(exception) => Err(exception),
    }
}

/// A conversion to `int`, as an object.
pub fn int_result(res: PyResult<PyIntRef>) -> (converted: PyResult<PyObjectRef>)
    ensures
        converted == spec_int_result(res),
{
    match res {
        Ok(value) => Ok(value.object),
        Err(exception) => Err(exception),
    }
}

/// A conversion to `float`, as an object.
pub open spec fn spec_float_result(res: PyResult<PyFloatRef>) -> PyResult<PyObjectRef> {
    match res {
        Ok(value) => Ok(value.object),
        Err(exception) => Err(exception),
    }
}

/// A conversion to `float`, as an object.
pub fn float_result(res: PyResult<PyFloatRef>) -> (converted: PyResult<PyObjectRef>)
    ensures
        converted == spec_float_result(res),
{
    match res {
        Ok(value) => Ok(value.object),
        Err(exception) => Err(exception),
    }
}

/// An iterator, as an object.
pub open spec fn spec_iter_result(res: PyResult<PyIter>) -> PyResult<PyObjectRef> {
    match res {
        Ok(value) => Ok(value.object),
        Err(exception) => Err(exception),
    }
}

/// An iterator, as an object.
pub fn iter_result(res: PyResult<PyIter>) -> (converted: PyResult<PyObjectRef>)
    ensures
        converted == spec_iter_result(res),
{
    match res {
        Ok(value) => Ok(value.object),
        Err(exception) => Err(exception),
    }
}

/// A comparison that was carried out, as the answer of a comparison slot.
pub open spec fn spec_comparison_result(res: PyResult<bool>) -> PyResult<PyComparisonValue> {
    match res {
        Ok(value) => Ok(PyComparisonValue::Implemented(value)),
        Err(exception) => Err(exception),
    }
}

/// A comparison that was carried out, as the answer of a comparison slot.
pub fn comparison_result(res: PyResult<bool>) -> (converted: PyResult<PyComparisonValue>)
    ensures
        converted == spec_comparison_result(res),
{
    match res {
        Ok(value) => Ok(PyComparisonValue::Implemented(value)),
        Err(exception) => Err(exception),
    }
}

} // verus!
