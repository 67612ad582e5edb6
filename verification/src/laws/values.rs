//! What becomes of the plain values that pass through.

use vstd::prelude::*;

use crate::object::{
    ArgumentError, ExceptionView, FuncArgs, OptionalArg, PyBaseException, PyComparisonValue,
    PyFloatRef, PyIntRef, PyIter, PyObjectRef, PyResult, PySetterValue, comparison_result,
    float_result, int_result, iter_result, mapped, outcome, raises, spec_comparison_result,
    spec_float_result, spec_int_result, spec_iter_result,
};
use crate::protocol::unsupported;
use crate::vm::VmState;
use crate::weakproxy::WeakProxyNewArgs;

verus! {

/// An exception that was raised is passed on with its class and its message, and a
/// value that was given is not made into an exception.
pub proof fn law_exceptions_are_passed_on<T>(res: PyResult<T>, e: ExceptionView)
    ensures
        raises(res, e) <==> (res matches Err(raised) && raised.class == e.class && raised.msg@
            == e.msg),
        outcome(res) is Ok <==> res is Ok,
        res matches Ok(value) ==> outcome(res)->Ok_0 == value,
        res matches Err(raised) ==> outcome(res)->Err_0.class == raised.class && outcome(
            res,
        )->Err_0.msg == raised.msg@,
{
}

/// The view of an exception keeps its class and its message.
pub proof fn law_exception_is_its_class_and_message(exception: PyBaseException)
    ensures
        exception@.class == exception.class,
        exception@.msg == exception.msg@,
{
}

/// A converted result is the converted value, and the exception as it was.
pub proof fn law_conversion_keeps_exceptions<T, U>(res: PyResult<T>, convert: spec_fn(T) -> U)
    ensures
        mapped(res, convert) is Ok <==> res is Ok,
        res matches Ok(value) ==> mapped(res, convert)->Ok_0 == convert(value),
        res matches Err(e) ==> mapped(res, convert)->Err_0 == e,
{
}

/// An `int` that was converted to is the same object.
pub proof fn law_int_is_its_object(res: PyResult<PyIntRef>, converted: PyResult<PyObjectRef>)
    requires
        converted == spec_int_result(res) || call_ensures(int_result, (res,), converted),
    ensures
        converted is Ok <==> res is Ok,
        res matches Ok(value) ==> converted->Ok_0 == value.object,
        res matches Err(e) ==> converted->Err_0 == e,
{
}

/// A `float` that was converted to is the same object.
pub proof fn law_float_is_its_object(res: PyResult<PyFloatRef>, converted: PyResult<PyObjectRef>)
    requires
        converted == spec_float_result(res) || call_ensures(float_result, (res,), converted),
    ensures
        converted is Ok <==> res is Ok,
        res matches Ok(value) ==> converted->Ok_0 == value.object,
        res matches Err(e) ==> converted->Err_0 == e,
{
}

/// An iterator is the same object.
pub proof fn law_iterator_is_its_object(res: PyResult<PyIter>, converted: PyResult<PyObjectRef>)
    requires
        converted == spec_iter_result(res) || call_ensures(iter_result, (res,), converted),
    ensures
        converted is Ok <==> res is Ok,
        res matches Ok(value) ==> converted->Ok_0 == value.object,
        res matches Err(e) ==> converted->Err_0 == e,
{
}

/// The answer of a comparison is never turned round, and never refused.
pub proof fn law_comparison_is_answered(
    res: PyResult<bool>,
    converted: PyResult<PyComparisonValue>,
)
    requires
        converted == spec_comparison_result(res) || call_ensures(
            comparison_result,
            (res,),
            converted,
        ),
    ensures
        converted is Ok <==> res is Ok,
        res matches Ok(value) ==> converted->Ok_0 == PyComparisonValue::Implemented(value),
        res matches Err(e) ==> converted->Err_0 == e,
{
}

/// A value is there to be assigned exactly when it is to be assigned.
pub proof fn law_assigned_value_is_there(value: PySetterValue, option: Option<PyObjectRef>)
    requires
        option == value.as_option() || call_ensures(PySetterValue::into_option, (value,), option),
    ensures
        option is None <==> value is Delete,
        option matches Some(obj) ==> value == PySetterValue::Assign(obj),
{
}

/// An argument is there exactly when it is present.
pub proof fn law_present_argument_is_there(arg: OptionalArg, option: Option<PyObjectRef>)
    requires
        option == arg.as_option() || call_ensures(OptionalArg::into_option, (arg,), option),
    ensures
        option is None <==> arg is Missing,
        option matches Some(obj) ==> arg == OptionalArg::Present(obj),
{
}

/// The arguments of a call are the positional ones and then those given by name,
/// each once and in order.
pub proof fn law_arguments_are_all_of_them(args: FuncArgs, i: int)
    ensures
        args.spec_refs().len() == args.args@.len() + args.kwargs@.len(),
        0 <= i < args.args@.len() ==> args.spec_refs()[i] == args.args@[i],
        0 <= i < args.kwargs@.len() ==> args.spec_refs()[args.args@.len() + i]
            == args.kwargs@[i].1,
{
}

/// A proxy is made from the first positional argument, which has to be there, and
/// from the second as its callback if there is one. Those are taken off the call, and
/// no other argument is.
pub proof fn law_constructor_arguments(
    args: &mut FuncArgs,
    res: Result<WeakProxyNewArgs, ArgumentError>,
)
    requires
        call_ensures(WeakProxyNewArgs::from_args, (args,), res),
    ensures
        ({
            let had = old(args).args@;
            let has = final(args).args@;
            &&& res is Err <==> had.len() == 0
            &&& res matches Ok(taken) ==> taken.referent == had[0]
            &&& res matches Ok(taken) ==> (taken.callback is Missing <==> had.len() == 1)
            &&& res matches Ok(taken) ==> (had.len() > 1 ==> taken.callback
                == OptionalArg::Present(had[1]))
            &&& has.len() == if had.len() > 2 {
                had.len() - 2
            } else {
                0
            }
            &&& forall|i: int| 0 <= i < has.len() ==> #[trigger] has[i] == had[i + 2]
        }),
        final(args).kwargs == old(args).kwargs,
{
}

/// An interpreter without protocols answers every request with one `TypeError`.
pub proof fn law_unsupported_is_a_type_error<P>(state: VmState<P>)
    ensures
        unsupported(state).class == state.ctx.exceptions.type_error,
        unsupported(state).msg == "unsupported operation"@,
{
}

} // verus!
