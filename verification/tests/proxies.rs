use weakproxy::object::{
    ArgumentError, FuncArgs, OptionalArg, Py, PyBaseException, PyComparisonOp, PyComparisonValue,
    PyFloatRef, PyIntRef, PyIter, PyIterReturn, PyObjectRef, PyResult, PySetterValue, PyStrRef,
    PyTypeRef, PyWeak,
};
use weakproxy::protocol::{
    BinaryOp, ConversionOp, MappingCall, MappingOp, MappingValue, NoProtocol, NumberCall,
    NumberValue, ObjectProtocol, SequenceCall, SequenceOp, SequenceValue, SlotCall, SlotValue,
    TernaryOp, UnaryOp,
};
use weakproxy::proxy::{
    make_weak_ref, new_reference_error, proxy_binary_op, proxy_binary_slot, proxy_float_slot,
    proxy_index_slot, proxy_int_slot, proxy_repr, proxy_ternary_op, proxy_ternary_slot,
    proxy_try_upgrade, proxy_unary_op, proxy_unary_slot, proxy_upgrade_opt,
};
use weakproxy::text::to_prefixed_hex;
use weakproxy::vm::{Context, Payload, PyObject, PyTypeSlots, VirtualMachine};
use weakproxy::weakcallableproxy::PyWeakCallableProxy;
use weakproxy::weakproxy::{PyWeakProxy, WeakProxyNewArgs, init};

/// Writes down what it is asked for. It answers with the object that it was
/// given, or raises where `fail` is set.
struct Recorder {
    log: Vec<String>,
    fail: bool,
}

type Vm = VirtualMachine<Recorder>;

const DEAD: &str = "weakly-referenced object no longer exists";

fn answer<T>(vm: &mut Vm, entry: String, value: T) -> PyResult<T> {
    vm.host.log.push(entry);
    if vm.host.fail {
        Err(vm.new_exception_msg(vm.ctx.exceptions.type_error, "unsupported".to_string()))
    } else {
        Ok(value)
    }
}

impl ObjectProtocol for Recorder {
    fn str(vm: &mut Vm, obj: PyObjectRef) -> PyResult<PyStrRef> {
        answer(vm, format!("str {}", obj.id), PyStrRef { object: obj })
    }
    fn bytes(vm: &mut Vm, obj: PyObjectRef) -> PyResult<PyObjectRef> {
        answer(vm, format!("bytes {}", obj.id), obj)
    }
    fn reversed(vm: &mut Vm, obj: PyObjectRef) -> PyResult<PyObjectRef> {
        answer(vm, format!("reversed {}", obj.id), obj)
    }
    fn is_true(vm: &mut Vm, obj: PyObjectRef) -> PyResult<bool> {
        answer(vm, format!("is_true {}", obj.id), true)
    }
    fn try_int(vm: &mut Vm, obj: PyObjectRef) -> PyResult<PyIntRef> {
        answer(vm, format!("try_int {}", obj.id), PyIntRef { object: obj })
    }
    fn try_float(vm: &mut Vm, obj: PyObjectRef) -> PyResult<PyFloatRef> {
        answer(vm, format!("try_float {}", obj.id), PyFloatRef { object: obj })
    }
    fn try_index(vm: &mut Vm, obj: PyObjectRef) -> PyResult<PyIntRef> {
        answer(vm, format!("try_index {}", obj.id), PyIntRef { object: obj })
    }
    fn unary(vm: &mut Vm, op: UnaryOp, obj: PyObjectRef) -> PyResult<PyObjectRef> {
        answer(vm, format!("{:?} {}", op, obj.id), obj)
    }
    fn binary(vm: &mut Vm, op: BinaryOp, a: PyObjectRef, b: PyObjectRef) -> PyResult<PyObjectRef> {
        answer(vm, format!("{:?} {} {}", op, a.id, b.id), a)
    }
    fn ternary(
        vm: &mut Vm,
        op: TernaryOp,
        a: PyObjectRef,
        b: PyObjectRef,
        c: PyObjectRef,
    ) -> PyResult<PyObjectRef> {
        answer(vm, format!("{:?} {} {} {}", op, a.id, b.id, c.id), a)
    }
    fn get_iter(vm: &mut Vm, obj: PyObjectRef) -> PyResult<PyIter> {
        answer(vm, format!("get_iter {}", obj.id), PyIter { object: obj })
    }
    fn next(vm: &mut Vm, iter: PyIter) -> PyResult<PyIterReturn> {
        let obj = iter.object;
        answer(vm, format!("next {}", obj.id), PyIterReturn::Return(obj))
    }
    fn get_attr(vm: &mut Vm, obj: PyObjectRef, name: PyStrRef) -> PyResult<PyObjectRef> {
        answer(vm, format!("get_attr {} {}", obj.id, name.object.id), obj)
    }
    fn call_set_attr(
        vm: &mut Vm,
        obj: PyObjectRef,
        name: PyStrRef,
        value: PySetterValue,
    ) -> PyResult<()> {
        let what = match value {
            PySetterValue::Assign(value) => format!("assign {}", value.id),
            PySetterValue::Delete => "delete".to_string(),
        };
        vm.release_opt(value.into_option());
        answer(vm, format!("set_attr {} {} {}", obj.id, name.object.id, what), ())
    }
    fn rich_compare_bool(
        vm: &mut Vm,
        obj: PyObjectRef,
        other: PyObjectRef,
        op: PyComparisonOp,
    ) -> PyResult<bool> {
        answer(vm, format!("compare {:?} {} {}", op, obj.id, other.id), obj == other)
    }
    fn length(vm: &mut Vm, obj: PyObjectRef) -> PyResult<usize> {
        answer(vm, format!("length {}", obj.id), 7)
    }
    fn contains(vm: &mut Vm, obj: PyObjectRef, needle: PyObjectRef) -> PyResult<bool> {
        answer(vm, format!("contains {} {}", obj.id, needle.id), true)
    }
    fn get_item(vm: &mut Vm, obj: PyObjectRef, needle: PyObjectRef) -> PyResult<PyObjectRef> {
        answer(vm, format!("get_item {} {}", obj.id, needle.id), obj)
    }
    fn set_item(
        vm: &mut Vm,
        obj: PyObjectRef,
        needle: PyObjectRef,
        value: PyObjectRef,
    ) -> PyResult<()> {
        vm.release(value);
        answer(vm, format!("set_item {} {} {}", obj.id, needle.id, value.id), ())
    }
    fn del_item(vm: &mut Vm, obj: PyObjectRef, needle: PyObjectRef) -> PyResult<()> {
        answer(vm, format!("del_item {} {}", obj.id, needle.id), ())
    }
    fn call(vm: &mut Vm, obj: PyObjectRef, args: FuncArgs) -> PyResult<PyObjectRef> {
        vm.release_all(&args.refs());
        answer(vm, format!("call {} with {}", obj.id, args.args.len()), obj)
    }
}

/// Adds a class whose instances can be referred to weakly, if they are to be.
fn add_class(ctx: &mut Context, name: &str, has_weakref: bool, iternext: bool) -> PyTypeRef {
    let slots = PyTypeSlots { iternext, ..PyTypeSlots::empty() };
    ctx.new_base_class(None, name, slots, has_weakref)
}

struct World {
    vm: Vm,
    thing: PyTypeRef,
    counter: PyTypeRef,
    rigid: PyTypeRef,
}

fn world() -> World {
    let mut ctx = Context::new();
    init(&mut ctx);
    let thing = add_class(&mut ctx, "Thing", true, false);
    let counter = add_class(&mut ctx, "Counter", true, true);
    let rigid = add_class(&mut ctx, "int", false, false);
    let host = Recorder { log: Vec::new(), fail: false };
    World { vm: VirtualMachine::new(ctx, host), thing, counter, rigid }
}

/// The number of strong references to `obj`.
fn strong(vm: &Vm, obj: PyObjectRef) -> usize {
    vm.strong.iter().filter(|entry| **entry == obj).count()
}

/// The object behind a weak reference, which is looked at and given back.
fn target(vm: &mut Vm, weak: PyWeak) -> PyResult<PyObjectRef> {
    let res = proxy_try_upgrade(&weak, vm);
    if let Ok(obj) = &res {
        vm.give_back(*obj);
    }
    res
}

/// A weak proxy to `referent`, as an object. The caller keeps its reference.
fn plain(vm: &mut Vm, referent: PyObjectRef) -> Py<PyWeakProxy> {
    vm.clone_ref(referent);
    let payload = PyWeakProxy::new(referent, None, vm).unwrap();
    let class = PyWeakProxy::class(&vm.ctx);
    let object = vm.new_object(class, Payload::WeakProxy(payload));
    vm.downcast_weak_proxy(object).unwrap()
}

/// A weak callable proxy to `referent`, as an object. The caller keeps its
/// reference.
fn callable(vm: &mut Vm, referent: PyObjectRef) -> Py<PyWeakCallableProxy> {
    vm.clone_ref(referent);
    let payload = PyWeakCallableProxy::new(referent, None, vm).unwrap();
    let class = PyWeakCallableProxy::class(&vm.ctx);
    let object = vm.new_object(class, Payload::WeakCallableProxy(payload));
    vm.downcast_weak_callable_proxy(object).unwrap()
}

fn dead_error(vm: &Vm) -> PyBaseException {
    PyBaseException { class: vm.ctx.exceptions.reference_error, msg: DEAD.to_string() }
}

fn no_args() -> FuncArgs {
    FuncArgs { args: Vec::new(), kwargs: Vec::new() }
}

#[test]
fn new_proxy_refers_to_its_referent() {
    let mut w = world();
    let obj = w.vm.new_object(w.thing, Payload::Other);
    let callback = w.vm.new_object(w.thing, Payload::Other);
    w.vm.clone_ref(obj);
    let proxy = PyWeakProxy::new(obj, Some(callback), &mut w.vm).unwrap();
    let class = w.vm.ctx.weak_subclass.unwrap();
    assert_eq!(strong(&w.vm, obj), 1);
    assert_eq!(strong(&w.vm, callback), 1);
    assert_eq!(
        proxy.weak,
        PyWeak { referent: obj, callback: Some(callback), typ: class }
    );
    assert_eq!(proxy.try_upgrade(&mut w.vm), Ok(obj));
    assert_eq!(proxy.weak.upgrade(&mut w.vm), Some(obj));
    assert_eq!(proxy_try_upgrade(&proxy.weak, &mut w.vm), Ok(obj));
    assert_eq!(proxy.weak.peek(&w.vm), Some(obj));
    assert_eq!(strong(&w.vm, obj), 4);
}

#[test]
fn weak_subclass_is_made_once_and_shared() {
    let mut w = world();
    let obj = w.vm.new_object(w.thing, Payload::Other);
    assert_eq!(w.vm.ctx.weak_subclass, None);
    let count = w.vm.ctx.classes.len();
    w.vm.clone_ref(obj);
    let first = PyWeakProxy::new(obj, None, &mut w.vm).unwrap();
    assert_eq!(w.vm.ctx.classes.len(), count + 1);
    w.vm.clone_ref(obj);
    let second = PyWeakCallableProxy::new(obj, None, &mut w.vm).unwrap();
    let p = plain(&mut w.vm, obj);
    assert!(PyWeakProxy::__str__(&p, &mut w.vm).is_ok());
    let third = make_weak_ref(obj, None, &mut w.vm).unwrap();
    assert_eq!(w.vm.ctx.classes.len(), count + 1);
    assert_eq!(first.weak.typ, PyTypeRef { index: count });
    assert_eq!(second.weak.typ, first.weak.typ);
    assert_eq!(third.typ, first.weak.typ);
    let class = &w.vm.ctx.classes[count];
    assert_eq!(class.name, "__weakproxy");
    assert_eq!(class.module, None);
    assert_eq!(class.base, Some(w.vm.ctx.types.weakref_type));
    assert_eq!(class.slots, PyWeak::make_slots());
}

#[test]
fn weak_subclass_does_not_follow_later_slots_of_its_base() {
    let mut w = world();
    let obj = w.vm.new_object(w.thing, Payload::Other);
    let base = w.vm.ctx.types.weakref_type;
    let more = PyTypeSlots { iternext: true, ..PyTypeSlots::empty() };
    w.vm.ctx.extend_class(base, more);
    assert!(w.vm.ctx.classes[base.index].slots.iternext);
    let weak = make_weak_ref(obj, None, &mut w.vm).unwrap();
    assert_eq!(w.vm.ctx.classes[weak.typ.index].slots, PyWeak::make_slots());
}

#[test]
fn proxy_made_with_the_only_reference_is_dead() {
    let mut w = world();
    let obj = w.vm.new_object(w.thing, Payload::Other);
    let proxy = PyWeakProxy::new(obj, None, &mut w.vm).unwrap();
    assert_eq!(w.vm.get(obj), None);
    assert_eq!(target(&mut w.vm, proxy.weak).unwrap_err(), dead_error(&w.vm));
}

#[test]
fn upgraded_reference_keeps_its_referent_alive() {
    let mut w = world();
    let obj = w.vm.new_object(w.thing, Payload::Other);
    let p = plain(&mut w.vm, obj);
    assert_eq!(p.payload.try_upgrade(&mut w.vm), Ok(obj));
    w.vm.release(obj);
    assert_eq!(target(&mut w.vm, p.payload.weak), Ok(obj));
    assert!(PyWeakProxy::__str__(&p, &mut w.vm).is_ok());
    assert_eq!(target(&mut w.vm, p.payload.weak), Ok(obj));
    w.vm.give_back(obj);
    assert_eq!(target(&mut w.vm, p.payload.weak).unwrap_err(), dead_error(&w.vm));
}

#[test]
fn referents_without_weak_references_are_refused() {
    let mut w = world();
    let number = w.vm.new_object(w.rigid, Payload::Other);
    let callback = w.vm.new_object(w.thing, Payload::Other);
    w.vm.clone_ref(number);
    let error = PyWeakProxy::new(number, Some(callback), &mut w.vm).unwrap_err();
    assert_eq!(strong(&w.vm, number), 1);
    assert_eq!(w.vm.get(callback), None);
    assert_eq!(error.class, w.vm.ctx.exceptions.type_error);
    assert_eq!(error.msg, "cannot create weak reference to 'int' object");
    // The class of the weak references has been made all the same.
    assert!(w.vm.ctx.weak_subclass.is_some());
    let error = PyWeakCallableProxy::new(number, None, &mut w.vm).unwrap_err();
    assert_eq!(error.msg, "cannot create weak reference to 'int' object");
}

#[test]
fn constructor_takes_the_callback_if_it_is_there() {
    let mut w = world();
    let obj = w.vm.new_object(w.thing, Payload::Other);
    let callback = w.vm.new_object(w.thing, Payload::Other);
    let cls = PyWeakProxy::class(&w.vm.ctx);
    let args = WeakProxyNewArgs { referent: obj, callback: OptionalArg::Present(callback) };
    w.vm.clone_ref(obj);
    let proxy = PyWeakProxy::py_new(cls, args, &mut w.vm).unwrap();
    assert_eq!(proxy.weak.callback, Some(callback));
    let args = WeakProxyNewArgs { referent: obj, callback: OptionalArg::Missing };
    let proxy = PyWeakCallableProxy::py_new(cls, args, &mut w.vm).unwrap();
    assert_eq!(proxy.weak.callback, None);
    assert_eq!(proxy.weak.referent, obj);
}

#[test]
fn constructor_arguments_are_positional() {
    let a = PyObjectRef { id: 1 };
    let b = PyObjectRef { id: 2 };
    let c = PyObjectRef { id: 3 };
    let mut none = no_args();
    assert_eq!(WeakProxyNewArgs::from_args(&mut none), Err(ArgumentError::TooFewArgs));
    let mut one = FuncArgs { args: vec![a], kwargs: vec![("k".to_string(), b)] };
    assert_eq!(
        WeakProxyNewArgs::from_args(&mut one),
        Ok(WeakProxyNewArgs { referent: a, callback: OptionalArg::Missing })
    );
    assert!(one.args.is_empty());
    assert_eq!(one.kwargs, vec![("k".to_string(), b)]);
    let mut three = FuncArgs { args: vec![a, b, c], kwargs: Vec::new() };
    assert_eq!(
        WeakProxyNewArgs::from_args(&mut three),
        Ok(WeakProxyNewArgs { referent: a, callback: OptionalArg::Present(b) })
    );
    assert_eq!(three.args, vec![c]);
}

#[test]
fn live_proxy_hands_everything_to_its_referent() {
    let mut w = world();
    let vm = &mut w.vm;
    let obj = vm.new_object(w.counter, Payload::Other);
    let x = vm.new_object(w.thing, Payload::Other);
    let p = plain(vm, obj);
    let name = PyStrRef { object: x };
    assert_eq!(PyWeakProxy::__str__(&p, vm), Ok(PyStrRef { object: obj }));
    assert_eq!(p.payload.__bytes__(vm), Ok(obj));
    assert_eq!(p.payload.__reversed__(vm), Ok(obj));
    vm.clone_ref(p.object);
    assert_eq!(PyWeakProxy::iter(p, vm), Ok(obj));
    assert_eq!(PyWeakProxy::next(&p, vm), Ok(PyIterReturn::Return(obj)));
    assert_eq!(PyWeakProxy::getattro(&p, name, vm), Ok(obj));
    vm.clone_ref(x);
    assert_eq!(PyWeakProxy::setattro(&p, name, PySetterValue::Assign(x), vm), Ok(()));
    assert_eq!(PyWeakProxy::setattro(&p, name, PySetterValue::Delete, vm), Ok(()));
    assert_eq!(PyWeakProxy::number_boolean(p.object, vm), Ok(true));
    assert_eq!(PyWeakProxy::sequence_length(p.object, vm), Ok(7));
    assert_eq!(PyWeakProxy::sequence_contains(p.object, x, vm), Ok(true));
    assert_eq!(PyWeakProxy::mapping_length(p.object, vm), Ok(7));
    assert_eq!(PyWeakProxy::mapping_subscript(p.object, x, vm), Ok(obj));
    vm.clone_ref(x);
    assert_eq!(PyWeakProxy::mapping_ass_subscript(p.object, x, Some(x), vm), Ok(()));
    assert_eq!(PyWeakProxy::mapping_ass_subscript(p.object, x, None, vm), Ok(()));
    assert_eq!(
        vm.host.log,
        vec![
            "str 0",
            "bytes 0",
            "reversed 0",
            "get_iter 0",
            "next 0",
            "get_attr 0 1",
            "set_attr 0 1 assign 1",
            "set_attr 0 1 delete",
            "is_true 0",
            "length 0",
            "contains 0 1",
            "length 0",
            "get_item 0 1",
            "set_item 0 1 1",
            "del_item 0 1",
        ]
    );
}

#[test]
fn live_callable_proxy_hands_everything_to_its_referent() {
    let mut w = world();
    let vm = &mut w.vm;
    let obj = vm.new_object(w.counter, Payload::Other);
    let x = vm.new_object(w.thing, Payload::Other);
    let p = callable(vm, obj);
    let name = PyStrRef { object: x };
    assert_eq!(PyWeakCallableProxy::__str__(&p, vm), Ok(PyStrRef { object: obj }));
    assert_eq!(p.payload.__bytes__(vm), Ok(obj));
    assert_eq!(p.payload.__reversed__(vm), Ok(obj));
    vm.clone_ref(p.object);
    assert_eq!(PyWeakCallableProxy::iter(p, vm), Ok(obj));
    assert_eq!(PyWeakCallableProxy::next(&p, vm), Ok(PyIterReturn::Return(obj)));
    assert_eq!(PyWeakCallableProxy::getattro(&p, name, vm), Ok(obj));
    vm.clone_ref(x);
    assert_eq!(PyWeakCallableProxy::setattro(&p, name, PySetterValue::Assign(x), vm), Ok(()));
    assert_eq!(PyWeakCallableProxy::number_boolean(p.object, vm), Ok(true));
    assert_eq!(PyWeakCallableProxy::sequence_length(p.object, vm), Ok(7));
    assert_eq!(PyWeakCallableProxy::sequence_contains(p.object, x, vm), Ok(true));
    assert_eq!(PyWeakCallableProxy::mapping_length(p.object, vm), Ok(7));
    assert_eq!(PyWeakCallableProxy::mapping_subscript(p.object, x, vm), Ok(obj));
    vm.clone_ref(x);
    assert_eq!(PyWeakCallableProxy::mapping_ass_subscript(p.object, x, Some(x), vm), Ok(()));
    assert_eq!(PyWeakCallableProxy::mapping_ass_subscript(p.object, x, None, vm), Ok(()));
    assert_eq!(
        PyWeakCallableProxy::cmp(&p, obj, PyComparisonOp::Eq, vm),
        Ok(PyComparisonValue::Implemented(true))
    );
    vm.clone_ref(x);
    vm.clone_ref(x);
    let args = FuncArgs { args: vec![x, x], kwargs: Vec::new() };
    assert_eq!(PyWeakCallableProxy::call(&p, args, vm), Ok(obj));
    assert_eq!(
        vm.host.log,
        vec![
            "str 0",
            "bytes 0",
            "reversed 0",
            "get_iter 0",
            "next 0",
            "get_attr 0 1",
            "set_attr 0 1 assign 1",
            "is_true 0",
            "length 0",
            "contains 0 1",
            "length 0",
            "get_item 0 1",
            "set_item 0 1 1",
            "del_item 0 1",
            "compare Eq 0 0",
            "call 0 with 2",
        ]
    );
}

#[test]
fn dead_proxy_raises_reference_error() {
    let mut w = world();
    let vm = &mut w.vm;
    let obj = vm.new_object(w.counter, Payload::Other);
    let x = vm.new_object(w.thing, Payload::Other);
    let p = plain(vm, obj);
    vm.release(obj);
    let name = PyStrRef { object: x };
    let e = dead_error(vm);
    assert_eq!(e, new_reference_error(vm));
    assert_eq!(p.payload.try_upgrade(vm).unwrap_err(), e);
    assert_eq!(PyWeakProxy::__str__(&p, vm).unwrap_err(), e);
    assert_eq!(p.payload.__bytes__(vm).unwrap_err(), e);
    assert_eq!(p.payload.__reversed__(vm).unwrap_err(), e);
    vm.clone_ref(p.object);
    assert_eq!(PyWeakProxy::iter(p, vm).unwrap_err(), e);
    assert_eq!(PyWeakProxy::next(&p, vm).unwrap_err(), e);
    assert_eq!(PyWeakProxy::getattro(&p, name, vm).unwrap_err(), e);
    assert_eq!(PyWeakProxy::setattro(&p, name, PySetterValue::Delete, vm).unwrap_err(), e);
    assert_eq!(PyWeakProxy::number_boolean(p.object, vm).unwrap_err(), e);
    assert_eq!(PyWeakProxy::cmp(&p, x, PyComparisonOp::Lt, vm).unwrap_err(), e);
    assert_eq!(PyWeakProxy::sequence_length(p.object, vm).unwrap_err(), e);
    assert_eq!(PyWeakProxy::sequence_contains(p.object, x, vm).unwrap_err(), e);
    assert_eq!(PyWeakProxy::mapping_length(p.object, vm).unwrap_err(), e);
    assert_eq!(PyWeakProxy::mapping_subscript(p.object, x, vm).unwrap_err(), e);
    assert_eq!(PyWeakProxy::mapping_ass_subscript(p.object, x, None, vm).unwrap_err(), e);
    assert_eq!(proxy_int_slot(p.object, vm).unwrap_err(), e);
    assert_eq!(proxy_float_slot(p.object, vm).unwrap_err(), e);
    assert_eq!(proxy_index_slot(p.object, vm).unwrap_err(), e);
    assert_eq!(proxy_unary_slot(UnaryOp::Neg, p.object, vm).unwrap_err(), e);
    assert_eq!(proxy_binary_slot(BinaryOp::Add, p.object, x, vm).unwrap_err(), e);
    assert_eq!(proxy_binary_slot(BinaryOp::Add, x, p.object, vm).unwrap_err(), e);
    assert_eq!(proxy_ternary_slot(TernaryOp::Pow, x, p.object, x, vm).unwrap_err(), e);
    assert_eq!(proxy_ternary_slot(TernaryOp::Pow, x, x, p.object, vm).unwrap_err(), e);
    assert!(vm.host.log.is_empty());
}

#[test]
fn dead_callable_proxy_raises_reference_error() {
    let mut w = world();
    let vm = &mut w.vm;
    let obj = vm.new_object(w.thing, Payload::Other);
    let p = callable(vm, obj);
    vm.release(obj);
    let e = dead_error(vm);
    assert_eq!(e.msg, "weakly-referenced object no longer exists");
    assert_eq!(PyWeakCallableProxy::call(&p, no_args(), vm).unwrap_err(), e);
    assert_eq!(PyWeakCallableProxy::__str__(&p, vm).unwrap_err(), e);
    assert_eq!(PyWeakCallableProxy::number_boolean(p.object, vm).unwrap_err(), e);
    assert_eq!(proxy_upgrade_opt(p.object, vm).unwrap_err(), e);
    assert!(vm.host.log.is_empty());
}

#[test]
fn what_the_referent_raises_is_passed_on() {
    let mut w = world();
    let vm = &mut w.vm;
    let obj = vm.new_object(w.counter, Payload::Other);
    let p = plain(vm, obj);
    vm.host.fail = true;
    let class = vm.ctx.exceptions.type_error;
    let e = PyBaseException { class, msg: "unsupported".to_string() };
    assert_eq!(PyWeakProxy::__str__(&p, vm).unwrap_err(), e);
    vm.clone_ref(p.object);
    assert_eq!(PyWeakProxy::iter(p, vm).unwrap_err(), e);
    assert_eq!(PyWeakProxy::next(&p, vm).unwrap_err(), e);
    assert_eq!(proxy_int_slot(p.object, vm).unwrap_err(), e);
    assert_eq!(proxy_float_slot(p.object, vm).unwrap_err(), e);
    assert_eq!(PyWeakProxy::cmp(&p, obj, PyComparisonOp::Eq, vm).unwrap_err(), e);
    assert_eq!(vm.host.log.len(), 6);
}

#[test]
fn next_needs_an_iterator() {
    let mut w = world();
    let vm = &mut w.vm;
    let obj = vm.new_object(w.thing, Payload::Other);
    let p = plain(vm, obj);
    let q = callable(vm, obj);
    let class = vm.ctx.exceptions.type_error;
    let msg = "Weakref proxy referenced a non-iterator 'Thing' object".to_string();
    let e = PyBaseException { class, msg };
    assert_eq!(PyWeakProxy::next(&p, vm).unwrap_err(), e);
    assert_eq!(PyWeakCallableProxy::next(&q, vm).unwrap_err(), e);
    assert!(vm.host.log.is_empty());
    assert!(!PyIter::check(obj, vm));
}

#[test]
fn number_operations_see_through_proxies_on_any_side() {
    let mut w = world();
    let vm = &mut w.vm;
    let a = vm.new_object(w.thing, Payload::Other);
    let b = vm.new_object(w.thing, Payload::Other);
    let p = plain(vm, a).object;
    let q = callable(vm, b).object;
    let c = vm.new_object(w.rigid, Payload::Other);
    assert_eq!((a.id, b.id, p.id, q.id, c.id), (0, 1, 2, 3, 4));
    assert_eq!(proxy_unary_slot(UnaryOp::Invert, p, vm), Ok(a));
    assert_eq!(proxy_unary_slot(UnaryOp::Abs, c, vm), Ok(c));
    assert_eq!(proxy_binary_slot(BinaryOp::Sub, p, q, vm), Ok(a));
    assert_eq!(proxy_binary_slot(BinaryOp::Imatmul, c, q, vm), Ok(c));
    assert_eq!(proxy_binary_slot(BinaryOp::Divmod, q, c, vm), Ok(b));
    assert_eq!(proxy_ternary_slot(TernaryOp::Pow, p, q, c, vm), Ok(a));
    assert_eq!(proxy_ternary_slot(TernaryOp::Ipow, c, c, q, vm), Ok(c));
    assert_eq!(proxy_int_slot(p, vm), Ok(a));
    assert_eq!(proxy_float_slot(c, vm), Ok(c));
    assert_eq!(proxy_index_slot(q, vm), Ok(b));
    assert_eq!(
        vm.host.log,
        vec![
            "Invert 0",
            "Abs 4",
            "Sub 0 1",
            "Imatmul 4 1",
            "Divmod 1 4",
            "Pow 0 1 4",
            "Ipow 4 4 1",
            "try_int 0",
            "try_float 4",
            "try_index 1",
        ]
    );
}

#[test]
fn operations_are_free_to_change_the_interpreter() {
    let mut w = world();
    let vm = &mut w.vm;
    let a = vm.new_object(w.thing, Payload::Other);
    let b = vm.new_object(w.thing, Payload::Other);
    let p = plain(vm, a);
    let q = plain(vm, b);
    let c = vm.new_object(w.thing, Payload::Other);
    let r = plain(vm, c);
    let sum = proxy_binary_op(p.object, q.object, vm, |vm: &mut Vm, x, y| {
        assert_eq!(y, b);
        vm.release(c);
        Ok(x)
    });
    assert_eq!(sum, Ok(a));
    assert_eq!(r.payload.try_upgrade(vm).unwrap_err(), dead_error(vm));
    assert_eq!(target(vm, p.payload.weak), Ok(a));
    assert_eq!(target(vm, q.payload.weak), Ok(b));
    assert_eq!(proxy_unary_op(p.object, vm, |_: &mut Vm, x| Ok(x)), Ok(a));
    let class = w.thing;
    let made = proxy_ternary_op(p.object, a, a, vm, |vm: &mut Vm, x, y, z| {
        assert_eq!((x, y, z), (a, a, a));
        Ok(vm.new_object(class, Payload::Other))
    });
    assert_eq!(made, Ok(PyObjectRef { id: 6 }));
}

#[test]
fn comparison_sees_through_proxies_on_both_sides() {
    let mut w = world();
    let vm = &mut w.vm;
    let a = vm.new_object(w.thing, Payload::Other);
    let b = vm.new_object(w.thing, Payload::Other);
    let p = plain(vm, a);
    let q = callable(vm, a);
    let r = plain(vm, b);
    assert_eq!(
        PyWeakProxy::cmp(&p, q.object, PyComparisonOp::Eq, vm),
        Ok(PyComparisonValue::Implemented(true))
    );
    assert_eq!(
        PyWeakProxy::cmp(&p, b, PyComparisonOp::Le, vm),
        Ok(PyComparisonValue::Implemented(false))
    );
    vm.release(b);
    assert_eq!(
        PyWeakProxy::cmp(&p, r.object, PyComparisonOp::Ne, vm).unwrap_err(),
        dead_error(vm)
    );
    assert_eq!(vm.host.log, vec!["compare Eq 0 0", "compare Le 0 1"]);
}

#[test]
fn proxy_to_a_proxy_is_undone_one_level_at_a_time() {
    let mut w = world();
    let vm = &mut w.vm;
    let class = vm.ctx.types.weakproxy_type;
    vm.ctx.classes[class.index].has_weakref = true;
    let obj = vm.new_object(w.thing, Payload::Other);
    let inner = plain(vm, obj);
    let outer = plain(vm, inner.object);
    assert_eq!(proxy_upgrade_opt(outer.object, vm), Ok(Some(inner.object)));
    assert_eq!(proxy_upgrade_opt(inner.object, vm), Ok(Some(obj)));
    assert_eq!(proxy_upgrade_opt(obj, vm), Ok(None));
    vm.give_back(inner.object);
    vm.give_back(obj);
    // The outer proxy outlives the object behind the inner one.
    vm.release(obj);
    assert_eq!(target(vm, outer.payload.weak), Ok(inner.object));
    assert_eq!(inner.payload.try_upgrade(vm).unwrap_err(), dead_error(vm));
    // A proxy class has the slot for the next item, so the check lets it pass.
    assert_eq!(PyWeakProxy::next(&outer, vm), Ok(PyIterReturn::Return(inner.object)));
}

#[test]
fn freeing_kills_all_proxies_of_an_object_and_no_other() {
    let mut w = world();
    let vm = &mut w.vm;
    let a = vm.new_object(w.thing, Payload::Other);
    let b = vm.new_object(w.thing, Payload::Other);
    let p = plain(vm, a);
    let q = callable(vm, a);
    let r = plain(vm, b);
    vm.release(a);
    assert!(target(vm, p.payload.weak).is_err());
    assert!(target(vm, q.payload.weak).is_err());
    assert_eq!(target(vm, r.payload.weak), Ok(b));
    // New objects do not bring the old one back.
    let c = vm.new_object(w.thing, Payload::Other);
    assert_ne!(c, a);
    assert!(target(vm, p.payload.weak).is_err());
}

#[test]
fn making_a_proxy_disturbs_no_other() {
    let mut w = world();
    let vm = &mut w.vm;
    let a = vm.new_object(w.thing, Payload::Other);
    let b = vm.new_object(w.rigid, Payload::Other);
    let p = plain(vm, a);
    let before = PyWeakProxy::repr_str(&p, vm);
    vm.clone_ref(a);
    assert!(PyWeakCallableProxy::new(a, None, vm).is_ok());
    assert!(PyWeakProxy::new(b, None, vm).is_err());
    assert_eq!(vm.get(b), None);
    assert_eq!(PyWeakProxy::repr_str(&p, vm), before);
    assert_eq!(target(vm, p.payload.weak), Ok(a));
    assert_eq!(vm.objects.len(), 3);
}

#[test]
fn repr_of_live_and_dead_proxies() {
    let mut w = world();
    let vm = &mut w.vm;
    let obj = vm.new_object(w.thing, Payload::Other);
    let p = plain(vm, obj);
    let q = callable(vm, obj);
    assert_eq!(
        PyWeakProxy::repr_str(&p, vm),
        Ok("<weakproxy at 0x1; to 'Thing' at 0x0>".to_string())
    );
    assert_eq!(
        PyWeakCallableProxy::repr_str(&q, vm),
        Ok("<weakproxy at 0x2; to 'Thing' at 0x0>".to_string())
    );
    assert_eq!(
        proxy_repr(0xdeadbeef, &p.payload.weak, vm),
        "<weakproxy at 0xdeadbeef; to 'Thing' at 0x0>"
    );
    vm.release(obj);
    assert_eq!(PyWeakProxy::repr_str(&p, vm), Ok("<weakproxy at 0x1; dead>".to_string()));
    assert_eq!(PyWeakCallableProxy::repr_str(&q, vm), Ok("<weakproxy at 0x2; dead>".to_string()));
}

#[test]
fn hexadecimal_numbers() {
    assert_eq!(to_prefixed_hex(0), "0x0");
    assert_eq!(to_prefixed_hex(15), "0xf");
    assert_eq!(to_prefixed_hex(16), "0x10");
    assert_eq!(to_prefixed_hex(0x123456789), "0x123456789");
    assert_eq!(to_prefixed_hex(0xabcdef), "0xabcdef");
    assert_eq!(to_prefixed_hex(usize::MAX), format!("{:#x}", usize::MAX));
}

#[test]
fn init_fills_the_proxy_classes() {
    let mut ctx = Context::new();
    let weakref = ctx.classes[ctx.types.weakref_type.index].slots;
    init(&mut ctx);
    let plain = ctx.classes[PyWeakProxy::class(&ctx).index].slots;
    let callable = ctx.classes[PyWeakCallableProxy::class(&ctx).index].slots;
    assert!(!plain.call);
    assert_eq!(callable, PyTypeSlots { call: true, ..plain });
    assert!(plain.getattro && plain.setattro && plain.new && plain.richcompare);
    assert!(plain.as_number && plain.as_sequence && plain.as_mapping);
    assert!(plain.repr && plain.iter && plain.iternext && plain.unhashable);
    assert!(plain.str_method && plain.bytes_method && plain.reversed_method);
    assert_eq!(ctx.classes[ctx.types.weakref_type.index].slots, weakref);
    assert_eq!(ctx.classes[ctx.types.weakproxy_type.index].name, "weakproxy");
    assert_eq!(ctx.classes[ctx.types.weakcallableproxy_type.index].name, "weakcallableproxy");
}

#[test]
fn init_twice_is_init_once() {
    let mut once = Context::new();
    init(&mut once);
    let mut twice = Context::new();
    init(&mut twice);
    init(&mut twice);
    assert_eq!(once, twice);
}

#[test]
fn number_slots_name_their_operations() {
    let methods = PyWeakProxy::as_number();
    assert_eq!(methods, PyWeakCallableProxy::as_number());
    assert_eq!(methods.boolean, Some(ConversionOp::Bool));
    assert_eq!(methods.index, Some(ConversionOp::Index));
    assert_eq!(methods.negative, Some(UnaryOp::Neg));
    assert_eq!(methods.invert, Some(UnaryOp::Invert));
    assert_eq!(methods.subtract, Some(BinaryOp::Sub));
    assert_eq!(methods.remainder, Some(BinaryOp::Mod));
    assert_eq!(methods.floor_divide, Some(BinaryOp::Floordiv));
    assert_eq!(methods.inplace_subtract, Some(BinaryOp::Isub));
    assert_eq!(methods.inplace_matrix_multiply, Some(BinaryOp::Imatmul));
    assert_eq!(methods.power, Some(TernaryOp::Pow));
    assert_eq!(methods.inplace_power, Some(TernaryOp::Ipow));
}

#[test]
fn sequence_and_mapping_slots() {
    let sequence = PyWeakProxy::as_sequence();
    assert_eq!(sequence, PyWeakCallableProxy::as_sequence());
    assert_eq!(sequence.length, Some(SequenceOp::Length));
    assert_eq!(sequence.contains, Some(SequenceOp::Contains));
    assert_eq!(sequence.concat, None);
    assert_eq!(sequence.repeat, None);
    assert_eq!(sequence.item, None);
    assert_eq!(sequence.ass_item, None);
    assert_eq!(sequence.inplace_concat, None);
    assert_eq!(sequence.inplace_repeat, None);
    let mapping = PyWeakProxy::as_mapping();
    assert_eq!(mapping, PyWeakCallableProxy::as_mapping());
    assert_eq!(mapping.length, Some(MappingOp::Length));
    assert_eq!(mapping.subscript, Some(MappingOp::Subscript));
    assert_eq!(mapping.ass_subscript, Some(MappingOp::AssSubscript));
}

#[test]
fn refused_values_and_arguments_are_dropped() {
    let mut w = world();
    let vm = &mut w.vm;
    let obj = vm.new_object(w.thing, Payload::Other);
    let p = callable(vm, obj);
    vm.release(obj);
    let name = PyStrRef { object: p.object };
    let x = vm.new_object(w.thing, Payload::Other);
    let set = PySetterValue::Assign(x);
    assert!(PyWeakCallableProxy::setattro(&p, name, set, vm).is_err());
    assert_eq!(vm.get(x), None);
    let y = vm.new_object(w.thing, Payload::Other);
    assert!(PyWeakCallableProxy::mapping_ass_subscript(p.object, p.object, Some(y), vm).is_err());
    assert_eq!(vm.get(y), None);
    let a = vm.new_object(w.thing, Payload::Other);
    let b = vm.new_object(w.thing, Payload::Other);
    let args = FuncArgs { args: vec![a], kwargs: vec![("k".to_string(), b)] };
    assert_eq!(args.refs(), vec![a, b]);
    assert!(PyWeakCallableProxy::call(&p, args, vm).is_err());
    assert_eq!((vm.get(a), vm.get(b)), (None, None));
    assert!(PyWeakCallableProxy::iter(p, vm).is_err());
    assert_eq!(vm.get(p.object), None);
    assert!(vm.host.log.is_empty());
}

#[test]
fn operations_give_back_what_they_hold() {
    let mut w = world();
    let vm = &mut w.vm;
    let a = vm.new_object(w.counter, Payload::Other);
    let p = plain(vm, a).object;
    let q = callable(vm, a).object;
    let seen = proxy_ternary_op(p, q, a, vm, |vm: &mut Vm, x, y, z| {
        assert_eq!((x, y, z), (a, a, a));
        assert_eq!(strong(vm, a), 3);
        Ok(x)
    });
    assert_eq!(seen, Ok(a));
    assert_eq!(strong(vm, a), 1);
    let seen = proxy_unary_op(a, vm, |vm: &mut Vm, x| {
        assert_eq!(strong(vm, x), 2);
        Ok(x)
    });
    assert_eq!(seen, Ok(a));
    let proxy = vm.downcast_weak_proxy(p).unwrap();
    assert!(PyWeakProxy::cmp(&proxy, q, PyComparisonOp::Eq, vm).is_ok());
    assert!(PyWeakProxy::next(&proxy, vm).is_ok());
    assert_eq!(strong(vm, a), 1);
    // The last reference may go while the operation runs; the referent dies when
    // it is over.
    let seen = proxy_unary_op(p, vm, |vm: &mut Vm, x| {
        vm.release(a);
        assert!(vm.get(x).is_some());
        Ok(x)
    });
    assert_eq!(seen, Ok(a));
    assert_eq!(vm.get(a), None);
}

#[test]
fn proxies_cannot_be_hashed() {
    let mut w = world();
    let vm = &mut w.vm;
    let obj = vm.new_object(w.thing, Payload::Other);
    let p = plain(vm, obj);
    let q = callable(vm, obj);
    let class = vm.ctx.exceptions.type_error;
    let e = PyBaseException { class, msg: "unhashable type: 'weakproxy'".to_string() };
    let f = PyBaseException { class, msg: "unhashable type: 'weakcallableproxy'".to_string() };
    assert_eq!(PyWeakProxy::hash(&p, vm).unwrap_err(), e);
    assert_eq!(PyWeakCallableProxy::hash(&q, vm).unwrap_err(), f);
    vm.release(obj);
    assert_eq!(PyWeakProxy::hash(&p, vm).unwrap_err(), e);
    assert_eq!(PyWeakProxy::run_slot(p, SlotCall::Hash, vm).unwrap().unwrap_err(), e);
    assert_eq!(PyWeakCallableProxy::run_slot(q, SlotCall::Hash, vm).unwrap().unwrap_err(), f);
    assert!(vm.host.log.is_empty());
}

#[test]
fn slot_tables_run_the_functions_they_name() {
    let mut w = world();
    let vm = &mut w.vm;
    let obj = vm.new_object(w.thing, Payload::Other);
    let p = plain(vm, obj);
    let q = callable(vm, obj);
    let methods = PyWeakProxy::as_number();
    let truth = NumberCall::Convert(methods.boolean.unwrap(), p.object);
    assert_eq!(PyWeakProxy::number_slot(truth, vm), Ok(NumberValue::Truth(true)));
    let int = NumberCall::Convert(methods.int.unwrap(), p.object);
    assert_eq!(PyWeakProxy::number_slot(int, vm), Ok(NumberValue::Object(obj)));
    let float = NumberCall::Convert(methods.float.unwrap(), p.object);
    assert_eq!(PyWeakProxy::number_slot(float, vm), Ok(NumberValue::Object(obj)));
    let index = NumberCall::Convert(methods.index.unwrap(), p.object);
    assert_eq!(PyWeakProxy::number_slot(index, vm), Ok(NumberValue::Object(obj)));
    let negative = NumberCall::Unary(methods.negative.unwrap(), p.object);
    assert_eq!(PyWeakProxy::number_slot(negative, vm), Ok(NumberValue::Object(obj)));
    let subtract = NumberCall::Binary(methods.subtract.unwrap(), p.object, q.object);
    assert_eq!(PyWeakProxy::number_slot(subtract, vm), Ok(NumberValue::Object(obj)));
    let power = NumberCall::Ternary(methods.power.unwrap(), p.object, q.object, obj);
    assert_eq!(PyWeakCallableProxy::number_slot(power, vm), Ok(NumberValue::Object(obj)));
    assert_eq!(
        PyWeakProxy::sequence_slot(p.object, SequenceCall::Length, vm),
        Ok(SequenceValue::Length(7))
    );
    assert_eq!(
        PyWeakCallableProxy::sequence_slot(q.object, SequenceCall::Contains(obj), vm),
        Ok(SequenceValue::Contains(true))
    );
    assert_eq!(
        PyWeakProxy::mapping_slot(p.object, MappingCall::Length, vm),
        Ok(MappingValue::Length(7))
    );
    assert_eq!(
        PyWeakCallableProxy::mapping_slot(q.object, MappingCall::Subscript(obj), vm),
        Ok(MappingValue::Item(obj))
    );
    assert_eq!(
        PyWeakProxy::mapping_slot(p.object, MappingCall::AssSubscript(obj, None), vm),
        Ok(MappingValue::Done)
    );
    assert_eq!(
        vm.host.log,
        vec![
            "is_true 0",
            "try_int 0",
            "try_float 0",
            "try_index 0",
            "Neg 0",
            "Sub 0 0",
            "Pow 0 0 0",
            "length 0",
            "contains 0 0",
            "length 0",
            "get_item 0 0",
            "del_item 0 0",
        ]
    );
}

#[test]
fn class_slots_run_what_init_gave_them() {
    let mut w = world();
    let vm = &mut w.vm;
    let obj = vm.new_object(w.counter, Payload::Other);
    let p = plain(vm, obj);
    let q = callable(vm, obj);
    let name = PyStrRef { object: obj };
    let run = |call: SlotCall, vm: &mut Vm| PyWeakProxy::run_slot(p, call, vm);
    assert_eq!(run(SlotCall::GetAttr(name), vm), Some(Ok(SlotValue::Object(obj))));
    let delete = SlotCall::SetAttr(name, PySetterValue::Delete);
    assert_eq!(run(delete, vm), Some(Ok(SlotValue::Done)));
    let compare = SlotCall::RichCompare(q.object, PyComparisonOp::Eq);
    let equal = SlotValue::Compared(PyComparisonValue::Implemented(true));
    assert_eq!(run(compare, vm), Some(Ok(equal)));
    assert_eq!(run(SlotCall::Call(no_args()), vm), None);
    let length = SlotCall::Sequence(SequenceCall::Length);
    assert_eq!(run(length, vm), Some(Ok(SlotValue::Sequence(SequenceValue::Length(7)))));
    let length = SlotCall::Mapping(MappingCall::Length);
    assert_eq!(run(length, vm), Some(Ok(SlotValue::Mapping(MappingValue::Length(7)))));
    let invert = SlotCall::Number(NumberCall::Unary(UnaryOp::Invert, p.object));
    assert_eq!(run(invert, vm), Some(Ok(SlotValue::Number(NumberValue::Object(obj)))));
    let text = "<weakproxy at 0x1; to 'Counter' at 0x0>".to_string();
    assert_eq!(run(SlotCall::Repr, vm), Some(Ok(SlotValue::Text(text))));
    vm.clone_ref(p.object);
    assert_eq!(run(SlotCall::Iter, vm), Some(Ok(SlotValue::Object(obj))));
    let item = SlotValue::Next(PyIterReturn::Return(obj));
    assert_eq!(run(SlotCall::IterNext, vm), Some(Ok(item)));
    assert_eq!(run(SlotCall::Str, vm), Some(Ok(SlotValue::Str(name))));
    assert_eq!(run(SlotCall::Bytes, vm), Some(Ok(SlotValue::Object(obj))));
    assert_eq!(run(SlotCall::Reversed, vm), Some(Ok(SlotValue::Object(obj))));
    assert_eq!(
        PyWeakCallableProxy::run_slot(q, SlotCall::Call(no_args()), vm),
        Some(Ok(SlotValue::Object(obj)))
    );
    assert_eq!(vm.host.log.last().unwrap(), "call 0 with 0");
}

#[test]
fn classes_without_slots_run_nothing() {
    let mut ctx = Context::new();
    let thing = add_class(&mut ctx, "Thing", true, false);
    let mut vm = VirtualMachine::new(ctx, NoProtocol);
    let obj = vm.new_object(thing, Payload::Other);
    vm.clone_ref(obj);
    let payload = PyWeakProxy::new(obj, None, &mut vm).unwrap();
    let class = PyWeakProxy::class(&vm.ctx);
    let object = vm.new_object(class, Payload::WeakProxy(payload));
    let p = Py { object, payload };
    assert_eq!(PyWeakProxy::run_slot(p, SlotCall::Str, &mut vm), None);
    init(&mut vm.ctx);
    let error = PyWeakProxy::run_slot(p, SlotCall::Str, &mut vm).unwrap().unwrap_err();
    assert_eq!(error.msg, "unsupported operation");
}

#[test]
fn representations_tell_living_proxies_apart() {
    let mut w = world();
    let vm = &mut w.vm;
    let obj = vm.new_object(w.thing, Payload::Other);
    let p = plain(vm, obj);
    let before = PyWeakProxy::repr_str(&p, vm).unwrap();
    let q = plain(vm, obj);
    let r = callable(vm, obj);
    assert_eq!(before, "<weakproxy at 0x1; to 'Thing' at 0x0>");
    assert_eq!(PyWeakProxy::repr_str(&p, vm).unwrap(), before);
    assert_eq!(PyWeakProxy::repr_str(&q, vm).unwrap(), "<weakproxy at 0x2; to 'Thing' at 0x0>");
    assert_eq!(
        PyWeakCallableProxy::repr_str(&r, vm).unwrap(),
        "<weakproxy at 0x3; to 'Thing' at 0x0>"
    );
}

/// A weak proxy to `referent` with a callback, whose reference goes into it.
fn plain_with(vm: &mut Vm, referent: PyObjectRef, callback: PyObjectRef) -> Py<PyWeakProxy> {
    vm.clone_ref(referent);
    let payload = PyWeakProxy::new(referent, Some(callback), vm).unwrap();
    let class = PyWeakProxy::class(&vm.ctx);
    let object = vm.new_object(class, Payload::WeakProxy(payload));
    Py { object, payload }
}

#[test]
fn dying_proxy_drops_its_callback() {
    let mut w = world();
    let vm = &mut w.vm;
    let obj = vm.new_object(w.thing, Payload::Other);
    let callback = vm.new_object(w.thing, Payload::Other);
    let p = plain_with(vm, obj, callback);
    assert_eq!(strong(vm, callback), 1);
    vm.clone_ref(p.object);
    vm.release(p.object);
    assert!(vm.get(callback).is_some());
    vm.release(p.object);
    assert_eq!(vm.get(p.object), None);
    assert_eq!(vm.get(callback), None);
    assert_eq!(strong(vm, obj), 1);
}

#[test]
fn callback_with_another_reference_outlives_its_proxy() {
    let mut w = world();
    let vm = &mut w.vm;
    let obj = vm.new_object(w.thing, Payload::Other);
    let callback = vm.new_object(w.thing, Payload::Other);
    vm.clone_ref(callback);
    let p = plain_with(vm, obj, callback);
    assert_eq!(strong(vm, callback), 2);
    vm.release(p.object);
    assert_eq!(strong(vm, callback), 1);
    assert!(vm.get(callback).is_some());
}

#[test]
fn callbacks_go_down_the_line() {
    let mut w = world();
    let vm = &mut w.vm;
    let obj = vm.new_object(w.thing, Payload::Other);
    let last = vm.new_object(w.thing, Payload::Other);
    let watcher = plain(vm, last);
    let inner = plain_with(vm, obj, last);
    let payload = {
        vm.clone_ref(obj);
        PyWeakCallableProxy::new(obj, Some(inner.object), vm).unwrap()
    };
    let class = PyWeakCallableProxy::class(&vm.ctx);
    let outer = vm.new_object(class, Payload::WeakCallableProxy(payload));
    assert_eq!(Payload::WeakCallableProxy(payload).callback(), Some(inner.object));
    assert_eq!(Payload::Other.callback(), None);
    vm.release(outer);
    assert_eq!((vm.get(outer), vm.get(inner.object), vm.get(last)), (None, None, None));
    assert_eq!(target(vm, watcher.payload.weak).unwrap_err(), dead_error(vm));
    assert!(vm.get(obj).is_some());
}

#[test]
fn iteration_with_the_last_reference_drops_the_callback() {
    let mut w = world();
    let vm = &mut w.vm;
    let obj = vm.new_object(w.counter, Payload::Other);
    let callback = vm.new_object(w.thing, Payload::Other);
    let p = plain_with(vm, obj, callback);
    assert_eq!(PyWeakProxy::iter(p, vm), Ok(obj));
    assert_eq!((vm.get(p.object), vm.get(callback)), (None, None));
    assert_eq!(strong(vm, obj), 1);
}

#[test]
fn upgraded_reference_can_be_handed_on() {
    let mut w = world();
    let vm = &mut w.vm;
    let obj = vm.new_object(w.thing, Payload::Other);
    let p = plain(vm, obj);
    let upgraded = p.payload.try_upgrade(vm).unwrap();
    assert_eq!(strong(vm, obj), 2);
    vm.hand_on(upgraded);
    assert_eq!(strong(vm, obj), 2);
    let q = PyWeakProxy::new(upgraded, None, vm).unwrap();
    assert_eq!(strong(vm, obj), 1);
    assert_eq!(target(vm, q.weak), Ok(obj));
}

#[test]
fn interpreters_of_a_process_share_the_weak_subclass() {
    let mut w = world();
    let obj = w.vm.new_object(w.thing, Payload::Other);
    w.vm.clone_ref(obj);
    let first = make_weak_ref(obj, None, &mut w.vm).unwrap();
    let count = w.vm.ctx.classes.len();
    let (mut other, host) = w.vm.switch(NoProtocol);
    assert!(host.log.is_empty());
    other.clone_ref(obj);
    let second = make_weak_ref(obj, None, &mut other).unwrap();
    assert_eq!(second.typ, first.typ);
    assert_eq!(other.ctx.classes.len(), count);
    assert_eq!(second.peek(&other), Some(obj));
    let (mut back, _) = other.switch(host);
    assert_eq!(target(&mut back, first), Ok(obj));
}

#[test]
fn operations_may_change_the_class_of_an_object() {
    let mut w = world();
    let (thing, counter) = (w.thing, w.counter);
    let vm = &mut w.vm;
    let obj = vm.new_object(thing, Payload::Other);
    let p = plain(vm, obj);
    assert!(PyWeakProxy::next(&p, vm).is_err());
    let done = proxy_unary_op(p.object, vm, |vm: &mut Vm, x| {
        vm.objects[x.id] = Some(PyObject { class: counter, payload: Payload::Other });
        Ok(x)
    });
    assert_eq!(done, Ok(obj));
    assert!(PyWeakProxy::next(&p, vm).is_ok());
    assert_eq!(
        PyWeakProxy::repr_str(&p, vm).unwrap(),
        "<weakproxy at 0x1; to 'Counter' at 0x0>"
    );
}

#[test]
fn classes_inherit_weak_references_from_their_base() {
    let mut ctx = Context::new();
    let base = ctx.new_base_class(Some("m".to_string()), "Base", PyTypeSlots::empty(), true);
    let sub = ctx.new_class(None, "Sub", base, PyTypeSlots::empty());
    assert_eq!(ctx.classes[base.index].module, Some("m".to_string()));
    assert_eq!(ctx.classes[base.index].base, None);
    assert!(ctx.classes[sub.index].has_weakref);
    assert_eq!(ctx.classes[sub.index].base, Some(base));
    let mut vm = VirtualMachine::new(ctx, NoProtocol);
    let obj = vm.new_object(sub, Payload::Other);
    vm.clone_ref(obj);
    assert_eq!(make_weak_ref(obj, None, &mut vm).unwrap().referent, obj);
}
