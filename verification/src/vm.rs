//! The part of the interpreter's state that weak proxies work with: the classes,
//! the objects, and the strong references that keep them alive.

use vstd::multiset::Multiset;
use vstd::prelude::*;

use crate::object::{
    ExceptionView, Py, PyBaseException, PyIter, PyObjectRef, PyResult, PyTypeRef, PyWeak, outcome,
};
use crate::weakcallableproxy::PyWeakCallableProxy;
use crate::weakproxy::PyWeakProxy;

verus! {

/// What the instances of a class support.
#[derive(Clone, Copy, Debug, PartialEq, Eq, Structural)]
pub struct PyTypeSlots {
    pub getattro: bool,
    pub setattro: bool,
    pub new: bool,
    pub richcompare: bool,
    pub call: bool,
    pub as_number: bool,
    pub as_sequence: bool,
    pub as_mapping: bool,
    pub repr: bool,
    pub iter: bool,
    pub iternext: bool,
    pub str_method: bool,
    pub bytes_method: bool,
    pub reversed_method: bool,
    pub unhashable: bool,
}

impl PyTypeSlots {
    /// No slot at all.
    pub open spec fn spec_empty() -> PyTypeSlots {
        PyTypeSlots {
            getattro: false,
            setattro: false,
            new: false,
            richcompare: false,
            call: false,
            as_number: false,
            as_sequence: false,
            as_mapping: false,
            repr: false,
            iter: false,
            iternext: false,
            str_method: false,
            bytes_method: false,
            reversed_method: false,
            unhashable: false,
        }
    }

    /// No slot at all.
    pub fn empty() -> (slots: PyTypeSlots)
        ensures
            slots == Self::spec_empty(),
    {
        PyTypeSlots {
            getattro: false,
            setattro: false,
            new: false,
            richcompare: false,
            call: false,
            as_number: false,
            as_sequence: false,
            as_mapping: false,
            repr: false,
            iter: false,
            iternext: false,
            str_method: false,
            bytes_method: false,
            reversed_method: false,
            unhashable: false,
        }
    }

    /// What either of the two has.
    pub open spec fn union(self, other: PyTypeSlots) -> PyTypeSlots {
        PyTypeSlots {
            getattro: self.getattro || other.getattro,
            setattro: self.setattro || other.setattro,
            new: self.new || other.new,
            richcompare: self.richcompare || other.richcompare,
            call: self.call || other.call,
            as_number: self.as_number || other.as_number,
            as_sequence: self.as_sequence || other.as_sequence,
            as_mapping: self.as_mapping || other.as_mapping,
            repr: self.repr || other.repr,
            iter: self.iter || other.iter,
            iternext: self.iternext || other.iternext,
            str_method: self.str_method || other.str_method,
            bytes_method: self.bytes_method || other.bytes_method,
            reversed_method: self.reversed_method || other.reversed_method,
            unhashable: self.unhashable || other.unhashable,
        }
    }

    /// Adds what `other` has.
    fn extended(self, other: PyTypeSlots) -> (slots: PyTypeSlots)
        ensures
            slots == self.union(other),
    {
        PyTypeSlots {
            getattro: self.getattro || other.getattro,
            setattro: self.setattro || other.setattro,
            new: self.new || other.new,
            richcompare: self.richcompare || other.richcompare,
            call: self.call || other.call,
            as_number: self.as_number || other.as_number,
            as_sequence: self.as_sequence || other.as_sequence,
            as_mapping: self.as_mapping || other.as_mapping,
            repr: self.repr || other.repr,
            iter: self.iter || other.iter,
            iternext: self.iternext || other.iternext,
            str_method: self.str_method || other.str_method,
            bytes_method: self.bytes_method || other.bytes_method,
            reversed_method: self.reversed_method || other.reversed_method,
            unhashable: self.unhashable || other.unhashable,
        }
    }
}

/// A class.
#[derive(Debug, PartialEq, Eq)]
pub struct PyType {
    pub module: Option<String>,
    pub name: String,
    pub base: Option<PyTypeRef>,
    pub slots: PyTypeSlots,
    /// Whether weak references to the instances can be made.
    pub has_weakref: bool,
}

/// The classes that belong to weak references.
#[derive(Clone, Copy, Debug, PartialEq, Eq, Structural)]
pub struct TypeZoo {
    pub weakref_type: PyTypeRef,
    pub weakproxy_type: PyTypeRef,
    pub weakcallableproxy_type: PyTypeRef,
}

/// The exception classes that are raised here.
#[derive(Clone, Copy, Debug, PartialEq, Eq, Structural)]
pub struct ExceptionZoo {
    pub reference_error: PyTypeRef,
    pub type_error: PyTypeRef,
}

/// The classes of a process. All its interpreters have them in common, so a
/// process makes one context.
#[derive(Debug, PartialEq, Eq)]
pub struct Context {
    pub classes: Vec<PyType>,
    pub types: TypeZoo,
    pub exceptions: ExceptionZoo,
    /// The class of the weak references inside proxies, once it has been made. As
    /// there is one context, all interpreters of a process share it.
    pub weak_subclass: Option<PyTypeRef>,
}

impl Context {
    /// `class` is one of the classes.
    pub open spec fn has_class(self, class: PyTypeRef) -> bool {
        class.index < self.classes@.len()
    }

    /// The class behind a handle.
    pub open spec fn class(self, class: PyTypeRef) -> PyType {
        self.classes@[class.index as int]
    }

    /// `class` is fit to be the class of the weak references inside proxies: a
    /// direct subclass of the weak reference type, in no module.
    pub open spec fn is_weak_subclass(self, class: PyTypeRef) -> bool {
        &&& self.has_class(class)
        &&& self.class(class).module is None
        &&& self.class(class).name@ == "__weakproxy"@
        &&& self.class(class).base == Some(self.types.weakref_type)
    }

    /// The named classes exist, the two proxy classes are different ones, and
    /// the class kept for the weak references inside proxies is fit for them.
    pub open spec fn wf(self) -> bool {
        &&& self.has_class(self.types.weakref_type)
        &&& self.has_class(self.types.weakproxy_type)
        &&& self.has_class(self.types.weakcallableproxy_type)
        &&& self.has_class(self.exceptions.reference_error)
        &&& self.has_class(self.exceptions.type_error)
        &&& self.types.weakproxy_type != self.types.weakcallableproxy_type
        &&& self.weak_subclass matches Some(class) ==> self.is_weak_subclass(class)
    }

    /// `self` came about from `pre`: no class was taken away, the named classes
    /// are the same ones, and so is the class of the weak references inside
    /// proxies, once it was made.
    pub open spec fn evolved_from(self, pre: Context) -> bool {
        &&& pre.classes@.len() <= self.classes@.len()
        &&& self.types == pre.types
        &&& self.exceptions == pre.exceptions
        &&& pre.weak_subclass is Some ==> self.weak_subclass == pre.weak_subclass
    }

    /// `self` is `pre` with one more class, the last one; nothing else differs.
    pub open spec fn adds_class(self, pre: Context) -> bool {
        &&& self.classes@.len() == pre.classes@.len() + 1
        &&& self.classes@ == pre.classes@.push(self.classes@.last())
        &&& self.types == pre.types
        &&& self.exceptions == pre.exceptions
        &&& self.weak_subclass == pre.weak_subclass
    }

    /// `self` is `pre` with the slots of `class` replaced by `slots`; nothing
    /// else differs.
    pub open spec fn sets_slots(
        self,
        pre: Context,
        class: PyTypeRef,
        slots: PyTypeSlots,
    ) -> bool {
        &&& self.classes@ == pre.classes@.update(
            class.index as int,
            PyType { slots, ..pre.class(class) },
        )
        &&& self.types == pre.types
        &&& self.exceptions == pre.exceptions
        &&& self.weak_subclass == pre.weak_subclass
    }

    /// The built-in classes that are needed here, before the proxy classes have
    /// got their slots.
    pub fn new() -> (ctx: Context)
        ensures
            ctx.wf(),
            ctx.classes@.len() == 5,
            ctx.types.weakref_type.index == 0,
            ctx.types.weakproxy_type.index == 1,
            ctx.types.weakcallableproxy_type.index == 2,
            ctx.exceptions.reference_error.index == 3,
            ctx.exceptions.type_error.index == 4,
            ctx.classes@[0].name@ == "weakref"@,
            ctx.classes@[1].name@ == "weakproxy"@,
            ctx.classes@[2].name@ == "weakcallableproxy"@,
            ctx.classes@[3].name@ == "ReferenceError"@,
            ctx.classes@[4].name@ == "TypeError"@,
            ctx.classes@[0].slots == PyWeak::spec_make_slots(),
            forall|i: int|
                1 <= i < 5 ==> (#[trigger] ctx.classes@[i]).slots == PyTypeSlots::spec_empty(),
            forall|i: int|
                0 <= i < 5 ==> {
                    &&& (#[trigger] ctx.classes@[i]).module is None
                    &&& ctx.classes@[i].base is None
                    &&& !ctx.classes@[i].has_weakref
                },
            ctx.weak_subclass is None,
    {
        let mut classes: Vec<PyType> = Vec::new();
        classes.push(
            PyType {
                module: None,
                name: "weakref".to_owned(),
                base: None,
                slots: PyWeak::make_slots(),
                has_weakref: false,
            },
        );
        classes.push(builtin_class("weakproxy"));
        classes.push(builtin_class("weakcallableproxy"));
        classes.push(builtin_class("ReferenceError"));
        classes.push(builtin_class("TypeError"));
        Context {
            classes,
            types: TypeZoo {
                weakref_type: PyTypeRef { index: 0 },
                weakproxy_type: PyTypeRef { index: 1 },
                weakcallableproxy_type: PyTypeRef { index: 2 },
            },
            exceptions: ExceptionZoo {
                reference_error: PyTypeRef { index: 3 },
                type_error: PyTypeRef { index: 4 },
            },
            weak_subclass: None,
        }
    }

    /// Makes a class without a base, with the given slots. Weak references to its
    /// instances can be made if `has_weakref` says so.
    pub fn new_base_class(
        &mut self,
        module: Option<String>,
        name: &str,
        slots: PyTypeSlots,
        has_weakref: bool,
    ) -> (class: PyTypeRef)
        ensures
            final(self).adds_class(*old(self)),
            class.index == old(self).classes@.len(),
            final(self).class(class).module == module,
            final(self).class(class).name@ == name@,
            final(self).class(class).base is None,
            final(self).class(class).slots == slots,
            final(self).class(class).has_weakref == has_weakref,
            old(self).wf() ==> final(self).wf(),
    {
        let index: usize = self.classes.len();
        self.classes.push(PyType { module, name: name.to_owned(), base: None, slots, has_weakref });
        PyTypeRef { index }
    }

    /// Makes a class with the given slots. Weak references to its instances can
    /// be made when they can be made to those of its base.
    pub fn new_class(
        &mut self,
        module: Option<String>,
        name: &str,
        base: PyTypeRef,
        slots: PyTypeSlots,
    ) -> (class: PyTypeRef)
        requires
            old(self).has_class(base),
        ensures
            final(self).adds_class(*old(self)),
            class.index == old(self).classes@.len(),
            final(self).class(class).module == module,
            final(self).class(class).name@ == name@,
            final(self).class(class).base == Some(base),
            final(self).class(class).slots == slots,
            final(self).class(class).has_weakref == old(self).class(base).has_weakref,
            old(self).wf() ==> final(self).wf(),
    {
        let index: usize = self.classes.len();
        let has_weakref = self.classes[base.index].has_weakref;
        self.classes.push(
            PyType { module, name: name.to_owned(), base: Some(base), slots, has_weakref },
        );
        PyTypeRef { index }
    }

    /// Gives a class slots beyond those that it has.
    pub fn extend_class(&mut self, class: PyTypeRef, slots: PyTypeSlots)
        requires
            old(self).has_class(class),
        ensures
            final(self).sets_slots(
                *old(self),
                class,
                old(self).class(class).slots.union(slots),
            ),
            old(self).wf() ==> final(self).wf(),
    {
        let extended = self.classes[class.index].slots.extended(slots);
        self.classes[class.index].slots = extended;
    }
}

/// A class without a base, without slots and without weak references.
fn builtin_class(name: &str) -> (class: PyType)
    ensures
        class.module is None,
        class.name@ == name@,
        class.base is None,
        class.slots == PyTypeSlots::spec_empty(),
        !class.has_weakref,
{
    PyType {
        module: None,
        name: name.to_owned(),
        base: None,
        slots: PyTypeSlots::empty(),
        has_weakref: false,
    }
}

/// What an object is made of, as far as proxies tell objects apart. What else an
/// object refers to is not followed.
#[derive(Clone, Copy, Debug, PartialEq, Eq, Structural)]
pub enum Payload {
    WeakProxy(PyWeakProxy),
    WeakCallableProxy(PyWeakCallableProxy),
    Other,
}

impl Payload {
    /// The object to which a strong reference belongs to this payload: the callback
    /// of a proxy.
    pub open spec fn spec_callback(self) -> Option<PyObjectRef> {
        match self {
            Payload::WeakProxy(proxy) => proxy.weak.callback,
            Payload::WeakCallableProxy(proxy) => proxy.weak.callback,
            Payload::Other => None,
        }
    }

    /// The object to which a strong reference belongs to this payload: the callback
    /// of a proxy.
    pub fn callback(self) -> (callback: Option<PyObjectRef>)
        ensures
            callback == self.spec_callback(),
    {
        match self {
            Payload::WeakProxy(proxy) => proxy.weak.callback,
            Payload::WeakCallableProxy(proxy) => proxy.weak.callback,
            Payload::Other => None,
        }
    }
}

/// A living object.
#[derive(Clone, Copy, Debug, PartialEq, Eq, Structural)]
pub struct PyObject {
    pub class: PyTypeRef,
    pub payload: Payload,
}

/// An interpreter: the classes and the objects, which it has in common with the
/// other interpreters of the process, and whatever else the object protocols of
/// the type `P` work with. One interpreter runs at a time; the next one gets the
/// classes and objects by [`VirtualMachine::switch`].
///
/// The entry of `objects` at a handle's number is the object, or `None` once
/// the object is dead. `strong` has one entry for each strong reference that
/// there is; an object dies with the last of them. A handle is no more than a
/// number: where a function takes over the strong reference that goes with it,
/// its contract asks that there be one to give away.
///
/// The strong reference to the callback of a proxy belongs to the proxy. `held`
/// tells which of the others belong to operations on proxies and to those who
/// upgraded a weak reference; it is there for the proofs alone.
pub struct VirtualMachine<P> {
    pub ctx: Context,
    pub objects: Vec<Option<PyObject>>,
    pub strong: Vec<PyObjectRef>,
    pub held: Ghost<Multiset<PyObjectRef>>,
    pub host: P,
}

/// The state of an interpreter as a mathematical value.
#[verifier::ext_equal]
pub struct VmState<P> {
    pub ctx: Context,
    pub objects: Seq<Option<PyObject>>,
    pub strong: Multiset<PyObjectRef>,
    pub held: Multiset<PyObjectRef>,
    pub host: P,
}

impl<P> View for VirtualMachine<P> {
    type V = VmState<P>;

    open spec fn view(&self) -> VmState<P> {
        VmState {
            ctx: self.ctx,
            objects: self.objects@,
            strong: self.strong@.to_multiset(),
            held: self.held@,
            host: self.host,
        }
    }
}

/// The callback that an entry of the list of objects has a strong reference to.
pub open spec fn entry_callback(entry: Option<PyObject>) -> Option<PyObjectRef> {
    match entry {
        Some(object) => object.payload.spec_callback(),
        None => None,
    }
}

/// `refs` with one more reference, where there is one.
pub open spec fn with_opt(
    refs: Multiset<PyObjectRef>,
    obj: Option<PyObjectRef>,
) -> Multiset<PyObjectRef> {
    match obj {
        Some(obj) => refs.insert(obj),
        None => refs,
    }
}

/// The strong references that belong to living proxies: one to the callback of
/// each of them that has one.
pub open spec fn callbacks(objects: Seq<Option<PyObject>>) -> Multiset<PyObjectRef>
    decreases objects.len(),
{
    if objects.len() == 0 {
        Multiset::empty()
    } else {
        with_opt(callbacks(objects.drop_last()), entry_callback(objects.last()))
    }
}

/// An object that dies takes the reference to its callback with it.
proof fn lemma_callbacks_of_death(objects: Seq<Option<PyObject>>, i: int)
    requires
        0 <= i < objects.len(),
    ensures
        callbacks(objects) == with_opt(
            callbacks(objects.update(i, None)),
            entry_callback(objects[i]),
        ),
    decreases objects.len(),
{
    let post = objects.update(i, None);
    if i == objects.len() - 1 {
        assert(post.drop_last() =~= objects.drop_last());
    } else {
        lemma_callbacks_of_death(objects.drop_last(), i);
        assert(post.drop_last() =~= objects.drop_last().update(i, None));
    }
    assert(callbacks(objects) =~= with_opt(callbacks(post), entry_callback(objects[i])));
}

/// A new object brings the reference to its callback.
proof fn lemma_callbacks_of_birth(objects: Seq<Option<PyObject>>, entry: Option<PyObject>)
    ensures
        callbacks(objects.push(entry)) == with_opt(callbacks(objects), entry_callback(entry)),
{
    assert(objects.push(entry).drop_last() =~= objects);
}

impl<P> VmState<P> {
    /// The object behind a handle, while it lives.
    pub open spec fn object(self, obj: PyObjectRef) -> Option<PyObject> {
        if obj.id < self.objects.len() {
            self.objects[obj.id as int]
        } else {
            None
        }
    }

    /// The object behind the handle lives.
    pub open spec fn is_live(self, obj: PyObjectRef) -> bool {
        self.object(obj) is Some
    }

    /// The callback that a living object has a strong reference to. Only proxies have
    /// one.
    pub open spec fn callback_of(self, obj: PyObjectRef) -> Option<PyObjectRef> {
        entry_callback(self.object(obj))
    }

    /// The class of a living object.
    pub open spec fn class_of(self, obj: PyObjectRef) -> PyType {
        self.ctx.class(self.object(obj)->0.class)
    }

    /// A living object can be used as an iterator.
    pub open spec fn is_iterator(self, obj: PyObjectRef) -> bool {
        self.class_of(obj).slots.iternext
    }

    /// How many of the strong references to the object are neither held nor the
    /// callback of a living proxy.
    pub open spec fn free(self, obj: PyObjectRef) -> int {
        self.strong.count(obj) - self.held.count(obj) - callbacks(self.objects).count(obj)
    }

    /// The classes are well formed, every living object is of one of them, the
    /// living objects are those with a strong reference, and the references that
    /// are held or belong to proxies are different ones among the strong ones.
    pub open spec fn wf(self) -> bool {
        &&& self.ctx.wf()
        &&& forall|obj: PyObjectRef| #[trigger]
            self.object(obj) matches Some(object) ==> self.ctx.has_class(object.class)
        &&& forall|obj: PyObjectRef| #[trigger]
            self.is_live(obj) <==> self.strong.count(obj) > 0
        &&& forall|obj: PyObjectRef| #[trigger] self.free(obj) >= 0
    }

    /// There is a strong reference to the object that may be given away or
    /// dropped: one that is not held and belongs to no proxy.
    pub open spec fn owns(self, obj: PyObjectRef) -> bool {
        self.free(obj) > 0
    }

    /// The state came about from `pre`: each object is what it was, though perhaps
    /// of another class, or has died. None has come back to life, and none has
    /// become another object.
    pub open spec fn evolved_from(self, pre: Self) -> bool {
        &&& self.ctx.evolved_from(pre.ctx)
        &&& pre.objects.len() <= self.objects.len()
        &&& forall|obj: PyObjectRef|
            obj.id < pre.objects.len() ==> (#[trigger] self.object(obj) matches Some(now) ==> {
                &&& pre.object(obj) matches Some(was)
                &&& now.payload == was.payload
            })
    }

    /// The state came about from `pre`, is well formed, and has the same
    /// references held.
    pub open spec fn kept_from(self, pre: Self) -> bool {
        &&& self.wf()
        &&& self.held == pre.held
        &&& self.evolved_from(pre)
    }

    /// The state with one more strong reference to `obj`.
    pub open spec fn retained(self, obj: PyObjectRef) -> Self {
        VmState { strong: self.strong.insert(obj), ..self }
    }

    /// The state with one strong reference to `obj` less, and without the object
    /// where that was the last one.
    pub open spec fn dropped(self, obj: PyObjectRef) -> Self {
        VmState {
            strong: self.strong.remove(obj),
            objects: if self.strong.count(obj) <= 1 {
                self.objects.update(obj.id as int, None)
            } else {
                self.objects
            },
            ..self
        }
    }

    /// The callback whose strong reference goes with the last one to `obj`, if there
    /// is only that one left to `obj`.
    pub open spec fn orphaned(self, obj: PyObjectRef) -> Option<PyObjectRef> {
        if self.strong.count(obj) <= 1 {
            self.callback_of(obj)
        } else {
            None
        }
    }

    /// The state in which a strong reference to `obj` has been dropped. With the
    /// last one the object dies. A proxy that dies drops the strong reference to its
    /// callback in turn.
    ///
    /// This is all that a death does here. The callbacks of the weak references to
    /// the dead object are not called, no finalizer runs, and an object that is no
    /// proxy has no references to drop: these are matters of the interpreter around.
    pub open spec fn released(self, obj: PyObjectRef) -> Self
        decreases self.strong.len(),
        via Self::released_decreases
    {
        if self.strong.count(obj) == 0 {
            self
        } else {
            match self.orphaned(obj) {
                Some(callback) => self.dropped(obj).released(callback),
                None => self.dropped(obj),
            }
        }
    }

    #[via_fn]
    proof fn released_decreases(self, obj: PyObjectRef) {
        if self.strong.count(obj) > 0 {
            self.lemma_fewer_references(obj);
        }
    }

    /// `other` dies when a strong reference to `obj` is dropped: it is `obj` itself,
    /// or the callback of a proxy that dies, and has lost its last reference.
    pub open spec fn dies_with(self, obj: PyObjectRef, other: PyObjectRef) -> bool
        decreases self.strong.len(),
        via Self::dies_with_decreases
    {
        &&& self.strong.count(obj) == 1
        &&& other == obj || (self.orphaned(obj) matches Some(callback) && self.dropped(
            obj,
        ).dies_with(callback, other))
    }

    #[via_fn]
    proof fn dies_with_decreases(self, obj: PyObjectRef, other: PyObjectRef) {
        if self.strong.count(obj) > 0 {
            self.lemma_fewer_references(obj);
        }
    }

    /// Dropping a reference leaves fewer of them.
    proof fn lemma_fewer_references(self, obj: PyObjectRef)
        requires
            self.strong.count(obj) > 0,
        ensures
            self.dropped(obj).strong.len() < self.strong.len(),
    {
        let one = Multiset::singleton(obj);
        assert(one.subset_of(self.strong));
        assert(self.strong.remove(obj).len() == self.strong.len() - 1);
    }

    /// The state in which one more of the strong references to `obj` is held.
    pub open spec fn adopted(self, obj: PyObjectRef) -> Self {
        VmState { held: self.held.insert(obj), ..self }
    }

    /// The state with one more strong reference to `obj`, which is held.
    pub open spec fn took(self, obj: PyObjectRef) -> Self {
        self.retained(obj).adopted(obj)
    }

    /// The state in which one of the references to `obj` is no longer held; it is
    /// there to be given away.
    pub open spec fn handed_on(self, obj: PyObjectRef) -> Self {
        VmState { held: self.held.remove(obj), ..self }
    }

    /// The state in which a reference to `obj` that was held has been dropped.
    pub open spec fn gave_back(self, obj: PyObjectRef) -> Self {
        self.handed_on(obj).released(obj)
    }

    /// [`VmState::took`], where there is an object.
    pub open spec fn took_opt(self, obj: Option<PyObjectRef>) -> Self {
        match obj {
            Some(obj) => self.took(obj),
            None => self,
        }
    }

    /// [`VmState::gave_back`], where there is an object.
    pub open spec fn gave_back_opt(self, obj: Option<PyObjectRef>) -> Self {
        match obj {
            Some(obj) => self.gave_back(obj),
            None => self,
        }
    }

    /// [`VmState::owns`], where there is an object.
    pub open spec fn owns_opt(self, obj: Option<PyObjectRef>) -> bool {
        obj matches Some(obj) ==> self.owns(obj)
    }

    /// [`VmState::released`], where there is an object.
    pub open spec fn released_opt(self, obj: Option<PyObjectRef>) -> Self {
        match obj {
            Some(obj) => self.released(obj),
            None => self,
        }
    }

    /// There is a strong reference to give away for each entry of `refs`.
    pub open spec fn owns_all(self, refs: Seq<PyObjectRef>) -> bool {
        forall|obj: PyObjectRef| #[trigger] refs.to_multiset().count(obj) <= self.free(obj)
    }

    /// The state in which the strong references of `refs` have been dropped, the
    /// first one first.
    pub open spec fn released_all(self, refs: Seq<PyObjectRef>) -> Self
        decreases refs.len(),
    {
        if refs.len() == 0 {
            self
        } else {
            self.released_all(refs.drop_last()).released(refs.last())
        }
    }

    /// The payload of a living weak proxy.
    pub open spec fn weak_proxy(self, obj: PyObjectRef) -> Option<Py<PyWeakProxy>> {
        match self.object(obj) {
            Some(PyObject { payload: Payload::WeakProxy(payload), .. }) => Some(
                Py { object: obj, payload },
            ),
            _ => None,
        }
    }

    /// The payload of a living weak callable proxy.
    pub open spec fn weak_callable_proxy(self, obj: PyObjectRef) -> Option<
        Py<PyWeakCallableProxy>,
    > {
        match self.object(obj) {
            Some(PyObject { payload: Payload::WeakCallableProxy(payload), .. }) => Some(
                Py { object: obj, payload },
            ),
            _ => None,
        }
    }

    /// What a new weak reference of the class `typ` to `referent` is, or the
    /// exception that is raised for a class without weak references.
    pub open spec fn downgraded(
        self,
        referent: PyObjectRef,
        callback: Option<PyObjectRef>,
        typ: PyTypeRef,
    ) -> Result<PyWeak, ExceptionView> {
        if self.class_of(referent).has_weakref {
            Ok(PyWeak { referent, callback, typ })
        } else {
            Err(
                ExceptionView {
                    class: self.ctx.exceptions.type_error,
                    msg: "cannot create weak reference to '"@ + self.class_of(referent).name@
                        + "' object"@,
                },
            )
        }
    }

    /// What dropping a reference does to the objects and to the strong references
    /// rests on nothing else, and nothing else changes.
    pub proof fn lemma_released_frame(self, other: Self, obj: PyObjectRef)
        requires
            self.objects == other.objects,
            self.strong == other.strong,
        ensures
            self.released(obj) == (VmState {
                objects: other.released(obj).objects,
                strong: other.released(obj).strong,
                ..self
            }),
        decreases self.strong.len(),
    {
        if self.strong.count(obj) > 0 {
            self.lemma_fewer_references(obj);
            assert(self.orphaned(obj) == other.orphaned(obj));
            if let Some(callback) = self.orphaned(obj) {
                self.dropped(obj).lemma_released_frame(other.dropped(obj), callback);
            }
        }
    }

    /// A state with the objects of a well-formed one is well formed if the same
    /// objects have strong references, and enough of them.
    proof fn lemma_same_objects(self, pre: Self)
        requires
            pre.wf(),
            self.ctx == pre.ctx,
            self.objects == pre.objects,
            forall|obj: PyObjectRef| #[trigger]
                self.strong.count(obj) > 0 <==> pre.strong.count(obj) > 0,
            forall|obj: PyObjectRef| #[trigger] self.free(obj) >= 0,
        ensures
            self.wf(),
            self.evolved_from(pre),
    {
        assert forall|obj: PyObjectRef| #[trigger] self.object(obj) == pre.object(obj) by {}
        assert forall|obj: PyObjectRef| #[trigger] self.is_live(obj) <==> self.strong.count(obj)
            > 0 by {
            assert(pre.is_live(obj) <==> pre.strong.count(obj) > 0);
        }
    }

    /// A strong reference more leaves the state well formed.
    pub proof fn lemma_took(self, obj: PyObjectRef)
        requires
            self.wf(),
            self.is_live(obj),
        ensures
            self.took(obj).wf(),
            self.took(obj).evolved_from(self),
            self.took(obj).gave_back(obj) == self,
            forall|other: PyObjectRef| #[trigger]
                self.took(obj).object(other) == self.object(other),
            forall|other: PyObjectRef| #[trigger] self.took(obj).free(other) == self.free(other),
    {
        let post = self.took(obj);
        assert(self.is_live(obj) <==> self.strong.count(obj) > 0);
        assert forall|other: PyObjectRef| #[trigger] post.free(other) == self.free(other) by {}
        assert forall|other: PyObjectRef| #[trigger] post.free(other) >= 0 by {
            assert(self.free(other) >= 0);
        }
        post.lemma_same_objects(self);
        assert(post.handed_on(obj).orphaned(obj) is None);
        assert(post.gave_back(obj).strong =~= self.strong);
        assert(post.gave_back(obj).held =~= self.held);
    }

    /// One step of dropping a reference: the reference goes, and with the last one
    /// the object. The reference to its callback is then free.
    pub proof fn lemma_dropped(self, obj: PyObjectRef)
        requires
            self.wf(),
            self.owns(obj),
        ensures
            self.strong.count(obj) > 0,
            self.dropped(obj).wf(),
            self.dropped(obj).evolved_from(self),
            self.dropped(obj).strong.len() < self.strong.len(),
            forall|other: PyObjectRef| #[trigger]
                self.dropped(obj).free(other) == self.free(other) - (if other == obj {
                    1int
                } else {
                    0
                }) + (if self.orphaned(obj) == Some(other) {
                    1int
                } else {
                    0
                }),
            forall|other: PyObjectRef| #[trigger]
                self.dropped(obj).object(other) == if other == obj && self.strong.count(obj) == 1 {
                    None
                } else {
                    self.object(other)
                },
    {
        let post = self.dropped(obj);
        self.lemma_fewer_references(obj);
        assert(self.is_live(obj) <==> self.strong.count(obj) > 0);
        if self.strong.count(obj) == 1 {
            lemma_callbacks_of_death(self.objects, obj.id as int);
        }
        assert forall|other: PyObjectRef| #[trigger] post.object(other) == if other == obj
            && self.strong.count(obj) == 1 {
            None
        } else {
            self.object(other)
        } by {
            if other != obj {
                assert(other.id != obj.id);
            }
        }
        assert forall|other: PyObjectRef| #[trigger] post.free(other) == self.free(other) - (
        if other == obj {
            1int
        } else {
            0
        }) + (if self.orphaned(obj) == Some(other) {
            1int
        } else {
            0
        }) by {}
        assert forall|other: PyObjectRef| #[trigger] post.free(other) >= 0 by {
            assert(self.free(other) >= 0);
        }
        assert forall|other: PyObjectRef| #[trigger] post.object(other) matches Some(object) implies
            post.ctx.has_class(post.object(other)->0.class) by {
            assert(post.object(other) == self.object(other));
        }
        assert forall|other: PyObjectRef| #[trigger] post.is_live(other) <==> post.strong.count(
            other,
        ) > 0 by {
            assert(self.is_live(other) <==> self.strong.count(other) > 0);
            assert(post.object(other) == post.object(other));
        }
    }

    /// A living object has a strong reference to its callback that may not be given
    /// away.
    pub proof fn lemma_owned_callback(self, obj: PyObjectRef, callback: PyObjectRef)
        requires
            self.wf(),
            self.callback_of(obj) == Some(callback),
        ensures
            self.strong.count(callback) > 0,
            self.owns(callback) ==> self.strong.count(callback) > 1,
    {
        lemma_callbacks_of_death(self.objects, obj.id as int);
        assert(self.free(callback) >= 0);
    }

    /// Dropping a reference leaves the state well formed. It uses up the one free
    /// reference and no other, and kills exactly the objects of
    /// [`VmState::dies_with`].
    pub proof fn lemma_released(self, obj: PyObjectRef)
        requires
            self.wf(),
            self.owns(obj),
        ensures
            self.released(obj).kept_from(self),
            self.released(obj).ctx == self.ctx,
            self.released(obj).host == self.host,
            forall|other: PyObjectRef| #[trigger]
                self.released(obj).free(other) == self.free(other) - (if other == obj {
                    1int
                } else {
                    0
                }),
            forall|other: PyObjectRef| #[trigger]
                self.released(obj).object(other) == if self.dies_with(obj, other) {
                    None
                } else {
                    self.object(other)
                },
        decreases self.strong.len(),
    {
        self.lemma_dropped(obj);
        let mid = self.dropped(obj);
        let post = self.released(obj);
        match self.orphaned(obj) {
            Some(callback) => {
                mid.lemma_released(callback);
                crate::laws::law_evolution_is_a_preorder(self, mid, post);
                assert forall|other: PyObjectRef| #[trigger] post.free(other) == self.free(other)
                    - (if other == obj {
                    1int
                } else {
                    0
                }) by {
                    assert(mid.free(other) >= 0);
                }
                assert forall|other: PyObjectRef| #[trigger]
                    post.object(other) == if self.dies_with(obj, other) {
                        None
                    } else {
                        self.object(other)
                    } by {
                    assert(mid.object(other) == if other == obj {
                        None
                    } else {
                        self.object(other)
                    });
                }
            },
            None => {},
        }
    }

    /// A reference that is no longer held leaves the state well formed.
    pub proof fn lemma_handed_on(self, obj: PyObjectRef)
        requires
            self.wf(),
            self.held.count(obj) > 0,
        ensures
            self.handed_on(obj).wf(),
            self.handed_on(obj).evolved_from(self),
            self.handed_on(obj).owns(obj),
            self.handed_on(obj).adopted(obj) == self,
            forall|other: PyObjectRef| #[trigger]
                self.handed_on(obj).object(other) == self.object(other),
    {
        let post = self.handed_on(obj);
        assert(self.free(obj) >= 0);
        assert forall|other: PyObjectRef| #[trigger] post.free(other) >= 0 by {
            assert(self.free(other) >= 0);
        }
        post.lemma_same_objects(self);
        assert(post.adopted(obj).held =~= self.held);
    }

    /// Giving a reference back leaves the state well formed.
    pub proof fn lemma_gave_back(self, obj: PyObjectRef)
        requires
            self.wf(),
            self.held.count(obj) > 0,
        ensures
            self.gave_back(obj).wf(),
            self.gave_back(obj).evolved_from(self),
            self.gave_back(obj).held == self.held.remove(obj),
            forall|other: PyObjectRef| #[trigger]
                self.gave_back(obj).free(other) == self.free(other),
    {
        let mid = self.handed_on(obj);
        self.lemma_handed_on(obj);
        mid.lemma_released(obj);
        crate::laws::law_evolution_is_a_preorder(self, mid, self.gave_back(obj));
        assert forall|other: PyObjectRef| #[trigger] self.gave_back(obj).free(other) == self.free(
            other,
        ) by {
            assert(mid.free(other) >= 0);
        }
    }

    /// A reference that changes hands leaves the state well formed.
    pub proof fn lemma_adopted(self, obj: PyObjectRef)
        requires
            self.wf(),
            self.owns(obj),
        ensures
            self.adopted(obj).wf(),
            self.adopted(obj).evolved_from(self),
            self.adopted(obj).handed_on(obj) == self,
            self.adopted(obj).gave_back(obj) == self.released(obj),
            forall|other: PyObjectRef| #[trigger]
                self.adopted(obj).object(other) == self.object(other),
    {
        let post = self.adopted(obj);
        assert forall|other: PyObjectRef| #[trigger] post.free(other) >= 0 by {
            assert(self.free(other) >= 0);
        }
        post.lemma_same_objects(self);
        assert(post.handed_on(obj).held =~= self.held);
        assert(post.handed_on(obj) == self);
    }

    /// It is all one whether `obj` was held while another reference was dropped.
    pub proof fn lemma_released_while_held(self, other: Option<PyObjectRef>, obj: PyObjectRef)
        requires
            self.wf(),
            self.owns(obj),
            self.adopted(obj).owns_opt(other),
        ensures
            self.adopted(obj).released_opt(other).gave_back(obj) == self.released_opt(
                other,
            ).released(obj),
    {
        self.lemma_adopted(obj);
        if let Some(other) = other {
            self.lemma_released(other);
            self.adopted(obj).lemma_released_frame(self, other);
            assert(self.adopted(obj).released(other).handed_on(obj).held =~= self.held);
            assert(self.adopted(obj).released(other).handed_on(obj) == self.released(other));
        }
    }
}

impl<P> VirtualMachine<P> {
    /// An interpreter without objects.
    pub fn new(ctx: Context, host: P) -> (vm: Self)
        requires
            ctx.wf(),
        ensures
            vm@.wf(),
            vm@.ctx == ctx,
            vm@.objects.len() == 0,
            vm@.strong == Multiset::<PyObjectRef>::empty(),
            vm@.held == Multiset::<PyObjectRef>::empty(),
            vm@.host == host,
    {
        broadcast use vstd::seq_lib::group_to_multiset_ensures;

        let vm = VirtualMachine {
            ctx,
            objects: Vec::new(),
            strong: Vec::new(),
            held: Ghost(Multiset::empty()),
            host,
        };
        assert(vm@.strong =~= Multiset::<PyObjectRef>::empty());
        vm
    }

    /// Lets another interpreter of the process go on: it has the same classes and
    /// objects, and works with `host`. What the first one worked with is given back.
    pub fn switch<Q>(self, host: Q) -> (res: (VirtualMachine<Q>, P))
        requires
            self@.wf(),
        ensures
            res.0@ == (VmState {
                ctx: self@.ctx,
                objects: self@.objects,
                strong: self@.strong,
                held: self@.held,
                host,
            }),
            res.0@.wf(),
            res.1 == self@.host,
    {
        let vm = VirtualMachine {
            ctx: self.ctx,
            objects: self.objects,
            strong: self.strong,
            held: self.held,
            host,
        };
        proof {
            let pre = self@;
            let post = vm@;
            assert forall|obj: PyObjectRef| #[trigger] post.object(obj) == pre.object(obj) by {}
            assert forall|obj: PyObjectRef| #[trigger] post.is_live(obj) <==> post.strong.count(obj)
                > 0 by {
                assert(pre.is_live(obj) <==> pre.strong.count(obj) > 0);
            }
            assert forall|obj: PyObjectRef| #[trigger] post.free(obj) >= 0 by {
                assert(pre.free(obj) >= 0);
            }
        }
        (vm, self.host)
    }

    /// Looks an object up.
    pub fn get(&self, obj: PyObjectRef) -> (object: Option<PyObject>)
        ensures
            object == self@.object(obj),
    {
        if obj.id < self.objects.len() {
            self.objects[obj.id]
        } else {
            None
        }
    }

    /// Makes an object. The caller gets the one strong reference to it. The strong
    /// reference to the callback of a proxy goes into the object.
    pub fn new_object(&mut self, class: PyTypeRef, payload: Payload) -> (obj: PyObjectRef)
        requires
            old(self)@.wf(),
            old(self)@.ctx.has_class(class),
            old(self)@.owns_opt(payload.spec_callback()),
        ensures
            obj.id == old(self)@.objects.len(),
            final(self)@ == (VmState {
                objects: old(self)@.objects.push(Some(PyObject { class, payload })),
                strong: old(self)@.strong.insert(obj),
                ..old(self)@
            }),
            final(self)@.kept_from(old(self)@),
            final(self)@.object(obj) == Some(PyObject { class, payload }),
            final(self)@.owns(obj),
            forall|other: PyObjectRef| #[trigger]
                final(self)@.free(other) == old(self)@.free(other) + (if other == obj {
                    1int
                } else {
                    0
                }) - (if payload.spec_callback() == Some(other) {
                    1int
                } else {
                    0
                }),
    {
        broadcast use vstd::seq_lib::group_to_multiset_ensures;

        let obj = PyObjectRef { id: self.objects.len() };
        self.objects.push(Some(PyObject { class, payload }));
        self.strong.push(obj);
        proof {
            let pre = old(self)@;
            let post = self@;
            lemma_callbacks_of_birth(pre.objects, Some(PyObject { class, payload }));
            assert(!pre.is_live(obj));
            assert(pre.strong.count(obj) == 0);
            assert(pre.free(obj) >= 0);
            assert forall|other: PyObjectRef| #[trigger] post.free(other) == pre.free(other) + (
            if other == obj {
                1int
            } else {
                0
            }) - (if payload.spec_callback() == Some(other) {
                1int
            } else {
                0
            }) by {}
            assert forall|other: PyObjectRef| #[trigger] post.free(other) >= 0 by {
                assert(pre.free(other) >= 0);
            }
            assert forall|other: PyObjectRef| other != obj implies #[trigger] post.object(other)
                == pre.object(other) by {
                assert(other.id != obj.id);
            }
            assert forall|other: PyObjectRef| #[trigger]
                post.object(other) matches Some(object) implies post.ctx.has_class(
                post.object(other)->0.class,
            ) by {
                if other != obj {
                    assert(post.object(other) == pre.object(other));
                }
            }
            assert forall|other: PyObjectRef| #[trigger]
                post.is_live(other) <==> post.strong.count(other) > 0 by {
                if other != obj {
                    assert(post.object(other) == pre.object(other));
                    assert(pre.is_live(other) <==> pre.strong.count(other) > 0);
                }
            }
        }
        obj
    }

    /// Makes one more strong reference to a living object.
    pub fn clone_ref(&mut self, obj: PyObjectRef)
        requires
            old(self)@.wf(),
            old(self)@.is_live(obj),
        ensures
            final(self)@ == old(self)@.retained(obj),
            final(self)@.kept_from(old(self)@),
            final(self)@.owns(obj),
    {
        broadcast use vstd::seq_lib::group_to_multiset_ensures;

        self.strong.push(obj);
        proof {
            let pre = old(self)@;
            let post = self@;
            assert(post == pre.retained(obj));
            assert(pre.is_live(obj) <==> pre.strong.count(obj) > 0);
            assert(pre.free(obj) >= 0);
            assert forall|other: PyObjectRef| #[trigger] post.free(other) >= 0 by {
                assert(pre.free(other) >= 0);
            }
            post.lemma_same_objects(pre);
        }
    }

    /// The place of a strong reference to `obj`, if there is one.
    fn position(&self, obj: PyObjectRef) -> (place: Option<usize>)
        ensures
            match place {
                Some(i) => i < self.strong@.len() && self.strong@[i as int] == obj,
                None => !self.strong@.contains(obj),
            },
    {
        let mut i: usize = 0;
        while i < self.strong.len()
            invariant
                i <= self.strong@.len(),
                forall|j: int| 0 <= j < i ==> self.strong@[j] != obj,
            decreases self.strong@.len() - i,
        {
            if self.strong[i] == obj {
                return Some(i);
            }
            i = i + 1;
        }
        None
    }

    /// Takes one strong reference away, and the object with the last one. Gives the
    /// callback of a proxy that dies.
    fn drop_one(&mut self, obj: PyObjectRef) -> (callback: Option<PyObjectRef>)
        requires
            old(self)@.wf(),
            old(self)@.strong.count(obj) > 0,
        ensures
            final(self)@ == old(self)@.dropped(obj),
            callback == old(self)@.orphaned(obj),
    {
        broadcast use vstd::seq_lib::group_to_multiset_ensures;

        assert(old(self)@.is_live(obj));
        assert(self.strong@.contains(obj));
        let place = self.position(obj).unwrap();
        self.strong.remove(place);
        let last = self.position(obj).is_none();
        assert(self.strong@.to_multiset() =~= old(self)@.strong.remove(obj));
        assert(last <==> self.strong@.to_multiset().count(obj) == 0) by {
            assert(self.strong@.contains(obj) <==> self.strong@.to_multiset().count(obj) > 0);
        }
        if last {
            let object = self.objects[obj.id].unwrap();
            self.objects.set(obj.id, None);
            object.payload.callback()
        } else {
            None
        }
    }

    /// Drops a strong reference. The object dies with the last one, and weak
    /// references to it do not stand in the way. A proxy that dies drops its callback
    /// in turn.
    ///
    /// Nothing else is done for a death: no callback is called, and what an object
    /// that is no proxy refers to is left to the caller.
    pub fn release(&mut self, obj: PyObjectRef)
        requires
            old(self)@.wf(),
            old(self)@.owns(obj),
        ensures
            final(self)@ == old(self)@.released(obj),
            final(self)@.kept_from(old(self)@),
            forall|other: PyObjectRef| #[trigger]
                final(self)@.free(other) == old(self)@.free(other) - (if other == obj {
                    1int
                } else {
                    0
                }),
    {
        proof {
            self@.lemma_released(obj);
        }
        let mut next = Some(obj);
        while next.is_some()
            invariant
                next matches Some(current) ==> {
                    &&& self@.wf()
                    &&& self@.owns(current)
                    &&& old(self)@.released(obj) == self@.released(current)
                },
                next is None ==> self@ == old(self)@.released(obj),
            decreases self@.strong.len() + (if next is Some {
                1int
            } else {
                0
            }),
        {
            let current = next.unwrap();
            proof {
                self@.lemma_dropped(current);
            }
            next = self.drop_one(current);
        }
    }

    /// Drops a strong reference, where there is one to drop.
    pub fn release_opt(&mut self, obj: Option<PyObjectRef>)
        requires
            old(self)@.wf(),
            old(self)@.owns_opt(obj),
        ensures
            final(self)@ == old(self)@.released_opt(obj),
            final(self)@.kept_from(old(self)@),
    {
        if let Some(obj) = obj {
            self.release(obj);
        }
    }

    /// Drops the strong references of `refs`.
    pub fn release_all(&mut self, refs: &Vec<PyObjectRef>)
        requires
            old(self)@.wf(),
            old(self)@.owns_all(refs@),
        ensures
            final(self)@ == old(self)@.released_all(refs@),
            final(self)@.kept_from(old(self)@),
    {
        broadcast use vstd::seq_lib::group_to_multiset_ensures;

        assert(refs@.skip(0) =~= refs@);
        assert(refs@.take(0) =~= Seq::<PyObjectRef>::empty());
        let mut i: usize = 0;
        while i < refs.len()
            invariant
                i <= refs@.len(),
                self@ == old(self)@.released_all(refs@.take(i as int)),
                self@.kept_from(old(self)@),
                self@.owns_all(refs@.skip(i as int)),
            decreases refs@.len() - i,
        {
            broadcast use vstd::seq_lib::group_to_multiset_ensures;

            let obj = refs[i];
            let ghost pre = self@;
            let ghost rest = refs@.skip(i as int);
            proof {
                assert(rest[0] == obj);
                assert(rest.contains(obj));
                assert(0 < rest.to_multiset().count(obj) <= pre.free(obj));
                assert(rest.remove(0) =~= refs@.skip(i + 1));
                assert(rest.remove(0).to_multiset() =~= rest.to_multiset().remove(obj));
                assert(refs@.take(i + 1).drop_last() =~= refs@.take(i as int));
            }
            self.release(obj);
            proof {
                assert forall|other: PyObjectRef| #[trigger]
                    refs@.skip(i + 1).to_multiset().count(other) <= self@.free(other) by {
                    assert(rest.to_multiset().count(other) <= pre.free(other));
                }
                crate::laws::law_evolution_is_a_preorder(old(self)@, pre, self@);
            }
            i = i + 1;
        }
        assert(refs@.take(i as int) =~= refs@);
    }

    /// Takes a strong reference to a living object and holds it.
    pub fn take(&mut self, obj: PyObjectRef)
        requires
            old(self)@.wf(),
            old(self)@.is_live(obj),
        ensures
            final(self)@ == old(self)@.took(obj),
            final(self)@.wf(),
            final(self)@.evolved_from(old(self)@),
    {
        broadcast use vstd::seq_lib::group_to_multiset_ensures;

        proof {
            self@.lemma_took(obj);
        }
        self.strong.push(obj);
        let ghost held = self.held@.insert(obj);
        self.held = Ghost(held);
    }

    /// Holds a strong reference that is there already.
    pub fn adopt(&mut self, obj: PyObjectRef)
        requires
            old(self)@.wf(),
            old(self)@.owns(obj),
        ensures
            final(self)@ == old(self)@.adopted(obj),
            final(self)@.wf(),
            final(self)@.evolved_from(old(self)@),
    {
        proof {
            self@.lemma_adopted(obj);
        }
        let ghost held = self.held@.insert(obj);
        self.held = Ghost(held);
    }

    /// Holds a strong reference no longer, so that it can be given away.
    pub fn hand_on(&mut self, obj: PyObjectRef)
        requires
            old(self)@.wf(),
            old(self)@.held.count(obj) > 0,
        ensures
            final(self)@ == old(self)@.handed_on(obj),
            final(self)@.wf(),
            final(self)@.evolved_from(old(self)@),
            final(self)@.owns(obj),
    {
        proof {
            self@.lemma_handed_on(obj);
        }
        let ghost held = self.held@.remove(obj);
        self.held = Ghost(held);
    }

    /// Drops a strong reference that was held.
    pub fn give_back(&mut self, obj: PyObjectRef)
        requires
            old(self)@.wf(),
            old(self)@.held.count(obj) > 0,
        ensures
            final(self)@ == old(self)@.gave_back(obj),
            final(self)@.wf(),
            final(self)@.evolved_from(old(self)@),
    {
        proof {
            self@.lemma_gave_back(obj);
        }
        self.hand_on(obj);
        self.release(obj);
    }

    /// Drops a strong reference that was held, where there is one to drop.
    pub fn give_back_opt(&mut self, obj: Option<PyObjectRef>)
        requires
            old(self)@.wf(),
            obj matches Some(obj) ==> old(self)@.held.count(obj) > 0,
        ensures
            final(self)@ == old(self)@.gave_back_opt(obj),
            final(self)@.wf(),
            final(self)@.evolved_from(old(self)@),
    {
        if let Some(obj) = obj {
            self.give_back(obj);
        }
    }

    /// The name of the class of a living object.
    pub fn class_name(&self, obj: PyObjectRef) -> (name: &str)
        requires
            self@.wf(),
            self@.is_live(obj),
        ensures
            name@ == self@.class_of(obj).name@,
    {
        let object = self.get(obj).unwrap();
        self.ctx.classes[object.class.index].name.as_str()
    }

    /// The payload of a living weak proxy.
    pub fn downcast_weak_proxy(&self, obj: PyObjectRef) -> (proxy: Option<Py<PyWeakProxy>>)
        ensures
            proxy == self@.weak_proxy(obj),
    {
        match self.get(obj) {
            Some(PyObject { payload: Payload::WeakProxy(payload), .. }) => Some(
                Py { object: obj, payload },
            ),
            _ => None,
        }
    }

    /// The payload of a living weak callable proxy.
    pub fn downcast_weak_callable_proxy(&self, obj: PyObjectRef) -> (proxy: Option<
        Py<PyWeakCallableProxy>,
    >)
        ensures
            proxy == self@.weak_callable_proxy(obj),
    {
        match self.get(obj) {
            Some(PyObject { payload: Payload::WeakCallableProxy(payload), .. }) => Some(
                Py { object: obj, payload },
            ),
            _ => None,
        }
    }

    /// An exception of the given class with the given message.
    pub fn new_exception_msg(&self, class: PyTypeRef, msg: String) -> (exception: PyBaseException)
        ensures
            exception@ == (ExceptionView { class, msg: msg@ }),
    {
        PyBaseException { class, msg }
    }

    /// A `TypeError` with the given message.
    pub fn new_type_error(&self, msg: String) -> (exception: PyBaseException)
        ensures
            exception@ == (ExceptionView { class: self@.ctx.exceptions.type_error, msg: msg@ }),
    {
        self.new_exception_msg(self.ctx.exceptions.type_error, msg)
    }

    /// Makes a weak reference of the class `typ` to a living object. The strong
    /// reference to `callback` goes into it; where there can be none, it is
    /// dropped.
    pub fn downgrade_with_typ(
        &mut self,
        referent: PyObjectRef,
        callback: Option<PyObjectRef>,
        typ: PyTypeRef,
    ) -> (res: PyResult<PyWeak>)
        requires
            old(self)@.wf(),
            old(self)@.is_live(referent),
            old(self)@.owns_opt(callback),
        ensures
            outcome(res) == old(self)@.downgraded(referent, callback, typ),
            final(self)@ == (if res is Ok {
                old(self)@
            } else {
                old(self)@.released_opt(callback)
            }),
            final(self)@.kept_from(old(self)@),
    {
        let object = self.get(referent).unwrap();
        if self.ctx.classes[object.class.index].has_weakref {
            Ok(PyWeak { referent, callback, typ })
        } else {
            let msg = "cannot create weak reference to '".to_owned().concat(
                self.class_name(referent),
            ).concat("' object");
            self.release_opt(callback);
            Err(self.new_type_error(msg))
        }
    }
}

impl PyWeak {
    /// The referent, while it lives.
    pub open spec fn upgraded<P>(self, state: VmState<P>) -> Option<PyObjectRef> {
        if state.is_live(self.referent) {
            Some(self.referent)
        } else {
            None
        }
    }

    /// The slots of a class of weak references.
    pub open spec fn spec_make_slots() -> PyTypeSlots {
        PyTypeSlots {
            new: true,
            richcompare: true,
            call: true,
            repr: true,
            ..PyTypeSlots::spec_empty()
        }
    }

    /// The slots of a class of weak references.
    pub fn make_slots() -> (slots: PyTypeSlots)
        ensures
            slots == Self::spec_make_slots(),
    {
        PyTypeSlots { new: true, richcompare: true, call: true, repr: true, ..PyTypeSlots::empty() }
    }

    /// The referent while it lives, without a reference to it.
    pub fn peek<P>(&self, vm: &VirtualMachine<P>) -> (referent: Option<PyObjectRef>)
        ensures
            referent == self.upgraded(vm@),
    {
        match vm.get(self.referent) {
            Some(_) => Some(self.referent),
            None => None,
        }
    }

    /// The referent while it lives, with a strong reference to it, which is held
    /// until it is given back.
    pub fn upgrade<P>(&self, vm: &mut VirtualMachine<P>) -> (referent: Option<PyObjectRef>)
        requires
            old(vm)@.wf(),
        ensures
            referent == self.upgraded(old(vm)@),
            final(vm)@ == old(vm)@.took_opt(referent),
            final(vm)@.wf(),
            final(vm)@.evolved_from(old(vm)@),
    {
        let referent = self.peek(vm);
        if let Some(obj) = referent {
            vm.take(obj);
        }
        referent
    }
}

impl PyIter {
    /// Whether a living object can be used as an iterator.
    pub fn check<P>(obj: PyObjectRef, vm: &VirtualMachine<P>) -> (is_iterator: bool)
        requires
            vm@.wf(),
            vm@.is_live(obj),
        ensures
            is_iterator == vm@.is_iterator(obj),
    {
        let object = vm.get(obj).unwrap();
        vm.ctx.classes[object.class.index].slots.iternext
    }

    /// The object, used as an iterator.
    pub fn new(object: PyObjectRef) -> (iter: PyIter)
        ensures
            iter == (PyIter { object }),
    {
        PyIter { object }
    }
}

} // verus!
