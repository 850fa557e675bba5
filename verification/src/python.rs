//! The interpreter's state as the binding layer sees it, and the lock token.
//!
//! An [`Interp`] is an interpreter whose global lock this thread may or may not hold.
//! A [`Python`] is the proof that the lock is held: it takes the interpreter in and hands it
//! back on release, so no object can be reached without one.

use crate::objects::object::PyObject;
use vstd::prelude::*;

verus! {

/// The null pointer. Objects live at the addresses `1, 2, ...`.
pub const NULL: usize = 0;

/// The type of an exception.
#[derive(Clone, Copy, Debug, PartialEq, Eq, Structural)]
pub enum ExcType {
    /// Raised by the interpreter when it is asked for an exception and has none.
    SystemError,
    /// A number does not fit where it is put.
    OverflowError,
    /// An object is not of the type asked for and cannot be converted to it.
    TypeError,
    /// An object has the right type and a value that cannot be used.
    ValueError,
    /// A callable was given arguments that do not match its parameters.
    ArgumentError,
    /// Any other exception type of the interpreter, by its number.
    Other(u32),
}

/// What the pending-exception slot holds: a type, and the addresses of the exception
/// instance and of the traceback, each [`NULL`] where there is none.
#[derive(Clone, Copy, Debug, PartialEq, Eq, Structural)]
pub struct ErrState {
    pub ptype: ExcType,
    pub pvalue: usize,
    pub ptraceback: usize,
}

/// What an object is, as far as the binding layer reads it.
#[derive(Debug)]
pub enum Value {
    /// An `int`. Integers beyond 128 bits do not occur here; no accessor of this layer
    /// could tell them from the largest it can hold.
    Long(i128),
    /// A `float`, by the bits of its IEEE 754 double.
    Float(u64),
    /// A `tuple`, by the addresses of its items.
    Tuple(Vec<usize>),
    /// A `dict` with string keys, by its keys and the addresses of their values, in the
    /// order of insertion.
    Dict(Vec<(String, usize)>),
    /// A callable built from a method definition: its name, and whether it takes keyword
    /// arguments.
    Function(String, bool),
    /// Any other object. It is no number and converts to none.
    Opaque,
}

/// One object on the interpreter's heap. An object whose count has reached zero is dead:
/// its address is never given out again.
#[derive(Debug)]
pub struct Object {
    /// The number of references held across the boundary.
    pub refcnt: usize,
    pub value: Value,
}

/// An interpreter.
#[derive(Debug)]
pub struct Interp {
    objects: Vec<Object>,
    pending: Option<ErrState>,
    locked: bool,
}

/// The lock token: while it exists, this thread holds the interpreter's global lock.
///
/// There are two ways to one: [`Python::acquire_gil`], which takes the lock, and
/// [`Python::assume_gil_acquired`], for code that the interpreter has called with the lock
/// held. A token of the second kind does not give the lock up when it is released.
#[derive(Debug)]
pub struct Python {
    pub(crate) objects: Vec<Object>,
    pub(crate) pending: Option<ErrState>,
    pub(crate) owns_lock: bool,
}

/// Whether `ptr` is the address of an object of `heap` that is alive.
pub open spec fn live_in(heap: Seq<Object>, ptr: usize) -> bool {
    1 <= ptr <= heap.len() && heap[ptr - 1].refcnt >= 1
}

/// The heap with one reference more counted for the object at `ptr`.
pub open spec fn increfed(heap: Seq<Object>, ptr: usize) -> Seq<Object>
    recommends
        1 <= ptr <= heap.len(),
{
    heap.update(
        ptr - 1,
        Object { refcnt: (heap[ptr - 1].refcnt + 1) as usize, value: heap[ptr - 1].value },
    )
}

/// The heap with one reference less counted for the object at `ptr`.
pub open spec fn decrefed(heap: Seq<Object>, ptr: usize) -> Seq<Object>
    recommends
        1 <= ptr <= heap.len(),
{
    heap.update(
        ptr - 1,
        Object { refcnt: (heap[ptr - 1].refcnt - 1) as usize, value: heap[ptr - 1].value },
    )
}

/// A handle that counts its own reference and then gives it up leaves every count as it
/// was: what [`PyObject::from_borrowed_ptr`] does to the heap, [`PyObject::release`]
/// undoes.
pub proof fn lemma_borrowed_then_released(heap: Seq<Object>, ptr: usize)
    requires
        1 <= ptr <= heap.len(),
        heap[ptr - 1].refcnt < usize::MAX,
    ensures
        decrefed(increfed(heap, ptr), ptr) == heap,
{
}

/// A handle that took over a counted reference and then gives it up leaves the object
/// with exactly one reference less than it had, and every other object as it was: what
/// [`PyObject::from_owned_ptr`] followed by [`PyObject::release`] does to the heap.
pub proof fn lemma_owned_then_released(heap: Seq<Object>, ptr: usize)
    requires
        1 <= ptr <= heap.len(),
        heap[ptr - 1].refcnt >= 1,
    ensures
        decrefed(heap, ptr).len() == heap.len(),
        decrefed(heap, ptr)[ptr - 1].refcnt == heap[ptr - 1].refcnt - 1,
        decrefed(heap, ptr)[ptr - 1].value == heap[ptr - 1].value,
        forall|q: int| 0 <= q < heap.len() && q != ptr - 1 ==> decrefed(heap, ptr)[q] == heap[q],
{
}

impl Interp {
    /// The heap: the object at address `p` is `heap()[p - 1]`.
    pub closed spec fn heap(&self) -> Seq<Object> {
        self.objects@
    }

    /// The pending-exception slot.
    pub closed spec fn pending(&self) -> Option<ErrState> {
        self.pending
    }

    /// Whether the global lock is held.
    pub closed spec fn locked(&self) -> bool {
        self.locked
    }

    /// A fresh interpreter: no objects, no exception, the lock free.
    pub fn new() -> (interp: Interp)
        ensures
            interp.heap() == Seq::<Object>::empty(),
            interp.pending() is None,
            !interp.locked(),
    {
        Interp { objects: Vec::new(), pending: None, locked: false }
    }

    /// The interpreter takes its own lock, as it does before it calls native code.
    pub fn lock(&mut self)
        requires
            !old(self).locked(),
        ensures
            final(self).locked(),
            final(self).heap() == old(self).heap(),
            final(self).pending() == old(self).pending(),
    {
        self.locked = true;
    }

    /// The interpreter frees the lock that it took with [`Interp::lock`].
    pub fn unlock(&mut self)
        requires
            old(self).locked(),
        ensures
            !final(self).locked(),
            final(self).heap() == old(self).heap(),
            final(self).pending() == old(self).pending(),
    {
        self.locked = false;
    }

    /// Whether the global lock is held.
    pub fn is_locked(&self) -> (b: bool)
        ensures
            b == self.locked(),
    {
        self.locked
    }

    /// Whether an exception is pending.
    pub fn has_pending(&self) -> (b: bool)
        ensures
            b == (self.pending() is Some),
    {
        self.pending.is_some()
    }

    /// The reference count of the object at `ptr`; zero for a dead object.
    pub fn refcnt(&self, ptr: usize) -> (n: usize)
        requires
            1 <= ptr <= self.heap().len(),
        ensures
            n == self.heap()[ptr - 1].refcnt,
    {
        self.objects[ptr - 1].refcnt
    }
}

impl Python {
    /// The heap: the object at address `p` is `heap()[p - 1]`.
    pub open(crate) spec fn heap(&self) -> Seq<Object> {
        self.objects@
    }

    /// The pending-exception slot.
    pub open(crate) spec fn pending(&self) -> Option<ErrState> {
        self.pending
    }

    /// Whether releasing this token frees the lock.
    pub open(crate) spec fn owns_lock(&self) -> bool {
        self.owns_lock
    }

    /// Whether `ptr` is the address of an object, dead or alive.
    pub open spec fn valid(&self, ptr: usize) -> bool {
        1 <= ptr <= self.heap().len()
    }

    /// The object at `ptr`.
    pub open spec fn object(&self, ptr: usize) -> Object
        recommends
            self.valid(ptr),
    {
        self.heap()[ptr - 1]
    }

    /// Whether `ptr` is the address of an object that is alive.
    pub open spec fn live(&self, ptr: usize) -> bool {
        live_in(self.heap(), ptr)
    }

    /// Whether the reference behind `ptr` can be given up: there is none behind [`NULL`].
    pub open spec fn releasable(&self, ptr: usize) -> bool {
        ptr != NULL ==> self.live(ptr)
    }

    /// Whether one more reference to the object at `ptr` can be counted.
    pub open spec fn can_incref(&self, ptr: usize) -> bool {
        self.live(ptr) && self.object(ptr).refcnt < usize::MAX
    }

    /// Takes the global lock. The interpreter must not be locked already: this thread
    /// would wait for itself.
    pub fn acquire_gil(interp: Interp) -> (py: Python)
        requires
            !interp.locked(),
        ensures
            py.heap() == interp.heap(),
            py.pending() == interp.pending(),
            py.owns_lock(),
    {
        Python { objects: interp.objects, pending: interp.pending, owns_lock: true }
    }

    /// Makes a token for a lock that is held already, as it is when the interpreter calls
    /// into this code. The token does not own the lock.
    pub fn assume_gil_acquired(interp: Interp) -> (py: Python)
        requires
            interp.locked(),
        ensures
            py.heap() == interp.heap(),
            py.pending() == interp.pending(),
            !py.owns_lock(),
    {
        Python { objects: interp.objects, pending: interp.pending, owns_lock: false }
    }

    /// Ends the token's scope. The lock is freed if this token took it, and stays held if
    /// it was held before the token was made.
    pub fn release(self) -> (interp: Interp)
        ensures
            interp.heap() == self.heap(),
            interp.pending() == self.pending(),
            interp.locked() == !self.owns_lock(),
    {
        Interp { objects: self.objects, pending: self.pending, locked: !self.owns_lock }
    }

    /// Whether releasing this token frees the lock.
    pub fn is_owner(&self) -> (b: bool)
        ensures
            b == self.owns_lock(),
    {
        self.owns_lock
    }

    /// The number of objects ever made, which is the highest address in use.
    pub fn heap_len(&self) -> (n: usize)
        ensures
            n == self.heap().len(),
    {
        self.objects.len()
    }

    /// The reference count of the object at `ptr`; zero for a dead object.
    pub fn refcnt(&self, ptr: usize) -> (n: usize)
        requires
            self.valid(ptr),
        ensures
            n == self.object(ptr).refcnt,
    {
        self.objects[ptr - 1].refcnt
    }

    /// What the pending-exception slot holds, without taking it.
    pub fn peek_pending(&self) -> (st: Option<ErrState>)
        ensures
            st == self.pending(),
    {
        self.pending
    }

    /// Puts a new object with one reference on the heap and returns its address.
    pub(crate) fn new_object(&mut self, value: Value) -> (ptr: usize)
        ensures
            ptr == old(self).heap().len() + 1,
            final(self).heap() == old(self).heap().push(Object { refcnt: 1, value }),
            final(self).pending() == old(self).pending(),
            final(self).owns_lock() == old(self).owns_lock(),
    {
        self.objects.push(Object { refcnt: 1, value });
        self.objects.len()
    }

    /// Sets the pending exception to one of type `ptype` with no instance yet.
    pub(crate) fn raise(&mut self, ptype: ExcType)
        ensures
            final(self).heap() == old(self).heap(),
            final(self).pending() == Some(ErrState { ptype, pvalue: NULL, ptraceback: NULL }),
            final(self).owns_lock() == old(self).owns_lock(),
    {
        self.pending = Some(ErrState { ptype, pvalue: NULL, ptraceback: NULL });
    }
}

/// A typed view of an object: a handle together with the knowledge of what the object is.
pub trait PythonObject: Sized {
    /// Whether an object with the value `v` may be seen through this view.
    spec fn has_type(v: Value) -> bool;

    /// The address of the object.
    spec fn ptr(&self) -> usize;

    /// The address of the object. The view keeps its reference.
    fn as_ptr(&self) -> (ptr: usize)
        ensures
            ptr == self.ptr(),
            ptr != NULL,
    ;

    /// The handle inside the view.
    fn as_object(&self) -> (obj: &PyObject)
        ensures
            obj.ptr() == self.ptr(),
    ;

    /// The handle inside the view, which ends.
    fn into_object(self) -> (obj: PyObject)
        ensures
            obj.ptr() == self.ptr(),
    ;

    /// Sees `obj` through this view without looking at the object. The caller must know,
    /// from a check made before or from a promise of the interpreter, that the object is
    /// of the view's type.
    fn unchecked_downcast_from(py: &Python, obj: PyObject) -> (view: Self)
        requires
            py.live(obj.ptr()),
            Self::has_type(py.object(obj.ptr()).value),
        ensures
            view.ptr() == obj.ptr(),
    ;
}

/// A typed view whose type the interpreter can check.
pub trait PythonObjectWithCheckedDowncast: PythonObject {
    /// Whether the object behind `obj` is of this view's type.
    fn type_check(py: &Python, obj: &PyObject) -> (b: bool)
        requires
            py.live(obj.ptr()),
        ensures
            b == Self::has_type(py.object(obj.ptr()).value),
    ;

    /// Sees `obj` through this view if the object is of the view's type, and hands the
    /// handle back as it came if it is not. No reference is counted either way.
    fn downcast_from(py: &Python, obj: PyObject) -> (r: Result<Self, PyObject>)
        requires
            py.live(obj.ptr()),
        ensures
            Self::has_type(py.object(obj.ptr()).value) ==> r is Ok && r->Ok_0.ptr() == obj.ptr(),
            !Self::has_type(py.object(obj.ptr()).value) ==> r == Err::<Self, PyObject>(obj),
    ;
}

} // verus!
