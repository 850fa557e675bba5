//! The typed view of `tuple`.

use crate::ffi::tuple_items;
use crate::objects::object::PyObject;
use crate::python::{increfed, Python, PythonObject, PythonObjectWithCheckedDowncast, Value};
use vstd::prelude::*;

verus! {

/// A `tuple` object.
#[derive(Debug)]
pub struct PyTuple(pub(crate) PyObject);

impl PythonObject for PyTuple {
    open spec fn has_type(v: Value) -> bool {
        v is Tuple
    }

    closed spec fn ptr(&self) -> usize {
        self.0.ptr()
    }

    fn as_ptr(&self) -> (ptr: usize) {
        self.0.as_ptr()
    }

    fn as_object(&self) -> (obj: &PyObject) {
        &self.0
    }

    fn into_object(self) -> (obj: PyObject) {
        self.0
    }

    fn unchecked_downcast_from(py: &Python, obj: PyObject) -> (view: PyTuple) {
        PyTuple(obj)
    }
}

impl PythonObjectWithCheckedDowncast for PyTuple {
    fn type_check(py: &Python, obj: &PyObject) -> (b: bool) {
        py.tuple_check(obj.as_ptr())
    }

    fn downcast_from(py: &Python, obj: PyObject) -> (r: Result<PyTuple, PyObject>) {
        if py.tuple_check(obj.as_ptr()) {
            Ok(PyTuple(obj))
        } else {
            Err(obj)
        }
    }
}

/// The addresses behind a sequence of handles.
pub open spec fn ptrs_of(elements: Seq<PyObject>) -> Seq<usize> {
    Seq::new(elements.len(), |i: int| elements[i].ptr())
}

impl PyTuple {
    /// Whether this view is of a `tuple` that is alive in `py`.
    pub open spec fn wf(&self, py: &Python) -> bool {
        py.live(self.ptr()) && py.object(self.ptr()).value is Tuple
    }

    /// A new `tuple` of the objects behind `elements`, in their order.
    pub fn new(py: &mut Python, elements: &Vec<PyObject>) -> (t: PyTuple)
        ensures
            t.ptr() == old(py).heap().len() + 1,
            final(py).heap().len() == old(py).heap().len() + 1,
            final(py).heap().drop_last() == old(py).heap(),
            final(py).heap().last().refcnt == 1,
            final(py).heap().last().value is Tuple,
            tuple_items(final(py).heap().last().value) == ptrs_of(elements@),
            final(py).pending() == old(py).pending(),
            final(py).owns_lock() == old(py).owns_lock(),
    {
        let mut items: Vec<usize> = Vec::new();
        let mut i: usize = 0;
        while i < elements.len()
            invariant
                i <= elements.len(),
                items.len() == i,
                forall|k: int| 0 <= k < i ==> items[k] == elements[k].ptr(),
            decreases elements.len() - i,
        {
            items.push(elements[i].as_ptr());
            i = i + 1;
        }
        let ptr = py.tuple_pack(items);
        PyTuple(PyObject::from_owned_ptr(py, ptr))
    }

    /// The number of items.
    pub fn len(&self, py: &Python) -> (n: usize)
        requires
            self.wf(py),
        ensures
            n == tuple_items(py.object(self.ptr()).value).len(),
    {
        py.tuple_size(self.0.as_ptr())
    }

    /// A handle to the item `index`, with a reference of its own.
    pub fn get_item(&self, py: &mut Python, index: usize) -> (obj: PyObject)
        requires
            self.wf(old(py)),
            index < tuple_items(old(py).object(self.ptr()).value).len(),
            old(py).can_incref(tuple_items(old(py).object(self.ptr()).value)[index as int]),
        ensures
            obj.ptr() == tuple_items(old(py).object(self.ptr()).value)[index as int],
            final(py).heap() == increfed(old(py).heap(), obj.ptr()),
            final(py).pending() == old(py).pending(),
            final(py).owns_lock() == old(py).owns_lock(),
    {
        let item = py.tuple_get_item(self.0.as_ptr(), index);
        PyObject::from_borrowed_ptr(py, item)
    }
}

} // verus!
