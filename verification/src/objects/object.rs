//! The object handle: one counted reference to one object.

use crate::err::{PyErr, PyResult};
use crate::python::{
    decrefed, increfed, Python, PythonObject, PythonObjectWithCheckedDowncast, Value, NULL,
};
use vstd::prelude::*;

verus! {

/// A handle that holds one reference to an object.
///
/// A handle is made from an address in one of two ways, which say who counted the
/// reference: [`PyObject::from_owned_ptr`] takes over a reference that was counted already,
/// [`PyObject::from_borrowed_ptr`] counts one of its own. It ends in one of two ways:
/// [`PyObject::release`] gives the reference up, [`PyObject::steal_ptr`] hands it on
/// uncounted. Both take the handle by value, so neither can happen twice.
#[derive(Debug)]
pub struct PyObject {
    ptr: usize,
}

impl PyObject {
    #[verifier::type_invariant]
    spec fn never_null(self) -> bool {
        self.ptr != NULL
    }

    /// The address of the object.
    pub closed spec fn ptr(&self) -> usize {
        self.ptr
    }

    /// The address of the object. The handle keeps its reference.
    pub fn as_ptr(&self) -> (ptr: usize)
        ensures
            ptr == self.ptr(),
            ptr != NULL,
    {
        proof {
            use_type_invariant(self);
        }
        self.ptr
    }

    /// A handle for an address that is known to be no null pointer.
    pub(crate) fn from_raw(ptr: usize) -> (obj: PyObject)
        requires
            ptr != NULL,
        ensures
            obj.ptr() == ptr,
    {
        PyObject { ptr }
    }

    /// Takes over a reference that the interpreter has counted for the caller.
    /// The count does not change. A null address is no object: see
    /// [`PyObject::from_owned_ptr_or_err`].
    pub fn from_owned_ptr(py: &Python, ptr: usize) -> (obj: PyObject)
        requires
            py.live(ptr),
        ensures
            obj.ptr() == ptr,
    {
        PyObject { ptr }
    }

    /// Takes over a reference as [`PyObject::from_owned_ptr`] does, where the interpreter
    /// may have failed: for a null address the result is the exception that was pending,
    /// taken out of its slot.
    pub fn from_owned_ptr_or_err(py: &mut Python, ptr: usize) -> (r: PyResult<PyObject>)
        requires
            ptr != NULL ==> old(py).live(ptr),
        ensures
            final(py).heap() == old(py).heap(),
            final(py).owns_lock() == old(py).owns_lock(),
            ptr != NULL ==> r is Ok && r->Ok_0.ptr() == ptr && final(py).pending() == old(
                py,
            ).pending(),
            ptr == NULL ==> r is Err && r->Err_0.state() == PyErr::fetched(old(py).pending())
                && final(py).pending() is None,
    {
        if ptr == NULL {
            Err(PyErr::fetch(py))
        } else {
            Ok(PyObject { ptr })
        }
    }

    /// Makes a handle to an object that somebody else holds a reference to, and counts one
    /// more for the handle.
    pub fn from_borrowed_ptr(py: &mut Python, ptr: usize) -> (obj: PyObject)
        requires
            old(py).can_incref(ptr),
        ensures
            obj.ptr() == ptr,
            final(py).heap() == increfed(old(py).heap(), ptr),
            final(py).pending() == old(py).pending(),
            final(py).owns_lock() == old(py).owns_lock(),
    {
        py.incref(ptr);
        PyObject { ptr }
    }

    /// As [`PyObject::from_borrowed_ptr`], where a null address stands for no object.
    pub fn from_borrowed_ptr_opt(py: &mut Python, ptr: usize) -> (r: Option<PyObject>)
        requires
            ptr != NULL ==> old(py).can_incref(ptr),
        ensures
            final(py).pending() == old(py).pending(),
            final(py).owns_lock() == old(py).owns_lock(),
            ptr == NULL ==> r is None && final(py).heap() == old(py).heap(),
            ptr != NULL ==> r is Some && r->0.ptr() == ptr && final(py).heap() == increfed(
                old(py).heap(),
                ptr,
            ),
    {
        if ptr == NULL {
            None
        } else {
            Some(PyObject::from_borrowed_ptr(py, ptr))
        }
    }

    /// Ends the handle without giving up its reference: the caller now owns it.
    pub fn steal_ptr(self) -> (ptr: usize)
        ensures
            ptr == self.ptr(),
            ptr != NULL,
    {
        proof {
            use_type_invariant(&self);
        }
        self.ptr
    }

    /// A second handle to the same object, with a reference of its own.
    pub fn clone_ref(&self, py: &mut Python) -> (obj: PyObject)
        requires
            old(py).can_incref(self.ptr()),
        ensures
            obj.ptr() == self.ptr(),
            final(py).heap() == increfed(old(py).heap(), self.ptr()),
            final(py).pending() == old(py).pending(),
            final(py).owns_lock() == old(py).owns_lock(),
    {
        PyObject::from_borrowed_ptr(py, self.ptr)
    }

    /// The number of references to the object.
    pub fn get_refcnt(&self, py: &Python) -> (n: usize)
        requires
            py.valid(self.ptr()),
        ensures
            n == py.object(self.ptr()).refcnt,
    {
        py.refcnt(self.ptr)
    }

    /// Ends the handle and gives up its reference.
    pub fn release(self, py: &mut Python)
        requires
            old(py).live(self.ptr()),
        ensures
            final(py).heap() == decrefed(old(py).heap(), self.ptr()),
            final(py).pending() == old(py).pending(),
            final(py).owns_lock() == old(py).owns_lock(),
    {
        py.decref(self.ptr);
    }
}

impl PythonObject for PyObject {
    open spec fn has_type(v: Value) -> bool {
        true
    }

    open spec fn ptr(&self) -> usize {
        PyObject::ptr(self)
    }

    fn as_ptr(&self) -> (ptr: usize) {
        PyObject::as_ptr(self)
    }

    fn as_object(&self) -> (obj: &PyObject) {
        self
    }

    fn into_object(self) -> (obj: PyObject) {
        self
    }

    fn unchecked_downcast_from(py: &Python, obj: PyObject) -> (view: PyObject) {
        obj
    }
}

impl PythonObjectWithCheckedDowncast for PyObject {
    fn type_check(py: &Python, obj: &PyObject) -> (b: bool) {
        true
    }

    fn downcast_from(py: &Python, obj: PyObject) -> (r: Result<PyObject, PyObject>) {
        Ok(obj)
    }
}

} // verus!
