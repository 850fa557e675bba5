//! The typed view of `dict`.

use crate::ffi::{dict_keys, dict_values, lookup, put};
use crate::objects::object::PyObject;
use crate::python::{
    increfed, Python, PythonObject, PythonObjectWithCheckedDowncast, Value, NULL,
};
use vstd::prelude::*;

verus! {

/// A `dict` object with string keys.
#[derive(Debug)]
pub struct PyDict(pub(crate) PyObject);

impl PythonObject for PyDict {
    open spec fn has_type(v: Value) -> bool {
        v is Dict
    }

    closed spec fn ptr(&self) -> usize {
        self.0.ptr()
    }

    fn as_ptr(&self) -> (ptr: usize) {
        self.0.as_ptr()
    }

    fn as_object(&self) -> (obj: &PyObject) {
        &self.0
    }

    fn into_object(self) -> (obj: PyObject) {
        self.0
    }

    fn unchecked_downcast_from(py: &Python, obj: PyObject) -> (view: PyDict) {
        PyDict(obj)
    }
}

impl PythonObjectWithCheckedDowncast for PyDict {
    fn type_check(py: &Python, obj: &PyObject) -> (b: bool) {
        py.dict_check(obj.as_ptr())
    }

    fn downcast_from(py: &Python, obj: PyObject) -> (r: Result<PyDict, PyObject>) {
        if py.dict_check(obj.as_ptr()) {
            Ok(PyDict(obj))
        } else {
            Err(obj)
        }
    }
}

impl PyDict {
    /// Whether this view is of a `dict` that is alive in `py`.
    pub open spec fn wf(&self, py: &Python) -> bool {
        py.live(self.ptr()) && py.object(self.ptr()).value is Dict
    }

    /// The keys of the `dict` in `py`, in the order of insertion.
    pub open spec fn keys(&self, py: &Python) -> Seq<Seq<char>> {
        dict_keys(py.object(self.ptr()).value)
    }

    /// The addresses of the values of the `dict` in `py`, in the order of its keys.
    pub open spec fn values(&self, py: &Python) -> Seq<usize> {
        dict_values(py.object(self.ptr()).value)
    }

    /// A new, empty `dict`.
    pub fn new(py: &mut Python) -> (d: PyDict)
        ensures
            d.ptr() == old(py).heap().len() + 1,
            final(py).heap().len() == old(py).heap().len() + 1,
            final(py).heap().drop_last() == old(py).heap(),
            final(py).heap().last().refcnt == 1,
            d.wf(final(py)),
            d.keys(final(py)) == Seq::<Seq<char>>::empty(),
            d.values(final(py)) == Seq::<usize>::empty(),
            final(py).pending() == old(py).pending(),
            final(py).owns_lock() == old(py).owns_lock(),
    {
        let ptr = py.dict_new();
        PyDict(PyObject::from_owned_ptr(py, ptr))
    }

    /// The number of entries.
    pub fn len(&self, py: &Python) -> (n: usize)
        requires
            self.wf(py),
        ensures
            n == self.keys(py).len(),
    {
        py.dict_size(self.0.as_ptr())
    }

    /// A handle to the value under `key`, with a reference of its own; none where the
    /// `dict` has no such key.
    pub fn get_item(&self, py: &mut Python, key: &String) -> (r: Option<PyObject>)
        requires
            self.wf(old(py)),
            ({
                let item = lookup(self.keys(old(py)), self.values(old(py)), key@);
                item != NULL ==> old(py).can_incref(item)
            }),
        ensures
            final(py).pending() == old(py).pending(),
            final(py).owns_lock() == old(py).owns_lock(),
            ({
                let item = lookup(self.keys(old(py)), self.values(old(py)), key@);
                &&& item == NULL ==> r is None && final(py).heap() == old(py).heap()
                &&& item != NULL ==> r is Some && r->0.ptr() == item && final(py).heap()
                    == increfed(old(py).heap(), item)
            }),
    {
        let item = py.dict_get_item_string(self.0.as_ptr(), key);
        PyObject::from_borrowed_ptr_opt(py, item)
    }

    /// Puts the object behind `value` under `key`, in place of the value that the key
    /// had if it had one.
    pub fn set_item(&self, py: &mut Python, key: String, value: &PyObject)
        requires
            self.wf(old(py)),
        ensures
            final(py).heap().len() == old(py).heap().len(),
            forall|q: int|
                0 <= q < old(py).heap().len() && q != self.ptr() - 1 ==> final(py).heap()[q]
                    == old(py).heap()[q],
            final(py).object(self.ptr()).refcnt == old(py).object(self.ptr()).refcnt,
            self.wf(final(py)),
            (self.keys(final(py)), self.values(final(py))) == put(
                self.keys(old(py)),
                self.values(old(py)),
                key@,
                value.ptr(),
            ),
            final(py).pending() == old(py).pending(),
            final(py).owns_lock() == old(py).owns_lock(),
    {
        py.dict_set_item_string(self.0.as_ptr(), key, value.as_ptr());
    }
}

} // verus!
