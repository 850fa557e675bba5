//! The conversion protocol: how a Rust value becomes an object, and an object a Rust
//! value.

use crate::err::PyResult;
use crate::objects::object::PyObject;
use crate::python::{ErrState, Object, Python, PythonObject, Value};
use vstd::prelude::*;

verus! {

/// What an extraction comes to.
pub struct Extracted<T> {
    /// The value, or the exception in its place.
    pub result: Result<T, ErrState>,
    /// What is pending in the interpreter afterwards.
    pub pending: Option<ErrState>,
    /// The value of the object that a conversion made on the way, if it made one. That
    /// object is dead when the extraction returns.
    pub temp: Option<Value>,
}

impl<T> Extracted<T> {
    /// The same outcome with the value, if there is one, seen through `f`.
    pub open spec fn map<U>(self, f: spec_fn(T) -> U) -> Extracted<U> {
        Extracted {
            result: match self.result {
                Ok(v) => Ok(f(v)),
                Err(st) => Err(st),
            },
            pending: self.pending,
            temp: self.temp,
        }
    }

    /// The heap after an extraction with this outcome from the heap `heap`.
    pub open spec fn heap_after(self, heap: Seq<Object>) -> Seq<Object> {
        match self.temp {
            Some(value) => heap.push(Object { refcnt: 0, value }),
            None => heap,
        }
    }
}

/// A Rust value that can be made into an object.
pub trait ToPyObject {
    /// The view through which the new object is handed out.
    type ObjectType: PythonObject;

    /// The value of the object that stands for this Rust value.
    spec fn py_value(&self) -> Value;

    /// Makes the object that stands for this value: a new object with one reference,
    /// which the result holds.
    fn to_py_object(&self, py: &mut Python) -> (obj: Self::ObjectType)
        ensures
            obj.ptr() == old(py).heap().len() + 1,
            final(py).heap() == old(py).heap().push(
                Object { refcnt: 1, value: self.py_value() },
            ),
            final(py).pending() == old(py).pending(),
            final(py).owns_lock() == old(py).owns_lock(),
            Self::ObjectType::has_type(self.py_value()),
    ;
}

/// A Rust type whose values can be read out of an object.
pub trait ExtractPyObject: Sized {
    /// What the extraction comes to for an object with the value `v`, while `pending` is
    /// in the interpreter's slot.
    spec fn extract_spec(v: Value, pending: Option<ErrState>) -> Extracted<Self>;

    /// Reads a value of this type out of the object behind `obj`. The reference counts of
    /// the objects that exist do not change.
    fn extract(py: &mut Python, obj: &PyObject) -> (r: PyResult<Self>)
        requires
            old(py).live(obj.ptr()),
        ensures
            final(py).owns_lock() == old(py).owns_lock(),
            ({
                let x = Self::extract_spec(old(py).object(obj.ptr()).value, old(py).pending());
                &&& final(py).heap() == x.heap_after(old(py).heap())
                &&& final(py).pending() == x.pending
                &&& match x.result {
                    Ok(v) => r == Ok::<Self, crate::err::PyErr>(v),
                    Err(st) => r is Err && r->Err_0.state() == st,
                }
            }),
    ;
}

/// A numeric Rust type: it goes into an object and comes back out of it unchanged.
pub trait HostNumber: ToPyObject + ExtractPyObject {
    /// Whether this value is the one that the interpreter's accessor for this type also
    /// returns when it fails.
    spec fn is_sentinel(&self) -> bool;

    /// Extracting from the object made for a value yields that value, and leaves the
    /// interpreter as it was. The one exception is the accessor's sentinel while an
    /// exception is pending already: the extraction takes that exception for its own.
    proof fn round_trip(&self, pending: Option<ErrState>)
        requires
            pending is None || !self.is_sentinel(),
        ensures
            Self::extract_spec(self.py_value(), pending) == (Extracted::<Self> {
                result: Ok(*self),
                pending,
                temp: None,
            }),
    ;
}

impl PyObject {
    /// Reads a value of the type `T` out of the object.
    pub fn extract<T: ExtractPyObject>(&self, py: &mut Python) -> (r: PyResult<T>)
        requires
            old(py).live(self.ptr()),
        ensures
            final(py).owns_lock() == old(py).owns_lock(),
            ({
                let x = T::extract_spec(old(py).object(self.ptr()).value, old(py).pending());
                &&& final(py).heap() == x.heap_after(old(py).heap())
                &&& final(py).pending() == x.pending
                &&& match x.result {
                    Ok(v) => r == Ok::<T, crate::err::PyErr>(v),
                    Err(st) => r is Err && r->Err_0.state() == st,
                }
            }),
    {
        T::extract(py, self)
    }
}

} // verus!
