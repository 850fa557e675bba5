//! A verified core for a binding layer between Rust and the CPython interpreter.
//!
//! The interpreter is represented by an explicit state ([`python::Interp`]): a heap of
//! reference-counted objects, the pending-exception slot and the global interpreter lock.
//! Every operation on objects goes through the lock token [`python::Python`], and every
//! contract is stated over that state.
//!
//! - [`python`]: the interpreter state, the lock token and the typed-view traits.
//! - [`ffi`]: the interpreter's raw interface on addresses.
//! - [`objects`]: the object handle and the typed views of `int`, `float`, `tuple` and
//!   `dict`, with the conversions of the numeric types.
//! - [`conversion`]: the two halves of the conversion protocol.
//! - [`err`]: exceptions as Rust errors.
//! - [`argparse`] and [`function`]: Rust functions as callables, and how their arguments
//!   are read.
//! - [`cast`] and [`double`]: range-checked integer casts, and doubles as bit patterns.
//!
//! The interpreter's native `long` is taken to be 64 bits wide, as it is on the 64-bit
//! platforms other than Windows.

pub mod argparse;
pub mod cast;
pub mod conversion;
pub mod double;
pub mod err;
pub mod ffi;
pub mod function;
pub mod objects;
pub mod python;

pub use crate::conversion::{ExtractPyObject, HostNumber, ToPyObject};
pub use crate::err::{ErrorKind, PyErr, PyResult};
pub use crate::function::{py_fn_impl, PyFn, PyMethodDef};
pub use crate::objects::{Double, PyDict, PyFloat, PyInt, PyLong, PyObject, PyTuple};
pub use crate::python::{
    ExcType, Interp, Python, PythonObject, PythonObjectWithCheckedDowncast,
};
