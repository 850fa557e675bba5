//! Handles to the interpreter's objects, and typed views of them.

pub mod dict;
pub mod num;
pub mod object;
pub mod tuple;

pub use self::dict::PyDict;
pub use self::num::{Double, PyFloat, PyInt, PyLong};
pub use self::object::PyObject;
pub use self::tuple::PyTuple;
