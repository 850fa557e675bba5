//! Numbers: the typed views of `int` and `float`, and the conversions of Rust's numeric
//! types.

use crate::cast;
use crate::conversion::{ExtractPyObject, Extracted, HostNumber, ToPyObject};
use crate::double::{double_fits_single, fits_single};
use crate::err::{PyErr, PyResult};
use crate::ffi::{
    is_small_int, raised, read_double, read_int, to_long, DOUBLE_SENTINEL, LONG_SENTINEL,
    UNSIGNED_SENTINEL,
};
use crate::objects::object::PyObject;
use crate::python::{
    ErrState, ExcType, Object, Python, PythonObject, PythonObjectWithCheckedDowncast, Value, NULL,
};
use libc::c_long;
use vstd::prelude::*;
use vstd::std_specs::cmp::PartialEqSpec;

verus! {

/// An `int` object whose value a native `long` holds.
///
/// The conversions of the primitive integer types ([`ToPyObject`],
/// [`PyObject::extract`]) make this view unnecessary in most code.
#[derive(Debug)]
pub struct PyInt(pub(crate) PyObject);

/// An `int` object.
///
/// The conversions of the primitive integer types ([`ToPyObject`],
/// [`PyObject::extract`]) make this view unnecessary in most code.
#[derive(Debug)]
pub struct PyLong(pub(crate) PyObject);

/// A `float` object.
///
/// The conversions of [`Double`] make this view unnecessary in most code.
#[derive(Debug)]
pub struct PyFloat(pub(crate) PyObject);

/// A double on the Rust side, by the bits of its IEEE 754 representation
/// (`f64::to_bits`, `f64::from_bits`).
#[derive(Clone, Copy, Debug, PartialEq, Eq, Structural)]
pub struct Double {
    pub bits: u64,
}

impl PythonObject for PyInt {
    open spec fn has_type(v: Value) -> bool {
        is_small_int(v)
    }

    closed spec fn ptr(&self) -> usize {
        self.0.ptr()
    }

    fn as_ptr(&self) -> (ptr: usize) {
        self.0.as_ptr()
    }

    fn as_object(&self) -> (obj: &PyObject) {
        &self.0
    }

    fn into_object(self) -> (obj: PyObject) {
        self.0
    }

    fn unchecked_downcast_from(py: &Python, obj: PyObject) -> (view: PyInt) {
        PyInt(obj)
    }
}

impl PythonObjectWithCheckedDowncast for PyInt {
    fn type_check(py: &Python, obj: &PyObject) -> (b: bool) {
        py.int_check(obj.as_ptr())
    }

    fn downcast_from(py: &Python, obj: PyObject) -> (r: Result<PyInt, PyObject>) {
        if py.int_check(obj.as_ptr()) {
            Ok(PyInt(obj))
        } else {
            Err(obj)
        }
    }
}

impl PyInt {
    /// Creates a new Python `int` object.
    pub fn new(py: &mut Python, val: c_long) -> (obj: PyInt)
        ensures
            obj.ptr() == old(py).heap().len() + 1,
            final(py).heap() == old(py).heap().push(
                Object { refcnt: 1, value: Value::Long(val as i128) },
            ),
            final(py).pending() == old(py).pending(),
            final(py).owns_lock() == old(py).owns_lock(),
    {
        let ptr = py.int_from_long(val);
        PyInt(PyObject::from_owned_ptr(py, ptr))
    }

    /// Gets the value of this integer.
    pub fn value(&self, py: &Python) -> (val: c_long)
        requires
            py.live(self.ptr()),
            is_small_int(py.object(self.ptr()).value),
        ensures
            py.object(self.ptr()).value == Value::Long(val as i128),
    {
        py.int_as_long(self.0.as_ptr())
    }
}

impl PythonObject for PyLong {
    open spec fn has_type(v: Value) -> bool {
        v is Long
    }

    closed spec fn ptr(&self) -> usize {
        self.0.ptr()
    }

    fn as_ptr(&self) -> (ptr: usize) {
        self.0.as_ptr()
    }

    fn as_object(&self) -> (obj: &PyObject) {
        &self.0
    }

    fn into_object(self) -> (obj: PyObject) {
        self.0
    }

    fn unchecked_downcast_from(py: &Python, obj: PyObject) -> (view: PyLong) {
        PyLong(obj)
    }
}

impl PythonObjectWithCheckedDowncast for PyLong {
    fn type_check(py: &Python, obj: &PyObject) -> (b: bool) {
        py.long_check(obj.as_ptr())
    }

    fn downcast_from(py: &Python, obj: PyObject) -> (r: Result<PyLong, PyObject>) {
        if py.long_check(obj.as_ptr()) {
            Ok(PyLong(obj))
        } else {
            Err(obj)
        }
    }
}

impl PythonObject for PyFloat {
    open spec fn has_type(v: Value) -> bool {
        v is Float
    }

    closed spec fn ptr(&self) -> usize {
        self.0.ptr()
    }

    fn as_ptr(&self) -> (ptr: usize) {
        self.0.as_ptr()
    }

    fn as_object(&self) -> (obj: &PyObject) {
        &self.0
    }

    fn into_object(self) -> (obj: PyObject) {
        self.0
    }

    fn unchecked_downcast_from(py: &Python, obj: PyObject) -> (view: PyFloat) {
        PyFloat(obj)
    }
}

impl PythonObjectWithCheckedDowncast for PyFloat {
    fn type_check(py: &Python, obj: &PyObject) -> (b: bool) {
        py.float_check(obj.as_ptr())
    }

    fn downcast_from(py: &Python, obj: PyObject) -> (r: Result<PyFloat, PyObject>) {
        if py.float_check(obj.as_ptr()) {
            Ok(PyFloat(obj))
        } else {
            Err(obj)
        }
    }
}

impl PyFloat {
    /// Creates a new `float` object from the bits of a double.
    pub fn new(py: &mut Python, val: u64) -> (obj: PyFloat)
        ensures
            obj.ptr() == old(py).heap().len() + 1,
            final(py).heap() == old(py).heap().push(
                Object { refcnt: 1, value: Value::Float(val) },
            ),
            final(py).pending() == old(py).pending(),
            final(py).owns_lock() == old(py).owns_lock(),
    {
        let ptr = py.float_from_double(val);
        PyFloat(PyObject::from_owned_ptr(py, ptr))
    }

    /// Gets the value of this float, as the bits of a double.
    pub fn value(&self, py: &mut Python) -> (val: u64)
        requires
            old(py).live(self.ptr()),
            old(py).object(self.ptr()).value is Float,
        ensures
            old(py).object(self.ptr()).value == Value::Float(val),
            final(py).heap() == old(py).heap(),
            final(py).pending() == old(py).pending(),
            final(py).owns_lock() == old(py).owns_lock(),
    {
        py.float_as_double(self.0.as_ptr())
    }
}

/// An `OverflowError` with no message. Nothing is made in the interpreter.
pub fn overflow_error(py: &Python) -> (err: PyErr)
    ensures
        err.state() == overflow_state(),
{
    PyErr::new_lazy_init(ExcType::OverflowError, None)
}

/// The state of the exception that [`overflow_error`] makes.
pub open spec fn overflow_state() -> ErrState {
    ErrState { ptype: ExcType::OverflowError, pvalue: NULL, ptraceback: NULL }
}

/// What a caller makes of an accessor's outcome `read`, where the accessor returns
/// `sentinel` when it fails: a failure is the exception that the accessor raised, and so is
/// the sentinel as a value while `pending` holds an exception from before.
pub open spec fn checked(
    read: Result<int, ExcType>,
    sentinel: int,
    pending: Option<ErrState>,
) -> Extracted<int> {
    match read {
        Err(t) => Extracted { result: Err(raised(t)->0), pending: None, temp: None },
        Ok(n) => if n == sentinel && pending is Some {
            Extracted { result: Err(pending->0), pending: None, temp: None }
        } else {
            Extracted { result: Ok(n), pending, temp: None }
        },
    }
}

/// The outcome `x` after a range check for `lo ..= hi`, which turns a value out of range
/// into an `OverflowError` and leaves the interpreter alone.
pub open spec fn ranged(x: Extracted<int>, lo: int, hi: int) -> Extracted<int> {
    match x.result {
        Ok(n) if !(lo <= n <= hi) => Extracted {
            result: Err(overflow_state()),
            pending: x.pending,
            temp: x.temp,
        },
        _ => x,
    }
}

/// The extraction through an accessor for the range `lo ..= hi` that returns `sentinel`
/// when it fails. The accessor converts nothing, so an `int` is read as it is, and what
/// is no `int` is converted first, by a call of its own that makes a new object; that
/// object is read and then given up.
pub open spec fn extract_through(
    v: Value,
    pending: Option<ErrState>,
    lo: int,
    hi: int,
    sentinel: int,
) -> Extracted<int> {
    if v is Long {
        checked(read_int(v, lo, hi), sentinel, pending)
    } else {
        match to_long(v) {
            Err(t) => Extracted { result: Err(raised(t)->0), pending: None, temp: None },
            Ok(n) => {
                let x = checked(read_int(Value::Long(n as i128), lo, hi), sentinel, pending);
                Extracted {
                    result: x.result,
                    pending: x.pending,
                    temp: Some(Value::Long(n as i128)),
                }
            },
        }
    }
}

/// The extraction of the native `long`.
pub open spec fn extract_native(v: Value, pending: Option<ErrState>) -> Extracted<int> {
    extract_through(v, pending, c_long::MIN as int, c_long::MAX as int, LONG_SENTINEL as int)
}

/// The extraction of an integer type with the range `lo ..= hi` that goes through the
/// native `long`.
pub open spec fn extract_via_long(
    v: Value,
    pending: Option<ErrState>,
    lo: int,
    hi: int,
) -> Extracted<int> {
    ranged(extract_native(v, pending), lo, hi)
}

/// The extraction of an integer type that goes through the accessor for the widest
/// unsigned integer.
pub open spec fn extract_unsigned(v: Value, pending: Option<ErrState>) -> Extracted<int> {
    extract_through(v, pending, 0, u64::MAX as int, UNSIGNED_SENTINEL as int)
}

/// The largest value of an unsigned type does not fit the signed type of the same width:
/// extracting it as that type is an `OverflowError`. It fits every wider unsigned type:
/// extracting it as one of those yields the same number. Neither depends on what is
/// pending; that it comes back as its own type is [`HostNumber::round_trip`].
pub proof fn lemma_unsigned_max(pending: Option<ErrState>)
    ensures
        i8::extract_spec(u8::MAX.py_value(), pending).result == Err::<i8, ErrState>(
            overflow_state(),
        ),
        i16::extract_spec(u16::MAX.py_value(), pending).result == Err::<i16, ErrState>(
            overflow_state(),
        ),
        i32::extract_spec(u32::MAX.py_value(), pending).result == Err::<i32, ErrState>(
            overflow_state(),
        ),
        i64::extract_spec(u64::MAX.py_value(), pending).result == Err::<i64, ErrState>(
            overflow_state(),
        ),
        isize::extract_spec(usize::MAX.py_value(), pending).result == Err::<isize, ErrState>(
            overflow_state(),
        ),
        u16::extract_spec(u8::MAX.py_value(), pending).result == Ok::<u16, ErrState>(0xff),
        u32::extract_spec(u8::MAX.py_value(), pending).result == Ok::<u32, ErrState>(0xff),
        u64::extract_spec(u8::MAX.py_value(), pending).result == Ok::<u64, ErrState>(0xff),
        usize::extract_spec(u8::MAX.py_value(), pending).result == Ok::<usize, ErrState>(0xff),
        u32::extract_spec(u16::MAX.py_value(), pending).result == Ok::<u32, ErrState>(0xffff),
        u64::extract_spec(u16::MAX.py_value(), pending).result == Ok::<u64, ErrState>(0xffff),
        usize::extract_spec(u16::MAX.py_value(), pending).result == Ok::<usize, ErrState>(
            0xffff,
        ),
        u64::extract_spec(u32::MAX.py_value(), pending).result == Ok::<u64, ErrState>(
            0xffff_ffff,
        ),
        usize::extract_spec(u32::MAX.py_value(), pending).result == Ok::<usize, ErrState>(
            0xffff_ffff,
        ),
{
}

/// Decides what an accessor's return value `v` means, where `invalid_value` is what the
/// accessor returns when it fails: that value while an exception is pending is a failure,
/// and the exception is taken out of the interpreter; anything else is the value read.
///
/// Nothing may run between the accessor and this function: an exception that was pending
/// before the accessor ran is taken for the accessor's own.
pub fn err_if_invalid_value<T: PartialEq>(py: &mut Python, v: T, invalid_value: T) -> (r: PyResult<
    T,
>)
    requires
        T::obeys_eq_spec(),
    ensures
        final(py).heap() == old(py).heap(),
        final(py).owns_lock() == old(py).owns_lock(),
        v.eq_spec(&invalid_value) && old(py).pending() is Some ==> r is Err && r->Err_0.state()
            == old(py).pending()->0 && final(py).pending() is None,
        !(v.eq_spec(&invalid_value) && old(py).pending() is Some) ==> r == Ok::<T, PyErr>(v)
            && final(py).pending() == old(py).pending(),
{
    if v == invalid_value && PyErr::occurred(py) {
        Err(PyErr::fetch(py))
    } else {
        Ok(v)
    }
}

/// Reads the native `long` out of an object. An `int` is read as it is. Anything else is
/// first converted to an `int` by a call of its own, and the `int` that the call made is
/// read and given up.
pub fn extract_long(py: &mut Python, obj: &PyObject) -> (r: PyResult<c_long>)
    requires
        old(py).live(obj.ptr()),
    ensures
        final(py).owns_lock() == old(py).owns_lock(),
        ({
            let x = extract_native(old(py).object(obj.ptr()).value, old(py).pending());
            &&& final(py).heap() == x.heap_after(old(py).heap())
            &&& final(py).pending() == x.pending
            &&& match x.result {
                Ok(n) => r == Ok::<c_long, PyErr>(n as c_long),
                Err(st) => r is Err && r->Err_0.state() == st,
            }
        }),
{
    let ptr = obj.as_ptr();
    if py.long_check(ptr) {
        let val = py.long_as_long(ptr);
        err_if_invalid_value(py, val, LONG_SENTINEL)
    } else {
        let num = py.number_long(ptr);
        let num = PyObject::from_owned_ptr_or_err(py, num)?;
        let val = py.long_as_long(num.as_ptr());
        let r = err_if_invalid_value(py, val, LONG_SENTINEL);
        num.release(py);
        r
    }
}

/// What reading a double for a single comes to: the extraction of the double, with a
/// value beyond the range of a single turned into an `OverflowError`.
pub open spec fn extract_single_spec(v: Value, pending: Option<ErrState>) -> Extracted<Double> {
    let x = Double::extract_spec(v, pending);
    match x.result {
        Ok(d) if !fits_single(d.bits) => Extracted {
            result: Err(overflow_state()),
            pending: x.pending,
            temp: x.temp,
        },
        _ => x,
    }
}

/// Reads out of an object a double that a single can take: the double that the object is
/// or converts to, or an `OverflowError` where that is beyond the range of a single.
pub fn extract_single(py: &mut Python, obj: &PyObject) -> (r: PyResult<Double>)
    requires
        old(py).live(obj.ptr()),
    ensures
        final(py).owns_lock() == old(py).owns_lock(),
        ({
            let x = extract_single_spec(old(py).object(obj.ptr()).value, old(py).pending());
            &&& final(py).heap() == x.heap_after(old(py).heap())
            &&& final(py).pending() == x.pending
            &&& match x.result {
                Ok(d) => r == Ok::<Double, PyErr>(d),
                Err(st) => r is Err && r->Err_0.state() == st,
            }
        }),
{
    let val = obj.extract::<Double>(py)?;
    if double_fits_single(val.bits) {
        Ok(val)
    } else {
        Err(overflow_error(py))
    }
}

impl ToPyObject for i8 {
    type ObjectType = PyLong;

    open spec fn py_value(&self) -> Value {
        Value::Long(*self as i128)
    }

    fn to_py_object(&self, py: &mut Python) -> (obj: PyLong) {
        let ptr = py.long_from_long(*self as c_long);
        PyLong(PyObject::from_owned_ptr(py, ptr))
    }
}

impl ExtractPyObject for i8 {
    open spec fn extract_spec(v: Value, pending: Option<ErrState>) -> Extracted<i8> {
        extract_via_long(v, pending, i8::MIN as int, i8::MAX as int).map(|n: int| n as i8)
    }

    fn extract(py: &mut Python, obj: &PyObject) -> (r: PyResult<i8>) {
        let val = extract_long(py, obj)?;
        match cast::long_to_i8(val) {
            Some(v) => Ok(v),
            None => Err(overflow_error(py)),
        }
    }
}

impl HostNumber for i8 {
    open spec fn is_sentinel(&self) -> bool {
        *self == LONG_SENTINEL
    }

    proof fn round_trip(&self, pending: Option<ErrState>) {
    }
}

impl ToPyObject for u8 {
    type ObjectType = PyLong;

    open spec fn py_value(&self) -> Value {
        Value::Long(*self as i128)
    }

    fn to_py_object(&self, py: &mut Python) -> (obj: PyLong) {
        let ptr = py.long_from_long(*self as c_long);
        PyLong(PyObject::from_owned_ptr(py, ptr))
    }
}

impl ExtractPyObject for u8 {
    open spec fn extract_spec(v: Value, pending: Option<ErrState>) -> Extracted<u8> {
        extract_via_long(v, pending, u8::MIN as int, u8::MAX as int).map(|n: int| n as u8)
    }

    fn extract(py: &mut Python, obj: &PyObject) -> (r: PyResult<u8>) {
        let val = extract_long(py, obj)?;
        match cast::long_to_u8(val) {
            Some(v) => Ok(v),
            None => Err(overflow_error(py)),
        }
    }
}

impl HostNumber for u8 {
    open spec fn is_sentinel(&self) -> bool {
        false
    }

    proof fn round_trip(&self, pending: Option<ErrState>) {
    }
}

impl ToPyObject for i16 {
    type ObjectType = PyLong;

    open spec fn py_value(&self) -> Value {
        Value::Long(*self as i128)
    }

    fn to_py_object(&self, py: &mut Python) -> (obj: PyLong) {
        let ptr = py.long_from_long(*self as c_long);
        PyLong(PyObject::from_owned_ptr(py, ptr))
    }
}

impl ExtractPyObject for i16 {
    open spec fn extract_spec(v: Value, pending: Option<ErrState>) -> Extracted<i16> {
        extract_via_long(v, pending, i16::MIN as int, i16::MAX as int).map(|n: int| n as i16)
    }

    fn extract(py: &mut Python, obj: &PyObject) -> (r: PyResult<i16>) {
        let val = extract_long(py, obj)?;
        match cast::long_to_i16(val) {
            Some(v) => Ok(v),
            None => Err(overflow_error(py)),
        }
    }
}

impl HostNumber for i16 {
    open spec fn is_sentinel(&self) -> bool {
        *self == LONG_SENTINEL
    }

    proof fn round_trip(&self, pending: Option<ErrState>) {
    }
}

impl ToPyObject for u16 {
    type ObjectType = PyLong;

    open spec fn py_value(&self) -> Value {
        Value::Long(*self as i128)
    }

    fn to_py_object(&self, py: &mut Python) -> (obj: PyLong) {
        let ptr = py.long_from_long(*self as c_long);
        PyLong(PyObject::from_owned_ptr(py, ptr))
    }
}

impl ExtractPyObject for u16 {
    open spec fn extract_spec(v: Value, pending: Option<ErrState>) -> Extracted<u16> {
        extract_via_long(v, pending, u16::MIN as int, u16::MAX as int).map(|n: int| n as u16)
    }

    fn extract(py: &mut Python, obj: &PyObject) -> (r: PyResult<u16>) {
        let val = extract_long(py, obj)?;
        match cast::long_to_u16(val) {
            Some(v) => Ok(v),
            None => Err(overflow_error(py)),
        }
    }
}

impl HostNumber for u16 {
    open spec fn is_sentinel(&self) -> bool {
        false
    }

    proof fn round_trip(&self, pending: Option<ErrState>) {
    }
}

impl ToPyObject for i32 {
    type ObjectType = PyLong;

    open spec fn py_value(&self) -> Value {
        Value::Long(*self as i128)
    }

    fn to_py_object(&self, py: &mut Python) -> (obj: PyLong) {
        let ptr = py.long_from_long(*self as c_long);
        PyLong(PyObject::from_owned_ptr(py, ptr))
    }
}

impl ExtractPyObject for i32 {
    open spec fn extract_spec(v: Value, pending: Option<ErrState>) -> Extracted<i32> {
        extract_via_long(v, pending, i32::MIN as int, i32::MAX as int).map(|n: int| n as i32)
    }

    fn extract(py: &mut Python, obj: &PyObject) -> (r: PyResult<i32>) {
        let val = extract_long(py, obj)?;
        match cast::long_to_i32(val) {
            Some(v) => Ok(v),
            None => Err(overflow_error(py)),
        }
    }
}

impl HostNumber for i32 {
    open spec fn is_sentinel(&self) -> bool {
        *self == LONG_SENTINEL
    }

    proof fn round_trip(&self, pending: Option<ErrState>) {
    }
}

impl ToPyObject for u32 {
    type ObjectType = PyLong;

    open spec fn py_value(&self) -> Value {
        Value::Long(*self as i128)
    }

    fn to_py_object(&self, py: &mut Python) -> (obj: PyLong) {
        let ptr = py.long_from_long(*self as c_long);
        PyLong(PyObject::from_owned_ptr(py, ptr))
    }
}

impl ExtractPyObject for u32 {
    open spec fn extract_spec(v: Value, pending: Option<ErrState>) -> Extracted<u32> {
        extract_via_long(v, pending, u32::MIN as int, u32::MAX as int).map(|n: int| n as u32)
    }

    fn extract(py: &mut Python, obj: &PyObject) -> (r: PyResult<u32>) {
        let val = extract_long(py, obj)?;
        match cast::long_to_u32(val) {
            Some(v) => Ok(v),
            None => Err(overflow_error(py)),
        }
    }
}

impl HostNumber for u32 {
    open spec fn is_sentinel(&self) -> bool {
        false
    }

    proof fn round_trip(&self, pending: Option<ErrState>) {
    }
}

impl ToPyObject for i64 {
    type ObjectType = PyLong;

    open spec fn py_value(&self) -> Value {
        Value::Long(*self as i128)
    }

    fn to_py_object(&self, py: &mut Python) -> (obj: PyLong) {
        let ptr = py.long_from_long(*self as c_long);
        PyLong(PyObject::from_owned_ptr(py, ptr))
    }
}

impl ExtractPyObject for i64 {
    open spec fn extract_spec(v: Value, pending: Option<ErrState>) -> Extracted<i64> {
        extract_via_long(v, pending, i64::MIN as int, i64::MAX as int).map(|n: int| n as i64)
    }

    fn extract(py: &mut Python, obj: &PyObject) -> (r: PyResult<i64>) {
        let val = extract_long(py, obj)?;
        match cast::long_to_i64(val) {
            Some(v) => Ok(v),
            None => Err(overflow_error(py)),
        }
    }
}

impl HostNumber for i64 {
    open spec fn is_sentinel(&self) -> bool {
        *self == LONG_SENTINEL
    }

    proof fn round_trip(&self, pending: Option<ErrState>) {
    }
}

impl ToPyObject for isize {
    type ObjectType = PyLong;

    open spec fn py_value(&self) -> Value {
        Value::Long(*self as i128)
    }

    fn to_py_object(&self, py: &mut Python) -> (obj: PyLong) {
        let ptr = py.long_from_long(*self as c_long);
        PyLong(PyObject::from_owned_ptr(py, ptr))
    }
}

impl ExtractPyObject for isize {
    open spec fn extract_spec(v: Value, pending: Option<ErrState>) -> Extracted<isize> {
        extract_via_long(v, pending, isize::MIN as int, isize::MAX as int).map(|n: int| n as isize)
    }

    fn extract(py: &mut Python, obj: &PyObject) -> (r: PyResult<isize>) {
        let val = extract_long(py, obj)?;
        match cast::long_to_isize(val) {
            Some(v) => Ok(v),
            None => Err(overflow_error(py)),
        }
    }
}

impl HostNumber for isize {
    open spec fn is_sentinel(&self) -> bool {
        *self == LONG_SENTINEL
    }

    proof fn round_trip(&self, pending: Option<ErrState>) {
    }
}

impl ToPyObject for u64 {
    type ObjectType = PyLong;

    open spec fn py_value(&self) -> Value {
        Value::Long(*self as i128)
    }

    fn to_py_object(&self, py: &mut Python) -> (obj: PyLong) {
        let ptr = py.long_from_unsigned_long_long(*self);
        PyLong(PyObject::from_owned_ptr(py, ptr))
    }
}

impl ExtractPyObject for u64 {
    open spec fn extract_spec(v: Value, pending: Option<ErrState>) -> Extracted<u64> {
        extract_unsigned(v, pending).map(|n: int| n as u64)
    }

    fn extract(py: &mut Python, obj: &PyObject) -> (r: PyResult<u64>) {
        let ptr = obj.as_ptr();
        if py.long_check(ptr) {
            let val = py.long_as_unsigned_long_long(ptr);
            err_if_invalid_value(py, val, UNSIGNED_SENTINEL)
        } else {
            let num = py.number_long(ptr);
            let num = PyObject::from_owned_ptr_or_err(py, num)?;
            let val = py.long_as_unsigned_long_long(num.as_ptr());
            let r = err_if_invalid_value(py, val, UNSIGNED_SENTINEL);
            num.release(py);
            r
        }
    }
}

impl HostNumber for u64 {
    open spec fn is_sentinel(&self) -> bool {
        *self == UNSIGNED_SENTINEL
    }

    proof fn round_trip(&self, pending: Option<ErrState>) {
    }
}

impl ToPyObject for usize {
    type ObjectType = PyLong;

    open spec fn py_value(&self) -> Value {
        Value::Long(*self as i128)
    }

    fn to_py_object(&self, py: &mut Python) -> (obj: PyLong) {
        (*self as u64).to_py_object(py)
    }
}

impl ExtractPyObject for usize {
    open spec fn extract_spec(v: Value, pending: Option<ErrState>) -> Extracted<usize> {
        ranged(extract_unsigned(v, pending), 0, usize::MAX as int).map(|n: int| n as usize)
    }

    fn extract(py: &mut Python, obj: &PyObject) -> (r: PyResult<usize>) {
        let val = obj.extract::<u64>(py)?;
        match cast::u64_to_usize(val) {
            Some(v) => Ok(v),
            None => Err(overflow_error(py)),
        }
    }
}

impl HostNumber for usize {
    open spec fn is_sentinel(&self) -> bool {
        *self == UNSIGNED_SENTINEL
    }

    proof fn round_trip(&self, pending: Option<ErrState>) {
    }
}

impl ToPyObject for Double {
    type ObjectType = PyFloat;

    open spec fn py_value(&self) -> Value {
        Value::Float(self.bits)
    }

    fn to_py_object(&self, py: &mut Python) -> (obj: PyFloat) {
        PyFloat::new(py, self.bits)
    }
}

impl ExtractPyObject for Double {
    open spec fn extract_spec(v: Value, pending: Option<ErrState>) -> Extracted<Double> {
        checked(read_double(v), DOUBLE_SENTINEL as int, pending).map(
            |n: int| Double { bits: n as u64 },
        )
    }

    fn extract(py: &mut Python, obj: &PyObject) -> (r: PyResult<Double>) {
        let bits = py.float_as_double(obj.as_ptr());
        match err_if_invalid_value(py, bits, DOUBLE_SENTINEL) {
            Ok(bits) => Ok(Double { bits }),
            Err(e) => Err(e),
        }
    }
}

impl HostNumber for Double {
    open spec fn is_sentinel(&self) -> bool {
        self.bits == DOUBLE_SENTINEL
    }

    proof fn round_trip(&self, pending: Option<ErrState>) {
    }
}

} // verus!
