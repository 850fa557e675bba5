use cpython::conversion::ToPyObject;
use cpython::err::ErrorKind;
use cpython::double::double_fits_single;
use cpython::objects::num::{
    err_if_invalid_value, extract_long, extract_single, overflow_error,
};
use cpython::objects::{Double, PyFloat, PyLong, PyObject, PyTuple};
use cpython::python::{
    ErrState, ExcType, Interp, Python, PythonObject, PythonObjectWithCheckedDowncast, NULL,
};

fn double(x: f64) -> Double {
    Double { bits: x.to_bits() }
}

#[test]
fn test_u32_max() {
    let mut py = Python::acquire_gil(Interp::new());
    let v = std::u32::MAX;
    let obj = v.to_py_object(&mut py).into_object();
    assert_eq!(v, obj.extract::<u32>(&mut py).unwrap());
    assert_eq!(v as u64, obj.extract::<u64>(&mut py).unwrap());
    assert!(obj.extract::<i32>(&mut py).is_err());
}

#[test]
fn test_i64_max() {
    let mut py = Python::acquire_gil(Interp::new());
    let v = std::i64::MAX;
    let obj = v.to_py_object(&mut py).into_object();
    assert_eq!(v, obj.extract::<i64>(&mut py).unwrap());
    assert_eq!(v as u64, obj.extract::<u64>(&mut py).unwrap());
    assert!(obj.extract::<u32>(&mut py).is_err());
}

#[test]
fn test_i64_min() {
    let mut py = Python::acquire_gil(Interp::new());
    let v = std::i64::MIN;
    let obj = v.to_py_object(&mut py).into_object();
    assert_eq!(v, obj.extract::<i64>(&mut py).unwrap());
    assert!(obj.extract::<i32>(&mut py).is_err());
    assert!(obj.extract::<u64>(&mut py).is_err());
}

#[test]
fn test_u64_max() {
    let mut py = Python::acquire_gil(Interp::new());
    let v = std::u64::MAX;
    let obj = v.to_py_object(&mut py).into_object();
    println!("{:?}", obj);
    assert_eq!(v, obj.extract::<u64>(&mut py).unwrap());
    assert!(obj.extract::<i64>(&mut py).is_err());
}

#[test]
fn to_from_f64() {
    let mut py = Python::acquire_gil(Interp::new());
    let val = 123 as f64;
    let obj = double(val).to_py_object(&mut py).into_object();
    assert_eq!(f64::from_bits(obj.extract::<Double>(&mut py).unwrap().bits), val);
}

#[test]
fn to_from_f32() {
    let mut py = Python::acquire_gil(Interp::new());
    let val = 123 as f32;
    let obj = double(val as f64).to_py_object(&mut py).into_object();
    assert_eq!(f64::from_bits(obj.extract::<Double>(&mut py).unwrap().bits) as f32, val);
}

#[test]
fn to_from_i8() {
    let mut py = Python::acquire_gil(Interp::new());
    let val = 123 as i8;
    let obj = val.to_py_object(&mut py).into_object();
    assert_eq!(obj.extract::<i8>(&mut py).unwrap(), val);
}

#[test]
fn to_from_u8() {
    let mut py = Python::acquire_gil(Interp::new());
    let val = 123 as u8;
    let obj = val.to_py_object(&mut py).into_object();
    assert_eq!(obj.extract::<u8>(&mut py).unwrap(), val);
}

#[test]
fn to_from_i16() {
    let mut py = Python::acquire_gil(Interp::new());
    let val = 123 as i16;
    let obj = val.to_py_object(&mut py).into_object();
    assert_eq!(obj.extract::<i16>(&mut py).unwrap(), val);
}

#[test]
fn to_from_u16() {
    let mut py = Python::acquire_gil(Interp::new());
    let val = 123 as u16;
    let obj = val.to_py_object(&mut py).into_object();
    assert_eq!(obj.extract::<u16>(&mut py).unwrap(), val);
}

#[test]
fn to_from_i32() {
    let mut py = Python::acquire_gil(Interp::new());
    let val = 123 as i32;
    let obj = val.to_py_object(&mut py).into_object();
    assert_eq!(obj.extract::<i32>(&mut py).unwrap(), val);
}

#[test]
fn to_from_u32() {
    let mut py = Python::acquire_gil(Interp::new());
    let val = 123 as u32;
    let obj = val.to_py_object(&mut py).into_object();
    assert_eq!(obj.extract::<u32>(&mut py).unwrap(), val);
}

#[test]
fn to_from_i64() {
    let mut py = Python::acquire_gil(Interp::new());
    let val = 123 as i64;
    let obj = val.to_py_object(&mut py).into_object();
    assert_eq!(obj.extract::<i64>(&mut py).unwrap(), val);
}

#[test]
fn to_from_u64() {
    let mut py = Python::acquire_gil(Interp::new());
    let val = 123 as u64;
    let obj = val.to_py_object(&mut py).into_object();
    assert_eq!(obj.extract::<u64>(&mut py).unwrap(), val);
}

#[test]
fn to_from_isize() {
    let mut py = Python::acquire_gil(Interp::new());
    let val = 123 as isize;
    let obj = val.to_py_object(&mut py).into_object();
    assert_eq!(obj.extract::<isize>(&mut py).unwrap(), val);
}

#[test]
fn to_from_usize() {
    let mut py = Python::acquire_gil(Interp::new());
    let val = 123 as usize;
    let obj = val.to_py_object(&mut py).into_object();
    assert_eq!(obj.extract::<usize>(&mut py).unwrap(), val);
}

#[test]
fn float_to_i32() {
    let mut py = Python::acquire_gil(Interp::new());
    let val = 123 as f64;
    let obj = double(val).to_py_object(&mut py).into_object();
    assert_eq!(obj.extract::<i32>(&mut py).unwrap(), val as i32);
}

#[test]
fn float_to_u32() {
    let mut py = Python::acquire_gil(Interp::new());
    let val = 123 as f64;
    let obj = double(val).to_py_object(&mut py).into_object();
    assert_eq!(obj.extract::<u32>(&mut py).unwrap(), val as u32);
}

#[test]
fn float_to_i64() {
    let mut py = Python::acquire_gil(Interp::new());
    let val = 123 as f64;
    let obj = double(val).to_py_object(&mut py).into_object();
    assert_eq!(obj.extract::<i64>(&mut py).unwrap(), val as i64);
}

#[test]
fn float_to_u64() {
    let mut py = Python::acquire_gil(Interp::new());
    let val = 123 as f64;
    let obj = double(val).to_py_object(&mut py).into_object();
    assert_eq!(obj.extract::<u64>(&mut py).unwrap(), val as u64);
}

#[test]
fn int_to_float() {
    let mut py = Python::acquire_gil(Interp::new());
    let val = 123 as i32;
    let obj = val.to_py_object(&mut py).into_object();
    assert_eq!(f64::from_bits(obj.extract::<Double>(&mut py).unwrap().bits), val as f64);
}

#[test]
fn round_trip_at_the_limits_of_each_type() {
    let mut py = Python::acquire_gil(Interp::new());
    for v in [i8::MIN, -1, 0, i8::MAX] {
        let obj = v.to_py_object(&mut py).into_object();
        assert_eq!(obj.extract::<i8>(&mut py).unwrap(), v);
    }
    for v in [0, u8::MAX] {
        let obj = v.to_py_object(&mut py).into_object();
        assert_eq!(obj.extract::<u8>(&mut py).unwrap(), v);
    }
    for v in [i16::MIN, -1, i16::MAX] {
        let obj = v.to_py_object(&mut py).into_object();
        assert_eq!(obj.extract::<i16>(&mut py).unwrap(), v);
    }
    for v in [0, u16::MAX] {
        let obj = v.to_py_object(&mut py).into_object();
        assert_eq!(obj.extract::<u16>(&mut py).unwrap(), v);
    }
    for v in [i32::MIN, -1, i32::MAX] {
        let obj = v.to_py_object(&mut py).into_object();
        assert_eq!(obj.extract::<i32>(&mut py).unwrap(), v);
    }
    for v in [0, u32::MAX] {
        let obj = v.to_py_object(&mut py).into_object();
        assert_eq!(obj.extract::<u32>(&mut py).unwrap(), v);
    }
    for v in [i64::MIN, -1, i64::MAX] {
        let obj = v.to_py_object(&mut py).into_object();
        assert_eq!(obj.extract::<i64>(&mut py).unwrap(), v);
    }
    for v in [0, u64::MAX - 1, u64::MAX] {
        let obj = v.to_py_object(&mut py).into_object();
        assert_eq!(obj.extract::<u64>(&mut py).unwrap(), v);
    }
    for v in [isize::MIN, -1, isize::MAX] {
        let obj = v.to_py_object(&mut py).into_object();
        assert_eq!(obj.extract::<isize>(&mut py).unwrap(), v);
    }
    for v in [0, usize::MAX] {
        let obj = v.to_py_object(&mut py).into_object();
        assert_eq!(obj.extract::<usize>(&mut py).unwrap(), v);
    }
    for x in [0.0, -0.0, -1.0, 1.5, f64::MAX, f64::MIN_POSITIVE, f64::INFINITY, f64::NAN] {
        let v = double(x);
        let obj = v.to_py_object(&mut py).into_object();
        assert_eq!(obj.extract::<Double>(&mut py).unwrap(), v);
    }
    assert!(!py.err_occurred());
}

#[test]
fn unsigned_max_as_signed_of_same_width_overflows() {
    let mut py = Python::acquire_gil(Interp::new());
    let obj = u8::MAX.to_py_object(&mut py).into_object();
    assert_eq!(obj.extract::<i8>(&mut py).unwrap_err().kind(), ErrorKind::Overflow);
    assert_eq!(obj.extract::<u16>(&mut py).unwrap(), 255);
    let obj = u16::MAX.to_py_object(&mut py).into_object();
    assert_eq!(obj.extract::<i16>(&mut py).unwrap_err().kind(), ErrorKind::Overflow);
    assert_eq!(obj.extract::<u32>(&mut py).unwrap(), 65535);
    let obj = u32::MAX.to_py_object(&mut py).into_object();
    assert_eq!(obj.extract::<i32>(&mut py).unwrap_err().kind(), ErrorKind::Overflow);
    assert_eq!(obj.extract::<u64>(&mut py).unwrap(), 4294967295);
    let obj = u64::MAX.to_py_object(&mut py).into_object();
    assert_eq!(obj.extract::<i64>(&mut py).unwrap_err().kind(), ErrorKind::Overflow);
    let obj = usize::MAX.to_py_object(&mut py).into_object();
    assert_eq!(obj.extract::<isize>(&mut py).unwrap_err().kind(), ErrorKind::Overflow);
    assert_eq!(obj.extract::<u64>(&mut py).unwrap(), usize::MAX as u64);
    assert!(!py.err_occurred());
}

#[test]
fn each_narrow_type_rejects_what_it_cannot_hold() {
    let mut py = Python::acquire_gil(Interp::new());
    let obj = 128i64.to_py_object(&mut py).into_object();
    assert!(obj.extract::<i8>(&mut py).unwrap_err().matches(ExcType::OverflowError));
    assert_eq!(obj.extract::<u8>(&mut py).unwrap(), 128);
    let obj = 256i64.to_py_object(&mut py).into_object();
    assert!(obj.extract::<u8>(&mut py).unwrap_err().matches(ExcType::OverflowError));
    let obj = (-32769i64).to_py_object(&mut py).into_object();
    assert!(obj.extract::<i16>(&mut py).unwrap_err().matches(ExcType::OverflowError));
    assert!(obj.extract::<u16>(&mut py).unwrap_err().matches(ExcType::OverflowError));
    assert_eq!(obj.extract::<i32>(&mut py).unwrap(), -32769);
    let obj = 65536i64.to_py_object(&mut py).into_object();
    assert!(obj.extract::<u16>(&mut py).unwrap_err().matches(ExcType::OverflowError));
    let obj = 2147483648i64.to_py_object(&mut py).into_object();
    assert!(obj.extract::<i32>(&mut py).unwrap_err().matches(ExcType::OverflowError));
    assert_eq!(obj.extract::<u32>(&mut py).unwrap(), 2147483648);
    let obj = 4294967296i64.to_py_object(&mut py).into_object();
    assert!(obj.extract::<u32>(&mut py).unwrap_err().matches(ExcType::OverflowError));
    assert_eq!(obj.extract::<i64>(&mut py).unwrap(), 4294967296);
    assert_eq!(obj.extract::<isize>(&mut py).unwrap(), 4294967296);
    assert_eq!(obj.extract::<usize>(&mut py).unwrap(), 4294967296);
    let obj = (-2i64).to_py_object(&mut py).into_object();
    assert!(obj.extract::<u32>(&mut py).unwrap_err().matches(ExcType::OverflowError));
    assert!(obj.extract::<u64>(&mut py).unwrap_err().matches(ExcType::OverflowError));
    assert!(obj.extract::<usize>(&mut py).unwrap_err().matches(ExcType::OverflowError));
    assert!(!py.err_occurred());
}

#[test]
fn minus_one_float_is_a_value_not_an_error() {
    let mut py = Python::acquire_gil(Interp::new());
    let obj = PyFloat::new(&mut py, (-1.0f64).to_bits());
    assert_eq!(f64::from_bits(obj.value(&mut py)), -1.0f64);
    let obj = obj.into_object();
    let v = obj.extract::<Double>(&mut py).unwrap();
    assert_eq!(f64::from_bits(v.bits), -1.0f64);
    assert!(!py.err_occurred());
    assert_eq!(py.peek_pending(), None);
}

#[test]
fn sentinel_values_of_the_integer_accessors_are_values() {
    let mut py = Python::acquire_gil(Interp::new());
    let obj = (-1i32).to_py_object(&mut py).into_object();
    assert_eq!(obj.extract::<i32>(&mut py).unwrap(), -1);
    assert_eq!(obj.extract::<i64>(&mut py).unwrap(), -1);
    assert_eq!(extract_long(&mut py, &obj).unwrap(), -1);
    let obj = u64::MAX.to_py_object(&mut py).into_object();
    assert_eq!(obj.extract::<u64>(&mut py).unwrap(), u64::MAX);
    assert!(!py.err_occurred());
}

#[test]
fn sentinel_with_an_older_exception_pending_takes_that_exception() {
    let mut py = Python::acquire_gil(Interp::new());
    let obj = (-1i32).to_py_object(&mut py).into_object();
    let older = ErrState { ptype: ExcType::Other(7), pvalue: NULL, ptraceback: NULL };
    py.err_restore(Some(older));
    let err = obj.extract::<i32>(&mut py).unwrap_err();
    assert_eq!(err.ptype, ExcType::Other(7));
    assert_eq!(err.kind(), ErrorKind::ForeignPending);
    assert!(!py.err_occurred());
    let two = 2i32.to_py_object(&mut py).into_object();
    py.err_restore(Some(older));
    assert_eq!(two.extract::<i32>(&mut py).unwrap(), 2);
    assert_eq!(py.peek_pending(), Some(older));
}

#[test]
fn err_if_invalid_value_decides_by_value_and_pending_exception() {
    let mut py = Python::acquire_gil(Interp::new());
    assert_eq!(err_if_invalid_value(&mut py, u64::MAX, u64::MAX).unwrap(), u64::MAX);
    assert_eq!(err_if_invalid_value(&mut py, 5u64, u64::MAX).unwrap(), 5);
    let st = ErrState { ptype: ExcType::ValueError, pvalue: NULL, ptraceback: NULL };
    py.err_restore(Some(st));
    assert_eq!(err_if_invalid_value(&mut py, 5u64, u64::MAX).unwrap(), 5);
    assert_eq!(py.peek_pending(), Some(st));
    let err = err_if_invalid_value(&mut py, u64::MAX, u64::MAX).unwrap_err();
    assert_eq!(err.ptype, ExcType::ValueError);
    assert!(err.pvalue.is_none());
    assert_eq!(py.peek_pending(), None);
}

#[test]
fn what_is_no_number_is_a_type_mismatch() {
    let mut py = Python::acquire_gil(Interp::new());
    let t = PyTuple::new(&mut py, &Vec::new()).into_object();
    assert_eq!(t.extract::<i32>(&mut py).unwrap_err().kind(), ErrorKind::TypeMismatch);
    assert_eq!(t.extract::<u64>(&mut py).unwrap_err().kind(), ErrorKind::TypeMismatch);
    assert_eq!(t.extract::<usize>(&mut py).unwrap_err().kind(), ErrorKind::TypeMismatch);
    assert_eq!(t.extract::<Double>(&mut py).unwrap_err().kind(), ErrorKind::TypeMismatch);
    assert!(!py.err_occurred());
}

#[test]
fn float_is_cut_towards_zero_when_read_as_integer() {
    let mut py = Python::acquire_gil(Interp::new());
    let obj = double(-2.75).to_py_object(&mut py).into_object();
    assert_eq!(obj.extract::<i32>(&mut py).unwrap(), -2);
    assert!(obj.extract::<u64>(&mut py).unwrap_err().matches(ExcType::OverflowError));
    let obj = double(0.99).to_py_object(&mut py).into_object();
    assert_eq!(obj.extract::<u64>(&mut py).unwrap(), 0);
    let obj = double(1e19).to_py_object(&mut py).into_object();
    assert_eq!(obj.extract::<u64>(&mut py).unwrap(), 10000000000000000000);
    assert!(obj.extract::<i64>(&mut py).unwrap_err().matches(ExcType::OverflowError));
    let obj = double(f64::INFINITY).to_py_object(&mut py).into_object();
    assert!(obj.extract::<i64>(&mut py).unwrap_err().matches(ExcType::OverflowError));
    let obj = double(f64::NAN).to_py_object(&mut py).into_object();
    assert!(obj.extract::<u64>(&mut py).unwrap_err().matches(ExcType::ValueError));
    assert!(!py.err_occurred());
}

#[test]
fn converting_a_float_for_the_unsigned_accessor_leaves_one_dead_object() {
    let mut py = Python::acquire_gil(Interp::new());
    let obj = double(7.0).to_py_object(&mut py).into_object();
    assert_eq!(py.heap_len(), 1);
    assert_eq!(obj.extract::<u64>(&mut py).unwrap(), 7);
    assert_eq!(py.heap_len(), 2);
    assert_eq!(py.refcnt(2), 0);
    assert_eq!(py.refcnt(1), 1);
    let seven = 7u64.to_py_object(&mut py).into_object();
    assert_eq!(py.heap_len(), 3);
    assert_eq!(seven.extract::<u64>(&mut py).unwrap(), 7);
    assert_eq!(py.heap_len(), 3);
}

#[test]
fn converting_a_float_for_the_native_accessor_leaves_one_dead_object() {
    let mut py = Python::acquire_gil(Interp::new());
    let obj = double(123.0).to_py_object(&mut py).into_object();
    assert_eq!(py.heap_len(), 1);
    assert_eq!(obj.extract::<i32>(&mut py).unwrap(), 123);
    assert_eq!(py.heap_len(), 2);
    assert_eq!(py.refcnt(2), 0);
    assert_eq!(py.refcnt(1), 1);
    assert_eq!(extract_long(&mut py, &obj).unwrap(), 123);
    assert_eq!(py.heap_len(), 3);
    assert_eq!(py.refcnt(3), 0);
    let n = 123i32.to_py_object(&mut py).into_object();
    assert_eq!(py.heap_len(), 4);
    assert_eq!(n.extract::<i32>(&mut py).unwrap(), 123);
    assert_eq!(extract_long(&mut py, &n).unwrap(), 123);
    assert_eq!(py.heap_len(), 4);
    assert_eq!(py.refcnt(4), 1);
    let t = PyTuple::new(&mut py, &Vec::new()).into_object();
    assert!(extract_long(&mut py, &t).unwrap_err().matches(ExcType::TypeError));
    assert_eq!(py.heap_len(), 5);
    assert!(!py.err_occurred());
}

#[test]
fn a_double_beyond_the_range_of_a_single_is_an_overflow() {
    let mut py = Python::acquire_gil(Interp::new());
    for x in [0.0, -1.0, 123.0, f32::MAX as f64, -(f32::MAX as f64), 1e-300] {
        let obj = double(x).to_py_object(&mut py).into_object();
        assert_eq!(extract_single(&mut py, &obj).unwrap(), double(x));
    }
    for x in [f64::INFINITY, f64::NEG_INFINITY, f64::NAN] {
        let obj = double(x).to_py_object(&mut py).into_object();
        assert_eq!(extract_single(&mut py, &obj).unwrap(), double(x));
    }
    for x in [1e39, -1e39, f64::MAX, f64::MIN, 3.4028235e38 * 1.0000001] {
        let obj = double(x).to_py_object(&mut py).into_object();
        assert_eq!(extract_single(&mut py, &obj).unwrap_err().kind(), ErrorKind::Overflow);
    }
    let n = 7i32.to_py_object(&mut py).into_object();
    assert_eq!(extract_single(&mut py, &n).unwrap(), double(7.0));
    let t = PyTuple::new(&mut py, &Vec::new()).into_object();
    assert_eq!(extract_single(&mut py, &t).unwrap_err().kind(), ErrorKind::TypeMismatch);
    assert!(!py.err_occurred());
    assert!(double_fits_single((f32::MAX as f64).to_bits()));
    assert!(!double_fits_single((f32::MAX as f64).to_bits() + 1));
    assert!(!double_fits_single((f64::MAX).to_bits()));
    assert!(double_fits_single(f64::INFINITY.to_bits()));
}

#[test]
fn overflow_error_is_lazy() {
    let py = Python::acquire_gil(Interp::new());
    let err = overflow_error(&py);
    assert_eq!(err.ptype, ExcType::OverflowError);
    assert!(err.pvalue.is_none());
    assert!(err.ptraceback.is_none());
    assert_eq!(py.heap_len(), 0);
    assert!(!py.err_occurred());
}

#[test]
fn typed_views_of_numbers_check_the_type() {
    let mut py = Python::acquire_gil(Interp::new());
    let n = 5i32.to_py_object(&mut py).into_object();
    assert!(PyLong::type_check(&py, &n));
    assert!(!PyFloat::type_check(&py, &n));
    let before = n.get_refcnt(&py);
    let n: PyObject = match PyFloat::downcast_from(&py, n) {
        Ok(_) => panic!("an int is no float"),
        Err(obj) => obj,
    };
    assert_eq!(n.as_ptr(), 1);
    assert_eq!(n.get_refcnt(&py), before);
    let n = PyLong::downcast_from(&py, n).unwrap();
    assert_eq!(n.as_ptr(), 1);
    assert_eq!(n.as_object().get_refcnt(&py), before);
    let f = PyFloat::new(&mut py, 2.5f64.to_bits());
    assert_eq!(f64::from_bits(f.value(&mut py)), 2.5);
    let f = f.into_object();
    let f = PyFloat::unchecked_downcast_from(&py, f);
    assert_eq!(f64::from_bits(f.value(&mut py)), 2.5);
}
