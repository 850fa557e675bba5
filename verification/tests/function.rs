use cpython::argparse::{
    extract_arg, find_key, is_param, parse_args, resolve_args, ArgError, ArgSource, ArgValue,
    ParamDescription, ParamType,
};
use cpython::conversion::ToPyObject;
use cpython::err::{ErrorKind, PyErr, PyResult};
use cpython::function::{begin_call, call, end_call, py_fn_impl, MethFlags, PyMethodDef};
use cpython::objects::{Double, PyDict, PyInt, PyLong, PyObject, PyTuple};
use cpython::python::{
    ErrState, ExcType, Interp, Python, PythonObject, PythonObjectWithCheckedDowncast, NULL,
};

fn param(name: &str, ty: ParamType) -> ParamDescription {
    ParamDescription { name: name.to_string(), ty }
}

fn a_i32_b_f64() -> Vec<ParamDescription> {
    vec![param("a", ParamType::I32), param("b", ParamType::Double)]
}

fn names(list: &[&str]) -> Vec<String> {
    list.iter().map(|s| s.to_string()).collect()
}

fn double(x: f64) -> Double {
    Double { bits: x.to_bits() }
}

#[test]
fn tuple_holds_its_items_in_order() {
    let mut py = Python::acquire_gil(Interp::new());
    let a = 3i32.to_py_object(&mut py).into_object();
    let b = 4i32.to_py_object(&mut py).into_object();
    let t = PyTuple::new(&mut py, &vec![a, b]);
    assert_eq!(t.len(&py), 2);
    assert_eq!(py.refcnt(t.as_ptr()), 1);
    let first = t.get_item(&mut py, 0);
    assert_eq!(first.as_ptr(), 1);
    assert_eq!(py.refcnt(1), 2);
    assert_eq!(first.extract::<i32>(&mut py).unwrap(), 3);
    let second = t.get_item(&mut py, 1);
    assert_eq!(second.extract::<i32>(&mut py).unwrap(), 4);
    first.release(&mut py);
    assert_eq!(py.refcnt(1), 1);
    let t = t.into_object();
    assert!(PyTuple::type_check(&py, &t));
    assert!(!PyDict::type_check(&py, &t));
    assert!(PyDict::downcast_from(&py, t).is_err());
}

#[test]
fn dict_finds_values_by_key() {
    let mut py = Python::acquire_gil(Interp::new());
    let a = 3i32.to_py_object(&mut py).into_object();
    let b = double(4.0).to_py_object(&mut py).into_object();
    let d = PyDict::new(&mut py);
    assert_eq!(d.len(&py), 0);
    assert!(d.get_item(&mut py, &"a".to_string()).is_none());
    d.set_item(&mut py, "b".to_string(), &b);
    d.set_item(&mut py, "a".to_string(), &a);
    assert_eq!(d.len(&py), 2);
    let got = d.get_item(&mut py, &"a".to_string()).unwrap();
    assert_eq!(got.as_ptr(), a.as_ptr());
    assert_eq!(a.get_refcnt(&py), 2);
    let got = d.get_item(&mut py, &"b".to_string()).unwrap();
    assert_eq!(got.as_ptr(), b.as_ptr());
    assert!(d.get_item(&mut py, &"c".to_string()).is_none());
    assert_eq!(py.dict_key_list(d.as_ptr()), names(&["b", "a"]));
    let d = d.into_object();
    assert!(PyDict::downcast_from(&py, d).is_ok());
}

#[test]
fn dict_replaces_the_value_of_a_key_it_has() {
    let mut py = Python::acquire_gil(Interp::new());
    let one = 1i32.to_py_object(&mut py).into_object();
    let two = 2i32.to_py_object(&mut py).into_object();
    let three = 3i32.to_py_object(&mut py).into_object();
    let d = PyDict::new(&mut py);
    d.set_item(&mut py, "x".to_string(), &one);
    d.set_item(&mut py, "y".to_string(), &two);
    d.set_item(&mut py, "x".to_string(), &three);
    assert_eq!(d.len(&py), 2);
    assert_eq!(py.dict_key_list(d.as_ptr()), names(&["x", "y"]));
    let x = d.get_item(&mut py, &"x".to_string()).unwrap();
    assert_eq!(x.extract::<i32>(&mut py).unwrap(), 3);
    let y = d.get_item(&mut py, &"y".to_string()).unwrap();
    assert_eq!(y.extract::<i32>(&mut py).unwrap(), 2);
}

#[test]
fn small_int_view_reads_its_value_without_a_check() {
    let mut py = Python::acquire_gil(Interp::new());
    let n = PyInt::new(&mut py, -7);
    assert_eq!(n.value(&py), -7);
    assert_eq!(n.as_ptr(), 1);
    let n = n.into_object();
    assert!(PyInt::type_check(&py, &n));
    assert!(PyLong::type_check(&py, &n));
    assert_eq!(n.extract::<i8>(&mut py).unwrap(), -7);
    let n = PyInt::downcast_from(&py, n).unwrap();
    assert_eq!(n.value(&py), -7);
    let big = u64::MAX.to_py_object(&mut py).into_object();
    assert!(!PyInt::type_check(&py, &big));
    assert!(PyLong::type_check(&py, &big));
    assert!(PyInt::downcast_from(&py, big).is_err());
    let f = double(1.0).to_py_object(&mut py).into_object();
    assert!(!PyInt::type_check(&py, &f));
    let limit = PyInt::new(&mut py, i64::MIN);
    assert_eq!(limit.value(&py), i64::MIN);
}

#[test]
fn integers_beyond_64_bits_overflow_every_type() {
    let mut py = Python::acquire_gil(Interp::new());
    let ptr = py.long_from_native_bytes(1i128 << 64);
    let big = PyObject::from_owned_ptr(&py, ptr);
    assert_eq!(big.extract::<u64>(&mut py).unwrap_err().kind(), ErrorKind::Overflow);
    assert_eq!(big.extract::<i64>(&mut py).unwrap_err().kind(), ErrorKind::Overflow);
    assert_eq!(big.extract::<usize>(&mut py).unwrap_err().kind(), ErrorKind::Overflow);
    assert_eq!(
        f64::from_bits(big.extract::<Double>(&mut py).unwrap().bits),
        18446744073709551616.0
    );
    let ptr = py.object_new();
    let other = PyObject::from_owned_ptr(&py, ptr);
    assert_eq!(other.extract::<i64>(&mut py).unwrap_err().kind(), ErrorKind::TypeMismatch);
    assert!(!py.err_occurred());
}

#[test]
fn resolve_positional_arguments() {
    let params = a_i32_b_f64();
    assert_eq!(
        resolve_args(&params, 2, &names(&[])),
        Ok(vec![ArgSource::Positional(0), ArgSource::Positional(1)])
    );
}

#[test]
fn resolve_keyword_arguments_in_any_order() {
    let params = a_i32_b_f64();
    assert_eq!(
        resolve_args(&params, 0, &names(&["b", "a"])),
        Ok(vec![ArgSource::Keyword(1), ArgSource::Keyword(0)])
    );
    assert_eq!(
        resolve_args(&params, 1, &names(&["b"])),
        Ok(vec![ArgSource::Positional(0), ArgSource::Keyword(0)])
    );
}

#[test]
fn resolve_reports_the_first_thing_that_is_wrong() {
    let params = a_i32_b_f64();
    assert_eq!(resolve_args(&params, 3, &names(&[])), Err(ArgError::TooManyArguments));
    assert_eq!(resolve_args(&params, 2, &names(&["a"])), Err(ArgError::TooManyArguments));
    assert_eq!(resolve_args(&params, 1, &names(&[])), Err(ArgError::Missing(1)));
    assert_eq!(resolve_args(&params, 0, &names(&[])), Err(ArgError::Missing(0)));
    assert_eq!(resolve_args(&params, 0, &names(&["b"])), Err(ArgError::Missing(0)));
    assert_eq!(resolve_args(&params, 1, &names(&["a"])), Err(ArgError::GivenTwice(0)));
    assert_eq!(resolve_args(&params, 1, &names(&["c"])), Err(ArgError::Missing(1)));
    let three = vec![
        param("a", ParamType::I32),
        param("b", ParamType::I32),
        param("c", ParamType::I32),
    ];
    assert_eq!(resolve_args(&three, 2, &names(&["c"])).unwrap().len(), 3);
    assert_eq!(
        resolve_args(&vec![], 0, &names(&[])),
        Ok(vec![])
    );
    assert_eq!(resolve_args(&three, 0, &names(&["c", "b", "x"])), Err(ArgError::Missing(0)));
    let same = vec![param("a", ParamType::I32), param("a", ParamType::I32)];
    assert_eq!(
        resolve_args(&same, 0, &names(&["a", "z"])),
        Err(ArgError::UnknownKeyword(1))
    );
}

#[test]
fn find_key_and_is_param() {
    let keys = names(&["x", "y", "x"]);
    assert_eq!(find_key(&keys, &"x".to_string()), Some(0));
    assert_eq!(find_key(&keys, &"y".to_string()), Some(1));
    assert_eq!(find_key(&keys, &"z".to_string()), None);
    let params = a_i32_b_f64();
    assert!(is_param(&params, &"b".to_string()));
    assert!(!is_param(&params, &"c".to_string()));
}

#[test]
fn extract_arg_reads_each_type() {
    let mut py = Python::acquire_gil(Interp::new());
    let n = 100i32.to_py_object(&mut py).into_object();
    assert_eq!(extract_arg(&mut py, &n, ParamType::I8).unwrap(), ArgValue::I8(100));
    assert_eq!(extract_arg(&mut py, &n, ParamType::U8).unwrap(), ArgValue::U8(100));
    assert_eq!(extract_arg(&mut py, &n, ParamType::I16).unwrap(), ArgValue::I16(100));
    assert_eq!(extract_arg(&mut py, &n, ParamType::U16).unwrap(), ArgValue::U16(100));
    assert_eq!(extract_arg(&mut py, &n, ParamType::I32).unwrap(), ArgValue::I32(100));
    assert_eq!(extract_arg(&mut py, &n, ParamType::U32).unwrap(), ArgValue::U32(100));
    assert_eq!(extract_arg(&mut py, &n, ParamType::I64).unwrap(), ArgValue::I64(100));
    assert_eq!(extract_arg(&mut py, &n, ParamType::U64).unwrap(), ArgValue::U64(100));
    assert_eq!(extract_arg(&mut py, &n, ParamType::Isize).unwrap(), ArgValue::Isize(100));
    assert_eq!(extract_arg(&mut py, &n, ParamType::Usize).unwrap(), ArgValue::Usize(100));
    assert_eq!(
        extract_arg(&mut py, &n, ParamType::Double).unwrap(),
        ArgValue::Double(double(100.0))
    );
    let big = 1000i32.to_py_object(&mut py).into_object();
    assert_eq!(
        extract_arg(&mut py, &big, ParamType::I8).unwrap_err().kind(),
        ErrorKind::Overflow
    );
}

#[test]
fn parse_positional_arguments() {
    let mut py = Python::acquire_gil(Interp::new());
    let three = 3i32.to_py_object(&mut py).into_object();
    let four = 4i32.to_py_object(&mut py).into_object();
    let args = PyTuple::new(&mut py, &vec![three, four]);
    let parsed = parse_args(&mut py, &a_i32_b_f64(), &args, None).unwrap();
    assert_eq!(parsed, vec![ArgValue::I32(3), ArgValue::Double(double(4.0))]);
    assert_eq!(py.refcnt(1), 1);
    assert_eq!(py.refcnt(2), 1);
    assert!(!py.err_occurred());
}

#[test]
fn parse_with_one_argument_missing_is_an_argument_error() {
    let mut py = Python::acquire_gil(Interp::new());
    let three = 3i32.to_py_object(&mut py).into_object();
    let args = PyTuple::new(&mut py, &vec![three]);
    let err = parse_args(&mut py, &a_i32_b_f64(), &args, None).unwrap_err();
    assert_eq!(err.kind(), ErrorKind::ArgumentError);
    assert_eq!(err.ptype, ExcType::ArgumentError);
    assert!(err.pvalue.is_none());
    assert!(!py.err_occurred());
    assert_eq!(py.heap_len(), 2);
}

#[test]
fn parse_keyword_arguments_gives_the_same_as_positional() {
    let mut py = Python::acquire_gil(Interp::new());
    let three = 3i32.to_py_object(&mut py).into_object();
    let four = double(4.0).to_py_object(&mut py).into_object();
    let args = PyTuple::new(&mut py, &Vec::new());
    let kwargs = PyDict::new(&mut py);
    kwargs.set_item(&mut py, "b".to_string(), &four);
    kwargs.set_item(&mut py, "a".to_string(), &three);
    let parsed = parse_args(&mut py, &a_i32_b_f64(), &args, Some(&kwargs)).unwrap();
    assert_eq!(parsed, vec![ArgValue::I32(3), ArgValue::Double(double(4.0))]);
    let empty = PyDict::new(&mut py);
    let err = parse_args(&mut py, &a_i32_b_f64(), &args, Some(&empty)).unwrap_err();
    assert_eq!(err.kind(), ErrorKind::ArgumentError);
}

#[test]
fn parse_rejects_extra_and_unknown_arguments() {
    let mut py = Python::acquire_gil(Interp::new());
    let a = 1i32.to_py_object(&mut py).into_object();
    let b = 2i32.to_py_object(&mut py).into_object();
    let c = 3i32.to_py_object(&mut py).into_object();
    let kwargs = PyDict::new(&mut py);
    kwargs.set_item(&mut py, "c".to_string(), &c);
    let one = PyTuple::new(&mut py, &vec![a]);
    let params = a_i32_b_f64();
    let err = parse_args(&mut py, &params, &one, Some(&kwargs)).unwrap_err();
    assert_eq!(err.kind(), ErrorKind::ArgumentError);
    let a = PyObject::from_borrowed_ptr(&mut py, 1);
    let three = PyTuple::new(&mut py, &vec![a, b, c]);
    let err = parse_args(&mut py, &params, &three, None).unwrap_err();
    assert_eq!(err.kind(), ErrorKind::ArgumentError);
    let twice = PyDict::new(&mut py);
    let a = PyObject::from_borrowed_ptr(&mut py, 1);
    twice.set_item(&mut py, "a".to_string(), &a);
    let err = parse_args(&mut py, &params, &one, Some(&twice)).unwrap_err();
    assert_eq!(err.kind(), ErrorKind::ArgumentError);
}

#[test]
fn parse_passes_a_conversion_failure_on_as_it_is() {
    let mut py = Python::acquire_gil(Interp::new());
    let big = (1i64 << 40).to_py_object(&mut py).into_object();
    let four = 4i32.to_py_object(&mut py).into_object();
    let args = PyTuple::new(&mut py, &vec![big, four]);
    let err = parse_args(&mut py, &a_i32_b_f64(), &args, None).unwrap_err();
    assert_eq!(err.kind(), ErrorKind::Overflow);
    let inner = PyTuple::new(&mut py, &Vec::new()).into_object();
    let three = 3i32.to_py_object(&mut py).into_object();
    let args = PyTuple::new(&mut py, &vec![three, inner]);
    let err = parse_args(&mut py, &a_i32_b_f64(), &args, None).unwrap_err();
    assert_eq!(err.kind(), ErrorKind::TypeMismatch);
    assert!(!py.err_occurred());
}

fn sum(py: Python, args: Vec<ArgValue>) -> (Python, PyResult<i64>) {
    let a = match args[0] {
        ArgValue::I32(a) => a as i64,
        _ => unreachable!(),
    };
    let b = match args[1] {
        ArgValue::Double(b) => f64::from_bits(b.bits) as i64,
        _ => unreachable!(),
    };
    (py, Ok(a + b))
}

fn fail(py: Python, _args: Vec<ArgValue>) -> (Python, PyResult<i64>) {
    (py, Err(PyErr::new_lazy_init(ExcType::Other(42), None)))
}

fn args_3_4(py: &mut Python) -> usize {
    let three = 3i32.to_py_object(py).into_object();
    let four = 4i32.to_py_object(py).into_object();
    PyTuple::new(py, &vec![three, four]).into_object().steal_ptr()
}

#[test]
fn call_returns_the_result_as_a_new_object() {
    let mut py = Python::acquire_gil(Interp::new());
    let args = args_3_4(&mut py);
    let mut interp = py.release();
    interp.lock();
    let (mut interp, ret) = call(&a_i32_b_f64(), sum, interp, args, NULL);
    assert!(interp.is_locked());
    assert!(!interp.has_pending());
    assert_ne!(ret, NULL);
    assert_eq!(interp.refcnt(ret), 1);
    assert_eq!(interp.refcnt(args), 1);
    interp.unlock();
    let mut py = Python::acquire_gil(interp);
    let result = PyObject::from_owned_ptr(&py, ret);
    assert_eq!(result.extract::<i64>(&mut py).unwrap(), 7);
}

#[test]
fn call_with_keywords_gives_the_same_result() {
    let mut py = Python::acquire_gil(Interp::new());
    let three = 3i32.to_py_object(&mut py).into_object();
    let four = double(4.0).to_py_object(&mut py).into_object();
    let args = PyTuple::new(&mut py, &Vec::new());
    let kwargs = PyDict::new(&mut py);
    kwargs.set_item(&mut py, "b".to_string(), &four);
    kwargs.set_item(&mut py, "a".to_string(), &three);
    let (args, kwargs) = (args.as_ptr(), kwargs.as_ptr());
    let mut interp = py.release();
    interp.lock();
    let (interp, ret) = call(&a_i32_b_f64(), sum, interp, args, kwargs);
    assert_ne!(ret, NULL);
    assert_eq!(interp.refcnt(args), 1);
    assert_eq!(interp.refcnt(kwargs), 1);
    let mut py = Python::assume_gil_acquired(interp);
    let result = PyObject::from_owned_ptr(&py, ret);
    assert_eq!(result.extract::<i64>(&mut py).unwrap(), 7);
}

#[test]
fn call_with_wrong_arguments_returns_null_and_sets_the_exception() {
    let mut py = Python::acquire_gil(Interp::new());
    let three = 3i32.to_py_object(&mut py).into_object();
    let args = PyTuple::new(&mut py, &vec![three]).as_ptr();
    let mut interp = py.release();
    interp.lock();
    let (interp, ret) = call(&a_i32_b_f64(), sum, interp, args, NULL);
    assert_eq!(ret, NULL);
    assert!(interp.has_pending());
    assert!(interp.is_locked());
    let mut py = Python::assume_gil_acquired(interp);
    assert_eq!(
        py.peek_pending(),
        Some(ErrState { ptype: ExcType::ArgumentError, pvalue: NULL, ptraceback: NULL })
    );
    assert_eq!(PyErr::fetch(&mut py).kind(), ErrorKind::ArgumentError);
    assert_eq!(py.refcnt(args), 1);
}

#[test]
fn call_hands_the_error_of_the_function_to_the_interpreter() {
    let mut py = Python::acquire_gil(Interp::new());
    let args = args_3_4(&mut py);
    let len = py.heap_len();
    let mut interp = py.release();
    interp.lock();
    let (interp, ret) = call(&a_i32_b_f64(), fail, interp, args, NULL);
    assert_eq!(ret, NULL);
    let mut py = Python::assume_gil_acquired(interp);
    assert_eq!(py.heap_len(), len);
    assert_eq!(PyErr::fetch(&mut py).ptype, ExcType::Other(42));
}

#[test]
fn begin_and_end_call_count_the_arguments_up_and_down() {
    let mut py = Python::acquire_gil(Interp::new());
    let args = args_3_4(&mut py);
    let kwargs = PyDict::new(&mut py).as_ptr();
    let mut interp = py.release();
    interp.lock();
    let (py, args_view, kwargs_view) = begin_call(interp, args, kwargs);
    assert!(!py.is_owner());
    assert_eq!(py.refcnt(args), 2);
    assert_eq!(py.refcnt(kwargs), 2);
    assert_eq!(args_view.as_ptr(), args);
    assert_eq!(kwargs_view.as_ref().unwrap().as_ptr(), kwargs);
    let (interp, ret) = end_call(py, args_view, kwargs_view, Ok(5u8));
    assert_eq!(interp.refcnt(args), 1);
    assert_eq!(interp.refcnt(kwargs), 1);
    assert_eq!(interp.refcnt(ret), 1);
    let (py, args_view, kwargs_view) = begin_call(interp, args, NULL);
    assert!(kwargs_view.is_none());
    let failed: PyResult<u8> = Err(PyErr::new_lazy_init(ExcType::ValueError, None));
    let (interp, ret) = end_call(py, args_view, kwargs_view, failed);
    assert_eq!(ret, NULL);
    assert!(interp.has_pending());
    assert!(interp.is_locked());
}

#[test]
fn registered_function_becomes_a_callable_object() {
    let mut py = Python::acquire_gil(Interp::new());
    let f = py_fn_impl(PyMethodDef {
        ml_name: "sum".to_string(),
        ml_flags: MethFlags::VarArgsKeywords,
        ml_doc: "adds two numbers".to_string(),
    });
    assert_eq!(f.name(), "sum");
    assert_eq!(f.flags(), MethFlags::VarArgsKeywords);
    let obj = f.to_py_object(&mut py);
    assert_eq!(obj.as_ptr(), 1);
    assert_eq!(obj.get_refcnt(&py), 1);
    assert_eq!(obj.extract::<i32>(&mut py).unwrap_err().kind(), ErrorKind::TypeMismatch);
    let again = f.to_py_object(&mut py);
    assert_eq!(again.as_ptr(), 2);
}
