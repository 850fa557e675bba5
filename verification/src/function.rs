//! Rust functions as callables of the interpreter.
//!
//! A function is registered by a method definition ([`PyMethodDef`], [`py_fn_impl`]),
//! from which the interpreter makes a callable object. When the interpreter calls that
//! object, it enters [`call`] with the lock held and with the addresses of the arguments;
//! what it gets back is the address of the result, or the null pointer and a pending
//! exception.

use crate::argparse::{
    arg_values, args_match, argument_error, names_of, parse_args, parse_from, types_of,
    with_temps, ArgValue, ParamDescription,
};
use crate::conversion::ToPyObject;
use crate::err::{decrefed_opt, PyResult};
use crate::ffi::tuple_items;
use crate::objects::dict::PyDict;
use crate::objects::object::PyObject;
use crate::objects::tuple::PyTuple;
use crate::python::{
    decrefed, increfed, live_in, ErrState, Interp, Object, Python, PythonObject, Value, NULL,
};
use vstd::prelude::*;

verus! {

/// How the interpreter calls a function.
#[derive(Clone, Copy, Debug, PartialEq, Eq, Structural)]
pub enum MethFlags {
    /// With positional arguments only.
    VarArgs,
    /// With positional and keyword arguments.
    VarArgsKeywords,
}

/// A method definition: what the interpreter needs to make a callable.
#[derive(Debug)]
pub struct PyMethodDef {
    /// The name of the function.
    pub ml_name: String,
    /// How the function is called.
    pub ml_flags: MethFlags,
    /// The documentation of the function.
    pub ml_doc: String,
}

/// A registered function. Its `to_py_object` makes the callable.
#[derive(Debug)]
pub struct PyFn(PyMethodDef);

/// Registers the function that `def` describes.
pub fn py_fn_impl(def: PyMethodDef) -> (f: PyFn)
    ensures
        f.def() == def,
{
    PyFn(def)
}

impl PyFn {
    /// The method definition of this function.
    pub closed spec fn def(&self) -> PyMethodDef {
        self.0
    }

    /// The name of this function.
    pub fn name(&self) -> (name: &String)
        ensures
            name == self.def().ml_name,
    {
        &self.0.ml_name
    }

    /// How the interpreter calls this function.
    pub fn flags(&self) -> (flags: MethFlags)
        ensures
            flags == self.def().ml_flags,
    {
        self.0.ml_flags
    }
}

impl ToPyObject for PyFn {
    type ObjectType = PyObject;

    open spec fn py_value(&self) -> Value {
        Value::Function(self.def().ml_name, self.def().ml_flags == MethFlags::VarArgsKeywords)
    }

    fn to_py_object(&self, py: &mut Python) -> (obj: PyObject) {
        let keywords = match self.0.ml_flags {
            MethFlags::VarArgs => false,
            MethFlags::VarArgsKeywords => true,
        };
        let ptr = py.cfunction_new(self.0.ml_name.clone(), keywords);
        PyObject::from_owned_ptr(py, ptr)
    }
}

/// The heap after one more reference was counted behind an address; none behind
/// [`NULL`].
pub open spec fn increfed_opt(heap: Seq<Object>, ptr: usize) -> Seq<Object> {
    if ptr == NULL {
        heap
    } else {
        increfed(heap, ptr)
    }
}

/// Enters a call: makes the lock token for the lock that the interpreter holds, and
/// handles of their own to the tuple of positional arguments at `args` and to the dict
/// of keyword arguments at `kwargs`. A null `kwargs` means that no keyword arguments
/// were supplied, which is not the same as an empty dict.
///
/// That `args` is a tuple and `kwargs` a dict is the interpreter's promise to every
/// function it calls; nothing is checked here.
pub fn begin_call(interp: Interp, args: usize, kwargs: usize) -> (r: (
    Python,
    PyTuple,
    Option<PyDict>,
))
    requires
        interp.locked(),
        live_in(interp.heap(), args),
        interp.heap()[args - 1].refcnt < usize::MAX,
        interp.heap()[args - 1].value is Tuple,
        kwargs != NULL ==> live_in(interp.heap(), kwargs) && interp.heap()[kwargs - 1].refcnt
            < usize::MAX && interp.heap()[kwargs - 1].value is Dict,
    ensures
        r.0.heap() == increfed_opt(increfed(interp.heap(), args), kwargs),
        r.0.pending() == interp.pending(),
        !r.0.owns_lock(),
        r.1.ptr() == args,
        r.2 is Some <==> kwargs != NULL,
        opt_view_ptr(r.2) == kwargs,
{
    let mut py = Python::assume_gil_acquired(interp);
    let args = PyObject::from_borrowed_ptr(&mut py, args);
    let args = PyTuple::unchecked_downcast_from(&py, args);
    let kwargs = match PyObject::from_borrowed_ptr_opt(&mut py, kwargs) {
        Some(kwargs) => Some(PyDict::unchecked_downcast_from(&py, kwargs)),
        None => None,
    };
    (py, args, kwargs)
}

/// The address that stands for an optional dict: [`NULL`] for none.
pub open spec fn opt_view_ptr(d: Option<PyDict>) -> usize {
    match d {
        Some(d) => d.ptr(),
        None => NULL,
    }
}

/// The outcome of a call as the interpreter sees it: the value of the object that stands
/// for the result, or the exception as the slot would hold it.
pub open spec fn outcome_of<R: ToPyObject>(result: PyResult<R>) -> Result<Value, ErrState> {
    match result {
        Ok(val) => Ok(val.py_value()),
        Err(e) => Err(e.state()),
    }
}

/// What the interpreter gets back from a call with the outcome `outcome`, made in the
/// state `heap`, `pending`: the address returned, the heap and the pending exception.
/// The handles to the arguments at `args` and `kwargs` have been given up.
pub open spec fn returned(
    heap: Seq<Object>,
    pending: Option<ErrState>,
    args: usize,
    kwargs: usize,
    outcome: Result<Value, ErrState>,
) -> (usize, Seq<Object>, Option<ErrState>) {
    match outcome {
        Ok(value) => (
            (heap.len() + 1) as usize,
            decrefed_opt(decrefed(heap.push(Object { refcnt: 1, value }), args), kwargs),
            pending,
        ),
        Err(st) => (NULL, decrefed_opt(decrefed(heap, args), kwargs), Some(st)),
    }
}

/// Leaves a call with the outcome `result`. A value becomes an object, whose one
/// reference goes to the interpreter with the address returned. An exception goes into
/// the interpreter's slot, and the null pointer is returned. Either way the handles to
/// the arguments are given up and the token ends; the lock stays with the interpreter.
pub fn end_call<R: ToPyObject>(
    py: Python,
    args: PyTuple,
    kwargs: Option<PyDict>,
    result: PyResult<R>,
) -> (r: (Interp, usize))
    requires
        py.live(args.ptr()),
        kwargs is Some ==> live_in(decrefed(py.heap(), args.ptr()), opt_view_ptr(kwargs)),
    ensures
        r.0.locked() == !py.owns_lock(),
        (r.1, r.0.heap(), r.0.pending()) == returned(
            py.heap(),
            py.pending(),
            args.ptr(),
            opt_view_ptr(kwargs),
            outcome_of(result),
        ),
        result is Ok ==> r.1 != NULL && r.1 == py.heap().len() + 1,
        result is Err ==> r.1 == NULL,
{
    let mut py = py;
    let ret = match result {
        Ok(val) => {
            let obj = val.to_py_object(&mut py);
            obj.into_object().steal_ptr()
        },
        Err(e) => {
            e.restore(&mut py);
            NULL
        },
    };
    args.into_object().release(&mut py);
    match kwargs {
        Some(kwargs) => {
            let _ = kwargs.as_ptr();
            kwargs.into_object().release(&mut py)
        },
        None => {},
    }
    (py.release(), ret)
}

/// The heap in which a call made with the heap `heap` reads its arguments: the handles
/// to `args` and `kwargs` have been made.
pub open spec fn entered(heap: Seq<Object>, args: usize, kwargs: usize) -> Seq<Object> {
    increfed_opt(increfed(heap, args), kwargs)
}

/// The keys of the dict at `kwargs`; none for [`NULL`].
pub open spec fn call_keywords(heap: Seq<Object>, kwargs: usize) -> Seq<Seq<char>> {
    if kwargs == NULL {
        Seq::empty()
    } else {
        crate::ffi::dict_keys(heap[kwargs - 1].value)
    }
}

/// The addresses of the values of the dict at `kwargs`; none for [`NULL`].
pub open spec fn call_keyword_values(heap: Seq<Object>, kwargs: usize) -> Seq<usize> {
    if kwargs == NULL {
        Seq::empty()
    } else {
        crate::ffi::dict_values(heap[kwargs - 1].value)
    }
}

/// The values of the objects that the parameters of a call are read from.
pub open spec fn call_values(
    heap: Seq<Object>,
    params: Seq<ParamDescription>,
    args: usize,
    kwargs: usize,
) -> Seq<Value> {
    Seq::new(
        params.len(),
        |i: int|
            heap[crate::argparse::arg_ptr(
                names_of(params),
                tuple_items(heap[args - 1].value),
                call_keywords(heap, kwargs),
                call_keyword_values(heap, kwargs),
                i,
            ) - 1].value,
    )
}

/// What reading the arguments of a call comes to, where the call is entered with the heap
/// `heap` and with `pending` in the slot.
pub open spec fn call_parse(
    params: Seq<ParamDescription>,
    heap: Seq<Object>,
    pending: Option<ErrState>,
    args: usize,
    kwargs: usize,
) -> crate::argparse::Parsed {
    parse_from(
        types_of(params),
        call_values(entered(heap, args, kwargs), params, args, kwargs),
        pending,
        0,
        Seq::empty(),
        Seq::empty(),
    )
}

/// Whether the arguments of a call match the parameters `params`.
pub open spec fn call_matches(
    params: Seq<ParamDescription>,
    heap: Seq<Object>,
    args: usize,
    kwargs: usize,
) -> bool {
    let h = entered(heap, args, kwargs);
    args_match(
        names_of(params),
        tuple_items(h[args - 1].value).len() as int,
        call_keywords(h, kwargs),
    )
}

/// Whether `py1` and `vals` are what a call entered with `interp`, `args` and `kwargs`
/// hands over to the function: the arguments were read, `vals` are their values, and
/// `py1` is the token in the state that reading them left, which does not own the lock.
pub open spec fn handed_over(
    params: Seq<ParamDescription>,
    interp: Interp,
    args: usize,
    kwargs: usize,
    py1: Python,
    vals: Vec<ArgValue>,
) -> bool {
    let p = call_parse(params, interp.heap(), interp.pending(), args, kwargs);
    &&& call_matches(params, interp.heap(), args, kwargs)
    &&& p.result is Ok
    &&& py1.heap() == with_temps(entered(interp.heap(), args, kwargs), p.temps)
    &&& py1.pending() == p.pending
    &&& !py1.owns_lock()
    &&& vals@ == p.result->Ok_0
}

/// The entry point that the interpreter calls for a function with the parameters
/// `params`: it is entered with the lock held, with the tuple of positional arguments at
/// `args` and the dict of keyword arguments at `kwargs`, or [`NULL`] for none.
///
/// The arguments are read as the parameters declare. If that fails, `f` is not called:
/// the exception goes to the interpreter and the null pointer is returned. Otherwise `f`
/// is called with the token and the values, and what it returns is handed back as
/// [`end_call`] describes. On what it is handed, `f` must leave alone the references
/// that this call holds to its arguments.
pub fn call<R: ToPyObject, F: Fn(Python, Vec<ArgValue>) -> (Python, PyResult<R>)>(
    params: &Vec<ParamDescription>,
    f: F,
    interp: Interp,
    args: usize,
    kwargs: usize,
) -> (r: (Interp, usize))
    requires
        interp.locked(),
        live_in(interp.heap(), args),
        interp.heap()[args - 1].refcnt < usize::MAX,
        interp.heap()[args - 1].value is Tuple,
        kwargs != NULL ==> live_in(interp.heap(), kwargs) && interp.heap()[kwargs - 1].refcnt
            < usize::MAX && interp.heap()[kwargs - 1].value is Dict,
        ({
            let h = entered(interp.heap(), args, kwargs);
            &&& forall|k: int|
                0 <= k < tuple_items(h[args - 1].value).len() ==> live_in(
                    h,
                    #[trigger] tuple_items(h[args - 1].value)[k],
                ) && h[tuple_items(h[args - 1].value)[k] - 1].refcnt < usize::MAX
            &&& forall|k: int|
                0 <= k < call_keyword_values(h, kwargs).len() ==> live_in(
                    h,
                    #[trigger] call_keyword_values(h, kwargs)[k],
                ) && h[call_keyword_values(h, kwargs)[k] - 1].refcnt < usize::MAX
        }),
        forall|py1: Python, vals: Vec<ArgValue>|
            handed_over(params@, interp, args, kwargs, py1, vals) ==> #[trigger] call_requires(
                f,
                (py1, vals),
            ),
        forall|py1: Python, vals: Vec<ArgValue>, py2: Python, res: PyResult<R>|
            handed_over(params@, interp, args, kwargs, py1, vals) && #[trigger] call_ensures(
                f,
                (py1, vals),
                (py2, res),
            ) ==> {
                &&& py2.owns_lock() == py1.owns_lock()
                &&& live_in(py2.heap(), args)
                &&& kwargs != NULL ==> live_in(decrefed(py2.heap(), args), kwargs)
            },
    ensures
        r.0.locked(),
        ({
            let h = entered(interp.heap(), args, kwargs);
            let p = call_parse(params@, interp.heap(), interp.pending(), args, kwargs);
            if !call_matches(params@, interp.heap(), args, kwargs) {
                (r.1, r.0.heap(), r.0.pending()) == returned(
                    h,
                    interp.pending(),
                    args,
                    kwargs,
                    Err(argument_error()),
                )
            } else if p.result is Err {
                (r.1, r.0.heap(), r.0.pending()) == returned(
                    with_temps(h, p.temps),
                    p.pending,
                    args,
                    kwargs,
                    Err(p.result->Err_0),
                )
            } else {
                exists|py1: Python, vals: Vec<ArgValue>, py2: Python, res: PyResult<R>|
                    {
                        &&& #[trigger] call_ensures(f, (py1, vals), (py2, res))
                        &&& handed_over(params@, interp, args, kwargs, py1, vals)
                        &&& (r.1, r.0.heap(), r.0.pending()) == returned(
                            py2.heap(),
                            py2.pending(),
                            args,
                            kwargs,
                            outcome_of(res),
                        )
                        &&& res is Ok ==> r.1 != NULL && r.1 == py2.heap().len() + 1
                        &&& res is Err ==> r.1 == NULL
                    }
            }
        }),
{
    let (mut py, args_view, kwargs_view) = begin_call(interp, args, kwargs);
    let ghost h = py.heap();
    let kwargs_ref = kwargs_view.as_ref();
    proof {
        assert(arg_values(&py, params@, &args_view, kwargs_ref) =~= call_values(
            h,
            params@,
            args,
            kwargs,
        ));
    }
    match parse_args(&mut py, params, &args_view, kwargs_ref) {
        Ok(vals) => {
            assert(handed_over(params@, interp, args, kwargs, py, vals));
            let (py, res) = f(py, vals);
            end_call(py, args_view, kwargs_view, res)
        },
        Err(e) => end_call::<R>(py, args_view, kwargs_view, Err(e)),
    }
}

} // verus!
