//! Matching the arguments of a call to the declared parameters of a function.

use crate::conversion::{ExtractPyObject, Extracted};
use crate::err::{PyErr, PyResult};
use crate::ffi::{dict_keys, dict_values, lookup, tuple_items};
use crate::objects::dict::PyDict;
use crate::objects::num::Double;
use crate::objects::object::PyObject;
use crate::objects::tuple::PyTuple;
use crate::python::{
    decrefed, increfed, ErrState, ExcType, Object, Python, PythonObject, Value, NULL,
};
use vstd::prelude::*;

verus! {

/// The Rust type that a parameter is read as.
#[derive(Clone, Copy, Debug, PartialEq, Eq, Structural)]
pub enum ParamType {
    I8,
    U8,
    I16,
    U16,
    I32,
    U32,
    I64,
    U64,
    Isize,
    Usize,
    Double,
}

/// A declared parameter: its name and the type it is read as.
#[derive(Debug)]
pub struct ParamDescription {
    pub name: String,
    pub ty: ParamType,
}

/// Where the value of a parameter comes from.
#[derive(Clone, Copy, Debug, PartialEq, Eq, Structural)]
pub enum ArgSource {
    /// The positional argument with this index.
    Positional(usize),
    /// The keyword argument with this index among the keywords.
    Keyword(usize),
}

/// Why the arguments of a call do not match the parameters.
#[derive(Clone, Copy, Debug, PartialEq, Eq, Structural)]
pub enum ArgError {
    /// More arguments were given than there are parameters.
    TooManyArguments,
    /// The parameter with this index was given both by position and by name.
    GivenTwice(usize),
    /// The parameter with this index was given neither by position nor by name.
    Missing(usize),
    /// The keyword with this index names no parameter.
    UnknownKeyword(usize),
}

/// The names of the parameters.
pub open spec fn names_of(params: Seq<ParamDescription>) -> Seq<Seq<char>> {
    Seq::new(params.len(), |i: int| params[i].name@)
}

/// The views of a sequence of strings.
pub open spec fn views_of(strings: Seq<String>) -> Seq<Seq<char>> {
    Seq::new(strings.len(), |i: int| strings[i]@)
}

/// Whether `j` is the index of the first of `keys` that equals `key`.
pub open spec fn is_first(keys: Seq<Seq<char>>, key: Seq<char>, j: int) -> bool {
    &&& 0 <= j < keys.len()
    &&& keys[j] == key
    &&& forall|l: int| 0 <= l < j ==> keys[l] != key
}

/// What the parameter `i` comes to, where `nargs` arguments were given by position and
/// `keywords` by name: its one source, or the reason why it has none or two.
pub open spec fn source_of(
    names: Seq<Seq<char>>,
    nargs: int,
    keywords: Seq<Seq<char>>,
    i: int,
    r: Result<ArgSource, ArgError>,
) -> bool {
    if keywords.contains(names[i]) {
        if i < nargs {
            r == Err::<ArgSource, ArgError>(ArgError::GivenTwice(i as usize))
        } else {
            r matches Ok(ArgSource::Keyword(j)) && is_first(keywords, names[i], j as int)
        }
    } else {
        if i < nargs {
            r == Ok::<ArgSource, ArgError>(ArgSource::Positional(i as usize))
        } else {
            r == Err::<ArgSource, ArgError>(ArgError::Missing(i as usize))
        }
    }
}

/// Whether the parameter `i` has exactly one source.
pub open spec fn has_source(
    names: Seq<Seq<char>>,
    nargs: int,
    keywords: Seq<Seq<char>>,
    i: int,
) -> bool {
    keywords.contains(names[i]) != (i < nargs)
}

/// What [`resolve_args`] returns: the sources of all parameters where the arguments
/// match them, and else the first thing that is wrong. Too many arguments come first,
/// then the parameters in their order, then the keywords in theirs.
pub open spec fn resolved(
    names: Seq<Seq<char>>,
    nargs: int,
    keywords: Seq<Seq<char>>,
    r: Result<Seq<ArgSource>, ArgError>,
) -> bool {
    match r {
        Err(ArgError::TooManyArguments) => nargs + keywords.len() > names.len(),
        Err(ArgError::GivenTwice(i)) => {
            &&& nargs + keywords.len() <= names.len()
            &&& i < names.len()
            &&& keywords.contains(names[i as int]) && i < nargs
            &&& forall|k: int| 0 <= k < i ==> has_source(names, nargs, keywords, k)
        },
        Err(ArgError::Missing(i)) => {
            &&& nargs + keywords.len() <= names.len()
            &&& i < names.len()
            &&& !keywords.contains(names[i as int]) && i >= nargs
            &&& forall|k: int| 0 <= k < i ==> has_source(names, nargs, keywords, k)
        },
        Err(ArgError::UnknownKeyword(j)) => {
            &&& nargs + keywords.len() <= names.len()
            &&& forall|k: int| 0 <= k < names.len() ==> has_source(names, nargs, keywords, k)
            &&& j < keywords.len()
            &&& !names.contains(keywords[j as int])
            &&& forall|l: int| 0 <= l < j ==> names.contains(keywords[l])
        },
        Ok(sources) => {
            &&& nargs + keywords.len() <= names.len()
            &&& sources.len() == names.len()
            &&& forall|k: int|
                0 <= k < names.len() ==> source_of(names, nargs, keywords, k, Ok(sources[k]))
            &&& forall|l: int| 0 <= l < keywords.len() ==> names.contains(keywords[l])
        },
    }
}

/// The index of the first of `keys` that equals `key`.
pub fn find_key(keys: &Vec<String>, key: &String) -> (r: Option<usize>)
    ensures
        match r {
            Some(j) => is_first(views_of(keys@), key@, j as int),
            None => !views_of(keys@).contains(key@),
        },
{
    let mut j: usize = 0;
    while j < keys.len()
        invariant
            j <= keys.len(),
            forall|l: int| 0 <= l < j ==> views_of(keys@)[l] != key@,
        decreases keys.len() - j,
    {
        if keys[j] == *key {
            return Some(j);
        }
        j = j + 1;
    }
    None
}

/// Whether one of the parameters has the name `name`.
pub fn is_param(params: &Vec<ParamDescription>, name: &String) -> (b: bool)
    ensures
        b == names_of(params@).contains(name@),
{
    let mut i: usize = 0;
    while i < params.len()
        invariant
            i <= params.len(),
            forall|k: int| 0 <= k < i ==> names_of(params@)[k] != name@,
        decreases params.len() - i,
    {
        if params[i].name == *name {
            assert(names_of(params@)[i as int] == name@);
            return true;
        }
        i = i + 1;
    }
    false
}

/// Finds for each parameter the argument that it is given by: the positional arguments go
/// to the first `nargs` parameters, the keywords to the parameters they name.
pub fn resolve_args(params: &Vec<ParamDescription>, nargs: usize, keywords: &Vec<String>) -> (r:
    Result<Vec<ArgSource>, ArgError>)
    ensures
        resolved(
            names_of(params@),
            nargs as int,
            views_of(keywords@),
            match r {
                Ok(sources) => Ok(sources@),
                Err(e) => Err(e),
            },
        ),
{
    let ghost names = names_of(params@);
    let ghost kws = views_of(keywords@);
    if keywords.len() > params.len() || nargs > params.len() - keywords.len() {
        return Err(ArgError::TooManyArguments);
    }
    let mut sources: Vec<ArgSource> = Vec::new();
    let mut i: usize = 0;
    while i < params.len()
        invariant
            i <= params.len(),
            names == names_of(params@),
            kws == views_of(keywords@),
            nargs + kws.len() <= names.len(),
            sources.len() == i,
            forall|k: int| 0 <= k < i ==> source_of(names, nargs as int, kws, k, Ok(sources[k])),
            forall|k: int| 0 <= k < i ==> has_source(names, nargs as int, kws, k),
        decreases params.len() - i,
    {
        match find_key(keywords, &params[i].name) {
            Some(j) => {
                if i < nargs {
                    return Err(ArgError::GivenTwice(i));
                }
                sources.push(ArgSource::Keyword(j));
            },
            None => {
                if i < nargs {
                    sources.push(ArgSource::Positional(i));
                } else {
                    return Err(ArgError::Missing(i));
                }
            },
        }
        i = i + 1;
    }
    let mut j: usize = 0;
    while j < keywords.len()
        invariant
            j <= keywords.len(),
            names == names_of(params@),
            kws == views_of(keywords@),
            nargs + kws.len() <= names.len(),
            sources.len() == names.len(),
            forall|k: int|
                0 <= k < names.len() ==> source_of(names, nargs as int, kws, k, Ok(sources[k])),
            forall|k: int| 0 <= k < names.len() ==> has_source(names, nargs as int, kws, k),
            forall|l: int| 0 <= l < j ==> names.contains(kws[l]),
        decreases keywords.len() - j,
    {
        if !is_param(params, &keywords[j]) {
            return Err(ArgError::UnknownKeyword(j));
        }
        j = j + 1;
    }
    Ok(sources)
}

/// The value of an argument, read as the type of its parameter.
#[derive(Clone, Copy, Debug, PartialEq, Eq, Structural)]
pub enum ArgValue {
    I8(i8),
    U8(u8),
    I16(i16),
    U16(u16),
    I32(i32),
    U32(u32),
    I64(i64),
    U64(u64),
    Isize(isize),
    Usize(usize),
    Double(Double),
}

/// What reading an object with the value `v` as the type `ty` comes to, while `pending`
/// is in the interpreter's slot.
pub open spec fn arg_spec(ty: ParamType, v: Value, pending: Option<ErrState>) -> Extracted<
    ArgValue,
> {
    match ty {
        ParamType::I8 => i8::extract_spec(v, pending).map(|x: i8| ArgValue::I8(x)),
        ParamType::U8 => u8::extract_spec(v, pending).map(|x: u8| ArgValue::U8(x)),
        ParamType::I16 => i16::extract_spec(v, pending).map(|x: i16| ArgValue::I16(x)),
        ParamType::U16 => u16::extract_spec(v, pending).map(|x: u16| ArgValue::U16(x)),
        ParamType::I32 => i32::extract_spec(v, pending).map(|x: i32| ArgValue::I32(x)),
        ParamType::U32 => u32::extract_spec(v, pending).map(|x: u32| ArgValue::U32(x)),
        ParamType::I64 => i64::extract_spec(v, pending).map(|x: i64| ArgValue::I64(x)),
        ParamType::U64 => u64::extract_spec(v, pending).map(|x: u64| ArgValue::U64(x)),
        ParamType::Isize => isize::extract_spec(v, pending).map(|x: isize| ArgValue::Isize(x)),
        ParamType::Usize => usize::extract_spec(v, pending).map(|x: usize| ArgValue::Usize(x)),
        ParamType::Double => Double::extract_spec(v, pending).map(|x: Double| ArgValue::Double(x)),
    }
}

/// Reads the object behind `obj` as the type `ty`.
pub fn extract_arg(py: &mut Python, obj: &PyObject, ty: ParamType) -> (r: PyResult<ArgValue>)
    requires
        old(py).live(obj.ptr()),
    ensures
        final(py).owns_lock() == old(py).owns_lock(),
        ({
            let x = arg_spec(ty, old(py).object(obj.ptr()).value, old(py).pending());
            &&& final(py).heap() == x.heap_after(old(py).heap())
            &&& final(py).pending() == x.pending
            &&& match x.result {
                Ok(v) => r == Ok::<ArgValue, PyErr>(v),
                Err(st) => r is Err && r->Err_0.state() == st,
            }
        }),
{
    match ty {
        ParamType::I8 => match obj.extract::<i8>(py) {
            Ok(x) => Ok(ArgValue::I8(x)),
            Err(e) => Err(e),
        },
        ParamType::U8 => match obj.extract::<u8>(py) {
            Ok(x) => Ok(ArgValue::U8(x)),
            Err(e) => Err(e),
        },
        ParamType::I16 => match obj.extract::<i16>(py) {
            Ok(x) => Ok(ArgValue::I16(x)),
            Err(e) => Err(e),
        },
        ParamType::U16 => match obj.extract::<u16>(py) {
            Ok(x) => Ok(ArgValue::U16(x)),
            Err(e) => Err(e),
        },
        ParamType::I32 => match obj.extract::<i32>(py) {
            Ok(x) => Ok(ArgValue::I32(x)),
            Err(e) => Err(e),
        },
        ParamType::U32 => match obj.extract::<u32>(py) {
            Ok(x) => Ok(ArgValue::U32(x)),
            Err(e) => Err(e),
        },
        ParamType::I64 => match obj.extract::<i64>(py) {
            Ok(x) => Ok(ArgValue::I64(x)),
            Err(e) => Err(e),
        },
        ParamType::U64 => match obj.extract::<u64>(py) {
            Ok(x) => Ok(ArgValue::U64(x)),
            Err(e) => Err(e),
        },
        ParamType::Isize => match obj.extract::<isize>(py) {
            Ok(x) => Ok(ArgValue::Isize(x)),
            Err(e) => Err(e),
        },
        ParamType::Usize => match obj.extract::<usize>(py) {
            Ok(x) => Ok(ArgValue::Usize(x)),
            Err(e) => Err(e),
        },
        ParamType::Double => match obj.extract::<Double>(py) {
            Ok(x) => Ok(ArgValue::Double(x)),
            Err(e) => Err(e),
        },
    }
}

/// Whether the arguments of a call match the parameters: there are no more arguments
/// than parameters, every parameter is given either by position or by name, and every
/// keyword names a parameter.
pub open spec fn args_match(names: Seq<Seq<char>>, nargs: int, keywords: Seq<Seq<char>>) -> bool {
    &&& nargs + keywords.len() <= names.len()
    &&& forall|k: int| 0 <= k < names.len() ==> has_source(names, nargs, keywords, k)
    &&& forall|l: int| 0 <= l < keywords.len() ==> names.contains(keywords[l])
}

/// The address of the argument for the parameter `i`: the positional argument `i` where
/// there is one, and else the value under the parameter's name.
pub open spec fn arg_ptr(
    names: Seq<Seq<char>>,
    items: Seq<usize>,
    keywords: Seq<Seq<char>>,
    values: Seq<usize>,
    i: int,
) -> usize {
    if i < items.len() {
        items[i]
    } else {
        lookup(keywords, values, names[i])
    }
}

/// What reading a list of arguments comes to.
pub struct Parsed {
    /// The values in the order of the parameters, or the first exception.
    pub result: Result<Seq<ArgValue>, ErrState>,
    /// What is pending in the interpreter afterwards.
    pub pending: Option<ErrState>,
    /// The values of the objects that conversions made on the way, all dead afterwards.
    pub temps: Seq<Value>,
}

/// The heap `heap` followed by dead objects with the values `temps`.
pub open spec fn with_temps(heap: Seq<Object>, temps: Seq<Value>) -> Seq<Object> {
    heap + Seq::new(temps.len(), |k: int| Object { refcnt: 0, value: temps[k] })
}

/// What reading the arguments from `i` on comes to, where `done` and `temps` are the
/// values read and the objects made before `i`. The argument for the parameter `k` has
/// the value `values[k]` and is read as `types[k]`; reading stops at the first exception.
pub open spec fn parse_from(
    types: Seq<ParamType>,
    values: Seq<Value>,
    pending: Option<ErrState>,
    i: int,
    done: Seq<ArgValue>,
    temps: Seq<Value>,
) -> Parsed
    decreases types.len() - i,
{
    if i >= types.len() {
        Parsed { result: Ok(done), pending, temps }
    } else {
        let x = arg_spec(types[i], values[i], pending);
        let temps = match x.temp {
            Some(t) => temps.push(t),
            None => temps,
        };
        match x.result {
            Err(st) => Parsed { result: Err(st), pending: x.pending, temps },
            Ok(v) => parse_from(types, values, x.pending, i + 1, done.push(v), temps),
        }
    }
}

/// The types of the parameters.
pub open spec fn types_of(params: Seq<ParamDescription>) -> Seq<ParamType> {
    Seq::new(params.len(), |i: int| params[i].ty)
}

/// The state of the exception for arguments that do not match the parameters.
pub open spec fn argument_error() -> ErrState {
    ErrState { ptype: ExcType::ArgumentError, pvalue: NULL, ptraceback: NULL }
}

/// The first of `keys` that equals `key` is the one whose value a lookup yields.
pub proof fn lemma_lookup_first(keys: Seq<Seq<char>>, values: Seq<usize>, key: Seq<char>, j: int)
    requires
        keys.len() == values.len(),
        is_first(keys, key, j),
    ensures
        lookup(keys, values, key) == values[j],
    decreases j,
{
    if j > 0 {
        assert(is_first(keys.drop_first(), key, j - 1)) by {
            assert forall|l: int| 0 <= l < j - 1 implies keys.drop_first()[l] != key by {
            }
        }
        lemma_lookup_first(keys.drop_first(), values.drop_first(), key, j - 1);
    }
}

/// Counting a reference for the time of an extraction and giving it up afterwards leaves
/// the heap as the extraction alone would.
pub proof fn lemma_borrowed_for_extraction<T>(heap: Seq<Object>, ptr: usize, x: Extracted<T>)
    requires
        1 <= ptr <= heap.len(),
        heap[ptr - 1].refcnt < usize::MAX,
    ensures
        decrefed(x.heap_after(increfed(heap, ptr)), ptr) == x.heap_after(heap),
{
}

/// The keys of the keyword arguments; none where no keyword arguments were supplied.
pub open spec fn keywords_of(py: &Python, kwargs: Option<&PyDict>) -> Seq<Seq<char>> {
    match kwargs {
        Some(d) => d.keys(py),
        None => Seq::empty(),
    }
}

/// The addresses of the values of the keyword arguments, in the order of their keys.
pub open spec fn keyword_values_of(py: &Python, kwargs: Option<&PyDict>) -> Seq<usize> {
    match kwargs {
        Some(d) => d.values(py),
        None => Seq::empty(),
    }
}

/// The values of the objects that the parameters are read from.
pub open spec fn arg_values(
    py: &Python,
    params: Seq<ParamDescription>,
    args: &PyTuple,
    kwargs: Option<&PyDict>,
) -> Seq<Value> {
    Seq::new(
        params.len(),
        |i: int|
            py.object(
                arg_ptr(
                    names_of(params),
                    tuple_items(py.object(args.ptr()).value),
                    keywords_of(py, kwargs),
                    keyword_values_of(py, kwargs),
                    i,
                ),
            ).value,
    )
}

/// Reads the arguments of a call as the declared parameters: `args` holds the positional
/// arguments, `kwargs` the keyword arguments if any were supplied.
///
/// Where the arguments do not match the parameters, the result is an `ArgumentError` and
/// nothing was touched. Where they do, each argument is read as the type of its
/// parameter, in the order of the parameters, up to the first that cannot be; that
/// exception is the result as it came.
#[verifier::loop_isolation(false)]
pub fn parse_args(
    py: &mut Python,
    params: &Vec<ParamDescription>,
    args: &PyTuple,
    kwargs: Option<&PyDict>,
) -> (r: PyResult<Vec<ArgValue>>)
    requires
        args.wf(old(py)),
        kwargs matches Some(d) ==> d.wf(old(py)),
        forall|k: int|
            0 <= k < tuple_items(old(py).object(args.ptr()).value).len() ==> old(py).can_incref(
                #[trigger] tuple_items(old(py).object(args.ptr()).value)[k],
            ),
        forall|k: int|
            0 <= k < keyword_values_of(old(py), kwargs).len() ==> old(py).can_incref(
                #[trigger] keyword_values_of(old(py), kwargs)[k],
            ),
    ensures
        final(py).owns_lock() == old(py).owns_lock(),
        ({
            let names = names_of(params@);
            let nargs = tuple_items(old(py).object(args.ptr()).value).len() as int;
            let keywords = keywords_of(old(py), kwargs);
            let p = parse_from(
                types_of(params@),
                arg_values(old(py), params@, args, kwargs),
                old(py).pending(),
                0,
                Seq::empty(),
                Seq::empty(),
            );
            if args_match(names, nargs, keywords) {
                &&& final(py).heap() == with_temps(old(py).heap(), p.temps)
                &&& final(py).pending() == p.pending
                &&& match p.result {
                    Ok(values) => r is Ok && r->Ok_0@ == values,
                    Err(st) => r is Err && r->Err_0.state() == st,
                }
            } else {
                &&& final(py).heap() == old(py).heap()
                &&& final(py).pending() == old(py).pending()
                &&& r is Err && r->Err_0.state() == argument_error()
            }
        }),
{
    let ghost names = names_of(params@);
    let ghost items = tuple_items(old(py).object(args.ptr()).value);
    let ghost kws = keywords_of(old(py), kwargs);
    let ghost kwvals = keyword_values_of(old(py), kwargs);
    let ghost types = types_of(params@);
    let ghost values = arg_values(old(py), params@, args, kwargs);
    let ghost heap0 = old(py).heap();
    let nargs = args.len(py);
    let keywords = match kwargs {
        Some(d) => py.dict_key_list(d.as_ptr()),
        None => Vec::new(),
    };
    proof {
        assert(views_of(keywords@) =~= kws);
    }
    let sources = match resolve_args(params, nargs, &keywords) {
        Ok(sources) => sources,
        Err(e) => {
            proof {
                match e {
                    ArgError::TooManyArguments => {},
                    ArgError::GivenTwice(k) => {
                        assert(!has_source(names, nargs as int, kws, k as int));
                    },
                    ArgError::Missing(k) => {
                        assert(!has_source(names, nargs as int, kws, k as int));
                    },
                    ArgError::UnknownKeyword(l) => {},
                }
            }
            return Err(PyErr::new_lazy_init(ExcType::ArgumentError, None));
        },
    };
    proof {
        assert forall|k: int| 0 <= k < names.len() implies has_source(
            names,
            nargs as int,
            kws,
            k,
        ) by {
            assert(source_of(names, nargs as int, kws, k, Ok(sources[k])));
        }
    }
    let mut done: Vec<ArgValue> = Vec::new();
    let ghost mut temps: Seq<Value> = Seq::empty();
    let mut i: usize = 0;
    while i < params.len()
        invariant
            i <= params.len(),
            names == names_of(params@),
            types == types_of(params@),
            items == tuple_items(heap0[args.ptr() - 1].value),
            1 <= args.ptr() <= heap0.len(),
            heap0[args.ptr() - 1].refcnt >= 1,
            heap0[args.ptr() - 1].value is Tuple,
            nargs == items.len(),
            kwargs matches Some(d) ==> 1 <= d.ptr() <= heap0.len() && heap0[d.ptr() - 1].refcnt >= 1
                && heap0[d.ptr() - 1].value is Dict && kws == dict_keys(heap0[d.ptr() - 1].value)
                && kwvals == dict_values(heap0[d.ptr() - 1].value),
            kwargs is None ==> kws.len() == 0,
            kws.len() == kwvals.len(),
            forall|k: int|
                0 <= k < items.len() ==> 1 <= #[trigger] items[k] <= heap0.len() && 1
                    <= heap0[items[k] - 1].refcnt < usize::MAX,
            forall|k: int|
                0 <= k < kwvals.len() ==> 1 <= #[trigger] kwvals[k] <= heap0.len() && 1
                    <= heap0[kwvals[k] - 1].refcnt < usize::MAX,
            values.len() == params.len(),
            forall|k: int|
                0 <= k < params.len() ==> values[k] == heap0[arg_ptr(names, items, kws, kwvals, k)
                    - 1].value,
            sources.len() == params.len(),
            forall|k: int|
                0 <= k < names.len() ==> source_of(names, nargs as int, kws, k, Ok(sources[k])),
            py.heap() == with_temps(heap0, temps),
            py.owns_lock() == old(py).owns_lock(),
            parse_from(types, values, old(py).pending(), 0, Seq::empty(), Seq::empty())
                == parse_from(types, values, py.pending(), i as int, done@, temps),
        decreases params.len() - i,
    {
        let ptr = match sources[i] {
            ArgSource::Positional(k) => py.tuple_get_item(args.as_ptr(), k),
            ArgSource::Keyword(j) => {
                proof {
                    lemma_lookup_first(kws, kwvals, names[i as int], j as int);
                }
                match kwargs {
                    Some(d) => py.dict_get_item_string(d.as_ptr(), &params[i].name),
                    None => NULL,
                }
            },
        };
        let ghost x = arg_spec(types[i as int], values[i as int], py.pending());
        let ghost before = py.heap();
        let obj = PyObject::from_borrowed_ptr(py, ptr);
        let r = extract_arg(py, &obj, params[i].ty);
        obj.release(py);
        proof {
            lemma_borrowed_for_extraction(before, ptr, x);
            temps = match x.temp {
                Some(t) => temps.push(t),
                None => temps,
            };
        }
        match r {
            Ok(v) => {
                done.push(v);
            },
            Err(e) => {
                return Err(e);
            },
        }
        i = i + 1;
    }
    Ok(done)
}

} // verus!
