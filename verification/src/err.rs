//! The error bridge: an exception of the interpreter as a Rust error value.

use crate::objects::object::PyObject;
use crate::python::{decrefed, live_in, ErrState, ExcType, Object, Python, NULL};
use vstd::prelude::*;

verus! {

/// An exception, held on the Rust side.
///
/// It comes from the interpreter's pending-exception slot ([`PyErr::fetch`]) or is made
/// here from a type ([`PyErr::new_lazy_init`]); in that case no exception instance exists
/// until the interpreter needs one. It ends by going back into the slot
/// ([`PyErr::restore`]) or by giving up the references it holds ([`PyErr::release`]).
#[derive(Debug)]
pub struct PyErr {
    /// The exception's type.
    pub ptype: ExcType,
    /// The exception instance, where there is one already.
    pub pvalue: Option<PyObject>,
    /// The traceback, where there is one.
    pub ptraceback: Option<PyObject>,
}

/// The result of an operation that can raise.
pub type PyResult<T> = Result<T, PyErr>;

/// The kinds of error that this layer tells apart.
#[derive(Clone, Copy, Debug, PartialEq, Eq, Structural)]
pub enum ErrorKind {
    /// A number does not fit the Rust type asked for.
    Overflow,
    /// An object is not of the type asked for, or converts to no number.
    TypeMismatch,
    /// The arguments of a call do not match the parameters.
    ArgumentError,
    /// Any other exception of the interpreter, carried through as it is.
    ForeignPending,
}

/// The address that stands for an optional handle: [`NULL`] for none.
pub open spec fn opt_ptr(obj: Option<PyObject>) -> usize {
    match obj {
        Some(o) => o.ptr(),
        None => NULL,
    }
}

/// The kind of error that an exception type stands for.
pub open spec fn kind_of(ptype: ExcType) -> ErrorKind {
    match ptype {
        ExcType::OverflowError => ErrorKind::Overflow,
        ExcType::TypeError => ErrorKind::TypeMismatch,
        ExcType::ArgumentError => ErrorKind::ArgumentError,
        _ => ErrorKind::ForeignPending,
    }
}

/// Taking a pending exception out of the interpreter and putting it back leaves the slot
/// as it was, with the same type, instance and traceback: what [`PyErr::fetch`] yields
/// for a slot that holds an exception, [`PyErr::restore`] puts back.
pub proof fn lemma_fetch_then_restore(pending: Option<ErrState>)
    requires
        pending is Some,
    ensures
        Some(PyErr::fetched(pending)) == pending,
{
}

impl PyErr {
    /// The exception as the slot would hold it.
    pub open spec fn state(&self) -> ErrState {
        ErrState {
            ptype: self.ptype,
            pvalue: opt_ptr(self.pvalue),
            ptraceback: opt_ptr(self.ptraceback),
        }
    }

    /// What [`PyErr::fetch`] yields for a slot: its content, or a `SystemError` where the
    /// slot is empty.
    pub open spec fn fetched(pending: Option<ErrState>) -> ErrState {
        match pending {
            Some(st) => st,
            None => ErrState { ptype: ExcType::SystemError, pvalue: NULL, ptraceback: NULL },
        }
    }

    /// Whether an exception is pending in the interpreter.
    pub fn occurred(py: &Python) -> (b: bool)
        ensures
            b == (py.pending() is Some),
    {
        py.err_occurred()
    }

    /// Takes the pending exception out of the interpreter, whose slot is empty after
    /// that. The references that the slot held belong to the result.
    pub fn fetch(py: &mut Python) -> (err: PyErr)
        ensures
            err.state() == PyErr::fetched(old(py).pending()),
            final(py).pending() is None,
            final(py).heap() == old(py).heap(),
            final(py).owns_lock() == old(py).owns_lock(),
    {
        match py.err_fetch() {
            Some(st) => PyErr {
                ptype: st.ptype,
                pvalue: handle_for(st.pvalue),
                ptraceback: handle_for(st.ptraceback),
            },
            None => PyErr { ptype: ExcType::SystemError, pvalue: None, ptraceback: None },
        }
    }

    /// An exception of the type `ptype`, with `pvalue` as its instance or as what the
    /// instance will be made from. Nothing is made in the interpreter yet.
    pub fn new_lazy_init(ptype: ExcType, pvalue: Option<PyObject>) -> (err: PyErr)
        ensures
            err.ptype == ptype,
            err.pvalue == pvalue,
            err.ptraceback is None,
    {
        PyErr { ptype, pvalue, ptraceback: None }
    }

    /// Puts the exception into the interpreter's slot, in place of what was pending.
    /// The references that the exception held now belong to the interpreter.
    pub fn restore(self, py: &mut Python)
        ensures
            final(py).pending() == Some(self.state()),
            final(py).heap() == old(py).heap(),
            final(py).owns_lock() == old(py).owns_lock(),
    {
        let PyErr { ptype, pvalue, ptraceback } = self;
        let pvalue = steal_opt(pvalue);
        let ptraceback = steal_opt(ptraceback);
        py.err_restore(Some(ErrState { ptype, pvalue, ptraceback }));
    }

    /// Ends the exception without putting it back: the references that it holds are
    /// given up, and the interpreter never sees it.
    pub fn release(self, py: &mut Python)
        requires
            old(py).releasable(opt_ptr(self.pvalue)),
            self.ptraceback is Some ==> live_in(
                decrefed_opt(old(py).heap(), opt_ptr(self.pvalue)),
                opt_ptr(self.ptraceback),
            ),
        ensures
            final(py).heap() == decrefed_opt(
                decrefed_opt(old(py).heap(), opt_ptr(self.pvalue)),
                opt_ptr(self.ptraceback),
            ),
            final(py).pending() == old(py).pending(),
            final(py).owns_lock() == old(py).owns_lock(),
    {
        let PyErr { ptype: _, pvalue, ptraceback } = self;
        release_opt(py, pvalue);
        release_opt(py, ptraceback);
    }

    /// The kind of error that this exception stands for.
    pub fn kind(&self) -> (k: ErrorKind)
        ensures
            k == kind_of(self.ptype),
    {
        match self.ptype {
            ExcType::OverflowError => ErrorKind::Overflow,
            ExcType::TypeError => ErrorKind::TypeMismatch,
            ExcType::ArgumentError => ErrorKind::ArgumentError,
            _ => ErrorKind::ForeignPending,
        }
    }

    /// Whether the exception is of the type `ptype`.
    pub fn matches(&self, ptype: ExcType) -> (b: bool)
        ensures
            b == (self.ptype == ptype),
    {
        self.ptype == ptype
    }
}

/// The heap after the reference behind an address was given up; [`NULL`] is no reference.
pub open spec fn decrefed_opt(heap: Seq<Object>, ptr: usize) -> Seq<Object> {
    if ptr == NULL {
        heap
    } else {
        decrefed(heap, ptr)
    }
}

/// Gives up the reference of an optional handle.
fn release_opt(py: &mut Python, obj: Option<PyObject>)
    requires
        old(py).releasable(opt_ptr(obj)),
    ensures
        final(py).heap() == decrefed_opt(old(py).heap(), opt_ptr(obj)),
        final(py).pending() == old(py).pending(),
        final(py).owns_lock() == old(py).owns_lock(),
{
    match obj {
        Some(o) => {
            let _ = o.as_ptr();
            o.release(py)
        },
        None => {},
    }
}

/// The handle that owns the reference behind an address of the slot; none for [`NULL`].
fn handle_for(ptr: usize) -> (obj: Option<PyObject>)
    ensures
        opt_ptr(obj) == ptr,
{
    if ptr == NULL {
        None
    } else {
        Some(PyObject::from_raw(ptr))
    }
}

/// The address behind an optional handle, which ends without giving up its reference.
fn steal_opt(obj: Option<PyObject>) -> (ptr: usize)
    ensures
        ptr == opt_ptr(obj),
{
    match obj {
        Some(o) => o.steal_ptr(),
        None => NULL,
    }
}

} // verus!
