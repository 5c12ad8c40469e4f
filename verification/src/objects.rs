//! Handles to the foreign objects that the type handle works with: any
//! object at all, the tuple of positional arguments, and the mapping of
//! keyword arguments.

use vstd::prelude::*;
use crate::err::{PyErr, PyResult};
use crate::pointers::PyPtr;
use crate::protocol::ForeignCall;
use crate::python::{Python, ToPyPointer};

verus! {

/// An owned reference to a foreign object of any type.
#[derive(Debug)]
pub struct PyObject {
    ptr: PyPtr,
}

impl PyObject {
    /// Takes over the reference at `p` that the caller owns.
    pub fn from_owned_ptr(py: Python, p: usize) -> (obj: PyObject)
        requires
            p != 0,
        ensures
            obj.ptr() == p,
    {
        PyObject { ptr: PyPtr::from_owned_ptr(py, p) }
    }

    /// Reads what a runtime primitive that makes an object returned: zero
    /// means that it failed and left its exception set; any other address is
    /// a new reference, which the handle takes over without counting again.
    pub fn from_owned_ptr_or_err(py: Python, p: usize) -> (r: PyResult<PyObject>)
        ensures
            match r {
                Ok(obj) => p != 0 && obj.ptr() == p,
                Err(e) => p == 0,
            },
    {
        if p == 0 {
            Err(PyErr {  })
        } else {
            Ok(PyObject::from_owned_ptr(py, p))
        }
    }

    /// Ends the handle; the call that comes back gives its reference back.
    pub fn release(self) -> (call: ForeignCall)
        ensures
            call == (ForeignCall::DecRef { object: self.ptr() }),
            call.operands_nonnull(),
    {
        self.ptr.release()
    }
}

impl ToPyPointer for PyObject {
    closed spec fn ptr(&self) -> usize {
        self.ptr.ptr()
    }

    fn as_ptr(&self) -> (p: usize)
        ensures
            p != 0,
    {
        self.ptr.as_ptr()
    }
}

/// An owned reference to a foreign tuple: positional arguments, marshaled.
#[derive(Debug)]
pub struct PyTuple {
    ptr: PyPtr,
}

impl PyTuple {
    /// Takes over the reference at `p`, the address of a tuple, that the
    /// caller owns.
    pub fn from_owned_ptr(py: Python, p: usize) -> (tuple: PyTuple)
        requires
            p != 0,
        ensures
            tuple.ptr() == p,
    {
        PyTuple { ptr: PyPtr::from_owned_ptr(py, p) }
    }

    /// Ends the handle; the call that comes back gives its reference back.
    pub fn release(self) -> (call: ForeignCall)
        ensures
            call == (ForeignCall::DecRef { object: self.ptr() }),
            call.operands_nonnull(),
    {
        self.ptr.release()
    }
}

impl ToPyPointer for PyTuple {
    closed spec fn ptr(&self) -> usize {
        self.ptr.ptr()
    }

    fn as_ptr(&self) -> (p: usize)
        ensures
            p != 0,
    {
        self.ptr.as_ptr()
    }
}

/// An owned reference to a foreign mapping: keyword arguments.
#[derive(Debug)]
pub struct PyDict {
    ptr: PyPtr,
}

impl PyDict {
    /// Takes over the reference at `p`, the address of a mapping, that the
    /// caller owns.
    pub fn from_owned_ptr(py: Python, p: usize) -> (dict: PyDict)
        requires
            p != 0,
        ensures
            dict.ptr() == p,
    {
        PyDict { ptr: PyPtr::from_owned_ptr(py, p) }
    }

    /// Ends the handle; the call that comes back gives its reference back.
    pub fn release(self) -> (call: ForeignCall)
        ensures
            call == (ForeignCall::DecRef { object: self.ptr() }),
            call.operands_nonnull(),
    {
        self.ptr.release()
    }
}

impl ToPyPointer for PyDict {
    closed spec fn ptr(&self) -> usize {
        self.ptr.ptr()
    }

    fn as_ptr(&self) -> (p: usize)
        ensures
            p != 0,
    {
        self.ptr.as_ptr()
    }
}

} // verus!
