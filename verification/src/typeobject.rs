//! The type handle: an owned reference to a type object of the runtime.

use vstd::prelude::*;
use vstd::std_specs::cmp::PartialEqSpecImpl;
use crate::objects::{PyDict, PyTuple};
use crate::pointers::PyPtr;
use crate::protocol::ForeignCall;
use crate::python::{Python, ToPyPointer};

verus! {

/// An owned reference to a type object of the runtime.
///
/// The handle holds the address of the type object and nothing else. It is
/// the type object's identity: two handles are equal exactly when they hold
/// one address, whatever the two type objects look like.
#[derive(Debug)]
pub struct PyType {
    ptr: PyPtr,
}

impl PyType {
    /// The address of the type object. It is never zero.
    pub fn as_type_ptr(&self) -> (p: usize)
        ensures
            p == self.ptr(),
            p != 0,
    {
        self.ptr.as_ptr()
    }

    /// Makes a handle for the type object at `p`, which the caller only
    /// borrows. The call that comes back adds the handle's own reference and
    /// is to be performed before the handle is used.
    ///
    /// `p` must be the address of a live type object; that it is not zero is
    /// all that can be asked for here.
    pub fn from_type_ptr(py: Python, p: usize) -> (r: (PyType, ForeignCall))
        requires
            p != 0,
        ensures
            r.0.ptr() == p,
            r.1 == (ForeignCall::IncRef { object: p }),
            r.1.operands_nonnull(),
    {
        let (ptr, incref) = PyPtr::from_borrowed_ptr(py, p);
        (PyType { ptr }, incref)
    }

    /// As [`PyType::from_type_ptr`], for an address that may be zero: the
    /// null pointer is refused, and no handle ever holds it.
    pub fn from_type_ptr_or_opt(py: Python, p: usize) -> (r: Option<(PyType, ForeignCall)>)
        ensures
            match r {
                Some(made) => p != 0 && made.0.ptr() == p && made.1 == (ForeignCall::IncRef {
                    object: p,
                }),
                None => p == 0,
            },
    {
        if p == 0 {
            None
        } else {
            Some(PyType::from_type_ptr(py, p))
        }
    }

    /// Asks for the diagnostic name of the type. The runtime answers with
    /// the bytes of its NUL-terminated name buffer, which go to
    /// [`crate::text::decode_c_str`]: name extraction never fails.
    pub fn name(&self, _py: Python) -> (call: ForeignCall)
        ensures
            call == (ForeignCall::TypeName { ty: self.ptr() }),
            call.operands_nonnull(),
    {
        ForeignCall::TypeName { ty: self.ptr.as_ptr() }
    }

    /// Asks whether `self` is `b` or descends from it: `self` is the
    /// candidate subtype, `b` the candidate supertype. The status word that
    /// answers goes to [`crate::protocol::status_is_yes`].
    pub fn is_subtype_of(&self, _py: Python, b: &PyType) -> (call: ForeignCall)
        ensures
            call == subtype_question(*self, *b),
            call.operands_nonnull(),
    {
        ForeignCall::IsSubtype { sub: self.ptr.as_ptr(), sup: b.ptr.as_ptr() }
    }

    /// Asks whether the type of `obj` is `self` or descends from it. The
    /// status word that answers goes to [`crate::protocol::status_is_yes`].
    pub fn is_instance<T: ToPyPointer>(&self, _py: Python, obj: &T) -> (call: ForeignCall)
        requires
            obj.ptr() != 0,
        ensures
            call == (ForeignCall::TypeCheck { object: obj.ptr(), ty: self.ptr() }),
            call.operands_nonnull(),
    {
        ForeignCall::TypeCheck { object: obj.as_ptr(), ty: self.ptr.as_ptr() }
    }

    /// Asks the runtime to call the type, and so to make a new instance of
    /// it, with the positional arguments in `args` and the keyword arguments
    /// in `kwargs`. Without `kwargs` the runtime is handed the null pointer
    /// in their place, never an empty mapping. The address that answers goes
    /// to [`crate::objects::PyObject::from_owned_ptr_or_err`].
    pub fn call(&self, _py: Python, args: &PyTuple, kwargs: Option<&PyDict>) -> (call: ForeignCall)
        ensures
            call == call_question(*self, *args, kwargs),
            call.operands_nonnull(),
            kwargs is None <==> call->kwargs == 0,
    {
        let kw = match kwargs {
            Some(dict) => dict.as_ptr(),
            None => 0,
        };
        ForeignCall::Call { callee: self.ptr.as_ptr(), args: args.as_ptr(), kwargs: kw }
    }

    /// Ends the handle; the call that comes back gives its reference back.
    pub fn release(self) -> (call: ForeignCall)
        ensures
            call == (ForeignCall::DecRef { object: self.ptr() }),
            call.operands_nonnull(),
    {
        self.ptr.release()
    }
}

/// What the runtime is asked when `a` is tested for being a subtype of `b`.
pub open spec fn subtype_question(a: PyType, b: PyType) -> ForeignCall {
    ForeignCall::IsSubtype { sub: a.ptr(), sup: b.ptr() }
}

/// What the runtime is asked when `ty` is called with `args` and `kwargs`.
pub open spec fn call_question(ty: PyType, args: PyTuple, kwargs: Option<&PyDict>) -> ForeignCall {
    ForeignCall::Call { callee: ty.ptr(), args: args.ptr(), kwargs: kwargs.ptr() }
}

impl ToPyPointer for PyType {
    closed spec fn ptr(&self) -> usize {
        self.ptr.ptr()
    }

    fn as_ptr(&self) -> (p: usize)
        ensures
            p != 0,
    {
        self.ptr.as_ptr()
    }
}

impl PartialEq for PyType {
    fn eq(&self, other: &PyType) -> (same: bool) {
        self.as_type_ptr() == other.as_type_ptr()
    }
}

impl Eq for PyType {

}

impl PartialEqSpecImpl for PyType {
    open spec fn obeys_eq_spec() -> bool {
        true
    }

    open spec fn eq_spec(&self, other: &PyType) -> bool {
        self.ptr() == other.ptr()
    }
}

} // verus!
