//! The owned reference: one slot of a foreign object's reference count, held
//! from construction until it is given back.

use vstd::prelude::*;
use crate::protocol::ForeignCall;
use crate::python::{Python, ToPyPointer};

verus! {

/// One owned reference to a foreign object.
///
/// The address is never zero. The value cannot be copied, so the reference
/// can be given back at most once.
#[derive(Debug)]
pub struct PyPtr {
    addr: usize,
}

impl PyPtr {
    #[verifier::type_invariant]
    spec fn nonnull(self) -> bool {
        self.addr != 0
    }

    /// Takes a new reference to the object at `p`, which someone else goes on
    /// owning one of. The call that comes back adds the reference; it is to
    /// be performed before the handle is used.
    pub fn from_borrowed_ptr(_py: Python, p: usize) -> (r: (PyPtr, ForeignCall))
        requires
            p != 0,
        ensures
            r.0.ptr() == p,
            r.1 == (ForeignCall::IncRef { object: p }),
            r.1.operands_nonnull(),
    {
        (PyPtr { addr: p }, ForeignCall::IncRef { object: p })
    }

    /// Takes over a reference to the object at `p` that the caller already
    /// owns. No count moves.
    pub fn from_owned_ptr(_py: Python, p: usize) -> (r: PyPtr)
        requires
            p != 0,
        ensures
            r.ptr() == p,
    {
        PyPtr { addr: p }
    }

    /// Ends the handle. The call that comes back gives its one reference
    /// back to the runtime.
    pub fn release(self) -> (call: ForeignCall)
        ensures
            call == (ForeignCall::DecRef { object: self.ptr() }),
            call.operands_nonnull(),
    {
        proof {
            use_type_invariant(&self);
        }
        ForeignCall::DecRef { object: self.addr }
    }
}

impl ToPyPointer for PyPtr {
    closed spec fn ptr(&self) -> usize {
        self.addr
    }

    fn as_ptr(&self) -> (p: usize)
        ensures
            p != 0,
    {
        proof {
            use_type_invariant(self);
        }
        self.addr
    }
}

} // verus!
