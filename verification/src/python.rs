//! The token that stands for the runtime's execution lock, and the trait of
//! everything that can be handed to the runtime as an object address.

use vstd::prelude::*;

verus! {

/// Proof that the calling thread holds the runtime's execution lock.
///
/// The token has no content. Every operation that names foreign memory takes
/// one, so that no such operation can be written down without it.
#[derive(Clone, Copy)]
pub struct Python {
    held: (),
}

impl Python {
    /// Makes a token. The caller states by this call that the lock is held
    /// for as long as the token, or any copy of it, is in use.
    pub fn assume_gil_acquired() -> (py: Python) {
        Python { held: () }
    }
}

/// A value that the runtime can be given as an object address.
pub trait ToPyPointer {
    /// The address this value stands for; zero is the null pointer.
    spec fn ptr(&self) -> usize;

    /// Hands out the address, with no change to any reference count.
    fn as_ptr(&self) -> (p: usize)
        ensures
            p == self.ptr(),
    ;
}

/// An absent value is the null pointer; a present one is its own address.
impl<'a, T: ToPyPointer> ToPyPointer for Option<&'a T> {
    open spec fn ptr(&self) -> usize {
        match *self {
            Some(t) => t.ptr(),
            None => 0,
        }
    }

    fn as_ptr(&self) -> (p: usize) {
        match *self {
            Some(t) => t.as_ptr(),
            None => 0,
        }
    }
}

} // verus!
