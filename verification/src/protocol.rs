//! The primitives of the foreign runtime that the handle layer asks for, as
//! plain values, and the reading of the status word they answer with.

use vstd::prelude::*;

verus! {

/// One primitive of the runtime together with its operands.
///
/// Every operand is the address of a live object and is therefore not zero,
/// with one exception: `kwargs` of [`ForeignCall::Call`] is zero when the
/// call carries no keyword arguments at all. The runtime tells that apart
/// from a mapping that is present and empty.
#[derive(Clone, Copy, Debug, PartialEq, Eq, Structural)]
pub enum ForeignCall {
    /// Add one to the reference count of `object`.
    IncRef { object: usize },
    /// Take one from the reference count of `object`.
    DecRef { object: usize },
    /// Read the NUL-terminated diagnostic name of the type at `ty`; the
    /// reply is the bytes of the name, with or without the terminator.
    TypeName { ty: usize },
    /// Ask whether the type at `sub` is the type at `sup` or descends from
    /// it; the reply is a status word.
    IsSubtype { sub: usize, sup: usize },
    /// Ask whether the type of `object` is the type at `ty` or descends from
    /// it; the reply is a status word.
    TypeCheck { object: usize, ty: usize },
    /// Call `callee` with the positional arguments in the tuple at `args`
    /// and the keyword arguments in the mapping at `kwargs`; the reply is the
    /// address of a new reference, or zero with an exception set.
    Call { callee: usize, args: usize, kwargs: usize },
}

impl ForeignCall {
    /// Whether every operand that the runtime will follow is a real address.
    /// `kwargs` is the one operand that may be zero.
    pub open spec fn operands_nonnull(self) -> bool {
        match self {
            ForeignCall::IncRef { object } => object != 0,
            ForeignCall::DecRef { object } => object != 0,
            ForeignCall::TypeName { ty } => ty != 0,
            ForeignCall::IsSubtype { sub, sup } => sub != 0 && sup != 0,
            ForeignCall::TypeCheck { object, ty } => object != 0 && ty != 0,
            ForeignCall::Call { callee, args, kwargs } => callee != 0 && args != 0,
        }
    }
}

/// How many references to `object` the layer takes (positive) or gives back
/// (negative) by asking for `call`.
///
/// Only the two counting primitives move a count on the layer's behalf; what
/// the runtime does to its counts while it serves the others is its own
/// bookkeeping.
pub open spec fn references_taken(call: ForeignCall, object: usize) -> int {
    match call {
        ForeignCall::IncRef { object: o } => if o == object { 1 } else { 0 },
        ForeignCall::DecRef { object: o } => if o == object { -1 } else { 0 },
        _ => 0,
    }
}

/// The references to `object` taken, less those given back, over a whole
/// run of calls.
pub open spec fn net_references(calls: Seq<ForeignCall>, object: usize) -> int
    decreases calls.len(),
{
    if calls.len() == 0 {
        0
    } else {
        net_references(calls.drop_last(), object) + references_taken(calls.last(), object)
    }
}

/// What a status word of the runtime means: zero is "no", all else is "yes".
pub open spec fn status_means_yes(status: i32) -> bool {
    status != 0
}

/// Reads the status word that answers [`ForeignCall::IsSubtype`] or
/// [`ForeignCall::TypeCheck`].
pub fn status_is_yes(status: i32) -> (yes: bool)
    ensures
        yes == status_means_yes(status),
{
    status != 0
}

} // verus!
