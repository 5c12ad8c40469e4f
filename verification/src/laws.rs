//! What holds of the handle layer as a whole, over every handle and every
//! reply.

use vstd::prelude::*;
use vstd::std_specs::cmp::PartialEqSpec;
use crate::objects::{PyDict, PyTuple};
use crate::protocol::{net_references, status_means_yes, ForeignCall};
use crate::python::ToPyPointer;
use crate::typeobject::{call_question, subtype_question, PyType};

verus! {

/// Identity is the address. Two handles on one type object are equal, and
/// two handles on different type objects are not, whatever name either type
/// object reports; the relation is reflexive, symmetric and transitive.
pub proof fn lemma_identity_is_address(a: PyType, b: PyType, c: PyType)
    ensures
        a.ptr() == b.ptr() ==> a.eq_spec(&b),
        a.ptr() != b.ptr() ==> !a.eq_spec(&b),
        a.eq_spec(&a),
        a.eq_spec(&b) ==> b.eq_spec(&a),
        a.eq_spec(&b) && b.eq_spec(&c) ==> a.eq_spec(&c),
{
}

/// A handle made from a borrowed pointer and then released leaves every
/// reference count where it was: the one reference that its construction
/// takes is the one that its release gives back.
pub proof fn lemma_borrow_then_release_is_balanced(p: usize, object: usize)
    requires
        p != 0,
    ensures
        net_references(
            seq![ForeignCall::IncRef { object: p }, ForeignCall::DecRef { object: p }],
            object,
        ) == 0,
{
    let calls = seq![ForeignCall::IncRef { object: p }, ForeignCall::DecRef { object: p }];
    let first = calls.drop_last();
    assert(first.len() == 1);
    assert(first.last() == (ForeignCall::IncRef { object: p }));
    assert(first.drop_last().len() == 0);
    assert(net_references(first.drop_last(), object) == 0);
    reveal_with_fuel(net_references, 3);
}

/// A handle that takes over a reference its maker already owned and is then
/// released gives back exactly that one reference, and touches the count of
/// no other object.
pub proof fn lemma_release_gives_back_one(p: usize, object: usize)
    requires
        p != 0,
    ensures
        net_references(seq![ForeignCall::DecRef { object: p }], object) == if object == p {
            -1int
        } else {
            0int
        },
{
    let calls = seq![ForeignCall::DecRef { object: p }];
    assert(calls.drop_last().len() == 0);
    reveal_with_fuel(net_references, 2);
}

/// Calling a type without keyword arguments and calling it with a mapping of
/// keyword arguments, even an empty one, are two different requests to the
/// runtime: only the first carries the null pointer.
pub proof fn lemma_absent_kwargs_differ_from_present(ty: PyType, args: PyTuple, dict: PyDict)
    requires
        dict.ptr() != 0,
    ensures
        call_question(ty, args, None) != call_question(ty, args, Some(&dict)),
        call_question(ty, args, None)->kwargs == 0,
        call_question(ty, args, Some(&dict))->kwargs == dict.ptr(),
{
}

/// What the subtype test reports of `a` and `b` when the runtime's subtype
/// primitive answers the question about `sub` and `sup` with
/// `answer(sub, sup)`.
pub open spec fn subtype_report(answer: spec_fn(usize, usize) -> i32, a: PyType, b: PyType) -> bool {
    status_means_yes(answer(subtype_question(a, b)->sub, subtype_question(a, b)->sup))
}

/// The subtype test adds nothing to and takes nothing from the runtime's
/// answer. So where the runtime says of every live type that it is a subtype
/// of itself, the test of a handle against itself reports yes.
pub proof fn lemma_subtype_test_keeps_reflexivity(answer: spec_fn(usize, usize) -> i32, t: PyType)
    requires
        t.ptr() != 0,
        forall|p: usize| p != 0 ==> status_means_yes(#[trigger] answer(p, p)),
    ensures
        subtype_report(answer, t, t),
{
}

/// Where the runtime's answers are transitive over live types, so are the
/// reports of the subtype test.
pub proof fn lemma_subtype_test_keeps_transitivity(
    answer: spec_fn(usize, usize) -> i32,
    a: PyType,
    b: PyType,
    c: PyType,
)
    requires
        a.ptr() != 0,
        b.ptr() != 0,
        c.ptr() != 0,
        forall|p: usize, q: usize, r: usize|
            p != 0 && q != 0 && r != 0 && status_means_yes(#[trigger] answer(p, q))
                && status_means_yes(#[trigger] answer(q, r)) ==> status_means_yes(answer(p, r)),
        subtype_report(answer, a, b),
        subtype_report(answer, b, c),
    ensures
        subtype_report(answer, a, c),
{
}

} // verus!
