//! The group capability that the addition chains are written against.

use vstd::prelude::*;

verus! {

/// A curve point in a representation that supports the group operations.
///
/// A value stands for an element of an abstract group, its view. The group is
/// given by its carrier `in_group`, its neutral element `zero`, its operation
/// `sum` and its inverse `neg`; the proof functions are the group axioms that
/// an implementation has to establish. The executable operations work in
/// place and are total on values whose view is in the group.
pub trait CurveProjective: Sized + Copy {
    /// The mathematical group element.
    type V;

    /// The group element that this value represents.
    spec fn view(&self) -> Self::V;

    /// Whether `a` belongs to the group.
    spec fn in_group(a: Self::V) -> bool;

    /// The neutral element.
    spec fn zero() -> Self::V;

    /// The group operation.
    spec fn sum(a: Self::V, b: Self::V) -> Self::V;

    /// The inverse of `a`.
    spec fn neg(a: Self::V) -> Self::V;

    /// The carrier holds the neutral element and is closed under the
    /// operation and under inverses.
    proof fn lemma_closed(a: Self::V, b: Self::V)
        requires
            Self::in_group(a),
            Self::in_group(b),
        ensures
            Self::in_group(Self::zero()),
            Self::in_group(Self::sum(a, b)),
            Self::in_group(Self::neg(a)),
    ;

    /// The operation is associative.
    proof fn lemma_associative(a: Self::V, b: Self::V, c: Self::V)
        requires
            Self::in_group(a),
            Self::in_group(b),
            Self::in_group(c),
        ensures
            Self::sum(Self::sum(a, b), c) == Self::sum(a, Self::sum(b, c)),
    ;

    /// `zero` is neutral on both sides.
    proof fn lemma_identity(a: Self::V)
        requires
            Self::in_group(a),
        ensures
            Self::sum(a, Self::zero()) == a,
            Self::sum(Self::zero(), a) == a,
    ;

    /// `neg(a)` is inverse to `a` on both sides.
    proof fn lemma_inverse(a: Self::V)
        requires
            Self::in_group(a),
        ensures
            Self::sum(a, Self::neg(a)) == Self::zero(),
            Self::sum(Self::neg(a), a) == Self::zero(),
    ;

    /// Replaces the point by its double.
    fn double(&mut self)
        requires
            Self::in_group(old(self)@),
        ensures
            Self::in_group(final(self)@),
            final(self)@ == Self::sum(old(self)@, old(self)@),
    ;

    /// Adds `other` to the point.
    fn add_assign(&mut self, other: &Self)
        requires
            Self::in_group(old(self)@),
            Self::in_group(other@),
        ensures
            Self::in_group(final(self)@),
            final(self)@ == Self::sum(old(self)@, other@),
    ;

    /// Subtracts `other` from the point.
    fn sub_assign(&mut self, other: &Self)
        requires
            Self::in_group(old(self)@),
            Self::in_group(other@),
        ensures
            Self::in_group(final(self)@),
            final(self)@ == Self::sum(old(self)@, Self::neg(other@)),
    ;
}

} // verus!
