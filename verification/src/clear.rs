//! Clearing the cofactor of a point of G1 or of G2.

use vstd::prelude::*;
use crate::chain::{chain_h2_eff, chain_z, g2_effective_cofactor, NEG_Z};
use crate::group::CurveProjective;
use crate::scalar::{lemma_scalar_mul_add, lemma_scalar_mul_one, scalar_mul};

verus! {

/// The effective cofactor `1 - z` of G1.
pub open spec fn g1_effective_cofactor() -> nat {
    (NEG_Z + 1) as nat
}

/// Points whose cofactor can be cleared in place.
pub trait ClearH: CurveProjective {
    /// The integer that clearing multiplies by: the effective cofactor of the
    /// point's group.
    spec fn h_eff() -> nat;

    /// Clears the cofactor in place: multiplies the point by `h_eff`.
    fn clear_h(&mut self)
        requires
            Self::in_group(old(self)@),
        ensures
            Self::in_group(final(self)@),
            final(self)@ == scalar_mul::<Self>(Self::h_eff(), old(self)@),
    ;
}

/// A point of G1, held in the representation `P`.
#[derive(Debug)]
pub struct G1<P: CurveProjective>(pub P);

/// A point of G2, held in the representation `P`.
#[derive(Debug)]
pub struct G2<P: CurveProjective>(pub P);

impl<P: CurveProjective> Clone for G1<P> {
    fn clone(&self) -> (r: Self)
        ensures
            r == *self,
    {
        *self
    }
}

impl<P: CurveProjective> Copy for G1<P> {
}

impl<P: CurveProjective> Clone for G2<P> {
    fn clone(&self) -> (r: Self)
        ensures
            r == *self,
    {
        *self
    }
}

impl<P: CurveProjective> Copy for G2<P> {
}

impl<P: CurveProjective> CurveProjective for G1<P> {
    type V = P::V;

    open spec fn view(&self) -> P::V {
        self.0@
    }

    open spec fn in_group(a: P::V) -> bool {
        P::in_group(a)
    }

    open spec fn zero() -> P::V {
        P::zero()
    }

    open spec fn sum(a: P::V, b: P::V) -> P::V {
        P::sum(a, b)
    }

    open spec fn neg(a: P::V) -> P::V {
        P::neg(a)
    }

    proof fn lemma_closed(a: P::V, b: P::V) {
        P::lemma_closed(a, b);
    }

    proof fn lemma_associative(a: P::V, b: P::V, c: P::V) {
        P::lemma_associative(a, b, c);
    }

    proof fn lemma_identity(a: P::V) {
        P::lemma_identity(a);
    }

    proof fn lemma_inverse(a: P::V) {
        P::lemma_inverse(a);
    }

    fn double(&mut self) {
        self.0.double();
    }

    fn add_assign(&mut self, other: &Self) {
        self.0.add_assign(&other.0);
    }

    fn sub_assign(&mut self, other: &Self) {
        self.0.sub_assign(&other.0);
    }
}

impl<P: CurveProjective> CurveProjective for G2<P> {
    type V = P::V;

    open spec fn view(&self) -> P::V {
        self.0@
    }

    open spec fn in_group(a: P::V) -> bool {
        P::in_group(a)
    }

    open spec fn zero() -> P::V {
        P::zero()
    }

    open spec fn sum(a: P::V, b: P::V) -> P::V {
        P::sum(a, b)
    }

    open spec fn neg(a: P::V) -> P::V {
        P::neg(a)
    }

    proof fn lemma_closed(a: P::V, b: P::V) {
        P::lemma_closed(a, b);
    }

    proof fn lemma_associative(a: P::V, b: P::V, c: P::V) {
        P::lemma_associative(a, b, c);
    }

    proof fn lemma_identity(a: P::V) {
        P::lemma_identity(a);
    }

    proof fn lemma_inverse(a: P::V) {
        P::lemma_inverse(a);
    }

    fn double(&mut self) {
        self.0.double();
    }

    fn add_assign(&mut self, other: &Self) {
        self.0.add_assign(&other.0);
    }

    fn sub_assign(&mut self, other: &Self) {
        self.0.sub_assign(&other.0);
    }
}

impl<P: CurveProjective> ClearH for G1<P> {
    open spec fn h_eff() -> nat {
        g1_effective_cofactor()
    }

    /// `h_eff = 1 - z`, so the cleared point is `(-z) p + p`.
    fn clear_h(&mut self) {
        let pt_in = *self;
        chain_z(self, &pt_in);
        self.add_assign(&pt_in);
        proof {
            lemma_scalar_mul_one::<Self>(pt_in@);
            lemma_scalar_mul_add::<Self>(NEG_Z as nat, 1, pt_in@);
        }
    }
}

impl<P: CurveProjective> ClearH for G2<P> {
    open spec fn h_eff() -> nat {
        g2_effective_cofactor()
    }

    /// Multiplies by `h_eff = 3 (z^2 - 1) h2` with scalar arithmetic alone:
    /// the product is the one that the method of Budroni and Pintore gives,
    /// reached without the curve's endomorphism.
    fn clear_h(&mut self) {
        let pt_in = *self;
        chain_h2_eff(self, &pt_in);
    }
}

/// The multiples of an element are the same in `G1<P>` as in `P`.
pub proof fn lemma_g1_scalar_mul<P: CurveProjective>(k: nat, p: P::V)
    ensures
        scalar_mul::<G1<P>>(k, p) == scalar_mul::<P>(k, p),
    decreases k,
{
    if k > 0 {
        lemma_g1_scalar_mul::<P>((k - 1) as nat, p);
    }
}

/// The multiples of an element are the same in `G2<P>` as in `P`.
pub proof fn lemma_g2_scalar_mul<P: CurveProjective>(k: nat, p: P::V)
    ensures
        scalar_mul::<G2<P>>(k, p) == scalar_mul::<P>(k, p),
    decreases k,
{
    if k > 0 {
        lemma_g2_scalar_mul::<P>((k - 1) as nat, p);
    }
}

} // verus!
