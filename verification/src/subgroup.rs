//! What clearing the cofactor does with respect to the subgroup of prime
//! order.
//!
//! An element is in that subgroup when the prime `r` takes it to zero. The
//! laws hold in every group `P`: what they assume of a point is said through
//! multiples of the point alone.

use vstd::prelude::*;
use vstd::arithmetic::div_mod::lemma_fundamental_div_mod_converse;
use crate::chain::{g2_cofactor, g2_effective_cofactor, NEG_Z};
use crate::clear::{
    g1_effective_cofactor, lemma_g1_scalar_mul, lemma_g2_scalar_mul, ClearH, G1, G2,
};
use crate::group::CurveProjective;
use crate::scalar::{
    lemma_scalar_mul_congruent, lemma_scalar_mul_mul, lemma_scalar_mul_multiple_of_order,
    lemma_scalar_mul_one, scalar_mul,
};

verus! {

/// The prime order `r = z^4 - z^2 + 1` of G1 and of G2.
pub open spec fn subgroup_order() -> nat {
    (NEG_Z * NEG_Z * NEG_Z * NEG_Z - NEG_Z * NEG_Z + 1) as nat
}

/// The effective cofactor of G2 modulo `r`.
pub open spec fn g2_effective_cofactor_mod_r() -> nat {
    0x2_b116900400069009_a40200040001ffffnat
}

/// The value of `r`.
pub proof fn lemma_subgroup_order_value()
    ensures
        subgroup_order()
            == 0x73eda753299d7d483339d80809a1d80553bda402fffe5bfeffffffff00000001nat,
{
}

/// `g2_effective_cofactor_mod_r` is the effective cofactor of G2 reduced
/// modulo `r`.
pub proof fn lemma_g2_effective_cofactor_mod_r()
    ensures
        g2_effective_cofactor() % subgroup_order() == g2_effective_cofactor_mod_r(),
{
    lemma_subgroup_order_value();
    let q: int =
        4002409555221667393946776086222047831620323995969580119874879856373911787459752334899477226377939962228292431861074int;
    lemma_fundamental_div_mod_converse(
        g2_effective_cofactor() as int,
        subgroup_order() as int,
        q,
        g2_effective_cofactor_mod_r() as int,
    );
}

/// Clearing twice multiplies by the square of the effective cofactor.
pub proof fn lemma_clear_h_twice<T: ClearH>(p: T::V)
    requires
        T::in_group(p),
    ensures
        scalar_mul::<T>(T::h_eff(), scalar_mul::<T>(T::h_eff(), p)) == scalar_mul::<T>(
            T::h_eff() * T::h_eff(),
            p,
        ),
{
    lemma_scalar_mul_mul::<T>(T::h_eff(), T::h_eff(), p);
}

/// On the subgroup of prime order, clearing the cofactor of G2 is the
/// multiplication by the effective cofactor modulo `r`.
pub proof fn lemma_g2_clear_h_on_subgroup<P: CurveProjective>(p: P::V)
    requires
        P::in_group(p),
        scalar_mul::<P>(subgroup_order(), p) == P::zero(),
    ensures
        scalar_mul::<G2<P>>(G2::<P>::h_eff(), p) == scalar_mul::<P>(
            g2_effective_cofactor_mod_r(),
            p,
        ),
{
    lemma_subgroup_order_value();
    let c: nat =
        4002409555221667393946776086222047831620323995969580119874879856373911787459752334899477226377939962228292431861074nat;
    lemma_scalar_mul_congruent::<P>(
        g2_effective_cofactor(),
        g2_effective_cofactor_mod_r(),
        c,
        subgroup_order(),
        p,
    );
    lemma_g2_scalar_mul::<P>(g2_effective_cofactor(), p);
}

/// Clearing the cofactor of G2 takes every point of a group of order
/// `h2 r` into the subgroup of prime order.
pub proof fn lemma_g2_clear_h_into_subgroup<P: CurveProjective>(p: P::V)
    requires
        P::in_group(p),
        scalar_mul::<P>(g2_cofactor() * subgroup_order(), p) == P::zero(),
    ensures
        scalar_mul::<P>(subgroup_order(), scalar_mul::<G2<P>>(G2::<P>::h_eff(), p)) == P::zero(),
{
    let r = subgroup_order();
    let c = (3 * (NEG_Z * NEG_Z - 1)) as nat;
    lemma_g2_scalar_mul::<P>(g2_effective_cofactor(), p);
    lemma_scalar_mul_mul::<P>(r, g2_effective_cofactor(), p);
    lemma_scalar_mul_multiple_of_order::<P>(c, g2_cofactor() * r, p);
    assert(r * g2_effective_cofactor() == c * (g2_cofactor() * r)) by (nonlinear_arith)
        requires
            g2_effective_cofactor() == c * g2_cofactor(),
    ;
}

/// Clearing the cofactor of G1 takes every point that `(1 - z) r` takes to
/// zero into the subgroup of prime order.
pub proof fn lemma_g1_clear_h_into_subgroup<P: CurveProjective>(p: P::V)
    requires
        P::in_group(p),
        scalar_mul::<P>(g1_effective_cofactor() * subgroup_order(), p) == P::zero(),
    ensures
        scalar_mul::<P>(subgroup_order(), scalar_mul::<G1<P>>(G1::<P>::h_eff(), p)) == P::zero(),
{
    let r = subgroup_order();
    let h = g1_effective_cofactor();
    lemma_g1_scalar_mul::<P>(h, p);
    lemma_scalar_mul_mul::<P>(r, h, p);
    assert(r * h == h * r) by (nonlinear_arith);
}

/// A point of the subgroup of prime order stays in it when its cofactor is
/// cleared, be it that of G1 or that of G2.
pub proof fn lemma_clear_h_keeps_subgroup<P: CurveProjective>(p: P::V)
    requires
        P::in_group(p),
        scalar_mul::<P>(subgroup_order(), p) == P::zero(),
    ensures
        scalar_mul::<P>(subgroup_order(), scalar_mul::<G1<P>>(G1::<P>::h_eff(), p)) == P::zero(),
        scalar_mul::<P>(subgroup_order(), scalar_mul::<G2<P>>(G2::<P>::h_eff(), p)) == P::zero(),
{
    let r = subgroup_order();
    lemma_scalar_mul_multiple_of_order::<P>(g1_effective_cofactor(), r, p);
    lemma_g1_clear_h_into_subgroup::<P>(p);
    lemma_scalar_mul_multiple_of_order::<P>(g2_cofactor(), r, p);
    lemma_g2_clear_h_into_subgroup::<P>(p);
}

/// On the subgroup of prime order, clearing the cofactor of G1 loses
/// nothing: some multiple of the cleared point is the point itself.
pub proof fn lemma_g1_clear_h_invertible_on_subgroup<P: CurveProjective>(p: P::V)
    requires
        P::in_group(p),
        scalar_mul::<P>(subgroup_order(), p) == P::zero(),
    ensures
        exists|u: nat| #[trigger]
            scalar_mul::<P>(u, scalar_mul::<G1<P>>(G1::<P>::h_eff(), p)) == p,
{
    lemma_subgroup_order_value();
    // u (1 - z) == 1 + (-z) r
    let u: nat =
        52435875175126190475982595682112313519143271779992544622398259808133613355009nat;
    lemma_g1_scalar_mul::<P>(g1_effective_cofactor(), p);
    lemma_scalar_mul_mul::<P>(u, g1_effective_cofactor(), p);
    lemma_scalar_mul_congruent::<P>(
        u * g1_effective_cofactor(),
        1,
        NEG_Z as nat,
        subgroup_order(),
        p,
    );
    lemma_scalar_mul_one::<P>(p);
    assert(scalar_mul::<P>(u, scalar_mul::<G1<P>>(G1::<P>::h_eff(), p)) == p);
}

/// On the subgroup of prime order, clearing the cofactor of G2 loses
/// nothing: some multiple of the cleared point is the point itself.
pub proof fn lemma_g2_clear_h_invertible_on_subgroup<P: CurveProjective>(p: P::V)
    requires
        P::in_group(p),
        scalar_mul::<P>(subgroup_order(), p) == P::zero(),
    ensures
        exists|u: nat| #[trigger]
            scalar_mul::<P>(u, scalar_mul::<G2<P>>(G2::<P>::h_eff(), p)) == p,
{
    lemma_subgroup_order_value();
    // u h_eff == 1 + c r
    let u: nat =
        19120263876012865036857856531209187645441785900065069956611627656978960765449nat;
    let c: nat =
        76527126835713565391415767784576201083664915091756506606075886717517051935240756668743281756153477156298921782018430982273803660913666835610139004064578247758972299904411315058347706879832536nat;
    lemma_g2_scalar_mul::<P>(g2_effective_cofactor(), p);
    lemma_scalar_mul_mul::<P>(u, g2_effective_cofactor(), p);
    lemma_scalar_mul_congruent::<P>(u * g2_effective_cofactor(), 1, c, subgroup_order(), p);
    lemma_scalar_mul_one::<P>(p);
    assert(scalar_mul::<P>(u, scalar_mul::<G2<P>>(G2::<P>::h_eff(), p)) == p);
}

} // verus!
