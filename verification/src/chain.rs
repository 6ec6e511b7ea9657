//! The two fixed addition chains.
//!
//! A chain is a straight-line program of doublings and additions that
//! multiplies its input by one fixed integer. The registers of a chain carry,
//! as ghost state, the multiple of the input that they hold, so that the
//! product which a chain ends with is known to be the input times the
//! chain's integer, whatever the group.

use vstd::prelude::*;
use vstd::arithmetic::power2::{lemma2_to64, lemma_pow2_unfold, pow2};
use crate::group::CurveProjective;
use crate::scalar::{
    lemma_scalar_mul_add, lemma_scalar_mul_in_group, lemma_scalar_mul_mul, lemma_scalar_mul_one,
    lemma_scalar_mul_sub, scalar_mul,
};

verus! {

/// The absolute value `-z` of the curve parameter `z`, which is negative.
pub const NEG_Z: u64 = 0xd201000000010000;

/// The cofactor `h2` of G2.
pub open spec fn g2_cofactor() -> nat {
    305502333931268344200999753193121504214466019254188142667664032982267604182971884026507427359259977847832272839041616661285803823378372096355777062779109nat
}

/// The effective cofactor `3 (z^2 - 1) h2` of G2.
pub open spec fn g2_effective_cofactor() -> nat {
    (3 * (NEG_Z * NEG_Z - 1) * g2_cofactor()) as nat
}

/// The value of the effective cofactor of G2.
pub proof fn lemma_g2_effective_cofactor_value()
    ensures
        g2_effective_cofactor()
            == 0xbc69f08f2ee75b3584c6a0ea91b352888e2a8e9145ad7689986ff031508ffe1329c2f178731db956d82bf015d1212b02ec0ec69d7477c1ae954cbc06689f6a359894c0adebbf6b4e8020005aaa95551nat,
{
}

/// A register of an addition chain: a point, and which multiple of the
/// chain's input it holds.
struct Multiple<P: CurveProjective> {
    point: P,
    scalar: Ghost<nat>,
    base: Ghost<P::V>,
}

impl<P: CurveProjective> Clone for Multiple<P> {
    fn clone(&self) -> (r: Self)
        ensures
            r == *self,
    {
        *self
    }
}

impl<P: CurveProjective> Copy for Multiple<P> {
}

impl<P: CurveProjective> Multiple<P> {
    /// The point is the recorded multiple of a base that is in the group.
    spec fn wf(&self) -> bool {
        &&& P::in_group(self.base@)
        &&& self.point@ == scalar_mul::<P>(self.scalar@, self.base@)
    }

    /// Whether the register holds `k` times `p`.
    spec fn holds(&self, k: nat, p: P::V) -> bool {
        &&& self.wf()
        &&& self.scalar@ == k
        &&& self.base@ == p
    }

    /// The register that holds the input `p` itself.
    fn input(p: &P) -> (r: Self)
        requires
            P::in_group(p@),
        ensures
            r.holds(1, p@),
    {
        proof {
            lemma_scalar_mul_one::<P>(p@);
        }
        Multiple { point: *p, scalar: Ghost(1), base: Ghost(p@) }
    }

    /// Doubles the register.
    fn double(&mut self)
        requires
            old(self).wf(),
        ensures
            final(self).holds(2 * old(self).scalar@, old(self).base@),
    {
        proof {
            lemma_scalar_mul_add::<P>(self.scalar@, self.scalar@, self.base@);
            lemma_scalar_mul_in_group::<P>(self.scalar@, self.base@);
        }
        self.point.double();
        self.scalar = Ghost((2 * old(self).scalar@) as nat);
    }

    /// Doubles the register `n` times.
    fn double_n(&mut self, n: u32)
        requires
            old(self).wf(),
        ensures
            final(self).holds(old(self).scalar@ * pow2(n as nat), old(self).base@),
    {
        proof {
            lemma2_to64();
        }
        let mut i: u32 = 0;
        while i < n
            invariant
                i <= n,
                self.holds(old(self).scalar@ * pow2(i as nat), old(self).base@),
            decreases n - i,
        {
            proof {
                lemma_pow2_unfold((i + 1) as nat);
                let k = old(self).scalar@;
                let m = pow2(i as nat);
                assert(2 * (k * m) == k * (2 * m)) by (nonlinear_arith);
            }
            self.double();
            i = i + 1;
        }
    }

    /// Adds the register `other`, of the same chain.
    fn add_assign(&mut self, other: &Self)
        requires
            old(self).wf(),
            other.wf(),
            other.base@ == old(self).base@,
        ensures
            final(self).holds(old(self).scalar@ + other.scalar@, old(self).base@),
    {
        proof {
            lemma_scalar_mul_add::<P>(self.scalar@, other.scalar@, self.base@);
            lemma_scalar_mul_in_group::<P>(self.scalar@, self.base@);
            lemma_scalar_mul_in_group::<P>(other.scalar@, self.base@);
        }
        self.point.add_assign(&other.point);
        self.scalar = Ghost(old(self).scalar@ + other.scalar@);
    }

    /// The point that the register holds.
    fn value(&self) -> (r: P)
        requires
            self.wf(),
        ensures
            P::in_group(r@),
            r@ == scalar_mul::<P>(self.scalar@, self.base@),
    {
        proof {
            lemma_scalar_mul_in_group::<P>(self.scalar@, self.base@);
        }
        self.point
    }
}

/// Multiplies the point `p` by `-z = 0xd201000000010000` and stores the
/// product in `acc`. What `acc` held before is of no account.
///
/// The chain follows the binary expansion of `-z`, whose set bits are
/// 63, 62, 60, 57, 48 and 16.
pub fn chain_z<P: CurveProjective>(acc: &mut P, p: &P)
    requires
        P::in_group(p@),
    ensures
        P::in_group(final(acc)@),
        final(acc)@ == scalar_mul::<P>(NEG_Z as nat, p@),
{
    proof {
        lemma2_to64();
    }
    let x1 = Multiple::input(p);
    let mut t = x1;
    t.double();
    t.add_assign(&x1);
    t.double_n(2);
    t.add_assign(&x1);
    t.double_n(3);
    t.add_assign(&x1);
    t.double_n(9);
    t.add_assign(&x1);
    t.double_n(32);
    t.add_assign(&x1);
    t.double_n(16);
    *acc = t.value();
}

/// Multiplies the point `p` by the effective cofactor `3 (z^2 - 1) h2` of G2
/// and stores the product in `acc`. What `acc` held before is of no account.
///
/// A windowed chain over the odd multiples of `p` up to `29 p` first reaches
/// `h2 p`. Three times that, taken through `chain_z` twice, is
/// `3 z^2 h2 p`, from which `3 h2 p` is subtracted.
pub fn chain_h2_eff<P: CurveProjective>(acc: &mut P, p: &P)
    requires
        P::in_group(p@),
    ensures
        P::in_group(final(acc)@),
        final(acc)@ == scalar_mul::<P>(g2_effective_cofactor(), p@),
{
    proof {
        lemma2_to64();
    }
    // The odd multiples x1 = p, x3 = 3 p, ..., x29 = 29 p, each one the one
    // before it plus 2 p, which t holds meanwhile.
    let x1 = Multiple::input(p);
    let mut t = x1;
    t.double();
    let mut x3 = t;
    x3.add_assign(&x1);
    let mut x5 = x3;
    x5.add_assign(&t);
    let mut x7 = x5;
    x7.add_assign(&t);
    let mut x9 = x7;
    x9.add_assign(&t);
    let mut x11 = x9;
    x11.add_assign(&t);
    let mut x13 = x11;
    x13.add_assign(&t);
    let mut x15 = x13;
    x15.add_assign(&t);
    let mut x17 = x15;
    x17.add_assign(&t);
    let mut x19 = x17;
    x19.add_assign(&t);
    let mut x21 = x19;
    x21.add_assign(&t);
    let mut x23 = x21;
    x23.add_assign(&t);
    let mut x25 = x23;
    x25.add_assign(&t);
    let mut x27 = x25;
    x27.add_assign(&t);
    let mut x29 = x27;
    x29.add_assign(&t);

    // The windowed chain for h2: double a few times, add one odd multiple.
    t = x23;
    t.double();
    t.double_n(5);
    t.add_assign(&x21);
    t.double_n(2);
    t.add_assign(&x1);
    t.double_n(9);
    t.add_assign(&x29);
    t.double_n(5);
    t.add_assign(&x9);
    t.double_n(6);
    t.add_assign(&x21);
    t.double_n(8);
    t.add_assign(&x5);
    t.double_n(5);
    t.add_assign(&x7);
    t.double_n(5);
    t.add_assign(&x7);
    t.double_n(4);
    t.add_assign(&x15);
    t.double_n(4);
    t.add_assign(&x1);
    t.double_n(8);
    t.add_assign(&x9);
    t.double_n(8);
    t.add_assign(&x29);
    t.double_n(4);
    t.add_assign(&x5);
    t.double_n(9);
    t.add_assign(&x15);
    t.double_n(6);
    t.add_assign(&x9);
    t.double_n(2);
    t.add_assign(&x1);
    t.double_n(9);
    t.add_assign(&x29);
    t.double_n(5);
    t.add_assign(&x21);
    t.double_n(4);
    t.add_assign(&x1);
    t.double_n(11);
    t.add_assign(&x11);
    t.double_n(7);
    t.add_assign(&x27);
    t.double_n(7);
    t.add_assign(&x17);
    t.double_n(5);
    t.add_assign(&x27);
    t.double_n(5);
    t.add_assign(&x25);
    t.double_n(8);
    t.add_assign(&x21);
    t.double_n(6);
    t.add_assign(&x7);
    t.double_n(5);
    t.add_assign(&x1);
    t.double_n(8);
    t.add_assign(&x11);
    t.double_n(6);
    t.add_assign(&x21);
    t.double_n(4);
    t.add_assign(&x13);
    t.double_n(4);
    t.add_assign(&x5);
    t.double_n(6);
    t.add_assign(&x13);
    t.double_n(6);
    t.add_assign(&x5);
    t.double_n(4);
    t.add_assign(&x1);
    t.double_n(10);
    t.add_assign(&x11);
    t.double_n(6);
    t.add_assign(&x25);
    t.double_n(4);
    t.add_assign(&x7);
    t.double_n(6);
    t.add_assign(&x11);
    t.double_n(6);
    t.add_assign(&x19);
    t.double_n(5);
    t.add_assign(&x29);
    t.double_n(5);
    t.add_assign(&x27);
    t.double_n(4);
    t.add_assign(&x15);
    t.double_n(6);
    t.add_assign(&x19);
    t.double_n(6);
    t.add_assign(&x5);
    t.double_n(7);
    t.add_assign(&x15);
    t.double_n(6);
    t.add_assign(&x7);
    t.double_n(6);
    t.add_assign(&x11);
    t.double_n(6);
    t.add_assign(&x19);
    t.double_n(6);
    t.add_assign(&x25);
    t.double_n(5);
    t.add_assign(&x29);
    t.double_n(10);
    t.add_assign(&x23);
    t.double_n(5);
    t.add_assign(&x15);
    t.double_n(3);
    t.add_assign(&x1);
    t.double_n(9);
    t.add_assign(&x21);
    t.double_n(7);
    t.add_assign(&x27);
    t.double_n(4);
    t.add_assign(&x15);
    t.double_n(6);
    t.add_assign(&x5);
    t.double_n(6);
    t.add_assign(&x9);
    t.double_n(4);
    t.add_assign(&x13);
    t.double_n(4);
    t.add_assign(&x3);
    t.double_n(6);
    t.add_assign(&x13);
    t.double_n(7);
    t.add_assign(&x17);
    t.double_n(3);
    t.add_assign(&x5);
    t.double_n(4);
    t.add_assign(&x7);
    t.double_n(8);
    t.add_assign(&x11);
    t.double_n(8);
    t.add_assign(&x11);
    t.double_n(6);
    t.add_assign(&x29);
    t.double_n(5);
    t.add_assign(&x17);
    t.double_n(5);
    t.add_assign(&x23);
    t.double_n(6);
    t.add_assign(&x15);
    t.double_n(6);
    t.add_assign(&x3);
    t.double_n(5);
    t.add_assign(&x15);
    t.double_n(6);
    t.add_assign(&x3);
    t.double_n(6);
    t.add_assign(&x7);
    t.double_n(6);
    t.add_assign(&x3);
    t.double_n(6);
    t.add_assign(&x15);
    t.double_n(6);
    t.add_assign(&x7);
    t.double_n(7);
    t.add_assign(&x7);
    t.double_n(6);
    t.add_assign(&x7);
    t.double_n(5);
    t.add_assign(&x3);
    t.double_n(6);
    t.add_assign(&x7);
    t.double_n(6);
    t.add_assign(&x7);
    t.double_n(3);
    t.add_assign(&x1);
    t.double_n(6);
    t.add_assign(&x7);
    t.double_n(6);
    t.add_assign(&x7);
    t.double_n(5);
    t.add_assign(&x5);
    assert(t.holds(g2_cofactor(), p@));

    // 3 h2 p
    let h2 = t;
    t.double();
    t.add_assign(&h2);
    let three_h2 = t.value();

    // (z^2 - 1) 3 h2 p
    let mut z_three_h2 = three_h2;
    chain_z(&mut z_three_h2, &three_h2);
    chain_z(acc, &z_three_h2);
    acc.sub_assign(&three_h2);
    proof {
        let z = NEG_Z as nat;
        let q = three_h2@;
        lemma_scalar_mul_mul::<P>(z, z, q);
        lemma_scalar_mul_one::<P>(q);
        lemma_scalar_mul_sub::<P>(z * z, 1, q);
        lemma_scalar_mul_mul::<P>((z * z - 1) as nat, 3 * g2_cofactor(), p@);
    }
}

} // verus!
