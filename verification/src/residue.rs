//! The integers modulo `M` under addition.
//!
//! A small group that provides the operations which the addition chains need.
//! A chain that is run on the class of 1 ends with the class of the chain's
//! integer, so the integer can be read off modulo `M`.

use vstd::prelude::*;
use vstd::arithmetic::div_mod::{
    lemma_add_mod_noop_right, lemma_mod_pos_bound, lemma_mod_self_0, lemma_small_mod,
};
use crate::group::CurveProjective;
use crate::scalar::scalar_mul;

verus! {

/// A residue class modulo `M`, held as its least representative.
#[derive(Clone, Copy, Debug, PartialEq, Eq)]
pub struct Residue<const M: u64> {
    value: u64,
}

impl<const M: u64> Residue<M> {
    /// The class of `n`.
    pub fn new(n: u64) -> (r: Self)
        requires
            M > 0,
        ensures
            r@ == n % M,
            Self::in_group(r@),
    {
        Residue { value: n % M }
    }

    /// The least representative of the class.
    pub fn value(&self) -> (v: u64)
        ensures
            v == self@,
    {
        self.value
    }
}

impl<const M: u64> CurveProjective for Residue<M> {
    type V = int;

    closed spec fn view(&self) -> int {
        self.value as int
    }

    open spec fn in_group(a: int) -> bool {
        0 <= a < M
    }

    open spec fn zero() -> int {
        0
    }

    open spec fn sum(a: int, b: int) -> int {
        (a + b) % (M as int)
    }

    open spec fn neg(a: int) -> int {
        (M - a) % (M as int)
    }

    proof fn lemma_closed(a: int, b: int) {
        lemma_mod_pos_bound(a + b, M as int);
        lemma_mod_pos_bound(M - a, M as int);
    }

    proof fn lemma_associative(a: int, b: int, c: int) {
        let m = M as int;
        lemma_add_mod_noop_right(c, a + b, m);
        lemma_add_mod_noop_right(a, b + c, m);
        assert(((a + b) % m + c) % m == (c + (a + b) % m) % m);
    }

    proof fn lemma_identity(a: int) {
        lemma_small_mod(a as nat, M as nat);
    }

    proof fn lemma_inverse(a: int) {
        let m = M as int;
        lemma_add_mod_noop_right(a, m - a, m);
        lemma_mod_self_0(m);
        assert(((m - a) % m + a) % m == (a + (m - a) % m) % m);
    }

    fn double(&mut self) {
        let v: u128 = self.value as u128;
        proof {
            lemma_mod_pos_bound(v + v, M as int);
        }
        self.value = ((v + v) % (M as u128)) as u64;
    }

    fn add_assign(&mut self, other: &Self) {
        let v: u128 = self.value as u128;
        let w: u128 = other.value as u128;
        proof {
            lemma_mod_pos_bound(v + w, M as int);
        }
        self.value = ((v + w) % (M as u128)) as u64;
    }

    fn sub_assign(&mut self, other: &Self) {
        let v: u128 = self.value as u128;
        let w: u128 = ((M - other.value) % M) as u128;
        proof {
            lemma_mod_pos_bound(M - other.value, M as int);
            lemma_mod_pos_bound(v + w, M as int);
        }
        self.value = ((v + w) % (M as u128)) as u64;
    }
}

/// In the integers modulo `M`, `k · a` is the product `k a` reduced.
pub proof fn lemma_residue_scalar_mul<const M: u64>(k: nat, a: int)
    requires
        0 <= a < M,
    ensures
        scalar_mul::<Residue<M>>(k, a) == (k * a) % (M as int),
    decreases k,
{
    let m = M as int;
    if k == 0 {
        assert(k * a == 0);
        lemma_small_mod(0, M as nat);
    } else {
        let k1 = (k - 1) as nat;
        lemma_residue_scalar_mul::<M>(k1, a);
        lemma_add_mod_noop_right(a, k1 * a, m);
        assert(k * a == k1 * a + a) by (nonlinear_arith)
            requires
                k == k1 + 1,
        ;
        assert(((k1 * a) % m + a) % m == (a + (k1 * a) % m) % m);
    }
}

} // verus!
