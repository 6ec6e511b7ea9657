//! Multiplication of a group element by a natural number, and its laws.

use vstd::prelude::*;
use crate::group::CurveProjective;

verus! {

/// `k · p`: the sum of `k` copies of `p`.
pub open spec fn scalar_mul<P: CurveProjective>(k: nat, p: P::V) -> P::V
    decreases k,
{
    if k == 0 {
        P::zero()
    } else {
        P::sum(scalar_mul::<P>((k - 1) as nat, p), p)
    }
}

/// Every multiple of a group element is in the group.
pub proof fn lemma_scalar_mul_in_group<P: CurveProjective>(k: nat, p: P::V)
    requires
        P::in_group(p),
    ensures
        P::in_group(scalar_mul::<P>(k, p)),
    decreases k,
{
    P::lemma_closed(p, p);
    if k > 0 {
        lemma_scalar_mul_in_group::<P>((k - 1) as nat, p);
        P::lemma_closed(scalar_mul::<P>((k - 1) as nat, p), p);
    }
}

/// `1 · p == p`.
pub proof fn lemma_scalar_mul_one<P: CurveProjective>(p: P::V)
    requires
        P::in_group(p),
    ensures
        scalar_mul::<P>(1, p) == p,
{
    reveal_with_fuel(scalar_mul, 2);
    P::lemma_identity(p);
}

/// `(a + b) · p == a · p + b · p`.
pub proof fn lemma_scalar_mul_add<P: CurveProjective>(a: nat, b: nat, p: P::V)
    requires
        P::in_group(p),
    ensures
        scalar_mul::<P>(a + b, p) == P::sum(scalar_mul::<P>(a, p), scalar_mul::<P>(b, p)),
    decreases b,
{
    lemma_scalar_mul_in_group::<P>(a, p);
    if b == 0 {
        P::lemma_identity(scalar_mul::<P>(a, p));
    } else {
        let b1 = (b - 1) as nat;
        lemma_scalar_mul_add::<P>(a, b1, p);
        lemma_scalar_mul_in_group::<P>(b1, p);
        P::lemma_associative(scalar_mul::<P>(a, p), scalar_mul::<P>(b1, p), p);
        assert(scalar_mul::<P>(a + b, p) == P::sum(scalar_mul::<P>((a + b1) as nat, p), p));
    }
}

/// `(a · b) · p == a · (b · p)`.
pub proof fn lemma_scalar_mul_mul<P: CurveProjective>(a: nat, b: nat, p: P::V)
    requires
        P::in_group(p),
    ensures
        scalar_mul::<P>(a * b, p) == scalar_mul::<P>(a, scalar_mul::<P>(b, p)),
    decreases a,
{
    if a == 0 {
        assert(a * b == 0);
    } else {
        let a1 = (a - 1) as nat;
        lemma_scalar_mul_mul::<P>(a1, b, p);
        lemma_scalar_mul_add::<P>(a1 * b, b, p);
        assert(a * b == a1 * b + b) by (nonlinear_arith)
            requires
                a == a1 + 1,
        ;
    }
}

/// `k · 0 == 0`.
pub proof fn lemma_scalar_mul_zero<P: CurveProjective>(k: nat)
    requires
        P::in_group(P::zero()),
    ensures
        scalar_mul::<P>(k, P::zero()) == P::zero(),
    decreases k,
{
    if k > 0 {
        lemma_scalar_mul_zero::<P>((k - 1) as nat);
        P::lemma_identity(P::zero());
    }
}

/// `a · p - b · p == (a - b) · p` for `b <= a`.
pub proof fn lemma_scalar_mul_sub<P: CurveProjective>(a: nat, b: nat, p: P::V)
    requires
        P::in_group(p),
        b <= a,
    ensures
        P::sum(scalar_mul::<P>(a, p), P::neg(scalar_mul::<P>(b, p))) == scalar_mul::<P>(
            (a - b) as nat,
            p,
        ),
{
    let d = (a - b) as nat;
    let x = scalar_mul::<P>(d, p);
    let y = scalar_mul::<P>(b, p);
    lemma_scalar_mul_add::<P>(d, b, p);
    lemma_scalar_mul_in_group::<P>(d, p);
    lemma_scalar_mul_in_group::<P>(b, p);
    P::lemma_closed(y, y);
    P::lemma_associative(x, y, P::neg(y));
    P::lemma_inverse(y);
    P::lemma_identity(x);
}

/// If `n · p == 0`, then every multiple of `n` takes `p` to zero.
pub proof fn lemma_scalar_mul_multiple_of_order<P: CurveProjective>(c: nat, n: nat, p: P::V)
    requires
        P::in_group(p),
        scalar_mul::<P>(n, p) == P::zero(),
    ensures
        scalar_mul::<P>(c * n, p) == P::zero(),
{
    lemma_scalar_mul_mul::<P>(c, n, p);
    P::lemma_closed(p, p);
    lemma_scalar_mul_zero::<P>(c);
}

/// If `n · p == 0`, then integers that differ by a multiple of `n` take `p`
/// to the same element.
pub proof fn lemma_scalar_mul_congruent<P: CurveProjective>(a: nat, b: nat, c: nat, n: nat, p: P::V)
    requires
        P::in_group(p),
        scalar_mul::<P>(n, p) == P::zero(),
        a == b + c * n,
    ensures
        scalar_mul::<P>(a, p) == scalar_mul::<P>(b, p),
{
    lemma_scalar_mul_multiple_of_order::<P>(c, n, p);
    lemma_scalar_mul_add::<P>(b, c * n, p);
    lemma_scalar_mul_in_group::<P>(b, p);
    P::lemma_identity(scalar_mul::<P>(b, p));
}

} // verus!
