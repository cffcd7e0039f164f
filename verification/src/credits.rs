//! The quadratic weight of a vote: the integer square root of a token balance.

use vstd::prelude::*;

verus! {

/// `root` is the largest natural number whose square does not exceed `n`.
pub open spec fn is_floor_sqrt(n: nat, root: nat) -> bool {
    root * root <= n && n < (root + 1) * (root + 1)
}

/// The integer square root of `n`, rounded down.
pub open spec fn floor_sqrt(n: nat) -> nat {
    choose|root: nat| is_floor_sqrt(n, root)
}

/// At most one number is the rounded-down square root of `n`.
pub proof fn lemma_floor_sqrt_unique(n: nat, a: nat, b: nat)
    requires
        is_floor_sqrt(n, a),
        is_floor_sqrt(n, b),
    ensures
        a == b,
{
    if a < b {
        assert((a + 1) * (a + 1) <= b * b) by (nonlinear_arith)
            requires
                a + 1 <= b,
        ;
    } else if b < a {
        assert((b + 1) * (b + 1) <= a * a) by (nonlinear_arith)
            requires
                b + 1 <= a,
        ;
    }
}

/// Every natural number has a rounded-down square root, and `floor_sqrt` is it.
pub proof fn lemma_floor_sqrt_exists(n: nat)
    ensures
        is_floor_sqrt(n, floor_sqrt(n)),
    decreases n,
{
    if n == 0 {
        assert(is_floor_sqrt(0, 0)) by (nonlinear_arith);
    } else {
        lemma_floor_sqrt_exists((n - 1) as nat);
        let below = floor_sqrt((n - 1) as nat);
        if (below + 1) * (below + 1) <= n {
            assert(n < (below + 2) * (below + 2)) by (nonlinear_arith)
                requires
                    n - 1 < (below + 1) * (below + 1),
            ;
            assert(is_floor_sqrt(n, below + 1));
        } else {
            assert(is_floor_sqrt(n, below));
        }
    }
}

/// Whatever satisfies the defining inequalities is `floor_sqrt(n)`.
pub proof fn lemma_floor_sqrt_is(n: nat, root: nat)
    requires
        is_floor_sqrt(n, root),
    ensures
        floor_sqrt(n) == root,
{
    lemma_floor_sqrt_unique(n, root, floor_sqrt(n));
}

/// The weight of a vote cast with `balance` tokens: `floor(sqrt(balance))`.
///
/// The root is found by bisection over `[0, 2^32)`, in integers throughout,
/// so the result is exact for every 64-bit balance.
pub fn vote_credits(balance: u64) -> (credits: u64)
    ensures
        credits == floor_sqrt(balance as nat),
        is_floor_sqrt(balance as nat, credits as nat),
        credits <= 0xffff_ffff,
{
    let mut low: u64 = 0;
    let mut high: u64 = 0x1_0000_0000;
    while high - low > 1
        invariant
            low < high <= 0x1_0000_0000,
            low * low <= balance,
            balance < high * high,
        decreases high - low,
    {
        let mid: u64 = low + (high - low) / 2;
        assert(mid * mid <= 0xffff_ffff * 0xffff_ffff) by (nonlinear_arith)
            requires
                mid <= 0xffff_ffff,
        ;
        if mid * mid <= balance {
            low = mid;
        } else {
            high = mid;
        }
    }
    proof {
        lemma_floor_sqrt_is(balance as nat, low as nat);
    }
    low
}

} // verus!
