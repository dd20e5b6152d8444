//! Basis-point fee arithmetic.
use vstd::prelude::*;
use vstd::arithmetic::div_mod::{lemma_fundamental_div_mod, lemma_div_multiples_vanish_fancy};

verus! {

/// Denominator of a basis-point rate: 10000 basis points are 100%.
pub const BPS_DENOMINATOR: u32 = 10000;

/// The fee taken from `amount` at a rate of `bps` basis points, rounded down.
pub open spec fn fee_of(amount: int, bps: int) -> int {
    amount * bps / 10000
}

/// The fee on a non-negative `amount` at `bps` basis points never exceeds the
/// amount and is never negative.
pub proof fn lemma_fee_bounds(amount: int, bps: int)
    requires
        amount >= 0,
        0 <= bps <= 10000,
    ensures
        0 <= fee_of(amount, bps) <= amount,
{
    assert(0 <= amount * bps <= amount * 10000) by (nonlinear_arith)
        requires amount >= 0, 0 <= bps <= 10000;
    assert(amount * 10000 / 10000 == amount) by {
        lemma_div_multiples_vanish_fancy(amount, 0, 10000);
    }
    assert(0 <= amount * bps / 10000 <= amount * 10000 / 10000) by (nonlinear_arith)
        requires 0 <= amount * bps <= amount * 10000;
}

/// `floor(amount * bps / 10000)`, computed without forming the full product.
pub fn platform_fee(amount: i128, bps: u32) -> (r: i128)
    requires
        amount >= 0,
        bps <= BPS_DENOMINATOR,
    ensures
        r == fee_of(amount as int, bps as int),
        0 <= r <= amount,
{
    let q: i128 = amount / 10000;
    let m: i128 = amount % 10000;
    proof {
        let (a, b, qi, mi) = (amount as int, bps as int, q as int, m as int);
        lemma_fundamental_div_mod(a, 10000);
        assert(a * b == 10000 * (qi * b) + mi * b) by (nonlinear_arith)
            requires a == 10000 * qi + mi;
        assert(0 <= mi * b < 10000 * 10000) by (nonlinear_arith)
            requires 0 <= mi < 10000, 0 <= b <= 10000;
        lemma_fundamental_div_mod(mi * b, 10000);
        let t = mi * b / 10000;
        let s = mi * b % 10000;
        assert(a * b == 10000 * (qi * b + t) + s) by (nonlinear_arith)
            requires a * b == 10000 * (qi * b) + mi * b, mi * b == 10000 * t + s;
        lemma_div_multiples_vanish_fancy(qi * b + t, s, 10000);
        assert(0 <= qi * b <= qi * 10000) by (nonlinear_arith)
            requires qi >= 0, 0 <= b <= 10000;
        lemma_fee_bounds(a, b);
    }
    let r: i128 = q * (bps as i128) + m * (bps as i128) / 10000;
    r
}

} // verus!
