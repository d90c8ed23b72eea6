//! Fixed-point basis-point arithmetic.
//!
//! Every amount the engine computes — the custody fee, a contributor's
//! principal and fee, a reward entitlement — is a proportional share of
//! some total, taken with floor division.  The floor may under-allocate
//! the last fractional bps by up to one unit; that loss is accepted, not
//! redistributed.

use vstd::prelude::*;

verus! {

use crate::records::ErrorCode;
use crate::records::BPS_DENOMINATOR;

/// The share of `total` that `bps` basis points are worth:
/// `total * bps / 10000`, rounded down.
pub open spec fn bps_share(total: int, bps: int) -> int {
    total * bps / BPS_DENOMINATOR as int
}

/// A share is never negative and never exceeds the total it is taken of.
pub proof fn lemma_bps_share_bounds(total: int, bps: int)
    requires
        0 <= total,
        0 <= bps <= BPS_DENOMINATOR,
    ensures
        0 <= bps_share(total, bps) <= total,
{
    assert(0 <= total * bps <= total * BPS_DENOMINATOR) by (nonlinear_arith)
        requires
            0 <= total,
            0 <= bps <= BPS_DENOMINATOR,
    ;
    assert(total * bps / BPS_DENOMINATOR as int <= total * BPS_DENOMINATOR / BPS_DENOMINATOR as int)
        by (nonlinear_arith)
        requires
            0 <= total * bps <= total * BPS_DENOMINATOR,
    ;
    assert(total * BPS_DENOMINATOR / BPS_DENOMINATOR as int == total) by (nonlinear_arith);
    assert(0 <= total * bps / BPS_DENOMINATOR as int) by (nonlinear_arith)
        requires
            0 <= total * bps,
    ;
}

/// A share of a larger total is at least the share of a smaller one.
pub proof fn lemma_bps_share_monotonic(total1: int, total2: int, bps: int)
    requires
        0 <= total1 <= total2,
        0 <= bps,
    ensures
        bps_share(total1, bps) <= bps_share(total2, bps),
{
    assert(total1 * bps <= total2 * bps) by (nonlinear_arith)
        requires
            0 <= total1 <= total2,
            0 <= bps,
    ;
    assert(total1 * bps / BPS_DENOMINATOR as int <= total2 * bps / BPS_DENOMINATOR as int)
        by (nonlinear_arith)
        requires
            total1 * bps <= total2 * bps,
    ;
}

/// Splitting a stake changes each floor share by at most the one unit
/// the floor may drop: the shares of `bps1` and `bps2` taken separately
/// sum to the share of `bps1 + bps2`, or fall one unit short of it.
pub proof fn lemma_bps_share_split(total: int, bps1: int, bps2: int)
    requires
        0 <= total,
        0 <= bps1,
        0 <= bps2,
    ensures
        bps_share(total, bps1) + bps_share(total, bps2) <= bps_share(total, bps1 + bps2),
        bps_share(total, bps1 + bps2) <= bps_share(total, bps1) + bps_share(total, bps2) + 1,
{
    let d = BPS_DENOMINATOR as int;
    let a = total * bps1;
    let b = total * bps2;
    assert(total * (bps1 + bps2) == total * bps1 + total * bps2) by (nonlinear_arith);
    assert(total * bps1 >= 0 && total * bps2 >= 0) by (nonlinear_arith)
        requires
            0 <= total,
            0 <= bps1,
            0 <= bps2,
    ;
    vstd::arithmetic::div_mod::lemma_fundamental_div_mod(a, d);
    vstd::arithmetic::div_mod::lemma_fundamental_div_mod(b, d);
    let qa = a / d;
    let qb = b / d;
    let q = qa + qb;
    let r = (a % d) + (b % d);
    assert((qa + qb) * d == d * qa + d * qb) by (nonlinear_arith);
    assert(a + b == q * d + r);
    if r < d {
        vstd::arithmetic::div_mod::lemma_fundamental_div_mod_converse_div(a + b, d, q, r);
    } else {
        assert((q + 1) * d == q * d + d) by (nonlinear_arith);
        vstd::arithmetic::div_mod::lemma_fundamental_div_mod_converse_div(a + b, d, q + 1, r - d);
    }
}

/// `total * bps / 10000` with the multiplication checked against `u64`
/// overflow, exactly as every downstream amount computation performs it.
/// The multiplication overflowing is the error; the division by the
/// constant denominator cannot fail.
pub fn share(total: u64, bps: u16) -> (r: Result<u64, ErrorCode>)
    ensures
        total * bps <= u64::MAX
            ==> r == Ok::<u64, ErrorCode>(bps_share(total as int, bps as int) as u64),
        total * bps > u64::MAX ==> r == Err::<u64, ErrorCode>(ErrorCode::MathOverflow),
{
    match total.checked_mul(bps as u64) {
        Some(product) => Ok(product / BPS_DENOMINATOR),
        None => Err(ErrorCode::MathOverflow),
    }
}

} // verus!
