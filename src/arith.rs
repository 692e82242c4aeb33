//! Fixed-point helpers: every money calculation goes through these, and none
//! of them wraps.
use vstd::prelude::*;
use vstd::arithmetic::div_mod::{lemma_fundamental_div_mod, lemma_mod_pos_bound};
use crate::state::{GhostOddsError, BPS_DENOMINATOR};

verus! {

/// Floor division pinned down by its two bounds.
pub proof fn lemma_floor_div(x: int, d: int)
    requires
        x >= 0,
        d > 0,
    ensures
        x / d >= 0,
        (x / d) * d <= x,
        x < (x / d) * d + d,
        x % d == x - (x / d) * d,
{
    lemma_fundamental_div_mod(x, d);
    lemma_mod_pos_bound(x, d);
    assert((x / d) * d == d * (x / d)) by (nonlinear_arith);
    assert(x / d >= 0) by (nonlinear_arith)
        requires
            x == d * (x / d) + x % d,
            0 <= x % d < d,
            x >= 0,
            d > 0,
    ;
}

/// The fee on `amount` at `fee_bps` basis points, rounded up.
pub open spec fn fee_of(amount: int, fee_bps: int) -> int {
    (amount * fee_bps + (BPS_DENOMINATOR - 1)) / (BPS_DENOMINATOR as int)
}

pub proof fn lemma_fee_bounds(amount: int, fee_bps: int)
    requires
        amount >= 0,
        0 <= fee_bps <= BPS_DENOMINATOR,
    ensures
        0 <= fee_of(amount, fee_bps) <= amount,
        fee_bps > 0 && amount > 0 ==> fee_of(amount, fee_bps) >= 1,
        fee_bps == 0 ==> fee_of(amount, fee_bps) == 0,
{
    let x = amount * fee_bps + 9999;
    lemma_floor_div(x, 10000);
    assert(amount * fee_bps <= amount * 10000) by (nonlinear_arith)
        requires
            amount >= 0,
            fee_bps <= 10000,
    ;
    assert(fee_bps > 0 && amount > 0 ==> amount * fee_bps >= 1) by (nonlinear_arith);
    assert(fee_bps == 0 ==> amount * fee_bps == 0);
}

/// The fee on `amount`, rounded up so that the protocol never undercharges.
pub fn fee_amount(amount: u64, fee_bps: u16) -> (fee: u64)
    requires
        fee_bps <= BPS_DENOMINATOR,
    ensures
        fee == fee_of(amount as int, fee_bps as int),
        fee <= amount,
{
    proof {
        lemma_fee_bounds(amount as int, fee_bps as int);
        assert((amount as int) * (fee_bps as int) <= 0xffff_ffff_ffff_ffffint * 10000) by (nonlinear_arith)
            requires
                0 <= amount <= 0xffff_ffff_ffff_ffffint,
                0 <= fee_bps <= 10000,
        ;
    }
    let scaled: u128 = (amount as u128) * (fee_bps as u128) + 9999;
    let fee: u128 = scaled / 10000;
    fee as u64
}

/// `floor(a * b / d)` for the exact product.
pub open spec fn mul_div(a: int, b: int, d: int) -> int {
    (a * b) / d
}

/// `floor(a * b / d)` with a 128-bit intermediate product. Fails with
/// `MathOverflow` when `d` is zero or the quotient does not fit in 64 bits.
pub fn mul_div_floor(a: u64, b: u64, d: u64) -> (r: Result<u64, GhostOddsError>)
    ensures
        r is Err <==> d == 0 || mul_div(a as int, b as int, d as int) > u64::MAX,
        r is Err ==> r == Err::<u64, GhostOddsError>(GhostOddsError::MathOverflow),
        r is Ok ==> r->Ok_0 == mul_div(a as int, b as int, d as int),
{
    if d == 0 {
        return Err(GhostOddsError::MathOverflow);
    }
    proof {
        assert((a as int) * (b as int) <= 0xffff_ffff_ffff_ffffint * 0xffff_ffff_ffff_ffffint) by (nonlinear_arith)
            requires
                0 <= a <= 0xffff_ffff_ffff_ffffint,
                0 <= b <= 0xffff_ffff_ffff_ffffint,
        ;
    }
    let product: u128 = (a as u128) * (b as u128);
    let q: u128 = product / (d as u128);
    if q > u64::MAX as u128 {
        return Err(GhostOddsError::MathOverflow);
    }
    Ok(q as u64)
}

/// A pro-rata share never exceeds the whole: `floor(part * total / whole) <= total`.
pub proof fn lemma_share_le_total(part: int, total: int, whole: int)
    requires
        0 <= part <= whole,
        whole > 0,
        total >= 0,
    ensures
        0 <= mul_div(part, total, whole) <= total,
{
    lemma_floor_div(part * total, whole);
    assert(0 <= part * total <= whole * total) by (nonlinear_arith)
        requires
            0 <= part <= whole,
            total >= 0,
    ;
    let q = (part * total) / whole;
    assert(q <= total) by (nonlinear_arith)
        requires
            q * whole <= part * total,
            part * total <= whole * total,
            whole > 0,
    ;
}

} // verus!
