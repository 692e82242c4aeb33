//! The constant-product pricing engine.
use vstd::prelude::*;
use crate::arith::lemma_floor_div;
use crate::state::GhostOddsError;

verus! {

/// The output-side reserve after `amount_in` enters a pool of
/// `input_reserve * output_reserve`, rounded down.
pub open spec fn reserve_after(input_reserve: int, output_reserve: int, amount_in: int) -> int {
    (input_reserve * output_reserve) / (input_reserve + amount_in)
}

/// What the pool hands out for `amount_in`.
pub open spec fn swap_out(input_reserve: int, output_reserve: int, amount_in: int) -> int {
    output_reserve - reserve_after(input_reserve, output_reserve, amount_in)
}

pub proof fn lemma_reserve_after_bounds(input_reserve: int, output_reserve: int, amount_in: int)
    requires
        input_reserve >= 0,
        output_reserve >= 0,
        amount_in >= 0,
        input_reserve + amount_in > 0,
    ensures
        0 <= reserve_after(input_reserve, output_reserve, amount_in) <= output_reserve,
        0 <= swap_out(input_reserve, output_reserve, amount_in) <= output_reserve,
        amount_in == 0 ==> swap_out(input_reserve, output_reserve, amount_in) == 0,
{
    let k = input_reserve * output_reserve;
    let d = input_reserve + amount_in;
    assert(input_reserve * output_reserve >= 0) by (nonlinear_arith)
        requires
            input_reserve >= 0,
            output_reserve >= 0,
    ;
    lemma_floor_div(k, d);
    let q = k / d;
    assert(q <= output_reserve) by (nonlinear_arith)
        requires
            q * d <= k,
            k == input_reserve * output_reserve,
            d == input_reserve + amount_in,
            amount_in >= 0,
            output_reserve >= 0,
            d > 0,
    ;
    if amount_in == 0 {
        assert(q >= output_reserve) by (nonlinear_arith)
            requires
                k < q * d + d,
                k == d * output_reserve,
                d > 0,
        ;
    }
}

/// The result of one swap against the pool.
#[derive(Debug, Clone, Copy)]
pub struct SwapOutcome {
    pub new_input_reserve: u64,
    pub new_output_reserve: u64,
    pub amount_out: u64,
}

/// Swaps `amount_in` into the pool: the product of the reserves is taken in
/// 128 bits, the new output reserve is rounded down and the difference paid
/// out. Fails with `MathOverflow` when the new input reserve is zero or does
/// not fit in 64 bits.
pub fn swap(input_reserve: u64, output_reserve: u64, amount_in: u64) -> (r: Result<SwapOutcome, GhostOddsError>)
    ensures
        r is Err <==> input_reserve + amount_in == 0 || input_reserve + amount_in > u64::MAX,
        r is Err ==> r == Err::<SwapOutcome, GhostOddsError>(GhostOddsError::MathOverflow),
        r is Ok ==> {
            let s = r->Ok_0;
            &&& s.new_input_reserve == input_reserve + amount_in
            &&& s.new_output_reserve == reserve_after(input_reserve as int, output_reserve as int, amount_in as int)
            &&& s.amount_out == swap_out(input_reserve as int, output_reserve as int, amount_in as int)
        },
{
    if input_reserve as u128 + amount_in as u128 == 0 || input_reserve as u128 + amount_in as u128 > u64::MAX as u128 {
        return Err(GhostOddsError::MathOverflow);
    }
    proof {
        assert((input_reserve as int) * (output_reserve as int) <= 0xffff_ffff_ffff_ffffint * 0xffff_ffff_ffff_ffffint) by (nonlinear_arith)
            requires
                0 <= input_reserve <= 0xffff_ffff_ffff_ffffint,
                0 <= output_reserve <= 0xffff_ffff_ffff_ffffint,
        ;
        lemma_reserve_after_bounds(input_reserve as int, output_reserve as int, amount_in as int);
    }
    let k: u128 = (input_reserve as u128) * (output_reserve as u128);
    let new_input: u128 = input_reserve as u128 + amount_in as u128;
    let new_output: u128 = k / new_input;
    let out: u128 = output_reserve as u128 - new_output;
    Ok(SwapOutcome {
        new_input_reserve: new_input as u64,
        new_output_reserve: new_output as u64,
        amount_out: out as u64,
    })
}

} // verus!
