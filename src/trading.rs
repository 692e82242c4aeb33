//! Buying and selling outcome shares against the pool.
use vstd::prelude::*;
use crate::amm::{reserve_after, swap, swap_out};
use crate::arith::{fee_amount, fee_of};
use crate::state::{
    Address, GhostOddsError, Market, MarketStatus, OutcomePurchased, OutcomeSold, Platform,
    UserPosition,
};

verus! {

/// The reserve of one side: YES when `yes` holds, NO otherwise.
pub open spec fn reserve_of(m: &Market, yes: bool) -> int {
    if yes {
        m.yes_amount as int
    } else {
        m.no_amount as int
    }
}

/// The claim tokens of one side that a position records.
pub open spec fn tokens_of(p: &UserPosition, yes: bool) -> int {
    if yes {
        p.yes_tokens as int
    } else {
        p.no_tokens as int
    }
}

/// The fee a buy of `amount` pays.
pub open spec fn buy_fee(m: &Market, amount: int) -> int {
    fee_of(amount, m.fee_bps as int)
}

/// What a buy of `amount` adds to the pool once the fee is taken.
pub open spec fn buy_net(m: &Market, amount: int) -> int {
    amount - buy_fee(m, amount)
}

/// The claim tokens that a buy of `amount` on side `is_yes` receives: the
/// opposite reserve takes the net input.
pub open spec fn buy_tokens_out(m: &Market, amount: int, is_yes: bool) -> int {
    swap_out(reserve_of(m, !is_yes), reserve_of(m, is_yes), buy_net(m, amount))
}

/// The bought side's reserve after a buy.
pub open spec fn buy_new_reserve(m: &Market, amount: int, is_yes: bool) -> int {
    reserve_after(reserve_of(m, !is_yes), reserve_of(m, is_yes), buy_net(m, amount))
}

/// Why a buy fails, if it does: the first check that is not met.
pub open spec fn buy_error(
    m: &Market,
    platform: &Platform,
    position: &UserPosition,
    amount: u64,
    is_yes: bool,
    min_tokens_out: u64,
    now: i64,
) -> Option<GhostOddsError> {
    let net = buy_net(m, amount as int);
    let out = buy_tokens_out(m, amount as int, is_yes);
    if amount == 0 {
        Some(GhostOddsError::ZeroAmount)
    } else if m.status != MarketStatus::Active {
        Some(GhostOddsError::MarketNotActive)
    } else if now >= m.lock_time {
        Some(GhostOddsError::MarketLocked)
    } else if net == 0 {
        Some(GhostOddsError::ZeroAmount)
    } else if reserve_of(m, !is_yes) + net > u64::MAX {
        Some(GhostOddsError::MathOverflow)
    } else if out == 0 || buy_new_reserve(m, amount as int, is_yes) == 0 {
        Some(GhostOddsError::ZeroAmount)
    } else if out < min_tokens_out {
        Some(GhostOddsError::SlippageExceeded)
    } else if m.total_liquidity + net > u64::MAX || m.volume + amount > u64::MAX
        || platform.total_volume + amount > u64::MAX || tokens_of(position, is_yes) + out > u64::MAX
        || position.total_deposited + amount > u64::MAX {
        Some(GhostOddsError::MathOverflow)
    } else {
        None
    }
}

/// `after` is `before` once the buy that `ev` records went through.
pub open spec fn buy_applied(before: &Market, after: &Market, ev: &OutcomePurchased) -> bool {
    &&& before.status == MarketStatus::Active
    &&& buy_net(before, ev.amount_in as int) > 0
    &&& after.same_except_pool(before)
    &&& ev.market_id == before.market_id
    &&& ev.fee == buy_fee(before, ev.amount_in as int)
    &&& ev.tokens_out == buy_tokens_out(before, ev.amount_in as int, ev.is_yes)
    &&& reserve_of(after, ev.is_yes) == buy_new_reserve(before, ev.amount_in as int, ev.is_yes)
    &&& reserve_of(after, !ev.is_yes) == reserve_of(before, !ev.is_yes) + buy_net(before, ev.amount_in as int)
    &&& after.total_liquidity == before.total_liquidity + buy_net(before, ev.amount_in as int)
    &&& after.volume == before.volume + ev.amount_in
}

/// Buys claim tokens of side `is_yes` for `amount` of collateral.
///
/// The fee, `amount * fee_bps / 10000` rounded up, goes to the treasury; the
/// rest enters the opposite reserve, and the pool pays out of the bought
/// reserve what keeps the product of the reserves, rounded in the pool's
/// favour. A buy that would empty a reserve is refused. The market's and the
/// platform's volume grow by `amount`, and so does what the position records
/// as deposited.
pub fn buy_outcome(
    market: &mut Market,
    platform: &mut Platform,
    position: &mut UserPosition,
    user: Address,
    amount: u64,
    is_yes: bool,
    min_tokens_out: u64,
    now: i64,
) -> (r: Result<OutcomePurchased, GhostOddsError>)
    requires
        old(market).wf(),
    ensures
        final(market).wf(),
        r is Err <==> buy_error(old(market), old(platform), old(position), amount, is_yes, min_tokens_out, now) is Some,
        r is Err ==> {
            &&& r->Err_0 == buy_error(old(market), old(platform), old(position), amount, is_yes, min_tokens_out, now)->Some_0
            &&& *final(market) == *old(market)
            &&& *final(platform) == *old(platform)
            &&& *final(position) == *old(position)
        },
        r is Ok ==> {
            let ev = r->Ok_0;
            &&& buy_applied(old(market), final(market), &ev)
            &&& ev.user == user
            &&& ev.is_yes == is_yes
            &&& ev.amount_in == amount
            &&& ev.tokens_out >= min_tokens_out
            &&& final(platform).total_volume == old(platform).total_volume + amount
            &&& final(platform).authority == old(platform).authority
            &&& final(platform).market_count == old(platform).market_count
            &&& final(platform).fee_bps == old(platform).fee_bps
            &&& final(platform).treasury == old(platform).treasury
            &&& final(platform).bump == old(platform).bump
            &&& final(position).user == user
            &&& final(position).market_id == old(market).market_id
            &&& tokens_of(final(position), is_yes) == tokens_of(old(position), is_yes) + ev.tokens_out
            &&& tokens_of(final(position), !is_yes) == tokens_of(old(position), !is_yes)
            &&& final(position).total_deposited == old(position).total_deposited + amount
            &&& final(position).total_withdrawn == old(position).total_withdrawn
            &&& final(position).bump == old(position).bump
        },
{
    if amount == 0 {
        return Err(GhostOddsError::ZeroAmount);
    }
    if market.status != MarketStatus::Active {
        return Err(GhostOddsError::MarketNotActive);
    }
    if now >= market.lock_time {
        return Err(GhostOddsError::MarketLocked);
    }
    let fee = fee_amount(amount, market.fee_bps);
    let input_after_fee = amount - fee;
    if input_after_fee == 0 {
        return Err(GhostOddsError::ZeroAmount);
    }
    let (input_reserve, output_reserve) = if is_yes {
        (market.no_amount, market.yes_amount)
    } else {
        (market.yes_amount, market.no_amount)
    };
    let s = match swap(input_reserve, output_reserve, input_after_fee) {
        Ok(s) => s,
        Err(e) => {
            return Err(e);
        },
    };
    let tokens_out = s.amount_out;
    if tokens_out == 0 || s.new_output_reserve == 0 {
        return Err(GhostOddsError::ZeroAmount);
    }
    if tokens_out < min_tokens_out {
        return Err(GhostOddsError::SlippageExceeded);
    }
    let held = if is_yes {
        position.yes_tokens
    } else {
        position.no_tokens
    };
    if market.total_liquidity > u64::MAX - input_after_fee || market.volume > u64::MAX - amount
        || platform.total_volume > u64::MAX - amount || held > u64::MAX - tokens_out
        || position.total_deposited > u64::MAX - amount {
        return Err(GhostOddsError::MathOverflow);
    }
    if is_yes {
        market.yes_amount = s.new_output_reserve;
        market.no_amount = s.new_input_reserve;
        position.yes_tokens = held + tokens_out;
    } else {
        market.yes_amount = s.new_input_reserve;
        market.no_amount = s.new_output_reserve;
        position.no_tokens = held + tokens_out;
    }
    market.total_liquidity = market.total_liquidity + input_after_fee;
    market.volume = market.volume + amount;
    platform.total_volume = platform.total_volume + amount;
    position.user = user;
    position.market_id = market.market_id;
    position.total_deposited = position.total_deposited + amount;
    Ok(OutcomePurchased { market_id: market.market_id, user, is_yes, amount_in: amount, tokens_out, fee })
}

/// The collateral that selling `amount` tokens of side `is_yes` takes out of
/// the pool before the fee: the sold side's reserve takes the tokens.
pub open spec fn sell_gross(m: &Market, amount: int, is_yes: bool) -> int {
    swap_out(reserve_of(m, is_yes), reserve_of(m, !is_yes), amount)
}

/// The opposite side's reserve after a sell.
pub open spec fn sell_new_reserve(m: &Market, amount: int, is_yes: bool) -> int {
    reserve_after(reserve_of(m, is_yes), reserve_of(m, !is_yes), amount)
}

/// The fee a sell pays, on the collateral before the fee.
pub open spec fn sell_fee(m: &Market, amount: int, is_yes: bool) -> int {
    fee_of(sell_gross(m, amount, is_yes), m.fee_bps as int)
}

/// What the seller receives.
pub open spec fn sell_payout(m: &Market, amount: int, is_yes: bool) -> int {
    sell_gross(m, amount, is_yes) - sell_fee(m, amount, is_yes)
}

/// Why a sell fails, if it does: the first check that is not met.
pub open spec fn sell_error(
    m: &Market,
    platform: &Platform,
    position: &UserPosition,
    amount: u64,
    is_yes: bool,
    min_collateral_out: u64,
    now: i64,
) -> Option<GhostOddsError> {
    let gross = sell_gross(m, amount as int, is_yes);
    let payout = sell_payout(m, amount as int, is_yes);
    if amount == 0 {
        Some(GhostOddsError::ZeroAmount)
    } else if m.status != MarketStatus::Active {
        Some(GhostOddsError::MarketNotActive)
    } else if now >= m.lock_time {
        Some(GhostOddsError::MarketLocked)
    } else if reserve_of(m, is_yes) + amount > u64::MAX {
        Some(GhostOddsError::MathOverflow)
    } else if payout == 0 || sell_new_reserve(m, amount as int, is_yes) == 0 {
        Some(GhostOddsError::ZeroAmount)
    } else if payout < min_collateral_out {
        Some(GhostOddsError::SlippageExceeded)
    } else if m.volume + gross > u64::MAX || m.total_liquidity < payout
        || platform.total_volume + gross > u64::MAX || tokens_of(position, is_yes) < amount
        || position.total_withdrawn + payout > u64::MAX {
        Some(GhostOddsError::MathOverflow)
    } else {
        None
    }
}

/// `after` is `before` once the sell that `ev` records went through.
pub open spec fn sell_applied(before: &Market, after: &Market, ev: &OutcomeSold) -> bool {
    &&& before.status == MarketStatus::Active
    &&& ev.tokens_in > 0
    &&& after.same_except_pool(before)
    &&& ev.market_id == before.market_id
    &&& ev.fee == sell_fee(before, ev.tokens_in as int, ev.is_yes)
    &&& ev.collateral_out == sell_payout(before, ev.tokens_in as int, ev.is_yes)
    &&& reserve_of(after, ev.is_yes) == reserve_of(before, ev.is_yes) + ev.tokens_in
    &&& reserve_of(after, !ev.is_yes) == sell_new_reserve(before, ev.tokens_in as int, ev.is_yes)
    &&& after.total_liquidity == before.total_liquidity - ev.collateral_out
    &&& after.volume == before.volume + sell_gross(before, ev.tokens_in as int, ev.is_yes)
}

/// Sells `amount` claim tokens of side `is_yes` back to the pool.
///
/// The tokens enter the sold side's reserve and the pool gives up collateral
/// from the opposite reserve so as to keep the product of the reserves,
/// rounded in the pool's favour. The fee, rounded up, is taken from that
/// collateral and goes to the treasury; the seller gets the rest. A sell that
/// would empty a reserve is refused. Volume grows by the collateral before the
/// fee; the pool's liquidity falls by what the seller gets.
pub fn sell_outcome(
    market: &mut Market,
    platform: &mut Platform,
    position: &mut UserPosition,
    user: Address,
    amount: u64,
    is_yes: bool,
    min_collateral_out: u64,
    now: i64,
) -> (r: Result<OutcomeSold, GhostOddsError>)
    requires
        old(market).wf(),
    ensures
        final(market).wf(),
        r is Err <==> sell_error(old(market), old(platform), old(position), amount, is_yes, min_collateral_out, now) is Some,
        r is Err ==> {
            &&& r->Err_0 == sell_error(old(market), old(platform), old(position), amount, is_yes, min_collateral_out, now)->Some_0
            &&& *final(market) == *old(market)
            &&& *final(platform) == *old(platform)
            &&& *final(position) == *old(position)
        },
        r is Ok ==> {
            let ev = r->Ok_0;
            &&& sell_applied(old(market), final(market), &ev)
            &&& ev.user == user
            &&& ev.is_yes == is_yes
            &&& ev.tokens_in == amount
            &&& ev.collateral_out >= min_collateral_out
            &&& final(platform).total_volume == old(platform).total_volume + sell_gross(old(market), amount as int, is_yes)
            &&& final(platform).authority == old(platform).authority
            &&& final(platform).market_count == old(platform).market_count
            &&& final(platform).fee_bps == old(platform).fee_bps
            &&& final(platform).treasury == old(platform).treasury
            &&& final(platform).bump == old(platform).bump
            &&& final(position).user == old(position).user
            &&& final(position).market_id == old(position).market_id
            &&& tokens_of(final(position), is_yes) == tokens_of(old(position), is_yes) - amount
            &&& tokens_of(final(position), !is_yes) == tokens_of(old(position), !is_yes)
            &&& final(position).total_deposited == old(position).total_deposited
            &&& final(position).total_withdrawn == old(position).total_withdrawn + ev.collateral_out
            &&& final(position).bump == old(position).bump
        },
{
    if amount == 0 {
        return Err(GhostOddsError::ZeroAmount);
    }
    if market.status != MarketStatus::Active {
        return Err(GhostOddsError::MarketNotActive);
    }
    if now >= market.lock_time {
        return Err(GhostOddsError::MarketLocked);
    }
    let (input_reserve, output_reserve) = if is_yes {
        (market.yes_amount, market.no_amount)
    } else {
        (market.no_amount, market.yes_amount)
    };
    let s = match swap(input_reserve, output_reserve, amount) {
        Ok(s) => s,
        Err(e) => {
            return Err(e);
        },
    };
    let collateral_before_fee = s.amount_out;
    let fee = fee_amount(collateral_before_fee, market.fee_bps);
    let collateral_out = collateral_before_fee - fee;
    if collateral_out == 0 || s.new_output_reserve == 0 {
        return Err(GhostOddsError::ZeroAmount);
    }
    if collateral_out < min_collateral_out {
        return Err(GhostOddsError::SlippageExceeded);
    }
    let held = if is_yes {
        position.yes_tokens
    } else {
        position.no_tokens
    };
    if market.volume > u64::MAX - collateral_before_fee || market.total_liquidity < collateral_out
        || platform.total_volume > u64::MAX - collateral_before_fee || held < amount
        || position.total_withdrawn > u64::MAX - collateral_out {
        return Err(GhostOddsError::MathOverflow);
    }
    if is_yes {
        market.yes_amount = s.new_input_reserve;
        market.no_amount = s.new_output_reserve;
        position.yes_tokens = held - amount;
    } else {
        market.no_amount = s.new_input_reserve;
        market.yes_amount = s.new_output_reserve;
        position.no_tokens = held - amount;
    }
    market.volume = market.volume + collateral_before_fee;
    market.total_liquidity = market.total_liquidity - collateral_out;
    platform.total_volume = platform.total_volume + collateral_before_fee;
    position.total_withdrawn = position.total_withdrawn + collateral_out;
    Ok(OutcomeSold { market_id: market.market_id, user, is_yes, tokens_in: amount, collateral_out, fee })
}

} // verus!
