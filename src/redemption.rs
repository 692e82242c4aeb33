//! Paying out the pool: pro-rata to winners of a resolved market, pro-rata to
//! every holder of a cancelled one.
use vstd::prelude::*;
use crate::arith::{lemma_share_le_total, mul_div, mul_div_floor};
use crate::state::{
    Address, CancelledRedeemed, GhostOddsError, Market, MarketStatus, UserPosition,
    WinningsRedeemed,
};

verus! {

/// What the token ledger holds when a user redeems: the user's claim-token
/// balances, the outstanding supply of each side and the pool's collateral.
#[derive(Debug, Clone, Copy, PartialEq, Eq, Structural)]
pub struct PoolLedger {
    pub user_yes: u64,
    pub user_no: u64,
    pub yes_supply: u64,
    pub no_supply: u64,
    pub vault_balance: u64,
}

impl PoolLedger {
    /// A balance is part of its side's supply.
    pub open spec fn wf(&self) -> bool {
        self.user_yes <= self.yes_supply && self.user_no <= self.no_supply
    }

    pub fn is_consistent(&self) -> (r: bool)
        ensures
            r == self.wf(),
    {
        self.user_yes <= self.yes_supply && self.user_no <= self.no_supply
    }

    /// The user's balance of side `yes`.
    pub open spec fn balance_of(&self, yes: bool) -> int {
        if yes {
            self.user_yes as int
        } else {
            self.user_no as int
        }
    }

    /// The outstanding supply of side `yes`.
    pub open spec fn supply_of(&self, yes: bool) -> int {
        if yes {
            self.yes_supply as int
        } else {
            self.no_supply as int
        }
    }
}

/// A winner's payout: their share of the winning supply, of the whole pool,
/// rounded down.
pub open spec fn winnings_payout(l: PoolLedger, outcome: bool) -> int {
    mul_div(l.balance_of(outcome), l.vault_balance as int, l.supply_of(outcome))
}

/// Why redeeming winnings fails, if it does.
pub open spec fn redeem_winnings_error(m: &Market, position: &UserPosition, l: PoolLedger) -> Option<GhostOddsError> {
    if m.status != MarketStatus::Resolved || m.outcome is None {
        Some(GhostOddsError::MarketNotResolved)
    } else if l.balance_of(m.outcome->Some_0) == 0 {
        Some(GhostOddsError::NoWinnings)
    } else if winnings_payout(l, m.outcome->Some_0) == 0 {
        Some(GhostOddsError::NoWinnings)
    } else if position.total_withdrawn + winnings_payout(l, m.outcome->Some_0) > u64::MAX {
        Some(GhostOddsError::MathOverflow)
    } else {
        None
    }
}

/// The ledger once a winner of side `outcome` has burnt their whole balance
/// and been paid `payout` from the pool.
pub open spec fn ledger_after_winnings(l: PoolLedger, outcome: bool, payout: int) -> PoolLedger {
    if outcome {
        PoolLedger {
            user_yes: 0,
            yes_supply: (l.yes_supply - l.user_yes) as u64,
            vault_balance: (l.vault_balance - payout) as u64,
            ..l
        }
    } else {
        PoolLedger {
            user_no: 0,
            no_supply: (l.no_supply - l.user_no) as u64,
            vault_balance: (l.vault_balance - payout) as u64,
            ..l
        }
    }
}

/// Redeems a winner's tokens of a resolved market. The user's whole winning
/// balance is burnt and the pool pays `balance * vault_balance / supply`,
/// rounded down; the position's count of that side drops to zero. Losing
/// tokens are left as they are. The caller burns and transfers as `ledger`
/// now says.
pub fn redeem_winnings(
    market: &Market,
    position: &mut UserPosition,
    ledger: &mut PoolLedger,
    user: Address,
) -> (r: Result<WinningsRedeemed, GhostOddsError>)
    requires
        market.wf(),
        old(ledger).wf(),
    ensures
        final(ledger).wf(),
        r is Err <==> redeem_winnings_error(market, old(position), *old(ledger)) is Some,
        r is Err ==> {
            &&& r->Err_0 == redeem_winnings_error(market, old(position), *old(ledger))->Some_0
            &&& *final(position) == *old(position)
            &&& *final(ledger) == *old(ledger)
        },
        r is Ok ==> {
            let ev = r->Ok_0;
            let outcome = market.outcome->Some_0;
            &&& ev.market_id == market.market_id
            &&& ev.user == user
            &&& ev.payout == winnings_payout(*old(ledger), outcome)
            &&& 0 < ev.payout <= old(ledger).vault_balance
            &&& *final(ledger) == ledger_after_winnings(*old(ledger), outcome, ev.payout as int)
            &&& outcome ==> final(position).yes_tokens == 0 && final(position).no_tokens == old(position).no_tokens
            &&& !outcome ==> final(position).no_tokens == 0 && final(position).yes_tokens == old(position).yes_tokens
            &&& final(position).total_withdrawn == old(position).total_withdrawn + ev.payout
            &&& final(position).total_deposited == old(position).total_deposited
            &&& final(position).user == old(position).user
            &&& final(position).market_id == old(position).market_id
            &&& final(position).bump == old(position).bump
        },
{
    if market.status != MarketStatus::Resolved {
        return Err(GhostOddsError::MarketNotResolved);
    }
    let outcome = match market.outcome {
        Some(o) => o,
        None => {
            return Err(GhostOddsError::MarketNotResolved);
        },
    };
    let (balance, supply) = if outcome {
        (ledger.user_yes, ledger.yes_supply)
    } else {
        (ledger.user_no, ledger.no_supply)
    };
    if balance == 0 {
        return Err(GhostOddsError::NoWinnings);
    }
    proof {
        lemma_share_le_total(balance as int, ledger.vault_balance as int, supply as int);
    }
    let payout = match mul_div_floor(balance, ledger.vault_balance, supply) {
        Ok(p) => p,
        Err(e) => {
            return Err(e);
        },
    };
    if payout == 0 {
        return Err(GhostOddsError::NoWinnings);
    }
    if position.total_withdrawn > u64::MAX - payout {
        return Err(GhostOddsError::MathOverflow);
    }
    if outcome {
        ledger.user_yes = 0;
        ledger.yes_supply = supply - balance;
        position.yes_tokens = 0;
    } else {
        ledger.user_no = 0;
        ledger.no_supply = supply - balance;
        position.no_tokens = 0;
    }
    ledger.vault_balance = ledger.vault_balance - payout;
    position.total_withdrawn = position.total_withdrawn + payout;
    Ok(WinningsRedeemed { market_id: market.market_id, user, payout })
}

/// A holder's refund from a cancelled market: their share of both supplies
/// together, counted before their own burn, of the whole pool, rounded down.
pub open spec fn cancelled_refund(l: PoolLedger) -> int {
    mul_div(
        l.user_yes + l.user_no,
        l.vault_balance as int,
        l.yes_supply + l.no_supply,
    )
}

/// Why a refund from a cancelled market fails, if it does.
pub open spec fn redeem_cancelled_error(m: &Market, l: PoolLedger) -> Option<GhostOddsError> {
    if m.status != MarketStatus::Cancelled {
        Some(GhostOddsError::MarketNotCancelled)
    } else if l.user_yes == 0 && l.user_no == 0 {
        Some(GhostOddsError::NoWinnings)
    } else if l.yes_supply + l.no_supply > u64::MAX {
        Some(GhostOddsError::MathOverflow)
    } else if cancelled_refund(l) == 0 {
        Some(GhostOddsError::NoWinnings)
    } else {
        None
    }
}

/// The ledger once a holder has burnt both balances and been refunded.
pub open spec fn ledger_after_refund(l: PoolLedger, refund: int) -> PoolLedger {
    PoolLedger {
        user_yes: 0,
        user_no: 0,
        yes_supply: (l.yes_supply - l.user_yes) as u64,
        no_supply: (l.no_supply - l.user_no) as u64,
        vault_balance: (l.vault_balance - refund) as u64,
    }
}

/// Refunds a holder of a cancelled market: both balances are burnt and the
/// pool pays `(yes + no) * vault_balance / (yes_supply + no_supply)`, rounded
/// down, with the supplies as they stood before this burn. The caller burns
/// and transfers as `ledger` now says.
pub fn redeem_cancelled(market: &Market, ledger: &mut PoolLedger, user: Address) -> (r: Result<
    CancelledRedeemed,
    GhostOddsError,
>)
    requires
        market.wf(),
        old(ledger).wf(),
    ensures
        final(ledger).wf(),
        r is Err <==> redeem_cancelled_error(market, *old(ledger)) is Some,
        r is Err ==> {
            &&& r->Err_0 == redeem_cancelled_error(market, *old(ledger))->Some_0
            &&& *final(ledger) == *old(ledger)
        },
        r is Ok ==> {
            let ev = r->Ok_0;
            &&& ev.market_id == market.market_id
            &&& ev.user == user
            &&& ev.refund == cancelled_refund(*old(ledger))
            &&& 0 < ev.refund <= old(ledger).vault_balance
            &&& *final(ledger) == ledger_after_refund(*old(ledger), ev.refund as int)
        },
{
    if market.status != MarketStatus::Cancelled {
        return Err(GhostOddsError::MarketNotCancelled);
    }
    let yes_amount = ledger.user_yes;
    let no_amount = ledger.user_no;
    if yes_amount == 0 && no_amount == 0 {
        return Err(GhostOddsError::NoWinnings);
    }
    if ledger.yes_supply > u64::MAX - ledger.no_supply {
        return Err(GhostOddsError::MathOverflow);
    }
    let total_tokens = ledger.yes_supply + ledger.no_supply;
    let user_tokens = yes_amount + no_amount;
    proof {
        lemma_share_le_total(user_tokens as int, ledger.vault_balance as int, total_tokens as int);
    }
    let refund = match mul_div_floor(user_tokens, ledger.vault_balance, total_tokens) {
        Ok(p) => p,
        Err(e) => {
            return Err(e);
        },
    };
    if refund == 0 {
        return Err(GhostOddsError::NoWinnings);
    }
    ledger.user_yes = 0;
    ledger.user_no = 0;
    ledger.yes_supply = ledger.yes_supply - yes_amount;
    ledger.no_supply = ledger.no_supply - no_amount;
    ledger.vault_balance = ledger.vault_balance - refund;
    Ok(CancelledRedeemed { market_id: market.market_id, user, refund })
}

} // verus!
