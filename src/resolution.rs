//! Settling a market: by its authority, by anyone after the grace period, by
//! hand or from the oracle.
use vstd::prelude::*;
use crate::oracle::{oracle_outcome, spec_oracle_outcome, OracleAccount};
use crate::state::{
    Address, GhostOddsError, Market, MarketCancelled, MarketResolved, MarketStatus,
    RESOLUTION_GRACE_PERIOD,
};

verus! {

/// The outcome that resolving gives, or why resolving fails.
///
/// The market must be active and expired. Until the grace period after expiry
/// is over only its authority may resolve; after it anyone may. A market with
/// a threshold takes its outcome from the oracle; one without takes the
/// outcome that the resolver gives.
pub open spec fn spec_resolution(
    m: &Market,
    resolver: Address,
    outcome: bool,
    oracle: Option<OracleAccount>,
    now: i64,
) -> Result<bool, GhostOddsError> {
    if m.status != MarketStatus::Active {
        Err(GhostOddsError::MarketNotActive)
    } else if now < m.expires_at {
        Err(GhostOddsError::MarketNotExpired)
    } else if now < m.expires_at + RESOLUTION_GRACE_PERIOD && resolver@ != m.authority@ {
        Err(GhostOddsError::Unauthorized)
    } else {
        match m.resolution_value {
            Some(threshold) => spec_oracle_outcome(oracle, now, threshold, m.resolution_operator),
            None => Ok(outcome),
        }
    }
}

/// Resolves the market at time `now`. `outcome` is the resolver's answer and
/// counts only for a market without a threshold; `oracle` is the price
/// account offered, needed only for a market with one. On success the market
/// is resolved once and for all, with the outcome and `now` recorded.
pub fn resolve_market(
    market: &mut Market,
    resolver: Address,
    outcome: bool,
    oracle: Option<&OracleAccount>,
    now: i64,
) -> (r: Result<MarketResolved, GhostOddsError>)
    requires
        old(market).wf(),
    ensures
        final(market).wf(),
        ({
            let expected = spec_resolution(
                old(market),
                resolver,
                outcome,
                match oracle {
                    Some(a) => Some(*a),
                    None => None,
                },
                now,
            );
            &&& r is Ok <==> expected is Ok
            &&& r is Err ==> r->Err_0 == expected->Err_0 && *final(market) == *old(market)
            &&& r is Ok ==> {
                let ev = r->Ok_0;
                &&& ev.outcome == expected->Ok_0
                &&& ev.market_id == old(market).market_id
                &&& ev.resolved_at == now
                &&& final(market).same_except_lifecycle(old(market))
                &&& final(market).status == MarketStatus::Resolved
                &&& final(market).outcome == Some(ev.outcome)
                &&& final(market).resolved_at == Some(now)
            }
        }),
{
    if market.status != MarketStatus::Active {
        return Err(GhostOddsError::MarketNotActive);
    }
    if now < market.expires_at {
        return Err(GhostOddsError::MarketNotExpired);
    }
    // compared in 128 bits: a deadline past `i64::MAX` is simply not reached
    let grace_deadline: i128 = market.expires_at as i128 + RESOLUTION_GRACE_PERIOD as i128;
    let within_grace = (now as i128) < grace_deadline;
    if within_grace && resolver != market.authority {
        return Err(GhostOddsError::Unauthorized);
    }
    let resolved = match market.resolution_value {
        Some(threshold) => match oracle_outcome(oracle, now, threshold, market.resolution_operator) {
            Ok(b) => b,
            Err(e) => {
                return Err(e);
            },
        },
        None => outcome,
    };
    market.outcome = Some(resolved);
    market.resolved_at = Some(now);
    market.status = MarketStatus::Resolved;
    Ok(MarketResolved { market_id: market.market_id, outcome: resolved, resolved_at: now })
}

/// Why cancelling fails, if it does.
pub open spec fn cancel_error(m: &Market, caller: Address) -> Option<GhostOddsError> {
    if caller@ != m.authority@ {
        Some(GhostOddsError::Unauthorized)
    } else if m.status != MarketStatus::Active {
        Some(GhostOddsError::MarketNotActive)
    } else if m.outcome is Some {
        Some(GhostOddsError::AlreadyResolved)
    } else {
        None
    }
}

/// Cancels an active market; only its authority may. Trading may have been
/// locked by the clock already.
pub fn cancel_market(market: &mut Market, caller: Address) -> (r: Result<MarketCancelled, GhostOddsError>)
    requires
        old(market).wf(),
    ensures
        final(market).wf(),
        r is Err <==> cancel_error(old(market), caller) is Some,
        r is Err ==> r->Err_0 == cancel_error(old(market), caller)->Some_0 && *final(market) == *old(market),
        r is Ok ==> {
            &&& r->Ok_0.market_id == old(market).market_id
            &&& final(market).same_except_lifecycle(old(market))
            &&& final(market).status == MarketStatus::Cancelled
            &&& final(market).outcome == old(market).outcome
            &&& final(market).resolved_at == old(market).resolved_at
        },
{
    if caller != market.authority {
        return Err(GhostOddsError::Unauthorized);
    }
    if market.status != MarketStatus::Active {
        return Err(GhostOddsError::MarketNotActive);
    }
    if market.outcome.is_some() {
        return Err(GhostOddsError::AlreadyResolved);
    }
    market.status = MarketStatus::Cancelled;
    Ok(MarketCancelled { market_id: market.market_id })
}

} // verus!
