//! Making the platform record and creating markets.
use vstd::prelude::*;
use crate::state::{
    text_byte_len, text_len, Address, GhostOddsError, Market, MarketStatus, Platform, PlatformInitialized,
    ResolutionOperator, LOCK_BEFORE_EXPIRY, MAX_CATEGORY_LEN, MAX_DESCRIPTION_LEN, MAX_FEE_BPS,
    MAX_QUESTION_LEN, MAX_RESOLUTION_SOURCE_LEN, MIN_MARKET_DURATION,
};

verus! {

/// Why making the platform record fails, if it does.
pub open spec fn initialize_platform_error(fee_bps: u16) -> Option<GhostOddsError> {
    if fee_bps > MAX_FEE_BPS {
        Some(GhostOddsError::FeeTooHigh)
    } else {
        None
    }
}

/// Makes the platform record: no markets yet, no volume, the given fee.
pub fn initialize_platform(authority: Address, treasury: Address, fee_bps: u16, bump: u8) -> (r: Result<
    (Platform, PlatformInitialized),
    GhostOddsError,
>)
    ensures
        r is Err <==> initialize_platform_error(fee_bps) is Some,
        r is Err ==> r->Err_0 == initialize_platform_error(fee_bps)->Some_0,
        r is Ok ==> {
            let (p, ev) = r->Ok_0;
            &&& p.wf()
            &&& p.authority == authority
            &&& p.market_count == 0
            &&& p.total_volume == 0
            &&& p.fee_bps == fee_bps
            &&& p.treasury == treasury
            &&& p.bump == bump
            &&& ev.authority == authority
            &&& ev.fee_bps == fee_bps
            &&& ev.treasury == treasury
        },
{
    if fee_bps > MAX_FEE_BPS {
        return Err(GhostOddsError::FeeTooHigh);
    }
    let platform = Platform { authority, market_count: 0, total_volume: 0, fee_bps, treasury, bump };
    let event = PlatformInitialized { authority, fee_bps, treasury };
    Ok((platform, event))
}

/// The accounts that are created together with a market.
#[derive(Debug, Clone, Copy)]
pub struct MarketAccounts {
    pub collateral_mint: Address,
    pub yes_mint: Address,
    pub no_mint: Address,
    pub vault: Address,
}

/// The texts and terms that a market is created with.
#[derive(Debug)]
pub struct MarketTerms {
    pub question: String,
    pub description: String,
    pub category: String,
    pub resolution_source: String,
    pub resolution_value: Option<u64>,
    pub resolution_operator: u8,
    pub expires_at: i64,
    pub initial_liquidity: u64,
}

/// Why creating a market fails, if it does: the first check that is not met.
pub open spec fn create_market_error(
    platform: &Platform,
    authority: Address,
    terms: &MarketTerms,
    now: i64,
) -> Option<GhostOddsError> {
    if platform.authority@ != authority@ {
        Some(GhostOddsError::Unauthorized)
    } else if text_len(&terms.question) > MAX_QUESTION_LEN {
        Some(GhostOddsError::QuestionTooLong)
    } else if text_len(&terms.description) > MAX_DESCRIPTION_LEN {
        Some(GhostOddsError::DescriptionTooLong)
    } else if text_len(&terms.category) > MAX_CATEGORY_LEN {
        Some(GhostOddsError::CategoryTooLong)
    } else if text_len(&terms.resolution_source) > MAX_RESOLUTION_SOURCE_LEN {
        Some(GhostOddsError::ResolutionSourceTooLong)
    } else if ResolutionOperator::spec_from_code(terms.resolution_operator) is None {
        Some(GhostOddsError::InvalidOperator)
    } else if terms.initial_liquidity == 0 {
        Some(GhostOddsError::ZeroAmount)
    } else if now + MIN_MARKET_DURATION > i64::MAX {
        Some(GhostOddsError::MathOverflow)
    } else if terms.expires_at < now + MIN_MARKET_DURATION {
        Some(GhostOddsError::ExpiryTooSoon)
    } else if platform.market_count + 1 > u64::MAX {
        Some(GhostOddsError::MathOverflow)
    } else if terms.initial_liquidity / 2 == 0 {
        Some(GhostOddsError::ZeroAmount)
    } else {
        None
    }
}

/// Creates market number `platform.market_count` and advances the counter.
/// Half of the initial liquidity seeds each reserve; the whole of it is the
/// pool's liquidity. The caller moves `initial_liquidity` into the vault.
pub fn create_market(
    platform: &mut Platform,
    authority: Address,
    accounts: MarketAccounts,
    terms: MarketTerms,
    now: i64,
    bump: u8,
) -> (r: Result<Market, GhostOddsError>)
    requires
        old(platform).wf(),
    ensures
        final(platform).wf(),
        r is Err <==> create_market_error(old(platform), authority, &terms, now) is Some,
        r is Err ==> {
            &&& r->Err_0 == create_market_error(old(platform), authority, &terms, now)->Some_0
            &&& *final(platform) == *old(platform)
        },
        r is Ok ==> {
            let m = r->Ok_0;
            &&& m.wf()
            &&& m.market_id == old(platform).market_count
            &&& m.authority == authority
            &&& m.question@ == terms.question@
            &&& m.description@ == terms.description@
            &&& m.category@ == terms.category@
            &&& m.resolution_source@ == terms.resolution_source@
            &&& m.collateral_mint == accounts.collateral_mint
            &&& m.yes_mint == accounts.yes_mint
            &&& m.no_mint == accounts.no_mint
            &&& m.vault == accounts.vault
            &&& m.yes_amount == terms.initial_liquidity / 2
            &&& m.no_amount == terms.initial_liquidity / 2
            &&& m.total_liquidity == terms.initial_liquidity
            &&& m.volume == 0
            &&& m.resolution_value == terms.resolution_value
            &&& Some(m.resolution_operator) == ResolutionOperator::spec_from_code(terms.resolution_operator)
            &&& m.created_at == now
            &&& m.expires_at == terms.expires_at
            &&& m.lock_time == terms.expires_at - LOCK_BEFORE_EXPIRY
            &&& m.resolved_at is None
            &&& m.outcome is None
            &&& m.status == MarketStatus::Active
            &&& m.fee_bps == old(platform).fee_bps
            &&& m.bump == bump
            &&& final(platform).market_count == old(platform).market_count + 1
            &&& final(platform).authority == old(platform).authority
            &&& final(platform).total_volume == old(platform).total_volume
            &&& final(platform).fee_bps == old(platform).fee_bps
            &&& final(platform).treasury == old(platform).treasury
            &&& final(platform).bump == old(platform).bump
        },
{
    if platform.authority != authority {
        return Err(GhostOddsError::Unauthorized);
    }
    if text_byte_len(&terms.question) > MAX_QUESTION_LEN {
        return Err(GhostOddsError::QuestionTooLong);
    }
    if text_byte_len(&terms.description) > MAX_DESCRIPTION_LEN {
        return Err(GhostOddsError::DescriptionTooLong);
    }
    if text_byte_len(&terms.category) > MAX_CATEGORY_LEN {
        return Err(GhostOddsError::CategoryTooLong);
    }
    if text_byte_len(&terms.resolution_source) > MAX_RESOLUTION_SOURCE_LEN {
        return Err(GhostOddsError::ResolutionSourceTooLong);
    }
    let operator = match ResolutionOperator::from_code(terms.resolution_operator) {
        Some(op) => op,
        None => {
            return Err(GhostOddsError::InvalidOperator);
        },
    };
    if terms.initial_liquidity == 0 {
        return Err(GhostOddsError::ZeroAmount);
    }
    if now > i64::MAX - MIN_MARKET_DURATION {
        return Err(GhostOddsError::MathOverflow);
    }
    if terms.expires_at < now + MIN_MARKET_DURATION {
        return Err(GhostOddsError::ExpiryTooSoon);
    }
    let lock_time = terms.expires_at - LOCK_BEFORE_EXPIRY;
    if platform.market_count == u64::MAX {
        return Err(GhostOddsError::MathOverflow);
    }
    let half = terms.initial_liquidity / 2;
    if half == 0 {
        return Err(GhostOddsError::ZeroAmount);
    }
    let market_id = platform.market_count;
    platform.market_count = market_id + 1;
    let MarketTerms {
        question,
        description,
        category,
        resolution_source,
        resolution_value,
        resolution_operator: _,
        expires_at,
        initial_liquidity,
    } = terms;
    Ok(Market {
        market_id,
        authority,
        question,
        description,
        category,
        collateral_mint: accounts.collateral_mint,
        yes_mint: accounts.yes_mint,
        no_mint: accounts.no_mint,
        vault: accounts.vault,
        yes_amount: half,
        no_amount: half,
        total_liquidity: initial_liquidity,
        volume: 0,
        resolution_source,
        resolution_value,
        resolution_operator: operator,
        created_at: now,
        expires_at,
        lock_time,
        resolved_at: None,
        outcome: None,
        status: MarketStatus::Active,
        fee_bps: platform.fee_bps,
        bump,
    })
}

} // verus!
