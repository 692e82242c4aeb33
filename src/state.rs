use vstd::prelude::*;
use vstd::utf8::encode_utf8;

verus! {

/// Longest question, in bytes.
pub const MAX_QUESTION_LEN: usize = 128;
/// Longest description, in bytes.
pub const MAX_DESCRIPTION_LEN: usize = 200;
/// Longest category, in bytes.
pub const MAX_CATEGORY_LEN: usize = 32;
/// Longest resolution source, in bytes.
pub const MAX_RESOLUTION_SOURCE_LEN: usize = 64;
/// Shortest time between creation and expiry, in seconds.
pub const MIN_MARKET_DURATION: i64 = 86400;
/// Trading stops this many seconds before expiry.
pub const LOCK_BEFORE_EXPIRY: i64 = 43200;
/// Largest platform fee, in basis points.
pub const MAX_FEE_BPS: u16 = 1000;
/// One whole in basis points.
pub const BPS_DENOMINATOR: u64 = 10000;
/// After expiry, only the market authority may resolve for this many seconds.
pub const RESOLUTION_GRACE_PERIOD: i64 = 86400;

/// Why an operation was refused. A refused operation changes nothing.
#[derive(Debug, Clone, Copy, PartialEq, Eq, Structural)]
pub enum GhostOddsError {
    FeeTooHigh,
    QuestionTooLong,
    DescriptionTooLong,
    CategoryTooLong,
    ResolutionSourceTooLong,
    InvalidOperator,
    ZeroAmount,
    ExpiryTooSoon,
    MathOverflow,
    MarketNotActive,
    MarketLocked,
    SlippageExceeded,
    MarketNotExpired,
    Unauthorized,
    MarketNotResolved,
    NoWinnings,
    AlreadyResolved,
    MarketNotCancelled,
    InvalidOracle,
    StalePriceData,
    PriceConfidenceTooWide,
    OracleRequired,
}

/// The identity of a party, an account or a program on the host ledger.
#[derive(Debug, Clone, Copy)]
pub struct Address {
    pub bytes: [u8; 32],
}

impl View for Address {
    type V = Seq<u8>;

    open spec fn view(&self) -> Seq<u8> {
        self.bytes@
    }
}

impl PartialEq for Address {
    fn eq(&self, other: &Address) -> (r: bool)
        ensures
            r == (self@ == other@),
    {
        let mut i: usize = 0;
        while i < 32
            invariant
                0 <= i <= 32,
                forall|j: int| 0 <= j < i ==> self.bytes@[j] == other.bytes@[j],
            decreases 32 - i,
        {
            if self.bytes[i] != other.bytes[i] {
                return false;
            }
            i = i + 1;
        }
        proof {
            assert(self.bytes@ =~= other.bytes@);
        }
        true
    }
}

impl vstd::std_specs::cmp::PartialEqSpecImpl for Address {
    open spec fn obeys_eq_spec() -> bool {
        true
    }

    open spec fn eq_spec(&self, other: &Address) -> bool {
        self.bytes@ == other.bytes@
    }
}

impl Eq for Address {
}

/// Where a market stands in its lifecycle. `Locked` is never stored: a market
/// is locked for trading by the clock alone, from its lock time on.
#[derive(Debug, Clone, Copy, PartialEq, Eq, Structural)]
pub enum MarketStatus {
    Active,
    Locked,
    Resolved,
    Cancelled,
}

/// How an oracle price is held against a market's threshold.
#[derive(Debug, Clone, Copy, PartialEq, Eq, Structural)]
pub enum ResolutionOperator {
    /// YES wins when the price is at least the threshold.
    AtLeast,
    /// YES wins when the price is at most the threshold.
    AtMost,
    /// YES wins when the price equals the threshold.
    Equal,
}

impl ResolutionOperator {
    /// The operator that a numeric code stands for: 0, 1 and 2 in that order.
    pub open spec fn spec_from_code(code: u8) -> Option<ResolutionOperator> {
        if code == 0 {
            Some(ResolutionOperator::AtLeast)
        } else if code == 1 {
            Some(ResolutionOperator::AtMost)
        } else if code == 2 {
            Some(ResolutionOperator::Equal)
        } else {
            None
        }
    }

    pub fn from_code(code: u8) -> (r: Option<ResolutionOperator>)
        ensures
            r == Self::spec_from_code(code),
    {
        match code {
            0 => Some(ResolutionOperator::AtLeast),
            1 => Some(ResolutionOperator::AtMost),
            2 => Some(ResolutionOperator::Equal),
            _ => None,
        }
    }

    pub open spec fn spec_code(self) -> u8 {
        match self {
            ResolutionOperator::AtLeast => 0,
            ResolutionOperator::AtMost => 1,
            ResolutionOperator::Equal => 2,
        }
    }

    pub fn code(&self) -> (r: u8)
        ensures
            r == self.spec_code(),
            Self::spec_from_code(r) == Some(*self),
    {
        match self {
            ResolutionOperator::AtLeast => 0,
            ResolutionOperator::AtMost => 1,
            ResolutionOperator::Equal => 2,
        }
    }

    /// Whether `price` satisfies this operator against `threshold`.
    pub open spec fn spec_holds(self, price: int, threshold: int) -> bool {
        match self {
            ResolutionOperator::AtLeast => price >= threshold,
            ResolutionOperator::AtMost => price <= threshold,
            ResolutionOperator::Equal => price == threshold,
        }
    }

    pub fn holds(&self, price: u64, threshold: u64) -> (r: bool)
        ensures
            r == self.spec_holds(price as int, threshold as int),
    {
        match self {
            ResolutionOperator::AtLeast => price >= threshold,
            ResolutionOperator::AtMost => price <= threshold,
            ResolutionOperator::Equal => price == threshold,
        }
    }
}

/// Length of a text field in bytes, as stored.
pub open spec fn text_len(s: &String) -> nat {
    encode_utf8(s@).len()
}

/// The length of a text field in bytes.
pub fn text_byte_len(s: &String) -> (n: usize)
    ensures
        n == text_len(s),
{
    s.as_str().as_bytes().len()
}

/// The platform's single configuration and counter record.
#[derive(Debug, Clone, Copy, PartialEq, Eq)]
pub struct Platform {
    pub authority: Address,
    /// The id that the next market gets.
    pub market_count: u64,
    /// Gross trade size over all markets.
    pub total_volume: u64,
    pub fee_bps: u16,
    /// Receives trading fees.
    pub treasury: Address,
    pub bump: u8,
}

impl Platform {
    pub open spec fn wf(&self) -> bool {
        self.fee_bps <= MAX_FEE_BPS
    }

    pub fn is_well_formed(&self) -> (r: bool)
        ensures
            r == self.wf(),
    {
        self.fee_bps <= MAX_FEE_BPS
    }
}

/// One market: its terms, its pool reserves and where it stands.
#[derive(Debug)]
pub struct Market {
    pub market_id: u64,
    pub authority: Address,
    pub question: String,
    pub description: String,
    pub category: String,
    pub collateral_mint: Address,
    pub yes_mint: Address,
    pub no_mint: Address,
    /// The pool account that holds the collateral.
    pub vault: Address,
    /// Reserve of YES in the market maker.
    pub yes_amount: u64,
    /// Reserve of NO in the market maker.
    pub no_amount: u64,
    /// Collateral taken in net of fees, less what sellers were paid.
    pub total_liquidity: u64,
    /// Gross trade size on this market.
    pub volume: u64,
    pub resolution_source: String,
    /// The oracle threshold; a market without one is resolved by hand.
    pub resolution_value: Option<u64>,
    pub resolution_operator: ResolutionOperator,
    pub created_at: i64,
    pub expires_at: i64,
    /// Trading stops at this time.
    pub lock_time: i64,
    pub resolved_at: Option<i64>,
    /// True when YES won.
    pub outcome: Option<bool>,
    pub status: MarketStatus,
    /// The platform fee when the market was created.
    pub fee_bps: u16,
    pub bump: u8,
}

impl Market {
    /// What holds of every market from its creation on.
    pub open spec fn wf(&self) -> bool {
        &&& text_len(&self.question) <= MAX_QUESTION_LEN
        &&& text_len(&self.description) <= MAX_DESCRIPTION_LEN
        &&& text_len(&self.category) <= MAX_CATEGORY_LEN
        &&& text_len(&self.resolution_source) <= MAX_RESOLUTION_SOURCE_LEN
        &&& self.fee_bps <= MAX_FEE_BPS
        &&& self.expires_at >= self.created_at + MIN_MARKET_DURATION
        &&& self.lock_time == self.expires_at - LOCK_BEFORE_EXPIRY
        &&& self.status != MarketStatus::Locked
        &&& self.status == MarketStatus::Active ==> {
            &&& self.outcome.is_none()
            &&& self.resolved_at.is_none()
            &&& self.yes_amount > 0
            &&& self.no_amount > 0
        }
        &&& self.status == MarketStatus::Resolved ==> self.outcome.is_some()
            && self.resolved_at.is_some()
        &&& self.status == MarketStatus::Cancelled ==> self.outcome.is_none()
            && self.resolved_at.is_none()
    }

    /// Whether `wf` holds, for a record read back from storage.
    pub fn is_well_formed(&self) -> (r: bool)
        ensures
            r == self.wf(),
    {
        let texts_fit = text_byte_len(&self.question) <= MAX_QUESTION_LEN
            && text_byte_len(&self.description) <= MAX_DESCRIPTION_LEN
            && text_byte_len(&self.category) <= MAX_CATEGORY_LEN
            && text_byte_len(&self.resolution_source) <= MAX_RESOLUTION_SOURCE_LEN;
        let times_fit = self.created_at <= i64::MAX - MIN_MARKET_DURATION
            && self.expires_at >= self.created_at + MIN_MARKET_DURATION
            && self.expires_at >= i64::MIN + LOCK_BEFORE_EXPIRY
            && self.lock_time == self.expires_at - LOCK_BEFORE_EXPIRY;
        let lifecycle_fits = match self.status {
            MarketStatus::Active => self.outcome.is_none() && self.resolved_at.is_none()
                && self.yes_amount > 0 && self.no_amount > 0,
            MarketStatus::Locked => false,
            MarketStatus::Resolved => self.outcome.is_some() && self.resolved_at.is_some(),
            MarketStatus::Cancelled => self.outcome.is_none() && self.resolved_at.is_none(),
        };
        texts_fit && self.fee_bps <= MAX_FEE_BPS && times_fit && lifecycle_fits
    }

    /// Everything but the pool, the counters and the lifecycle fields is as in `other`.
    pub open spec fn same_terms(&self, other: &Market) -> bool {
        &&& self.market_id == other.market_id
        &&& self.authority == other.authority
        &&& self.question@ == other.question@
        &&& self.description@ == other.description@
        &&& self.category@ == other.category@
        &&& self.collateral_mint == other.collateral_mint
        &&& self.yes_mint == other.yes_mint
        &&& self.no_mint == other.no_mint
        &&& self.vault == other.vault
        &&& self.resolution_source@ == other.resolution_source@
        &&& self.resolution_value == other.resolution_value
        &&& self.resolution_operator == other.resolution_operator
        &&& self.created_at == other.created_at
        &&& self.expires_at == other.expires_at
        &&& self.lock_time == other.lock_time
        &&& self.fee_bps == other.fee_bps
        &&& self.bump == other.bump
    }

    /// Only the pool and its counters differ from `other`.
    pub open spec fn same_except_pool(&self, other: &Market) -> bool {
        &&& self.same_terms(other)
        &&& self.resolved_at == other.resolved_at
        &&& self.outcome == other.outcome
        &&& self.status == other.status
    }

    /// Only the lifecycle fields differ from `other`.
    pub open spec fn same_except_lifecycle(&self, other: &Market) -> bool {
        &&& self.same_terms(other)
        &&& self.yes_amount == other.yes_amount
        &&& self.no_amount == other.no_amount
        &&& self.total_liquidity == other.total_liquidity
        &&& self.volume == other.volume
    }
}

/// One user's record on one market.
#[derive(Debug, Clone, Copy, PartialEq, Eq)]
pub struct UserPosition {
    pub user: Address,
    pub market_id: u64,
    pub yes_tokens: u64,
    pub no_tokens: u64,
    /// Collateral paid in, fees included.
    pub total_deposited: u64,
    /// Collateral paid out.
    pub total_withdrawn: u64,
    pub bump: u8,
}

/// Emitted when the platform record is made.
#[derive(Debug)]
pub struct PlatformInitialized {
    pub authority: Address,
    pub fee_bps: u16,
    pub treasury: Address,
}

/// Emitted when a market is created.
#[derive(Debug)]
pub struct MarketCreated {
    pub market_id: u64,
    pub question: String,
    pub expires_at: i64,
    pub initial_liquidity: u64,
}

/// Emitted on a buy: `amount_in` less `fee` goes to the pool, `fee` to the
/// treasury, and `tokens_out` claim tokens are minted to the user.
#[derive(Debug, Clone, Copy)]
pub struct OutcomePurchased {
    pub market_id: u64,
    pub user: Address,
    pub is_yes: bool,
    pub amount_in: u64,
    pub tokens_out: u64,
    pub fee: u64,
}

/// Emitted on a sell: `tokens_in` are burnt, the pool pays `collateral_out`
/// to the user and `fee` to the treasury.
#[derive(Debug, Clone, Copy)]
pub struct OutcomeSold {
    pub market_id: u64,
    pub user: Address,
    pub is_yes: bool,
    pub tokens_in: u64,
    pub collateral_out: u64,
    pub fee: u64,
}

/// Emitted when a market is resolved.
#[derive(Debug, Clone, Copy)]
pub struct MarketResolved {
    pub market_id: u64,
    pub outcome: bool,
    pub resolved_at: i64,
}

/// Emitted when a winner redeems.
#[derive(Debug, Clone, Copy)]
pub struct WinningsRedeemed {
    pub market_id: u64,
    pub user: Address,
    pub payout: u64,
}

/// Emitted when a market is cancelled.
#[derive(Debug, Clone, Copy)]
pub struct MarketCancelled {
    pub market_id: u64,
}

/// Emitted when a holder of a cancelled market is refunded.
#[derive(Debug, Clone, Copy)]
pub struct CancelledRedeemed {
    pub market_id: u64,
    pub user: Address,
    pub refund: u64,
}

} // verus!
