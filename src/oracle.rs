//! Validating an oracle price and reading an outcome from it.
use vstd::prelude::*;
use vstd::arithmetic::div_mod::lemma_div_denominator;
use crate::state::{Address, GhostOddsError, ResolutionOperator};

verus! {

/// A price is stale once its publish time is this many seconds from now.
pub const MAX_PRICE_AGE: u64 = 300;
/// Widest confidence interval accepted, in basis points of the price.
pub const MAX_CONF_BPS: u128 = 500;
/// Decimals of the fixed-point numbers that thresholds are written in.
pub const PRICE_DECIMALS: i64 = 6;

/// One price as the oracle publishes it: `price * 10^expo`, give or take
/// `conf * 10^expo`, published at `publish_time`.
#[derive(Debug, Clone, Copy)]
pub struct PriceSnapshot {
    pub price: i64,
    pub conf: u64,
    pub expo: i32,
    pub publish_time: i64,
}

/// An account offered as the price feed: the program that owns it, and the
/// price it holds, or `None` when its data is not a price account.
#[derive(Debug, Clone, Copy)]
pub struct OracleAccount {
    pub owner: Address,
    pub feed: Option<PriceSnapshot>,
}

/// The identity of the oracle program whose price accounts are trusted.
pub open spec fn oracle_program_bytes() -> Seq<u8> {
    seq![
        220u8, 229, 235, 225, 228, 156, 59, 159, 17, 76, 181, 84, 76, 80, 169, 158,
        192, 214, 146, 214, 63, 86, 121, 90, 224, 41, 172, 131, 217, 234, 139, 226,
    ]
}

pub fn oracle_program() -> (a: Address)
    ensures
        a@ == oracle_program_bytes(),
{
    let a = Address {
        bytes: [
            220u8, 229, 235, 225, 228, 156, 59, 159, 17, 76, 181, 84, 76, 80, 169, 158,
            192, 214, 146, 214, 63, 86, 121, 90, 224, 41, 172, 131, 217, 234, 139, 226,
        ],
    };
    assert(a@ =~= oracle_program_bytes());
    a
}

/// Relies on pyth_sdk's `PriceFeed::get_price_no_older_than`: the price comes
/// back when its publish time lies within `age` seconds of `current_time`, on
/// either side, and `None` otherwise. The difference of the two times must not
/// overflow, nor be `i64::MIN`, whose absolute value the call takes.
#[verifier::external_body]
fn price_no_older_than(snapshot: &PriceSnapshot, current_time: i64, age: u64) -> (r: Option<PriceSnapshot>)
    requires
        i64::MIN < snapshot.publish_time - current_time <= i64::MAX,
    ensures
        r == (if -(age as int) <= snapshot.publish_time - current_time <= age as int {
            Some(*snapshot)
        } else {
            None
        }),
{
    let p = pyth_sdk_solana::Price {
        price: snapshot.price,
        conf: snapshot.conf,
        expo: snapshot.expo,
        publish_time: snapshot.publish_time,
    };
    let feed = pyth_sdk_solana::PriceFeed::new(pyth_sdk_solana::PriceIdentifier::new([0u8; 32]), p, p);
    match feed.get_price_no_older_than(current_time, age) {
        Some(q) => Some(PriceSnapshot { price: q.price, conf: q.conf, expo: q.expo, publish_time: q.publish_time }),
        None => None,
    }
}

/// `10^n`.
pub open spec fn pow10(n: nat) -> nat
    decreases n,
{
    if n == 0 {
        1
    } else {
        10 * pow10((n - 1) as nat)
    }
}

proof fn lemma_pow10_positive(n: nat)
    ensures
        pow10(n) >= 1,
    decreases n,
{
    if n > 0 {
        lemma_pow10_positive((n - 1) as nat);
    }
}

/// `price * 10^expo` as a fixed-point number of `PRICE_DECIMALS` decimals,
/// rounded down.
pub open spec fn normalized_price(price: int, expo: int) -> int {
    let shift = expo + PRICE_DECIMALS;
    if shift >= 0 {
        price * pow10(shift as nat)
    } else {
        price / (pow10((-shift) as nat) as int)
    }
}

/// `price * 10^expo` with `PRICE_DECIMALS` decimals; `MathOverflow` when that
/// does not fit in 64 bits.
pub fn normalize_price(price: u64, expo: i32) -> (r: Result<u64, GhostOddsError>)
    requires
        price > 0,
    ensures
        r is Err <==> normalized_price(price as int, expo as int) > u64::MAX,
        r is Err ==> r == Err::<u64, GhostOddsError>(GhostOddsError::MathOverflow),
        r is Ok ==> r->Ok_0 == normalized_price(price as int, expo as int),
{
    let shift: i64 = expo as i64 + PRICE_DECIMALS;
    assert(shift == expo + PRICE_DECIMALS);
    if shift >= 0 {
        let mut value: u64 = price;
        let mut i: i64 = 0;
        assert(pow10(0) == 1);
        assert(price * pow10(0) == price) by (nonlinear_arith)
            requires
                pow10(0) == 1,
        ;
        while i < shift
            invariant
                0 <= i <= shift,
                shift == expo + PRICE_DECIMALS,
                price > 0,
                value == price * pow10(i as nat),
            decreases shift - i,
        {
            if value > u64::MAX / 10 {
                proof {
                    lemma_pow10_tail_grows(price as int, i as nat, shift as nat);
                    assert(normalized_price(price as int, expo as int) == price * pow10(shift as nat));
                }
                return Err(GhostOddsError::MathOverflow);
            }
            proof {
                assert(price * pow10((i + 1) as nat) == 10 * (price * pow10(i as nat))) by (nonlinear_arith)
                    requires
                        pow10((i + 1) as nat) == 10 * pow10(i as nat),
                ;
            }
            value = value * 10;
            i = i + 1;
        }
        Ok(value)
    } else {
        let n: i64 = -shift;
        let mut value: u64 = price;
        let mut i: i64 = 0;
        assert(pow10(0) == 1);
        assert((price as int) / (pow10(0) as int) == price);
        while i < n
            invariant
                0 <= i <= n,
                n == -(expo + PRICE_DECIMALS),
                value == (price as int) / (pow10(i as nat) as int),
            decreases n - i,
        {
            proof {
                lemma_pow10_positive(i as nat);
                lemma_div_denominator(price as int, pow10(i as nat) as int, 10);
                assert(pow10(i as nat) * 10 == pow10((i + 1) as nat));
            }
            value = value / 10;
            i = i + 1;
        }
        assert(normalized_price(price as int, expo as int) == (price as int) / (pow10(n as nat) as int));
        Ok(value)
    }
}

/// Once `price * 10^i` exceeds `u64::MAX / 10`, `price * 10^n` for `n > i`
/// exceeds `u64::MAX`.
proof fn lemma_pow10_tail_grows(price: int, i: nat, n: nat)
    requires
        price >= 1,
        i < n,
        price * pow10(i) > u64::MAX / 10,
    ensures
        price * pow10(n) > u64::MAX,
    decreases n - i,
{
    if i + 1 == n {
        assert(price * pow10(n) == 10 * (price * pow10(i))) by (nonlinear_arith)
            requires
                pow10(n) == 10 * pow10(i),
        ;
    } else {
        lemma_pow10_positive(i);
        assert(price * pow10(i + 1) >= price * pow10(i)) by (nonlinear_arith)
            requires
                pow10(i + 1) == 10 * pow10(i),
                pow10(i) >= 1,
                price >= 1,
        ;
        lemma_pow10_tail_grows(price, i + 1, n);
    }
}

/// The magnitude of a price.
pub open spec fn abs_price(price: i64) -> int {
    if price < 0 {
        -price
    } else {
        price as int
    }
}

/// Whether a price was published within `MAX_PRICE_AGE` seconds of `now`.
pub open spec fn price_fresh(s: PriceSnapshot, now: i64) -> bool {
    -(MAX_PRICE_AGE as int) <= s.publish_time - now <= MAX_PRICE_AGE as int
}

/// The confidence interval is wider than `MAX_CONF_BPS` basis points of the
/// price's magnitude, compared exactly.
pub open spec fn confidence_too_wide(s: PriceSnapshot) -> bool {
    s.conf * 10000 > MAX_CONF_BPS * abs_price(s.price)
}

/// The outcome that an oracle account gives against `threshold`, or why it
/// gives none: a missing account, one that the oracle program does not own or
/// that holds no price, a stale price, a zero or negative price, a confidence
/// interval wider than `MAX_CONF_BPS`, or a normalized price beyond 64 bits.
pub open spec fn spec_oracle_outcome(
    oracle: Option<OracleAccount>,
    now: i64,
    threshold: u64,
    operator: ResolutionOperator,
) -> Result<bool, GhostOddsError> {
    match oracle {
        None => Err(GhostOddsError::OracleRequired),
        Some(acc) => {
            if acc.owner@ != oracle_program_bytes() {
                Err(GhostOddsError::InvalidOracle)
            } else {
                match acc.feed {
                    None => Err(GhostOddsError::InvalidOracle),
                    Some(s) => {
                        if !price_fresh(s, now) {
                            Err(GhostOddsError::StalePriceData)
                        } else if s.price == 0 {
                            Err(GhostOddsError::InvalidOracle)
                        } else if confidence_too_wide(s) {
                            Err(GhostOddsError::PriceConfidenceTooWide)
                        } else if s.price < 0 {
                            Err(GhostOddsError::InvalidOracle)
                        } else if normalized_price(s.price as int, s.expo as int) > u64::MAX {
                            Err(GhostOddsError::MathOverflow)
                        } else {
                            Ok(operator.spec_holds(normalized_price(s.price as int, s.expo as int), threshold as int))
                        }
                    },
                }
            }
        },
    }
}

/// Reads the outcome from an oracle account: YES wins when the normalized
/// price satisfies `operator` against `threshold`.
pub fn oracle_outcome(
    oracle: Option<&OracleAccount>,
    now: i64,
    threshold: u64,
    operator: ResolutionOperator,
) -> (r: Result<bool, GhostOddsError>)
    ensures
        r == spec_oracle_outcome(
            match oracle {
                Some(a) => Some(*a),
                None => None,
            },
            now,
            threshold,
            operator,
        ),
{
    let acc = match oracle {
        Some(a) => a,
        None => {
            return Err(GhostOddsError::OracleRequired);
        },
    };
    if acc.owner != oracle_program() {
        return Err(GhostOddsError::InvalidOracle);
    }
    let snapshot = match &acc.feed {
        Some(s) => s,
        None => {
            return Err(GhostOddsError::InvalidOracle);
        },
    };
    let diff: i128 = snapshot.publish_time as i128 - now as i128;
    if diff <= i64::MIN as i128 || diff > i64::MAX as i128 {
        return Err(GhostOddsError::StalePriceData);
    }
    let current = match price_no_older_than(snapshot, now, MAX_PRICE_AGE) {
        Some(p) => p,
        None => {
            return Err(GhostOddsError::StalePriceData);
        },
    };
    let magnitude: u128 = if current.price < 0 {
        (-(current.price as i128)) as u128
    } else {
        current.price as u128
    };
    if magnitude == 0 {
        return Err(GhostOddsError::InvalidOracle);
    }
    if (current.conf as u128) * 10000 > MAX_CONF_BPS * magnitude {
        return Err(GhostOddsError::PriceConfidenceTooWide);
    }
    if current.price <= 0 {
        return Err(GhostOddsError::InvalidOracle);
    }
    let normalized = match normalize_price(current.price as u64, current.expo) {
        Ok(v) => v,
        Err(e) => {
            return Err(e);
        },
    };
    Ok(operator.holds(normalized, threshold))
}

} // verus!
