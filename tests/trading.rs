use ghostodds::amm::swap;
use ghostodds::arith::{fee_amount, mul_div_floor};
use ghostodds::lifecycle::{create_market, initialize_platform, MarketAccounts, MarketTerms};
use ghostodds::resolution::cancel_market;
use ghostodds::state::{
    Address, GhostOddsError, Market, MarketStatus, Platform, ResolutionOperator, UserPosition,
};
use ghostodds::trading::{buy_outcome, sell_outcome};

const NOW: i64 = 1_700_000_000;
const DAY: i64 = 86_400;

fn addr(b: u8) -> Address {
    Address { bytes: [b; 32] }
}

fn platform(fee_bps: u16) -> Platform {
    initialize_platform(addr(1), addr(2), fee_bps, 255).unwrap().0
}

fn accounts() -> MarketAccounts {
    MarketAccounts { collateral_mint: addr(10), yes_mint: addr(11), no_mint: addr(12), vault: addr(13) }
}

fn terms(initial_liquidity: u64) -> MarketTerms {
    MarketTerms {
        question: String::from("Will it rain tomorrow?"),
        description: String::from("Resolves YES on any rain."),
        category: String::from("weather"),
        resolution_source: String::from("met office"),
        resolution_value: None,
        resolution_operator: 0,
        expires_at: NOW + 2 * DAY,
        initial_liquidity,
    }
}

fn market(p: &mut Platform, initial_liquidity: u64) -> Market {
    create_market(p, addr(1), accounts(), terms(initial_liquidity), NOW, 254).unwrap()
}

fn position() -> UserPosition {
    UserPosition { user: addr(0), market_id: 0, yes_tokens: 0, no_tokens: 0, total_deposited: 0, total_withdrawn: 0, bump: 7 }
}

#[test]
fn initialize_platform_sets_counters() {
    let (p, ev) = initialize_platform(addr(1), addr(2), 100, 9).unwrap();
    assert_eq!(p.market_count, 0);
    assert_eq!(p.total_volume, 0);
    assert_eq!(p.fee_bps, 100);
    assert_eq!(p.treasury, addr(2));
    assert_eq!(ev.fee_bps, 100);
    assert!(initialize_platform(addr(1), addr(2), 1000, 9).is_ok());
}

#[test]
fn initialize_platform_rejects_fee_above_cap() {
    assert_eq!(initialize_platform(addr(1), addr(2), 1001, 9).err(), Some(GhostOddsError::FeeTooHigh));
}

#[test]
fn create_market_splits_liquidity() {
    let mut p = platform(100);
    let m = market(&mut p, 1_000_000);
    assert_eq!(m.yes_amount, 500_000);
    assert_eq!(m.no_amount, 500_000);
    assert_eq!(m.total_liquidity, 1_000_000);
    assert_eq!(m.market_id, 0);
    assert_eq!(m.fee_bps, 100);
    assert_eq!(m.lock_time, NOW + 2 * DAY - 43_200);
    assert_eq!(m.status, MarketStatus::Active);
    assert_eq!(m.resolution_operator, ResolutionOperator::AtLeast);
    assert_eq!(p.market_count, 1);
    let m2 = market(&mut p, 7);
    assert_eq!(m2.market_id, 1);
    assert_eq!(m2.yes_amount, 3);
    assert_eq!(m2.total_liquidity, 7);
    assert_eq!(p.market_count, 2);
}

#[test]
fn create_market_errors() {
    let mut p = platform(100);
    let e = |p: &mut Platform, authority: Address, t: MarketTerms, now: i64| {
        create_market(p, authority, accounts(), t, now, 0).err()
    };
    assert_eq!(e(&mut p, addr(9), terms(100), NOW), Some(GhostOddsError::Unauthorized));
    let mut t = terms(100);
    t.question = "q".repeat(129);
    assert_eq!(e(&mut p, addr(1), t, NOW), Some(GhostOddsError::QuestionTooLong));
    let mut t = terms(100);
    t.question = "q".repeat(128);
    assert_eq!(e(&mut p, addr(1), t, NOW), None);
    let mut t = terms(100);
    t.description = "d".repeat(201);
    assert_eq!(e(&mut p, addr(1), t, NOW), Some(GhostOddsError::DescriptionTooLong));
    let mut t = terms(100);
    t.category = "c".repeat(33);
    assert_eq!(e(&mut p, addr(1), t, NOW), Some(GhostOddsError::CategoryTooLong));
    let mut t = terms(100);
    t.resolution_source = "s".repeat(65);
    assert_eq!(e(&mut p, addr(1), t, NOW), Some(GhostOddsError::ResolutionSourceTooLong));
    let mut t = terms(100);
    t.resolution_operator = 3;
    assert_eq!(e(&mut p, addr(1), t, NOW), Some(GhostOddsError::InvalidOperator));
    assert_eq!(e(&mut p, addr(1), terms(0), NOW), Some(GhostOddsError::ZeroAmount));
    assert_eq!(e(&mut p, addr(1), terms(1), NOW), Some(GhostOddsError::ZeroAmount));
    let mut t = terms(100);
    t.expires_at = NOW + DAY - 1;
    assert_eq!(e(&mut p, addr(1), t, NOW), Some(GhostOddsError::ExpiryTooSoon));
    assert_eq!(e(&mut p, addr(1), terms(100), i64::MAX - 10), Some(GhostOddsError::MathOverflow));
    let before = p;
    let mut full = p;
    full.market_count = u64::MAX;
    assert_eq!(e(&mut full, addr(1), terms(100), NOW), Some(GhostOddsError::MathOverflow));
    assert_eq!(full.market_count, u64::MAX);
    assert_eq!(e(&mut p, addr(1), terms(0), NOW), Some(GhostOddsError::ZeroAmount));
    assert_eq!(p, before);
}

#[test]
fn create_market_counts_text_in_bytes() {
    let mut p = platform(0);
    let mut t = terms(100);
    // 43 three-byte characters: 129 bytes
    t.question = "\u{20ac}".repeat(43);
    assert_eq!(create_market(&mut p, addr(1), accounts(), t, NOW, 0).err(), Some(GhostOddsError::QuestionTooLong));
}

#[test]
fn fee_rounds_up() {
    assert_eq!(fee_amount(100_000, 100), 1_000);
    assert_eq!(fee_amount(99_001, 100), 991);
    assert_eq!(fee_amount(1, 1), 1);
    assert_eq!(fee_amount(0, 1000), 0);
    assert_eq!(fee_amount(12_345, 0), 0);
    assert_eq!(fee_amount(u64::MAX, 1000), u64::MAX / 10 + 1);
}

#[test]
fn swap_follows_constant_product() {
    let s = swap(500_000, 500_000, 99_000).unwrap();
    assert_eq!(s.new_input_reserve, 599_000);
    assert_eq!(s.new_output_reserve, 417_362);
    assert_eq!(s.amount_out, 82_638);
    assert_eq!(swap(0, 10, 0).err(), Some(GhostOddsError::MathOverflow));
    assert_eq!(swap(u64::MAX, 10, 1).err(), Some(GhostOddsError::MathOverflow));
    assert_eq!(swap(10, 10, 0).unwrap().amount_out, 0);
}

#[test]
fn mul_div_floor_rounds_down_and_checks() {
    assert_eq!(mul_div_floor(300, 1_000_000, 1_000), Ok(300_000));
    assert_eq!(mul_div_floor(1, 10, 3), Ok(3));
    assert_eq!(mul_div_floor(u64::MAX, u64::MAX, u64::MAX), Ok(u64::MAX));
    assert_eq!(mul_div_floor(1, 1, 0), Err(GhostOddsError::MathOverflow));
    assert_eq!(mul_div_floor(u64::MAX, 2, 1), Err(GhostOddsError::MathOverflow));
}

#[test]
fn buy_scenario_exact_values() {
    let mut p = platform(100);
    let mut m = market(&mut p, 1_000_000);
    let mut pos = position();
    let ev = buy_outcome(&mut m, &mut p, &mut pos, addr(5), 100_000, true, 0, NOW).unwrap();
    assert_eq!(ev.fee, 1_000);
    assert_eq!(ev.tokens_out, 82_638);
    assert_eq!(ev.amount_in, 100_000);
    assert!(ev.is_yes);
    assert_eq!(m.yes_amount, 417_362);
    assert_eq!(m.no_amount, 599_000);
    assert_eq!(m.total_liquidity, 1_099_000);
    assert_eq!(m.volume, 100_000);
    assert_eq!(p.total_volume, 100_000);
    assert_eq!(pos.yes_tokens, 82_638);
    assert_eq!(pos.no_tokens, 0);
    assert_eq!(pos.total_deposited, 100_000);
    assert_eq!(pos.user, addr(5));
    assert_eq!(pos.bump, 7);
}

#[test]
fn buy_no_side_uses_yes_reserve_as_input() {
    let mut p = platform(100);
    let mut m = market(&mut p, 1_000_000);
    let mut pos = position();
    let ev = buy_outcome(&mut m, &mut p, &mut pos, addr(5), 100_000, false, 82_638, NOW).unwrap();
    assert_eq!(ev.tokens_out, 82_638);
    assert_eq!(m.no_amount, 417_362);
    assert_eq!(m.yes_amount, 599_000);
    assert_eq!(pos.no_tokens, 82_638);
}

#[test]
fn buy_errors_leave_state_unchanged() {
    let mut p = platform(100);
    let mut m = market(&mut p, 1_000_000);
    let mut pos = position();
    let before = (m.yes_amount, m.no_amount, m.total_liquidity, m.volume, p, pos);
    let mut buy = |amount: u64, min: u64, now: i64, m: &mut Market| {
        buy_outcome(m, &mut p, &mut pos, addr(5), amount, true, min, now).err()
    };
    assert_eq!(buy(0, 0, NOW, &mut m), Some(GhostOddsError::ZeroAmount));
    let lock = m.lock_time;
    assert_eq!(buy(100_000, 0, lock, &mut m), Some(GhostOddsError::MarketLocked));
    assert_eq!(buy(100_000, 82_639, NOW, &mut m), Some(GhostOddsError::SlippageExceeded));
    // a fee of one unit on one unit leaves nothing to swap
    assert_eq!(buy(1, 0, NOW, &mut m), Some(GhostOddsError::ZeroAmount));
    assert_eq!(before, (m.yes_amount, m.no_amount, m.total_liquidity, m.volume, p, pos));
}

#[test]
fn buy_that_would_empty_a_reserve_is_refused() {
    let mut p = platform(0);
    let mut m = market(&mut p, 2);
    let mut pos = position();
    assert_eq!(
        buy_outcome(&mut m, &mut p, &mut pos, addr(5), 5, true, 0, NOW).err(),
        Some(GhostOddsError::ZeroAmount)
    );
    assert_eq!((m.yes_amount, m.no_amount), (1, 1));
}

#[test]
fn trading_refused_after_cancel() {
    let mut p = platform(100);
    let mut m = market(&mut p, 1_000_000);
    let mut pos = position();
    cancel_market(&mut m, addr(1)).unwrap();
    assert_eq!(
        buy_outcome(&mut m, &mut p, &mut pos, addr(5), 100, true, 0, NOW).err(),
        Some(GhostOddsError::MarketNotActive)
    );
    assert_eq!(
        sell_outcome(&mut m, &mut p, &mut pos, addr(5), 100, true, 0, NOW).err(),
        Some(GhostOddsError::MarketNotActive)
    );
}

#[test]
fn sell_scenario_exact_values() {
    let mut p = platform(100);
    let mut m = market(&mut p, 1_000_000);
    let mut pos = position();
    buy_outcome(&mut m, &mut p, &mut pos, addr(5), 100_000, true, 0, NOW).unwrap();
    let ev = sell_outcome(&mut m, &mut p, &mut pos, addr(5), 82_638, true, 0, NOW).unwrap();
    assert_eq!(ev.fee, 991);
    assert_eq!(ev.collateral_out, 98_010);
    assert_eq!(ev.tokens_in, 82_638);
    assert_eq!(m.yes_amount, 500_000);
    assert_eq!(m.no_amount, 499_999);
    assert_eq!(m.volume, 100_000 + 99_001);
    assert_eq!(p.total_volume, 100_000 + 99_001);
    assert_eq!(pos.yes_tokens, 0);
    assert_eq!(pos.total_withdrawn, 98_010);
    assert_eq!(pos.total_deposited, 100_000);
}

#[test]
fn sell_errors() {
    let mut p = platform(100);
    let mut m = market(&mut p, 1_000_000);
    let mut pos = position();
    buy_outcome(&mut m, &mut p, &mut pos, addr(5), 100_000, true, 0, NOW).unwrap();
    assert_eq!(
        sell_outcome(&mut m, &mut p, &mut pos, addr(5), 0, true, 0, NOW).err(),
        Some(GhostOddsError::ZeroAmount)
    );
    assert_eq!(
        sell_outcome(&mut m, &mut p, &mut pos, addr(5), 82_638, true, 98_011, NOW).err(),
        Some(GhostOddsError::SlippageExceeded)
    );
    assert_eq!(
        sell_outcome(&mut m, &mut p, &mut pos, addr(5), 82_639, true, 0, NOW).err(),
        Some(GhostOddsError::MathOverflow)
    );
    let late = m.lock_time + 1;
    assert_eq!(
        sell_outcome(&mut m, &mut p, &mut pos, addr(5), 10, true, 0, late).err(),
        Some(GhostOddsError::MarketLocked)
    );
    assert_eq!(
        sell_outcome(&mut m, &mut p, &mut pos, addr(5), u64::MAX, true, 0, NOW).err(),
        Some(GhostOddsError::MathOverflow)
    );
    assert_eq!(pos.yes_tokens, 82_638);
}

#[test]
fn product_falls_by_rounding_remainder() {
    let mut p = platform(100);
    let mut m = market(&mut p, 1_000_000);
    let mut pos = position();
    let before = m.yes_amount as u128 * m.no_amount as u128;
    buy_outcome(&mut m, &mut p, &mut pos, addr(5), 100_000, true, 0, NOW).unwrap();
    let after = m.yes_amount as u128 * m.no_amount as u128;
    assert_eq!(before - after, before % 599_000);
    assert_eq!(before - after, 162_000);
}

#[test]
fn product_kept_when_division_is_exact() {
    let mut p = platform(0);
    let mut m = market(&mut p, 1_000);
    let mut pos = position();
    let before = m.yes_amount as u128 * m.no_amount as u128;
    let ev = buy_outcome(&mut m, &mut p, &mut pos, addr(5), 500, true, 0, NOW).unwrap();
    assert_eq!(ev.tokens_out, 250);
    assert!(m.yes_amount as u128 * m.no_amount as u128 >= before);
    let ev = sell_outcome(&mut m, &mut p, &mut pos, addr(5), 250, true, 0, NOW).unwrap();
    assert_eq!(ev.collateral_out, 500);
    assert_eq!(m.yes_amount as u128 * m.no_amount as u128, before);
}

#[test]
fn round_trip_with_fees_returns_less() {
    let mut p = platform(100);
    let mut m = market(&mut p, 1_000_000);
    let mut pos = position();
    let b = buy_outcome(&mut m, &mut p, &mut pos, addr(5), 100_000, true, 0, NOW).unwrap();
    let s = sell_outcome(&mut m, &mut p, &mut pos, addr(5), b.tokens_out, true, 0, NOW).unwrap();
    assert!(s.collateral_out <= b.amount_in);
    assert_eq!(s.collateral_out, 98_010);
}

#[test]
fn round_trip_without_fees_keeps_rounding_gain() {
    let mut p = platform(0);
    let mut m = market(&mut p, 1_000_000);
    let mut pos = position();
    let b = buy_outcome(&mut m, &mut p, &mut pos, addr(5), 99_000, true, 0, NOW).unwrap();
    let s = sell_outcome(&mut m, &mut p, &mut pos, addr(5), b.tokens_out, true, 0, NOW).unwrap();
    assert_eq!(b.tokens_out, 82_638);
    assert_eq!(s.collateral_out, 99_001);
}

#[test]
fn liquidity_tracks_net_flows() {
    let mut p = platform(100);
    let mut m = market(&mut p, 1_000_000);
    let mut alice = position();
    let mut bob = position();
    let b1 = buy_outcome(&mut m, &mut p, &mut alice, addr(5), 100_000, true, 0, NOW).unwrap();
    let b2 = buy_outcome(&mut m, &mut p, &mut bob, addr(6), 40_000, false, 0, NOW).unwrap();
    let s1 = sell_outcome(&mut m, &mut p, &mut alice, addr(5), 20_000, true, 0, NOW).unwrap();
    let expected = 1_000_000 + (b1.amount_in - b1.fee) + (b2.amount_in - b2.fee) - s1.collateral_out;
    assert_eq!(m.total_liquidity, expected);
    assert_eq!(p.total_volume, m.volume);
}
