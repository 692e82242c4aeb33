//! What holds of the operations together, over sequences of them.
use vstd::prelude::*;
use vstd::arithmetic::div_mod::lemma_fundamental_div_mod_converse_div;
use crate::amm::reserve_after;
use crate::arith::{lemma_floor_div, lemma_share_le_total};
use crate::redemption::{
    cancelled_refund, ledger_after_refund, ledger_after_winnings, redeem_winnings_error,
    winnings_payout, PoolLedger,
};
use crate::oracle::OracleAccount;
use crate::resolution::spec_resolution;
use crate::state::{GhostOddsError, Market, MarketStatus, OutcomePurchased, OutcomeSold, UserPosition};
use crate::trading::{buy_applied, buy_net, reserve_of, sell_applied};

verus! {

/// A trade that went through, as its event records it.
pub enum Trade {
    Buy(OutcomePurchased),
    Sell(OutcomeSold),
}

/// `after` is `before` once trade `t` went through.
pub open spec fn trade_applied(before: &Market, after: &Market, t: Trade) -> bool {
    match t {
        Trade::Buy(ev) => buy_applied(before, after, &ev),
        Trade::Sell(ev) => sell_applied(before, after, &ev),
    }
}

/// The product of the two reserves.
pub open spec fn pool_product(m: &Market) -> int {
    m.yes_amount * m.no_amount
}

/// The input-side reserve once trade `t` has added to it.
pub open spec fn trade_new_input_reserve(before: &Market, t: Trade) -> int {
    match t {
        Trade::Buy(ev) => reserve_of(before, !ev.is_yes) + buy_net(before, ev.amount_in as int),
        Trade::Sell(ev) => reserve_of(before, ev.is_yes) + ev.tokens_in,
    }
}

/// What rounding the output reserve down drops from the product of the
/// reserves in trade `t`.
pub open spec fn trade_remainder(before: &Market, t: Trade) -> int {
    pool_product(before) % trade_new_input_reserve(before, t)
}

/// A trade leaves the product of the reserves as it was, less what rounding
/// the output reserve down drops; that is less than the new input reserve.
pub proof fn lemma_trade_product(before: &Market, after: &Market, t: Trade)
    requires
        before.wf(),
        trade_applied(before, after, t),
    ensures
        trade_new_input_reserve(before, t) > 0,
        0 <= trade_remainder(before, t) < trade_new_input_reserve(before, t),
        pool_product(after) == pool_product(before) - trade_remainder(before, t),
{
    let yes_side = match t {
        Trade::Buy(ev) => ev.is_yes,
        Trade::Sell(ev) => !ev.is_yes,
    };
    // the reserve that takes the input, and the one that pays out
    let i = reserve_of(before, !yes_side);
    let o = reserve_of(before, yes_side);
    let d = trade_new_input_reserve(before, t);
    let k = pool_product(before);
    assert(i * o == k) by (nonlinear_arith)
        requires
            (i == before.yes_amount && o == before.no_amount) || (i == before.no_amount && o == before.yes_amount),
            k == before.yes_amount * before.no_amount,
    ;
    assert(d > 0 && d == i + (d - i) && d - i >= 0);
    assert(reserve_of(after, yes_side) == reserve_after(i, o, d - i));
    assert(reserve_of(after, !yes_side) == d);
    lemma_floor_div(k, d);
    assert(pool_product(after) == (k / d) * d) by (nonlinear_arith)
        requires
            (after.yes_amount == k / d && after.no_amount == d) || (after.no_amount == k / d && after.yes_amount == d),
    ;
}

/// The product of the reserves never falls across a trade in which the new
/// input reserve divides the old product, that is, in which rounding drops
/// nothing. (Where it drops something, the product falls by exactly that.)
pub proof fn lemma_trade_keeps_product(before: &Market, after: &Market, t: Trade)
    requires
        before.wf(),
        trade_applied(before, after, t),
        trade_remainder(before, t) == 0,
    ensures
        pool_product(after) >= pool_product(before),
{
    lemma_trade_product(before, after, t);
}

/// What the buyer gains from rounding in a buy that is sold straight back:
/// the remainder that rounding the bought reserve down dropped, in units of
/// that reserve, rounded up.
pub open spec fn round_trip_gain(m: &Market, buy: OutcomePurchased) -> int {
    let y = reserve_of(m, buy.is_yes);
    (trade_remainder(m, Trade::Buy(buy)) + y - 1) / y
}

/// Buying and at once selling back every token received returns, before the
/// sell's fee, the buy's net input plus the rounding gain. So the round trip
/// returns no more than was paid in whenever the two fees cover that gain:
/// with any fee at all when rounding dropped nothing, and with a fee of at
/// least one unit on each side when the gain is at most two units.
pub proof fn lemma_round_trip(m0: &Market, m1: &Market, m2: &Market, buy: OutcomePurchased, sell: OutcomeSold)
    requires
        m0.wf(),
        buy_applied(m0, m1, &buy),
        sell_applied(m1, m2, &sell),
        sell.is_yes == buy.is_yes,
        sell.tokens_in == buy.tokens_out,
        round_trip_gain(m0, buy) <= buy.fee + sell.fee,
    ensures
        sell.collateral_out + sell.fee == buy_net(m0, buy.amount_in as int) + round_trip_gain(m0, buy),
        sell.collateral_out <= buy.amount_in,
{
    let t = Trade::Buy(buy);
    lemma_trade_product(m0, m1, t);
    let yes = buy.is_yes;
    let y = reserve_of(m0, yes);
    let n = reserve_of(m0, !yes);
    let a = buy_net(m0, buy.amount_in as int);
    let d = n + a;
    let k = pool_product(m0);
    let r1 = trade_remainder(m0, t);
    let q = k / d;
    assert(y > 0 && n > 0);
    assert(n * y == k) by (nonlinear_arith)
        requires
            (n == m0.yes_amount && y == m0.no_amount) || (n == m0.no_amount && y == m0.yes_amount),
            k == m0.yes_amount * m0.no_amount,
    ;
    lemma_floor_div(k, d);
    assert(reserve_of(m1, yes) == q);
    assert(reserve_of(m1, !yes) == d);
    assert(buy.tokens_out == y - q);
    // the sell puts the bought reserve back to `y`
    let new_out = reserve_after(q, d, y - q);
    assert(new_out == (q * d) / y);
    assert(q * d == n * y - r1);
    let c = round_trip_gain(m0, buy);
    lemma_floor_div(r1 + y - 1, y);
    assert(c * y <= r1 + y - 1 < c * y + y);
    assert(q * d == (n - c) * y + (c * y - r1)) by (nonlinear_arith)
        requires
            q * d == n * y - r1,
    ;
    assert(0 <= c * y - r1 < y);
    lemma_fundamental_div_mod_converse_div(q * d, y, n - c, c * y - r1);
    assert(new_out == n - c);
    assert(sell.collateral_out + sell.fee == d - new_out);
}

/// The net collateral that the buys among `ts` put in the pool.
pub open spec fn net_buy_inputs(ts: Seq<Trade>) -> int
    decreases ts.len(),
{
    if ts.len() == 0 {
        0
    } else {
        net_buy_inputs(ts.drop_last()) + match ts.last() {
            Trade::Buy(ev) => ev.amount_in - ev.fee,
            Trade::Sell(_) => 0,
        }
    }
}

/// What the sells among `ts` paid out to sellers.
pub open spec fn sell_payouts(ts: Seq<Trade>) -> int
    decreases ts.len(),
{
    if ts.len() == 0 {
        0
    } else {
        sell_payouts(ts.drop_last()) + match ts.last() {
            Trade::Buy(_) => 0,
            Trade::Sell(ev) => ev.collateral_out as int,
        }
    }
}

/// Over any run of trades, the pool's liquidity is what it started with plus
/// the buys' inputs net of fees less what the sells paid out, exactly.
pub proof fn lemma_liquidity_accounting(ms: Seq<Market>, ts: Seq<Trade>)
    requires
        ms.len() == ts.len() + 1,
        forall|i: int| 0 <= i < ts.len() ==> #[trigger] trade_applied(&ms[i], &ms[i + 1], ts[i]),
    ensures
        ms.last().total_liquidity == ms[0].total_liquidity + net_buy_inputs(ts) - sell_payouts(ts),
    decreases ts.len(),
{
    if ts.len() > 0 {
        let n = ts.len() - 1;
        assert forall|i: int| 0 <= i < ts.drop_last().len() implies #[trigger] trade_applied(
            &ms.drop_last()[i],
            &ms.drop_last()[i + 1],
            ts.drop_last()[i],
        ) by {
            assert(trade_applied(&ms[i], &ms[i + 1], ts[i]));
        }
        lemma_liquidity_accounting(ms.drop_last(), ts.drop_last());
        assert(trade_applied(&ms[n], &ms[n + 1], ts[n]));
    }
}

/// A winner who has redeemed holds no winning tokens, so redeeming again
/// fails with `NoWinnings`, whatever their position record says.
pub proof fn lemma_redeem_twice(m: &Market, position: &UserPosition, l: PoolLedger, later: &UserPosition)
    requires
        m.wf(),
        l.wf(),
        redeem_winnings_error(m, position, l) is None,
    ensures
        redeem_winnings_error(
            m,
            later,
            ledger_after_winnings(l, m.outcome->Some_0, winnings_payout(l, m.outcome->Some_0)),
        ) == Some(GhostOddsError::NoWinnings),
{
}

/// The pool's side of a ledger: both supplies and the vault.
pub open spec fn pool_side(l: PoolLedger) -> (u64, u64, u64) {
    (l.yes_supply, l.no_supply, l.vault_balance)
}

/// What the winners who redeem against `ls`, in turn, are paid in all.
pub open spec fn total_winnings(ls: Seq<PoolLedger>, outcome: bool) -> int
    decreases ls.len(),
{
    if ls.len() == 0 {
        0
    } else {
        total_winnings(ls.drop_last(), outcome) + winnings_payout(ls.last(), outcome)
    }
}

/// Winners who redeem one after another, each against the pool that the one
/// before left, are paid in all exactly what leaves the vault, so never more
/// than it held when the market was resolved.
pub proof fn lemma_winnings_within_pool(outcome: bool, ls: Seq<PoolLedger>)
    requires
        ls.len() > 0,
        forall|i: int| 0 <= i < ls.len() ==> (#[trigger] ls[i]).wf() && ls[i].balance_of(outcome) > 0,
        forall|i: int|
            1 <= i < ls.len() ==> pool_side(#[trigger] ls[i]) == pool_side(
                ledger_after_winnings(ls[i - 1], outcome, winnings_payout(ls[i - 1], outcome)),
            ),
    ensures
        0 <= total_winnings(ls, outcome) <= ls[0].vault_balance,
        total_winnings(ls, outcome) == ls[0].vault_balance - ledger_after_winnings(
            ls.last(),
            outcome,
            winnings_payout(ls.last(), outcome),
        ).vault_balance,
    decreases ls.len(),
{
    let n = ls.len() - 1;
    let last = ls.last();
    assert(last == ls[n]);
    assert(ls[n].wf() && ls[n].balance_of(outcome) > 0);
    lemma_share_le_total(last.balance_of(outcome), last.vault_balance as int, last.supply_of(outcome));
    let payout = winnings_payout(last, outcome);
    assert(ledger_after_winnings(last, outcome, payout).vault_balance == last.vault_balance - payout);
    assert(ls.drop_last().len() == n);
    if ls.len() == 1 {
        assert(total_winnings(ls.drop_last(), outcome) == 0);
    }
    if ls.len() > 1 {
        let init = ls.drop_last();
        assert forall|i: int| 0 <= i < init.len() implies (#[trigger] init[i]).wf() && init[i].balance_of(outcome) > 0 by {
            assert(ls[i].wf());
        }
        assert forall|i: int| 1 <= i < init.len() implies pool_side(#[trigger] init[i]) == pool_side(
            ledger_after_winnings(init[i - 1], outcome, winnings_payout(init[i - 1], outcome)),
        ) by {
            assert(pool_side(ls[i]) == pool_side(ledger_after_winnings(ls[i - 1], outcome, winnings_payout(ls[i - 1], outcome))));
        }
        lemma_winnings_within_pool(outcome, init);
        assert(init.last() == ls[n - 1]);
        assert(pool_side(ls[n]) == pool_side(
            ledger_after_winnings(ls[n - 1], outcome, winnings_payout(ls[n - 1], outcome)),
        ));
        assert(ls[0] == init[0]);
    }
}

/// What the holders who are refunded against `ls`, in turn, get in all.
pub open spec fn total_refunds(ls: Seq<PoolLedger>) -> int
    decreases ls.len(),
{
    if ls.len() == 0 {
        0
    } else {
        total_refunds(ls.drop_last()) + cancelled_refund(ls.last())
    }
}

/// Holders of a cancelled market who are refunded one after another, each
/// against the pool that the one before left, get in all exactly what leaves
/// the vault, so never more than it held; what rounding kept stays in it.
pub proof fn lemma_refunds_within_pool(ls: Seq<PoolLedger>)
    requires
        ls.len() > 0,
        forall|i: int| 0 <= i < ls.len() ==> (#[trigger] ls[i]).wf() && ls[i].user_yes + ls[i].user_no > 0,
        forall|i: int|
            1 <= i < ls.len() ==> pool_side(#[trigger] ls[i]) == pool_side(
                ledger_after_refund(ls[i - 1], cancelled_refund(ls[i - 1])),
            ),
    ensures
        0 <= total_refunds(ls) <= ls[0].vault_balance,
        total_refunds(ls) == ls[0].vault_balance - ledger_after_refund(
            ls.last(),
            cancelled_refund(ls.last()),
        ).vault_balance,
    decreases ls.len(),
{
    let n = ls.len() - 1;
    let last = ls.last();
    assert(last == ls[n]);
    assert(ls[n].wf() && ls[n].user_yes + ls[n].user_no > 0);
    lemma_share_le_total(last.user_yes + last.user_no, last.vault_balance as int, last.yes_supply + last.no_supply);
    let refund = cancelled_refund(last);
    assert(ledger_after_refund(last, refund).vault_balance == last.vault_balance - refund);
    assert(ls.drop_last().len() == n);
    if ls.len() == 1 {
        assert(total_refunds(ls.drop_last()) == 0);
    }
    if ls.len() > 1 {
        let init = ls.drop_last();
        assert forall|i: int| 0 <= i < init.len() implies (#[trigger] init[i]).wf() && init[i].user_yes + init[i].user_no > 0 by {
            assert(ls[i].wf());
        }
        assert forall|i: int| 1 <= i < init.len() implies pool_side(#[trigger] init[i]) == pool_side(
            ledger_after_refund(init[i - 1], cancelled_refund(init[i - 1])),
        ) by {
            assert(pool_side(ls[i]) == pool_side(ledger_after_refund(ls[i - 1], cancelled_refund(ls[i - 1]))));
        }
        lemma_refunds_within_pool(init);
        assert(init.last() == ls[n - 1]);
        assert(pool_side(ls[n]) == pool_side(ledger_after_refund(ls[n - 1], cancelled_refund(ls[n - 1]))));
        assert(ls[0] == init[0]);
    }
}

/// An active market without a threshold can be resolved by its authority the
/// moment it expires, with the outcome the authority gives; a second earlier
/// it cannot be resolved by anyone.
pub proof fn lemma_resolvable_at_expiry(m: &Market, outcome: bool, oracle: Option<OracleAccount>)
    requires
        m.wf(),
        m.status == MarketStatus::Active,
        m.resolution_value is None,
    ensures
        spec_resolution(m, m.authority, outcome, oracle, m.expires_at) == Ok::<bool, GhostOddsError>(outcome),
        m.expires_at > i64::MIN ==> forall|resolver| #[trigger] spec_resolution(m, resolver, outcome, oracle, (m.expires_at - 1) as i64)
            == Err::<bool, GhostOddsError>(GhostOddsError::MarketNotExpired),
{
}

} // verus!
