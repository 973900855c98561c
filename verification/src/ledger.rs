//! The books of one market: its pools against the bets that were placed on it.
//!
//! Everything here is ghost code. The ledger of a market is the
//! sequence of all bets on it, each participant's bet at a fixed place; one
//! instruction replaces the market and at most one bet.

use crate::errors::BettingError;
use crate::events::Outcome;
use crate::instructions::{CancelBet, ClaimWinnings, CreateMarket, PlaceBet, ResolveMarket};
use crate::payout::{
    fee_remainder, gross_share, lemma_fee_is_two_percent, lemma_gross_share_is_floor,
    lemma_gross_share_within_pool, net_of_fee, platform_fee,
};
use crate::pubkey::Pubkey;
use crate::state::{Bet, Market};
use vstd::prelude::*;

verus! {

/// What the bets have staked on `outcome`, all together.
pub open spec fn staked_on(bets: Seq<Bet>, outcome: Outcome) -> int
    decreases bets.len(),
{
    if bets.len() == 0 {
        0
    } else {
        staked_on(bets.drop_last(), outcome) + bets.last().stake_on(outcome)
    }
}

/// The sum of the amounts of all bets.
pub open spec fn total_staked(bets: Seq<Bet>) -> int
    decreases bets.len(),
{
    if bets.len() == 0 {
        0
    } else {
        total_staked(bets.drop_last()) + bets.last().amount
    }
}

/// Every bet of the ledger meets the invariant of a bet.
pub open spec fn all_wf(bets: Seq<Bet>) -> bool {
    forall|i: int| 0 <= i < bets.len() ==> (#[trigger] bets[i]).wf()
}

/// The books balance: each pool of the market holds exactly what the bets have
/// staked on its outcome.
pub open spec fn conserved(market: Market, bets: Seq<Bet>) -> bool {
    &&& market.pool_of(Outcome::TeamA) == staked_on(bets, Outcome::TeamA)
    &&& market.pool_of(Outcome::TeamB) == staked_on(bets, Outcome::TeamB)
    &&& market.pool_of(Outcome::Draw) == staked_on(bets, Outcome::Draw)
}

/// Replacing one bet changes what is staked on an outcome by the difference
/// between the new bet's stake on it and the old one's.
pub proof fn lemma_staked_on_update(bets: Seq<Bet>, i: int, bet: Bet, outcome: Outcome)
    requires
        0 <= i < bets.len(),
    ensures
        staked_on(bets.update(i, bet), outcome) == staked_on(bets, outcome) - bets[i].stake_on(
            outcome,
        ) + bet.stake_on(outcome),
    decreases bets.len(),
{
    let updated = bets.update(i, bet);
    if i == bets.len() - 1 {
        assert(updated.drop_last() =~= bets.drop_last());
    } else {
        assert(updated.drop_last() =~= bets.drop_last().update(i, bet));
        lemma_staked_on_update(bets.drop_last(), i, bet, outcome);
    }
}

/// No bet has staked more on an outcome than all bets together.
pub proof fn lemma_stake_within_total(bets: Seq<Bet>, i: int, outcome: Outcome)
    requires
        0 <= i < bets.len(),
    ensures
        0 <= bets[i].stake_on(outcome) <= staked_on(bets, outcome),
    decreases bets.len(),
{
    lemma_staked_on_nonnegative(bets.drop_last(), outcome);
    if i < bets.len() - 1 {
        lemma_stake_within_total(bets.drop_last(), i, outcome);
    }
}

/// What is staked on an outcome is never negative.
pub proof fn lemma_staked_on_nonnegative(bets: Seq<Bet>, outcome: Outcome)
    ensures
        0 <= staked_on(bets, outcome),
    decreases bets.len(),
{
    if bets.len() > 0 {
        lemma_staked_on_nonnegative(bets.drop_last(), outcome);
    }
}

/// In a ledger of well-formed bets, the amounts of all bets add up to what is
/// staked on the three outcomes: a bet without a first stake holds nothing.
pub proof fn lemma_total_staked_by_outcome(bets: Seq<Bet>)
    requires
        all_wf(bets),
    ensures
        total_staked(bets) == staked_on(bets, Outcome::TeamA) + staked_on(bets, Outcome::TeamB)
            + staked_on(bets, Outcome::Draw),
    decreases bets.len(),
{
    if bets.len() > 0 {
        assert(bets.last() == bets[bets.len() - 1]);
        assert(bets.last().wf());
        assert forall|i: int| 0 <= i < bets.drop_last().len() implies (
        #[trigger] bets.drop_last()[i]).wf() by {
            assert(bets.drop_last()[i] == bets[i]);
        }
        lemma_total_staked_by_outcome(bets.drop_last());
    }
}

/// Conservation, as the sum it is usually read as: while the books balance, the
/// three pools together hold the sum of the amounts of all bets. A cancelled bet
/// holds nothing, so it adds nothing to the sum.
pub proof fn lemma_pools_hold_total_staked(market: Market, bets: Seq<Bet>)
    requires
        conserved(market, bets),
        all_wf(bets),
    ensures
        market.pool_total() == total_staked(bets),
{
    lemma_total_staked_by_outcome(bets);
}

/// What a claim of the bet earns before the fee: its share of the payout pool
/// where it is staked on the winning outcome and that outcome's pool is not
/// empty, else nothing.
pub open spec fn gross_of(market: Market, bet: Bet) -> int {
    if bet.outcome == market.winning_outcome && market.winning_pool > 0 {
        gross_share(
            bet.amount as int,
            market.total_payout_pool as int,
            market.winning_pool as int,
        )
    } else {
        0
    }
}

/// What a claim of the bet pays out: the gross share less the fee.
pub open spec fn payout_of(market: Market, bet: Bet) -> int {
    net_of_fee(gross_of(market, bet))
}

/// The hundredths of a unit by which the fee on the bet's gross share is rounded down.
pub open spec fn fee_remainder_of(market: Market, bet: Bet) -> int {
    fee_remainder(gross_of(market, bet))
}

/// The gross shares of all bets, added up.
pub open spec fn total_gross(market: Market, bets: Seq<Bet>) -> int
    decreases bets.len(),
{
    if bets.len() == 0 {
        0
    } else {
        total_gross(market, bets.drop_last()) + gross_of(market, bets.last())
    }
}

/// What is paid out when every bet on the winning outcome is claimed.
pub open spec fn total_payout(market: Market, bets: Seq<Bet>) -> int
    decreases bets.len(),
{
    if bets.len() == 0 {
        0
    } else {
        total_payout(market, bets.drop_last()) + payout_of(market, bets.last())
    }
}

/// The rounding remainders of all fees, added up, in hundredths of a unit.
pub open spec fn total_fee_remainder(market: Market, bets: Seq<Bet>) -> int
    decreases bets.len(),
{
    if bets.len() == 0 {
        0
    } else {
        total_fee_remainder(market, bets.drop_last()) + fee_remainder_of(market, bets.last())
    }
}

/// What has been paid out so far: the sum of the winnings that the bets record.
pub open spec fn paid_out(bets: Seq<Bet>) -> int
    decreases bets.len(),
{
    if bets.len() == 0 {
        0
    } else {
        paid_out(bets.drop_last()) + bets.last().winnings
    }
}

/// Replacing one bet changes what has been paid out by the difference between
/// the winnings that the new bet records and those that the old one did.
pub proof fn lemma_paid_out_update(bets: Seq<Bet>, i: int, bet: Bet)
    requires
        0 <= i < bets.len(),
    ensures
        paid_out(bets.update(i, bet)) == paid_out(bets) - bets[i].winnings + bet.winnings,
    decreases bets.len(),
{
    let updated = bets.update(i, bet);
    if i == bets.len() - 1 {
        assert(updated.drop_last() =~= bets.drop_last());
    } else {
        assert(updated.drop_last() =~= bets.drop_last().update(i, bet));
        lemma_paid_out_update(bets.drop_last(), i, bet);
    }
}

/// No bet records more winnings than a claim of it pays out.
pub open spec fn accounted(market: Market, bets: Seq<Bet>) -> bool {
    forall|i: int|
        0 <= i < bets.len() ==> (#[trigger] bets[i]).winnings <= payout_of(market, bets[i])
}

/// What a bet's claim pays out is between nothing and its gross share.
pub proof fn lemma_payout_of_bounds(market: Market, bet: Bet)
    ensures
        0 <= payout_of(market, bet) <= gross_of(market, bet),
        gross_of(market, bet) * market.winning_pool <= bet.stake_on(market.winning_outcome)
            * market.total_payout_pool,
        100 * payout_of(market, bet) == 98 * gross_of(market, bet) + fee_remainder_of(market, bet),
        0 <= fee_remainder_of(market, bet),
{
    if bet.outcome == market.winning_outcome && market.winning_pool > 0 {
        lemma_gross_share_is_floor(
            bet.amount as int,
            market.total_payout_pool as int,
            market.winning_pool as int,
        );
    } else {
        assert(0 <= bet.stake_on(market.winning_outcome) * market.total_payout_pool)
            by (nonlinear_arith)
            requires
                0 <= bet.stake_on(market.winning_outcome),
                0 <= market.total_payout_pool,
        ;
    }
    lemma_fee_is_two_percent(gross_of(market, bet));
}

/// A successful claim pays out exactly what `payout_of` says.
pub proof fn lemma_claim_pays_payout_of(ctx: ClaimWinnings)
    requires
        ctx.rejection() is None,
    ensures
        ctx.winnings() == payout_of(ctx.market, ctx.bet),
        ctx.settled().bet.winnings == payout_of(ctx.market, ctx.settled().bet),
{
    lemma_payout_of_bounds(ctx.market, ctx.bet);
}

/// The sums over a ledger: the gross shares, each rounded down, come to no more
/// than the exact share of the stakes on the winning outcome; the payouts come to
/// no more than the gross shares; and a hundred times the payouts are 98 times the
/// gross shares plus the rounding remainders of the fees.
pub proof fn lemma_totals(market: Market, bets: Seq<Bet>)
    ensures
        0 <= total_payout(market, bets) <= total_gross(market, bets),
        total_gross(market, bets) * market.winning_pool <= staked_on(bets, market.winning_outcome)
            * market.total_payout_pool,
        100 * total_payout(market, bets) == 98 * total_gross(market, bets) + total_fee_remainder(
            market,
            bets,
        ),
        0 <= total_fee_remainder(market, bets),
    decreases bets.len(),
{
    if bets.len() > 0 {
        let rest = bets.drop_last();
        let bet = bets.last();
        lemma_totals(market, rest);
        lemma_payout_of_bounds(market, bet);
        let w = market.winning_pool as int;
        let p = market.total_payout_pool as int;
        assert((total_gross(market, rest) + gross_of(market, bet)) * w == total_gross(market, rest)
            * w + gross_of(market, bet) * w) by (nonlinear_arith);
        assert((staked_on(rest, market.winning_outcome) + bet.stake_on(market.winning_outcome)) * p
            == staked_on(rest, market.winning_outcome) * p + bet.stake_on(market.winning_outcome)
            * p) by (nonlinear_arith);
    } else {
        assert(0 * market.winning_pool == 0 && 0 * market.total_payout_pool == 0);
    }
}

/// Solvency: on a resolved market whose books balance, the payouts of all
/// winning bets together do not exceed the payout pool.
pub proof fn lemma_payouts_within_pool(market: Market, bets: Seq<Bet>)
    requires
        market.wf(),
        market.is_resolved,
        conserved(market, bets),
    ensures
        total_payout(market, bets) <= total_gross(market, bets) <= market.total_payout_pool,
{
    lemma_totals(market, bets);
    let w = market.winning_pool as int;
    let p = market.total_payout_pool as int;
    let g = total_gross(market, bets);
    if w > 0 {
        assert(staked_on(bets, market.winning_outcome) == w);
        assert(g <= p) by (nonlinear_arith)
            requires
                g * w <= w * p,
                0 < w,
        ;
    } else {
        lemma_total_gross_of_empty_pool(market, bets);
    }
}

/// Where nothing was staked on the winning outcome, no bet has a gross share.
pub proof fn lemma_total_gross_of_empty_pool(market: Market, bets: Seq<Bet>)
    requires
        market.winning_pool == 0,
    ensures
        total_gross(market, bets) == 0,
    decreases bets.len(),
{
    if bets.len() > 0 {
        lemma_total_gross_of_empty_pool(market, bets.drop_last());
    }
}

/// The fee bound, on exactly the ledgers on which it holds. The payouts of all
/// winning bets together are no more than the payout pool less the fee on the
/// whole pool if and only if the fee remainders of all bets together are no more
/// than 98 times what the gross shares leave of the pool, plus the fee remainder
/// of the whole pool. Many small shares, each with a fee rounded down to nothing,
/// fail it.
pub proof fn lemma_fee_bound(market: Market, bets: Seq<Bet>)
    ensures
        total_payout(market, bets) <= net_of_fee(market.total_payout_pool as int)
            <==> total_fee_remainder(market, bets) <= 98 * (market.total_payout_pool - total_gross(
            market,
            bets,
        )) + fee_remainder(market.total_payout_pool as int),
{
    lemma_totals(market, bets);
    lemma_fee_is_two_percent(market.total_payout_pool as int);
}

/// The fee bound where no fee is rounded: on a resolved market whose books
/// balance, if every winning bet's fee is exactly two hundredths of its gross
/// share, the payouts together are no more than the payout pool less the fee on it.
pub proof fn lemma_fee_bound_of_exact_fees(market: Market, bets: Seq<Bet>)
    requires
        market.wf(),
        market.is_resolved,
        conserved(market, bets),
        total_fee_remainder(market, bets) == 0,
    ensures
        total_payout(market, bets) <= market.total_payout_pool - platform_fee(
            market.total_payout_pool as int,
        ),
{
    lemma_payouts_within_pool(market, bets);
    lemma_fee_bound(market, bets);
}

/// The fee bound is met with equality by a sole winner: a bet that holds the whole
/// winning pool is paid the whole payout pool less the fee on it.
pub proof fn lemma_sole_winner_takes_pool_less_fee(market: Market, bet: Bet)
    requires
        bet.outcome == market.winning_outcome,
        bet.amount == market.winning_pool,
        market.winning_pool > 0,
    ensures
        gross_of(market, bet) == market.total_payout_pool,
        payout_of(market, bet) == market.total_payout_pool - platform_fee(
            market.total_payout_pool as int,
        ),
{
    let w = market.winning_pool as int;
    let p = market.total_payout_pool as int;
    assert((w * p) / w == p) by (nonlinear_arith)
        requires
            0 < w,
    ;
}

/// What the bets record as paid is no more than what their claims pay out.
pub proof fn lemma_paid_out_within_payout(market: Market, bets: Seq<Bet>)
    requires
        accounted(market, bets),
    ensures
        paid_out(bets) <= total_payout(market, bets),
    decreases bets.len(),
{
    if bets.len() > 0 {
        assert(bets.last() == bets[bets.len() - 1]);
        assert forall|i: int| 0 <= i < bets.drop_last().len() implies (
        #[trigger] bets.drop_last()[i]).winnings <= payout_of(market, bets.drop_last()[i]) by {
            assert(bets.drop_last()[i] == bets[i]);
        }
        lemma_paid_out_within_payout(market, bets.drop_last());
    }
}

/// No double spending of the pool: on a resolved market whose books balance and
/// whose bets record no more than their claims pay, all winnings paid so far are
/// together no more than the payout pool.
pub proof fn lemma_paid_out_within_pool(market: Market, bets: Seq<Bet>)
    requires
        market.wf(),
        market.is_resolved,
        conserved(market, bets),
        accounted(market, bets),
    ensures
        paid_out(bets) <= market.total_payout_pool,
{
    lemma_paid_out_within_payout(market, bets);
    lemma_payouts_within_pool(market, bets);
}

/// The invariant of a ledger: the market and every bet are well-formed, the books
/// balance, and no bet records more winnings than its claim pays out.
pub open spec fn sound(market: Market, bets: Seq<Bet>) -> bool {
    &&& market.wf()
    &&& all_wf(bets)
    &&& conserved(market, bets)
    &&& accounted(market, bets)
}

/// Before a market is resolved no claim pays anything, so no bet of a sound
/// ledger records any winnings.
pub proof fn lemma_nothing_paid_before_resolution(market: Market, bets: Seq<Bet>, i: int)
    requires
        market.wf(),
        !market.is_resolved,
        accounted(market, bets),
        0 <= i < bets.len(),
    ensures
        bets[i].winnings == 0,
{
}

/// Before a market is resolved nothing has been paid out at all.
pub proof fn lemma_nothing_paid_at_all(market: Market, bets: Seq<Bet>)
    requires
        market.wf(),
        !market.is_resolved,
        accounted(market, bets),
    ensures
        paid_out(bets) == 0,
    decreases bets.len(),
{
    if bets.len() > 0 {
        lemma_nothing_paid_before_resolution(market, bets, bets.len() - 1);
        assert forall|i: int| 0 <= i < bets.drop_last().len() implies (
        #[trigger] bets.drop_last()[i]).winnings <= payout_of(market, bets.drop_last()[i]) by {
            assert(bets.drop_last()[i] == bets[i]);
        }
        lemma_nothing_paid_at_all(market, bets.drop_last());
    }
}

/// A new market with no bets is a sound ledger.
pub proof fn lemma_create_market_sound(
    ctx: CreateMarket,
    game_id: String,
    team_a: String,
    team_b: String,
    start_time: i64,
    oracle_feed: Pubkey,
)
    ensures
        sound(ctx.created(game_id, team_a, team_b, start_time, oracle_feed), Seq::<Bet>::empty()),
{
}

/// A well-formed bet without a first stake can join a sound ledger at any time.
pub proof fn lemma_unstaked_bet_sound(market: Market, bets: Seq<Bet>, bet: Bet)
    requires
        sound(market, bets),
        bet.wf(),
        !bet.is_staked(),
    ensures
        sound(market, bets.push(bet)),
{
    let joined = bets.push(bet);
    assert(joined.drop_last() =~= bets);
    lemma_payout_of_bounds(market, bet);
    assert forall|i: int| 0 <= i < joined.len() implies (#[trigger] joined[i]).wf()
        && joined[i].winnings <= payout_of(market, joined[i]) by {
        if i < bets.len() {
            assert(joined[i] == bets[i]);
        }
    }
}

/// A stake on a bet of a sound ledger leaves a sound ledger.
pub proof fn lemma_place_bet_sound(
    ctx: PlaceBet,
    bets: Seq<Bet>,
    i: int,
    now: i64,
    outcome: Outcome,
    amount: u64,
)
    requires
        sound(ctx.market, bets),
        0 <= i < bets.len(),
        bets[i] == ctx.bet,
        ctx.rejection(now, outcome, amount) is None,
    ensures
        sound(ctx.staked(outcome, amount).market, bets.update(i, ctx.staked(outcome, amount).bet)),
{
    let after = ctx.staked(outcome, amount);
    let updated = bets.update(i, after.bet);
    lemma_staked_on_update(bets, i, after.bet, Outcome::TeamA);
    lemma_staked_on_update(bets, i, after.bet, Outcome::TeamB);
    lemma_staked_on_update(bets, i, after.bet, Outcome::Draw);
    lemma_payout_of_bounds(after.market, after.bet);
    assert forall|j: int| 0 <= j < updated.len() implies (#[trigger] updated[j]).wf()
        && updated[j].winnings <= payout_of(after.market, updated[j]) by {
        if j != i {
            assert(updated[j] == bets[j]);
            assert(payout_of(after.market, bets[j]) == payout_of(ctx.market, bets[j]));
        }
    }
}

/// A cancellation of a bet of a sound ledger leaves a sound ledger.
pub proof fn lemma_cancel_bet_sound(ctx: CancelBet, bets: Seq<Bet>, i: int, now: i64)
    requires
        sound(ctx.market, bets),
        0 <= i < bets.len(),
        bets[i] == ctx.bet,
        ctx.rejection(now) is None,
    ensures
        sound(ctx.cancelled().market, bets.update(i, ctx.cancelled().bet)),
{
    let after = ctx.cancelled();
    let updated = bets.update(i, after.bet);
    lemma_staked_on_update(bets, i, after.bet, Outcome::TeamA);
    lemma_staked_on_update(bets, i, after.bet, Outcome::TeamB);
    lemma_staked_on_update(bets, i, after.bet, Outcome::Draw);
    lemma_payout_of_bounds(after.market, after.bet);
    assert forall|j: int| 0 <= j < updated.len() implies (#[trigger] updated[j]).wf()
        && updated[j].winnings <= payout_of(after.market, updated[j]) by {
        if j != i {
            assert(updated[j] == bets[j]);
            assert(payout_of(after.market, bets[j]) == payout_of(ctx.market, bets[j]));
        }
    }
}

/// A resolution of the market of a sound ledger leaves a sound ledger.
pub proof fn lemma_resolve_market_sound(
    ctx: ResolveMarket,
    bets: Seq<Bet>,
    now: i64,
    winning_outcome: Outcome,
)
    requires
        sound(ctx.market, bets),
        ctx.rejection(now, winning_outcome) is None,
    ensures
        sound(ctx.resolved(now, winning_outcome).market, bets),
{
    let after = ctx.resolved(now, winning_outcome);
    assert forall|j: int| 0 <= j < bets.len() implies (#[trigger] bets[j]).winnings <= payout_of(
        after.market,
        bets[j],
    ) by {
        lemma_nothing_paid_before_resolution(ctx.market, bets, j);
        lemma_payout_of_bounds(after.market, bets[j]);
    }
}

/// A claim of a bet of a sound ledger leaves a sound ledger, with the same market.
pub proof fn lemma_claim_winnings_sound(ctx: ClaimWinnings, bets: Seq<Bet>, i: int)
    requires
        sound(ctx.market, bets),
        0 <= i < bets.len(),
        bets[i] == ctx.bet,
        ctx.rejection() is None,
    ensures
        ctx.settled().market == ctx.market,
        sound(ctx.market, bets.update(i, ctx.settled().bet)),
{
    let after = ctx.settled();
    let updated = bets.update(i, after.bet);
    lemma_staked_on_update(bets, i, after.bet, Outcome::TeamA);
    lemma_staked_on_update(bets, i, after.bet, Outcome::TeamB);
    lemma_staked_on_update(bets, i, after.bet, Outcome::Draw);
    lemma_claim_pays_payout_of(ctx);
    assert forall|j: int| 0 <= j < updated.len() implies (#[trigger] updated[j]).wf()
        && updated[j].winnings <= payout_of(ctx.market, updated[j]) by {
        if j != i {
            assert(updated[j] == bets[j]);
        }
    }
}

/// Stakes of different participants commute: if one stake goes through and then
/// another, on the market that the first one left, they also go through the other
/// way round, and both orders leave the same market and the same two bets.
pub proof fn lemma_stakes_commute(
    first: PlaceBet,
    second: PlaceBet,
    now_1: i64,
    outcome_1: Outcome,
    amount_1: u64,
    now_2: i64,
    outcome_2: Outcome,
    amount_2: u64,
)
    requires
        first.market == second.market,
        first.rejection(now_1, outcome_1, amount_1) is None,
        second.on(first.staked(outcome_1, amount_1).market).rejection(now_2, outcome_2, amount_2)
            is None,
    ensures
        second.rejection(now_2, outcome_2, amount_2) is None,
        first.on(second.staked(outcome_2, amount_2).market).rejection(now_1, outcome_1, amount_1)
            is None,
        first.on(second.staked(outcome_2, amount_2).market).staked(outcome_1, amount_1).market
            == second.on(first.staked(outcome_1, amount_1).market).staked(
            outcome_2,
            amount_2,
        ).market,
        first.on(second.staked(outcome_2, amount_2).market).staked(outcome_1, amount_1).bet
            == first.staked(outcome_1, amount_1).bet,
        second.on(first.staked(outcome_1, amount_1).market).staked(outcome_2, amount_2).bet
            == second.staked(outcome_2, amount_2).bet,
{
}

/// On a resolved market whose books balance, no bet's share exceeds the payout
/// pool: where twice the payout pool fits the amount type, a claim is never
/// refused for `Overflow`.
pub proof fn lemma_claim_winnings_never_overflows(ctx: ClaimWinnings, bets: Seq<Bet>, i: int)
    requires
        ctx.market.wf(),
        ctx.market.is_resolved,
        conserved(ctx.market, bets),
        0 <= i < bets.len(),
        bets[i] == ctx.bet,
        2 * ctx.market.total_payout_pool <= u64::MAX,
    ensures
        ctx.rejection() != Some(BettingError::Overflow),
{
    if ctx.bet.outcome == ctx.market.winning_outcome && ctx.market.winning_pool > 0 {
        lemma_stake_within_total(bets, i, ctx.market.winning_outcome);
        lemma_gross_share_within_pool(
            ctx.bet.amount as int,
            ctx.market.total_payout_pool as int,
            ctx.market.winning_pool as int,
        );
    }
}

/// While the books balance, the pool of a bet's outcome holds at least the bet's
/// amount: a cancellation is never refused for `Underflow`.
pub proof fn lemma_cancel_bet_never_underflows(ctx: CancelBet, bets: Seq<Bet>, i: int, now: i64)
    requires
        conserved(ctx.market, bets),
        0 <= i < bets.len(),
        bets[i] == ctx.bet,
    ensures
        ctx.rejection(now) != Some(BettingError::Underflow),
{
    lemma_stake_within_total(bets, i, ctx.bet.outcome);
}

} // verus!
