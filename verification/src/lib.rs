//! Pari-mutuel wagering pools: the market and bet accounting state machine.
//!
//! Participants stake value on one of the outcomes of an event. Once the event is
//! over, the market's authority commits the result, and every bet on the winning
//! outcome is paid its share of the whole pool, less a platform fee. Until shortly
//! before the event starts, a bet can be cancelled and refunded.
//!
//! The library keeps the books. It neither moves value nor reads a clock: every
//! instruction takes the current time as an argument and returns, besides the new
//! state, the [`token::Transfer`] that the custodian has to carry out and the
//! notification for observers. A refused instruction changes nothing.

pub mod errors;
pub mod events;
pub mod history;
pub mod instructions;
pub mod ledger;
pub mod lifecycle;
pub mod payout;
pub mod pubkey;
pub mod state;
pub mod token;

pub use errors::BettingError;
pub use events::{BetCancelled, BetPlaced, MarketCreated, MarketResolved, Outcome, WinningsClaimed};
pub use instructions::{CancelBet, ClaimWinnings, CreateMarket, PlaceBet, ResolveMarket};
pub use pubkey::Pubkey;
pub use state::{Bet, Market};
pub use token::Transfer;

use vstd::prelude::*;

verus! {

/// Initializes the betting market of a game. It never fails.
pub fn create_market(
    ctx: &CreateMarket,
    game_id: String,
    team_a: String,
    team_b: String,
    start_time: i64,
    oracle_feed: Pubkey,
) -> (r: Result<(Market, MarketCreated), BettingError>)
    ensures
        r matches Ok((market, event)) && market == ctx.created(
            game_id,
            team_a,
            team_b,
            start_time,
            oracle_feed,
        ) && event == (MarketCreated { market: ctx.market_key, game_id, start_time }),
        r matches Ok((market, _)) && market.wf(),
{
    instructions::create_market::handler(ctx, game_id, team_a, team_b, start_time, oracle_feed)
}

/// Places a bet on a market: tests the constraints on the records, then stakes
/// `amount` on `outcome` at time `now`.
pub fn place_bet(ctx: &mut PlaceBet, now: i64, outcome: Outcome, amount: u64) -> (r: Result<
    (Transfer, BetPlaced),
    BettingError,
>)
    ensures
        match r {
            Ok((order, event)) => {
                &&& old(ctx).refusal(now, outcome, amount) is None
                &&& *final(ctx) == old(ctx).staked(outcome, amount)
                &&& order == old(ctx).deposit_order(amount)
                &&& event == old(ctx).notification(outcome, amount)
            },
            Err(e) => old(ctx).refusal(now, outcome, amount) == Some(e) && *final(ctx) == *old(
                ctx,
            ),
        },
        old(ctx).market.wf() ==> final(ctx).market.wf(),
        old(ctx).bet.wf() ==> final(ctx).bet.wf(),
{
    match ctx.validate() {
        Err(e) => Err(e),
        Ok(_) => instructions::place_bet::handler(ctx, now, outcome, amount),
    }
}

/// Resolves a market with the result of the game: tests that the caller is the
/// market's authority, then commits `winning_outcome` at time `now`.
pub fn resolve_market(ctx: &mut ResolveMarket, now: i64, winning_outcome: Outcome) -> (r: Result<
    MarketResolved,
    BettingError,
>)
    ensures
        match r {
            Ok(event) => {
                &&& old(ctx).refusal(now, winning_outcome) is None
                &&& *final(ctx) == old(ctx).resolved(now, winning_outcome)
                &&& event == old(ctx).notification(winning_outcome)
            },
            Err(e) => old(ctx).refusal(now, winning_outcome) == Some(e) && *final(ctx) == *old(
                ctx,
            ),
        },
        old(ctx).market.wf() ==> final(ctx).market.wf(),
{
    match ctx.validate() {
        Err(e) => Err(e),
        Ok(_) => instructions::resolve_market::handler(ctx, now, winning_outcome),
    }
}

/// Claims the winnings of a bet on a resolved market: tests the constraints on the
/// records, then settles the bet.
pub fn claim_winnings(ctx: &mut ClaimWinnings) -> (r: Result<
    (Transfer, WinningsClaimed),
    BettingError,
>)
    ensures
        match r {
            Ok((order, event)) => {
                &&& old(ctx).refusal() is None
                &&& *final(ctx) == old(ctx).settled()
                &&& order == old(ctx).payout_order()
                &&& event == old(ctx).notification()
            },
            Err(e) => old(ctx).refusal() == Some(e) && *final(ctx) == *old(ctx),
        },
        final(ctx).market == old(ctx).market,
        old(ctx).market.wf() && old(ctx).bet.wf() ==> final(ctx).bet.wf(),
{
    match ctx.validate() {
        Err(e) => Err(e),
        Ok(_) => instructions::claim_winnings::handler(ctx),
    }
}

/// Cancels a bet before the game starts: tests the constraints on the records,
/// then withdraws the bet at time `now`.
pub fn cancel_bet(ctx: &mut CancelBet, now: i64) -> (r: Result<
    (Transfer, BetCancelled),
    BettingError,
>)
    ensures
        match r {
            Ok((order, event)) => {
                &&& old(ctx).refusal(now) is None
                &&& *final(ctx) == old(ctx).cancelled()
                &&& order == old(ctx).refund_order()
                &&& event == old(ctx).notification()
            },
            Err(e) => old(ctx).refusal(now) == Some(e) && *final(ctx) == *old(ctx),
        },
        old(ctx).market.wf() ==> final(ctx).market.wf(),
        old(ctx).bet.wf() ==> final(ctx).bet.wf(),
{
    match ctx.validate() {
        Err(e) => Err(e),
        Ok(_) => instructions::cancel_bet::handler(ctx, now),
    }
}

} // verus!
