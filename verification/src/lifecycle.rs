//! The order of a market's life: staking and cancelling before the event, resolution
//! after it, claims after that; a bet is settled once, and a market is resolved once.
//! Everything here is ghost code.

use crate::errors::BettingError;
use crate::events::Outcome;
use crate::instructions::cancel_bet::CANCELLATION_BUFFER;
use crate::instructions::resolve_market::COMPLETION_BUFFER;
use crate::instructions::{CancelBet, ClaimWinnings, PlaceBet, ResolveMarket};
use vstd::prelude::*;

verus! {

/// A settled bet is final: whatever else holds, every further stake on it, claim
/// of it and cancellation of it is refused, by the transition itself and so by the
/// whole instruction.
pub proof fn lemma_settled_bet_is_final(
    place: PlaceBet,
    claim: ClaimWinnings,
    cancel: CancelBet,
    now: i64,
    outcome: Outcome,
    amount: u64,
)
    ensures
        place.bet.claimed ==> place.rejection(now, outcome, amount) is Some && place.refusal(
            now,
            outcome,
            amount,
        ) is Some,
        claim.bet.claimed ==> claim.rejection() is Some && claim.refusal() is Some,
        cancel.bet.claimed ==> cancel.rejection(now) is Some && cancel.refusal(now) is Some,
{
}

/// A bet is settled at most once: a claim and a cancellation that go through
/// take an unsettled bet to a settled one, and a stake that goes through takes an
/// unsettled bet to an unsettled one. No transition takes a settled bet anywhere.
pub proof fn lemma_bet_is_settled_once(
    place: PlaceBet,
    claim: ClaimWinnings,
    cancel: CancelBet,
    now: i64,
    outcome: Outcome,
    amount: u64,
)
    ensures
        place.rejection(now, outcome, amount) is None ==> !place.bet.claimed && !place.staked(
            outcome,
            amount,
        ).bet.claimed,
        claim.rejection() is None ==> !claim.bet.claimed && claim.settled().bet.claimed,
        cancel.rejection(now) is None ==> !cancel.bet.claimed && cancel.cancelled().bet.claimed,
{
}

/// A resolution is final: on a resolved market every stake, cancellation and
/// further resolution is refused, by the transition itself and so by the whole
/// instruction, and a claim leaves the market as it is. So the result and the two
/// snapshots of a resolved market never change.
pub proof fn lemma_resolved_market_is_frozen(
    place: PlaceBet,
    resolve: ResolveMarket,
    cancel: CancelBet,
    claim: ClaimWinnings,
    now: i64,
    outcome: Outcome,
    amount: u64,
)
    ensures
        place.market.is_resolved ==> place.rejection(now, outcome, amount) is Some
            && place.refusal(now, outcome, amount) is Some,
        resolve.market.is_resolved ==> resolve.rejection(now, outcome) is Some && resolve.refusal(
            now,
            outcome,
        ) is Some,
        cancel.market.is_resolved ==> cancel.rejection(now) is Some && cancel.refusal(now) is Some,
        claim.settled().market == claim.market,
{
}

/// A resolution that goes through takes an unresolved market to a resolved one
/// whose result is the outcome that was committed.
pub proof fn lemma_market_is_resolved_once(resolve: ResolveMarket, now: i64, outcome: Outcome)
    requires
        resolve.rejection(now, outcome) is None,
    ensures
        !resolve.market.is_resolved,
        resolve.resolved(now, outcome).market.is_resolved,
        resolve.resolved(now, outcome).market.winning_outcome == outcome,
        outcome != Outcome::Pending,
{
}

/// Staking closes when the event starts: from then on every stake is refused as
/// `MarketClosed`, whatever else holds. The whole instruction is refused with it,
/// unless a constraint on the records is violated first.
pub proof fn lemma_no_stake_once_started(place: PlaceBet, now: i64, outcome: Outcome, amount: u64)
    requires
        now >= place.market.start_time,
    ensures
        place.rejection(now, outcome, amount) == Some(BettingError::MarketClosed),
        place.refusal(now, outcome, amount) is Some,
        place.constraint_violation() is None ==> place.refusal(now, outcome, amount) == Some(
            BettingError::MarketClosed,
        ),
{
}

/// Cancelling closes one buffer before the event starts: from then on every
/// cancellation is refused as `TooLateToCancel`, whatever else holds.
pub proof fn lemma_no_cancel_inside_buffer(cancel: CancelBet, now: i64)
    requires
        now >= cancel.market.start_time - CANCELLATION_BUFFER,
    ensures
        cancel.rejection(now) == Some(BettingError::TooLateToCancel),
        cancel.refusal(now) is Some,
        cancel.constraint_violation() is None ==> cancel.refusal(now) == Some(
            BettingError::TooLateToCancel,
        ),
{
}

/// Resolution opens one buffer after the event starts: until then every
/// resolution is refused as `GameNotComplete`, whatever else holds.
pub proof fn lemma_no_resolution_inside_buffer(resolve: ResolveMarket, now: i64, outcome: Outcome)
    requires
        now <= resolve.market.start_time + COMPLETION_BUFFER,
    ensures
        resolve.rejection(now, outcome) == Some(BettingError::GameNotComplete),
        resolve.refusal(now, outcome) is Some,
        resolve.constraint_violation() is None ==> resolve.refusal(now, outcome) == Some(
            BettingError::GameNotComplete,
        ),
{
}

/// The windows do not meet: no moment admits both a stake and a resolution of the
/// same market, nor both a cancellation and a resolution.
pub proof fn lemma_windows_are_disjoint(
    place: PlaceBet,
    cancel: CancelBet,
    resolve: ResolveMarket,
    now: i64,
    outcome: Outcome,
    amount: u64,
    winning_outcome: Outcome,
)
    requires
        place.market.start_time == resolve.market.start_time,
        cancel.market.start_time == resolve.market.start_time,
        resolve.rejection(now, winning_outcome) is None,
    ensures
        place.rejection(now, outcome, amount) == Some(BettingError::MarketClosed),
        cancel.rejection(now) == Some(BettingError::TooLateToCancel),
{
}

/// A bet on an outcome that did not win earns nothing: the claim of an unsettled
/// bet on a resolved market is refused as `NotWinner`, whatever its amount.
pub proof fn lemma_loser_cannot_claim(claim: ClaimWinnings)
    requires
        claim.market.is_resolved,
        !claim.bet.claimed,
        claim.bet.outcome != claim.market.winning_outcome,
    ensures
        claim.rejection() == Some(BettingError::NotWinner),
        claim.refusal() is Some,
        claim.constraint_violation() is None ==> claim.refusal() == Some(BettingError::NotWinner),
{
}

/// Where nobody staked on the winning outcome, nobody is paid: every claim is
/// refused, and the claim of an unsettled bet on the winning outcome is refused as
/// `NoWinningPool`.
pub proof fn lemma_empty_winning_pool_pays_nobody(claim: ClaimWinnings)
    requires
        claim.market.is_resolved,
        claim.market.winning_pool == 0,
    ensures
        claim.rejection() is Some,
        claim.refusal() is Some,
        !claim.bet.claimed && claim.bet.outcome == claim.market.winning_outcome
            ==> claim.rejection() == Some(BettingError::NoWinningPool),
{
}

} // verus!
