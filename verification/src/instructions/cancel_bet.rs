//! Cancellation: before the event is imminent, a bet is withdrawn and refunded.

use crate::errors::BettingError;
use crate::events::{BetCancelled, Outcome};
use crate::pubkey::Pubkey;
use crate::state::{Bet, Market};
use crate::token::Transfer;
use vstd::prelude::*;

verus! {

/// A bet can be cancelled until this many seconds before the event starts.
pub const CANCELLATION_BUFFER: i64 = 3600;

/// The records and identities of one cancellation.
#[derive(Clone, Debug, PartialEq, Eq)]
pub struct CancelBet {
    /// The bet that is cancelled.
    pub bet: Bet,
    /// The market that the bet is withdrawn from.
    pub market: Market,
    /// The address of `market`.
    pub market_key: Pubkey,
    /// The market's escrow account.
    pub vault: Pubkey,
    /// The caller.
    pub user: Pubkey,
    /// The caller's own account, which receives the refund.
    pub user_token_account: Pubkey,
}

impl CancelBet {
    /// Why these records may not be used together, if they may not: the bet must
    /// belong to the caller (else `Unauthorized`) and be a bet on this market
    /// (else `InvalidMarket`).
    pub open spec fn constraint_violation(self) -> Option<BettingError> {
        if self.bet.user != self.user {
            Some(BettingError::Unauthorized)
        } else if self.bet.market != self.market_key {
            Some(BettingError::InvalidMarket)
        } else {
            None
        }
    }

    /// Why a cancellation at time `now` is refused, if it is. The conditions are
    /// tested in this order: the start is more than the buffer away, the market is
    /// unresolved, the bet is unsettled, the bet has been staked, the pool of
    /// its outcome holds the bet's amount.
    pub open spec fn rejection(self, now: i64) -> Option<BettingError> {
        if !(now < self.market.start_time - CANCELLATION_BUFFER) {
            Some(BettingError::TooLateToCancel)
        } else if self.market.is_resolved {
            Some(BettingError::MarketResolved)
        } else if self.bet.claimed {
            Some(BettingError::AlreadyClaimed)
        } else if self.bet.outcome == Outcome::Pending {
            Some(BettingError::InvalidOutcome)
        } else if self.market.pool_of(self.bet.outcome) < self.bet.amount {
            Some(BettingError::Underflow)
        } else {
            None
        }
    }

    /// Why the whole instruction is refused, if it is: for a violated constraint
    /// on the records, else for what the cancellation itself is refused for.
    pub open spec fn refusal(self, now: i64) -> Option<BettingError> {
        match self.constraint_violation() {
            Some(e) => Some(e),
            None => self.rejection(now),
        }
    }

    /// The records after the cancellation: the bet holds nothing and is settled
    /// for good, and the pool of its outcome holds the bet's amount less.
    pub open spec fn cancelled(self) -> CancelBet {
        CancelBet {
            bet: Bet { amount: 0, claimed: true, ..self.bet },
            market: self.market.with_pool(
                self.bet.outcome,
                (self.market.pool_of(self.bet.outcome) - self.bet.amount) as u64,
            ),
            ..self
        }
    }

    /// The order that refunds the bet out of escrow, signed for by the market.
    pub open spec fn refund_order(self) -> Transfer {
        Transfer {
            from: self.vault,
            to: self.user_token_account,
            authority: self.market_key,
            amount: self.bet.amount,
        }
    }

    /// The notification of the cancellation.
    pub open spec fn notification(self) -> BetCancelled {
        BetCancelled { user: self.user, market: self.market_key, refund: self.bet.amount }
    }

    /// Tests that the bet belongs to the caller and is a bet on this market.
    pub fn validate(&self) -> (r: Result<(), BettingError>)
        ensures
            match r {
                Ok(_) => self.constraint_violation() is None,
                Err(e) => self.constraint_violation() == Some(e),
            },
    {
        if self.bet.user != self.user {
            Err(BettingError::Unauthorized)
        } else if self.bet.market != self.market_key {
            Err(BettingError::InvalidMarket)
        } else {
            Ok(())
        }
    }
}

/// Cancels a bet at time `now`. On success the bet's whole amount has left the bet
/// and the pool of its outcome, the bet is settled for good, and the order to refund
/// the amount out of escrow is returned together with the notification. A refused
/// cancellation changes nothing.
pub fn handler(ctx: &mut CancelBet, now: i64) -> (r: Result<(Transfer, BetCancelled), BettingError>)
    ensures
        match r {
            Ok((order, event)) => {
                &&& old(ctx).rejection(now) is None
                &&& *final(ctx) == old(ctx).cancelled()
                &&& order == old(ctx).refund_order()
                &&& event == old(ctx).notification()
            },
            Err(e) => old(ctx).rejection(now) == Some(e) && *final(ctx) == *old(ctx),
        },
        old(ctx).market.wf() ==> final(ctx).market.wf(),
        old(ctx).bet.wf() ==> final(ctx).bet.wf(),
{
    let in_time = match ctx.market.start_time.checked_sub(CANCELLATION_BUFFER) {
        Some(cutoff) => now < cutoff,
        None => false,
    };
    if !in_time {
        return Err(BettingError::TooLateToCancel);
    }
    if ctx.market.is_resolved {
        return Err(BettingError::MarketResolved);
    }
    if ctx.bet.claimed {
        return Err(BettingError::AlreadyClaimed);
    }
    if ctx.bet.outcome == Outcome::Pending {
        return Err(BettingError::InvalidOutcome);
    }
    let refund_amount = ctx.bet.amount;
    let pool = match ctx.market.pool(ctx.bet.outcome).checked_sub(refund_amount) {
        Some(rest) => rest,
        None => {
            return Err(BettingError::Underflow);
        },
    };
    ctx.market.set_pool(ctx.bet.outcome, pool);
    ctx.bet.amount = 0;
    ctx.bet.claimed = true;
    let order = Transfer {
        from: ctx.vault,
        to: ctx.user_token_account,
        authority: ctx.market_key,
        amount: refund_amount,
    };
    let event = BetCancelled { user: ctx.user, market: ctx.market_key, refund: refund_amount };
    Ok((order, event))
}

} // verus!
