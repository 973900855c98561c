//! Resolution: the authority commits the result, once, and the totals are frozen.

use crate::errors::BettingError;
use crate::events::{MarketResolved, Outcome};
use crate::pubkey::Pubkey;
use crate::state::Market;
use vstd::prelude::*;

verus! {

/// A market can be resolved once this many seconds have passed since the event started.
pub const COMPLETION_BUFFER: i64 = 10800;

/// The records and identities of one resolution.
#[derive(Clone, Debug, PartialEq, Eq)]
pub struct ResolveMarket {
    /// The market that is resolved.
    pub market: Market,
    /// The address of `market`.
    pub market_key: Pubkey,
    /// The caller.
    pub resolver: Pubkey,
}

impl ResolveMarket {
    /// Why these records may not be used together, if they may not: the caller
    /// must be the market's authority (else `Unauthorized`).
    pub open spec fn constraint_violation(self) -> Option<BettingError> {
        if self.market.authority != self.resolver {
            Some(BettingError::Unauthorized)
        } else {
            None
        }
    }

    /// Why a resolution with `winning_outcome` at time `now` is refused, if it is.
    /// The conditions are tested in this order: the completion buffer has passed,
    /// the market is unresolved, the outcome is a result, the sum of the pools fits.
    pub open spec fn rejection(self, now: i64, winning_outcome: Outcome) -> Option<BettingError> {
        if !(now > self.market.start_time + COMPLETION_BUFFER) {
            Some(BettingError::GameNotComplete)
        } else if self.market.is_resolved {
            Some(BettingError::AlreadyResolved)
        } else if winning_outcome == Outcome::Pending {
            Some(BettingError::InvalidOutcome)
        } else if self.market.pool_total() > u64::MAX {
            Some(BettingError::Overflow)
        } else {
            None
        }
    }

    /// Why the whole instruction is refused, if it is: for a violated constraint
    /// on the records, else for what the resolution itself is refused for.
    pub open spec fn refusal(self, now: i64, winning_outcome: Outcome) -> Option<BettingError> {
        match self.constraint_violation() {
            Some(e) => Some(e),
            None => self.rejection(now, winning_outcome),
        }
    }

    /// The records after the resolution: the market holds the result, the time,
    /// the sum of its pools and the pool of the winning outcome.
    pub open spec fn resolved(self, now: i64, winning_outcome: Outcome) -> ResolveMarket {
        ResolveMarket {
            market: Market {
                is_resolved: true,
                winning_outcome,
                resolved_at: now,
                total_payout_pool: self.market.pool_total() as u64,
                winning_pool: self.market.pool_of(winning_outcome) as u64,
                ..self.market
            },
            ..self
        }
    }

    /// The notification of the resolution.
    pub open spec fn notification(self, winning_outcome: Outcome) -> MarketResolved {
        MarketResolved {
            market: self.market_key,
            winning_outcome,
            total_pool: self.market.pool_total() as u64,
        }
    }

    /// Tests that the caller is the market's authority.
    pub fn validate(&self) -> (r: Result<(), BettingError>)
        ensures
            match r {
                Ok(_) => self.constraint_violation() is None,
                Err(e) => self.constraint_violation() == Some(e),
            },
    {
        if self.market.authority != self.resolver {
            Err(BettingError::Unauthorized)
        } else {
            Ok(())
        }
    }
}

/// Resolves the market with `winning_outcome` at time `now`. On success the market
/// holds the result and the two snapshots that every later payout is computed from,
/// and the notification is returned. A refused resolution changes nothing.
pub fn handler(ctx: &mut ResolveMarket, now: i64, winning_outcome: Outcome) -> (r: Result<
    MarketResolved,
    BettingError,
>)
    ensures
        match r {
            Ok(event) => {
                &&& old(ctx).rejection(now, winning_outcome) is None
                &&& *final(ctx) == old(ctx).resolved(now, winning_outcome)
                &&& event == old(ctx).notification(winning_outcome)
            },
            Err(e) => old(ctx).rejection(now, winning_outcome) == Some(e) && *final(ctx) == *old(
                ctx,
            ),
        },
        old(ctx).market.wf() ==> final(ctx).market.wf(),
{
    let complete = match ctx.market.start_time.checked_add(COMPLETION_BUFFER) {
        Some(earliest) => now > earliest,
        None => false,
    };
    if !complete {
        return Err(BettingError::GameNotComplete);
    }
    if ctx.market.is_resolved {
        return Err(BettingError::AlreadyResolved);
    }
    if winning_outcome == Outcome::Pending {
        return Err(BettingError::InvalidOutcome);
    }
    let sides = match ctx.market.total_pool_a.checked_add(ctx.market.total_pool_b) {
        Some(sum) => sum,
        None => {
            return Err(BettingError::Overflow);
        },
    };
    let total_pool = match sides.checked_add(ctx.market.total_pool_draw) {
        Some(sum) => sum,
        None => {
            return Err(BettingError::Overflow);
        },
    };
    let winning_pool = ctx.market.pool(winning_outcome);
    ctx.market.is_resolved = true;
    ctx.market.winning_outcome = winning_outcome;
    ctx.market.resolved_at = now;
    ctx.market.total_payout_pool = total_pool;
    ctx.market.winning_pool = winning_pool;
    Ok(MarketResolved { market: ctx.market_key, winning_outcome, total_pool })
}

} // verus!
