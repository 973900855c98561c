//! Stake placement: value is added to a bet and to the pool of its outcome.

use crate::errors::BettingError;
use crate::events::{BetPlaced, Outcome};
use crate::pubkey::Pubkey;
use crate::state::{Bet, Market};
use crate::token::Transfer;
use vstd::prelude::*;

verus! {

/// The records and identities of one stake.
#[derive(Clone, Debug, PartialEq, Eq)]
pub struct PlaceBet {
    /// The caller's bet on this market: a blank record before the first stake.
    pub bet: Bet,
    /// The market that is staked on.
    pub market: Market,
    /// The address of `market`.
    pub market_key: Pubkey,
    /// The market's escrow account.
    pub vault: Pubkey,
    /// The caller.
    pub user: Pubkey,
    /// The caller's own account, which pays the stake.
    pub user_token_account: Pubkey,
    /// Address bump of the bet record.
    pub bet_bump: u8,
}

impl PlaceBet {
    /// Why these records may not be used together, if they may not: a bet that
    /// has been staked before must be a bet on this market (else `InvalidMarket`)
    /// and belong to the caller (else `Unauthorized`). A bet without a first
    /// stake belongs to nobody yet.
    pub open spec fn constraint_violation(self) -> Option<BettingError> {
        if self.bet.is_staked() && self.bet.market != self.market_key {
            Some(BettingError::InvalidMarket)
        } else if self.bet.is_staked() && self.bet.user != self.user {
            Some(BettingError::Unauthorized)
        } else {
            None
        }
    }

    /// Why a stake of `amount` on `outcome` at time `now` is refused, if it is.
    /// The conditions are tested in this order: the event has not started, the
    /// market is unresolved, the outcome can be staked on, the bet is unsettled,
    /// the bet is not locked to another outcome, the bet's amount fits, the
    /// pool's total fits.
    pub open spec fn rejection(self, now: i64, outcome: Outcome, amount: u64) -> Option<
        BettingError,
    > {
        if now >= self.market.start_time {
            Some(BettingError::MarketClosed)
        } else if self.market.is_resolved {
            Some(BettingError::MarketResolved)
        } else if outcome == Outcome::Pending {
            Some(BettingError::InvalidOutcome)
        } else if self.bet.claimed {
            Some(BettingError::AlreadyClaimed)
        } else if self.bet.is_staked() && self.bet.outcome != outcome {
            Some(BettingError::InvalidOutcome)
        } else if self.bet.amount + amount > u64::MAX {
            Some(BettingError::Overflow)
        } else if self.market.pool_of(outcome) + amount > u64::MAX {
            Some(BettingError::Overflow)
        } else {
            None
        }
    }

    /// The same records, with `market` in the market's place.
    pub open spec fn on(self, market: Market) -> PlaceBet {
        PlaceBet { market, ..self }
    }

    /// Why the whole instruction is refused, if it is: for a violated constraint
    /// on the records, else for what the stake itself is refused for.
    pub open spec fn refusal(self, now: i64, outcome: Outcome, amount: u64) -> Option<
        BettingError,
    > {
        match self.constraint_violation() {
            Some(e) => Some(e),
            None => self.rejection(now, outcome, amount),
        }
    }

    /// The records after a stake of `amount` on `outcome`: the bet names its owner,
    /// market and outcome and holds `amount` more, and so does the outcome's pool.
    pub open spec fn staked(self, outcome: Outcome, amount: u64) -> PlaceBet {
        PlaceBet {
            bet: Bet {
                user: self.user,
                market: self.market_key,
                outcome,
                amount: (self.bet.amount + amount) as u64,
                claimed: false,
                winnings: 0,
                bet_bump: self.bet_bump,
            },
            market: self.market.with_pool(
                outcome,
                (self.market.pool_of(outcome) + amount) as u64,
            ),
            ..self
        }
    }

    /// The order that pays the stake into escrow, signed for by the caller.
    pub open spec fn deposit_order(self, amount: u64) -> Transfer {
        Transfer {
            from: self.user_token_account,
            to: self.vault,
            authority: self.user,
            amount,
        }
    }

    /// The notification of the stake.
    pub open spec fn notification(self, outcome: Outcome, amount: u64) -> BetPlaced {
        BetPlaced { user: self.user, market: self.market_key, outcome, amount }
    }

    /// Tests that a bet with an earlier stake is a bet on this market and belongs
    /// to the caller.
    pub fn validate(&self) -> (r: Result<(), BettingError>)
        ensures
            match r {
                Ok(_) => self.constraint_violation() is None,
                Err(e) => self.constraint_violation() == Some(e),
            },
    {
        if self.bet.outcome == Outcome::Pending {
            Ok(())
        } else if self.bet.market != self.market_key {
            Err(BettingError::InvalidMarket)
        } else if self.bet.user != self.user {
            Err(BettingError::Unauthorized)
        } else {
            Ok(())
        }
    }
}

/// Stakes `amount` on `outcome` at time `now`. On success the bet and the pool of
/// the outcome have grown by `amount`, and the order to pay the stake into escrow
/// is returned together with the notification. A refused stake changes nothing.
pub fn handler(ctx: &mut PlaceBet, now: i64, outcome: Outcome, amount: u64) -> (r: Result<
    (Transfer, BetPlaced),
    BettingError,
>)
    ensures
        match r {
            Ok((order, event)) => {
                &&& old(ctx).rejection(now, outcome, amount) is None
                &&& *final(ctx) == old(ctx).staked(outcome, amount)
                &&& order == old(ctx).deposit_order(amount)
                &&& event == old(ctx).notification(outcome, amount)
            },
            Err(e) => old(ctx).rejection(now, outcome, amount) == Some(e) && *final(ctx) == *old(
                ctx,
            ),
        },
        old(ctx).market.wf() ==> final(ctx).market.wf(),
        old(ctx).bet.wf() ==> final(ctx).bet.wf(),
{
    if now >= ctx.market.start_time {
        return Err(BettingError::MarketClosed);
    }
    if ctx.market.is_resolved {
        return Err(BettingError::MarketResolved);
    }
    if outcome == Outcome::Pending {
        return Err(BettingError::InvalidOutcome);
    }
    if ctx.bet.claimed {
        return Err(BettingError::AlreadyClaimed);
    }
    if ctx.bet.outcome != Outcome::Pending && ctx.bet.outcome != outcome {
        return Err(BettingError::InvalidOutcome);
    }
    let bet_amount = match ctx.bet.amount.checked_add(amount) {
        Some(sum) => sum,
        None => {
            return Err(BettingError::Overflow);
        },
    };
    let pool = match ctx.market.pool(outcome).checked_add(amount) {
        Some(sum) => sum,
        None => {
            return Err(BettingError::Overflow);
        },
    };
    ctx.bet.user = ctx.user;
    ctx.bet.market = ctx.market_key;
    ctx.bet.outcome = outcome;
    ctx.bet.amount = bet_amount;
    ctx.bet.claimed = false;
    ctx.bet.winnings = 0;
    ctx.bet.bet_bump = ctx.bet_bump;
    ctx.market.set_pool(outcome, pool);
    let order = Transfer {
        from: ctx.user_token_account,
        to: ctx.vault,
        authority: ctx.user,
        amount,
    };
    let event = BetPlaced { user: ctx.user, market: ctx.market_key, outcome, amount };
    Ok((order, event))
}

} // verus!
