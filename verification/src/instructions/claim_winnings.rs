//! Claim settlement: a winning bet is paid its share of the pool, once.

use crate::errors::BettingError;
use crate::events::WinningsClaimed;
use crate::payout::{compute_winnings, winnings_of};
use crate::pubkey::Pubkey;
use crate::state::{Bet, Market};
use crate::token::Transfer;
use vstd::prelude::*;

verus! {

/// The records and identities of one claim.
#[derive(Clone, Debug, PartialEq, Eq)]
pub struct ClaimWinnings {
    /// The bet that is claimed.
    pub bet: Bet,
    /// The market that the claim is made on.
    pub market: Market,
    /// The address of `market`.
    pub market_key: Pubkey,
    /// The market's escrow account.
    pub vault: Pubkey,
    /// The caller.
    pub user: Pubkey,
    /// The caller's own account, which receives the winnings.
    pub user_token_account: Pubkey,
}

impl ClaimWinnings {
    /// Why these records may not be used together, if they may not: the bet must
    /// be a bet on this market (else `InvalidMarket`) and belong to the caller
    /// (else `Unauthorized`).
    pub open spec fn constraint_violation(self) -> Option<BettingError> {
        if self.market_key != self.bet.market {
            Some(BettingError::InvalidMarket)
        } else if self.bet.user != self.user {
            Some(BettingError::Unauthorized)
        } else {
            None
        }
    }

    /// Why the claim is refused, if it is. The conditions are tested in this
    /// order: the market is resolved, the bet is unsettled, the bet is on the
    /// winning outcome, somebody staked on that outcome, the payout fits.
    pub open spec fn rejection(self) -> Option<BettingError> {
        if !self.market.is_resolved {
            Some(BettingError::MarketNotResolved)
        } else if self.bet.claimed {
            Some(BettingError::AlreadyClaimed)
        } else if self.bet.outcome != self.market.winning_outcome {
            Some(BettingError::NotWinner)
        } else {
            match winnings_of(
                self.bet.amount,
                self.market.total_payout_pool,
                self.market.winning_pool,
            ) {
                Err(e) => Some(e),
                Ok(_) => None,
            }
        }
    }

    /// Why the whole instruction is refused, if it is: for a violated constraint
    /// on the records, else for what the claim itself is refused for.
    pub open spec fn refusal(self) -> Option<BettingError> {
        match self.constraint_violation() {
            Some(e) => Some(e),
            None => self.rejection(),
        }
    }

    /// What the claim pays out, where it is not refused.
    pub open spec fn winnings(self) -> u64 {
        winnings_of(
            self.bet.amount,
            self.market.total_payout_pool,
            self.market.winning_pool,
        )->Ok_0
    }

    /// The records after the claim: the bet is settled and remembers what it
    /// was paid; nothing else changes.
    pub open spec fn settled(self) -> ClaimWinnings {
        ClaimWinnings {
            bet: Bet { claimed: true, winnings: self.winnings(), ..self.bet },
            ..self
        }
    }

    /// The order that pays the winnings out of escrow, signed for by the market.
    pub open spec fn payout_order(self) -> Transfer {
        Transfer {
            from: self.vault,
            to: self.user_token_account,
            authority: self.market_key,
            amount: self.winnings(),
        }
    }

    /// The notification of the claim.
    pub open spec fn notification(self) -> WinningsClaimed {
        WinningsClaimed { user: self.user, market: self.market_key, amount: self.winnings() }
    }

    /// Tests that the bet is a bet on this market and belongs to the caller.
    pub fn validate(&self) -> (r: Result<(), BettingError>)
        ensures
            match r {
                Ok(_) => self.constraint_violation() is None,
                Err(e) => self.constraint_violation() == Some(e),
            },
    {
        if self.market_key != self.bet.market {
            Err(BettingError::InvalidMarket)
        } else if self.bet.user != self.user {
            Err(BettingError::Unauthorized)
        } else {
            Ok(())
        }
    }
}

/// Settles a winning bet. On success the bet is marked as settled with what it was
/// paid, and the order to pay it out of escrow is returned together with the
/// notification. A refused claim changes nothing.
pub fn handler(ctx: &mut ClaimWinnings) -> (r: Result<(Transfer, WinningsClaimed), BettingError>)
    ensures
        match r {
            Ok((order, event)) => {
                &&& old(ctx).rejection() is None
                &&& *final(ctx) == old(ctx).settled()
                &&& order == old(ctx).payout_order()
                &&& event == old(ctx).notification()
            },
            Err(e) => old(ctx).rejection() == Some(e) && *final(ctx) == *old(ctx),
        },
        final(ctx).market == old(ctx).market,
        old(ctx).market.wf() && old(ctx).bet.wf() ==> final(ctx).bet.wf(),
{
    if !ctx.market.is_resolved {
        return Err(BettingError::MarketNotResolved);
    }
    if ctx.bet.claimed {
        return Err(BettingError::AlreadyClaimed);
    }
    if ctx.bet.outcome != ctx.market.winning_outcome {
        return Err(BettingError::NotWinner);
    }
    let winnings = match compute_winnings(
        ctx.bet.amount,
        ctx.market.total_payout_pool,
        ctx.market.winning_pool,
    ) {
        Ok(winnings) => winnings,
        Err(e) => {
            return Err(e);
        },
    };
    ctx.bet.claimed = true;
    ctx.bet.winnings = winnings;
    let order = Transfer {
        from: ctx.vault,
        to: ctx.user_token_account,
        authority: ctx.market_key,
        amount: winnings,
    };
    let event = WinningsClaimed { user: ctx.user, market: ctx.market_key, amount: winnings };
    Ok((order, event))
}

} // verus!
