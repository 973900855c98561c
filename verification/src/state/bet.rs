//! The stake of one participant on one market.

use crate::events::Outcome;
use crate::pubkey::Pubkey;
use vstd::prelude::*;

verus! {

/// The cumulative stake of one participant on one market, and how it was settled.
#[derive(Clone, Copy, Debug, PartialEq, Eq)]
pub struct Bet {
    /// The participant who owns the bet.
    pub user: Pubkey,
    /// The market that the bet is placed on.
    pub market: Pubkey,
    /// The outcome that the bet is staked on: `Pending` until the first stake.
    pub outcome: Outcome,
    /// The sum of all stakes; zero once cancelled.
    pub amount: u64,
    /// Whether the bet has been settled, by a claim or by a cancellation.
    pub claimed: bool,
    /// What a claim paid out; zero until then.
    pub winnings: u64,
    /// Address bump of the bet record.
    pub bet_bump: u8,
}

impl Bet {
    /// Bytes that a stored bet occupies: an 8-byte tag, then the fields.
    pub const LEN: usize = 8 + 32 + 32 + 1 + 8 + 1 + 8 + 1;

    /// The record of a bet that has not been staked yet: every field zero.
    pub open spec fn is_blank(self) -> bool {
        &&& self.user.is_zero()
        &&& self.market.is_zero()
        &&& self.outcome == Outcome::Pending
        &&& self.amount == 0
        &&& !self.claimed
        &&& self.winnings == 0
        &&& self.bet_bump == 0
    }

    /// Whether a first stake has fixed the bet's owner, market and outcome.
    pub open spec fn is_staked(self) -> bool {
        self.outcome != Outcome::Pending
    }

    /// What the bet has staked on `outcome`: its amount, or nothing where it is
    /// staked on another outcome.
    pub open spec fn stake_on(self, outcome: Outcome) -> int {
        if self.outcome == outcome {
            self.amount as int
        } else {
            0
        }
    }

    /// The invariant of a bet: a bet without a first stake holds nothing and is
    /// unsettled, and an unsettled bet has been paid nothing.
    pub open spec fn wf(self) -> bool {
        &&& !self.is_staked() ==> self.amount == 0 && !self.claimed
        &&& !self.claimed ==> self.winnings == 0
    }
}

impl Default for Bet {
    /// The blank record that a first stake is written into.
    fn default() -> (bet: Bet)
        ensures
            bet.is_blank(),
            bet.wf(),
    {
        Bet {
            user: Pubkey::default(),
            market: Pubkey::default(),
            outcome: Outcome::Pending,
            amount: 0,
            claimed: false,
            winnings: 0,
            bet_bump: 0,
        }
    }
}

} // verus!
