//! The wagering pool of one event.

use crate::events::Outcome;
use crate::pubkey::Pubkey;
use vstd::prelude::*;

verus! {

/// The wagering pool of one event: what is staked on each outcome, and how the
/// event was resolved.
#[derive(Clone, Debug, PartialEq, Eq)]
pub struct Market {
    /// The identity that may resolve the market.
    pub authority: Pubkey,
    /// The external identifier of the event.
    pub game_id: String,
    /// Display label of the first side.
    pub team_a: String,
    /// Display label of the second side.
    pub team_b: String,
    /// When the event starts, in seconds.
    pub start_time: i64,
    /// Advisory reference to the source of the result.
    pub oracle_feed: Pubkey,
    /// What is staked on the first side.
    pub total_pool_a: u64,
    /// What is staked on the second side.
    pub total_pool_b: u64,
    /// What is staked on a draw.
    pub total_pool_draw: u64,
    /// Whether the market has been resolved.
    pub is_resolved: bool,
    /// The result: `Pending` until the market is resolved.
    pub winning_outcome: Outcome,
    /// When the market was resolved, in seconds.
    pub resolved_at: i64,
    /// The sum of the three pools when the market was resolved.
    pub total_payout_pool: u64,
    /// The pool of the winning outcome when the market was resolved.
    pub winning_pool: u64,
    /// Address bump of the market record.
    pub market_bump: u8,
    /// Address bump of the market's escrow account.
    pub vault_bump: u8,
}

impl Market {
    /// Bytes that a stored market occupies: an 8-byte tag, then the fields, each
    /// string with a 4-byte length and at most 60 bytes of text.
    pub const LEN: usize = 8 + 32 + 64 + 64 + 64 + 8 + 32 + 8 + 8 + 8 + 1 + 1 + 8 + 8 + 8 + 1 + 1;

    /// What is staked on `outcome`; nothing can be staked on `Pending`.
    pub open spec fn pool_of(self, outcome: Outcome) -> int {
        match outcome {
            Outcome::TeamA => self.total_pool_a as int,
            Outcome::TeamB => self.total_pool_b as int,
            Outcome::Draw => self.total_pool_draw as int,
            Outcome::Pending => 0,
        }
    }

    /// What is staked on all three outcomes together.
    pub open spec fn pool_total(self) -> int {
        self.total_pool_a + self.total_pool_b + self.total_pool_draw
    }

    /// This market with the pool of `outcome` set to `value`; unchanged for `Pending`.
    pub open spec fn with_pool(self, outcome: Outcome, value: u64) -> Market {
        match outcome {
            Outcome::TeamA => Market { total_pool_a: value, ..self },
            Outcome::TeamB => Market { total_pool_b: value, ..self },
            Outcome::Draw => Market { total_pool_draw: value, ..self },
            Outcome::Pending => self,
        }
    }

    /// The invariant of a market: it has a result exactly when it is resolved; until
    /// then the resolution fields are zero; from then on the two snapshots agree
    /// with the pools, which no longer move.
    pub open spec fn wf(self) -> bool {
        &&& self.is_resolved <==> self.winning_outcome != Outcome::Pending
        &&& !self.is_resolved ==> self.resolved_at == 0 && self.total_payout_pool == 0
            && self.winning_pool == 0
        &&& self.is_resolved ==> self.total_payout_pool == self.pool_total() && self.winning_pool
            == self.pool_of(self.winning_outcome)
    }

    /// What is staked on `outcome`.
    pub fn pool(&self, outcome: Outcome) -> (staked: u64)
        ensures
            staked == self.pool_of(outcome),
    {
        match outcome {
            Outcome::TeamA => self.total_pool_a,
            Outcome::TeamB => self.total_pool_b,
            Outcome::Draw => self.total_pool_draw,
            Outcome::Pending => 0,
        }
    }

    /// Sets the pool of `outcome` to `value`.
    pub fn set_pool(&mut self, outcome: Outcome, value: u64)
        ensures
            *final(self) == old(self).with_pool(outcome, value),
    {
        match outcome {
            Outcome::TeamA => {
                self.total_pool_a = value;
            },
            Outcome::TeamB => {
                self.total_pool_b = value;
            },
            Outcome::Draw => {
                self.total_pool_draw = value;
            },
            Outcome::Pending => {},
        }
    }
}

} // verus!
