//! Outcomes, and the notifications that successful transitions hand to observers.

use crate::pubkey::Pubkey;
use vstd::prelude::*;

verus! {

/// The mutually exclusive results of an event, and the sentinel for "not decided yet".
#[derive(Clone, Copy, Debug, PartialEq, Eq, Structural)]
pub enum Outcome {
    /// No result yet: the state of an unresolved market and of a bet that holds no stake.
    Pending,
    /// The first side wins.
    TeamA,
    /// The second side wins.
    TeamB,
    /// Neither side wins.
    Draw,
}

/// A market was created.
#[derive(Clone, Debug, PartialEq, Eq)]
pub struct MarketCreated {
    pub market: Pubkey,
    pub game_id: String,
    pub start_time: i64,
}

/// A stake was added to a bet.
#[derive(Clone, Copy, Debug, PartialEq, Eq)]
pub struct BetPlaced {
    pub user: Pubkey,
    pub market: Pubkey,
    pub outcome: Outcome,
    pub amount: u64,
}

/// A market was resolved.
#[derive(Clone, Copy, Debug, PartialEq, Eq)]
pub struct MarketResolved {
    pub market: Pubkey,
    pub winning_outcome: Outcome,
    pub total_pool: u64,
}

/// A winning bet was paid out.
#[derive(Clone, Copy, Debug, PartialEq, Eq)]
pub struct WinningsClaimed {
    pub user: Pubkey,
    pub market: Pubkey,
    pub amount: u64,
}

/// A bet was cancelled and its stake refunded.
#[derive(Clone, Copy, Debug, PartialEq, Eq)]
pub struct BetCancelled {
    pub user: Pubkey,
    pub market: Pubkey,
    pub refund: u64,
}

} // verus!
