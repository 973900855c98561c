//! The typed failures of the wagering state machine.

use vstd::prelude::*;

verus! {

/// Why a transition was refused. A refused transition changes nothing.
#[derive(Clone, Copy, Debug, PartialEq, Eq, Structural)]
pub enum BettingError {
    /// Staking was attempted at or after the event's start.
    MarketClosed,
    /// Staking or cancelling was attempted on a resolved market.
    MarketResolved,
    /// The outcome is the unresolved sentinel, or differs from the one a bet is locked to.
    InvalidOutcome,
    /// A result does not fit the amount type.
    Overflow,
    /// A pool holds less than is taken from it.
    Underflow,
    /// Resolution was attempted before the completion buffer has passed.
    GameNotComplete,
    /// Resolution was attempted twice.
    AlreadyResolved,
    /// A claim was attempted on an unresolved market.
    MarketNotResolved,
    /// The bet has been settled before, by a claim or by a cancellation.
    AlreadyClaimed,
    /// The bet is staked on an outcome that did not win.
    NotWinner,
    /// Nobody staked on the winning outcome.
    NoWinningPool,
    /// Cancelling was attempted inside the cancellation buffer.
    TooLateToCancel,
    /// The caller is not the identity that the record names.
    Unauthorized,
    /// The bet belongs to another market.
    InvalidMarket,
}

impl BettingError {
    /// The text of the human-readable message, as a sequence of characters.
    pub open spec fn message_spec(self) -> Seq<char> {
        match self {
            BettingError::MarketClosed => "Market is closed for betting"@,
            BettingError::MarketResolved => "Market already resolved"@,
            BettingError::InvalidOutcome => "Invalid outcome"@,
            BettingError::Overflow => "Overflow error"@,
            BettingError::Underflow => "Underflow error"@,
            BettingError::GameNotComplete => "Game not complete"@,
            BettingError::AlreadyResolved => "Already resolved"@,
            BettingError::MarketNotResolved => "Market not resolved"@,
            BettingError::AlreadyClaimed => "Already claimed"@,
            BettingError::NotWinner => "Not a winner"@,
            BettingError::NoWinningPool => "No winning pool"@,
            BettingError::TooLateToCancel => "Too late to cancel"@,
            BettingError::Unauthorized => "Unauthorized"@,
            BettingError::InvalidMarket => "Invalid market"@,
        }
    }

    /// The human-readable message of this failure.
    pub fn message(&self) -> (msg: &'static str)
        ensures
            msg@ == self.message_spec(),
    {
        match self {
            BettingError::MarketClosed => "Market is closed for betting",
            BettingError::MarketResolved => "Market already resolved",
            BettingError::InvalidOutcome => "Invalid outcome",
            BettingError::Overflow => "Overflow error",
            BettingError::Underflow => "Underflow error",
            BettingError::GameNotComplete => "Game not complete",
            BettingError::AlreadyResolved => "Already resolved",
            BettingError::MarketNotResolved => "Market not resolved",
            BettingError::AlreadyClaimed => "Already claimed",
            BettingError::NotWinner => "Not a winner",
            BettingError::NoWinningPool => "No winning pool",
            BettingError::TooLateToCancel => "Too late to cancel",
            BettingError::Unauthorized => "Unauthorized",
            BettingError::InvalidMarket => "Invalid market",
        }
    }
}

} // verus!
