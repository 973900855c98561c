//! The two persistent records: one market per event, one bet per market and participant.

pub mod bet;
pub mod market;

pub use bet::Bet;
pub use market::Market;
