//! The five transitions of the state machine, each with the records it works on.

pub mod cancel_bet;
pub mod claim_winnings;
pub mod create_market;
pub mod place_bet;
pub mod resolve_market;

pub use cancel_bet::CancelBet;
pub use claim_winnings::ClaimWinnings;
pub use create_market::CreateMarket;
pub use place_bet::PlaceBet;
pub use resolve_market::ResolveMarket;
