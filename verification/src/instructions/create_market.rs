//! Market creation: a new market opens with empty pools.

use crate::errors::BettingError;
use crate::events::{MarketCreated, Outcome};
use crate::pubkey::Pubkey;
use crate::state::Market;
use vstd::prelude::*;

verus! {

/// The identities of one market creation.
#[derive(Clone, Copy, Debug, PartialEq, Eq)]
pub struct CreateMarket {
    /// The address under which the new market is kept.
    pub market_key: Pubkey,
    /// The creator, who becomes the market's authority.
    pub authority: Pubkey,
    /// Address bump of the market record.
    pub market_bump: u8,
    /// Address bump of the market's escrow account.
    pub vault_bump: u8,
}

impl CreateMarket {
    /// The market that is created: open, with empty pools and no result.
    pub open spec fn created(
        self,
        game_id: String,
        team_a: String,
        team_b: String,
        start_time: i64,
        oracle_feed: Pubkey,
    ) -> Market {
        Market {
            authority: self.authority,
            game_id,
            team_a,
            team_b,
            start_time,
            oracle_feed,
            total_pool_a: 0,
            total_pool_b: 0,
            total_pool_draw: 0,
            is_resolved: false,
            winning_outcome: Outcome::Pending,
            resolved_at: 0,
            total_payout_pool: 0,
            winning_pool: 0,
            market_bump: self.market_bump,
            vault_bump: self.vault_bump,
        }
    }
}

/// Creates the market of the event `game_id`. It never fails: the new market and
/// the notification are returned.
pub fn handler(
    ctx: &CreateMarket,
    game_id: String,
    team_a: String,
    team_b: String,
    start_time: i64,
    oracle_feed: Pubkey,
) -> (r: Result<(Market, MarketCreated), BettingError>)
    ensures
        r matches Ok((market, event)) && market == ctx.created(
            game_id,
            team_a,
            team_b,
            start_time,
            oracle_feed,
        ) && event == (MarketCreated { market: ctx.market_key, game_id, start_time }),
        r matches Ok((market, _)) && market.wf(),
{
    let event = MarketCreated { market: ctx.market_key, game_id: game_id.clone(), start_time };
    let market = Market {
        authority: ctx.authority,
        game_id,
        team_a,
        team_b,
        start_time,
        oracle_feed,
        total_pool_a: 0,
        total_pool_b: 0,
        total_pool_draw: 0,
        is_resolved: false,
        winning_outcome: Outcome::Pending,
        resolved_at: 0,
        total_payout_pool: 0,
        winning_pool: 0,
        market_bump: ctx.market_bump,
        vault_bump: ctx.vault_bump,
    };
    Ok((market, event))
}

} // verus!
