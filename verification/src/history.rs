//! Whole histories of a market: what holds after any sequence of instructions.
//!
//! Everything here is ghost code. A ledger is a market with all bets on it, each
//! participant's bet in a slot of its own. An instruction names the slot it works
//! on and carries what its caller supplies; an instruction that is refused leaves
//! the ledger as it is.

use crate::events::Outcome;
use crate::instructions::{CancelBet, ClaimWinnings, CreateMarket, PlaceBet, ResolveMarket};
use crate::ledger::{
    conserved, lemma_cancel_bet_sound, lemma_claim_winnings_sound, lemma_create_market_sound,
    lemma_nothing_paid_at_all, lemma_nothing_paid_before_resolution, lemma_paid_out_update,
    lemma_paid_out_within_pool, lemma_place_bet_sound, lemma_pools_hold_total_staked,
    lemma_resolve_market_sound, lemma_unstaked_bet_sound, paid_out, sound, total_staked,
};
use crate::pubkey::Pubkey;
use crate::state::{Bet, Market};
use vstd::prelude::*;

verus! {

/// A market, its address, all bets on it, and what its escrow account holds if
/// the custodian has carried out every order so far.
pub struct Ledger {
    pub market_key: Pubkey,
    pub market: Market,
    pub bets: Seq<Bet>,
    pub escrow: int,
}

/// One call of the state machine on a ledger, with what its caller supplies.
pub enum Instruction {
    /// A blank bet record is allotted to a new participant, in a new last slot.
    OpenBet { bet: Bet },
    /// The caller `user` stakes `amount` on `outcome`, on the bet in `slot`.
    PlaceBet {
        slot: int,
        vault: Pubkey,
        user: Pubkey,
        user_token_account: Pubkey,
        bet_bump: u8,
        now: i64,
        outcome: Outcome,
        amount: u64,
    },
    /// The caller `resolver` commits `winning_outcome`.
    ResolveMarket { resolver: Pubkey, now: i64, winning_outcome: Outcome },
    /// The caller `user` claims the bet in `slot`.
    ClaimWinnings { slot: int, vault: Pubkey, user: Pubkey, user_token_account: Pubkey },
    /// The caller `user` cancels the bet in `slot`.
    CancelBet { slot: int, vault: Pubkey, user: Pubkey, user_token_account: Pubkey, now: i64 },
}

impl Ledger {
    /// The ledger of a market that was just created: it has no bets.
    pub open spec fn created(
        ctx: CreateMarket,
        game_id: String,
        team_a: String,
        team_b: String,
        start_time: i64,
        oracle_feed: Pubkey,
    ) -> Ledger {
        Ledger {
            market_key: ctx.market_key,
            market: ctx.created(game_id, team_a, team_b, start_time, oracle_feed),
            bets: Seq::empty(),
            escrow: 0,
        }
    }

    /// The invariant of a ledger holds of this one, and the escrow account holds
    /// what the pools hold less what has been paid out.
    pub open spec fn is_sound(self) -> bool {
        &&& sound(self.market, self.bets)
        &&& self.escrow == self.market.pool_total() - paid_out(self.bets)
    }

    /// The records that a stake on the bet in `slot` works on.
    pub open spec fn place_bet_ctx(
        self,
        slot: int,
        vault: Pubkey,
        user: Pubkey,
        user_token_account: Pubkey,
        bet_bump: u8,
    ) -> PlaceBet {
        PlaceBet {
            bet: self.bets[slot],
            market: self.market,
            market_key: self.market_key,
            vault,
            user,
            user_token_account,
            bet_bump,
        }
    }

    /// The records that a resolution works on.
    pub open spec fn resolve_market_ctx(self, resolver: Pubkey) -> ResolveMarket {
        ResolveMarket { market: self.market, market_key: self.market_key, resolver }
    }

    /// The records that a claim of the bet in `slot` works on.
    pub open spec fn claim_winnings_ctx(
        self,
        slot: int,
        vault: Pubkey,
        user: Pubkey,
        user_token_account: Pubkey,
    ) -> ClaimWinnings {
        ClaimWinnings {
            bet: self.bets[slot],
            market: self.market,
            market_key: self.market_key,
            vault,
            user,
            user_token_account,
        }
    }

    /// The records that a cancellation of the bet in `slot` works on.
    pub open spec fn cancel_bet_ctx(
        self,
        slot: int,
        vault: Pubkey,
        user: Pubkey,
        user_token_account: Pubkey,
    ) -> CancelBet {
        CancelBet {
            bet: self.bets[slot],
            market: self.market,
            market_key: self.market_key,
            vault,
            user,
            user_token_account,
        }
    }

    /// Whether the instruction goes through on this ledger: it names a slot that
    /// exists and is not refused; a new bet record is blank.
    pub open spec fn accepts(self, instruction: Instruction) -> bool {
        match instruction {
            Instruction::OpenBet { bet } => bet.is_blank(),
            Instruction::PlaceBet {
                slot,
                vault,
                user,
                user_token_account,
                bet_bump,
                now,
                outcome,
                amount,
            } => 0 <= slot < self.bets.len() && self.place_bet_ctx(
                slot,
                vault,
                user,
                user_token_account,
                bet_bump,
            ).refusal(now, outcome, amount) is None,
            Instruction::ResolveMarket { resolver, now, winning_outcome } => {
                self.resolve_market_ctx(resolver).refusal(now, winning_outcome) is None
            },
            Instruction::ClaimWinnings { slot, vault, user, user_token_account } => 0 <= slot
                < self.bets.len() && self.claim_winnings_ctx(
                slot,
                vault,
                user,
                user_token_account,
            ).refusal() is None,
            Instruction::CancelBet { slot, vault, user, user_token_account, now } => 0 <= slot
                < self.bets.len() && self.cancel_bet_ctx(
                slot,
                vault,
                user,
                user_token_account,
            ).refusal(now) is None,
        }
    }

    /// The ledger after the instruction: as the instruction leaves the market and
    /// the bet in its slot where it goes through, with the amount of its order paid
    /// into escrow or out of it; else unchanged.
    pub open spec fn step(self, instruction: Instruction) -> Ledger {
        if !self.accepts(instruction) {
            self
        } else {
            match instruction {
                Instruction::OpenBet { bet } => Ledger { bets: self.bets.push(bet), ..self },
                Instruction::PlaceBet {
                    slot,
                    vault,
                    user,
                    user_token_account,
                    bet_bump,
                    now,
                    outcome,
                    amount,
                } => {
                    let after = self.place_bet_ctx(
                        slot,
                        vault,
                        user,
                        user_token_account,
                        bet_bump,
                    ).staked(outcome, amount);
                    Ledger {
                        market: after.market,
                        bets: self.bets.update(slot, after.bet),
                        escrow: self.escrow + self.place_bet_ctx(
                            slot,
                            vault,
                            user,
                            user_token_account,
                            bet_bump,
                        ).deposit_order(amount).amount,
                        ..self
                    }
                },
                Instruction::ResolveMarket { resolver, now, winning_outcome } => {
                    let after = self.resolve_market_ctx(resolver).resolved(now, winning_outcome);
                    Ledger { market: after.market, ..self }
                },
                Instruction::ClaimWinnings { slot, vault, user, user_token_account } => {
                    let after = self.claim_winnings_ctx(
                        slot,
                        vault,
                        user,
                        user_token_account,
                    ).settled();
                    Ledger {
                        market: after.market,
                        bets: self.bets.update(slot, after.bet),
                        escrow: self.escrow - self.claim_winnings_ctx(
                            slot,
                            vault,
                            user,
                            user_token_account,
                        ).payout_order().amount,
                        ..self
                    }
                },
                Instruction::CancelBet { slot, vault, user, user_token_account, now } => {
                    let after = self.cancel_bet_ctx(
                        slot,
                        vault,
                        user,
                        user_token_account,
                    ).cancelled();
                    Ledger {
                        market: after.market,
                        bets: self.bets.update(slot, after.bet),
                        escrow: self.escrow - self.cancel_bet_ctx(
                            slot,
                            vault,
                            user,
                            user_token_account,
                        ).refund_order().amount,
                        ..self
                    }
                },
            }
        }
    }

    /// The ledger after the instructions, one after the other.
    pub open spec fn run(self, instructions: Seq<Instruction>) -> Ledger
        decreases instructions.len(),
    {
        if instructions.len() == 0 {
            self
        } else {
            self.run(instructions.drop_last()).step(instructions.last())
        }
    }
}

/// One instruction on a sound ledger leaves a sound ledger, whether it goes
/// through or not. No slot is lost, and the market keeps its address.
pub proof fn lemma_step_keeps_sound(ledger: Ledger, instruction: Instruction)
    requires
        ledger.is_sound(),
    ensures
        ledger.step(instruction).is_sound(),
        ledger.step(instruction).bets.len() >= ledger.bets.len(),
        ledger.step(instruction).market_key == ledger.market_key,
{
    if ledger.accepts(instruction) {
        match instruction {
            Instruction::OpenBet { bet } => {
                lemma_unstaked_bet_sound(ledger.market, ledger.bets, bet);
                assert(ledger.bets.push(bet).drop_last() =~= ledger.bets);
            },
            Instruction::PlaceBet {
                slot,
                vault,
                user,
                user_token_account,
                bet_bump,
                now,
                outcome,
                amount,
            } => {
                let ctx = ledger.place_bet_ctx(slot, vault, user, user_token_account, bet_bump);
                lemma_place_bet_sound(ctx, ledger.bets, slot, now, outcome, amount);
                lemma_nothing_paid_before_resolution(ledger.market, ledger.bets, slot);
                lemma_paid_out_update(ledger.bets, slot, ctx.staked(outcome, amount).bet);
            },
            Instruction::ResolveMarket { resolver, now, winning_outcome } => {
                let ctx = ledger.resolve_market_ctx(resolver);
                lemma_resolve_market_sound(ctx, ledger.bets, now, winning_outcome);
            },
            Instruction::ClaimWinnings { slot, vault, user, user_token_account } => {
                let ctx = ledger.claim_winnings_ctx(slot, vault, user, user_token_account);
                lemma_claim_winnings_sound(ctx, ledger.bets, slot);
                lemma_paid_out_update(ledger.bets, slot, ctx.settled().bet);
            },
            Instruction::CancelBet { slot, vault, user, user_token_account, now } => {
                let ctx = ledger.cancel_bet_ctx(slot, vault, user, user_token_account);
                lemma_cancel_bet_sound(ctx, ledger.bets, slot, now);
                lemma_paid_out_update(ledger.bets, slot, ctx.cancelled().bet);
            },
        }
    }
}

/// Any sequence of instructions on a sound ledger leaves a sound ledger.
pub proof fn lemma_run_keeps_sound(ledger: Ledger, instructions: Seq<Instruction>)
    requires
        ledger.is_sound(),
    ensures
        ledger.run(instructions).is_sound(),
        ledger.run(instructions).bets.len() >= ledger.bets.len(),
        ledger.run(instructions).market_key == ledger.market_key,
    decreases instructions.len(),
{
    if instructions.len() > 0 {
        lemma_run_keeps_sound(ledger, instructions.drop_last());
        lemma_step_keeps_sound(ledger.run(instructions.drop_last()), instructions.last());
    }
}

/// Conservation: at every point in the history of a market, from its creation on,
/// each pool holds exactly what the bets have staked on its outcome, and the
/// three pools together hold the sum of the amounts of all bets.
pub proof fn lemma_books_balance_throughout(
    ctx: CreateMarket,
    game_id: String,
    team_a: String,
    team_b: String,
    start_time: i64,
    oracle_feed: Pubkey,
    instructions: Seq<Instruction>,
)
    ensures
        ({
            let now = Ledger::created(ctx, game_id, team_a, team_b, start_time, oracle_feed).run(
                instructions,
            );
            &&& now.is_sound()
            &&& conserved(now.market, now.bets)
            &&& now.market.pool_total() == total_staked(now.bets)
        }),
{
    let start = Ledger::created(ctx, game_id, team_a, team_b, start_time, oracle_feed);
    lemma_create_market_sound(ctx, game_id, team_a, team_b, start_time, oracle_feed);
    lemma_run_keeps_sound(start, instructions);
    let now = start.run(instructions);
    lemma_pools_hold_total_staked(now.market, now.bets);
}

/// No payout beyond the pool: at every point in the history of a market, from
/// its creation on, once it is resolved all winnings paid so far are together no
/// more than the payout pool.
pub proof fn lemma_paid_out_within_pool_throughout(
    ctx: CreateMarket,
    game_id: String,
    team_a: String,
    team_b: String,
    start_time: i64,
    oracle_feed: Pubkey,
    instructions: Seq<Instruction>,
)
    ensures
        ({
            let now = Ledger::created(ctx, game_id, team_a, team_b, start_time, oracle_feed).run(
                instructions,
            );
            now.market.is_resolved ==> paid_out(now.bets) <= now.market.total_payout_pool
        }),
{
    let start = Ledger::created(ctx, game_id, team_a, team_b, start_time, oracle_feed);
    lemma_create_market_sound(ctx, game_id, team_a, team_b, start_time, oracle_feed);
    lemma_run_keeps_sound(start, instructions);
    let now = start.run(instructions);
    if now.market.is_resolved {
        lemma_paid_out_within_pool(now.market, now.bets);
    }
}

/// Nothing is created and nothing is lost: at every point in the history of a
/// market, from its creation on, if the custodian has carried out every order,
/// the escrow account holds what the pools hold less what has been paid out. That
/// is never negative, so every order out of escrow was covered; and until the
/// market is resolved it is the sum of the amounts of all bets.
pub proof fn lemma_escrow_covers_every_order(
    ctx: CreateMarket,
    game_id: String,
    team_a: String,
    team_b: String,
    start_time: i64,
    oracle_feed: Pubkey,
    instructions: Seq<Instruction>,
)
    ensures
        ({
            let now = Ledger::created(ctx, game_id, team_a, team_b, start_time, oracle_feed).run(
                instructions,
            );
            &&& now.escrow == now.market.pool_total() - paid_out(now.bets)
            &&& now.escrow >= 0
            &&& !now.market.is_resolved ==> now.escrow == total_staked(now.bets)
            &&& now.market.is_resolved ==> now.escrow == now.market.total_payout_pool - paid_out(
                now.bets,
            )
        }),
{
    let start = Ledger::created(ctx, game_id, team_a, team_b, start_time, oracle_feed);
    lemma_create_market_sound(ctx, game_id, team_a, team_b, start_time, oracle_feed);
    lemma_run_keeps_sound(start, instructions);
    let now = start.run(instructions);
    lemma_pools_hold_total_staked(now.market, now.bets);
    if now.market.is_resolved {
        lemma_paid_out_within_pool(now.market, now.bets);
    } else {
        lemma_nothing_paid_at_all(now.market, now.bets);
    }
}

/// No double payout: a settled bet stays as it is for the rest of the market's
/// history, whatever is called on it. So a bet is settled at most once, and is
/// paid at most once.
pub proof fn lemma_settled_bet_never_changes(
    ledger: Ledger,
    instructions: Seq<Instruction>,
    slot: int,
)
    requires
        0 <= slot < ledger.bets.len(),
        ledger.bets[slot].claimed,
    ensures
        slot < ledger.run(instructions).bets.len(),
        ledger.run(instructions).bets[slot] == ledger.bets[slot],
    decreases instructions.len(),
{
    if instructions.len() > 0 {
        lemma_settled_bet_never_changes(ledger, instructions.drop_last(), slot);
    }
}

/// A bet that is not touched keeps its place: an instruction changes at most the
/// bet in the slot that it names.
pub proof fn lemma_step_changes_one_slot(ledger: Ledger, instruction: Instruction, slot: int)
    requires
        0 <= slot < ledger.bets.len(),
    ensures
        slot < ledger.step(instruction).bets.len(),
        ledger.step(instruction).bets[slot] != ledger.bets[slot] ==> ledger.accepts(instruction)
            && match instruction {
            Instruction::PlaceBet { slot: named, .. } => named == slot,
            Instruction::ClaimWinnings { slot: named, .. } => named == slot,
            Instruction::CancelBet { slot: named, .. } => named == slot,
            _ => false,
        },
{
}

/// Resolution is final: a resolved market stays as it is for the rest of its
/// history, whatever is called on it. So its result and its two snapshots never
/// change.
pub proof fn lemma_resolved_market_never_changes(ledger: Ledger, instructions: Seq<Instruction>)
    requires
        ledger.market.is_resolved,
    ensures
        ledger.run(instructions).market == ledger.market,
    decreases instructions.len(),
{
    if instructions.len() > 0 {
        lemma_resolved_market_never_changes(ledger, instructions.drop_last());
    }
}

} // verus!
