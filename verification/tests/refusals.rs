use sportsbet::instructions::{cancel_bet, claim_winnings, place_bet, resolve_market};
use sportsbet::{
    Bet, BettingError, CancelBet, ClaimWinnings, Market, Outcome, PlaceBet, Pubkey, ResolveMarket,
};

const T: i64 = 2_000_000;

fn key(tag: u8) -> Pubkey {
    Pubkey::new_from_array([tag; 32])
}

fn market() -> Market {
    Market {
        authority: key(2),
        game_id: "derby".to_string(),
        team_a: "Reds".to_string(),
        team_b: "Blues".to_string(),
        start_time: T,
        oracle_feed: key(3),
        total_pool_a: 500,
        total_pool_b: 300,
        total_pool_draw: 200,
        is_resolved: false,
        winning_outcome: Outcome::Pending,
        resolved_at: 0,
        total_payout_pool: 0,
        winning_pool: 0,
        market_bump: 255,
        vault_bump: 254,
    }
}

fn resolved_market(winner: Outcome) -> Market {
    let winning_pool = match winner {
        Outcome::TeamA => 500,
        Outcome::TeamB => 300,
        Outcome::Draw => 200,
        Outcome::Pending => 0,
    };
    Market {
        is_resolved: true,
        winning_outcome: winner,
        resolved_at: T + 11000,
        total_payout_pool: 1000,
        winning_pool,
        ..market()
    }
}

fn bet(outcome: Outcome, amount: u64) -> Bet {
    Bet { user: key(10), market: key(1), outcome, amount, claimed: false, winnings: 0, bet_bump: 9 }
}

fn place(market: Market, bet: Bet) -> PlaceBet {
    PlaceBet {
        bet,
        market,
        market_key: key(1),
        vault: key(4),
        user: key(10),
        user_token_account: key(11),
        bet_bump: 9,
    }
}

fn claim(market: Market, bet: Bet) -> ClaimWinnings {
    ClaimWinnings {
        bet,
        market,
        market_key: key(1),
        vault: key(4),
        user: key(10),
        user_token_account: key(11),
    }
}

fn cancel(market: Market, bet: Bet) -> CancelBet {
    CancelBet {
        bet,
        market,
        market_key: key(1),
        vault: key(4),
        user: key(10),
        user_token_account: key(11),
    }
}

fn refused_place(mut ctx: PlaceBet, now: i64, outcome: Outcome, amount: u64) -> BettingError {
    let before = ctx.clone();
    let e = place_bet::handler(&mut ctx, now, outcome, amount).unwrap_err();
    assert_eq!(ctx, before);
    assert_eq!(sportsbet::place_bet(&mut ctx, now, outcome, amount), Err(e));
    assert_eq!(ctx, before);
    e
}

fn refused_claim(mut ctx: ClaimWinnings) -> BettingError {
    let before = ctx.clone();
    let e = claim_winnings::handler(&mut ctx).unwrap_err();
    assert_eq!(ctx, before);
    assert_eq!(sportsbet::claim_winnings(&mut ctx), Err(e));
    assert_eq!(ctx, before);
    e
}

fn refused_cancel(mut ctx: CancelBet, now: i64) -> BettingError {
    let before = ctx.clone();
    let e = cancel_bet::handler(&mut ctx, now).unwrap_err();
    assert_eq!(ctx, before);
    assert_eq!(sportsbet::cancel_bet(&mut ctx, now), Err(e));
    assert_eq!(ctx, before);
    e
}

fn refused_resolve(market: Market, now: i64, outcome: Outcome) -> BettingError {
    let mut ctx = ResolveMarket { market, market_key: key(1), resolver: key(2) };
    let before = ctx.clone();
    let e = resolve_market::handler(&mut ctx, now, outcome).unwrap_err();
    assert_eq!(ctx, before);
    assert_eq!(sportsbet::resolve_market(&mut ctx, now, outcome), Err(e));
    assert_eq!(ctx, before);
    e
}

#[test]
fn place_bet_market_closed() {
    let e = refused_place(place(market(), bet(Outcome::TeamA, 5)), T, Outcome::TeamA, 1);
    assert_eq!(e, BettingError::MarketClosed);
}

#[test]
fn place_bet_closed_comes_before_resolved() {
    let ctx = place(resolved_market(Outcome::TeamA), bet(Outcome::TeamA, 5));
    assert_eq!(refused_place(ctx, T + 20000, Outcome::Pending, 1), BettingError::MarketClosed);
}

#[test]
fn place_bet_market_resolved() {
    let ctx = place(resolved_market(Outcome::TeamA), bet(Outcome::TeamA, 5));
    assert_eq!(refused_place(ctx, T - 1, Outcome::Pending, 1), BettingError::MarketResolved);
}

#[test]
fn place_bet_on_pending_is_invalid() {
    let ctx = place(market(), Bet::default());
    assert_eq!(refused_place(ctx, T - 1, Outcome::Pending, 1), BettingError::InvalidOutcome);
}

#[test]
fn place_bet_on_settled_bet_is_refused() {
    let settled = Bet { amount: 0, claimed: true, ..bet(Outcome::TeamA, 0) };
    let ctx = place(market(), settled);
    assert_eq!(refused_place(ctx, T - 1, Outcome::TeamA, 1), BettingError::AlreadyClaimed);
}

#[test]
fn place_bet_cannot_switch_outcome() {
    let ctx = place(market(), bet(Outcome::TeamA, 5));
    assert_eq!(refused_place(ctx, T - 1, Outcome::TeamB, 1), BettingError::InvalidOutcome);
    let ctx = place(market(), bet(Outcome::Draw, 5));
    assert_eq!(refused_place(ctx, T - 1, Outcome::TeamA, 1), BettingError::InvalidOutcome);
}

#[test]
fn place_bet_amount_overflow() {
    let ctx = place(market(), bet(Outcome::TeamA, u64::MAX));
    assert_eq!(refused_place(ctx, T - 1, Outcome::TeamA, 1), BettingError::Overflow);
}

#[test]
fn place_bet_pool_overflow() {
    let full = Market { total_pool_draw: u64::MAX - 9, ..market() };
    let ctx = place(full.clone(), bet(Outcome::Draw, 5));
    assert_eq!(refused_place(ctx, T - 1, Outcome::Draw, 10), BettingError::Overflow);
    let mut ctx = place(full, bet(Outcome::Draw, 5));
    assert!(place_bet::handler(&mut ctx, T - 1, Outcome::Draw, 9).is_ok());
    assert_eq!(ctx.market.total_pool_draw, u64::MAX);
    assert_eq!(ctx.bet.amount, 14);
}

#[test]
fn place_bet_constraints() {
    let mut ctx = place(market(), bet(Outcome::TeamA, 5));
    ctx.market_key = key(99);
    let before = ctx.clone();
    assert_eq!(ctx.validate(), Err(BettingError::InvalidMarket));
    assert_eq!(
        sportsbet::place_bet(&mut ctx, T + 5, Outcome::TeamA, 1),
        Err(BettingError::InvalidMarket)
    );
    assert_eq!(ctx, before);

    let mut ctx = place(market(), bet(Outcome::TeamA, 5));
    ctx.user = key(99);
    assert_eq!(ctx.validate(), Err(BettingError::Unauthorized));
    assert_eq!(
        sportsbet::place_bet(&mut ctx, T - 5, Outcome::TeamA, 1),
        Err(BettingError::Unauthorized)
    );

    let mut ctx = place(market(), Bet::default());
    ctx.user = key(99);
    ctx.market_key = key(98);
    assert_eq!(ctx.validate(), Ok(()));
    assert!(sportsbet::place_bet(&mut ctx, T - 5, Outcome::TeamA, 1).is_ok());
    assert_eq!(ctx.bet.user, key(99));
    assert_eq!(ctx.bet.market, key(98));
}

#[test]
fn resolve_market_game_not_complete() {
    for now in [T + 10800, T + 10799, T, T - 1, i64::MIN] {
        assert_eq!(refused_resolve(market(), now, Outcome::TeamA), BettingError::GameNotComplete);
    }
    let late = Market { start_time: i64::MAX - 10799, ..market() };
    assert_eq!(refused_resolve(late, i64::MAX, Outcome::TeamA), BettingError::GameNotComplete);
    let latest = Market { start_time: i64::MAX - 10801, ..market() };
    let e = refused_resolve(latest, i64::MAX - 1, Outcome::Pending);
    assert_eq!(e, BettingError::GameNotComplete);
}

#[test]
fn resolve_market_already_resolved() {
    let e = refused_resolve(resolved_market(Outcome::TeamB), T + 10801, Outcome::TeamA);
    assert_eq!(e, BettingError::AlreadyResolved);
}

#[test]
fn resolve_market_pending_is_invalid() {
    let e = refused_resolve(market(), T + 10801, Outcome::Pending);
    assert_eq!(e, BettingError::InvalidOutcome);
}

#[test]
fn resolve_market_total_overflow() {
    let huge = Market { total_pool_a: u64::MAX, total_pool_b: 1, total_pool_draw: 0, ..market() };
    assert_eq!(refused_resolve(huge, T + 10801, Outcome::TeamA), BettingError::Overflow);
    let huge =
        Market { total_pool_a: u64::MAX - 1, total_pool_b: 0, total_pool_draw: 2, ..market() };
    assert_eq!(refused_resolve(huge, T + 10801, Outcome::TeamA), BettingError::Overflow);
}

#[test]
fn resolve_market_unauthorized() {
    let mut ctx = ResolveMarket { market: market(), market_key: key(1), resolver: key(10) };
    let before = ctx.clone();
    assert_eq!(ctx.validate(), Err(BettingError::Unauthorized));
    assert_eq!(
        sportsbet::resolve_market(&mut ctx, T - 1, Outcome::Pending),
        Err(BettingError::Unauthorized)
    );
    assert_eq!(ctx, before);
    assert!(resolve_market::handler(&mut ctx, T + 10801, Outcome::Draw).is_ok());
}

#[test]
fn resolve_market_at_the_last_second() {
    let market = Market { start_time: i64::MAX - 10801, ..market() };
    let mut ctx = ResolveMarket { market, market_key: key(1), resolver: key(2) };
    assert!(sportsbet::resolve_market(&mut ctx, i64::MAX, Outcome::TeamB).is_ok());
    assert_eq!(ctx.market.resolved_at, i64::MAX);
    assert_eq!(ctx.market.winning_pool, 300);
    assert_eq!(ctx.market.total_payout_pool, 1000);
}

#[test]
fn claim_winnings_market_not_resolved() {
    let settled = Bet { claimed: true, ..bet(Outcome::TeamA, 5) };
    assert_eq!(refused_claim(claim(market(), settled)), BettingError::MarketNotResolved);
}

#[test]
fn claim_winnings_already_claimed() {
    let settled = Bet { claimed: true, winnings: 9, ..bet(Outcome::TeamB, 5) };
    let ctx = claim(resolved_market(Outcome::TeamA), settled);
    assert_eq!(refused_claim(ctx), BettingError::AlreadyClaimed);
}

#[test]
fn claim_winnings_not_winner() {
    let ctx = claim(resolved_market(Outcome::TeamA), bet(Outcome::Draw, 200));
    assert_eq!(refused_claim(ctx), BettingError::NotWinner);
    let mut blank = claim(resolved_market(Outcome::TeamA), Bet::default());
    assert_eq!(claim_winnings::handler(&mut blank), Err(BettingError::NotWinner));
    assert_eq!(sportsbet::claim_winnings(&mut blank), Err(BettingError::InvalidMarket));
}

#[test]
fn claim_winnings_no_winning_pool() {
    let empty = Market { winning_pool: 0, ..resolved_market(Outcome::Draw) };
    assert_eq!(refused_claim(claim(empty, bet(Outcome::Draw, 0))), BettingError::NoWinningPool);
}

#[test]
fn claim_winnings_overflow() {
    let odd = Market {
        total_payout_pool: u64::MAX,
        winning_pool: 2,
        ..resolved_market(Outcome::TeamA)
    };
    assert_eq!(refused_claim(claim(odd.clone(), bet(Outcome::TeamA, 2))), BettingError::Overflow);
    assert_eq!(refused_claim(claim(odd.clone(), bet(Outcome::TeamA, 5))), BettingError::Overflow);
    let mut ctx = claim(odd, bet(Outcome::TeamA, 1));
    let (order, _) = claim_winnings::handler(&mut ctx).unwrap();
    let gross = u64::MAX / 2;
    assert_eq!(order.amount, gross - gross * 2 / 100);
}

#[test]
fn claim_winnings_constraints() {
    let mut ctx = claim(resolved_market(Outcome::TeamA), bet(Outcome::TeamA, 5));
    ctx.market_key = key(99);
    assert_eq!(ctx.validate(), Err(BettingError::InvalidMarket));
    assert_eq!(sportsbet::claim_winnings(&mut ctx), Err(BettingError::InvalidMarket));
    assert!(!ctx.bet.claimed);

    let mut ctx = claim(resolved_market(Outcome::TeamA), bet(Outcome::TeamA, 5));
    ctx.user = key(99);
    assert_eq!(ctx.validate(), Err(BettingError::Unauthorized));
    assert_eq!(sportsbet::claim_winnings(&mut ctx), Err(BettingError::Unauthorized));
    assert!(!ctx.bet.claimed);

    ctx.market_key = key(98);
    assert_eq!(ctx.validate(), Err(BettingError::InvalidMarket));
}

#[test]
fn cancel_bet_too_late() {
    let ctx = cancel(market(), bet(Outcome::TeamA, 5));
    assert_eq!(refused_cancel(ctx, T - 3600), BettingError::TooLateToCancel);
    let early = Market { start_time: i64::MIN + 3599, ..market() };
    let ctx = cancel(early, bet(Outcome::TeamA, 5));
    assert_eq!(refused_cancel(ctx, i64::MIN), BettingError::TooLateToCancel);
    let earliest = Market { start_time: i64::MIN + 3600, ..market() };
    let ctx = cancel(earliest, bet(Outcome::TeamA, 5));
    assert_eq!(refused_cancel(ctx, i64::MIN), BettingError::TooLateToCancel);
    let first = Market { start_time: i64::MIN + 3601, ..market() };
    let mut ctx = cancel(first, bet(Outcome::TeamA, 5));
    assert!(sportsbet::cancel_bet(&mut ctx, i64::MIN).is_ok());
}

#[test]
fn cancel_bet_market_resolved() {
    let ctx = cancel(resolved_market(Outcome::TeamA), bet(Outcome::TeamA, 5));
    assert_eq!(refused_cancel(ctx, T - 3601), BettingError::MarketResolved);
}

#[test]
fn cancel_bet_already_settled() {
    let settled = Bet { amount: 0, claimed: true, ..bet(Outcome::TeamA, 0) };
    assert_eq!(refused_cancel(cancel(market(), settled), T - 3601), BettingError::AlreadyClaimed);
}

#[test]
fn cancel_bet_without_a_stake_is_invalid() {
    let blank = Bet { user: key(10), market: key(1), ..Bet::default() };
    assert_eq!(refused_cancel(cancel(market(), blank), T - 3601), BettingError::InvalidOutcome);
}

#[test]
fn cancel_bet_underflow() {
    let ctx = cancel(market(), bet(Outcome::TeamB, 301));
    assert_eq!(refused_cancel(ctx, T - 3601), BettingError::Underflow);
    let mut ctx = cancel(market(), bet(Outcome::TeamB, 300));
    assert!(sportsbet::cancel_bet(&mut ctx, T - 3601).is_ok());
    assert_eq!(ctx.market.total_pool_b, 0);
    assert_eq!(ctx.market.total_pool_a, 500);
    assert_eq!(ctx.market.total_pool_draw, 200);
}

#[test]
fn cancel_bet_constraints() {
    let mut ctx = cancel(market(), bet(Outcome::TeamA, 5));
    ctx.user = key(99);
    let before = ctx.clone();
    assert_eq!(ctx.validate(), Err(BettingError::Unauthorized));
    assert_eq!(sportsbet::cancel_bet(&mut ctx, T - 3601), Err(BettingError::Unauthorized));
    assert_eq!(ctx, before);

    let mut ctx = cancel(market(), bet(Outcome::TeamA, 5));
    ctx.market_key = key(99);
    assert_eq!(ctx.validate(), Err(BettingError::InvalidMarket));
    assert_eq!(sportsbet::cancel_bet(&mut ctx, T - 3601), Err(BettingError::InvalidMarket));

    ctx.user = key(98);
    assert_eq!(ctx.validate(), Err(BettingError::Unauthorized));
}

#[test]
fn every_error_has_its_message() {
    let all = [
        (BettingError::MarketClosed, "Market is closed for betting"),
        (BettingError::MarketResolved, "Market already resolved"),
        (BettingError::InvalidOutcome, "Invalid outcome"),
        (BettingError::Overflow, "Overflow error"),
        (BettingError::Underflow, "Underflow error"),
        (BettingError::GameNotComplete, "Game not complete"),
        (BettingError::AlreadyResolved, "Already resolved"),
        (BettingError::MarketNotResolved, "Market not resolved"),
        (BettingError::AlreadyClaimed, "Already claimed"),
        (BettingError::NotWinner, "Not a winner"),
        (BettingError::NoWinningPool, "No winning pool"),
        (BettingError::TooLateToCancel, "Too late to cancel"),
        (BettingError::Unauthorized, "Unauthorized"),
        (BettingError::InvalidMarket, "Invalid market"),
    ];
    for (error, message) in all {
        assert_eq!(error.message(), message);
    }
}
