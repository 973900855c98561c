use sportsbet::{
    cancel_bet, claim_winnings, create_market, place_bet, resolve_market, Bet, BettingError,
    CancelBet, ClaimWinnings, CreateMarket, Market, Outcome, PlaceBet, Pubkey, ResolveMarket,
};

const T: i64 = 50_000;

fn key(tag: u8) -> Pubkey {
    Pubkey::new_from_array([tag; 32])
}

/// A market with the bets placed on it, the bet of participant `n` at place `n`.
struct Books {
    market: Market,
    bets: Vec<Bet>,
}

impl Books {
    fn open(participants: usize) -> Books {
        let ctx = CreateMarket {
            market_key: key(1),
            authority: key(2),
            market_bump: 7,
            vault_bump: 8,
        };
        let (market, _) =
            create_market(&ctx, "cup".to_string(), "A".to_string(), "B".to_string(), T, key(3))
                .unwrap();
        Books { market, bets: vec![Bet::default(); participants] }
    }

    fn user(n: usize) -> Pubkey {
        key(100 + n as u8)
    }

    fn stake(
        &mut self,
        n: usize,
        now: i64,
        outcome: Outcome,
        amount: u64,
    ) -> Result<u64, BettingError> {
        let mut ctx = PlaceBet {
            bet: self.bets[n],
            market: self.market.clone(),
            market_key: key(1),
            vault: key(4),
            user: Books::user(n),
            user_token_account: key(200),
            bet_bump: 1,
        };
        let (order, _) = place_bet(&mut ctx, now, outcome, amount)?;
        self.market = ctx.market;
        self.bets[n] = ctx.bet;
        Ok(order.amount)
    }

    fn cancel(&mut self, n: usize, now: i64) -> Result<u64, BettingError> {
        let mut ctx = CancelBet {
            bet: self.bets[n],
            market: self.market.clone(),
            market_key: key(1),
            vault: key(4),
            user: Books::user(n),
            user_token_account: key(200),
        };
        let (order, _) = cancel_bet(&mut ctx, now)?;
        self.market = ctx.market;
        self.bets[n] = ctx.bet;
        Ok(order.amount)
    }

    fn resolve(&mut self, now: i64, outcome: Outcome) -> Result<u64, BettingError> {
        let mut ctx =
            ResolveMarket { market: self.market.clone(), market_key: key(1), resolver: key(2) };
        let event = resolve_market(&mut ctx, now, outcome)?;
        self.market = ctx.market;
        Ok(event.total_pool)
    }

    fn claim(&mut self, n: usize) -> Result<u64, BettingError> {
        let mut ctx = ClaimWinnings {
            bet: self.bets[n],
            market: self.market.clone(),
            market_key: key(1),
            vault: key(4),
            user: Books::user(n),
            user_token_account: key(200),
        };
        let (order, _) = claim_winnings(&mut ctx)?;
        assert_eq!(ctx.market, self.market);
        self.bets[n] = ctx.bet;
        Ok(order.amount)
    }

    fn staked_on(&self, outcome: Outcome) -> u64 {
        self.bets.iter().filter(|b| b.outcome == outcome).map(|b| b.amount).sum()
    }

    fn assert_balanced(&self) {
        assert_eq!(self.market.total_pool_a, self.staked_on(Outcome::TeamA));
        assert_eq!(self.market.total_pool_b, self.staked_on(Outcome::TeamB));
        assert_eq!(self.market.total_pool_draw, self.staked_on(Outcome::Draw));
        let market = &self.market;
        let pools = market.total_pool_a + market.total_pool_b + market.total_pool_draw;
        assert_eq!(pools, self.bets.iter().map(|b| b.amount).sum::<u64>());
    }

    fn paid_out(&self) -> u64 {
        self.bets.iter().map(|b| b.winnings).sum()
    }
}

#[test]
fn pools_equal_the_sum_of_the_bets_at_every_step() {
    let mut books = Books::open(5);
    books.assert_balanced();
    let mut escrow: u64 = 0;
    escrow += books.stake(0, T - 9000, Outcome::TeamA, 1000).unwrap();
    books.assert_balanced();
    escrow += books.stake(1, T - 8000, Outcome::TeamB, 3000).unwrap();
    books.assert_balanced();
    escrow += books.stake(0, T - 7000, Outcome::TeamA, 250).unwrap();
    books.assert_balanced();
    escrow += books.stake(2, T - 7000, Outcome::Draw, 77).unwrap();
    books.assert_balanced();
    assert_eq!(books.stake(2, T - 6500, Outcome::TeamA, 5), Err(BettingError::InvalidOutcome));
    books.assert_balanced();
    escrow -= books.cancel(1, T - 6000).unwrap();
    books.assert_balanced();
    assert_eq!(books.bets[1].amount, 0);
    assert_eq!(books.cancel(1, T - 5000), Err(BettingError::AlreadyClaimed));
    assert_eq!(books.stake(1, T - 5000, Outcome::TeamB, 10), Err(BettingError::AlreadyClaimed));
    books.assert_balanced();
    escrow += books.stake(3, T - 1, Outcome::TeamB, 4000).unwrap();
    books.assert_balanced();
    assert_eq!(books.cancel(3, T - 3600), Err(BettingError::TooLateToCancel));
    assert_eq!(books.cancel(4, T - 4000), Err(BettingError::Unauthorized));
    books.assert_balanced();
    assert_eq!(books.market.total_pool_a, 1250);
    assert_eq!(books.market.total_pool_b, 4000);
    assert_eq!(books.market.total_pool_draw, 77);
    assert_eq!(escrow, 5327);
    assert_eq!(books.resolve(T + 10801, Outcome::TeamA), Ok(5327));
    books.assert_balanced();
}

#[test]
fn payouts_never_exceed_the_pool() {
    let mut books = Books::open(4);
    books.stake(0, 0, Outcome::TeamA, 1).unwrap();
    books.stake(1, 0, Outcome::TeamA, 1).unwrap();
    books.stake(2, 0, Outcome::TeamA, 1).unwrap();
    books.stake(3, 0, Outcome::TeamB, 7).unwrap();
    books.resolve(T + 10801, Outcome::TeamA).unwrap();
    assert_eq!(books.market.total_payout_pool, 10);
    assert_eq!(books.market.winning_pool, 3);
    // each winner: 1 * 10 / 3 = 3, fee 0
    assert_eq!(books.claim(0), Ok(3));
    assert_eq!(books.claim(1), Ok(3));
    assert_eq!(books.claim(2), Ok(3));
    assert_eq!(books.claim(3), Err(BettingError::NotWinner));
    assert_eq!(books.paid_out(), 9);
    assert!(books.paid_out() <= books.market.total_payout_pool);
    books.assert_balanced();
}

#[test]
fn exact_fees_keep_two_percent_of_the_pool() {
    let mut books = Books::open(3);
    books.stake(0, 0, Outcome::Draw, 100).unwrap();
    books.stake(1, 0, Outcome::Draw, 300).unwrap();
    books.stake(2, 0, Outcome::TeamB, 600).unwrap();
    books.resolve(T + 10801, Outcome::Draw).unwrap();
    // gross 250 and 750, fees 5 and 15
    assert_eq!(books.claim(0), Ok(245));
    assert_eq!(books.claim(1), Ok(735));
    assert_eq!(books.paid_out(), 980);
    assert_eq!(books.paid_out(), 1000 - 1000 * 2 / 100);
}

#[test]
fn rounded_fees_can_keep_less_than_two_percent() {
    let mut books = Books::open(100);
    for n in 0..100 {
        books.stake(n, 0, Outcome::TeamA, 1).unwrap();
    }
    books.resolve(T + 10801, Outcome::TeamA).unwrap();
    assert_eq!(books.market.total_payout_pool, 100);
    for n in 0..100 {
        // gross 1, fee 0
        assert_eq!(books.claim(n), Ok(1));
    }
    assert_eq!(books.paid_out(), 100);
    assert!(books.paid_out() <= books.market.total_payout_pool);
    assert!(books.paid_out() > 100 - 100 * 2 / 100);
}

#[test]
fn escrow_covers_every_order() {
    let mut books = Books::open(4);
    let mut escrow: u64 = 0;
    escrow += books.stake(0, 0, Outcome::TeamA, 7).unwrap();
    escrow += books.stake(1, 0, Outcome::TeamA, 5).unwrap();
    escrow += books.stake(2, 0, Outcome::Draw, 30).unwrap();
    escrow += books.stake(3, 0, Outcome::TeamB, 1000).unwrap();
    escrow -= books.cancel(2, T - 3601).unwrap();
    assert_eq!(escrow, 1012);
    assert_eq!(escrow, books.bets.iter().map(|b| b.amount).sum::<u64>());
    assert_eq!(books.resolve(T + 10801, Outcome::TeamA), Ok(1012));
    assert_eq!(escrow, books.market.total_payout_pool);
    // 7 * 1012 / 12 = 590, fee 11
    let first = books.claim(0).unwrap();
    assert_eq!(first, 579);
    assert!(first <= escrow);
    escrow -= first;
    // 5 * 1012 / 12 = 421, fee 8
    let second = books.claim(1).unwrap();
    assert_eq!(second, 413);
    assert!(second <= escrow);
    escrow -= second;
    assert_eq!(escrow, books.market.total_payout_pool - books.paid_out());
    assert_eq!(escrow, 20);
}

#[test]
fn a_bet_is_settled_only_once() {
    let mut books = Books::open(3);
    books.stake(0, 0, Outcome::TeamA, 40).unwrap();
    books.stake(1, 0, Outcome::TeamA, 60).unwrap();
    books.stake(2, 0, Outcome::TeamB, 100).unwrap();
    assert_eq!(books.cancel(1, T - 3601), Ok(60));
    assert!(books.bets[1].claimed);
    let cancelled = books.bets[1];
    assert_eq!(books.cancel(1, T - 3601), Err(BettingError::AlreadyClaimed));
    assert_eq!(books.stake(1, T - 3601, Outcome::TeamA, 5), Err(BettingError::AlreadyClaimed));
    assert_eq!(books.claim(1), Err(BettingError::MarketNotResolved));
    assert_eq!(books.bets[1], cancelled);

    books.resolve(T + 10801, Outcome::TeamA).unwrap();
    assert_eq!(books.claim(1), Err(BettingError::AlreadyClaimed));
    assert_eq!(books.claim(0), Ok(140 - 2));
    assert!(books.bets[0].claimed);
    let claimed = books.bets[0];
    assert_eq!(books.claim(0), Err(BettingError::AlreadyClaimed));
    assert_eq!(books.cancel(0, T + 10802), Err(BettingError::TooLateToCancel));
    assert_eq!(books.cancel(0, T - 3601), Err(BettingError::MarketResolved));
    assert_eq!(books.stake(0, T - 3601, Outcome::TeamA, 1), Err(BettingError::MarketResolved));
    assert_eq!(books.bets[0], claimed);
    assert_eq!(books.paid_out(), 138);
}

#[test]
fn a_resolved_market_never_changes() {
    let mut books = Books::open(3);
    books.stake(0, 0, Outcome::TeamA, 40).unwrap();
    books.stake(1, 0, Outcome::TeamB, 60).unwrap();
    books.resolve(T + 10801, Outcome::TeamB).unwrap();
    let resolved = books.market.clone();
    assert_eq!(resolved.winning_outcome, Outcome::TeamB);
    assert_eq!(resolved.total_payout_pool, 100);
    assert_eq!(resolved.winning_pool, 60);

    assert_eq!(books.resolve(T + 10802, Outcome::TeamA), Err(BettingError::AlreadyResolved));
    assert_eq!(books.resolve(T + 10802, Outcome::TeamB), Err(BettingError::AlreadyResolved));
    assert_eq!(books.stake(2, T - 1, Outcome::TeamB, 5), Err(BettingError::MarketResolved));
    assert_eq!(books.stake(2, T + 20000, Outcome::TeamB, 5), Err(BettingError::MarketClosed));
    assert_eq!(books.cancel(0, T - 3601), Err(BettingError::MarketResolved));
    assert_eq!(books.claim(0), Err(BettingError::NotWinner));
    assert_eq!(books.claim(1), Ok(98));
    assert_eq!(books.claim(1), Err(BettingError::AlreadyClaimed));
    assert_eq!(books.market, resolved);
}

#[test]
fn stakes_of_two_participants_commute() {
    let mut one = Books::open(2);
    one.stake(0, T - 10, Outcome::TeamA, 11).unwrap();
    one.stake(1, T - 20, Outcome::TeamA, 31).unwrap();
    let mut other = Books::open(2);
    other.stake(1, T - 20, Outcome::TeamA, 31).unwrap();
    other.stake(0, T - 10, Outcome::TeamA, 11).unwrap();
    assert_eq!(one.market, other.market);
    assert_eq!(one.bets, other.bets);
    assert_eq!(one.market.total_pool_a, 42);
}

#[test]
fn stakes_of_one_participant_accumulate() {
    let mut books = Books::open(1);
    assert_eq!(books.stake(0, T - 10, Outcome::Draw, 0), Ok(0));
    assert_eq!(books.bets[0].outcome, Outcome::Draw);
    assert_eq!(books.stake(0, T - 9, Outcome::Draw, 5), Ok(5));
    assert_eq!(books.stake(0, T - 8, Outcome::Draw, 6), Ok(6));
    assert_eq!(books.bets[0].amount, 11);
    assert_eq!(books.market.total_pool_draw, 11);
    books.assert_balanced();
}
