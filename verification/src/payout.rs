//! The proportional payout of a winning bet.

use crate::errors::BettingError;
use vstd::prelude::*;

verus! {

/// The platform keeps this many hundredths of every gross share.
pub const FEE_PERCENT: u64 = 2;

/// The share of the payout pool that falls to a stake of `amount` out of
/// `winning_pool`, rounded down.
pub open spec fn gross_share(amount: int, payout_pool: int, winning_pool: int) -> int {
    (amount * payout_pool) / winning_pool
}

/// The platform's fee on a gross share, rounded down.
pub open spec fn platform_fee(gross: int) -> int {
    (gross * FEE_PERCENT) / 100
}

/// The hundredths of a unit by which the fee on a gross share is rounded down.
pub open spec fn fee_remainder(gross: int) -> int {
    (gross * FEE_PERCENT) % 100
}

/// What is paid out of a gross share once the fee is taken.
pub open spec fn net_of_fee(gross: int) -> int {
    gross - platform_fee(gross)
}

/// The winnings of a stake of `amount` on the winning outcome: `NoWinningPool` when
/// nothing was staked on it, `Overflow` when twice the gross share exceeds `u64::MAX`,
/// else the gross share less the fee.
pub open spec fn winnings_of(amount: u64, payout_pool: u64, winning_pool: u64) -> Result<
    u64,
    BettingError,
> {
    if winning_pool == 0 {
        Err(BettingError::NoWinningPool)
    } else if 2 * gross_share(amount as int, payout_pool as int, winning_pool as int)
        > u64::MAX {
        Err(BettingError::Overflow)
    } else {
        Ok(net_of_fee(gross_share(amount as int, payout_pool as int, winning_pool as int)) as u64)
    }
}

/// Computes the winnings of a stake of `amount` on the winning outcome. The product
/// is taken in 128 bits, so that it cannot wrap.
pub fn compute_winnings(amount: u64, payout_pool: u64, winning_pool: u64) -> (r: Result<
    u64,
    BettingError,
>)
    ensures
        r == winnings_of(amount, payout_pool, winning_pool),
        r matches Ok(w) ==> w == net_of_fee(
            gross_share(amount as int, payout_pool as int, winning_pool as int),
        ),
{
    if winning_pool == 0 {
        return Err(BettingError::NoWinningPool);
    }
    assert(amount * payout_pool <= u64::MAX * u64::MAX) by (nonlinear_arith)
        requires
            amount <= u64::MAX,
            payout_pool <= u64::MAX,
    ;
    let product: u128 = (amount as u128) * (payout_pool as u128);
    let gross_wide: u128 = product / (winning_pool as u128);
    if gross_wide > (u64::MAX / 2) as u128 {
        return Err(BettingError::Overflow);
    }
    let gross: u64 = gross_wide as u64;
    let fee: u64 = gross * FEE_PERCENT / 100;
    Ok(gross - fee)
}

/// A gross share is the largest whole number of units whose `winning_pool`-fold
/// does not exceed `amount * payout_pool`.
pub proof fn lemma_gross_share_is_floor(amount: int, payout_pool: int, winning_pool: int)
    requires
        0 <= amount,
        0 <= payout_pool,
        0 < winning_pool,
    ensures
        0 <= gross_share(amount, payout_pool, winning_pool),
        gross_share(amount, payout_pool, winning_pool) * winning_pool <= amount * payout_pool,
        amount * payout_pool < (gross_share(amount, payout_pool, winning_pool) + 1) * winning_pool,
{
    let product = amount * payout_pool;
    assert(0 <= product) by (nonlinear_arith)
        requires
            0 <= amount,
            0 <= payout_pool,
            product == amount * payout_pool,
    ;
    assert(0 <= product / winning_pool && (product / winning_pool) * winning_pool <= product
        && product < (product / winning_pool + 1) * winning_pool) by (nonlinear_arith)
        requires
            0 <= product,
            0 < winning_pool,
    ;
}

/// A stake that is no more than the winning pool earns no more than the payout pool.
pub proof fn lemma_gross_share_within_pool(amount: int, payout_pool: int, winning_pool: int)
    requires
        0 <= amount <= winning_pool,
        0 <= payout_pool,
        0 < winning_pool,
    ensures
        0 <= gross_share(amount, payout_pool, winning_pool) <= payout_pool,
{
    lemma_gross_share_is_floor(amount, payout_pool, winning_pool);
    let gross = gross_share(amount, payout_pool, winning_pool);
    assert(gross <= payout_pool) by (nonlinear_arith)
        requires
            gross * winning_pool <= amount * payout_pool,
            0 <= amount <= winning_pool,
            0 <= payout_pool,
            0 < winning_pool,
    ;
}

/// The fee is between nothing and the whole gross share, and a hundred times the
/// net share is 98 times the gross share plus what the fee lost to rounding.
pub proof fn lemma_fee_is_two_percent(gross: int)
    requires
        0 <= gross,
    ensures
        0 <= platform_fee(gross) <= gross,
        0 <= net_of_fee(gross) <= gross,
        100 * net_of_fee(gross) == 98 * gross + fee_remainder(gross),
        0 <= fee_remainder(gross) < 100,
{
}

} // verus!
