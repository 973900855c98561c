//! Orders to the custodian that holds the participants' balances and the markets' escrow.

use crate::pubkey::Pubkey;
use vstd::prelude::*;

verus! {

/// An order to move `amount` out of the account `from` into the account `to`,
/// authorized by `authority`. The custodian carries it out as a unit or not at all.
#[derive(Clone, Copy, Debug, PartialEq, Eq)]
pub struct Transfer {
    /// The account that is debited.
    pub from: Pubkey,
    /// The account that is credited.
    pub to: Pubkey,
    /// The identity that signs for the debit.
    pub authority: Pubkey,
    /// How much is moved.
    pub amount: u64,
}

} // verus!
