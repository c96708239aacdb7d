//! Models of the collaborator ledgers' records.
//!
//! The underlying token ledgers are external collaborators: the library keeps
//! only what its logic reads of them — identities and 64-bit balances — and
//! states every operation's effect on these fields exactly.

use vstd::prelude::*;
use crate::AccountId;

verus! {

/// A balance-holding account of the underlying token ledger.
#[derive(Clone, Copy, Debug)]
pub struct TokenAccount {
    /// Identity of the asset the account holds.
    pub mint: AccountId,
    /// Identity entitled to move funds out of the account.
    pub owner: AccountId,
    /// Current balance.
    pub balance: u64,
}

/// An asset class of the underlying token ledger.
#[derive(Clone, Copy, Debug)]
pub struct Mint {
    /// Identity of the asset class itself.
    pub id: AccountId,
    /// Identity entitled to issue new units, if any.
    pub mint_authority: Option<AccountId>,
    /// Outstanding supply.
    pub supply: u64,
}

} // verus!
