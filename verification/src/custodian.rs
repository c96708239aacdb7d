//! Custody of the reserve asset.
//!
//! Both operations are atomic moves between two accounts of the same asset:
//! a deposit is authorized by the paying user, a withdrawal by the derived
//! vault authority. On any error neither account changes.

use vstd::prelude::*;
use crate::AccountId;
use crate::accounts::TokenAccount;
use crate::errors::LedgerError;
use crate::id_eq;

verus! {

/// The first reason a transfer of `amount` from `from` to `to`, authorized by
/// `authority`, would fail; `None` when it goes through.
pub open spec fn transfer_check(from: TokenAccount, to: TokenAccount, authority: AccountId, amount: u64) -> Option<LedgerError> {
    if from.mint@ != to.mint@ {
        Some(LedgerError::AssetMismatch)
    } else if authority@ != from.owner@ {
        Some(LedgerError::AuthorityMismatch)
    } else if from.balance < amount {
        Some(LedgerError::InsufficientFunds)
    } else if to.balance + amount > u64::MAX {
        Some(LedgerError::BalanceOverflow)
    } else {
        None
    }
}

/// Moves `amount` from one account to another, atomically.
fn transfer(from: &mut TokenAccount, to: &mut TokenAccount, authority: &AccountId, amount: u64) -> (r: Result<(), LedgerError>)
    requires
        amount > 0,
    ensures
        match r {
            Ok(()) => transfer_check(*old(from), *old(to), *authority, amount) is None
                && *final(from) == (TokenAccount { balance: (old(from).balance - amount) as u64, ..*old(from) })
                && *final(to) == (TokenAccount { balance: (old(to).balance + amount) as u64, ..*old(to) }),
            Err(e) => transfer_check(*old(from), *old(to), *authority, amount) == Some(e)
                && *final(from) == *old(from) && *final(to) == *old(to),
        },
{
    if !id_eq(&from.mint, &to.mint) {
        return Err(LedgerError::AssetMismatch);
    }
    if !id_eq(authority, &from.owner) {
        return Err(LedgerError::AuthorityMismatch);
    }
    if from.balance < amount {
        return Err(LedgerError::InsufficientFunds);
    }
    let credited = match to.balance.checked_add(amount) {
        Some(b) => b,
        None => {
            return Err(LedgerError::BalanceOverflow);
        },
    };
    from.balance = from.balance - amount;
    to.balance = credited;
    Ok(())
}

/// Deposits `amount` of the reserve asset from the user's account into the
/// vault. The debit is authorized by the user's own signature over `from`.
pub fn deposit_to_vault(from: &mut TokenAccount, vault: &mut TokenAccount, user: &AccountId, amount: u64) -> (r: Result<(), LedgerError>)
    requires
        amount > 0,
    ensures
        match r {
            Ok(()) => transfer_check(*old(from), *old(vault), *user, amount) is None
                && *final(from) == (TokenAccount { balance: (old(from).balance - amount) as u64, ..*old(from) })
                && *final(vault) == (TokenAccount { balance: (old(vault).balance + amount) as u64, ..*old(vault) }),
            Err(e) => transfer_check(*old(from), *old(vault), *user, amount) == Some(e)
                && *final(from) == *old(from) && *final(vault) == *old(vault),
        },
{
    transfer(from, vault, user, amount)
}

/// Withdraws `amount` of the reserve asset from the vault into the user's
/// account. The debit is authorized by the derived vault authority, which the
/// caller supplies and which must own the vault.
pub fn withdraw_from_vault(vault: &mut TokenAccount, to: &mut TokenAccount, vault_authority: &AccountId, amount: u64) -> (r: Result<(), LedgerError>)
    requires
        amount > 0,
    ensures
        match r {
            Ok(()) => transfer_check(*old(vault), *old(to), *vault_authority, amount) is None
                && *final(vault) == (TokenAccount { balance: (old(vault).balance - amount) as u64, ..*old(vault) })
                && *final(to) == (TokenAccount { balance: (old(to).balance + amount) as u64, ..*old(to) }),
            Err(e) => transfer_check(*old(vault), *old(to), *vault_authority, amount) == Some(e)
                && *final(vault) == *old(vault) && *final(to) == *old(to),
        },
{
    transfer(vault, to, vault_authority, amount)
}

} // verus!
