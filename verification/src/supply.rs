//! Issuance and retirement of the derivative token.
//!
//! Issuing is authorized by the derived mint authority recorded on the mint;
//! retiring is authorized by the holder of the account being debited. Supply
//! and account balance change together, atomically; on any error neither the
//! mint nor the account changes.

use vstd::prelude::*;
use crate::AccountId;
use crate::accounts::{Mint, TokenAccount};
use crate::errors::LedgerError;
use crate::id_eq;

verus! {

/// The first reason issuing `amount` of `mint` to `to`, authorized by
/// `authority`, would fail; `None` when it goes through.
pub open spec fn issue_check(mint: Mint, to: TokenAccount, authority: AccountId, amount: u64) -> Option<LedgerError> {
    if to.mint@ != mint.id@ {
        Some(LedgerError::AssetMismatch)
    } else if !(mint.mint_authority matches Some(m) && m@ == authority@) {
        Some(LedgerError::AuthorityMismatch)
    } else if mint.supply + amount > u64::MAX {
        Some(LedgerError::BalanceOverflow)
    } else if to.balance + amount > u64::MAX {
        Some(LedgerError::BalanceOverflow)
    } else {
        None
    }
}

/// The first reason retiring `amount` of `mint` from `from`, authorized by
/// `authority`, would fail; `None` when it goes through.
pub open spec fn retire_check(mint: Mint, from: TokenAccount, authority: AccountId, amount: u64) -> Option<LedgerError> {
    if from.mint@ != mint.id@ {
        Some(LedgerError::AssetMismatch)
    } else if authority@ != from.owner@ {
        Some(LedgerError::AuthorityMismatch)
    } else if from.balance < amount {
        Some(LedgerError::InsufficientFunds)
    } else if mint.supply < amount {
        Some(LedgerError::InsufficientFunds)
    } else {
        None
    }
}

/// Issues `amount` new units of the derivative token to `to`. Only the
/// derived mint authority recorded on the mint may do this.
pub fn issue(mint: &mut Mint, to: &mut TokenAccount, authority: &AccountId, amount: u64) -> (r: Result<(), LedgerError>)
    requires
        amount > 0,
    ensures
        match r {
            Ok(()) => issue_check(*old(mint), *old(to), *authority, amount) is None
                && *final(mint) == (Mint { supply: (old(mint).supply + amount) as u64, ..*old(mint) })
                && *final(to) == (TokenAccount { balance: (old(to).balance + amount) as u64, ..*old(to) }),
            Err(e) => issue_check(*old(mint), *old(to), *authority, amount) == Some(e)
                && *final(mint) == *old(mint) && *final(to) == *old(to),
        },
{
    if !id_eq(&to.mint, &mint.id) {
        return Err(LedgerError::AssetMismatch);
    }
    let authorized = match &mint.mint_authority {
        Some(m) => id_eq(m, authority),
        None => false,
    };
    if !authorized {
        return Err(LedgerError::AuthorityMismatch);
    }
    let supply = match mint.supply.checked_add(amount) {
        Some(s) => s,
        None => {
            return Err(LedgerError::BalanceOverflow);
        },
    };
    let credited = match to.balance.checked_add(amount) {
        Some(b) => b,
        None => {
            return Err(LedgerError::BalanceOverflow);
        },
    };
    mint.supply = supply;
    to.balance = credited;
    Ok(())
}

/// Retires `amount` units of the derivative token from `from`, shrinking the
/// supply. Only the holder of `from` may authorize it.
pub fn retire(mint: &mut Mint, from: &mut TokenAccount, authority: &AccountId, amount: u64) -> (r: Result<(), LedgerError>)
    requires
        amount > 0,
    ensures
        match r {
            Ok(()) => retire_check(*old(mint), *old(from), *authority, amount) is None
                && *final(mint) == (Mint { supply: (old(mint).supply - amount) as u64, ..*old(mint) })
                && *final(from) == (TokenAccount { balance: (old(from).balance - amount) as u64, ..*old(from) }),
            Err(e) => retire_check(*old(mint), *old(from), *authority, amount) == Some(e)
                && *final(mint) == *old(mint) && *final(from) == *old(from),
        },
{
    if !id_eq(&from.mint, &mint.id) {
        return Err(LedgerError::AssetMismatch);
    }
    if !id_eq(authority, &from.owner) {
        return Err(LedgerError::AuthorityMismatch);
    }
    if from.balance < amount {
        return Err(LedgerError::InsufficientFunds);
    }
    if mint.supply < amount {
        return Err(LedgerError::InsufficientFunds);
    }
    from.balance = from.balance - amount;
    mint.supply = mint.supply - amount;
    Ok(())
}

} // verus!
