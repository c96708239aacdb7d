//! The conservation ledger: the config record and the three operations.
//!
//! Every operation validates its whole request before it touches any state,
//! so a failure leaves every account exactly as it was, and a success changes
//! the tracked total, the vault balance and the derivative supply by the same
//! amount. The spec functions `init_check`, `wrap_check` and `unwrap_check`
//! state, input by input, which error is reported; the effect functions state
//! the successful transition in full.

use vstd::prelude::*;
use crate::AccountId;
use crate::id_eq;
use crate::accounts::{Mint, TokenAccount};
use crate::authority::{
    authority_at_bump, derive_mint_authority, derive_vault_address, derive_vault_authority,
    derived_authority, mint_authority_at, mint_authority_label_spec, vault_account_label_spec,
    vault_authority_at, vault_authority_label_spec,
};
use crate::custodian::{deposit_to_vault, transfer_check, withdraw_from_vault};
use crate::errors::{DacError, LedgerError, OpError};
use crate::supply::{issue, retire, retire_check};

verus! {

/// The singleton configuration record of one deployment.
#[derive(Clone, Copy, Debug)]
pub struct DacConfig {
    /// Identity permitted to manage the configuration.
    pub authority: AccountId,
    /// Identity of the derivative token's mint.
    pub dac_mint: AccountId,
    /// Identity of the reserve asset's mint.
    pub usdc_mint: AccountId,
    /// Identity of the custody account holding the reserve balance.
    pub vault: AccountId,
    /// The system's view of the reserve currently held for outstanding supply.
    pub total_wrapped: u64,
    /// Verifier byte of the derived mint authority, recorded at creation.
    pub mint_authority_bump: u8,
    /// Verifier byte of the derived vault authority, recorded at creation.
    pub vault_authority_bump: u8,
    /// Set true exactly once, at creation; never reset.
    pub is_initialized: bool,
}

/// The conservation invariant: at every quiescent point the tracked total,
/// the vault's reserve balance and the outstanding derivative supply agree.
pub open spec fn conserved(config: DacConfig, vault: TokenAccount, dac_mint: Mint) -> bool {
    config.total_wrapped == vault.balance && vault.balance == dac_mint.supply
}

/// The accounts and identities an initialize request carries.
pub struct Initialize {
    /// Creator of the deployment; recorded as the configuration's manager.
    pub authority: AccountId,
    /// Identity of the config record being created.
    pub config_id: AccountId,
    /// Identity of the deriving program itself.
    pub program_id: AccountId,
    /// The derivative mint; its authority must already be the derived one.
    pub dac_mint: Mint,
    /// Identity of the reserve asset's mint.
    pub usdc_mint: AccountId,
}

/// The accounts and identities a wrap request carries.
pub struct Wrap {
    /// The config record.
    pub config: DacConfig,
    /// Identity of the config record.
    pub config_id: AccountId,
    /// Identity of the deriving program itself.
    pub program_id: AccountId,
    /// The derivative mint.
    pub dac_mint: Mint,
    /// The caller's reserve account, to be debited.
    pub user_usdc: TokenAccount,
    /// The caller's derivative account, to be credited.
    pub user_dac: TokenAccount,
    /// The custody account holding the reserve.
    pub usdc_vault: TokenAccount,
    /// The caller, who signs the debit of `user_usdc`.
    pub user: AccountId,
}

/// The accounts and identities an unwrap request carries.
pub struct Unwrap {
    /// The config record.
    pub config: DacConfig,
    /// Identity of the config record.
    pub config_id: AccountId,
    /// Identity of the deriving program itself.
    pub program_id: AccountId,
    /// The derivative mint.
    pub dac_mint: Mint,
    /// The caller's reserve account, to be credited.
    pub user_usdc: TokenAccount,
    /// The caller's derivative account, to be debited.
    pub user_dac: TokenAccount,
    /// The custody account holding the reserve.
    pub usdc_vault: TokenAccount,
    /// The caller, who signs the debit of `user_dac`.
    pub user: AccountId,
}

/// The first reason an initialize request fails, or `None`. The parameters
/// `ma`, `va` and `vid` are what derivation returns for the mint authority,
/// the vault authority and the vault account.
pub open spec fn init_check(
    ctx: Initialize,
    ma: Option<(Seq<u8>, u8)>,
    va: Option<(Seq<u8>, u8)>,
    vid: Option<(Seq<u8>, u8)>,
) -> Option<OpError> {
    if ma is None {
        Some(OpError::DerivationFailed)
    } else if va is None {
        Some(OpError::DerivationFailed)
    } else if vid is None {
        Some(OpError::DerivationFailed)
    } else if !(ctx.dac_mint.mint_authority matches Some(m) && ma matches Some((a, b)) && m@ == a) {
        Some(OpError::Dac(DacError::InvalidMintAuthority))
    } else {
        None
    }
}

/// The first reason a wrap request fails, or `None`. The parameter `ma` is
/// what single-bump derivation returns for the mint authority under the
/// recorded bump.
pub open spec fn wrap_check(ctx: Wrap, ma: Option<Seq<u8>>, amount: u64) -> Option<OpError> {
    if !ctx.config.is_initialized {
        Some(OpError::Dac(DacError::NotInitialized))
    } else if amount == 0 {
        Some(OpError::Dac(DacError::ZeroAmount))
    } else if ctx.dac_mint.id@ != ctx.config.dac_mint@ {
        Some(OpError::Dac(DacError::MintMismatch))
    } else if ctx.user_usdc.mint@ != ctx.config.usdc_mint@ {
        Some(OpError::Dac(DacError::MintMismatch))
    } else if ctx.user_dac.mint@ != ctx.config.dac_mint@ {
        Some(OpError::Dac(DacError::MintMismatch))
    } else if ctx.usdc_vault.mint@ != ctx.config.usdc_mint@ {
        Some(OpError::Dac(DacError::MintMismatch))
    } else if ctx.config.total_wrapped + amount > u64::MAX {
        Some(OpError::Dac(DacError::Overflow))
    } else {
        match transfer_check(ctx.user_usdc, ctx.usdc_vault, ctx.user, amount) {
            Some(e) => Some(OpError::Ledger(e)),
            None => {
                if !(ma matches Some(a) && ctx.dac_mint.mint_authority matches Some(m) && m@ == a) {
                    Some(OpError::Ledger(LedgerError::AuthorityMismatch))
                } else if ctx.dac_mint.supply + amount > u64::MAX {
                    Some(OpError::Ledger(LedgerError::BalanceOverflow))
                } else if ctx.user_dac.balance + amount > u64::MAX {
                    Some(OpError::Ledger(LedgerError::BalanceOverflow))
                } else {
                    None
                }
            },
        }
    }
}

/// The successful wrap transition: the caller's reserve moves into the vault,
/// the same amount of derivative supply is issued to the caller, and the
/// tracked total grows by it.
pub open spec fn wrap_effect(ctx: Wrap, amount: u64) -> Wrap {
    Wrap {
        config: DacConfig { total_wrapped: (ctx.config.total_wrapped + amount) as u64, ..ctx.config },
        dac_mint: Mint { supply: (ctx.dac_mint.supply + amount) as u64, ..ctx.dac_mint },
        user_usdc: TokenAccount { balance: (ctx.user_usdc.balance - amount) as u64, ..ctx.user_usdc },
        user_dac: TokenAccount { balance: (ctx.user_dac.balance + amount) as u64, ..ctx.user_dac },
        usdc_vault: TokenAccount { balance: (ctx.usdc_vault.balance + amount) as u64, ..ctx.usdc_vault },
        ..ctx
    }
}

/// The first reason an unwrap request fails, or `None`. The parameter `va` is
/// what single-bump derivation returns for the vault authority under the
/// recorded bump.
pub open spec fn unwrap_check(ctx: Unwrap, va: Option<Seq<u8>>, amount: u64) -> Option<OpError> {
    if !ctx.config.is_initialized {
        Some(OpError::Dac(DacError::NotInitialized))
    } else if amount == 0 {
        Some(OpError::Dac(DacError::ZeroAmount))
    } else if ctx.dac_mint.id@ != ctx.config.dac_mint@ {
        Some(OpError::Dac(DacError::MintMismatch))
    } else if ctx.user_dac.mint@ != ctx.config.dac_mint@ {
        Some(OpError::Dac(DacError::MintMismatch))
    } else if ctx.user_usdc.mint@ != ctx.config.usdc_mint@ {
        Some(OpError::Dac(DacError::MintMismatch))
    } else if ctx.usdc_vault.mint@ != ctx.config.usdc_mint@ {
        Some(OpError::Dac(DacError::MintMismatch))
    } else if amount > ctx.config.total_wrapped {
        Some(OpError::Dac(DacError::Underflow))
    } else {
        match retire_check(ctx.dac_mint, ctx.user_dac, ctx.user, amount) {
            Some(e) => Some(OpError::Ledger(e)),
            None => {
                if !(va matches Some(a) && ctx.usdc_vault.owner@ == a) {
                    Some(OpError::Ledger(LedgerError::AuthorityMismatch))
                } else {
                    match transfer_check(ctx.usdc_vault, ctx.user_usdc, ctx.usdc_vault.owner, amount) {
                        Some(e) => Some(OpError::Ledger(e)),
                        None => None,
                    }
                }
            },
        }
    }
}

/// The successful unwrap transition: the caller's derivative balance is
/// retired, the same amount of reserve moves from the vault back to the
/// caller, and the tracked total shrinks by it.
pub open spec fn unwrap_effect(ctx: Unwrap, amount: u64) -> Unwrap {
    Unwrap {
        config: DacConfig { total_wrapped: (ctx.config.total_wrapped - amount) as u64, ..ctx.config },
        dac_mint: Mint { supply: (ctx.dac_mint.supply - amount) as u64, ..ctx.dac_mint },
        user_usdc: TokenAccount { balance: (ctx.user_usdc.balance + amount) as u64, ..ctx.user_usdc },
        user_dac: TokenAccount { balance: (ctx.user_dac.balance - amount) as u64, ..ctx.user_dac },
        usdc_vault: TokenAccount { balance: (ctx.usdc_vault.balance - amount) as u64, ..ctx.usdc_vault },
        ..ctx
    }
}

/// The unwrap request over the same accounts as a wrap request.
pub open spec fn matching_unwrap(ctx: Wrap) -> Unwrap {
    Unwrap {
        config: ctx.config,
        config_id: ctx.config_id,
        program_id: ctx.program_id,
        dac_mint: ctx.dac_mint,
        user_usdc: ctx.user_usdc,
        user_dac: ctx.user_dac,
        usdc_vault: ctx.usdc_vault,
        user: ctx.user,
    }
}

/// Creates the config record and the vault custody account.
///
/// Derives the two signer authorities and the vault identity from the config
/// record's identity, refuses a derivative mint whose authority is not the
/// derived mint authority, and records the verifier bytes for every later
/// call. The tracked total starts at zero, so if the derivative supply is
/// zero the conservation invariant holds from the start.
///
/// That the config record is a singleton — a second initialization cannot
/// replace it — is the hosting environment's guarantee: it refuses to create
/// the record's storage twice.
pub fn initialize(ctx: &Initialize) -> (r: Result<(DacConfig, TokenAccount), OpError>)
    ensures
        ({
            let ma = derived_authority(mint_authority_label_spec(), ctx.config_id@, ctx.program_id@);
            let va = derived_authority(vault_authority_label_spec(), ctx.config_id@, ctx.program_id@);
            let vid = derived_authority(vault_account_label_spec(), ctx.config_id@, ctx.program_id@);
            match r {
                Ok((config, vault)) => init_check(*ctx, ma, va, vid) is None
                    && config.authority@ == ctx.authority@
                    && config.dac_mint@ == ctx.dac_mint.id@
                    && config.usdc_mint@ == ctx.usdc_mint@
                    && (vid matches Some((a, b)) && config.vault@ == a)
                    && config.total_wrapped == 0
                    && (ma matches Some((a, b)) && config.mint_authority_bump == b)
                    && (va matches Some((a, b)) && config.vault_authority_bump == b)
                    && config.is_initialized
                    && vault.mint@ == ctx.usdc_mint@
                    && (va matches Some((a, b)) && vault.owner@ == a)
                    && vault.balance == 0,
                Err(e) => init_check(*ctx, ma, va, vid) == Some(e),
            }
        }),
        (r matches Ok((config, vault)) && ctx.dac_mint.supply == 0) ==> conserved(
            r.unwrap().0,
            r.unwrap().1,
            ctx.dac_mint,
        ),
{
    let ma = match derive_mint_authority(&ctx.config_id, &ctx.program_id) {
        Some(p) => p,
        None => {
            return Err(OpError::DerivationFailed);
        },
    };
    let va = match derive_vault_authority(&ctx.config_id, &ctx.program_id) {
        Some(p) => p,
        None => {
            return Err(OpError::DerivationFailed);
        },
    };
    let vid = match derive_vault_address(&ctx.config_id, &ctx.program_id) {
        Some(p) => p,
        None => {
            return Err(OpError::DerivationFailed);
        },
    };
    let declared = match &ctx.dac_mint.mint_authority {
        Some(m) => *m,
        None => {
            return Err(OpError::Dac(DacError::InvalidMintAuthority));
        },
    };
    if !id_eq(&declared, &ma.0) {
        return Err(OpError::Dac(DacError::InvalidMintAuthority));
    }
    let config = DacConfig {
        authority: ctx.authority,
        dac_mint: ctx.dac_mint.id,
        usdc_mint: ctx.usdc_mint,
        vault: vid.0,
        total_wrapped: 0,
        mint_authority_bump: ma.1,
        vault_authority_bump: va.1,
        is_initialized: true,
    };
    let vault = TokenAccount { mint: ctx.usdc_mint, owner: va.0, balance: 0 };
    Ok((config, vault))
}

/// Wraps: deposits `amount` of the caller's reserve into the vault, issues
/// the same amount of derivative token to the caller, and grows the tracked
/// total by it — or fails with the error `wrap_check` names, changing
/// nothing. Every check runs before any state changes, so an error never
/// leaves a partial transfer; in particular the counter arithmetic is checked
/// before the custody deposit. The conservation invariant is preserved either
/// way.
pub fn wrap(ctx: &mut Wrap, amount: u64) -> (r: Result<(), OpError>)
    ensures
        ({
            let ma = authority_at_bump(
                mint_authority_label_spec(),
                old(ctx).config_id@,
                old(ctx).config.mint_authority_bump,
                old(ctx).program_id@,
            );
            match r {
                Ok(()) => wrap_check(*old(ctx), ma, amount) is None
                    && *final(ctx) == wrap_effect(*old(ctx), amount),
                Err(e) => wrap_check(*old(ctx), ma, amount) == Some(e)
                    && *final(ctx) == *old(ctx),
            }
        }),
        conserved(old(ctx).config, old(ctx).usdc_vault, old(ctx).dac_mint) ==> conserved(
            final(ctx).config,
            final(ctx).usdc_vault,
            final(ctx).dac_mint,
        ),
{
    if !ctx.config.is_initialized {
        return Err(OpError::Dac(DacError::NotInitialized));
    }
    if amount == 0 {
        return Err(OpError::Dac(DacError::ZeroAmount));
    }
    if !id_eq(&ctx.dac_mint.id, &ctx.config.dac_mint) {
        return Err(OpError::Dac(DacError::MintMismatch));
    }
    if !id_eq(&ctx.user_usdc.mint, &ctx.config.usdc_mint) {
        return Err(OpError::Dac(DacError::MintMismatch));
    }
    if !id_eq(&ctx.user_dac.mint, &ctx.config.dac_mint) {
        return Err(OpError::Dac(DacError::MintMismatch));
    }
    if !id_eq(&ctx.usdc_vault.mint, &ctx.config.usdc_mint) {
        return Err(OpError::Dac(DacError::MintMismatch));
    }
    let total = match ctx.config.total_wrapped.checked_add(amount) {
        Some(t) => t,
        None => {
            return Err(OpError::Dac(DacError::Overflow));
        },
    };
    // The custody deposit's preconditions, checked before anything changes.
    if !id_eq(&ctx.user, &ctx.user_usdc.owner) {
        return Err(OpError::Ledger(LedgerError::AuthorityMismatch));
    }
    if ctx.user_usdc.balance < amount {
        return Err(OpError::Ledger(LedgerError::InsufficientFunds));
    }
    if ctx.usdc_vault.balance.checked_add(amount).is_none() {
        return Err(OpError::Ledger(LedgerError::BalanceOverflow));
    }
    // The issuing authority, reproduced from the recorded verifier byte, must
    // be the one the derivative mint declares.
    let ma = match mint_authority_at(&ctx.config_id, ctx.config.mint_authority_bump, &ctx.program_id) {
        Some(a) => a,
        None => {
            return Err(OpError::Ledger(LedgerError::AuthorityMismatch));
        },
    };
    let authorized = match &ctx.dac_mint.mint_authority {
        Some(m) => id_eq(m, &ma),
        None => false,
    };
    if !authorized {
        return Err(OpError::Ledger(LedgerError::AuthorityMismatch));
    }
    if ctx.dac_mint.supply.checked_add(amount).is_none() {
        return Err(OpError::Ledger(LedgerError::BalanceOverflow));
    }
    if ctx.user_dac.balance.checked_add(amount).is_none() {
        return Err(OpError::Ledger(LedgerError::BalanceOverflow));
    }
    // All checks passed: custody deposit, then issuance, then the counter.
    let user = ctx.user;
    match deposit_to_vault(&mut ctx.user_usdc, &mut ctx.usdc_vault, &user, amount) {
        Ok(()) => {},
        Err(e) => {
            return Err(OpError::Ledger(e));
        },
    }
    match issue(&mut ctx.dac_mint, &mut ctx.user_dac, &ma, amount) {
        Ok(()) => {},
        Err(e) => {
            return Err(OpError::Ledger(e));
        },
    }
    ctx.config.total_wrapped = total;
    Ok(())
}

/// Unwraps: retires `amount` of the caller's derivative balance, withdraws
/// the same amount of reserve from the vault back to the caller under the
/// derived vault authority, and shrinks the tracked total by it — or fails
/// with the error `unwrap_check` names, changing nothing. Every check runs
/// before any state changes. The conservation invariant is preserved either
/// way.
pub fn unwrap(ctx: &mut Unwrap, amount: u64) -> (r: Result<(), OpError>)
    ensures
        ({
            let va = authority_at_bump(
                vault_authority_label_spec(),
                old(ctx).config_id@,
                old(ctx).config.vault_authority_bump,
                old(ctx).program_id@,
            );
            match r {
                Ok(()) => unwrap_check(*old(ctx), va, amount) is None
                    && *final(ctx) == unwrap_effect(*old(ctx), amount),
                Err(e) => unwrap_check(*old(ctx), va, amount) == Some(e)
                    && *final(ctx) == *old(ctx),
            }
        }),
        conserved(old(ctx).config, old(ctx).usdc_vault, old(ctx).dac_mint) ==> conserved(
            final(ctx).config,
            final(ctx).usdc_vault,
            final(ctx).dac_mint,
        ),
{
    if !ctx.config.is_initialized {
        return Err(OpError::Dac(DacError::NotInitialized));
    }
    if amount == 0 {
        return Err(OpError::Dac(DacError::ZeroAmount));
    }
    if !id_eq(&ctx.dac_mint.id, &ctx.config.dac_mint) {
        return Err(OpError::Dac(DacError::MintMismatch));
    }
    if !id_eq(&ctx.user_dac.mint, &ctx.config.dac_mint) {
        return Err(OpError::Dac(DacError::MintMismatch));
    }
    if !id_eq(&ctx.user_usdc.mint, &ctx.config.usdc_mint) {
        return Err(OpError::Dac(DacError::MintMismatch));
    }
    if !id_eq(&ctx.usdc_vault.mint, &ctx.config.usdc_mint) {
        return Err(OpError::Dac(DacError::MintMismatch));
    }
    let total = match ctx.config.total_wrapped.checked_sub(amount) {
        Some(t) => t,
        None => {
            return Err(OpError::Dac(DacError::Underflow));
        },
    };
    // The retirement's preconditions, checked before anything changes.
    if !id_eq(&ctx.user, &ctx.user_dac.owner) {
        return Err(OpError::Ledger(LedgerError::AuthorityMismatch));
    }
    if ctx.user_dac.balance < amount {
        return Err(OpError::Ledger(LedgerError::InsufficientFunds));
    }
    if ctx.dac_mint.supply < amount {
        return Err(OpError::Ledger(LedgerError::InsufficientFunds));
    }
    // The withdrawal is signed by the derived vault authority, which must own
    // the vault.
    let va = match vault_authority_at(&ctx.config_id, ctx.config.vault_authority_bump, &ctx.program_id) {
        Some(a) => a,
        None => {
            return Err(OpError::Ledger(LedgerError::AuthorityMismatch));
        },
    };
    if !id_eq(&ctx.usdc_vault.owner, &va) {
        return Err(OpError::Ledger(LedgerError::AuthorityMismatch));
    }
    if ctx.usdc_vault.balance < amount {
        return Err(OpError::Ledger(LedgerError::InsufficientFunds));
    }
    if ctx.user_usdc.balance.checked_add(amount).is_none() {
        return Err(OpError::Ledger(LedgerError::BalanceOverflow));
    }
    // All checks passed: retirement, then withdrawal, then the counter.
    let user = ctx.user;
    match retire(&mut ctx.dac_mint, &mut ctx.user_dac, &user, amount) {
        Ok(()) => {},
        Err(e) => {
            return Err(OpError::Ledger(e));
        },
    }
    match withdraw_from_vault(&mut ctx.usdc_vault, &mut ctx.user_usdc, &va, amount) {
        Ok(()) => {},
        Err(e) => {
            return Err(OpError::Ledger(e));
        },
    }
    ctx.config.total_wrapped = total;
    Ok(())
}

} // verus!
