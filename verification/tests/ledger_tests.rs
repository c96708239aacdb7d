use dac_token::accounts::{Mint, TokenAccount};
use dac_token::authority::{derive_mint_authority, derive_vault_authority};
use dac_token::errors::{DacError, LedgerError, OpError};
use dac_token::ledger::{initialize, unwrap, wrap, DacConfig, Initialize, Unwrap, Wrap};

const CONFIG_ID: [u8; 32] = [7u8; 32];
const PROGRAM_ID: [u8; 32] = [9u8; 32];
const DAC_MINT: [u8; 32] = [1u8; 32];
const USDC_MINT: [u8; 32] = [2u8; 32];
const USER: [u8; 32] = [4u8; 32];

/// Runs a real initialization: derives the authorities, builds a derivative
/// mint that declares the derived mint authority, and returns the config, the
/// vault and the mint.
fn initialized_deployment() -> (DacConfig, TokenAccount, Mint) {
    let (mint_auth, _bump) =
        derive_mint_authority(&CONFIG_ID, &PROGRAM_ID).expect("no mint authority found");
    let dac_mint = Mint { id: DAC_MINT, mint_authority: Some(mint_auth), supply: 0 };
    let ctx = Initialize {
        authority: USER,
        config_id: CONFIG_ID,
        program_id: PROGRAM_ID,
        dac_mint,
        usdc_mint: USDC_MINT,
    };
    let (config, vault) = initialize(&ctx).expect("initialize failed");
    (config, vault, dac_mint)
}

fn wrap_ctx(config: DacConfig, vault: TokenAccount, dac_mint: Mint) -> Wrap {
    Wrap {
        config,
        config_id: CONFIG_ID,
        program_id: PROGRAM_ID,
        dac_mint,
        user_usdc: TokenAccount { mint: USDC_MINT, owner: USER, balance: 1000 },
        user_dac: TokenAccount { mint: DAC_MINT, owner: USER, balance: 0 },
        usdc_vault: vault,
        user: USER,
    }
}

fn unwrap_ctx_of(w: &Wrap) -> Unwrap {
    Unwrap {
        config: w.config,
        config_id: w.config_id,
        program_id: w.program_id,
        dac_mint: w.dac_mint,
        user_usdc: w.user_usdc,
        user_dac: w.user_dac,
        usdc_vault: w.usdc_vault,
        user: w.user,
    }
}

#[test]
fn initialize_records_the_deployment() {
    let (config, vault, dac_mint) = initialized_deployment();
    assert!(config.is_initialized);
    assert_eq!(config.total_wrapped, 0);
    assert_eq!(config.authority, USER);
    assert_eq!(config.dac_mint, DAC_MINT);
    assert_eq!(config.usdc_mint, USDC_MINT);
    assert_eq!(vault.mint, USDC_MINT);
    assert_eq!(vault.balance, 0);
    let (vault_auth, vault_bump) =
        derive_vault_authority(&CONFIG_ID, &PROGRAM_ID).expect("no vault authority found");
    assert_eq!(vault.owner, vault_auth);
    assert_eq!(config.vault_authority_bump, vault_bump);
    assert_eq!(dac_mint.mint_authority.unwrap(), derive_mint_authority(&CONFIG_ID, &PROGRAM_ID).unwrap().0);
}

#[test]
fn initialize_rejects_foreign_mint_authority() {
    let dac_mint = Mint { id: DAC_MINT, mint_authority: Some([8u8; 32]), supply: 0 };
    let ctx = Initialize {
        authority: USER,
        config_id: CONFIG_ID,
        program_id: PROGRAM_ID,
        dac_mint,
        usdc_mint: USDC_MINT,
    };
    assert_eq!(initialize(&ctx).unwrap_err(), OpError::Dac(DacError::InvalidMintAuthority));
}

#[test]
fn initialize_rejects_missing_mint_authority() {
    let dac_mint = Mint { id: DAC_MINT, mint_authority: None, supply: 0 };
    let ctx = Initialize {
        authority: USER,
        config_id: CONFIG_ID,
        program_id: PROGRAM_ID,
        dac_mint,
        usdc_mint: USDC_MINT,
    };
    assert_eq!(initialize(&ctx).unwrap_err(), OpError::Dac(DacError::InvalidMintAuthority));
}

#[test]
fn wrap_unwrap_scenario() {
    let (config, vault, dac_mint) = initialized_deployment();
    let mut ctx = wrap_ctx(config, vault, dac_mint);

    assert_eq!(wrap(&mut ctx, 100), Ok(()));
    assert_eq!(ctx.user_usdc.balance, 900);
    assert_eq!(ctx.user_dac.balance, 100);
    assert_eq!(ctx.usdc_vault.balance, 100);
    assert_eq!(ctx.dac_mint.supply, 100);
    assert_eq!(ctx.config.total_wrapped, 100);

    assert_eq!(wrap(&mut ctx, 50), Ok(()));
    assert_eq!(ctx.config.total_wrapped, 150);
    assert_eq!(ctx.usdc_vault.balance, 150);
    assert_eq!(ctx.dac_mint.supply, 150);

    let mut uctx = unwrap_ctx_of(&ctx);
    assert_eq!(unwrap(&mut uctx, 150), Ok(()));
    assert_eq!(uctx.user_usdc.balance, 1000);
    assert_eq!(uctx.user_dac.balance, 0);
    assert_eq!(uctx.usdc_vault.balance, 0);
    assert_eq!(uctx.dac_mint.supply, 0);
    assert_eq!(uctx.config.total_wrapped, 0);
}

#[test]
fn conservation_holds_at_every_quiescent_point() {
    let (config, vault, dac_mint) = initialized_deployment();
    let mut ctx = wrap_ctx(config, vault, dac_mint);
    let amounts: [u64; 4] = [100, 1, 250, 49];
    for a in amounts {
        assert_eq!(wrap(&mut ctx, a), Ok(()));
        assert_eq!(ctx.config.total_wrapped, ctx.usdc_vault.balance);
        assert_eq!(ctx.usdc_vault.balance, ctx.dac_mint.supply);
    }
    let mut uctx = unwrap_ctx_of(&ctx);
    for a in [75u64, 325] {
        assert_eq!(unwrap(&mut uctx, a), Ok(()));
        assert_eq!(uctx.config.total_wrapped, uctx.usdc_vault.balance);
        assert_eq!(uctx.usdc_vault.balance, uctx.dac_mint.supply);
    }
    assert_eq!(uctx.config.total_wrapped, 0);
}

#[test]
fn zero_amount_rejected() {
    let (config, vault, dac_mint) = initialized_deployment();
    let mut ctx = wrap_ctx(config, vault, dac_mint);
    assert_eq!(wrap(&mut ctx, 0), Err(OpError::Dac(DacError::ZeroAmount)));
    assert_eq!(ctx.user_usdc.balance, 1000);
    assert_eq!(ctx.config.total_wrapped, 0);
    let mut uctx = unwrap_ctx_of(&ctx);
    assert_eq!(unwrap(&mut uctx, 0), Err(OpError::Dac(DacError::ZeroAmount)));
    assert_eq!(uctx.config.total_wrapped, 0);
}

#[test]
fn pre_init_rejected() {
    let config = DacConfig {
        authority: USER,
        dac_mint: DAC_MINT,
        usdc_mint: USDC_MINT,
        vault: [3u8; 32],
        total_wrapped: 0,
        mint_authority_bump: 255,
        vault_authority_bump: 255,
        is_initialized: false,
    };
    let vault = TokenAccount { mint: USDC_MINT, owner: [3u8; 32], balance: 0 };
    let dac_mint = Mint { id: DAC_MINT, mint_authority: None, supply: 0 };
    let mut ctx = wrap_ctx(config, vault, dac_mint);
    assert_eq!(wrap(&mut ctx, 10), Err(OpError::Dac(DacError::NotInitialized)));
    assert_eq!(ctx.user_usdc.balance, 1000);
    let mut uctx = unwrap_ctx_of(&ctx);
    assert_eq!(unwrap(&mut uctx, 10), Err(OpError::Dac(DacError::NotInitialized)));
}

#[test]
fn overflow_boundary() {
    let (config, vault, dac_mint) = initialized_deployment();
    let mut ctx = wrap_ctx(config, vault, dac_mint);
    ctx.config.total_wrapped = u64::MAX - 10;
    assert_eq!(wrap(&mut ctx, 11), Err(OpError::Dac(DacError::Overflow)));
    assert_eq!(ctx.user_usdc.balance, 1000);
    assert_eq!(ctx.user_dac.balance, 0);
    assert_eq!(ctx.usdc_vault.balance, 0);
    assert_eq!(ctx.config.total_wrapped, u64::MAX - 10);
}

#[test]
fn underflow_boundary() {
    let (config, vault, dac_mint) = initialized_deployment();
    let mut ctx = wrap_ctx(config, vault, dac_mint);
    assert_eq!(wrap(&mut ctx, 100), Ok(()));
    let mut uctx = unwrap_ctx_of(&ctx);
    assert_eq!(unwrap(&mut uctx, 150), Err(OpError::Dac(DacError::Underflow)));
    assert_eq!(uctx.user_usdc.balance, 900);
    assert_eq!(uctx.user_dac.balance, 100);
    assert_eq!(uctx.usdc_vault.balance, 100);
    assert_eq!(uctx.config.total_wrapped, 100);
}

#[test]
fn mint_mismatch_rejected_before_any_transfer() {
    let (config, vault, dac_mint) = initialized_deployment();

    let mut ctx = wrap_ctx(config, vault, dac_mint);
    ctx.user_usdc.mint = [11u8; 32];
    assert_eq!(wrap(&mut ctx, 10), Err(OpError::Dac(DacError::MintMismatch)));
    assert_eq!(ctx.user_usdc.balance, 1000);
    assert_eq!(ctx.usdc_vault.balance, 0);

    let mut ctx2 = wrap_ctx(config, vault, dac_mint);
    ctx2.user_dac.mint = [12u8; 32];
    assert_eq!(wrap(&mut ctx2, 10), Err(OpError::Dac(DacError::MintMismatch)));

    let mut ctx3 = wrap_ctx(config, vault, dac_mint);
    ctx3.dac_mint.id = [13u8; 32];
    assert_eq!(wrap(&mut ctx3, 10), Err(OpError::Dac(DacError::MintMismatch)));

    let mut uctx = unwrap_ctx_of(&wrap_ctx(config, vault, dac_mint));
    uctx.user_usdc.mint = [14u8; 32];
    assert_eq!(unwrap(&mut uctx, 10), Err(OpError::Dac(DacError::MintMismatch)));
    assert_eq!(uctx.user_usdc.balance, 1000);
}

#[test]
fn insufficient_funds_propagates() {
    let (config, vault, dac_mint) = initialized_deployment();
    let mut ctx = wrap_ctx(config, vault, dac_mint);
    ctx.user_usdc.balance = 5;
    assert_eq!(wrap(&mut ctx, 10), Err(OpError::Ledger(LedgerError::InsufficientFunds)));
    assert_eq!(ctx.user_usdc.balance, 5);
    assert_eq!(ctx.usdc_vault.balance, 0);
}

#[test]
fn wrap_requires_the_callers_own_account() {
    let (config, vault, dac_mint) = initialized_deployment();
    let mut ctx = wrap_ctx(config, vault, dac_mint);
    ctx.user_usdc.owner = [21u8; 32];
    assert_eq!(wrap(&mut ctx, 10), Err(OpError::Ledger(LedgerError::AuthorityMismatch)));
    assert_eq!(ctx.user_usdc.balance, 1000);
}

#[test]
fn wrap_rejects_a_mint_with_foreign_authority() {
    let (config, vault, mut dac_mint) = initialized_deployment();
    dac_mint.mint_authority = Some([22u8; 32]);
    let mut ctx = wrap_ctx(config, vault, dac_mint);
    assert_eq!(wrap(&mut ctx, 10), Err(OpError::Ledger(LedgerError::AuthorityMismatch)));
    assert_eq!(ctx.user_usdc.balance, 1000);
    assert_eq!(ctx.usdc_vault.balance, 0);
    assert_eq!(ctx.dac_mint.supply, 0);
}

#[test]
fn wrap_rejects_a_stale_verifier_byte() {
    let (config, vault, dac_mint) = initialized_deployment();
    let mut ctx = wrap_ctx(config, vault, dac_mint);
    ctx.config.mint_authority_bump = ctx.config.mint_authority_bump.wrapping_sub(1);
    assert_eq!(wrap(&mut ctx, 10), Err(OpError::Ledger(LedgerError::AuthorityMismatch)));
    assert_eq!(ctx.usdc_vault.balance, 0);
}

#[test]
fn unwrap_rejects_a_vault_not_held_by_the_derived_authority() {
    let (config, vault, dac_mint) = initialized_deployment();
    let mut ctx = wrap_ctx(config, vault, dac_mint);
    assert_eq!(wrap(&mut ctx, 100), Ok(()));
    let mut uctx = unwrap_ctx_of(&ctx);
    uctx.usdc_vault.owner = [23u8; 32];
    assert_eq!(unwrap(&mut uctx, 50), Err(OpError::Ledger(LedgerError::AuthorityMismatch)));
    assert_eq!(uctx.usdc_vault.balance, 100);
    assert_eq!(uctx.user_dac.balance, 100);
}

#[test]
fn unwrap_requires_the_callers_own_derivative_account() {
    let (config, vault, dac_mint) = initialized_deployment();
    let mut ctx = wrap_ctx(config, vault, dac_mint);
    assert_eq!(wrap(&mut ctx, 100), Ok(()));
    let mut uctx = unwrap_ctx_of(&ctx);
    uctx.user_dac.owner = [24u8; 32];
    assert_eq!(unwrap(&mut uctx, 50), Err(OpError::Ledger(LedgerError::AuthorityMismatch)));
    assert_eq!(uctx.user_dac.balance, 100);
    assert_eq!(uctx.usdc_vault.balance, 100);
}

#[test]
fn a_full_recipient_account_aborts_the_wrap() {
    let (config, vault, dac_mint) = initialized_deployment();
    let mut ctx = wrap_ctx(config, vault, dac_mint);
    ctx.user_dac.balance = u64::MAX;
    assert_eq!(wrap(&mut ctx, 10), Err(OpError::Ledger(LedgerError::BalanceOverflow)));
    assert_eq!(ctx.user_usdc.balance, 1000);
    assert_eq!(ctx.usdc_vault.balance, 0);
    assert_eq!(ctx.user_dac.balance, u64::MAX);
}
