//! The ledger's laws, stated and proved over the operations' spec functions.
//!
//! `wrap_check` / `unwrap_check` and `wrap_effect` / `unwrap_effect` are
//! exactly what the executable operations' contracts are stated with, so each
//! lemma here is a statement about every real call.

use vstd::prelude::*;
use crate::accounts::{Mint, TokenAccount};
use crate::errors::{DacError, OpError};
use crate::ledger::{
    conserved, matching_unwrap, unwrap_check, unwrap_effect, wrap_check, wrap_effect, DacConfig,
    Unwrap, Wrap,
};

verus! {

/// The three conserved quantities of a snapshot: the tracked total, the
/// vault's reserve balance and the outstanding derivative supply.
pub open spec fn totals(config: DacConfig, vault: TokenAccount, dac_mint: Mint) -> (u64, u64, u64) {
    (config.total_wrapped, vault.balance, dac_mint.supply)
}

/// Runs a sequence of steps over a snapshot of the three conserved
/// quantities. A step `(true, x)` moves all three up by `x`, as a successful
/// wrap does; a step `(false, x)` moves all three down by `x`, as a
/// successful unwrap does.
pub open spec fn apply_steps(s: (u64, u64, u64), ops: Seq<(bool, u64)>) -> (u64, u64, u64)
    decreases ops.len(),
{
    if ops.len() == 0 {
        s
    } else {
        let prev = apply_steps(s, ops.drop_last());
        let (up, x) = ops.last();
        if up {
            ((prev.0 + x) as u64, (prev.1 + x) as u64, (prev.2 + x) as u64)
        } else {
            ((prev.0 - x) as u64, (prev.1 - x) as u64, (prev.2 - x) as u64)
        }
    }
}

/// A successful wrap is one upward step of the three conserved quantities.
pub proof fn lemma_wrap_effect_is_step(ctx: Wrap, amount: u64)
    ensures
        ({
            let c2 = wrap_effect(ctx, amount);
            totals(c2.config, c2.usdc_vault, c2.dac_mint) == apply_steps(
                totals(ctx.config, ctx.usdc_vault, ctx.dac_mint),
                seq![(true, amount)],
            )
        }),
{
    let start = totals(ctx.config, ctx.usdc_vault, ctx.dac_mint);
    let ops: Seq<(bool, u64)> = seq![(true, amount)];
    assert(ops.drop_last() =~= Seq::<(bool, u64)>::empty());
    assert(ops.last() == (true, amount));
    assert(apply_steps(start, Seq::<(bool, u64)>::empty()) == start);
}

/// A successful unwrap is one downward step of the three conserved
/// quantities.
pub proof fn lemma_unwrap_effect_is_step(ctx: Unwrap, amount: u64)
    ensures
        ({
            let c2 = unwrap_effect(ctx, amount);
            totals(c2.config, c2.usdc_vault, c2.dac_mint) == apply_steps(
                totals(ctx.config, ctx.usdc_vault, ctx.dac_mint),
                seq![(false, amount)],
            )
        }),
{
    let start = totals(ctx.config, ctx.usdc_vault, ctx.dac_mint);
    let ops: Seq<(bool, u64)> = seq![(false, amount)];
    assert(ops.drop_last() =~= Seq::<(bool, u64)>::empty());
    assert(ops.last() == (false, amount));
    assert(apply_steps(start, Seq::<(bool, u64)>::empty()) == start);
}

/// Conservation: from a conserved snapshot, any sequence of steps that moves
/// the three quantities together — as every successful wrap and unwrap does —
/// ends in a conserved snapshot.
pub proof fn lemma_conservation_over_sequence(start: (u64, u64, u64), ops: Seq<(bool, u64)>)
    requires
        start.0 == start.1 && start.1 == start.2,
    ensures
        ({
            let end = apply_steps(start, ops);
            end.0 == end.1 && end.1 == end.2
        }),
    decreases ops.len(),
{
    if ops.len() > 0 {
        lemma_conservation_over_sequence(start, ops.drop_last());
    }
}

/// Conservation, one wrap at a time: a successful wrap maps a conserved
/// snapshot to a conserved snapshot.
pub proof fn lemma_wrap_preserves_conservation(ctx: Wrap, ma: Option<Seq<u8>>, amount: u64)
    requires
        conserved(ctx.config, ctx.usdc_vault, ctx.dac_mint),
        wrap_check(ctx, ma, amount) is None,
    ensures
        ({
            let c2 = wrap_effect(ctx, amount);
            conserved(c2.config, c2.usdc_vault, c2.dac_mint)
        }),
{
}

/// Conservation, one unwrap at a time: a successful unwrap maps a conserved
/// snapshot to a conserved snapshot.
pub proof fn lemma_unwrap_preserves_conservation(ctx: Unwrap, va: Option<Seq<u8>>, amount: u64)
    requires
        conserved(ctx.config, ctx.usdc_vault, ctx.dac_mint),
        unwrap_check(ctx, va, amount) is None,
    ensures
        ({
            let c2 = unwrap_effect(ctx, amount);
            conserved(c2.config, c2.usdc_vault, c2.dac_mint)
        }),
{
}

/// Round trip: when a wrap of `amount` succeeds, and the caller holds the
/// derivative account while the vault is held by the derived vault authority,
/// the unwrap of the same amount over the same accounts succeeds too and
/// restores every balance and the tracked total to their pre-wrap values.
pub proof fn lemma_round_trip(ctx: Wrap, ma: Option<Seq<u8>>, va: Option<Seq<u8>>, amount: u64)
    requires
        wrap_check(ctx, ma, amount) is None,
        ctx.user_dac.owner@ == ctx.user@,
        va matches Some(a) && ctx.usdc_vault.owner@ == a,
    ensures
        ({
            let wrapped = matching_unwrap(wrap_effect(ctx, amount));
            unwrap_check(wrapped, va, amount) is None
                && unwrap_effect(wrapped, amount) == matching_unwrap(ctx)
        }),
{
}

/// Zero rejection: an initialized ledger refuses a wrap or unwrap of amount
/// zero with ZeroAmount, whatever else the request holds. (Before
/// initialization the refusal is NotInitialized instead.)
pub proof fn lemma_zero_amount_rejected(
    wctx: Wrap,
    uctx: Unwrap,
    ma: Option<Seq<u8>>,
    va: Option<Seq<u8>>,
)
    requires
        wctx.config.is_initialized,
        uctx.config.is_initialized,
    ensures
        wrap_check(wctx, ma, 0) == Some(OpError::Dac(DacError::ZeroAmount)),
        unwrap_check(uctx, va, 0) == Some(OpError::Dac(DacError::ZeroAmount)),
{
}

/// Pre-init rejection: before initialization every wrap and unwrap fails with
/// NotInitialized.
pub proof fn lemma_uninitialized_rejected(
    wctx: Wrap,
    uctx: Unwrap,
    ma: Option<Seq<u8>>,
    va: Option<Seq<u8>>,
    amount: u64,
)
    requires
        !wctx.config.is_initialized,
        !uctx.config.is_initialized,
    ensures
        wrap_check(wctx, ma, amount) == Some(OpError::Dac(DacError::NotInitialized)),
        unwrap_check(uctx, va, amount) == Some(OpError::Dac(DacError::NotInitialized)),
{
}

/// Overflow boundary: a wrap whose amount would push the tracked total past
/// the 64-bit maximum fails with Overflow — and, by the operation's contract,
/// mutates nothing.
pub proof fn lemma_overflow_rejected(ctx: Wrap, ma: Option<Seq<u8>>, amount: u64)
    requires
        ctx.config.is_initialized,
        amount > 0,
        ctx.dac_mint.id@ == ctx.config.dac_mint@,
        ctx.user_usdc.mint@ == ctx.config.usdc_mint@,
        ctx.user_dac.mint@ == ctx.config.dac_mint@,
        ctx.usdc_vault.mint@ == ctx.config.usdc_mint@,
        ctx.config.total_wrapped + amount > u64::MAX,
    ensures
        wrap_check(ctx, ma, amount) == Some(OpError::Dac(DacError::Overflow)),
{
}

/// Underflow boundary: an unwrap of more than the current tracked total fails
/// with Underflow — and, by the operation's contract, mutates nothing.
pub proof fn lemma_underflow_rejected(ctx: Unwrap, va: Option<Seq<u8>>, amount: u64)
    requires
        ctx.config.is_initialized,
        ctx.dac_mint.id@ == ctx.config.dac_mint@,
        ctx.user_dac.mint@ == ctx.config.dac_mint@,
        ctx.user_usdc.mint@ == ctx.config.usdc_mint@,
        ctx.usdc_vault.mint@ == ctx.config.usdc_mint@,
        amount > ctx.config.total_wrapped,
    ensures
        unwrap_check(ctx, va, amount) == Some(OpError::Dac(DacError::Underflow)),
{
}

/// Mint identity enforcement, wrap side: any account whose asset identity
/// differs from the configured one makes the wrap fail with MintMismatch
/// before any transfer.
pub proof fn lemma_mint_mismatch_rejected_wrap(ctx: Wrap, ma: Option<Seq<u8>>, amount: u64)
    requires
        ctx.config.is_initialized,
        amount > 0,
        ctx.dac_mint.id@ != ctx.config.dac_mint@ || ctx.user_usdc.mint@ != ctx.config.usdc_mint@
            || ctx.user_dac.mint@ != ctx.config.dac_mint@ || ctx.usdc_vault.mint@
            != ctx.config.usdc_mint@,
    ensures
        wrap_check(ctx, ma, amount) == Some(OpError::Dac(DacError::MintMismatch)),
{
}

/// Mint identity enforcement, unwrap side.
pub proof fn lemma_mint_mismatch_rejected_unwrap(ctx: Unwrap, va: Option<Seq<u8>>, amount: u64)
    requires
        ctx.config.is_initialized,
        amount > 0,
        ctx.dac_mint.id@ != ctx.config.dac_mint@ || ctx.user_dac.mint@ != ctx.config.dac_mint@
            || ctx.user_usdc.mint@ != ctx.config.usdc_mint@ || ctx.usdc_vault.mint@
            != ctx.config.usdc_mint@,
    ensures
        unwrap_check(ctx, va, amount) == Some(OpError::Dac(DacError::MintMismatch)),
{
}

} // verus!
