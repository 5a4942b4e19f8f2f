use vstd::prelude::*;

use crate::account::{AccountId, TokenAccount};
use crate::config::TaxConfig;
use crate::error::TaxError;
use crate::tax::{
    compute_tax_split, lemma_tax_amount_bounds, spec_tax_amount, spec_transfer_amount,
};

verus! {

/// Everything one taxed transfer touches: the policy record for the mint
/// being moved, the three balance accounts, and the calling identity. The
/// request is transient — it lives for one call of `transfer_with_tax`.
#[derive(Clone, Copy, Debug)]
pub struct TransferWithTax {
    /// The policy record governing the mint being moved.
    pub tax_config: TaxConfig,
    /// The account debited by the gross amount.
    pub source: TokenAccount,
    /// The account receiving the after-tax amount.
    pub destination: TokenAccount,
    /// The account receiving the tax amount.
    pub treasury: TokenAccount,
    /// The identity authorizing the debit of `source`.
    pub authority: AccountId,
    /// Whether the host verified `authority`'s signature for this call.
    pub authority_is_signer: bool,
}

/// The error a given transfer aborts with, if any, checked in this order:
/// a configured percentage above 100 is `InvalidPercentage`; an unsigned
/// call, or an authority that does not own the source balance, is
/// `Unauthorized`; an account denominated in anything but the configured
/// mint is `AssetMismatch`; a treasury account other than the configured
/// treasury wallet is `TreasuryMismatch`; a source balance below the gross
/// amount is `InsufficientBalance`.
pub open spec fn spec_transfer_error(ctx: TransferWithTax, amount: u64) -> Option<TaxError> {
    if ctx.tax_config.tax_percentage > 100 {
        Some(TaxError::InvalidPercentage)
    } else if !ctx.authority_is_signer || ctx.source.owner != ctx.authority {
        Some(TaxError::Unauthorized)
    } else if ctx.source.mint != ctx.tax_config.token_mint
        || ctx.destination.mint != ctx.tax_config.token_mint
        || ctx.treasury.mint != ctx.tax_config.token_mint {
        Some(TaxError::AssetMismatch)
    } else if ctx.treasury.id != ctx.tax_config.treasury_wallet {
        Some(TaxError::TreasuryMismatch)
    } else if ctx.source.amount < amount {
        Some(TaxError::InsufficientBalance)
    } else {
        None
    }
}

/// The request after a successful transfer: the source loses the gross
/// amount, the destination gains the after-tax leg, the treasury gains the
/// tax leg; nothing else — not the policy record, not any account's
/// address, mint or owner — changes.
pub open spec fn spec_transfer_result(ctx: TransferWithTax, amount: u64) -> TransferWithTax {
    let pct = ctx.tax_config.tax_percentage as int;
    let tax = spec_tax_amount(amount as int, pct);
    let forwarded = spec_transfer_amount(amount as int, pct);
    TransferWithTax {
        source: TokenAccount { amount: (ctx.source.amount - amount) as u64, ..ctx.source },
        destination: TokenAccount {
            amount: (ctx.destination.amount + forwarded) as u64,
            ..ctx.destination
        },
        treasury: TokenAccount { amount: (ctx.treasury.amount + tax) as u64, ..ctx.treasury },
        ..ctx
    }
}

/// Executes one taxed transfer: splits the gross `amount` into
/// `floor(amount * tax_percentage / 100)` for the treasury and the rest
/// for the destination, then moves both legs out of the source.
///
/// The call is atomic: either every check passes and exactly the two
/// balance movements happen, or it aborts with the specific error and no
/// balance changes. The two receiving balances must have room for their
/// legs — the one limit the 64-bit balance representation forces.
pub fn transfer_with_tax(ctx: &mut TransferWithTax, amount: u64) -> (r: Result<(), TaxError>)
    requires
        spec_transfer_error(*old(ctx), amount) is None ==> {
            let pct = old(ctx).tax_config.tax_percentage as int;
            &&& old(ctx).destination.amount + spec_transfer_amount(amount as int, pct)
                <= u64::MAX
            &&& old(ctx).treasury.amount + spec_tax_amount(amount as int, pct) <= u64::MAX
        },
    ensures
        match spec_transfer_error(*old(ctx), amount) {
            Some(e) => r == Err::<(), TaxError>(e) && *final(ctx) == *old(ctx),
            None => r == Ok::<(), TaxError>(()) && *final(ctx) == spec_transfer_result(
                *old(ctx),
                amount,
            ),
        },
{
    if ctx.tax_config.tax_percentage > 100 {
        return Err(TaxError::InvalidPercentage);
    }
    if !ctx.authority_is_signer || ctx.source.owner != ctx.authority {
        return Err(TaxError::Unauthorized);
    }
    if ctx.source.mint != ctx.tax_config.token_mint
        || ctx.destination.mint != ctx.tax_config.token_mint
        || ctx.treasury.mint != ctx.tax_config.token_mint {
        return Err(TaxError::AssetMismatch);
    }
    if ctx.treasury.id != ctx.tax_config.treasury_wallet {
        return Err(TaxError::TreasuryMismatch);
    }
    if ctx.source.amount < amount {
        return Err(TaxError::InsufficientBalance);
    }
    let (tax_amount, transfer_amount) = compute_tax_split(amount, ctx.tax_config.tax_percentage);
    ctx.source.amount = ctx.source.amount - amount;
    ctx.destination.amount = ctx.destination.amount + transfer_amount;
    ctx.treasury.amount = ctx.treasury.amount + tax_amount;
    Ok(())
}

/// A transfer that would overdraw the source aborts with
/// `InsufficientBalance`: for an otherwise valid request whose gross
/// amount exceeds the source balance, the computed outcome is exactly that
/// error — and, by `transfer_with_tax`'s contract, an aborted call leaves
/// the source, destination and treasury balances unchanged.
pub proof fn lemma_insufficient_balance_rejected(ctx: TransferWithTax, amount: u64)
    requires
        ctx.tax_config.tax_percentage <= 100,
        ctx.authority_is_signer,
        ctx.source.owner == ctx.authority,
        ctx.source.mint == ctx.tax_config.token_mint,
        ctx.destination.mint == ctx.tax_config.token_mint,
        ctx.treasury.mint == ctx.tax_config.token_mint,
        ctx.treasury.id == ctx.tax_config.treasury_wallet,
        ctx.source.amount < amount,
    ensures
        spec_transfer_error(ctx, amount) == Some(TaxError::InsufficientBalance),
{
}

/// Across a successful transfer the three balances in play sum to what
/// they summed to before: the split moves value between accounts, it never
/// creates or destroys any.
pub proof fn lemma_transfer_preserves_total(ctx: TransferWithTax, amount: u64)
    requires
        spec_transfer_error(ctx, amount) is None,
        ctx.destination.amount + spec_transfer_amount(
            amount as int,
            ctx.tax_config.tax_percentage as int,
        ) <= u64::MAX,
        ctx.treasury.amount + spec_tax_amount(
            amount as int,
            ctx.tax_config.tax_percentage as int,
        ) <= u64::MAX,
    ensures
        ({
            let after = spec_transfer_result(ctx, amount);
            after.source.amount + after.destination.amount + after.treasury.amount
                == ctx.source.amount + ctx.destination.amount + ctx.treasury.amount
        }),
{
    lemma_tax_amount_bounds(amount as int, ctx.tax_config.tax_percentage as int);
}

} // verus!
