use vstd::prelude::*;

verus! {

/// The portion of a gross `amount` diverted to the treasury under a policy
/// of `tax_percentage`: `floor(amount * tax_percentage / 100)`.
pub open spec fn spec_tax_amount(amount: int, tax_percentage: int) -> int {
    (amount * tax_percentage) / 100
}

/// The portion of a gross `amount` forwarded to the destination: whatever
/// the tax leg leaves. Rounding in the tax leg therefore always favors the
/// recipient, never the treasury.
pub open spec fn spec_transfer_amount(amount: int, tax_percentage: int) -> int {
    amount - spec_tax_amount(amount, tax_percentage)
}

/// For percentages in `[0, 100]` the tax leg never exceeds the gross amount.
pub proof fn lemma_tax_amount_bounds(amount: int, tax_percentage: int)
    requires
        0 <= amount,
        0 <= tax_percentage <= 100,
    ensures
        0 <= spec_tax_amount(amount, tax_percentage) <= amount,
{
    assert(0 <= (amount * tax_percentage) / 100 <= amount) by (nonlinear_arith)
        requires
            0 <= amount,
            0 <= tax_percentage <= 100,
    ;
}

/// No value is created or destroyed by the split: the tax leg and the
/// transfer leg always sum to the gross amount, and each leg on its own
/// lies within `[0, amount]`.
pub proof fn lemma_split_conservation(amount: u64, tax_percentage: u8)
    requires
        tax_percentage <= 100,
    ensures
        spec_tax_amount(amount as int, tax_percentage as int)
            + spec_transfer_amount(amount as int, tax_percentage as int) == amount,
        0 <= spec_tax_amount(amount as int, tax_percentage as int) <= amount,
        0 <= spec_transfer_amount(amount as int, tax_percentage as int) <= amount,
{
    lemma_tax_amount_bounds(amount as int, tax_percentage as int);
}

/// Splits a gross amount into `(tax_amount, transfer_amount)`.
///
/// The multiplication runs at 128 bits, so the widening product
/// `amount * tax_percentage` cannot overflow for any 64-bit amount; the
/// division then brings the tax leg back under `amount`, so both legs fit
/// in 64 bits again.
pub fn compute_tax_split(amount: u64, tax_percentage: u8) -> (r: (u64, u64))
    requires
        tax_percentage <= 100,
    ensures
        r.0 == spec_tax_amount(amount as int, tax_percentage as int),
        r.1 == spec_transfer_amount(amount as int, tax_percentage as int),
        r.0 + r.1 == amount,
{
    proof {
        lemma_tax_amount_bounds(amount as int, tax_percentage as int);
    }
    let wide: u128 = (amount as u128) * (tax_percentage as u128);
    let tax_amount: u64 = (wide / 100) as u64;
    let transfer_amount: u64 = amount - tax_amount;
    (tax_amount, transfer_amount)
}

} // verus!
