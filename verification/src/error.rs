use vstd::prelude::*;

verus! {

/// Why an operation was aborted. Every failure is terminal for the whole
/// operation and leaves all records and balances exactly as they were.
#[derive(Clone, Copy, Debug, PartialEq, Eq, Structural)]
pub enum TaxError {
    /// The caller has not proven control of the identity the operation
    /// requires: the authority did not sign the call, or it does not own
    /// the source balance.
    Unauthorized,
    /// A tax configuration already exists for this token mint.
    DuplicateConfig,
    /// A tax percentage above 100 was supplied or configured.
    InvalidPercentage,
    /// An account's asset type differs from the configured token mint.
    AssetMismatch,
    /// The supplied treasury account is not the configured treasury wallet.
    TreasuryMismatch,
    /// The source balance cannot cover the gross amount.
    InsufficientBalance,
}

} // verus!
