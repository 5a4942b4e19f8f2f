use vstd::prelude::*;

verus! {

/// A 32-byte ledger identity, held as four 64-bit words.
///
/// Identities name accounts, mints, authorities and treasuries on the
/// external ledger. The library never looks inside one; it only compares
/// identities for equality.
#[derive(Clone, Copy, Debug, PartialEq, Eq, Structural)]
pub struct AccountId {
    pub w0: u64,
    pub w1: u64,
    pub w2: u64,
    pub w3: u64,
}

/// A balance-holding account of the token ledger, as far as this library
/// reads it: its own address, the mint its balance is denominated in, the
/// identity holding authority over that balance, and the balance itself.
#[derive(Clone, Copy, Debug, PartialEq, Eq, Structural)]
pub struct TokenAccount {
    /// The address of the account itself.
    pub id: AccountId,
    /// The asset type the balance is denominated in.
    pub mint: AccountId,
    /// The identity with authority over the balance.
    pub owner: AccountId,
    /// The balance, in base units of the mint.
    pub amount: u64,
}

} // verus!
