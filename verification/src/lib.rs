//! A fee-on-transfer policy for a fungible-token ledger.
//!
//! Every transfer of tokens additionally routes a configurable percentage of
//! the gross amount to a designated treasury account. The library holds the
//! two state transitions at the heart of that policy — creating the per-mint
//! tax configuration, and executing a tax-split transfer — together with the
//! validation that must pass before either touches ledger state. Each
//! operation either fully succeeds or aborts with a specific error and no
//! partial effect.
//!
//! The balance-storage and signature substrate is an external ledger service:
//! the host performs account allocation and signer verification and hands the
//! library plain values (identities, balances, a signer flag). The library
//! decides and computes; the host applies the result.

pub mod account;
pub mod codec;
pub mod config;
pub mod error;
pub mod tax;
pub mod transfer;
