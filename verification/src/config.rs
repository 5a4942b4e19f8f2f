use vstd::prelude::*;

use crate::account::AccountId;
use crate::error::TaxError;

verus! {

/// The per-mint tax policy: one record per token mint, created once and
/// immutable thereafter. Read on every taxed transfer of that mint.
#[derive(Clone, Copy, Debug, PartialEq, Eq, Structural)]
pub struct TaxConfig {
    /// The identity that created the record. Recorded for audit; this
    /// library defines no authority-gated mutation of the record.
    pub authority: AccountId,
    /// The fraction of every transfer diverted to the treasury, in
    /// `[0, 100]`.
    pub tax_percentage: u8,
    /// The account that receives the diverted fraction.
    pub treasury_wallet: AccountId,
    /// The asset type this policy governs.
    pub token_mint: AccountId,
}

impl TaxConfig {
    /// Bytes of persisted payload: three 32-byte identities and one byte
    /// of percentage.
    pub const LEN: usize = 32 + 1 + 32 + 32;

    /// A record is well formed when its percentage is a meaningful
    /// fraction of a transfer.
    pub open spec fn wf(self) -> bool {
        self.tax_percentage <= 100
    }
}

/// Whether some record in `configs` already governs `mint`.
pub open spec fn spec_has_mint(configs: Seq<TaxConfig>, mint: AccountId) -> bool {
    exists|i: int| 0 <= i < configs.len() && configs[i].token_mint == mint
}

/// A well-formed store: at most one record per mint, every record well
/// formed.
pub open spec fn store_wf(configs: Seq<TaxConfig>) -> bool {
    &&& forall|i: int, j: int|
        0 <= i < j < configs.len() ==> configs[i].token_mint != configs[j].token_mint
    &&& forall|i: int| 0 <= i < configs.len() ==> configs[i].wf()
}

/// The store of tax policies the ledger holds, viewed as the sequence of
/// records in order of creation.
pub struct TaxStore {
    configs: Vec<TaxConfig>,
}

impl View for TaxStore {
    type V = Seq<TaxConfig>;

    closed spec fn view(&self) -> Seq<TaxConfig> {
        self.configs@
    }
}

impl TaxStore {
    /// An empty store: no mint is governed yet.
    pub fn new() -> (r: TaxStore)
        ensures
            r@ == Seq::<TaxConfig>::empty(),
            store_wf(r@),
    {
        TaxStore { configs: Vec::new() }
    }

    /// How many mints have a policy.
    pub fn len(&self) -> (r: usize)
        ensures
            r == self@.len(),
    {
        self.configs.len()
    }

    /// Whether a policy record for `mint` already exists.
    pub fn contains_mint(&self, mint: AccountId) -> (r: bool)
        ensures
            r == spec_has_mint(self@, mint),
    {
        let mut i: usize = 0;
        while i < self.configs.len()
            invariant
                0 <= i <= self.configs.len(),
                forall|j: int| 0 <= j < i ==> self.configs@[j].token_mint != mint,
            decreases self.configs.len() - i,
        {
            if self.configs[i].token_mint == mint {
                return true;
            }
            i = i + 1;
        }
        false
    }

    /// The policy record governing `mint`, if one exists. In a well-formed
    /// store there is at most one, so the result is fully determined.
    pub fn config_for_mint(&self, mint: AccountId) -> (r: Option<TaxConfig>)
        ensures
            match r {
                Some(c) => self@.contains(c) && c.token_mint == mint,
                None => !spec_has_mint(self@, mint),
            },
    {
        let mut i: usize = 0;
        while i < self.configs.len()
            invariant
                0 <= i <= self.configs.len(),
                forall|j: int| 0 <= j < i ==> self.configs@[j].token_mint != mint,
            decreases self.configs.len() - i,
        {
            if self.configs[i].token_mint == mint {
                let c = self.configs[i];
                assert(self@[i as int] == c);
                return Some(c);
            }
            i = i + 1;
        }
        None
    }
}

/// The requesting side of one initialization call: the identity creating
/// the record, whether the host verified its signature for this call, and
/// the asset type the new policy is to govern.
#[derive(Clone, Copy, Debug)]
pub struct InitializeTaxConfig {
    /// The identity creating the record.
    pub authority: AccountId,
    /// Whether the host verified `authority`'s signature for this call.
    pub authority_is_signer: bool,
    /// The asset type the new policy governs.
    pub token_mint: AccountId,
}

/// The error a given initialization aborts with, if any, checked in this
/// order: an unsigned call is `Unauthorized`; a percentage above 100 is
/// `InvalidPercentage`; a mint that already has a record is
/// `DuplicateConfig`.
pub open spec fn spec_initialize_error(
    configs: Seq<TaxConfig>,
    ctx: InitializeTaxConfig,
    tax_percentage: u8,
) -> Option<TaxError> {
    if !ctx.authority_is_signer {
        Some(TaxError::Unauthorized)
    } else if tax_percentage > 100 {
        Some(TaxError::InvalidPercentage)
    } else if spec_has_mint(configs, ctx.token_mint) {
        Some(TaxError::DuplicateConfig)
    } else {
        None
    }
}

/// The record a successful initialization appends.
pub open spec fn spec_new_config(
    ctx: InitializeTaxConfig,
    tax_percentage: u8,
    treasury_wallet: AccountId,
) -> TaxConfig {
    TaxConfig {
        authority: ctx.authority,
        tax_percentage: tax_percentage,
        treasury_wallet: treasury_wallet,
        token_mint: ctx.token_mint,
    }
}

/// Creates the tax policy for a mint.
///
/// The whole call either appends exactly one record — carrying the given
/// authority, percentage, treasury wallet and mint — or aborts with the
/// specific error and changes nothing. Creation is once per mint: a mint
/// that already has a record is rejected with `DuplicateConfig`.
pub fn initialize_tax_config(
    store: &mut TaxStore,
    ctx: &InitializeTaxConfig,
    tax_percentage: u8,
    treasury_wallet: AccountId,
) -> (r: Result<(), TaxError>)
    requires
        store_wf(old(store)@),
    ensures
        store_wf(final(store)@),
        match spec_initialize_error(old(store)@, *ctx, tax_percentage) {
            Some(e) => r == Err::<(), TaxError>(e) && final(store)@ == old(store)@,
            None => r == Ok::<(), TaxError>(()) && final(store)@ == old(store)@.push(
                spec_new_config(*ctx, tax_percentage, treasury_wallet),
            ),
        },
{
    if !ctx.authority_is_signer {
        return Err(TaxError::Unauthorized);
    }
    if tax_percentage > 100 {
        return Err(TaxError::InvalidPercentage);
    }
    if store.contains_mint(ctx.token_mint) {
        return Err(TaxError::DuplicateConfig);
    }
    let record = TaxConfig {
        authority: ctx.authority,
        tax_percentage: tax_percentage,
        treasury_wallet: treasury_wallet,
        token_mint: ctx.token_mint,
    };
    store.configs.push(record);
    Ok(())
}

/// Initializing twice for the same mint fails: once a record for a mint
/// stands in the store, any further well-signed, well-bounded
/// initialization for that mint aborts with `DuplicateConfig` — and, by
/// `initialize_tax_config`'s contract, an aborted call leaves the store,
/// hence the first record, untouched.
pub proof fn lemma_initialize_twice_rejected(
    configs: Seq<TaxConfig>,
    first: InitializeTaxConfig,
    first_percentage: u8,
    first_treasury: AccountId,
    second: InitializeTaxConfig,
    second_percentage: u8,
)
    requires
        spec_initialize_error(configs, first, first_percentage) is None,
        second.token_mint == first.token_mint,
        second.authority_is_signer,
        second_percentage <= 100,
    ensures
        spec_initialize_error(
            configs.push(spec_new_config(first, first_percentage, first_treasury)),
            second,
            second_percentage,
        ) == Some(TaxError::DuplicateConfig),
{
    let pushed = configs.push(spec_new_config(first, first_percentage, first_treasury));
    assert(pushed[configs.len() as int].token_mint == second.token_mint);
}

} // verus!
