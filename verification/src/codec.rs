use vstd::prelude::*;

use vstd::bytes::{
    lemma_auto_spec_u64_to_from_le_bytes, spec_u64_to_le_bytes, u64_from_le_bytes, u64_to_le_bytes,
};
use vstd::slice::{slice_index_get, slice_subrange};

use crate::account::AccountId;
use crate::config::TaxConfig;

verus! {

/// The serialized form of an identity: its four 64-bit words, little
/// endian, in order.
pub open spec fn spec_id_bytes(id: AccountId) -> Seq<u8> {
    spec_u64_to_le_bytes(id.w0) + spec_u64_to_le_bytes(id.w1) + spec_u64_to_le_bytes(id.w2)
        + spec_u64_to_le_bytes(id.w3)
}

/// The persisted payload of a policy record, 97 bytes: the authority
/// identity, one byte of percentage, the treasury wallet identity, and the
/// token mint identity.
pub open spec fn spec_config_bytes(c: TaxConfig) -> Seq<u8> {
    spec_id_bytes(c.authority) + seq![c.tax_percentage] + spec_id_bytes(c.treasury_wallet)
        + spec_id_bytes(c.token_mint)
}

fn push_word(out: &mut Vec<u8>, w: u64)
    ensures
        final(out)@ == old(out)@ + spec_u64_to_le_bytes(w),
{
    let mut b = u64_to_le_bytes(w);
    out.append(&mut b);
}

fn push_id(out: &mut Vec<u8>, id: AccountId)
    ensures
        final(out)@ == old(out)@ + spec_id_bytes(id),
{
    push_word(out, id.w0);
    push_word(out, id.w1);
    push_word(out, id.w2);
    push_word(out, id.w3);
    proof {
        assert(out@ =~= old(out)@ + spec_id_bytes(id));
    }
}

/// Serializes a policy record into its 97-byte persisted payload.
pub fn encode_tax_config(c: &TaxConfig) -> (r: Vec<u8>)
    ensures
        r@ == spec_config_bytes(*c),
        r@.len() == 97,
{
    let mut out: Vec<u8> = Vec::new();
    push_id(&mut out, c.authority);
    out.push(c.tax_percentage);
    push_id(&mut out, c.treasury_wallet);
    push_id(&mut out, c.token_mint);
    proof {
        lemma_auto_spec_u64_to_from_le_bytes();
        assert(out@ =~= spec_config_bytes(*c));
    }
    out
}

fn read_id(b: &[u8], off: usize) -> (r: AccountId)
    requires
        off + 32 <= b@.len(),
    ensures
        spec_id_bytes(r) == b@.subrange(off as int, off as int + 32),
{
    let len: usize = b.len();
    proof {
        assert(off + 32 <= len);
    }
    let w0 = u64_from_le_bytes(slice_subrange(b, off, off + 8));
    let w1 = u64_from_le_bytes(slice_subrange(b, off + 8, off + 16));
    let w2 = u64_from_le_bytes(slice_subrange(b, off + 16, off + 24));
    let w3 = u64_from_le_bytes(slice_subrange(b, off + 24, off + 32));
    let r = AccountId { w0, w1, w2, w3 };
    proof {
        lemma_auto_spec_u64_to_from_le_bytes();
        assert(spec_id_bytes(r) =~= b@.subrange(off as int, off as int + 32));
    }
    r
}

/// Deserializes a 97-byte persisted payload back into the policy record it
/// encodes; any other length is rejected. The result is exactly the record
/// whose serialization is the input.
pub fn decode_tax_config(b: &[u8]) -> (r: Option<TaxConfig>)
    ensures
        match r {
            Some(c) => b@.len() == 97 && spec_config_bytes(c) == b@,
            None => b@.len() != 97,
        },
{
    if b.len() != 97 {
        return None;
    }
    let authority = read_id(b, 0);
    let tax_percentage = *slice_index_get(b, 32);
    let treasury_wallet = read_id(b, 33);
    let token_mint = read_id(b, 65);
    let c = TaxConfig { authority, tax_percentage, treasury_wallet, token_mint };
    proof {
        lemma_auto_spec_u64_to_from_le_bytes();
        assert(spec_config_bytes(c) =~= b@);
    }
    Some(c)
}

} // verus!
