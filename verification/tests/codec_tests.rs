use token_tax::account::AccountId;
use token_tax::codec::{decode_tax_config, encode_tax_config};
use token_tax::config::TaxConfig;

fn sample_config() -> TaxConfig {
    TaxConfig {
        authority: AccountId { w0: 0x0807060504030201, w1: 2, w2: 3, w3: 4 },
        tax_percentage: 7,
        treasury_wallet: AccountId { w0: 5, w1: 6, w2: 7, w3: 8 },
        token_mint: AccountId { w0: 9, w1: 10, w2: 11, w3: u64::MAX },
    }
}

#[test]
fn codec_round_trip() {
    let c = sample_config();
    let bytes = encode_tax_config(&c);
    assert_eq!(bytes.len(), 97);
    let back = decode_tax_config(&bytes).unwrap();
    assert_eq!(back, c);
}

#[test]
fn codec_layout_is_little_endian_in_field_order() {
    let c = sample_config();
    let bytes = encode_tax_config(&c);
    // authority.w0, little endian, leads the payload
    assert_eq!(&bytes[0..8], &[1, 2, 3, 4, 5, 6, 7, 8]);
    // the percentage byte sits right after the 32-byte authority
    assert_eq!(bytes[32], 7);
    // treasury_wallet.w0 == 5 follows the percentage byte
    assert_eq!(&bytes[33..41], &[5, 0, 0, 0, 0, 0, 0, 0]);
    // token_mint.w3 == u64::MAX closes the payload
    assert_eq!(&bytes[89..97], &[0xff; 8]);
}

#[test]
fn codec_rejects_wrong_length() {
    assert!(decode_tax_config(&[0u8; 96]).is_none());
    assert!(decode_tax_config(&[0u8; 98]).is_none());
    assert!(decode_tax_config(&[]).is_none());
}
