use anchor_escrow::address::Address;
use anchor_escrow::layout::{
    decode, encode, BUMP_OFFSET, MAKER_OFFSET, MINT_A_OFFSET, MINT_B_OFFSET,
    RECEIVE_AMOUNT_OFFSET, SEED_OFFSET, VAULT_BUMP_OFFSET,
};
use anchor_escrow::state::{Escrow, INIT_SPACE};
use anchor_lang::solana_program::hash::hash;

fn record() -> Escrow {
    Escrow {
        seed: 0x0102030405060708,
        maker: Address::new([1u8; 32]),
        mint_a: Address::new([3u8; 32]),
        mint_b: Address::new([4u8; 32]),
        receive_amount: 50,
        bump: 254,
        vault_bump: 253,
    }
}

#[test]
fn offsets_of_the_fields() {
    assert_eq!(SEED_OFFSET, 8);
    assert_eq!(MAKER_OFFSET, 16);
    assert_eq!(MINT_A_OFFSET, 48);
    assert_eq!(MINT_B_OFFSET, 80);
    assert_eq!(RECEIVE_AMOUNT_OFFSET, 112);
    assert_eq!(BUMP_OFFSET, 120);
    assert_eq!(VAULT_BUMP_OFFSET, 128);
}

#[test]
fn encode_puts_each_field_at_its_offset() {
    let bytes = encode(&record());
    assert_eq!(bytes.len(), INIT_SPACE);
    assert_eq!(bytes.len(), 130);
    assert_eq!(&bytes[0..8], &[31u8, 213, 123, 187, 186, 22, 218, 155]);
    assert_eq!(&bytes[8..16], &[8u8, 7, 6, 5, 4, 3, 2, 1]);
    assert_eq!(&bytes[16..48], &[1u8; 32]);
    assert_eq!(&bytes[48..80], &[3u8; 32]);
    assert_eq!(&bytes[80..112], &[4u8; 32]);
    assert_eq!(&bytes[112..120], &[50u8, 0, 0, 0, 0, 0, 0, 0]);
    assert_eq!(bytes[120], 254);
    assert_eq!(&bytes[121..128], &[0u8; 7]);
    assert_eq!(bytes[128], 253);
    assert_eq!(bytes[129], 0);
}

#[test]
fn the_tag_is_the_digest_of_the_account_name() {
    let digest = hash(b"account:Escrow").to_bytes();
    assert_eq!(&encode(&record())[0..8], &digest[0..8]);
}

#[test]
fn decode_reads_back_what_encode_wrote() {
    assert_eq!(decode(&encode(&record())), Some(record()));
    let other = Escrow { seed: u64::MAX, receive_amount: u64::MAX, bump: 0, ..record() };
    assert_eq!(decode(&encode(&other)), Some(other));
}

#[test]
fn decode_refuses_bytes_of_another_length() {
    let mut bytes = encode(&record());
    bytes.push(0);
    assert_eq!(decode(&bytes), None);
    bytes.truncate(129);
    assert_eq!(decode(&bytes), None);
    assert_eq!(decode(&Vec::new()), None);
}

#[test]
fn decode_refuses_another_tag() {
    let mut bytes = encode(&record());
    bytes[7] ^= 1;
    assert_eq!(decode(&bytes), None);
}

#[test]
fn decode_does_not_read_the_padding() {
    let mut bytes = encode(&record());
    bytes[121] = 9;
    bytes[129] = 9;
    assert_eq!(decode(&bytes), Some(record()));
}
