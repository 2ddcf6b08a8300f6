use crate::address::{address_from, lemma_address_from_view, Address};
use crate::state::{Escrow, INIT_SPACE};
use vstd::bytes::{
    lemma_auto_spec_u64_to_from_le_bytes, spec_u64_from_le_bytes, spec_u64_to_le_bytes,
    u64_from_le_bytes, u64_to_le_bytes,
};
use vstd::prelude::*;
use vstd::slice::slice_subrange;

verus! {

/// Offset of the seed in a stored record.
pub const SEED_OFFSET: usize = 8;

/// Offset of the maker's identity.
pub const MAKER_OFFSET: usize = 16;

/// Offset of the asset type offered.
pub const MINT_A_OFFSET: usize = 48;

/// Offset of the asset type asked for.
pub const MINT_B_OFFSET: usize = 80;

/// Offset of the amount asked for.
pub const RECEIVE_AMOUNT_OFFSET: usize = 112;

/// Offset of the nonce of the record's address.
pub const BUMP_OFFSET: usize = 120;

/// Offset of the nonce of the vault's address.
pub const VAULT_BUMP_OFFSET: usize = 128;

/// The tag that opens every stored record: the first eight bytes of the
/// SHA-256 digest of `account:Escrow`.
pub open spec fn record_tag() -> Seq<u8> {
    seq![31u8, 213u8, 123u8, 187u8, 186u8, 22u8, 218u8, 155u8]
}

/// `n` bytes of padding.
pub open spec fn padding(n: nat) -> Seq<u8> {
    Seq::new(n, |i: int| 0u8)
}

/// The bytes under which a record is stored: the tag, then the fields at
/// their offsets, integers in little-endian order, and zero in the bytes
/// that no field takes.
pub open spec fn encoded(record: Escrow) -> Seq<u8> {
    record_tag() + spec_u64_to_le_bytes(record.seed) + record.maker@ + record.mint_a@
        + record.mint_b@ + spec_u64_to_le_bytes(record.receive_amount) + seq![record.bump]
        + padding(7) + seq![record.vault_bump] + padding(1)
}

/// The record that stored bytes stand for: there is one where the bytes
/// are of the length of a record and open with the tag. The bytes that
/// no field takes are not read.
pub open spec fn decoded(bytes: Seq<u8>) -> Option<Escrow> {
    if bytes.len() != INIT_SPACE || bytes.subrange(0, SEED_OFFSET as int) != record_tag() {
        None
    } else {
        Some(
            Escrow {
                seed: spec_u64_from_le_bytes(
                    bytes.subrange(SEED_OFFSET as int, MAKER_OFFSET as int),
                ),
                maker: address_from(bytes.subrange(MAKER_OFFSET as int, MINT_A_OFFSET as int)),
                mint_a: address_from(bytes.subrange(MINT_A_OFFSET as int, MINT_B_OFFSET as int)),
                mint_b: address_from(
                    bytes.subrange(MINT_B_OFFSET as int, RECEIVE_AMOUNT_OFFSET as int),
                ),
                receive_amount: spec_u64_from_le_bytes(
                    bytes.subrange(RECEIVE_AMOUNT_OFFSET as int, BUMP_OFFSET as int),
                ),
                bump: bytes[BUMP_OFFSET as int],
                vault_bump: bytes[VAULT_BUMP_OFFSET as int],
            },
        )
    }
}

/// The tag, ready to be written.
fn tag_bytes() -> (v: Vec<u8>)
    ensures
        v@ == record_tag(),
{
    let mut v: Vec<u8> = Vec::new();
    v.push(31u8);
    v.push(213u8);
    v.push(123u8);
    v.push(187u8);
    v.push(186u8);
    v.push(22u8);
    v.push(218u8);
    v.push(155u8);
    assert(v@ =~= record_tag());
    v
}

/// Writes `bytes` at the end of `out`.
fn put(out: &mut Vec<u8>, bytes: &Vec<u8>)
    ensures
        final(out)@ == old(out)@ + bytes@,
{
    let mut i: usize = 0;
    while i < bytes.len()
        invariant
            i <= bytes@.len(),
            out@ == old(out)@ + bytes@.subrange(0, i as int),
        decreases bytes@.len() - i,
    {
        out.push(bytes[i]);
        assert(out@ =~= old(out)@ + bytes@.subrange(0, i + 1));
        i = i + 1;
    }
    assert(bytes@.subrange(0, i as int) =~= bytes@);
}

/// Writes `n` bytes of padding at the end of `out`.
fn pad(out: &mut Vec<u8>, n: usize)
    ensures
        final(out)@ == old(out)@ + padding(n as nat),
{
    let mut i: usize = 0;
    while i < n
        invariant
            i <= n,
            out@ == old(out)@ + padding(i as nat),
        decreases n - i,
    {
        out.push(0u8);
        assert(out@ =~= old(out)@ + padding((i + 1) as nat));
        i = i + 1;
    }
}

/// The bytes under which `record` is stored.
pub fn encode(record: &Escrow) -> (bytes: Vec<u8>)
    ensures
        bytes@ == encoded(*record),
        bytes@.len() == INIT_SPACE,
{
    let mut out: Vec<u8> = Vec::new();
    put(&mut out, &tag_bytes());
    put(&mut out, &u64_to_le_bytes(record.seed));
    put(&mut out, &record.maker.to_vec());
    put(&mut out, &record.mint_a.to_vec());
    put(&mut out, &record.mint_b.to_vec());
    put(&mut out, &u64_to_le_bytes(record.receive_amount));
    out.push(record.bump);
    pad(&mut out, 7);
    out.push(record.vault_bump);
    pad(&mut out, 1);
    assert(out@ =~= encoded(*record));
    out
}

/// The address that stands in `bytes` from `offset` on.
fn read_address(bytes: &Vec<u8>, offset: usize) -> (a: Address)
    requires
        offset + 32 <= bytes@.len(),
    ensures
        a == address_from(bytes@.subrange(offset as int, offset + 32)),
{
    let mut raw = [0u8; 32];
    let len = bytes.len();
    let mut i: usize = 0;
    while i < 32
        invariant
            i <= 32,
            offset + 32 <= len == bytes@.len(),
            forall|j: int| 0 <= j < i ==> raw@[j] == bytes@[offset + j],
        decreases 32 - i,
    {
        raw[i] = bytes[offset + i];
        i = i + 1;
    }
    let a = Address { bytes: raw };
    proof {
        assert(a@ =~= bytes@.subrange(offset as int, offset + 32));
        lemma_address_from_view(a);
    }
    a
}

/// Whether `bytes` opens with the tag.
fn has_tag(bytes: &Vec<u8>) -> (r: bool)
    requires
        bytes@.len() >= 8,
    ensures
        r == (bytes@.subrange(0, 8) == record_tag()),
{
    let tag = tag_bytes();
    let mut i: usize = 0;
    while i < 8
        invariant
            i <= 8,
            bytes@.len() >= 8,
            tag@ == record_tag(),
            forall|j: int| 0 <= j < i ==> bytes@[j] == tag@[j],
        decreases 8 - i,
    {
        if bytes[i] != tag[i] {
            assert(bytes@.subrange(0, 8)[i as int] != record_tag()[i as int]);
            return false;
        }
        i = i + 1;
    }
    assert(bytes@.subrange(0, 8) =~= record_tag());
    true
}

/// Reads a stored record.
pub fn decode(bytes: &Vec<u8>) -> (r: Option<Escrow>)
    ensures
        r == decoded(bytes@),
{
    if bytes.len() != INIT_SPACE || !has_tag(bytes) {
        return None;
    }
    let seed = u64_from_le_bytes(slice_subrange(bytes.as_slice(), SEED_OFFSET, MAKER_OFFSET));
    let receive_amount = u64_from_le_bytes(
        slice_subrange(bytes.as_slice(), RECEIVE_AMOUNT_OFFSET, BUMP_OFFSET),
    );
    Some(
        Escrow {
            seed,
            maker: read_address(bytes, MAKER_OFFSET),
            mint_a: read_address(bytes, MINT_A_OFFSET),
            mint_b: read_address(bytes, MINT_B_OFFSET),
            receive_amount,
            bump: bytes[BUMP_OFFSET],
            vault_bump: bytes[VAULT_BUMP_OFFSET],
        },
    )
}

/// A record takes exactly its storage, each field stands at its offset,
/// and what was stored is read back as it was.
pub proof fn law_layout_round_trip(record: Escrow)
    ensures
        encoded(record).len() == INIT_SPACE,
        encoded(record).subrange(0, SEED_OFFSET as int) == record_tag(),
        encoded(record).subrange(SEED_OFFSET as int, MAKER_OFFSET as int) == spec_u64_to_le_bytes(
            record.seed,
        ),
        encoded(record).subrange(MAKER_OFFSET as int, MINT_A_OFFSET as int) == record.maker@,
        encoded(record).subrange(MINT_A_OFFSET as int, MINT_B_OFFSET as int) == record.mint_a@,
        encoded(record).subrange(MINT_B_OFFSET as int, RECEIVE_AMOUNT_OFFSET as int)
            == record.mint_b@,
        encoded(record).subrange(RECEIVE_AMOUNT_OFFSET as int, BUMP_OFFSET as int)
            == spec_u64_to_le_bytes(record.receive_amount),
        encoded(record)[BUMP_OFFSET as int] == record.bump,
        encoded(record)[VAULT_BUMP_OFFSET as int] == record.vault_bump,
        decoded(encoded(record)) == Some(record),
{
    let bytes = encoded(record);
    lemma_auto_spec_u64_to_from_le_bytes();
    assert(spec_u64_to_le_bytes(record.seed).len() == 8);
    assert(spec_u64_to_le_bytes(record.receive_amount).len() == 8);
    assert(bytes.len() == 130);
    assert(bytes.subrange(0, 8) =~= record_tag());
    assert(bytes.subrange(8, 16) =~= spec_u64_to_le_bytes(record.seed));
    assert(bytes.subrange(16, 48) =~= record.maker@);
    assert(bytes.subrange(48, 80) =~= record.mint_a@);
    assert(bytes.subrange(80, 112) =~= record.mint_b@);
    assert(bytes.subrange(112, 120) =~= spec_u64_to_le_bytes(record.receive_amount));
    lemma_address_from_view(record.maker);
    lemma_address_from_view(record.mint_a);
    lemma_address_from_view(record.mint_b);
}

} // verus!
