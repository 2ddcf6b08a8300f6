use crate::error::EscrowError;
use anchor_lang::prelude::Pubkey;
use vstd::bytes::{spec_u64_to_le_bytes, u64_to_le_bytes};
use vstd::prelude::*;

verus! {

/// A 32-byte account identifier: a key holder's identity, an asset type,
/// or the derived address of a record or vault.
#[derive(Clone, Copy, Debug, PartialEq, Eq)]
pub struct Address {
    pub bytes: [u8; 32],
}

impl View for Address {
    type V = Seq<u8>;

    open spec fn view(&self) -> Seq<u8> {
        self.bytes@
    }
}

impl Address {
    /// The address of the bytes given.
    pub fn new(bytes: [u8; 32]) -> (a: Address)
        ensures
            a.bytes == bytes,
    {
        Address { bytes }
    }

    /// The bytes of the address.
    pub fn to_bytes(&self) -> (bytes: [u8; 32])
        ensures
            bytes == self.bytes,
    {
        self.bytes
    }

    /// Two addresses with the same bytes are the same address.
    pub proof fn lemma_view_injective(a: Address, b: Address)
        requires
            a@ == b@,
        ensures
            a == b,
    {
        assert forall|i: int| 0 <= i < 32 implies a.bytes[i] == b.bytes[i] by {
            assert(a@[i] == b@[i]);
        }
        assert(a.bytes =~= b.bytes);
    }

    /// Byte-wise comparison.
    pub fn same(&self, other: &Address) -> (r: bool)
        ensures
            r == (*self == *other),
    {
        let mut i: usize = 0;
        while i < 32
            invariant
                i <= 32,
                forall|j: int| 0 <= j < i ==> self@[j] == other@[j],
            decreases 32 - i,
        {
            if self.bytes[i] != other.bytes[i] {
                assert(self@[i as int] != other@[i as int]);
                return false;
            }
            i = i + 1;
        }
        proof {
            assert(self@ =~= other@);
            Address::lemma_view_injective(*self, *other);
        }
        true
    }

    /// The address as a byte vector, as it enters a derivation.
    pub fn to_vec(&self) -> (v: Vec<u8>)
        ensures
            v@ == self@,
    {
        let mut v: Vec<u8> = Vec::new();
        let mut i: usize = 0;
        while i < 32
            invariant
                i <= 32,
                v@.len() == i,
                forall|j: int| 0 <= j < i ==> v@[j] == self@[j],
            decreases 32 - i,
        {
            v.push(self.bytes[i]);
            i = i + 1;
        }
        assert(v@ =~= self@);
        v
    }
}

/// The two namespaces in which this program derives addresses.
#[derive(Clone, Copy, Debug, PartialEq, Eq, Structural)]
pub enum Namespace {
    /// Records, keyed by maker and seed.
    Escrow,
    /// Vaults, keyed by the address of the owning record.
    Vault,
}

impl Namespace {
    /// The tag that opens the key material: the ASCII bytes of `escrow` or of `vault`.
    pub open spec fn tag(self) -> Seq<u8> {
        match self {
            Namespace::Escrow => seq![0x65u8, 0x73u8, 0x63u8, 0x72u8, 0x6fu8, 0x77u8],
            Namespace::Vault => seq![0x76u8, 0x61u8, 0x75u8, 0x6cu8, 0x74u8],
        }
    }

    /// The tag, ready for a derivation.
    pub fn tag_bytes(self) -> (v: Vec<u8>)
        ensures
            v@ == self.tag(),
    {
        let mut v: Vec<u8> = Vec::new();
        match self {
            Namespace::Escrow => {
                v.push(0x65u8);
                v.push(0x73u8);
                v.push(0x63u8);
                v.push(0x72u8);
                v.push(0x6fu8);
                v.push(0x77u8);
            },
            Namespace::Vault => {
                v.push(0x76u8);
                v.push(0x61u8);
                v.push(0x75u8);
                v.push(0x6cu8);
                v.push(0x74u8);
            },
        }
        assert(v@ =~= self.tag());
        v
    }
}

/// The identity of the program on whose behalf addresses are derived. It is
/// handed to every operation; nothing reads it from anywhere else.
#[derive(Clone, Copy, Debug, PartialEq, Eq)]
pub struct ProtocolContext {
    pub program_id: Address,
}

/// An address together with the nonce that made it canonical.
#[derive(Clone, Copy, Debug, PartialEq, Eq)]
pub struct DerivedAddress {
    pub address: Address,
    pub bump: u8,
}

/// The byte sequences that a vector of seeds holds, in order.
pub open spec fn seed_views(seeds: Seq<Vec<u8>>) -> Seq<Seq<u8>> {
    Seq::new(seeds.len(), |i: int| seeds[i]@)
}

/// What `Pubkey::try_find_program_address` yields for the seeds and the
/// program id given: the address and its nonce, or `None` where no nonce
/// gives a program-owned address or the seeds are too many or too long.
pub uninterp spec fn program_address(seeds: Seq<Seq<u8>>, program_id: Seq<u8>) -> Option<
    (Seq<u8>, u8),
>;

/// Calls `Pubkey::try_find_program_address`, which anchor-lang hands on
/// from solana-program. The result is taken to be a function of the seeds
/// and the program id alone; nothing else is claimed of it.
#[verifier::external_body]
fn find_program_address(seeds: &Vec<Vec<u8>>, program_id: &[u8; 32]) -> (r: Option<([u8; 32], u8)>)
    ensures
        match r {
            Some((address, bump)) => program_address(seed_views(seeds@), program_id@) == Some(
                (address@, bump),
            ),
            None => program_address(seed_views(seeds@), program_id@) is None,
        },
{
    let parts: Vec<&[u8]> = seeds.iter().map(|s| s.as_slice()).collect();
    match Pubkey::try_find_program_address(&parts, &Pubkey::new_from_array(*program_id)) {
        Some((key, bump)) => Some((key.to_bytes(), bump)),
        None => None,
    }
}

/// The seeds of a derivation: the namespace tag, then the key material in order.
pub open spec fn seeds_of(namespace: Namespace, key_material: Seq<Seq<u8>>) -> Seq<Seq<u8>> {
    seq![namespace.tag()] + key_material
}

/// The address whose bytes are `bytes`.
pub closed spec fn address_from(bytes: Seq<u8>) -> Address {
    choose|a: Address| a@ == bytes
}

/// `address_from` undoes the view.
pub proof fn lemma_address_from_view(a: Address)
    ensures
        address_from(a@) == a,
{
    let b = address_from(a@);
    assert(b@ == a@);
    Address::lemma_view_injective(b, a);
}

/// The canonical address and nonce of a namespace and key material under
/// the program of `ctx`, where the derivation yields one.
pub open spec fn derived(ctx: ProtocolContext, namespace: Namespace, key_material: Seq<Seq<u8>>)
    -> Option<DerivedAddress> {
    match program_address(seeds_of(namespace, key_material), ctx.program_id@) {
        Some((bytes, bump)) => Some(DerivedAddress { address: address_from(bytes), bump }),
        None => None,
    }
}

/// Key material of a record: the maker's identity, then the seed in
/// little-endian bytes.
pub open spec fn record_key(maker: Address, seed: u64) -> Seq<Seq<u8>> {
    seq![maker@, spec_u64_to_le_bytes(seed)]
}

/// Key material of a vault: the address of the record that owns it.
pub open spec fn vault_key(escrow: Address) -> Seq<Seq<u8>> {
    seq![escrow@]
}

/// The address of the record that `maker` opens under `seed`.
pub open spec fn record_address(ctx: ProtocolContext, maker: Address, seed: u64) -> Option<
    DerivedAddress,
> {
    derived(ctx, Namespace::Escrow, record_key(maker, seed))
}

/// The address of the vault that belongs to the record at `escrow`.
pub open spec fn vault_address(ctx: ProtocolContext, escrow: Address) -> Option<DerivedAddress> {
    derived(ctx, Namespace::Vault, vault_key(escrow))
}

/// A copy of a byte vector.
fn copy_bytes(src: &Vec<u8>) -> (v: Vec<u8>)
    ensures
        v@ == src@,
{
    let mut v: Vec<u8> = Vec::new();
    let mut i: usize = 0;
    while i < src.len()
        invariant
            i <= src@.len(),
            v@ == src@.subrange(0, i as int),
        decreases src@.len() - i,
    {
        v.push(src[i]);
        assert(v@ =~= src@.subrange(0, i + 1));
        i = i + 1;
    }
    assert(v@ =~= src@);
    v
}

/// Derives the canonical address and nonce for a namespace and key
/// material under the program of `ctx`.
pub fn derive(ctx: &ProtocolContext, namespace: Namespace, key_material: &Vec<Vec<u8>>) -> (r:
    Option<DerivedAddress>)
    ensures
        r == derived(*ctx, namespace, seed_views(key_material@)),
{
    let mut seeds: Vec<Vec<u8>> = Vec::new();
    seeds.push(namespace.tag_bytes());
    let mut i: usize = 0;
    while i < key_material.len()
        invariant
            i <= key_material@.len(),
            seeds@.len() == i + 1,
            seeds@[0]@ == namespace.tag(),
            forall|j: int| 0 <= j < i ==> (#[trigger] seeds@[j + 1])@ == key_material@[j]@,
        decreases key_material@.len() - i,
    {
        seeds.push(copy_bytes(&key_material[i]));
        i = i + 1;
    }
    proof {
        let want = seeds_of(namespace, seed_views(key_material@));
        assert forall|k: int| 0 <= k < want.len() implies seed_views(seeds@)[k] == want[k] by {
            if k > 0 {
                assert(seeds@[(k - 1) + 1]@ == key_material@[k - 1]@);
            }
        }
        assert(seed_views(seeds@) =~= want);
    }
    match find_program_address(&seeds, &ctx.program_id.bytes) {
        Some((bytes, bump)) => {
            let address = Address { bytes };
            proof {
                lemma_address_from_view(address);
            }
            Some(DerivedAddress { address, bump })
        },
        None => None,
    }
}

/// The key material of a record, ready for a derivation.
pub fn record_key_material(maker: &Address, seed: u64) -> (key_material: Vec<Vec<u8>>)
    ensures
        seed_views(key_material@) == record_key(*maker, seed),
{
    let mut key_material: Vec<Vec<u8>> = Vec::new();
    key_material.push(maker.to_vec());
    key_material.push(u64_to_le_bytes(seed));
    assert(seed_views(key_material@) =~= record_key(*maker, seed));
    key_material
}

/// The key material of a vault, ready for a derivation.
pub fn vault_key_material(escrow: &Address) -> (key_material: Vec<Vec<u8>>)
    ensures
        seed_views(key_material@) == vault_key(*escrow),
{
    let mut key_material: Vec<Vec<u8>> = Vec::new();
    key_material.push(escrow.to_vec());
    assert(seed_views(key_material@) =~= vault_key(*escrow));
    key_material
}

/// Derives the address of the record that `maker` opens under `seed`.
pub fn derive_record(ctx: &ProtocolContext, maker: &Address, seed: u64) -> (r: Option<
    DerivedAddress,
>)
    ensures
        r == record_address(*ctx, *maker, seed),
{
    derive(ctx, Namespace::Escrow, &record_key_material(maker, seed))
}

/// Derives the address of the vault that belongs to the record at `escrow`.
pub fn derive_vault(ctx: &ProtocolContext, escrow: &Address) -> (r: Option<DerivedAddress>)
    ensures
        r == vault_address(*ctx, *escrow),
{
    derive(ctx, Namespace::Vault, &vault_key_material(escrow))
}

/// Recomputes a derivation and holds a claimed address and nonce against
/// it: both must be reproduced exactly.
pub fn verify(
    ctx: &ProtocolContext,
    namespace: Namespace,
    key_material: &Vec<Vec<u8>>,
    claimed: &DerivedAddress,
) -> (r: Result<(), EscrowError>)
    ensures
        r == (if derived(*ctx, namespace, seed_views(key_material@)) == Some(*claimed) {
            Ok::<(), EscrowError>(())
        } else {
            Err(EscrowError::InvalidDerivation)
        }),
{
    match derive(ctx, namespace, key_material) {
        Some(d) => {
            if d.address.same(&claimed.address) && d.bump == claimed.bump {
                Ok(())
            } else {
                Err(EscrowError::InvalidDerivation)
            }
        },
        None => Err(EscrowError::InvalidDerivation),
    }
}

} // verus!
