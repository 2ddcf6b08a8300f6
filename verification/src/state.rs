use crate::address::{
    derived, record_key, record_key_material, seed_views, Address, Namespace, ProtocolContext,
};
use crate::error::EscrowError;
use vstd::prelude::*;

verus! {

/// Bytes of storage that a record takes.
pub const INIT_SPACE: usize = 130;

/// One pending exchange offer. It is written once, when the offer is
/// made, and never changed until it is destroyed.
#[derive(Clone, Copy, Debug, PartialEq, Eq)]
pub struct Escrow {
    /// Nonce by which a maker tells their offers apart.
    pub seed: u64,
    /// Identity of the depositor.
    pub maker: Address,
    /// Asset type that the vault holds.
    pub mint_a: Address,
    /// Asset type that the maker asks for.
    pub mint_b: Address,
    /// Amount of asset B that the maker asks for.
    pub receive_amount: u64,
    /// Nonce of the record's own address.
    pub bump: u8,
    /// Nonce of the vault's address.
    pub vault_bump: u8,
}

/// A single-asset holding account.
#[derive(Clone, Copy, Debug, PartialEq, Eq)]
pub struct TokenAccount {
    /// Asset type of the balance.
    pub mint: Address,
    /// The identity that may move the balance: a key holder, or for a
    /// vault the address of its record.
    pub owner: Address,
    /// The balance.
    pub amount: u64,
}

/// An order to the transfer service: `amount` is to move from the
/// account at `from` to the one at `to`, on the word of `authority`.
#[derive(Clone, Copy, Debug, PartialEq, Eq)]
pub struct Transfer {
    pub from: Address,
    pub to: Address,
    pub authority: Address,
    pub amount: u64,
}

/// An order to close the emptied account at `account`, on the word of
/// `authority`. The cost of its storage goes to `destination`.
#[derive(Clone, Copy, Debug, PartialEq, Eq)]
pub struct CloseAccount {
    pub account: Address,
    pub destination: Address,
    pub authority: Address,
}

/// What turns an error, or the absence of one, into the result of an operation.
pub open spec fn outcome(error: Option<EscrowError>) -> Result<(), EscrowError> {
    match error {
        Some(e) => Err(e),
        None => Ok(()),
    }
}

/// The first reason, if any, for which `amount` cannot move from `from` to
/// another account `to` on the word of `authority`.
pub open spec fn transfer_error(
    from: TokenAccount,
    to: TokenAccount,
    authority: Address,
    amount: u64,
) -> Option<EscrowError> {
    if from.amount < amount {
        Some(EscrowError::InsufficientFunds)
    } else if from.mint != to.mint {
        Some(EscrowError::AssetMismatch)
    } else if from.owner != authority {
        Some(EscrowError::Unauthorized)
    } else if to.amount + amount > u64::MAX {
        Some(EscrowError::Overflow)
    } else {
        None
    }
}

/// `account` with `amount` taken from its balance.
pub open spec fn debited(account: TokenAccount, amount: u64) -> TokenAccount {
    TokenAccount { amount: (account.amount - amount) as u64, ..account }
}

/// `account` with `amount` added to its balance.
pub open spec fn credited(account: TokenAccount, amount: u64) -> TokenAccount {
    TokenAccount { amount: (account.amount + amount) as u64, ..account }
}

/// Moves `amount` between two different accounts of one asset type, on
/// the word of the owner of the source. Either both balances change or
/// neither does.
pub fn transfer(from: &mut TokenAccount, to: &mut TokenAccount, authority: &Address, amount: u64)
    -> (r: Result<(), EscrowError>)
    ensures
        r == outcome(transfer_error(*old(from), *old(to), *authority, amount)),
        r is Ok ==> *final(from) == debited(*old(from), amount) && *final(to) == credited(
            *old(to),
            amount,
        ),
        r is Err ==> *final(from) == *old(from) && *final(to) == *old(to),
{
    if from.amount < amount {
        return Err(EscrowError::InsufficientFunds);
    }
    if !from.mint.same(&to.mint) {
        return Err(EscrowError::AssetMismatch);
    }
    if !from.owner.same(authority) {
        return Err(EscrowError::Unauthorized);
    }
    match to.amount.checked_add(amount) {
        Some(sum) => {
            from.amount = from.amount - amount;
            to.amount = sum;
            Ok(())
        },
        None => Err(EscrowError::Overflow),
    }
}

/// The right to move a vault's balance: the namespace, key material and
/// nonce from which the address of the vault's record derives.
#[derive(Debug, PartialEq, Eq)]
pub struct AuthorityProof {
    pub namespace: Namespace,
    pub key_material: Vec<Vec<u8>>,
    pub bump: u8,
}

/// What an authority proof says.
pub struct ProofView {
    pub namespace: Namespace,
    pub key_material: Seq<Seq<u8>>,
    pub bump: u8,
}

impl View for AuthorityProof {
    type V = ProofView;

    open spec fn view(&self) -> ProofView {
        ProofView {
            namespace: self.namespace,
            key_material: seed_views(self.key_material@),
            bump: self.bump,
        }
    }
}

impl ProofView {
    /// The address on whose behalf the proof speaks: the one that its
    /// namespace and key material derive, if its nonce is the canonical one.
    pub open spec fn signer(self, ctx: ProtocolContext) -> Option<Address> {
        match derived(ctx, self.namespace, self.key_material) {
            Some(d) => if d.bump == self.bump {
                Some(d.address)
            } else {
                None
            },
            None => None,
        }
    }
}

/// The proof by which the record that `maker` opened under `seed`, with
/// nonce `bump`, speaks for itself.
pub open spec fn record_proof(maker: Address, seed: u64, bump: u8) -> ProofView {
    ProofView { namespace: Namespace::Escrow, key_material: record_key(maker, seed), bump }
}

impl AuthorityProof {
    /// Builds the proof of a record from the seed material that names it.
    pub fn for_record(maker: &Address, seed: u64, bump: u8) -> (authority: AuthorityProof)
        ensures
            authority@ == record_proof(*maker, seed, bump),
    {
        AuthorityProof {
            namespace: Namespace::Escrow,
            key_material: record_key_material(maker, seed),
            bump,
        }
    }
}

} // verus!
