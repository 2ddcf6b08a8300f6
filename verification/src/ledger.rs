use crate::address::{
    derive_record, derive_vault, record_address, vault_address, Address, DerivedAddress,
    ProtocolContext,
};
use crate::error::EscrowError;
use crate::state::{
    credited, debited, outcome, transfer, transfer_error, AuthorityProof, Escrow, ProofView,
    TokenAccount,
};
use crate::table::Table;
use vstd::prelude::*;

verus! {

/// What a ledger holds: the open records, their vaults, and the holding
/// accounts that key holders own, each by address.
pub struct LedgerState {
    pub records: Map<Address, Escrow>,
    pub vaults: Map<Address, TokenAccount>,
    pub holdings: Map<Address, TokenAccount>,
}

/// The two states of an offer. A closed offer is one of which nothing
/// stands on the ledger: no flag is stored for it.
#[derive(Clone, Copy, Debug, PartialEq, Eq, Structural)]
pub enum Status {
    /// The record stands.
    Open,
    /// No record stands: the offer was never made, or it was settled.
    Closed,
}

/// What `create` hands back: where the new record stands, and its nonce.
#[derive(Clone, Copy, Debug, PartialEq, Eq)]
pub struct RecordHandle {
    pub address: Address,
    pub bump: u8,
}

/// The account-based ledger on which the exchange runs.
pub struct Ledger {
    records: Table<Escrow>,
    vaults: Table<TokenAccount>,
    holdings: Table<TokenAccount>,
}

impl View for Ledger {
    type V = LedgerState;

    closed spec fn view(&self) -> LedgerState {
        LedgerState { records: self.records@, vaults: self.vaults@, holdings: self.holdings@ }
    }
}

/// Why the account at `address`, if `accounts` has one, cannot serve as an
/// account of asset type `mint` owned by `owner`.
pub open spec fn account_error(
    accounts: Map<Address, TokenAccount>,
    address: Address,
    mint: Address,
    owner: Address,
) -> Option<EscrowError> {
    if !accounts.contains_key(address) {
        Some(EscrowError::NotFound)
    } else if accounts[address].mint != mint {
        Some(EscrowError::AssetMismatch)
    } else if accounts[address].owner != owner {
        Some(EscrowError::Unauthorized)
    } else {
        None
    }
}

/// The units of asset type `mint` that the account at `address` holds:
/// none where no account stands there, or one of another type.
pub open spec fn balance(accounts: Map<Address, TokenAccount>, address: Address, mint: Address)
    -> nat {
    if accounts.contains_key(address) && accounts[address].mint == mint {
        accounts[address].amount as nat
    } else {
        0
    }
}

impl LedgerState {
    /// The ledger with no account on it.
    pub open spec fn empty() -> LedgerState {
        LedgerState { records: Map::empty(), vaults: Map::empty(), holdings: Map::empty() }
    }

    /// The state of the offer whose record belongs at `escrow`.
    pub open spec fn status(self, escrow: Address) -> Status {
        if self.records.contains_key(escrow) {
            Status::Open
        } else {
            Status::Closed
        }
    }

    /// Whether the record at `escrow` is what its address says: the
    /// address derives from the record's maker and seed with the nonce
    /// stored, and the vault that derives from the address stands, holds
    /// the record's asset A, and is owned by the record.
    pub open spec fn record_sound(self, ctx: ProtocolContext, escrow: Address) -> bool {
        let record = self.records[escrow];
        &&& record_address(ctx, record.maker, record.seed) == Some(
            DerivedAddress { address: escrow, bump: record.bump },
        )
        &&& vault_address(ctx, escrow) matches Some(vault)
        &&& vault.bump == record.vault_bump
        &&& self.vaults.contains_key(vault.address)
        &&& self.vaults[vault.address].mint == record.mint_a
        &&& self.vaults[vault.address].owner == escrow
    }

    /// Whether the vault at `vault` belongs to an open record, and stands
    /// where that record's vault derives.
    pub open spec fn vault_sound(self, ctx: ProtocolContext, vault: Address) -> bool {
        let owner = self.vaults[vault].owner;
        &&& self.records.contains_key(owner)
        &&& vault_address(ctx, owner) matches Some(d)
        &&& d.address == vault
    }

    /// Whether every open record has its vault and every vault its open
    /// record: no record stands without its vault, and no vault without
    /// its record.
    pub open spec fn consistent(self, ctx: ProtocolContext) -> bool {
        &&& forall|escrow: Address| #[trigger]
            self.records.contains_key(escrow) ==> self.record_sound(ctx, escrow)
        &&& forall|vault: Address| #[trigger]
            self.vaults.contains_key(vault) ==> self.vault_sound(ctx, vault)
    }

    /// Why no holding can be opened at `address`: one stands there.
    pub open spec fn open_account_error(self, address: Address) -> Option<EscrowError> {
        if self.holdings.contains_key(address) {
            Some(EscrowError::AlreadyExists)
        } else {
            None
        }
    }

    /// The ledger with a new, empty holding at `address`.
    pub open spec fn open_account_effect(self, address: Address, mint: Address, owner: Address)
        -> LedgerState {
        LedgerState {
            holdings: self.holdings.insert(address, TokenAccount { mint, owner, amount: 0 }),
            ..self
        }
    }

    /// Why the holding at `address` cannot be had as one of asset type
    /// `mint` owned by `owner`: only a holding that stands there and is
    /// another's, or of another type, is in the way.
    pub open spec fn ensure_account_error(self, address: Address, mint: Address, owner: Address)
        -> Option<EscrowError> {
        if self.holdings.contains_key(address) {
            account_error(self.holdings, address, mint, owner)
        } else {
            None
        }
    }

    /// The ledger with a holding at `address`: the one that stands there,
    /// or a new, empty one.
    pub open spec fn ensure_account_effect(self, address: Address, mint: Address, owner: Address)
        -> LedgerState {
        if self.holdings.contains_key(address) {
            self
        } else {
            self.open_account_effect(address, mint, owner)
        }
    }

    /// Why `amount` cannot be issued to the holding at `address`.
    pub open spec fn mint_to_error(self, address: Address, amount: u64) -> Option<EscrowError> {
        if !self.holdings.contains_key(address) {
            Some(EscrowError::NotFound)
        } else if self.holdings[address].amount + amount > u64::MAX {
            Some(EscrowError::Overflow)
        } else {
            None
        }
    }

    /// The ledger with `amount` more in the holding at `address`.
    pub open spec fn mint_to_effect(self, address: Address, amount: u64) -> LedgerState {
        LedgerState {
            holdings: self.holdings.insert(address, credited(self.holdings[address], amount)),
            ..self
        }
    }

    /// Why `amount` cannot move from the holding at `from` to the one at
    /// `to`. A holding may pay itself what it has, which changes nothing.
    pub open spec fn transfer_error(
        self,
        from: Address,
        to: Address,
        authority: Address,
        amount: u64,
    ) -> Option<EscrowError> {
        if !self.holdings.contains_key(from) || !self.holdings.contains_key(to) {
            Some(EscrowError::NotFound)
        } else if from == to {
            if self.holdings[from].amount < amount {
                Some(EscrowError::InsufficientFunds)
            } else if self.holdings[from].owner != authority {
                Some(EscrowError::Unauthorized)
            } else {
                None
            }
        } else {
            transfer_error(self.holdings[from], self.holdings[to], authority, amount)
        }
    }

    /// The ledger with `amount` moved from the holding at `from` to the
    /// one at `to`.
    pub open spec fn transfer_effect(self, from: Address, to: Address, amount: u64)
        -> LedgerState {
        if from == to {
            self
        } else {
            LedgerState {
                holdings: self.holdings.insert(from, debited(self.holdings[from], amount)).insert(
                    to,
                    credited(self.holdings[to], amount),
                ),
                ..self
            }
        }
    }

    /// Why the record of `maker` and `seed` cannot be created: its address
    /// or that of its vault does not derive, or a record stands there.
    pub open spec fn create_error(self, ctx: ProtocolContext, maker: Address, seed: u64)
        -> Option<EscrowError> {
        match record_address(ctx, maker, seed) {
            None => Some(EscrowError::InvalidDerivation),
            Some(d) => if vault_address(ctx, d.address) is None {
                Some(EscrowError::InvalidDerivation)
            } else if self.records.contains_key(d.address) {
                Some(EscrowError::AlreadyExists)
            } else {
                None
            },
        }
    }

    /// The record that `create` writes.
    pub open spec fn new_record(
        ctx: ProtocolContext,
        maker: Address,
        seed: u64,
        mint_a: Address,
        mint_b: Address,
        receive_amount: u64,
    ) -> Escrow {
        let d = record_address(ctx, maker, seed).unwrap();
        Escrow {
            seed,
            maker,
            mint_a,
            mint_b,
            receive_amount,
            bump: d.bump,
            vault_bump: vault_address(ctx, d.address).unwrap().bump,
        }
    }

    /// The ledger with the new record at its derived address.
    pub open spec fn create_effect(
        self,
        ctx: ProtocolContext,
        maker: Address,
        seed: u64,
        mint_a: Address,
        mint_b: Address,
        receive_amount: u64,
    ) -> LedgerState {
        LedgerState {
            records: self.records.insert(
                record_address(ctx, maker, seed).unwrap().address,
                Self::new_record(ctx, maker, seed, mint_a, mint_b, receive_amount),
            ),
            ..self
        }
    }

    /// Why the record cannot be destroyed: none stands at the address
    /// with the nonce that the handle names.
    pub open spec fn destroy_error(self, handle: RecordHandle) -> Option<EscrowError> {
        if !self.records.contains_key(handle.address) || self.records[handle.address].bump
            != handle.bump {
            Some(EscrowError::NotFound)
        } else {
            None
        }
    }

    /// The ledger without the record.
    pub open spec fn destroy_effect(self, handle: RecordHandle) -> LedgerState {
        LedgerState { records: self.records.remove(handle.address), ..self }
    }

    /// Why the vault of the record at `escrow` cannot be opened: its
    /// address does not derive, or a vault stands there.
    pub open spec fn open_vault_error(self, ctx: ProtocolContext, escrow: Address) -> Option<
        EscrowError,
    > {
        match vault_address(ctx, escrow) {
            None => Some(EscrowError::InvalidDerivation),
            Some(d) => if self.vaults.contains_key(d.address) {
                Some(EscrowError::AlreadyExists)
            } else {
                None
            },
        }
    }

    /// The ledger with the new, empty vault at its derived address.
    pub open spec fn open_vault_effect(self, ctx: ProtocolContext, escrow: Address, mint: Address)
        -> LedgerState {
        LedgerState {
            vaults: self.vaults.insert(
                vault_address(ctx, escrow).unwrap().address,
                TokenAccount { mint, owner: escrow, amount: 0 },
            ),
            ..self
        }
    }

    /// Why `amount` cannot move from the holding at `from` into the vault.
    pub open spec fn fund_error(self, vault: Address, from: Address, authority: Address, amount: u64)
        -> Option<EscrowError> {
        if !self.vaults.contains_key(vault) || !self.holdings.contains_key(from) {
            Some(EscrowError::NotFound)
        } else {
            transfer_error(self.holdings[from], self.vaults[vault], authority, amount)
        }
    }

    /// The ledger with `amount` moved from the holding into the vault.
    pub open spec fn fund_effect(self, vault: Address, from: Address, amount: u64) -> LedgerState {
        LedgerState {
            holdings: self.holdings.insert(from, debited(self.holdings[from], amount)),
            vaults: self.vaults.insert(vault, credited(self.vaults[vault], amount)),
            ..self
        }
    }

    /// Whether `proof` gives the right to move the balance of the vault at
    /// `vault`: it must speak for the vault's owner, and the vault must
    /// stand where that owner's vault derives.
    pub open spec fn authorizes(self, ctx: ProtocolContext, proof: ProofView, vault: Address)
        -> bool {
        let owner = self.vaults[vault].owner;
        &&& proof.signer(ctx) == Some(owner)
        &&& vault_address(ctx, owner) matches Some(d)
        &&& d.address == vault
    }

    /// Why `amount` cannot move out of the vault to the holding at `to`:
    /// both must stand, the proof must give the right, and then as a
    /// transfer on the word of the vault's owner fails.
    pub open spec fn release_error(
        self,
        ctx: ProtocolContext,
        vault: Address,
        to: Address,
        amount: u64,
        proof: ProofView,
    ) -> Option<EscrowError> {
        if !self.vaults.contains_key(vault) || !self.holdings.contains_key(to) {
            Some(EscrowError::NotFound)
        } else if !self.authorizes(ctx, proof, vault) {
            Some(EscrowError::Unauthorized)
        } else {
            transfer_error(self.vaults[vault], self.holdings[to], self.vaults[vault].owner, amount)
        }
    }

    /// The ledger with `amount` moved out of the vault to the holding.
    pub open spec fn release_effect(self, vault: Address, to: Address, amount: u64)
        -> LedgerState {
        LedgerState {
            vaults: self.vaults.insert(vault, debited(self.vaults[vault], amount)),
            holdings: self.holdings.insert(to, credited(self.holdings[to], amount)),
            ..self
        }
    }

    /// Why the vault cannot be closed: none stands there, or the proof
    /// does not give the right.
    pub open spec fn close_error(self, ctx: ProtocolContext, vault: Address, proof: ProofView)
        -> Option<EscrowError> {
        if !self.vaults.contains_key(vault) {
            Some(EscrowError::NotFound)
        } else if !self.authorizes(ctx, proof, vault) {
            Some(EscrowError::Unauthorized)
        } else {
            None
        }
    }

    /// The ledger without the vault.
    pub open spec fn close_effect(self, vault: Address) -> LedgerState {
        LedgerState { vaults: self.vaults.remove(vault), ..self }
    }
}

impl Ledger {
    /// A ledger with no account on it.
    pub fn new() -> (ledger: Ledger)
        ensures
            ledger@ == LedgerState::empty(),
    {
        Ledger { records: Table::new(), vaults: Table::new(), holdings: Table::new() }
    }

    /// A copy of the ledger as it stands.
    pub fn snapshot(&self) -> (copy: Ledger)
        ensures
            copy@ == self@,
    {
        Ledger {
            records: self.records.snapshot(),
            vaults: self.vaults.snapshot(),
            holdings: self.holdings.snapshot(),
        }
    }

    /// The state of the offer whose record belongs at `escrow`.
    pub fn status(&self, escrow: &Address) -> (s: Status)
        ensures
            s == self@.status(*escrow),
    {
        if self.records.contains(escrow) {
            Status::Open
        } else {
            Status::Closed
        }
    }

    /// The holding account at `address`, if there is one.
    pub fn holding(&self, address: &Address) -> (r: Option<TokenAccount>)
        ensures
            r == (if self@.holdings.contains_key(*address) {
                Some(self@.holdings[*address])
            } else {
                None
            }),
    {
        self.holdings.get(address)
    }

    /// The vault at `address`, if there is one.
    pub fn vault(&self, address: &Address) -> (r: Option<TokenAccount>)
        ensures
            r == (if self@.vaults.contains_key(*address) {
                Some(self@.vaults[*address])
            } else {
                None
            }),
    {
        self.vaults.get(address)
    }

    /// The holding at `address`, if it is of asset type `mint` and owned
    /// by `owner`.
    pub fn check_holding(&self, address: &Address, mint: &Address, owner: &Address) -> (r: Result<
        TokenAccount,
        EscrowError,
    >)
        ensures
            match r {
                Ok(account) => account_error(self@.holdings, *address, *mint, *owner) is None
                    && account == self@.holdings[*address],
                Err(e) => account_error(self@.holdings, *address, *mint, *owner) == Some(e),
            },
    {
        match self.holdings.get(address) {
            None => Err(EscrowError::NotFound),
            Some(account) => {
                if !account.mint.same(mint) {
                    Err(EscrowError::AssetMismatch)
                } else if !account.owner.same(owner) {
                    Err(EscrowError::Unauthorized)
                } else {
                    Ok(account)
                }
            },
        }
    }

    /// The vault at `address`, if it is of asset type `mint` and owned by
    /// the record at `owner`.
    pub fn check_vault(&self, address: &Address, mint: &Address, owner: &Address) -> (r: Result<
        TokenAccount,
        EscrowError,
    >)
        ensures
            match r {
                Ok(account) => account_error(self@.vaults, *address, *mint, *owner) is None
                    && account == self@.vaults[*address],
                Err(e) => account_error(self@.vaults, *address, *mint, *owner) == Some(e),
            },
    {
        match self.vaults.get(address) {
            None => Err(EscrowError::NotFound),
            Some(account) => {
                if !account.mint.same(mint) {
                    Err(EscrowError::AssetMismatch)
                } else if !account.owner.same(owner) {
                    Err(EscrowError::Unauthorized)
                } else {
                    Ok(account)
                }
            },
        }
    }

    /// Makes sure that `owner` has a holding of asset type `mint` at
    /// `address`: opens an empty one where none stands.
    pub fn ensure_account(&mut self, address: &Address, mint: &Address, owner: &Address) -> (r:
        Result<(), EscrowError>)
        ensures
            r == outcome(old(self)@.ensure_account_error(*address, *mint, *owner)),
            final(self)@ == (if r is Ok {
                old(self)@.ensure_account_effect(*address, *mint, *owner)
            } else {
                old(self)@
            }),
    {
        if self.holdings.contains(address) {
            self.check_holding(address, mint, owner)?;
            Ok(())
        } else {
            self.open_account(address, mint, owner)
        }
    }

    /// Opens an empty holding account of asset type `mint` for `owner`.
    pub fn open_account(&mut self, address: &Address, mint: &Address, owner: &Address) -> (r:
        Result<(), EscrowError>)
        ensures
            r == outcome(old(self)@.open_account_error(*address)),
            final(self)@ == (if r is Ok {
                old(self)@.open_account_effect(*address, *mint, *owner)
            } else {
                old(self)@
            }),
    {
        if self.holdings.contains(address) {
            return Err(EscrowError::AlreadyExists);
        }
        self.holdings.insert(*address, TokenAccount { mint: *mint, owner: *owner, amount: 0 });
        Ok(())
    }

    /// Issues `amount` of its asset type to the holding at `address`.
    pub fn mint_to(&mut self, address: &Address, amount: u64) -> (r: Result<(), EscrowError>)
        ensures
            r == outcome(old(self)@.mint_to_error(*address, amount)),
            final(self)@ == (if r is Ok {
                old(self)@.mint_to_effect(*address, amount)
            } else {
                old(self)@
            }),
    {
        match self.holdings.get(address) {
            None => Err(EscrowError::NotFound),
            Some(account) => match account.amount.checked_add(amount) {
                None => Err(EscrowError::Overflow),
                Some(sum) => {
                    self.holdings.insert(*address, TokenAccount { amount: sum, ..account });
                    Ok(())
                },
            },
        }
    }

    /// Moves `amount` from one holding to another of the same asset type,
    /// on the word of the owner of the source.
    pub fn transfer(&mut self, from: &Address, to: &Address, authority: &Address, amount: u64)
        -> (r: Result<(), EscrowError>)
        ensures
            r == outcome(old(self)@.transfer_error(*from, *to, *authority, amount)),
            final(self)@ == (if r is Ok {
                old(self)@.transfer_effect(*from, *to, amount)
            } else {
                old(self)@
            }),
    {
        let (mut source, mut target) = match (self.holdings.get(from), self.holdings.get(to)) {
            (Some(source), Some(target)) => (source, target),
            _ => { return Err(EscrowError::NotFound); },
        };
        if from.same(to) {
            if source.amount < amount {
                return Err(EscrowError::InsufficientFunds);
            }
            if !source.owner.same(authority) {
                return Err(EscrowError::Unauthorized);
            }
            return Ok(());
        }
        transfer(&mut source, &mut target, authority, amount)?;
        self.holdings.insert(*from, source);
        self.holdings.insert(*to, target);
        Ok(())
    }

    /// Creates the record of the offer that `maker` makes under `seed`, at
    /// the address that the two derive, with both nonces in it.
    pub fn create(
        &mut self,
        ctx: &ProtocolContext,
        maker: &Address,
        seed: u64,
        mint_a: &Address,
        mint_b: &Address,
        receive_amount: u64,
    ) -> (r: Result<RecordHandle, EscrowError>)
        ensures
            match r {
                Ok(handle) => {
                    &&& old(self)@.create_error(*ctx, *maker, seed) is None
                    &&& record_address(*ctx, *maker, seed) == Some(
                        DerivedAddress { address: handle.address, bump: handle.bump },
                    )
                    &&& final(self)@ == old(self)@.create_effect(
                        *ctx,
                        *maker,
                        seed,
                        *mint_a,
                        *mint_b,
                        receive_amount,
                    )
                },
                Err(e) => old(self)@.create_error(*ctx, *maker, seed) == Some(e) && final(self)@
                    == old(self)@,
            },
    {
        let record = match derive_record(ctx, maker, seed) {
            Some(d) => d,
            None => { return Err(EscrowError::InvalidDerivation); },
        };
        let vault = match derive_vault(ctx, &record.address) {
            Some(d) => d,
            None => { return Err(EscrowError::InvalidDerivation); },
        };
        if self.records.contains(&record.address) {
            return Err(EscrowError::AlreadyExists);
        }
        self.records.insert(
            record.address,
            Escrow {
                seed,
                maker: *maker,
                mint_a: *mint_a,
                mint_b: *mint_b,
                receive_amount,
                bump: record.bump,
                vault_bump: vault.bump,
            },
        );
        Ok(RecordHandle { address: record.address, bump: record.bump })
    }

    /// The record at `address`.
    pub fn load(&self, address: &Address) -> (r: Result<Escrow, EscrowError>)
        ensures
            r == (if self@.records.contains_key(*address) {
                Ok::<Escrow, EscrowError>(self@.records[*address])
            } else {
                Err(EscrowError::NotFound)
            }),
    {
        match self.records.get(address) {
            Some(record) => Ok(record),
            None => Err(EscrowError::NotFound),
        }
    }

    /// Takes the record away for good. It is the last step of the
    /// operation that settles the offer, after the vault has been closed.
    pub fn destroy(&mut self, handle: &RecordHandle) -> (r: Result<(), EscrowError>)
        ensures
            r == outcome(old(self)@.destroy_error(*handle)),
            final(self)@ == (if r is Ok {
                old(self)@.destroy_effect(*handle)
            } else {
                old(self)@
            }),
    {
        match self.records.get(&handle.address) {
            Some(record) => {
                if record.bump != handle.bump {
                    return Err(EscrowError::NotFound);
                }
                self.records.remove(&handle.address);
                Ok(())
            },
            None => Err(EscrowError::NotFound),
        }
    }

    /// Opens the empty vault of the record at `escrow`, for asset type
    /// `mint`, at the address that the record's address derives. Only
    /// that record's address can move what the vault will hold.
    pub fn open_vault(&mut self, ctx: &ProtocolContext, escrow: &Address, mint: &Address) -> (r:
        Result<DerivedAddress, EscrowError>)
        ensures
            match r {
                Ok(d) => {
                    &&& old(self)@.open_vault_error(*ctx, *escrow) is None
                    &&& vault_address(*ctx, *escrow) == Some(d)
                    &&& final(self)@ == old(self)@.open_vault_effect(*ctx, *escrow, *mint)
                },
                Err(e) => old(self)@.open_vault_error(*ctx, *escrow) == Some(e) && final(self)@
                    == old(self)@,
            },
    {
        let vault = match derive_vault(ctx, escrow) {
            Some(d) => d,
            None => { return Err(EscrowError::InvalidDerivation); },
        };
        if self.vaults.contains(&vault.address) {
            return Err(EscrowError::AlreadyExists);
        }
        self.vaults.insert(
            vault.address,
            TokenAccount { mint: *mint, owner: *escrow, amount: 0 },
        );
        Ok(vault)
    }

    /// Moves `amount` from the holding at `from` into the vault, on the
    /// word of the holding's owner.
    pub fn fund(&mut self, vault: &Address, from: &Address, authority: &Address, amount: u64) -> (r:
        Result<(), EscrowError>)
        ensures
            r == outcome(old(self)@.fund_error(*vault, *from, *authority, amount)),
            final(self)@ == (if r is Ok {
                old(self)@.fund_effect(*vault, *from, amount)
            } else {
                old(self)@
            }),
    {
        let (mut source, mut target) = match (self.holdings.get(from), self.vaults.get(vault)) {
            (Some(source), Some(target)) => (source, target),
            _ => { return Err(EscrowError::NotFound); },
        };
        transfer(&mut source, &mut target, authority, amount)?;
        self.holdings.insert(*from, source);
        self.vaults.insert(*vault, target);
        Ok(())
    }

    /// Re-derives what `proof` names and holds it against the vault.
    fn check_authority(
        &self,
        ctx: &ProtocolContext,
        proof: &AuthorityProof,
        vault: &Address,
        account: &TokenAccount,
    ) -> (r: bool)
        requires
            self@.vaults.contains_key(*vault),
            self@.vaults[*vault] == *account,
        ensures
            r == self@.authorizes(*ctx, proof@, *vault),
    {
        let speaks_for_owner = match crate::address::derive(
            ctx,
            proof.namespace,
            &proof.key_material,
        ) {
            Some(d) => d.bump == proof.bump && d.address.same(&account.owner),
            None => false,
        };
        if !speaks_for_owner {
            return false;
        }
        match derive_vault(ctx, &account.owner) {
            Some(d) => d.address.same(vault),
            None => false,
        }
    }

    /// Moves `amount` out of the vault to the holding at `to`. No key
    /// signs for a vault: `proof` must re-derive the address that owns it.
    pub fn release(
        &mut self,
        ctx: &ProtocolContext,
        vault: &Address,
        to: &Address,
        amount: u64,
        proof: &AuthorityProof,
    ) -> (r: Result<(), EscrowError>)
        ensures
            r == outcome(old(self)@.release_error(*ctx, *vault, *to, amount, proof@)),
            final(self)@ == (if r is Ok {
                old(self)@.release_effect(*vault, *to, amount)
            } else {
                old(self)@
            }),
    {
        let (mut source, mut target) = match (self.vaults.get(vault), self.holdings.get(to)) {
            (Some(source), Some(target)) => (source, target),
            _ => { return Err(EscrowError::NotFound); },
        };
        if !self.check_authority(ctx, proof, vault, &source) {
            return Err(EscrowError::Unauthorized);
        }
        let owner = source.owner;
        transfer(&mut source, &mut target, &owner, amount)?;
        self.vaults.insert(*vault, source);
        self.holdings.insert(*to, target);
        Ok(())
    }

    /// Closes the vault, which by then must be empty.
    pub fn close(&mut self, ctx: &ProtocolContext, vault: &Address, proof: &AuthorityProof) -> (r:
        Result<(), EscrowError>)
        requires
            old(self)@.vaults.contains_key(*vault) ==> old(self)@.vaults[*vault].amount == 0,
        ensures
            r == outcome(old(self)@.close_error(*ctx, *vault, proof@)),
            final(self)@ == (if r is Ok {
                old(self)@.close_effect(*vault)
            } else {
                old(self)@
            }),
    {
        let account = match self.vaults.get(vault) {
            Some(account) => account,
            None => { return Err(EscrowError::NotFound); },
        };
        if !self.check_authority(ctx, proof, vault, &account) {
            return Err(EscrowError::Unauthorized);
        }
        self.vaults.remove(vault);
        Ok(())
    }
}

} // verus!
