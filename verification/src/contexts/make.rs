use crate::address::{
    derive_record, derive_vault, record_address, vault_address, Address, DerivedAddress,
    ProtocolContext,
};
use crate::error::EscrowError;
use crate::ledger::{Ledger, LedgerState};
use crate::state::{outcome, Escrow, TokenAccount, Transfer};
use vstd::prelude::*;

verus! {

/// The accounts that Make is called with.
#[derive(Clone, Copy, Debug, PartialEq, Eq)]
pub struct Make {
    /// The signer, who deposits asset A.
    pub maker: Address,
    /// The asset type offered.
    pub mint_a: Address,
    /// The asset type asked for.
    pub mint_b: Address,
    /// The maker's holding of asset A.
    pub maker_ata_a: Address,
    /// Where the vault is to stand.
    pub vault: Address,
    /// Where the record is to stand.
    pub escrow: Address,
}

/// The nonces of the two addresses that Make derives.
#[derive(Clone, Copy, Debug, PartialEq, Eq)]
pub struct MakeBumps {
    pub escrow: u8,
    pub vault: u8,
}

impl Make {
    /// The nonces of the record and vault addresses, if the addresses
    /// supplied are the ones that `maker` and `seed` derive.
    pub open spec fn derived_bumps(self, ctx: ProtocolContext, seed: u64) -> Option<MakeBumps> {
        match record_address(ctx, self.maker, seed) {
            Some(record) => match vault_address(ctx, self.escrow) {
                Some(vault) => if record.address == self.escrow && vault.address == self.vault {
                    Some(MakeBumps { escrow: record.bump, vault: vault.bump })
                } else {
                    None
                },
                None => None,
            },
            None => None,
        }
    }

    /// Recomputes the two derivations and rejects supplied addresses that
    /// differ from them.
    pub fn bumps(&self, ctx: &ProtocolContext, seed: u64) -> (r: Result<MakeBumps, EscrowError>)
        ensures
            r == (match self.derived_bumps(*ctx, seed) {
                Some(bumps) => Ok::<MakeBumps, EscrowError>(bumps),
                None => Err(EscrowError::InvalidDerivation),
            }),
    {
        let record = match derive_record(ctx, &self.maker, seed) {
            Some(d) => d,
            None => { return Err(EscrowError::InvalidDerivation); },
        };
        let vault = match derive_vault(ctx, &self.escrow) {
            Some(d) => d,
            None => { return Err(EscrowError::InvalidDerivation); },
        };
        if record.address.same(&self.escrow) && vault.address.same(&self.vault) {
            Ok(MakeBumps { escrow: record.bump, vault: vault.bump })
        } else {
            Err(EscrowError::InvalidDerivation)
        }
    }

    /// The record that Make writes.
    pub open spec fn record(self, seed: u64, receive_amount: u64, bumps: MakeBumps) -> Escrow {
        Escrow {
            seed,
            maker: self.maker,
            mint_a: self.mint_a,
            mint_b: self.mint_b,
            receive_amount,
            bump: bumps.escrow,
            vault_bump: bumps.vault,
        }
    }

    /// The record that Make writes, ready to be stored.
    pub fn new_record(&self, seed: u64, receive_amount: u64, bumps: &MakeBumps) -> (record: Escrow)
        ensures
            record == self.record(seed, receive_amount, *bumps),
    {
        Escrow {
            seed,
            maker: self.maker,
            mint_a: self.mint_a,
            mint_b: self.mint_b,
            receive_amount,
            bump: bumps.escrow,
            vault_bump: bumps.vault,
        }
    }

    /// Why `save` fails, if it does: the nonces must be those of the two
    /// addresses supplied, and neither record nor vault may stand yet.
    pub open spec fn save_error(
        self,
        ctx: ProtocolContext,
        pre: LedgerState,
        seed: u64,
        bumps: MakeBumps,
    ) -> Option<EscrowError> {
        if self.derived_bumps(ctx, seed) != Some(bumps) {
            Some(EscrowError::InvalidDerivation)
        } else if pre.records.contains_key(self.escrow) || pre.vaults.contains_key(self.vault) {
            Some(EscrowError::AlreadyExists)
        } else {
            None
        }
    }

    /// The ledger after `save`: the record stands, and its empty vault.
    pub open spec fn save_effect(
        self,
        pre: LedgerState,
        seed: u64,
        receive_amount: u64,
        bumps: MakeBumps,
    ) -> LedgerState {
        LedgerState {
            records: pre.records.insert(self.escrow, self.record(seed, receive_amount, bumps)),
            vaults: pre.vaults.insert(
                self.vault,
                TokenAccount { mint: self.mint_a, owner: self.escrow, amount: 0 },
            ),
            ..pre
        }
    }

    /// Writes the record and opens its empty vault, both at once or
    /// neither.
    pub fn save(
        &self,
        ctx: &ProtocolContext,
        ledger: &mut Ledger,
        seed: u64,
        receive_amount: u64,
        bumps: &MakeBumps,
    ) -> (r: Result<(), EscrowError>)
        ensures
            r == outcome(self.save_error(*ctx, old(ledger)@, seed, *bumps)),
            final(ledger)@ == (if r is Ok {
                self.save_effect(old(ledger)@, seed, receive_amount, *bumps)
            } else {
                old(ledger)@
            }),
    {
        let derived = self.bumps(ctx, seed)?;
        if derived.escrow != bumps.escrow || derived.vault != bumps.vault {
            return Err(EscrowError::InvalidDerivation);
        }
        if ledger.load(&self.escrow).is_ok() || ledger.vault(&self.vault).is_some() {
            return Err(EscrowError::AlreadyExists);
        }
        let created = ledger.create(
            ctx,
            &self.maker,
            seed,
            &self.mint_a,
            &self.mint_b,
            receive_amount,
        );
        assert(created is Ok);
        let opened = ledger.open_vault(ctx, &self.escrow, &self.mint_a);
        assert(opened is Ok);
        Ok(())
    }

    /// Why `deposit` fails, if it does: as funding the vault does.
    pub open spec fn deposit_error(self, pre: LedgerState, deposit_amount: u64) -> Option<
        EscrowError,
    > {
        pre.fund_error(self.vault, self.maker_ata_a, self.maker, deposit_amount)
    }

    /// The ledger after `deposit`.
    pub open spec fn deposit_effect(self, pre: LedgerState, deposit_amount: u64) -> LedgerState {
        pre.fund_effect(self.vault, self.maker_ata_a, deposit_amount)
    }

    /// The order that moves the deposit: out of the maker's holding, into
    /// the vault, on the maker's own word.
    pub fn deposit_transfer(&self, deposit_amount: u64) -> (order: Transfer)
        ensures
            order == (Transfer {
                from: self.maker_ata_a,
                to: self.vault,
                authority: self.maker,
                amount: deposit_amount,
            }),
    {
        Transfer {
            from: self.maker_ata_a,
            to: self.vault,
            authority: self.maker,
            amount: deposit_amount,
        }
    }

    /// Moves the deposit from the maker's holding into the vault, on the
    /// maker's own word.
    pub fn deposit(&self, ledger: &mut Ledger, deposit_amount: u64) -> (r: Result<
        (),
        EscrowError,
    >)
        ensures
            r == outcome(self.deposit_error(old(ledger)@, deposit_amount)),
            final(ledger)@ == (if r is Ok {
                self.deposit_effect(old(ledger)@, deposit_amount)
            } else {
                old(ledger)@
            }),
    {
        let order = self.deposit_transfer(deposit_amount);
        ledger.fund(&order.to, &order.from, &order.authority, order.amount)
    }
}

} // verus!
