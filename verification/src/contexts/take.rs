use crate::address::{
    record_address, record_key_material, vault_address, vault_key_material, verify, Address,
    DerivedAddress, Namespace, ProtocolContext,
};
use crate::error::EscrowError;
use crate::ledger::{account_error, Ledger, LedgerState};
use crate::state::{
    outcome, record_proof, AuthorityProof, CloseAccount, Escrow, ProofView, Transfer,
};
use vstd::prelude::*;

verus! {

/// The accounts that Take is called with.
#[derive(Clone, Copy, Debug, PartialEq, Eq)]
pub struct Take {
    /// The signer, who pays asset B and receives asset A.
    pub taker: Address,
    /// The maker of the offer, who receives asset B.
    pub maker: Address,
    /// The asset type offered.
    pub mint_a: Address,
    /// The asset type asked for.
    pub mint_b: Address,
    /// The taker's holding of asset A, opened if it does not stand yet.
    pub taker_ata_a: Address,
    /// The taker's holding of asset B.
    pub taker_ata_b: Address,
    /// The maker's holding of asset B, opened if it does not stand yet.
    pub maker_ata_b: Address,
    /// The record.
    pub escrow: Address,
    /// The vault of the record.
    pub vault: Address,
}

impl Take {
    /// The first check of Take that fails, if any. The record must stand
    /// and name the two asset types supplied; the taker's holding of
    /// asset B must stand, and the two receiving holdings, if they stand,
    /// must be of the right type and owner; the record's address must
    /// derive from the maker supplied, and the vault's from it, with the
    /// nonces stored; and the vault must hold asset A for the record.
    pub open spec fn validate_error(self, ctx: ProtocolContext, pre: LedgerState) -> Option<
        EscrowError,
    > {
        if !pre.records.contains_key(self.escrow) {
            Some(EscrowError::NotFound)
        } else {
            let record = pre.records[self.escrow];
            let with_taker = pre.ensure_account_effect(self.taker_ata_a, self.mint_a, self.taker);
            if record.mint_a != self.mint_a || record.mint_b != self.mint_b {
                Some(EscrowError::AssetMismatch)
            } else if account_error(pre.holdings, self.taker_ata_b, self.mint_b, self.taker)
                is Some {
                account_error(pre.holdings, self.taker_ata_b, self.mint_b, self.taker)
            } else if pre.ensure_account_error(self.taker_ata_a, self.mint_a, self.taker) is Some {
                pre.ensure_account_error(self.taker_ata_a, self.mint_a, self.taker)
            } else if with_taker.ensure_account_error(self.maker_ata_b, self.mint_b, self.maker)
                is Some {
                with_taker.ensure_account_error(self.maker_ata_b, self.mint_b, self.maker)
            } else if record.maker != self.maker || record_address(ctx, self.maker, record.seed)
                != Some(DerivedAddress { address: self.escrow, bump: record.bump }) {
                Some(EscrowError::InvalidDerivation)
            } else if vault_address(ctx, self.escrow) != Some(
                DerivedAddress { address: self.vault, bump: record.vault_bump },
            ) {
                Some(EscrowError::InvalidDerivation)
            } else {
                account_error(pre.vaults, self.vault, self.mint_a, self.escrow)
            }
        }
    }

    /// The ledger once the two receiving holdings stand.
    pub open spec fn validate_effect(self, pre: LedgerState) -> LedgerState {
        pre.ensure_account_effect(
            self.taker_ata_a,
            self.mint_a,
            self.taker,
        ).ensure_account_effect(self.maker_ata_b, self.mint_b, self.maker)
    }

    /// Holds the accounts supplied against the record and the ledger, and
    /// opens the receiving holdings that do not stand yet. Hands back
    /// the record where every check passes; changes nothing otherwise.
    pub fn validate(&self, ctx: &ProtocolContext, ledger: &mut Ledger) -> (r: Result<
        Escrow,
        EscrowError,
    >)
        ensures
            match r {
                Ok(record) => {
                    &&& self.validate_error(*ctx, old(ledger)@) is None
                    &&& record == old(ledger)@.records[self.escrow]
                    &&& final(ledger)@ == self.validate_effect(old(ledger)@)
                },
                Err(e) => self.validate_error(*ctx, old(ledger)@) == Some(e) && final(ledger)@
                    == old(ledger)@,
            },
    {
        let record = ledger.load(&self.escrow)?;
        if !record.mint_a.same(&self.mint_a) || !record.mint_b.same(&self.mint_b) {
            return Err(EscrowError::AssetMismatch);
        }
        ledger.check_holding(&self.taker_ata_b, &self.mint_b, &self.taker)?;
        let taker_stands = ledger.holding(&self.taker_ata_a).is_some();
        if taker_stands {
            ledger.check_holding(&self.taker_ata_a, &self.mint_a, &self.taker)?;
        }
        if !taker_stands && self.maker_ata_b.same(&self.taker_ata_a) {
            if !self.mint_a.same(&self.mint_b) {
                return Err(EscrowError::AssetMismatch);
            }
            if !self.taker.same(&self.maker) {
                return Err(EscrowError::Unauthorized);
            }
        } else if ledger.holding(&self.maker_ata_b).is_some() {
            ledger.check_holding(&self.maker_ata_b, &self.mint_b, &self.maker)?;
        }
        if !record.maker.same(&self.maker) {
            return Err(EscrowError::InvalidDerivation);
        }
        verify(
            ctx,
            Namespace::Escrow,
            &record_key_material(&self.maker, record.seed),
            &DerivedAddress { address: self.escrow, bump: record.bump },
        )?;
        verify(
            ctx,
            Namespace::Vault,
            &vault_key_material(&self.escrow),
            &DerivedAddress { address: self.vault, bump: record.vault_bump },
        )?;
        ledger.check_vault(&self.vault, &self.mint_a, &self.escrow)?;
        let first = ledger.ensure_account(&self.taker_ata_a, &self.mint_a, &self.taker);
        assert(first is Ok);
        let second = ledger.ensure_account(&self.maker_ata_b, &self.mint_b, &self.maker);
        assert(second is Ok);
        Ok(record)
    }

    /// Why `deposit` fails, if it does: the record must stand, and then as
    /// a transfer of the amount it asks for does.
    pub open spec fn deposit_error(self, pre: LedgerState) -> Option<EscrowError> {
        if !pre.records.contains_key(self.escrow) {
            Some(EscrowError::NotFound)
        } else {
            pre.transfer_error(
                self.taker_ata_b,
                self.maker_ata_b,
                self.taker,
                pre.records[self.escrow].receive_amount,
            )
        }
    }

    /// The ledger after `deposit`.
    pub open spec fn deposit_effect(self, pre: LedgerState) -> LedgerState {
        pre.transfer_effect(
            self.taker_ata_b,
            self.maker_ata_b,
            pre.records[self.escrow].receive_amount,
        )
    }

    /// The order that pays the maker what `record` asks for: out of the
    /// taker's holding of asset B, into the maker's, on the taker's word.
    pub fn deposit_transfer(&self, record: &Escrow) -> (order: Transfer)
        ensures
            order == (Transfer {
                from: self.taker_ata_b,
                to: self.maker_ata_b,
                authority: self.taker,
                amount: record.receive_amount,
            }),
    {
        Transfer {
            from: self.taker_ata_b,
            to: self.maker_ata_b,
            authority: self.taker,
            amount: record.receive_amount,
        }
    }

    /// The order that empties a vault of `balance`: into the taker's
    /// holding of asset A, on the word of the record.
    pub fn withdraw_transfer(&self, balance: u64) -> (order: Transfer)
        ensures
            order == (Transfer {
                from: self.vault,
                to: self.taker_ata_a,
                authority: self.escrow,
                amount: balance,
            }),
    {
        Transfer {
            from: self.vault,
            to: self.taker_ata_a,
            authority: self.escrow,
            amount: balance,
        }
    }

    /// Who receives the cost of the storage that Take gives up: the taker.
    pub fn beneficiary(&self) -> (who: Address)
        ensures
            who == self.taker,
    {
        self.taker
    }

    /// The order that closes the vault, on the word of the record, in
    /// favour of the taker.
    pub fn close_vault_order(&self) -> (order: CloseAccount)
        ensures
            order == (CloseAccount {
                account: self.vault,
                destination: self.taker,
                authority: self.escrow,
            }),
    {
        CloseAccount {
            account: self.vault,
            destination: self.beneficiary(),
            authority: self.escrow,
        }
    }

    /// Pays the maker: moves the amount that the record asks for from
    /// the taker's holding of asset B to the maker's, on the taker's word.
    pub fn deposit(&self, ledger: &mut Ledger) -> (r: Result<(), EscrowError>)
        ensures
            r == outcome(self.deposit_error(old(ledger)@)),
            final(ledger)@ == (if r is Ok {
                self.deposit_effect(old(ledger)@)
            } else {
                old(ledger)@
            }),
    {
        let record = ledger.load(&self.escrow)?;
        let order = self.deposit_transfer(&record);
        ledger.transfer(&order.from, &order.to, &order.authority, order.amount)
    }

    /// The proof by which the record at `escrow` moves its vault, built
    /// from the maker supplied and what the record stores.
    pub open spec fn authority(self, pre: LedgerState) -> ProofView {
        record_proof(self.maker, pre.records[self.escrow].seed, pre.records[self.escrow].bump)
    }

    /// Why `withdraw` fails, if it does: the record must stand, and then
    /// as releasing all that the vault holds does.
    pub open spec fn withdraw_error(self, ctx: ProtocolContext, pre: LedgerState) -> Option<
        EscrowError,
    > {
        if !pre.records.contains_key(self.escrow) {
            Some(EscrowError::NotFound)
        } else {
            pre.release_error(
                ctx,
                self.vault,
                self.taker_ata_a,
                pre.vaults[self.vault].amount,
                self.authority(pre),
            )
        }
    }

    /// The ledger after `withdraw`: the vault is empty, and the taker's
    /// holding of asset A up by what it held.
    pub open spec fn withdraw_effect(self, pre: LedgerState) -> LedgerState {
        pre.release_effect(self.vault, self.taker_ata_a, pre.vaults[self.vault].amount)
    }

    /// Releases all that the vault holds to the taker's holding of asset
    /// A, on the proof of the record.
    pub fn withdraw(&self, ctx: &ProtocolContext, ledger: &mut Ledger) -> (r: Result<
        (),
        EscrowError,
    >)
        ensures
            r == outcome(self.withdraw_error(*ctx, old(ledger)@)),
            final(ledger)@ == (if r is Ok {
                self.withdraw_effect(old(ledger)@)
            } else {
                old(ledger)@
            }),
    {
        let record = ledger.load(&self.escrow)?;
        let balance = match ledger.vault(&self.vault) {
            Some(vault) => vault.amount,
            None => { return Err(EscrowError::NotFound); },
        };
        let order = self.withdraw_transfer(balance);
        let proof = AuthorityProof::for_record(&self.maker, record.seed, record.bump);
        ledger.release(ctx, &order.from, &order.to, order.amount, &proof)
    }

    /// Why `close_vault` fails, if it does: the record must stand, and
    /// then as closing the vault does.
    pub open spec fn close_vault_error(self, ctx: ProtocolContext, pre: LedgerState) -> Option<
        EscrowError,
    > {
        if !pre.records.contains_key(self.escrow) {
            Some(EscrowError::NotFound)
        } else {
            pre.close_error(ctx, self.vault, self.authority(pre))
        }
    }

    /// Closes the emptied vault, on the proof of the record.
    pub fn close_vault(&self, ctx: &ProtocolContext, ledger: &mut Ledger) -> (r: Result<
        (),
        EscrowError,
    >)
        requires
            old(ledger)@.vaults.contains_key(self.vault) ==> old(ledger)@.vaults[self.vault].amount
                == 0,
        ensures
            r == outcome(self.close_vault_error(*ctx, old(ledger)@)),
            final(ledger)@ == (if r is Ok {
                old(ledger)@.close_effect(self.vault)
            } else {
                old(ledger)@
            }),
    {
        let record = ledger.load(&self.escrow)?;
        let order = self.close_vault_order();
        let proof = AuthorityProof::for_record(&self.maker, record.seed, record.bump);
        ledger.close(ctx, &order.account, &proof)
    }
}

} // verus!
