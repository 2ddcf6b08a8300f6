use crate::address::{
    record_address, record_key_material, vault_address, vault_key_material, verify, Address,
    DerivedAddress, Namespace, ProtocolContext,
};
use crate::error::EscrowError;
use crate::ledger::{account_error, Ledger, LedgerState};
use crate::state::{
    outcome, record_proof, AuthorityProof, CloseAccount, Escrow, ProofView, Transfer,
};
use vstd::prelude::*;

verus! {

/// The accounts that Refund is called with.
#[derive(Clone, Copy, Debug, PartialEq, Eq)]
pub struct Refund {
    /// The signer, who takes the deposit back.
    pub maker: Address,
    /// The asset type offered.
    pub mint_a: Address,
    /// The maker's holding of asset A.
    pub maker_ata_a: Address,
    /// The vault of the record.
    pub vault: Address,
    /// The record.
    pub escrow: Address,
}

impl Refund {
    /// The first check of Refund that fails, if any: the record must
    /// stand and be the signer's, both addresses must derive with the
    /// nonces stored, and vault and holding must be of asset A and owned
    /// by the record and by the maker.
    pub open spec fn validate_error(self, ctx: ProtocolContext, pre: LedgerState) -> Option<
        EscrowError,
    > {
        if !pre.records.contains_key(self.escrow) {
            Some(EscrowError::NotFound)
        } else {
            let record = pre.records[self.escrow];
            if record.maker != self.maker {
                Some(EscrowError::Unauthorized)
            } else if record.mint_a != self.mint_a {
                Some(EscrowError::AssetMismatch)
            } else if record_address(ctx, self.maker, record.seed) != Some(
                DerivedAddress { address: self.escrow, bump: record.bump },
            ) {
                Some(EscrowError::InvalidDerivation)
            } else if vault_address(ctx, self.escrow) != Some(
                DerivedAddress { address: self.vault, bump: record.vault_bump },
            ) {
                Some(EscrowError::InvalidDerivation)
            } else if account_error(pre.vaults, self.vault, self.mint_a, self.escrow) is Some {
                account_error(pre.vaults, self.vault, self.mint_a, self.escrow)
            } else {
                account_error(pre.holdings, self.maker_ata_a, self.mint_a, self.maker)
            }
        }
    }

    /// Holds the accounts supplied against the record and the ledger.
    /// Hands back the record where every check passes.
    pub fn validate(&self, ctx: &ProtocolContext, ledger: &Ledger) -> (r: Result<
        Escrow,
        EscrowError,
    >)
        ensures
            match r {
                Ok(record) => self.validate_error(*ctx, ledger@) is None && record
                    == ledger@.records[self.escrow],
                Err(e) => self.validate_error(*ctx, ledger@) == Some(e),
            },
    {
        let record = ledger.load(&self.escrow)?;
        if !record.maker.same(&self.maker) {
            return Err(EscrowError::Unauthorized);
        }
        if !record.mint_a.same(&self.mint_a) {
            return Err(EscrowError::AssetMismatch);
        }
        verify(
            ctx,
            Namespace::Escrow,
            &record_key_material(&self.maker, record.seed),
            &DerivedAddress { address: self.escrow, bump: record.bump },
        )?;
        verify(
            ctx,
            Namespace::Vault,
            &vault_key_material(&self.escrow),
            &DerivedAddress { address: self.vault, bump: record.vault_bump },
        )?;
        ledger.check_vault(&self.vault, &self.mint_a, &self.escrow)?;
        ledger.check_holding(&self.maker_ata_a, &self.mint_a, &self.maker)?;
        Ok(record)
    }

    /// The proof by which the record at `escrow` moves its vault, built
    /// from the maker supplied and what the record stores.
    pub open spec fn authority(self, pre: LedgerState) -> ProofView {
        record_proof(self.maker, pre.records[self.escrow].seed, pre.records[self.escrow].bump)
    }

    /// Why `refund` fails, if it does: the record must stand, and then as
    /// releasing all that the vault holds does.
    pub open spec fn refund_error(self, ctx: ProtocolContext, pre: LedgerState) -> Option<
        EscrowError,
    > {
        if !pre.records.contains_key(self.escrow) {
            Some(EscrowError::NotFound)
        } else {
            pre.release_error(
                ctx,
                self.vault,
                self.maker_ata_a,
                pre.vaults[self.vault].amount,
                self.authority(pre),
            )
        }
    }

    /// The ledger after `refund`: the vault is empty, and the maker's
    /// holding up by what it held.
    pub open spec fn refund_effect(self, pre: LedgerState) -> LedgerState {
        pre.release_effect(self.vault, self.maker_ata_a, pre.vaults[self.vault].amount)
    }

    /// The order that empties a vault of `balance`: back into the maker's
    /// holding of asset A, on the word of the record.
    pub fn refund_transfer(&self, balance: u64) -> (order: Transfer)
        ensures
            order == (Transfer {
                from: self.vault,
                to: self.maker_ata_a,
                authority: self.escrow,
                amount: balance,
            }),
    {
        Transfer {
            from: self.vault,
            to: self.maker_ata_a,
            authority: self.escrow,
            amount: balance,
        }
    }

    /// Who receives the cost of the storage that Refund gives up: the
    /// maker.
    pub fn beneficiary(&self) -> (who: Address)
        ensures
            who == self.maker,
    {
        self.maker
    }

    /// The order that closes the vault, on the word of the record, in
    /// favour of the maker.
    pub fn close_vault_order(&self) -> (order: CloseAccount)
        ensures
            order == (CloseAccount {
                account: self.vault,
                destination: self.maker,
                authority: self.escrow,
            }),
    {
        CloseAccount {
            account: self.vault,
            destination: self.beneficiary(),
            authority: self.escrow,
        }
    }

    /// Releases all that the vault holds to the maker's holding, on the
    /// proof of the record.
    pub fn refund(&self, ctx: &ProtocolContext, ledger: &mut Ledger) -> (r: Result<(), EscrowError>)
        ensures
            r == outcome(self.refund_error(*ctx, old(ledger)@)),
            final(ledger)@ == (if r is Ok {
                self.refund_effect(old(ledger)@)
            } else {
                old(ledger)@
            }),
    {
        let record = ledger.load(&self.escrow)?;
        let balance = match ledger.vault(&self.vault) {
            Some(vault) => vault.amount,
            None => { return Err(EscrowError::NotFound); },
        };
        let order = self.refund_transfer(balance);
        let proof = AuthorityProof::for_record(&self.maker, record.seed, record.bump);
        ledger.release(ctx, &order.from, &order.to, order.amount, &proof)
    }

    /// Why `close_vault` fails, if it does: the record must stand, and
    /// then as closing the vault does.
    pub open spec fn close_vault_error(self, ctx: ProtocolContext, pre: LedgerState) -> Option<
        EscrowError,
    > {
        if !pre.records.contains_key(self.escrow) {
            Some(EscrowError::NotFound)
        } else {
            pre.close_error(ctx, self.vault, self.authority(pre))
        }
    }

    /// Closes the emptied vault, on the proof of the record.
    pub fn close_vault(&self, ctx: &ProtocolContext, ledger: &mut Ledger) -> (r: Result<
        (),
        EscrowError,
    >)
        requires
            old(ledger)@.vaults.contains_key(self.vault) ==> old(ledger)@.vaults[self.vault].amount
                == 0,
        ensures
            r == outcome(self.close_vault_error(*ctx, old(ledger)@)),
            final(ledger)@ == (if r is Ok {
                old(ledger)@.close_effect(self.vault)
            } else {
                old(ledger)@
            }),
    {
        let record = ledger.load(&self.escrow)?;
        let order = self.close_vault_order();
        let proof = AuthorityProof::for_record(&self.maker, record.seed, record.bump);
        ledger.close(ctx, &order.account, &proof)
    }
}

} // verus!
