pub mod address;
pub mod contexts;
pub mod error;
pub mod laws;
pub mod layout;
pub mod ledger;
pub mod state;
pub mod table;

use crate::address::ProtocolContext;
use crate::contexts::make::Make;
use crate::contexts::refund::Refund;
use crate::contexts::take::Take;
use crate::error::EscrowError;
use crate::ledger::{Ledger, LedgerState, RecordHandle};
use crate::state::{credited, debited, outcome, TokenAccount};
use vstd::prelude::*;

verus! {

/// The first check of Make that fails, if any. The derivations come
/// first, then the lifecycle of record and vault, then the maker's
/// holding and the transfer out of it.
pub open spec fn make_error(
    ctx: ProtocolContext,
    pre: LedgerState,
    accounts: Make,
    seed: u64,
    deposit_amount: u64,
) -> Option<EscrowError> {
    if accounts.derived_bumps(ctx, seed) is None {
        Some(EscrowError::InvalidDerivation)
    } else if pre.records.contains_key(accounts.escrow) || pre.vaults.contains_key(accounts.vault) {
        Some(EscrowError::AlreadyExists)
    } else if !pre.holdings.contains_key(accounts.maker_ata_a) {
        Some(EscrowError::NotFound)
    } else if pre.holdings[accounts.maker_ata_a].amount < deposit_amount {
        Some(EscrowError::InsufficientFunds)
    } else if pre.holdings[accounts.maker_ata_a].mint != accounts.mint_a {
        Some(EscrowError::AssetMismatch)
    } else if pre.holdings[accounts.maker_ata_a].owner != accounts.maker {
        Some(EscrowError::Unauthorized)
    } else {
        None
    }
}

/// The ledger after a Make that passed every check: the record stands,
/// its vault holds the deposit, and the maker's holding is down by it.
pub open spec fn make_effect(
    ctx: ProtocolContext,
    pre: LedgerState,
    accounts: Make,
    seed: u64,
    deposit_amount: u64,
    receive_amount: u64,
) -> LedgerState {
    LedgerState {
        records: pre.records.insert(
            accounts.escrow,
            accounts.record(seed, receive_amount, accounts.derived_bumps(ctx, seed).unwrap()),
        ),
        vaults: pre.vaults.insert(
            accounts.vault,
            TokenAccount { mint: accounts.mint_a, owner: accounts.escrow, amount: deposit_amount },
        ),
        holdings: pre.holdings.insert(
            accounts.maker_ata_a,
            debited(pre.holdings[accounts.maker_ata_a], deposit_amount),
        ),
    }
}

/// The ledger after Make, whether it passed or not.
pub open spec fn after_make(
    ctx: ProtocolContext,
    pre: LedgerState,
    accounts: Make,
    seed: u64,
    deposit_amount: u64,
    receive_amount: u64,
) -> LedgerState {
    if make_error(ctx, pre, accounts, seed, deposit_amount) is None {
        make_effect(ctx, pre, accounts, seed, deposit_amount, receive_amount)
    } else {
        pre
    }
}

/// Make: opens an offer. The record and its vault are created and the
/// deposit moves into the vault, all of it or nothing.
pub fn make(
    ctx: &ProtocolContext,
    ledger: &mut Ledger,
    accounts: &Make,
    seed: u64,
    deposit_amount: u64,
    receive_amount: u64,
) -> (r: Result<(), EscrowError>)
    requires
        deposit_amount > 0,
    ensures
        r == outcome(make_error(*ctx, old(ledger)@, *accounts, seed, deposit_amount)),
        final(ledger)@ == after_make(
            *ctx,
            old(ledger)@,
            *accounts,
            seed,
            deposit_amount,
            receive_amount,
        ),
        old(ledger)@.consistent(*ctx) ==> final(ledger)@.consistent(*ctx),
{
    let bumps = accounts.bumps(ctx, seed)?;
    let mut work = ledger.snapshot();
    accounts.save(ctx, &mut work, seed, receive_amount, &bumps)?;
    accounts.deposit(&mut work, deposit_amount)?;
    proof {
        let post = make_effect(
            *ctx,
            ledger@,
            *accounts,
            seed,
            deposit_amount,
            receive_amount,
        );
        assert(work@.records =~= post.records);
        assert(work@.vaults =~= post.vaults);
        assert(work@.holdings =~= post.holdings);
    }
    *ledger = work;
    Ok(())
}

/// The first check of Take that fails, if any: those of the accounts
/// first; then that the taker holds what the record asks for and that the
/// maker's holding has room for it; then that the taker's holding of
/// asset A has room for what the vault holds.
pub open spec fn take_error(ctx: ProtocolContext, pre: LedgerState, accounts: Take) -> Option<
    EscrowError,
> {
    let ready = accounts.validate_effect(pre);
    let asked = pre.records[accounts.escrow].receive_amount;
    let paid = ready.transfer_effect(accounts.taker_ata_b, accounts.maker_ata_b, asked);
    if accounts.validate_error(ctx, pre) is Some {
        accounts.validate_error(ctx, pre)
    } else if ready.holdings[accounts.taker_ata_b].amount < asked {
        Some(EscrowError::InsufficientFunds)
    } else if accounts.taker_ata_b != accounts.maker_ata_b
        && ready.holdings[accounts.maker_ata_b].amount + asked > u64::MAX {
        Some(EscrowError::Overflow)
    } else if paid.holdings[accounts.taker_ata_a].amount + pre.vaults[accounts.vault].amount
        > u64::MAX {
        Some(EscrowError::Overflow)
    } else {
        None
    }
}

/// The ledger after a Take that passed every check: the amount asked for
/// has moved from the taker to the maker, all that the vault held has
/// gone to the taker, and record and vault are gone.
pub open spec fn take_effect(pre: LedgerState, accounts: Take) -> LedgerState {
    let ready = accounts.validate_effect(pre);
    let asked = pre.records[accounts.escrow].receive_amount;
    let paid = ready.transfer_effect(accounts.taker_ata_b, accounts.maker_ata_b, asked);
    LedgerState {
        records: pre.records.remove(accounts.escrow),
        vaults: pre.vaults.remove(accounts.vault),
        holdings: paid.holdings.insert(
            accounts.taker_ata_a,
            credited(paid.holdings[accounts.taker_ata_a], pre.vaults[accounts.vault].amount),
        ),
    }
}

/// The ledger after Take, whether it passed or not.
pub open spec fn after_take(ctx: ProtocolContext, pre: LedgerState, accounts: Take) -> LedgerState {
    if take_error(ctx, pre, accounts) is None {
        take_effect(pre, accounts)
    } else {
        pre
    }
}

/// Take: a taker accepts the offer. The taker pays the maker what the
/// record asks for and receives all that the vault holds; vault and
/// record are closed, all of it or nothing.
pub fn take(ctx: &ProtocolContext, ledger: &mut Ledger, accounts: &Take) -> (r: Result<
    (),
    EscrowError,
>)
    ensures
        r == outcome(take_error(*ctx, old(ledger)@, *accounts)),
        final(ledger)@ == after_take(*ctx, old(ledger)@, *accounts),
        old(ledger)@.consistent(*ctx) ==> final(ledger)@.consistent(*ctx),
{
    let mut work = ledger.snapshot();
    let record = accounts.validate(ctx, &mut work)?;
    accounts.deposit(&mut work)?;
    accounts.withdraw(ctx, &mut work)?;
    accounts.close_vault(ctx, &mut work)?;
    work.destroy(&RecordHandle { address: accounts.escrow, bump: record.bump })?;
    proof {
        let post = take_effect(ledger@, *accounts);
        assert(work@.records =~= post.records);
        assert(work@.vaults =~= post.vaults);
        assert(work@.holdings =~= post.holdings);
    }
    *ledger = work;
    Ok(())
}

/// The first check of Refund that fails, if any: those of the accounts
/// first, then that the maker's holding has room for what the vault holds.
pub open spec fn refund_error(ctx: ProtocolContext, pre: LedgerState, accounts: Refund) -> Option<
    EscrowError,
> {
    if accounts.validate_error(ctx, pre) is Some {
        accounts.validate_error(ctx, pre)
    } else if pre.holdings[accounts.maker_ata_a].amount + pre.vaults[accounts.vault].amount
        > u64::MAX {
        Some(EscrowError::Overflow)
    } else {
        None
    }
}

/// The ledger after a Refund that passed every check: record and vault
/// are gone, and the maker's holding is up by all that the vault held.
pub open spec fn refund_effect(pre: LedgerState, accounts: Refund) -> LedgerState {
    LedgerState {
        records: pre.records.remove(accounts.escrow),
        vaults: pre.vaults.remove(accounts.vault),
        holdings: pre.holdings.insert(
            accounts.maker_ata_a,
            credited(pre.holdings[accounts.maker_ata_a], pre.vaults[accounts.vault].amount),
        ),
    }
}

/// The ledger after Refund, whether it passed or not.
pub open spec fn after_refund(ctx: ProtocolContext, pre: LedgerState, accounts: Refund)
    -> LedgerState {
    if refund_error(ctx, pre, accounts) is None {
        refund_effect(pre, accounts)
    } else {
        pre
    }
}

/// Refund: the maker withdraws the offer. All that the vault holds goes
/// back to the maker, and vault and record are closed, all of it or
/// nothing.
pub fn refund(ctx: &ProtocolContext, ledger: &mut Ledger, accounts: &Refund) -> (r: Result<
    (),
    EscrowError,
>)
    ensures
        r == outcome(refund_error(*ctx, old(ledger)@, *accounts)),
        final(ledger)@ == after_refund(*ctx, old(ledger)@, *accounts),
        old(ledger)@.consistent(*ctx) ==> final(ledger)@.consistent(*ctx),
{
    let record = accounts.validate(ctx, ledger)?;
    let mut work = ledger.snapshot();
    accounts.refund(ctx, &mut work)?;
    accounts.close_vault(ctx, &mut work)?;
    work.destroy(&RecordHandle { address: accounts.escrow, bump: record.bump })?;
    proof {
        let post = refund_effect(ledger@, *accounts);
        assert(work@.records =~= post.records);
        assert(work@.vaults =~= post.vaults);
        assert(work@.holdings =~= post.holdings);
    }
    *ledger = work;
    Ok(())
}

} // verus!
