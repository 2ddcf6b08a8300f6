use crate::address::{
    record_key, seeds_of, vault_address, vault_key, Address, DerivedAddress, Namespace,
    ProtocolContext,
};
use crate::contexts::make::Make;
use crate::contexts::refund::Refund;
use crate::contexts::take::Take;
use crate::error::EscrowError;
use crate::ledger::{balance, LedgerState, Status};
use crate::state::record_proof;
use crate::{
    after_make, after_refund, after_take, make_error, refund_error, take_error,
};
use vstd::bytes::{lemma_auto_spec_u64_to_from_le_bytes, spec_u64_to_le_bytes};
use vstd::prelude::*;

verus! {

/// Two offers enter the derivation of their record addresses with the
/// same key material only if they are of the same maker and seed.
pub proof fn law_record_key_injective(maker: Address, seed: u64, other_maker: Address, other_seed: u64)
    requires
        record_key(maker, seed) == record_key(other_maker, other_seed),
    ensures
        maker == other_maker,
        seed == other_seed,
{
    let a = record_key(maker, seed);
    let b = record_key(other_maker, other_seed);
    assert(a[0] == b[0]);
    assert(a[1] == b[1]);
    Address::lemma_view_injective(maker, other_maker);
    lemma_auto_spec_u64_to_from_le_bytes();
    assert(spec_u64_to_le_bytes(seed) == spec_u64_to_le_bytes(other_seed));
}

/// The seeds of the two namespaces cannot be taken for one another, even
/// run together into one byte string, as they are when an address is
/// derived from them: those of a record run to 46 bytes, from which maker
/// and seed can be read back, and those of a vault to 37.
pub proof fn law_seeds_are_unambiguous(
    maker: Address,
    seed: u64,
    other_maker: Address,
    other_seed: u64,
    escrow: Address,
)
    ensures
        seeds_of(Namespace::Escrow, record_key(maker, seed)).flatten().len() == 46,
        seeds_of(Namespace::Vault, vault_key(escrow)).flatten().len() == 37,
        seeds_of(Namespace::Escrow, record_key(maker, seed)).flatten() == seeds_of(
            Namespace::Escrow,
            record_key(other_maker, other_seed),
        ).flatten() ==> maker == other_maker && seed == other_seed,
{
    reveal_with_fuel(Seq::<_>::flatten, 5);
    lemma_auto_spec_u64_to_from_le_bytes();
    let tag = Namespace::Escrow.tag();
    let a = seeds_of(Namespace::Escrow, record_key(maker, seed));
    let b = seeds_of(Namespace::Escrow, record_key(other_maker, other_seed));
    let v = seeds_of(Namespace::Vault, vault_key(escrow));
    assert(a.flatten() =~= tag + maker@ + spec_u64_to_le_bytes(seed));
    assert(b.flatten() =~= tag + other_maker@ + spec_u64_to_le_bytes(other_seed));
    assert(v.flatten() =~= Namespace::Vault.tag() + escrow@);
    if a.flatten() == b.flatten() {
        assert(a.flatten().subrange(6, 38) =~= maker@);
        assert(b.flatten().subrange(6, 38) =~= other_maker@);
        assert(a.flatten().subrange(38, 46) =~= spec_u64_to_le_bytes(seed));
        assert(b.flatten().subrange(38, 46) =~= spec_u64_to_le_bytes(other_seed));
        Address::lemma_view_injective(maker, other_maker);
    }
}

/// The ledger with no account on it is consistent.
pub proof fn law_empty_is_consistent(ctx: ProtocolContext)
    ensures
        LedgerState::empty().consistent(ctx),
{
}

/// Consistency is a matter of records and vaults alone: what happens to
/// holdings cannot break it.
pub proof fn law_holdings_keep_consistency(ctx: ProtocolContext, a: LedgerState, b: LedgerState)
    requires
        a.records == b.records,
        a.vaults == b.vaults,
        a.consistent(ctx),
    ensures
        b.consistent(ctx),
{
    assert forall|escrow: Address| #[trigger] b.records.contains_key(escrow) implies b.record_sound(
        ctx,
        escrow,
    ) by {
        assert(a.record_sound(ctx, escrow));
    }
    assert forall|vault: Address| #[trigger] b.vaults.contains_key(vault) implies b.vault_sound(
        ctx,
        vault,
    ) by {
        assert(a.vault_sound(ctx, vault));
    }
}

/// On a consistent ledger no vault is shared: two open records whose
/// vaults derive to one address are one record.
pub proof fn law_vault_is_not_shared(
    ctx: ProtocolContext,
    ledger: LedgerState,
    escrow: Address,
    other: Address,
)
    requires
        ledger.consistent(ctx),
        ledger.records.contains_key(escrow),
        ledger.records.contains_key(other),
        vault_address(ctx, escrow).unwrap().address == vault_address(ctx, other).unwrap().address,
    ensures
        escrow == other,
{
    assert(ledger.record_sound(ctx, escrow));
    assert(ledger.record_sound(ctx, other));
}

/// On a consistent ledger the proof that an open record builds from its
/// own maker, seed and nonce gives the right to move that record's vault,
/// and gives no right to move the vault of any other record.
pub proof fn law_record_moves_its_vault_only(
    ctx: ProtocolContext,
    ledger: LedgerState,
    escrow: Address,
    vault: Address,
)
    requires
        ledger.consistent(ctx),
        ledger.records.contains_key(escrow),
        ledger.vaults.contains_key(vault),
    ensures
        ({
            let record = ledger.records[escrow];
            ledger.authorizes(ctx, record_proof(record.maker, record.seed, record.bump), vault)
                <==> ledger.vaults[vault].owner == escrow
        }),
        ledger.vaults[vault].owner == escrow <==> vault_address(ctx, escrow) == Some(
            DerivedAddress { address: vault, bump: ledger.records[escrow].vault_bump },
        ),
{
    assert(ledger.record_sound(ctx, escrow));
    assert(ledger.vault_sound(ctx, vault));
    let owner = ledger.vaults[vault].owner;
    assert(ledger.record_sound(ctx, owner));
}

/// After a Make that passed, the record stands as written, and its
/// vault holds exactly the deposit in asset A and nothing of any other
/// asset type.
pub proof fn law_make_funds_vault(
    ctx: ProtocolContext,
    pre: LedgerState,
    accounts: Make,
    seed: u64,
    deposit_amount: u64,
    receive_amount: u64,
    mint: Address,
)
    requires
        make_error(ctx, pre, accounts, seed, deposit_amount) is None,
    ensures
        ({
            let post = after_make(ctx, pre, accounts, seed, deposit_amount, receive_amount);
            &&& post.records.contains_key(accounts.escrow)
            &&& post.records[accounts.escrow].maker == accounts.maker
            &&& post.records[accounts.escrow].seed == seed
            &&& post.records[accounts.escrow].mint_a == accounts.mint_a
            &&& post.records[accounts.escrow].mint_b == accounts.mint_b
            &&& post.records[accounts.escrow].receive_amount == receive_amount
            &&& post.vaults.contains_key(accounts.vault)
            &&& post.vaults[accounts.vault].owner == accounts.escrow
            &&& balance(post.vaults, accounts.vault, mint) == (if mint == accounts.mint_a {
                deposit_amount as nat
            } else {
                0
            })
            &&& balance(post.holdings, accounts.maker_ata_a, accounts.mint_a) + deposit_amount
                == balance(pre.holdings, accounts.maker_ata_a, accounts.mint_a)
        }),
{
}

/// While an offer is open, a second Make under the same maker and seed
/// is refused, whatever accounts it names: two records of one maker and
/// seed never stand together.
pub proof fn law_make_twice_is_refused(
    ctx: ProtocolContext,
    pre: LedgerState,
    accounts: Make,
    seed: u64,
    deposit_amount: u64,
    receive_amount: u64,
    again: Make,
    again_deposit: u64,
)
    requires
        make_error(ctx, pre, accounts, seed, deposit_amount) is None,
        again.maker == accounts.maker,
    ensures
        make_error(
            ctx,
            after_make(ctx, pre, accounts, seed, deposit_amount, receive_amount),
            again,
            seed,
            again_deposit,
        ) == Some(
            if again.escrow == accounts.escrow && again.vault == accounts.vault {
                EscrowError::AlreadyExists
            } else {
                EscrowError::InvalidDerivation
            },
        ),
{
}

/// The states of an offer and the steps between them. Make opens a
/// closed offer, Take and Refund close an open one, and nothing else
/// changes the state of any offer: an operation that fails changes none,
/// and one that passes changes only that of the record it names.
pub proof fn law_state_machine(
    ctx: ProtocolContext,
    pre: LedgerState,
    make: Make,
    seed: u64,
    deposit_amount: u64,
    receive_amount: u64,
    take: Take,
    refund: Refund,
    escrow: Address,
)
    ensures
        make_error(ctx, pre, make, seed, deposit_amount) is None ==> pre.status(make.escrow)
            == Status::Closed,
        take_error(ctx, pre, take) is None ==> pre.status(take.escrow) == Status::Open,
        refund_error(ctx, pre, refund) is None ==> pre.status(refund.escrow) == Status::Open,
        after_make(ctx, pre, make, seed, deposit_amount, receive_amount).status(escrow) == (
        if make_error(ctx, pre, make, seed, deposit_amount) is None && escrow == make.escrow {
            Status::Open
        } else {
            pre.status(escrow)
        }),
        after_take(ctx, pre, take).status(escrow) == (if take_error(ctx, pre, take) is None
            && escrow == take.escrow {
            Status::Closed
        } else {
            pre.status(escrow)
        }),
        after_refund(ctx, pre, refund).status(escrow) == (if refund_error(ctx, pre, refund)
            is None && escrow == refund.escrow {
            Status::Closed
        } else {
            pre.status(escrow)
        }),
{
}

/// A record is never changed while it is open: whatever Make, Take or
/// Refund do, a record that stands before and after is the same record.
pub proof fn law_open_records_do_not_change(
    ctx: ProtocolContext,
    pre: LedgerState,
    make: Make,
    seed: u64,
    deposit_amount: u64,
    receive_amount: u64,
    take: Take,
    refund: Refund,
    escrow: Address,
)
    requires
        pre.records.contains_key(escrow),
    ensures
        ({
            let post = after_make(ctx, pre, make, seed, deposit_amount, receive_amount);
            post.records.contains_key(escrow) && post.records[escrow] == pre.records[escrow]
        }),
        ({
            let post = after_take(ctx, pre, take);
            post.records.contains_key(escrow) ==> post.records[escrow] == pre.records[escrow]
        }),
        ({
            let post = after_refund(ctx, pre, refund);
            post.records.contains_key(escrow) ==> post.records[escrow] == pre.records[escrow]
        }),
{
}

/// After a Take that passed, record and vault are gone; and where the
/// three holdings named are three different accounts, the maker's holds
/// exactly the amount asked for more of asset B, the taker's exactly that
/// much less, and the taker's holding of asset A exactly what the vault
/// held more. A holding that did not stand before counts as empty.
pub proof fn law_take_settles(ctx: ProtocolContext, pre: LedgerState, accounts: Take)
    requires
        take_error(ctx, pre, accounts) is None,
        accounts.maker_ata_b != accounts.taker_ata_b,
        accounts.maker_ata_b != accounts.taker_ata_a,
        accounts.taker_ata_a != accounts.taker_ata_b,
    ensures
        ({
            let post = after_take(ctx, pre, accounts);
            let asked = pre.records[accounts.escrow].receive_amount;
            let held = pre.vaults[accounts.vault].amount;
            &&& !post.records.contains_key(accounts.escrow)
            &&& !post.vaults.contains_key(accounts.vault)
            &&& pre.vaults[accounts.vault].mint == accounts.mint_a
            &&& pre.records[accounts.escrow].maker == accounts.maker
            &&& post.holdings[accounts.maker_ata_b].owner == accounts.maker
            &&& post.holdings[accounts.taker_ata_a].owner == accounts.taker
            &&& balance(post.holdings, accounts.maker_ata_b, accounts.mint_b) == balance(
                pre.holdings,
                accounts.maker_ata_b,
                accounts.mint_b,
            ) + asked
            &&& balance(post.holdings, accounts.taker_ata_a, accounts.mint_a) == balance(
                pre.holdings,
                accounts.taker_ata_a,
                accounts.mint_a,
            ) + held
            &&& balance(post.holdings, accounts.taker_ata_b, accounts.mint_b) + asked == balance(
                pre.holdings,
                accounts.taker_ata_b,
                accounts.mint_b,
            )
        }),
{
}

/// What a Take that passed does to each of the three holdings it names,
/// whichever of them are one and the same account: the taker's holding
/// of asset B is down by the amount asked for and the maker's up by it,
/// unless the two are one account, and the taker's holding of asset A is
/// up by what the vault held. A holding that did not stand before counts
/// as empty.
pub proof fn law_take_moves_exactly(
    ctx: ProtocolContext,
    pre: LedgerState,
    accounts: Take,
    holding: Address,
)
    requires
        take_error(ctx, pre, accounts) is None,
        holding == accounts.taker_ata_a || holding == accounts.taker_ata_b || holding
            == accounts.maker_ata_b,
    ensures
        ({
            let post = after_take(ctx, pre, accounts);
            let asked = pre.records[accounts.escrow].receive_amount;
            let held = pre.vaults[accounts.vault].amount;
            let before: int = if pre.holdings.contains_key(holding) {
                pre.holdings[holding].amount as int
            } else {
                0
            };
            let paid: int = if holding == accounts.taker_ata_b && accounts.taker_ata_b
                != accounts.maker_ata_b {
                asked as int
            } else {
                0
            };
            let received: int = if holding == accounts.maker_ata_b && accounts.taker_ata_b
                != accounts.maker_ata_b {
                asked as int
            } else {
                0
            };
            let withdrawn: int = if holding == accounts.taker_ata_a {
                held as int
            } else {
                0
            };
            &&& post.holdings.contains_key(holding)
            &&& post.holdings[holding].amount == before - paid + received + withdrawn
        }),
{
}

/// Take touches nothing but the accounts it names: every other record,
/// vault and holding stands after it as before.
pub proof fn law_take_leaves_others(
    ctx: ProtocolContext,
    pre: LedgerState,
    accounts: Take,
    other: Address,
)
    ensures
        ({
            let post = after_take(ctx, pre, accounts);
            &&& other != accounts.escrow ==> post.records.contains_key(other)
                == pre.records.contains_key(other) && post.records[other] == pre.records[other]
            &&& other != accounts.vault ==> post.vaults.contains_key(other)
                == pre.vaults.contains_key(other) && post.vaults[other] == pre.vaults[other]
            &&& other != accounts.taker_ata_a && other != accounts.taker_ata_b && other
                != accounts.maker_ata_b ==> post.holdings.contains_key(other)
                == pre.holdings.contains_key(other) && post.holdings[other] == pre.holdings[other]
        }),
{
}

/// After a Refund that passed, record and vault are gone, the maker's
/// holding of asset A holds exactly what the vault held more, and no
/// other holding has changed.
pub proof fn law_refund_returns_deposit(ctx: ProtocolContext, pre: LedgerState, accounts: Refund)
    requires
        refund_error(ctx, pre, accounts) is None,
    ensures
        ({
            let post = after_refund(ctx, pre, accounts);
            &&& !post.records.contains_key(accounts.escrow)
            &&& !post.vaults.contains_key(accounts.vault)
            &&& pre.records[accounts.escrow].maker == accounts.maker
            &&& post.holdings[accounts.maker_ata_a].owner == accounts.maker
            &&& balance(post.holdings, accounts.maker_ata_a, accounts.mint_a) == balance(
                pre.holdings,
                accounts.maker_ata_a,
                accounts.mint_a,
            ) + pre.vaults[accounts.vault].amount
            &&& post.holdings.remove(accounts.maker_ata_a) == pre.holdings.remove(
                accounts.maker_ata_a,
            )
            &&& post.records == pre.records.remove(accounts.escrow)
            &&& post.vaults == pre.vaults.remove(accounts.vault)
        }),
{
    let post = after_refund(ctx, pre, accounts);
    assert(post.holdings.remove(accounts.maker_ata_a) =~= pre.holdings.remove(
        accounts.maker_ata_a,
    ));
}

/// No offer is settled twice: on a ledger where no record stands at an
/// address, every Take and every Refund that names the address fails
/// with `NotFound` and changes nothing.
pub proof fn law_closed_record_is_not_found(
    ctx: ProtocolContext,
    ledger: LedgerState,
    take: Take,
    refund: Refund,
)
    requires
        !ledger.records.contains_key(take.escrow),
        !ledger.records.contains_key(refund.escrow),
    ensures
        take_error(ctx, ledger, take) == Some(EscrowError::NotFound),
        refund_error(ctx, ledger, refund) == Some(EscrowError::NotFound),
        after_take(ctx, ledger, take) == ledger,
        after_refund(ctx, ledger, refund) == ledger,
{
}

/// After a Take that passed, a second Take or a Refund on the same
/// record fails with `NotFound`.
pub proof fn law_no_settlement_after_take(
    ctx: ProtocolContext,
    pre: LedgerState,
    first: Take,
    take: Take,
    refund: Refund,
)
    requires
        take_error(ctx, pre, first) is None,
        take.escrow == first.escrow,
        refund.escrow == first.escrow,
    ensures
        take_error(ctx, after_take(ctx, pre, first), take) == Some(EscrowError::NotFound),
        refund_error(ctx, after_take(ctx, pre, first), refund) == Some(EscrowError::NotFound),
{
}

/// After a Refund that passed, a second Refund or a Take on the same
/// record fails with `NotFound`.
pub proof fn law_no_settlement_after_refund(
    ctx: ProtocolContext,
    pre: LedgerState,
    first: Refund,
    take: Take,
    refund: Refund,
)
    requires
        refund_error(ctx, pre, first) is None,
        take.escrow == first.escrow,
        refund.escrow == first.escrow,
    ensures
        take_error(ctx, after_refund(ctx, pre, first), take) == Some(EscrowError::NotFound),
        refund_error(ctx, after_refund(ctx, pre, first), refund) == Some(EscrowError::NotFound),
{
}

/// Asset substitution is refused: a Take on an open record that names
/// another asset type than the record asks for, or pays out of a holding
/// of another asset type, fails with `AssetMismatch` and changes nothing.
pub proof fn law_asset_substitution_is_refused(
    ctx: ProtocolContext,
    pre: LedgerState,
    accounts: Take,
)
    requires
        pre.records.contains_key(accounts.escrow),
        accounts.mint_b != pre.records[accounts.escrow].mint_b || (pre.holdings.contains_key(
            accounts.taker_ata_b,
        ) && pre.holdings[accounts.taker_ata_b].mint != pre.records[accounts.escrow].mint_b),
    ensures
        take_error(ctx, pre, accounts) == Some(EscrowError::AssetMismatch),
        after_take(ctx, pre, accounts) == pre,
{
}

/// Make and then Refund by the same maker, with the same accounts, is a
/// round trip: the Refund passes, and the whole ledger, the maker's
/// holding of asset A with it, stands exactly as before the Make.
pub proof fn law_make_refund_round_trip(
    ctx: ProtocolContext,
    pre: LedgerState,
    accounts: Make,
    seed: u64,
    deposit_amount: u64,
    receive_amount: u64,
)
    requires
        make_error(ctx, pre, accounts, seed, deposit_amount) is None,
    ensures
        ({
            let made = after_make(ctx, pre, accounts, seed, deposit_amount, receive_amount);
            let back = Refund {
                maker: accounts.maker,
                mint_a: accounts.mint_a,
                maker_ata_a: accounts.maker_ata_a,
                vault: accounts.vault,
                escrow: accounts.escrow,
            };
            &&& refund_error(ctx, made, back) is None
            &&& after_refund(ctx, made, back) == pre
        }),
{
    let made = after_make(ctx, pre, accounts, seed, deposit_amount, receive_amount);
    let back = Refund {
        maker: accounts.maker,
        mint_a: accounts.mint_a,
        maker_ata_a: accounts.maker_ata_a,
        vault: accounts.vault,
        escrow: accounts.escrow,
    };
    let post = after_refund(ctx, made, back);
    assert(refund_error(ctx, made, back) is None);
    assert(post.records =~= pre.records);
    assert(post.vaults =~= pre.vaults);
    assert(post.holdings =~= pre.holdings);
}

} // verus!
