use anchor_escrow::address::{derive_record, derive_vault, Address, ProtocolContext};
use anchor_escrow::contexts::make::{Make, MakeBumps};
use anchor_escrow::contexts::refund::Refund;
use anchor_escrow::contexts::take::Take;
use anchor_escrow::error::EscrowError;
use anchor_escrow::ledger::Ledger;
use anchor_escrow::state::{Escrow, TokenAccount};
use anchor_escrow::{make, refund, take};

const MAKER: u8 = 1;
const TAKER: u8 = 2;
const MINT_A: u8 = 3;
const MINT_B: u8 = 4;
const MINT_C: u8 = 5;
const MAKER_A: u8 = 11;
const MAKER_B: u8 = 12;
const TAKER_A: u8 = 21;
const TAKER_B: u8 = 22;
const TAKER_C: u8 = 23;

fn program() -> ProtocolContext {
    ProtocolContext { program_id: Address::new([9u8; 32]) }
}

fn addr(byte: u8) -> Address {
    Address::new([byte; 32])
}

fn open(ledger: &mut Ledger, address: u8, mint: u8, owner: u8, amount: u64) {
    ledger.open_account(&addr(address), &addr(mint), &addr(owner)).unwrap();
    ledger.mint_to(&addr(address), amount).unwrap();
}

/// Maker holds 1000 A; taker holds 500 B and 500 C.
fn world() -> Ledger {
    let mut ledger = Ledger::new();
    open(&mut ledger, MAKER_A, MINT_A, MAKER, 1000);
    open(&mut ledger, TAKER_B, MINT_B, TAKER, 500);
    open(&mut ledger, TAKER_C, MINT_C, TAKER, 500);
    ledger
}

fn make_accounts(seed: u64) -> Make {
    let escrow = derive_record(&program(), &addr(MAKER), seed).unwrap().address;
    let vault = derive_vault(&program(), &escrow).unwrap().address;
    Make {
        maker: addr(MAKER),
        mint_a: addr(MINT_A),
        mint_b: addr(MINT_B),
        maker_ata_a: addr(MAKER_A),
        vault,
        escrow,
    }
}

fn take_accounts(seed: u64) -> Take {
    let made = make_accounts(seed);
    Take {
        taker: addr(TAKER),
        maker: addr(MAKER),
        mint_a: addr(MINT_A),
        mint_b: addr(MINT_B),
        taker_ata_a: addr(TAKER_A),
        taker_ata_b: addr(TAKER_B),
        maker_ata_b: addr(MAKER_B),
        escrow: made.escrow,
        vault: made.vault,
    }
}

fn refund_accounts(seed: u64) -> Refund {
    let made = make_accounts(seed);
    Refund {
        maker: addr(MAKER),
        mint_a: addr(MINT_A),
        maker_ata_a: addr(MAKER_A),
        vault: made.vault,
        escrow: made.escrow,
    }
}

fn amount(ledger: &Ledger, address: u8) -> Option<u64> {
    ledger.holding(&addr(address)).map(|account| account.amount)
}

/// The balances of every holding of the scenario, and whether the record
/// and vault of seed 7 stand.
fn picture(ledger: &Ledger) -> (Vec<Option<u64>>, bool, Option<u64>) {
    let made = make_accounts(7);
    (
        [MAKER_A, MAKER_B, TAKER_A, TAKER_B, TAKER_C].iter().map(|a| amount(ledger, *a)).collect(),
        ledger.load(&made.escrow).is_ok(),
        ledger.vault(&made.vault).map(|vault| vault.amount),
    )
}

#[test]
fn make_writes_the_record_and_funds_the_vault() {
    let mut ledger = world();
    let accounts = make_accounts(7);
    assert_eq!(make(&program(), &mut ledger, &accounts, 7, 100, 50), Ok(()));
    let record_bump = derive_record(&program(), &addr(MAKER), 7).unwrap().bump;
    let vault_bump = derive_vault(&program(), &accounts.escrow).unwrap().bump;
    assert_eq!(
        ledger.load(&accounts.escrow),
        Ok(Escrow {
            seed: 7,
            maker: addr(MAKER),
            mint_a: addr(MINT_A),
            mint_b: addr(MINT_B),
            receive_amount: 50,
            bump: record_bump,
            vault_bump,
        })
    );
    assert_eq!(
        ledger.vault(&accounts.vault),
        Some(TokenAccount { mint: addr(MINT_A), owner: accounts.escrow, amount: 100 })
    );
    assert_eq!(amount(&ledger, MAKER_A), Some(900));
}

#[test]
fn make_of_the_whole_balance_leaves_the_holding_empty() {
    let mut ledger = world();
    assert_eq!(make(&program(), &mut ledger, &make_accounts(7), 7, 1000, 50), Ok(()));
    assert_eq!(amount(&ledger, MAKER_A), Some(0));
    assert_eq!(ledger.vault(&make_accounts(7).vault).unwrap().amount, 1000);
}

#[test]
fn make_twice_under_one_seed_is_already_exists() {
    let mut ledger = world();
    make(&program(), &mut ledger, &make_accounts(7), 7, 100, 50).unwrap();
    let before = picture(&ledger);
    assert_eq!(
        make(&program(), &mut ledger, &make_accounts(7), 7, 200, 60),
        Err(EscrowError::AlreadyExists)
    );
    assert_eq!(picture(&ledger), before);
    assert_eq!(ledger.load(&make_accounts(7).escrow).unwrap().receive_amount, 50);
}

#[test]
fn make_under_two_seeds_opens_two_offers() {
    let mut ledger = world();
    make(&program(), &mut ledger, &make_accounts(7), 7, 100, 50).unwrap();
    make(&program(), &mut ledger, &make_accounts(8), 8, 200, 60).unwrap();
    assert_eq!(ledger.vault(&make_accounts(7).vault).unwrap().amount, 100);
    assert_eq!(ledger.vault(&make_accounts(8).vault).unwrap().amount, 200);
    assert_eq!(amount(&ledger, MAKER_A), Some(700));
}

#[test]
fn make_at_another_record_address_is_invalid_derivation() {
    let mut ledger = world();
    let before = picture(&ledger);
    let mut accounts = make_accounts(7);
    accounts.escrow = make_accounts(8).escrow;
    assert_eq!(
        make(&program(), &mut ledger, &accounts, 7, 100, 50),
        Err(EscrowError::InvalidDerivation)
    );
    assert_eq!(picture(&ledger), before);
}

#[test]
fn make_at_another_vault_address_is_invalid_derivation() {
    let mut ledger = world();
    let mut accounts = make_accounts(7);
    accounts.vault = make_accounts(8).vault;
    assert_eq!(
        make(&program(), &mut ledger, &accounts, 7, 100, 50),
        Err(EscrowError::InvalidDerivation)
    );
    assert_eq!(ledger.load(&accounts.escrow), Err(EscrowError::NotFound));
}

#[test]
fn make_under_another_program_is_invalid_derivation() {
    let mut ledger = world();
    let other = ProtocolContext { program_id: addr(10) };
    assert_eq!(
        make(&other, &mut ledger, &make_accounts(7), 7, 100, 50),
        Err(EscrowError::InvalidDerivation)
    );
}

#[test]
fn make_of_more_than_the_maker_holds_is_insufficient_funds() {
    let mut ledger = world();
    let before = picture(&ledger);
    assert_eq!(
        make(&program(), &mut ledger, &make_accounts(7), 7, 1001, 50),
        Err(EscrowError::InsufficientFunds)
    );
    assert_eq!(picture(&ledger), before);
    assert_eq!(ledger.vault(&make_accounts(7).vault), None);
}

#[test]
fn make_without_a_holding_is_not_found() {
    let mut ledger = world();
    let mut accounts = make_accounts(7);
    accounts.maker_ata_a = addr(99);
    assert_eq!(make(&program(), &mut ledger, &accounts, 7, 100, 50), Err(EscrowError::NotFound));
    assert_eq!(ledger.load(&accounts.escrow), Err(EscrowError::NotFound));
    assert_eq!(ledger.vault(&accounts.vault), None);
}

#[test]
fn make_out_of_a_holding_of_another_type_is_asset_mismatch() {
    let mut ledger = world();
    open(&mut ledger, 13, MINT_C, MAKER, 1000);
    let mut accounts = make_accounts(7);
    accounts.maker_ata_a = addr(13);
    assert_eq!(
        make(&program(), &mut ledger, &accounts, 7, 100, 50),
        Err(EscrowError::AssetMismatch)
    );
    assert_eq!(amount(&ledger, 13), Some(1000));
    assert_eq!(ledger.vault(&accounts.vault), None);
}

#[test]
fn make_out_of_a_holding_of_another_owner_is_unauthorized() {
    let mut ledger = world();
    open(&mut ledger, TAKER_A, MINT_A, TAKER, 1000);
    let mut accounts = make_accounts(7);
    accounts.maker_ata_a = addr(TAKER_A);
    assert_eq!(
        make(&program(), &mut ledger, &accounts, 7, 100, 50),
        Err(EscrowError::Unauthorized)
    );
    assert_eq!(amount(&ledger, TAKER_A), Some(1000));
}

#[test]
fn make_bumps_are_the_two_nonces() {
    let accounts = make_accounts(7);
    let record = derive_record(&program(), &addr(MAKER), 7).unwrap();
    let vault = derive_vault(&program(), &record.address).unwrap();
    assert_eq!(
        accounts.bumps(&program(), 7),
        Ok(MakeBumps { escrow: record.bump, vault: vault.bump })
    );
    assert_eq!(accounts.bumps(&program(), 8), Err(EscrowError::InvalidDerivation));
}

#[test]
fn save_refuses_nonces_that_do_not_derive() {
    let mut ledger = world();
    let accounts = make_accounts(7);
    let bumps = accounts.bumps(&program(), 7).unwrap();
    let wrong = MakeBumps { escrow: bumps.escrow.wrapping_sub(1), vault: bumps.vault };
    assert_eq!(
        accounts.save(&program(), &mut ledger, 7, 50, &wrong),
        Err(EscrowError::InvalidDerivation)
    );
    assert_eq!(ledger.load(&accounts.escrow), Err(EscrowError::NotFound));
    assert_eq!(accounts.save(&program(), &mut ledger, 7, 50, &bumps), Ok(()));
    assert_eq!(ledger.vault(&accounts.vault).unwrap().amount, 0);
    assert_eq!(
        accounts.save(&program(), &mut ledger, 7, 50, &bumps),
        Err(EscrowError::AlreadyExists)
    );
}

#[test]
fn save_then_deposit_is_make() {
    let mut stepwise = world();
    let accounts = make_accounts(7);
    let bumps = accounts.bumps(&program(), 7).unwrap();
    accounts.save(&program(), &mut stepwise, 7, 50, &bumps).unwrap();
    accounts.deposit(&mut stepwise, 100).unwrap();
    let mut whole = world();
    make(&program(), &mut whole, &accounts, 7, 100, 50).unwrap();
    assert_eq!(picture(&stepwise), picture(&whole));
    assert_eq!(stepwise.load(&accounts.escrow), whole.load(&accounts.escrow));
}

#[test]
fn take_pays_the_maker_and_hands_the_vault_to_the_taker() {
    let mut ledger = world();
    make(&program(), &mut ledger, &make_accounts(7), 7, 100, 50).unwrap();
    assert_eq!(take(&program(), &mut ledger, &take_accounts(7)), Ok(()));
    assert_eq!(
        ledger.holding(&addr(MAKER_B)),
        Some(TokenAccount { mint: addr(MINT_B), owner: addr(MAKER), amount: 50 })
    );
    assert_eq!(
        ledger.holding(&addr(TAKER_A)),
        Some(TokenAccount { mint: addr(MINT_A), owner: addr(TAKER), amount: 100 })
    );
    assert_eq!(amount(&ledger, TAKER_B), Some(450));
    assert_eq!(amount(&ledger, MAKER_A), Some(900));
    assert_eq!(ledger.load(&make_accounts(7).escrow), Err(EscrowError::NotFound));
    assert_eq!(ledger.vault(&make_accounts(7).vault), None);
}

#[test]
fn take_adds_to_holdings_that_stand_already() {
    let mut ledger = world();
    open(&mut ledger, MAKER_B, MINT_B, MAKER, 7);
    open(&mut ledger, TAKER_A, MINT_A, TAKER, 3);
    make(&program(), &mut ledger, &make_accounts(7), 7, 100, 50).unwrap();
    assert_eq!(take(&program(), &mut ledger, &take_accounts(7)), Ok(()));
    assert_eq!(amount(&ledger, MAKER_B), Some(57));
    assert_eq!(amount(&ledger, TAKER_A), Some(103));
    assert_eq!(amount(&ledger, TAKER_B), Some(450));
}

#[test]
fn take_leaves_other_offers_open() {
    let mut ledger = world();
    make(&program(), &mut ledger, &make_accounts(7), 7, 100, 50).unwrap();
    make(&program(), &mut ledger, &make_accounts(8), 8, 200, 60).unwrap();
    take(&program(), &mut ledger, &take_accounts(7)).unwrap();
    assert_eq!(ledger.load(&make_accounts(8).escrow).unwrap().receive_amount, 60);
    assert_eq!(ledger.vault(&make_accounts(8).vault).unwrap().amount, 200);
    assert_eq!(take(&program(), &mut ledger, &take_accounts(8)), Ok(()));
    assert_eq!(amount(&ledger, TAKER_A), Some(300));
    assert_eq!(amount(&ledger, MAKER_B), Some(110));
    assert_eq!(amount(&ledger, TAKER_B), Some(390));
}

#[test]
fn take_twice_is_not_found() {
    let mut ledger = world();
    make(&program(), &mut ledger, &make_accounts(7), 7, 100, 50).unwrap();
    take(&program(), &mut ledger, &take_accounts(7)).unwrap();
    let before = picture(&ledger);
    assert_eq!(take(&program(), &mut ledger, &take_accounts(7)), Err(EscrowError::NotFound));
    assert_eq!(picture(&ledger), before);
}

#[test]
fn refund_after_take_is_not_found() {
    let mut ledger = world();
    make(&program(), &mut ledger, &make_accounts(7), 7, 100, 50).unwrap();
    take(&program(), &mut ledger, &take_accounts(7)).unwrap();
    let before = picture(&ledger);
    assert_eq!(refund(&program(), &mut ledger, &refund_accounts(7)), Err(EscrowError::NotFound));
    assert_eq!(picture(&ledger), before);
}

#[test]
fn take_on_a_record_never_made_is_not_found() {
    let mut ledger = world();
    let before = picture(&ledger);
    assert_eq!(take(&program(), &mut ledger, &take_accounts(7)), Err(EscrowError::NotFound));
    assert_eq!(picture(&ledger), before);
}

#[test]
fn take_with_a_holding_of_another_type_is_asset_mismatch() {
    let mut ledger = world();
    make(&program(), &mut ledger, &make_accounts(7), 7, 100, 50).unwrap();
    let before = picture(&ledger);
    let mut accounts = take_accounts(7);
    accounts.taker_ata_b = addr(TAKER_C);
    assert_eq!(take(&program(), &mut ledger, &accounts), Err(EscrowError::AssetMismatch));
    assert_eq!(picture(&ledger), before);
}

#[test]
fn take_naming_another_asset_type_is_asset_mismatch() {
    let mut ledger = world();
    make(&program(), &mut ledger, &make_accounts(7), 7, 100, 50).unwrap();
    let before = picture(&ledger);
    let mut accounts = take_accounts(7);
    accounts.mint_b = addr(MINT_C);
    accounts.taker_ata_b = addr(TAKER_C);
    assert_eq!(take(&program(), &mut ledger, &accounts), Err(EscrowError::AssetMismatch));
    assert_eq!(picture(&ledger), before);
    let mut accounts = take_accounts(7);
    accounts.mint_a = addr(MINT_C);
    assert_eq!(take(&program(), &mut ledger, &accounts), Err(EscrowError::AssetMismatch));
    assert_eq!(picture(&ledger), before);
}

#[test]
fn take_without_the_amount_asked_for_is_insufficient_funds() {
    let mut ledger = world();
    make(&program(), &mut ledger, &make_accounts(7), 7, 100, 501).unwrap();
    let before = picture(&ledger);
    assert_eq!(take(&program(), &mut ledger, &take_accounts(7)), Err(EscrowError::InsufficientFunds));
    assert_eq!(picture(&ledger), before);
    assert_eq!(amount(&ledger, TAKER_A), None);
    assert_eq!(amount(&ledger, MAKER_B), None);
}

#[test]
fn take_of_exactly_what_the_taker_holds_passes() {
    let mut ledger = world();
    make(&program(), &mut ledger, &make_accounts(7), 7, 100, 500).unwrap();
    assert_eq!(take(&program(), &mut ledger, &take_accounts(7)), Ok(()));
    assert_eq!(amount(&ledger, TAKER_B), Some(0));
    assert_eq!(amount(&ledger, MAKER_B), Some(500));
}

#[test]
fn take_into_a_full_holding_is_overflow() {
    let mut ledger = world();
    open(&mut ledger, MAKER_B, MINT_B, MAKER, u64::MAX - 49);
    make(&program(), &mut ledger, &make_accounts(7), 7, 100, 50).unwrap();
    let before = picture(&ledger);
    assert_eq!(take(&program(), &mut ledger, &take_accounts(7)), Err(EscrowError::Overflow));
    assert_eq!(picture(&ledger), before);
}

#[test]
fn take_of_a_vault_too_large_for_the_taker_is_overflow() {
    let mut ledger = world();
    open(&mut ledger, TAKER_A, MINT_A, TAKER, u64::MAX - 99);
    make(&program(), &mut ledger, &make_accounts(7), 7, 100, 50).unwrap();
    let before = picture(&ledger);
    assert_eq!(take(&program(), &mut ledger, &take_accounts(7)), Err(EscrowError::Overflow));
    assert_eq!(picture(&ledger), before);
}

#[test]
fn take_naming_another_maker_is_invalid_derivation() {
    let mut ledger = world();
    make(&program(), &mut ledger, &make_accounts(7), 7, 100, 50).unwrap();
    let before = picture(&ledger);
    let mut accounts = take_accounts(7);
    accounts.maker = addr(TAKER);
    accounts.maker_ata_b = addr(TAKER_B);
    assert_eq!(take(&program(), &mut ledger, &accounts), Err(EscrowError::InvalidDerivation));
    assert_eq!(picture(&ledger), before);
}

#[test]
fn take_naming_another_vault_is_invalid_derivation() {
    let mut ledger = world();
    make(&program(), &mut ledger, &make_accounts(7), 7, 100, 50).unwrap();
    make(&program(), &mut ledger, &make_accounts(8), 8, 200, 50).unwrap();
    let mut accounts = take_accounts(7);
    accounts.vault = make_accounts(8).vault;
    assert_eq!(take(&program(), &mut ledger, &accounts), Err(EscrowError::InvalidDerivation));
    assert_eq!(ledger.vault(&make_accounts(8).vault).unwrap().amount, 200);
    assert_eq!(amount(&ledger, TAKER_B), Some(500));
}

#[test]
fn take_paying_into_a_holding_of_another_owner_is_unauthorized() {
    let mut ledger = world();
    open(&mut ledger, 24, MINT_B, TAKER, 0);
    make(&program(), &mut ledger, &make_accounts(7), 7, 100, 50).unwrap();
    let mut accounts = take_accounts(7);
    accounts.maker_ata_b = addr(24);
    assert_eq!(take(&program(), &mut ledger, &accounts), Err(EscrowError::Unauthorized));
    assert_eq!(amount(&ledger, TAKER_B), Some(500));
}

#[test]
fn take_out_of_a_holding_of_another_owner_is_unauthorized() {
    let mut ledger = world();
    open(&mut ledger, MAKER_B, MINT_B, MAKER, 500);
    make(&program(), &mut ledger, &make_accounts(7), 7, 100, 50).unwrap();
    let mut accounts = take_accounts(7);
    accounts.taker_ata_b = addr(MAKER_B);
    accounts.maker_ata_b = addr(12);
    assert_eq!(take(&program(), &mut ledger, &accounts), Err(EscrowError::Unauthorized));
    assert_eq!(amount(&ledger, MAKER_B), Some(500));
}

#[test]
fn take_by_the_maker_of_their_own_offer_returns_the_deposit() {
    let mut ledger = world();
    open(&mut ledger, MAKER_B, MINT_B, MAKER, 60);
    make(&program(), &mut ledger, &make_accounts(7), 7, 100, 50).unwrap();
    let made = make_accounts(7);
    let accounts = Take {
        taker: addr(MAKER),
        maker: addr(MAKER),
        mint_a: addr(MINT_A),
        mint_b: addr(MINT_B),
        taker_ata_a: addr(MAKER_A),
        taker_ata_b: addr(MAKER_B),
        maker_ata_b: addr(MAKER_B),
        escrow: made.escrow,
        vault: made.vault,
    };
    assert_eq!(take(&program(), &mut ledger, &accounts), Ok(()));
    assert_eq!(amount(&ledger, MAKER_B), Some(60));
    assert_eq!(amount(&ledger, MAKER_A), Some(1000));
    assert_eq!(ledger.load(&made.escrow), Err(EscrowError::NotFound));
}

#[test]
fn take_step_by_step_is_take() {
    let mut stepwise = world();
    make(&program(), &mut stepwise, &make_accounts(7), 7, 100, 50).unwrap();
    let mut whole = stepwise.snapshot();
    let accounts = take_accounts(7);
    let record = accounts.validate(&program(), &mut stepwise).unwrap();
    assert_eq!(record.receive_amount, 50);
    assert_eq!(amount(&stepwise, TAKER_A), Some(0));
    assert_eq!(amount(&stepwise, MAKER_B), Some(0));
    accounts.deposit(&mut stepwise).unwrap();
    assert_eq!(amount(&stepwise, MAKER_B), Some(50));
    assert_eq!(amount(&stepwise, TAKER_B), Some(450));
    accounts.withdraw(&program(), &mut stepwise).unwrap();
    assert_eq!(amount(&stepwise, TAKER_A), Some(100));
    assert_eq!(stepwise.vault(&accounts.vault).unwrap().amount, 0);
    accounts.close_vault(&program(), &mut stepwise).unwrap();
    assert_eq!(stepwise.vault(&accounts.vault), None);
    assert!(stepwise.load(&accounts.escrow).is_ok());
    take(&program(), &mut whole, &accounts).unwrap();
    assert_eq!(picture(&whole).0, picture(&stepwise).0);
}

#[test]
fn withdraw_naming_another_maker_is_unauthorized() {
    let mut ledger = world();
    make(&program(), &mut ledger, &make_accounts(7), 7, 100, 50).unwrap();
    open(&mut ledger, TAKER_A, MINT_A, TAKER, 0);
    let mut accounts = take_accounts(7);
    accounts.maker = addr(TAKER);
    assert_eq!(accounts.withdraw(&program(), &mut ledger), Err(EscrowError::Unauthorized));
    assert_eq!(ledger.vault(&accounts.vault).unwrap().amount, 100);
}

#[test]
fn refund_returns_the_deposit_and_closes_the_offer() {
    let mut ledger = world();
    make(&program(), &mut ledger, &make_accounts(7), 7, 100, 50).unwrap();
    assert_eq!(refund(&program(), &mut ledger, &refund_accounts(7)), Ok(()));
    assert_eq!(amount(&ledger, MAKER_A), Some(1000));
    assert_eq!(ledger.load(&make_accounts(7).escrow), Err(EscrowError::NotFound));
    assert_eq!(ledger.vault(&make_accounts(7).vault), None);
    assert_eq!(amount(&ledger, TAKER_B), Some(500));
}

#[test]
fn make_then_refund_is_a_round_trip() {
    let mut ledger = world();
    let before = picture(&ledger);
    make(&program(), &mut ledger, &make_accounts(7), 7, 100, 50).unwrap();
    assert_eq!(amount(&ledger, MAKER_A), Some(900));
    refund(&program(), &mut ledger, &refund_accounts(7)).unwrap();
    assert_eq!(picture(&ledger), before);
    assert_eq!(amount(&ledger, MAKER_A), Some(1000));
}

#[test]
fn refund_twice_is_not_found() {
    let mut ledger = world();
    make(&program(), &mut ledger, &make_accounts(7), 7, 100, 50).unwrap();
    refund(&program(), &mut ledger, &refund_accounts(7)).unwrap();
    let before = picture(&ledger);
    assert_eq!(refund(&program(), &mut ledger, &refund_accounts(7)), Err(EscrowError::NotFound));
    assert_eq!(picture(&ledger), before);
}

#[test]
fn take_after_refund_is_not_found() {
    let mut ledger = world();
    make(&program(), &mut ledger, &make_accounts(7), 7, 100, 50).unwrap();
    refund(&program(), &mut ledger, &refund_accounts(7)).unwrap();
    let before = picture(&ledger);
    assert_eq!(take(&program(), &mut ledger, &take_accounts(7)), Err(EscrowError::NotFound));
    assert_eq!(picture(&ledger), before);
}

#[test]
fn make_again_after_refund_reopens_the_offer() {
    let mut ledger = world();
    make(&program(), &mut ledger, &make_accounts(7), 7, 100, 50).unwrap();
    refund(&program(), &mut ledger, &refund_accounts(7)).unwrap();
    assert_eq!(make(&program(), &mut ledger, &make_accounts(7), 7, 30, 20), Ok(()));
    assert_eq!(ledger.load(&make_accounts(7).escrow).unwrap().receive_amount, 20);
    assert_eq!(ledger.vault(&make_accounts(7).vault).unwrap().amount, 30);
}

#[test]
fn refund_by_another_than_the_maker_is_unauthorized() {
    let mut ledger = world();
    open(&mut ledger, TAKER_A, MINT_A, TAKER, 0);
    make(&program(), &mut ledger, &make_accounts(7), 7, 100, 50).unwrap();
    let before = picture(&ledger);
    let mut accounts = refund_accounts(7);
    accounts.maker = addr(TAKER);
    accounts.maker_ata_a = addr(TAKER_A);
    assert_eq!(refund(&program(), &mut ledger, &accounts), Err(EscrowError::Unauthorized));
    assert_eq!(picture(&ledger), before);
}

#[test]
fn refund_into_a_holding_of_another_owner_is_unauthorized() {
    let mut ledger = world();
    open(&mut ledger, TAKER_A, MINT_A, TAKER, 0);
    make(&program(), &mut ledger, &make_accounts(7), 7, 100, 50).unwrap();
    let mut accounts = refund_accounts(7);
    accounts.maker_ata_a = addr(TAKER_A);
    assert_eq!(refund(&program(), &mut ledger, &accounts), Err(EscrowError::Unauthorized));
    assert_eq!(amount(&ledger, TAKER_A), Some(0));
}

#[test]
fn refund_naming_another_asset_type_is_asset_mismatch() {
    let mut ledger = world();
    make(&program(), &mut ledger, &make_accounts(7), 7, 100, 50).unwrap();
    let mut accounts = refund_accounts(7);
    accounts.mint_a = addr(MINT_C);
    assert_eq!(refund(&program(), &mut ledger, &accounts), Err(EscrowError::AssetMismatch));
    assert_eq!(ledger.vault(&accounts.vault).unwrap().amount, 100);
}

#[test]
fn refund_naming_another_vault_is_invalid_derivation() {
    let mut ledger = world();
    make(&program(), &mut ledger, &make_accounts(7), 7, 100, 50).unwrap();
    make(&program(), &mut ledger, &make_accounts(8), 8, 200, 50).unwrap();
    let mut accounts = refund_accounts(7);
    accounts.vault = make_accounts(8).vault;
    assert_eq!(refund(&program(), &mut ledger, &accounts), Err(EscrowError::InvalidDerivation));
    assert_eq!(amount(&ledger, MAKER_A), Some(700));
}

#[test]
fn refund_without_the_holding_is_not_found() {
    let mut ledger = world();
    make(&program(), &mut ledger, &make_accounts(7), 7, 100, 50).unwrap();
    let mut accounts = refund_accounts(7);
    accounts.maker_ata_a = addr(99);
    assert_eq!(refund(&program(), &mut ledger, &accounts), Err(EscrowError::NotFound));
    assert!(ledger.load(&accounts.escrow).is_ok());
}

#[test]
fn refund_into_a_full_holding_is_overflow() {
    let mut ledger = world();
    make(&program(), &mut ledger, &make_accounts(7), 7, 100, 50).unwrap();
    ledger.mint_to(&addr(MAKER_A), u64::MAX - 999).unwrap();
    let before = picture(&ledger);
    assert_eq!(refund(&program(), &mut ledger, &refund_accounts(7)), Err(EscrowError::Overflow));
    assert_eq!(picture(&ledger), before);
}

#[test]
fn refund_step_by_step_is_refund() {
    let mut ledger = world();
    make(&program(), &mut ledger, &make_accounts(7), 7, 100, 50).unwrap();
    let accounts = refund_accounts(7);
    let record = accounts.validate(&program(), &ledger).unwrap();
    assert_eq!(record.seed, 7);
    accounts.refund(&program(), &mut ledger).unwrap();
    assert_eq!(amount(&ledger, MAKER_A), Some(1000));
    assert_eq!(ledger.vault(&accounts.vault).unwrap().amount, 0);
    accounts.close_vault(&program(), &mut ledger).unwrap();
    assert_eq!(ledger.vault(&accounts.vault), None);
}

#[test]
fn scenario_deposit_100_for_50_then_take() {
    let mut ledger = world();
    let maker_a = amount(&ledger, MAKER_A).unwrap();
    let taker_b = amount(&ledger, TAKER_B).unwrap();
    make(&program(), &mut ledger, &make_accounts(7), 7, 100, 50).unwrap();
    take(&program(), &mut ledger, &take_accounts(7)).unwrap();
    assert_eq!(amount(&ledger, MAKER_B), Some(50));
    assert_eq!(amount(&ledger, TAKER_A), Some(100));
    assert_eq!(amount(&ledger, MAKER_A), Some(maker_a - 100));
    assert_eq!(amount(&ledger, TAKER_B), Some(taker_b - 50));
    assert_eq!(ledger.load(&make_accounts(7).escrow), Err(EscrowError::NotFound));
    assert_eq!(ledger.vault(&make_accounts(7).vault), None);
}

#[test]
fn scenario_deposit_100_for_50_then_refund() {
    let mut ledger = world();
    let maker_a = amount(&ledger, MAKER_A).unwrap();
    make(&program(), &mut ledger, &make_accounts(7), 7, 100, 50).unwrap();
    refund(&program(), &mut ledger, &refund_accounts(7)).unwrap();
    assert_eq!(amount(&ledger, MAKER_A), Some(maker_a));
    assert_eq!(amount(&ledger, MAKER_B), None);
    assert_eq!(ledger.load(&make_accounts(7).escrow), Err(EscrowError::NotFound));
    assert_eq!(ledger.vault(&make_accounts(7).vault), None);
}

#[test]
fn take_with_one_new_holding_for_two_asset_types_is_asset_mismatch() {
    let mut ledger = world();
    make(&program(), &mut ledger, &make_accounts(7), 7, 100, 50).unwrap();
    let before = picture(&ledger);
    let mut accounts = take_accounts(7);
    accounts.maker_ata_b = addr(TAKER_A);
    assert_eq!(take(&program(), &mut ledger, &accounts), Err(EscrowError::AssetMismatch));
    assert_eq!(picture(&ledger), before);
    assert_eq!(amount(&ledger, TAKER_A), None);
}

#[test]
fn take_with_one_new_holding_for_two_owners_is_unauthorized() {
    let mut ledger = world();
    open(&mut ledger, 25, MINT_A, TAKER, 500);
    let mut made = make_accounts(7);
    made.mint_b = addr(MINT_A);
    make(&program(), &mut ledger, &made, 7, 100, 50).unwrap();
    let accounts = Take {
        taker: addr(TAKER),
        maker: addr(MAKER),
        mint_a: addr(MINT_A),
        mint_b: addr(MINT_A),
        taker_ata_a: addr(26),
        taker_ata_b: addr(25),
        maker_ata_b: addr(26),
        escrow: made.escrow,
        vault: made.vault,
    };
    assert_eq!(take(&program(), &mut ledger, &accounts), Err(EscrowError::Unauthorized));
    assert_eq!(amount(&ledger, 26), None);
    assert_eq!(amount(&ledger, 25), Some(500));
}

#[test]
fn take_of_one_asset_type_through_one_holding_nets_the_two_amounts() {
    let mut ledger = world();
    open(&mut ledger, 25, MINT_A, TAKER, 500);
    let mut made = make_accounts(7);
    made.mint_b = addr(MINT_A);
    make(&program(), &mut ledger, &made, 7, 100, 30).unwrap();
    let accounts = Take {
        taker: addr(TAKER),
        maker: addr(MAKER),
        mint_a: addr(MINT_A),
        mint_b: addr(MINT_A),
        taker_ata_a: addr(25),
        taker_ata_b: addr(25),
        maker_ata_b: addr(MAKER_A),
        escrow: made.escrow,
        vault: made.vault,
    };
    assert_eq!(take(&program(), &mut ledger, &accounts), Ok(()));
    assert_eq!(amount(&ledger, 25), Some(570));
    assert_eq!(amount(&ledger, MAKER_A), Some(930));
}
