//! End-to-end scenarios for the escrow protocol: the happy paths of
//! Initialize, Exchange and Cancel, every rejection the operations promise,
//! and the atomicity of a failed settlement.

use escrow::account::{account_id_eq, AccountId};
use escrow::authority::vault_authority;
use escrow::errors::{EscrowError, TransferError};
use escrow::escrow::{cancel, exchange, init_escrow, Cancel, Exchange, InitializeEscrow};
use escrow::ledger::Ledger;
use escrow::record::RecordSlot;

const PROGRAM_TAG: u8 = 7;
const ALICE: u8 = 1;
const BOB: u8 = 2;
const VAULT: u8 = 3;
const ALICE_RX: u8 = 4;
const BOB_RX: u8 = 5;
const BOB_DEPOSIT: u8 = 6;

fn id(tag: u8) -> AccountId {
    AccountId::new(vec![tag; 32])
}

fn program_id() -> AccountId {
    AccountId::new(vec![PROGRAM_TAG; 32])
}

fn pda() -> AccountId {
    vault_authority(&program_id()).expect("a viable bump exists for this identity")
}

/// A ledger ready for the canonical swap: Alice has locked 100 units in the
/// vault and will demand 50; Bob holds 80 units to pay with.
fn setup() -> Ledger {
    let mut l = Ledger::new(program_id());
    assert!(l.add_account(id(VAULT), id(ALICE), 100, false));
    assert!(l.add_account(id(ALICE_RX), id(ALICE), 0, false));
    assert!(l.add_account(id(BOB_RX), id(BOB), 0, false));
    assert!(l.add_account(id(BOB_DEPOSIT), id(BOB), 80, false));
    l
}

fn init_ctx() -> InitializeEscrow {
    InitializeEscrow { user: id(ALICE), token_rx_acc: id(ALICE_RX), vault_acc: id(VAULT) }
}

fn exchange_ctx() -> Exchange {
    Exchange {
        taker: id(BOB),
        initializer: id(ALICE),
        initializer_token_rx_acc: id(ALICE_RX),
        taker_token_rx_acc: id(BOB_RX),
        taker_token_deposit_acc: id(BOB_DEPOSIT),
        vault_acc: id(VAULT),
        vault_pda: pda(),
    }
}

fn cancel_ctx() -> Cancel {
    Cancel {
        initializer: id(ALICE),
        token_deposit_acc: id(BOB_DEPOSIT),
        vault_acc: id(VAULT),
        vault_pda: pda(),
    }
}

fn assert_setup_balances(l: &Ledger) {
    assert_eq!(l.balance_of(&id(VAULT)), Some(100));
    assert_eq!(l.balance_of(&id(ALICE_RX)), Some(0));
    assert_eq!(l.balance_of(&id(BOB_RX)), Some(0));
    assert_eq!(l.balance_of(&id(BOB_DEPOSIT)), Some(80));
}

#[test]
fn initialize_locks_vault_under_derived_authority() {
    let mut l = setup();
    assert!(account_id_eq(&l.authority_of(&id(VAULT)).unwrap(), &id(ALICE)));
    assert_eq!(init_escrow(&mut l, &init_ctx(), 50), Ok(()));
    // custody moved to the derived authority; no asset quantity moved yet
    assert!(account_id_eq(&l.authority_of(&id(VAULT)).unwrap(), &pda()));
    assert_setup_balances(&l);
    match &l.record {
        RecordSlot::Present(r) => {
            assert!(r.is_initialized);
            assert!(account_id_eq(&r.initializer, &id(ALICE)));
            assert!(account_id_eq(&r.initializer_rx_acc, &id(ALICE_RX)));
            assert!(account_id_eq(&r.vault_acc, &id(VAULT)));
            assert_eq!(r.expected_amount, 50);
        }
        _ => panic!("record should exist after initialize"),
    }
}

#[test]
fn derivation_is_pure_and_repeatable() {
    let a = vault_authority(&program_id()).unwrap();
    let b = vault_authority(&program_id()).unwrap();
    assert!(account_id_eq(&a, &b));
    // and it matches the host's own derivation for the same seed and identity
    let host = solana_program::pubkey::Pubkey::try_from(&program_id().bytes[..]).unwrap();
    let (derived, _bump) =
        solana_program::pubkey::Pubkey::try_find_program_address(&[b"escrow"], &host).unwrap();
    assert_eq!(a.bytes, derived.to_bytes().to_vec());
    // the derived address is not any input echoed back
    assert!(!account_id_eq(&a, &program_id()));
}

#[test]
fn initialize_twice_fails_with_already_init() {
    let mut l = setup();
    assert_eq!(init_escrow(&mut l, &init_ctx(), 50), Ok(()));
    assert_eq!(
        init_escrow(&mut l, &init_ctx(), 75),
        Err(EscrowError::AlreadyInitError)
    );
    // state after the failed second call equals state after the first
    assert!(account_id_eq(&l.authority_of(&id(VAULT)).unwrap(), &pda()));
    assert_setup_balances(&l);
    match &l.record {
        RecordSlot::Present(r) => assert_eq!(r.expected_amount, 50),
        _ => panic!("record should still exist"),
    }
}

#[test]
fn initialize_needs_the_depositors_own_authority() {
    let mut l = Ledger::new(program_id());
    assert!(l.add_account(id(VAULT), id(BOB), 100, false));
    assert_eq!(
        init_escrow(&mut l, &init_ctx(), 50),
        Err(EscrowError::Transfer(TransferError::AuthorityMismatch))
    );
    assert!(account_id_eq(&l.authority_of(&id(VAULT)).unwrap(), &id(BOB)));
    assert!(matches!(l.record, RecordSlot::Absent));
}

#[test]
fn initialize_rejects_frozen_vault() {
    let mut l = Ledger::new(program_id());
    assert!(l.add_account(id(VAULT), id(ALICE), 100, true));
    assert_eq!(
        init_escrow(&mut l, &init_ctx(), 50),
        Err(EscrowError::Transfer(TransferError::AccountFrozen))
    );
    assert!(matches!(l.record, RecordSlot::Absent));
}

#[test]
fn initialize_rejects_missing_vault() {
    let mut l = Ledger::new(program_id());
    assert_eq!(
        init_escrow(&mut l, &init_ctx(), 50),
        Err(EscrowError::Transfer(TransferError::AccountNotFound))
    );
}

#[test]
fn exchange_settles_both_sides_exactly() {
    let mut l = setup();
    assert_eq!(init_escrow(&mut l, &init_ctx(), 50), Ok(()));
    assert_eq!(exchange(&mut l, &exchange_ctx()), Ok(()));
    // initializer gains exactly the demanded 50; taker gains the whole vault
    assert_eq!(l.balance_of(&id(ALICE_RX)), Some(50));
    assert_eq!(l.balance_of(&id(BOB_RX)), Some(100));
    assert_eq!(l.balance_of(&id(BOB_DEPOSIT)), Some(30));
    // vault and record no longer exist
    assert!(!l.has_account(&id(VAULT)));
    assert!(matches!(l.record, RecordSlot::Destroyed));
}

#[test]
fn exchange_rejects_each_altered_reference() {
    let mut l = setup();
    assert_eq!(init_escrow(&mut l, &init_ctx(), 50), Ok(()));

    let mut wrong_initializer = exchange_ctx();
    wrong_initializer.initializer = id(BOB);
    let mut wrong_rx = exchange_ctx();
    wrong_rx.initializer_token_rx_acc = id(BOB_RX);
    let mut wrong_vault = exchange_ctx();
    wrong_vault.vault_acc = id(BOB_DEPOSIT);
    let mut wrong_pda = exchange_ctx();
    wrong_pda.vault_pda = id(BOB);

    for c in [wrong_initializer, wrong_rx, wrong_vault, wrong_pda] {
        assert_eq!(exchange(&mut l, &c), Err(EscrowError::InvalidAccountError));
        // zero custody changes
        assert_setup_balances(&l);
        assert!(account_id_eq(&l.authority_of(&id(VAULT)).unwrap(), &pda()));
        assert!(matches!(l.record, RecordSlot::Present(_)));
    }
}

#[test]
fn exchange_fails_before_initialize() {
    let mut l = setup();
    assert_eq!(
        exchange(&mut l, &exchange_ctx()),
        Err(EscrowError::RecordNotFound)
    );
}

#[test]
fn exchange_replay_finds_no_record() {
    let mut l = setup();
    assert_eq!(init_escrow(&mut l, &init_ctx(), 50), Ok(()));
    assert_eq!(exchange(&mut l, &exchange_ctx()), Ok(()));
    // replaying the identical operation moves nothing a second time
    assert_eq!(
        exchange(&mut l, &exchange_ctx()),
        Err(EscrowError::RecordNotFound)
    );
    assert_eq!(cancel(&mut l, &cancel_ctx()), Err(EscrowError::RecordNotFound));
    assert_eq!(l.balance_of(&id(ALICE_RX)), Some(50));
    assert_eq!(l.balance_of(&id(BOB_RX)), Some(100));
    assert_eq!(l.balance_of(&id(BOB_DEPOSIT)), Some(30));
}

#[test]
fn exchange_fails_when_taker_cannot_pay() {
    let mut l = setup();
    assert_eq!(init_escrow(&mut l, &init_ctx(), 200), Ok(()));
    assert_eq!(
        exchange(&mut l, &exchange_ctx()),
        Err(EscrowError::Transfer(TransferError::InsufficientBalance))
    );
    assert_setup_balances(&l);
    assert!(matches!(l.record, RecordSlot::Present(_)));
}

#[test]
fn exchange_discards_all_staged_changes_on_a_late_failure() {
    let mut l = Ledger::new(program_id());
    assert!(l.add_account(id(VAULT), id(ALICE), 100, false));
    assert!(l.add_account(id(ALICE_RX), id(ALICE), 0, false));
    // the taker's receive account is frozen, so the vault leg fails after
    // the counter-asset leg already ran
    assert!(l.add_account(id(BOB_RX), id(BOB), 0, true));
    assert!(l.add_account(id(BOB_DEPOSIT), id(BOB), 80, false));
    assert_eq!(init_escrow(&mut l, &init_ctx(), 50), Ok(()));
    assert_eq!(
        exchange(&mut l, &exchange_ctx()),
        Err(EscrowError::Transfer(TransferError::AccountFrozen))
    );
    // the first leg was discarded too: no partial settlement is visible
    assert_eq!(l.balance_of(&id(BOB_DEPOSIT)), Some(80));
    assert_eq!(l.balance_of(&id(ALICE_RX)), Some(0));
    assert_eq!(l.balance_of(&id(VAULT)), Some(100));
    assert!(l.has_account(&id(VAULT)));
    assert!(matches!(l.record, RecordSlot::Present(_)));
}

#[test]
fn exchange_into_the_vault_itself_settles_nothing() {
    // the taker names the vault as its own receive account: the vault leg
    // moves nothing, the vault is then not empty, the close fails, and the
    // whole operation — the taker's payment included — is discarded
    let mut l = setup();
    assert_eq!(init_escrow(&mut l, &init_ctx(), 50), Ok(()));
    let mut c = exchange_ctx();
    c.taker_token_rx_acc = id(VAULT);
    assert_eq!(
        exchange(&mut l, &c),
        Err(EscrowError::Transfer(TransferError::NonZeroBalance))
    );
    assert_setup_balances(&l);
    assert!(l.has_account(&id(VAULT)));
    assert!(matches!(l.record, RecordSlot::Present(_)));
}

#[test]
fn cancel_returns_the_whole_deposit() {
    let mut l = setup();
    assert_eq!(init_escrow(&mut l, &init_ctx(), 50), Ok(()));
    let c = Cancel {
        initializer: id(ALICE),
        token_deposit_acc: id(ALICE_RX),
        vault_acc: id(VAULT),
        vault_pda: pda(),
    };
    assert_eq!(cancel(&mut l, &c), Ok(()));
    assert_eq!(l.balance_of(&id(ALICE_RX)), Some(100));
    assert!(!l.has_account(&id(VAULT)));
    assert!(matches!(l.record, RecordSlot::Destroyed));
}

#[test]
fn cancel_by_the_taker_is_rejected() {
    let mut l = setup();
    assert_eq!(init_escrow(&mut l, &init_ctx(), 50), Ok(()));
    let c = Cancel {
        initializer: id(BOB),
        token_deposit_acc: id(BOB_RX),
        vault_acc: id(VAULT),
        vault_pda: pda(),
    };
    assert_eq!(cancel(&mut l, &c), Err(EscrowError::InvalidAccountError));
    assert_setup_balances(&l);
    assert!(matches!(l.record, RecordSlot::Present(_)));
}

#[test]
fn cancel_rejects_a_wrong_authority_address() {
    let mut l = setup();
    assert_eq!(init_escrow(&mut l, &init_ctx(), 50), Ok(()));
    let c = Cancel {
        initializer: id(ALICE),
        token_deposit_acc: id(ALICE_RX),
        vault_acc: id(VAULT),
        vault_pda: id(BOB),
    };
    assert_eq!(cancel(&mut l, &c), Err(EscrowError::InvalidAccountError));
    assert_setup_balances(&l);
}

#[test]
fn cancel_replay_finds_no_record() {
    let mut l = setup();
    assert_eq!(init_escrow(&mut l, &init_ctx(), 50), Ok(()));
    let c = Cancel {
        initializer: id(ALICE),
        token_deposit_acc: id(ALICE_RX),
        vault_acc: id(VAULT),
        vault_pda: pda(),
    };
    assert_eq!(cancel(&mut l, &c), Ok(()));
    let c2 = Cancel {
        initializer: id(ALICE),
        token_deposit_acc: id(ALICE_RX),
        vault_acc: id(VAULT),
        vault_pda: pda(),
    };
    assert_eq!(cancel(&mut l, &c2), Err(EscrowError::RecordNotFound));
    assert_eq!(l.balance_of(&id(ALICE_RX)), Some(100));
}

#[test]
fn cancel_fails_before_initialize() {
    let mut l = setup();
    assert_eq!(cancel(&mut l, &cancel_ctx()), Err(EscrowError::RecordNotFound));
}
