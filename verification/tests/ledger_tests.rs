//! The asset transfer service's primitives on the ledger model: each moves
//! exactly what it promises or reports an error and changes nothing, and
//! the locked vault obeys no authority but the derived one.

use escrow::account::{account_id_eq, AccountId};
use escrow::authority::vault_authority;
use escrow::errors::{EscrowError, TransferError};
use escrow::escrow::{init_escrow, InitializeEscrow};
use escrow::ledger::{close_account, reassign_authority, transfer, Ledger};

fn id(tag: u8) -> AccountId {
    AccountId::new(vec![tag; 32])
}

fn program_id() -> AccountId {
    AccountId::new(vec![9u8; 32])
}

#[test]
fn account_id_eq_compares_bytes() {
    assert!(account_id_eq(&id(1), &id(1)));
    assert!(!account_id_eq(&id(1), &id(2)));
    assert!(!account_id_eq(
        &AccountId::new(vec![1; 31]),
        &AccountId::new(vec![1; 32])
    ));
    assert!(account_id_eq(
        &AccountId::new(Vec::new()),
        &AccountId::new(Vec::new())
    ));
}

#[test]
fn add_account_refuses_a_taken_address() {
    let mut l = Ledger::new(program_id());
    assert!(l.add_account(id(1), id(2), 10, false));
    assert!(!l.add_account(id(1), id(3), 99, false));
    assert_eq!(l.balance_of(&id(1)), Some(10));
    assert!(account_id_eq(&l.authority_of(&id(1)).unwrap(), &id(2)));
}

#[test]
fn transfer_moves_the_amount() {
    let mut l = Ledger::new(program_id());
    assert!(l.add_account(id(1), id(10), 70, false));
    assert!(l.add_account(id(2), id(20), 5, false));
    assert_eq!(transfer(&mut l, &id(1), &id(2), 30, &id(10)), Ok(()));
    assert_eq!(l.balance_of(&id(1)), Some(40));
    assert_eq!(l.balance_of(&id(2)), Some(35));
}

#[test]
fn transfer_onto_itself_changes_nothing() {
    let mut l = Ledger::new(program_id());
    assert!(l.add_account(id(1), id(10), 70, false));
    assert_eq!(transfer(&mut l, &id(1), &id(1), 30, &id(10)), Ok(()));
    assert_eq!(l.balance_of(&id(1)), Some(70));
}

#[test]
fn transfer_reports_each_failure() {
    let mut l = Ledger::new(program_id());
    assert!(l.add_account(id(1), id(10), 70, false));
    assert!(l.add_account(id(2), id(20), u64::MAX, false));
    assert!(l.add_account(id(3), id(30), 1, true));
    assert_eq!(
        transfer(&mut l, &id(4), &id(1), 1, &id(10)),
        Err(TransferError::AccountNotFound)
    );
    assert_eq!(
        transfer(&mut l, &id(1), &id(4), 1, &id(10)),
        Err(TransferError::AccountNotFound)
    );
    assert_eq!(
        transfer(&mut l, &id(1), &id(2), 1, &id(20)),
        Err(TransferError::AuthorityMismatch)
    );
    assert_eq!(
        transfer(&mut l, &id(1), &id(3), 1, &id(10)),
        Err(TransferError::AccountFrozen)
    );
    assert_eq!(
        transfer(&mut l, &id(1), &id(2), 71, &id(10)),
        Err(TransferError::InsufficientBalance)
    );
    assert_eq!(
        transfer(&mut l, &id(1), &id(2), 1, &id(10)),
        Err(TransferError::BalanceOverflow)
    );
    // none of the failures moved anything
    assert_eq!(l.balance_of(&id(1)), Some(70));
    assert_eq!(l.balance_of(&id(2)), Some(u64::MAX));
    assert_eq!(l.balance_of(&id(3)), Some(1));
}

#[test]
fn reassign_hands_custody_over() {
    let mut l = Ledger::new(program_id());
    assert!(l.add_account(id(1), id(10), 70, false));
    assert_eq!(reassign_authority(&mut l, &id(1), &id(10), id(20)), Ok(()));
    assert!(account_id_eq(&l.authority_of(&id(1)).unwrap(), &id(20)));
    // the old authority no longer works
    assert_eq!(
        reassign_authority(&mut l, &id(1), &id(10), id(30)),
        Err(TransferError::AuthorityMismatch)
    );
}

#[test]
fn close_requires_an_empty_account() {
    let mut l = Ledger::new(program_id());
    assert!(l.add_account(id(1), id(10), 70, false));
    assert!(l.add_account(id(2), id(10), 0, false));
    assert_eq!(
        close_account(&mut l, &id(1), &id(9), &id(10)),
        Err(TransferError::NonZeroBalance)
    );
    assert!(l.has_account(&id(1)));
    assert_eq!(close_account(&mut l, &id(2), &id(9), &id(10)), Ok(()));
    assert!(!l.has_account(&id(2)));
}

#[test]
fn locked_vault_obeys_only_the_derived_authority() {
    let mut l = Ledger::new(program_id());
    assert!(l.add_account(id(1), id(10), 100, false));
    assert!(l.add_account(id(2), id(10), 0, false));
    let c = InitializeEscrow { user: id(10), token_rx_acc: id(2), vault_acc: id(1) };
    assert_eq!(init_escrow(&mut l, &c, 50), Ok(()));
    // the original depositor's signature no longer moves the vault's funds
    assert_eq!(
        transfer(&mut l, &id(1), &id(2), 10, &id(10)),
        Err(TransferError::AuthorityMismatch)
    );
    assert_eq!(l.balance_of(&id(1)), Some(100));
    // the recomputed vault authority does
    let pda = vault_authority(&program_id()).unwrap();
    assert_eq!(transfer(&mut l, &id(1), &id(2), 10, &pda), Ok(()));
    assert_eq!(l.balance_of(&id(1)), Some(90));
    assert_eq!(l.balance_of(&id(2)), Some(10));
}

#[test]
fn escrow_error_keeps_the_custody_cause() {
    let mut l = Ledger::new(program_id());
    let c = InitializeEscrow { user: id(10), token_rx_acc: id(2), vault_acc: id(1) };
    match init_escrow(&mut l, &c, 50) {
        Err(EscrowError::Transfer(TransferError::AccountNotFound)) => {}
        other => panic!("unexpected result: {:?}", other),
    }
}
