//! The protocol's laws, each proved once and for all over the operations'
//! mathematical transitions. Together they pin down the record's lifecycle
//! (absent → initialized → destroyed), the impossibility of replay or
//! partial settlement, and the exclusivity of the derived vault authority.
//!
//! That a failed operation changes nothing is not restated here: it is the
//! `ensures` of `init_escrow`, `exchange` and `cancel` themselves, whose
//! error case returns the ledger exactly as it was.

use vstd::prelude::*;

use crate::authority::vault_authority_of;
use crate::errors::{EscrowError, TransferError};
use crate::escrow::{
    cancel_v, exchange_v, init_escrow_v, CancelV, ExchangeV, InitializeEscrowV,
};
use crate::ledger::{transfer_v, LedgerV};
use crate::record::{EscrowV, RecordV};

verus! {

/// How far along its lifecycle a record has come: not yet initialized,
/// initialized, or destroyed.
pub open spec fn record_stage(r: RecordV) -> int {
    match r {
        RecordV::Absent => 0,
        RecordV::Present(e) => if e.is_initialized {
            1
        } else {
            0
        },
        RecordV::Destroyed => 2,
    }
}

/// The record only ever moves forward: every successful operation strictly
/// advances its lifecycle stage, so no sequence of operations can observe
/// the stages out of order — and a failed operation changes nothing at all,
/// by the operations' own `ensures`.
pub proof fn lemma_record_progression(
    l: LedgerV,
    l2: LedgerV,
    ci: InitializeEscrowV,
    amount: u64,
    ce: ExchangeV,
    cc: CancelV,
)
    ensures
        init_escrow_v(l, ci, amount) == Ok::<LedgerV, EscrowError>(l2) ==> record_stage(l.record)
            == 0 && record_stage(l2.record) == 1,
        exchange_v(l, ce) == Ok::<LedgerV, EscrowError>(l2) ==> record_stage(l.record) < 2
            && record_stage(l2.record) == 2,
        cancel_v(l, cc) == Ok::<LedgerV, EscrowError>(l2) ==> record_stage(l.record) < 2
            && record_stage(l2.record) == 2,
{
}

/// A successful Initialize starts from a record that is neither destroyed
/// nor already initialized, and leaves a record initialized with exactly
/// the caller's terms.
pub proof fn lemma_lifecycle_initialize(
    l: LedgerV,
    c: InitializeEscrowV,
    expected_amount: u64,
    l2: LedgerV,
)
    requires
        init_escrow_v(l, c, expected_amount) == Ok::<LedgerV, EscrowError>(l2),
    ensures
        !(l.record is Destroyed),
        !(l.record matches RecordV::Present(r) && r.is_initialized),
        l2.record == RecordV::Present(
            EscrowV {
                is_initialized: true,
                initializer: c.user,
                vault_acc: c.vault_acc,
                initializer_rx_acc: c.token_rx_acc,
                expected_amount: expected_amount,
            },
        ),
{
}

/// A successful Exchange starts from an initialized record and destroys it.
pub proof fn lemma_lifecycle_exchange(l: LedgerV, c: ExchangeV, l2: LedgerV)
    requires
        exchange_v(l, c) == Ok::<LedgerV, EscrowError>(l2),
    ensures
        l.record is Present,
        l2.record is Destroyed,
{
}

/// A successful Cancel starts from an initialized record and destroys it.
pub proof fn lemma_lifecycle_cancel(l: LedgerV, c: CancelV, l2: LedgerV)
    requires
        cancel_v(l, c) == Ok::<LedgerV, EscrowError>(l2),
    ensures
        l.record is Present,
        l2.record is Destroyed,
{
}

/// A destroyed record stays destroyed: every operation on it fails with
/// `RecordNotFound`, so the lifecycle absent → initialized → destroyed can
/// never run backwards or repeat.
pub proof fn lemma_destroyed_record_rejects(
    l: LedgerV,
    ci: InitializeEscrowV,
    expected_amount: u64,
    ce: ExchangeV,
    cc: CancelV,
)
    requires
        l.record is Destroyed,
    ensures
        init_escrow_v(l, ci, expected_amount) == Err::<LedgerV, EscrowError>(
            EscrowError::RecordNotFound,
        ),
        exchange_v(l, ce) == Err::<LedgerV, EscrowError>(EscrowError::RecordNotFound),
        cancel_v(l, cc) == Err::<LedgerV, EscrowError>(EscrowError::RecordNotFound),
{
}

/// Before any record exists, Exchange and Cancel find nothing to settle.
pub proof fn lemma_absent_record_rejects(l: LedgerV, ce: ExchangeV, cc: CancelV)
    requires
        l.record is Absent,
    ensures
        exchange_v(l, ce) == Err::<LedgerV, EscrowError>(EscrowError::RecordNotFound),
        cancel_v(l, cc) == Err::<LedgerV, EscrowError>(EscrowError::RecordNotFound),
{
}

/// Initialize twice always fails the second time with `AlreadyInitError`,
/// whatever references the second call supplies.
pub proof fn lemma_initialize_twice(
    l: LedgerV,
    c1: InitializeEscrowV,
    amount1: u64,
    l1: LedgerV,
    c2: InitializeEscrowV,
    amount2: u64,
)
    requires
        init_escrow_v(l, c1, amount1) == Ok::<LedgerV, EscrowError>(l1),
    ensures
        init_escrow_v(l1, c2, amount2) == Err::<LedgerV, EscrowError>(
            EscrowError::AlreadyInitError,
        ),
{
}

/// Exchange with any single account reference altered from the record's
/// stored values — or a vault-authority address other than the recomputed
/// one — fails with `InvalidAccountError` before any custody change.
pub proof fn lemma_exchange_reference_mismatch(l: LedgerV, r: EscrowV, c: ExchangeV)
    requires
        l.record == RecordV::Present(r),
        r.initializer != c.initializer || r.initializer_rx_acc != c.initializer_token_rx_acc
            || r.vault_acc != c.vault_acc || !(vault_authority_of(l.program_id) matches Some(p)
            && p.0 == c.vault_pda),
    ensures
        exchange_v(l, c) == Err::<LedgerV, EscrowError>(EscrowError::InvalidAccountError),
{
}

/// Cancel by anyone but the record's initializer — or with a
/// vault-authority address other than the recomputed one — fails with
/// `InvalidAccountError` before any custody change. In particular a taker
/// can never seize funds through Cancel.
pub proof fn lemma_cancel_reference_mismatch(l: LedgerV, r: EscrowV, c: CancelV)
    requires
        l.record == RecordV::Present(r),
        r.initializer != c.initializer || !(vault_authority_of(l.program_id) matches Some(p)
            && p.0 == c.vault_pda),
    ensures
        cancel_v(l, c) == Err::<LedgerV, EscrowError>(EscrowError::InvalidAccountError),
{
}

/// Successful Exchange settles both sides exactly: the initializer's
/// receive account gains precisely the demanded amount, the taker's receive
/// account gains the vault's entire balance, the taker's source account
/// pays precisely the demanded amount, the vault is gone, the record is
/// destroyed, and no other account changes. Stated for distinct asset
/// accounts, as on the host ledger, where each address names one account.
pub proof fn lemma_exchange_settlement(l: LedgerV, r: EscrowV, c: ExchangeV, l2: LedgerV)
    requires
        l.record == RecordV::Present(r),
        exchange_v(l, c) == Ok::<LedgerV, EscrowError>(l2),
        c.taker_token_deposit_acc != c.initializer_token_rx_acc,
        c.taker_token_deposit_acc != c.taker_token_rx_acc,
        c.taker_token_deposit_acc != c.vault_acc,
        c.initializer_token_rx_acc != c.taker_token_rx_acc,
        c.initializer_token_rx_acc != c.vault_acc,
        c.taker_token_rx_acc != c.vault_acc,
    ensures
        l.accounts.contains_key(c.taker_token_deposit_acc),
        l.accounts.contains_key(c.initializer_token_rx_acc),
        l.accounts.contains_key(c.taker_token_rx_acc),
        l.accounts.contains_key(c.vault_acc),
        l2.accounts.contains_key(c.initializer_token_rx_acc),
        l2.accounts[c.initializer_token_rx_acc].balance == l.accounts[c.initializer_token_rx_acc].balance
            + r.expected_amount,
        l2.accounts.contains_key(c.taker_token_deposit_acc),
        l2.accounts[c.taker_token_deposit_acc].balance == l.accounts[c.taker_token_deposit_acc].balance
            - r.expected_amount,
        l2.accounts.contains_key(c.taker_token_rx_acc),
        l2.accounts[c.taker_token_rx_acc].balance == l.accounts[c.taker_token_rx_acc].balance
            + l.accounts[c.vault_acc].balance,
        !l2.accounts.contains_key(c.vault_acc),
        l2.record is Destroyed,
        forall|id: Seq<u8>|
            id != c.taker_token_deposit_acc && id != c.initializer_token_rx_acc && id
                != c.taker_token_rx_acc && id != c.vault_acc ==> (l2.accounts.contains_key(id)
                <==> l.accounts.contains_key(id)) && (l2.accounts.contains_key(id)
                ==> l2.accounts[id] == l.accounts[id]),
{
}

/// Successful Cancel returns the vault's full balance to the initializer's
/// destination account, removes the vault, destroys the record, and changes
/// no other account. Stated for a destination distinct from the vault, as
/// on the host ledger.
pub proof fn lemma_cancel_settlement(l: LedgerV, r: EscrowV, c: CancelV, l2: LedgerV)
    requires
        l.record == RecordV::Present(r),
        cancel_v(l, c) == Ok::<LedgerV, EscrowError>(l2),
        c.token_deposit_acc != c.vault_acc,
    ensures
        l.accounts.contains_key(c.vault_acc),
        l.accounts.contains_key(c.token_deposit_acc),
        l2.accounts.contains_key(c.token_deposit_acc),
        l2.accounts[c.token_deposit_acc].balance == l.accounts[c.token_deposit_acc].balance
            + l.accounts[c.vault_acc].balance,
        !l2.accounts.contains_key(c.vault_acc),
        l2.record is Destroyed,
        forall|id: Seq<u8>|
            id != c.token_deposit_acc && id != c.vault_acc ==> (l2.accounts.contains_key(id)
                <==> l.accounts.contains_key(id)) && (l2.accounts.contains_key(id)
                ==> l2.accounts[id] == l.accounts[id]),
{
}

/// After a successful Exchange, replaying the identical operation — or any
/// Exchange or Cancel at all — fails with `RecordNotFound`: settlement
/// happens exactly once.
pub proof fn lemma_no_replay_after_exchange(l: LedgerV, c: ExchangeV, l2: LedgerV, cc: CancelV)
    requires
        exchange_v(l, c) == Ok::<LedgerV, EscrowError>(l2),
    ensures
        exchange_v(l2, c) == Err::<LedgerV, EscrowError>(EscrowError::RecordNotFound),
        cancel_v(l2, cc) == Err::<LedgerV, EscrowError>(EscrowError::RecordNotFound),
{
}

/// After a successful Cancel, replaying the identical operation — or any
/// Exchange or Cancel at all — fails with `RecordNotFound`.
pub proof fn lemma_no_replay_after_cancel(l: LedgerV, c: CancelV, l2: LedgerV, ce: ExchangeV)
    requires
        cancel_v(l, c) == Ok::<LedgerV, EscrowError>(l2),
    ensures
        cancel_v(l2, c) == Err::<LedgerV, EscrowError>(EscrowError::RecordNotFound),
        exchange_v(l2, ce) == Err::<LedgerV, EscrowError>(EscrowError::RecordNotFound),
{
}

/// After Initialize, the vault's custody authority is exactly the derived
/// vault authority, and any attempt to move vault funds under the original
/// depositor's own authorization is rejected by the transfer service with
/// `AuthorityMismatch` — for any destination and any amount. Stated for a
/// depositor identity other than the derived address itself: the derived
/// address is keyless, so no signing party coincides with it.
pub proof fn lemma_authority_exclusivity(
    l: LedgerV,
    c: InitializeEscrowV,
    expected_amount: u64,
    l1: LedgerV,
    p: (Seq<u8>, u8),
    to: Seq<u8>,
    amount: u64,
)
    requires
        init_escrow_v(l, c, expected_amount) == Ok::<LedgerV, EscrowError>(l1),
        vault_authority_of(l.program_id) == Some(p),
        c.user != p.0,
    ensures
        l1.accounts.contains_key(c.vault_acc),
        l1.accounts[c.vault_acc].authority == p.0,
        transfer_v(l1, c.vault_acc, to, amount, c.user) == Err::<LedgerV, TransferError>(
            TransferError::AuthorityMismatch,
        ),
{
}

} // verus!
