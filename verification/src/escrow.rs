//! The escrow state machine: Initialize, Exchange and Cancel. Each
//! operation validates every precondition against the escrow record and the
//! recomputed vault authority before any custody change, stages its custody
//! changes, and commits them only if every one succeeds — a failed operation
//! leaves the ledger exactly as it was.

use vstd::prelude::*;

use crate::account::{account_id_eq, clone_id, AccountId};
use crate::authority::{vault_authority, vault_authority_of};
use crate::errors::EscrowError;
use crate::ledger::{
    balance_or_zero, clone_accounts, close_account, close_v, reassign_authority, reassign_v,
    transfer, transfer_v, Ledger, LedgerV,
};
use crate::record::{Escrow, EscrowV, RecordSlot, RecordV};

verus! {

/// The account references of an Initialize call: the caller's identity (the
/// host has verified its signature), the account that will later collect
/// the counter-asset, and the vault account holding the asset to be locked.
pub struct InitializeEscrow {
    pub user: AccountId,
    pub token_rx_acc: AccountId,
    pub vault_acc: AccountId,
}

/// The mathematical value of an Initialize call's references.
pub ghost struct InitializeEscrowV {
    pub user: Seq<u8>,
    pub token_rx_acc: Seq<u8>,
    pub vault_acc: Seq<u8>,
}

impl View for InitializeEscrow {
    type V = InitializeEscrowV;

    open spec fn view(&self) -> InitializeEscrowV {
        InitializeEscrowV {
            user: self.user@,
            token_rx_acc: self.token_rx_acc@,
            vault_acc: self.vault_acc@,
        }
    }
}

/// The account references of an Exchange call: the taker's identity (the
/// host has verified its signature), the initializer's identity and receive
/// account, the taker's source and receive accounts, the vault, and the
/// vault-authority address the caller believes in.
pub struct Exchange {
    pub taker: AccountId,
    pub initializer: AccountId,
    pub initializer_token_rx_acc: AccountId,
    pub taker_token_rx_acc: AccountId,
    pub taker_token_deposit_acc: AccountId,
    pub vault_acc: AccountId,
    pub vault_pda: AccountId,
}

/// The mathematical value of an Exchange call's references.
pub ghost struct ExchangeV {
    pub taker: Seq<u8>,
    pub initializer: Seq<u8>,
    pub initializer_token_rx_acc: Seq<u8>,
    pub taker_token_rx_acc: Seq<u8>,
    pub taker_token_deposit_acc: Seq<u8>,
    pub vault_acc: Seq<u8>,
    pub vault_pda: Seq<u8>,
}

impl View for Exchange {
    type V = ExchangeV;

    open spec fn view(&self) -> ExchangeV {
        ExchangeV {
            taker: self.taker@,
            initializer: self.initializer@,
            initializer_token_rx_acc: self.initializer_token_rx_acc@,
            taker_token_rx_acc: self.taker_token_rx_acc@,
            taker_token_deposit_acc: self.taker_token_deposit_acc@,
            vault_acc: self.vault_acc@,
            vault_pda: self.vault_pda@,
        }
    }
}

/// The account references of a Cancel call: the initializer's identity (the
/// host has verified its signature), the account to receive the refund, the
/// vault, and the vault-authority address the caller believes in.
pub struct Cancel {
    pub initializer: AccountId,
    pub token_deposit_acc: AccountId,
    pub vault_acc: AccountId,
    pub vault_pda: AccountId,
}

/// The mathematical value of a Cancel call's references.
pub ghost struct CancelV {
    pub initializer: Seq<u8>,
    pub token_deposit_acc: Seq<u8>,
    pub vault_acc: Seq<u8>,
    pub vault_pda: Seq<u8>,
}

impl View for Cancel {
    type V = CancelV;

    open spec fn view(&self) -> CancelV {
        CancelV {
            initializer: self.initializer@,
            token_deposit_acc: self.token_deposit_acc@,
            vault_acc: self.vault_acc@,
            vault_pda: self.vault_pda@,
        }
    }
}

/// What Initialize does to the ledger. On success the record holds the
/// caller's terms and the vault's custody authority has passed from the
/// caller to the derived vault authority; on any failure nothing changes.
/// A record that was already destroyed stays unusable: every operation on
/// it fails with `RecordNotFound`.
pub open spec fn init_escrow_v(
    l: LedgerV,
    c: InitializeEscrowV,
    expected_amount: u64,
) -> Result<LedgerV, EscrowError> {
    if l.record is Destroyed {
        Err(EscrowError::RecordNotFound)
    } else if l.record matches RecordV::Present(r) && r.is_initialized {
        Err(EscrowError::AlreadyInitError)
    } else {
        match vault_authority_of(l.program_id) {
            Option::None => Err(EscrowError::InvalidAccountError),
            Option::Some(p) => match reassign_v(l, c.vault_acc, c.user, p.0) {
                Result::Err(e) => Err(EscrowError::Transfer(e)),
                Result::Ok(l1) => Ok(
                    LedgerV {
                        record: RecordV::Present(
                            EscrowV {
                                is_initialized: true,
                                initializer: c.user,
                                vault_acc: c.vault_acc,
                                initializer_rx_acc: c.token_rx_acc,
                                expected_amount: expected_amount,
                            },
                        ),
                        ..l1
                    },
                ),
            },
        }
    }
}

/// What Exchange does to the ledger. After the four reference checks, the
/// ordered custody sequence runs: the demanded counter-asset moves from the
/// taker's source to the initializer's receive account under the taker's
/// authority; the vault's entire current balance moves to the taker's
/// receive account under the derived vault authority; the empty vault is
/// closed; the record is destroyed. Any failure discards the whole
/// sequence.
pub open spec fn exchange_v(l: LedgerV, c: ExchangeV) -> Result<LedgerV, EscrowError> {
    match l.record {
        RecordV::Absent => Err(EscrowError::RecordNotFound),
        RecordV::Destroyed => Err(EscrowError::RecordNotFound),
        RecordV::Present(r) => {
            if r.initializer != c.initializer || r.initializer_rx_acc
                != c.initializer_token_rx_acc || r.vault_acc != c.vault_acc {
                Err(EscrowError::InvalidAccountError)
            } else {
                match vault_authority_of(l.program_id) {
                    Option::None => Err(EscrowError::InvalidAccountError),
                    Option::Some(p) => {
                        if p.0 != c.vault_pda {
                            Err(EscrowError::InvalidAccountError)
                        } else {
                            match transfer_v(
                                l,
                                c.taker_token_deposit_acc,
                                c.initializer_token_rx_acc,
                                r.expected_amount,
                                c.taker,
                            ) {
                                Result::Err(e) => Err(EscrowError::Transfer(e)),
                                Result::Ok(l1) => {
                                    let vault_balance = if l1.accounts.contains_key(c.vault_acc) {
                                        l1.accounts[c.vault_acc].balance
                                    } else {
                                        0u64
                                    };
                                    match transfer_v(
                                        l1,
                                        c.vault_acc,
                                        c.taker_token_rx_acc,
                                        vault_balance,
                                        c.vault_pda,
                                    ) {
                                        Result::Err(e) => Err(EscrowError::Transfer(e)),
                                        Result::Ok(l2) => match close_v(
                                            l2,
                                            c.vault_acc,
                                            c.initializer,
                                            c.vault_pda,
                                        ) {
                                            Result::Err(e) => Err(EscrowError::Transfer(e)),
                                            Result::Ok(l3) => Ok(
                                                LedgerV { record: RecordV::Destroyed, ..l3 },
                                            ),
                                        },
                                    }
                                },
                            }
                        }
                    },
                }
            }
        },
    }
}

/// What Cancel does to the ledger. After the initializer and
/// vault-authority checks, the vault's entire current balance returns to
/// the initializer's destination account under the derived vault authority,
/// the empty vault is closed, and the record is destroyed. Any failure
/// discards the whole sequence.
pub open spec fn cancel_v(l: LedgerV, c: CancelV) -> Result<LedgerV, EscrowError> {
    match l.record {
        RecordV::Absent => Err(EscrowError::RecordNotFound),
        RecordV::Destroyed => Err(EscrowError::RecordNotFound),
        RecordV::Present(r) => {
            if r.initializer != c.initializer {
                Err(EscrowError::InvalidAccountError)
            } else {
                match vault_authority_of(l.program_id) {
                    Option::None => Err(EscrowError::InvalidAccountError),
                    Option::Some(p) => {
                        if p.0 != c.vault_pda {
                            Err(EscrowError::InvalidAccountError)
                        } else {
                            let vault_balance = if l.accounts.contains_key(c.vault_acc) {
                                l.accounts[c.vault_acc].balance
                            } else {
                                0u64
                            };
                            match transfer_v(
                                l,
                                c.vault_acc,
                                c.token_deposit_acc,
                                vault_balance,
                                c.vault_pda,
                            ) {
                                Result::Err(e) => Err(EscrowError::Transfer(e)),
                                Result::Ok(l1) => match close_v(
                                    l1,
                                    c.vault_acc,
                                    c.initializer,
                                    c.vault_pda,
                                ) {
                                    Result::Err(e) => Err(EscrowError::Transfer(e)),
                                    Result::Ok(l2) => Ok(
                                        LedgerV { record: RecordV::Destroyed, ..l2 },
                                    ),
                                },
                            }
                        }
                    },
                }
            }
        },
    }
}

/// Initialize: create the escrow record with the caller's terms and hand
/// the vault's custody authority to the derived vault authority. After a
/// successful return the caller can no longer move the locked funds; only
/// Exchange or Cancel, through this same protocol, can release them.
pub fn init_escrow(l: &mut Ledger, c: &InitializeEscrow, expected_amount: u64) -> (r: Result<
    (),
    EscrowError,
>)
    requires
        old(l).wf(),
    ensures
        final(l).wf(),
        match r {
            Ok(()) => init_escrow_v(old(l)@, c@, expected_amount) == Ok::<
                LedgerV,
                EscrowError,
            >(final(l)@),
            Err(e) => init_escrow_v(old(l)@, c@, expected_amount) == Err::<
                LedgerV,
                EscrowError,
            >(e) && final(l)@ == old(l)@,
        },
{
    match &l.record {
        RecordSlot::Destroyed => {
            return Err(EscrowError::RecordNotFound);
        },
        RecordSlot::Present(rec) => {
            if rec.is_initialized {
                return Err(EscrowError::AlreadyInitError);
            }
        },
        RecordSlot::Absent => {},
    }
    let pda = match vault_authority(&l.program_id) {
        Option::Some(a) => a,
        Option::None => {
            return Err(EscrowError::InvalidAccountError);
        },
    };
    match reassign_authority(l, &c.vault_acc, &c.user, pda) {
        Result::Err(e) => {
            return Err(EscrowError::Transfer(e));
        },
        Result::Ok(()) => {},
    }
    l.record = RecordSlot::Present(
        Escrow {
            is_initialized: true,
            initializer: clone_id(&c.user),
            vault_acc: clone_id(&c.vault_acc),
            initializer_rx_acc: clone_id(&c.token_rx_acc),
            expected_amount,
        },
    );
    proof {
        assert(init_escrow_v(old(l)@, c@, expected_amount) matches Ok(lv) && lv =~= l@);
    }
    Ok(())
}

/// Exchange: complete the swap. The taker supplies the demanded
/// counter-asset and receives the vault's entire deposit; vault and record
/// are gone afterwards. Every reference is checked against the record and
/// the recomputed vault authority first, and a failed custody step discards
/// all staged changes.
pub fn exchange(l: &mut Ledger, c: &Exchange) -> (r: Result<(), EscrowError>)
    requires
        old(l).wf(),
    ensures
        final(l).wf(),
        match r {
            Ok(()) => exchange_v(old(l)@, c@) == Ok::<LedgerV, EscrowError>(final(l)@),
            Err(e) => exchange_v(old(l)@, c@) == Err::<LedgerV, EscrowError>(e) && final(l)@
                == old(l)@,
        },
{
    let (initializer_ok, rx_ok, vault_ok, expected_amount) = match &l.record {
        RecordSlot::Absent => {
            return Err(EscrowError::RecordNotFound);
        },
        RecordSlot::Destroyed => {
            return Err(EscrowError::RecordNotFound);
        },
        RecordSlot::Present(rec) => (
            account_id_eq(&rec.initializer, &c.initializer),
            account_id_eq(&rec.initializer_rx_acc, &c.initializer_token_rx_acc),
            account_id_eq(&rec.vault_acc, &c.vault_acc),
            rec.expected_amount,
        ),
    };
    if !initializer_ok || !rx_ok || !vault_ok {
        return Err(EscrowError::InvalidAccountError);
    }
    let pda = match vault_authority(&l.program_id) {
        Option::Some(a) => a,
        Option::None => {
            return Err(EscrowError::InvalidAccountError);
        },
    };
    if !account_id_eq(&pda, &c.vault_pda) {
        return Err(EscrowError::InvalidAccountError);
    }
    let saved = clone_accounts(&l.accounts);
    match transfer(
        l,
        &c.taker_token_deposit_acc,
        &c.initializer_token_rx_acc,
        expected_amount,
        &c.taker,
    ) {
        Result::Err(e) => {
            return Err(EscrowError::Transfer(e));
        },
        Result::Ok(()) => {},
    }
    let vault_balance = balance_or_zero(l, &c.vault_acc);
    match transfer(l, &c.vault_acc, &c.taker_token_rx_acc, vault_balance, &c.vault_pda) {
        Result::Err(e) => {
            l.accounts = saved;
            proof {
                assert(l@ =~= old(l)@);
            }
            return Err(EscrowError::Transfer(e));
        },
        Result::Ok(()) => {},
    }
    match close_account(l, &c.vault_acc, &c.initializer, &c.vault_pda) {
        Result::Err(e) => {
            l.accounts = saved;
            proof {
                assert(l@ =~= old(l)@);
            }
            return Err(EscrowError::Transfer(e));
        },
        Result::Ok(()) => {},
    }
    l.record = RecordSlot::Destroyed;
    proof {
        assert(exchange_v(old(l)@, c@) matches Ok(lv) && lv =~= l@);
    }
    Ok(())
}

/// Cancel: the initializer recovers the locked deposit. The vault's entire
/// current balance returns to the supplied destination account, the vault
/// is closed and the record destroyed. Only the original initializer
/// passes the reference checks, and a failed custody step discards all
/// staged changes.
pub fn cancel(l: &mut Ledger, c: &Cancel) -> (r: Result<(), EscrowError>)
    requires
        old(l).wf(),
    ensures
        final(l).wf(),
        match r {
            Ok(()) => cancel_v(old(l)@, c@) == Ok::<LedgerV, EscrowError>(final(l)@),
            Err(e) => cancel_v(old(l)@, c@) == Err::<LedgerV, EscrowError>(e) && final(l)@
                == old(l)@,
        },
{
    let initializer_ok = match &l.record {
        RecordSlot::Absent => {
            return Err(EscrowError::RecordNotFound);
        },
        RecordSlot::Destroyed => {
            return Err(EscrowError::RecordNotFound);
        },
        RecordSlot::Present(rec) => account_id_eq(&rec.initializer, &c.initializer),
    };
    if !initializer_ok {
        return Err(EscrowError::InvalidAccountError);
    }
    let pda = match vault_authority(&l.program_id) {
        Option::Some(a) => a,
        Option::None => {
            return Err(EscrowError::InvalidAccountError);
        },
    };
    if !account_id_eq(&pda, &c.vault_pda) {
        return Err(EscrowError::InvalidAccountError);
    }
    let saved = clone_accounts(&l.accounts);
    let vault_balance = balance_or_zero(l, &c.vault_acc);
    match transfer(l, &c.vault_acc, &c.token_deposit_acc, vault_balance, &c.vault_pda) {
        Result::Err(e) => {
            return Err(EscrowError::Transfer(e));
        },
        Result::Ok(()) => {},
    }
    match close_account(l, &c.vault_acc, &c.initializer, &c.vault_pda) {
        Result::Err(e) => {
            l.accounts = saved;
            proof {
                assert(l@ =~= old(l)@);
            }
            return Err(EscrowError::Transfer(e));
        },
        Result::Ok(()) => {},
    }
    l.record = RecordSlot::Destroyed;
    proof {
        assert(cancel_v(old(l)@, c@) matches Ok(lv) && lv =~= l@);
    }
    Ok(())
}

} // verus!
