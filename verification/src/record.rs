//! The escrow record: the sole persistent entity of the protocol. It is
//! created by Initialize, consulted by Exchange and Cancel, and destroyed by
//! whichever of the two executes first and successfully.

use vstd::prelude::*;

use crate::account::AccountId;

verus! {

/// The persistent state of one in-progress swap.
pub struct Escrow {
    /// Guards against re-initialization of a given record.
    pub is_initialized: bool,
    /// The identity that created the escrow; it receives the counter-asset
    /// on exchange, or the refund on cancel.
    pub initializer: AccountId,
    /// The account holding the initializer's locked deposit.
    pub vault_acc: AccountId,
    /// The account that will receive the incoming asset when the swap
    /// completes.
    pub initializer_rx_acc: AccountId,
    /// The quantity of the counter-asset the initializer demands in return.
    pub expected_amount: u64,
}

/// The mathematical value of an escrow record.
pub ghost struct EscrowV {
    pub is_initialized: bool,
    pub initializer: Seq<u8>,
    pub vault_acc: Seq<u8>,
    pub initializer_rx_acc: Seq<u8>,
    pub expected_amount: u64,
}

impl View for Escrow {
    type V = EscrowV;

    open spec fn view(&self) -> EscrowV {
        EscrowV {
            is_initialized: self.is_initialized,
            initializer: self.initializer@,
            vault_acc: self.vault_acc@,
            initializer_rx_acc: self.initializer_rx_acc@,
            expected_amount: self.expected_amount,
        }
    }
}

/// The storage slot of the escrow record at its derived location. A record
/// transitions absent → present → destroyed; a destroyed record cannot be
/// referenced again.
pub enum RecordSlot {
    /// No record has been created yet.
    Absent,
    /// The record exists and tracks one in-progress swap.
    Present(Escrow),
    /// The record was consumed by a terminal operation and its storage
    /// reclaimed.
    Destroyed,
}

/// The mathematical value of the record slot.
pub ghost enum RecordV {
    Absent,
    Present(EscrowV),
    Destroyed,
}

impl View for RecordSlot {
    type V = RecordV;

    open spec fn view(&self) -> RecordV {
        match self {
            RecordSlot::Absent => RecordV::Absent,
            RecordSlot::Present(e) => RecordV::Present(e@),
            RecordSlot::Destroyed => RecordV::Destroyed,
        }
    }
}

} // verus!
