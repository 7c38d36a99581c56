//! Escrow payments in two steps: one that begins a payment and says which transfer the token has
//! to make, and one that completes or undoes it once the token has answered.

use vstd::prelude::*;

use crate::circuit_breaker::CircuitBreakerTracker;
use crate::env::Address;
use crate::model::{Closing, PendingView};
use crate::storage::Storage;
use crate::token::Transfer;
use crate::types::{
    Event, NavinError, SettlementOperation, SettlementRecord, SettlementState, Shipment,
    ShipmentStatus, ShipmentView,
};

verus! {

/// An escrow payment that has been begun. It is used up by completing or undoing it.
#[derive(Debug)]
pub struct PendingSettlement {
    record: SettlementRecord,
    closing: Closing,
    breaker: CircuitBreakerTracker,
}

impl View for PendingSettlement {
    type V = PendingView;

    closed spec fn view(&self) -> PendingView {
        PendingView { record: self.record, closing: self.closing, breaker: self.breaker }
    }
}

impl PendingSettlement {
    #[verifier::type_invariant]
    spec fn moves_something(self) -> bool {
        self.record.amount > 0
    }

    /// The transfer that the token has to make.
    pub fn transfer(&self) -> (t: Transfer)
        ensures
            t == self@.transfer(),
    {
        Transfer { from: self.record.from, to: self.record.to, amount: self.record.amount }
    }
}

/// Begins the payment of `amount` for a shipment, unless no payment can be begun.
pub(crate) fn begin_payment(
    storage: &mut Storage,
    now: u64,
    id: u64,
    operation: SettlementOperation,
    from: Address,
    to: Address,
    amount: i128,
    closing: Closing,
) -> (r: Result<PendingSettlement, NavinError>)
    requires
        amount > 0,
    ensures
        match old(storage)@.payment_refusal(now) {
            Some(e) => r matches Err(error) && error == e && final(storage)@ == old(storage)@,
            None => r matches Ok(pending) && pending@ == old(storage)@.pending(
                id,
                operation,
                from,
                to,
                amount,
                closing,
            ) && final(storage)@ == old(storage)@.payment_begun(),
        },
{
    let count: usize = storage.settlements().len();
    if count as u64 == u64::MAX {
        return Err(NavinError::CounterOverflow);
    }
    let breaker = storage.get_circuit_breaker();
    let mut tried = breaker;
    match tried.let_through(now) {
        Err(e) => Err(e),
        Ok(()) => {
            storage.set_reentrancy_lock(true);
            storage.set_circuit_breaker(tried);
            let record = SettlementRecord {
                id: count as u64 + 1,
                shipment_id: id,
                operation,
                state: SettlementState::Pending,
                from,
                to,
                amount,
            };
            Ok(PendingSettlement { record, closing, breaker })
        },
    }
}

/// Notes what a shipment came to its end with.
pub(crate) fn note_closing(storage: &mut Storage, id: u64, closing: Closing)
    ensures
        final(storage)@ == old(storage)@.noting(id, closing),
{
    match closing {
        Closing::Keep => {},
        Closing::Deliver { confirmation_hash } => {
            storage.set_confirmation_hash(id, confirmation_hash);
            storage.announce(
                Event::StatusUpdated {
                    shipment_id: id,
                    status: ShipmentStatus::Delivered,
                    data_hash: confirmation_hash,
                },
            );
        },
        Closing::Cancel { reason_hash } => {
            storage.announce(
                Event::StatusUpdated {
                    shipment_id: id,
                    status: ShipmentStatus::Cancelled,
                    data_hash: reason_hash,
                },
            );
        },
    }
}

/// The shipment with `amount` paid into its escrow, or paid out of it.
fn move_amount(shipment: Shipment, operation: SettlementOperation, amount: i128) -> (r: Result<
    Shipment,
    NavinError,
>)
    requires
        amount > 0,
    ensures
        match r {
            Ok(s) => if operation is Deposit {
                &&& shipment.escrow_amount + amount <= i128::MAX
                &&& shipment.total_escrow + amount <= i128::MAX
                &&& s@ == (ShipmentView {
                    escrow_amount: (shipment.escrow_amount + amount) as i128,
                    total_escrow: (shipment.total_escrow + amount) as i128,
                    ..shipment@
                })
            } else {
                &&& amount <= shipment.escrow_amount
                &&& s@ == (ShipmentView {
                    escrow_amount: (shipment.escrow_amount - amount) as i128,
                    ..shipment@
                })
            },
            Err(e) => if operation is Deposit {
                &&& shipment.escrow_amount + amount > i128::MAX || shipment.total_escrow + amount
                    > i128::MAX
                &&& e == NavinError::ArithmeticError
            } else {
                &&& shipment.escrow_amount < amount
                &&& e == NavinError::InsufficientFunds
            },
        },
{
    let mut shipment = shipment;
    match operation {
        SettlementOperation::Deposit => {
            if shipment.escrow_amount > i128::MAX - amount || shipment.total_escrow > i128::MAX
                - amount {
                return Err(NavinError::ArithmeticError);
            }
            shipment.escrow_amount = shipment.escrow_amount + amount;
            shipment.total_escrow = shipment.total_escrow + amount;
        },
        _ => {
            if shipment.escrow_amount < amount {
                return Err(NavinError::InsufficientFunds);
            }
            shipment.escrow_amount = shipment.escrow_amount - amount;
        },
    }
    Ok(shipment)
}

/// Completes a payment that the token has made, and undoes one that it has not.
pub fn settle(
    storage: &mut Storage,
    now: u64,
    pending: PendingSettlement,
    paid: bool,
) -> (r: Result<(), NavinError>)
    ensures
        match old(storage)@.settle_refusal(pending@, paid) {
            Some(e) => r == Err::<(), NavinError>(e) && final(storage)@ == old(
                storage,
            )@.payment_undone(pending@),
            None => r == Ok::<(), NavinError>(()) && final(storage)@ == old(storage)@.settled(
                now,
                pending@,
            ),
        },
{
    proof {
        use_type_invariant(&pending);
    }
    let record = pending.record;
    let id: u64 = record.shipment_id;
    let closes = match pending.closing {
        Closing::Keep => false,
        _ => true,
    };
    let moved = if !paid {
        Err(NavinError::TokenTransferFailed)
    } else {
        match storage.get_shipment(id) {
            None => Err(NavinError::ShipmentNotFound),
            Some(shipment) => if closes && shipment.status.is_terminal() {
                Err(NavinError::InvalidStatus)
            } else {
                move_amount(shipment, record.operation, record.amount)
            },
        }
    };
    match moved {
        Err(e) => {
            storage.set_reentrancy_lock(false);
            storage.set_circuit_breaker(pending.breaker);
            Err(e)
        },
        Ok(shipment) => {
            let mut shipment = shipment;
            let status = match pending.closing {
                Closing::Keep => shipment.status,
                Closing::Deliver { .. } => ShipmentStatus::Delivered,
                Closing::Cancel { .. } => ShipmentStatus::Cancelled,
            };
            shipment.set_status(now, status);
            storage.set_shipment(&shipment);
            storage.set_escrow(id, shipment.escrow_amount);
            storage.add_settlement(
                SettlementRecord { state: SettlementState::Completed, ..record },
            );
            storage.set_reentrancy_lock(false);
            storage.set_circuit_breaker(CircuitBreakerTracker::new());
            storage.announce(
                Event::SettlementCompleted { shipment_id: id, settlement_id: record.id },
            );
            note_closing(storage, id, pending.closing);
            Ok(())
        },
    }
}

} // verus!
