//! Laws of the calls that move escrow.

use vstd::prelude::*;

use crate::calls::{batches_only_add_shipments, net_settled, Call, Moment};
use crate::circuit_breaker::{CircuitBreakerTracker, RECOVERY_TIMEOUT_SECONDS};
use crate::env::Address;
use crate::model::PendingView;
use crate::storage::StorageView;
use crate::types::NavinError;

verus! {

impl Call {
    /// Whether the call asks the token for a transfer.
    pub open spec fn transfers(self, s: StorageView) -> bool {
        match self {
            Call::DepositEscrow { .. } => true,
            Call::ReleaseEscrow { .. } => true,
            Call::RefundEscrow { .. } => true,
            Call::ConfirmDelivery { id, .. } => s.holds_escrow(id),
            Call::ForceCancelShipment { id, .. } => s.holds_escrow(id),
            _ => false,
        }
    }

    /// The shipment that a call is about, where it is about a single one that exists already.
    pub open spec fn about(self) -> Option<u64> {
        match self {
            Call::UpdateStatus { id, .. } => Some(id),
            Call::RaiseDispute { id, .. } => Some(id),
            Call::CancelShipment { id, .. } => Some(id),
            Call::HandoffShipment { id, .. } => Some(id),
            Call::ArchiveShipment { id, .. } => Some(id),
            Call::DepositEscrow { id, .. } => Some(id),
            Call::ReleaseEscrow { id, .. } => Some(id),
            Call::RefundEscrow { id, .. } => Some(id),
            Call::ConfirmDelivery { id, .. } => Some(id),
            Call::ForceCancelShipment { id, .. } => Some(id),
            _ => None,
        }
    }
}

impl Moment {
    /// The same moment, with a token that pays or one that does not.
    pub open spec fn paying(self, pays: bool) -> Moment {
        Moment { pays, ..self }
    }
}

/// What is kept, but with a circuit breaker that has met with no failure.
pub open spec fn with_closed_breaker(s: StorageView) -> StorageView {
    StorageView { circuit_breaker: CircuitBreakerTracker::reset(), ..s }
}

/// While an escrow payment is under way, every other call that moves escrow is refused as
/// re-entrant and changes nothing, whoever makes it and whatever it asks for.
pub proof fn guarded_calls_wait(s: StorageView, at: Moment, call: Call)
    requires
        s.reentrancy_lock,
        call.guarded(),
    ensures
        s.refusal(at, call) == Some(NavinError::ReentrancyDetected),
        s.after(at, call) == s,
{
}

/// A call whose transfer the token does not make is refused, and nothing of it stays behind.
/// Where nothing else stands against it, the reason is the transfer.
pub proof fn failed_transfers_leave_no_trace(s: StorageView, at: Moment, call: Call)
    requires
        call.transfers(s),
        !at.pays,
    ensures
        s.after(at, call) == s,
        s.refusal(at, call) is Some,
        s.refusal(at.paying(true), call) is None ==> s.refusal(at, call) == Some(
            NavinError::TokenTransferFailed,
        ),
        s.refusal(at.paying(true), call) is Some ==> s.refusal(at, call) == s.refusal(
            at.paying(true),
            call,
        ),
{
}

/// A call that asks for no transfer, such as one that creates or cancels shipments, does the
/// same whether the token pays or not.
pub proof fn other_calls_need_no_token(s: StorageView, at: Moment, call: Call, pays: bool)
    requires
        !call.transfers(s),
    ensures
        s.refusal(at.paying(pays), call) == s.refusal(at, call),
        s.after(at.paying(pays), call) == s.after(at, call),
{
}

/// Only a call that moves escrow asks the token for anything: creating shipments, one or many,
/// and cancelling do not.
pub proof fn other_calls_ask_for_nothing(s: StorageView, at: Moment, call: Call)
    requires
        !call.guarded(),
    ensures
        s.transfer_asked(at, call) is None,
{
}

/// The token is asked exactly where the call asks for a transfer and nothing else stands against
/// it; whether it pays then decides the call.
pub proof fn the_token_is_asked_last(s: StorageView, at: Moment, call: Call)
    ensures
        s.transfer_asked(at, call) is Some <==> call.transfers(s) && s.refusal(
            at.paying(true),
            call,
        ) is None,
        s.transfer_asked(at, call) is Some ==> s.refusal(at, call) == if at.pays {
            None
        } else {
            Some(NavinError::TokenTransferFailed)
        },
{
}

/// What the token was asked for and paid is what the next settlement says; where it was asked
/// for nothing, or did not pay, no settlement is made.
pub proof fn settlements_record_what_was_asked(s: StorageView, at: Moment, call: Call)
    ensures
        match s.transfer_asked(at, call) {
            Some(transfer) if at.pays => {
                let t = s.after(at, call);
                &&& t.settlements.len() == s.settlements.len() + 1
                &&& t.settlements.drop_last() == s.settlements
                &&& t.settlements.last().from == transfer.from
                &&& t.settlements.last().to == transfer.to
                &&& t.settlements.last().amount == transfer.amount
            },
            _ => s.after(at, call).settlements == s.settlements,
        },
{
    if let Call::CreateShipmentsBatch { company, inputs } = call {
        batches_only_add_shipments(s, at.now, company, inputs);
    }
}

/// While the circuit breaker is open, a call that asks for a transfer is refused and changes
/// nothing. Where nothing else stands against it, the reason is the circuit breaker.
pub proof fn open_breaker_stops_transfers(s: StorageView, at: Moment, call: Call)
    requires
        call.transfers(s),
        s.circuit_breaker.state is Open,
        at.now < s.circuit_breaker.opened_at + RECOVERY_TIMEOUT_SECONDS,
    ensures
        s.after(at, call) == s,
        s.refusal(at, call) is Some,
        with_closed_breaker(s).refusal(at.paying(true), call) is None ==> s.refusal(at, call)
            == Some(NavinError::CircuitBreakerOpen),
{
}

/// A payment that was begun and could not be made leaves what there was before it was begun.
pub proof fn undone_payments_leave_no_trace(s: StorageView, pending: PendingView)
    requires
        !s.reentrancy_lock,
        pending.breaker == s.circuit_breaker,
    ensures
        s.payment_begun().payment_undone(pending) == s,
{
}

/// A payment in two steps comes to the same as the payment in one.
pub proof fn two_steps_make_one_payment(s: StorageView, now: u64, pending: PendingView)
    ensures
        s.payment_begun().settled(now, pending) == s.settled(now, pending),
        s.payment_begun().settle_refusal(pending, true) == s.settle_refusal(pending, true),
{
}

/// Between the two steps of a payment, every call that moves escrow is refused as re-entrant.
pub proof fn payments_under_way_are_not_entered(s: StorageView, at: Moment, call: Call)
    requires
        call.guarded(),
    ensures
        s.payment_begun().refusal(at, call) == Some(NavinError::ReentrancyDetected),
        s.payment_begun().after(at, call) == s.payment_begun(),
{
    guarded_calls_wait(s.payment_begun(), at, call);
}

/// A deposit that is accepted raises the escrow by what was paid in.
pub proof fn deposits_fill_the_escrow(
    s: StorageView,
    at: Moment,
    caller: Address,
    id: u64,
    amount: i128,
)
    requires
        s.healthy(at.now),
        s.refusal(at, Call::DepositEscrow { caller, id, amount }) is None,
    ensures
        ({
            let t = s.after(at, Call::DepositEscrow { caller, id, amount });
            &&& t.escrow(id) == s.escrow(id) + amount
            &&& t.record(id) == Some(t.shipments[id])
            &&& t.shipments[id].escrow_amount == s.shipments[id].escrow_amount + amount
            &&& t.shipments[id].total_escrow == s.shipments[id].total_escrow + amount
        }),
{
    assert(s.sound_at(at.now, id));
}

/// Every call that pays out empties the escrow: all of it is paid, at once.
pub proof fn payouts_empty_the_escrow(s: StorageView, at: Moment, call: Call, id: u64)
    requires
        s.healthy(at.now),
        call.guarded(),
        !(call is DepositEscrow),
        call.about() == Some(id),
        s.refusal(at, call) is None,
    ensures
        s.after(at, call).escrow(id) == 0,
        s.after(at, call).shipments[id].escrow_amount == 0,
        s.escrow(id) > 0 ==> {
            &&& s.after(at, call).settlements.len() == s.settlements.len() + 1
            &&& s.after(at, call).settlements.last().amount == s.escrow(id)
            &&& s.after(at, call).settlements.last().from == at.contract
        },
        s.escrow(id) == 0 ==> s.after(at, call).settlements == s.settlements,
{
    assert(s.sound_at(at.now, id));
}

/// What a sender has paid in and asks back is paid back to them, in full.
pub proof fn refunds_undo_deposits(
    s: StorageView,
    at: Moment,
    later: Moment,
    caller: Address,
    id: u64,
    amount: i128,
)
    requires
        s.healthy(at.now),
        s.escrow(id) == 0,
        s.refusal(at, Call::DepositEscrow { caller, id, amount }) is None,
        later.pays,
        s.settlements.len() + 1 < u64::MAX,
    ensures
        ({
            let paid = s.after(at, Call::DepositEscrow { caller, id, amount });
            let back = paid.after(later, Call::RefundEscrow { caller, id });
            &&& paid.refusal(later, Call::RefundEscrow { caller, id }) is None
            &&& back.escrow(id) == 0
            &&& back.settlements.len() == s.settlements.len() + 2
            &&& back.settlements.last().amount == amount
            &&& back.settlements.last().to == caller
            &&& net_settled(back.settlements, id) == net_settled(s.settlements, id)
        }),
{
    assert(s.sound_at(at.now, id));
    let paid = s.after(at, Call::DepositEscrow { caller, id, amount });
    let back = paid.after(later, Call::RefundEscrow { caller, id });
    assert(paid.refusal(later, Call::RefundEscrow { caller, id }) is None);
    assert(paid.settlements.drop_last() =~= s.settlements);
    assert(net_settled(paid.settlements, id) == net_settled(s.settlements, id) + amount);
    assert(back.settlements.drop_last() =~= paid.settlements);
    assert(net_settled(back.settlements, id) == net_settled(paid.settlements, id) - amount);
}

/// Nothing that is done to one shipment touches another, its escrow or where it is stored.
pub proof fn calls_touch_one_shipment(s: StorageView, at: Moment, call: Call, other: u64)
    requires
        s.healthy(at.now),
        call.about() is Some,
        call.about() != Some(other),
    ensures
        s.after(at, call).record(other) == s.record(other),
        s.after(at, call).escrow(other) == s.escrow(other),
        s.after(at, call).diagnosis(other) == s.diagnosis(other),
        s.after(at, call).shipment_counter == s.shipment_counter,
{
    let id = call.about().unwrap();
    assert(s.sound_at(at.now, id));
}

} // verus!
