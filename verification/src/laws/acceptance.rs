//! Laws of which calls are accepted, and why the others are refused, told from what is stored.

use vstd::prelude::*;

use crate::calls::{Call, Moment};
use crate::circuit_breaker::{
    CircuitBreakerState, CircuitBreakerTracker, HALF_OPEN_MAX_REQUESTS, RECOVERY_TIMEOUT_SECONDS,
};
use crate::config::ContractConfig;
use crate::env::Address;
use crate::storage::StorageView;
use crate::types::{NavinError, ShipmentInputView, ShipmentStatus};

verus! {

/// A contract is initialised once.
pub proof fn initialization_is_accepted_once(s: StorageView, at: Moment, admin: Address)
    ensures
        s.refusal(at, (Call::Initialize { admin })) is None <==> s.admin is None,
        s.refusal(at, (Call::Initialize { admin })) is Some ==> s.refusal(
            at,
            (Call::Initialize { admin }),
        ) == Some(NavinError::AlreadyInitialized),
{
}

/// Roles and settings are changed by the administrator, and by nobody while there is none.
pub proof fn administration_is_accepted_from_the_admin(
    s: StorageView,
    at: Moment,
    caller: Address,
    who: Address,
    config: ContractConfig,
    call: Call,
)
    requires
        call == (Call::AddCompany { caller, company: who }) || call == (Call::AddCarrier {
            caller,
            carrier: who,
        }) || call == (Call::SuspendCarrier { caller, carrier: who }) || call
            == (Call::ReactivateCarrier { caller, carrier: who }) || call == (Call::UpdateConfig {
            caller,
            config,
        }),
    ensures
        s.refusal(at, call) is None <==> s.admin == Some(caller),
        s.refusal(at, call) == Some(NavinError::NotInitialized) <==> s.admin is None,
        s.refusal(at, call) == Some(NavinError::Unauthorized) <==> s.admin is Some && s.admin
            != Some(caller),
{
}

/// The reports are for the administrator, too.
pub proof fn reports_are_for_the_admin(s: StorageView, caller: Address)
    ensures
        s.admin_refusal(caller) is None <==> s.admin == Some(caller),
        s.admin_refusal(caller) == Some(NavinError::NotInitialized) <==> s.admin is None,
        s.admin_refusal(caller) == Some(NavinError::Unauthorized) <==> s.admin is Some && s.admin
            != Some(caller),
{
}

/// The administrator upgrades to the next version.
pub proof fn upgrades_are_accepted_one_version_up(
    s: StorageView,
    at: Moment,
    caller: Address,
    wasm_hash: [u8; 32],
    target: u32,
)
    ensures
        ({
            let refusal = s.refusal(at, Call::Upgrade { caller, wasm_hash, target });
            &&& refusal is None <==> s.admin == Some(caller) && target == s.version + 1
            &&& refusal == Some(NavinError::NotInitialized) <==> s.admin is None
            &&& refusal == Some(NavinError::Unauthorized) <==> s.admin is Some && s.admin != Some(
                caller,
            )
            &&& refusal == Some(NavinError::InvalidVersion) <==> s.admin == Some(caller) && target
                != s.version + 1
        }),
{
}

/// Companies say which carriers they accept.
pub proof fn whitelisting_is_accepted_from_companies(
    s: StorageView,
    at: Moment,
    company: Address,
    carrier: Address,
    call: Call,
)
    requires
        call == (Call::AddCarrierToWhitelist { company, carrier }) || call
            == (Call::RemoveCarrierFromWhitelist { company, carrier }),
    ensures
        s.refusal(at, call) is None <==> s.companies.contains(company),
        s.refusal(at, call) is Some ==> s.refusal(at, call) == Some(NavinError::Unauthorized),
{
}

/// Companies create shipments that are due later than now, as long as there are numbers.
pub proof fn creation_is_accepted_from_companies(
    s: StorageView,
    at: Moment,
    company: Address,
    input: ShipmentInputView,
)
    ensures
        ({
            let refusal = s.refusal(at, Call::CreateShipment { company, input });
            let known = s.companies.contains(company);
            let due = input.deadline > at.now;
            &&& refusal is None <==> known && due && s.shipment_counter < u64::MAX
            &&& refusal == Some(NavinError::Unauthorized) <==> !known
            &&& refusal == Some(NavinError::InvalidTimestamp) <==> known && !due
            &&& refusal == Some(NavinError::CounterOverflow) <==> known && due
                && s.shipment_counter == u64::MAX
        }),
{
}

/// A batch is accepted where each of its entries would be, one after the other.
pub proof fn batches_are_accepted_as_a_whole(
    s: StorageView,
    at: Moment,
    company: Address,
    inputs: Seq<ShipmentInputView>,
)
    ensures
        ({
            let refusal = s.refusal(at, Call::CreateShipmentsBatch { company, inputs });
            let known = s.companies.contains(company);
            let due = forall|i: int| 0 <= i < inputs.len() ==> (#[trigger] inputs[i]).deadline
                > at.now;
            let room = s.shipment_counter + inputs.len() <= u64::MAX;
            &&& refusal is None <==> known && due && room
            &&& refusal == Some(NavinError::Unauthorized) <==> !known
            &&& refusal == Some(NavinError::InvalidTimestamp) <==> known && !due
            &&& refusal == Some(NavinError::CounterOverflow) <==> known && due && !room
        }),
{
}

/// The carrier of a shipment, unless suspended, reports the next stage of the way: that it has
/// set out, is at a checkpoint, goes on, or has arrived. Reports keep the configured distance.
pub proof fn updates_are_accepted_along_the_way(
    s: StorageView,
    at: Moment,
    caller: Address,
    id: u64,
    status: ShipmentStatus,
    data_hash: [u8; 32],
)
    ensures
        ({
            let refusal = s.refusal(at, Call::UpdateStatus { caller, id, status, data_hash });
            let shipment = s.shipments[id];
            let known = s.shipments.contains_key(id);
            let mine = known && caller == shipment.carrier;
            let active = mine && !s.suspended.contains(caller);
            let next = active && {
                ||| shipment.status == ShipmentStatus::Created && status
                    == ShipmentStatus::InTransit
                ||| shipment.status == ShipmentStatus::InTransit && status
                    == ShipmentStatus::AtCheckpoint
                ||| shipment.status == ShipmentStatus::AtCheckpoint && status
                    == ShipmentStatus::InTransit
                ||| shipment.status == ShipmentStatus::InTransit && status
                    == ShipmentStatus::Delivered
                ||| shipment.status == ShipmentStatus::AtCheckpoint && status
                    == ShipmentStatus::Delivered
            };
            let soon = s.last_status_updates.contains_key(id) && at.now
                < s.last_status_updates[id] + s.config.min_status_update_interval;
            &&& refusal is None <==> next && !soon
            &&& refusal == Some(NavinError::ShipmentNotFound) <==> !known
            &&& refusal == Some(NavinError::Unauthorized) <==> known && !mine
            &&& refusal == Some(NavinError::CarrierSuspended) <==> mine && !active
            &&& refusal == Some(NavinError::InvalidStatus) <==> active && !next
            &&& refusal == Some(NavinError::RateLimitExceeded) <==> next && soon
        }),
{
}

/// Sender, carrier and receiver can dispute a shipment that has neither come to its end nor is
/// under dispute.
pub proof fn disputes_are_accepted_from_the_parties(
    s: StorageView,
    at: Moment,
    caller: Address,
    id: u64,
    reason_hash: [u8; 32],
)
    ensures
        ({
            let refusal = s.refusal(at, Call::RaiseDispute { caller, id, reason_hash });
            let shipment = s.shipments[id];
            let known = s.shipments.contains_key(id);
            let party = known && (caller == shipment.sender || caller == shipment.carrier || caller
                == shipment.receiver);
            let open = shipment.status != ShipmentStatus::Delivered && shipment.status
                != ShipmentStatus::Cancelled && shipment.status != ShipmentStatus::Disputed;
            &&& refusal is None <==> party && open
            &&& refusal == Some(NavinError::ShipmentNotFound) <==> !known
            &&& refusal == Some(NavinError::Unauthorized) <==> known && !party
            &&& refusal == Some(NavinError::InvalidStatus) <==> party && !open
        }),
{
}

/// The sender can cancel a shipment that has neither come to its end nor is under dispute.
pub proof fn cancelling_is_accepted_from_the_sender(
    s: StorageView,
    at: Moment,
    caller: Address,
    id: u64,
    reason_hash: [u8; 32],
)
    ensures
        ({
            let refusal = s.refusal(at, Call::CancelShipment { caller, id, reason_hash });
            let shipment = s.shipments[id];
            let known = s.shipments.contains_key(id);
            let mine = known && caller == shipment.sender;
            let open = shipment.status != ShipmentStatus::Delivered && shipment.status
                != ShipmentStatus::Cancelled && shipment.status != ShipmentStatus::Disputed;
            &&& refusal is None <==> mine && open
            &&& refusal == Some(NavinError::ShipmentNotFound) <==> !known
            &&& refusal == Some(NavinError::Unauthorized) <==> known && !mine
            &&& refusal == Some(NavinError::InvalidStatus) <==> mine && !open
        }),
{
}

/// The carrier of a shipment that has not come to its end hands it to another carrier, where
/// neither of them is suspended.
pub proof fn handoffs_are_accepted_between_carriers(
    s: StorageView,
    at: Moment,
    caller: Address,
    to: Address,
    id: u64,
    data_hash: [u8; 32],
)
    ensures
        ({
            let refusal = s.refusal(at, Call::HandoffShipment { caller, to, id, data_hash });
            let shipment = s.shipments[id];
            let known = s.shipments.contains_key(id);
            let between = known && caller == shipment.carrier && s.carriers.contains(to);
            let active = between && !s.suspended.contains(caller) && !s.suspended.contains(to);
            let going = shipment.status != ShipmentStatus::Delivered && shipment.status
                != ShipmentStatus::Cancelled;
            &&& refusal is None <==> active && going
            &&& refusal == Some(NavinError::ShipmentNotFound) <==> !known
            &&& refusal == Some(NavinError::Unauthorized) <==> known && !between
            &&& refusal == Some(NavinError::CarrierSuspended) <==> between && !active
            &&& refusal == Some(NavinError::InvalidStatus) <==> active && !going
        }),
{
}

/// The administrator archives a shipment that has come to its end and for which nothing is held.
pub proof fn archiving_is_accepted_at_the_end(s: StorageView, at: Moment, caller: Address, id: u64)
    ensures
        ({
            let refusal = s.refusal(at, Call::ArchiveShipment { caller, id });
            let shipment = s.shipments[id];
            let entitled = s.admin == Some(caller);
            let known = entitled && s.shipments.contains_key(id);
            let ended = known && (shipment.status == ShipmentStatus::Delivered || shipment.status
                == ShipmentStatus::Cancelled);
            &&& refusal is None <==> ended && shipment.escrow_amount == 0
            &&& refusal == Some(NavinError::NotInitialized) <==> s.admin is None
            &&& refusal == Some(NavinError::Unauthorized) <==> s.admin is Some && !entitled
            &&& refusal == Some(NavinError::ShipmentNotFound) <==> entitled && !known
            &&& refusal == Some(NavinError::InvalidStatus) <==> known && !ended
            &&& refusal == Some(NavinError::EscrowNotEmpty) <==> ended && shipment.escrow_amount
                != 0
        }),
{
}

/// Whether a circuit breaker in this state stands in the way of a transfer at `now`: an open one
/// does until it has had time to recover, and a half-open one once it has let enough through.
pub open spec fn blocked(breaker: CircuitBreakerTracker, now: u64) -> bool {
    ||| breaker.state == CircuitBreakerState::Open && now < breaker.opened_at
        + RECOVERY_TIMEOUT_SECONDS
    ||| breaker.state == CircuitBreakerState::HalfOpen && breaker.half_open_requests
        >= HALF_OPEN_MAX_REQUESTS
}

/// The sender of a shipment that has not set out pays a positive amount that fits into escrow, when
/// no other payment is under way and the token makes the transfer.
pub proof fn deposits_are_accepted_before_the_way(
    s: StorageView,
    at: Moment,
    caller: Address,
    id: u64,
    amount: i128,
)
    ensures
        ({
            let refusal = s.refusal(at, Call::DepositEscrow { caller, id, amount });
            let shipment = s.shipments[id];
            let free = !s.reentrancy_lock;
            let known = free && s.shipments.contains_key(id);
            let mine = known && caller == shipment.sender;
            let due = mine && shipment.status == ShipmentStatus::Created;
            let positive = due && amount > 0;
            let fits = positive && shipment.escrow_amount + amount <= i128::MAX && shipment.total_escrow
                + amount <= i128::MAX;
            let room = fits && s.settlements.len() < u64::MAX;
            let clear = room && !blocked(s.circuit_breaker, at.now);
            let paid = clear && at.pays;
            &&& refusal is None <==> paid
            &&& refusal == Some(NavinError::ReentrancyDetected) <==> !free
            &&& refusal == Some(NavinError::ShipmentNotFound) <==> free && !known
            &&& refusal == Some(NavinError::Unauthorized) <==> known && !mine
            &&& refusal == Some(NavinError::InvalidStatus) <==> mine && !due
            &&& refusal == Some(NavinError::InvalidAmount) <==> due && !positive
            &&& refusal == Some(NavinError::ArithmeticError) <==> positive && !fits
            &&& refusal == Some(NavinError::CounterOverflow) <==> fits && !room
            &&& refusal == Some(NavinError::CircuitBreakerOpen) <==> room && !clear
            &&& refusal == Some(NavinError::TokenTransferFailed) <==> clear && !paid
        }),
{
}

/// The receiver of a shipment releases what is held for it once it has been delivered and not
/// before: never while it is on its way, under dispute or cancelled.
pub proof fn releases_are_accepted_after_delivery(
    s: StorageView,
    at: Moment,
    caller: Address,
    id: u64,
)
    ensures
        ({
            let refusal = s.refusal(at, Call::ReleaseEscrow { caller, id });
            let shipment = s.shipments[id];
            let free = !s.reentrancy_lock;
            let known = free && s.shipments.contains_key(id);
            let mine = known && caller == shipment.receiver;
            let due = mine && shipment.status == ShipmentStatus::Delivered;
            let funded = due && shipment.escrow_amount > 0;
            let room = funded && s.settlements.len() < u64::MAX;
            let clear = room && !blocked(s.circuit_breaker, at.now);
            let paid = clear && at.pays;
            &&& refusal is None <==> paid
            &&& refusal == Some(NavinError::ReentrancyDetected) <==> !free
            &&& refusal == Some(NavinError::ShipmentNotFound) <==> free && !known
            &&& refusal == Some(NavinError::Unauthorized) <==> known && !mine
            &&& refusal == Some(NavinError::InvalidStatus) <==> mine && !due
            &&& refusal == Some(NavinError::InsufficientFunds) <==> due && !funded
            &&& refusal == Some(NavinError::CounterOverflow) <==> funded && !room
            &&& refusal == Some(NavinError::CircuitBreakerOpen) <==> room && !clear
            &&& refusal == Some(NavinError::TokenTransferFailed) <==> clear && !paid
        }),
{
}

/// The sender of a shipment takes back what is held for it while it has not set out, or once it is
/// cancelled.
pub proof fn refunds_are_accepted_off_the_way(
    s: StorageView,
    at: Moment,
    caller: Address,
    id: u64,
)
    ensures
        ({
            let refusal = s.refusal(at, Call::RefundEscrow { caller, id });
            let shipment = s.shipments[id];
            let free = !s.reentrancy_lock;
            let known = free && s.shipments.contains_key(id);
            let mine = known && caller == shipment.sender;
            let due = mine && (shipment.status == ShipmentStatus::Created || shipment.status
                == ShipmentStatus::Cancelled);
            let funded = due && shipment.escrow_amount > 0;
            let room = funded && s.settlements.len() < u64::MAX;
            let clear = room && !blocked(s.circuit_breaker, at.now);
            let paid = clear && at.pays;
            &&& refusal is None <==> paid
            &&& refusal == Some(NavinError::ReentrancyDetected) <==> !free
            &&& refusal == Some(NavinError::ShipmentNotFound) <==> free && !known
            &&& refusal == Some(NavinError::Unauthorized) <==> known && !mine
            &&& refusal == Some(NavinError::InvalidStatus) <==> mine && !due
            &&& refusal == Some(NavinError::InsufficientFunds) <==> due && !funded
            &&& refusal == Some(NavinError::CounterOverflow) <==> funded && !room
            &&& refusal == Some(NavinError::CircuitBreakerOpen) <==> room && !clear
            &&& refusal == Some(NavinError::TokenTransferFailed) <==> clear && !paid
        }),
{
}

/// The receiver confirms the delivery of a shipment that is on its way. The token has to pay only
/// where something is held.
pub proof fn confirmations_are_accepted_on_the_way(
    s: StorageView,
    at: Moment,
    caller: Address,
    id: u64,
    confirmation_hash: [u8; 32],
)
    ensures
        ({
            let refusal = s.refusal(at, Call::ConfirmDelivery { caller, id, confirmation_hash });
            let shipment = s.shipments[id];
            let free = !s.reentrancy_lock;
            let known = free && s.shipments.contains_key(id);
            let mine = known && caller == shipment.receiver;
            let due = mine && (shipment.status == ShipmentStatus::InTransit || shipment.status
                == ShipmentStatus::AtCheckpoint);
            let held = shipment.escrow_amount > 0;
            let room = due && (!held || s.settlements.len() < u64::MAX);
            let clear = room && (!held || !blocked(s.circuit_breaker, at.now));
            let paid = clear && (!held || at.pays);
            &&& refusal is None <==> paid
            &&& refusal == Some(NavinError::ReentrancyDetected) <==> !free
            &&& refusal == Some(NavinError::ShipmentNotFound) <==> free && !known
            &&& refusal == Some(NavinError::Unauthorized) <==> known && !mine
            &&& refusal == Some(NavinError::InvalidStatus) <==> mine && !due
            &&& refusal == Some(NavinError::CounterOverflow) <==> due && !room
            &&& refusal == Some(NavinError::CircuitBreakerOpen) <==> room && !clear
            &&& refusal == Some(NavinError::TokenTransferFailed) <==> clear && !paid
        }),
{
}

/// The administrator cancels a shipment that has not come to its end, be it under dispute or not.
/// The token has to pay only where something is held.
pub proof fn forced_cancelling_is_accepted_before_the_end(
    s: StorageView,
    at: Moment,
    caller: Address,
    id: u64,
    reason_hash: [u8; 32],
)
    ensures
        ({
            let refusal = s.refusal(at, Call::ForceCancelShipment { caller, id, reason_hash });
            let shipment = s.shipments[id];
            let free = !s.reentrancy_lock;
            let ruled = free && s.admin is Some;
            let entitled = ruled && s.admin == Some(caller);
            let known = entitled && s.shipments.contains_key(id);
            let going = known && shipment.status != ShipmentStatus::Delivered && shipment.status
                != ShipmentStatus::Cancelled;
            let held = shipment.escrow_amount > 0;
            let room = going && (!held || s.settlements.len() < u64::MAX);
            let clear = room && (!held || !blocked(s.circuit_breaker, at.now));
            let paid = clear && (!held || at.pays);
            &&& refusal is None <==> paid
            &&& refusal == Some(NavinError::ReentrancyDetected) <==> !free
            &&& refusal == Some(NavinError::NotInitialized) <==> free && !ruled
            &&& refusal == Some(NavinError::Unauthorized) <==> ruled && !entitled
            &&& refusal == Some(NavinError::ShipmentNotFound) <==> entitled && !known
            &&& refusal == Some(NavinError::InvalidStatus) <==> known && !going
            &&& refusal == Some(NavinError::CounterOverflow) <==> going && !room
            &&& refusal == Some(NavinError::CircuitBreakerOpen) <==> room && !clear
            &&& refusal == Some(NavinError::TokenTransferFailed) <==> clear && !paid
        }),
{
}

} // verus!
