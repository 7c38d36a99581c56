//! Laws of the words that the contracts are written in: what an answer, a step, a view, a request
//! to the token, an address or a state of the circuit breaker says of the values themselves.

use vstd::bytes::{
    lemma_auto_spec_u32_to_from_le_bytes, lemma_auto_spec_u64_to_from_le_bytes,
    spec_u32_to_le_bytes, spec_u64_to_le_bytes,
};
use vstd::prelude::*;

use crate::calls::{Call, Moment};
use crate::circuit_breaker::{
    CircuitBreakerState, CircuitBreakerTracker, FAILURE_THRESHOLD, HALF_OPEN_MAX_REQUESTS,
    RECOVERY_TIMEOUT_SECONDS,
};
use crate::config::{sha256_digest, ContractConfig};
use crate::contract::NavinShipment;
use crate::env::{Address, Env};
use crate::fixtures::{hash_of, plain_input, Ctx};
use crate::model::{answered, shown, PendingView};
use crate::storage::StorageView;
use crate::token::{MockTokenError, Token, TokenContract, Transfer};
use crate::types::{
    entries, schedule, spelled, Milestone, NavinError, Shipment, ShipmentInput, ShipmentStatus,
};

verus! {

// Answers and steps.

/// A call is answered with exactly the reason for which it is refused, and leaves everything as it
/// was; or with exactly the value it owes, and leaves exactly what it is to leave.
pub proof fn answers_are_exact<T>(
    r: Result<T, NavinError>,
    refusal: Option<NavinError>,
    before: StorageView,
    after: StorageView,
    value: T,
    applied: StorageView,
)
    requires
        answered(r, refusal, before, after, value, applied),
    ensures
        r is Ok <==> refusal is None,
        r is Ok ==> r == Ok::<T, NavinError>(value) && after == applied,
        r is Err ==> refusal == Some(r->Err_0) && after == before,
{
}

/// A step leaves what the call leaves at that time, of this contract, with this token; and a token
/// pays unless there is none or it is one that fails.
pub proof fn steps_are_exact(c: NavinShipment, d: NavinShipment, now: u64, call: Call)
    ensures
        c.steps_to(d, now, call) <==> d.storage@ == c.storage@.after(c.moment(now), call),
        c.moment(now).now == now,
        c.moment(now).contract == c.address,
        c.moment(now).pays <==> c.token is Some && !(c.token.unwrap().contract is Failing),
{
}

/// A call that pays nothing leaves address, token and requests as they are; one that pays adds the
/// one request that it makes, if there is a token to make it of.
pub proof fn requests_are_exact(c: NavinShipment, d: NavinShipment, transfer: Transfer)
    ensures
        d.same_contract(c) <==> d.address == c.address && d.token == c.token && d.asked@
            == c.asked@,
        d.has_asked(c, None) <==> d.same_contract(c),
        c.token is None ==> (d.has_asked(c, Some(transfer)) <==> d.same_contract(c)),
        c.token is Some ==> (d.has_asked(c, Some(transfer)) <==> d.address == c.address && d.token
            == c.token && d.asked@ == c.asked@.push(transfer)),
{
}

/// What the token is asked for: a deposit from the sender to the contract, a release of all that
/// is held to the carrier, or a refund of all that is held to the sender. Nothing else asks it for
/// anything.
pub proof fn requests_name_the_parties(s: StorageView, at: Moment, call: Call, transfer: Transfer)
    requires
        s.transfer_asked(at, call) == Some(transfer),
    ensures
        match call {
            Call::DepositEscrow { id, amount, .. } => {
                &&& transfer.from == s.shipments[id].sender
                &&& transfer.to == at.contract
                &&& transfer.amount == amount
            },
            Call::ReleaseEscrow { id, .. } | Call::ConfirmDelivery { id, .. } => {
                &&& transfer.from == at.contract
                &&& transfer.to == s.shipments[id].carrier
                &&& transfer.amount == s.shipments[id].escrow_amount
            },
            Call::RefundEscrow { id, .. } | Call::ForceCancelShipment { id, .. } => {
                &&& transfer.from == at.contract
                &&& transfer.to == s.shipments[id].sender
                &&& transfer.amount == s.shipments[id].escrow_amount
            },
            _ => false,
        },
{
}

/// The transfer of a payment has the payment's parties and amount.
pub proof fn transfers_are_those_of_their_payments(pending: PendingView)
    ensures
        pending.transfer().from == pending.record.from,
        pending.transfer().to == pending.record.to,
        pending.transfer().amount == pending.record.amount,
{
}

/// Every token makes its transfers but the failing one, whose error has the number 1. Of the
/// contract's errors, that for a missing right has the number 4 and that for a failed transfer
/// the number 39.
pub proof fn tokens_and_errors_are_told_apart(token: Token, error: MockTokenError, e: NavinError)
    ensures
        token.transfers_succeed() <==> token.contract is Mock || token.contract is Consistency,
        error.published_code() == 1,
        e.published_code() == Some(4u32) <==> e == NavinError::Unauthorized,
        e.published_code() == Some(39u32) <==> e == NavinError::TokenTransferFailed,
        e.published_code() is Some ==> e == NavinError::Unauthorized || e
            == NavinError::TokenTransferFailed,
{
}

// Views.

/// The view of a shipment has its fields, each under its own name.
pub proof fn shipment_views_show_the_fields(shipment: Shipment)
    ensures
        shipment@.id == shipment.id,
        shipment@.sender == shipment.sender,
        shipment@.receiver == shipment.receiver,
        shipment@.carrier == shipment.carrier,
        shipment@.status == shipment.status,
        shipment@.data_hash == shipment.data_hash,
        shipment@.created_at == shipment.created_at,
        shipment@.updated_at == shipment.updated_at,
        shipment@.deadline == shipment.deadline,
        shipment@.escrow_amount == shipment.escrow_amount,
        shipment@.total_escrow == shipment.total_escrow,
        shipment@.finalized == shipment.finalized,
        shipment@.payment_milestones.len() == shipment.payment_milestones@.len(),
        forall|i: int|
            0 <= i < shipment.payment_milestones@.len() ==> {
                &&& (#[trigger] shipment@.payment_milestones[i]).0
                    == shipment.payment_milestones@[i].name@
                &&& shipment@.payment_milestones[i].1 == shipment.payment_milestones@[i].percentage
            },
        shipment@.paid_milestones.len() == shipment.paid_milestones@.len(),
        forall|i: int|
            0 <= i < shipment.paid_milestones@.len() ==> #[trigger] shipment@.paid_milestones[i]
                == shipment.paid_milestones@[i]@,
{
}

/// The views of a batch's entries have their fields, each under its own name and in its place.
pub proof fn entry_views_show_the_fields(inputs: Seq<ShipmentInput>, i: int)
    requires
        0 <= i < inputs.len(),
    ensures
        entries(inputs).len() == inputs.len(),
        entries(inputs)[i].receiver == inputs[i].receiver,
        entries(inputs)[i].carrier == inputs[i].carrier,
        entries(inputs)[i].data_hash == inputs[i].data_hash,
        entries(inputs)[i].deadline == inputs[i].deadline,
        entries(inputs)[i].payment_milestones == schedule(inputs[i].payment_milestones@),
{
}

/// Schedules and lists of names are spelled out item by item.
pub proof fn lists_are_spelled_out(milestones: Seq<Milestone>, names: Seq<String>, i: int, k: int)
    requires
        0 <= i < milestones.len(),
        0 <= k < names.len(),
    ensures
        schedule(milestones).len() == milestones.len(),
        schedule(milestones)[i] == (milestones[i].name@, milestones[i].percentage),
        spelled(names).len() == names.len(),
        spelled(names)[k] == names[k]@,
{
}

/// What was found is shown as it is, and what was not as nothing.
pub proof fn finds_are_shown_as_they_are(found: Seq<Option<Shipment>>, i: int)
    requires
        0 <= i < found.len(),
    ensures
        shown(found).len() == found.len(),
        found[i] is None <==> shown(found)[i] is None,
        found[i] matches Some(shipment) ==> shown(found)[i] == Some(shipment@),
{
}

// Statuses.

/// Which statuses are an end, are on the way, are open, and follow each other.
pub proof fn statuses_are_told_apart(status: ShipmentStatus, next: ShipmentStatus)
    ensures
        status.terminal() <==> status == ShipmentStatus::Delivered || status
            == ShipmentStatus::Cancelled,
        status.under_way() <==> status == ShipmentStatus::InTransit || status
            == ShipmentStatus::AtCheckpoint,
        status.open_case() <==> status == ShipmentStatus::Created || status
            == ShipmentStatus::InTransit || status == ShipmentStatus::AtCheckpoint,
        status.may_become(next) ==> next != status && !status.terminal() && status
            != ShipmentStatus::Disputed && next != ShipmentStatus::Created && next
            != ShipmentStatus::Disputed && next != ShipmentStatus::Cancelled,
        status == ShipmentStatus::Created ==> (status.may_become(next) <==> next
            == ShipmentStatus::InTransit),
        status == ShipmentStatus::InTransit ==> (status.may_become(next) <==> next
            == ShipmentStatus::AtCheckpoint || next == ShipmentStatus::Delivered),
        status == ShipmentStatus::AtCheckpoint ==> (status.may_become(next) <==> next
            == ShipmentStatus::InTransit || next == ShipmentStatus::Delivered),
{
}

/// The parties of a shipment are its sender, its carrier and its receiver.
pub proof fn parties_are_sender_carrier_and_receiver(shipment: Shipment, account: Address)
    ensures
        shipment@.involves(account) <==> account == shipment.sender || account == shipment.carrier
            || account == shipment.receiver,
{
}

/// A change of status changes the status, the time, and whether the shipment is final: at its end
/// with nothing in escrow.
pub proof fn status_changes_are_exact(shipment: Shipment, now: u64, status: ShipmentStatus)
    ensures
        ({
            let after = shipment@.with_status(now, status);
            &&& after.status == status
            &&& after.updated_at == now
            &&& after.finalized <==> (status == ShipmentStatus::Delivered || status
                == ShipmentStatus::Cancelled) && shipment.escrow_amount == 0
            &&& after.id == shipment.id
            &&& after.sender == shipment.sender
            &&& after.receiver == shipment.receiver
            &&& after.carrier == shipment.carrier
            &&& after.data_hash == shipment.data_hash
            &&& after.created_at == shipment.created_at
            &&& after.deadline == shipment.deadline
            &&& after.escrow_amount == shipment.escrow_amount
            &&& after.total_escrow == shipment.total_escrow
            &&& after.payment_milestones == shipment@.payment_milestones
            &&& after.paid_milestones == shipment@.paid_milestones
        }),
{
}

// The circuit breaker.

/// A closed breaker lets everything through and an open one nothing until it has had time to
/// recover, after which it lets a few through. A success closes it.
pub proof fn the_breaker_lets_through(b: CircuitBreakerTracker, now: u64)
    ensures
        b.state == CircuitBreakerState::Closed ==> b.allows(now) && b.admitted() == b,
        b.state == CircuitBreakerState::Open ==> (b.allows(now) <==> b.opened_at
            + RECOVERY_TIMEOUT_SECONDS <= now),
        b.state == CircuitBreakerState::Open ==> b.admitted().state
            == CircuitBreakerState::HalfOpen && b.admitted().half_open_requests == 1,
        b.state == CircuitBreakerState::HalfOpen ==> (b.allows(now) <==> b.half_open_requests
            < HALF_OPEN_MAX_REQUESTS),
        b.state == CircuitBreakerState::HalfOpen && b.half_open_requests < u32::MAX ==> b.admitted()
            == (CircuitBreakerTracker {
            half_open_requests: (b.half_open_requests + 1) as u32,
            ..b
        }),
        b.admitted().failure_count == b.failure_count,
        b.admitted().opened_at == b.opened_at,
        CircuitBreakerTracker::reset().state == CircuitBreakerState::Closed,
        CircuitBreakerTracker::reset().failure_count == 0,
        CircuitBreakerTracker::reset().opened_at == 0,
        CircuitBreakerTracker::reset().half_open_requests == 0,
{
}

/// A failure is counted. It opens a breaker that was not closed, and a closed one once there are
/// enough of them; a closed one below that stays as it is.
pub proof fn the_breaker_counts_failures(b: CircuitBreakerTracker, now: u64)
    ensures
        b.failure_count < u32::MAX ==> b.failed(now).failure_count == b.failure_count + 1,
        b.failure_count == u32::MAX ==> b.failed(now).failure_count == u32::MAX,
        b.state == CircuitBreakerState::Closed && b.failure_count + 1 < FAILURE_THRESHOLD
            ==> b.failed(now) == (CircuitBreakerTracker {
            failure_count: b.failed(now).failure_count,
            ..b
        }),
        b.state != CircuitBreakerState::Closed || b.failure_count + 1 >= FAILURE_THRESHOLD ==> {
            &&& b.failed(now).state == CircuitBreakerState::Open
            &&& b.failed(now).opened_at == now
            &&& b.failed(now).half_open_requests == 0
        },
{
}

// The configuration.

/// The checksum is the digest of the encoding, which has every setting in a place of its own.
pub proof fn encodings_hold_every_setting(config: ContractConfig)
    ensures
        config.checksum() == sha256_digest(config.encoding()),
        config.encoding().len() == 61,
        config.encoding().subrange(0, 4) == spec_u32_to_le_bytes(config.shipment_ttl_threshold),
        config.encoding().subrange(4, 8) == spec_u32_to_le_bytes(config.shipment_ttl_extension),
        config.encoding().subrange(8, 16) == spec_u64_to_le_bytes(
            config.min_status_update_interval,
        ),
        config.encoding().subrange(16, 20) == spec_u32_to_le_bytes(config.batch_operation_limit),
        config.encoding().subrange(20, 24) == spec_u32_to_le_bytes(config.max_metadata_entries),
        config.encoding().subrange(24, 28) == spec_u32_to_le_bytes(config.default_shipment_limit),
        config.encoding().subrange(28, 36) == spec_u64_to_le_bytes(config.proposal_expiry_seconds),
        config.encoding().subrange(36, 44) == spec_u64_to_le_bytes(config.deadline_grace_seconds),
        config.encoding()[44] == if config.auto_dispute_breach {
            1u8
        } else {
            0u8
        },
        config.encoding().subrange(45, 49) == spec_u32_to_le_bytes(
            config.max_milestones_per_shipment,
        ),
        config.encoding().subrange(49, 53) == spec_u32_to_le_bytes(config.max_notes_per_shipment),
        config.encoding().subrange(53, 57) == spec_u32_to_le_bytes(config.max_evidence_per_dispute),
        config.encoding().subrange(57, 61) == spec_u32_to_le_bytes(
            config.max_breaches_per_shipment,
        ),
{
    lemma_auto_spec_u32_to_from_le_bytes();
    lemma_auto_spec_u64_to_from_le_bytes();
}

// Addresses and set-ups.

/// Addresses are numbered in the order in which they are handed out, as long as there are numbers.
pub proof fn addresses_are_numbered_in_order(env: Env, count: u64, a: Address)
    ensures
        env.has_room(count as int) <==> env.next_address + count <= u64::MAX,
        env.has_room(count as int) ==> env.upcoming(count as int).number == env.next_address
            + count,
        env.has_room(count as int) ==> env.after_issuing(count as int).next_address
            == env.next_address + count,
        env.issued(a) <==> a.number < env.next_address,
{
}

/// Handing out an address takes no time, and the next one is another.
pub proof fn handing_out_addresses_takes_no_time(env: Env)
    requires
        env.has_room(2),
    ensures
        env.after_issuing(1).timestamp == env.timestamp,
        env.after_issuing(1).upcoming(0) != env.upcoming(0),
        env.after_issuing(1).issued(env.upcoming(0)),
        !env.issued(env.upcoming(0)),
        !env.after_issuing(1).issued(env.after_issuing(1).upcoming(0)),
        forall|a: Address| env.issued(a) ==> #[trigger] env.after_issuing(1).issued(a),
{
}

/// A context that has just been set up has an initialised contract on the token given, one
/// company, one carrier, and the company accepts the carrier. Nothing else has happened.
pub proof fn new_contexts_are_ready(ctx: Ctx, contract: TokenContract)
    requires
        ctx.is_new(contract),
    ensures
        ({
            let s = ctx.client.storage@;
            &&& ctx.client.token matches Some(token) && token.contract == contract
            &&& ctx.client.asked@.len() == 0
            &&& s.admin == Some(ctx.admin)
            &&& s.version == 1
            &&& s.token_decimals == 7
            &&& forall|a: Address| #[trigger] s.companies.contains(a) <==> a == ctx.company
            &&& forall|a: Address| #[trigger] s.carriers.contains(a) <==> a == ctx.carrier
            &&& forall|a: Address| !#[trigger] s.suspended.contains(a)
            &&& forall|a: Address, b: Address| #[trigger]
                s.whitelist.contains((a, b)) <==> a == ctx.company && b == ctx.carrier
            &&& s.shipment_counter == 0
            &&& s.shipments.dom() == Set::<u64>::empty()
            &&& s.archived.dom() == Set::<u64>::empty()
            &&& s.escrows.dom() == Set::<u64>::empty()
            &&& s.events.len() == 0
            &&& s.settlements.len() == 0
            &&& !s.reentrancy_lock
            &&& ctx.admin != ctx.company
            &&& ctx.admin != ctx.carrier
            &&& ctx.company != ctx.carrier
        }),
{
}

/// What a plain shipment is created with is what was given, without a payment schedule.
pub proof fn plain_inputs_hold_what_was_given(
    receiver: Address,
    carrier: Address,
    seed: u8,
    deadline: u64,
)
    ensures
        ({
            let input = plain_input(receiver, carrier, seed, deadline);
            &&& input.receiver == receiver
            &&& input.carrier == carrier
            &&& input.data_hash == hash_of(seed)
            &&& input.payment_milestones.len() == 0
            &&& input.deadline == deadline
        }),
{
}

/// A context that is the same has the same accounts, contract, token and requests.
pub proof fn same_contexts_are_the_same(a: Ctx, b: Ctx)
    ensures
        a.same_context(b) <==> {
            &&& a.admin == b.admin
            &&& a.company == b.company
            &&& a.carrier == b.carrier
            &&& a.client.address == b.client.address
            &&& a.client.token == b.client.token
            &&& a.client.asked@ == b.client.asked@
            &&& a.env.next_address == b.env.next_address
        },
{
}

} // verus!
