//! Laws of what a call that is accepted does: everything that it changes of what is stored, and
//! that it changes nothing else.

use vstd::prelude::*;

use crate::calls::{batches_only_add_shipments, Call, Moment};
use crate::circuit_breaker::{CircuitBreakerState, CircuitBreakerTracker};
use crate::config::{sha256_digest, ContractConfig};
use crate::env::Address;
use crate::model::{Closing, PendingView};
use crate::storage::StorageView;
use crate::types::{
    Event, NavinError, SettlementOperation, SettlementRecord, SettlementState, ShipmentInputView,
    ShipmentStatus, ShipmentView,
};

verus! {

/// The event counts with one more for a shipment. A count stops at its largest value.
pub open spec fn one_more(counts: Map<u64, u64>, id: u64) -> Map<u64, u64> {
    counts.insert(
        id,
        if !counts.contains_key(id) {
            1
        } else if counts[id] == u64::MAX {
            u64::MAX
        } else {
            (counts[id] + 1) as u64
        },
    )
}

/// A circuit breaker that has met with no failure.
pub open spec fn untripped() -> CircuitBreakerTracker {
    CircuitBreakerTracker {
        state: CircuitBreakerState::Closed,
        failure_count: 0,
        opened_at: 0,
        half_open_requests: 0,
    }
}

/// A new contract keeps nothing.
pub proof fn new_contracts_keep_nothing()
    ensures
        ({
            let s = StorageView::blank();
            &&& s.admin is None
            &&& s.version == 0
            &&& s.wasm_hash is None
            &&& s.shipment_counter == 0
            &&& s.companies == Set::<Address>::empty()
            &&& s.carriers == Set::<Address>::empty()
            &&& s.suspended == Set::<Address>::empty()
            &&& s.whitelist == Set::<(Address, Address)>::empty()
            &&& s.shipments == Map::<u64, ShipmentView>::empty()
            &&& s.archived == Map::<u64, ShipmentView>::empty()
            &&& s.escrows == Map::<u64, i128>::empty()
            &&& s.confirmation_hashes == Map::<u64, [u8; 32]>::empty()
            &&& s.last_status_updates == Map::<u64, u64>::empty()
            &&& s.event_counts == Map::<u64, u64>::empty()
            &&& s.events == Seq::<Event>::empty()
            &&& s.settlements == Seq::<SettlementRecord>::empty()
            &&& !s.reentrancy_lock
            &&& s.circuit_breaker == untripped()
            &&& s.config == ContractConfig::initial()
            &&& s.config_checksum == sha256_digest(s.config.encoding())
        }),
{
}

/// A call that is refused changes nothing at all.
pub proof fn refused_calls_change_nothing(s: StorageView, at: Moment, call: Call)
    requires
        s.refusal(at, call) is Some,
    ensures
        s.after(at, call) == s,
{
}

/// Initialising names the administrator and starts with version 1 and the default configuration,
/// whose checksum is kept.
pub proof fn initializing_names_the_admin(s: StorageView, at: Moment, admin: Address)
    requires
        s.refusal(at, (Call::Initialize { admin })) is None,
    ensures
        ({
            let t = s.after(at, Call::Initialize { admin });
            &&& t.admin == Some(admin)
            &&& t.version == 1
            &&& t.token_decimals == 7
            &&& t.config == ContractConfig::initial()
            &&& t.config_checksum == sha256_digest(t.config.encoding())
            &&& t == (StorageView {
                admin: t.admin,
                version: t.version,
                token_decimals: t.token_decimals,
                config: t.config,
                config_checksum: t.config_checksum,
                ..s
            })
        }),
{
}

/// Each change of roles changes one account in one role.
pub proof fn roles_change_one_by_one(s: StorageView, at: Moment, caller: Address, who: Address)
    requires
        s.admin == Some(caller),
    ensures
        s.after(at, (Call::AddCompany { caller, company: who })) == (StorageView {
            companies: s.companies.insert(who),
            ..s
        }),
        s.after(at, (Call::AddCarrier { caller, carrier: who })) == (StorageView {
            carriers: s.carriers.insert(who),
            ..s
        }),
        s.after(at, (Call::SuspendCarrier { caller, carrier: who })) == (StorageView {
            suspended: s.suspended.insert(who),
            ..s
        }),
        s.after(at, (Call::ReactivateCarrier { caller, carrier: who })) == (StorageView {
            suspended: s.suspended.remove(who),
            ..s
        }),
{
}

/// A company accepts a carrier, or no longer does, and no other pair is touched.
pub proof fn whitelisting_changes_one_pair(
    s: StorageView,
    at: Moment,
    company: Address,
    carrier: Address,
)
    requires
        s.companies.contains(company),
    ensures
        s.after(at, (Call::AddCarrierToWhitelist { company, carrier })) == (StorageView {
            whitelist: s.whitelist.insert((company, carrier)),
            ..s
        }),
        s.after(at, (Call::RemoveCarrierFromWhitelist { company, carrier })) == (StorageView {
            whitelist: s.whitelist.remove((company, carrier)),
            ..s
        }),
{
}

/// A configuration that is set is the one that was given, and the checksum is that of it.
pub proof fn configuring_keeps_what_was_given(
    s: StorageView,
    at: Moment,
    caller: Address,
    config: ContractConfig,
)
    requires
        s.admin == Some(caller),
    ensures
        s.after(at, (Call::UpdateConfig { caller, config })) == (StorageView {
            config,
            config_checksum: sha256_digest(config.encoding()),
            ..s
        }),
{
}

/// An upgrade notes the version and the code that were given.
pub proof fn upgrading_keeps_what_was_given(
    s: StorageView,
    at: Moment,
    caller: Address,
    wasm_hash: [u8; 32],
    target: u32,
)
    requires
        s.refusal(at, (Call::Upgrade { caller, wasm_hash, target })) is None,
    ensures
        s.after(at, (Call::Upgrade { caller, wasm_hash, target })) == (StorageView {
            version: target,
            wasm_hash: Some(wasm_hash),
            ..s
        }),
{
}

/// Creating a shipment stores, under the next number, what was asked for: new, unpaid and not yet
/// on its way. It is announced with its number and its data.
pub proof fn creating_stores_what_was_asked_for(
    s: StorageView,
    at: Moment,
    company: Address,
    input: ShipmentInputView,
)
    requires
        s.refusal(at, (Call::CreateShipment { company, input })) is None,
    ensures
        ({
            let t = s.after(at, Call::CreateShipment { company, input });
            let id = t.shipment_counter;
            let shipment = t.shipments[id];
            &&& id == s.shipment_counter + 1
            &&& s.next_id() == id
            &&& shipment.id == id
            &&& shipment.sender == company
            &&& shipment.receiver == input.receiver
            &&& shipment.carrier == input.carrier
            &&& shipment.status == ShipmentStatus::Created
            &&& shipment.data_hash == input.data_hash
            &&& shipment.created_at == at.now
            &&& shipment.updated_at == at.now
            &&& shipment.deadline == input.deadline
            &&& shipment.escrow_amount == 0
            &&& shipment.total_escrow == 0
            &&& shipment.payment_milestones == input.payment_milestones
            &&& shipment.paid_milestones.len() == 0
            &&& !shipment.finalized
            &&& t == (StorageView {
                shipment_counter: id,
                shipments: s.shipments.insert(id, shipment),
                events: s.events.push(
                    Event::ShipmentCreated { shipment_id: id, data_hash: input.data_hash },
                ),
                event_counts: one_more(s.event_counts, id),
                ..s
            })
        }),
{
}

/// A batch comes to the same as its entries handed in one after the other, and its shipments get
/// the numbers that follow.
pub proof fn batches_come_to_their_entries(
    s: StorageView,
    at: Moment,
    company: Address,
    inputs: Seq<ShipmentInputView>,
    input: ShipmentInputView,
)
    requires
        s.refusal(at, (Call::CreateShipmentsBatch { company, inputs: inputs.push(input) })) is None,
    ensures
        ({
            let most = s.after(at, Call::CreateShipmentsBatch { company, inputs });
            let all = s.after(
                at,
                Call::CreateShipmentsBatch { company, inputs: inputs.push(input) },
            );
            &&& s.refusal(at, Call::CreateShipmentsBatch { company, inputs }) is None
            &&& most.refusal(at, Call::CreateShipment { company, input }) is None
            &&& all == most.after(at, Call::CreateShipment { company, input })
            &&& all.shipment_counter == s.shipment_counter + inputs.len() + 1
        }),
{
    let more = inputs.push(input);
    assert(more.drop_last() =~= inputs);
    assert(more[inputs.len() as int] == input);
    assert forall|i: int| 0 <= i < inputs.len() implies (#[trigger] inputs[i]).deadline
        > at.now by {
        assert(more[i] == inputs[i]);
    }
    batches_only_add_shipments(s, at.now, company, inputs);
    counter_follows_the_batch(s, at.now, company, inputs);
}

proof fn counter_follows_the_batch(
    s: StorageView,
    now: u64,
    company: Address,
    inputs: Seq<ShipmentInputView>,
)
    requires
        s.shipment_counter + inputs.len() <= u64::MAX,
    ensures
        s.batch_created(now, company, inputs).shipment_counter == s.shipment_counter + inputs.len(),
    decreases inputs.len(),
{
    if inputs.len() > 0 {
        counter_follows_the_batch(s, now, company, inputs.drop_last());
    }
}

/// A batch without entries changes nothing, and the numbers that a batch gives back are those
/// that follow the latest shipment, in their order.
pub proof fn batches_give_back_the_numbers(
    s: StorageView,
    at: Moment,
    company: Address,
    count: nat,
    i: int,
)
    requires
        s.shipment_counter + count <= u64::MAX,
        0 <= i < count,
    ensures
        s.after(at, (Call::CreateShipmentsBatch { company, inputs: Seq::empty() })) == s,
        s.next_ids(count).len() == count,
        s.next_ids(count)[i] == s.shipment_counter + 1 + i,
{
}

/// A status that is reported is stored with its data and its time, and announced. A shipment that
/// has arrived and for which nothing is held is final.
pub proof fn updating_stores_the_report(
    s: StorageView,
    at: Moment,
    caller: Address,
    id: u64,
    status: ShipmentStatus,
    data_hash: [u8; 32],
)
    requires
        s.refusal(at, (Call::UpdateStatus { caller, id, status, data_hash })) is None,
        s.shipments[id].id == id,
    ensures
        s.after(at, (Call::UpdateStatus { caller, id, status, data_hash })) == (StorageView {
            shipments: s.shipments.insert(
                id,
                (ShipmentView {
                    status,
                    data_hash,
                    updated_at: at.now,
                    finalized: status == ShipmentStatus::Delivered && s.shipments[id].escrow_amount
                        == 0,
                    ..s.shipments[id]
                }),
            ),
            last_status_updates: s.last_status_updates.insert(id, at.now),
            events: s.events.push((Event::StatusUpdated { shipment_id: id, status, data_hash })),
            event_counts: one_more(s.event_counts, id),
            ..s
        }),
{
}

/// A dispute puts the shipment under dispute and touches nothing that is held for it.
pub proof fn disputing_changes_the_status(
    s: StorageView,
    at: Moment,
    caller: Address,
    id: u64,
    reason_hash: [u8; 32],
)
    requires
        s.refusal(at, (Call::RaiseDispute { caller, id, reason_hash })) is None,
        s.shipments[id].id == id,
    ensures
        s.after(at, (Call::RaiseDispute { caller, id, reason_hash })) == (StorageView {
            shipments: s.shipments.insert(
                id,
                (ShipmentView {
                    status: ShipmentStatus::Disputed,
                    updated_at: at.now,
                    finalized: false,
                    ..s.shipments[id]
                }),
            ),
            events: s.events.push(
                (Event::StatusUpdated {
                    shipment_id: id,
                    status: ShipmentStatus::Disputed,
                    data_hash: reason_hash,
                }),
            ),
            event_counts: one_more(s.event_counts, id),
            ..s
        }),
{
}

/// Cancelling cancels the shipment and pays nothing: what is held for it stays held.
pub proof fn cancelling_changes_the_status(
    s: StorageView,
    at: Moment,
    caller: Address,
    id: u64,
    reason_hash: [u8; 32],
)
    requires
        s.refusal(at, (Call::CancelShipment { caller, id, reason_hash })) is None,
        s.shipments[id].id == id,
    ensures
        s.after(at, (Call::CancelShipment { caller, id, reason_hash })) == (StorageView {
            shipments: s.shipments.insert(
                id,
                (ShipmentView {
                    status: ShipmentStatus::Cancelled,
                    updated_at: at.now,
                    finalized: s.shipments[id].escrow_amount == 0,
                    ..s.shipments[id]
                }),
            ),
            events: s.events.push(
                (Event::StatusUpdated {
                    shipment_id: id,
                    status: ShipmentStatus::Cancelled,
                    data_hash: reason_hash,
                }),
            ),
            event_counts: one_more(s.event_counts, id),
            ..s
        }),
{
}

/// A hand-off changes the carrier, the data and the time of the shipment, and is announced with
/// both carriers.
pub proof fn handing_off_changes_the_carrier(
    s: StorageView,
    at: Moment,
    caller: Address,
    to: Address,
    id: u64,
    data_hash: [u8; 32],
)
    requires
        s.refusal(at, (Call::HandoffShipment { caller, to, id, data_hash })) is None,
        s.shipments[id].id == id,
    ensures
        s.after(at, (Call::HandoffShipment { caller, to, id, data_hash })) == (StorageView {
            shipments: s.shipments.insert(
                id,
                (ShipmentView { carrier: to, data_hash, updated_at: at.now, ..s.shipments[id] }),
            ),
            events: s.events.push(
                (Event::CarrierHandoffCompleted {
                    from_carrier: caller,
                    to_carrier: to,
                    shipment_id: id,
                }),
            ),
            event_counts: one_more(s.event_counts, id),
            ..s
        }),
{
}

/// Archiving moves the shipment, as it is, from the persistent entries to the archived ones.
pub proof fn archiving_moves_the_shipment(s: StorageView, at: Moment, caller: Address, id: u64)
    requires
        s.refusal(at, (Call::ArchiveShipment { caller, id })) is None,
        s.shipments[id].id == id,
    ensures
        s.after(at, (Call::ArchiveShipment { caller, id })) == (StorageView {
            shipments: s.shipments.remove(id),
            archived: s.archived.insert(id, s.shipments[id]),
            ..s
        }),
{
}

/// A payment that is completed moves its amount into or out of escrow, in the shipment and in the
/// escrow entry alike, closes the shipment where it is to be closed, enters the books, and gives
/// the lock back.
pub proof fn settling_moves_the_amount(s: StorageView, now: u64, pending: PendingView)
    requires
        s.settle_refusal(pending, true) is None,
        s.shipments[pending.record.shipment_id].id == pending.record.shipment_id,
        pending.record.amount > 0,
    ensures
        ({
            let t = s.settled(now, pending);
            let id = pending.record.shipment_id;
            let before = s.shipments[id];
            let shipment = t.shipments[id];
            let paid_in = if pending.record.operation == SettlementOperation::Deposit {
                pending.record.amount as int
            } else {
                0
            };
            let paid_out = if pending.record.operation == SettlementOperation::Deposit {
                0
            } else {
                pending.record.amount as int
            };
            let paid_events = s.events.push(
                Event::SettlementCompleted { shipment_id: id, settlement_id: pending.record.id },
            );
            let paid_counts = one_more(s.event_counts, id);
            &&& shipment.escrow_amount == before.escrow_amount + paid_in - paid_out
            &&& shipment.total_escrow == before.total_escrow + paid_in
            &&& shipment.status == match pending.closing {
                Closing::Keep => before.status,
                Closing::Deliver { .. } => ShipmentStatus::Delivered,
                Closing::Cancel { .. } => ShipmentStatus::Cancelled,
            }
            &&& shipment.updated_at == now
            &&& shipment.finalized <==> (shipment.status == ShipmentStatus::Delivered
                || shipment.status == ShipmentStatus::Cancelled) && shipment.escrow_amount == 0
            &&& shipment == (ShipmentView {
                escrow_amount: shipment.escrow_amount,
                total_escrow: shipment.total_escrow,
                status: shipment.status,
                updated_at: shipment.updated_at,
                finalized: shipment.finalized,
                ..before
            })
            &&& t.confirmation_hashes == match pending.closing {
                Closing::Deliver { confirmation_hash } => s.confirmation_hashes.insert(
                    id,
                    confirmation_hash,
                ),
                _ => s.confirmation_hashes,
            }
            &&& t.events == match pending.closing {
                Closing::Keep => paid_events,
                Closing::Deliver { confirmation_hash } => paid_events.push(
                    Event::StatusUpdated {
                        shipment_id: id,
                        status: ShipmentStatus::Delivered,
                        data_hash: confirmation_hash,
                    },
                ),
                Closing::Cancel { reason_hash } => paid_events.push(
                    Event::StatusUpdated {
                        shipment_id: id,
                        status: ShipmentStatus::Cancelled,
                        data_hash: reason_hash,
                    },
                ),
            }
            &&& t.event_counts == if pending.closing is Keep {
                paid_counts
            } else {
                one_more(paid_counts, id)
            }
            &&& t == (StorageView {
                shipments: s.shipments.insert(id, shipment),
                escrows: s.escrows.insert(id, shipment.escrow_amount),
                settlements: s.settlements.push(
                    SettlementRecord { state: SettlementState::Completed, ..pending.record },
                ),
                reentrancy_lock: false,
                circuit_breaker: untripped(),
                confirmation_hashes: t.confirmation_hashes,
                events: t.events,
                event_counts: t.event_counts,
                ..s
            })
        }),
{
}

/// A payment that was begun is completed if and only if the token made it, the shipment is still
/// there and has not come to another end, and the amount still fits into its escrow or is still
/// there to be paid out.
pub proof fn settling_needs_room(s: StorageView, pending: PendingView, paid: bool)
    ensures
        ({
            let refusal = s.settle_refusal(pending, paid);
            let id = pending.record.shipment_id;
            let shipment = s.shipments[id];
            let known = paid && s.shipments.contains_key(id);
            let open = known && (pending.closing is Keep || (shipment.status
                != ShipmentStatus::Delivered && shipment.status != ShipmentStatus::Cancelled));
            let deposit = pending.record.operation == SettlementOperation::Deposit;
            let fits = shipment.escrow_amount + pending.record.amount <= i128::MAX
                && shipment.total_escrow + pending.record.amount <= i128::MAX;
            let held = pending.record.amount <= shipment.escrow_amount;
            &&& refusal is None <==> open && (if deposit {
                fits
            } else {
                held
            })
            &&& refusal == Some(NavinError::TokenTransferFailed) <==> !paid
            &&& refusal == Some(NavinError::ShipmentNotFound) <==> paid && !known
            &&& refusal == Some(NavinError::InvalidStatus) <==> known && !open
            &&& refusal == Some(NavinError::ArithmeticError) <==> open && deposit && !fits
            &&& refusal == Some(NavinError::InsufficientFunds) <==> open && !deposit && !held
        }),
{
}

/// While a payment is under way the lock is held, the circuit breaker has let one more transfer
/// through, and nothing else has changed. A payment that fails gives both back.
pub proof fn beginning_takes_the_lock(s: StorageView, pending: PendingView)
    ensures
        s.payment_begun().reentrancy_lock,
        s.payment_begun() == (StorageView {
            reentrancy_lock: true,
            circuit_breaker: s.payment_begun().circuit_breaker,
            ..s
        }),
        s.circuit_breaker.state == CircuitBreakerState::Closed ==> s.payment_begun().circuit_breaker
            == s.circuit_breaker,
        s.circuit_breaker.state != CircuitBreakerState::Closed ==> s.payment_begun().circuit_breaker
            == (CircuitBreakerTracker {
            state: CircuitBreakerState::HalfOpen,
            half_open_requests: s.payment_begun().circuit_breaker.half_open_requests,
            ..s.circuit_breaker
        }),
        s.circuit_breaker.state == CircuitBreakerState::Open
            ==> s.payment_begun().circuit_breaker.half_open_requests == 1,
        s.circuit_breaker.state == CircuitBreakerState::HalfOpen
            && s.circuit_breaker.half_open_requests < u32::MAX
            ==> s.payment_begun().circuit_breaker.half_open_requests
            == s.circuit_breaker.half_open_requests + 1,
        s.payment_undone(pending) == (StorageView {
            reentrancy_lock: false,
            circuit_breaker: pending.breaker,
            ..s
        }),
{
}

/// Who pays whom how much: a deposit goes from the sender to the contract, a release from the
/// contract to the carrier, and a refund from the contract back to the sender. Paying out pays all
/// that is held.
pub proof fn payments_go_between_the_parties(
    s: StorageView,
    contract: Address,
    id: u64,
    amount: i128,
    closing: Closing,
)
    ensures
        s.settlements.len() < u64::MAX ==> s.deposit_payment(contract, id, amount).record.id
            == s.settlements.len() + 1,
        s.deposit_payment(contract, id, amount) == (PendingView {
            record: (SettlementRecord {
                id: s.deposit_payment(contract, id, amount).record.id,
                shipment_id: id,
                operation: SettlementOperation::Deposit,
                state: SettlementState::Pending,
                from: s.shipments[id].sender,
                to: contract,
                amount,
            }),
            closing: Closing::Keep,
            breaker: s.circuit_breaker,
        }),
        s.release_payment(contract, id, closing) == (PendingView {
            record: (SettlementRecord {
                id: s.deposit_payment(contract, id, amount).record.id,
                shipment_id: id,
                operation: SettlementOperation::Release,
                state: SettlementState::Pending,
                from: contract,
                to: s.shipments[id].carrier,
                amount: s.shipments[id].escrow_amount,
            }),
            closing,
            breaker: s.circuit_breaker,
        }),
        s.refund_payment(contract, id, closing) == (PendingView {
            record: (SettlementRecord {
                id: s.deposit_payment(contract, id, amount).record.id,
                shipment_id: id,
                operation: SettlementOperation::Refund,
                state: SettlementState::Pending,
                from: contract,
                to: s.shipments[id].sender,
                amount: s.shipments[id].escrow_amount,
            }),
            closing,
            breaker: s.circuit_breaker,
        }),
{
}

/// A deposit raises what is held for the shipment by the amount, takes it from the sender, and
/// enters the books.
pub proof fn depositing_moves_money_in(
    s: StorageView,
    at: Moment,
    caller: Address,
    id: u64,
    amount: i128,
)
    requires
        s.refusal(at, (Call::DepositEscrow { caller, id, amount })) is None,
        s.shipments[id].id == id,
    ensures
        ({
            let t = s.after(at, Call::DepositEscrow { caller, id, amount });
            let before = s.shipments[id];
            let number = (s.settlements.len() + 1) as u64;
            let shipment = ShipmentView {
                escrow_amount: (before.escrow_amount + amount) as i128,
                total_escrow: (before.total_escrow + amount) as i128,
                status: ShipmentStatus::Created,
                updated_at: at.now,
                finalized: false,
                ..before
            };
            let paid = s.events.push(
                Event::SettlementCompleted { shipment_id: id, settlement_id: number },
            );
            t == (StorageView {
                shipments: s.shipments.insert(id, shipment),
                escrows: s.escrows.insert(id, shipment.escrow_amount),
                settlements: s.settlements.push(
                    SettlementRecord {
                        id: number,
                        shipment_id: id,
                        operation: SettlementOperation::Deposit,
                        state: SettlementState::Completed,
                        from: before.sender,
                        to: at.contract,
                        amount: amount,
                    },
                ),
                circuit_breaker: untripped(),
                events: paid,
                event_counts: one_more(s.event_counts, id),
                ..s
            })
        }),
{
}

/// A release pays all that is held to the carrier, after which the shipment is final.
pub proof fn releasing_pays_the_carrier(
    s: StorageView,
    at: Moment,
    caller: Address,
    id: u64,
)
    requires
        s.refusal(at, (Call::ReleaseEscrow { caller, id })) is None,
        s.shipments[id].id == id,
    ensures
        ({
            let t = s.after(at, Call::ReleaseEscrow { caller, id });
            let before = s.shipments[id];
            let number = (s.settlements.len() + 1) as u64;
            let shipment = ShipmentView {
                escrow_amount: 0,
                total_escrow: before.total_escrow,
                status: ShipmentStatus::Delivered,
                updated_at: at.now,
                finalized: true,
                ..before
            };
            let paid = s.events.push(
                Event::SettlementCompleted { shipment_id: id, settlement_id: number },
            );
            t == (StorageView {
                shipments: s.shipments.insert(id, shipment),
                escrows: s.escrows.insert(id, shipment.escrow_amount),
                settlements: s.settlements.push(
                    SettlementRecord {
                        id: number,
                        shipment_id: id,
                        operation: SettlementOperation::Release,
                        state: SettlementState::Completed,
                        from: at.contract,
                        to: before.carrier,
                        amount: before.escrow_amount,
                    },
                ),
                circuit_breaker: untripped(),
                events: paid,
                event_counts: one_more(s.event_counts, id),
                ..s
            })
        }),
{
}

/// A refund pays all that is held back to the sender. The status stays; a cancelled shipment is
/// final then.
pub proof fn refunding_pays_the_sender(
    s: StorageView,
    at: Moment,
    caller: Address,
    id: u64,
)
    requires
        s.refusal(at, (Call::RefundEscrow { caller, id })) is None,
        s.shipments[id].id == id,
    ensures
        ({
            let t = s.after(at, Call::RefundEscrow { caller, id });
            let before = s.shipments[id];
            let number = (s.settlements.len() + 1) as u64;
            let shipment = ShipmentView {
                escrow_amount: 0,
                total_escrow: before.total_escrow,
                status: before.status,
                updated_at: at.now,
                finalized: before.status == ShipmentStatus::Cancelled,
                ..before
            };
            let paid = s.events.push(
                Event::SettlementCompleted { shipment_id: id, settlement_id: number },
            );
            t == (StorageView {
                shipments: s.shipments.insert(id, shipment),
                escrows: s.escrows.insert(id, shipment.escrow_amount),
                settlements: s.settlements.push(
                    SettlementRecord {
                        id: number,
                        shipment_id: id,
                        operation: SettlementOperation::Refund,
                        state: SettlementState::Completed,
                        from: at.contract,
                        to: before.sender,
                        amount: before.escrow_amount,
                    },
                ),
                circuit_breaker: untripped(),
                events: paid,
                event_counts: one_more(s.event_counts, id),
                ..s
            })
        }),
{
}

/// Confirming the delivery of a shipment with escrow delivers it, keeps the confirmation, and pays
/// all that is held to the carrier.
pub proof fn confirming_pays_the_carrier(
    s: StorageView,
    at: Moment,
    caller: Address,
    id: u64,
    confirmation_hash: [u8; 32],
)
    requires
        s.refusal(at, (Call::ConfirmDelivery { caller, id, confirmation_hash })) is None,
        s.shipments[id].id == id,
        s.shipments[id].escrow_amount > 0,
    ensures
        ({
            let t = s.after(at, Call::ConfirmDelivery { caller, id, confirmation_hash });
            let before = s.shipments[id];
            let number = (s.settlements.len() + 1) as u64;
            let shipment = ShipmentView {
                escrow_amount: 0,
                total_escrow: before.total_escrow,
                status: ShipmentStatus::Delivered,
                updated_at: at.now,
                finalized: true,
                ..before
            };
            let paid = s.events.push(
                Event::SettlementCompleted { shipment_id: id, settlement_id: number },
            );
            t == (StorageView {
                shipments: s.shipments.insert(id, shipment),
                escrows: s.escrows.insert(id, shipment.escrow_amount),
                settlements: s.settlements.push(
                    SettlementRecord {
                        id: number,
                        shipment_id: id,
                        operation: SettlementOperation::Release,
                        state: SettlementState::Completed,
                        from: at.contract,
                        to: before.carrier,
                        amount: before.escrow_amount,
                    },
                ),
                circuit_breaker: untripped(),
                confirmation_hashes: s.confirmation_hashes.insert(id, confirmation_hash),
                events: paid.push(
                    Event::StatusUpdated {
                        shipment_id: id,
                        status: ShipmentStatus::Delivered,
                        data_hash: confirmation_hash,
                    },
                ),
                event_counts: one_more(one_more(s.event_counts, id), id),
                ..s
            })
        }),
{
}

/// Cancelling a shipment with escrow by force cancels it and pays all that is held back to the
/// sender.
pub proof fn forced_cancelling_pays_the_sender(
    s: StorageView,
    at: Moment,
    caller: Address,
    id: u64,
    reason_hash: [u8; 32],
)
    requires
        s.refusal(at, (Call::ForceCancelShipment { caller, id, reason_hash })) is None,
        s.shipments[id].id == id,
        s.shipments[id].escrow_amount > 0,
    ensures
        ({
            let t = s.after(at, Call::ForceCancelShipment { caller, id, reason_hash });
            let before = s.shipments[id];
            let number = (s.settlements.len() + 1) as u64;
            let shipment = ShipmentView {
                escrow_amount: 0,
                total_escrow: before.total_escrow,
                status: ShipmentStatus::Cancelled,
                updated_at: at.now,
                finalized: true,
                ..before
            };
            let paid = s.events.push(
                Event::SettlementCompleted { shipment_id: id, settlement_id: number },
            );
            t == (StorageView {
                shipments: s.shipments.insert(id, shipment),
                escrows: s.escrows.insert(id, shipment.escrow_amount),
                settlements: s.settlements.push(
                    SettlementRecord {
                        id: number,
                        shipment_id: id,
                        operation: SettlementOperation::Refund,
                        state: SettlementState::Completed,
                        from: at.contract,
                        to: before.sender,
                        amount: before.escrow_amount,
                    },
                ),
                circuit_breaker: untripped(),
                events: paid.push(
                    Event::StatusUpdated {
                        shipment_id: id,
                        status: ShipmentStatus::Cancelled,
                        data_hash: reason_hash,
                    },
                ),
                event_counts: one_more(one_more(s.event_counts, id), id),
                ..s
            })
        }),
{
}

/// Confirming the delivery of a shipment without escrow delivers it and pays nothing.
pub proof fn confirming_without_escrow_delivers(
    s: StorageView,
    at: Moment,
    caller: Address,
    id: u64,
    confirmation_hash: [u8; 32],
)
    requires
        s.refusal(at, (Call::ConfirmDelivery { caller, id, confirmation_hash })) is None,
        s.shipments[id].id == id,
        s.shipments[id].escrow_amount <= 0,
    ensures
        s.after(at, (Call::ConfirmDelivery { caller, id, confirmation_hash })) == (StorageView {
            shipments: s.shipments.insert(
                id,
                (ShipmentView {
                    status: ShipmentStatus::Delivered,
                    updated_at: at.now,
                    finalized: s.shipments[id].escrow_amount == 0,
                    ..s.shipments[id]
                }),
            ),
            confirmation_hashes: s.confirmation_hashes.insert(id, confirmation_hash),
            events: s.events.push(
                (Event::StatusUpdated {
                    shipment_id: id,
                    status: ShipmentStatus::Delivered,
                    data_hash: confirmation_hash,
                }),
            ),
            event_counts: one_more(s.event_counts, id),
            ..s
        }),
{
}

/// Cancelling a shipment without escrow by force cancels it and pays nothing.
pub proof fn forced_cancelling_without_escrow_cancels(
    s: StorageView,
    at: Moment,
    caller: Address,
    id: u64,
    reason_hash: [u8; 32],
)
    requires
        s.refusal(at, (Call::ForceCancelShipment { caller, id, reason_hash })) is None,
        s.shipments[id].id == id,
        s.shipments[id].escrow_amount <= 0,
    ensures
        s.after(at, (Call::ForceCancelShipment { caller, id, reason_hash })) == (StorageView {
            shipments: s.shipments.insert(
                id,
                (ShipmentView {
                    status: ShipmentStatus::Cancelled,
                    updated_at: at.now,
                    finalized: s.shipments[id].escrow_amount == 0,
                    ..s.shipments[id]
                }),
            ),
            events: s.events.push(
                (Event::StatusUpdated {
                    shipment_id: id,
                    status: ShipmentStatus::Cancelled,
                    data_hash: reason_hash,
                }),
            ),
            event_counts: one_more(s.event_counts, id),
            ..s
        }),
{
}

} // verus!
