//! Laws of what is read, checked and reported, told from what is stored.

use vstd::prelude::*;

use crate::calls::{Call, Moment};
use crate::consistency::{reported, ConsistencyViolation};
use crate::diagnostics::{ids_where, StoragePresenceState};
use crate::env::Address;
use crate::laws::reports::{
    contained_in_either, reported_is_contained, violations_are_what_is_wrong,
};
use crate::storage::StorageView;
use crate::types::{Event, NavinError, ShipmentInputView, ShipmentStatus, ShipmentView};

verus! {

// Reading.

/// What is found under a number is what is stored there, unchanged: the persistent entry, or the
/// archived one where there is no other.
pub proof fn found_is_what_is_stored(s: StorageView, id: u64, shipment: ShipmentView)
    ensures
        s.record(id) == Some(shipment) <==> {
            ||| s.shipments.contains_key(id) && s.shipments[id] == shipment
            ||| !s.shipments.contains_key(id) && s.archived.contains_key(id) && s.archived[id]
                == shipment
        },
        s.record(id) is None <==> !s.shipments.contains_key(id) && !s.archived.contains_key(id),
{
}

/// Reading a shipment gives what is stored of it, unchanged, and fails only where nothing is.
pub proof fn reading_gives_what_is_stored(s: StorageView, id: u64)
    ensures
        s.shipments.contains_key(id) ==> s.read(id) == Ok::<ShipmentView, NavinError>(
            s.shipments[id],
        ),
        !s.shipments.contains_key(id) && s.archived.contains_key(id) ==> s.read(id) == Ok::<
            ShipmentView,
            NavinError,
        >(s.archived[id]),
        !s.shipments.contains_key(id) && !s.archived.contains_key(id) ==> s.read(id) == Err::<
            ShipmentView,
            NavinError,
        >(NavinError::ShipmentNotFound),
{
}

/// Reading several shipments gives, in the order asked for, what is stored of each.
pub proof fn reading_a_batch_gives_what_is_stored(s: StorageView, ids: Seq<u64>, i: int)
    requires
        0 <= i < ids.len(),
    ensures
        s.read_batch(ids).len() == ids.len(),
        s.shipments.contains_key(ids[i]) ==> s.read_batch(ids)[i] == Some(s.shipments[ids[i]]),
        !s.shipments.contains_key(ids[i]) && s.archived.contains_key(ids[i]) ==> s.read_batch(
            ids,
        )[i] == Some(s.archived[ids[i]]),
        !s.shipments.contains_key(ids[i]) && !s.archived.contains_key(ids[i]) ==> s.read_batch(
            ids,
        )[i] is None,
{
}

/// A shipment that has just been created reads back with what it was created with.
pub proof fn new_shipments_read_back(
    s: StorageView,
    at: Moment,
    company: Address,
    input: ShipmentInputView,
)
    requires
        s.refusal(at, (Call::CreateShipment { company, input })) is None,
    ensures
        ({
            let t = s.after(at, Call::CreateShipment { company, input });
            let id = (s.shipment_counter + 1) as u64;
            &&& t.read(id) matches Ok(shipment) && {
                &&& shipment.id == id
                &&& shipment.sender == company
                &&& shipment.receiver == input.receiver
                &&& shipment.carrier == input.carrier
                &&& shipment.data_hash == input.data_hash
                &&& shipment.deadline == input.deadline
                &&& shipment.payment_milestones == input.payment_milestones
                &&& shipment.status == ShipmentStatus::Created
            }
            &&& t.read_batch(seq![id])[0] == Some(t.read(id)->Ok_0)
        }),
{
}

/// The escrow held is the escrow entry, and nothing where there is none.
pub proof fn escrow_is_the_entry(s: StorageView, id: u64)
    ensures
        s.escrows.contains_key(id) ==> s.escrow(id) == s.escrows[id],
        !s.escrows.contains_key(id) ==> s.escrow(id) == 0,
{
}

/// The number of events is the entry for it, and 0 where there is none.
pub proof fn event_count_is_the_entry(s: StorageView, id: u64)
    ensures
        s.event_counts.contains_key(id) ==> s.event_count(id) == s.event_counts[id],
        !s.event_counts.contains_key(id) ==> s.event_count(id) == 0,
{
}

/// An event is about the shipment that it names.
pub proof fn events_are_about_what_they_name(
    id: u64,
    number: u64,
    a: Address,
    b: Address,
    status: ShipmentStatus,
    data_hash: [u8; 32],
)
    ensures
        (Event::ShipmentCreated { shipment_id: id, data_hash }).shipment() == id,
        (Event::StatusUpdated { shipment_id: id, status, data_hash }).shipment() == id,
        (Event::CarrierHandoffCompleted {
            from_carrier: a,
            to_carrier: b,
            shipment_id: id,
        }).shipment() == id,
        (Event::SettlementCompleted { shipment_id: id, settlement_id: number }).shipment() == id,
{
}

// Where a shipment is stored.

/// Each flag of the report on a shipment says whether there is an entry of its own kind, and the
/// classification says what the first two say.
pub proof fn diagnosis_tells_each_entry(s: StorageView, id: u64)
    ensures
        s.diagnosis(id).shipment_id == id,
        s.diagnosis(id).persistent_shipment_present <==> s.shipments.contains_key(id),
        s.diagnosis(id).archived_shipment_present <==> s.archived.contains_key(id),
        s.diagnosis(id).escrow_present <==> s.escrows.contains_key(id),
        s.diagnosis(id).confirmation_hash_present <==> s.confirmation_hashes.contains_key(id),
        s.diagnosis(id).last_status_update_present <==> s.last_status_updates.contains_key(id),
        s.diagnosis(id).event_count_present <==> s.event_counts.contains_key(id),
        s.diagnosis(id).state == StoragePresenceState::ActivePersistent
            <==> s.shipments.contains_key(id) && !s.archived.contains_key(id),
        s.diagnosis(id).state == StoragePresenceState::ArchivedExpected
            <==> !s.shipments.contains_key(id) && s.archived.contains_key(id),
        s.diagnosis(id).state == StoragePresenceState::Missing <==> !s.shipments.contains_key(id)
            && !s.archived.contains_key(id),
        s.diagnosis(id).state == StoragePresenceState::InconsistentDualPresence
            <==> s.shipments.contains_key(id) && s.archived.contains_key(id),
{
}

/// What is done to a shipment shows in the report on it: a deposit leaves an escrow entry, a
/// confirmation its hash, a status update its time, and each of them an event count.
pub proof fn diagnosis_follows_the_calls(
    s: StorageView,
    at: Moment,
    caller: Address,
    id: u64,
    amount: i128,
    status: ShipmentStatus,
    hash: [u8; 32],
)
    requires
        s.shipments[id].id == id,
    ensures
        s.refusal(at, (Call::DepositEscrow { caller, id, amount })) is None ==> s.after(
            at,
            (Call::DepositEscrow { caller, id, amount }),
        ).diagnosis(id).escrow_present && s.after(
            at,
            (Call::DepositEscrow { caller, id, amount }),
        ).diagnosis(id).event_count_present,
        s.refusal(at, (Call::ConfirmDelivery { caller, id, confirmation_hash: hash })) is None
            ==> s.after(
            at,
            (Call::ConfirmDelivery { caller, id, confirmation_hash: hash }),
        ).diagnosis(id).confirmation_hash_present,
        s.refusal(at, (Call::UpdateStatus { caller, id, status, data_hash: hash })) is None
            ==> s.after(
            at,
            (Call::UpdateStatus { caller, id, status, data_hash: hash }),
        ).diagnosis(id).last_status_update_present,
{
}

// The health report.

/// A selection lists exactly the numbers for which the choice holds, each once and in order.
proof fn selection_is_exact(chosen: spec_fn(u64) -> bool, count: nat)
    requires
        count <= u64::MAX,
    ensures
        forall|id: u64|
            #![trigger ids_where(chosen, count).contains(id)]
            ids_where(chosen, count).contains(id) <==> 1 <= id <= count && chosen(id),
        forall|i: int, j: int|
            0 <= i < j < ids_where(chosen, count).len() ==> ids_where(chosen, count)[i]
                < ids_where(chosen, count)[j],
    decreases count,
{
    if count > 0 {
        let rest = ids_where(chosen, (count - 1) as nat);
        let all = ids_where(chosen, count);
        let last = count as u64;
        selection_is_exact(chosen, (count - 1) as nat);
        if chosen(last) {
            assert(all == rest.push(last));
            assert forall|id: u64| #[trigger]
                all.contains(id) <==> 1 <= id <= count && chosen(id) by {
                assert(all == rest + seq![last]);
                contained_in_either(rest, seq![last], id);
                assert(seq![last][0] == last);
                assert(rest.contains(id) <==> 1 <= id <= count - 1 && chosen(id));
            }
            assert forall|i: int, j: int| 0 <= i < j < all.len() implies all[i] < all[j] by {
                if j == rest.len() {
                    assert(rest.contains(rest[i]));
                }
            }
        } else {
            assert forall|id: u64| #[trigger]
                all.contains(id) <==> 1 <= id <= count && chosen(id) by {
                assert(rest.contains(id) <==> 1 <= id <= count - 1 && chosen(id));
            }
        }
    }
}

/// The late shipments of the report are exactly those that are in transit when their deadline is
/// past, whether stored as persistent or as archived, each once and in order.
pub proof fn late_shipments_are_in_transit_past_their_deadline(s: StorageView, now: u64, id: u64)
    ensures
        s.anomalous_ids(now).contains(id) <==> 1 <= id <= s.shipment_counter && {
            ||| s.shipments.contains_key(id) && s.shipments[id].status == ShipmentStatus::InTransit
                && s.shipments[id].deadline < now
            ||| !s.shipments.contains_key(id) && s.archived.contains_key(id)
                && s.archived[id].status == ShipmentStatus::InTransit && s.archived[id].deadline
                < now
        },
        forall|i: int, j: int|
            0 <= i < j < s.anomalous_ids(now).len() ==> s.anomalous_ids(now)[i]
                < s.anomalous_ids(now)[j],
{
    selection_is_exact(|n: u64| s.anomalous(now, n), s.shipment_counter as nat);
}

/// The inconsistent shipments of the report are exactly those that are stored nowhere, or whose
/// escrow is not what the escrow entry says, each once and in order.
pub proof fn inconsistent_shipments_are_missing_or_mismatched(s: StorageView, id: u64)
    ensures
        s.inconsistent_ids().contains(id) <==> 1 <= id <= s.shipment_counter && {
            let shipment = if s.shipments.contains_key(id) {
                s.shipments[id]
            } else {
                s.archived[id]
            };
            let held = if s.escrows.contains_key(id) {
                s.escrows[id] as int
            } else {
                0
            };
            ||| !s.shipments.contains_key(id) && !s.archived.contains_key(id)
            ||| shipment.escrow_amount != held
        },
        forall|i: int, j: int|
            0 <= i < j < s.inconsistent_ids().len() ==> s.inconsistent_ids()[i]
                < s.inconsistent_ids()[j],
{
    selection_is_exact(|n: u64| s.inconsistent(n), s.shipment_counter as nat);
}

/// The active shipments that are counted are exactly those that are stored and neither delivered
/// nor cancelled, each once.
pub proof fn active_shipments_are_neither_delivered_nor_cancelled(s: StorageView, id: u64)
    ensures
        s.active_ids().contains(id) <==> 1 <= id <= s.shipment_counter && {
            let shipment = if s.shipments.contains_key(id) {
                s.shipments[id]
            } else {
                s.archived[id]
            };
            &&& s.shipments.contains_key(id) || s.archived.contains_key(id)
            &&& shipment.status != ShipmentStatus::Delivered
            &&& shipment.status != ShipmentStatus::Cancelled
        },
        forall|i: int, j: int|
            0 <= i < j < s.active_ids().len() ==> s.active_ids()[i] < s.active_ids()[j],
{
    selection_is_exact(|n: u64| s.active(n), s.shipment_counter as nat);
}

/// The sum of escrow starts at nothing and grows with each shipment by its escrow entry, if it has
/// one.
pub proof fn escrow_adds_up(s: StorageView, count: nat)
    requires
        count < u64::MAX,
    ensures
        s.escrow_sum(0) == 0,
        ({
            let id = (count + 1) as u64;
            s.escrow_sum(count + 1) - s.escrow_sum(count) == if s.escrows.contains_key(id) {
                s.escrows[id] as int
            } else {
                0
            }
        }),
{
}

/// Changing one escrow entry changes the sum by as much; entries beyond do not count.
pub proof fn escrow_sum_follows_the_entries(
    s: StorageView,
    t: StorageView,
    id: u64,
    amount: i128,
    count: nat,
)
    requires
        t.escrows == s.escrows.insert(id, amount),
        count <= u64::MAX,
    ensures
        t.escrow_sum(count) - s.escrow_sum(count) == if 1 <= id <= count {
            amount - if s.escrows.contains_key(id) {
                s.escrows[id] as int
            } else {
                0
            }
        } else {
            0
        },
    decreases count,
{
    if count > 0 {
        escrow_sum_follows_the_entries(s, t, id, amount, (count - 1) as nat);
    }
}

/// The report has a sum exactly where it can be told shipment by shipment.
pub proof fn escrow_sum_fits_step_by_step(s: StorageView)
    ensures
        s.escrow_sum_fits() <==> forall|count: nat|
            count <= s.shipment_counter ==> i128::MIN <= #[trigger] s.escrow_sum(count)
                <= i128::MAX,
{
}

/// Where no entry is negative, the report has a sum exactly where the sum of all entries can be
/// represented.
pub proof fn escrow_sum_fits_where_it_can_be_told(s: StorageView)
    requires
        forall|id: u64| s.escrows.contains_key(id) ==> #[trigger] s.escrows[id] >= 0,
    ensures
        s.escrow_sum_fits() <==> s.escrow_sum(s.shipment_counter as nat) <= i128::MAX,
{
    assert forall|count: nat| count <= s.shipment_counter implies 0 <= #[trigger] s.escrow_sum(
        count,
    ) <= s.escrow_sum(s.shipment_counter as nat) by {
        escrow_sum_rises(s, 0, count);
        escrow_sum_rises(s, count, s.shipment_counter as nat);
    }
}

proof fn escrow_sum_rises(s: StorageView, low: nat, high: nat)
    requires
        low <= high <= u64::MAX,
        forall|id: u64| s.escrows.contains_key(id) ==> #[trigger] s.escrows[id] >= 0,
    ensures
        s.escrow_sum(low) <= s.escrow_sum(high),
    decreases high,
{
    if low < high {
        escrow_sum_rises(s, low, (high - 1) as nat);
    }
}

// The checks of consistency.

/// The place of a violation in a report on one shipment.
pub open spec fn rank(v: ConsistencyViolation) -> int {
    match v {
        ConsistencyViolation::MissingShipment(_) => 0,
        ConsistencyViolation::EscrowMismatch(_) => 1,
        ConsistencyViolation::InvalidFinalization(_) => 2,
        ConsistencyViolation::MilestoneViolation(_) => 3,
        ConsistencyViolation::TimestampAnomaly(_) => 4,
        ConsistencyViolation::DeadlineAnomaly(_) => 5,
        ConsistencyViolation::BatchSenderMismatch(_) => 6,
        ConsistencyViolation::BatchTimestampMismatch(_) => 7,
    }
}

/// The shipment that a violation names.
pub open spec fn subject(v: ConsistencyViolation) -> u64 {
    match v {
        ConsistencyViolation::MissingShipment(id) => id,
        ConsistencyViolation::EscrowMismatch(id) => id,
        ConsistencyViolation::InvalidFinalization(id) => id,
        ConsistencyViolation::MilestoneViolation(id) => id,
        ConsistencyViolation::TimestampAnomaly(id) => id,
        ConsistencyViolation::DeadlineAnomaly(id) => id,
        ConsistencyViolation::BatchSenderMismatch(id) => id,
        ConsistencyViolation::BatchTimestampMismatch(id) => id,
    }
}

/// Whether none of the scheduled milestones has this name.
pub open spec fn off_schedule(scheduled: Seq<(Seq<char>, u32)>, name: Seq<char>) -> bool {
    forall|k: int| 0 <= k < scheduled.len() ==> (#[trigger] scheduled[k]).0 != name
}

/// Whether a milestone has been paid that none of the scheduled ones has the name of.
pub open spec fn paid_off_schedule(shipment: ShipmentView) -> bool {
    exists|i: int|
        0 <= i < shipment.paid_milestones.len() && off_schedule(
            shipment.payment_milestones,
            #[trigger] shipment.paid_milestones[i],
        )
}

/// Whether one violation stands before another in a report on all shipments.
pub open spec fn comes_before(a: ConsistencyViolation, b: ConsistencyViolation) -> bool {
    subject(a) < subject(b) || (subject(a) == subject(b) && rank(a) < rank(b))
}

/// The check of a shipment reports that it is missing if and only if it is stored nowhere.
/// Otherwise it reports an escrow that is not what the escrow entry says, a mark as final without
/// an end or with escrow left, a paid milestone that was not scheduled, an update before the
/// creation, and a deadline not after it: each if and only if it is so, once, in that order.
pub proof fn checks_report_what_is_stored(s: StorageView, id: u64, v: ConsistencyViolation)
    ensures
        s.violations(id).contains(v) <==> {
            let stored = s.shipments.contains_key(id) || s.archived.contains_key(id);
            let shipment = if s.shipments.contains_key(id) {
                s.shipments[id]
            } else {
                s.archived[id]
            };
            let held = if s.escrows.contains_key(id) {
                s.escrows[id] as int
            } else {
                0
            };
            ||| v == ConsistencyViolation::MissingShipment(id) && !stored
            ||| v == ConsistencyViolation::EscrowMismatch(id) && stored && shipment.escrow_amount
                != held
            ||| v == ConsistencyViolation::InvalidFinalization(id) && stored && shipment.finalized
                && !((shipment.status == ShipmentStatus::Delivered || shipment.status
                == ShipmentStatus::Cancelled) && shipment.escrow_amount == 0)
            ||| v == ConsistencyViolation::MilestoneViolation(id) && stored
                && paid_off_schedule(shipment)
            ||| v == ConsistencyViolation::TimestampAnomaly(id) && stored && shipment.updated_at
                < shipment.created_at
            ||| v == ConsistencyViolation::DeadlineAnomaly(id) && stored && shipment.deadline
                <= shipment.created_at
        },
        forall|i: int, j: int|
            0 <= i < j < s.violations(id).len() ==> rank(s.violations(id)[i]) < rank(
                s.violations(id)[j],
            ),
        forall|i: int|
            0 <= i < s.violations(id).len() ==> subject(#[trigger] s.violations(id)[i]) == id,
{
    violations_are_what_is_wrong(s, id, v);
    match s.record(id) {
        None => {},
        Some(shipment) => {
            if !shipment.paid_as_scheduled() {
                let i = choose|i: int|
                    0 <= i < shipment.paid_milestones.len() && !shipment.schedules(
                        #[trigger] shipment.paid_milestones[i],
                    );
                assert(off_schedule(shipment.payment_milestones, shipment.paid_milestones[i]));
            } else {
                assert forall|i: int| 0 <= i < shipment.paid_milestones.len() implies !off_schedule(
                    shipment.payment_milestones,
                    #[trigger] shipment.paid_milestones[i],
                ) by {
                    assert(shipment.schedules(shipment.paid_milestones[i]));
                    let k = choose|k: int|
                        0 <= k < shipment.payment_milestones.len() && (
                        #[trigger] shipment.payment_milestones[k]).0 == shipment.paid_milestones[i];
                    assert(shipment.payment_milestones[k].0 == shipment.paid_milestones[i]);
                }
            }
        },
    }
}

/// The report on all shipments has a violation if and only if the check of one of them has it. It
/// takes the shipments in the order of their numbers, and reports nothing twice.
pub proof fn the_full_report_covers_every_shipment(s: StorageView, count: nat)
    requires
        count <= u64::MAX,
    ensures
        forall|v: ConsistencyViolation| #[trigger]
            s.violations_up_to(count).contains(v) <==> exists|id: u64|
                1 <= id <= count && #[trigger] s.violations(id).contains(v),
        forall|i: int, j: int|
            0 <= i < j < s.violations_up_to(count).len() ==> comes_before(
                s.violations_up_to(count)[i],
                s.violations_up_to(count)[j],
            ),
        forall|i: int|
            0 <= i < s.violations_up_to(count).len() ==> 1 <= subject(
                #[trigger] s.violations_up_to(count)[i],
            ) <= count,
    decreases count,
{
    if count > 0 {
        let rest = s.violations_up_to((count - 1) as nat);
        let last = count as u64;
        let new = s.violations(last);
        let all = s.violations_up_to(count);
        the_full_report_covers_every_shipment(s, (count - 1) as nat);
        checks_report_what_is_stored(s, last, ConsistencyViolation::MissingShipment(last));
        assert(all == rest + new);
        assert forall|v: ConsistencyViolation| #[trigger] all.contains(v) <==> exists|id: u64|
            1 <= id <= count && #[trigger] s.violations(id).contains(v) by {
            contained_in_either(rest, new, v);
            if rest.contains(v) {
                let id = choose|id: u64|
                    1 <= id <= count - 1 && #[trigger] s.violations(id).contains(v);
                assert(1 <= id <= count && s.violations(id).contains(v));
            }
            if new.contains(v) {
                assert(1 <= last <= count && s.violations(last).contains(v));
            }
            if exists|id: u64| 1 <= id <= count && #[trigger] s.violations(id).contains(v) {
                let id = choose|id: u64|
                    1 <= id <= count && #[trigger] s.violations(id).contains(v);
                if id < count {
                    assert(1 <= id <= count - 1 && s.violations(id).contains(v));
                }
            }
        }
        assert forall|i: int| 0 <= i < all.len() implies 1 <= subject(#[trigger] all[i])
            <= count by {
            if i < rest.len() {
                assert(all[i] == rest[i]);
            } else {
                assert(all[i] == new[i - rest.len()]);
            }
        }
        assert forall|i: int, j: int| 0 <= i < j < all.len() implies comes_before(
            all[i],
            all[j],
        ) by {
            if j < rest.len() {
                assert(all[i] == rest[i] && all[j] == rest[j]);
            } else if i < rest.len() {
                assert(all[i] == rest[i] && all[j] == new[j - rest.len()]);
                assert(subject(rest[i]) <= count - 1);
            } else {
                assert(all[i] == new[i - rest.len()] && all[j] == new[j - rest.len()]);
            }
        }
    }
}

/// The administrator's report covers every shipment that was ever created.
pub proof fn the_admin_sees_every_violation(s: StorageView, v: ConsistencyViolation)
    ensures
        s.all_violations().contains(v) <==> exists|id: u64|
            1 <= id <= s.shipment_counter && #[trigger] s.violations(id).contains(v),
        forall|i: int, j: int|
            0 <= i < j < s.all_violations().len() ==> comes_before(
                s.all_violations()[i],
                s.all_violations()[j],
            ),
{
    the_full_report_covers_every_shipment(s, s.shipment_counter as nat);
}

/// A batch is held against the first of its shipments that is stored.
pub proof fn batches_are_held_against_the_first_that_is_stored(
    s: StorageView,
    ids: Seq<u64>,
    i: int,
)
    requires
        0 <= i < ids.len(),
        s.shipments.contains_key(ids[i]) || s.archived.contains_key(ids[i]),
        forall|j: int|
            0 <= j < i ==> !s.shipments.contains_key(#[trigger] ids[j]) && !s.archived.contains_key(
                ids[j],
            ),
    ensures
        s.reference(ids) == Some(
            if s.shipments.contains_key(ids[i]) {
                s.shipments[ids[i]]
            } else {
                s.archived[ids[i]]
            },
        ),
    decreases ids.len(),
{
    let rest = ids.drop_last();
    if i < rest.len() {
        assert(rest[i] == ids[i]);
        assert forall|j: int| 0 <= j < i implies !s.shipments.contains_key(#[trigger] rest[j])
            && !s.archived.contains_key(rest[j]) by {
            assert(rest[j] == ids[j]);
        }
        batches_are_held_against_the_first_that_is_stored(s, rest, i);
    } else {
        assert forall|j: int| 0 <= j < rest.len() implies !s.shipments.contains_key(
            #[trigger] rest[j],
        ) && !s.archived.contains_key(rest[j]) by {
            assert(rest[j] == ids[j]);
        }
        batches_without_stored_shipments_have_no_first(s, rest);
    }
}

/// A batch none of whose shipments is stored is held against none.
pub proof fn batches_without_stored_shipments_have_no_first(s: StorageView, ids: Seq<u64>)
    requires
        forall|j: int|
            0 <= j < ids.len() ==> !s.shipments.contains_key(#[trigger] ids[j])
                && !s.archived.contains_key(ids[j]),
    ensures
        s.reference(ids) is None,
    decreases ids.len(),
{
    if ids.len() > 0 {
        let rest = ids.drop_last();
        assert forall|j: int| 0 <= j < rest.len() implies !s.shipments.contains_key(
            #[trigger] rest[j],
        ) && !s.archived.contains_key(rest[j]) by {
            assert(rest[j] == ids[j]);
        }
        batches_without_stored_shipments_have_no_first(s, rest);
        assert(!s.shipments.contains_key(ids[ids.len() - 1]));
    }
}

/// The report on one shipment of a batch has what the check of it has, and after that whether it
/// differs from the first one in the sender or in the time of creation.
pub proof fn batch_checks_compare_with_the_first(
    s: StorageView,
    first: ShipmentView,
    id: u64,
    v: ConsistencyViolation,
)
    ensures
        s.batch_violations(Some(first), seq![id]).contains(v) <==> {
            let stored = s.shipments.contains_key(id) || s.archived.contains_key(id);
            let shipment = if s.shipments.contains_key(id) {
                s.shipments[id]
            } else {
                s.archived[id]
            };
            ||| s.violations(id).contains(v)
            ||| v == ConsistencyViolation::BatchSenderMismatch(id) && stored && shipment.sender
                != first.sender
            ||| v == ConsistencyViolation::BatchTimestampMismatch(id) && stored
                && shipment.created_at != first.created_at
        },
        forall|i: int, j: int|
            0 <= i < j < s.batch_violations(Some(first), seq![id]).len() ==> rank(
                s.batch_violations(Some(first), seq![id])[i],
            ) < rank(s.batch_violations(Some(first), seq![id])[j]),
        s.batch_violations(None, seq![id]) == s.violations(id),
{
    let alone = s.violations(id);
    let apart = s.mismatches(Some(first), id);
    assert(seq![id].drop_last() =~= Seq::<u64>::empty());
    assert(seq![id].last() == id);
    assert(s.batch_violations(Some(first), seq![id].drop_last()) =~= Seq::empty());
    assert(s.batch_violations(None, seq![id].drop_last()) =~= Seq::empty());
    assert(s.batch_violations(Some(first), seq![id]) =~= alone + apart);
    assert(s.batch_violations(None, seq![id]) =~= alone);
    contained_in_either(alone, apart, v);
    checks_report_what_is_stored(s, id, v);
    if let Some(shipment) = s.record(id) {
        contained_in_either(
            reported(
                shipment.sender != first.sender,
                ConsistencyViolation::BatchSenderMismatch(id),
            ),
            reported(
                shipment.created_at != first.created_at,
                ConsistencyViolation::BatchTimestampMismatch(id),
            ),
            v,
        );
        reported_is_contained(
            shipment.sender != first.sender,
            ConsistencyViolation::BatchSenderMismatch(id),
            v,
        );
        reported_is_contained(
            shipment.created_at != first.created_at,
            ConsistencyViolation::BatchTimestampMismatch(id),
            v,
        );
    }
    assert forall|i: int| 0 <= i < alone.len() implies rank(#[trigger] alone[i]) < 6 by {}
}

/// The report on a batch is the reports on its shipments, one after the other: nothing ends it
/// early and nothing is left out.
pub proof fn batch_reports_join(
    s: StorageView,
    reference: Option<ShipmentView>,
    ids: Seq<u64>,
    more: Seq<u64>,
)
    ensures
        s.batch_violations(reference, Seq::empty()).len() == 0,
        s.batch_violations(reference, ids + more) == s.batch_violations(reference, ids)
            + s.batch_violations(reference, more),
    decreases more.len(),
{
    if more.len() == 0 {
        assert(ids + more =~= ids);
        assert(s.batch_violations(reference, more) =~= Seq::empty());
    } else {
        let rest = more.drop_last();
        assert((ids + more).drop_last() =~= ids + rest);
        assert((ids + more).last() == more.last());
        batch_reports_join(s, reference, ids, rest);
        let one = s.violations(more.last()) + s.mismatches(reference, more.last());
        assert(s.batch_violations(reference, ids + more) =~= s.batch_violations(
            reference,
            ids + rest,
        ) + one);
        assert(s.batch_violations(reference, more) =~= s.batch_violations(reference, rest) + one);
    }
}

} // verus!
