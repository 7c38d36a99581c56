//! Laws of the consistency checks and the health report.

use vstd::prelude::*;

use crate::calls::{histories_keep_health, in_order, Call, Moment};
use crate::consistency::{reported, ConsistencyViolation};
use crate::diagnostics::ids_where;
use crate::storage::StorageView;

verus! {

/// A shipment that is as it should be gives the checks nothing to report.
pub proof fn sound_shipments_have_no_violations(s: StorageView, now: u64, id: u64)
    requires
        s.sound_at(now, id),
        1 <= id <= s.shipment_counter,
    ensures
        s.violations(id) == Seq::<ConsistencyViolation>::empty(),
        !s.inconsistent(id),
{
}

/// The checks report nothing at all if and only if they report nothing for any shipment.
pub proof fn no_violations_means_none_anywhere(s: StorageView, count: nat)
    requires
        count <= s.shipment_counter,
    ensures
        s.violations_up_to(count).len() == 0 <==> forall|id: u64|
            1 <= id <= count ==> (#[trigger] s.violations(id)).len() == 0,
    decreases count,
{
    if count > 0 {
        no_violations_means_none_anywhere(s, (count - 1) as nat);
        let last = count as u64;
        if s.violations_up_to(count).len() == 0 {
            assert(s.violations(last).len() == 0);
            assert forall|id: u64| 1 <= id <= count implies (#[trigger] s.violations(id)).len()
                == 0 by {
                if id < count {
                    assert(1 <= id <= count - 1);
                }
            }
        }
    }
}

/// What the checks report is exactly what is wrong with a shipment, each thing under its own
/// name.
pub proof fn violations_are_what_is_wrong(s: StorageView, id: u64, violation: ConsistencyViolation)
    ensures
        s.violations(id).contains(violation) <==> match (s.record(id), violation) {
            (None, ConsistencyViolation::MissingShipment(n)) => n == id,
            (Some(shipment), ConsistencyViolation::EscrowMismatch(n)) => n == id
                && shipment.escrow_amount != s.escrow(id),
            (Some(shipment), ConsistencyViolation::InvalidFinalization(n)) => n == id
                && !shipment.finalization_valid(),
            (Some(shipment), ConsistencyViolation::MilestoneViolation(n)) => n == id
                && !shipment.paid_as_scheduled(),
            (Some(shipment), ConsistencyViolation::TimestampAnomaly(n)) => n == id
                && shipment.updated_at < shipment.created_at,
            (Some(shipment), ConsistencyViolation::DeadlineAnomaly(n)) => n == id
                && shipment.deadline <= shipment.created_at,
            _ => false,
        },
{
    match s.record(id) {
        None => {
            assert(s.violations(id)[0] == ConsistencyViolation::MissingShipment(id));
        },
        Some(shipment) => {
            let a = reported(
                shipment.escrow_amount != s.escrow(id),
                ConsistencyViolation::EscrowMismatch(id),
            );
            let b = reported(
                !shipment.finalization_valid(),
                ConsistencyViolation::InvalidFinalization(id),
            );
            let c = reported(
                !shipment.paid_as_scheduled(),
                ConsistencyViolation::MilestoneViolation(id),
            );
            let d = reported(
                shipment.updated_at < shipment.created_at,
                ConsistencyViolation::TimestampAnomaly(id),
            );
            let e = reported(
                shipment.deadline <= shipment.created_at,
                ConsistencyViolation::DeadlineAnomaly(id),
            );
            contained_in_either(a, b, violation);
            contained_in_either(a + b, c, violation);
            contained_in_either(a + b + c, d, violation);
            contained_in_either(a + b + c + d, e, violation);
            reported_is_contained(
                shipment.escrow_amount != s.escrow(id),
                ConsistencyViolation::EscrowMismatch(id),
                violation,
            );
            reported_is_contained(
                !shipment.finalization_valid(),
                ConsistencyViolation::InvalidFinalization(id),
                violation,
            );
            reported_is_contained(
                !shipment.paid_as_scheduled(),
                ConsistencyViolation::MilestoneViolation(id),
                violation,
            );
            reported_is_contained(
                shipment.updated_at < shipment.created_at,
                ConsistencyViolation::TimestampAnomaly(id),
                violation,
            );
            reported_is_contained(
                shipment.deadline <= shipment.created_at,
                ConsistencyViolation::DeadlineAnomaly(id),
                violation,
            );
        },
    }
}

pub proof fn contained_in_either<T>(a: Seq<T>, b: Seq<T>, x: T)
    ensures
        (a + b).contains(x) <==> a.contains(x) || b.contains(x),
{
    if a.contains(x) {
        let i = choose|i: int| 0 <= i < a.len() && a[i] == x;
        assert((a + b)[i] == x);
    }
    if b.contains(x) {
        let i = choose|i: int| 0 <= i < b.len() && b[i] == x;
        assert((a + b)[a.len() + i] == x);
    }
}

pub proof fn reported_is_contained(
    broken: bool,
    reported_one: ConsistencyViolation,
    x: ConsistencyViolation,
)
    ensures
        reported(broken, reported_one).contains(x) <==> broken && x == reported_one,
{
    if broken {
        assert(reported(broken, reported_one)[0] == reported_one);
    }
}

/// The numbers in a selection are those from 1 on for which the choice holds, and no others.
proof fn selection_holds_the_chosen(chosen: spec_fn(u64) -> bool, count: nat, id: u64)
    requires
        count <= u64::MAX,
    ensures
        ids_where(chosen, count).contains(id) <==> 1 <= id <= count && chosen(id),
    decreases count,
{
    if count > 0 {
        let rest = ids_where(chosen, (count - 1) as nat);
        let last = count as u64;
        selection_holds_the_chosen(chosen, (count - 1) as nat, id);
        if chosen(last) {
            assert(rest.push(last) == rest + seq![last]);
            contained_in_either(rest, seq![last], id);
            assert(seq![last][0] == last);
        }
    }
}

/// The health report lists exactly the shipments in transit past their deadline, and exactly
/// those that are missing or whose escrow entry is wrong.
pub proof fn health_lists_are_exact(s: StorageView, now: u64, id: u64)
    ensures
        s.active_ids().contains(id) <==> 1 <= id <= s.shipment_counter && s.active(id),
        s.anomalous_ids(now).contains(id) <==> 1 <= id <= s.shipment_counter && s.anomalous(now, id),
        s.inconsistent_ids().contains(id) <==> 1 <= id <= s.shipment_counter && s.inconsistent(id),
{
    selection_holds_the_chosen(|n: u64| s.active(n), s.shipment_counter as nat, id);
    selection_holds_the_chosen(|n: u64| s.anomalous(now, n), s.shipment_counter as nat, id);
    selection_holds_the_chosen(|n: u64| s.inconsistent(n), s.shipment_counter as nat, id);
}

/// Whatever calls have been made of a new contract, the checks find nothing wrong, no shipment
/// is stored in two places, and each that was ever created is stored in one.
pub proof fn histories_stay_consistent(history: Seq<(Moment, Call)>, now: u64)
    requires
        in_order(history, now),
    ensures
        ({
            let s = StorageView::blank().after_all(history);
            &&& s.all_violations() == Seq::<ConsistencyViolation>::empty()
            &&& s.inconsistent_ids() == Seq::<u64>::empty()
            &&& forall|id: u64|
                #![trigger s.diagnosis(id)]
                if 1 <= id <= s.shipment_counter {
                    s.diagnosis(id).state is ActivePersistent
                        || s.diagnosis(id).state is ArchivedExpected
                } else {
                    s.diagnosis(id).state is Missing
                }
        }),
{
    let s = StorageView::blank().after_all(history);
    histories_keep_health(history, now);
    no_violations_means_none_anywhere(s, s.shipment_counter as nat);
    assert forall|id: u64| 1 <= id <= s.shipment_counter implies (#[trigger] s.violations(id)).len()
        == 0 by {
        assert(s.sound_at(now, id));
        sound_shipments_have_no_violations(s, now, id);
    }
    assert(s.all_violations().len() == 0);
    if s.inconsistent_ids().len() > 0 {
        let id = s.inconsistent_ids()[0];
        assert(s.inconsistent_ids().contains(id));
        health_lists_are_exact(s, now, id);
        assert(s.sound_at(now, id));
        sound_shipments_have_no_violations(s, now, id);
    }
    assert forall|id: u64|
        #![trigger s.diagnosis(id)]
        if 1 <= id <= s.shipment_counter {
            s.diagnosis(id).state is ActivePersistent || s.diagnosis(id).state is ArchivedExpected
        } else {
            s.diagnosis(id).state is Missing
        } by {
        assert(s.sound_at(now, id));
    }
}

/// The classification of where a shipment is stored says what the two flags say.
pub proof fn presence_matches_the_flags(s: StorageView, id: u64)
    ensures
        s.diagnosis(id).state is ActivePersistent <==> s.diagnosis(id).persistent_shipment_present
            && !s.diagnosis(id).archived_shipment_present,
        s.diagnosis(id).state is ArchivedExpected <==> !s.diagnosis(id).persistent_shipment_present
            && s.diagnosis(id).archived_shipment_present,
        s.diagnosis(id).state is Missing <==> !s.diagnosis(id).persistent_shipment_present
            && !s.diagnosis(id).archived_shipment_present,
        s.diagnosis(id).state is InconsistentDualPresence <==> s.diagnosis(
            id,
        ).persistent_shipment_present && s.diagnosis(id).archived_shipment_present,
{
}

} // verus!
