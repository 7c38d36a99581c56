//! Laws of the life of a shipment, from its creation to its end.

use vstd::prelude::*;

use crate::calls::{batches_only_add_shipments, calls_keep_health, Call, Moment};
use crate::consistency::ConsistencyViolation;
use crate::diagnostics::ids_where;
use crate::env::Address;
use crate::laws::payments::calls_touch_one_shipment;
use crate::laws::reports::sound_shipments_have_no_violations;
use crate::model::PendingView;
use crate::storage::StorageView;
use crate::types::{Event, NavinError, ShipmentInputView, ShipmentView};

verus! {

/// What a batch creates: consecutive numbers, one for each entry, each entry under its own
/// number, and whatever there was before under the others.
pub proof fn batches_get_consecutive_numbers(
    s: StorageView,
    now: u64,
    company: Address,
    inputs: Seq<ShipmentInputView>,
)
    requires
        s.shipment_counter + inputs.len() <= u64::MAX,
    ensures
        ({
            let t = s.batch_created(now, company, inputs);
            &&& t.shipment_counter == s.shipment_counter + inputs.len()
            &&& s.next_ids(inputs.len()).len() == inputs.len()
            &&& forall|i: int|
                0 <= i < inputs.len() ==> {
                    &&& (#[trigger] s.next_ids(inputs.len())[i]) == s.shipment_counter + 1 + i
                    &&& t.shipments.contains_key(s.next_ids(inputs.len())[i])
                    &&& t.shipments[s.next_ids(inputs.len())[i]] == ShipmentView::fresh(
                        s.next_ids(inputs.len())[i],
                        now,
                        company,
                        inputs[i],
                    )
                }
            &&& forall|id: u64|
                #![trigger t.shipments.contains_key(id)]
                #![trigger t.shipments[id]]
                !(s.shipment_counter < id <= t.shipment_counter) ==> {
                    &&& t.shipments.contains_key(id) == s.shipments.contains_key(id)
                    &&& t.shipments[id] == s.shipments[id]
                }
        }),
    decreases inputs.len(),
{
    if inputs.len() > 0 {
        let rest = inputs.drop_last();
        batches_get_consecutive_numbers(s, now, company, rest);
        let u = s.batch_created(now, company, rest);
        let t = s.batch_created(now, company, inputs);
        assert forall|i: int| 0 <= i < inputs.len() implies {
            &&& (#[trigger] s.next_ids(inputs.len())[i]) == s.shipment_counter + 1 + i
            &&& t.shipments.contains_key(s.next_ids(inputs.len())[i])
            &&& t.shipments[s.next_ids(inputs.len())[i]] == ShipmentView::fresh(
                s.next_ids(inputs.len())[i],
                now,
                company,
                inputs[i],
            )
        } by {
            let id = (s.shipment_counter + 1 + i) as u64;
            if i < rest.len() {
                assert(s.next_ids(rest.len())[i] == id);
                assert(rest[i] == inputs[i]);
                assert(id != u.next_id());
            } else {
                assert(id == u.next_id());
            }
        }
    }
}

/// The shipments of a new batch agree with each other and with the checks.
pub proof fn new_batches_are_consistent(
    s: StorageView,
    at: Moment,
    company: Address,
    inputs: Seq<ShipmentInputView>,
)
    requires
        s.healthy(at.now),
        s.refusal(at, Call::CreateShipmentsBatch { company, inputs }) is None,
    ensures
        ({
            let t = s.after(at, Call::CreateShipmentsBatch { company, inputs });
            let ids = s.next_ids(inputs.len());
            t.batch_violations(t.reference(ids), ids) == Seq::<ConsistencyViolation>::empty()
        }),
{
    let t = s.after(at, Call::CreateShipmentsBatch { company, inputs });
    let ids = s.next_ids(inputs.len());
    calls_keep_health(s, at, Call::CreateShipmentsBatch { company, inputs });
    batches_get_consecutive_numbers(s, at.now, company, inputs);
    assert forall|i: int| 0 <= i < ids.len() implies {
        &&& 1 <= (#[trigger] ids[i]) <= t.shipment_counter
        &&& t.record(ids[i]) == Some(ShipmentView::fresh(ids[i], at.now, company, inputs[i]))
    } by {}
    reference_is_among(t, ids);
    agreeing_batches_are_consistent(t, at.now, company, t.reference(ids), ids);
}

/// The shipment that a batch is held against is one of its own.
proof fn reference_is_among(t: StorageView, ids: Seq<u64>)
    ensures
        t.reference(ids) is Some ==> exists|i: int|
            0 <= i < ids.len() && t.reference(ids) == t.record(#[trigger] ids[i]),
    decreases ids.len(),
{
    if ids.len() > 0 {
        let rest = ids.drop_last();
        reference_is_among(t, rest);
        if t.reference(rest) is Some {
            let i = choose|i: int|
                0 <= i < rest.len() && t.reference(rest) == t.record(#[trigger] rest[i]);
            assert(rest[i] == ids[i]);
        } else {
            assert(t.reference(ids) == t.record(ids[ids.len() - 1]));
        }
    }
}

/// Sound shipments with the same sender and time of creation make a consistent batch.
proof fn agreeing_batches_are_consistent(
    t: StorageView,
    now: u64,
    company: Address,
    reference: Option<ShipmentView>,
    ids: Seq<u64>,
)
    requires
        t.healthy(now),
        reference matches Some(first) ==> first.sender == company && first.created_at == now,
        forall|i: int|
            0 <= i < ids.len() ==> {
                &&& 1 <= (#[trigger] ids[i]) <= t.shipment_counter
                &&& t.record(ids[i]) matches Some(shipment)
                &&& shipment.sender == company
                &&& shipment.created_at == now
            },
    ensures
        t.batch_violations(reference, ids) == Seq::<ConsistencyViolation>::empty(),
    decreases ids.len(),
{
    if ids.len() > 0 {
        let rest = ids.drop_last();
        assert forall|i: int| 0 <= i < rest.len() implies {
            &&& 1 <= (#[trigger] rest[i]) <= t.shipment_counter
            &&& t.record(rest[i]) matches Some(shipment)
            &&& shipment.sender == company
            &&& shipment.created_at == now
        } by {
            assert(rest[i] == ids[i]);
        }
        agreeing_batches_are_consistent(t, now, company, reference, rest);
        let last = ids[ids.len() - 1];
        assert(t.sound_at(now, last));
        sound_shipments_have_no_violations(t, now, last);
        assert(t.mismatches(reference, last) =~= Seq::empty());
    }
}

/// A call that is about no shipment leaves all of them alone.
pub proof fn calls_about_none_touch_none(s: StorageView, at: Moment, call: Call, id: u64)
    requires
        call.about() is None,
        !(call is CreateShipment),
        !(call is CreateShipmentsBatch),
    ensures
        s.after(at, call).record(id) == s.record(id),
        s.after(at, call).escrow(id) == s.escrow(id),
        s.after(at, call).shipment_counter == s.shipment_counter,
{
}

/// What a call leaves of the shipment that it is about.
proof fn named_shipment_stays(s: StorageView, at: Moment, call: Call, id: u64)
    requires
        s.healthy(at.now),
        call.about() == Some(id),
        s.refusal(at, call) is None,
    ensures
        1 <= id <= s.shipment_counter,
        s.record(id) is Some,
        s.after(at, call).record(id) matches Some(shipment) && stays(
            s.record(id).unwrap(),
            shipment,
        ),
        change_of_active(call) == 0 ==> s.after(at, call).active(id) == s.active(id),
        change_of_active(call) != 0 ==> change_of_active(call) == -1 && s.active(id) && !s.after(
            at,
            call,
        ).active(id),
{
    assert(s.sound_at(at.now, id));
    let t = s.after(at, call);
    let before = s.shipments[id];
    match call {
        Call::ArchiveShipment { .. } => {
            assert(t.record(id) == Some(before));
        },
        _ => {
            assert(t.record(id) == Some(t.shipments[id]));
        },
    }
}

/// What no call changes about a shipment; its status is one of these things once it is final.
pub open spec fn stays(before: ShipmentView, after: ShipmentView) -> bool {
    &&& after.id == before.id
    &&& after.sender == before.sender
    &&& after.receiver == before.receiver
    &&& after.created_at == before.created_at
    &&& after.deadline == before.deadline
    &&& after.payment_milestones == before.payment_milestones
    &&& before.status.terminal() ==> after.status == before.status
}

/// No call makes a shipment vanish, changes what it was created with, or changes its status once
/// that is final.
pub proof fn shipments_stay(s: StorageView, at: Moment, call: Call, id: u64)
    requires
        s.healthy(at.now),
        s.record(id) is Some,
    ensures
        s.after(at, call).record(id) matches Some(shipment) && stays(
            s.record(id).unwrap(),
            shipment,
        ),
{
    assert(s.sound_at(at.now, id));
    if s.refusal(at, call) is None {
        match call {
            Call::CreateShipment { .. } => {},
            Call::CreateShipmentsBatch { company, inputs } => {
                batches_only_add_shipments(s, at.now, company, inputs);
                batches_get_consecutive_numbers(s, at.now, company, inputs);
            },
            _ => {
                if call.about() == Some(id) {
                    named_shipment_stays(s, at, call, id);
                } else if call.about() is Some {
                    calls_touch_one_shipment(s, at, call, id);
                } else {
                    calls_about_none_touch_none(s, at, call, id);
                }
            },
        }
    }
}

/// A payment that is completed keeps the status of a shipment that has come to its end meanwhile.
pub proof fn payments_respect_ends(s: StorageView, now: u64, pending: PendingView)
    requires
        s.settle_refusal(pending, true) is None,
        s.shipments[pending.record.shipment_id].status.terminal(),
    ensures
        s.settled_shipment(now, pending).status == s.shipments[pending.record.shipment_id].status,
{
}

/// By how much a call that is accepted changes the number of shipments not yet at their end.
pub open spec fn change_of_active(call: Call) -> int {
    match call {
        Call::CreateShipment { .. } => 1,
        Call::CreateShipmentsBatch { inputs, .. } => inputs.len() as int,
        Call::UpdateStatus { status, .. } => if status.terminal() {
            -1
        } else {
            0
        },
        Call::CancelShipment { .. } => -1,
        Call::ConfirmDelivery { .. } => -1,
        Call::ForceCancelShipment { .. } => -1,
        _ => 0,
    }
}

/// Two choices that agree select the same.
proof fn agreeing_choices_select_the_same(
    p: spec_fn(u64) -> bool, q: spec_fn(u64) -> bool, count: nat,
)
    requires
        count <= u64::MAX,
        forall|id: u64| 1 <= id <= count ==> #[trigger] p(id) == q(id),
    ensures
        ids_where(p, count) == ids_where(q, count),
    decreases count,
{
    if count > 0 {
        agreeing_choices_select_the_same(p, q, (count - 1) as nat);
        assert(p(count as u64) == q(count as u64));
    }
}

/// Dropping one number from a choice makes the selection shorter by one.
proof fn dropping_one_selects_one_less(
    p: spec_fn(u64) -> bool,
    q: spec_fn(u64) -> bool,
    count: nat,
    dropped: u64,
)
    requires
        count <= u64::MAX,
        1 <= dropped <= count,
        p(dropped),
        !q(dropped),
        forall|id: u64| 1 <= id <= count && id != dropped ==> #[trigger] p(id) == q(id),
    ensures
        ids_where(q, count).len() == ids_where(p, count).len() - 1,
    decreases count,
{
    let rest = (count - 1) as nat;
    if dropped == count {
        agreeing_choices_select_the_same(p, q, rest);
    } else {
        dropping_one_selects_one_less(p, q, rest, dropped);
        assert(p(count as u64) == q(count as u64));
    }
}

/// Choosing what follows too makes the selection longer by as much.
proof fn adding_the_next_selects_more(
    p: spec_fn(u64) -> bool,
    q: spec_fn(u64) -> bool,
    count: nat,
    more: nat,
)
    requires
        count + more <= u64::MAX,
        forall|id: u64| 1 <= id <= count ==> #[trigger] p(id) == q(id),
        forall|id: u64| count < id <= count + more ==> #[trigger] q(id),
    ensures
        ids_where(q, count + more).len() == ids_where(p, count).len() + more,
    decreases more,
{
    if more == 0 {
        agreeing_choices_select_the_same(p, q, count);
    } else {
        adding_the_next_selects_more(p, q, count, (more - 1) as nat);
        assert(q((count + more) as u64));
    }
}

/// The number of shipments not yet at their end rises by one with each that is created, falls
/// by one with each that comes to its end, and stays the same otherwise.
pub proof fn active_count_follows_the_calls(s: StorageView, at: Moment, call: Call)
    requires
        s.healthy(at.now),
    ensures
        s.after(at, call).active_ids().len() == s.active_ids().len() + if s.refusal(at, call) is None {
            change_of_active(call)
        } else {
            0
        },
{
    let t = s.after(at, call);
    let p = |id: u64| s.active(id);
    let q = |id: u64| t.active(id);
    let count = s.shipment_counter as nat;
    if s.refusal(at, call) is None {
        match call {
            Call::CreateShipment { .. } => {
                assert forall|id: u64| 1 <= id <= count implies #[trigger] p(id) == q(id) by {
                    assert(s.sound_at(at.now, id));
                }
                adding_the_next_selects_more(p, q, count, 1);
            },
            Call::CreateShipmentsBatch { company, inputs } => {
                batches_only_add_shipments(s, at.now, company, inputs);
                batches_get_consecutive_numbers(s, at.now, company, inputs);
                assert forall|id: u64| 1 <= id <= count implies #[trigger] p(id) == q(id) by {
                    assert(s.sound_at(at.now, id));
                    assert(t.shipments.contains_key(id) == s.shipments.contains_key(id));
                }
                assert forall|id: u64| count < id <= count + inputs.len() implies #[trigger] q(
                    id,
                ) by {
                    let i = id - count - 1;
                    assert(s.next_ids(inputs.len())[i] == id);
                }
                adding_the_next_selects_more(p, q, count, inputs.len());
            },
            _ => {
                assert forall|id: u64|
                    1 <= id <= count && call.about() != Some(id) implies #[trigger] p(id) == q(
                    id,
                ) by {
                    if call.about() is Some {
                        calls_touch_one_shipment(s, at, call, id);
                    } else {
                        calls_about_none_touch_none(s, at, call, id);
                    }
                }
                match call.about() {
                    None => {
                        calls_about_none_touch_none(s, at, call, 0);
                        agreeing_choices_select_the_same(p, q, count);
                    },
                    Some(named) => {
                        named_shipment_stays(s, at, call, named);
                        calls_touch_one_shipment(s, at, call, 0);
                        if change_of_active(call) == 0 {
                            assert(p(named) == q(named));
                            agreeing_choices_select_the_same(p, q, count);
                        } else {
                            dropping_one_selects_one_less(p, q, count, named);
                        }
                    },
                }
            },
        }
    }
}

/// A hand-off that is accepted makes the new carrier the shipment's, announces both carriers and
/// the shipment, and leaves everything else about the shipment but its data and the time.
pub proof fn handoffs_are_announced(
    s: StorageView,
    at: Moment,
    caller: Address,
    to: Address,
    id: u64,
    data_hash: [u8; 32],
)
    requires
        s.healthy(at.now),
        s.refusal(at, Call::HandoffShipment { caller, to, id, data_hash }) is None,
    ensures
        ({
            let t = s.after(at, Call::HandoffShipment { caller, to, id, data_hash });
            &&& t.events == s.events.push(
                (Event::CarrierHandoffCompleted {
                    from_carrier: caller,
                    to_carrier: to,
                    shipment_id: id,
                }),
            )
            &&& t.record(id) == Some(
                (ShipmentView { carrier: to, data_hash, updated_at: at.now, ..s.shipments[id] }),
            )
        }),
{
    assert(s.sound_at(at.now, id));
}

/// After a carrier has updated a status, a further update that comes too soon is refused; where
/// nothing else stands against it, the reason is that it comes too soon.
pub proof fn updates_keep_their_distance(
    s: StorageView,
    at: Moment,
    later: Moment,
    id: u64,
    first: Call,
    second: Call,
)
    requires
        s.healthy(at.now),
        first is UpdateStatus,
        second is UpdateStatus,
        first.about() == Some(id),
        second.about() == Some(id),
        s.refusal(at, first) is None,
        later.now < at.now + s.config.min_status_update_interval,
    ensures
        s.after(at, first).refusal(later, second) is Some,
        s.after(at, first).after(later, second) == s.after(at, first),
        s.after(at, first).refusal(later.postponed(u64::MAX), second) is None ==> s.after(
            at,
            first,
        ).refusal(later, second) == Some(NavinError::RateLimitExceeded),
{
    assert(s.sound_at(at.now, id));
}

impl Moment {
    /// The same moment at another time.
    pub open spec fn postponed(self, now: u64) -> Moment {
        Moment { now, ..self }
    }
}

} // verus!
