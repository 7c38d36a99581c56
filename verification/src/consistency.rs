//! Checks that what is stored of the shipments fits together.

use vstd::prelude::*;

use crate::contract::NavinShipment;
use crate::env::Address;
use crate::storage::{Storage, StorageView};
use crate::types::{NavinError, Shipment, ShipmentView};

verus! {

/// What does not fit, and for which shipment.
#[derive(Clone, Copy, Debug, PartialEq, Eq, Structural)]
pub enum ConsistencyViolation {
    /// There is no entry for the shipment.
    MissingShipment(u64),
    /// The shipment's escrow is not what the escrow entry says.
    EscrowMismatch(u64),
    /// The shipment is marked as finalized, but has not come to its end or still holds escrow.
    InvalidFinalization(u64),
    /// A milestone has been paid that the payment schedule does not have.
    MilestoneViolation(u64),
    /// The shipment was updated before it was created.
    TimestampAnomaly(u64),
    /// The shipment is not due after its creation.
    DeadlineAnomaly(u64),
    /// The shipment has another sender than the first one of its batch.
    BatchSenderMismatch(u64),
    /// The shipment was created at another time than the first one of its batch.
    BatchTimestampMismatch(u64),
}

impl ShipmentView {
    /// Whether the payment schedule has a milestone called `name`.
    pub open spec fn schedules(self, name: Seq<char>) -> bool {
        exists|i: int|
            0 <= i < self.payment_milestones.len() && (#[trigger] self.payment_milestones[i]).0
                == name
    }

    /// Whether every milestone that has been paid is in the payment schedule.
    pub open spec fn paid_as_scheduled(self) -> bool {
        forall|i: int|
            0 <= i < self.paid_milestones.len() ==> self.schedules(#[trigger] self.paid_milestones[i])
    }

    /// Whether the shipment, if marked as finalized, has come to its end with nothing in escrow.
    pub open spec fn finalization_valid(self) -> bool {
        self.finalized ==> self.status.terminal() && self.escrow_amount == 0
    }
}

/// `violation` alone, where `broken` holds.
pub open spec fn reported(broken: bool, violation: ConsistencyViolation) -> Seq<
    ConsistencyViolation,
> {
    if broken {
        seq![violation]
    } else {
        Seq::empty()
    }
}

impl StorageView {
    /// What does not fit about one shipment.
    pub open spec fn violations(self, id: u64) -> Seq<ConsistencyViolation> {
        match self.record(id) {
            None => seq![ConsistencyViolation::MissingShipment(id)],
            Some(shipment) => reported(
                shipment.escrow_amount != self.escrow(id),
                ConsistencyViolation::EscrowMismatch(id),
            ) + reported(
                !shipment.finalization_valid(),
                ConsistencyViolation::InvalidFinalization(id),
            ) + reported(
                !shipment.paid_as_scheduled(),
                ConsistencyViolation::MilestoneViolation(id),
            ) + reported(
                shipment.updated_at < shipment.created_at,
                ConsistencyViolation::TimestampAnomaly(id),
            ) + reported(
                shipment.deadline <= shipment.created_at,
                ConsistencyViolation::DeadlineAnomaly(id),
            ),
        }
    }

    /// What does not fit about the first `count` shipments, in the order of their numbers.
    pub open spec fn violations_up_to(self, count: nat) -> Seq<ConsistencyViolation>
        decreases count,
    {
        if count == 0 {
            Seq::empty()
        } else {
            self.violations_up_to((count - 1) as nat) + self.violations(count as u64)
        }
    }

    /// What does not fit about any shipment.
    pub open spec fn all_violations(self) -> Seq<ConsistencyViolation> {
        self.violations_up_to(self.shipment_counter as nat)
    }

    /// The first of `ids` for which there is a shipment: the one that the others of the batch
    /// are held against.
    pub open spec fn reference(self, ids: Seq<u64>) -> Option<ShipmentView>
        decreases ids.len(),
    {
        if ids.len() == 0 {
            None
        } else {
            match self.reference(ids.drop_last()) {
                Some(shipment) => Some(shipment),
                None => self.record(ids.last()),
            }
        }
    }

    /// What does not fit between one shipment and the first one of its batch.
    pub open spec fn mismatches(self, reference: Option<ShipmentView>, id: u64) -> Seq<
        ConsistencyViolation,
    > {
        match (reference, self.record(id)) {
            (Some(first), Some(shipment)) => reported(
                shipment.sender != first.sender,
                ConsistencyViolation::BatchSenderMismatch(id),
            ) + reported(
                shipment.created_at != first.created_at,
                ConsistencyViolation::BatchTimestampMismatch(id),
            ),
            _ => Seq::empty(),
        }
    }

    /// What does not fit about the shipments of a batch, in their order.
    pub open spec fn batch_violations(self, reference: Option<ShipmentView>, ids: Seq<u64>) -> Seq<
        ConsistencyViolation,
    >
        decreases ids.len(),
    {
        if ids.len() == 0 {
            Seq::empty()
        } else {
            self.batch_violations(reference, ids.drop_last()) + self.violations(ids.last())
                + self.mismatches(reference, ids.last())
        }
    }
}

/// Whether the payment schedule of `shipment` has a milestone called `name`.
fn is_scheduled(shipment: &Shipment, name: &String) -> (r: bool)
    ensures
        r == shipment@.schedules(name@),
{
    let mut i: usize = 0;
    while i < shipment.payment_milestones.len()
        invariant
            i <= shipment.payment_milestones.len(),
            forall|j: int|
                0 <= j < i ==> (#[trigger] shipment@.payment_milestones[j]).0 != name@,
        decreases shipment.payment_milestones.len() - i,
    {
        assert(shipment@.payment_milestones[i as int].0 == shipment.payment_milestones@[i as int].name@);
        if shipment.payment_milestones[i].name == *name {
            return true;
        }
        i = i + 1;
    }
    false
}

/// Whether every milestone of `shipment` that has been paid is in its payment schedule.
fn is_paid_as_scheduled(shipment: &Shipment) -> (r: bool)
    ensures
        r == shipment@.paid_as_scheduled(),
{
    let mut i: usize = 0;
    while i < shipment.paid_milestones.len()
        invariant
            i <= shipment.paid_milestones.len(),
            forall|j: int|
                0 <= j < i ==> shipment@.schedules(#[trigger] shipment@.paid_milestones[j]),
        decreases shipment.paid_milestones.len() - i,
    {
        assert(shipment@.paid_milestones[i as int] == shipment.paid_milestones@[i as int]@);
        if !is_scheduled(shipment, &shipment.paid_milestones[i]) {
            return false;
        }
        i = i + 1;
    }
    true
}

/// Adds `violation` to a report where `broken` holds.
fn report(violations: &mut Vec<ConsistencyViolation>, broken: bool, violation: ConsistencyViolation)
    ensures
        final(violations)@ == old(violations)@ + reported(broken, violation),
{
    if broken {
        violations.push(violation);
    }
    assert(violations@ =~= old(violations)@ + reported(broken, violation));
}

/// What does not fit about one shipment.
pub fn check_shipment_invariants(storage: &Storage, id: u64) -> (r: Vec<ConsistencyViolation>)
    ensures
        r@ == storage@.violations(id),
{
    let mut r: Vec<ConsistencyViolation> = Vec::new();
    match storage.find_shipment(id) {
        None => {
            r.push(ConsistencyViolation::MissingShipment(id));
        },
        Some(shipment) => {
            report(
                &mut r,
                shipment.escrow_amount != storage.get_escrow(id),
                ConsistencyViolation::EscrowMismatch(id),
            );
            report(
                &mut r,
                shipment.finalized && !(shipment.status.is_terminal() && shipment.escrow_amount
                    == 0),
                ConsistencyViolation::InvalidFinalization(id),
            );
            report(
                &mut r,
                !is_paid_as_scheduled(shipment),
                ConsistencyViolation::MilestoneViolation(id),
            );
            report(
                &mut r,
                shipment.updated_at < shipment.created_at,
                ConsistencyViolation::TimestampAnomaly(id),
            );
            report(
                &mut r,
                shipment.deadline <= shipment.created_at,
                ConsistencyViolation::DeadlineAnomaly(id),
            );
        },
    }
    assert(r@ =~= storage@.violations(id));
    r
}

/// What does not fit about any shipment.
pub fn check_all_consistency(storage: &Storage) -> (r: Vec<ConsistencyViolation>)
    ensures
        r@ == storage@.all_violations(),
{
    let count: u64 = storage.get_shipment_counter();
    let mut r: Vec<ConsistencyViolation> = Vec::new();
    let mut id: u64 = 0;
    while id < count
        invariant
            id <= count,
            count == storage@.shipment_counter,
            r@ == storage@.violations_up_to(id as nat),
        decreases count - id,
    {
        id = id + 1;
        let mut found = check_shipment_invariants(storage, id);
        r.append(&mut found);
        assert(r@ =~= storage@.violations_up_to(id as nat));
    }
    r
}

/// The sender and the time of creation of the first of `ids` for which there is a shipment.
fn batch_reference(storage: &Storage, ids: &Vec<u64>) -> (r: Option<(Address, u64)>)
    ensures
        match storage@.reference(ids@) {
            None => r is None,
            Some(shipment) => r == Some((shipment.sender, shipment.created_at)),
        },
{
    let mut i: usize = 0;
    let mut r: Option<(Address, u64)> = None;
    assert(ids@.take(0) =~= Seq::empty());
    while i < ids.len()
        invariant
            i <= ids.len(),
            match storage@.reference(ids@.take(i as int)) {
                None => r is None,
                Some(shipment) => r == Some((shipment.sender, shipment.created_at)),
            },
        decreases ids.len() - i,
    {
        proof {
            assert(ids@.take(i + 1).drop_last() =~= ids@.take(i as int));
            assert(ids@.take(i + 1).last() == ids@[i as int]);
        }
        if r.is_none() {
            r = match storage.find_shipment(ids[i]) {
                Some(shipment) => Some((shipment.sender, shipment.created_at)),
                None => None,
            };
        }
        i = i + 1;
    }
    assert(ids@.take(ids@.len() as int) =~= ids@);
    r
}

/// What does not fit about the shipments of a batch, each by itself and held against the first.
pub fn check_batch_consistency(storage: &Storage, ids: &Vec<u64>) -> (r: Vec<ConsistencyViolation>)
    ensures
        r@ == storage@.batch_violations(storage@.reference(ids@), ids@),
{
    let reference = batch_reference(storage, ids);
    let ghost first = storage@.reference(ids@);
    let mut r: Vec<ConsistencyViolation> = Vec::new();
    let mut i: usize = 0;
    assert(ids@.take(0) =~= Seq::empty());
    while i < ids.len()
        invariant
            i <= ids.len(),
            match first {
                None => reference is None,
                Some(shipment) => reference == Some((shipment.sender, shipment.created_at)),
            },
            r@ == storage@.batch_violations(first, ids@.take(i as int)),
        decreases ids.len() - i,
    {
        let id: u64 = ids[i];
        let ghost before = r@;
        let mut found = check_shipment_invariants(storage, id);
        r.append(&mut found);
        if let Some((sender, created_at)) = reference {
            if let Some(shipment) = storage.find_shipment(id) {
                report(
                    &mut r,
                    shipment.sender != sender,
                    ConsistencyViolation::BatchSenderMismatch(id),
                );
                report(
                    &mut r,
                    shipment.created_at != created_at,
                    ConsistencyViolation::BatchTimestampMismatch(id),
                );
            }
        }
        proof {
            assert(r@ =~= before + storage@.violations(id) + storage@.mismatches(first, id));
            assert(ids@.take(i + 1).drop_last() =~= ids@.take(i as int));
            assert(ids@.take(i + 1).last() == id);
        }
        i = i + 1;
    }
    assert(ids@.take(ids@.len() as int) =~= ids@);
    r
}

impl NavinShipment {
    /// The administrator asks what does not fit about any shipment.
    pub fn check_consistency_violations(&self, caller: Address) -> (r: Result<
        Vec<ConsistencyViolation>,
        NavinError,
    >)
        ensures
            match self.storage@.admin_refusal(caller) {
                Some(e) => r matches Err(error) && error == e,
                None => r matches Ok(violations) && violations@ == self.storage@.all_violations(),
            },
    {
        self.check_admin(caller)?;
        Ok(check_all_consistency(&self.storage))
    }
}

} // verus!
