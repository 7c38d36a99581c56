//! Reports on the health of the contract and on where a shipment is stored.

use vstd::prelude::*;

use crate::contract::NavinShipment;
use crate::env::{Address, Env};
use crate::storage::{Storage, StorageView};
use crate::types::{NavinError, ShipmentStatus};

verus! {

/// Where a shipment is stored.
#[derive(Clone, Copy, Debug, PartialEq, Eq, Structural)]
pub enum StoragePresenceState {
    /// Only among the persistent entries.
    ActivePersistent,
    /// Only among the archived entries.
    ArchivedExpected,
    /// Nowhere.
    Missing,
    /// Among both, which no operation of the contract leads to.
    InconsistentDualPresence,
}

/// Which entries there are for a shipment.
#[derive(Clone, Copy, Debug, PartialEq, Eq, Structural)]
pub struct PersistentRestoreDiagnostics {
    pub shipment_id: u64,
    pub state: StoragePresenceState,
    pub persistent_shipment_present: bool,
    pub archived_shipment_present: bool,
    pub escrow_present: bool,
    pub confirmation_hash_present: bool,
    pub last_status_update_present: bool,
    pub event_count_present: bool,
}

/// The state of the contract at a glance.
#[derive(Debug, PartialEq, Eq)]
pub struct ContractHealth {
    pub total_shipments: u64,
    /// How many shipments have not come to their end.
    pub active_shipments_counted: u64,
    pub sum_of_escrow_balances: i128,
    /// The shipments that are in transit past their deadline.
    pub anomalous_shipment_ids: Vec<u64>,
    /// The shipments that are missing, or whose escrow is not what the escrow entry says.
    pub storage_inconsistencies: Vec<u64>,
}

/// The classification that the two flags stand for.
pub open spec fn presence(persistent: bool, archived: bool) -> StoragePresenceState {
    if persistent && archived {
        StoragePresenceState::InconsistentDualPresence
    } else if persistent {
        StoragePresenceState::ActivePersistent
    } else if archived {
        StoragePresenceState::ArchivedExpected
    } else {
        StoragePresenceState::Missing
    }
}

/// Those of the numbers from 1 to `count` for which `chosen` holds, in their order.
pub open spec fn ids_where(chosen: spec_fn(u64) -> bool, count: nat) -> Seq<u64>
    decreases count,
{
    if count == 0 {
        Seq::empty()
    } else if chosen(count as u64) {
        ids_where(chosen, (count - 1) as nat).push(count as u64)
    } else {
        ids_where(chosen, (count - 1) as nat)
    }
}

impl StorageView {
    /// Which entries there are for a shipment.
    pub open spec fn diagnosis(self, id: u64) -> PersistentRestoreDiagnostics {
        PersistentRestoreDiagnostics {
            shipment_id: id,
            state: presence(self.shipments.contains_key(id), self.archived.contains_key(id)),
            persistent_shipment_present: self.shipments.contains_key(id),
            archived_shipment_present: self.archived.contains_key(id),
            escrow_present: self.escrows.contains_key(id),
            confirmation_hash_present: self.confirmation_hashes.contains_key(id),
            last_status_update_present: self.last_status_updates.contains_key(id),
            event_count_present: self.event_counts.contains_key(id),
        }
    }

    /// Whether there is a shipment with this number that has not come to its end.
    pub open spec fn active(self, id: u64) -> bool {
        self.record(id) matches Some(shipment) && !shipment.status.terminal()
    }

    /// Whether there is a shipment with this number that is in transit past its deadline.
    pub open spec fn anomalous(self, now: u64, id: u64) -> bool {
        self.record(id) matches Some(shipment) && shipment.status is InTransit && now
            > shipment.deadline
    }

    /// Whether a shipment is missing, or its escrow is not what the escrow entry says.
    pub open spec fn inconsistent(self, id: u64) -> bool {
        match self.record(id) {
            Some(shipment) => shipment.escrow_amount != self.escrow(id),
            None => true,
        }
    }

    pub open spec fn active_ids(self) -> Seq<u64> {
        ids_where(|id: u64| self.active(id), self.shipment_counter as nat)
    }

    pub open spec fn anomalous_ids(self, now: u64) -> Seq<u64> {
        ids_where(|id: u64| self.anomalous(now, id), self.shipment_counter as nat)
    }

    pub open spec fn inconsistent_ids(self) -> Seq<u64> {
        ids_where(|id: u64| self.inconsistent(id), self.shipment_counter as nat)
    }

    /// The escrow held for the first `count` shipments.
    pub open spec fn escrow_sum(self, count: nat) -> int
        decreases count,
    {
        if count == 0 {
            0
        } else {
            self.escrow_sum((count - 1) as nat) + self.escrow(count as u64)
        }
    }

    /// Whether the escrow held can be added up, shipment by shipment.
    pub open spec fn escrow_sum_fits(self) -> bool {
        forall|count: nat|
            count <= self.shipment_counter ==> i128::MIN <= #[trigger] self.escrow_sum(count)
                <= i128::MAX
    }
}

/// Adds up the escrow held.
fn sum_escrows(storage: &Storage) -> (r: Option<i128>)
    ensures
        match r {
            Some(sum) => storage@.escrow_sum_fits() && sum == storage@.escrow_sum(
                storage@.shipment_counter as nat,
            ),
            None => !storage@.escrow_sum_fits(),
        },
{
    let count: u64 = storage.get_shipment_counter();
    let mut sum: i128 = 0;
    let mut id: u64 = 0;
    while id < count
        invariant
            id <= count,
            count == storage@.shipment_counter,
            sum == storage@.escrow_sum(id as nat),
            forall|n: nat|
                n <= id ==> i128::MIN <= #[trigger] storage@.escrow_sum(n) <= i128::MAX,
        decreases count - id,
    {
        id = id + 1;
        match sum.checked_add(storage.get_escrow(id)) {
            Some(next) => {
                sum = next;
            },
            None => {
                assert(!(i128::MIN <= storage@.escrow_sum(id as nat) <= i128::MAX));
                return None;
            },
        }
    }
    Some(sum)
}

impl NavinShipment {
    /// How many shipments have not come to their end.
    pub fn get_non_terminal_count(&self) -> (r: u64)
        ensures
            r == self.storage@.active_ids().len(),
    {
        let count: u64 = self.storage.get_shipment_counter();
        let ghost chosen = |id: u64| self.storage@.active(id);
        let mut r: u64 = 0;
        let mut id: u64 = 0;
        while id < count
            invariant
                r <= id <= count,
                count == self.storage@.shipment_counter,
                chosen == (|id: u64| self.storage@.active(id)),
                r == ids_where(chosen, id as nat).len(),
            decreases count - id,
        {
            id = id + 1;
            if let Some(shipment) = self.storage.find_shipment(id) {
                if !shipment.status.is_terminal() {
                    r = r + 1;
                }
            }
        }
        r
    }

    /// The administrator asks for the state of the contract at a glance. The report fails where
    /// the escrow held cannot be added up.
    pub fn check_contract_health(&self, env: &Env, caller: Address) -> (r: Result<
        ContractHealth,
        NavinError,
    >)
        ensures
            match self.storage@.admin_refusal(caller) {
                Some(e) => r matches Err(error) && error == e,
                None => if self.storage@.escrow_sum_fits() {
                    r matches Ok(health) && {
                        &&& health.total_shipments == self.storage@.shipment_counter
                        &&& health.active_shipments_counted == self.storage@.active_ids().len()
                        &&& health.sum_of_escrow_balances == self.storage@.escrow_sum(
                            self.storage@.shipment_counter as nat,
                        )
                        &&& health.anomalous_shipment_ids@ == self.storage@.anomalous_ids(
                            env.timestamp,
                        )
                        &&& health.storage_inconsistencies@ == self.storage@.inconsistent_ids()
                    }
                } else {
                    r matches Err(error) && error == NavinError::ArithmeticError
                },
            },
    {
        self.check_admin(caller)?;
        let sum: i128 = match sum_escrows(&self.storage) {
            Some(sum) => sum,
            None => return Err(NavinError::ArithmeticError),
        };
        let count: u64 = self.storage.get_shipment_counter();
        let now: u64 = env.timestamp;
        let ghost late = |id: u64| self.storage@.anomalous(now, id);
        let ghost wrong = |id: u64| self.storage@.inconsistent(id);
        let mut anomalous: Vec<u64> = Vec::new();
        let mut inconsistent: Vec<u64> = Vec::new();
        let mut id: u64 = 0;
        while id < count
            invariant
                id <= count,
                count == self.storage@.shipment_counter,
                late == (|id: u64| self.storage@.anomalous(now, id)),
                wrong == (|id: u64| self.storage@.inconsistent(id)),
                anomalous@ == ids_where(late, id as nat),
                inconsistent@ == ids_where(wrong, id as nat),
            decreases count - id,
        {
            id = id + 1;
            match self.storage.find_shipment(id) {
                Some(shipment) => {
                    if shipment.status == ShipmentStatus::InTransit && now > shipment.deadline {
                        anomalous.push(id);
                    }
                    if shipment.escrow_amount != self.storage.get_escrow(id) {
                        inconsistent.push(id);
                    }
                },
                None => {
                    inconsistent.push(id);
                },
            }
        }
        Ok(
            ContractHealth {
                total_shipments: count,
                active_shipments_counted: self.get_non_terminal_count(),
                sum_of_escrow_balances: sum,
                anomalous_shipment_ids: anomalous,
                storage_inconsistencies: inconsistent,
            },
        )
    }

    /// Which entries there are for a shipment.
    pub fn get_restore_diagnostics(&self, id: u64) -> (r: PersistentRestoreDiagnostics)
        ensures
            r == self.storage@.diagnosis(id),
    {
        let persistent: bool = self.storage.has_shipment(id);
        let archived: bool = self.storage.has_archived_shipment(id);
        let state = match (persistent, archived) {
            (true, true) => StoragePresenceState::InconsistentDualPresence,
            (true, false) => StoragePresenceState::ActivePersistent,
            (false, true) => StoragePresenceState::ArchivedExpected,
            (false, false) => StoragePresenceState::Missing,
        };
        PersistentRestoreDiagnostics {
            shipment_id: id,
            state,
            persistent_shipment_present: persistent,
            archived_shipment_present: archived,
            escrow_present: self.storage.has_escrow(id),
            confirmation_hash_present: self.storage.has_confirmation_hash(id),
            last_status_update_present: self.storage.get_last_status_update(id).is_some(),
            event_count_present: self.storage.has_event_count(id),
        }
    }
}

} // verus!
