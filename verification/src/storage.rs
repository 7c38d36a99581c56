//! What the contract keeps between calls.

use std::collections::{HashMap, HashSet};

use vstd::prelude::*;

use crate::circuit_breaker::CircuitBreakerTracker;
use crate::config::ContractConfig;
use crate::env::Address;
use crate::types::{Event, SettlementRecord, Shipment, ShipmentView};

verus! {

broadcast use vstd::std_specs::hash::group_hash_axioms;

/// The stored entries. A shipment stands among the persistent ones, or among the archived ones
/// once it has been archived.
pub struct Storage {
    admin: Option<Address>,
    version: u32,
    wasm_hash: Option<[u8; 32]>,
    token_decimals: u32,
    shipment_counter: u64,
    companies: HashSet<u64>,
    carriers: HashSet<u64>,
    suspended: HashSet<u64>,
    whitelist: HashSet<u128>,
    shipments: HashMap<u64, Shipment>,
    archived: HashMap<u64, Shipment>,
    escrows: HashMap<u64, i128>,
    confirmation_hashes: HashMap<u64, [u8; 32]>,
    last_status_updates: HashMap<u64, u64>,
    event_counts: HashMap<u64, u64>,
    events: Vec<Event>,
    settlements: Vec<SettlementRecord>,
    reentrancy_lock: bool,
    circuit_breaker: CircuitBreakerTracker,
    config: ContractConfig,
    config_checksum: [u8; 32],
}

/// The stored entries as the contracts of this library speak of them.
#[verifier::ext_equal]
pub struct StorageView {
    pub admin: Option<Address>,
    pub version: u32,
    pub wasm_hash: Option<[u8; 32]>,
    pub token_decimals: u32,
    pub shipment_counter: u64,
    pub companies: Set<Address>,
    pub carriers: Set<Address>,
    pub suspended: Set<Address>,
    /// Pairs of a company and a carrier that it accepts, in that order.
    pub whitelist: Set<(Address, Address)>,
    pub shipments: Map<u64, ShipmentView>,
    pub archived: Map<u64, ShipmentView>,
    pub escrows: Map<u64, i128>,
    pub confirmation_hashes: Map<u64, [u8; 32]>,
    pub last_status_updates: Map<u64, u64>,
    pub event_counts: Map<u64, u64>,
    pub events: Seq<Event>,
    pub settlements: Seq<SettlementRecord>,
    pub reentrancy_lock: bool,
    pub circuit_breaker: CircuitBreakerTracker,
    pub config: ContractConfig,
    pub config_checksum: Seq<u8>,
}

/// The accounts whose numbers are in `numbers`.
spec fn accounts(numbers: Set<u64>) -> Set<Address> {
    Set::new(|a: Address| numbers.contains(a.number))
}

/// The number that stands for a pair of accounts.
spec fn pair_number(pair: (Address, Address)) -> u128 {
    (pair.0.number * 0x1_0000_0000_0000_0000 + pair.1.number) as u128
}

/// The pairs whose numbers are in `numbers`.
spec fn pairs(numbers: Set<u128>) -> Set<(Address, Address)> {
    Set::new(|p: (Address, Address)| numbers.contains(pair_number(p)))
}

/// The shipments that `table` holds.
spec fn records(table: Map<u64, Shipment>) -> Map<u64, ShipmentView> {
    Map::new(|id: u64| table.contains_key(id), |id: u64| table[id]@)
}

fn pair_key(company: Address, carrier: Address) -> (key: u128)
    ensures
        key == pair_number((company, carrier)),
{
    company.number as u128 * 0x1_0000_0000_0000_0000 + carrier.number as u128
}

impl View for Storage {
    type V = StorageView;

    closed spec fn view(&self) -> StorageView {
        StorageView {
            admin: self.admin,
            version: self.version,
            wasm_hash: self.wasm_hash,
            token_decimals: self.token_decimals,
            shipment_counter: self.shipment_counter,
            companies: accounts(self.companies@),
            carriers: accounts(self.carriers@),
            suspended: accounts(self.suspended@),
            whitelist: pairs(self.whitelist@),
            shipments: records(self.shipments@),
            archived: records(self.archived@),
            escrows: self.escrows@,
            confirmation_hashes: self.confirmation_hashes@,
            last_status_updates: self.last_status_updates@,
            event_counts: self.event_counts@,
            events: self.events@,
            settlements: self.settlements@,
            reentrancy_lock: self.reentrancy_lock,
            circuit_breaker: self.circuit_breaker,
            config: self.config,
            config_checksum: self.config_checksum@,
        }
    }
}

impl StorageView {
    /// What a contract keeps before it is initialised.
    pub open spec fn blank() -> StorageView {
        StorageView {
            admin: None,
            version: 0,
            wasm_hash: None,
            token_decimals: 0,
            shipment_counter: 0,
            companies: Set::empty(),
            carriers: Set::empty(),
            suspended: Set::empty(),
            whitelist: Set::empty(),
            shipments: Map::empty(),
            archived: Map::empty(),
            escrows: Map::empty(),
            confirmation_hashes: Map::empty(),
            last_status_updates: Map::empty(),
            event_counts: Map::empty(),
            events: Seq::empty(),
            settlements: Seq::empty(),
            reentrancy_lock: false,
            circuit_breaker: CircuitBreakerTracker::reset(),
            config: ContractConfig::initial(),
            config_checksum: ContractConfig::initial().checksum(),
        }
    }

    /// The shipment with this number, archived or not.
    pub open spec fn record(self, id: u64) -> Option<ShipmentView> {
        if self.shipments.contains_key(id) {
            Some(self.shipments[id])
        } else if self.archived.contains_key(id) {
            Some(self.archived[id])
        } else {
            None
        }
    }

    /// The escrow held for a shipment: nothing where there is no entry.
    pub open spec fn escrow(self, id: u64) -> i128 {
        if self.escrows.contains_key(id) {
            self.escrows[id]
        } else {
            0
        }
    }

    /// How many events have been announced for a shipment.
    pub open spec fn event_count(self, id: u64) -> u64 {
        if self.event_counts.contains_key(id) {
            self.event_counts[id]
        } else {
            0
        }
    }

    /// The entries after `event` has been announced. The count stops at its largest value.
    pub open spec fn announcing(self, event: Event) -> StorageView {
        let count = self.event_count(event.shipment());
        StorageView {
            events: self.events.push(event),
            event_counts: self.event_counts.insert(
                event.shipment(),
                if count < u64::MAX {
                    (count + 1) as u64
                } else {
                    count
                },
            ),
            ..self
        }
    }

    /// The entries with `shipment` in place of what was known of it.
    pub open spec fn storing(self, shipment: ShipmentView) -> StorageView {
        StorageView { shipments: self.shipments.insert(shipment.id, shipment), ..self }
    }
}

impl Storage {
    pub fn new() -> (s: Storage)
        ensures
            s@ == StorageView::blank(),
    {
        let config: ContractConfig = Default::default();
        let config_checksum = crate::config::compute_config_checksum(&config);
        let s = Storage {
            admin: None,
            version: 0,
            wasm_hash: None,
            token_decimals: 0,
            shipment_counter: 0,
            companies: HashSet::new(),
            carriers: HashSet::new(),
            suspended: HashSet::new(),
            whitelist: HashSet::new(),
            shipments: HashMap::new(),
            archived: HashMap::new(),
            escrows: HashMap::new(),
            confirmation_hashes: HashMap::new(),
            last_status_updates: HashMap::new(),
            event_counts: HashMap::new(),
            events: Vec::new(),
            settlements: Vec::new(),
            reentrancy_lock: false,
            circuit_breaker: CircuitBreakerTracker::new(),
            config,
            config_checksum,
        };
        assert(s@ =~= StorageView::blank());
        s
    }

    /// The administrator, once there is one.
    pub fn get_admin(&self) -> (r: Option<Address>)
        ensures
            r == self@.admin,
    {
        self.admin
    }

    /// Replaces the administrator.
    pub fn set_admin(&mut self, value: Option<Address>)
        ensures
            final(self)@ == (StorageView { admin: value, ..old(self)@ }),
    {
        self.admin = value;
    }

    /// The version of the code.
    pub fn get_version(&self) -> (r: u32)
        ensures
            r == self@.version,
    {
        self.version
    }

    /// Replaces the version of the code.
    pub fn set_version(&mut self, value: u32)
        ensures
            final(self)@ == (StorageView { version: value, ..old(self)@ }),
    {
        self.version = value;
    }

    /// The hash of the code last upgraded to, if any.
    pub fn get_wasm_hash(&self) -> (r: Option<[u8; 32]>)
        ensures
            r == self@.wasm_hash,
    {
        self.wasm_hash
    }

    /// Replaces the hash of the code last upgraded to.
    pub fn set_wasm_hash(&mut self, value: Option<[u8; 32]>)
        ensures
            final(self)@ == (StorageView { wasm_hash: value, ..old(self)@ }),
    {
        self.wasm_hash = value;
    }

    /// The decimal places that the payment token counts in.
    pub fn get_token_decimals(&self) -> (r: u32)
        ensures
            r == self@.token_decimals,
    {
        self.token_decimals
    }

    /// Replaces the number of decimal places.
    pub fn set_token_decimals(&mut self, value: u32)
        ensures
            final(self)@ == (StorageView { token_decimals: value, ..old(self)@ }),
    {
        self.token_decimals = value;
    }

    /// The number of shipments ever created, which is the number of the latest one.
    pub fn get_shipment_counter(&self) -> (r: u64)
        ensures
            r == self@.shipment_counter,
    {
        self.shipment_counter
    }

    /// Replaces the number of shipments ever created.
    pub fn set_shipment_counter(&mut self, value: u64)
        ensures
            final(self)@ == (StorageView { shipment_counter: value, ..old(self)@ }),
    {
        self.shipment_counter = value;
    }

    /// Whether an escrow payment is under way.
    pub fn get_reentrancy_lock(&self) -> (r: bool)
        ensures
            r == self@.reentrancy_lock,
    {
        self.reentrancy_lock
    }

    /// Marks an escrow payment as under way, or as over.
    pub fn set_reentrancy_lock(&mut self, value: bool)
        ensures
            final(self)@ == (StorageView { reentrancy_lock: value, ..old(self)@ }),
    {
        self.reentrancy_lock = value;
    }

    /// The state of the circuit breaker.
    pub fn get_circuit_breaker(&self) -> (r: CircuitBreakerTracker)
        ensures
            r == self@.circuit_breaker,
    {
        self.circuit_breaker
    }

    /// Replaces the state of the circuit breaker.
    pub fn set_circuit_breaker(&mut self, value: CircuitBreakerTracker)
        ensures
            final(self)@ == (StorageView { circuit_breaker: value, ..old(self)@ }),
    {
        self.circuit_breaker = value;
    }

    /// The configuration in force.
    pub fn get_config(&self) -> (r: ContractConfig)
        ensures
            r == self@.config,
    {
        self.config
    }

    /// The checksum of the configuration in force.
    pub fn get_config_checksum(&self) -> (r: [u8; 32])
        ensures
            r@ == self@.config_checksum,
    {
        self.config_checksum
    }

    /// Replaces the configuration, and the checksum with it.
    pub fn set_config(&mut self, config: ContractConfig)
        ensures
            final(self)@ == (StorageView {
                config,
                config_checksum: config.checksum(),
                ..old(self)@
            }),
    {
        self.config = config;
        self.config_checksum = crate::config::compute_config_checksum(&config);
    }

    /// Whether `account` is a registered company.
    pub fn is_company(&self, account: Address) -> (r: bool)
        ensures
            r == self@.companies.contains(account),
    {
        self.companies.contains(&account.number)
    }

    /// Makes `account` a registered company.
    pub fn add_company(&mut self, account: Address)
        ensures
            final(self)@ == (StorageView {
                companies: old(self)@.companies.insert(account),
                ..old(self)@
            }),
    {
        self.companies.insert(account.number);
        assert(self@.companies =~= old(self)@.companies.insert(account));
    }

    /// Whether `account` is a registered carrier.
    pub fn is_carrier(&self, account: Address) -> (r: bool)
        ensures
            r == self@.carriers.contains(account),
    {
        self.carriers.contains(&account.number)
    }

    /// Makes `account` a registered carrier.
    pub fn add_carrier(&mut self, account: Address)
        ensures
            final(self)@ == (StorageView {
                carriers: old(self)@.carriers.insert(account),
                ..old(self)@
            }),
    {
        self.carriers.insert(account.number);
        assert(self@.carriers =~= old(self)@.carriers.insert(account));
    }

    /// Whether `account` is suspended.
    pub fn is_suspended(&self, account: Address) -> (r: bool)
        ensures
            r == self@.suspended.contains(account),
    {
        self.suspended.contains(&account.number)
    }

    /// Makes `account` suspended.
    pub fn suspend(&mut self, account: Address)
        ensures
            final(self)@ == (StorageView {
                suspended: old(self)@.suspended.insert(account),
                ..old(self)@
            }),
    {
        self.suspended.insert(account.number);
        assert(self@.suspended =~= old(self)@.suspended.insert(account));
    }

    /// Makes `account` suspended no longer.
    pub fn reactivate(&mut self, account: Address)
        ensures
            final(self)@ == (StorageView {
                suspended: old(self)@.suspended.remove(account),
                ..old(self)@
            }),
    {
        self.suspended.remove(&account.number);
        assert(self@.suspended =~= old(self)@.suspended.remove(account));
    }

    /// Whether `company` accepts `carrier`.
    pub fn is_carrier_whitelisted(&self, company: Address, carrier: Address) -> (r: bool)
        ensures
            r == self@.whitelist.contains((company, carrier)),
    {
        self.whitelist.contains(&pair_key(company, carrier))
    }

    /// Notes that `company` accepts `carrier`.
    pub fn add_carrier_to_whitelist(&mut self, company: Address, carrier: Address)
        ensures
            final(self)@ == (StorageView {
                whitelist: old(self)@.whitelist.insert((company, carrier)),
                ..old(self)@
            }),
    {
        self.whitelist.insert(pair_key(company, carrier));
        assert(self@.whitelist =~= old(self)@.whitelist.insert((company, carrier)));
    }

    /// Notes that `company` does not accept `carrier`.
    pub fn remove_carrier_from_whitelist(&mut self, company: Address, carrier: Address)
        ensures
            final(self)@ == (StorageView {
                whitelist: old(self)@.whitelist.remove((company, carrier)),
                ..old(self)@
            }),
    {
        self.whitelist.remove(&pair_key(company, carrier));
        assert(self@.whitelist =~= old(self)@.whitelist.remove((company, carrier)));
    }

    /// Whether there is a persistent entry for a shipment.
    pub fn has_shipment(&self, id: u64) -> (r: bool)
        ensures
            r == self@.shipments.contains_key(id),
    {
        self.shipments.contains_key(&id)
    }

    /// Whether there is an archived entry for a shipment.
    pub fn has_archived_shipment(&self, id: u64) -> (r: bool)
        ensures
            r == self@.archived.contains_key(id),
    {
        self.archived.contains_key(&id)
    }

    /// A copy of the persistent entry for a shipment.
    pub fn get_shipment(&self, id: u64) -> (r: Option<Shipment>)
        ensures
            r is Some <==> self@.shipments.contains_key(id),
            r matches Some(shipment) ==> shipment@ == self@.shipments[id],
    {
        match self.shipments.get(&id) {
            Some(shipment) => Some(shipment.clone()),
            None => None,
        }
    }

    /// The entry for a shipment, archived or not.
    pub fn find_shipment(&self, id: u64) -> (r: Option<&Shipment>)
        ensures
            r is Some <==> self@.record(id) is Some,
            r matches Some(shipment) ==> Some(shipment@) == self@.record(id),
    {
        match self.shipments.get(&id) {
            Some(shipment) => Some(shipment),
            None => self.archived.get(&id),
        }
    }

    /// Writes the persistent entry for a shipment.
    pub fn set_shipment(&mut self, shipment: &Shipment)
        ensures
            final(self)@ == old(self)@.storing(shipment@),
    {
        self.shipments.insert(shipment.id, shipment.clone());
        assert(self@.shipments =~= old(self)@.shipments.insert(shipment.id, shipment@));
    }

    /// Removes the persistent entry for a shipment.
    pub fn remove_shipment(&mut self, id: u64)
        ensures
            final(self)@ == (StorageView {
                shipments: old(self)@.shipments.remove(id),
                ..old(self)@
            }),
    {
        self.shipments.remove(&id);
        assert(self@.shipments =~= old(self)@.shipments.remove(id));
    }

    /// Writes the archived entry for a shipment.
    pub fn set_archived_shipment(&mut self, shipment: &Shipment)
        ensures
            final(self)@ == (StorageView {
                archived: old(self)@.archived.insert(shipment.id, shipment@),
                ..old(self)@
            }),
    {
        self.archived.insert(shipment.id, shipment.clone());
        assert(self@.archived =~= old(self)@.archived.insert(shipment.id, shipment@));
    }

    /// Whether there is an escrow entry for a shipment.
    pub fn has_escrow(&self, id: u64) -> (r: bool)
        ensures
            r == self@.escrows.contains_key(id),
    {
        self.escrows.contains_key(&id)
    }

    /// The escrow held for a shipment: nothing where there is no entry.
    pub fn get_escrow(&self, id: u64) -> (r: i128)
        ensures
            r == self@.escrow(id),
    {
        match self.escrows.get(&id) {
            Some(amount) => *amount,
            None => 0,
        }
    }

    /// Writes the escrow entry for a shipment.
    pub fn set_escrow(&mut self, id: u64, amount: i128)
        ensures
            final(self)@ == (StorageView {
                escrows: old(self)@.escrows.insert(id, amount),
                ..old(self)@
            }),
    {
        self.escrows.insert(id, amount);
    }

    /// Removes the escrow entry for a shipment.
    pub fn remove_escrow(&mut self, id: u64)
        ensures
            final(self)@ == (StorageView { escrows: old(self)@.escrows.remove(id), ..old(self)@ }),
    {
        self.escrows.remove(&id);
    }

    /// Whether the delivery of a shipment has been confirmed with a hash.
    pub fn has_confirmation_hash(&self, id: u64) -> (r: bool)
        ensures
            r == self@.confirmation_hashes.contains_key(id),
    {
        self.confirmation_hashes.contains_key(&id)
    }

    /// Writes the hash with which the delivery of a shipment is confirmed.
    pub fn set_confirmation_hash(&mut self, id: u64, hash: [u8; 32])
        ensures
            final(self)@ == (StorageView {
                confirmation_hashes: old(self)@.confirmation_hashes.insert(id, hash),
                ..old(self)@
            }),
    {
        self.confirmation_hashes.insert(id, hash);
    }

    /// When the carrier last updated the status of a shipment, if ever.
    pub fn get_last_status_update(&self, id: u64) -> (r: Option<u64>)
        ensures
            r == (if self@.last_status_updates.contains_key(id) {
                Some(self@.last_status_updates[id])
            } else {
                None
            }),
    {
        match self.last_status_updates.get(&id) {
            Some(time) => Some(*time),
            None => None,
        }
    }

    /// Writes when the carrier last updated the status of a shipment.
    pub fn set_last_status_update(&mut self, id: u64, time: u64)
        ensures
            final(self)@ == (StorageView {
                last_status_updates: old(self)@.last_status_updates.insert(id, time),
                ..old(self)@
            }),
    {
        self.last_status_updates.insert(id, time);
    }

    /// Whether any event has been announced for a shipment.
    pub fn has_event_count(&self, id: u64) -> (r: bool)
        ensures
            r == self@.event_counts.contains_key(id),
    {
        self.event_counts.contains_key(&id)
    }

    /// How many events have been announced for a shipment.
    pub fn get_event_count(&self, id: u64) -> (r: u64)
        ensures
            r == self@.event_count(id),
    {
        match self.event_counts.get(&id) {
            Some(count) => *count,
            None => 0,
        }
    }

    /// The events announced so far, the oldest first.
    pub fn events(&self) -> (r: &Vec<Event>)
        ensures
            r@ == self@.events,
    {
        &self.events
    }

    /// Announces `event`.
    pub fn announce(&mut self, event: Event)
        ensures
            final(self)@ == old(self)@.announcing(event),
    {
        let id: u64 = event.shipment_id();
        let count: u64 = self.get_event_count(id);
        self.event_counts.insert(
            id,
            if count < u64::MAX {
                count + 1
            } else {
                count
            },
        );
        self.events.push(event);
    }

    /// The settlements made so far, the oldest first.
    pub fn settlements(&self) -> (r: &Vec<SettlementRecord>)
        ensures
            r@ == self@.settlements,
    {
        &self.settlements
    }

    /// Adds a settlement.
    pub fn add_settlement(&mut self, record: SettlementRecord)
        ensures
            final(self)@ == (StorageView {
                settlements: old(self)@.settlements.push(record),
                ..old(self)@
            }),
    {
        self.settlements.push(record);
    }
}

} // verus!
