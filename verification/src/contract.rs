//! The shipment contract.

use vstd::prelude::*;

use crate::calls::{Call, Moment};
use crate::config::ContractConfig;
use crate::env::{Address, Env};
use crate::model::{answered, shown};
use crate::storage::{Storage, StorageView};
use crate::token::{Token, Transfer, TransferLog};
use crate::types::{
    clone_milestones, entries, schedule, Analytics, Event, Milestone, NavinError,
    SettlementRecord, Shipment, ShipmentInput, ShipmentInputView,
    ShipmentStatus,
};

verus! {

/// A shipment contract on the ledger: its address, the token it is paid in, what it keeps, and
/// the transfers that it has asked its token for.
pub struct NavinShipment {
    pub address: Address,
    pub token: Option<Token>,
    pub storage: Storage,
    pub asked: TransferLog,
}

impl NavinShipment {
    /// Whether the token makes the transfers that the contract asks for. A contract that has no
    /// token yet cannot pay.
    pub open spec fn pays(self) -> bool {
        self.token matches Some(token) && token.transfers_succeed()
    }

    /// Whether this is the contract `before`, but for what it keeps, and has asked its token for
    /// nothing since.
    pub open spec fn same_contract(self, before: NavinShipment) -> bool {
        self.address == before.address && self.token == before.token && self.asked@ == before.asked@
    }

    /// Whether this is the contract `before`, but for what it keeps, and has asked its token, if
    /// it has one, for `transfer` since, or for nothing where there is no transfer to ask for.
    pub open spec fn has_asked(self, before: NavinShipment, transfer: Option<Transfer>) -> bool {
        &&& self.address == before.address
        &&& self.token == before.token
        &&& self.asked@ == match transfer {
            Some(t) => if before.token is Some {
                before.asked@.push(t)
            } else {
                before.asked@
            },
            None => before.asked@,
        }
    }

    /// What `call` meets when it is made of this contract at `now`.
    pub open spec fn moment(self, now: u64) -> Moment {
        Moment { now, contract: self.address, pays: self.pays() }
    }

    /// Whether what `after` keeps is what there is after `call` has been made at `now`: what there
    /// was before, where the call is refused.
    pub open spec fn steps_to(self, after: NavinShipment, now: u64, call: Call) -> bool {
        after.storage@ == self.storage@.after(self.moment(now), call)
    }

    /// Puts a shipment contract on the ledger.
    pub fn register(env: &mut Env) -> (contract: NavinShipment)
        requires
            old(env).has_room(1),
        ensures
            contract.address == old(env).upcoming(0),
            contract.token is None,
            contract.storage@ == StorageView::blank(),
            contract.asked@ == Seq::<Transfer>::empty(),
            *final(env) == old(env).after_issuing(1),
    {
        NavinShipment {
            address: Address::generate(env),
            token: None,
            storage: Storage::new(),
            asked: TransferLog::new(),
        }
    }

    /// Names the administrator and the token.
    pub fn initialize(&mut self, env: &Env, admin: Address, token: Token) -> (r: Result<
        (),
        NavinError,
    >)
        ensures
            answered(
                r,
                old(self).storage@.initialize_refusal(),
                old(self).storage@,
                final(self).storage@,
                (),
                old(self).storage@.initialized(admin, crate::token::TOKEN_DECIMALS),
            ),
            old(self).steps_to(
                *final(self),
                env.timestamp,
                (Call::Initialize { admin }),
            ),
            final(self).address == old(self).address,
            final(self).asked@ == old(self).asked@,
            final(self).token == if r is Ok {
                Some(token)
            } else {
                old(self).token
            },
    {
        if self.storage.get_admin().is_some() {
            return Err(NavinError::AlreadyInitialized);
        }
        self.storage.set_admin(Some(admin));
        self.storage.set_version(1);
        self.storage.set_token_decimals(token.decimals(*env));
        self.storage.set_config(Default::default());
        self.token = Some(token);
        Ok(())
    }

    /// Fails unless `caller` is the administrator.
    pub(crate) fn check_admin(&self, caller: Address) -> (r: Result<(), NavinError>)
        ensures
            match self.storage@.admin_refusal(caller) {
                Some(e) => r == Err::<(), NavinError>(e),
                None => r == Ok::<(), NavinError>(()),
            },
    {
        match self.storage.get_admin() {
            None => Err(NavinError::NotInitialized),
            Some(admin) => if caller == admin {
                Ok(())
            } else {
                Err(NavinError::Unauthorized)
            },
        }
    }

    /// Registers a company.
    pub fn add_company(&mut self, caller: Address, company: Address) -> (r: Result<(), NavinError>)
        ensures
            answered(
                r,
                old(self).storage@.admin_refusal(caller),
                old(self).storage@,
                final(self).storage@,
                (),
                old(self).storage@.with_company(company),
            ),
            forall|now: u64| #[trigger]
                old(self).steps_to(
                    *final(self),
                    now,
                    (Call::AddCompany { caller, company }),
                ),
            final(self).same_contract(*old(self)),
    {
        self.check_admin(caller)?;
        self.storage.add_company(company);
        Ok(())
    }

    /// Registers a carrier.
    pub fn add_carrier(&mut self, caller: Address, carrier: Address) -> (r: Result<(), NavinError>)
        ensures
            answered(
                r,
                old(self).storage@.admin_refusal(caller),
                old(self).storage@,
                final(self).storage@,
                (),
                old(self).storage@.with_carrier(carrier),
            ),
            forall|now: u64| #[trigger]
                old(self).steps_to(
                    *final(self),
                    now,
                    (Call::AddCarrier { caller, carrier }),
                ),
            final(self).same_contract(*old(self)),
    {
        self.check_admin(caller)?;
        self.storage.add_carrier(carrier);
        Ok(())
    }

    /// Keeps a carrier from acting.
    pub fn suspend_carrier(&mut self, caller: Address, carrier: Address) -> (r: Result<
        (),
        NavinError,
    >)
        ensures
            answered(
                r,
                old(self).storage@.admin_refusal(caller),
                old(self).storage@,
                final(self).storage@,
                (),
                old(self).storage@.with_suspension(carrier),
            ),
            forall|now: u64| #[trigger]
                old(self).steps_to(
                    *final(self),
                    now,
                    (Call::SuspendCarrier { caller, carrier }),
                ),
            final(self).same_contract(*old(self)),
    {
        self.check_admin(caller)?;
        self.storage.suspend(carrier);
        Ok(())
    }

    /// Lets a carrier act again.
    pub fn reactivate_carrier(&mut self, caller: Address, carrier: Address) -> (r: Result<
        (),
        NavinError,
    >)
        ensures
            answered(
                r,
                old(self).storage@.admin_refusal(caller),
                old(self).storage@,
                final(self).storage@,
                (),
                old(self).storage@.without_suspension(carrier),
            ),
            forall|now: u64| #[trigger]
                old(self).steps_to(
                    *final(self),
                    now,
                    (Call::ReactivateCarrier { caller, carrier }),
                ),
            final(self).same_contract(*old(self)),
    {
        self.check_admin(caller)?;
        self.storage.reactivate(carrier);
        Ok(())
    }

    /// Notes that a company accepts a carrier.
    pub fn add_carrier_to_whitelist(&mut self, company: Address, carrier: Address) -> (r: Result<
        (),
        NavinError,
    >)
        ensures
            answered(
                r,
                old(self).storage@.company_refusal(company),
                old(self).storage@,
                final(self).storage@,
                (),
                old(self).storage@.whitelisting(company, carrier),
            ),
            forall|now: u64| #[trigger]
                old(self).steps_to(
                    *final(self),
                    now,
                    (Call::AddCarrierToWhitelist { company, carrier }),
                ),
            final(self).same_contract(*old(self)),
    {
        if !self.storage.is_company(company) {
            return Err(NavinError::Unauthorized);
        }
        self.storage.add_carrier_to_whitelist(company, carrier);
        Ok(())
    }

    /// Notes that a company does not accept a carrier.
    pub fn remove_carrier_from_whitelist(
        &mut self,
        company: Address,
        carrier: Address,
    ) -> (r: Result<(), NavinError>)
        ensures
            answered(
                r,
                old(self).storage@.company_refusal(company),
                old(self).storage@,
                final(self).storage@,
                (),
                old(self).storage@.delisting(company, carrier),
            ),
            forall|now: u64| #[trigger]
                old(self).steps_to(
                    *final(self),
                    now,
                    (Call::RemoveCarrierFromWhitelist { company, carrier }),
                ),
            final(self).same_contract(*old(self)),
    {
        if !self.storage.is_company(company) {
            return Err(NavinError::Unauthorized);
        }
        self.storage.remove_carrier_from_whitelist(company, carrier);
        Ok(())
    }

    /// Whether a company accepts a carrier.
    pub fn is_carrier_whitelisted(&self, company: Address, carrier: Address) -> (r: bool)
        ensures
            r == self.storage@.whitelist.contains((company, carrier)),
    {
        self.storage.is_carrier_whitelisted(company, carrier)
    }

    /// Replaces the configuration.
    pub fn update_config(&mut self, caller: Address, config: ContractConfig) -> (r: Result<
        (),
        NavinError,
    >)
        ensures
            answered(
                r,
                old(self).storage@.admin_refusal(caller),
                old(self).storage@,
                final(self).storage@,
                (),
                old(self).storage@.configured(config),
            ),
            forall|now: u64| #[trigger]
                old(self).steps_to(
                    *final(self),
                    now,
                    (Call::UpdateConfig { caller, config }),
                ),
            final(self).same_contract(*old(self)),
    {
        self.check_admin(caller)?;
        self.storage.set_config(config);
        Ok(())
    }

    /// The configuration in force.
    pub fn get_contract_config(&self) -> (config: ContractConfig)
        ensures
            config == self.storage@.config,
    {
        self.storage.get_config()
    }

    /// The checksum of the configuration in force.
    pub fn get_config_checksum(&self) -> (checksum: [u8; 32])
        ensures
            checksum@ == self.storage@.config_checksum,
    {
        self.storage.get_config_checksum()
    }

    /// The version of the code.
    pub fn get_version(&self) -> (version: u32)
        ensures
            version == self.storage@.version,
    {
        self.storage.get_version()
    }

    /// Notes that the contract now runs the code with hash `wasm_hash`, as version `target`.
    pub fn upgrade(&mut self, caller: Address, wasm_hash: [u8; 32], target: u32) -> (r: Result<
        (),
        NavinError,
    >)
        ensures
            answered(
                r,
                old(self).storage@.upgrade_refusal(caller, target),
                old(self).storage@,
                final(self).storage@,
                (),
                old(self).storage@.upgraded(wasm_hash, target),
            ),
            forall|now: u64| #[trigger]
                old(self).steps_to(
                    *final(self),
                    now,
                    (Call::Upgrade { caller, wasm_hash, target }),
                ),
            final(self).same_contract(*old(self)),
    {
        self.check_admin(caller)?;
        let version: u32 = self.storage.get_version();
        if version == u32::MAX || target != version + 1 {
            return Err(NavinError::InvalidVersion);
        }
        self.storage.set_version(target);
        self.storage.set_wasm_hash(Some(wasm_hash));
        Ok(())
    }

    /// Stores a shipment that has been checked.
    fn store_new_shipment(
        &mut self,
        now: u64,
        company: Address,
        receiver: Address,
        carrier: Address,
        data_hash: [u8; 32],
        payment_milestones: Vec<Milestone>,
        deadline: u64,
    ) -> (id: u64)
        requires
            old(self).storage@.shipment_counter < u64::MAX,
        ensures
            id == old(self).storage@.next_id(),
            final(self).storage@ == old(self).storage@.created(
                now,
                company,
                ShipmentInputView {
                    receiver,
                    carrier,
                    data_hash,
                    payment_milestones: schedule(payment_milestones@),
                    deadline,
                },
            ),
            final(self).same_contract(*old(self)),
    {
        let id: u64 = self.storage.get_shipment_counter() + 1;
        self.storage.set_shipment_counter(id);
        let paid_milestones: Vec<String> = Vec::new();
        let shipment = Shipment {
            id,
            sender: company,
            receiver,
            carrier,
            status: ShipmentStatus::Created,
            data_hash,
            created_at: now,
            updated_at: now,
            deadline,
            escrow_amount: 0,
            total_escrow: 0,
            payment_milestones,
            paid_milestones,
            finalized: false,
        };
        assert(shipment@.paid_milestones =~= Seq::empty());
        self.storage.set_shipment(&shipment);
        self.storage.announce(Event::ShipmentCreated { shipment_id: id, data_hash });
        id
    }

    /// Creates a shipment and returns its number.
    pub fn create_shipment(
        &mut self,
        env: &Env,
        company: Address,
        receiver: Address,
        carrier: Address,
        data_hash: [u8; 32],
        payment_milestones: Vec<Milestone>,
        deadline: u64,
    ) -> (r: Result<u64, NavinError>)
        ensures
            answered(
                r,
                old(self).storage@.create_refusal(env.timestamp, company, deadline),
                old(self).storage@,
                final(self).storage@,
                old(self).storage@.next_id(),
                old(self).storage@.created(
                    env.timestamp,
                    company,
                    ShipmentInputView {
                        receiver,
                        carrier,
                        data_hash,
                        payment_milestones: schedule(payment_milestones@),
                        deadline,
                    },
                ),
            ),
            old(self).steps_to(
                *final(self),
                env.timestamp,
                (Call::CreateShipment {
                    company,
                    input: (ShipmentInputView {
                        receiver,
                        carrier,
                        data_hash,
                        payment_milestones: schedule(payment_milestones@),
                        deadline,
                    }),
                }),
            ),
            final(self).same_contract(*old(self)),
    {
        if !self.storage.is_company(company) {
            return Err(NavinError::Unauthorized);
        }
        if deadline <= env.timestamp {
            return Err(NavinError::InvalidTimestamp);
        }
        if self.storage.get_shipment_counter() == u64::MAX {
            return Err(NavinError::CounterOverflow);
        }
        Ok(
            self.store_new_shipment(
                env.timestamp,
                company,
                receiver,
                carrier,
                data_hash,
                payment_milestones,
                deadline,
            ),
        )
    }

    /// Creates a shipment for each entry of a batch, or none at all, and returns their numbers.
    pub fn create_shipments_batch(
        &mut self,
        env: &Env,
        company: Address,
        inputs: &Vec<ShipmentInput>,
    ) -> (r: Result<Vec<u64>, NavinError>)
        ensures
            match old(self).storage@.batch_refusal(env.timestamp, company, entries(inputs@)) {
                Some(e) => {
                    &&& r matches Err(error) && error == e
                    &&& final(self).storage@ == old(self).storage@
                },
                None => {
                    &&& r matches Ok(ids) && ids@ == old(self).storage@.next_ids(inputs@.len())
                    &&& final(self).storage@ == old(self).storage@.batch_created(
                        env.timestamp,
                        company,
                        entries(inputs@),
                    )
                },
            },
            old(self).steps_to(
                *final(self),
                env.timestamp,
                (Call::CreateShipmentsBatch { company, inputs: entries(inputs@) }),
            ),
            final(self).same_contract(*old(self)),
    {
        if !self.storage.is_company(company) {
            return Err(NavinError::Unauthorized);
        }
        let ghost all = entries(inputs@);
        let mut i: usize = 0;
        while i < inputs.len()
            invariant
                i <= inputs.len(),
                all == entries(inputs@),
                forall|j: int| 0 <= j < i ==> (#[trigger] all[j]).deadline > env.timestamp,
                self.storage@ == old(self).storage@,
                self.same_contract(*old(self)),
                old(self).storage@.company_refusal(company) is None,
            decreases inputs.len() - i,
        {
            assert(all[i as int] == inputs@[i as int]@);
            if inputs[i].deadline <= env.timestamp {
                return Err(NavinError::InvalidTimestamp);
            }
            i = i + 1;
        }
        if inputs.len() as u64 > u64::MAX - self.storage.get_shipment_counter() {
            return Err(NavinError::CounterOverflow);
        }
        let ghost before = self.storage@;
        let mut ids: Vec<u64> = Vec::new();
        let mut i: usize = 0;
        assert(all.take(0) =~= Seq::empty());
        while i < inputs.len()
            invariant
                i <= inputs.len(),
                all == entries(inputs@),
                before == old(self).storage@,
                before.shipment_counter + inputs.len() <= u64::MAX,
                self.storage@ == before.batch_created(env.timestamp, company, all.take(i as int)),
                self.storage@.shipment_counter == before.shipment_counter + i,
                ids@ == before.next_ids(i as nat),
                self.same_contract(*old(self)),
            decreases inputs.len() - i,
        {
            let input = &inputs[i];
            let id: u64 = self.store_new_shipment(
                env.timestamp,
                company,
                input.receiver,
                input.carrier,
                input.data_hash,
                clone_milestones(&input.payment_milestones),
                input.deadline,
            );
            ids.push(id);
            proof {
                assert(all.take(i + 1).drop_last() =~= all.take(i as int));
                assert(all.take(i + 1).last() == inputs@[i as int]@);
                assert(ids@ =~= before.next_ids((i + 1) as nat));
            }
            i = i + 1;
        }
        assert(all.take(inputs@.len() as int) =~= all);
        Ok(ids)
    }

    /// What is known of a shipment, archived or not.
    pub fn get_shipment(&self, id: u64) -> (r: Result<Shipment, NavinError>)
        ensures
            match self.storage@.read(id) {
                Ok(record) => r matches Ok(shipment) && shipment@ == record,
                Err(reason) => r matches Err(e) && e == reason,
            },
    {
        match self.storage.find_shipment(id) {
            Some(shipment) => Ok(shipment.clone()),
            None => Err(NavinError::ShipmentNotFound),
        }
    }

    /// What is known of each of several shipments: nothing for one that does not exist.
    pub fn get_shipments_batch(&self, ids: &Vec<u64>) -> (r: Vec<Option<Shipment>>)
        ensures
            shown(r@) == self.storage@.read_batch(ids@),
    {
        let mut r: Vec<Option<Shipment>> = Vec::new();
        let mut i: usize = 0;
        while i < ids.len()
            invariant
                i <= ids.len(),
                r@.len() == i,
                shown(r@) == self.storage@.read_batch(ids@.take(i as int)),
            decreases ids.len() - i,
        {
            let entry = match self.storage.find_shipment(ids[i]) {
                Some(shipment) => Some(shipment.clone()),
                None => None,
            };
            let ghost before = r@;
            r.push(entry);
            i = i + 1;
            assert forall|j: int| 0 <= j < i implies shown(r@)[j] == self.storage@.read_batch(
                ids@.take(i as int),
            )[j] by {
                if j < before.len() {
                    assert(shown(before)[j] == self.storage@.read_batch(ids@.take(i - 1))[j]);
                }
            }
            assert(shown(r@) =~= self.storage@.read_batch(ids@.take(i as int)));
        }
        assert(ids@.take(ids@.len() as int) =~= ids@);
        r
    }

    /// The number of shipments ever created.
    pub fn get_shipment_counter(&self) -> (count: u64)
        ensures
            count == self.storage@.shipment_counter,
    {
        self.storage.get_shipment_counter()
    }

    /// Counts over all shipments.
    pub fn get_analytics(&self) -> (analytics: Analytics)
        ensures
            analytics == (Analytics { total_shipments: self.storage@.shipment_counter }),
    {
        Analytics { total_shipments: self.storage.get_shipment_counter() }
    }

    /// The escrow held for a shipment: nothing where there is no entry.
    pub fn get_escrow_balance(&self, id: u64) -> (amount: i128)
        ensures
            amount == self.storage@.escrow(id),
    {
        self.storage.get_escrow(id)
    }

    /// The number of settlements made so far.
    pub fn get_settlement_count(&self) -> (count: usize)
        ensures
            count == self.storage@.settlements.len(),
    {
        self.storage.settlements().len()
    }

    /// The settlement with a given number: the first one has number 1.
    pub fn get_settlement(&self, number: usize) -> (r: Result<SettlementRecord, NavinError>)
        ensures
            r == (if 1 <= number <= self.storage@.settlements.len() {
                Ok(self.storage@.settlements[number - 1])
            } else {
                Err(NavinError::SettlementNotFound)
            }),
    {
        let settlements = self.storage.settlements();
        if number == 0 || number > settlements.len() {
            Err(NavinError::SettlementNotFound)
        } else {
            Ok(settlements[number - 1])
        }
    }

    /// The carrier reports how far a shipment has come.
    pub fn update_status(
        &mut self,
        env: &Env,
        caller: Address,
        id: u64,
        status: ShipmentStatus,
        data_hash: [u8; 32],
    ) -> (r: Result<(), NavinError>)
        ensures
            answered(
                r,
                old(self).storage@.update_status_refusal(env.timestamp, caller, id, status),
                old(self).storage@,
                final(self).storage@,
                (),
                old(self).storage@.status_updated(env.timestamp, id, status, data_hash),
            ),
            old(self).steps_to(
                *final(self),
                env.timestamp,
                (Call::UpdateStatus { caller, id, status, data_hash }),
            ),
            final(self).same_contract(*old(self)),
    {
        let mut shipment = match self.storage.get_shipment(id) {
            Some(shipment) => shipment,
            None => return Err(NavinError::ShipmentNotFound),
        };
        if caller != shipment.carrier {
            return Err(NavinError::Unauthorized);
        }
        if self.storage.is_suspended(caller) {
            return Err(NavinError::CarrierSuspended);
        }
        if !shipment.status.is_valid_transition(status) {
            return Err(NavinError::InvalidStatus);
        }
        if let Some(last) = self.storage.get_last_status_update(id) {
            let interval: u64 = self.storage.get_config().min_status_update_interval;
            if env.timestamp < last || env.timestamp - last < interval {
                return Err(NavinError::RateLimitExceeded);
            }
        }
        shipment.set_status(env.timestamp, status);
        shipment.data_hash = data_hash;
        self.storage.set_shipment(&shipment);
        self.storage.set_last_status_update(id, env.timestamp);
        self.storage.announce(Event::StatusUpdated { shipment_id: id, status, data_hash });
        Ok(())
    }

    /// One of the parties to a shipment raises a dispute.
    pub fn raise_dispute(
        &mut self,
        env: &Env,
        caller: Address,
        id: u64,
        reason_hash: [u8; 32],
    ) -> (r: Result<(), NavinError>)
        ensures
            answered(
                r,
                old(self).storage@.dispute_refusal(caller, id),
                old(self).storage@,
                final(self).storage@,
                (),
                old(self).storage@.moved_to(
                    env.timestamp,
                    id,
                    ShipmentStatus::Disputed,
                    reason_hash,
                ),
            ),
            old(self).steps_to(
                *final(self),
                env.timestamp,
                (Call::RaiseDispute { caller, id, reason_hash }),
            ),
            final(self).same_contract(*old(self)),
    {
        let mut shipment = match self.storage.get_shipment(id) {
            Some(shipment) => shipment,
            None => return Err(NavinError::ShipmentNotFound),
        };
        if !shipment.is_party(caller) {
            return Err(NavinError::Unauthorized);
        }
        if !shipment.status.is_open_case() {
            return Err(NavinError::InvalidStatus);
        }
        shipment.set_status(env.timestamp, ShipmentStatus::Disputed);
        self.storage.set_shipment(&shipment);
        self.storage.announce(
            Event::StatusUpdated {
                shipment_id: id,
                status: ShipmentStatus::Disputed,
                data_hash: reason_hash,
            },
        );
        Ok(())
    }

    /// The sender cancels a shipment. No token is moved: what is in escrow stays there until it is
    /// refunded.
    pub fn cancel_shipment(
        &mut self,
        env: &Env,
        caller: Address,
        id: u64,
        reason_hash: [u8; 32],
    ) -> (r: Result<(), NavinError>)
        ensures
            answered(
                r,
                old(self).storage@.cancel_refusal(caller, id),
                old(self).storage@,
                final(self).storage@,
                (),
                old(self).storage@.moved_to(
                    env.timestamp,
                    id,
                    ShipmentStatus::Cancelled,
                    reason_hash,
                ),
            ),
            old(self).steps_to(
                *final(self),
                env.timestamp,
                (Call::CancelShipment { caller, id, reason_hash }),
            ),
            final(self).same_contract(*old(self)),
    {
        let mut shipment = match self.storage.get_shipment(id) {
            Some(shipment) => shipment,
            None => return Err(NavinError::ShipmentNotFound),
        };
        if caller != shipment.sender {
            return Err(NavinError::Unauthorized);
        }
        if !shipment.status.is_open_case() {
            return Err(NavinError::InvalidStatus);
        }
        shipment.set_status(env.timestamp, ShipmentStatus::Cancelled);
        self.storage.set_shipment(&shipment);
        self.storage.announce(
            Event::StatusUpdated {
                shipment_id: id,
                status: ShipmentStatus::Cancelled,
                data_hash: reason_hash,
            },
        );
        Ok(())
    }

    /// The carrier hands a shipment over to another carrier.
    pub fn handoff_shipment(
        &mut self,
        env: &Env,
        caller: Address,
        to: Address,
        id: u64,
        data_hash: [u8; 32],
    ) -> (r: Result<(), NavinError>)
        ensures
            answered(
                r,
                old(self).storage@.handoff_refusal(caller, to, id),
                old(self).storage@,
                final(self).storage@,
                (),
                old(self).storage@.handed_off(env.timestamp, to, id, data_hash),
            ),
            old(self).steps_to(
                *final(self),
                env.timestamp,
                (Call::HandoffShipment { caller, to, id, data_hash }),
            ),
            final(self).same_contract(*old(self)),
    {
        let mut shipment = match self.storage.get_shipment(id) {
            Some(shipment) => shipment,
            None => return Err(NavinError::ShipmentNotFound),
        };
        let from = shipment.carrier;
        if caller != from || !self.storage.is_carrier(to) {
            return Err(NavinError::Unauthorized);
        }
        if self.storage.is_suspended(caller) || self.storage.is_suspended(to) {
            return Err(NavinError::CarrierSuspended);
        }
        if shipment.status.is_terminal() {
            return Err(NavinError::InvalidStatus);
        }
        shipment.carrier = to;
        shipment.data_hash = data_hash;
        shipment.updated_at = env.timestamp;
        self.storage.set_shipment(&shipment);
        self.storage.announce(
            Event::CarrierHandoffCompleted { from_carrier: from, to_carrier: to, shipment_id: id },
        );
        Ok(())
    }

    /// Moves a shipment that has come to its end out of the persistent entries.
    pub fn archive_shipment(&mut self, caller: Address, id: u64) -> (r: Result<(), NavinError>)
        ensures
            answered(
                r,
                old(self).storage@.archive_refusal(caller, id),
                old(self).storage@,
                final(self).storage@,
                (),
                old(self).storage@.archiving(id),
            ),
            forall|now: u64| #[trigger]
                old(self).steps_to(
                    *final(self),
                    now,
                    (Call::ArchiveShipment { caller, id }),
                ),
            final(self).same_contract(*old(self)),
    {
        self.check_admin(caller)?;
        let shipment = match self.storage.get_shipment(id) {
            Some(shipment) => shipment,
            None => return Err(NavinError::ShipmentNotFound),
        };
        if !shipment.status.is_terminal() {
            return Err(NavinError::InvalidStatus);
        }
        if shipment.escrow_amount != 0 {
            return Err(NavinError::EscrowNotEmpty);
        }
        self.storage.remove_shipment(id);
        self.storage.set_archived_shipment(&shipment);
        Ok(())
    }
}

} // verus!
