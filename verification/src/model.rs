//! What each operation of the contract does to the stored entries, and when it is refused.
//!
//! An operation is described by two functions: one gives the reason for which it is refused, if
//! there is one, and the other the stored entries after it has been carried out.

use vstd::prelude::*;

use crate::circuit_breaker::CircuitBreakerTracker;
use crate::config::ContractConfig;
use crate::env::Address;
use crate::storage::StorageView;
use crate::token::Transfer;
use crate::types::{
    Event, NavinError, SettlementOperation, SettlementRecord, SettlementState, Shipment,
    ShipmentInputView, ShipmentStatus, ShipmentView,
};

verus! {

/// Whether a call was answered as it should be: it fails with the reason for which it is
/// refused and leaves everything as it was, or it returns `value` and leaves `applied`.
pub open spec fn answered<T>(
    r: Result<T, NavinError>,
    refusal: Option<NavinError>,
    before: StorageView,
    after: StorageView,
    value: T,
    applied: StorageView,
) -> bool {
    match refusal {
        Some(e) => r == Err::<T, NavinError>(e) && after == before,
        None => r == Ok::<T, NavinError>(value) && after == applied,
    }
}

/// What becomes of a shipment when its escrow payment has been made.
#[derive(Clone, Copy, Debug, PartialEq, Eq)]
pub enum Closing {
    Keep,
    Deliver { confirmation_hash: [u8; 32] },
    Cancel { reason_hash: [u8; 32] },
}

/// An escrow payment that has been begun: the payment, what it closes, and the circuit breaker
/// as it was before.
#[verifier::ext_equal]
pub struct PendingView {
    pub record: SettlementRecord,
    pub closing: Closing,
    pub breaker: CircuitBreakerTracker,
}

impl PendingView {
    /// The transfer that the token has to make.
    pub open spec fn transfer(self) -> Transfer {
        Transfer { from: self.record.from, to: self.record.to, amount: self.record.amount }
    }
}

impl ShipmentView {
    /// A shipment that has just been handed in.
    pub open spec fn fresh(
        id: u64,
        now: u64,
        company: Address,
        input: ShipmentInputView,
    ) -> ShipmentView {
        ShipmentView {
            id,
            sender: company,
            receiver: input.receiver,
            carrier: input.carrier,
            status: ShipmentStatus::Created,
            data_hash: input.data_hash,
            created_at: now,
            updated_at: now,
            deadline: input.deadline,
            escrow_amount: 0,
            total_escrow: 0,
            payment_milestones: input.payment_milestones,
            paid_milestones: Seq::empty(),
            finalized: false,
        }
    }
}

/// The shipments that were found, as the contracts of this library speak of them.
pub open spec fn shown(found: Seq<Option<Shipment>>) -> Seq<Option<ShipmentView>> {
    Seq::new(
        found.len(),
        |i: int|
            match found[i] {
                Some(shipment) => Some(shipment@),
                None => None,
            },
    )
}

impl StorageView {
    /// What is read of one shipment.
    pub open spec fn read(self, id: u64) -> Result<ShipmentView, NavinError> {
        match self.record(id) {
            Some(shipment) => Ok(shipment),
            None => Err(NavinError::ShipmentNotFound),
        }
    }

    /// What is read of several shipments at once: nothing for those that there are not.
    pub open spec fn read_batch(self, ids: Seq<u64>) -> Seq<Option<ShipmentView>> {
        Seq::new(ids.len(), |i: int| self.record(ids[i]))
    }

    /// Why `caller` may not act as the administrator.
    pub open spec fn admin_refusal(self, caller: Address) -> Option<NavinError> {
        match self.admin {
            None => Some(NavinError::NotInitialized),
            Some(admin) => if caller == admin {
                None
            } else {
                Some(NavinError::Unauthorized)
            },
        }
    }

    /// Why `caller` may not act as a company.
    pub open spec fn company_refusal(self, caller: Address) -> Option<NavinError> {
        if self.companies.contains(caller) {
            None
        } else {
            Some(NavinError::Unauthorized)
        }
    }

    pub open spec fn initialize_refusal(self) -> Option<NavinError> {
        if self.admin is Some {
            Some(NavinError::AlreadyInitialized)
        } else {
            None
        }
    }

    pub open spec fn initialized(self, admin: Address, decimals: u32) -> StorageView {
        StorageView {
            admin: Some(admin),
            version: 1,
            token_decimals: decimals,
            config: ContractConfig::initial(),
            config_checksum: ContractConfig::initial().checksum(),
            ..self
        }
    }

    pub open spec fn with_company(self, company: Address) -> StorageView {
        StorageView { companies: self.companies.insert(company), ..self }
    }

    pub open spec fn with_carrier(self, carrier: Address) -> StorageView {
        StorageView { carriers: self.carriers.insert(carrier), ..self }
    }

    pub open spec fn with_suspension(self, carrier: Address) -> StorageView {
        StorageView { suspended: self.suspended.insert(carrier), ..self }
    }

    pub open spec fn without_suspension(self, carrier: Address) -> StorageView {
        StorageView { suspended: self.suspended.remove(carrier), ..self }
    }

    pub open spec fn whitelisting(self, company: Address, carrier: Address) -> StorageView {
        StorageView { whitelist: self.whitelist.insert((company, carrier)), ..self }
    }

    pub open spec fn delisting(self, company: Address, carrier: Address) -> StorageView {
        StorageView { whitelist: self.whitelist.remove((company, carrier)), ..self }
    }

    pub open spec fn configured(self, config: ContractConfig) -> StorageView {
        StorageView { config, config_checksum: config.checksum(), ..self }
    }

    pub open spec fn upgrade_refusal(self, caller: Address, target: u32) -> Option<NavinError> {
        if self.admin_refusal(caller) is Some {
            self.admin_refusal(caller)
        } else if target != self.version + 1 {
            Some(NavinError::InvalidVersion)
        } else {
            None
        }
    }

    pub open spec fn upgraded(self, wasm_hash: [u8; 32], target: u32) -> StorageView {
        StorageView { version: target, wasm_hash: Some(wasm_hash), ..self }
    }

    /// A shipment must be due after the moment at which it is created.
    pub open spec fn create_refusal(self, now: u64, company: Address, deadline: u64) -> Option<
        NavinError,
    > {
        if self.company_refusal(company) is Some {
            self.company_refusal(company)
        } else if deadline <= now {
            Some(NavinError::InvalidTimestamp)
        } else if self.shipment_counter == u64::MAX {
            Some(NavinError::CounterOverflow)
        } else {
            None
        }
    }

    /// The number that the next shipment gets.
    pub open spec fn next_id(self) -> u64 {
        (self.shipment_counter + 1) as u64
    }

    pub open spec fn created(
        self,
        now: u64,
        company: Address,
        input: ShipmentInputView,
    ) -> StorageView {
        StorageView { shipment_counter: self.next_id(), ..self }.storing(
            ShipmentView::fresh(self.next_id(), now, company, input),
        ).announcing(
            Event::ShipmentCreated { shipment_id: self.next_id(), data_hash: input.data_hash },
        )
    }

    /// A batch is refused as a whole where one of its entries would be.
    pub open spec fn batch_refusal(
        self,
        now: u64,
        company: Address,
        inputs: Seq<ShipmentInputView>,
    ) -> Option<NavinError> {
        if self.company_refusal(company) is Some {
            self.company_refusal(company)
        } else if exists|i: int| 0 <= i < inputs.len() && (#[trigger] inputs[i]).deadline <= now {
            Some(NavinError::InvalidTimestamp)
        } else if self.shipment_counter + inputs.len() > u64::MAX {
            Some(NavinError::CounterOverflow)
        } else {
            None
        }
    }

    /// The entries of a batch become shipments one after the other.
    pub open spec fn batch_created(
        self,
        now: u64,
        company: Address,
        inputs: Seq<ShipmentInputView>,
    ) -> StorageView
        decreases inputs.len(),
    {
        if inputs.len() == 0 {
            self
        } else {
            self.batch_created(now, company, inputs.drop_last()).created(
                now,
                company,
                inputs.last(),
            )
        }
    }

    /// The numbers that the next `count` shipments get.
    pub open spec fn next_ids(self, count: nat) -> Seq<u64> {
        Seq::new(count, |i: int| (self.shipment_counter + 1 + i) as u64)
    }

    /// Whether the carrier updated the status too short a while ago.
    pub open spec fn rate_limited(self, now: u64, id: u64) -> bool {
        self.last_status_updates.contains_key(id) && now < self.last_status_updates[id]
            + self.config.min_status_update_interval
    }

    pub open spec fn update_status_refusal(
        self,
        now: u64,
        caller: Address,
        id: u64,
        status: ShipmentStatus,
    ) -> Option<NavinError> {
        if !self.shipments.contains_key(id) {
            Some(NavinError::ShipmentNotFound)
        } else if caller != self.shipments[id].carrier {
            Some(NavinError::Unauthorized)
        } else if self.suspended.contains(caller) {
            Some(NavinError::CarrierSuspended)
        } else if !self.shipments[id].status.may_become(status) {
            Some(NavinError::InvalidStatus)
        } else if self.rate_limited(now, id) {
            Some(NavinError::RateLimitExceeded)
        } else {
            None
        }
    }

    pub open spec fn status_updated(
        self,
        now: u64,
        id: u64,
        status: ShipmentStatus,
        data_hash: [u8; 32],
    ) -> StorageView {
        let stored = self.storing(
            ShipmentView { data_hash, ..self.shipments[id].with_status(now, status) },
        );
        StorageView {
            last_status_updates: stored.last_status_updates.insert(id, now),
            ..stored
        }.announcing(Event::StatusUpdated { shipment_id: id, status, data_hash })
    }

    pub open spec fn dispute_refusal(self, caller: Address, id: u64) -> Option<NavinError> {
        if !self.shipments.contains_key(id) {
            Some(NavinError::ShipmentNotFound)
        } else if !self.shipments[id].involves(caller) {
            Some(NavinError::Unauthorized)
        } else if !self.shipments[id].status.open_case() {
            Some(NavinError::InvalidStatus)
        } else {
            None
        }
    }

    pub open spec fn cancel_refusal(self, caller: Address, id: u64) -> Option<NavinError> {
        if !self.shipments.contains_key(id) {
            Some(NavinError::ShipmentNotFound)
        } else if caller != self.shipments[id].sender {
            Some(NavinError::Unauthorized)
        } else if !self.shipments[id].status.open_case() {
            Some(NavinError::InvalidStatus)
        } else {
            None
        }
    }

    /// The status of a shipment changes for the reason that `reason_hash` stands for.
    pub open spec fn moved_to(
        self,
        now: u64,
        id: u64,
        status: ShipmentStatus,
        reason_hash: [u8; 32],
    ) -> StorageView {
        self.storing(self.shipments[id].with_status(now, status)).announcing(
            Event::StatusUpdated { shipment_id: id, status, data_hash: reason_hash },
        )
    }

    pub open spec fn handoff_refusal(self, caller: Address, to: Address, id: u64) -> Option<
        NavinError,
    > {
        if !self.shipments.contains_key(id) {
            Some(NavinError::ShipmentNotFound)
        } else if caller != self.shipments[id].carrier {
            Some(NavinError::Unauthorized)
        } else if !self.carriers.contains(to) {
            Some(NavinError::Unauthorized)
        } else if self.suspended.contains(caller) || self.suspended.contains(to) {
            Some(NavinError::CarrierSuspended)
        } else if self.shipments[id].status.terminal() {
            Some(NavinError::InvalidStatus)
        } else {
            None
        }
    }

    pub open spec fn handed_off(
        self,
        now: u64,
        to: Address,
        id: u64,
        data_hash: [u8; 32],
    ) -> StorageView {
        let shipment = self.shipments[id];
        self.storing(
            ShipmentView { carrier: to, data_hash, updated_at: now, ..shipment },
        ).announcing(
            Event::CarrierHandoffCompleted {
                from_carrier: shipment.carrier,
                to_carrier: to,
                shipment_id: id,
            },
        )
    }

    pub open spec fn archive_refusal(self, caller: Address, id: u64) -> Option<NavinError> {
        if self.admin_refusal(caller) is Some {
            self.admin_refusal(caller)
        } else if !self.shipments.contains_key(id) {
            Some(NavinError::ShipmentNotFound)
        } else if !self.shipments[id].status.terminal() {
            Some(NavinError::InvalidStatus)
        } else if self.shipments[id].escrow_amount != 0 {
            Some(NavinError::EscrowNotEmpty)
        } else {
            None
        }
    }

    pub open spec fn archiving(self, id: u64) -> StorageView {
        let shipment = self.shipments[id];
        StorageView {
            shipments: self.shipments.remove(id),
            archived: self.archived.insert(shipment.id, shipment),
            ..self
        }
    }

    /// Why no escrow payment can be begun at `now`, whatever it is for.
    pub open spec fn payment_refusal(self, now: u64) -> Option<NavinError> {
        if self.settlements.len() >= u64::MAX {
            Some(NavinError::CounterOverflow)
        } else if !self.circuit_breaker.allows(now) {
            Some(NavinError::CircuitBreakerOpen)
        } else {
            None
        }
    }

    /// While an escrow payment is under way, every other one is refused, before anything else
    /// is looked at.
    pub open spec fn deposit_refusal(
        self,
        now: u64,
        caller: Address,
        id: u64,
        amount: i128,
    ) -> Option<
        NavinError,
    > {
        if self.reentrancy_lock {
            Some(NavinError::ReentrancyDetected)
        } else if !self.shipments.contains_key(id) {
            Some(NavinError::ShipmentNotFound)
        } else if caller != self.shipments[id].sender {
            Some(NavinError::Unauthorized)
        } else if !(self.shipments[id].status is Created) {
            Some(NavinError::InvalidStatus)
        } else if amount <= 0 {
            Some(NavinError::InvalidAmount)
        } else if self.shipments[id].escrow_amount + amount > i128::MAX
            || self.shipments[id].total_escrow + amount > i128::MAX {
            Some(NavinError::ArithmeticError)
        } else {
            self.payment_refusal(now)
        }
    }

    pub open spec fn release_refusal(
        self,
        now: u64,
        caller: Address,
        id: u64,
    ) -> Option<NavinError> {
        if self.reentrancy_lock {
            Some(NavinError::ReentrancyDetected)
        } else if !self.shipments.contains_key(id) {
            Some(NavinError::ShipmentNotFound)
        } else if caller != self.shipments[id].receiver {
            Some(NavinError::Unauthorized)
        } else if !(self.shipments[id].status is Delivered) {
            Some(NavinError::InvalidStatus)
        } else if self.shipments[id].escrow_amount <= 0 {
            Some(NavinError::InsufficientFunds)
        } else {
            self.payment_refusal(now)
        }
    }

    pub open spec fn refund_refusal(
        self,
        now: u64,
        caller: Address,
        id: u64,
    ) -> Option<NavinError> {
        if self.reentrancy_lock {
            Some(NavinError::ReentrancyDetected)
        } else if !self.shipments.contains_key(id) {
            Some(NavinError::ShipmentNotFound)
        } else if caller != self.shipments[id].sender {
            Some(NavinError::Unauthorized)
        } else if !(self.shipments[id].status is Created || self.shipments[id].status is Cancelled) {
            Some(NavinError::InvalidStatus)
        } else if self.shipments[id].escrow_amount <= 0 {
            Some(NavinError::InsufficientFunds)
        } else {
            self.payment_refusal(now)
        }
    }

    /// Whether the end of a shipment takes an escrow payment.
    pub open spec fn holds_escrow(self, id: u64) -> bool {
        self.shipments[id].escrow_amount > 0
    }

    pub open spec fn confirm_refusal(
        self,
        now: u64,
        caller: Address,
        id: u64,
    ) -> Option<NavinError> {
        if self.reentrancy_lock {
            Some(NavinError::ReentrancyDetected)
        } else if !self.shipments.contains_key(id) {
            Some(NavinError::ShipmentNotFound)
        } else if caller != self.shipments[id].receiver {
            Some(NavinError::Unauthorized)
        } else if !self.shipments[id].status.under_way() {
            Some(NavinError::InvalidStatus)
        } else if self.holds_escrow(id) {
            self.payment_refusal(now)
        } else {
            None
        }
    }

    pub open spec fn force_cancel_refusal(self, now: u64, caller: Address, id: u64) -> Option<
        NavinError,
    > {
        if self.reentrancy_lock {
            Some(NavinError::ReentrancyDetected)
        } else if self.admin_refusal(caller) is Some {
            self.admin_refusal(caller)
        } else if !self.shipments.contains_key(id) {
            Some(NavinError::ShipmentNotFound)
        } else if self.shipments[id].status.terminal() {
            Some(NavinError::InvalidStatus)
        } else if self.holds_escrow(id) {
            self.payment_refusal(now)
        } else {
            None
        }
    }

    /// The payment of `amount` for a shipment, begun and not yet made.
    pub open spec fn pending(
        self,
        id: u64,
        operation: SettlementOperation,
        from: Address,
        to: Address,
        amount: i128,
        closing: Closing,
    ) -> PendingView {
        PendingView {
            record: SettlementRecord {
                id: (self.settlements.len() + 1) as u64,
                shipment_id: id,
                operation,
                state: SettlementState::Pending,
                from,
                to,
                amount,
            },
            closing,
            breaker: self.circuit_breaker,
        }
    }

    /// The sender pays into escrow.
    pub open spec fn deposit_payment(
        self,
        contract: Address,
        id: u64,
        amount: i128,
    ) -> PendingView {
        self.pending(
            id,
            SettlementOperation::Deposit,
            self.shipments[id].sender,
            contract,
            amount,
            Closing::Keep,
        )
    }

    /// All that is in escrow goes to the carrier.
    pub open spec fn release_payment(
        self,
        contract: Address,
        id: u64,
        closing: Closing,
    ) -> PendingView {
        self.pending(
            id,
            SettlementOperation::Release,
            contract,
            self.shipments[id].carrier,
            self.shipments[id].escrow_amount,
            closing,
        )
    }

    /// All that is in escrow goes back to the sender.
    pub open spec fn refund_payment(
        self,
        contract: Address,
        id: u64,
        closing: Closing,
    ) -> PendingView {
        self.pending(
            id,
            SettlementOperation::Refund,
            contract,
            self.shipments[id].sender,
            self.shipments[id].escrow_amount,
            closing,
        )
    }

    /// The entries while an escrow payment is under way.
    pub open spec fn payment_begun(self) -> StorageView {
        StorageView {
            reentrancy_lock: true,
            circuit_breaker: self.circuit_breaker.admitted(),
            ..self
        }
    }

    /// The entries after an escrow payment has failed.
    pub open spec fn payment_undone(self, pending: PendingView) -> StorageView {
        StorageView { reentrancy_lock: false, circuit_breaker: pending.breaker, ..self }
    }

    /// Why a payment that has been begun is not completed: the token did not make it, or what was
    /// done to the shipment meanwhile leaves no room for it. A shipment that has come to its end
    /// is not brought to another one.
    pub open spec fn settle_refusal(self, pending: PendingView, paid: bool) -> Option<NavinError> {
        let id = pending.record.shipment_id;
        let amount = pending.record.amount;
        if !paid {
            Some(NavinError::TokenTransferFailed)
        } else if !self.shipments.contains_key(id) {
            Some(NavinError::ShipmentNotFound)
        } else if !(pending.closing is Keep) && self.shipments[id].status.terminal() {
            Some(NavinError::InvalidStatus)
        } else if pending.record.operation is Deposit {
            if self.shipments[id].escrow_amount + amount > i128::MAX
                || self.shipments[id].total_escrow + amount > i128::MAX {
                Some(NavinError::ArithmeticError)
            } else {
                None
            }
        } else if self.shipments[id].escrow_amount < amount {
            Some(NavinError::InsufficientFunds)
        } else {
            None
        }
    }

    /// The shipment after an escrow payment has been made at `now`.
    pub open spec fn settled_shipment(self, now: u64, pending: PendingView) -> ShipmentView {
        let shipment = self.shipments[pending.record.shipment_id];
        let amount = pending.record.amount;
        let paid = if pending.record.operation is Deposit {
            ShipmentView {
                escrow_amount: (shipment.escrow_amount + amount) as i128,
                total_escrow: (shipment.total_escrow + amount) as i128,
                ..shipment
            }
        } else {
            ShipmentView { escrow_amount: (shipment.escrow_amount - amount) as i128, ..shipment }
        };
        paid.with_status(
            now,
            match pending.closing {
                Closing::Keep => shipment.status,
                Closing::Deliver { .. } => ShipmentStatus::Delivered,
                Closing::Cancel { .. } => ShipmentStatus::Cancelled,
            },
        )
    }

    /// The entries after `closing` has been noted for a shipment.
    pub open spec fn noting(self, id: u64, closing: Closing) -> StorageView {
        match closing {
            Closing::Keep => self,
            Closing::Deliver { confirmation_hash } => StorageView {
                confirmation_hashes: self.confirmation_hashes.insert(id, confirmation_hash),
                ..self
            }.announcing(
                Event::StatusUpdated {
                    shipment_id: id,
                    status: ShipmentStatus::Delivered,
                    data_hash: confirmation_hash,
                },
            ),
            Closing::Cancel { reason_hash } => self.announcing(
                Event::StatusUpdated {
                    shipment_id: id,
                    status: ShipmentStatus::Cancelled,
                    data_hash: reason_hash,
                },
            ),
        }
    }

    /// The entries after an escrow payment has been made at `now`.
    pub open spec fn settled(self, now: u64, pending: PendingView) -> StorageView {
        let id = pending.record.shipment_id;
        let shipment = self.settled_shipment(now, pending);
        let stored = self.storing(shipment);
        StorageView {
            escrows: stored.escrows.insert(id, shipment.escrow_amount),
            settlements: stored.settlements.push(
                SettlementRecord { state: SettlementState::Completed, ..pending.record },
            ),
            reentrancy_lock: false,
            circuit_breaker: CircuitBreakerTracker::reset(),
            ..stored
        }.announcing(
            Event::SettlementCompleted { shipment_id: id, settlement_id: pending.record.id },
        ).noting(id, pending.closing)
    }

    /// The entries after a shipment without escrow has come to its end at `now`.
    pub open spec fn ended(
        self,
        now: u64,
        id: u64,
        status: ShipmentStatus,
        closing: Closing,
    ) -> StorageView {
        self.storing(self.shipments[id].with_status(now, status)).noting(id, closing)
    }

    /// Why a call is refused that asks the token for a transfer, given why it is refused
    /// otherwise: the transfer counts last.
    pub open spec fn with_payment(refusal: Option<NavinError>, pays: bool) -> Option<NavinError> {
        if refusal is None && !pays {
            Some(NavinError::TokenTransferFailed)
        } else {
            refusal
        }
    }

    /// Why the receiver's confirmation is refused, given whether the token pays.
    pub open spec fn confirm_call_refusal(
        self,
        now: u64,
        caller: Address,
        id: u64,
        pays: bool,
    ) -> Option<
        NavinError,
    > {
        StorageView::with_payment(
            self.confirm_refusal(now, caller, id),
            pays || !self.holds_escrow(id),
        )
    }

    /// The entries after the receiver has confirmed the delivery: what is in escrow is released.
    pub open spec fn delivery_confirmed(
        self,
        now: u64,
        contract: Address,
        id: u64,
        hash: [u8; 32],
    ) -> StorageView {
        let closing = Closing::Deliver { confirmation_hash: hash };
        if self.holds_escrow(id) {
            self.settled(now, self.release_payment(contract, id, closing))
        } else {
            self.ended(now, id, ShipmentStatus::Delivered, closing)
        }
    }

    /// Why the administrator's cancellation is refused, given whether the token pays.
    pub open spec fn force_cancel_call_refusal(
        self,
        now: u64,
        caller: Address,
        id: u64,
        pays: bool,
    ) -> Option<
        NavinError,
    > {
        StorageView::with_payment(
            self.force_cancel_refusal(now, caller, id),
            pays || !self.holds_escrow(id),
        )
    }

    /// The entries after the administrator has cancelled: what is in escrow is refunded.
    pub open spec fn force_cancelled(
        self,
        now: u64,
        contract: Address,
        id: u64,
        hash: [u8; 32],
    ) -> StorageView {
        let closing = Closing::Cancel { reason_hash: hash };
        if self.holds_escrow(id) {
            self.settled(now, self.refund_payment(contract, id, closing))
        } else {
            self.ended(now, id, ShipmentStatus::Cancelled, closing)
        }
    }
}

} // verus!
