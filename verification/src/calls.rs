//! The calls that change what the contract keeps, and what every history of them keeps true.

use vstd::prelude::*;

use crate::config::ContractConfig;
use crate::env::Address;
use crate::model::{Closing, PendingView};
use crate::storage::StorageView;
use crate::token::{Transfer, TOKEN_DECIMALS};
use crate::types::{
    NavinError, SettlementRecord, SettlementState, ShipmentInputView, ShipmentStatus,
    ShipmentView,
};

verus! {

/// A call that can change what the contract keeps.
pub enum Call {
    Initialize { admin: Address },
    AddCompany { caller: Address, company: Address },
    AddCarrier { caller: Address, carrier: Address },
    SuspendCarrier { caller: Address, carrier: Address },
    ReactivateCarrier { caller: Address, carrier: Address },
    AddCarrierToWhitelist { company: Address, carrier: Address },
    RemoveCarrierFromWhitelist { company: Address, carrier: Address },
    UpdateConfig { caller: Address, config: ContractConfig },
    Upgrade { caller: Address, wasm_hash: [u8; 32], target: u32 },
    CreateShipment { company: Address, input: ShipmentInputView },
    CreateShipmentsBatch { company: Address, inputs: Seq<ShipmentInputView> },
    UpdateStatus { caller: Address, id: u64, status: ShipmentStatus, data_hash: [u8; 32] },
    RaiseDispute { caller: Address, id: u64, reason_hash: [u8; 32] },
    CancelShipment { caller: Address, id: u64, reason_hash: [u8; 32] },
    HandoffShipment { caller: Address, to: Address, id: u64, data_hash: [u8; 32] },
    ArchiveShipment { caller: Address, id: u64 },
    DepositEscrow { caller: Address, id: u64, amount: i128 },
    ReleaseEscrow { caller: Address, id: u64 },
    RefundEscrow { caller: Address, id: u64 },
    ConfirmDelivery { caller: Address, id: u64, confirmation_hash: [u8; 32] },
    ForceCancelShipment { caller: Address, id: u64, reason_hash: [u8; 32] },
}

/// What a call meets: the time, the contract's own address, and whether its token pays.
pub struct Moment {
    pub now: u64,
    pub contract: Address,
    pub pays: bool,
}

impl Call {
    /// Whether the call moves escrow, and is refused while another one that does is under way.
    pub open spec fn guarded(self) -> bool {
        self is DepositEscrow || self is ReleaseEscrow || self is RefundEscrow
            || self is ConfirmDelivery || self is ForceCancelShipment
    }
}

impl StorageView {
    /// Why a call is refused.
    pub open spec fn refusal(self, at: Moment, call: Call) -> Option<NavinError> {
        match call {
            Call::Initialize { .. } => self.initialize_refusal(),
            Call::AddCompany { caller, .. } => self.admin_refusal(caller),
            Call::AddCarrier { caller, .. } => self.admin_refusal(caller),
            Call::SuspendCarrier { caller, .. } => self.admin_refusal(caller),
            Call::ReactivateCarrier { caller, .. } => self.admin_refusal(caller),
            Call::AddCarrierToWhitelist { company, .. } => self.company_refusal(company),
            Call::RemoveCarrierFromWhitelist { company, .. } => self.company_refusal(company),
            Call::UpdateConfig { caller, .. } => self.admin_refusal(caller),
            Call::Upgrade { caller, target, .. } => self.upgrade_refusal(caller, target),
            Call::CreateShipment { company, input } => self.create_refusal(
                at.now,
                company,
                input.deadline,
            ),
            Call::CreateShipmentsBatch { company, inputs } => self.batch_refusal(
                at.now,
                company,
                inputs,
            ),
            Call::UpdateStatus { caller, id, status, .. } => self.update_status_refusal(
                at.now,
                caller,
                id,
                status,
            ),
            Call::RaiseDispute { caller, id, .. } => self.dispute_refusal(caller, id),
            Call::CancelShipment { caller, id, .. } => self.cancel_refusal(caller, id),
            Call::HandoffShipment { caller, to, id, .. } => self.handoff_refusal(caller, to, id),
            Call::ArchiveShipment { caller, id } => self.archive_refusal(caller, id),
            Call::DepositEscrow { caller, id, amount } => StorageView::with_payment(
                self.deposit_refusal(at.now, caller, id, amount),
                at.pays,
            ),
            Call::ReleaseEscrow { caller, id } => StorageView::with_payment(
                self.release_refusal(at.now, caller, id),
                at.pays,
            ),
            Call::RefundEscrow { caller, id } => StorageView::with_payment(
                self.refund_refusal(at.now, caller, id),
                at.pays,
            ),
            Call::ConfirmDelivery { caller, id, .. } => self.confirm_call_refusal(
                at.now,
                caller,
                id,
                at.pays,
            ),
            Call::ForceCancelShipment { caller, id, .. } => self.force_cancel_call_refusal(
                at.now,
                caller,
                id,
                at.pays,
            ),
        }
    }

    /// What is kept after a call that is not refused.
    pub open spec fn applied(self, at: Moment, call: Call) -> StorageView {
        match call {
            Call::Initialize { admin } => self.initialized(admin, TOKEN_DECIMALS),
            Call::AddCompany { company, .. } => self.with_company(company),
            Call::AddCarrier { carrier, .. } => self.with_carrier(carrier),
            Call::SuspendCarrier { carrier, .. } => self.with_suspension(carrier),
            Call::ReactivateCarrier { carrier, .. } => self.without_suspension(carrier),
            Call::AddCarrierToWhitelist { company, carrier } => self.whitelisting(company, carrier),
            Call::RemoveCarrierFromWhitelist { company, carrier } => self.delisting(
                company,
                carrier,
            ),
            Call::UpdateConfig { config, .. } => self.configured(config),
            Call::Upgrade { wasm_hash, target, .. } => self.upgraded(wasm_hash, target),
            Call::CreateShipment { company, input } => self.created(at.now, company, input),
            Call::CreateShipmentsBatch { company, inputs } => self.batch_created(
                at.now,
                company,
                inputs,
            ),
            Call::UpdateStatus { id, status, data_hash, .. } => self.status_updated(
                at.now,
                id,
                status,
                data_hash,
            ),
            Call::RaiseDispute { id, reason_hash, .. } => self.moved_to(
                at.now,
                id,
                ShipmentStatus::Disputed,
                reason_hash,
            ),
            Call::CancelShipment { id, reason_hash, .. } => self.moved_to(
                at.now,
                id,
                ShipmentStatus::Cancelled,
                reason_hash,
            ),
            Call::HandoffShipment { to, id, data_hash, .. } => self.handed_off(
                at.now,
                to,
                id,
                data_hash,
            ),
            Call::ArchiveShipment { id, .. } => self.archiving(id),
            Call::DepositEscrow { id, amount, .. } => self.settled(
                at.now,
                self.deposit_payment(at.contract, id, amount),
            ),
            Call::ReleaseEscrow { id, .. } => self.settled(
                at.now,
                self.release_payment(at.contract, id, Closing::Keep),
            ),
            Call::RefundEscrow { id, .. } => self.settled(
                at.now,
                self.refund_payment(at.contract, id, Closing::Keep),
            ),
            Call::ConfirmDelivery { id, confirmation_hash, .. } => self.delivery_confirmed(
                at.now,
                at.contract,
                id,
                confirmation_hash,
            ),
            Call::ForceCancelShipment { id, reason_hash, .. } => self.force_cancelled(
                at.now,
                at.contract,
                id,
                reason_hash,
            ),
        }
    }

    /// The transfer that a call asks the token for, where it asks for one. Whatever can be held
    /// against the call has been looked at before.
    pub open spec fn transfer_asked(self, at: Moment, call: Call) -> Option<Transfer> {
        match call {
            Call::DepositEscrow { caller, id, amount } => if self.deposit_refusal(
                at.now,
                caller,
                id,
                amount,
            ) is None {
                Some(self.deposit_payment(at.contract, id, amount).transfer())
            } else {
                None
            },
            Call::ReleaseEscrow { caller, id } => if self.release_refusal(
                at.now,
                caller,
                id,
            ) is None {
                Some(self.release_payment(at.contract, id, Closing::Keep).transfer())
            } else {
                None
            },
            Call::RefundEscrow { caller, id } => if self.refund_refusal(at.now, caller, id) is None {
                Some(self.refund_payment(at.contract, id, Closing::Keep).transfer())
            } else {
                None
            },
            Call::ConfirmDelivery { caller, id, .. } => if self.confirm_refusal(
                at.now,
                caller,
                id,
            ) is None && self.holds_escrow(id) {
                Some(self.release_payment(at.contract, id, Closing::Keep).transfer())
            } else {
                None
            },
            Call::ForceCancelShipment { caller, id, .. } => if self.force_cancel_refusal(
                at.now,
                caller,
                id,
            ) is None && self.holds_escrow(id) {
                Some(self.refund_payment(at.contract, id, Closing::Keep).transfer())
            } else {
                None
            },
            _ => None,
        }
    }

    /// What is kept after a call: what was kept before where it is refused.
    pub open spec fn after(self, at: Moment, call: Call) -> StorageView {
        if self.refusal(at, call) is Some {
            self
        } else {
            self.applied(at, call)
        }
    }

    /// What is kept after several calls, one after the other.
    pub open spec fn after_all(self, history: Seq<(Moment, Call)>) -> StorageView
        decreases history.len(),
    {
        if history.len() == 0 {
            self
        } else {
            self.after_all(history.drop_last()).after(history.last().0, history.last().1)
        }
    }
}

/// What has been paid into escrow for a shipment, less what has been paid out.
pub open spec fn net_settled(settlements: Seq<SettlementRecord>, id: u64) -> int
    decreases settlements.len(),
{
    if settlements.len() == 0 {
        0
    } else {
        let last = settlements.last();
        net_settled(settlements.drop_last(), id) + if last.shipment_id != id {
            0
        } else if last.operation is Deposit {
            last.amount as int
        } else {
            -last.amount
        }
    }
}

impl StorageView {
    /// Whether what is kept under one number is as it should be at `now`. Beyond the number of
    /// the latest shipment there is nothing; up to it there is a shipment, in one place, which
    /// the checks find nothing wrong with and whose escrow is what the settlements come to.
    pub open spec fn sound_at(self, now: u64, id: u64) -> bool {
        if 1 <= id <= self.shipment_counter {
            &&& self.shipments.contains_key(id) != self.archived.contains_key(id)
            &&& self.record(id) matches Some(shipment)
            &&& shipment.id == id
            &&& shipment.escrow_amount == self.escrow(id)
            &&& shipment.escrow_amount == net_settled(self.settlements, id)
            &&& 0 <= shipment.escrow_amount <= shipment.total_escrow
            &&& shipment.finalization_valid()
            &&& shipment.paid_as_scheduled()
            &&& shipment.created_at <= shipment.updated_at <= now
            &&& shipment.created_at < shipment.deadline
        } else {
            &&& !self.shipments.contains_key(id)
            &&& !self.archived.contains_key(id)
            &&& !self.escrows.contains_key(id)
            &&& net_settled(self.settlements, id) == 0
        }
    }

    /// Whether the settlements are numbered from 1 on and all completed.
    pub open spec fn settlements_in_order(self) -> bool {
        forall|i: int|
            0 <= i < self.settlements.len() ==> (#[trigger] self.settlements[i]).id == i + 1
                && self.settlements[i].state is Completed
    }

    /// Whether everything that is kept is as it should be at `now`, be an escrow payment under
    /// way or not.
    pub open spec fn sound(self, now: u64) -> bool {
        &&& forall|id: u64| #[trigger] self.sound_at(now, id)
        &&& self.settlements_in_order()
        &&& self.config_checksum == self.config.checksum()
    }

    /// Whether everything that is kept is as it should be at `now`, and no escrow payment is
    /// under way.
    pub open spec fn healthy(self, now: u64) -> bool {
        self.sound(now) && !self.reentrancy_lock
    }
}

/// A further settlement counts towards its own shipment only.
proof fn net_settled_of_push(settlements: Seq<SettlementRecord>, record: SettlementRecord, id: u64)
    ensures
        net_settled(settlements.push(record), id) == net_settled(settlements, id)
            + if record.shipment_id != id {
            0
        } else if record.operation is Deposit {
            record.amount as int
        } else {
            -record.amount
        },
{
    assert(settlements.push(record).drop_last() =~= settlements);
}

/// What a new contract keeps is as it should be.
pub proof fn blank_is_healthy(now: u64)
    ensures
        StorageView::blank().healthy(now),
{
    assert forall|id: u64| #[trigger] StorageView::blank().sound_at(now, id) by {}
}

/// Time passes without harm.
pub proof fn soundness_outlasts_time(s: StorageView, now: u64, later: u64)
    requires
        s.sound(now),
        now <= later,
    ensures
        s.sound(later),
{
    assert forall|id: u64| #[trigger] s.sound_at(later, id) by {
        assert(s.sound_at(now, id));
    }
}

/// A new shipment is as it should be, and the others stay so.
proof fn creation_keeps_sound(s: StorageView, now: u64, company: Address, input: ShipmentInputView)
    requires
        s.sound(now),
        s.shipment_counter < u64::MAX,
        input.deadline > now,
    ensures
        s.created(now, company, input).sound(now),
{
    let t = s.created(now, company, input);
    assert forall|id: u64| #[trigger] t.sound_at(now, id) by {
        assert(s.sound_at(now, id));
        if id == s.next_id() {
            let shipment = ShipmentView::fresh(id, now, company, input);
            assert(t.shipments[id] == shipment);
            assert(shipment.paid_as_scheduled());
        }
    }
}

/// A batch of shipments is as it should be, and the others stay so.
proof fn batch_creation_keeps_sound(
    s: StorageView,
    now: u64,
    company: Address,
    inputs: Seq<ShipmentInputView>,
)
    requires
        s.sound(now),
        s.shipment_counter + inputs.len() <= u64::MAX,
        forall|i: int| 0 <= i < inputs.len() ==> (#[trigger] inputs[i]).deadline > now,
    ensures
        s.batch_created(now, company, inputs).sound(now),
        s.batch_created(now, company, inputs).shipment_counter == s.shipment_counter + inputs.len(),
    decreases inputs.len(),
{
    if inputs.len() > 0 {
        let rest = inputs.drop_last();
        assert forall|i: int| 0 <= i < rest.len() implies (#[trigger] rest[i]).deadline > now by {
            assert(rest[i] == inputs[i]);
        }
        batch_creation_keeps_sound(s, now, company, rest);
        creation_keeps_sound(
            s.batch_created(now, company, rest),
            now,
            company,
            inputs.last(),
        );
    }
}

/// Whether the milestones were paid as scheduled depends on the two lists alone.
proof fn schedule_decides(before: ShipmentView, after: ShipmentView)
    requires
        before.paid_as_scheduled(),
        after.payment_milestones == before.payment_milestones,
        after.paid_milestones == before.paid_milestones,
    ensures
        after.paid_as_scheduled(),
{
    assert forall|i: int| 0 <= i < after.paid_milestones.len() implies after.schedules(
        #[trigger] after.paid_milestones[i],
    ) by {
        let name = before.paid_milestones[i];
        assert(before.schedules(name));
        let k = choose|k: int|
            0 <= k < before.payment_milestones.len() && (#[trigger] before.payment_milestones[k]).0
                == name;
        assert(after.payment_milestones[k].0 == name);
    }
}

/// Replacing a shipment by one with the same escrow and times keeps everything as it should be.
proof fn replacement_keeps_sound(
    s: StorageView,
    t: StorageView,
    now: u64,
    id: u64,
    shipment: ShipmentView,
)
    requires
        s.sound(now),
        s.shipments.contains_key(id),
        ({
            let before = s.shipments[id];
            &&& shipment.id == before.id
            &&& shipment.escrow_amount == before.escrow_amount
            &&& shipment.total_escrow == before.total_escrow
            &&& shipment.created_at == before.created_at
            &&& shipment.updated_at == now
            &&& shipment.deadline == before.deadline
            &&& shipment.payment_milestones == before.payment_milestones
            &&& shipment.paid_milestones == before.paid_milestones
            &&& shipment.finalization_valid()
        }),
        t.shipments == s.shipments.insert(id, shipment),
        t.shipment_counter == s.shipment_counter,
        t.archived == s.archived,
        t.escrows == s.escrows,
        t.settlements == s.settlements,
        t.config == s.config,
        t.config_checksum == s.config_checksum,
    ensures
        t.sound(now),
{
    assert forall|other: u64| #[trigger] t.sound_at(now, other) by {
        assert(s.sound_at(now, other));
        if other == id {
            schedule_decides(s.shipments[id], shipment);
        }
    }
}

/// An escrow payment that is completed keeps everything as it should be.
proof fn settlement_keeps_sound(s: StorageView, now: u64, pending: PendingView)
    requires
        s.sound(now),
        s.settle_refusal(pending, true) is None,
        pending.record.id == s.settlements.len() + 1,
        pending.record.amount > 0,
    ensures
        s.settled(now, pending).sound(now),
{
    let id = pending.record.shipment_id;
    let record = SettlementRecord { state: SettlementState::Completed, ..pending.record };
    let t = s.settled(now, pending);
    assert(s.sound_at(now, id));
    assert(t.settlements == s.settlements.push(record));
    assert(t.shipments == s.shipments.insert(id, s.settled_shipment(now, pending)));
    assert forall|other: u64| #[trigger] t.sound_at(now, other) by {
        assert(s.sound_at(now, other));
        net_settled_of_push(s.settlements, record, other);
        if other == id {
            schedule_decides(s.shipments[id], t.shipments[id]);
        }
    }
    assert forall|i: int| 0 <= i < t.settlements.len() implies (#[trigger] t.settlements[i]).id == i
        + 1 && t.settlements[i].state is Completed by {
        if i < s.settlements.len() {
            assert(s.settlements[i].id == i + 1);
        }
    }
}

/// Every call keeps everything as it should be, whoever makes it, whatever the token does, and be
/// an escrow payment under way or not.
pub proof fn calls_keep_sound(s: StorageView, at: Moment, call: Call)
    requires
        s.sound(at.now),
    ensures
        s.after(at, call).sound(at.now),
{
    let t = s.after(at, call);
    if s.refusal(at, call) is None {
        match call {
            Call::CreateShipment { company, input } => {
                creation_keeps_sound(s, at.now, company, input);
            },
            Call::CreateShipmentsBatch { company, inputs } => {
                batch_creation_keeps_sound(s, at.now, company, inputs);
            },
            Call::UpdateStatus { id, status, data_hash, .. } => {
                assert(s.sound_at(at.now, id));
                replacement_keeps_sound(
                    s,
                    t,
                    at.now,
                    id,
                    ShipmentView { data_hash, ..s.shipments[id].with_status(at.now, status) },
                );
            },
            Call::RaiseDispute { id, .. } => {
                assert(s.sound_at(at.now, id));
                replacement_keeps_sound(
                    s,
                    t,
                    at.now,
                    id,
                    s.shipments[id].with_status(at.now, ShipmentStatus::Disputed),
                );
            },
            Call::CancelShipment { id, .. } => {
                assert(s.sound_at(at.now, id));
                replacement_keeps_sound(
                    s,
                    t,
                    at.now,
                    id,
                    s.shipments[id].with_status(at.now, ShipmentStatus::Cancelled),
                );
            },
            Call::HandoffShipment { to, id, data_hash, .. } => {
                assert(s.sound_at(at.now, id));
                replacement_keeps_sound(
                    s,
                    t,
                    at.now,
                    id,
                    ShipmentView { carrier: to, data_hash, updated_at: at.now, ..s.shipments[id] },
                );
            },
            Call::ArchiveShipment { id, .. } => {
                assert(s.sound_at(at.now, id));
                assert forall|other: u64| #[trigger] t.sound_at(at.now, other) by {
                    assert(s.sound_at(at.now, other));
                }
            },
            Call::DepositEscrow { id, amount, .. } => {
                settlement_keeps_sound(s, at.now, s.deposit_payment(at.contract, id, amount));
            },
            Call::ReleaseEscrow { id, .. } => {
                settlement_keeps_sound(
                    s,
                    at.now,
                    s.release_payment(at.contract, id, Closing::Keep),
                );
            },
            Call::RefundEscrow { id, .. } => {
                settlement_keeps_sound(s, at.now, s.refund_payment(at.contract, id, Closing::Keep));
            },
            Call::ConfirmDelivery { id, confirmation_hash, .. } => {
                assert(s.sound_at(at.now, id));
                if s.holds_escrow(id) {
                    settlement_keeps_sound(s, at.now, s.release_payment(
                            at.contract,
                            id,
                            Closing::Deliver { confirmation_hash },
                        ));
                } else {
                    replacement_keeps_sound(
                        s,
                        t,
                        at.now,
                        id,
                        s.shipments[id].with_status(at.now, ShipmentStatus::Delivered),
                    );
                }
            },
            Call::ForceCancelShipment { id, reason_hash, .. } => {
                assert(s.sound_at(at.now, id));
                if s.holds_escrow(id) {
                    settlement_keeps_sound(
                        s,
                        at.now,
                        s.refund_payment(at.contract, id, Closing::Cancel { reason_hash }),
                    );
                } else {
                    replacement_keeps_sound(
                        s,
                        t,
                        at.now,
                        id,
                        s.shipments[id].with_status(at.now, ShipmentStatus::Cancelled),
                    );
                }
            },
            _ => {
                assert forall|id: u64| #[trigger] t.sound_at(at.now, id) by {
                    assert(s.sound_at(at.now, id));
                }
            },
        }
    }
}

/// The lock is left as it was found: a call that takes it gives it back, whether the token pays or
/// not.
pub proof fn calls_give_the_lock_back(s: StorageView, at: Moment, call: Call)
    ensures
        s.after(at, call).reentrancy_lock == s.reentrancy_lock,
{
    if let Call::CreateShipmentsBatch { company, inputs } = call {
        batches_only_add_shipments(s, at.now, company, inputs);
    }
}

/// What a batch of new shipments leaves as it was.
pub proof fn batches_only_add_shipments(
    s: StorageView,
    now: u64,
    company: Address,
    inputs: Seq<ShipmentInputView>,
)
    ensures
        ({
            let t = s.batch_created(now, company, inputs);
            t == (StorageView {
                shipment_counter: t.shipment_counter,
                shipments: t.shipments,
                events: t.events,
                event_counts: t.event_counts,
                ..s
            })
        }),
    decreases inputs.len(),
{
    if inputs.len() > 0 {
        batches_only_add_shipments(s, now, company, inputs.drop_last());
    }
}

/// Every call keeps everything as it should be, and leaves no escrow payment under way.
pub proof fn calls_keep_health(s: StorageView, at: Moment, call: Call)
    requires
        s.healthy(at.now),
    ensures
        s.after(at, call).healthy(at.now),
{
    calls_keep_sound(s, at, call);
    calls_give_the_lock_back(s, at, call);
}

/// Whether the calls of a history were made one after the other, the last of them not after `now`.
pub open spec fn in_order(history: Seq<(Moment, Call)>, now: u64) -> bool
    decreases history.len(),
{
    history.len() == 0 || {
        &&& history.last().0.now <= now
        &&& in_order(history.drop_last(), history.last().0.now)
    }
}

/// Whatever calls have been made of a new contract, what it keeps is as it should be.
pub proof fn histories_keep_health(history: Seq<(Moment, Call)>, now: u64)
    requires
        in_order(history, now),
    ensures
        StorageView::blank().after_all(history).healthy(now),
    decreases history.len(),
{
    if history.len() == 0 {
        blank_is_healthy(now);
    } else {
        let (at, call) = history.last();
        let before = StorageView::blank().after_all(history.drop_last());
        histories_keep_health(history.drop_last(), at.now);
        calls_keep_health(before, at, call);
        soundness_outlasts_time(before.after(at, call), at.now, now);
    }
}

/// While an escrow payment is under way, no call touches the settlements or the lock.
proof fn nested_calls_leave_the_books(s: StorageView, at: Moment, call: Call)
    requires
        s.reentrancy_lock,
    ensures
        s.after(at, call).settlements == s.settlements,
        s.after(at, call).reentrancy_lock,
{
    if let Call::CreateShipmentsBatch { company, inputs } = call {
        batches_only_add_shipments(s, at.now, company, inputs);
    }
}

/// While an escrow payment is under way, other calls keep everything as it should be, and make no
/// settlement.
proof fn nested_histories_keep_sound(
    s: StorageView,
    start: u64,
    nested: Seq<(Moment, Call)>,
    now: u64,
)
    requires
        s.sound(start),
        s.reentrancy_lock,
        start <= now,
        in_order(nested, now),
        forall|i: int| 0 <= i < nested.len() ==> start <= (#[trigger] nested[i]).0.now,
    ensures
        s.after_all(nested).sound(now),
        s.after_all(nested).settlements == s.settlements,
        s.after_all(nested).reentrancy_lock,
    decreases nested.len(),
{
    if nested.len() == 0 {
        soundness_outlasts_time(s, start, now);
    } else {
        let rest = nested.drop_last();
        let (at, call) = nested.last();
        assert forall|i: int| 0 <= i < rest.len() implies start <= (#[trigger] rest[i]).0.now by {
            assert(rest[i] == nested[i]);
        }
        assert(start <= nested[nested.len() - 1].0.now);
        nested_histories_keep_sound(s, start, rest, at.now);
        let before = s.after_all(rest);
        calls_keep_sound(before, at, call);
        nested_calls_leave_the_books(before, at, call);
        soundness_outlasts_time(before.after(at, call), at.now, now);
    }
}

/// Whatever calls are made between the two steps of an escrow payment, by the token it is paid in
/// or by anyone else, what is kept in the end is as it should be: whether the transfer was made
/// or not, and whether there is still room for the payment or not.
pub proof fn nested_calls_do_no_harm(
    s: StorageView,
    start: u64,
    pending: PendingView,
    nested: Seq<(Moment, Call)>,
    now: u64,
    paid: bool,
)
    requires
        s.healthy(start),
        start <= now,
        in_order(nested, now),
        forall|i: int| 0 <= i < nested.len() ==> start <= (#[trigger] nested[i]).0.now,
        pending.record.id == s.settlements.len() + 1,
        pending.record.amount > 0,
    ensures
        ({
            let t = s.payment_begun().after_all(nested);
            if t.settle_refusal(pending, paid) is Some {
                t.payment_undone(pending).healthy(now)
            } else {
                t.settled(now, pending).healthy(now)
            }
        }),
{
    let begun = s.payment_begun();
    assert forall|id: u64| #[trigger] begun.sound_at(start, id) by {
        assert(s.sound_at(start, id));
    }
    nested_histories_keep_sound(begun, start, nested, now);
    let t = begun.after_all(nested);
    if t.settle_refusal(pending, paid) is Some {
        let undone = t.payment_undone(pending);
        assert forall|id: u64| #[trigger] undone.sound_at(now, id) by {
            assert(t.sound_at(now, id));
        }
    } else {
        settlement_keeps_sound(t, now, pending);
    }
}

} // verus!
