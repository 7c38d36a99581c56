//! What the contract keeps and reports.

use vstd::prelude::*;

use crate::env::Address;

verus! {

/// Why the contract refuses a call.
#[derive(Clone, Copy, Debug, PartialEq, Eq, Structural)]
pub enum NavinError {
    AlreadyInitialized,
    NotInitialized,
    Unauthorized,
    CarrierSuspended,
    ShipmentNotFound,
    SettlementNotFound,
    InvalidStatus,
    InvalidTimestamp,
    InvalidAmount,
    InvalidVersion,
    InsufficientFunds,
    EscrowNotEmpty,
    RateLimitExceeded,
    CounterOverflow,
    ArithmeticError,
    ReentrancyDetected,
    CircuitBreakerOpen,
    TokenTransferFailed,
}

impl NavinError {
    /// The number under which the error is published, where it has one.
    pub open spec fn published_code(self) -> Option<u32> {
        match self {
            NavinError::Unauthorized => Some(4u32),
            NavinError::TokenTransferFailed => Some(39u32),
            _ => None,
        }
    }

    /// The number under which the error is published, where it has one.
    pub fn code(self) -> (code: Option<u32>)
        ensures
            code == self.published_code(),
    {
        match self {
            NavinError::Unauthorized => Some(4),
            NavinError::TokenTransferFailed => Some(39),
            _ => None,
        }
    }
}

/// Where a shipment stands.
#[derive(Clone, Copy, Debug, PartialEq, Eq, Structural)]
pub enum ShipmentStatus {
    Created,
    InTransit,
    AtCheckpoint,
    Delivered,
    Disputed,
    Cancelled,
}

impl ShipmentStatus {
    /// Whether a shipment in this status has come to its end.
    pub open spec fn terminal(self) -> bool {
        self is Delivered || self is Cancelled
    }

    /// Whether a shipment in this status is on its way.
    pub open spec fn under_way(self) -> bool {
        self is InTransit || self is AtCheckpoint
    }

    /// Whether a shipment in this status is neither at its end nor under dispute.
    pub open spec fn open_case(self) -> bool {
        self is Created || self.under_way()
    }

    /// Whether a carrier may report `next` for a shipment in this status.
    pub open spec fn may_become(self, next: ShipmentStatus) -> bool {
        match self {
            ShipmentStatus::Created => next is InTransit,
            ShipmentStatus::InTransit => next is AtCheckpoint || next is Delivered,
            ShipmentStatus::AtCheckpoint => next is InTransit || next is Delivered,
            _ => false,
        }
    }

    pub fn is_terminal(self) -> (r: bool)
        ensures
            r == self.terminal(),
    {
        match self {
            ShipmentStatus::Delivered | ShipmentStatus::Cancelled => true,
            _ => false,
        }
    }

    pub fn is_under_way(self) -> (r: bool)
        ensures
            r == self.under_way(),
    {
        match self {
            ShipmentStatus::InTransit | ShipmentStatus::AtCheckpoint => true,
            _ => false,
        }
    }

    pub fn is_open_case(self) -> (r: bool)
        ensures
            r == self.open_case(),
    {
        match self {
            ShipmentStatus::Created
            | ShipmentStatus::InTransit
            | ShipmentStatus::AtCheckpoint => true,
            _ => false,
        }
    }

    pub fn is_valid_transition(self, next: ShipmentStatus) -> (r: bool)
        ensures
            r == self.may_become(next),
    {
        match (self, next) {
            (ShipmentStatus::Created, ShipmentStatus::InTransit) => true,
            (ShipmentStatus::InTransit, ShipmentStatus::AtCheckpoint) => true,
            (ShipmentStatus::InTransit, ShipmentStatus::Delivered) => true,
            (ShipmentStatus::AtCheckpoint, ShipmentStatus::InTransit) => true,
            (ShipmentStatus::AtCheckpoint, ShipmentStatus::Delivered) => true,
            _ => false,
        }
    }
}

/// A part of the payment that falls due at a named point of the route.
#[derive(Debug, PartialEq, Eq)]
pub struct Milestone {
    pub name: String,
    pub percentage: u32,
}

impl View for Milestone {
    type V = (Seq<char>, u32);

    open spec fn view(&self) -> (Seq<char>, u32) {
        (self.name@, self.percentage)
    }
}

impl Clone for Milestone {
    fn clone(&self) -> (r: Milestone)
        ensures
            r@ == self@,
    {
        Milestone { name: self.name.clone(), percentage: self.percentage }
    }
}

/// The payment schedule that `milestones` spells out.
pub open spec fn schedule(milestones: Seq<Milestone>) -> Seq<(Seq<char>, u32)> {
    milestones.map_values(|m: Milestone| m@)
}

/// The names that `names` spells out.
pub open spec fn spelled(names: Seq<String>) -> Seq<Seq<char>> {
    names.map_values(|n: String| n@)
}

/// A copy of a payment schedule.
pub fn clone_milestones(milestones: &Vec<Milestone>) -> (r: Vec<Milestone>)
    ensures
        schedule(r@) == schedule(milestones@),
{
    let mut r: Vec<Milestone> = Vec::new();
    let mut i: usize = 0;
    while i < milestones.len()
        invariant
            i <= milestones.len(),
            r@.len() == i,
            forall|j: int| 0 <= j < i ==> (#[trigger] r@[j])@ == milestones@[j]@,
        decreases milestones.len() - i,
    {
        r.push(milestones[i].clone());
        i = i + 1;
    }
    assert(schedule(r@) =~= schedule(milestones@));
    r
}

/// A copy of a list of names.
pub fn clone_names(names: &Vec<String>) -> (r: Vec<String>)
    ensures
        spelled(r@) == spelled(names@),
{
    let mut r: Vec<String> = Vec::new();
    let mut i: usize = 0;
    while i < names.len()
        invariant
            i <= names.len(),
            r@.len() == i,
            forall|j: int| 0 <= j < i ==> (#[trigger] r@[j])@ == names@[j]@,
        decreases names.len() - i,
    {
        r.push(names[i].clone());
        i = i + 1;
    }
    assert(spelled(r@) =~= spelled(names@));
    r
}

/// What is known of a shipment.
#[derive(Debug, PartialEq, Eq)]
pub struct Shipment {
    pub id: u64,
    pub sender: Address,
    pub receiver: Address,
    pub carrier: Address,
    pub status: ShipmentStatus,
    pub data_hash: [u8; 32],
    pub created_at: u64,
    pub updated_at: u64,
    pub deadline: u64,
    pub escrow_amount: i128,
    pub total_escrow: i128,
    pub payment_milestones: Vec<Milestone>,
    pub paid_milestones: Vec<String>,
    pub finalized: bool,
}

/// A shipment as the contracts of this library speak of it.
#[verifier::ext_equal]
pub struct ShipmentView {
    pub id: u64,
    pub sender: Address,
    pub receiver: Address,
    pub carrier: Address,
    pub status: ShipmentStatus,
    pub data_hash: [u8; 32],
    pub created_at: u64,
    pub updated_at: u64,
    pub deadline: u64,
    pub escrow_amount: i128,
    pub total_escrow: i128,
    pub payment_milestones: Seq<(Seq<char>, u32)>,
    pub paid_milestones: Seq<Seq<char>>,
    pub finalized: bool,
}

impl View for Shipment {
    type V = ShipmentView;

    open spec fn view(&self) -> ShipmentView {
        ShipmentView {
            id: self.id,
            sender: self.sender,
            receiver: self.receiver,
            carrier: self.carrier,
            status: self.status,
            data_hash: self.data_hash,
            created_at: self.created_at,
            updated_at: self.updated_at,
            deadline: self.deadline,
            escrow_amount: self.escrow_amount,
            total_escrow: self.total_escrow,
            payment_milestones: schedule(self.payment_milestones@),
            paid_milestones: spelled(self.paid_milestones@),
            finalized: self.finalized,
        }
    }
}

impl ShipmentView {
    /// The shipment after its status has become `status` at `now`.
    pub open spec fn with_status(self, now: u64, status: ShipmentStatus) -> ShipmentView {
        ShipmentView {
            status,
            updated_at: now,
            finalized: status.terminal() && self.escrow_amount == 0,
            ..self
        }
    }

    /// Whether `account` sent, carries or receives the shipment.
    pub open spec fn involves(self, account: Address) -> bool {
        account == self.sender || account == self.carrier || account == self.receiver
    }
}

impl Shipment {
    /// Changes the status at `now`.
    pub fn set_status(&mut self, now: u64, status: ShipmentStatus)
        ensures
            final(self)@ == old(self)@.with_status(now, status),
    {
        self.status = status;
        self.updated_at = now;
        self.finalized = status.is_terminal() && self.escrow_amount == 0;
    }

    /// Whether `account` sent, carries or receives the shipment.
    pub fn is_party(&self, account: Address) -> (r: bool)
        ensures
            r == self@.involves(account),
    {
        account == self.sender || account == self.carrier || account == self.receiver
    }
}

impl Clone for Shipment {
    fn clone(&self) -> (r: Shipment)
        ensures
            r@ == self@,
    {
        Shipment {
            id: self.id,
            sender: self.sender,
            receiver: self.receiver,
            carrier: self.carrier,
            status: self.status,
            data_hash: self.data_hash,
            created_at: self.created_at,
            updated_at: self.updated_at,
            deadline: self.deadline,
            escrow_amount: self.escrow_amount,
            total_escrow: self.total_escrow,
            payment_milestones: clone_milestones(&self.payment_milestones),
            paid_milestones: clone_names(&self.paid_milestones),
            finalized: self.finalized,
        }
    }
}

/// What a company hands in for each shipment of a batch.
#[derive(Debug, PartialEq, Eq)]
pub struct ShipmentInput {
    pub receiver: Address,
    pub carrier: Address,
    pub data_hash: [u8; 32],
    pub payment_milestones: Vec<Milestone>,
    pub deadline: u64,
}

/// An entry of a batch as the contracts of this library speak of it.
#[verifier::ext_equal]
pub struct ShipmentInputView {
    pub receiver: Address,
    pub carrier: Address,
    pub data_hash: [u8; 32],
    pub payment_milestones: Seq<(Seq<char>, u32)>,
    pub deadline: u64,
}

impl View for ShipmentInput {
    type V = ShipmentInputView;

    open spec fn view(&self) -> ShipmentInputView {
        ShipmentInputView {
            receiver: self.receiver,
            carrier: self.carrier,
            data_hash: self.data_hash,
            payment_milestones: schedule(self.payment_milestones@),
            deadline: self.deadline,
        }
    }
}

/// The entries that a batch holds.
pub open spec fn entries(inputs: Seq<ShipmentInput>) -> Seq<ShipmentInputView> {
    inputs.map_values(|i: ShipmentInput| i@)
}

/// What an escrow payment was for.
#[derive(Clone, Copy, Debug, PartialEq, Eq, Structural)]
pub enum SettlementOperation {
    Deposit,
    Release,
    Refund,
}

/// How far an escrow payment has come. A payment that fails is undone together with its record,
/// so the records that the contract keeps are completed ones.
#[derive(Clone, Copy, Debug, PartialEq, Eq, Structural)]
pub enum SettlementState {
    Pending,
    Completed,
}

/// An escrow payment.
#[derive(Clone, Copy, Debug, PartialEq, Eq, Structural)]
pub struct SettlementRecord {
    pub id: u64,
    pub shipment_id: u64,
    pub operation: SettlementOperation,
    pub state: SettlementState,
    pub from: Address,
    pub to: Address,
    pub amount: i128,
}

/// What the contract announces.
#[derive(Clone, Copy, Debug, PartialEq, Eq)]
pub enum Event {
    ShipmentCreated { shipment_id: u64, data_hash: [u8; 32] },
    StatusUpdated { shipment_id: u64, status: ShipmentStatus, data_hash: [u8; 32] },
    CarrierHandoffCompleted { from_carrier: Address, to_carrier: Address, shipment_id: u64 },
    SettlementCompleted { shipment_id: u64, settlement_id: u64 },
}

impl Event {
    /// The shipment that the event is about.
    pub open spec fn shipment(self) -> u64 {
        match self {
            Event::ShipmentCreated { shipment_id, .. } => shipment_id,
            Event::StatusUpdated { shipment_id, .. } => shipment_id,
            Event::CarrierHandoffCompleted { shipment_id, .. } => shipment_id,
            Event::SettlementCompleted { shipment_id, .. } => shipment_id,
        }
    }

    /// The name under which the event is published.
    pub open spec fn published_topic(self) -> Seq<char> {
        match self {
            Event::ShipmentCreated { .. } => "shipment_created"@,
            Event::StatusUpdated { .. } => "status_updated"@,
            Event::CarrierHandoffCompleted { .. } => "carrier_handoff_completed"@,
            Event::SettlementCompleted { .. } => "settlement_completed"@,
        }
    }

    pub fn shipment_id(&self) -> (id: u64)
        ensures
            id == self.shipment(),
    {
        match self {
            Event::ShipmentCreated { shipment_id, .. } => *shipment_id,
            Event::StatusUpdated { shipment_id, .. } => *shipment_id,
            Event::CarrierHandoffCompleted { shipment_id, .. } => *shipment_id,
            Event::SettlementCompleted { shipment_id, .. } => *shipment_id,
        }
    }

    pub fn topic(&self) -> (topic: String)
        ensures
            topic@ == self.published_topic(),
    {
        match self {
            Event::ShipmentCreated { .. } => "shipment_created".to_owned(),
            Event::StatusUpdated { .. } => "status_updated".to_owned(),
            Event::CarrierHandoffCompleted { .. } => "carrier_handoff_completed".to_owned(),
            Event::SettlementCompleted { .. } => "settlement_completed".to_owned(),
        }
    }
}

/// Counts over all shipments.
#[derive(Clone, Copy, Debug, PartialEq, Eq, Structural)]
pub struct Analytics {
    pub total_shipments: u64,
}

} // verus!
