//! Laws of what the functions answer and leave behind, whatever they were given.

use vstd::prelude::*;

use crate::calls::Call;
use crate::circuit_breaker::{CircuitBreakerTracker, FAILURE_THRESHOLD};
use crate::config::{compute_config_checksum, sha256_digest, ContractConfig};
use crate::consistency::{
    check_all_consistency, check_batch_consistency, check_shipment_invariants,
    ConsistencyViolation,
};
use crate::contract::NavinShipment;
use crate::diagnostics::{ContractHealth, PersistentRestoreDiagnostics, StoragePresenceState};
use crate::env::{advance_ledger_time, future_deadline, Address, Env};
use crate::fixtures::{
    advance_to_delivered, create_one, dummy_hash, filled, hash_of, inject_escrow, prepare_test,
    setup, setup_fail, setup_ok, setup_single_shipment, Ctx,
};
use crate::laws::queries::{
    active_shipments_are_neither_delivered_nor_cancelled, checks_report_what_is_stored,
    inconsistent_shipments_are_missing_or_mismatched,
    late_shipments_are_in_transit_past_their_deadline, the_admin_sees_every_violation,
};
use crate::model::{shown, Closing};
use crate::settlement::{settle, PendingSettlement};
use crate::storage::{Storage, StorageView};
use crate::token::{
    FailingToken, MockToken, MockTokenConsistency, MockTokenError, Token, Transfer,
    TransferLog,
};
use crate::types::{
    entries, schedule, Analytics, Event, Milestone, NavinError, SettlementRecord, Shipment,
    ShipmentInput, ShipmentInputView, ShipmentStatus,
};

verus! {

// Calls.

/// Initialising is accepted or refused for the reason given, and sets the token where accepted.
pub proof fn initialize_answers(
    c: &mut NavinShipment,
    env: Env,
    admin: Address,
    token: Token,
    r: Result<(), NavinError>,
)
    requires
        call_ensures(NavinShipment::initialize, (c, &env, admin, token), r),
    ensures
        ({
            let s = old(c).storage@;
            let at = old(c).moment(env.timestamp);
            let call = Call::Initialize { admin };
            &&& r is Ok <==> s.refusal(at, call) is None
            &&& r is Err ==> s.refusal(at, call) == Some(r->Err_0)
            &&& final(c).storage@ == s.after(at, call)
            &&& final(c).address == old(c).address
            &&& final(c).token == if r is Ok {
                Some(token)
            } else {
                old(c).token
            }
            &&& final(c).asked@ == old(c).asked@
        }),
{
}

/// `add_company` does what the call of that name does, or is refused for its reason.
pub proof fn add_company_answers(
    c: &mut NavinShipment,
    now: u64,
    caller: Address,
    company: Address,
    r: Result<(), NavinError>,
)
    requires
        call_ensures(NavinShipment::add_company, (c, caller, company), r),
    ensures
        ({
            let s = old(c).storage@;
            let at = old(c).moment(now);
            let call = Call::AddCompany { caller, company };
            &&& r is Ok <==> s.refusal(at, call) is None
            &&& r is Err ==> s.refusal(at, call) == Some(r->Err_0)
            &&& final(c).storage@ == s.after(at, call)
            &&& final(c).address == old(c).address
            &&& final(c).token == old(c).token
            &&& final(c).asked@ == old(c).asked@
        }),
{
    assert(old(c).steps_to(*final(c), now, Call::AddCompany { caller, company }));
}

/// `add_carrier` does what the call of that name does, or is refused for its reason.
pub proof fn add_carrier_answers(
    c: &mut NavinShipment,
    now: u64,
    caller: Address,
    carrier: Address,
    r: Result<(), NavinError>,
)
    requires
        call_ensures(NavinShipment::add_carrier, (c, caller, carrier), r),
    ensures
        ({
            let s = old(c).storage@;
            let at = old(c).moment(now);
            let call = Call::AddCarrier { caller, carrier };
            &&& r is Ok <==> s.refusal(at, call) is None
            &&& r is Err ==> s.refusal(at, call) == Some(r->Err_0)
            &&& final(c).storage@ == s.after(at, call)
            &&& final(c).address == old(c).address
            &&& final(c).token == old(c).token
            &&& final(c).asked@ == old(c).asked@
        }),
{
    assert(old(c).steps_to(*final(c), now, Call::AddCarrier { caller, carrier }));
}

/// `suspend_carrier` does what the call of that name does, or is refused for its reason.
pub proof fn suspend_carrier_answers(
    c: &mut NavinShipment,
    now: u64,
    caller: Address,
    carrier: Address,
    r: Result<(), NavinError>,
)
    requires
        call_ensures(NavinShipment::suspend_carrier, (c, caller, carrier), r),
    ensures
        ({
            let s = old(c).storage@;
            let at = old(c).moment(now);
            let call = Call::SuspendCarrier { caller, carrier };
            &&& r is Ok <==> s.refusal(at, call) is None
            &&& r is Err ==> s.refusal(at, call) == Some(r->Err_0)
            &&& final(c).storage@ == s.after(at, call)
            &&& final(c).address == old(c).address
            &&& final(c).token == old(c).token
            &&& final(c).asked@ == old(c).asked@
        }),
{
    assert(old(c).steps_to(*final(c), now, Call::SuspendCarrier { caller, carrier }));
}

/// `reactivate_carrier` does what the call of that name does, or is refused for its reason.
pub proof fn reactivate_carrier_answers(
    c: &mut NavinShipment,
    now: u64,
    caller: Address,
    carrier: Address,
    r: Result<(), NavinError>,
)
    requires
        call_ensures(NavinShipment::reactivate_carrier, (c, caller, carrier), r),
    ensures
        ({
            let s = old(c).storage@;
            let at = old(c).moment(now);
            let call = Call::ReactivateCarrier { caller, carrier };
            &&& r is Ok <==> s.refusal(at, call) is None
            &&& r is Err ==> s.refusal(at, call) == Some(r->Err_0)
            &&& final(c).storage@ == s.after(at, call)
            &&& final(c).address == old(c).address
            &&& final(c).token == old(c).token
            &&& final(c).asked@ == old(c).asked@
        }),
{
    assert(old(c).steps_to(*final(c), now, Call::ReactivateCarrier { caller, carrier }));
}

/// `add_carrier_to_whitelist` does what the call of that name does, or is
/// refused for its reason.
pub proof fn add_carrier_to_whitelist_answers(
    c: &mut NavinShipment,
    now: u64,
    company: Address,
    carrier: Address,
    r: Result<(), NavinError>,
)
    requires
        call_ensures(NavinShipment::add_carrier_to_whitelist, (c, company, carrier), r),
    ensures
        ({
            let s = old(c).storage@;
            let at = old(c).moment(now);
            let call = Call::AddCarrierToWhitelist { company, carrier };
            &&& r is Ok <==> s.refusal(at, call) is None
            &&& r is Err ==> s.refusal(at, call) == Some(r->Err_0)
            &&& final(c).storage@ == s.after(at, call)
            &&& final(c).address == old(c).address
            &&& final(c).token == old(c).token
            &&& final(c).asked@ == old(c).asked@
        }),
{
    assert(old(c).steps_to(*final(c), now, Call::AddCarrierToWhitelist { company, carrier }));
}

/// `remove_carrier_from_whitelist` does what the call of that name does, or is
/// refused for its reason.
pub proof fn remove_carrier_from_whitelist_answers(
    c: &mut NavinShipment,
    now: u64,
    company: Address,
    carrier: Address,
    r: Result<(), NavinError>,
)
    requires
        call_ensures(NavinShipment::remove_carrier_from_whitelist, (c, company, carrier), r),
    ensures
        ({
            let s = old(c).storage@;
            let at = old(c).moment(now);
            let call = Call::RemoveCarrierFromWhitelist { company, carrier };
            &&& r is Ok <==> s.refusal(at, call) is None
            &&& r is Err ==> s.refusal(at, call) == Some(r->Err_0)
            &&& final(c).storage@ == s.after(at, call)
            &&& final(c).address == old(c).address
            &&& final(c).token == old(c).token
            &&& final(c).asked@ == old(c).asked@
        }),
{
    assert(old(c).steps_to(*final(c), now, Call::RemoveCarrierFromWhitelist { company, carrier }));
}

/// `update_config` does what the call of that name does, or is refused for its reason.
pub proof fn update_config_answers(
    c: &mut NavinShipment,
    now: u64,
    caller: Address,
    config: ContractConfig,
    r: Result<(), NavinError>,
)
    requires
        call_ensures(NavinShipment::update_config, (c, caller, config), r),
    ensures
        ({
            let s = old(c).storage@;
            let at = old(c).moment(now);
            let call = Call::UpdateConfig { caller, config };
            &&& r is Ok <==> s.refusal(at, call) is None
            &&& r is Err ==> s.refusal(at, call) == Some(r->Err_0)
            &&& final(c).storage@ == s.after(at, call)
            &&& final(c).address == old(c).address
            &&& final(c).token == old(c).token
            &&& final(c).asked@ == old(c).asked@
        }),
{
    assert(old(c).steps_to(*final(c), now, Call::UpdateConfig { caller, config }));
}

/// `upgrade` does what the call of that name does, or is refused for its reason.
pub proof fn upgrade_answers(
    c: &mut NavinShipment,
    now: u64,
    caller: Address,
    wasm_hash: [u8; 32],
    target: u32,
    r: Result<(), NavinError>,
)
    requires
        call_ensures(NavinShipment::upgrade, (c, caller, wasm_hash, target), r),
    ensures
        ({
            let s = old(c).storage@;
            let at = old(c).moment(now);
            let call = Call::Upgrade { caller, wasm_hash, target };
            &&& r is Ok <==> s.refusal(at, call) is None
            &&& r is Err ==> s.refusal(at, call) == Some(r->Err_0)
            &&& final(c).storage@ == s.after(at, call)
            &&& final(c).address == old(c).address
            &&& final(c).token == old(c).token
            &&& final(c).asked@ == old(c).asked@
        }),
{
    assert(old(c).steps_to(*final(c), now, Call::Upgrade { caller, wasm_hash, target }));
}

/// `archive_shipment` does what the call of that name does, or is refused for its reason.
pub proof fn archive_shipment_answers(
    c: &mut NavinShipment,
    now: u64,
    caller: Address,
    id: u64,
    r: Result<(), NavinError>,
)
    requires
        call_ensures(NavinShipment::archive_shipment, (c, caller, id), r),
    ensures
        ({
            let s = old(c).storage@;
            let at = old(c).moment(now);
            let call = Call::ArchiveShipment { caller, id };
            &&& r is Ok <==> s.refusal(at, call) is None
            &&& r is Err ==> s.refusal(at, call) == Some(r->Err_0)
            &&& final(c).storage@ == s.after(at, call)
            &&& final(c).address == old(c).address
            &&& final(c).token == old(c).token
            &&& final(c).asked@ == old(c).asked@
        }),
{
    assert(old(c).steps_to(*final(c), now, Call::ArchiveShipment { caller, id }));
}

/// A shipment is created from what was given, and its number given back.
pub proof fn create_shipment_answers(
    c: &mut NavinShipment,
    env: Env,
    company: Address,
    receiver: Address,
    carrier: Address,
    data_hash: [u8; 32],
    milestones: Vec<Milestone>,
    deadline: u64,
    r: Result<u64, NavinError>,
)
    requires
        call_ensures(
            NavinShipment::create_shipment,
            (c, &env, company, receiver, carrier, data_hash, milestones, deadline),
            r,
        ),
    ensures
        ({
            let s = old(c).storage@;
            let at = old(c).moment(env.timestamp);
            let call = Call::CreateShipment {
                company,
                input: ShipmentInputView {
                    receiver,
                    carrier,
                    data_hash,
                    payment_milestones: schedule(milestones@),
                    deadline,
                },
            };
            &&& r is Ok <==> s.refusal(at, call) is None
            &&& r is Err ==> s.refusal(at, call) == Some(r->Err_0)
            &&& final(c).storage@ == s.after(at, call)
            &&& final(c).address == old(c).address
            &&& final(c).token == old(c).token
            &&& final(c).asked@ == old(c).asked@
            &&& r is Ok ==> r->Ok_0 == s.shipment_counter + 1
        }),
{
}

/// A batch is created from what was given, and the numbers of its shipments given back in order.
pub proof fn create_shipments_batch_answers(
    c: &mut NavinShipment,
    env: Env,
    company: Address,
    inputs: Vec<ShipmentInput>,
    r: Result<Vec<u64>, NavinError>,
)
    requires
        call_ensures(NavinShipment::create_shipments_batch, (c, &env, company, &inputs), r),
    ensures
        ({
            let s = old(c).storage@;
            let at = old(c).moment(env.timestamp);
            let call = Call::CreateShipmentsBatch { company, inputs: entries(inputs@) };
            &&& r is Ok <==> s.refusal(at, call) is None
            &&& r is Err ==> s.refusal(at, call) == Some(r->Err_0)
            &&& final(c).storage@ == s.after(at, call)
            &&& final(c).address == old(c).address
            &&& final(c).token == old(c).token
            &&& final(c).asked@ == old(c).asked@
            &&& r is Ok ==> r->Ok_0@.len() == inputs@.len() && forall|i: int|
                0 <= i < inputs@.len() ==> #[trigger] r->Ok_0@[i] == s.shipment_counter + 1 + i
        }),
{
}

/// `update_status` does what the call of that name does, or is refused for its reason.
pub proof fn update_status_answers(
    c: &mut NavinShipment,
    env: Env,
    caller: Address,
    id: u64,
    status: ShipmentStatus,
    data_hash: [u8; 32],
    r: Result<(), NavinError>,
)
    requires
        call_ensures(NavinShipment::update_status, (c, &env, caller, id, status, data_hash), r),
    ensures
        ({
            let s = old(c).storage@;
            let at = old(c).moment(env.timestamp);
            let call = Call::UpdateStatus { caller, id, status, data_hash };
            &&& r is Ok <==> s.refusal(at, call) is None
            &&& r is Err ==> s.refusal(at, call) == Some(r->Err_0)
            &&& final(c).storage@ == s.after(at, call)
            &&& final(c).address == old(c).address
            &&& final(c).token == old(c).token
            &&& final(c).asked@ == old(c).asked@
        }),
{
}

/// `raise_dispute` does what the call of that name does, or is refused for its reason.
pub proof fn raise_dispute_answers(
    c: &mut NavinShipment,
    env: Env,
    caller: Address,
    id: u64,
    reason_hash: [u8; 32],
    r: Result<(), NavinError>,
)
    requires
        call_ensures(NavinShipment::raise_dispute, (c, &env, caller, id, reason_hash), r),
    ensures
        ({
            let s = old(c).storage@;
            let at = old(c).moment(env.timestamp);
            let call = Call::RaiseDispute { caller, id, reason_hash };
            &&& r is Ok <==> s.refusal(at, call) is None
            &&& r is Err ==> s.refusal(at, call) == Some(r->Err_0)
            &&& final(c).storage@ == s.after(at, call)
            &&& final(c).address == old(c).address
            &&& final(c).token == old(c).token
            &&& final(c).asked@ == old(c).asked@
        }),
{
}

/// `cancel_shipment` does what the call of that name does, or is refused for its reason.
pub proof fn cancel_shipment_answers(
    c: &mut NavinShipment,
    env: Env,
    caller: Address,
    id: u64,
    reason_hash: [u8; 32],
    r: Result<(), NavinError>,
)
    requires
        call_ensures(NavinShipment::cancel_shipment, (c, &env, caller, id, reason_hash), r),
    ensures
        ({
            let s = old(c).storage@;
            let at = old(c).moment(env.timestamp);
            let call = Call::CancelShipment { caller, id, reason_hash };
            &&& r is Ok <==> s.refusal(at, call) is None
            &&& r is Err ==> s.refusal(at, call) == Some(r->Err_0)
            &&& final(c).storage@ == s.after(at, call)
            &&& final(c).address == old(c).address
            &&& final(c).token == old(c).token
            &&& final(c).asked@ == old(c).asked@
        }),
{
}

/// `handoff_shipment` does what the call of that name does, or is refused for its reason.
pub proof fn handoff_shipment_answers(
    c: &mut NavinShipment,
    env: Env,
    caller: Address,
    to: Address,
    id: u64,
    data_hash: [u8; 32],
    r: Result<(), NavinError>,
)
    requires
        call_ensures(NavinShipment::handoff_shipment, (c, &env, caller, to, id, data_hash), r),
    ensures
        ({
            let s = old(c).storage@;
            let at = old(c).moment(env.timestamp);
            let call = Call::HandoffShipment { caller, to, id, data_hash };
            &&& r is Ok <==> s.refusal(at, call) is None
            &&& r is Err ==> s.refusal(at, call) == Some(r->Err_0)
            &&& final(c).storage@ == s.after(at, call)
            &&& final(c).address == old(c).address
            &&& final(c).token == old(c).token
            &&& final(c).asked@ == old(c).asked@
        }),
{
}

/// `deposit_escrow` does what the call of that name does, or is refused for its reason.
pub proof fn deposit_escrow_answers(
    c: &mut NavinShipment,
    env: Env,
    caller: Address,
    id: u64,
    amount: i128,
    r: Result<(), NavinError>,
)
    requires
        call_ensures(NavinShipment::deposit_escrow, (c, &env, caller, id, amount), r),
    ensures
        ({
            let s = old(c).storage@;
            let at = old(c).moment(env.timestamp);
            let call = Call::DepositEscrow { caller, id, amount };
            &&& r is Ok <==> s.refusal(at, call) is None
            &&& r is Err ==> s.refusal(at, call) == Some(r->Err_0)
            &&& final(c).storage@ == s.after(at, call)
            &&& final(c).address == old(c).address
            &&& final(c).token == old(c).token
            &&& final(c).asked@ == match s.transfer_asked(at, call) {
                Some(transfer) if old(c).token is Some => old(c).asked@.push(transfer),
                _ => old(c).asked@,
            }
        }),
{
}

/// `release_escrow` does what the call of that name does, or is refused for its reason.
pub proof fn release_escrow_answers(
    c: &mut NavinShipment,
    env: Env,
    caller: Address,
    id: u64,
    r: Result<(), NavinError>,
)
    requires
        call_ensures(NavinShipment::release_escrow, (c, &env, caller, id), r),
    ensures
        ({
            let s = old(c).storage@;
            let at = old(c).moment(env.timestamp);
            let call = Call::ReleaseEscrow { caller, id };
            &&& r is Ok <==> s.refusal(at, call) is None
            &&& r is Err ==> s.refusal(at, call) == Some(r->Err_0)
            &&& final(c).storage@ == s.after(at, call)
            &&& final(c).address == old(c).address
            &&& final(c).token == old(c).token
            &&& final(c).asked@ == match s.transfer_asked(at, call) {
                Some(transfer) if old(c).token is Some => old(c).asked@.push(transfer),
                _ => old(c).asked@,
            }
        }),
{
}

/// `refund_escrow` does what the call of that name does, or is refused for its reason.
pub proof fn refund_escrow_answers(
    c: &mut NavinShipment,
    env: Env,
    caller: Address,
    id: u64,
    r: Result<(), NavinError>,
)
    requires
        call_ensures(NavinShipment::refund_escrow, (c, &env, caller, id), r),
    ensures
        ({
            let s = old(c).storage@;
            let at = old(c).moment(env.timestamp);
            let call = Call::RefundEscrow { caller, id };
            &&& r is Ok <==> s.refusal(at, call) is None
            &&& r is Err ==> s.refusal(at, call) == Some(r->Err_0)
            &&& final(c).storage@ == s.after(at, call)
            &&& final(c).address == old(c).address
            &&& final(c).token == old(c).token
            &&& final(c).asked@ == match s.transfer_asked(at, call) {
                Some(transfer) if old(c).token is Some => old(c).asked@.push(transfer),
                _ => old(c).asked@,
            }
        }),
{
}

/// `confirm_delivery` does what the call of that name does, or is refused for its reason.
pub proof fn confirm_delivery_answers(
    c: &mut NavinShipment,
    env: Env,
    caller: Address,
    id: u64,
    confirmation_hash: [u8; 32],
    r: Result<(), NavinError>,
)
    requires
        call_ensures(NavinShipment::confirm_delivery, (c, &env, caller, id, confirmation_hash), r),
    ensures
        ({
            let s = old(c).storage@;
            let at = old(c).moment(env.timestamp);
            let call = Call::ConfirmDelivery { caller, id, confirmation_hash };
            &&& r is Ok <==> s.refusal(at, call) is None
            &&& r is Err ==> s.refusal(at, call) == Some(r->Err_0)
            &&& final(c).storage@ == s.after(at, call)
            &&& final(c).address == old(c).address
            &&& final(c).token == old(c).token
            &&& final(c).asked@ == match s.transfer_asked(at, call) {
                Some(transfer) if old(c).token is Some => old(c).asked@.push(transfer),
                _ => old(c).asked@,
            }
        }),
{
}

/// `force_cancel_shipment` does what the call of that name does, or is refused for its reason.
pub proof fn force_cancel_shipment_answers(
    c: &mut NavinShipment,
    env: Env,
    caller: Address,
    id: u64,
    reason_hash: [u8; 32],
    r: Result<(), NavinError>,
)
    requires
        call_ensures(NavinShipment::force_cancel_shipment, (c, &env, caller, id, reason_hash), r),
    ensures
        ({
            let s = old(c).storage@;
            let at = old(c).moment(env.timestamp);
            let call = Call::ForceCancelShipment { caller, id, reason_hash };
            &&& r is Ok <==> s.refusal(at, call) is None
            &&& r is Err ==> s.refusal(at, call) == Some(r->Err_0)
            &&& final(c).storage@ == s.after(at, call)
            &&& final(c).address == old(c).address
            &&& final(c).token == old(c).token
            &&& final(c).asked@ == match s.transfer_asked(at, call) {
                Some(transfer) if old(c).token is Some => old(c).asked@.push(transfer),
                _ => old(c).asked@,
            }
        }),
{
}

// Payments in two steps.

/// The first step of `deposit_escrow` is refused where the call with a token that pays would
/// be, and otherwise takes the lock and says which payment to make.
pub proof fn begin_deposit_escrow_answers(
    c: &mut NavinShipment,
    env: Env,
    caller: Address,
    id: u64,
    amount: i128,
    r: Result<PendingSettlement, NavinError>,
)
    requires
        call_ensures(NavinShipment::begin_deposit_escrow, (c, &env, caller, id, amount), r),
    ensures
        ({
            let s = old(c).storage@;
            let at = old(c).moment(env.timestamp).paying(true);
            let call = Call::DepositEscrow { caller, id, amount };
            &&& r is Ok <==> s.refusal(at, call) is None
            &&& r is Err ==> s.refusal(at, call) == Some(r->Err_0) && final(c).storage@ == s
            &&& r is Ok ==> {
                &&& final(c).storage@ == s.payment_begun()
                &&& r->Ok_0@ == s.deposit_payment(old(c).address, id, amount)
                &&& s.transfer_asked(at, call) == Some(r->Ok_0@.transfer())
            }
            &&& final(c).address == old(c).address
            &&& final(c).token == old(c).token
            &&& final(c).asked@ == old(c).asked@
        }),
{
}

/// The first step of `release_escrow` is refused where the call with a token that pays would
/// be, and otherwise takes the lock and says which payment to make.
pub proof fn begin_release_escrow_answers(
    c: &mut NavinShipment,
    env: Env,
    caller: Address,
    id: u64,
    r: Result<PendingSettlement, NavinError>,
)
    requires
        call_ensures(NavinShipment::begin_release_escrow, (c, &env, caller, id), r),
    ensures
        ({
            let s = old(c).storage@;
            let at = old(c).moment(env.timestamp).paying(true);
            let call = Call::ReleaseEscrow { caller, id };
            &&& r is Ok <==> s.refusal(at, call) is None
            &&& r is Err ==> s.refusal(at, call) == Some(r->Err_0) && final(c).storage@ == s
            &&& r is Ok ==> {
                &&& final(c).storage@ == s.payment_begun()
                &&& r->Ok_0@ == s.release_payment(old(c).address, id, Closing::Keep)
                &&& s.transfer_asked(at, call) == Some(r->Ok_0@.transfer())
            }
            &&& final(c).address == old(c).address
            &&& final(c).token == old(c).token
            &&& final(c).asked@ == old(c).asked@
        }),
{
}

/// The first step of `refund_escrow` is refused where the call with a token that pays would
/// be, and otherwise takes the lock and says which payment to make.
pub proof fn begin_refund_escrow_answers(
    c: &mut NavinShipment,
    env: Env,
    caller: Address,
    id: u64,
    r: Result<PendingSettlement, NavinError>,
)
    requires
        call_ensures(NavinShipment::begin_refund_escrow, (c, &env, caller, id), r),
    ensures
        ({
            let s = old(c).storage@;
            let at = old(c).moment(env.timestamp).paying(true);
            let call = Call::RefundEscrow { caller, id };
            &&& r is Ok <==> s.refusal(at, call) is None
            &&& r is Err ==> s.refusal(at, call) == Some(r->Err_0) && final(c).storage@ == s
            &&& r is Ok ==> {
                &&& final(c).storage@ == s.payment_begun()
                &&& r->Ok_0@ == s.refund_payment(old(c).address, id, Closing::Keep)
                &&& s.transfer_asked(at, call) == Some(r->Ok_0@.transfer())
            }
            &&& final(c).address == old(c).address
            &&& final(c).token == old(c).token
            &&& final(c).asked@ == old(c).asked@
        }),
{
}

/// The first step of `confirm_delivery` is refused where the call with a token that pays would
/// be, and otherwise takes the lock and says which payment to make.
pub proof fn begin_confirm_delivery_answers(
    c: &mut NavinShipment,
    env: Env,
    caller: Address,
    id: u64,
    confirmation_hash: [u8; 32],
    r: Result<Option<PendingSettlement>, NavinError>,
)
    requires
        call_ensures(
            NavinShipment::begin_confirm_delivery,
            (c, &env, caller, id, confirmation_hash),
            r,
        ),
    ensures
        ({
            let s = old(c).storage@;
            let at = old(c).moment(env.timestamp).paying(true);
            let call = Call::ConfirmDelivery { caller, id, confirmation_hash };
            &&& r is Ok <==> s.refusal(at, call) is None
            &&& r is Err ==> s.refusal(at, call) == Some(r->Err_0) && final(c).storage@ == s
            &&& r is Ok ==> (r->Ok_0 is Some <==> s.shipments[id].escrow_amount > 0)
            &&& r is Ok && r->Ok_0 is Some ==> {
                &&& final(c).storage@ == s.payment_begun()
                &&& r->Ok_0->Some_0@ == s.release_payment(
                    old(c).address,
                    id,
                    Closing::Deliver { confirmation_hash },
                )
                &&& s.transfer_asked(at, call) == Some(r->Ok_0->Some_0@.transfer())
            }
            &&& r is Ok && r->Ok_0 is None ==> final(c).storage@ == s.after(at, call)
            &&& final(c).address == old(c).address
            &&& final(c).token == old(c).token
            &&& final(c).asked@ == old(c).asked@
        }),
{
}

/// The first step of `force_cancel_shipment` is refused where the call with a token that pays would
/// be, and otherwise takes the lock and says which payment to make.
pub proof fn begin_force_cancel_shipment_answers(
    c: &mut NavinShipment,
    env: Env,
    caller: Address,
    id: u64,
    reason_hash: [u8; 32],
    r: Result<Option<PendingSettlement>, NavinError>,
)
    requires
        call_ensures(
            NavinShipment::begin_force_cancel_shipment,
            (c, &env, caller, id, reason_hash),
            r,
        ),
    ensures
        ({
            let s = old(c).storage@;
            let at = old(c).moment(env.timestamp).paying(true);
            let call = Call::ForceCancelShipment { caller, id, reason_hash };
            &&& r is Ok <==> s.refusal(at, call) is None
            &&& r is Err ==> s.refusal(at, call) == Some(r->Err_0) && final(c).storage@ == s
            &&& r is Ok ==> (r->Ok_0 is Some <==> s.shipments[id].escrow_amount > 0)
            &&& r is Ok && r->Ok_0 is Some ==> {
                &&& final(c).storage@ == s.payment_begun()
                &&& r->Ok_0->Some_0@ == s.refund_payment(
                    old(c).address,
                    id,
                    Closing::Cancel { reason_hash },
                )
                &&& s.transfer_asked(at, call) == Some(r->Ok_0->Some_0@.transfer())
            }
            &&& r is Ok && r->Ok_0 is None ==> final(c).storage@ == s.after(at, call)
            &&& final(c).address == old(c).address
            &&& final(c).token == old(c).token
            &&& final(c).asked@ == old(c).asked@
        }),
{
}

/// The second step completes the payment, or undoes it and says why.
pub proof fn finish_payment_answers(
    c: &mut NavinShipment,
    env: Env,
    pending: PendingSettlement,
    paid: bool,
    r: Result<(), NavinError>,
)
    requires
        call_ensures(NavinShipment::finish_payment, (c, &env, pending, paid), r),
    ensures
        ({
            let s = old(c).storage@;
            &&& r is Ok <==> s.settle_refusal(pending@, paid) is None
            &&& r is Err ==> s.settle_refusal(pending@, paid) == Some(r->Err_0)
            &&& final(c).storage@ == if r is Ok {
                s.settled(env.timestamp, pending@)
            } else {
                s.payment_undone(pending@)
            }
            &&& final(c).address == old(c).address
            &&& final(c).token == old(c).token
            &&& final(c).asked@ == old(c).asked@
        }),
{
}

/// Settling completes the payment, or undoes it and says why.
pub proof fn settle_answers(
    storage: &mut Storage,
    now: u64,
    pending: PendingSettlement,
    paid: bool,
    r: Result<(), NavinError>,
)
    requires
        call_ensures(settle, (storage, now, pending, paid), r),
    ensures
        ({
            let s = old(storage)@;
            &&& r is Ok <==> s.settle_refusal(pending@, paid) is None
            &&& r is Err ==> s.settle_refusal(pending@, paid) == Some(r->Err_0)
            &&& final(storage)@ == if r is Ok {
                s.settled(now, pending@)
            } else {
                s.payment_undone(pending@)
            }
        }),
{
}

// Reading.

/// A shipment is read as it is stored, whether persistent or archived, and is not found only where
/// it is neither.
pub proof fn get_shipment_answers(c: NavinShipment, id: u64, r: Result<Shipment, NavinError>)
    requires
        call_ensures(NavinShipment::get_shipment, (&c, id), r),
    ensures
        ({
            let s = c.storage@;
            &&& r is Ok <==> s.shipments.contains_key(id) || s.archived.contains_key(id)
            &&& r is Ok ==> r->Ok_0@ == if s.shipments.contains_key(id) {
                s.shipments[id]
            } else {
                s.archived[id]
            }
            &&& r is Err ==> r->Err_0 == NavinError::ShipmentNotFound
        }),
{
}

/// Several shipments are read each as it is stored, in the order asked for.
pub proof fn get_shipments_batch_answers(
    c: NavinShipment,
    ids: Vec<u64>,
    r: Vec<Option<Shipment>>,
    i: int,
)
    requires
        call_ensures(NavinShipment::get_shipments_batch, (&c, &ids), r),
        0 <= i < ids@.len(),
    ensures
        ({
            let s = c.storage@;
            let id = ids@[i];
            &&& r@.len() == ids@.len()
            &&& r@[i] is Some <==> s.shipments.contains_key(id) || s.archived.contains_key(id)
            &&& r@[i] is Some ==> r@[i]->Some_0@ == if s.shipments.contains_key(id) {
                s.shipments[id]
            } else {
                s.archived[id]
            }
        }),
{
    assert(shown(r@).len() == ids@.len());
    assert(shown(r@)[i] == c.storage@.read_batch(ids@)[i]);
}

/// The small questions are answered with what is stored.
pub proof fn small_questions_are_answered_from_storage(
    c: NavinShipment,
    id: u64,
    company: Address,
    carrier: Address,
    counter: u64,
    analytics: Analytics,
    balance: i128,
    version: u32,
    config: ContractConfig,
    checksum: [u8; 32],
    whitelisted: bool,
)
    requires
        call_ensures(NavinShipment::get_shipment_counter, (&c,), counter),
        call_ensures(NavinShipment::get_analytics, (&c,), analytics),
        call_ensures(NavinShipment::get_escrow_balance, (&c, id), balance),
        call_ensures(NavinShipment::get_version, (&c,), version),
        call_ensures(NavinShipment::get_contract_config, (&c,), config),
        call_ensures(NavinShipment::get_config_checksum, (&c,), checksum),
        call_ensures(
            NavinShipment::is_carrier_whitelisted,
            (&c, company, carrier),
            whitelisted,
        ),
    ensures
        counter == c.storage@.shipment_counter,
        analytics.total_shipments == c.storage@.shipment_counter,
        c.storage@.escrows.contains_key(id) ==> balance == c.storage@.escrows[id],
        !c.storage@.escrows.contains_key(id) ==> balance == 0,
        version == c.storage@.version,
        config == c.storage@.config,
        checksum@ == c.storage@.config_checksum,
        whitelisted <==> c.storage@.whitelist.contains((company, carrier)),
{
}

/// Settlements are counted, and numbered from 1 on.
pub proof fn settlements_are_numbered_from_one(
    c: NavinShipment,
    number: usize,
    count: usize,
    r: Result<SettlementRecord, NavinError>,
)
    requires
        call_ensures(NavinShipment::get_settlement_count, (&c,), count),
        call_ensures(NavinShipment::get_settlement, (&c, number), r),
    ensures
        count == c.storage@.settlements.len(),
        r is Ok <==> 1 <= number <= count,
        r is Ok ==> r->Ok_0 == c.storage@.settlements[number - 1],
        r is Err ==> r->Err_0 == NavinError::SettlementNotFound,
{
}

// Reports.

/// The report on where a shipment is stored tells each entry by itself.
pub proof fn get_restore_diagnostics_answers(
    c: NavinShipment,
    id: u64,
    r: PersistentRestoreDiagnostics,
)
    requires
        call_ensures(NavinShipment::get_restore_diagnostics, (&c, id), r),
    ensures
        ({
            let s = c.storage@;
            &&& r.shipment_id == id
            &&& r.persistent_shipment_present <==> s.shipments.contains_key(id)
            &&& r.archived_shipment_present <==> s.archived.contains_key(id)
            &&& r.escrow_present <==> s.escrows.contains_key(id)
            &&& r.confirmation_hash_present <==> s.confirmation_hashes.contains_key(id)
            &&& r.last_status_update_present <==> s.last_status_updates.contains_key(id)
            &&& r.event_count_present <==> s.event_counts.contains_key(id)
            &&& r.state == match (r.persistent_shipment_present, r.archived_shipment_present) {
                (true, true) => StoragePresenceState::InconsistentDualPresence,
                (true, false) => StoragePresenceState::ActivePersistent,
                (false, true) => StoragePresenceState::ArchivedExpected,
                (false, false) => StoragePresenceState::Missing,
            }
        }),
{
}

/// The health report is for the administrator. It tells how many shipments there are and how many
/// have not come to their end, which are in transit past their deadline, which are missing or have
/// an escrow that is not what the entry says, and the sum of the entries.
pub proof fn check_contract_health_answers(
    c: NavinShipment,
    env: Env,
    caller: Address,
    r: Result<ContractHealth, NavinError>,
    count: u64,
    id: u64,
)
    requires
        call_ensures(NavinShipment::check_contract_health, (&c, &env, caller), r),
        call_ensures(NavinShipment::get_non_terminal_count, (&c,), count),
    ensures
        ({
            let s = c.storage@;
            let stored = s.shipments.contains_key(id) || s.archived.contains_key(id);
            let shipment = if s.shipments.contains_key(id) {
                s.shipments[id]
            } else {
                s.archived[id]
            };
            let held = if s.escrows.contains_key(id) {
                s.escrows[id] as int
            } else {
                0
            };
            let known = 1 <= id <= s.shipment_counter;
            &&& r is Ok <==> s.admin == Some(caller) && s.escrow_sum_fits()
            &&& r is Err ==> r->Err_0 == if s.admin is None {
                NavinError::NotInitialized
            } else if s.admin != Some(caller) {
                NavinError::Unauthorized
            } else {
                NavinError::ArithmeticError
            }
            &&& count == s.active_ids().len()
            &&& s.active_ids().contains(id) <==> known && stored && shipment.status
                != ShipmentStatus::Delivered && shipment.status != ShipmentStatus::Cancelled
            &&& r is Ok ==> {
                &&& r->Ok_0.total_shipments == s.shipment_counter
                &&& r->Ok_0.active_shipments_counted == count
                &&& r->Ok_0.sum_of_escrow_balances == s.escrow_sum(s.shipment_counter as nat)
                &&& r->Ok_0.anomalous_shipment_ids@.contains(id) <==> known && stored
                    && shipment.status == ShipmentStatus::InTransit && shipment.deadline
                    < env.timestamp
                &&& r->Ok_0.storage_inconsistencies@.contains(id) <==> known && (!stored
                    || shipment.escrow_amount != held)
            }
        }),
{
    active_shipments_are_neither_delivered_nor_cancelled(c.storage@, id);
    late_shipments_are_in_transit_past_their_deadline(c.storage@, env.timestamp, id);
    inconsistent_shipments_are_missing_or_mismatched(c.storage@, id);
}

/// The administrator's report on consistency has what is wrong with any shipment, and nobody else
/// gets it.
pub proof fn check_consistency_violations_answers(
    c: NavinShipment,
    caller: Address,
    r: Result<Vec<ConsistencyViolation>, NavinError>,
    v: ConsistencyViolation,
)
    requires
        call_ensures(NavinShipment::check_consistency_violations, (&c, caller), r),
    ensures
        r is Ok <==> c.storage@.admin == Some(caller),
        r is Err ==> r->Err_0 == if c.storage@.admin is None {
            NavinError::NotInitialized
        } else {
            NavinError::Unauthorized
        },
        r is Ok ==> r->Ok_0@ == c.storage@.all_violations(),
        r is Ok ==> (r->Ok_0@.contains(v) <==> exists|id: u64|
            1 <= id <= c.storage@.shipment_counter && #[trigger] c.storage@.violations(id).contains(
                v,
            )),
{
    the_admin_sees_every_violation(c.storage@, v);
}

/// The check of all shipments has a violation exactly where the check of one of them has it; the
/// check of one has it exactly where it is so.
pub proof fn checks_answer_what_is_wrong(
    storage: Storage,
    id: u64,
    one: Vec<ConsistencyViolation>,
    all: Vec<ConsistencyViolation>,
    v: ConsistencyViolation,
)
    requires
        call_ensures(check_shipment_invariants, (&storage, id), one),
        call_ensures(check_all_consistency, (&storage,), all),
    ensures
        one@ == storage@.violations(id),
        one@.contains(ConsistencyViolation::MissingShipment(id))
            <==> !storage@.shipments.contains_key(id) && !storage@.archived.contains_key(id),
        storage@.shipments.contains_key(id) ==> {
            let shipment = storage@.shipments[id];
            &&& one@.contains(ConsistencyViolation::EscrowMismatch(id)) <==> shipment.escrow_amount
                != storage@.escrow(id)
            &&& one@.contains(ConsistencyViolation::TimestampAnomaly(id)) <==> shipment.updated_at
                < shipment.created_at
            &&& one@.contains(ConsistencyViolation::DeadlineAnomaly(id)) <==> shipment.deadline
                <= shipment.created_at
        },
        1 <= id <= storage@.shipment_counter && one@.contains(v) ==> all@.contains(v),
        all@.contains(v) ==> exists|n: u64|
            1 <= n <= storage@.shipment_counter && #[trigger] storage@.violations(n).contains(v),
{
    checks_report_what_is_stored(storage@, id, ConsistencyViolation::MissingShipment(id));
    checks_report_what_is_stored(storage@, id, ConsistencyViolation::EscrowMismatch(id));
    checks_report_what_is_stored(storage@, id, ConsistencyViolation::TimestampAnomaly(id));
    checks_report_what_is_stored(storage@, id, ConsistencyViolation::DeadlineAnomaly(id));
    the_admin_sees_every_violation(storage@, v);
}

/// The check of a batch holds its shipments against the first of them that is stored.
pub proof fn check_batch_consistency_answers(
    storage: Storage,
    ids: Vec<u64>,
    r: Vec<ConsistencyViolation>,
)
    requires
        call_ensures(check_batch_consistency, (&storage, &ids), r),
    ensures
        r@ == storage@.batch_violations(storage@.reference(ids@), ids@),
{
}

// The ledger, the tokens, the configuration and the circuit breaker.

/// A deadline lies as far ahead as was asked for.
pub proof fn deadlines_lie_ahead(env: Env, offset: u64, deadline: u64)
    requires
        call_ensures(future_deadline, (&env, offset), deadline),
    ensures
        deadline == env.timestamp + offset,
{
}

/// Time goes by as much as was asked for, and addresses come one by one.
pub proof fn the_ledger_goes_on(env: &mut Env, seconds: u64)
    requires
        call_ensures(advance_ledger_time, (env, seconds), ()),
    ensures
        final(env).timestamp == old(env).timestamp + seconds,
        final(env).next_address == old(env).next_address,
{
}

/// Every token counts in seven decimal places, and the failing one makes no transfer.
pub proof fn tokens_answer(
    env: Env,
    from: Address,
    to: Address,
    amount: i128,
    a: u32,
    b: u32,
    d: u32,
    r: Result<(), MockTokenError>,
)
    requires
        call_ensures(MockToken::decimals, (env,), a),
        call_ensures(MockTokenConsistency::decimals, (env,), b),
        call_ensures(FailingToken::decimals, (env,), d),
        call_ensures(FailingToken::transfer, (env, from, to, amount), r),
    ensures
        a == 7,
        b == 7,
        d == 7,
        r is Err,
{
}

/// The checksum that is computed is the digest of the configuration's encoding.
pub proof fn checksums_are_computed_from_the_encoding(config: ContractConfig, checksum: [u8; 32])
    requires
        call_ensures(compute_config_checksum, (&config,), checksum),
    ensures
        checksum@ == sha256_digest(config.encoding()),
{
}

/// The breaker lets a transfer through or refuses it, and counts failures.
pub proof fn the_breaker_answers(b: &mut CircuitBreakerTracker, now: u64, r: Result<(), NavinError>)
    requires
        call_ensures(CircuitBreakerTracker::let_through, (b, now), r),
    ensures
        r is Ok <==> old(b).allows(now),
        r is Ok ==> *final(b) == old(b).admitted(),
        r is Err ==> r->Err_0 == NavinError::CircuitBreakerOpen && *final(b) == *old(b),
{
}

/// A failure is noted as one more, and opens the breaker once there are enough.
pub proof fn the_breaker_notes_failures(b: &mut CircuitBreakerTracker, now: u64)
    requires
        call_ensures(CircuitBreakerTracker::record_failure, (b, now), ()),
        old(b).failure_count < u32::MAX,
    ensures
        final(b).failure_count == old(b).failure_count + 1,
        final(b).failure_count >= FAILURE_THRESHOLD ==> final(b).state is Open
            && final(b).opened_at == now,
{
}

// Set-ups.

/// What the set-ups give: a contract that its administrator has initialised, on a token that pays
/// or on one that does not.
pub proof fn set_ups_answer(
    good: Ctx,
    bad: Ctx,
    a: (Env, NavinShipment, Address, Token),
    b: (Env, NavinShipment, Address, Token),
)
    requires
        call_ensures(setup_ok, (), good),
        call_ensures(setup_fail, (), bad),
        call_ensures(setup, (), a),
        call_ensures(prepare_test, (), b),
    ensures
        good.client.storage@.admin == Some(good.admin),
        good.client.storage@.companies.contains(good.company),
        good.client.storage@.carriers.contains(good.carrier),
        good.client.storage@.whitelist.contains((good.company, good.carrier)),
        good.client.token is Some && good.client.token.unwrap().contract is Mock,
        bad.client.storage@ == good.client.storage@,
        bad.client.token is Some && bad.client.token.unwrap().contract is Failing,
        a.1.storage@.admin == Some(a.2),
        a.1.token == Some(a.3),
        a.3.contract is Consistency,
        b.1.storage@ == a.1.storage@,
        b.1.token == Some(b.3),
        b.3.contract is Mock,
{
}

/// The set-up with one shipment gives its number and its parties.
pub proof fn setup_single_shipment_answers(
    r: (Env, NavinShipment, Address, Address, Address, Address, u64),
)
    requires
        call_ensures(setup_single_shipment, (), r),
    ensures
        ({
            let s = r.1.storage@;
            let shipment = s.shipments[r.6];
            &&& s.admin == Some(r.2)
            &&& s.companies.contains(r.3)
            &&& s.shipment_counter == r.6
            &&& s.shipments.contains_key(r.6)
            &&& shipment.sender == r.3
            &&& shipment.receiver == r.4
            &&& shipment.carrier == r.5
            &&& shipment.status == ShipmentStatus::Created
            &&& shipment.created_at == r.0.timestamp
            &&& shipment.deadline == r.0.timestamp + 3600
            &&& shipment.data_hash == hash_of(9)
            &&& r.1.token is Some && r.1.token.unwrap().contract is Mock
        }),
{
}

/// A shipment that is created in one go is between the parties given and due in two hours.
pub proof fn create_one_answers(
    env: &mut Env,
    c: &mut NavinShipment,
    company: Address,
    carrier: Address,
    seed: u8,
    id: u64,
)
    requires
        call_ensures(create_one, (env, c, company, carrier, seed), id),
        old(c).storage@.shipment_counter < u64::MAX,
        old(env).timestamp + 7200 <= u64::MAX,
        old(env).next_address < u64::MAX,
    ensures
        ({
            let s = final(c).storage@;
            let shipment = s.shipments[id];
            &&& id == old(c).storage@.shipment_counter + 1
            &&& s.shipment_counter == id
            &&& s.shipments.contains_key(id)
            &&& shipment.sender == company
            &&& shipment.carrier == carrier
            &&& shipment.receiver.number == old(env).next_address
            &&& shipment.created_at == old(env).timestamp
            &&& shipment.deadline == old(env).timestamp + 7200
            &&& shipment.data_hash == hash_of(seed)
            &&& shipment.payment_milestones.len() == 0
            &&& final(env).next_address == old(env).next_address + 1
            &&& final(env).timestamp == old(env).timestamp
        }),
{
}

/// An escrow that is written past the calls stands in the shipment and in the entry.
pub proof fn inject_escrow_answers(ctx: &mut Ctx, id: u64, amount: i128)
    requires
        call_ensures(inject_escrow, (ctx, id, amount), ()),
        old(ctx).client.storage@.shipments[id].id == id,
    ensures
        ({
            let s = old(ctx).client.storage@;
            let t = final(ctx).client.storage@;
            &&& t.shipments[id].escrow_amount == amount
            &&& t.shipments[id].total_escrow == amount
            &&& t.shipments[id].status == s.shipments[id].status
            &&& t.escrows == s.escrows.insert(id, amount)
            &&& t == (StorageView { shipments: t.shipments, escrows: t.escrows, ..s })
        }),
{
}

/// A shipment that is brought to its destination is delivered, with both reports announced.
pub proof fn advance_to_delivered_answers(ctx: &mut Ctx, id: u64)
    requires
        call_ensures(advance_to_delivered, (ctx, id), ()),
        old(ctx).client.storage@.shipments[id].id == id,
    ensures
        ({
            let s = old(ctx).client.storage@;
            let t = final(ctx).client.storage@;
            &&& t.shipments[id].status == ShipmentStatus::Delivered
            &&& t.shipments[id].escrow_amount == s.shipments[id].escrow_amount
            &&& t.shipments[id].data_hash == hash_of(91)
            &&& t.shipments[id].updated_at == final(ctx).env.timestamp
            &&& t.escrows == s.escrows
            &&& t.events.len() == s.events.len() + 2
            &&& final(ctx).env.timestamp == old(ctx).env.timestamp + 122
        }),
{
}

/// A hash that is made from a seed has it in every place.
pub proof fn dummy_hash_answers(seed: u8, hash: [u8; 32], i: int)
    requires
        call_ensures(dummy_hash, (seed,), hash),
        0 <= i < 32,
    ensures
        hash@[i] == seed,
        hash == hash_of(seed),
{
    assert(filled(hash, seed));
}

// What the storage answers.

/// The storage is asked for single values.
pub proof fn storage_answers_for_values(
    storage: Storage,
    admin: Option<Address>,
    version: u32,
    wasm_hash: Option<[u8; 32]>,
    decimals: u32,
    counter: u64,
    lock: bool,
    breaker: CircuitBreakerTracker,
    config: ContractConfig,
    checksum: [u8; 32],
)
    requires
        call_ensures(Storage::get_admin, (&storage,), admin),
        call_ensures(Storage::get_version, (&storage,), version),
        call_ensures(Storage::get_wasm_hash, (&storage,), wasm_hash),
        call_ensures(Storage::get_token_decimals, (&storage,), decimals),
        call_ensures(Storage::get_shipment_counter, (&storage,), counter),
        call_ensures(Storage::get_reentrancy_lock, (&storage,), lock),
        call_ensures(Storage::get_circuit_breaker, (&storage,), breaker),
        call_ensures(Storage::get_config, (&storage,), config),
        call_ensures(Storage::get_config_checksum, (&storage,), checksum),
    ensures
        admin == storage@.admin,
        version == storage@.version,
        wasm_hash == storage@.wasm_hash,
        decimals == storage@.token_decimals,
        counter == storage@.shipment_counter,
        lock == storage@.reentrancy_lock,
        breaker == storage@.circuit_breaker,
        config == storage@.config,
        checksum@ == storage@.config_checksum,
{
}

/// The storage is asked for the roles of an account.
pub proof fn storage_answers_for_accounts(
    storage: Storage,
    a: Address,
    b: Address,
    company: bool,
    carrier: bool,
    suspended: bool,
    whitelisted: bool,
)
    requires
        call_ensures(Storage::is_company, (&storage, a), company),
        call_ensures(Storage::is_carrier, (&storage, a), carrier),
        call_ensures(Storage::is_suspended, (&storage, a), suspended),
        call_ensures(Storage::is_carrier_whitelisted, (&storage, a, b), whitelisted),
    ensures
        company <==> storage@.companies.contains(a),
        carrier <==> storage@.carriers.contains(a),
        suspended <==> storage@.suspended.contains(a),
        whitelisted <==> storage@.whitelist.contains((a, b)),
{
}

/// The storage is asked for the entries of a shipment.
pub proof fn storage_answers_for_shipments(
    storage: Storage,
    id: u64,
    persistent: bool,
    archived: bool,
    escrow: bool,
    amount: i128,
    confirmed: bool,
    updated: Option<u64>,
    counted: bool,
    count: u64,
    shipment: Option<Shipment>,
)
    requires
        call_ensures(Storage::has_shipment, (&storage, id), persistent),
        call_ensures(Storage::has_archived_shipment, (&storage, id), archived),
        call_ensures(Storage::has_escrow, (&storage, id), escrow),
        call_ensures(Storage::get_escrow, (&storage, id), amount),
        call_ensures(Storage::has_confirmation_hash, (&storage, id), confirmed),
        call_ensures(Storage::get_last_status_update, (&storage, id), updated),
        call_ensures(Storage::has_event_count, (&storage, id), counted),
        call_ensures(Storage::get_event_count, (&storage, id), count),
        call_ensures(Storage::get_shipment, (&storage, id), shipment),
    ensures
        persistent <==> storage@.shipments.contains_key(id),
        archived <==> storage@.archived.contains_key(id),
        escrow <==> storage@.escrows.contains_key(id),
        escrow ==> amount == storage@.escrows[id],
        !escrow ==> amount == 0,
        confirmed <==> storage@.confirmation_hashes.contains_key(id),
        updated is Some <==> storage@.last_status_updates.contains_key(id),
        updated is Some ==> updated->Some_0 == storage@.last_status_updates[id],
        counted <==> storage@.event_counts.contains_key(id),
        counted ==> count == storage@.event_counts[id],
        !counted ==> count == 0,
        shipment is Some <==> persistent,
        shipment is Some ==> shipment->Some_0@ == storage@.shipments[id],
{
}

/// Writing an entry of a shipment writes that entry and no other.
pub proof fn storage_writes_one_entry(storage: &mut Storage, id: u64, amount: i128)
    requires
        call_ensures(Storage::set_escrow, (storage, id, amount), ()),
    ensures
        final(storage)@ == (StorageView {
            escrows: old(storage)@.escrows.insert(id, amount),
            ..old(storage)@
        }),
{
}

/// Storing a shipment stores it under its own number, and touches nothing else.
pub proof fn storage_writes_one_shipment(storage: &mut Storage, shipment: Shipment)
    requires
        call_ensures(Storage::set_shipment, (storage, &shipment), ()),
    ensures
        final(storage)@ == (StorageView {
            shipments: old(storage)@.shipments.insert(shipment.id, shipment@),
            ..old(storage)@
        }),
{
}

/// What is removed is gone, and nothing else.
pub proof fn storage_removes_one_entry(
    storage: &mut Storage,
    other: &mut Storage,
    third: &mut Storage,
    id: u64,
    shipment: Shipment,
)
    requires
        call_ensures(Storage::remove_shipment, (storage, id), ()),
        call_ensures(Storage::remove_escrow, (other, id), ()),
        call_ensures(Storage::set_archived_shipment, (third, &shipment), ()),
    ensures
        final(storage)@ == (StorageView {
            shipments: old(storage)@.shipments.remove(id),
            ..old(storage)@
        }),
        final(other)@ == (StorageView {
            escrows: old(other)@.escrows.remove(id),
            ..old(other)@
        }),
        final(third)@ == (StorageView {
            archived: old(third)@.archived.insert(shipment.id, shipment@),
            ..old(third)@
        }),
{
}

/// A payment says which transfer to make, and a token that is asked for one notes it and makes it
/// unless it is one that fails.
pub proof fn transfers_answer(
    pending: PendingSettlement,
    transfer: Transfer,
    token: Token,
    env: Env,
    log: &mut TransferLog,
    r: Result<(), MockTokenError>,
)
    requires
        call_ensures(PendingSettlement::transfer, (&pending,), transfer),
        call_ensures(Token::transfer, (&token, env, transfer, log), r),
    ensures
        transfer.from == pending@.record.from,
        transfer.to == pending@.record.to,
        transfer.amount == pending@.record.amount,
        final(log)@ == old(log)@.push(transfer),
        r is Ok <==> !(token.contract is Failing),
{
}

/// Events name their shipment, and errors their numbers.
pub proof fn events_and_errors_answer(
    event: Event,
    id: u64,
    error: NavinError,
    code: Option<u32>,
    failure: MockTokenError,
    number: u32,
)
    requires
        call_ensures(Event::shipment_id, (&event,), id),
        call_ensures(NavinError::code, (error,), code),
        call_ensures(MockTokenError::code, (failure,), number),
    ensures
        match event {
            Event::ShipmentCreated { shipment_id, .. } => id == shipment_id,
            Event::StatusUpdated { shipment_id, .. } => id == shipment_id,
            Event::CarrierHandoffCompleted { shipment_id, .. } => id == shipment_id,
            Event::SettlementCompleted { shipment_id, .. } => id == shipment_id,
        },
        code == Some(4u32) <==> error == NavinError::Unauthorized,
        code == Some(39u32) <==> error == NavinError::TokenTransferFailed,
        number == 1,
{
}

} // verus!
