//! The laws of the library, each on values of its own.

use navin_shipment::circuit_breaker::{CircuitBreakerState, CircuitBreakerTracker};
use navin_shipment::config::{
    compute_config_checksum, encode_config, ContractConfig, CONFIG_ENCODING_LENGTH,
};
use navin_shipment::consistency::{
    check_all_consistency, check_batch_consistency, check_shipment_invariants,
    ConsistencyViolation,
};
use navin_shipment::diagnostics::StoragePresenceState;
use navin_shipment::env::{advance_ledger_time, future_deadline, Address, Env};
use navin_shipment::fixtures::{
    advance_past_rate_limit, dummy_hash, inject_escrow, setup_fail, setup_ok,
    setup_single_shipment, Ctx,
};
use navin_shipment::settlement::settle;
use navin_shipment::token::{
    FailingToken, MockToken, MockTokenConsistency, MockTokenError, Token, TokenContract, Transfer,
    TransferLog,
};
use navin_shipment::types::{
    Event, Milestone, NavinError, SettlementOperation, SettlementRecord, SettlementState,
    ShipmentInput, ShipmentStatus,
};

/// A shipment in a context, and its receiver.
fn shipment(ctx: &mut Ctx) -> (u64, Address) {
    let receiver = Address::generate(&mut ctx.env);
    let deadline = future_deadline(&ctx.env, 3600);
    let id = ctx
        .client
        .create_shipment(
            &ctx.env,
            ctx.company,
            receiver,
            ctx.carrier,
            dummy_hash(1),
            Vec::new(),
            deadline,
        )
        .unwrap();
    (id, receiver)
}

#[test]
fn a_whole_history_stays_consistent() {
    let mut ctx = setup_ok();
    let (first, receiver) = shipment(&mut ctx);
    let (second, _) = shipment(&mut ctx);
    let (third, _) = shipment(&mut ctx);
    let mut settled: i128 = 0;
    ctx.client.deposit_escrow(&ctx.env, ctx.company, first, 100).unwrap();
    ctx.client.deposit_escrow(&ctx.env, ctx.company, first, 20).unwrap();
    ctx.client.deposit_escrow(&ctx.env, ctx.company, second, 7).unwrap();
    ctx.client.deposit_escrow(&ctx.env, ctx.company, third, 3).unwrap();
    settled += 130;
    assert_eq!(
        ctx.client.check_contract_health(&ctx.env, ctx.admin).unwrap().sum_of_escrow_balances,
        settled
    );
    ctx.client
        .update_status(&ctx.env, ctx.carrier, first, ShipmentStatus::InTransit, dummy_hash(2))
        .unwrap();
    advance_past_rate_limit(&mut ctx.env);
    ctx.client.confirm_delivery(&ctx.env, receiver, first, dummy_hash(3)).unwrap();
    ctx.client.force_cancel_shipment(&ctx.env, ctx.admin, second, dummy_hash(4)).unwrap();
    ctx.client.archive_shipment(ctx.admin, first).unwrap();
    settled -= 127;

    assert_eq!(check_all_consistency(&ctx.client.storage), vec![]);
    let health = ctx.client.check_contract_health(&ctx.env, ctx.admin).unwrap();
    assert_eq!(health.total_shipments, 3);
    assert_eq!(health.active_shipments_counted, 1);
    assert_eq!(health.sum_of_escrow_balances, settled);
    assert_eq!(health.storage_inconsistencies, vec![]);
    assert_eq!(health.anomalous_shipment_ids, vec![]);
    let states = [
        (first, StoragePresenceState::ArchivedExpected),
        (second, StoragePresenceState::ActivePersistent),
        (third, StoragePresenceState::ActivePersistent),
        (third + 1, StoragePresenceState::Missing),
        (0, StoragePresenceState::Missing),
    ];
    for (id, state) in states {
        assert_eq!(ctx.client.get_restore_diagnostics(id).state, state);
    }
    // What was paid in, less what was paid out, is what is held.
    let mut net: i128 = 0;
    for number in 1..=ctx.client.get_settlement_count() {
        let record = ctx.client.get_settlement(number).unwrap();
        assert_eq!(record.id, number as u64);
        assert_eq!(record.state, SettlementState::Completed);
        net += if record.operation == SettlementOperation::Deposit {
            record.amount
        } else {
            -record.amount
        };
    }
    assert_eq!(net, settled);
}

#[test]
fn settlements_name_their_parties() {
    let mut ctx = setup_ok();
    let (id, receiver) = shipment(&mut ctx);
    ctx.client.deposit_escrow(&ctx.env, ctx.company, id, 90).unwrap();
    ctx.client
        .update_status(&ctx.env, ctx.carrier, id, ShipmentStatus::InTransit, dummy_hash(2))
        .unwrap();
    ctx.client.confirm_delivery(&ctx.env, receiver, id, dummy_hash(3)).unwrap();
    let contract = ctx.client.address;
    assert_eq!(
        ctx.client.get_settlement(1).unwrap(),
        SettlementRecord {
            id: 1,
            shipment_id: id,
            operation: SettlementOperation::Deposit,
            state: SettlementState::Completed,
            from: ctx.company,
            to: contract,
            amount: 90,
        }
    );
    assert_eq!(
        ctx.client.get_settlement(2).unwrap(),
        SettlementRecord {
            id: 2,
            shipment_id: id,
            operation: SettlementOperation::Release,
            state: SettlementState::Completed,
            from: contract,
            to: ctx.carrier,
            amount: 90,
        }
    );
    let record = ctx.client.get_shipment(id).unwrap();
    assert_eq!(record.status, ShipmentStatus::Delivered);
    assert_eq!(record.escrow_amount, 0);
    assert_eq!(record.total_escrow, 90);
    assert!(record.finalized);
    let diagnosis = ctx.client.get_restore_diagnostics(id);
    assert!(diagnosis.escrow_present);
    assert!(diagnosis.confirmation_hash_present);
    assert!(diagnosis.last_status_update_present);
    assert!(diagnosis.event_count_present);
    // Created, two payments, on its way, delivered.
    assert_eq!(ctx.client.storage.get_event_count(id), 5);
}

#[test]
fn a_refund_undoes_a_deposit() {
    let mut ctx = setup_ok();
    let (id, _) = shipment(&mut ctx);
    ctx.client.deposit_escrow(&ctx.env, ctx.company, id, 25).unwrap();
    assert_eq!(ctx.client.get_escrow_balance(id), 25);
    ctx.client.refund_escrow(&ctx.env, ctx.company, id).unwrap();
    assert_eq!(ctx.client.get_escrow_balance(id), 0);
    assert_eq!(ctx.client.get_settlement_count(), 2);
    let back = ctx.client.get_settlement(2).unwrap();
    assert_eq!(back.operation, SettlementOperation::Refund);
    assert_eq!((back.to, back.amount), (ctx.company, 25));
    assert_eq!(ctx.client.get_shipment(id).unwrap().status, ShipmentStatus::Created);
}

#[test]
fn payments_under_way_are_not_entered() {
    let (env, mut client, admin, company, receiver, _carrier, id) = setup_single_shipment();
    let pending = client.begin_deposit_escrow(&env, company, id, 60).unwrap();
    assert_eq!(
        pending.transfer(),
        Transfer { from: company, to: client.address, amount: 60 }
    );
    assert!(client.storage.get_reentrancy_lock());
    let held = Err(NavinError::ReentrancyDetected);
    assert_eq!(client.deposit_escrow(&env, company, id, 1), held);
    assert_eq!(client.release_escrow(&env, receiver, id), held);
    assert_eq!(client.refund_escrow(&env, company, id), held);
    assert_eq!(client.confirm_delivery(&env, receiver, id, dummy_hash(1)), held);
    assert_eq!(client.force_cancel_shipment(&env, admin, id, dummy_hash(1)), held);
    assert_eq!(client.get_escrow_balance(id), 0);
    client.finish_payment(&env, pending, true).unwrap();
    assert!(!client.storage.get_reentrancy_lock());
    assert_eq!(client.get_escrow_balance(id), 60);
    assert_eq!(client.get_settlement_count(), 1);
}

#[test]
fn undone_payments_leave_no_trace() {
    let (env, mut client, _admin, company, _receiver, _carrier, id) = setup_single_shipment();
    let breaker = CircuitBreakerTracker {
        state: CircuitBreakerState::HalfOpen,
        failure_count: 5,
        opened_at: 0,
        half_open_requests: 1,
    };
    client.storage.set_circuit_breaker(breaker);
    let pending = client.begin_deposit_escrow(&env, company, id, 60).unwrap();
    assert_eq!(client.storage.get_circuit_breaker().half_open_requests, 2);
    assert_eq!(
        client.finish_payment(&env, pending, false),
        Err(NavinError::TokenTransferFailed)
    );
    assert_eq!(client.storage.get_circuit_breaker(), breaker);
    assert!(!client.storage.get_reentrancy_lock());
    assert_eq!(client.get_escrow_balance(id), 0);
    assert_eq!(client.get_settlement_count(), 0);
}

#[test]
fn payments_that_no_longer_fit_are_undone() {
    let (env, mut client, _admin, company, _receiver, _carrier, id) = setup_single_shipment();
    client.deposit_escrow(&env, company, id, 10).unwrap();
    let pending = client.begin_refund_escrow(&env, company, id).unwrap();
    let mut record = client.storage.get_shipment(id).unwrap();
    record.escrow_amount = 9;
    client.storage.set_shipment(&record);
    assert_eq!(
        settle(&mut client.storage, env.timestamp, pending, true),
        Err(NavinError::InsufficientFunds)
    );
    let pending = client.begin_refund_escrow(&env, company, id).unwrap();
    client.storage.remove_shipment(id);
    assert_eq!(
        client.finish_payment(&env, pending, true),
        Err(NavinError::ShipmentNotFound)
    );
    assert!(!client.storage.get_reentrancy_lock());
}

#[test]
fn nested_calls_do_no_harm() {
    let mut ctx = setup_ok();
    let (id, receiver) = shipment(&mut ctx);
    ctx.client.deposit_escrow(&ctx.env, ctx.company, id, 44).unwrap();
    ctx.client
        .update_status(&ctx.env, ctx.carrier, id, ShipmentStatus::InTransit, dummy_hash(2))
        .unwrap();
    let pending =
        ctx.client.begin_confirm_delivery(&ctx.env, receiver, id, dummy_hash(3)).unwrap().unwrap();
    // The sender cancels while the release is under way.
    ctx.client.cancel_shipment(&ctx.env, ctx.company, id, dummy_hash(4)).unwrap();
    assert_eq!(
        ctx.client.finish_payment(&ctx.env, pending, true),
        Err(NavinError::InvalidStatus)
    );
    assert_eq!(ctx.client.get_shipment(id).unwrap().status, ShipmentStatus::Cancelled);
    assert_eq!(ctx.client.get_escrow_balance(id), 44);
    assert_eq!(check_all_consistency(&ctx.client.storage), vec![]);
    // A refund that was begun is completed, whatever else goes on.
    let pending = ctx.client.begin_refund_escrow(&ctx.env, ctx.company, id).unwrap();
    let (other, _) = shipment(&mut ctx);
    ctx.client.cancel_shipment(&ctx.env, ctx.company, other, dummy_hash(4)).unwrap();
    assert_eq!(ctx.client.finish_payment(&ctx.env, pending, true), Ok(()));
    assert_eq!(ctx.client.get_escrow_balance(id), 0);
    assert_eq!(ctx.client.get_settlement_count(), 2);
    assert_eq!(check_all_consistency(&ctx.client.storage), vec![]);
}

#[test]
fn two_steps_make_one_payment() {
    let mut one = setup_ok();
    let mut two = setup_ok();
    let (id, receiver) = shipment(&mut one);
    assert_eq!(shipment(&mut two), (id, receiver));
    for ctx in [&mut one, &mut two] {
        ctx.client.deposit_escrow(&ctx.env, ctx.company, id, 33).unwrap();
        ctx.client
            .update_status(&ctx.env, ctx.carrier, id, ShipmentStatus::InTransit, dummy_hash(2))
            .unwrap();
    }
    one.client.confirm_delivery(&one.env, receiver, id, dummy_hash(3)).unwrap();
    let pending =
        two.client.begin_confirm_delivery(&two.env, receiver, id, dummy_hash(3)).unwrap().unwrap();
    two.client.finish_payment(&two.env, pending, true).unwrap();
    assert_eq!(one.client.get_shipment(id).unwrap(), two.client.get_shipment(id).unwrap());
    assert_eq!(one.client.storage.events(), two.client.storage.events());
    assert_eq!(one.client.get_settlement(2), two.client.get_settlement(2));
}

#[test]
fn ends_without_escrow_take_one_step() {
    let mut ctx = setup_fail();
    let (id, receiver) = shipment(&mut ctx);
    ctx.client
        .update_status(&ctx.env, ctx.carrier, id, ShipmentStatus::InTransit, dummy_hash(2))
        .unwrap();
    assert!(ctx
        .client
        .begin_confirm_delivery(&ctx.env, receiver, id, dummy_hash(3))
        .unwrap()
        .is_none());
    assert_eq!(ctx.client.get_shipment(id).unwrap().status, ShipmentStatus::Delivered);
    let (other, _) = shipment(&mut ctx);
    assert!(ctx
        .client
        .begin_force_cancel_shipment(&ctx.env, ctx.admin, other, dummy_hash(3))
        .unwrap()
        .is_none());
    assert_eq!(ctx.client.get_shipment(other).unwrap().status, ShipmentStatus::Cancelled);
}

#[test]
fn releases_can_be_made_in_two_steps() {
    let mut ctx = setup_ok();
    let (id, receiver) = shipment(&mut ctx);
    ctx.client.deposit_escrow(&ctx.env, ctx.company, id, 12).unwrap();
    let mut record = ctx.client.storage.get_shipment(id).unwrap();
    record.status = ShipmentStatus::Delivered;
    ctx.client.storage.set_shipment(&record);
    let pending = ctx.client.begin_release_escrow(&ctx.env, receiver, id).unwrap();
    assert_eq!(pending.transfer().to, ctx.carrier);
    ctx.client.finish_payment(&ctx.env, pending, true).unwrap();
    assert_eq!(ctx.client.get_escrow_balance(id), 0);
    let (other, _) = shipment(&mut ctx);
    ctx.client.deposit_escrow(&ctx.env, ctx.company, other, 8).unwrap();
    let pending = ctx
        .client
        .begin_force_cancel_shipment(&ctx.env, ctx.admin, other, dummy_hash(3))
        .unwrap()
        .unwrap();
    assert_eq!(pending.transfer().to, ctx.company);
    ctx.client.finish_payment(&ctx.env, pending, true).unwrap();
    assert_eq!(ctx.client.get_shipment(other).unwrap().status, ShipmentStatus::Cancelled);
}

#[test]
fn only_payments_ask_the_token() {
    let mut ctx = setup_ok();
    let (id, receiver) = shipment(&mut ctx);
    let (other, _) = shipment(&mut ctx);
    let contract = ctx.client.address;
    ctx.client.cancel_shipment(&ctx.env, ctx.company, other, dummy_hash(2)).unwrap();
    assert_eq!(ctx.client.asked.entries(), &vec![]);
    ctx.client.deposit_escrow(&ctx.env, ctx.company, id, 15).unwrap();
    let paid_in = Transfer { from: ctx.company, to: contract, amount: 15 };
    assert_eq!(ctx.client.asked.entries(), &vec![paid_in]);
    // A call that is refused before does not ask.
    assert!(ctx.client.deposit_escrow(&ctx.env, receiver, id, 15).is_err());
    assert_eq!(ctx.client.asked.entries(), &vec![paid_in]);
    ctx.client
        .update_status(&ctx.env, ctx.carrier, id, ShipmentStatus::InTransit, dummy_hash(2))
        .unwrap();
    ctx.client.confirm_delivery(&ctx.env, receiver, id, dummy_hash(3)).unwrap();
    let paid_out = Transfer { from: contract, to: ctx.carrier, amount: 15 };
    assert_eq!(ctx.client.asked.entries(), &vec![paid_in, paid_out]);

    let mut ctx = setup_fail();
    let (id, _) = shipment(&mut ctx);
    inject_escrow(&mut ctx, id, 8);
    assert!(ctx
        .client
        .force_cancel_shipment(&ctx.env, ctx.admin, id, dummy_hash(2))
        .is_err());
    let refund = Transfer { from: ctx.client.address, to: ctx.company, amount: 8 };
    assert_eq!(ctx.client.asked.entries(), &vec![refund]);
    assert_eq!(ctx.client.get_settlement_count(), 0);
}

#[test]
fn calls_touch_one_shipment() {
    let mut ctx = setup_ok();
    let (first, receiver) = shipment(&mut ctx);
    let (second, _) = shipment(&mut ctx);
    ctx.client.deposit_escrow(&ctx.env, ctx.company, second, 5).unwrap();
    let before = ctx.client.get_shipment(second).unwrap();
    ctx.client.deposit_escrow(&ctx.env, ctx.company, first, 6).unwrap();
    ctx.client
        .update_status(&ctx.env, ctx.carrier, first, ShipmentStatus::InTransit, dummy_hash(2))
        .unwrap();
    ctx.client.confirm_delivery(&ctx.env, receiver, first, dummy_hash(2)).unwrap();
    ctx.client.archive_shipment(ctx.admin, first).unwrap();
    assert_eq!(ctx.client.get_shipment(second).unwrap(), before);
    assert_eq!(ctx.client.get_escrow_balance(second), 5);
}

#[test]
fn archived_shipments_read_the_same() {
    let mut ctx = setup_ok();
    let (id, _) = shipment(&mut ctx);
    ctx.client.cancel_shipment(&ctx.env, ctx.company, id, dummy_hash(2)).unwrap();
    let before = ctx.client.get_shipment(id).unwrap();
    ctx.client.archive_shipment(ctx.admin, id).unwrap();
    assert_eq!(ctx.client.get_shipment(id).unwrap(), before);
    assert_eq!(
        ctx.client.get_shipments_batch(&vec![id, id + 1]),
        vec![Some(before), None]
    );
    // What is archived takes no further calls.
    assert_eq!(
        ctx.client.cancel_shipment(&ctx.env, ctx.company, id, dummy_hash(2)),
        Err(NavinError::ShipmentNotFound)
    );
}

#[test]
fn batches_get_consecutive_numbers() {
    let mut ctx = setup_ok();
    let (id, receiver) = shipment(&mut ctx);
    let deadline = future_deadline(&ctx.env, 50);
    let mut inputs: Vec<ShipmentInput> = Vec::new();
    for seed in 1u8..=3 {
        inputs.push(ShipmentInput {
            receiver,
            carrier: ctx.carrier,
            data_hash: dummy_hash(seed),
            payment_milestones: vec![Milestone { name: format!("leg {seed}"), percentage: 100 }],
            deadline,
        });
    }
    let ids = ctx.client.create_shipments_batch(&ctx.env, ctx.company, &inputs).unwrap();
    assert_eq!(ids, vec![id + 1, id + 2, id + 3]);
    assert_eq!(check_batch_consistency(&ctx.client.storage, &ids), vec![]);
    for (i, input) in inputs.iter().enumerate() {
        let record = ctx.client.get_shipment(ids[i]).unwrap();
        assert_eq!(record.id, ids[i]);
        assert_eq!(record.sender, ctx.company);
        assert_eq!(record.data_hash, input.data_hash);
        assert_eq!(record.payment_milestones, input.payment_milestones);
        assert_eq!(record.created_at, ctx.env.timestamp);
        assert_eq!(record.deadline, deadline);
        assert_eq!(record.paid_milestones, Vec::<String>::new());
        assert!(!record.finalized);
    }
}

#[test]
fn violations_are_what_is_wrong() {
    let mut ctx = setup_ok();
    let (id, _) = shipment(&mut ctx);
    let mut record = ctx.client.storage.get_shipment(id).unwrap();
    record.payment_milestones.push(Milestone { name: String::from("loaded"), percentage: 50 });
    record.paid_milestones.push(String::from("loaded"));
    ctx.client.storage.set_shipment(&record);
    assert_eq!(check_shipment_invariants(&ctx.client.storage, id), vec![]);
    record.paid_milestones.push(String::from("sold"));
    record.finalized = true;
    record.escrow_amount = 4;
    record.updated_at = record.created_at - 1;
    record.deadline = record.created_at;
    ctx.client.storage.set_shipment(&record);
    assert_eq!(
        check_shipment_invariants(&ctx.client.storage, id),
        vec![
            ConsistencyViolation::EscrowMismatch(id),
            ConsistencyViolation::InvalidFinalization(id),
            ConsistencyViolation::MilestoneViolation(id),
            ConsistencyViolation::TimestampAnomaly(id),
            ConsistencyViolation::DeadlineAnomaly(id),
        ]
    );
    assert_eq!(
        check_batch_consistency(&ctx.client.storage, &vec![77]),
        vec![ConsistencyViolation::MissingShipment(77)]
    );
}

#[test]
fn batches_are_held_against_their_first() {
    let mut ctx = setup_ok();
    let (first, _) = shipment(&mut ctx);
    advance_ledger_time(&mut ctx.env, 5);
    let (second, _) = shipment(&mut ctx);
    let mut record = ctx.client.storage.get_shipment(second).unwrap();
    record.sender = ctx.carrier;
    ctx.client.storage.set_shipment(&record);
    assert_eq!(
        check_batch_consistency(&ctx.client.storage, &vec![99, first, second]),
        vec![
            ConsistencyViolation::MissingShipment(99),
            ConsistencyViolation::BatchSenderMismatch(second),
            ConsistencyViolation::BatchTimestampMismatch(second),
        ]
    );
}

#[test]
fn both_places_at_once_is_reported() {
    let mut ctx = setup_ok();
    let (id, _) = shipment(&mut ctx);
    let record = ctx.client.storage.get_shipment(id).unwrap();
    ctx.client.storage.set_archived_shipment(&record);
    let diagnosis = ctx.client.get_restore_diagnostics(id);
    assert_eq!(diagnosis.state, StoragePresenceState::InconsistentDualPresence);
    assert!(diagnosis.persistent_shipment_present && diagnosis.archived_shipment_present);
}

#[test]
fn health_lists_are_exact() {
    let mut ctx = setup_ok();
    let (first, _) = shipment(&mut ctx);
    let (second, _) = shipment(&mut ctx);
    let (third, _) = shipment(&mut ctx);
    ctx.client
        .update_status(&ctx.env, ctx.carrier, second, ShipmentStatus::InTransit, dummy_hash(2))
        .unwrap();
    ctx.client.storage.set_escrow(first, 11);
    ctx.client.storage.remove_shipment(third);
    advance_ledger_time(&mut ctx.env, 3600);
    let health = ctx.client.check_contract_health(&ctx.env, ctx.admin).unwrap();
    assert_eq!(health.anomalous_shipment_ids, vec![]);
    advance_ledger_time(&mut ctx.env, 1);
    let health = ctx.client.check_contract_health(&ctx.env, ctx.admin).unwrap();
    assert_eq!(health.anomalous_shipment_ids, vec![second]);
    assert_eq!(health.storage_inconsistencies, vec![first, third]);
    assert_eq!(health.sum_of_escrow_balances, 11);
    assert_eq!(health.active_shipments_counted, 2);
    assert_eq!(ctx.client.get_non_terminal_count(), 2);
}

#[test]
fn handoffs_change_the_carrier_and_nothing_else() {
    let mut ctx = setup_ok();
    let (id, _) = shipment(&mut ctx);
    let to = Address::generate(&mut ctx.env);
    ctx.client.add_carrier(ctx.admin, to).unwrap();
    let mut expected = ctx.client.get_shipment(id).unwrap();
    advance_ledger_time(&mut ctx.env, 9);
    ctx.client.handoff_shipment(&ctx.env, ctx.carrier, to, id, dummy_hash(6)).unwrap();
    expected.carrier = to;
    expected.data_hash = [6u8; 32];
    expected.updated_at += 9;
    assert_eq!(ctx.client.get_shipment(id).unwrap(), expected);
    assert_eq!(
        ctx.client.storage.events().last(),
        Some(&Event::CarrierHandoffCompleted {
            from_carrier: ctx.carrier,
            to_carrier: to,
            shipment_id: id,
        })
    );
}

#[test]
fn events_have_topics() {
    let mut ctx = setup_ok();
    let (id, _) = shipment(&mut ctx);
    ctx.client.deposit_escrow(&ctx.env, ctx.company, id, 5).unwrap();
    ctx.client.raise_dispute(&ctx.env, ctx.company, id, dummy_hash(2)).unwrap();
    let topics: Vec<String> = ctx.client.storage.events().iter().map(|e| e.topic()).collect();
    assert_eq!(topics, vec!["shipment_created", "settlement_completed", "status_updated"]);
    assert!(ctx.client.storage.events().iter().all(|e| e.shipment_id() == id));
}

#[test]
fn the_checksum_is_a_digest_of_the_encoding() {
    let config = ContractConfig::default();
    let bytes = encode_config(&config);
    assert_eq!(bytes.len(), CONFIG_ENCODING_LENGTH);
    assert_eq!(
        bytes,
        vec![
            128, 67, 0, 0, 0, 233, 7, 0, 60, 0, 0, 0, 0, 0, 0, 0, 10, 0, 0, 0, 5, 0, 0, 0, 100, 0,
            0, 0, 128, 58, 9, 0, 0, 0, 0, 0, 0, 0, 0, 0, 0, 0, 0, 0, 0, 10, 0, 0, 0, 50, 0, 0, 0,
            20, 0, 0, 0, 50, 0, 0, 0
        ]
    );
    assert_eq!(
        compute_config_checksum(&config),
        [
            142, 42, 145, 118, 181, 76, 179, 224, 175, 237, 155, 199, 23, 210, 39, 20, 0, 206, 3,
            48, 113, 89, 224, 163, 48, 252, 6, 9, 78, 83, 234, 197
        ]
    );
    let mut other = config;
    other.batch_operation_limit = 11;
    other.auto_dispute_breach = true;
    assert_eq!(
        compute_config_checksum(&other),
        [
            30, 76, 179, 191, 31, 79, 123, 143, 67, 34, 230, 156, 145, 19, 158, 240, 6, 206, 236,
            104, 99, 50, 18, 175, 231, 253, 240, 51, 144, 7, 4, 240
        ]
    );
}

#[test]
fn the_interval_can_be_configured() {
    let mut ctx = setup_ok();
    let (id, _) = shipment(&mut ctx);
    let mut config = ctx.client.get_contract_config();
    config.min_status_update_interval = 0;
    ctx.client.update_config(ctx.admin, config).unwrap();
    assert_eq!(ctx.client.get_contract_config(), config);
    for status in [ShipmentStatus::InTransit, ShipmentStatus::AtCheckpoint] {
        ctx.client.update_status(&ctx.env, ctx.carrier, id, status, dummy_hash(2)).unwrap();
    }
    assert_eq!(ctx.client.get_shipment(id).unwrap().status, ShipmentStatus::AtCheckpoint);
}

#[test]
fn the_breaker_opens_after_repeated_failures() {
    let mut breaker = CircuitBreakerTracker::new();
    for count in 1..=4u32 {
        breaker.record_failure(50);
        assert_eq!(breaker.state, CircuitBreakerState::Closed);
        assert_eq!(breaker.failure_count, count);
        assert_eq!(breaker.let_through(50), Ok(()));
    }
    breaker.record_failure(50);
    assert_eq!(breaker.state, CircuitBreakerState::Open);
    assert_eq!(breaker.let_through(3649), Err(NavinError::CircuitBreakerOpen));
    for _ in 0..3 {
        assert_eq!(breaker.let_through(3650), Ok(()));
    }
    assert_eq!(breaker.state, CircuitBreakerState::HalfOpen);
    assert_eq!(breaker.let_through(3650), Err(NavinError::CircuitBreakerOpen));
    breaker.record_failure(4000);
    assert_eq!((breaker.state, breaker.opened_at), (CircuitBreakerState::Open, 4000));
    breaker.record_success();
    assert_eq!(breaker, CircuitBreakerTracker::new());
}

#[test]
fn tokens_do_what_they_are_for() {
    let mut env = Env::new();
    let owner = Address::generate(&mut env);
    let other = Address::generate(&mut env);
    assert_ne!(owner, other);
    assert_eq!(MockToken::decimals(env), 7);
    assert_eq!(MockTokenConsistency::decimals(env), 7);
    assert_eq!(FailingToken::decimals(env), 7);
    MockToken::transfer(env, owner, other, 5);
    MockToken::transfer_from(env, other, owner, other, 5);
    MockToken::mint(env, owner, other, 5);
    MockTokenConsistency::transfer(env, owner, other, 5);
    MockTokenConsistency::mint(env, owner, other, 5);
    FailingToken::mint(env, owner, other, 5);
    assert_eq!(
        FailingToken::transfer(env, owner, other, 5),
        Err(MockTokenError::TransferFailed)
    );
    assert_eq!(
        FailingToken::transfer(env, owner, owner, 0),
        Err(MockTokenError::TransferFailed)
    );
    assert_eq!(MockTokenError::TransferFailed.code(), 1);
    let transfer = Transfer { from: owner, to: other, amount: 5 };
    let kinds = [
        (TokenContract::Mock(MockToken), Ok(())),
        (TokenContract::Consistency(MockTokenConsistency), Ok(())),
        (TokenContract::Failing(FailingToken), Err(MockTokenError::TransferFailed)),
    ];
    for (contract, expected) in kinds {
        let token = Token::register(&mut env, contract);
        assert_eq!(token.decimals(env), 7);
        let mut log = TransferLog::new();
        assert_eq!(token.transfer(env, transfer, &mut log), expected);
        assert_eq!(log.entries(), &vec![transfer]);
    }
}

#[test]
fn disputes_can_only_be_ended_by_force() {
    let mut ctx = setup_ok();
    let (id, receiver) = shipment(&mut ctx);
    inject_escrow(&mut ctx, id, 70);
    ctx.client.raise_dispute(&ctx.env, receiver, id, dummy_hash(2)).unwrap();
    assert_eq!(ctx.client.get_shipment(id).unwrap().status, ShipmentStatus::Disputed);
    assert_eq!(
        ctx.client.cancel_shipment(&ctx.env, ctx.company, id, dummy_hash(2)),
        Err(NavinError::InvalidStatus)
    );
    ctx.client.force_cancel_shipment(&ctx.env, ctx.admin, id, dummy_hash(2)).unwrap();
    let record = ctx.client.get_shipment(id).unwrap();
    assert_eq!((record.status, record.escrow_amount), (ShipmentStatus::Cancelled, 0));
    assert!(record.finalized);
}
