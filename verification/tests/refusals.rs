//! Every reason for which a call is refused, with a call that meets it.

use navin_shipment::circuit_breaker::{CircuitBreakerState, CircuitBreakerTracker};
use navin_shipment::contract::NavinShipment;
use navin_shipment::env::{advance_ledger_time, future_deadline, Address, Env};
use navin_shipment::fixtures::{
    advance_past_rate_limit, create_one, dummy_hash, inject_escrow, setup_fail, setup_ok,
    setup_shipment_env, Ctx,
};
use navin_shipment::types::{NavinError, ShipmentInput, ShipmentStatus};

/// A shipment in a context, and its receiver.
fn shipment(ctx: &mut Ctx) -> (u64, Address) {
    let receiver = Address::generate(&mut ctx.env);
    let deadline = future_deadline(&ctx.env, 3600);
    let id = ctx
        .client
        .create_shipment(
            &ctx.env,
            ctx.company,
            receiver,
            ctx.carrier,
            dummy_hash(1),
            Vec::new(),
            deadline,
        )
        .unwrap();
    (id, receiver)
}

fn status(client: &NavinShipment, id: u64) -> ShipmentStatus {
    client.get_shipment(id).unwrap().status
}

#[test]
fn initialization_happens_once() {
    let (env, mut client, admin, token) = setup_shipment_env();
    assert_eq!(client.add_company(admin, admin), Err(NavinError::NotInitialized));
    assert_eq!(client.get_version(), 0);
    client.initialize(&env, admin, token).unwrap();
    assert_eq!(client.get_version(), 1);
    assert_eq!(client.storage.get_token_decimals(), 7);
    assert_eq!(client.initialize(&env, admin, token), Err(NavinError::AlreadyInitialized));
}

#[test]
fn only_the_admin_manages_roles_and_config() {
    let mut ctx = setup_ok();
    let (id, _) = shipment(&mut ctx);
    let stranger = Address::generate(&mut ctx.env);
    let config = ctx.client.get_contract_config();
    let refused = Err(NavinError::Unauthorized);
    assert_eq!(ctx.client.add_company(stranger, stranger), refused);
    assert_eq!(ctx.client.add_carrier(stranger, stranger), refused);
    assert_eq!(ctx.client.suspend_carrier(stranger, ctx.carrier), refused);
    assert_eq!(ctx.client.reactivate_carrier(stranger, ctx.carrier), refused);
    assert_eq!(ctx.client.update_config(stranger, config), refused);
    assert_eq!(ctx.client.upgrade(stranger, dummy_hash(1), 2), refused);
    assert_eq!(ctx.client.archive_shipment(stranger, id), refused);
    assert_eq!(
        ctx.client.force_cancel_shipment(&ctx.env, stranger, id, dummy_hash(1)),
        refused
    );
    assert_eq!(
        ctx.client.check_consistency_violations(stranger),
        Err(NavinError::Unauthorized)
    );
    assert!(matches!(
        ctx.client.check_contract_health(&ctx.env, stranger),
        Err(NavinError::Unauthorized)
    ));
    assert!(!ctx.client.storage.is_company(stranger));
    assert!(!ctx.client.storage.is_carrier(stranger));
}

#[test]
fn only_companies_whitelist_and_create() {
    let mut ctx = setup_ok();
    let stranger = Address::generate(&mut ctx.env);
    assert_eq!(
        ctx.client.add_carrier_to_whitelist(stranger, ctx.carrier),
        Err(NavinError::Unauthorized)
    );
    assert_eq!(
        ctx.client.remove_carrier_from_whitelist(stranger, ctx.carrier),
        Err(NavinError::Unauthorized)
    );
    let deadline = future_deadline(&ctx.env, 10);
    assert_eq!(
        ctx.client.create_shipment(
            &ctx.env,
            stranger,
            stranger,
            ctx.carrier,
            dummy_hash(1),
            Vec::new(),
            deadline
        ),
        Err(NavinError::Unauthorized)
    );
    assert_eq!(ctx.client.get_shipment_counter(), 0);
}

#[test]
fn a_deadline_lies_in_the_future() {
    let mut ctx = setup_ok();
    let now = ctx.env.timestamp;
    let receiver = Address::generate(&mut ctx.env);
    for (deadline, expected) in [
        (now - 1, Err(NavinError::InvalidTimestamp)),
        (now, Err(NavinError::InvalidTimestamp)),
        (now + 1, Ok(1)),
    ] {
        assert_eq!(
            ctx.client.create_shipment(
                &ctx.env,
                ctx.company,
                receiver,
                ctx.carrier,
                dummy_hash(1),
                Vec::new(),
                deadline
            ),
            expected
        );
    }
}

#[test]
fn a_batch_is_refused_as_a_whole() {
    let mut ctx = setup_ok();
    let now = ctx.env.timestamp;
    let receiver = Address::generate(&mut ctx.env);
    let mut inputs: Vec<ShipmentInput> = Vec::new();
    for deadline in [now + 5, now, now + 5] {
        inputs.push(ShipmentInput {
            receiver,
            carrier: ctx.carrier,
            data_hash: dummy_hash(1),
            payment_milestones: Vec::new(),
            deadline,
        });
    }
    assert_eq!(
        ctx.client.create_shipments_batch(&ctx.env, ctx.company, &inputs),
        Err(NavinError::InvalidTimestamp)
    );
    assert_eq!(ctx.client.get_shipment_counter(), 0);
    inputs[1].deadline = now + 1;
    assert_eq!(
        ctx.client.create_shipments_batch(&ctx.env, receiver, &inputs),
        Err(NavinError::Unauthorized)
    );
    ctx.client.storage.set_shipment_counter(u64::MAX - 2);
    assert_eq!(
        ctx.client.create_shipments_batch(&ctx.env, ctx.company, &inputs),
        Err(NavinError::CounterOverflow)
    );
    ctx.client.storage.set_shipment_counter(7);
    assert_eq!(
        ctx.client.create_shipments_batch(&ctx.env, ctx.company, &inputs),
        Ok(vec![8, 9, 10])
    );
    assert_eq!(
        ctx.client.create_shipments_batch(&ctx.env, ctx.company, &Vec::new()),
        Ok(vec![])
    );
}

#[test]
fn the_shipment_counter_has_an_end() {
    let mut ctx = setup_ok();
    ctx.client.storage.set_shipment_counter(u64::MAX);
    let deadline = future_deadline(&ctx.env, 10);
    assert_eq!(
        ctx.client.create_shipment(
            &ctx.env,
            ctx.company,
            ctx.company,
            ctx.carrier,
            dummy_hash(1),
            Vec::new(),
            deadline
        ),
        Err(NavinError::CounterOverflow)
    );
}

#[test]
fn unknown_shipments_are_not_found() {
    let mut ctx = setup_ok();
    let hash = dummy_hash(1);
    let missing = Err(NavinError::ShipmentNotFound);
    assert!(matches!(ctx.client.get_shipment(5), Err(NavinError::ShipmentNotFound)));
    assert_eq!(
        ctx.client.update_status(&ctx.env, ctx.carrier, 5, ShipmentStatus::InTransit, hash),
        missing
    );
    assert_eq!(ctx.client.raise_dispute(&ctx.env, ctx.company, 5, hash), missing);
    assert_eq!(ctx.client.cancel_shipment(&ctx.env, ctx.company, 5, hash), missing);
    assert_eq!(
        ctx.client.handoff_shipment(&ctx.env, ctx.carrier, ctx.carrier, 5, hash),
        missing
    );
    assert_eq!(ctx.client.archive_shipment(ctx.admin, 5), missing);
    assert_eq!(ctx.client.deposit_escrow(&ctx.env, ctx.company, 5, 1), missing);
    assert_eq!(ctx.client.release_escrow(&ctx.env, ctx.company, 5), missing);
    assert_eq!(ctx.client.refund_escrow(&ctx.env, ctx.company, 5), missing);
    assert_eq!(ctx.client.confirm_delivery(&ctx.env, ctx.company, 5, hash), missing);
    assert_eq!(ctx.client.force_cancel_shipment(&ctx.env, ctx.admin, 5, hash), missing);
    assert_eq!(ctx.client.get_settlement(1), Err(NavinError::SettlementNotFound));
    assert_eq!(ctx.client.get_settlement(0), Err(NavinError::SettlementNotFound));
}

#[test]
fn suspended_carriers_do_not_act() {
    let mut ctx = setup_ok();
    let (id, _) = shipment(&mut ctx);
    let other = Address::generate(&mut ctx.env);
    ctx.client.add_carrier(ctx.admin, other).unwrap();
    ctx.client.suspend_carrier(ctx.admin, ctx.carrier).unwrap();
    assert_eq!(
        ctx.client.update_status(
            &ctx.env,
            ctx.carrier,
            id,
            ShipmentStatus::InTransit,
            dummy_hash(2)
        ),
        Err(NavinError::CarrierSuspended)
    );
    assert_eq!(
        ctx.client.handoff_shipment(&ctx.env, ctx.carrier, other, id, dummy_hash(2)),
        Err(NavinError::CarrierSuspended)
    );
    ctx.client.reactivate_carrier(ctx.admin, ctx.carrier).unwrap();
    ctx.client.suspend_carrier(ctx.admin, other).unwrap();
    assert_eq!(
        ctx.client.handoff_shipment(&ctx.env, ctx.carrier, other, id, dummy_hash(2)),
        Err(NavinError::CarrierSuspended)
    );
    ctx.client.reactivate_carrier(ctx.admin, other).unwrap();
    assert_eq!(
        ctx.client.handoff_shipment(&ctx.env, ctx.carrier, other, id, dummy_hash(2)),
        Ok(())
    );
    assert_eq!(ctx.client.get_shipment(id).unwrap().carrier, other);
}

#[test]
fn handoffs_go_to_carriers() {
    let mut ctx = setup_ok();
    let (id, receiver) = shipment(&mut ctx);
    assert_eq!(
        ctx.client.handoff_shipment(&ctx.env, ctx.carrier, receiver, id, dummy_hash(2)),
        Err(NavinError::Unauthorized)
    );
}

#[test]
fn statuses_change_along_the_way_only() {
    let all = [
        ShipmentStatus::Created,
        ShipmentStatus::InTransit,
        ShipmentStatus::AtCheckpoint,
        ShipmentStatus::Delivered,
        ShipmentStatus::Disputed,
        ShipmentStatus::Cancelled,
    ];
    let allowed = [
        (ShipmentStatus::Created, ShipmentStatus::InTransit),
        (ShipmentStatus::InTransit, ShipmentStatus::AtCheckpoint),
        (ShipmentStatus::InTransit, ShipmentStatus::Delivered),
        (ShipmentStatus::AtCheckpoint, ShipmentStatus::InTransit),
        (ShipmentStatus::AtCheckpoint, ShipmentStatus::Delivered),
    ];
    for from in all {
        for to in all {
            let mut ctx = setup_ok();
            let (id, _) = shipment(&mut ctx);
            let mut record = ctx.client.storage.get_shipment(id).unwrap();
            record.status = from;
            ctx.client.storage.set_shipment(&record);
            let expected = if allowed.contains(&(from, to)) {
                Ok(())
            } else {
                Err(NavinError::InvalidStatus)
            };
            assert_eq!(
                ctx.client.update_status(&ctx.env, ctx.carrier, id, to, dummy_hash(3)),
                expected
            );
            assert_eq!(from.is_valid_transition(to), expected.is_ok());
            assert_eq!(status(&ctx.client, id), if expected.is_ok() { to } else { from });
        }
    }
}

#[test]
fn the_right_party_acts_at_the_right_time() {
    let mut ctx = setup_ok();
    let (id, receiver) = shipment(&mut ctx);
    let hash = dummy_hash(4);
    let stranger = Address::generate(&mut ctx.env);
    // Not the party.
    let refused = Err(NavinError::Unauthorized);
    assert_eq!(
        ctx.client.update_status(&ctx.env, ctx.company, id, ShipmentStatus::InTransit, hash),
        refused
    );
    assert_eq!(ctx.client.raise_dispute(&ctx.env, stranger, id, hash), refused);
    assert_eq!(ctx.client.cancel_shipment(&ctx.env, receiver, id, hash), refused);
    assert_eq!(ctx.client.deposit_escrow(&ctx.env, receiver, id, 5), refused);
    assert_eq!(ctx.client.release_escrow(&ctx.env, ctx.company, id), refused);
    assert_eq!(ctx.client.refund_escrow(&ctx.env, receiver, id), refused);
    assert_eq!(ctx.client.confirm_delivery(&ctx.env, ctx.company, id, hash), refused);
    // Not the time.
    let untimely = Err(NavinError::InvalidStatus);
    assert_eq!(ctx.client.release_escrow(&ctx.env, receiver, id), untimely);
    assert_eq!(ctx.client.confirm_delivery(&ctx.env, receiver, id, hash), untimely);
    assert_eq!(ctx.client.archive_shipment(ctx.admin, id), untimely);
    ctx.client.cancel_shipment(&ctx.env, ctx.company, id, hash).unwrap();
    assert_eq!(ctx.client.cancel_shipment(&ctx.env, ctx.company, id, hash), untimely);
    assert_eq!(ctx.client.raise_dispute(&ctx.env, ctx.company, id, hash), untimely);
    assert_eq!(ctx.client.deposit_escrow(&ctx.env, ctx.company, id, 5), untimely);
    assert_eq!(ctx.client.force_cancel_shipment(&ctx.env, ctx.admin, id, hash), untimely);
    assert_eq!(
        ctx.client.handoff_shipment(&ctx.env, ctx.carrier, ctx.carrier, id, hash),
        untimely
    );
}

#[test]
fn amounts_are_positive_and_fit() {
    let mut ctx = setup_ok();
    let (id, _) = shipment(&mut ctx);
    assert_eq!(
        ctx.client.deposit_escrow(&ctx.env, ctx.company, id, 0),
        Err(NavinError::InvalidAmount)
    );
    assert_eq!(
        ctx.client.deposit_escrow(&ctx.env, ctx.company, id, -5),
        Err(NavinError::InvalidAmount)
    );
    assert_eq!(
        ctx.client.refund_escrow(&ctx.env, ctx.company, id),
        Err(NavinError::InsufficientFunds)
    );
    ctx.client.deposit_escrow(&ctx.env, ctx.company, id, i128::MAX).unwrap();
    assert_eq!(
        ctx.client.deposit_escrow(&ctx.env, ctx.company, id, 1),
        Err(NavinError::ArithmeticError)
    );
    assert_eq!(ctx.client.get_escrow_balance(id), i128::MAX);
}

#[test]
fn health_reports_need_a_sum_that_fits() {
    let mut ctx = setup_ok();
    let (first, _) = shipment(&mut ctx);
    let (second, _) = shipment(&mut ctx);
    ctx.client.deposit_escrow(&ctx.env, ctx.company, first, i128::MAX).unwrap();
    ctx.client.deposit_escrow(&ctx.env, ctx.company, second, 1).unwrap();
    assert!(matches!(
        ctx.client.check_contract_health(&ctx.env, ctx.admin),
        Err(NavinError::ArithmeticError)
    ));
}

#[test]
fn escrow_is_released_before_archiving() {
    let mut ctx = setup_ok();
    let (id, _) = shipment(&mut ctx);
    ctx.client.deposit_escrow(&ctx.env, ctx.company, id, 30).unwrap();
    ctx.client.cancel_shipment(&ctx.env, ctx.company, id, dummy_hash(2)).unwrap();
    assert_eq!(
        ctx.client.archive_shipment(ctx.admin, id),
        Err(NavinError::EscrowNotEmpty)
    );
    ctx.client.refund_escrow(&ctx.env, ctx.company, id).unwrap();
    ctx.client.archive_shipment(ctx.admin, id).unwrap();
    assert_eq!(status(&ctx.client, id), ShipmentStatus::Cancelled);
}

#[test]
fn nothing_is_released_where_nothing_is_held() {
    let mut ctx = setup_ok();
    let (id, receiver) = shipment(&mut ctx);
    ctx.client
        .update_status(&ctx.env, ctx.carrier, id, ShipmentStatus::InTransit, dummy_hash(2))
        .unwrap();
    ctx.client.confirm_delivery(&ctx.env, receiver, id, dummy_hash(3)).unwrap();
    assert_eq!(
        ctx.client.release_escrow(&ctx.env, receiver, id),
        Err(NavinError::InsufficientFunds)
    );
    assert_eq!(ctx.client.get_settlement_count(), 0);
}

#[test]
fn status_updates_keep_their_distance() {
    let mut ctx = setup_ok();
    let (id, _) = shipment(&mut ctx);
    let update = |client: &mut NavinShipment, env: &Env, carrier: Address, to: ShipmentStatus| {
        client.update_status(env, carrier, id, to, dummy_hash(5))
    };
    assert_eq!(update(&mut ctx.client, &ctx.env, ctx.carrier, ShipmentStatus::InTransit), Ok(()));
    advance_ledger_time(&mut ctx.env, 59);
    assert_eq!(
        update(&mut ctx.client, &ctx.env, ctx.carrier, ShipmentStatus::AtCheckpoint),
        Err(NavinError::RateLimitExceeded)
    );
    advance_ledger_time(&mut ctx.env, 1);
    assert_eq!(
        update(&mut ctx.client, &ctx.env, ctx.carrier, ShipmentStatus::AtCheckpoint),
        Ok(())
    );
    advance_past_rate_limit(&mut ctx.env);
    assert_eq!(update(&mut ctx.client, &ctx.env, ctx.carrier, ShipmentStatus::Delivered), Ok(()));
}

#[test]
fn versions_go_up_by_one() {
    let mut ctx = setup_ok();
    assert_eq!(
        ctx.client.upgrade(ctx.admin, dummy_hash(1), 1),
        Err(NavinError::InvalidVersion)
    );
    assert_eq!(
        ctx.client.upgrade(ctx.admin, dummy_hash(1), 3),
        Err(NavinError::InvalidVersion)
    );
    assert_eq!(ctx.client.upgrade(ctx.admin, dummy_hash(1), 2), Ok(()));
    assert_eq!(ctx.client.get_version(), 2);
    assert_eq!(ctx.client.storage.get_wasm_hash(), Some([1u8; 32]));
}

#[test]
fn the_breaker_stops_transfers_until_it_recovers() {
    let mut ctx = setup_ok();
    let (id, _) = shipment(&mut ctx);
    let opened_at = ctx.env.timestamp;
    ctx.client.storage.set_circuit_breaker(CircuitBreakerTracker {
        state: CircuitBreakerState::Open,
        failure_count: 5,
        opened_at,
        half_open_requests: 0,
    });
    advance_ledger_time(&mut ctx.env, 3599);
    assert_eq!(
        ctx.client.deposit_escrow(&ctx.env, ctx.company, id, 5),
        Err(NavinError::CircuitBreakerOpen)
    );
    advance_ledger_time(&mut ctx.env, 1);
    assert_eq!(ctx.client.deposit_escrow(&ctx.env, ctx.company, id, 5), Ok(()));
    assert_eq!(ctx.client.storage.get_circuit_breaker().state, CircuitBreakerState::Closed);
    assert_eq!(ctx.client.storage.get_circuit_breaker().failure_count, 0);
}

#[test]
fn a_contract_without_a_token_cannot_pay() {
    let (mut env, mut client, admin, token) = setup_shipment_env();
    let company = Address::generate(&mut env);
    client.initialize(&env, admin, token).unwrap();
    client.add_company(admin, company).unwrap();
    let id = create_one(&mut env, &mut client, company, company, 1);
    client.token = None;
    assert_eq!(
        client.deposit_escrow(&env, company, id, 5),
        Err(NavinError::TokenTransferFailed)
    );
}

#[test]
fn a_token_that_fails_stops_every_payment() {
    let mut ctx = setup_fail();
    let (id, receiver) = shipment(&mut ctx);
    inject_escrow(&mut ctx, id, 40);
    assert_eq!(
        ctx.client.force_cancel_shipment(&ctx.env, ctx.admin, id, dummy_hash(2)),
        Err(NavinError::TokenTransferFailed)
    );
    ctx.client
        .update_status(&ctx.env, ctx.carrier, id, ShipmentStatus::InTransit, dummy_hash(2))
        .unwrap();
    assert_eq!(
        ctx.client.confirm_delivery(&ctx.env, receiver, id, dummy_hash(2)),
        Err(NavinError::TokenTransferFailed)
    );
    assert_eq!(status(&ctx.client, id), ShipmentStatus::InTransit);
    assert_eq!(ctx.client.get_escrow_balance(id), 40);
    assert_eq!(NavinError::TokenTransferFailed.code(), Some(39));
    assert_eq!(NavinError::Unauthorized.code(), Some(4));
    assert_eq!(NavinError::InvalidStatus.code(), None);
}
