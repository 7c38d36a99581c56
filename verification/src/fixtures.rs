//! Ready-made ledgers, contracts and shipments to try things on.

use vstd::prelude::*;

use crate::config::DEFAULT_STATUS_UPDATE_INTERVAL;
use crate::contract::NavinShipment;
use crate::env::{advance_ledger_time, future_deadline, setup_env, Address, Env, GENESIS_TIMESTAMP};
use crate::storage::StorageView;
use crate::token::{
    FailingToken, MockToken, MockTokenConsistency, Token, TokenContract, Transfer,
    TOKEN_DECIMALS,
};
use crate::types::{schedule, Milestone, ShipmentInputView, ShipmentStatus, ShipmentView};

verus! {

/// The hash that has `seed` in every place.
pub open spec fn hash_of(seed: u8) -> [u8; 32] {
    choose|hash: [u8; 32]| #[trigger] filled(hash, seed)
}

/// Whether `hash` has `seed` in every place.
pub open spec fn filled(hash: [u8; 32], seed: u8) -> bool {
    forall|i: int| 0 <= i < 32 ==> #[trigger] hash@[i] == seed
}

/// The hash that has `seed` in every place.
pub fn dummy_hash(seed: u8) -> (hash: [u8; 32])
    ensures
        hash == hash_of(seed),
        filled(hash, seed),
{
    let hash: [u8; 32] = [seed; 32];
    assert(filled(hash, seed));
    assert(filled(hash_of(seed), seed));
    assert(hash@ =~= hash_of(seed)@);
    assert(hash =~= hash_of(seed));
    hash
}

/// Lets pass what must lie between two updates of a status.
pub fn advance_past_rate_limit(env: &mut Env)
    requires
        old(env).timestamp + DEFAULT_STATUS_UPDATE_INTERVAL + 1 <= u64::MAX,
    ensures
        final(env).timestamp == old(env).timestamp + DEFAULT_STATUS_UPDATE_INTERVAL + 1,
        final(env).next_address == old(env).next_address,
{
    advance_ledger_time(env, DEFAULT_STATUS_UPDATE_INTERVAL + 1);
}

/// The ledger after `count` addresses have been handed out and no time has passed.
pub open spec fn genesis(count: u64) -> Env {
    Env { timestamp: GENESIS_TIMESTAMP, next_address: count }
}

/// The account, token or contract with this number.
pub open spec fn numbered(number: u64) -> Address {
    Address { number }
}

/// What a contract keeps once it has been initialised by the account that comes first.
pub open spec fn ready() -> StorageView {
    StorageView::blank().initialized(numbered(0), TOKEN_DECIMALS)
}

/// A ledger with a token and a contract that has not been initialised, and its administrator.
pub fn setup_shipment_env() -> (r: (Env, NavinShipment, Address, Token))
    ensures
        r.0 == genesis(3),
        r.1.address == numbered(2),
        r.1.token is None,
        r.1.storage@ == StorageView::blank(),
        r.1.asked@ == Seq::<Transfer>::empty(),
        r.2 == numbered(0),
        r.3 == (Token { address: numbered(1), contract: TokenContract::Mock(MockToken) }),
{
    let (mut env, admin) = setup_env();
    let token = Token::register(&mut env, TokenContract::Mock(MockToken));
    let client = NavinShipment::register(&mut env);
    (env, client, admin, token)
}

/// A ledger with a token of the given kind and a contract that its administrator has
/// initialised.
fn setup_with(contract: TokenContract) -> (r: (Env, NavinShipment, Address, Token))
    ensures
        r.0 == genesis(3),
        r.1.address == numbered(2),
        r.1.token == Some(r.3),
        r.1.storage@ == ready(),
        r.1.asked@ == Seq::<Transfer>::empty(),
        r.2 == numbered(0),
        r.3 == (Token { address: numbered(1), contract }),
{
    let (mut env, admin) = setup_env();
    let token = Token::register(&mut env, contract);
    let mut client = NavinShipment::register(&mut env);
    let _ = client.initialize(&env, admin, token);
    (env, client, admin, token)
}

/// A ledger with a contract that its administrator has initialised, for the checks of
/// consistency.
pub fn setup() -> (r: (Env, NavinShipment, Address, Token))
    ensures
        r.0 == genesis(3),
        r.1.address == numbered(2),
        r.1.token == Some(r.3),
        r.1.storage@ == ready(),
        r.1.asked@ == Seq::<Transfer>::empty(),
        r.2 == numbered(0),
        r.3 == (Token {
            address: numbered(1),
            contract: TokenContract::Consistency(MockTokenConsistency),
        }),
{
    setup_with(TokenContract::Consistency(MockTokenConsistency))
}

/// A ledger with a contract that its administrator has initialised, for the reports.
pub fn prepare_test() -> (r: (Env, NavinShipment, Address, Token))
    ensures
        r.0 == genesis(3),
        r.1.address == numbered(2),
        r.1.token == Some(r.3),
        r.1.storage@ == ready(),
        r.1.asked@ == Seq::<Transfer>::empty(),
        r.2 == numbered(0),
        r.3 == (Token { address: numbered(1), contract: TokenContract::Mock(MockToken) }),
{
    setup_with(TokenContract::Mock(MockToken))
}

/// A contract with one company and one carrier that the company accepts.
pub struct Ctx {
    pub env: Env,
    pub client: NavinShipment,
    pub admin: Address,
    pub company: Address,
    pub carrier: Address,
}

impl Ctx {
    /// Whether this is a context that has just been set up on the given token.
    pub open spec fn is_new(self, contract: TokenContract) -> bool {
        &&& self.env == genesis(5)
        &&& self.client.address == numbered(2)
        &&& self.client.token == Some(Token { address: numbered(1), contract })
        &&& self.client.asked@ == Seq::<Transfer>::empty()
        &&& self.admin == numbered(0)
        &&& self.company == numbered(3)
        &&& self.carrier == numbered(4)
        &&& self.client.storage@ == ready().with_company(self.company).with_carrier(
            self.carrier,
        ).whitelisting(self.company, self.carrier)
    }

    /// Whether this is the context `before`, but for the time and what the contract keeps.
    pub open spec fn same_context(self, before: Ctx) -> bool {
        &&& self.client.same_contract(before.client)
        &&& self.admin == before.admin
        &&& self.company == before.company
        &&& self.carrier == before.carrier
        &&& self.env.next_address == before.env.next_address
    }
}

fn context_with(contract: TokenContract) -> (ctx: Ctx)
    ensures
        ctx.is_new(contract),
{
    let (mut env, mut client, admin, _token) = setup_with(contract);
    let company = Address::generate(&mut env);
    let carrier = Address::generate(&mut env);
    let _ = client.add_company(admin, company);
    let _ = client.add_carrier(admin, carrier);
    let _ = client.add_carrier_to_whitelist(company, carrier);
    Ctx { env, client, admin, company, carrier }
}

/// A context whose token makes every transfer.
pub fn setup_ok() -> (ctx: Ctx)
    ensures
        ctx.is_new(TokenContract::Mock(MockToken)),
        ctx.client.pays(),
{
    context_with(TokenContract::Mock(MockToken))
}

/// A context whose token makes no transfer.
pub fn setup_fail() -> (ctx: Ctx)
    ensures
        ctx.is_new(TokenContract::Failing(FailingToken)),
        !ctx.client.pays(),
{
    context_with(TokenContract::Failing(FailingToken))
}

/// What is asked for when a shipment is created by [`create_one`].
pub open spec fn plain_input(
    receiver: Address,
    carrier: Address,
    seed: u8,
    deadline: u64,
) -> ShipmentInputView {
    ShipmentInputView {
        receiver,
        carrier,
        data_hash: hash_of(seed),
        payment_milestones: Seq::empty(),
        deadline,
    }
}

/// Creates a shipment to a new receiver that is due in two hours.
pub fn create_one(
    env: &mut Env,
    client: &mut NavinShipment,
    company: Address,
    carrier: Address,
    seed: u8,
) -> (id: u64)
    requires
        old(env).has_room(1),
        old(env).timestamp + 7200 <= u64::MAX,
        old(client).storage@.create_refusal(
            old(env).timestamp,
            company,
            (old(env).timestamp + 7200) as u64,
        ) is None,
    ensures
        id == old(client).storage@.next_id(),
        *final(env) == old(env).after_issuing(1),
        final(client).same_contract(*old(client)),
        final(client).storage@ == old(client).storage@.created(
            old(env).timestamp,
            company,
            plain_input(
                old(env).upcoming(0),
                carrier,
                seed,
                (old(env).timestamp + 7200) as u64,
            ),
        ),
{
    let deadline: u64 = future_deadline(env, 7200);
    let receiver = Address::generate(env);
    let hash = dummy_hash(seed);
    let unscheduled: Vec<Milestone> = Vec::new();
    assert(schedule(unscheduled@) =~= Seq::empty());
    match client.create_shipment(env, company, receiver, carrier, hash, unscheduled, deadline) {
        Ok(id) => id,
        Err(_) => 0,
    }
}

/// Writes an escrow into what the contract keeps, past its calls.
pub fn inject_escrow(ctx: &mut Ctx, id: u64, amount: i128)
    requires
        old(ctx).client.storage@.shipments.contains_key(id),
    ensures
        final(ctx).same_context(*old(ctx)),
        final(ctx).env == old(ctx).env,
        ({
            let before = old(ctx).client.storage@;
            let stored = before.storing(
                (ShipmentView {
                    escrow_amount: amount,
                    total_escrow: amount,
                    ..before.shipments[id]
                }),
            );
            final(ctx).client.storage@ == (StorageView {
                escrows: before.escrows.insert(id, amount),
                ..stored
            })
        }),
{
    if let Some(mut shipment) = ctx.client.storage.get_shipment(id) {
        shipment.escrow_amount = amount;
        shipment.total_escrow = amount;
        ctx.client.storage.set_shipment(&shipment);
        ctx.client.storage.set_escrow(id, amount);
    }
}

/// Has the carrier report that a new shipment is on its way, and that it has arrived.
pub fn advance_to_delivered(ctx: &mut Ctx, id: u64)
    requires
        old(ctx).env.timestamp + 2 * (DEFAULT_STATUS_UPDATE_INTERVAL + 1) <= u64::MAX,
        old(ctx).client.storage@.shipments.contains_key(id),
        old(ctx).client.storage@.shipments[id].id == id,
        old(ctx).client.storage@.config.min_status_update_interval <= DEFAULT_STATUS_UPDATE_INTERVAL
            + 1,
        old(ctx).client.storage@.update_status_refusal(
            (old(ctx).env.timestamp + DEFAULT_STATUS_UPDATE_INTERVAL + 1) as u64,
            old(ctx).carrier,
            id,
            ShipmentStatus::InTransit,
        ) is None,
    ensures
        final(ctx).same_context(*old(ctx)),
        final(ctx).env.timestamp == old(ctx).env.timestamp + 2 * (DEFAULT_STATUS_UPDATE_INTERVAL
            + 1),
        final(ctx).client.storage@ == old(ctx).client.storage@.status_updated(
            (old(ctx).env.timestamp + DEFAULT_STATUS_UPDATE_INTERVAL + 1) as u64,
            id,
            ShipmentStatus::InTransit,
            hash_of(90),
        ).status_updated(
            final(ctx).env.timestamp,
            id,
            ShipmentStatus::Delivered,
            hash_of(91),
        ),
{
    advance_past_rate_limit(&mut ctx.env);
    let _ = ctx.client.update_status(
        &ctx.env,
        ctx.carrier,
        id,
        ShipmentStatus::InTransit,
        dummy_hash(90),
    );
    advance_past_rate_limit(&mut ctx.env);
    let _ = ctx.client.update_status(
        &ctx.env,
        ctx.carrier,
        id,
        ShipmentStatus::Delivered,
        dummy_hash(91),
    );
}

/// A ledger, a contract with one company, its administrator, the company, a receiver, a carrier
/// and the number of a shipment between them that is due in an hour.
pub fn setup_single_shipment() -> (r: (Env, NavinShipment, Address, Address, Address, Address, u64))
    ensures
        r.0 == genesis(6),
        r.1.address == numbered(2),
        r.1.token == Some(
            (Token { address: numbered(1), contract: TokenContract::Mock(MockToken) }),
        ),
        r.1.pays(),
        r.1.asked@ == Seq::<Transfer>::empty(),
        r.2 == numbered(0),
        r.3 == numbered(3),
        r.4 == numbered(4),
        r.5 == numbered(5),
        r.6 == 1,
        r.1.storage@ == ready().with_company(r.3).created(
            GENESIS_TIMESTAMP,
            r.3,
            plain_input(r.4, r.5, 9, (GENESIS_TIMESTAMP + 3600) as u64),
        ),
{
    let (mut env, mut client, admin, token) = setup_shipment_env();
    let company = Address::generate(&mut env);
    let receiver = Address::generate(&mut env);
    let carrier = Address::generate(&mut env);
    let _ = client.initialize(&env, admin, token);
    let _ = client.add_company(admin, company);
    let deadline: u64 = future_deadline(&env, 3600);
    let unscheduled: Vec<Milestone> = Vec::new();
    assert(schedule(unscheduled@) =~= Seq::empty());
    let id: u64 = match client.create_shipment(
        &env,
        company,
        receiver,
        carrier,
        dummy_hash(9),
        unscheduled,
        deadline,
    ) {
        Ok(id) => id,
        Err(_) => 0,
    };
    (env, client, admin, company, receiver, carrier, id)
}

} // verus!
