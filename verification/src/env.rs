//! The ledger that a contract call runs on: its clock and the addresses handed out so far.

use vstd::prelude::*;

verus! {

/// An account or contract on the ledger.
#[derive(Clone, Copy, Debug, PartialEq, Eq, Structural)]
pub struct Address {
    pub number: u64,
}

/// The ledger's clock, in seconds, and the number of the next unused address.
#[derive(Clone, Copy, Debug, PartialEq, Eq, Structural)]
pub struct Env {
    pub timestamp: u64,
    pub next_address: u64,
}

/// The clock of a ledger that has just been set up.
pub const GENESIS_TIMESTAMP: u64 = 1_000;

impl Env {
    /// Whether `address` has been handed out on this ledger.
    pub open spec fn issued(self, address: Address) -> bool {
        address.number < self.next_address
    }

    /// Whether `count` further addresses can be handed out.
    pub open spec fn has_room(self, count: int) -> bool {
        self.next_address + count <= u64::MAX
    }

    /// The ledger after `count` further addresses have been handed out.
    pub open spec fn after_issuing(self, count: int) -> Env {
        Env { timestamp: self.timestamp, next_address: (self.next_address + count) as u64 }
    }

    /// The `index`-th address that this ledger will hand out next.
    pub open spec fn upcoming(self, index: int) -> Address {
        Address { number: (self.next_address + index) as u64 }
    }

    /// A ledger on which no address is in use yet.
    pub fn new() -> (env: Env)
        ensures
            env == (Env { timestamp: GENESIS_TIMESTAMP, next_address: 0 }),
    {
        Env { timestamp: GENESIS_TIMESTAMP, next_address: 0 }
    }
}

impl Address {
    /// An address that nothing on the ledger uses yet.
    pub fn generate(env: &mut Env) -> (address: Address)
        requires
            old(env).has_room(1),
        ensures
            address == old(env).upcoming(0),
            *final(env) == old(env).after_issuing(1),
            !old(env).issued(address),
            final(env).issued(address),
    {
        let address = Address { number: env.next_address };
        env.next_address = env.next_address + 1;
        address
    }
}

/// The moment `offset` seconds from now.
pub fn future_deadline(env: &Env, offset: u64) -> (deadline: u64)
    requires
        env.timestamp + offset <= u64::MAX,
    ensures
        deadline == env.timestamp + offset,
{
    env.timestamp + offset
}

/// Moves the clock forward by `seconds`.
pub fn advance_ledger_time(env: &mut Env, seconds: u64)
    requires
        old(env).timestamp + seconds <= u64::MAX,
    ensures
        final(env).timestamp == old(env).timestamp + seconds,
        final(env).next_address == old(env).next_address,
{
    env.timestamp = env.timestamp + seconds;
}

/// A fresh ledger and the account that administers contracts on it.
pub fn setup_env() -> (r: (Env, Address))
    ensures
        r.0 == (Env { timestamp: GENESIS_TIMESTAMP, next_address: 1 }),
        r.1 == (Address { number: 0 }),
{
    let mut env = Env::new();
    let admin = Address::generate(&mut env);
    (env, admin)
}

/// Addresses handed out one after the other differ: the one at `i` positions from now is
/// not the one at `j`.
pub proof fn generated_addresses_differ(env: Env, i: int, j: int)
    requires
        0 <= i < j,
        env.has_room(j + 1),
    ensures
        env.upcoming(i) != env.upcoming(j),
        !env.issued(env.upcoming(i)),
        !env.issued(env.upcoming(j)),
{
}

} // verus!
