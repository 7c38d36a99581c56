//! Laws of who may do what, of the configuration and of reading.

use vstd::prelude::*;

use crate::calls::{
    batches_only_add_shipments, histories_keep_health, in_order, Call, Moment,
};
use crate::config::{checksum_tells_configs_apart, sha256_collision, ContractConfig};
use crate::env::Address;
use crate::storage::StorageView;
use crate::types::NavinError;

verus! {

/// A company that accepts a carrier has accepted it, one that no longer does has not, and it does
/// not matter how often it says so.
pub proof fn whitelist_keeps_the_last_word(s: StorageView, company: Address, carrier: Address)
    ensures
        s.whitelisting(company, carrier).whitelist.contains((company, carrier)),
        !s.delisting(company, carrier).whitelist.contains((company, carrier)),
        s.whitelisting(company, carrier).whitelisting(company, carrier) == s.whitelisting(
            company,
            carrier,
        ),
        s.delisting(company, carrier).delisting(company, carrier) == s.delisting(company, carrier),
        s.whitelisting(company, carrier).delisting(company, carrier) == s.delisting(
            company,
            carrier,
        ),
        s.delisting(company, carrier).whitelisting(company, carrier) == s.whitelisting(
            company,
            carrier,
        ),
{
}

/// Whether a company accepts a carrier changes only when that company says so of that carrier.
/// Other pairs do not matter, the same two the other way round among them, nor does a
/// suspension, nor anything else that is done.
pub proof fn whitelist_entries_are_their_own(
    s: StorageView,
    at: Moment,
    call: Call,
    company: Address,
    carrier: Address,
)
    requires
        call != (Call::AddCarrierToWhitelist { company, carrier }),
        call != (Call::RemoveCarrierFromWhitelist { company, carrier }),
    ensures
        s.after(at, call).whitelist.contains((company, carrier)) == s.whitelist.contains(
            (company, carrier),
        ),
{
    if let Call::CreateShipmentsBatch { company: sender, inputs } = call {
        batches_only_add_shipments(s, at.now, sender, inputs);
    }
}

/// A new contract has accepted no carrier for any company.
pub proof fn whitelist_starts_empty(company: Address, carrier: Address)
    ensures
        !StorageView::blank().whitelist.contains((company, carrier)),
{
}

/// Whether a call is for the administrator alone.
pub open spec fn for_the_admin(call: Call) -> Option<Address> {
    match call {
        Call::AddCompany { caller, .. } => Some(caller),
        Call::AddCarrier { caller, .. } => Some(caller),
        Call::SuspendCarrier { caller, .. } => Some(caller),
        Call::ReactivateCarrier { caller, .. } => Some(caller),
        Call::UpdateConfig { caller, .. } => Some(caller),
        Call::Upgrade { caller, .. } => Some(caller),
        Call::ArchiveShipment { caller, .. } => Some(caller),
        Call::ForceCancelShipment { caller, .. } => Some(caller),
        _ => None,
    }
}

/// Calls that are for the administrator are refused to everybody else, and change nothing.
pub proof fn only_the_admin_administers(s: StorageView, at: Moment, call: Call, admin: Address)
    requires
        s.admin == Some(admin),
        for_the_admin(call) matches Some(caller) && caller != admin,
        !s.reentrancy_lock,
    ensures
        s.refusal(at, call) == Some(NavinError::Unauthorized),
        s.after(at, call) == s,
{
}

/// Once there is an administrator, they stay.
pub proof fn the_admin_stays(s: StorageView, at: Moment, call: Call)
    requires
        s.admin is Some,
    ensures
        s.after(at, call).admin == s.admin,
{
    if let Call::CreateShipmentsBatch { company, inputs } = call {
        batches_only_add_shipments(s, at.now, company, inputs);
    }
}

/// Whatever calls have been made of a new contract, the checksum that is kept is that of the
/// configuration that is kept.
pub proof fn checksum_is_that_of_the_config(history: Seq<(Moment, Call)>, now: u64)
    requires
        in_order(history, now),
    ensures
        ({
            let s = StorageView::blank().after_all(history);
            s.config_checksum == s.config.checksum()
        }),
{
    histories_keep_health(history, now);
}

/// Setting the configuration that is already set changes nothing; setting another one and then
/// the first again restores everything.
pub proof fn config_updates_can_be_undone(s: StorageView, now: u64, config: ContractConfig)
    requires
        s.healthy(now),
    ensures
        s.configured(s.config) == s,
        s.configured(config).configured(s.config) == s,
        s.configured(config).configured(config) == s.configured(config),
{
}

/// Another configuration has another checksum, unless the two encodings collide under SHA-256.
pub proof fn config_changes_show_in_the_checksum(s: StorageView, now: u64, config: ContractConfig)
    requires
        s.healthy(now),
        config != s.config,
    ensures
        s.configured(config).config_checksum != s.config_checksum || sha256_collision(
            s.config.encoding(),
            config.encoding(),
        ),
{
    checksum_tells_configs_apart(s.config, config);
}

/// Only an update of the configuration changes it, once the contract has been initialised.
pub proof fn config_is_changed_by_updates_only(s: StorageView, at: Moment, call: Call)
    requires
        s.admin is Some,
        !(call is UpdateConfig),
    ensures
        s.after(at, call).config == s.config,
        s.after(at, call).config_checksum == s.config_checksum,
{
    if let Call::CreateShipmentsBatch { company, inputs } = call {
        batches_only_add_shipments(s, at.now, company, inputs);
    }
}

/// An upgrade changes the version and the code, and nothing else that is kept.
pub proof fn upgrades_keep_the_data(
    s: StorageView,
    at: Moment,
    caller: Address,
    wasm_hash: [u8; 32],
    target: u32,
)
    ensures
        ({
            let t = s.after(at, Call::Upgrade { caller, wasm_hash, target });
            t == (StorageView { version: t.version, wasm_hash: t.wasm_hash, ..s })
        }),
        s.refusal(at, Call::Upgrade { caller, wasm_hash, target }) is None ==> s.after(
            at,
            Call::Upgrade { caller, wasm_hash, target },
        ).version == s.version + 1,
{
}

/// Reading several shipments at once gives for each what reading it alone gives.
pub proof fn batch_reads_agree_with_single_reads(s: StorageView, ids: Seq<u64>, i: int)
    requires
        0 <= i < ids.len(),
    ensures
        s.read_batch(ids).len() == ids.len(),
        match s.read(ids[i]) {
            Ok(shipment) => s.read_batch(ids)[i] == Some(shipment),
            Err(reason) => reason == NavinError::ShipmentNotFound && s.read_batch(ids)[i] is None,
        },
{
}

/// Archiving a shipment changes where it is stored, and not what is read of it.
pub proof fn archived_shipments_read_the_same(
    s: StorageView,
    at: Moment,
    caller: Address,
    id: u64,
    other: u64,
)
    requires
        s.healthy(at.now),
        s.refusal(at, Call::ArchiveShipment { caller, id }) is None,
    ensures
        ({
            let t = s.after(at, Call::ArchiveShipment { caller, id });
            &&& t.read(other) == s.read(other)
            &&& t.diagnosis(id).state is ArchivedExpected
            &&& s.diagnosis(id).state is ActivePersistent
        }),
{
    assert(s.sound_at(at.now, id));
    assert(s.sound_at(at.now, other));
}

} // verus!
