//! The contract's configuration and the checksum that identifies it.

use vstd::bytes::{
    lemma_auto_spec_u32_to_from_le_bytes, lemma_auto_spec_u64_to_from_le_bytes,
    spec_u32_to_le_bytes, spec_u64_to_le_bytes, u32_to_le_bytes, u64_to_le_bytes,
};
use vstd::prelude::*;

verus! {

/// The settings that an administrator can change.
///
/// The operations of this library read `min_status_update_interval`; the other settings are
/// kept for the rest of a deployment, and all of them count towards the checksum.
#[derive(Clone, Copy, Debug, PartialEq, Eq, Structural)]
pub struct ContractConfig {
    pub shipment_ttl_threshold: u32,
    pub shipment_ttl_extension: u32,
    pub min_status_update_interval: u64,
    pub batch_operation_limit: u32,
    pub max_metadata_entries: u32,
    pub default_shipment_limit: u32,
    pub proposal_expiry_seconds: u64,
    pub deadline_grace_seconds: u64,
    pub auto_dispute_breach: bool,
    pub max_milestones_per_shipment: u32,
    pub max_notes_per_shipment: u32,
    pub max_evidence_per_dispute: u32,
    pub max_breaches_per_shipment: u32,
}

/// The least number of seconds between two status updates of a shipment, unless configured
/// otherwise.
pub const DEFAULT_STATUS_UPDATE_INTERVAL: u64 = 60;

/// The number of bytes in the encoding of a configuration.
pub const CONFIG_ENCODING_LENGTH: usize = 61;

impl ContractConfig {
    /// The configuration of a contract that has just been initialised.
    pub open spec fn initial() -> ContractConfig {
        ContractConfig {
            shipment_ttl_threshold: 17_280,
            shipment_ttl_extension: 518_400,
            min_status_update_interval: DEFAULT_STATUS_UPDATE_INTERVAL,
            batch_operation_limit: 10,
            max_metadata_entries: 5,
            default_shipment_limit: 100,
            proposal_expiry_seconds: 604_800,
            deadline_grace_seconds: 0,
            auto_dispute_breach: false,
            max_milestones_per_shipment: 10,
            max_notes_per_shipment: 50,
            max_evidence_per_dispute: 20,
            max_breaches_per_shipment: 50,
        }
    }

    /// The fields in order, integers in little-endian byte order and the flag as one byte.
    pub open spec fn encoding(self) -> Seq<u8> {
        spec_u32_to_le_bytes(self.shipment_ttl_threshold) + (spec_u32_to_le_bytes(
            self.shipment_ttl_extension,
        ) + (spec_u64_to_le_bytes(self.min_status_update_interval) + (spec_u32_to_le_bytes(
            self.batch_operation_limit,
        ) + (spec_u32_to_le_bytes(self.max_metadata_entries) + (spec_u32_to_le_bytes(
            self.default_shipment_limit,
        ) + (spec_u64_to_le_bytes(self.proposal_expiry_seconds) + (spec_u64_to_le_bytes(
            self.deadline_grace_seconds,
        ) + (flag_byte(self.auto_dispute_breach) + (spec_u32_to_le_bytes(
            self.max_milestones_per_shipment,
        ) + (spec_u32_to_le_bytes(self.max_notes_per_shipment) + (spec_u32_to_le_bytes(
            self.max_evidence_per_dispute,
        ) + spec_u32_to_le_bytes(self.max_breaches_per_shipment))))))))))))
    }

    /// The checksum of this configuration.
    pub open spec fn checksum(self) -> Seq<u8> {
        sha256_digest(self.encoding())
    }
}

impl Default for ContractConfig {
    fn default() -> (config: ContractConfig)
        ensures
            config == ContractConfig::initial(),
    {
        ContractConfig {
            shipment_ttl_threshold: 17_280,
            shipment_ttl_extension: 518_400,
            min_status_update_interval: DEFAULT_STATUS_UPDATE_INTERVAL,
            batch_operation_limit: 10,
            max_metadata_entries: 5,
            default_shipment_limit: 100,
            proposal_expiry_seconds: 604_800,
            deadline_grace_seconds: 0,
            auto_dispute_breach: false,
            max_milestones_per_shipment: 10,
            max_notes_per_shipment: 50,
            max_evidence_per_dispute: 20,
            max_breaches_per_shipment: 50,
        }
    }
}

/// A flag as one byte.
pub open spec fn flag_byte(flag: bool) -> Seq<u8> {
    seq![
        if flag {
            1u8
        } else {
            0u8
        },
    ]
}

/// What `soroban_sdk::crypto::Crypto::sha256` returns for the given bytes.
pub uninterp spec fn sha256_digest(data: Seq<u8>) -> Seq<u8>;

/// Calls `soroban_sdk::crypto::Crypto::sha256` on a host of its own.
///
/// Trusted: the digest is a function of the bytes alone. What SHA-256 computes is left unsaid.
/// The bound on the length keeps the call well inside the budget that a new host starts with.
#[verifier::external_body]
fn sha256(data: &Vec<u8>) -> (digest: [u8; 32])
    requires
        data@.len() <= 1024,
    ensures
        digest@ == sha256_digest(data@),
{
    let host = soroban_sdk::Env::default();
    let bytes = soroban_sdk::Bytes::from_slice(&host, data.as_slice());
    host.crypto().sha256(&bytes).to_array()
}

/// The bytes that the checksum of `config` is taken over.
pub fn encode_config(config: &ContractConfig) -> (bytes: Vec<u8>)
    ensures
        bytes@ == config.encoding(),
        bytes@.len() == CONFIG_ENCODING_LENGTH,
{
    let mut bytes: Vec<u8> = u32_to_le_bytes(config.shipment_ttl_threshold);
    let mut part: Vec<u8> = u32_to_le_bytes(config.shipment_ttl_extension);
    bytes.append(&mut part);
    let mut part: Vec<u8> = u64_to_le_bytes(config.min_status_update_interval);
    bytes.append(&mut part);
    let mut part: Vec<u8> = u32_to_le_bytes(config.batch_operation_limit);
    bytes.append(&mut part);
    let mut part: Vec<u8> = u32_to_le_bytes(config.max_metadata_entries);
    bytes.append(&mut part);
    let mut part: Vec<u8> = u32_to_le_bytes(config.default_shipment_limit);
    bytes.append(&mut part);
    let mut part: Vec<u8> = u64_to_le_bytes(config.proposal_expiry_seconds);
    bytes.append(&mut part);
    let mut part: Vec<u8> = u64_to_le_bytes(config.deadline_grace_seconds);
    bytes.append(&mut part);
    bytes.push(
        if config.auto_dispute_breach {
            1
        } else {
            0
        },
    );
    let mut part: Vec<u8> = u32_to_le_bytes(config.max_milestones_per_shipment);
    bytes.append(&mut part);
    let mut part: Vec<u8> = u32_to_le_bytes(config.max_notes_per_shipment);
    bytes.append(&mut part);
    let mut part: Vec<u8> = u32_to_le_bytes(config.max_evidence_per_dispute);
    bytes.append(&mut part);
    let mut part: Vec<u8> = u32_to_le_bytes(config.max_breaches_per_shipment);
    bytes.append(&mut part);
    proof {
        lemma_auto_spec_u32_to_from_le_bytes();
        lemma_auto_spec_u64_to_from_le_bytes();
    }
    assert(bytes@ =~= config.encoding());
    bytes
}

/// The checksum of `config`.
pub fn compute_config_checksum(config: &ContractConfig) -> (checksum: [u8; 32])
    ensures
        checksum@ == config.checksum(),
{
    let bytes = encode_config(config);
    sha256(&bytes)
}

/// Two concatenations with heads of one length agree only where both parts agree.
proof fn concatenation_splits(a: Seq<u8>, x: Seq<u8>, b: Seq<u8>, y: Seq<u8>)
    requires
        a + x == b + y,
        a.len() == b.len(),
    ensures
        a == b,
        x == y,
{
    assert(a =~= (a + x).take(a.len() as int));
    assert(b =~= (b + y).take(b.len() as int));
    assert(x =~= (a + x).skip(a.len() as int));
    assert(y =~= (b + y).skip(b.len() as int));
}

/// The encoding loses nothing: two configurations with one encoding are equal.
pub proof fn encoding_determines_config(a: ContractConfig, b: ContractConfig)
    requires
        a.encoding() == b.encoding(),
    ensures
        a == b,
{
    lemma_auto_spec_u32_to_from_le_bytes();
    lemma_auto_spec_u64_to_from_le_bytes();
    let a12 = spec_u32_to_le_bytes(a.max_breaches_per_shipment);
    let b12 = spec_u32_to_le_bytes(b.max_breaches_per_shipment);
    let a11 = spec_u32_to_le_bytes(a.max_evidence_per_dispute) + a12;
    let b11 = spec_u32_to_le_bytes(b.max_evidence_per_dispute) + b12;
    let a10 = spec_u32_to_le_bytes(a.max_notes_per_shipment) + a11;
    let b10 = spec_u32_to_le_bytes(b.max_notes_per_shipment) + b11;
    let a9 = spec_u32_to_le_bytes(a.max_milestones_per_shipment) + a10;
    let b9 = spec_u32_to_le_bytes(b.max_milestones_per_shipment) + b10;
    let a8 = flag_byte(a.auto_dispute_breach) + a9;
    let b8 = flag_byte(b.auto_dispute_breach) + b9;
    let a7 = spec_u64_to_le_bytes(a.deadline_grace_seconds) + a8;
    let b7 = spec_u64_to_le_bytes(b.deadline_grace_seconds) + b8;
    let a6 = spec_u64_to_le_bytes(a.proposal_expiry_seconds) + a7;
    let b6 = spec_u64_to_le_bytes(b.proposal_expiry_seconds) + b7;
    let a5 = spec_u32_to_le_bytes(a.default_shipment_limit) + a6;
    let b5 = spec_u32_to_le_bytes(b.default_shipment_limit) + b6;
    let a4 = spec_u32_to_le_bytes(a.max_metadata_entries) + a5;
    let b4 = spec_u32_to_le_bytes(b.max_metadata_entries) + b5;
    let a3 = spec_u32_to_le_bytes(a.batch_operation_limit) + a4;
    let b3 = spec_u32_to_le_bytes(b.batch_operation_limit) + b4;
    let a2 = spec_u64_to_le_bytes(a.min_status_update_interval) + a3;
    let b2 = spec_u64_to_le_bytes(b.min_status_update_interval) + b3;
    let a1 = spec_u32_to_le_bytes(a.shipment_ttl_extension) + a2;
    let b1 = spec_u32_to_le_bytes(b.shipment_ttl_extension) + b2;
    concatenation_splits(
        spec_u32_to_le_bytes(a.shipment_ttl_threshold),
        a1,
        spec_u32_to_le_bytes(b.shipment_ttl_threshold),
        b1,
    );
    concatenation_splits(
        spec_u32_to_le_bytes(a.shipment_ttl_extension),
        a2,
        spec_u32_to_le_bytes(b.shipment_ttl_extension),
        b2,
    );
    concatenation_splits(
        spec_u64_to_le_bytes(a.min_status_update_interval),
        a3,
        spec_u64_to_le_bytes(b.min_status_update_interval),
        b3,
    );
    concatenation_splits(
        spec_u32_to_le_bytes(a.batch_operation_limit),
        a4,
        spec_u32_to_le_bytes(b.batch_operation_limit),
        b4,
    );
    concatenation_splits(
        spec_u32_to_le_bytes(a.max_metadata_entries),
        a5,
        spec_u32_to_le_bytes(b.max_metadata_entries),
        b5,
    );
    concatenation_splits(
        spec_u32_to_le_bytes(a.default_shipment_limit),
        a6,
        spec_u32_to_le_bytes(b.default_shipment_limit),
        b6,
    );
    concatenation_splits(
        spec_u64_to_le_bytes(a.proposal_expiry_seconds),
        a7,
        spec_u64_to_le_bytes(b.proposal_expiry_seconds),
        b7,
    );
    concatenation_splits(
        spec_u64_to_le_bytes(a.deadline_grace_seconds),
        a8,
        spec_u64_to_le_bytes(b.deadline_grace_seconds),
        b8,
    );
    concatenation_splits(flag_byte(a.auto_dispute_breach), a9, flag_byte(b.auto_dispute_breach), b9);
    assert(flag_byte(a.auto_dispute_breach)[0] == flag_byte(b.auto_dispute_breach)[0]);
    concatenation_splits(
        spec_u32_to_le_bytes(a.max_milestones_per_shipment),
        a10,
        spec_u32_to_le_bytes(b.max_milestones_per_shipment),
        b10,
    );
    concatenation_splits(
        spec_u32_to_le_bytes(a.max_notes_per_shipment),
        a11,
        spec_u32_to_le_bytes(b.max_notes_per_shipment),
        b11,
    );
    concatenation_splits(
        spec_u32_to_le_bytes(a.max_evidence_per_dispute),
        a12,
        spec_u32_to_le_bytes(b.max_evidence_per_dispute),
        b12,
    );
}

/// Whether `x` and `y` are two different inputs with one digest.
pub open spec fn sha256_collision(x: Seq<u8>, y: Seq<u8>) -> bool {
    x != y && sha256_digest(x) == sha256_digest(y)
}

/// Equal configurations have equal checksums, and two different ones have different checksums
/// unless the hash function collides on their encodings.
pub proof fn checksum_tells_configs_apart(a: ContractConfig, b: ContractConfig)
    ensures
        a == b ==> a.checksum() == b.checksum(),
        a != b ==> a.checksum() != b.checksum() || sha256_collision(a.encoding(), b.encoding()),
{
    if a != b && a.encoding() == b.encoding() {
        encoding_determines_config(a, b);
    }
}

} // verus!
