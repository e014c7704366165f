//! Plain-value model types for the consensus objects.
//!
//! Content hashes ("roots") are modelled as `u64` digests, signatures and
//! public keys as `u64` values of a deterministic model scheme, and the
//! participation bitfields of attestations as `u64` bit masks.

use vstd::prelude::*;

verus! {

/// A registered validator: its key material and its exit bookkeeping.
#[derive(Clone, Copy, PartialEq, Eq, Structural, Debug)]
pub struct Validator {
    pub pubkey: u64,
    pub activation_epoch: u64,
    pub exit_epoch: u64,
    pub initiated_exit: bool,
}

/// Specifies the block hash for a shard at an epoch.
#[derive(Clone, Copy, PartialEq, Eq, Structural, Debug)]
pub struct Crosslink {
    pub epoch: u64,
    pub crosslink_data_root: u64,
}

/// A summary of the external deposit contract.
#[derive(Clone, Copy, PartialEq, Eq, Structural, Debug)]
pub struct Eth1Data {
    pub deposit_root: u64,
    pub block_hash: u64,
}

/// The data an attestation votes on.
#[derive(Clone, Copy, PartialEq, Eq, Structural, Debug)]
pub struct AttestationData {
    pub slot: u64,
    pub shard: u64,
    pub beacon_block_root: u64,
    pub target_root: u64,
    pub crosslink_data_root: u64,
    pub previous_crosslink: Crosslink,
    pub source_epoch: u64,
    pub source_root: u64,
}

/// An attestation with its aggregation bit mask and aggregate signature.
#[derive(Clone, Copy, PartialEq, Eq, Structural, Debug)]
pub struct Attestation {
    pub aggregation_bitfield: u64,
    pub data: AttestationData,
    pub custody_bitfield: u64,
    pub aggregate_signature: u64,
}

/// An attestation that has been included in the state but not yet fully
/// processed.
#[derive(Clone, Copy, PartialEq, Eq, Structural, Debug)]
pub struct PendingAttestation {
    pub aggregation_bitfield: u64,
    pub data: AttestationData,
    pub custody_bitfield: u64,
    pub inclusion_slot: u64,
}

impl PendingAttestation {
    /// Create a `PendingAttestation` from an `Attestation`, at the given
    /// `inclusion_slot`.
    pub fn from_attestation(attestation: &Attestation, inclusion_slot: u64) -> (r: Self)
        ensures
            r.aggregation_bitfield == attestation.aggregation_bitfield,
            r.data == attestation.data,
            r.custody_bitfield == attestation.custody_bitfield,
            r.inclusion_slot == inclusion_slot,
    {
        PendingAttestation {
            data: attestation.data,
            aggregation_bitfield: attestation.aggregation_bitfield,
            custody_bitfield: attestation.custody_bitfield,
            inclusion_slot,
        }
    }
}

/// A deposit of stake for a (possibly new) validator.
#[derive(Clone, Copy, PartialEq, Eq, Structural, Debug)]
pub struct Deposit {
    pub index: u64,
    pub pubkey: u64,
    pub amount: u64,
    pub proof_of_possession: u64,
}

/// A voluntary request of a validator to exit the registry.
#[derive(Clone, Copy, PartialEq, Eq, Structural, Debug)]
pub struct VoluntaryExit {
    pub epoch: u64,
    pub validator_index: u64,
    pub signature: u64,
}

/// A transfer of balance between two validators.
#[derive(Clone, Copy, PartialEq, Eq, Structural, Debug)]
pub struct Transfer {
    pub sender: u64,
    pub recipient: u64,
    pub amount: u64,
    pub slot: u64,
    pub signature: u64,
}

/// The header of a block: the block with its body replaced by the body's
/// root.
#[derive(Clone, Copy, PartialEq, Eq, Structural, Debug)]
pub struct BeaconBlockHeader {
    pub slot: u64,
    pub previous_block_root: u64,
    pub state_root: u64,
    pub block_body_root: u64,
    pub signature: u64,
}

/// Two conflicting block headers signed by one proposer.
#[derive(Clone, Copy, PartialEq, Eq, Structural, Debug)]
pub struct ProposerSlashing {
    pub proposer_index: u64,
    pub header_1: BeaconBlockHeader,
    pub header_2: BeaconBlockHeader,
}

/// An attestation accused of being slashable; the participating validators
/// are given as a bit mask over the registry.
#[derive(Clone, Copy, PartialEq, Eq, Structural, Debug)]
pub struct SlashableAttestation {
    pub validator_indices: u64,
    pub data: AttestationData,
    pub custody_bitfield: u64,
    pub aggregate_signature: u64,
}

/// Two conflicting attestations.
#[derive(Clone, Copy, PartialEq, Eq, Structural, Debug)]
pub struct AttesterSlashing {
    pub slashable_attestation_1: SlashableAttestation,
    pub slashable_attestation_2: SlashableAttestation,
}

} // verus!
