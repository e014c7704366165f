//! The immutable protocol constants consumed read-only by every component.

use vstd::prelude::*;

verus! {

/// Domain separators for signatures.
pub enum Domain {
    BeaconBlock,
    Exit,
    Attestation,
    Deposit,
    Transfer,
    Randao,
}

/// The protocol constants: slot/epoch geometry, genesis parameters, domain
/// separators and signature placeholders.
#[derive(Clone, Copy, PartialEq, Eq, Structural, Debug)]
pub struct ChainSpec {
    pub slots_per_epoch: u64,
    pub genesis_slot: u64,
    pub genesis_epoch: u64,
    pub far_future_epoch: u64,
    pub persistent_committee_period: u64,
    pub zero_hash: u64,
    pub empty_signature: u64,
    pub domain_beacon_block: u64,
    pub domain_exit: u64,
    pub domain_attestation: u64,
    pub domain_deposit: u64,
    pub domain_transfer: u64,
    pub domain_randao: u64,
}

impl ChainSpec {
    /// A specification is usable when its slot/epoch geometry is non-trivial
    /// and its genesis slot leaves room to advance.
    pub open spec fn wf(self) -> bool {
        &&& self.slots_per_epoch > 0
        &&& self.genesis_epoch == self.genesis_slot / self.slots_per_epoch
        &&& self.zero_hash == crate::ZERO_HASH
    }

    /// The domain constant used for signatures of the given kind. The model
    /// keeps one constant per kind and no fork versioning.
    pub open spec fn spec_get_domain(self, _epoch: u64, domain: Domain) -> u64 {
        match domain {
            Domain::BeaconBlock => self.domain_beacon_block,
            Domain::Exit => self.domain_exit,
            Domain::Attestation => self.domain_attestation,
            Domain::Deposit => self.domain_deposit,
            Domain::Transfer => self.domain_transfer,
            Domain::Randao => self.domain_randao,
        }
    }

    /// Get the domain number that represents the fork meta and signature
    /// domain.
    pub fn get_domain(&self, epoch: u64, domain: Domain) -> (r: u64)
        ensures
            r == self.spec_get_domain(epoch, domain),
    {
        match domain {
            Domain::BeaconBlock => self.domain_beacon_block,
            Domain::Exit => self.domain_exit,
            Domain::Attestation => self.domain_attestation,
            Domain::Deposit => self.domain_deposit,
            Domain::Transfer => self.domain_transfer,
            Domain::Randao => self.domain_randao,
        }
    }

    /// A small configuration suitable for tests: short epochs, genesis at
    /// slot zero.
    pub fn testing_spec() -> (r: ChainSpec)
        ensures
            r.wf(),
            r.slots_per_epoch == 4,
            r.genesis_slot == 0,
            r.far_future_epoch == u64::MAX,
            r.persistent_committee_period == 0,
            r.empty_signature == 0,
    {
        ChainSpec {
            slots_per_epoch: 4,
            genesis_slot: 0,
            genesis_epoch: 0,
            far_future_epoch: u64::MAX,
            persistent_committee_period: 0,
            zero_hash: crate::ZERO_HASH,
            empty_signature: 0,
            domain_beacon_block: 1,
            domain_exit: 2,
            domain_attestation: 3,
            domain_deposit: 4,
            domain_transfer: 5,
            domain_randao: 6,
        }
    }
}

/// The epoch containing the given slot.
pub open spec fn spec_slot_to_epoch(slot: u64, slots_per_epoch: u64) -> u64
    recommends
        slots_per_epoch > 0,
{
    (slot / slots_per_epoch) as u64
}

/// The epoch containing the given slot.
pub fn slot_to_epoch(slot: u64, slots_per_epoch: u64) -> (r: u64)
    requires
        slots_per_epoch > 0,
    ensures
        r == spec_slot_to_epoch(slot, slots_per_epoch),
{
    slot / slots_per_epoch
}

/// The first slot of the given epoch.
pub fn epoch_start_slot(epoch: u64, slots_per_epoch: u64) -> (r: u64)
    requires
        slots_per_epoch > 0,
        epoch * slots_per_epoch <= u64::MAX,
    ensures
        r == epoch * slots_per_epoch,
{
    epoch * slots_per_epoch
}

} // verus!
