//! The pending-operations pool: unconfirmed attestations, deposits, exits,
//! slashings and transfers, validated on entry and held for block
//! production. A failed insertion never changes the pool.

use vstd::prelude::*;

use crate::bls::spec_verify;
use crate::chain_spec::ChainSpec;
use crate::roots::mix;
use crate::state::BeaconState;
use crate::types::{
    Attestation, AttesterSlashing, Deposit, ProposerSlashing, Transfer, VoluntaryExit,
};
use crate::verify_exit::{
    spec_verify_exit, verify_exit_time_independent_only, ExitValidationError,
};

verus! {

/// Why an attestation was not accepted into the pool.
#[derive(Clone, Copy, PartialEq, Eq, Structural, Debug)]
pub enum AttestationValidationError {
    /// The attestation votes on a slot the state has not reached.
    FutureSlot { attestation: u64, state: u64 },
}

/// Why a deposit was not accepted into the pool.
#[derive(Clone, Copy, PartialEq, Eq, Structural, Debug)]
pub enum DepositValidationError {
    /// A different deposit with the same index is already pooled.
    DuplicateDistinct(u64),
    /// The proof of possession does not verify for the deposited key.
    BadProofOfPossession,
}

/// The fate of an inserted deposit.
#[derive(Clone, Copy, PartialEq, Eq, Structural, Debug)]
pub enum DepositInsertStatus {
    /// The deposit was not seen before and is now pooled.
    Fresh,
    /// An identical deposit was already pooled; nothing changed.
    Duplicate,
}

/// Why a transfer was not accepted into the pool.
#[derive(Clone, Copy, PartialEq, Eq, Structural, Debug)]
pub enum TransferValidationError {
    /// The sending validator does not exist.
    UnknownValidator(u64),
    /// The sender's balance does not cover the transfer.
    InsufficientBalance,
}

/// Why a proposer slashing was not accepted into the pool.
#[derive(Clone, Copy, PartialEq, Eq, Structural, Debug)]
pub enum ProposerSlashingValidationError {
    /// The accused proposer does not exist.
    UnknownValidator(u64),
    /// The two headers are identical, so nothing conflicts.
    HeadersIdentical,
    /// The two headers are for different slots, so they do not conflict.
    SlotMismatch,
}

/// Why an attester slashing was not accepted into the pool.
#[derive(Clone, Copy, PartialEq, Eq, Structural, Debug)]
pub enum AttesterSlashingValidationError {
    /// The two attestations are identical, so nothing conflicts.
    AttestationsIdentical,
}

/// Two pooled attestations are aggregated into one: the participation masks
/// are joined and the signatures folded together.
pub open spec fn spec_aggregated(existing: Attestation, incoming: Attestation) -> Attestation {
    Attestation {
        aggregation_bitfield: existing.aggregation_bitfield | incoming.aggregation_bitfield,
        data: existing.data,
        custody_bitfield: existing.custody_bitfield | incoming.custody_bitfield,
        aggregate_signature: mix(existing.aggregate_signature, incoming.aggregate_signature),
    }
}

/// The in-memory staging area for unconfirmed operations.
pub struct OperationPool {
    pub attestations: Vec<Attestation>,
    pub deposits: Vec<Deposit>,
    pub voluntary_exits: Vec<VoluntaryExit>,
    pub transfers: Vec<Transfer>,
    pub proposer_slashings: Vec<ProposerSlashing>,
    pub attester_slashings: Vec<AttesterSlashing>,
}

impl OperationPool {
    /// No two pooled attestations vote on the same data: duplicates are
    /// aggregated on entry, never stored twice.
    pub open spec fn attestations_distinct(&self) -> bool {
        forall|i: int, j: int|
            0 <= i < j < self.attestations@.len() ==> (#[trigger] self.attestations@[i]).data != (
            #[trigger] self.attestations@[j]).data
    }

    /// An empty pool.
    pub fn new() -> (r: OperationPool)
        ensures
            r.attestations@.len() == 0,
            r.deposits@.len() == 0,
            r.voluntary_exits@.len() == 0,
            r.transfers@.len() == 0,
            r.proposer_slashings@.len() == 0,
            r.attester_slashings@.len() == 0,
            r.attestations_distinct(),
    {
        OperationPool {
            attestations: Vec::new(),
            deposits: Vec::new(),
            voluntary_exits: Vec::new(),
            transfers: Vec::new(),
            proposer_slashings: Vec::new(),
            attester_slashings: Vec::new(),
        }
    }

    /// Accept an attestation: it must not vote on a future slot; one voting
    /// on already-pooled data is aggregated with it instead of being stored
    /// twice. Only the attestation list can change.
    #[verifier::loop_isolation(false)]
    pub fn insert_attestation(
        &mut self,
        attestation: Attestation,
        state: &BeaconState,
        spec: &ChainSpec,
    ) -> (r: Result<(), AttestationValidationError>)
        requires
            old(self).attestations_distinct(),
        ensures
            final(self).attestations_distinct(),
            final(self).deposits@ == old(self).deposits@,
            final(self).voluntary_exits@ == old(self).voluntary_exits@,
            final(self).transfers@ == old(self).transfers@,
            final(self).proposer_slashings@ == old(self).proposer_slashings@,
            final(self).attester_slashings@ == old(self).attester_slashings@,
            attestation.data.slot > state@.slot ==> r == Err::<(), AttestationValidationError>(
                AttestationValidationError::FutureSlot {
                    attestation: attestation.data.slot,
                    state: state@.slot,
                },
            ) && final(self).attestations@ == old(self).attestations@,
            attestation.data.slot <= state@.slot ==> r == Ok::<(), AttestationValidationError>(())
                && ((exists|i: int|
                0 <= i < old(self).attestations@.len() && (#[trigger] old(
                    self,
                ).attestations@[i]).data == attestation.data && final(self).attestations@ == old(
                    self,
                ).attestations@.update(i, spec_aggregated(old(self).attestations@[i], attestation)))
                || ((forall|i: int|
                0 <= i < old(self).attestations@.len() ==> (#[trigger] old(
                    self,
                ).attestations@[i]).data != attestation.data) && final(self).attestations@ == old(
                self,
            ).attestations@.push(attestation))),
    {
        if attestation.data.slot > state.slot {
            return Err(
                AttestationValidationError::FutureSlot {
                    attestation: attestation.data.slot,
                    state: state.slot,
                },
            );
        }
        let mut i: usize = 0;
        while i < self.attestations.len()
            invariant
                0 <= i <= self.attestations@.len(),
                self.attestations@ == old(self).attestations@,
                self.deposits@ == old(self).deposits@,
                self.voluntary_exits@ == old(self).voluntary_exits@,
                self.transfers@ == old(self).transfers@,
                self.proposer_slashings@ == old(self).proposer_slashings@,
                self.attester_slashings@ == old(self).attester_slashings@,
                forall|j: int|
                    0 <= j < i ==> (#[trigger] self.attestations@[j]).data != attestation.data,
            decreases self.attestations@.len() - i,
        {
            let existing = self.attestations[i];
            if existing.data == attestation.data {
                let merged = Attestation {
                    aggregation_bitfield: existing.aggregation_bitfield
                        | attestation.aggregation_bitfield,
                    data: existing.data,
                    custody_bitfield: existing.custody_bitfield | attestation.custody_bitfield,
                    aggregate_signature: crate::roots::mix_word(
                        existing.aggregate_signature,
                        attestation.aggregate_signature,
                    ),
                };
                self.attestations.set(i, merged);
                proof {
                    assert(self.attestations@ =~= old(self).attestations@.update(
                        i as int,
                        spec_aggregated(old(self).attestations@[i as int], attestation),
                    ));
                    assert(old(self).attestations@[i as int].data == attestation.data);
                    assert(forall|a: int, b: int|
                        0 <= a < b < self.attestations@.len() ==> (
                        #[trigger] self.attestations@[a]).data != (
                        #[trigger] self.attestations@[b]).data);
                }
                return Ok(());
            }
            i = i + 1;
        }
        self.attestations.push(attestation);
        proof {
            assert(forall|a: int, b: int|
                0 <= a < b < self.attestations@.len() ==> (#[trigger] self.attestations@[a]).data
                    != (#[trigger] self.attestations@[b]).data);
        }
        Ok(())
    }

    /// Accept a deposit: the proof of possession must verify, and a deposit
    /// whose index is already pooled must be identical (then nothing
    /// changes). Only the deposit list can change.
    #[verifier::loop_isolation(false)]
    pub fn insert_deposit(&mut self, deposit: Deposit, state: &BeaconState, spec: &ChainSpec) -> (r:
        Result<DepositInsertStatus, DepositValidationError>)
        ensures
            final(self).attestations@ == old(self).attestations@,
            final(self).voluntary_exits@ == old(self).voluntary_exits@,
            final(self).transfers@ == old(self).transfers@,
            final(self).proposer_slashings@ == old(self).proposer_slashings@,
            final(self).attester_slashings@ == old(self).attester_slashings@,
            !spec_verify(
                deposit.pubkey,
                deposit.pubkey,
                spec.domain_deposit,
                deposit.proof_of_possession,
            ) ==> r == Err::<DepositInsertStatus, DepositValidationError>(
                DepositValidationError::BadProofOfPossession,
            ) && final(self).deposits@ == old(self).deposits@,
            spec_verify(
                deposit.pubkey,
                deposit.pubkey,
                spec.domain_deposit,
                deposit.proof_of_possession,
            ) ==> {
                ||| ((exists|i: int|
                    0 <= i < old(self).deposits@.len() && (#[trigger] old(self).deposits@[i])
                        == deposit) && r == Ok::<DepositInsertStatus, DepositValidationError>(
                    DepositInsertStatus::Duplicate,
                ) && final(self).deposits@ == old(self).deposits@)
                ||| ((exists|i: int|
                    0 <= i < old(self).deposits@.len() && (#[trigger] old(
                        self,
                    ).deposits@[i]).index == deposit.index && old(self).deposits@[i] != deposit)
                    && r == Err::<DepositInsertStatus, DepositValidationError>(
                    DepositValidationError::DuplicateDistinct(deposit.index),
                ) && final(self).deposits@ == old(self).deposits@)
                ||| ((forall|i: int|
                    0 <= i < old(self).deposits@.len() ==> (#[trigger] old(
                        self,
                    ).deposits@[i]).index != deposit.index) && r == Ok::<
                    DepositInsertStatus,
                    DepositValidationError,
                >(DepositInsertStatus::Fresh) && final(self).deposits@ == old(
                    self,
                ).deposits@.push(deposit))
            },
    {
        let pk = crate::bls::PublicKey { val: deposit.pubkey };
        if !crate::bls::verify(&pk, deposit.pubkey, spec.domain_deposit, deposit.proof_of_possession)
        {
            return Err(DepositValidationError::BadProofOfPossession);
        }
        let mut i: usize = 0;
        while i < self.deposits.len()
            invariant
                0 <= i <= self.deposits@.len(),
                forall|j: int|
                    0 <= j < i ==> (#[trigger] self.deposits@[j]).index != deposit.index,
            decreases self.deposits@.len() - i,
        {
            let existing = self.deposits[i];
            if existing.index == deposit.index {
                if existing == deposit {
                    return Ok(DepositInsertStatus::Duplicate);
                } else {
                    return Err(DepositValidationError::DuplicateDistinct(deposit.index));
                }
            }
            i = i + 1;
        }
        self.deposits.push(deposit);
        Ok(DepositInsertStatus::Fresh)
    }

    /// Accept a voluntary exit after the time-independent validity checks.
    /// Only the exit list can change.
    pub fn insert_voluntary_exit(
        &mut self,
        exit: VoluntaryExit,
        state: &BeaconState,
        spec: &ChainSpec,
    ) -> (r: Result<(), ExitValidationError>)
        requires
            spec.wf(),
        ensures
            final(self).attestations@ == old(self).attestations@,
            final(self).deposits@ == old(self).deposits@,
            final(self).transfers@ == old(self).transfers@,
            final(self).proposer_slashings@ == old(self).proposer_slashings@,
            final(self).attester_slashings@ == old(self).attester_slashings@,
            match spec_verify_exit(state@, exit, *spec, true) {
                Ok(()) => r == Ok::<(), ExitValidationError>(()) && final(self).voluntary_exits@
                    == old(self).voluntary_exits@.push(exit),
                Err(e) => r == Err::<(), ExitValidationError>(e) && final(self).voluntary_exits@
                    == old(self).voluntary_exits@,
            },
    {
        match verify_exit_time_independent_only(state, &exit, spec) {
            Ok(()) => (),
            Err(e) => {
                return Err(e);
            },
        }
        self.voluntary_exits.push(exit);
        Ok(())
    }

    /// Accept a transfer: the sender must exist and its balance must cover
    /// the amount. Only the transfer list can change.
    pub fn insert_transfer(&mut self, transfer: Transfer, state: &BeaconState, spec: &ChainSpec) -> (
        r: Result<(), TransferValidationError>)
        requires
            state@.wf(),
        ensures
            final(self).attestations@ == old(self).attestations@,
            final(self).deposits@ == old(self).deposits@,
            final(self).voluntary_exits@ == old(self).voluntary_exits@,
            final(self).proposer_slashings@ == old(self).proposer_slashings@,
            final(self).attester_slashings@ == old(self).attester_slashings@,
            transfer.sender >= state@.validator_registry.len() ==> r == Err::<
                (),
                TransferValidationError,
            >(TransferValidationError::UnknownValidator(transfer.sender)) && final(self).transfers@
                == old(self).transfers@,
            transfer.sender < state@.validator_registry.len() && state@.validator_balances[transfer.sender as int]
                < transfer.amount ==> r == Err::<(), TransferValidationError>(
                TransferValidationError::InsufficientBalance,
            ) && final(self).transfers@ == old(self).transfers@,
            transfer.sender < state@.validator_registry.len() && state@.validator_balances[transfer.sender as int]
                >= transfer.amount ==> r == Ok::<(), TransferValidationError>(()) && final(self).transfers@ == old(self).transfers@.push(transfer),
    {
        if transfer.sender >= state.validator_registry.len() as u64 {
            return Err(TransferValidationError::UnknownValidator(transfer.sender));
        }
        if state.validator_balances[transfer.sender as usize] < transfer.amount {
            return Err(TransferValidationError::InsufficientBalance);
        }
        self.transfers.push(transfer);
        Ok(())
    }

    /// Accept a proposer slashing: the accused proposer must exist and the
    /// two headers must genuinely conflict (same slot, different content).
    /// Only the proposer-slashing list can change.
    pub fn insert_proposer_slashing(
        &mut self,
        slashing: ProposerSlashing,
        state: &BeaconState,
        spec: &ChainSpec,
    ) -> (r: Result<(), ProposerSlashingValidationError>)
        ensures
            final(self).attestations@ == old(self).attestations@,
            final(self).deposits@ == old(self).deposits@,
            final(self).voluntary_exits@ == old(self).voluntary_exits@,
            final(self).transfers@ == old(self).transfers@,
            final(self).attester_slashings@ == old(self).attester_slashings@,
            slashing.proposer_index >= state@.validator_registry.len() ==> r == Err::<
                (),
                ProposerSlashingValidationError,
            >(ProposerSlashingValidationError::UnknownValidator(slashing.proposer_index)) && final(self).proposer_slashings@ == old(self).proposer_slashings@,
            slashing.proposer_index < state@.validator_registry.len() && slashing.header_1.slot
                != slashing.header_2.slot ==> r == Err::<(), ProposerSlashingValidationError>(
                ProposerSlashingValidationError::SlotMismatch,
            ) && final(self).proposer_slashings@ == old(self).proposer_slashings@,
            slashing.proposer_index < state@.validator_registry.len() && slashing.header_1.slot
                == slashing.header_2.slot && slashing.header_1 == slashing.header_2 ==> r == Err::<
                (),
                ProposerSlashingValidationError,
            >(ProposerSlashingValidationError::HeadersIdentical) && final(self).proposer_slashings@
                == old(self).proposer_slashings@,
            slashing.proposer_index < state@.validator_registry.len() && slashing.header_1.slot
                == slashing.header_2.slot && slashing.header_1 != slashing.header_2 ==> r == Ok::<
                (),
                ProposerSlashingValidationError,
            >(()) && final(self).proposer_slashings@ == old(self).proposer_slashings@.push(slashing),
    {
        if slashing.proposer_index >= state.validator_registry.len() as u64 {
            return Err(ProposerSlashingValidationError::UnknownValidator(slashing.proposer_index));
        }
        if slashing.header_1.slot != slashing.header_2.slot {
            return Err(ProposerSlashingValidationError::SlotMismatch);
        }
        if slashing.header_1 == slashing.header_2 {
            return Err(ProposerSlashingValidationError::HeadersIdentical);
        }
        self.proposer_slashings.push(slashing);
        Ok(())
    }

    /// Accept an attester slashing: the two attestations must differ.
    /// Only the attester-slashing list can change.
    pub fn insert_attester_slashing(
        &mut self,
        slashing: AttesterSlashing,
        state: &BeaconState,
        spec: &ChainSpec,
    ) -> (r: Result<(), AttesterSlashingValidationError>)
        ensures
            final(self).attestations@ == old(self).attestations@,
            final(self).deposits@ == old(self).deposits@,
            final(self).voluntary_exits@ == old(self).voluntary_exits@,
            final(self).transfers@ == old(self).transfers@,
            final(self).proposer_slashings@ == old(self).proposer_slashings@,
            slashing.slashable_attestation_1 == slashing.slashable_attestation_2 ==> r == Err::<
                (),
                AttesterSlashingValidationError,
            >(AttesterSlashingValidationError::AttestationsIdentical) && final(self).attester_slashings@ == old(self).attester_slashings@,
            slashing.slashable_attestation_1 != slashing.slashable_attestation_2 ==> r == Ok::<
                (),
                AttesterSlashingValidationError,
            >(()) && final(self).attester_slashings@ == old(self).attester_slashings@.push(slashing),
    {
        if slashing.slashable_attestation_1 == slashing.slashable_attestation_2 {
            return Err(AttesterSlashingValidationError::AttestationsIdentical);
        }
        self.attester_slashings.push(slashing);
        Ok(())
    }

    /// A consistent snapshot of the pooled attestations.
    pub fn get_attestations(&self, state: &BeaconState, spec: &ChainSpec) -> (r: Vec<Attestation>)
        ensures
            r@ == self.attestations@,
    {
        crate::clone_copy_vec(&self.attestations)
    }

    /// A consistent snapshot of the pooled deposits.
    pub fn get_deposits(&self, state: &BeaconState, spec: &ChainSpec) -> (r: Vec<Deposit>)
        ensures
            r@ == self.deposits@,
    {
        crate::clone_copy_vec(&self.deposits)
    }

    /// A consistent snapshot of the pooled voluntary exits.
    pub fn get_voluntary_exits(&self, state: &BeaconState, spec: &ChainSpec) -> (r: Vec<
        VoluntaryExit,
    >)
        ensures
            r@ == self.voluntary_exits@,
    {
        crate::clone_copy_vec(&self.voluntary_exits)
    }

    /// A consistent snapshot of the pooled transfers.
    pub fn get_transfers(&self, state: &BeaconState, spec: &ChainSpec) -> (r: Vec<Transfer>)
        ensures
            r@ == self.transfers@,
    {
        crate::clone_copy_vec(&self.transfers)
    }

    /// A consistent snapshot of both slashing lists.
    pub fn get_slashings(&self, state: &BeaconState, spec: &ChainSpec) -> (r: (
        Vec<ProposerSlashing>,
        Vec<AttesterSlashing>,
    ))
        ensures
            r.0@ == self.proposer_slashings@,
            r.1@ == self.attester_slashings@,
    {
        (
            crate::clone_copy_vec(&self.proposer_slashings),
            crate::clone_copy_vec(&self.attester_slashings),
        )
    }

    /// The number of pooled attestations.
    pub fn num_attestations(&self) -> (r: usize)
        ensures
            r == self.attestations@.len(),
    {
        self.attestations.len()
    }
}

} // verus!
