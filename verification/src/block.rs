//! Blocks: the body carrying the pooled operations, the block around it, and
//! their canonical roots.

use vstd::prelude::*;

use crate::chain_spec::ChainSpec;
use crate::roots::{
    fold_words, fold_words_vec, lemma_words_of_take_step, words_of, BODY_TAG, HEADER_TAG,
};
use crate::types::{
    Attestation, AttestationData, AttesterSlashing, BeaconBlockHeader, Deposit, Eth1Data,
    ProposerSlashing, SlashableAttestation, Transfer, VoluntaryExit,
};

verus! {

// ---------------------------------------------------------------------------
// Word flattening of the operation item types.
// ---------------------------------------------------------------------------
/// The words of the data an attestation votes on.
pub open spec fn attestation_data_words(d: AttestationData) -> Seq<u64> {
    seq![
        d.slot,
        d.shard,
        d.beacon_block_root,
        d.target_root,
        d.crosslink_data_root,
        d.previous_crosslink.epoch,
        d.previous_crosslink.crosslink_data_root,
        d.source_epoch,
        d.source_root,
    ]
}

/// The words of an attestation.
pub open spec fn attestation_words(a: Attestation) -> Seq<u64> {
    seq![a.aggregation_bitfield] + attestation_data_words(a.data) + seq![
        a.custody_bitfield,
        a.aggregate_signature,
    ]
}

/// The words of a deposit.
pub open spec fn deposit_words(d: Deposit) -> Seq<u64> {
    seq![d.index, d.pubkey, d.amount, d.proof_of_possession]
}

/// The words of a voluntary exit.
pub open spec fn exit_words(e: VoluntaryExit) -> Seq<u64> {
    seq![e.epoch, e.validator_index, e.signature]
}

/// The words of a transfer.
pub open spec fn transfer_words(t: Transfer) -> Seq<u64> {
    seq![t.sender, t.recipient, t.amount, t.slot, t.signature]
}

/// The words of a header, signature included (used where a header is a field
/// of a larger object).
pub open spec fn header_words(h: BeaconBlockHeader) -> Seq<u64> {
    seq![h.slot, h.previous_block_root, h.state_root, h.block_body_root, h.signature]
}

/// The words of a proposer slashing.
pub open spec fn proposer_slashing_words(p: ProposerSlashing) -> Seq<u64> {
    seq![p.proposer_index] + header_words(p.header_1) + header_words(p.header_2)
}

/// The words of a slashable attestation.
pub open spec fn slashable_attestation_words(s: SlashableAttestation) -> Seq<u64> {
    seq![s.validator_indices] + attestation_data_words(s.data) + seq![
        s.custody_bitfield,
        s.aggregate_signature,
    ]
}

/// The words of an attester slashing.
pub open spec fn attester_slashing_words(a: AttesterSlashing) -> Seq<u64> {
    slashable_attestation_words(a.slashable_attestation_1) + slashable_attestation_words(
        a.slashable_attestation_2,
    )
}

// ---------------------------------------------------------------------------
// The block body.
// ---------------------------------------------------------------------------
/// The body of a block: the operations it carries.
#[derive(Debug, PartialEq)]
pub struct BeaconBlockBody {
    pub randao_reveal: u64,
    pub eth1_data: Eth1Data,
    pub proposer_slashings: Vec<ProposerSlashing>,
    pub attester_slashings: Vec<AttesterSlashing>,
    pub attestations: Vec<Attestation>,
    pub deposits: Vec<Deposit>,
    pub voluntary_exits: Vec<VoluntaryExit>,
    pub transfers: Vec<Transfer>,
}

/// The mathematical content of a block body.
#[verifier::ext_equal]
pub ghost struct BodyView {
    pub randao_reveal: u64,
    pub eth1_data: Eth1Data,
    pub proposer_slashings: Seq<ProposerSlashing>,
    pub attester_slashings: Seq<AttesterSlashing>,
    pub attestations: Seq<Attestation>,
    pub deposits: Seq<Deposit>,
    pub voluntary_exits: Seq<VoluntaryExit>,
    pub transfers: Seq<Transfer>,
}

impl View for BeaconBlockBody {
    type V = BodyView;

    open spec fn view(&self) -> BodyView {
        BodyView {
            randao_reveal: self.randao_reveal,
            eth1_data: self.eth1_data,
            proposer_slashings: self.proposer_slashings@,
            attester_slashings: self.attester_slashings@,
            attestations: self.attestations@,
            deposits: self.deposits@,
            voluntary_exits: self.voluntary_exits@,
            transfers: self.transfers@,
        }
    }
}

/// The words of a block body.
pub open spec fn body_words(b: BodyView) -> Seq<u64> {
    seq![b.randao_reveal, b.eth1_data.deposit_root, b.eth1_data.block_hash] + words_of(
        b.proposer_slashings,
        |p: ProposerSlashing| proposer_slashing_words(p),
    ) + words_of(b.attester_slashings, |a: AttesterSlashing| attester_slashing_words(a))
        + words_of(b.attestations, |a: Attestation| attestation_words(a)) + words_of(
        b.deposits,
        |d: Deposit| deposit_words(d),
    ) + words_of(b.voluntary_exits, |e: VoluntaryExit| exit_words(e)) + words_of(
        b.transfers,
        |t: Transfer| transfer_words(t),
    )
}

/// The canonical root of a block body.
pub open spec fn spec_body_root(b: BodyView) -> u64 {
    fold_words(BODY_TAG, body_words(b))
}

// ---------------------------------------------------------------------------
// The block.
// ---------------------------------------------------------------------------
/// A block: a slot, a reference to its parent, the root of the state it
/// produces, a body, and the proposer's signature.
#[derive(Debug, PartialEq)]
pub struct BeaconBlock {
    pub slot: u64,
    pub previous_block_root: u64,
    pub state_root: u64,
    pub body: BeaconBlockBody,
    pub signature: u64,
}

/// The mathematical content of a block.
#[verifier::ext_equal]
pub ghost struct BlockView {
    pub slot: u64,
    pub previous_block_root: u64,
    pub state_root: u64,
    pub body: BodyView,
    pub signature: u64,
}

impl View for BeaconBlock {
    type V = BlockView;

    open spec fn view(&self) -> BlockView {
        BlockView {
            slot: self.slot,
            previous_block_root: self.previous_block_root,
            state_root: self.state_root,
            body: self.body@,
            signature: self.signature,
        }
    }
}

/// The header summarizing a block: its body replaced by the body's root.
pub open spec fn spec_header_of(b: BlockView) -> BeaconBlockHeader {
    BeaconBlockHeader {
        slot: b.slot,
        previous_block_root: b.previous_block_root,
        state_root: b.state_root,
        block_body_root: spec_body_root(b.body),
        signature: b.signature,
    }
}

/// The words of a header that its identity covers: everything except the
/// signature.
pub open spec fn header_signed_words(h: BeaconBlockHeader) -> Seq<u64> {
    seq![h.slot, h.previous_block_root, h.state_root, h.block_body_root]
}

/// The canonical root of a header. The proposer signature is excluded so
/// that a block and its signed header share one identity.
pub open spec fn spec_header_root(h: BeaconBlockHeader) -> u64 {
    fold_words(HEADER_TAG, header_signed_words(h))
}

/// The canonical root of a block: the root of its header.
pub open spec fn spec_block_root(b: BlockView) -> u64 {
    spec_header_root(spec_header_of(b))
}

// ---------------------------------------------------------------------------
// Executable word flattening.
// ---------------------------------------------------------------------------
/// Append the words of one attestation's voted data.
pub fn push_attestation_data_words(out: &mut Vec<u64>, d: &AttestationData)
    ensures
        final(out)@ == old(out)@ + attestation_data_words(*d),
{
    out.push(d.slot);
    out.push(d.shard);
    out.push(d.beacon_block_root);
    out.push(d.target_root);
    out.push(d.crosslink_data_root);
    out.push(d.previous_crosslink.epoch);
    out.push(d.previous_crosslink.crosslink_data_root);
    out.push(d.source_epoch);
    out.push(d.source_root);
    proof {
        assert(out@ =~= old(out)@ + attestation_data_words(*d));
    }
}

/// Append the words of a header, signature included.
pub fn push_header_words(out: &mut Vec<u64>, h: &BeaconBlockHeader)
    ensures
        final(out)@ == old(out)@ + header_words(*h),
{
    out.push(h.slot);
    out.push(h.previous_block_root);
    out.push(h.state_root);
    out.push(h.block_body_root);
    out.push(h.signature);
    proof {
        assert(out@ =~= old(out)@ + header_words(*h));
    }
}

/// Append the words of every proposer slashing in the list.
pub fn push_proposer_slashing_list_words(out: &mut Vec<u64>, v: &Vec<ProposerSlashing>)
    ensures
        final(out)@ == old(out)@ + words_of(v@, |p: ProposerSlashing| proposer_slashing_words(p)),
{
    let ghost f = |p: ProposerSlashing| proposer_slashing_words(p);
    let mut i: usize = 0;
    proof {
        assert(v@.subrange(0, 0) =~= Seq::<ProposerSlashing>::empty());
        assert(out@ =~= old(out)@ + words_of(v@.subrange(0, 0), f));
    }
    while i < v.len()
        invariant
            0 <= i <= v.len(),
            out@ == old(out)@ + words_of(v@.subrange(0, i as int), f),
            f == (|p: ProposerSlashing| proposer_slashing_words(p)),
        decreases v.len() - i,
    {
        let p = v[i];
        out.push(p.proposer_index);
        push_header_words(out, &p.header_1);
        push_header_words(out, &p.header_2);
        proof {
            lemma_words_of_take_step(v@, f, i as int);
            assert(out@ =~= old(out)@ + words_of(v@.subrange(0, i as int), f) + f(v@[i as int]));
            assert(out@ =~= old(out)@ + words_of(v@.subrange(0, i as int + 1), f));
        }
        i = i + 1;
    }
    proof {
        assert(v@.subrange(0, v@.len() as int) =~= v@);
    }
}

/// Append the words of one slashable attestation.
pub fn push_slashable_attestation_words(out: &mut Vec<u64>, s: &SlashableAttestation)
    ensures
        final(out)@ == old(out)@ + slashable_attestation_words(*s),
{
    out.push(s.validator_indices);
    push_attestation_data_words(out, &s.data);
    out.push(s.custody_bitfield);
    out.push(s.aggregate_signature);
    proof {
        assert(out@ =~= old(out)@ + slashable_attestation_words(*s));
    }
}

/// Append the words of every attester slashing in the list.
pub fn push_attester_slashing_list_words(out: &mut Vec<u64>, v: &Vec<AttesterSlashing>)
    ensures
        final(out)@ == old(out)@ + words_of(v@, |a: AttesterSlashing| attester_slashing_words(a)),
{
    let ghost f = |a: AttesterSlashing| attester_slashing_words(a);
    let mut i: usize = 0;
    proof {
        assert(v@.subrange(0, 0) =~= Seq::<AttesterSlashing>::empty());
        assert(out@ =~= old(out)@ + words_of(v@.subrange(0, 0), f));
    }
    while i < v.len()
        invariant
            0 <= i <= v.len(),
            out@ == old(out)@ + words_of(v@.subrange(0, i as int), f),
            f == (|a: AttesterSlashing| attester_slashing_words(a)),
        decreases v.len() - i,
    {
        let a = v[i];
        push_slashable_attestation_words(out, &a.slashable_attestation_1);
        push_slashable_attestation_words(out, &a.slashable_attestation_2);
        proof {
            lemma_words_of_take_step(v@, f, i as int);
            assert(out@ =~= old(out)@ + words_of(v@.subrange(0, i as int), f) + f(v@[i as int]));
            assert(out@ =~= old(out)@ + words_of(v@.subrange(0, i as int + 1), f));
        }
        i = i + 1;
    }
    proof {
        assert(v@.subrange(0, v@.len() as int) =~= v@);
    }
}

/// Append the words of every attestation in the list.
pub fn push_attestation_list_words(out: &mut Vec<u64>, v: &Vec<Attestation>)
    ensures
        final(out)@ == old(out)@ + words_of(v@, |a: Attestation| attestation_words(a)),
{
    let ghost f = |a: Attestation| attestation_words(a);
    let mut i: usize = 0;
    proof {
        assert(v@.subrange(0, 0) =~= Seq::<Attestation>::empty());
        assert(out@ =~= old(out)@ + words_of(v@.subrange(0, 0), f));
    }
    while i < v.len()
        invariant
            0 <= i <= v.len(),
            out@ == old(out)@ + words_of(v@.subrange(0, i as int), f),
            f == (|a: Attestation| attestation_words(a)),
        decreases v.len() - i,
    {
        let a = v[i];
        out.push(a.aggregation_bitfield);
        push_attestation_data_words(out, &a.data);
        out.push(a.custody_bitfield);
        out.push(a.aggregate_signature);
        proof {
            lemma_words_of_take_step(v@, f, i as int);
            assert(out@ =~= old(out)@ + words_of(v@.subrange(0, i as int), f) + f(v@[i as int]));
            assert(out@ =~= old(out)@ + words_of(v@.subrange(0, i as int + 1), f));
        }
        i = i + 1;
    }
    proof {
        assert(v@.subrange(0, v@.len() as int) =~= v@);
    }
}

/// Append the words of every deposit in the list.
pub fn push_deposit_list_words(out: &mut Vec<u64>, v: &Vec<Deposit>)
    ensures
        final(out)@ == old(out)@ + words_of(v@, |d: Deposit| deposit_words(d)),
{
    let ghost f = |d: Deposit| deposit_words(d);
    let mut i: usize = 0;
    proof {
        assert(v@.subrange(0, 0) =~= Seq::<Deposit>::empty());
        assert(out@ =~= old(out)@ + words_of(v@.subrange(0, 0), f));
    }
    while i < v.len()
        invariant
            0 <= i <= v.len(),
            out@ == old(out)@ + words_of(v@.subrange(0, i as int), f),
            f == (|d: Deposit| deposit_words(d)),
        decreases v.len() - i,
    {
        let d = v[i];
        out.push(d.index);
        out.push(d.pubkey);
        out.push(d.amount);
        out.push(d.proof_of_possession);
        proof {
            lemma_words_of_take_step(v@, f, i as int);
            assert(out@ =~= old(out)@ + words_of(v@.subrange(0, i as int), f) + f(v@[i as int]));
            assert(out@ =~= old(out)@ + words_of(v@.subrange(0, i as int + 1), f));
        }
        i = i + 1;
    }
    proof {
        assert(v@.subrange(0, v@.len() as int) =~= v@);
    }
}

/// Append the words of every voluntary exit in the list.
pub fn push_exit_list_words(out: &mut Vec<u64>, v: &Vec<VoluntaryExit>)
    ensures
        final(out)@ == old(out)@ + words_of(v@, |e: VoluntaryExit| exit_words(e)),
{
    let ghost f = |e: VoluntaryExit| exit_words(e);
    let mut i: usize = 0;
    proof {
        assert(v@.subrange(0, 0) =~= Seq::<VoluntaryExit>::empty());
        assert(out@ =~= old(out)@ + words_of(v@.subrange(0, 0), f));
    }
    while i < v.len()
        invariant
            0 <= i <= v.len(),
            out@ == old(out)@ + words_of(v@.subrange(0, i as int), f),
            f == (|e: VoluntaryExit| exit_words(e)),
        decreases v.len() - i,
    {
        let e = v[i];
        out.push(e.epoch);
        out.push(e.validator_index);
        out.push(e.signature);
        proof {
            lemma_words_of_take_step(v@, f, i as int);
            assert(out@ =~= old(out)@ + words_of(v@.subrange(0, i as int), f) + f(v@[i as int]));
            assert(out@ =~= old(out)@ + words_of(v@.subrange(0, i as int + 1), f));
        }
        i = i + 1;
    }
    proof {
        assert(v@.subrange(0, v@.len() as int) =~= v@);
    }
}

/// Append the words of every transfer in the list.
pub fn push_transfer_list_words(out: &mut Vec<u64>, v: &Vec<Transfer>)
    ensures
        final(out)@ == old(out)@ + words_of(v@, |t: Transfer| transfer_words(t)),
{
    let ghost f = |t: Transfer| transfer_words(t);
    let mut i: usize = 0;
    proof {
        assert(v@.subrange(0, 0) =~= Seq::<Transfer>::empty());
        assert(out@ =~= old(out)@ + words_of(v@.subrange(0, 0), f));
    }
    while i < v.len()
        invariant
            0 <= i <= v.len(),
            out@ == old(out)@ + words_of(v@.subrange(0, i as int), f),
            f == (|t: Transfer| transfer_words(t)),
        decreases v.len() - i,
    {
        let t = v[i];
        out.push(t.sender);
        out.push(t.recipient);
        out.push(t.amount);
        out.push(t.slot);
        out.push(t.signature);
        proof {
            lemma_words_of_take_step(v@, f, i as int);
            assert(out@ =~= old(out)@ + words_of(v@.subrange(0, i as int), f) + f(v@[i as int]));
            assert(out@ =~= old(out)@ + words_of(v@.subrange(0, i as int + 1), f));
        }
        i = i + 1;
    }
    proof {
        assert(v@.subrange(0, v@.len() as int) =~= v@);
    }
}

// ---------------------------------------------------------------------------
// Methods.
// ---------------------------------------------------------------------------
impl BeaconBlockBody {
    /// An empty body: no operations, the given randao contribution and
    /// deposit-contract summary.
    pub fn empty(randao_reveal: u64, eth1_data: Eth1Data) -> (r: Self)
        ensures
            r@.randao_reveal == randao_reveal,
            r@.eth1_data == eth1_data,
            r@.proposer_slashings.len() == 0,
            r@.attester_slashings.len() == 0,
            r@.attestations.len() == 0,
            r@.deposits.len() == 0,
            r@.voluntary_exits.len() == 0,
            r@.transfers.len() == 0,
    {
        BeaconBlockBody {
            randao_reveal,
            eth1_data,
            proposer_slashings: Vec::new(),
            attester_slashings: Vec::new(),
            attestations: Vec::new(),
            deposits: Vec::new(),
            voluntary_exits: Vec::new(),
            transfers: Vec::new(),
        }
    }

    /// The canonical root of the body.
    pub fn canonical_root(&self) -> (r: u64)
        ensures
            r == spec_body_root(self@),
    {
        let mut w: Vec<u64> = Vec::new();
        w.push(self.randao_reveal);
        w.push(self.eth1_data.deposit_root);
        w.push(self.eth1_data.block_hash);
        push_proposer_slashing_list_words(&mut w, &self.proposer_slashings);
        push_attester_slashing_list_words(&mut w, &self.attester_slashings);
        push_attestation_list_words(&mut w, &self.attestations);
        push_deposit_list_words(&mut w, &self.deposits);
        push_exit_list_words(&mut w, &self.voluntary_exits);
        push_transfer_list_words(&mut w, &self.transfers);
        proof {
            assert(w@ =~= body_words(self@));
        }
        fold_words_vec(BODY_TAG, &w)
    }
}

impl Clone for BeaconBlockBody {
    /// A clone carries exactly the same content.
    fn clone(&self) -> (r: Self)
        ensures
            r@ == self@,
    {
        let r = BeaconBlockBody {
            randao_reveal: self.randao_reveal,
            eth1_data: self.eth1_data,
            proposer_slashings: crate::clone_copy_vec(&self.proposer_slashings),
            attester_slashings: crate::clone_copy_vec(&self.attester_slashings),
            attestations: crate::clone_copy_vec(&self.attestations),
            deposits: crate::clone_copy_vec(&self.deposits),
            voluntary_exits: crate::clone_copy_vec(&self.voluntary_exits),
            transfers: crate::clone_copy_vec(&self.transfers),
        };
        proof {
            assert(r@ =~= self@);
        }
        r
    }
}

impl BeaconBlockHeader {
    /// The canonical root of the header; the signature is not covered.
    pub fn canonical_root(&self) -> (r: u64)
        ensures
            r == spec_header_root(*self),
    {
        let mut w: Vec<u64> = Vec::new();
        w.push(self.slot);
        w.push(self.previous_block_root);
        w.push(self.state_root);
        w.push(self.block_body_root);
        proof {
            assert(w@ =~= header_signed_words(*self));
        }
        fold_words_vec(HEADER_TAG, &w)
    }
}

impl BeaconBlock {
    /// The header summarizing this block.
    pub fn block_header(&self) -> (h: BeaconBlockHeader)
        ensures
            h == spec_header_of(self@),
    {
        BeaconBlockHeader {
            slot: self.slot,
            previous_block_root: self.previous_block_root,
            state_root: self.state_root,
            block_body_root: self.body.canonical_root(),
            signature: self.signature,
        }
    }

    /// The header this block installs in the state while its post-state root
    /// is still unknown: the state root is left as the zero placeholder and
    /// the signature as the empty signature.
    pub fn temporary_block_header(&self, spec: &ChainSpec) -> (h: BeaconBlockHeader)
        ensures
            h == (BeaconBlockHeader {
                slot: self@.slot,
                previous_block_root: self@.previous_block_root,
                state_root: spec.zero_hash,
                block_body_root: spec_body_root(self@.body),
                signature: spec.empty_signature,
            }),
    {
        BeaconBlockHeader {
            slot: self.slot,
            previous_block_root: self.previous_block_root,
            state_root: spec.zero_hash,
            block_body_root: self.body.canonical_root(),
            signature: spec.empty_signature,
        }
    }

    /// The canonical root of the block: the root of its header.
    pub fn canonical_root(&self) -> (r: u64)
        ensures
            r == spec_block_root(self@),
    {
        let h = self.block_header();
        h.canonical_root()
    }
}

impl Clone for BeaconBlock {
    /// A clone carries exactly the same content.
    fn clone(&self) -> (r: Self)
        ensures
            r@ == self@,
    {
        let r = BeaconBlock {
            slot: self.slot,
            previous_block_root: self.previous_block_root,
            state_root: self.state_root,
            body: self.body.clone(),
            signature: self.signature,
        };
        proof {
            assert(r@ =~= self@);
        }
        r
    }
}

} // verus!
