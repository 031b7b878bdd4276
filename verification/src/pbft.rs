//! One pBFT instance, and the rules by which instances are compared.

use vstd::prelude::*;
use crate::primitives::{AggregateProof, Blake2bHash, CompressedPublicKey, SignedPbftProposal};

verus! {

/// What the chain and the signature scheme answer about one proposal, once the
/// chain holds the micro blocks that decide who produces the macro block.
#[derive(Clone, Copy, Debug, PartialEq, Eq)]
pub struct ProducerEvidence {
    /// Key that owns the slot at the proposal's block number and view number.
    pub producer_key: CompressedPublicKey,
    /// Whether the header, with its view-change proof, verifies against the
    /// chain under that key.
    pub header_valid: bool,
    /// Whether the proposal's own signature verifies under that key.
    pub signature_valid: bool,
}

/// State of one pBFT instance.
#[derive(Clone, Debug, PartialEq, Eq)]
pub struct PbftState {
    /// The proposed macro block with its signer.
    pub proposal: SignedPbftProposal,
    /// Digest of the proposed header, by which the instance is found.
    pub block_hash: Blake2bHash,
    /// Proof of the prepare phase, from its completion until the commit phase
    /// completes.
    pub prepare_proof: Option<AggregateProof>,
}

impl PbftState {
    /// The instance is filed under the digest of its own header.
    pub open spec fn wf(&self) -> bool {
        self.block_hash == self.proposal.message.header.hash
    }

    pub open spec fn spec_view_number(&self) -> u32 {
        self.proposal.message.header.view_number
    }

    pub open spec fn spec_block_number(&self) -> u32 {
        self.proposal.message.header.block_number
    }

    /// The instance as it is born: no phase has completed.
    pub open spec fn fresh(block_hash: Blake2bHash, proposal: SignedPbftProposal) -> PbftState {
        PbftState { proposal, block_hash, prepare_proof: None }
    }

    /// The signer stands in the validator set under the key that owns the
    /// slot, and both the header and the proposal's signature verify.
    pub open spec fn verified_by(
        &self,
        validators: Seq<CompressedPublicKey>,
        evidence: ProducerEvidence,
    ) -> bool {
        &&& (self.proposal.signer_idx as int) < validators.len()
        &&& validators[self.proposal.signer_idx as int] == evidence.producer_key
        &&& evidence.header_valid
        &&& evidence.signature_valid
    }

    pub fn new(block_hash: Blake2bHash, proposal: SignedPbftProposal) -> (state: PbftState)
        ensures
            state == PbftState::fresh(block_hash, proposal),
    {
        PbftState { proposal, block_hash, prepare_proof: None }
    }

    #[verifier::when_used_as_spec(spec_view_number)]
    pub fn view_number(&self) -> (view: u32)
        ensures
            view == self.spec_view_number(),
    {
        self.proposal.message.header.view_number
    }

    #[verifier::when_used_as_spec(spec_block_number)]
    pub fn block_number(&self) -> (number: u32)
        ensures
            number == self.spec_block_number(),
    {
        self.proposal.message.header.block_number
    }

    /// Decides whether the proposal comes from the producer that the chain
    /// expects and carries a valid header and signature.
    pub fn check_verified(
        &self,
        validators: &Vec<CompressedPublicKey>,
        evidence: &ProducerEvidence,
    ) -> (verified: bool)
        ensures
            verified == self.verified_by(validators@, *evidence),
    {
        let signer: usize = self.proposal.signer_idx as usize;
        if signer >= validators.len() {
            return false;
        }
        if !validators[signer].equals(&evidence.producer_key) {
            return false;
        }
        if !evidence.header_valid {
            return false;
        }
        evidence.signature_valid
    }
}

/// Every instance is filed under its own digest, and no digest occurs twice.
pub open spec fn pbft_set_wf(states: Seq<PbftState>) -> bool {
    &&& forall|i: int| 0 <= i < states.len() ==> (#[trigger] states[i]).wf()
    &&& forall|i: int, j: int|
        0 <= i < j < states.len() ==> (#[trigger] states[i]).block_hash != (
        #[trigger] states[j]).block_hash
}

/// Some instance of the set is filed under `hash`.
pub open spec fn knows(states: Seq<PbftState>, hash: Blake2bHash) -> bool {
    exists|i: int| 0 <= i < states.len() && (#[trigger] states[i]).block_hash == hash
}

/// `k` is the first instance of the set whose view is not below `view`.
pub open spec fn is_blocker(states: Seq<PbftState>, view: u32, k: int) -> bool {
    &&& 0 <= k < states.len()
    &&& states[k].view_number() >= view
    &&& forall|j: int| 0 <= j < k ==> (#[trigger] states[j]).view_number() < view
}

/// No instance of the set has a view at or above `view`.
pub open spec fn all_below(states: Seq<PbftState>, view: u32) -> bool {
    forall|j: int| 0 <= j < states.len() ==> (#[trigger] states[j]).view_number() < view
}

/// Instance `i` passes verification with the evidence given for it.
pub open spec fn survives(
    states: Seq<PbftState>,
    validators: Seq<CompressedPublicKey>,
    evidence: Seq<ProducerEvidence>,
    i: int,
) -> bool {
    0 <= i < states.len() && i < evidence.len() && states[i].verified_by(validators, evidence[i])
}

/// Instance `i` survives, and no earlier survivor proposes for the same block
/// number and view number.
pub open spec fn is_first_of_view(
    states: Seq<PbftState>,
    validators: Seq<CompressedPublicKey>,
    evidence: Seq<ProducerEvidence>,
    i: int,
) -> bool {
    &&& survives(states, validators, evidence, i)
    &&& forall|j: int|
        0 <= j < i && #[trigger] survives(states, validators, evidence, j) ==> !(states[j].block_number()
            == states[i].block_number() && states[j].view_number() == states[i].view_number())
}

/// Instance `w` is the one that remains when buffered proposals are resolved:
/// a survivor that is the first of its view, whose view no survivor exceeds,
/// and the last such in the set.
pub open spec fn is_winner(
    states: Seq<PbftState>,
    validators: Seq<CompressedPublicKey>,
    evidence: Seq<ProducerEvidence>,
    w: int,
) -> bool {
    &&& is_first_of_view(states, validators, evidence, w)
    &&& forall|k: int| #[trigger]
        survives(states, validators, evidence, k) ==> states[k].view_number()
            <= states[w].view_number()
    &&& forall|k: int|
        w < k && #[trigger] is_first_of_view(states, validators, evidence, k)
            ==> states[k].view_number() < states[w].view_number()
}

/// Position of the instance filed under `hash`, where the set knows the hash.
pub open spec fn instance_of(states: Seq<PbftState>, hash: Blake2bHash) -> int {
    choose|i: int| 0 <= i < states.len() && (#[trigger] states[i]).block_hash == hash
}

/// The instance under `hash` exists and its prepare phase has not completed.
pub open spec fn awaits_prepare(states: Seq<PbftState>, hash: Blake2bHash) -> bool {
    knows(states, hash) && states[instance_of(states, hash)].prepare_proof is None
}

/// The instance under `hash` exists and holds the proof of its prepare phase.
pub open spec fn holds_prepare(states: Seq<PbftState>, hash: Blake2bHash) -> bool {
    knows(states, hash) && states[instance_of(states, hash)].prepare_proof is Some
}

/// The set after the prepare phase of `hash` has completed with `proof`: an
/// instance that awaited it stores the proof, and nothing else changes.
pub open spec fn after_prepare(
    states: Seq<PbftState>,
    hash: Blake2bHash,
    proof: AggregateProof,
) -> Seq<PbftState> {
    if awaits_prepare(states, hash) {
        let i = instance_of(states, hash);
        states.update(
            i,
            PbftState {
                proposal: states[i].proposal,
                block_hash: states[i].block_hash,
                prepare_proof: Some(proof),
            },
        )
    } else {
        states
    }
}

/// The set after the commit phase of `hash` has completed: the instance gives
/// up its prepare proof, and nothing else changes.
pub open spec fn after_commit(states: Seq<PbftState>, hash: Blake2bHash) -> Seq<PbftState> {
    if knows(states, hash) {
        let i = instance_of(states, hash);
        states.update(
            i,
            PbftState {
                proposal: states[i].proposal,
                block_hash: states[i].block_hash,
                prepare_proof: None,
            },
        )
    } else {
        states
    }
}

/// In a well-formed set the instance under a hash is the only one under it.
pub proof fn lemma_instance_unique(states: Seq<PbftState>, hash: Blake2bHash, i: int)
    requires
        pbft_set_wf(states),
        0 <= i < states.len(),
        states[i].block_hash == hash,
    ensures
        knows(states, hash),
        instance_of(states, hash) == i,
{
    let c = instance_of(states, hash);
    if c < i {
        assert(states[c].block_hash != states[i].block_hash);
    } else if i < c {
        assert(states[i].block_hash != states[c].block_hash);
    }
}

/// Finds the first instance filed under `hash`.
pub fn position_of(states: &Vec<PbftState>, hash: &Blake2bHash) -> (found: Option<usize>)
    ensures
        match found {
            Some(i) => i < states.len() && states[i as int].block_hash == *hash && forall|j: int|
                0 <= j < i ==> (#[trigger] states[j]).block_hash != *hash,
            None => !knows(states@, *hash),
        },
{
    let mut i: usize = 0;
    while i < states.len()
        invariant
            i <= states.len(),
            forall|j: int| 0 <= j < i ==> (#[trigger] states[j]).block_hash != *hash,
        decreases states.len() - i,
    {
        if states[i].block_hash.equals(hash) {
            return Some(i);
        }
        i += 1;
    }
    None
}

/// Finds the first instance whose view is not below `view`.
pub fn first_blocker(states: &Vec<PbftState>, view: u32) -> (found: Option<usize>)
    ensures
        match found {
            Some(k) => is_blocker(states@, view, k as int),
            None => all_below(states@, view),
        },
{
    let mut i: usize = 0;
    while i < states.len()
        invariant
            i <= states.len(),
            forall|j: int| 0 <= j < i ==> (#[trigger] states[j]).view_number() < view,
        decreases states.len() - i,
    {
        if states[i].view_number() >= view {
            return Some(i);
        }
        i += 1;
    }
    None
}

/// Whether instance `i` survives and is the first survivor of its block number
/// and view number.
pub fn first_of_view(
    states: &Vec<PbftState>,
    validators: &Vec<CompressedPublicKey>,
    evidence: &Vec<ProducerEvidence>,
    i: usize,
) -> (first: bool)
    requires
        i < states.len(),
        evidence.len() == states.len(),
    ensures
        first == is_first_of_view(states@, validators@, evidence@, i as int),
{
    if !states[i].check_verified(validators, &evidence[i]) {
        return false;
    }
    let mut j: usize = 0;
    while j < i
        invariant
            j <= i,
            i < states.len(),
            evidence.len() == states.len(),
            survives(states@, validators@, evidence@, i as int),
            forall|k: int|
                0 <= k < j && #[trigger] survives(states@, validators@, evidence@, k) ==> !(
                states[k].block_number() == states[i as int].block_number()
                    && states[k].view_number() == states[i as int].view_number()),
        decreases i - j,
    {
        if states[j].check_verified(validators, &evidence[j]) && states[j].block_number()
            == states[i].block_number() && states[j].view_number() == states[i].view_number() {
            assert(survives(states@, validators@, evidence@, j as int));
            return false;
        }
        j += 1;
    }
    true
}

/// Resolves buffered proposals: the winner among the instances that survive
/// verification, if any survives.
pub fn select_winner(
    states: &Vec<PbftState>,
    validators: &Vec<CompressedPublicKey>,
    evidence: &Vec<ProducerEvidence>,
) -> (winner: Option<usize>)
    requires
        evidence.len() == states.len(),
    ensures
        match winner {
            Some(w) => is_winner(states@, validators@, evidence@, w as int),
            None => forall|k: int| !survives(states@, validators@, evidence@, k),
        },
{
    let mut best: Option<usize> = None;
    let mut i: usize = 0;
    while i < states.len()
        invariant
            i <= states.len(),
            evidence.len() == states.len(),
            match best {
                Some(b) => {
                    &&& b < i
                    &&& is_first_of_view(states@, validators@, evidence@, b as int)
                    &&& forall|k: int|
                        k < i && #[trigger] survives(states@, validators@, evidence@, k)
                            ==> states[k].view_number() <= states[b as int].view_number()
                    &&& forall|k: int|
                        b < k < i && #[trigger] is_first_of_view(
                            states@,
                            validators@,
                            evidence@,
                            k,
                        ) ==> states[k].view_number() < states[b as int].view_number()
                },
                None => forall|k: int|
                    k < i ==> !#[trigger] survives(states@, validators@, evidence@, k),
            },
        decreases states.len() - i,
    {
        let first = first_of_view(states, validators, evidence, i);
        proof {
            // A survivor that is not the first of its view shares its view
            // with an earlier survivor.
            if survives(states@, validators@, evidence@, i as int) && !first {
                let j = choose|j: int|
                    0 <= j < i && #[trigger] survives(states@, validators@, evidence@, j)
                        && states[j].block_number() == states[i as int].block_number()
                        && states[j].view_number() == states[i as int].view_number();
                assert(survives(states@, validators@, evidence@, j));
            }
        }
        if first {
            match best {
                Some(b) => {
                    if states[i].view_number() >= states[b].view_number() {
                        best = Some(i);
                    }
                },
                None => {
                    best = Some(i);
                },
            }
        }
        i += 1;
    }
    best
}

/// At most one instance is the winner.
pub proof fn lemma_winner_unique(
    states: Seq<PbftState>,
    validators: Seq<CompressedPublicKey>,
    evidence: Seq<ProducerEvidence>,
    a: int,
    b: int,
)
    requires
        is_winner(states, validators, evidence, a),
        is_winner(states, validators, evidence, b),
    ensures
        a == b,
{
    if a < b {
        assert(is_first_of_view(states, validators, evidence, b));
        assert(survives(states, validators, evidence, b));
    } else if b < a {
        assert(is_first_of_view(states, validators, evidence, a));
        assert(survives(states, validators, evidence, a));
    }
}

} // verus!
