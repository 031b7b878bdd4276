//! The coordinator: it owns the peer table, the running view changes and the
//! set of pBFT instances, and decides for each event what changes and what is
//! to be sent or announced. Sending, aggregating and asking the chain are the
//! caller's part; the coordinator takes their results as plain values.

use vstd::prelude::*;
use crate::pbft::{
    after_commit, after_prepare, awaits_prepare, first_blocker, holds_prepare, instance_of,
    is_blocker, is_winner, knows, lemma_instance_unique, pbft_set_wf, position_of, select_winner,
    survives, PbftState, ProducerEvidence,
};
use crate::peers::{
    accepts_info, active_table, agent_position, agents_wf, build_active, capped_infos,
    collect_infos, key_position, lemma_agent_unique, potential_wf, recipients, recipients_of,
    with_agent, with_info, with_key, without_agent, PotentialValidator, ValidatorAgent,
    MAX_VALIDATOR_INFOS,
};
use crate::primitives::{
    is_macro_block_at, macro_block_at, AggregateProof, Blake2bHash, ChainView, ForkProof,
    LevelUpdateMessage, PbftCommitMessage, PbftPrepareMessage, PbftProof, PbftProposal, Peer,
    PeerId, SignedPbftCommitMessage, SignedPbftPrepareMessage, SignedPbftProposal,
    SignedViewChange, ValidatorInfo, ViewChange, ViewChangeProof,
};

verus! {

/// Errors returned to local callers.
#[derive(Clone, Copy, Debug, PartialEq, Eq)]
pub enum ValidatorNetworkError {
    /// An aggregation for this view change is already running.
    ViewChangeAlreadyExists(ViewChange),
    /// Another proposal was already adopted at this view.
    ProposalCollision,
    /// No instance is filed under the digest.
    UnknownProposal,
    /// The proposal failed verification.
    InvalidProposal,
}

impl ValidatorNetworkError {
    /// The error in words.
    pub fn description(&self) -> (text: &'static str)
        ensures
            text@ == match *self {
                ValidatorNetworkError::ViewChangeAlreadyExists(_) => "View change already in progress"@,
                ValidatorNetworkError::ProposalCollision => "Already got another pBFT proposal at this view"@,
                ValidatorNetworkError::UnknownProposal => "Unknown pBFT proposal"@,
                ValidatorNetworkError::InvalidProposal => "Invalid pBFT proposal"@,
            },
    {
        match self {
            ValidatorNetworkError::ViewChangeAlreadyExists(_) => "View change already in progress",
            ValidatorNetworkError::ProposalCollision => "Already got another pBFT proposal at this view",
            ValidatorNetworkError::UnknownProposal => "Unknown pBFT proposal",
            ValidatorNetworkError::InvalidProposal => "Invalid pBFT proposal",
        }
    }
}

/// Notifications for the block producer.
#[derive(Clone, Debug, PartialEq, Eq)]
pub enum ValidatorNetworkEvent {
    /// A fork proof was received.
    ForkProof(ForkProof),
    /// A view change reached its threshold.
    ViewChangeComplete(ViewChange, ViewChangeProof),
    /// A verified macro block proposal was adopted. This can happen more than
    /// once in an epoch, when a proposal with a higher view arrives.
    PbftProposal(Blake2bHash, PbftProposal),
    /// The prepare phase of a proposal reached its threshold.
    PbftPrepareComplete(Blake2bHash, PbftProposal),
    /// Both phases of a proposal are complete.
    PbftComplete(Blake2bHash, PbftProposal, PbftProof),
}

/// Messages that the coordinator has sent to peers.
#[derive(Clone, Debug, PartialEq, Eq)]
pub enum Message {
    ValidatorInfo(Vec<ValidatorInfo>),
    PbftProposal(SignedPbftProposal),
    ForkProof(ForkProof),
}

/// A message with the peers that are to receive it.
#[derive(Clone, Debug, PartialEq, Eq)]
pub struct Broadcast {
    pub message: Message,
    pub recipients: Vec<PeerId>,
}

/// How a proposal is classified on arrival.
#[derive(Clone, Copy, Debug, PartialEq, Eq)]
pub enum ProposalVerdict {
    /// An instance for this digest exists already.
    Known,
    /// The next block is no macro block yet: kept without verification.
    Buffered,
    /// Verification failed.
    Invalid,
    /// The first instance at or above this view has the same view.
    Collision,
    /// The first instance at or above this view has a higher view.
    Outranked,
    /// Verified and above every instance: it replaces the set.
    Adopted,
}

/// What the caller is to do after a proposal was taken in without error.
#[derive(Clone, Debug, PartialEq, Eq)]
pub enum ProposalOutcome {
    /// Nothing: the proposal was known.
    Known,
    /// Nothing: a proposal of a higher view stands.
    Outranked,
    /// Start the aggregations of the new instance as validator `node_id` and
    /// relay the proposal.
    Buffered { node_id: usize, relay: Broadcast },
    /// Start the aggregations of the new instance as validator `node_id`,
    /// announce the proposal to the block producer and relay it.
    Adopted { node_id: usize, event: ValidatorNetworkEvent, relay: Broadcast },
}

/// A view-change aggregation that the caller is to create and feed with this
/// node's own contribution.
#[derive(Clone, Copy, Debug, PartialEq, Eq)]
pub struct ViewChangeStart {
    pub tag: ViewChange,
    pub node_id: usize,
}

/// What a connected validator's agent reports.
#[derive(Clone, Copy, Debug, PartialEq, Eq)]
pub enum ValidatorAgentEvent {
    ValidatorInfo(ValidatorInfo),
    ForkProof(ForkProof),
    ViewChange(LevelUpdateMessage<ViewChange>),
    PbftProposal(SignedPbftProposal),
    PbftPrepare(LevelUpdateMessage<PbftPrepareMessage>),
    PbftCommit(LevelUpdateMessage<PbftCommitMessage>),
}

/// What the caller is to do after an agent's report was handled.
#[derive(Clone, Debug, PartialEq, Eq)]
pub enum AgentReaction {
    /// Nothing.
    Done,
    /// Announce the fork proof and relay it.
    ForkProof { event: ValidatorNetworkEvent, relay: Broadcast },
    /// Hand the update to the aggregation of its view change.
    ViewChangeUpdate(LevelUpdateMessage<ViewChange>),
    /// Hand the update to the prepare aggregation of its proposal.
    PrepareUpdate(LevelUpdateMessage<PbftPrepareMessage>),
    /// Hand the update to the commit aggregation of its proposal.
    CommitUpdate(LevelUpdateMessage<PbftCommitMessage>),
    /// The proposal was taken in: act on the outcome.
    Proposal(ProposalOutcome),
    /// The proposal was refused; a peer's proposal is dropped without more.
    Rejected(ValidatorNetworkError),
}

/// The classification of a proposal against the set of instances.
pub open spec fn proposal_verdict(
    states: Seq<PbftState>,
    signed: SignedPbftProposal,
    next_is_macro: bool,
    verified: bool,
) -> ProposalVerdict {
    let view = signed.message.header.view_number;
    if knows(states, signed.message.header.hash) {
        ProposalVerdict::Known
    } else if !next_is_macro {
        ProposalVerdict::Buffered
    } else if !verified {
        ProposalVerdict::Invalid
    } else if exists|k: int| #[trigger] is_blocker(states, view, k) && states[k].view_number() == view {
        ProposalVerdict::Collision
    } else if exists|k: int| #[trigger] is_blocker(states, view, k) {
        ProposalVerdict::Outranked
    } else {
        ProposalVerdict::Adopted
    }
}

/// The set of instances after a proposal with the given verdict.
pub open spec fn states_after_proposal(
    states: Seq<PbftState>,
    signed: SignedPbftProposal,
    verdict: ProposalVerdict,
) -> Seq<PbftState> {
    let born = PbftState::fresh(signed.message.header.hash, signed);
    match verdict {
        ProposalVerdict::Buffered => states.push(born),
        ProposalVerdict::Adopted => seq![born],
        _ => states,
    }
}

/// The running view changes after one for `tag` was started.
pub open spec fn view_changes_after_start(tags: Seq<ViewChange>, tag: ViewChange) -> Seq<ViewChange> {
    if tags.contains(tag) {
        tags
    } else {
        tags.push(tag)
    }
}

/// What the coordinator keeps between events.
#[derive(Clone, Debug, PartialEq, Eq)]
pub struct ValidatorNetworkState {
    /// Connected peers that offer the validator service.
    pub agents: Vec<ValidatorAgent>,
    /// Peers that have advertised a BLS key, one entry per key.
    pub potential_validators: Vec<PotentialValidator>,
    /// For each validator index of the current epoch, the peer behind it.
    /// Replaced at finality, never changed in place.
    pub active_validators: Vec<Option<PeerId>>,
    /// Tags of the view changes that are being aggregated.
    pub view_changes: Vec<ViewChange>,
    /// The pBFT instances.
    pub pbft_states: Vec<PbftState>,
    /// This node's validator index, while it is an active validator.
    pub validator_id: Option<usize>,
}

impl ValidatorNetworkState {
    pub open spec fn wf(&self) -> bool {
        &&& agents_wf(self.agents@)
        &&& potential_wf(self.potential_validators@)
        &&& self.view_changes@.no_duplicates()
        &&& pbft_set_wf(self.pbft_states@)
    }

    /// The instance filed under `hash`.
    pub fn get_pbft_state(&self, hash: &Blake2bHash) -> (found: Option<&PbftState>)
        ensures
            match found {
                Some(state) => exists|i: int|
                    {
                        &&& 0 <= i < self.pbft_states@.len()
                        &&& *state == #[trigger] self.pbft_states@[i]
                        &&& state.block_hash == *hash
                        &&& forall|j: int|
                            0 <= j < i ==> (#[trigger] self.pbft_states@[j]).block_hash != *hash
                    },
                None => !knows(self.pbft_states@, *hash),
            },
            found is Some <==> knows(self.pbft_states@, *hash),
    {
        match position_of(&self.pbft_states, hash) {
            Some(i) => Some(&self.pbft_states[i]),
            None => None,
        }
    }
}

/// The coordinator of one validator node.
#[derive(Clone, Debug, PartialEq, Eq)]
pub struct ValidatorNetwork {
    /// This node's own advertisement.
    pub info: ValidatorInfo,
    /// Distance between two macro blocks.
    pub epoch_length: u32,
    pub state: ValidatorNetworkState,
}

impl ValidatorNetwork {
    pub open spec fn wf(&self) -> bool {
        self.epoch_length > 0 && self.state.wf()
    }

    /// Nothing but the set of pBFT instances differs.
    pub open spec fn same_but_pbft(&self, other: &ValidatorNetwork) -> bool {
        &&& self.info == other.info
        &&& self.epoch_length == other.epoch_length
        &&& self.state.agents == other.state.agents
        &&& self.state.potential_validators == other.state.potential_validators
        &&& self.state.active_validators == other.state.active_validators
        &&& self.state.view_changes == other.state.view_changes
        &&& self.state.validator_id == other.state.validator_id
    }

    /// Nothing but the running view changes differs.
    pub open spec fn same_but_view_changes(&self, other: &ValidatorNetwork) -> bool {
        &&& self.info == other.info
        &&& self.epoch_length == other.epoch_length
        &&& self.state.agents == other.state.agents
        &&& self.state.potential_validators == other.state.potential_validators
        &&& self.state.active_validators == other.state.active_validators
        &&& self.state.pbft_states == other.state.pbft_states
        &&& self.state.validator_id == other.state.validator_id
    }

    /// Nothing but the agents differs.
    pub open spec fn same_but_agents(&self, other: &ValidatorNetwork) -> bool {
        &&& self.same_but_peers(other)
        &&& self.state.potential_validators == other.state.potential_validators
    }

    /// Nothing but the agents and the potential validators differs.
    pub open spec fn same_but_peers(&self, other: &ValidatorNetwork) -> bool {
        &&& self.info == other.info
        &&& self.epoch_length == other.epoch_length
        &&& self.state.active_validators == other.state.active_validators
        &&& self.state.view_changes == other.state.view_changes
        &&& self.state.pbft_states == other.state.pbft_states
        &&& self.state.validator_id == other.state.validator_id
    }

    /// Whether the block after the chain's head is a macro block.
    pub open spec fn next_is_macro(&self, chain: &ChainView) -> bool {
        chain.height < u32::MAX && macro_block_at((chain.height + 1) as u32, self.epoch_length)
    }

    /// What taking in a proposal does: `post` and `result` are the
    /// coordinator and the answer after `signed` has arrived at `pre`.
    pub open spec fn proposal_handled(
        pre: &ValidatorNetwork,
        post: &ValidatorNetwork,
        signed: SignedPbftProposal,
        chain: &ChainView,
        evidence: Option<ProducerEvidence>,
        result: Result<ProposalOutcome, ValidatorNetworkError>,
    ) -> bool {
        let hash = signed.message.header.hash;
        let born = PbftState::fresh(hash, signed);
        let verdict = proposal_verdict(
            pre.state.pbft_states@,
            signed,
            pre.next_is_macro(chain),
            evidence matches Some(e) && born.verified_by(chain.validators@, e),
        );
        let relay_to = recipients(pre.state.potential_validators@);
        &&& post.state.pbft_states@ == states_after_proposal(pre.state.pbft_states@, signed, verdict)
        &&& match verdict {
            ProposalVerdict::Known => result == Ok::<ProposalOutcome, ValidatorNetworkError>(
                ProposalOutcome::Known,
            ),
            ProposalVerdict::Outranked => result == Ok::<ProposalOutcome, ValidatorNetworkError>(
                ProposalOutcome::Outranked,
            ),
            ProposalVerdict::Invalid => result == Err::<ProposalOutcome, ValidatorNetworkError>(
                ValidatorNetworkError::InvalidProposal,
            ),
            ProposalVerdict::Collision => result == Err::<ProposalOutcome, ValidatorNetworkError>(
                ValidatorNetworkError::ProposalCollision,
            ),
            ProposalVerdict::Buffered => {
                &&& result matches Ok(ProposalOutcome::Buffered { node_id, relay })
                &&& Some(node_id) == pre.state.validator_id
                &&& relay.message == Message::PbftProposal(signed)
                &&& relay.recipients@ == relay_to
            },
            ProposalVerdict::Adopted => {
                &&& result matches Ok(ProposalOutcome::Adopted { node_id, event, relay })
                &&& Some(node_id) == pre.state.validator_id
                &&& event == ValidatorNetworkEvent::PbftProposal(hash, signed.message)
                &&& relay.message == Message::PbftProposal(signed)
                &&& relay.recipients@ == relay_to
            },
        }
    }

    /// What an advertisement does: `post` is the coordinator after `info`
    /// has arrived at `pre`.
    pub open spec fn info_handled(
        pre: &ValidatorNetwork,
        post: &ValidatorNetwork,
        info: ValidatorInfo,
    ) -> bool {
        &&& post.same_but_peers(pre)
        &&& accepts_info(pre.state.agents@, info) ==> {
            &&& post.state.agents@ == with_info(pre.state.agents@, info)
            &&& post.state.potential_validators@ == with_key(
                pre.state.potential_validators@,
                info.public_key,
                info.peer_id,
            )
        }
        &&& !accepts_info(pre.state.agents@, info) ==> {
            &&& post.state.agents@ == pre.state.agents@
            &&& post.state.potential_validators@ == pre.state.potential_validators@
        }
    }

    /// A coordinator that knows no peer and runs nothing.
    pub fn new(info: ValidatorInfo, epoch_length: u32) -> (network: ValidatorNetwork)
        requires
            epoch_length > 0,
        ensures
            network.wf(),
            network.info == info,
            network.epoch_length == epoch_length,
            network.state.agents@.len() == 0,
            network.state.potential_validators@.len() == 0,
            network.state.active_validators@.len() == 0,
            network.state.view_changes@.len() == 0,
            network.state.pbft_states@.len() == 0,
            network.state.validator_id == None::<usize>,
    {
        ValidatorNetwork {
            info,
            epoch_length,
            state: ValidatorNetworkState {
                agents: Vec::new(),
                potential_validators: Vec::new(),
                active_validators: Vec::new(),
                view_changes: Vec::new(),
                pbft_states: Vec::new(),
                validator_id: None,
            },
        }
    }

    /// The peers that a broadcast reaches: all that have advertised a key.
    pub fn broadcast_all(&self) -> (peers: Vec<PeerId>)
        ensures
            peers@ == recipients(self.state.potential_validators@),
    {
        recipients_of(&self.state.potential_validators)
    }

    /// Takes in a proposal, this node's own or a peer's.
    ///
    /// A known proposal is ignored. While the block after the chain's head is
    /// no macro block, the proposal is kept unverified beside the others.
    /// Otherwise it must verify, and it replaces the set unless an instance
    /// stands at its view or above: the first such instance decides between
    /// a collision, at the same view, and dropping the proposal.
    pub fn on_pbft_proposal(
        &mut self,
        signed_proposal: SignedPbftProposal,
        chain: &ChainView,
        evidence: Option<ProducerEvidence>,
    ) -> (result: Result<ProposalOutcome, ValidatorNetworkError>)
        requires
            old(self).wf(),
            chain.height < u32::MAX,
            !knows(old(self).state.pbft_states@, signed_proposal.message.header.hash) ==> {
                &&& old(self).state.validator_id is Some
                &&& old(self).next_is_macro(chain) ==> evidence is Some
            },
        ensures
            final(self).wf(),
            final(self).same_but_pbft(old(self)),
            ValidatorNetwork::proposal_handled(
                old(self),
                final(self),
                signed_proposal,
                chain,
                evidence,
                result,
            ),
    {
        let block_hash = signed_proposal.message.header.hash;
        if self.state.get_pbft_state(&block_hash).is_some() {
            return Ok(ProposalOutcome::Known);
        }
        let node_id = self.state.validator_id.unwrap();
        let pbft = PbftState::new(block_hash, signed_proposal);
        let buffered = !is_macro_block_at(chain.height + 1, self.epoch_length);
        if !buffered {
            let verified = match evidence {
                Some(e) => pbft.check_verified(&chain.validators, &e),
                None => false,
            };
            if !verified {
                return Err(ValidatorNetworkError::InvalidProposal);
            }
            let view = pbft.view_number();
            match first_blocker(&self.state.pbft_states, view) {
                Some(k) => {
                    if self.state.pbft_states[k].view_number() == view {
                        return Err(ValidatorNetworkError::ProposalCollision);
                    } else {
                        proof {
                            let states = self.state.pbft_states@;
                            assert forall|c: int| is_blocker(states, view, c) implies c == k by {
                                if c < k {
                                    assert(states[c].view_number() < view);
                                } else if k < c {
                                    assert(states[k as int].view_number() < view);
                                }
                            }
                        }
                        return Ok(ProposalOutcome::Outranked);
                    }
                },
                None => {
                    proof {
                        let states = self.state.pbft_states@;
                        assert forall|c: int| !is_blocker(states, view, c) by {
                            if is_blocker(states, view, c) {
                                assert(states[c].view_number() < view);
                            }
                        }
                    }
                },
            }
            self.state.pbft_states.clear();
            self.state.pbft_states.push(pbft);
            assert(self.state.pbft_states@ =~= seq![pbft]);
        } else {
            self.state.pbft_states.push(pbft);
        }
        let relay = Broadcast {
            message: Message::PbftProposal(signed_proposal),
            recipients: self.broadcast_all(),
        };
        if !buffered {
            Ok(
                ProposalOutcome::Adopted {
                    node_id,
                    event: ValidatorNetworkEvent::PbftProposal(block_hash, signed_proposal.message),
                    relay,
                },
            )
        } else {
            Ok(ProposalOutcome::Buffered { node_id, relay })
        }
    }
    /// Resolves the buffered proposals once the block after the chain's head
    /// is a macro block: `evidence` answers for each instance, in the order of
    /// the set. Instances that fail verification leave; of the rest the winner
    /// alone remains and is announced.
    pub fn on_blockchain_extended(
        &mut self,
        chain: &ChainView,
        evidence: &Vec<ProducerEvidence>,
    ) -> (event: Option<ValidatorNetworkEvent>)
        requires
            old(self).wf(),
            chain.height < u32::MAX,
            old(self).next_is_macro(chain) ==> evidence.len() == old(self).state.pbft_states.len(),
        ensures
            final(self).wf(),
            final(self).same_but_pbft(old(self)),
            !old(self).next_is_macro(chain) ==> event is None && final(self).state.pbft_states@
                == old(self).state.pbft_states@,
            old(self).next_is_macro(chain) ==> match event {
                Some(announced) => exists|w: int|
                    {
                        &&& #[trigger] is_winner(
                            old(self).state.pbft_states@,
                            chain.validators@,
                            evidence@,
                            w,
                        )
                        &&& final(self).state.pbft_states@ == seq![old(self).state.pbft_states@[w]]
                        &&& announced == ValidatorNetworkEvent::PbftProposal(
                            old(self).state.pbft_states@[w].block_hash,
                            old(self).state.pbft_states@[w].proposal.message,
                        )
                    },
                None => {
                    &&& final(self).state.pbft_states@.len() == 0
                    &&& forall|k: int|
                        !survives(old(self).state.pbft_states@, chain.validators@, evidence@, k)
                },
            },
    {
        if !is_macro_block_at(chain.height + 1, self.epoch_length) {
            return None;
        }
        match select_winner(&self.state.pbft_states, &chain.validators, evidence) {
            Some(w) => {
                let winner = self.state.pbft_states.swap_remove(w);
                self.state.pbft_states.clear();
                let announced = ValidatorNetworkEvent::PbftProposal(
                    winner.proposal.message.header.hash,
                    winner.proposal.message,
                );
                self.state.pbft_states.push(winner);
                assert(self.state.pbft_states@ =~= seq![old(self).state.pbft_states@[w as int]]);
                Some(announced)
            },
            None => {
                self.state.pbft_states.clear();
                None
            },
        }
    }

    /// Starts pBFT with this node's own proposal.
    pub fn start_pbft(
        &mut self,
        signed_proposal: SignedPbftProposal,
        chain: &ChainView,
        evidence: Option<ProducerEvidence>,
    ) -> (result: Result<ProposalOutcome, ValidatorNetworkError>)
        requires
            old(self).wf(),
            chain.height < u32::MAX,
            !knows(old(self).state.pbft_states@, signed_proposal.message.header.hash) ==> {
                &&& old(self).state.validator_id is Some
                &&& old(self).next_is_macro(chain) ==> evidence is Some
            },
        ensures
            final(self).wf(),
            final(self).same_but_pbft(old(self)),
            ValidatorNetwork::proposal_handled(
                old(self),
                final(self),
                signed_proposal,
                chain,
                evidence,
                result,
            ),
    {
        self.on_pbft_proposal(signed_proposal, chain, evidence)
    }

    /// The prepare aggregation of `hash` has reached its threshold. The first
    /// completion stores the proof in the instance and is announced; one for
    /// an instance that holds a proof, or for no instance, is dropped.
    pub fn on_prepare_complete(&mut self, hash: Blake2bHash, proof: AggregateProof) -> (event: Option<
        ValidatorNetworkEvent,
    >)
        requires
            old(self).wf(),
        ensures
            final(self).wf(),
            final(self).same_but_pbft(old(self)),
            final(self).state.pbft_states@ == after_prepare(old(self).state.pbft_states@, hash, proof),
            event == if awaits_prepare(old(self).state.pbft_states@, hash) {
                Some(
                    ValidatorNetworkEvent::PbftPrepareComplete(
                        hash,
                        old(self).state.pbft_states@[instance_of(
                            old(self).state.pbft_states@,
                            hash,
                        )].proposal.message,
                    ),
                )
            } else {
                None
            },
    {
        match position_of(&self.state.pbft_states, &hash) {
            Some(i) => {
                proof {
                    lemma_instance_unique(self.state.pbft_states@, hash, i as int);
                }
                if self.state.pbft_states[i].prepare_proof.is_none() {
                    let mut instance = self.state.pbft_states.remove(i);
                    let announced = ValidatorNetworkEvent::PbftPrepareComplete(
                        instance.block_hash,
                        instance.proposal.message,
                    );
                    instance.prepare_proof = Some(proof);
                    self.state.pbft_states.insert(i, instance);
                    assert(self.state.pbft_states@ =~= after_prepare(
                        old(self).state.pbft_states@,
                        hash,
                        proof,
                    ));
                    Some(announced)
                } else {
                    None
                }
            },
            None => None,
        }
    }

    /// The commit aggregation of `hash` has reached its threshold. The
    /// instance gives up its prepare proof, which it must hold, and the two
    /// proofs are announced together; a completion for no instance is dropped.
    pub fn on_commit_complete(&mut self, hash: Blake2bHash, proof: AggregateProof) -> (event: Option<
        ValidatorNetworkEvent,
    >)
        requires
            old(self).wf(),
            knows(old(self).state.pbft_states@, hash) ==> holds_prepare(
                old(self).state.pbft_states@,
                hash,
            ),
        ensures
            final(self).wf(),
            final(self).same_but_pbft(old(self)),
            final(self).state.pbft_states@ == after_commit(old(self).state.pbft_states@, hash),
            event == if knows(old(self).state.pbft_states@, hash) {
                let instance = old(self).state.pbft_states@[instance_of(
                    old(self).state.pbft_states@,
                    hash,
                )];
                Some(
                    ValidatorNetworkEvent::PbftComplete(
                        hash,
                        instance.proposal.message,
                        PbftProof { prepare: instance.prepare_proof->Some_0, commit: proof },
                    ),
                )
            } else {
                None
            },
    {
        match position_of(&self.state.pbft_states, &hash) {
            Some(i) => {
                proof {
                    lemma_instance_unique(self.state.pbft_states@, hash, i as int);
                }
                let mut instance = self.state.pbft_states.remove(i);
                let prepare = instance.prepare_proof.take().unwrap();
                let announced = ValidatorNetworkEvent::PbftComplete(
                    instance.block_hash,
                    instance.proposal.message,
                    PbftProof { prepare, commit: proof },
                );
                self.state.pbft_states.insert(i, instance);
                assert(self.state.pbft_states@ =~= after_commit(old(self).state.pbft_states@, hash));
                Some(announced)
            },
            None => None,
        }
    }
    /// Whether an aggregation for `tag` is running.
    pub fn has_view_change(&self, tag: &ViewChange) -> (running: bool)
        ensures
            running == self.state.view_changes@.contains(*tag),
    {
        let mut i: usize = 0;
        while i < self.state.view_changes.len()
            invariant
                i <= self.state.view_changes.len(),
                forall|j: int| 0 <= j < i ==> self.state.view_changes@[j] != *tag,
            decreases self.state.view_changes.len() - i,
        {
            if self.state.view_changes[i] == *tag {
                return true;
            }
            i += 1;
        }
        false
    }

    /// Starts a view change with this node's own signed contribution. A tag
    /// that is being aggregated is refused and nothing changes; otherwise the
    /// tag is recorded and the caller is told which aggregation to create.
    pub fn start_view_change(&mut self, signed_view_change: SignedViewChange) -> (result: Result<
        ViewChangeStart,
        ValidatorNetworkError,
    >)
        requires
            old(self).wf(),
            !old(self).state.view_changes@.contains(signed_view_change.message) ==> old(
                self,
            ).state.validator_id == Some(signed_view_change.signer_idx as usize),
        ensures
            final(self).wf(),
            old(self).state.view_changes@.contains(signed_view_change.message) ==> {
                &&& result == Err::<ViewChangeStart, ValidatorNetworkError>(
                    ValidatorNetworkError::ViewChangeAlreadyExists(signed_view_change.message),
                )
                &&& *final(self) == *old(self)
            },
            !old(self).state.view_changes@.contains(signed_view_change.message) ==> {
                &&& result == Ok::<ViewChangeStart, ValidatorNetworkError>(
                    ViewChangeStart {
                        tag: signed_view_change.message,
                        node_id: signed_view_change.signer_idx as usize,
                    },
                )
                &&& final(self).state.view_changes@ == view_changes_after_start(
                    old(self).state.view_changes@,
                    signed_view_change.message,
                )
                &&& final(self).same_but_view_changes(old(self))
            },
    {
        let view_change = signed_view_change.message;
        if self.has_view_change(&view_change) {
            return Err(ValidatorNetworkError::ViewChangeAlreadyExists(view_change));
        }
        let node_id = signed_view_change.signer_idx as usize;
        self.state.view_changes.push(view_change);
        Ok(ViewChangeStart { tag: view_change, node_id })
    }

    /// Whether a remote level update for a view change is to be forwarded to
    /// its aggregation: only where this node has started that view change.
    pub fn on_view_change_level_update(&self, update_message: &LevelUpdateMessage<ViewChange>) -> (forward:
        bool)
        ensures
            forward == self.state.view_changes@.contains(update_message.tag),
    {
        self.has_view_change(&update_message.tag)
    }

    /// The aggregation of `tag` has reached its threshold: the announcement
    /// for the block producer.
    pub fn on_view_change_complete(&self, tag: ViewChange, proof: ViewChangeProof) -> (event:
        ValidatorNetworkEvent)
        ensures
            event == ValidatorNetworkEvent::ViewChangeComplete(tag, proof),
    {
        ValidatorNetworkEvent::ViewChangeComplete(tag, proof)
    }

    /// A macro block was produced: all view changes and pBFT instances end,
    /// this node takes its index for the new epoch, and the validator index
    /// table is rebuilt from the chain's validators and the known keys.
    pub fn on_finality(&mut self, validator_id: Option<usize>, chain: &ChainView)
        requires
            old(self).wf(),
        ensures
            final(self).wf(),
            final(self).state.view_changes@.len() == 0,
            final(self).state.pbft_states@.len() == 0,
            final(self).state.validator_id == validator_id,
            final(self).state.active_validators@ == active_table(
                old(self).state.potential_validators@,
                chain.validators@,
            ),
            final(self).state.agents == old(self).state.agents,
            final(self).state.potential_validators == old(self).state.potential_validators,
            final(self).info == old(self).info,
            final(self).epoch_length == old(self).epoch_length,
    {
        self.state.view_changes.clear();
        self.state.pbft_states.clear();
        self.state.validator_id = validator_id;
        self.state.active_validators = build_active(
            &self.state.potential_validators,
            &chain.validators,
        );
    }

    /// A peer has connected. One that offers the validator service gets an
    /// agent and is to be sent the known advertisements, capped, followed by
    /// this node's own; any other peer is ignored.
    pub fn on_peer_joined(&mut self, peer: &Peer) -> (greeting: Option<Message>)
        requires
            old(self).wf(),
        ensures
            final(self).wf(),
            final(self).same_but_agents(old(self)),
            !peer.is_validator ==> greeting is None && final(self).state.agents@ == old(
                self,
            ).state.agents@,
            peer.is_validator ==> {
                &&& final(self).state.agents@ == with_agent(old(self).state.agents@, peer.peer_id)
                &&& greeting matches Some(Message::ValidatorInfo(infos))
                &&& infos@ == capped_infos(
                    final(self).state.agents@,
                    MAX_VALIDATOR_INFOS as int,
                ).push(old(self).info)
            },
    {
        if !peer.is_validator {
            return None;
        }
        let agent = ValidatorAgent { peer_id: peer.peer_id, validator_info: None };
        match agent_position(&self.state.agents, &peer.peer_id) {
            Some(i) => {
                proof {
                    lemma_agent_unique(self.state.agents@, peer.peer_id, i as int);
                }
                self.state.agents.set(i, agent);
            },
            None => {
                self.state.agents.push(agent);
            },
        }
        let mut infos = collect_infos(&self.state.agents, MAX_VALIDATOR_INFOS);
        infos.push(self.info);
        Some(Message::ValidatorInfo(infos))
    }

    /// A peer has disconnected: its agent goes. What it advertised stays in
    /// the table of potential validators.
    pub fn on_peer_left(&mut self, peer: &Peer)
        requires
            old(self).wf(),
        ensures
            final(self).wf(),
            final(self).same_but_agents(old(self)),
            final(self).state.agents@ == without_agent(old(self).state.agents@, peer.peer_id),
    {
        match agent_position(&self.state.agents, &peer.peer_id) {
            Some(i) => {
                proof {
                    lemma_agent_unique(self.state.agents@, peer.peer_id, i as int);
                }
                self.state.agents.remove(i);
            },
            None => {},
        }
    }

    /// An advertisement has arrived whose signature was checked. Where its
    /// sender is connected and its key is new for that sender, the sender's
    /// agent stores it and the key's entry names the sender; otherwise nothing
    /// changes.
    pub fn on_validator_info(&mut self, info: ValidatorInfo)
        requires
            old(self).wf(),
        ensures
            final(self).wf(),
            ValidatorNetwork::info_handled(old(self), final(self), info),
    {
        match agent_position(&self.state.agents, &info.peer_id) {
            Some(i) => {
                proof {
                    lemma_agent_unique(self.state.agents@, info.peer_id, i as int);
                }
                match self.state.agents[i].validator_info {
                    Some(current) => {
                        if current.public_key.equals(&info.public_key) {
                            return ;
                        }
                    },
                    None => {},
                }
                let entry = PotentialValidator {
                    public_key: info.public_key,
                    peer_id: info.peer_id,
                };
                match key_position(&self.state.potential_validators, &info.public_key) {
                    Some(k) => {
                        self.state.potential_validators.set(k, entry);
                    },
                    None => {
                        self.state.potential_validators.push(entry);
                    },
                }
                self.state.agents.set(
                    i,
                    ValidatorAgent { peer_id: info.peer_id, validator_info: Some(info) },
                );
            },
            None => {},
        }
    }

    /// A fork proof has arrived: it is announced to the block producer and
    /// relayed to all known validators.
    pub fn on_fork_proof(&self, fork_proof: ForkProof) -> (effects: (ValidatorNetworkEvent, Broadcast))
        ensures
            effects.0 == ValidatorNetworkEvent::ForkProof(fork_proof),
            effects.1.message == Message::ForkProof(fork_proof),
            effects.1.recipients@ == recipients(self.state.potential_validators@),
    {
        (
            ValidatorNetworkEvent::ForkProof(fork_proof),
            Broadcast { message: Message::ForkProof(fork_proof), recipients: self.broadcast_all() },
        )
    }

    /// Whether a remote level update of the prepare phase is to be forwarded:
    /// only where the proposal that it names is known.
    pub fn on_pbft_prepare_level_update(
        &self,
        level_update: &LevelUpdateMessage<PbftPrepareMessage>,
    ) -> (forward: bool)
        ensures
            forward == knows(self.state.pbft_states@, level_update.tag.block_hash),
    {
        self.state.get_pbft_state(&level_update.tag.block_hash).is_some()
    }

    /// Whether a remote level update of the commit phase is to be forwarded:
    /// only where the proposal that it names is known.
    pub fn on_pbft_commit_level_update(
        &self,
        level_update: &LevelUpdateMessage<PbftCommitMessage>,
    ) -> (forward: bool)
        ensures
            forward == knows(self.state.pbft_states@, level_update.tag.block_hash),
    {
        self.state.get_pbft_state(&level_update.tag.block_hash).is_some()
    }

    /// Admits this node's own prepare vote to the aggregation of the proposal
    /// that it names.
    pub fn push_prepare(&self, signed_prepare: &SignedPbftPrepareMessage) -> (result: Result<
        (),
        ValidatorNetworkError,
    >)
        ensures
            knows(self.state.pbft_states@, signed_prepare.message.block_hash) ==> result is Ok,
            !knows(self.state.pbft_states@, signed_prepare.message.block_hash) ==> result == Err::<
                (),
                ValidatorNetworkError,
            >(ValidatorNetworkError::UnknownProposal),
    {
        if self.state.get_pbft_state(&signed_prepare.message.block_hash).is_some() {
            Ok(())
        } else {
            Err(ValidatorNetworkError::UnknownProposal)
        }
    }

    /// Admits this node's own commit vote to the aggregation of the proposal
    /// that it names.
    pub fn push_commit(&self, signed_commit: &SignedPbftCommitMessage) -> (result: Result<
        (),
        ValidatorNetworkError,
    >)
        ensures
            knows(self.state.pbft_states@, signed_commit.message.block_hash) ==> result is Ok,
            !knows(self.state.pbft_states@, signed_commit.message.block_hash) ==> result == Err::<
                (),
                ValidatorNetworkError,
            >(ValidatorNetworkError::UnknownProposal),
    {
        if self.state.get_pbft_state(&signed_commit.message.block_hash).is_some() {
            Ok(())
        } else {
            Err(ValidatorNetworkError::UnknownProposal)
        }
    }
    /// Handles what the agent of a connected validator reports: each report
    /// goes to its handler, and the answer says what the caller is to send,
    /// forward or announce. Nothing that a peer sends is an error here.
    pub fn on_agent_event(
        &mut self,
        event: ValidatorAgentEvent,
        chain: &ChainView,
        evidence: Option<ProducerEvidence>,
    ) -> (reaction: AgentReaction)
        requires
            old(self).wf(),
            chain.height < u32::MAX,
            event matches ValidatorAgentEvent::PbftProposal(signed) ==> (!knows(
                old(self).state.pbft_states@,
                signed.message.header.hash,
            ) ==> {
                &&& old(self).state.validator_id is Some
                &&& old(self).next_is_macro(chain) ==> evidence is Some
            }),
        ensures
            final(self).wf(),
            match event {
                ValidatorAgentEvent::ValidatorInfo(info) => {
                    &&& reaction == AgentReaction::Done
                    &&& ValidatorNetwork::info_handled(old(self), final(self), info)
                },
                ValidatorAgentEvent::ForkProof(fork_proof) => {
                    &&& *final(self) == *old(self)
                    &&& reaction matches AgentReaction::ForkProof { event: announced, relay }
                    &&& announced == ValidatorNetworkEvent::ForkProof(fork_proof)
                    &&& relay.message == Message::ForkProof(fork_proof)
                    &&& relay.recipients@ == recipients(old(self).state.potential_validators@)
                },
                ValidatorAgentEvent::ViewChange(update) => {
                    &&& *final(self) == *old(self)
                    &&& reaction == if old(self).state.view_changes@.contains(update.tag) {
                        AgentReaction::ViewChangeUpdate(update)
                    } else {
                        AgentReaction::Done
                    }
                },
                ValidatorAgentEvent::PbftProposal(signed) => {
                    &&& final(self).same_but_pbft(old(self))
                    &&& match reaction {
                        AgentReaction::Proposal(outcome) => ValidatorNetwork::proposal_handled(
                            old(self),
                            final(self),
                            signed,
                            chain,
                            evidence,
                            Ok(outcome),
                        ),
                        AgentReaction::Rejected(error) => ValidatorNetwork::proposal_handled(
                            old(self),
                            final(self),
                            signed,
                            chain,
                            evidence,
                            Err(error),
                        ),
                        _ => false,
                    }
                },
                ValidatorAgentEvent::PbftPrepare(update) => {
                    &&& *final(self) == *old(self)
                    &&& reaction == if knows(old(self).state.pbft_states@, update.tag.block_hash) {
                        AgentReaction::PrepareUpdate(update)
                    } else {
                        AgentReaction::Done
                    }
                },
                ValidatorAgentEvent::PbftCommit(update) => {
                    &&& *final(self) == *old(self)
                    &&& reaction == if knows(old(self).state.pbft_states@, update.tag.block_hash) {
                        AgentReaction::CommitUpdate(update)
                    } else {
                        AgentReaction::Done
                    }
                },
            },
    {
        match event {
            ValidatorAgentEvent::ValidatorInfo(info) => {
                self.on_validator_info(info);
                AgentReaction::Done
            },
            ValidatorAgentEvent::ForkProof(fork_proof) => {
                let (event, relay) = self.on_fork_proof(fork_proof);
                AgentReaction::ForkProof { event, relay }
            },
            ValidatorAgentEvent::ViewChange(update) => {
                if self.on_view_change_level_update(&update) {
                    AgentReaction::ViewChangeUpdate(update)
                } else {
                    AgentReaction::Done
                }
            },
            ValidatorAgentEvent::PbftProposal(signed) => {
                match self.on_pbft_proposal(signed, chain, evidence) {
                    Ok(outcome) => AgentReaction::Proposal(outcome),
                    Err(error) => AgentReaction::Rejected(error),
                }
            },
            ValidatorAgentEvent::PbftPrepare(update) => {
                if self.on_pbft_prepare_level_update(&update) {
                    AgentReaction::PrepareUpdate(update)
                } else {
                    AgentReaction::Done
                }
            },
            ValidatorAgentEvent::PbftCommit(update) => {
                if self.on_pbft_commit_level_update(&update) {
                    AgentReaction::CommitUpdate(update)
                } else {
                    AgentReaction::Done
                }
            },
        }
    }
}

} // verus!
