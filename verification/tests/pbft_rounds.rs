use nimiq_validator::pbft::{PbftState, ProducerEvidence};
use nimiq_validator::primitives::{
    is_macro_block_at, AggregateProof, Blake2bHash, ChainView, CompressedPublicKey,
    LevelUpdateMessage, MacroHeader, PbftCommitMessage, PbftPrepareMessage, PbftProposal, PeerId,
    SignedPbftCommitMessage, SignedPbftPrepareMessage, SignedPbftProposal, SignedViewChange,
    ValidatorInfo, ViewChange,
};
use nimiq_validator::primitives::{ForkProof, Peer};
use nimiq_validator::validator_network::{
    AgentReaction, Message, ProposalOutcome, ValidatorAgentEvent, ValidatorNetwork,
    ValidatorNetworkError, ValidatorNetworkEvent, ViewChangeStart,
};

fn hash(n: u8) -> Blake2bHash {
    Blake2bHash { bytes: [n; 32] }
}

fn key(n: u8) -> CompressedPublicKey {
    CompressedPublicKey { bytes: [n; 96] }
}

fn own_info() -> ValidatorInfo {
    ValidatorInfo { peer_id: PeerId { bytes: [200; 16] }, public_key: key(1) }
}

fn four_validators(height: u32) -> ChainView {
    ChainView { height, validators: vec![key(0), key(1), key(2), key(3)] }
}

fn proposal(digest: u8, block_number: u32, view_number: u32, signer_idx: u16) -> SignedPbftProposal {
    SignedPbftProposal {
        message: PbftProposal { header: MacroHeader { block_number, view_number, hash: hash(digest) } },
        signer_idx,
    }
}

fn good(producer: u8) -> ProducerEvidence {
    ProducerEvidence { producer_key: key(producer), header_valid: true, signature_valid: true }
}

fn proof_of(signers: Vec<u16>, tag: u8) -> AggregateProof {
    AggregateProof { signature: vec![tag; 48], signers }
}

fn node(id: usize, height: u32) -> ValidatorNetwork {
    let mut network = ValidatorNetwork::new(own_info(), 32);
    network.on_finality(Some(id), &four_validators(height));
    network
}

#[test]
fn happy_pbft() {
    let chain = four_validators(31);
    let mut network = node(1, 31);
    assert_eq!(network.on_blockchain_extended(&chain, &Vec::new()), None);

    let p = proposal(7, 32, 0, 0);
    let outcome = network.on_pbft_proposal(p, &chain, Some(good(0)));
    match outcome {
        Ok(ProposalOutcome::Adopted { node_id, event, relay }) => {
            assert_eq!(node_id, 1);
            assert_eq!(event, ValidatorNetworkEvent::PbftProposal(hash(7), p.message));
            assert_eq!(relay.message, Message::PbftProposal(p));
            assert!(relay.recipients.is_empty());
        }
        other => panic!("unexpected outcome {:?}", other),
    }
    assert_eq!(network.state.pbft_states, vec![PbftState { proposal: p, block_hash: hash(7), prepare_proof: None }]);

    for signer in [1u16, 0, 2] {
        let vote = SignedPbftPrepareMessage { message: PbftPrepareMessage { block_hash: hash(7) }, signer_idx: signer };
        assert_eq!(network.push_prepare(&vote), Ok(()));
    }
    let prepare = proof_of(vec![0, 1, 2], 1);
    assert_eq!(
        network.on_prepare_complete(hash(7), prepare.clone()),
        Some(ValidatorNetworkEvent::PbftPrepareComplete(hash(7), p.message))
    );
    assert_eq!(network.state.pbft_states[0].prepare_proof, Some(prepare.clone()));

    for signer in [1u16, 0, 2] {
        let vote = SignedPbftCommitMessage { message: PbftCommitMessage { block_hash: hash(7) }, signer_idx: signer };
        assert_eq!(network.push_commit(&vote), Ok(()));
    }
    let commit = proof_of(vec![0, 1, 2], 2);
    match network.on_commit_complete(hash(7), commit.clone()) {
        Some(ValidatorNetworkEvent::PbftComplete(h, message, proof)) => {
            assert_eq!(h, hash(7));
            assert_eq!(message, p.message);
            assert_eq!(proof.prepare, prepare);
            assert_eq!(proof.commit, commit);
            assert_eq!(proof.prepare.signers.len(), 3);
            assert_eq!(proof.commit.signers.len(), 3);
        }
        other => panic!("unexpected event {:?}", other),
    }
    assert_eq!(network.state.pbft_states[0].prepare_proof, None);
}

#[test]
fn buffered_upgrade() {
    let mut network = node(1, 30);
    let early = four_validators(30);
    let p = proposal(7, 32, 0, 0);
    let q = proposal(8, 32, 1, 2);

    match network.on_pbft_proposal(p, &early, None) {
        Ok(ProposalOutcome::Buffered { node_id, relay }) => {
            assert_eq!(node_id, 1);
            assert_eq!(relay.message, Message::PbftProposal(p));
        }
        other => panic!("unexpected outcome {:?}", other),
    }
    match network.on_pbft_proposal(q, &early, None) {
        Ok(ProposalOutcome::Buffered { relay, .. }) => assert_eq!(relay.message, Message::PbftProposal(q)),
        other => panic!("unexpected outcome {:?}", other),
    }
    assert_eq!(network.state.pbft_states.len(), 2);
    assert_eq!(network.state.pbft_states[0].block_hash, hash(7));
    assert_eq!(network.state.pbft_states[1].block_hash, hash(8));

    let late = four_validators(31);
    let event = network.on_blockchain_extended(&late, &vec![good(0), good(2)]);
    assert_eq!(event, Some(ValidatorNetworkEvent::PbftProposal(hash(8), q.message)));
    assert_eq!(network.state.pbft_states, vec![PbftState { proposal: q, block_hash: hash(8), prepare_proof: None }]);
}

#[test]
fn extension_before_macro_position_changes_nothing() {
    let mut network = node(1, 29);
    let p = proposal(7, 32, 0, 0);
    assert!(network.on_pbft_proposal(p, &four_validators(29), None).is_ok());
    let before = network.clone();
    assert_eq!(network.on_blockchain_extended(&four_validators(30), &Vec::new()), None);
    assert_eq!(network, before);
}

#[test]
fn resolution_is_repeatable() {
    let mut network = node(1, 30);
    let early = four_validators(30);
    let p = proposal(7, 32, 0, 0);
    let q = proposal(8, 32, 1, 2);
    assert!(network.on_pbft_proposal(p, &early, None).is_ok());
    assert!(network.on_pbft_proposal(q, &early, None).is_ok());
    let late = four_validators(31);
    let first = network.on_blockchain_extended(&late, &vec![good(0), good(2)]);
    let settled = network.clone();
    let second = network.on_blockchain_extended(&late, &vec![good(2)]);
    assert_eq!(first, second);
    assert_eq!(network, settled);
}

#[test]
fn resolution_drops_unverified_and_keeps_highest_view() {
    let mut network = node(1, 30);
    let early = four_validators(30);
    let a = proposal(10, 32, 1, 0);
    let b = proposal(11, 32, 5, 1);
    let c = proposal(12, 32, 3, 2);
    let d = proposal(13, 32, 2, 3);
    for p in [a, b, c, d] {
        assert!(network.on_pbft_proposal(p, &early, None).is_ok());
    }
    // The highest view fails: its signer does not own the slot.
    let evidence = vec![good(0), good(3), good(2), good(3)];
    let event = network.on_blockchain_extended(&four_validators(31), &evidence);
    assert_eq!(event, Some(ValidatorNetworkEvent::PbftProposal(hash(12), c.message)));
    assert_eq!(network.state.pbft_states.len(), 1);
    assert_eq!(network.state.pbft_states[0].proposal, c);
}

#[test]
fn resolution_keeps_first_of_equal_views() {
    let mut network = node(1, 30);
    let early = four_validators(30);
    let a = proposal(10, 32, 4, 0);
    let b = proposal(11, 32, 4, 0);
    let c = proposal(12, 32, 1, 0);
    for p in [a, b, c] {
        assert!(network.on_pbft_proposal(p, &early, None).is_ok());
    }
    let event = network.on_blockchain_extended(&four_validators(31), &vec![good(0), good(0), good(0)]);
    assert_eq!(event, Some(ValidatorNetworkEvent::PbftProposal(hash(10), a.message)));
    assert_eq!(network.state.pbft_states.len(), 1);
    assert_eq!(network.state.pbft_states[0].block_hash, hash(10));
}

#[test]
fn resolution_prefers_later_block_number_at_equal_view() {
    let mut network = node(1, 30);
    let early = four_validators(30);
    let a = proposal(10, 32, 4, 0);
    let b = proposal(11, 64, 4, 0);
    let c = proposal(12, 32, 4, 0);
    for p in [a, b, c] {
        assert!(network.on_pbft_proposal(p, &early, None).is_ok());
    }
    let event = network.on_blockchain_extended(&four_validators(31), &vec![good(0), good(0), good(0)]);
    assert_eq!(event, Some(ValidatorNetworkEvent::PbftProposal(hash(11), b.message)));
    assert_eq!(network.state.pbft_states.len(), 1);
}

#[test]
fn resolution_with_no_survivor_empties_the_set() {
    let mut network = node(1, 30);
    let p = proposal(7, 32, 0, 0);
    assert!(network.on_pbft_proposal(p, &four_validators(30), None).is_ok());
    let bad = ProducerEvidence { producer_key: key(0), header_valid: false, signature_valid: true };
    assert_eq!(network.on_blockchain_extended(&four_validators(31), &vec![bad]), None);
    assert!(network.state.pbft_states.is_empty());
}

#[test]
fn collision() {
    let chain = four_validators(31);
    let mut network = node(1, 31);
    let p = proposal(7, 32, 2, 0);
    let q = proposal(8, 32, 2, 0);
    assert!(matches!(
        network.on_pbft_proposal(p, &chain, Some(good(0))),
        Ok(ProposalOutcome::Adopted { .. })
    ));
    let before = network.clone();
    assert_eq!(
        network.on_pbft_proposal(q, &chain, Some(good(0))),
        Err(ValidatorNetworkError::ProposalCollision)
    );
    assert_eq!(network, before);
}

#[test]
fn higher_view_replaces_and_lower_view_is_dropped() {
    let chain = four_validators(31);
    let mut network = node(1, 31);
    let low = proposal(7, 32, 1, 0);
    let high = proposal(8, 32, 3, 2);
    let middle = proposal(9, 32, 2, 1);
    assert!(matches!(network.on_pbft_proposal(low, &chain, Some(good(0))), Ok(ProposalOutcome::Adopted { .. })));
    assert!(matches!(network.on_pbft_proposal(high, &chain, Some(good(2))), Ok(ProposalOutcome::Adopted { .. })));
    assert_eq!(network.state.pbft_states.len(), 1);
    assert_eq!(network.state.pbft_states[0].proposal, high);
    assert_eq!(network.on_pbft_proposal(middle, &chain, Some(good(1))), Ok(ProposalOutcome::Outranked));
    assert_eq!(network.state.pbft_states.len(), 1);
    assert_eq!(network.state.pbft_states[0].proposal, high);
}

#[test]
fn known_proposal_is_ignored() {
    let chain = four_validators(31);
    let mut network = node(1, 31);
    let p = proposal(7, 32, 0, 0);
    assert!(network.on_pbft_proposal(p, &chain, Some(good(0))).is_ok());
    let before = network.clone();
    assert_eq!(network.start_pbft(p, &chain, Some(good(0))), Ok(ProposalOutcome::Known));
    assert_eq!(network, before);
}

#[test]
fn proposal_by_wrong_producer_is_invalid() {
    let chain = four_validators(31);
    let mut network = node(1, 31);
    // Signer 1 holds key 1, but key 0 owns the slot.
    let p = proposal(7, 32, 0, 1);
    assert_eq!(network.on_pbft_proposal(p, &chain, Some(good(0))), Err(ValidatorNetworkError::InvalidProposal));
    assert!(network.state.pbft_states.is_empty());
}

#[test]
fn proposal_with_unknown_signer_or_bad_header_or_signature_is_invalid() {
    let chain = four_validators(31);
    let mut network = node(1, 31);
    let outside = proposal(7, 32, 0, 4);
    assert_eq!(network.on_pbft_proposal(outside, &chain, Some(good(0))), Err(ValidatorNetworkError::InvalidProposal));
    let p = proposal(8, 32, 0, 0);
    let bad_header = ProducerEvidence { producer_key: key(0), header_valid: false, signature_valid: true };
    assert_eq!(network.on_pbft_proposal(p, &chain, Some(bad_header)), Err(ValidatorNetworkError::InvalidProposal));
    let bad_signature = ProducerEvidence { producer_key: key(0), header_valid: true, signature_valid: false };
    assert_eq!(network.on_pbft_proposal(p, &chain, Some(bad_signature)), Err(ValidatorNetworkError::InvalidProposal));
    assert!(network.state.pbft_states.is_empty());
}

#[test]
fn check_verified_reads_signer_and_evidence() {
    let validators = vec![key(0), key(1)];
    let state = PbftState::new(hash(7), proposal(7, 32, 0, 1));
    assert_eq!(state.block_hash, hash(7));
    assert_eq!(state.prepare_proof, None);
    assert_eq!(state.view_number(), 0);
    assert_eq!(state.block_number(), 32);
    assert!(state.check_verified(&validators, &good(1)));
    assert!(!state.check_verified(&validators, &good(0)));
    assert!(!state.check_verified(&vec![key(0)], &good(1)));
}

#[test]
fn prepare_completion_is_announced_once() {
    let chain = four_validators(31);
    let mut network = node(1, 31);
    let p = proposal(7, 32, 0, 0);
    assert!(network.on_pbft_proposal(p, &chain, Some(good(0))).is_ok());
    let first = proof_of(vec![0, 1, 2], 1);
    assert!(network.on_prepare_complete(hash(7), first.clone()).is_some());
    let before = network.clone();
    assert_eq!(network.on_prepare_complete(hash(7), proof_of(vec![1, 2, 3], 9)), None);
    assert_eq!(network, before);
    assert_eq!(network.state.pbft_states[0].prepare_proof, Some(first));
}

#[test]
fn completion_for_unknown_hash_is_dropped() {
    let mut network = node(1, 31);
    let before = network.clone();
    assert_eq!(network.on_prepare_complete(hash(9), proof_of(vec![0], 1)), None);
    assert_eq!(network.on_commit_complete(hash(9), proof_of(vec![0], 1)), None);
    assert_eq!(network, before);
}

#[test]
fn unknown_proposal_push() {
    let network = node(1, 31);
    let before = network.clone();
    let prepare = SignedPbftPrepareMessage { message: PbftPrepareMessage { block_hash: hash(9) }, signer_idx: 1 };
    let commit = SignedPbftCommitMessage { message: PbftCommitMessage { block_hash: hash(9) }, signer_idx: 1 };
    assert_eq!(network.push_prepare(&prepare), Err(ValidatorNetworkError::UnknownProposal));
    assert_eq!(network.push_commit(&commit), Err(ValidatorNetworkError::UnknownProposal));
    assert_eq!(network, before);
}

#[test]
fn level_updates_are_forwarded_for_known_hashes_only() {
    let chain = four_validators(31);
    let mut network = node(1, 31);
    let p = proposal(7, 32, 0, 0);
    assert!(network.on_pbft_proposal(p, &chain, Some(good(0))).is_ok());
    let known_prepare = LevelUpdateMessage { tag: PbftPrepareMessage { block_hash: hash(7) }, level: 1, origin: 2 };
    let other_prepare = LevelUpdateMessage { tag: PbftPrepareMessage { block_hash: hash(8) }, level: 1, origin: 2 };
    let known_commit = LevelUpdateMessage { tag: PbftCommitMessage { block_hash: hash(7) }, level: 1, origin: 2 };
    let other_commit = LevelUpdateMessage { tag: PbftCommitMessage { block_hash: hash(8) }, level: 1, origin: 2 };
    assert!(network.on_pbft_prepare_level_update(&known_prepare));
    assert!(!network.on_pbft_prepare_level_update(&other_prepare));
    assert!(network.on_pbft_commit_level_update(&known_commit));
    assert!(!network.on_pbft_commit_level_update(&other_commit));
    assert!(network.state.get_pbft_state(&hash(7)).is_some());
    assert!(network.state.get_pbft_state(&hash(8)).is_none());
}

#[test]
fn view_change_duplicate() {
    let mut network = node(1, 31);
    let tag = ViewChange { block_number: 32, new_view_number: 1 };
    let signed = SignedViewChange { message: tag, signer_idx: 1 };
    assert_eq!(network.start_view_change(signed), Ok(ViewChangeStart { tag, node_id: 1 }));
    assert_eq!(network.state.view_changes, vec![tag]);
    let before = network.clone();
    assert_eq!(network.start_view_change(signed), Err(ValidatorNetworkError::ViewChangeAlreadyExists(tag)));
    assert_eq!(network, before);
}

#[test]
fn view_change_updates_need_a_started_view_change() {
    let mut network = node(1, 31);
    let tag = ViewChange { block_number: 32, new_view_number: 1 };
    let other = ViewChange { block_number: 32, new_view_number: 2 };
    assert!(!network.on_view_change_level_update(&LevelUpdateMessage { tag, level: 0, origin: 3 }));
    assert!(network.start_view_change(SignedViewChange { message: tag, signer_idx: 1 }).is_ok());
    assert!(network.on_view_change_level_update(&LevelUpdateMessage { tag, level: 0, origin: 3 }));
    assert!(!network.on_view_change_level_update(&LevelUpdateMessage { tag: other, level: 0, origin: 3 }));
    assert!(network.has_view_change(&tag));
    assert!(!network.has_view_change(&other));
}

#[test]
fn view_change_completion_is_announced_with_its_proof() {
    let network = node(1, 31);
    let tag = ViewChange { block_number: 32, new_view_number: 1 };
    let proof = proof_of(vec![0, 2, 3], 5);
    assert_eq!(
        network.on_view_change_complete(tag, proof.clone()),
        ValidatorNetworkEvent::ViewChangeComplete(tag, proof)
    );
}

#[test]
fn finality_reset() {
    let mut network = node(1, 30);
    let early = four_validators(30);
    assert!(network.on_pbft_proposal(proposal(7, 32, 0, 0), &early, None).is_ok());
    assert!(network.on_pbft_proposal(proposal(8, 32, 1, 2), &early, None).is_ok());
    let tag = ViewChange { block_number: 32, new_view_number: 1 };
    assert!(network.start_view_change(SignedViewChange { message: tag, signer_idx: 1 }).is_ok());
    assert_eq!(network.state.pbft_states.len(), 2);
    assert_eq!(network.state.view_changes.len(), 1);

    network.on_finality(Some(2), &ChainView { height: 32, validators: Vec::new() });
    assert!(network.state.view_changes.is_empty());
    assert!(network.state.pbft_states.is_empty());
    assert!(network.state.active_validators.is_empty());
    assert_eq!(network.state.validator_id, Some(2));
}

#[test]
fn macro_blocks_stand_at_multiples_of_the_epoch_length() {
    assert!(is_macro_block_at(32, 32));
    assert!(is_macro_block_at(64, 32));
    assert!(is_macro_block_at(0, 32));
    assert!(!is_macro_block_at(31, 32));
    assert!(!is_macro_block_at(33, 32));
    assert!(is_macro_block_at(5, 1));
}

#[test]
fn error_descriptions() {
    let tag = ViewChange { block_number: 32, new_view_number: 1 };
    assert_eq!(ValidatorNetworkError::ViewChangeAlreadyExists(tag).description(), "View change already in progress");
    assert_eq!(ValidatorNetworkError::ProposalCollision.description(), "Already got another pBFT proposal at this view");
    assert_eq!(ValidatorNetworkError::UnknownProposal.description(), "Unknown pBFT proposal");
    assert_eq!(ValidatorNetworkError::InvalidProposal.description(), "Invalid pBFT proposal");
}

#[test]
fn agent_reports_go_to_their_handlers() {
    let chain = four_validators(31);
    let mut network = node(1, 31);
    let peer = PeerId { bytes: [3; 16] };
    network.on_peer_joined(&Peer { peer_id: peer, is_validator: true });

    let info = ValidatorInfo { peer_id: peer, public_key: key(3) };
    assert_eq!(network.on_agent_event(ValidatorAgentEvent::ValidatorInfo(info), &chain, None), AgentReaction::Done);
    assert_eq!(network.state.agents[0].validator_info, Some(info));
    assert_eq!(network.broadcast_all(), vec![peer]);

    let fork = ForkProof { header1: hash(1), header2: hash(2) };
    match network.on_agent_event(ValidatorAgentEvent::ForkProof(fork), &chain, None) {
        AgentReaction::ForkProof { event, relay } => {
            assert_eq!(event, ValidatorNetworkEvent::ForkProof(fork));
            assert_eq!(relay.message, Message::ForkProof(fork));
            assert_eq!(relay.recipients, vec![peer]);
        }
        other => panic!("unexpected reaction {:?}", other),
    }

    let tag = ViewChange { block_number: 32, new_view_number: 1 };
    let update = LevelUpdateMessage { tag, level: 2, origin: 3 };
    assert_eq!(network.on_agent_event(ValidatorAgentEvent::ViewChange(update), &chain, None), AgentReaction::Done);
    assert!(network.start_view_change(SignedViewChange { message: tag, signer_idx: 1 }).is_ok());
    assert_eq!(
        network.on_agent_event(ValidatorAgentEvent::ViewChange(update), &chain, None),
        AgentReaction::ViewChangeUpdate(update)
    );

    let prepare = LevelUpdateMessage { tag: PbftPrepareMessage { block_hash: hash(7) }, level: 0, origin: 0 };
    let commit = LevelUpdateMessage { tag: PbftCommitMessage { block_hash: hash(7) }, level: 0, origin: 0 };
    assert_eq!(network.on_agent_event(ValidatorAgentEvent::PbftPrepare(prepare), &chain, None), AgentReaction::Done);
    assert_eq!(network.on_agent_event(ValidatorAgentEvent::PbftCommit(commit), &chain, None), AgentReaction::Done);

    let p = proposal(7, 32, 0, 0);
    match network.on_agent_event(ValidatorAgentEvent::PbftProposal(p), &chain, Some(good(0))) {
        AgentReaction::Proposal(ProposalOutcome::Adopted { node_id, event, relay }) => {
            assert_eq!(node_id, 1);
            assert_eq!(event, ValidatorNetworkEvent::PbftProposal(hash(7), p.message));
            assert_eq!(relay.recipients, vec![peer]);
        }
        other => panic!("unexpected reaction {:?}", other),
    }
    assert_eq!(
        network.on_agent_event(ValidatorAgentEvent::PbftPrepare(prepare), &chain, None),
        AgentReaction::PrepareUpdate(prepare)
    );
    assert_eq!(
        network.on_agent_event(ValidatorAgentEvent::PbftCommit(commit), &chain, None),
        AgentReaction::CommitUpdate(commit)
    );
    let q = proposal(8, 32, 0, 0);
    assert_eq!(
        network.on_agent_event(ValidatorAgentEvent::PbftProposal(q), &chain, Some(good(0))),
        AgentReaction::Rejected(ValidatorNetworkError::ProposalCollision)
    );
    assert_eq!(
        network.on_agent_event(ValidatorAgentEvent::PbftProposal(p), &chain, Some(good(0))),
        AgentReaction::Proposal(ProposalOutcome::Known)
    );
}

#[test]
fn prepare_phase_is_announced_again_only_after_a_commit_completion() {
    let chain = four_validators(31);
    let mut network = node(1, 31);
    let p = proposal(7, 32, 0, 0);
    assert!(network.on_pbft_proposal(p, &chain, Some(good(0))).is_ok());
    let prepared = Some(ValidatorNetworkEvent::PbftPrepareComplete(hash(7), p.message));
    assert_eq!(network.on_prepare_complete(hash(7), proof_of(vec![0, 1, 2], 1)), prepared);
    assert_eq!(network.on_prepare_complete(hash(7), proof_of(vec![0, 1, 2], 2)), None);
    assert!(matches!(
        network.on_commit_complete(hash(7), proof_of(vec![0, 1, 3], 3)),
        Some(ValidatorNetworkEvent::PbftComplete(..))
    ));
    assert_eq!(network.state.pbft_states[0].prepare_proof, None);
    assert_eq!(network.on_prepare_complete(hash(7), proof_of(vec![0, 1, 2], 4)), prepared);
}
