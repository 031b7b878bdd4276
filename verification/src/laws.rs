//! What holds across calls of the coordinator, stated over the functions that
//! its contracts use.

use vstd::prelude::*;
use crate::pbft::{
    after_commit, after_prepare, all_below, awaits_prepare, holds_prepare, instance_of,
    is_blocker, is_winner, knows, lemma_instance_unique, pbft_set_wf, survives, PbftState,
    ProducerEvidence,
};
use crate::peers::{has_key, is_entry_of, peer_of_key, potential_wf, with_key, PotentialValidator};
use crate::primitives::{
    blake2b_256, AggregateProof, Blake2bHash, CompressedPublicKey, PeerId, SignedPbftProposal,
    ViewChange,
};
use crate::validator_network::{
    proposal_verdict, states_after_proposal, view_changes_after_start, ProposalVerdict,
};

verus! {

/// A verified, unknown proposal that arrives when the next block is a macro
/// block stands alone afterwards if its view is above every instance's.
/// Otherwise the set stays as it was, and the first instance at or above the
/// proposal's view decides: a collision at the same view, else the proposal
/// is dropped.
pub proof fn lemma_adopted_proposal_stands_alone(states: Seq<PbftState>, signed: SignedPbftProposal)
    requires
        !knows(states, signed.message.header.hash),
    ensures
        ({
            let view = signed.message.header.view_number;
            let verdict = proposal_verdict(states, signed, true, true);
            let after = states_after_proposal(states, signed, verdict);
            &&& all_below(states, view) ==> verdict == ProposalVerdict::Adopted && after == seq![
                PbftState::fresh(signed.message.header.hash, signed),
            ]
            &&& !all_below(states, view) ==> after == states && (verdict
                == ProposalVerdict::Collision || verdict == ProposalVerdict::Outranked)
            &&& forall|k: int|
                is_blocker(states, view, k) ==> (verdict == ProposalVerdict::Collision
                    <==> states[k].view_number() == view)
        }),
{
    let view = signed.message.header.view_number;
    if all_below(states, view) {
        assert forall|k: int| !is_blocker(states, view, k) by {
            if is_blocker(states, view, k) {
                assert(states[k].view_number() < view);
            }
        }
    } else {
        let k = lemma_first_blocker_exists(states, view);
        assert(is_blocker(states, view, k));
    }
    assert forall|a: int, b: int| is_blocker(states, view, a) && is_blocker(states, view, b) implies a
        == b by {
        if a < b {
            assert(states[a].view_number() < view);
        } else if b < a {
            assert(states[b].view_number() < view);
        }
    }
}

/// Where some instance stands at or above `view`, one of them is the first.
pub proof fn lemma_first_blocker_exists(states: Seq<PbftState>, view: u32) -> (k: int)
    requires
        !all_below(states, view),
    ensures
        is_blocker(states, view, k),
    decreases states.len(),
{
    let j = choose|j: int| 0 <= j < states.len() && !((#[trigger] states[j]).view_number() < view);
    let front = states.take(j);
    if all_below(front, view) {
        assert forall|i: int| 0 <= i < j implies (#[trigger] states[i]).view_number() < view by {
            assert(front[i] == states[i]);
        }
        j
    } else {
        let k = lemma_first_blocker_exists(front, view);
        assert(states[k] == front[k]);
        assert forall|i: int| 0 <= i < k implies (#[trigger] states[i]).view_number() < view by {
            assert(front[i] == states[i]);
        }
        k
    }
}

/// The set stays well-formed when a prepare phase completes, and the
/// instance under the hash stays where it was.
pub proof fn lemma_prepare_keeps_wf(states: Seq<PbftState>, hash: Blake2bHash, proof: AggregateProof)
    requires
        pbft_set_wf(states),
    ensures
        pbft_set_wf(after_prepare(states, hash, proof)),
        knows(after_prepare(states, hash, proof), hash) == knows(states, hash),
        knows(states, hash) ==> instance_of(after_prepare(states, hash, proof), hash) == instance_of(
            states,
            hash,
        ),
{
    if knows(states, hash) {
        let i = instance_of(states, hash);
        let prepared = after_prepare(states, hash, proof);
        assert(prepared[i].block_hash == hash);
        assert forall|a: int| 0 <= a < states.len() implies (#[trigger] prepared[a]).block_hash
            == states[a].block_hash && prepared[a].proposal == states[a].proposal by {}
        assert(pbft_set_wf(prepared));
        lemma_instance_unique(prepared, hash, i);
    } else {
        assert(after_prepare(states, hash, proof) == states);
    }
}

/// The set stays well-formed when a commit phase completes, and the instance
/// under the hash stays where it was.
pub proof fn lemma_commit_keeps_wf(states: Seq<PbftState>, hash: Blake2bHash)
    requires
        pbft_set_wf(states),
    ensures
        pbft_set_wf(after_commit(states, hash)),
        knows(after_commit(states, hash), hash) == knows(states, hash),
        knows(states, hash) ==> instance_of(after_commit(states, hash), hash) == instance_of(
            states,
            hash,
        ),
{
    if knows(states, hash) {
        let i = instance_of(states, hash);
        let committed = after_commit(states, hash);
        assert(committed[i].block_hash == hash);
        assert forall|a: int| 0 <= a < states.len() implies (#[trigger] committed[a]).block_hash
            == states[a].block_hash && committed[a].proposal == states[a].proposal by {}
        assert(pbft_set_wf(committed));
        lemma_instance_unique(committed, hash, i);
    } else {
        assert(after_commit(states, hash) == states);
    }
}

/// The completion of a prepare phase is announced once: after an announced
/// completion the instance holds its proof, so that a further completion for
/// the same hash finds nothing to announce and changes nothing.
pub proof fn lemma_prepare_announced_once(
    states: Seq<PbftState>,
    hash: Blake2bHash,
    first: AggregateProof,
    second: AggregateProof,
)
    requires
        pbft_set_wf(states),
        awaits_prepare(states, hash),
    ensures
        holds_prepare(after_prepare(states, hash, first), hash),
        !awaits_prepare(after_prepare(states, hash, first), hash),
        after_prepare(after_prepare(states, hash, first), hash, second) == after_prepare(
            states,
            hash,
            first,
        ),
{
    lemma_prepare_keeps_wf(states, hash, first);
}

/// An instance is born without a prepare proof: the completion of its commit
/// phase is not admitted before the completion of its prepare phase.
pub proof fn lemma_born_awaits_prepare(
    states: Seq<PbftState>,
    signed: SignedPbftProposal,
    verdict: ProposalVerdict,
)
    requires
        pbft_set_wf(states),
        !knows(states, signed.message.header.hash),
        verdict == ProposalVerdict::Buffered || verdict == ProposalVerdict::Adopted,
    ensures
        pbft_set_wf(states_after_proposal(states, signed, verdict)),
        awaits_prepare(states_after_proposal(states, signed, verdict), signed.message.header.hash),
        !holds_prepare(states_after_proposal(states, signed, verdict), signed.message.header.hash),
{
    let hash = signed.message.header.hash;
    let after = states_after_proposal(states, signed, verdict);
    let last = after.len() - 1;
    assert(after[last] == PbftState::fresh(hash, signed));
    assert forall|i: int, j: int| 0 <= i < j < after.len() implies (#[trigger] after[i]).block_hash
        != (#[trigger] after[j]).block_hash by {
        if j == last {
            assert(after[i] == states[i]);
        }
    }
    lemma_instance_unique(after, hash, last);
}

/// The completion of a commit phase is announced once for each completed
/// prepare phase: it takes the prepare proof away, so that no further
/// completion of the commit phase is admitted until the prepare phase of the
/// instance completes again.
pub proof fn lemma_commit_consumes_prepare(states: Seq<PbftState>, hash: Blake2bHash)
    requires
        pbft_set_wf(states),
        holds_prepare(states, hash),
    ensures
        !holds_prepare(after_commit(states, hash), hash),
        awaits_prepare(after_commit(states, hash), hash),
{
    lemma_commit_keeps_wf(states, hash);
}

/// A completion that an aggregation of one proposal reports.
pub enum Completion {
    Prepare(AggregateProof),
    Commit(AggregateProof),
}

/// What the coordinator announces for one proposal when a phase completes.
pub enum Announcement {
    PrepareComplete,
    Complete,
}

/// The coordinator admits the completions of `trace` for `hash`, one after
/// the other: each completion of the commit phase finds the prepare proof
/// that it takes.
pub open spec fn admits(states: Seq<PbftState>, hash: Blake2bHash, trace: Seq<Completion>) -> bool
    decreases trace.len(),
{
    if trace.len() == 0 {
        true
    } else {
        match trace[0] {
            Completion::Prepare(proof) => admits(
                after_prepare(states, hash, proof),
                hash,
                trace.drop_first(),
            ),
            Completion::Commit(_) => {
                &&& knows(states, hash) ==> holds_prepare(states, hash)
                &&& admits(after_commit(states, hash), hash, trace.drop_first())
            },
        }
    }
}

/// What the coordinator announces for `hash`, in order, while it handles the
/// completions of `trace`.
pub open spec fn announcements(
    states: Seq<PbftState>,
    hash: Blake2bHash,
    trace: Seq<Completion>,
) -> Seq<Announcement>
    decreases trace.len(),
{
    if trace.len() == 0 {
        Seq::empty()
    } else {
        match trace[0] {
            Completion::Prepare(proof) => {
                let rest = announcements(
                    after_prepare(states, hash, proof),
                    hash,
                    trace.drop_first(),
                );
                if awaits_prepare(states, hash) {
                    seq![Announcement::PrepareComplete] + rest
                } else {
                    rest
                }
            },
            Completion::Commit(_) => {
                let rest = announcements(after_commit(states, hash), hash, trace.drop_first());
                if knows(states, hash) {
                    seq![Announcement::Complete] + rest
                } else {
                    rest
                }
            },
        }
    }
}

/// Over any admitted run of completions the announcements for one proposal
/// alternate: a completed prepare phase is announced once before each
/// announcement of the completed proposal, and the completed proposal once
/// after each. The run begins with the prepare phase exactly if the instance
/// awaits it.
pub proof fn lemma_announcements_alternate(
    states: Seq<PbftState>,
    hash: Blake2bHash,
    trace: Seq<Completion>,
)
    requires
        pbft_set_wf(states),
        admits(states, hash, trace),
    ensures
        ({
            let announced = announcements(states, hash, trace);
            &&& forall|i: int|
                0 <= i < announced.len() - 1 ==> #[trigger] announced[i] != announced[i + 1]
            &&& announced.len() > 0 ==> (announced[0] == Announcement::PrepareComplete
                <==> awaits_prepare(states, hash))
            &&& announced.len() > 0 ==> knows(states, hash)
        }),
    decreases trace.len(),
{
    if trace.len() > 0 {
        let announced = announcements(states, hash, trace);
        match trace[0] {
            Completion::Prepare(proof) => {
                let next = after_prepare(states, hash, proof);
                let rest = announcements(next, hash, trace.drop_first());
                lemma_prepare_keeps_wf(states, hash, proof);
                lemma_announcements_alternate(next, hash, trace.drop_first());
                if awaits_prepare(states, hash) {
                    lemma_prepare_announced_once(states, hash, proof, proof);
                    assert(announced == seq![Announcement::PrepareComplete] + rest);
                    assert forall|i: int| 0 <= i < announced.len() - 1 implies #[trigger] announced[i]
                        != announced[i + 1] by {
                        if i > 0 {
                            assert(announced[i] == rest[i - 1]);
                            assert(announced[i + 1] == rest[i - 1 + 1]);
                        } else {
                            assert(announced[1] == rest[0]);
                        }
                    }
                } else {
                    assert(next == states);
                }
            },
            Completion::Commit(_) => {
                let next = after_commit(states, hash);
                let rest = announcements(next, hash, trace.drop_first());
                lemma_commit_keeps_wf(states, hash);
                lemma_announcements_alternate(next, hash, trace.drop_first());
                if knows(states, hash) {
                    lemma_commit_consumes_prepare(states, hash);
                    assert(announced == seq![Announcement::Complete] + rest);
                    assert forall|i: int| 0 <= i < announced.len() - 1 implies #[trigger] announced[i]
                        != announced[i + 1] by {
                        if i > 0 {
                            assert(announced[i] == rest[i - 1]);
                            assert(announced[i + 1] == rest[i - 1 + 1]);
                        } else {
                            assert(announced[1] == rest[0]);
                        }
                    }
                } else {
                    assert(next == states);
                }
            },
        }
    }
}

/// When buffered proposals are resolved, the instance that remains survived
/// verification and no survivor has a higher view.
pub proof fn lemma_winner_has_max_view(
    states: Seq<PbftState>,
    validators: Seq<CompressedPublicKey>,
    evidence: Seq<ProducerEvidence>,
    w: int,
)
    requires
        is_winner(states, validators, evidence, w),
    ensures
        survives(states, validators, evidence, w),
        forall|k: int| #[trigger]
            survives(states, validators, evidence, k) ==> states[k].view_number()
                <= states[w].view_number(),
{
}

/// Resolving a set that was resolved before, with evidence that its one
/// instance still passes, keeps that instance.
pub proof fn lemma_resolved_set_is_stable(
    state: PbftState,
    validators: Seq<CompressedPublicKey>,
    evidence: ProducerEvidence,
)
    requires
        state.verified_by(validators, evidence),
    ensures
        is_winner(seq![state], validators, seq![evidence], 0),
{
    let states = seq![state];
    let given = seq![evidence];
    assert(survives(states, validators, given, 0));
}

/// A key belongs to the peer that advertised it last: after an accepted
/// advertisement the key's entry names its sender, every other key keeps its
/// peer, and still no key has two entries.
pub proof fn lemma_last_writer_holds_key(
    potential: Seq<PotentialValidator>,
    key: CompressedPublicKey,
    peer_id: PeerId,
    other: CompressedPublicKey,
)
    requires
        potential_wf(potential),
    ensures
        potential_wf(with_key(potential, key, peer_id)),
        peer_of_key(with_key(potential, key, peer_id), key) == Some(peer_id),
        other != key ==> peer_of_key(with_key(potential, key, peer_id), other) == peer_of_key(
            potential,
            other,
        ),
{
    let after = with_key(potential, key, peer_id);
    let at = if exists|i: int| is_entry_of(potential, key, i) {
        choose|i: int| is_entry_of(potential, key, i)
    } else {
        potential.len() as int
    };
    assert(after[at] == PotentialValidator { public_key: key, peer_id });
    assert forall|i: int| 0 <= i < after.len() && i != at implies (#[trigger] after[i])
        == potential[i] && after[i].public_key != key by {
        if exists|c: int| is_entry_of(potential, key, c) {
            if i < at {
                assert(potential[i].public_key != potential[at].public_key);
            } else {
                assert(potential[at].public_key != potential[i].public_key);
            }
        } else {
            lemma_first_entry_exists(potential, key);
        }
    }
    assert(potential_wf(after)) by {
        assert forall|i: int, j: int| 0 <= i < j < after.len() implies (#[trigger] after[i]).public_key
            != (#[trigger] after[j]).public_key by {
            if i != at && j != at {
                assert(potential[i].public_key != potential[j].public_key);
            }
        }
    }
    assert(is_entry_of(after, key, at));
    lemma_entry_unique(after, key, at);
    if other != key {
        assert forall|c: int| is_entry_of(after, other, c) <==> is_entry_of(potential, other, c) by {
            if is_entry_of(after, other, c) {
                assert(c != at);
                assert forall|j: int| 0 <= j < c implies (#[trigger] potential[j]).public_key
                    != other by {
                    assert(after[j].public_key != other);
                    if j != at {
                        assert(after[j] == potential[j]);
                    } else {
                        assert(at < potential.len());
                    }
                }
            }
            if is_entry_of(potential, other, c) {
                assert(c != at);
                assert(after[c] == potential[c]);
                assert forall|j: int| 0 <= j < c implies (#[trigger] after[j]).public_key
                    != other by {
                    if j != at {
                        assert(after[j] == potential[j]);
                    }
                }
            }
        }
        if exists|c: int| is_entry_of(potential, other, c) {
            let c = choose|c: int| is_entry_of(potential, other, c);
            assert(is_entry_of(after, other, c));
            lemma_entry_unique(after, other, c);
            assert(after[c] == potential[c]);
        }
    }
}

/// A key that has an entry has a first entry.
pub proof fn lemma_first_entry_exists(potential: Seq<PotentialValidator>, key: CompressedPublicKey)
    ensures
        (exists|i: int| is_entry_of(potential, key, i)) <==> has_key(potential, key),
    decreases potential.len(),
{
    if has_key(potential, key) {
        let j = choose|j: int| 0 <= j < potential.len() && (#[trigger] potential[j]).public_key == key;
        let front = potential.take(j);
        lemma_first_entry_exists(front, key);
        if has_key(front, key) {
            let i = choose|i: int| is_entry_of(front, key, i);
            assert(potential[i] == front[i]);
            assert forall|k: int| 0 <= k < i implies (#[trigger] potential[k]).public_key != key by {
                assert(front[k] == potential[k]);
            }
            assert(is_entry_of(potential, key, i));
        } else {
            assert forall|k: int| 0 <= k < j implies (#[trigger] potential[k]).public_key != key by {
                assert(front[k] == potential[k]);
            }
            assert(is_entry_of(potential, key, j));
        }
    }
}

/// The first entry of a key is the one that the table answers with.
pub proof fn lemma_entry_unique(potential: Seq<PotentialValidator>, key: CompressedPublicKey, i: int)
    requires
        is_entry_of(potential, key, i),
    ensures
        peer_of_key(potential, key) == Some(potential[i].peer_id),
{
    let c = choose|c: int| is_entry_of(potential, key, c);
    if c < i {
        assert(potential[c].public_key != key);
    } else if i < c {
        assert(potential[i].public_key != key);
    }
}

/// Two nodes that take the digest of the same header encoding file the
/// proposal under the same hash.
pub proof fn lemma_same_encoding_same_hash(sent: Blake2bHash, received: Blake2bHash, encoding: Seq<u8>)
    requires
        sent.bytes@ == blake2b_256(encoding),
        received.bytes@ == blake2b_256(encoding),
    ensures
        sent == received,
{
    assert(sent.bytes =~= received.bytes);
}

/// Starting a view change twice: after the first start the tag is running,
/// so the second start is refused, and refusing leaves the running view
/// changes as they were.
pub proof fn lemma_view_change_started_once(tags: Seq<ViewChange>, tag: ViewChange)
    requires
        tags.no_duplicates(),
    ensures
        view_changes_after_start(tags, tag).contains(tag),
        view_changes_after_start(tags, tag).no_duplicates(),
        view_changes_after_start(view_changes_after_start(tags, tag), tag)
            == view_changes_after_start(tags, tag),
{
    if !tags.contains(tag) {
        let after = tags.push(tag);
        assert(after[after.len() - 1] == tag);
        assert forall|i: int, j: int| 0 <= i < after.len() && 0 <= j < after.len() && i != j implies after[i]
            != after[j] by {
            if i < tags.len() {
                assert(tags.contains(tags[i]));
            }
            if j < tags.len() {
                assert(tags.contains(tags[j]));
            }
        }
    }
}

} // verus!
