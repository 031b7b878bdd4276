//! The peer and validator table: who is connected, which key belongs to whom,
//! and who holds which validator index in the current epoch.

use vstd::prelude::*;
use crate::primitives::{CompressedPublicKey, PeerId, ValidatorInfo};

verus! {

/// Upper bound on the advertisements sent to a peer that joins, not counting
/// this node's own.
pub const MAX_VALIDATOR_INFOS: usize = 64;

/// Per-peer state, kept while the peer is connected.
#[derive(Clone, Copy, Debug, PartialEq, Eq)]
pub struct ValidatorAgent {
    pub peer_id: PeerId,
    /// The advertisement last accepted from this peer.
    pub validator_info: Option<ValidatorInfo>,
}

/// A peer that has advertised a BLS key.
#[derive(Clone, Copy, Debug, PartialEq, Eq)]
pub struct PotentialValidator {
    pub public_key: CompressedPublicKey,
    pub peer_id: PeerId,
}

/// No peer has two agents.
pub open spec fn agents_wf(agents: Seq<ValidatorAgent>) -> bool {
    forall|i: int, j: int|
        0 <= i < j < agents.len() ==> (#[trigger] agents[i]).peer_id != (#[trigger] agents[j]).peer_id
}

/// No key is advertised by two entries.
pub open spec fn potential_wf(potential: Seq<PotentialValidator>) -> bool {
    forall|i: int, j: int|
        0 <= i < j < potential.len() ==> (#[trigger] potential[i]).public_key != (
        #[trigger] potential[j]).public_key
}

pub open spec fn has_agent(agents: Seq<ValidatorAgent>, peer_id: PeerId) -> bool {
    exists|i: int| 0 <= i < agents.len() && (#[trigger] agents[i]).peer_id == peer_id
}

/// `i` is the first entry that advertises `key`.
pub open spec fn is_entry_of(potential: Seq<PotentialValidator>, key: CompressedPublicKey, i: int) -> bool {
    &&& 0 <= i < potential.len()
    &&& potential[i].public_key == key
    &&& forall|j: int| 0 <= j < i ==> (#[trigger] potential[j]).public_key != key
}

pub open spec fn has_key(potential: Seq<PotentialValidator>, key: CompressedPublicKey) -> bool {
    exists|i: int| 0 <= i < potential.len() && (#[trigger] potential[i]).public_key == key
}

/// The peer that advertises `key`, if any does.
pub open spec fn peer_of_key(potential: Seq<PotentialValidator>, key: CompressedPublicKey) -> Option<
    PeerId,
> {
    if exists|i: int| is_entry_of(potential, key, i) {
        Some(potential[choose|i: int| is_entry_of(potential, key, i)].peer_id)
    } else {
        None
    }
}

/// The table after `peer_id` has advertised `key`: the key's entry now names
/// this peer, and a key not seen before is added at the end.
pub open spec fn with_key(
    potential: Seq<PotentialValidator>,
    key: CompressedPublicKey,
    peer_id: PeerId,
) -> Seq<PotentialValidator> {
    let entry = PotentialValidator { public_key: key, peer_id };
    if exists|i: int| is_entry_of(potential, key, i) {
        potential.update(choose|i: int| is_entry_of(potential, key, i), entry)
    } else {
        potential.push(entry)
    }
}

/// Position of the agent of `peer_id`, where the peer has one.
pub open spec fn agent_index(agents: Seq<ValidatorAgent>, peer_id: PeerId) -> int {
    choose|i: int| 0 <= i < agents.len() && (#[trigger] agents[i]).peer_id == peer_id
}

/// The agents after `peer_id` has joined: the peer has a new agent without an
/// advertisement, in the place of its former agent if it had one.
pub open spec fn with_agent(agents: Seq<ValidatorAgent>, peer_id: PeerId) -> Seq<ValidatorAgent> {
    let agent = ValidatorAgent { peer_id, validator_info: None };
    if has_agent(agents, peer_id) {
        agents.update(agent_index(agents, peer_id), agent)
    } else {
        agents.push(agent)
    }
}

/// The agents after `peer_id` has left.
pub open spec fn without_agent(agents: Seq<ValidatorAgent>, peer_id: PeerId) -> Seq<
    ValidatorAgent,
> {
    if has_agent(agents, peer_id) {
        agents.remove(agent_index(agents, peer_id))
    } else {
        agents
    }
}

/// The advertisement comes from a connected peer and brings a key other than
/// the one that the peer's agent holds.
pub open spec fn accepts_info(agents: Seq<ValidatorAgent>, info: ValidatorInfo) -> bool {
    &&& has_agent(agents, info.peer_id)
    &&& match agents[agent_index(agents, info.peer_id)].validator_info {
        Some(current) => current.public_key != info.public_key,
        None => true,
    }
}

/// The agents after an accepted advertisement: its sender's agent holds it.
pub open spec fn with_info(agents: Seq<ValidatorAgent>, info: ValidatorInfo) -> Seq<ValidatorAgent> {
    agents.update(
        agent_index(agents, info.peer_id),
        ValidatorAgent { peer_id: info.peer_id, validator_info: Some(info) },
    )
}

/// Among well-formed agents the agent of a peer is the only one of that peer.
pub proof fn lemma_agent_unique(agents: Seq<ValidatorAgent>, peer_id: PeerId, i: int)
    requires
        agents_wf(agents),
        0 <= i < agents.len(),
        agents[i].peer_id == peer_id,
    ensures
        has_agent(agents, peer_id),
        agent_index(agents, peer_id) == i,
{
    let c = agent_index(agents, peer_id);
    if c < i {
        assert(agents[c].peer_id != agents[i].peer_id);
    } else if i < c {
        assert(agents[i].peer_id != agents[c].peer_id);
    }
}

/// The peers that a broadcast reaches: every entry of the table, in its order.
pub open spec fn recipients(potential: Seq<PotentialValidator>) -> Seq<PeerId> {
    Seq::new(potential.len(), |i: int| potential[i].peer_id)
}

/// The validator index table of an epoch: for each validator group of the
/// chain, in order, the peer that advertises its key, if one is known.
pub open spec fn active_table(
    potential: Seq<PotentialValidator>,
    validators: Seq<CompressedPublicKey>,
) -> Seq<Option<PeerId>> {
    Seq::new(validators.len(), |i: int| peer_of_key(potential, validators[i]))
}

/// The advertisements that the agents hold, in the agents' order.
pub open spec fn known_infos(agents: Seq<ValidatorAgent>) -> Seq<ValidatorInfo>
    decreases agents.len(),
{
    if agents.len() == 0 {
        Seq::empty()
    } else {
        let rest = known_infos(agents.drop_last());
        match agents.last().validator_info {
            Some(info) => rest.push(info),
            None => rest,
        }
    }
}

/// At most `limit` of the known advertisements, the earliest first.
pub open spec fn capped_infos(agents: Seq<ValidatorAgent>, limit: int) -> Seq<ValidatorInfo> {
    let known = known_infos(agents);
    if known.len() > limit {
        known.take(limit)
    } else {
        known
    }
}

/// What the agents before position `i` hold is the beginning of what all hold.
pub proof fn lemma_known_infos_prefix(agents: Seq<ValidatorAgent>, i: int)
    requires
        0 <= i <= agents.len(),
    ensures
        known_infos(agents.take(i)).len() <= known_infos(agents).len(),
        known_infos(agents.take(i)) == known_infos(agents).take(
            known_infos(agents.take(i)).len() as int,
        ),
    decreases agents.len(),
{
    if i == agents.len() {
        assert(agents.take(i) =~= agents);
        assert(known_infos(agents).take(known_infos(agents).len() as int) =~= known_infos(agents));
    } else {
        lemma_known_infos_prefix(agents.drop_last(), i);
        assert(agents.drop_last().take(i) =~= agents.take(i));
        let part = known_infos(agents.take(i));
        let rest = known_infos(agents.drop_last());
        assert(part =~= known_infos(agents).take(part.len() as int)) by {
            assert(part == rest.take(part.len() as int));
        }
    }
}

/// Finds the agent of `peer_id`.
pub fn agent_position(agents: &Vec<ValidatorAgent>, peer_id: &PeerId) -> (found: Option<usize>)
    ensures
        match found {
            Some(i) => i < agents.len() && agents[i as int].peer_id == *peer_id && forall|j: int|
                0 <= j < i ==> (#[trigger] agents[j]).peer_id != *peer_id,
            None => !has_agent(agents@, *peer_id),
        },
{
    let mut i: usize = 0;
    while i < agents.len()
        invariant
            i <= agents.len(),
            forall|j: int| 0 <= j < i ==> (#[trigger] agents[j]).peer_id != *peer_id,
        decreases agents.len() - i,
    {
        if agents[i].peer_id.equals(peer_id) {
            return Some(i);
        }
        i += 1;
    }
    None
}

/// Finds the first entry that advertises `key`.
pub fn key_position(potential: &Vec<PotentialValidator>, key: &CompressedPublicKey) -> (found: Option<
    usize,
>)
    ensures
        match found {
            Some(i) => {
                &&& is_entry_of(potential@, *key, i as int)
                &&& i as int == choose|i: int| is_entry_of(potential@, *key, i)
                &&& peer_of_key(potential@, *key) == Some(potential[i as int].peer_id)
            },
            None => {
                &&& !has_key(potential@, *key)
                &&& !exists|i: int| is_entry_of(potential@, *key, i)
                &&& peer_of_key(potential@, *key) == None::<PeerId>
            },
        },
{
    let mut i: usize = 0;
    while i < potential.len()
        invariant
            i <= potential.len(),
            forall|j: int| 0 <= j < i ==> (#[trigger] potential[j]).public_key != *key,
        decreases potential.len() - i,
    {
        if potential[i].public_key.equals(key) {
            proof {
                assert(is_entry_of(potential@, *key, i as int));
                let c = choose|c: int| is_entry_of(potential@, *key, c);
                assert(is_entry_of(potential@, *key, c));
                assert(c == i) by {
                    if c < i {
                        assert(potential[c].public_key != *key);
                    } else if i < c {
                        assert(potential[i as int].public_key != *key);
                    }
                }
            }
            return Some(i);
        }
        i += 1;
    }
    proof {
        assert forall|c: int| !is_entry_of(potential@, *key, c) by {
            if is_entry_of(potential@, *key, c) {
                assert(potential[c].public_key != *key);
            }
        }
    }
    None
}

/// Collects the advertisements that the agents hold, `limit` at most.
pub fn collect_infos(agents: &Vec<ValidatorAgent>, limit: usize) -> (infos: Vec<ValidatorInfo>)
    ensures
        infos@ == capped_infos(agents@, limit as int),
{
    let mut infos: Vec<ValidatorInfo> = Vec::new();
    let mut i: usize = 0;
    assert(agents@.take(0) =~= Seq::<ValidatorAgent>::empty());
    while i < agents.len() && infos.len() < limit
        invariant
            i <= agents.len(),
            infos.len() <= limit,
            infos@ == known_infos(agents@.take(i as int)),
        decreases agents.len() - i,
    {
        assert(agents@.take(i + 1).drop_last() =~= agents@.take(i as int));
        match agents[i].validator_info {
            Some(info) => {
                infos.push(info);
            },
            None => {},
        }
        i += 1;
    }
    proof {
        lemma_known_infos_prefix(agents@, i as int);
        if i == agents.len() {
            assert(agents@.take(i as int) =~= agents@);
        }
    }
    infos
}

/// Lists the peers that a broadcast reaches.
pub fn recipients_of(potential: &Vec<PotentialValidator>) -> (peers: Vec<PeerId>)
    ensures
        peers@ == recipients(potential@),
{
    let mut peers: Vec<PeerId> = Vec::new();
    let mut i: usize = 0;
    while i < potential.len()
        invariant
            i <= potential.len(),
            peers.len() == i,
            forall|j: int| 0 <= j < i ==> peers[j] == (#[trigger] potential[j]).peer_id,
        decreases potential.len() - i,
    {
        peers.push(potential[i].peer_id);
        i += 1;
    }
    assert(peers@ =~= recipients(potential@));
    peers
}

/// Builds the validator index table of an epoch.
pub fn build_active(
    potential: &Vec<PotentialValidator>,
    validators: &Vec<CompressedPublicKey>,
) -> (active: Vec<Option<PeerId>>)
    ensures
        active@ == active_table(potential@, validators@),
{
    let mut active: Vec<Option<PeerId>> = Vec::new();
    let mut i: usize = 0;
    while i < validators.len()
        invariant
            i <= validators.len(),
            active.len() == i,
            forall|j: int|
                0 <= j < i ==> active[j] == peer_of_key(potential@, #[trigger] validators[j]),
        decreases validators.len() - i,
    {
        let entry = match key_position(potential, &validators[i]) {
            Some(k) => Some(potential[k].peer_id),
            None => None,
        };
        active.push(entry);
        i += 1;
    }
    assert(active@ =~= active_table(potential@, validators@));
    active
}

} // verus!
