//! State behind the node's JSON-RPC methods.

use vstd::prelude::*;

verus! {

/// What the RPC methods read of the consensus: the number of the chain's head
/// and the number of connected peers.
#[derive(Clone, Copy, Debug, PartialEq, Eq)]
pub struct ConsensusSnapshot {
    pub height: u32,
    pub peer_count: usize,
}

/// Answers RPC calls from a snapshot of the consensus.
#[derive(Clone, Copy, Debug, PartialEq, Eq)]
pub struct JsonRpcHandler {
    pub consensus: ConsensusSnapshot,
    pub consensus_state: &'static str,
}

impl JsonRpcHandler {
    /// A handler over `consensus`; a node starts out syncing.
    pub fn new(consensus: ConsensusSnapshot) -> (handler: JsonRpcHandler)
        ensures
            handler.consensus == consensus,
            handler.consensus_state@ == "syncing"@,
    {
        JsonRpcHandler { consensus, consensus_state: "syncing" }
    }

    /// Number of the chain's head block.
    pub fn block_number(&self) -> (number: u32)
        ensures
            number == self.consensus.height,
    {
        self.consensus.height
    }

    /// Number of connected peers.
    pub fn peer_count(&self) -> (count: usize)
        ensures
            count == self.consensus.peer_count,
    {
        self.consensus.peer_count
    }

    /// Name of the consensus state.
    pub fn consensus(&self) -> (state: &'static str)
        ensures
            state@ == self.consensus_state@,
    {
        self.consensus_state
    }
}

} // verus!
