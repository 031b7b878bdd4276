//! Consensus coordinator of a proof-of-stake validator: peer table, view-change
//! bookkeeping and pBFT proposal selection, as a verified state machine.

pub mod laws;
pub mod pbft;
pub mod peers;
pub mod primitives;
pub mod rpc;
pub mod validator_network;
