//! Plain values that the coordinator reads: identities, tags and messages.
//!
//! Signatures, headers and proofs are carried only as far as the coordinator
//! inspects them; everything cryptographic is settled before a value of these
//! types is built.

use vstd::prelude::*;

verus! {

/// 32-byte Blake2b digest of a macro block header.
#[derive(Clone, Copy, Debug, PartialEq, Eq)]
pub struct Blake2bHash {
    pub bytes: [u8; 32],
}

/// The 32-byte BLAKE2b digest of `data`, without a key.
pub uninterp spec fn blake2b_256(data: Seq<u8>) -> Seq<u8>;

/// Calls `blake2_rfc::blake2b::blake2b` with the digest's length of 32 bytes,
/// an empty key and `data`, and copies out the bytes of its result. Believed,
/// not proved: the result has as many bytes as were asked for, and they are
/// the BLAKE2b digest of the data and depend on nothing else.
#[verifier::external_body]
fn blake2b_digest(data: &Vec<u8>) -> (digest: [u8; 32])
    ensures
        digest@ == blake2b_256(data@),
{
    let mut digest = [0u8; 32];
    let result = blake2_rfc::blake2b::blake2b(digest.len(), &[], data.as_slice());
    digest.copy_from_slice(result.as_bytes());
    digest
}

impl Blake2bHash {
    /// Hashes `data`.
    pub fn digest(data: &Vec<u8>) -> (hash: Blake2bHash)
        ensures
            hash.bytes@ == blake2b_256(data@),
    {
        Blake2bHash { bytes: blake2b_digest(data) }
    }

    /// Byte-wise equality of two digests.
    pub fn equals(&self, other: &Blake2bHash) -> (same: bool)
        ensures
            same == (*self == *other),
    {
        let mut i: usize = 0;
        while i < 32
            invariant
                i <= 32,
                forall|j: int| 0 <= j < i ==> self.bytes[j] == other.bytes[j],
            decreases 32 - i,
        {
            if self.bytes[i] != other.bytes[i] {
                return false;
            }
            i += 1;
        }
        assert(self.bytes =~= other.bytes);
        true
    }
}

/// Compressed BLS public key of a validator.
#[derive(Clone, Copy, Debug, PartialEq, Eq)]
pub struct CompressedPublicKey {
    pub bytes: [u8; 96],
}

impl CompressedPublicKey {
    /// Byte-wise equality of two keys.
    pub fn equals(&self, other: &CompressedPublicKey) -> (same: bool)
        ensures
            same == (*self == *other),
    {
        let mut i: usize = 0;
        while i < 96
            invariant
                i <= 96,
                forall|j: int| 0 <= j < i ==> self.bytes[j] == other.bytes[j],
            decreases 96 - i,
        {
            if self.bytes[i] != other.bytes[i] {
                return false;
            }
            i += 1;
        }
        assert(self.bytes =~= other.bytes);
        true
    }
}

/// Identity of a connected peer.
#[derive(Clone, Copy, Debug, PartialEq, Eq)]
pub struct PeerId {
    pub bytes: [u8; 16],
}

impl PeerId {
    /// Byte-wise equality of two peer identities.
    pub fn equals(&self, other: &PeerId) -> (same: bool)
        ensures
            same == (*self == *other),
    {
        let mut i: usize = 0;
        while i < 16
            invariant
                i <= 16,
                forall|j: int| 0 <= j < i ==> self.bytes[j] == other.bytes[j],
            decreases 16 - i,
        {
            if self.bytes[i] != other.bytes[i] {
                return false;
            }
            i += 1;
        }
        assert(self.bytes =~= other.bytes);
        true
    }
}

/// Tag of a view change: the block it is about and the view it moves to.
#[derive(Clone, Copy, Debug, PartialEq, Eq, Structural)]
pub struct ViewChange {
    pub block_number: u32,
    pub new_view_number: u32,
}

/// A view change signed by the validator with index `signer_idx`.
#[derive(Clone, Copy, Debug, PartialEq, Eq, Structural)]
pub struct SignedViewChange {
    pub message: ViewChange,
    pub signer_idx: u16,
}

/// What the coordinator reads of a macro block header. `hash` is the Blake2b
/// digest of the header's canonical encoding, taken where the header was decoded.
#[derive(Clone, Copy, Debug, PartialEq, Eq)]
pub struct MacroHeader {
    pub block_number: u32,
    pub view_number: u32,
    pub hash: Blake2bHash,
}

impl MacroHeader {
    /// The header with the given numbers whose canonical encoding is
    /// `encoding`: its digest is taken here.
    pub fn from_encoding(block_number: u32, view_number: u32, encoding: &Vec<u8>) -> (header:
        MacroHeader)
        ensures
            header.block_number == block_number,
            header.view_number == view_number,
            header.hash.bytes@ == blake2b_256(encoding@),
    {
        MacroHeader { block_number, view_number, hash: Blake2bHash::digest(encoding) }
    }
}

/// A proposed macro block.
#[derive(Clone, Copy, Debug, PartialEq, Eq)]
pub struct PbftProposal {
    pub header: MacroHeader,
}

/// A proposal signed by the validator with index `signer_idx`.
#[derive(Clone, Copy, Debug, PartialEq, Eq)]
pub struct SignedPbftProposal {
    pub message: PbftProposal,
    pub signer_idx: u16,
}

/// Vote of the prepare phase for the proposal with digest `block_hash`.
#[derive(Clone, Copy, Debug, PartialEq, Eq)]
pub struct PbftPrepareMessage {
    pub block_hash: Blake2bHash,
}

/// Vote of the commit phase for the proposal with digest `block_hash`.
#[derive(Clone, Copy, Debug, PartialEq, Eq)]
pub struct PbftCommitMessage {
    pub block_hash: Blake2bHash,
}

#[derive(Clone, Copy, Debug, PartialEq, Eq)]
pub struct SignedPbftPrepareMessage {
    pub message: PbftPrepareMessage,
    pub signer_idx: u16,
}

#[derive(Clone, Copy, Debug, PartialEq, Eq)]
pub struct SignedPbftCommitMessage {
    pub message: PbftCommitMessage,
    pub signer_idx: u16,
}

/// A partial aggregate that a remote peer sends for the aggregation named by `tag`.
#[derive(Clone, Copy, Debug, PartialEq, Eq)]
pub struct LevelUpdateMessage<T> {
    pub tag: T,
    pub level: u8,
    pub origin: u16,
}

/// An aggregated signature with the indices of those who signed.
#[derive(Clone, Debug, PartialEq, Eq)]
pub struct AggregateProof {
    pub signature: Vec<u8>,
    pub signers: Vec<u16>,
}

/// Proof that a view change has two-thirds support.
pub type ViewChangeProof = AggregateProof;

/// The two proofs that finalize a macro block.
#[derive(Clone, Debug, PartialEq, Eq)]
pub struct PbftProof {
    pub prepare: AggregateProof,
    pub commit: AggregateProof,
}

/// Evidence that one producer signed two blocks at the same height, named by
/// the digests of the two headers.
#[derive(Clone, Copy, Debug, PartialEq, Eq)]
pub struct ForkProof {
    pub header1: Blake2bHash,
    pub header2: Blake2bHash,
}

/// A validator's advertisement of its peer identity and BLS key. Its signature
/// is checked before the value reaches the coordinator.
#[derive(Clone, Copy, Debug, PartialEq, Eq)]
pub struct ValidatorInfo {
    pub peer_id: PeerId,
    pub public_key: CompressedPublicKey,
}

/// A peer as the gossip layer announces it.
#[derive(Clone, Copy, Debug, PartialEq, Eq)]
pub struct Peer {
    pub peer_id: PeerId,
    pub is_validator: bool,
}

/// What the coordinator asks of the chain: the number of the head block and the
/// public keys of the current validator groups, in slot order.
#[derive(Clone, Debug, PartialEq, Eq)]
pub struct ChainView {
    pub height: u32,
    pub validators: Vec<CompressedPublicKey>,
}

/// Macro blocks close an epoch: they stand at the multiples of its length.
pub open spec fn macro_block_at(block_number: u32, epoch_length: u32) -> bool {
    epoch_length > 0 && block_number % epoch_length == 0
}

/// Whether the block with this number is a macro block.
pub fn is_macro_block_at(block_number: u32, epoch_length: u32) -> (is_macro: bool)
    requires
        epoch_length > 0,
    ensures
        is_macro == macro_block_at(block_number, epoch_length),
{
    block_number % epoch_length == 0
}

} // verus!
