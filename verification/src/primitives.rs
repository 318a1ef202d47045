//! Plain data carried through the recovery protocol.
//!
//! Network identities and hashes are opaque to the recovery logic: it only
//! compares them and hands them back to the outside capabilities. Each is
//! therefore held as a single plain value.

use vstd::prelude::*;

verus! {

/// Index of a session, the validator-set epoch that decides which
/// identities hold chunks for a given relay block.
pub type SessionIndex = u32;

/// Index of a validator in the ordered validator set of a session.
/// Chunk indices are validator indices.
pub type ValidatorIndex = u32;

/// Hash of a relay-chain block, in particular of a candidate's relay parent.
#[derive(Clone, Copy, PartialEq, Eq, Structural, Debug)]
pub struct BlockHash(pub u64);

/// Stable hash of a candidate receipt; the correlation key for in-flight
/// recovery and for chunk requests on the wire.
#[derive(Clone, Copy, PartialEq, Eq, Structural, Debug)]
pub struct CandidateHash(pub u64);

/// Merkle-style commitment over all erasure chunks of one candidate.
#[derive(Clone, Copy, PartialEq, Eq, Structural, Debug)]
pub struct ErasureRoot(pub u64);

/// Session key identifying a validator.
#[derive(Clone, Copy, PartialEq, Eq, Structural, Debug)]
pub struct ValidatorId(pub u64);

/// Discovery key under which a validator can be found on the network.
#[derive(Clone, Copy, PartialEq, Eq, Structural, Debug)]
pub struct AuthorityId(pub u64);

/// Handle of an established network connection to a peer.
#[derive(Clone, Copy, PartialEq, Eq, Structural, Debug)]
pub struct PeerId(pub u64);

/// Identifies a unit of work. The candidate's hash and the erasure root are
/// computed by outside hashing primitives when the receipt is formed and are
/// carried here as fields; the recovery logic only reads them.
#[derive(Clone, Copy, PartialEq, Eq, Structural, Debug)]
pub struct CandidateReceipt {
    /// The relay-chain block this candidate was built on; session lookups
    /// are made for this block.
    pub relay_parent: BlockHash,
    /// Commitment to the candidate's erasure chunks.
    pub erasure_root: ErasureRoot,
    /// The receipt's own stable hash.
    pub candidate_hash: CandidateHash,
}

impl CandidateReceipt {
    /// The stable hash under which this candidate is keyed.
    pub fn hash(&self) -> (h: CandidateHash)
        ensures
            h == self.candidate_hash,
    {
        self.candidate_hash
    }
}

/// The validation data that must persist alongside the block data.
#[derive(Clone, PartialEq, Eq, Debug)]
pub struct PersistedValidationData {
    /// Head data of the parent block.
    pub parent_head: Vec<u8>,
    /// Relay-chain block number of the context block.
    pub block_number: u32,
    /// Maximum legal size of a proof-of-validity blob, in bytes.
    pub max_pov_size: u32,
}

/// The reconstructed payload: a persisted-validation-data record plus the
/// opaque block-data blob. Produced only by a successful decode.
#[derive(Clone, PartialEq, Eq, Debug)]
pub struct AvailableData {
    /// The validation data persisted with the block data.
    pub validation_data: PersistedValidationData,
    /// The proof-of-validity block data itself.
    pub pov: Vec<u8>,
}

/// One erasure-coded fragment of a candidate's data: a byte payload, the
/// index of the validator whose chunk it is, and an inclusion proof against
/// the erasure root.
#[derive(Clone, PartialEq, Eq, Debug)]
pub struct ErasureChunk {
    /// The coded payload.
    pub chunk: Vec<u8>,
    /// Which validator's chunk this is; also its leaf position under the
    /// erasure root.
    pub index: ValidatorIndex,
    /// Nodes of the Merkle inclusion proof, as opaque bytes. Only the
    /// outside proof checker reads them.
    pub proof: Vec<Vec<u8>>,
}

/// Validator identities of the session covering a candidate's relay parent.
/// Fetched once per recovery and immutable afterwards.
#[derive(Clone, PartialEq, Eq, Debug)]
pub struct SessionInfo {
    /// The ordered validator set; its length is the candidate's chunk count.
    pub validators: Vec<ValidatorId>,
    /// Discovery keys of the same validators, in the same order.
    pub discovery_keys: Vec<AuthorityId>,
}

/// Failure of a runtime query (session index or session info lookup).
#[derive(Clone, Copy, PartialEq, Eq, Structural, Debug)]
pub struct QueryError;

/// Failure of the outside erasure decoder.
#[derive(Clone, Copy, PartialEq, Eq, Structural, Debug)]
pub struct DecodeError;

/// The outcome a caller can observe besides success.
#[derive(Clone, Copy, PartialEq, Eq, Structural, Debug)]
pub enum RecoveryError {
    /// Not enough validators supplied a verifying chunk within the budget.
    Unavailable,
    /// Enough chunks were collected, but they could not be decoded into a
    /// consistent payload: the commitment itself is suspect.
    InvalidErasureRoot,
}

} // verus!
