//! Recovery of erasure-coded block data from a validator network.
//!
//! A candidate's block data is erasure-coded into one chunk per validator and
//! committed to by a Merkle-style erasure root. A node that does not hold the
//! data can recover it by asking validators for their chunks, verifying each
//! chunk against the root, and decoding once enough verified chunks are held.
//!
//! This crate holds the verified decision core of that protocol: the
//! per-candidate recovery state machine and the coordinator that deduplicates
//! concurrent requests. All network transport, runtime queries, Merkle proof
//! checking and erasure decoding are outside capabilities; the core consumes
//! their results as events and emits the requests it wants performed as
//! actions.

pub mod chunks;
pub mod primitives;
pub mod subsystem;
pub mod task;

pub use chunks::ChunkStore;
pub use chunks::recovery_threshold;
pub use primitives::AuthorityId;
pub use primitives::AvailableData;
pub use primitives::BlockHash;
pub use primitives::CandidateHash;
pub use primitives::CandidateReceipt;
pub use primitives::DecodeError;
pub use primitives::ErasureChunk;
pub use primitives::ErasureRoot;
pub use primitives::PeerId;
pub use primitives::PersistedValidationData;
pub use primitives::QueryError;
pub use primitives::RecoveryError;
pub use primitives::SessionIndex;
pub use primitives::SessionInfo;
pub use primitives::ValidatorId;
pub use primitives::ValidatorIndex;
pub use subsystem::AvailabilityRecoverySubsystem;
pub use subsystem::Output;
pub use subsystem::PendingRecovery;
pub use task::Action;
pub use task::ChunkFetchResult;
pub use task::Event;
pub use task::Phase;
pub use task::RecoveryTask;
