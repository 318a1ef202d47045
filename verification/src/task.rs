//! The per-candidate recovery state machine.
//!
//! One `RecoveryTask` owns the whole attempt to recover one candidate's
//! data. It is a pure decision core: every outside effect — runtime queries,
//! connecting to validators, chunk requests, proof verification, erasure
//! decoding — is performed by the surrounding driver, which feeds the
//! results back in as events and carries out the [`Action`] each handler
//! returns.
//!
//! Chunk requests are issued strictly sequentially: at most one request is
//! outstanding at a time, and a validator that failed once is never asked
//! again for this candidate. The retry cursor walks the validator set in
//! index order over the validators that have become reachable.

use vstd::prelude::*;
use crate::chunks::ChunkStore;
use crate::chunks::recovery_threshold;
use crate::chunks::recovery_threshold_spec;
use crate::primitives::AuthorityId;
use crate::primitives::AvailableData;
use crate::primitives::BlockHash;
use crate::primitives::CandidateHash;
use crate::primitives::CandidateReceipt;
use crate::primitives::DecodeError;
use crate::primitives::ErasureChunk;
use crate::primitives::ErasureRoot;
use crate::primitives::PeerId;
use crate::primitives::QueryError;
use crate::primitives::RecoveryError;
use crate::primitives::SessionIndex;
use crate::primitives::SessionInfo;
use crate::primitives::ValidatorIndex;

verus! {

/// Where a task stands. Connection notifications and chunk responses
/// interleave freely while the task is in `RequestingChunks`.
#[derive(Clone, Copy, PartialEq, Eq, Structural, Debug)]
pub enum Phase {
    /// Waiting for the session index of the candidate's relay parent.
    AwaitingSessionIndex,
    /// Waiting for the session info of that session index.
    AwaitingSessionInfo,
    /// Connecting to validators and collecting verified chunks.
    RequestingChunks,
    /// Enough verified chunks are held; waiting for the decoder's verdict.
    Decoding,
    /// A terminal outcome has been reported.
    Resolved,
}

/// What one chunk request came back with.
#[derive(PartialEq, Eq, Debug)]
pub enum ChunkFetchResult {
    /// The validator returned a chunk, together with the outside proof
    /// checker's verdict for it against the candidate's erasure root.
    Chunk { chunk: ErasureChunk, verifies: bool },
    /// The validator answered that it holds no chunk for this candidate.
    NoChunk,
    /// Transport failure, or expiry of the per-request timeout.
    Failed,
}

/// Something that happened on the outside, addressed to one candidate's
/// recovery: an answered query, a connection notification, a chunk
/// response, a timer, or the decoder's verdict.
pub enum Event {
    /// The session-index lookup answered.
    SessionIndexResponse(Result<SessionIndex, QueryError>),
    /// The session-info lookup answered.
    SessionInfoResponse(Result<Option<SessionInfo>, QueryError>),
    /// A validator became reachable under this peer handle.
    ValidatorConnected(AuthorityId, PeerId),
    /// The outstanding chunk request of this validator came back.
    ChunkResponse(ValidatorIndex, ChunkFetchResult),
    /// The overall attempt deadline of this candidate expired.
    DeadlineExpired,
    /// The erasure decoder answered.
    DecodeResult(Result<AvailableData, DecodeError>),
}

/// What the driver must do next on behalf of a task.
#[derive(PartialEq, Eq, Debug)]
pub enum Action {
    /// Nothing to do; wait for further events.
    Await,
    /// Look up the session index for this relay-chain block.
    RequestSessionIndex { relay_parent: BlockHash },
    /// Look up the session info for this session index.
    RequestSessionInfo { session_index: SessionIndex },
    /// Ask the network layer to connect to these validators.
    ConnectToValidators { discovery_keys: Vec<AuthorityId> },
    /// Send a chunk request for this candidate to this peer.
    RequestChunk { peer: PeerId, candidate_hash: CandidateHash, validator: ValidatorIndex },
    /// Hand the chunks held so far to the erasure decoder.
    Decode { n_validators: usize },
    /// Resolve every caller waiting on this candidate with this result.
    Conclude { result: Result<AvailableData, RecoveryError> },
}

/// Every validator index below `n` has been asked (and failed) already.
pub open spec fn all_tried(tried: Seq<bool>, n: int) -> bool {
    forall|i: int| 0 <= i < n ==> tried[i]
}

/// Some validator below `n` is reachable and has not been asked yet.
pub open spec fn untried_connected_exists(
    tried: Seq<bool>,
    connected: Seq<Option<PeerId>>,
    n: int,
) -> bool {
    exists|i: int| 0 <= i < n && !(#[trigger] tried[i]) && (#[trigger] connected[i]) is Some
}

/// The session-info lookup produced a non-empty validator set; anything
/// else (a query error, an unknown session, an empty set) leaves the task
/// without identities to ask.
pub open spec fn usable_session_info(response: Result<Option<SessionInfo>, QueryError>) -> bool {
    match response {
        Ok(opt) => match opt {
            Some(info) => info.validators@.len() >= 1,
            None => false,
        },
        Err(_) => false,
    }
}

/// The unit of work for recovering one candidate.
pub struct RecoveryTask {
    /// Correlation key of the candidate being recovered.
    pub candidate_hash: CandidateHash,
    /// Commitment the chunks are verified against (by the outside checker).
    pub erasure_root: ErasureRoot,
    /// The relay-chain block whose session covers this candidate.
    pub relay_parent: BlockHash,
    /// Current protocol phase.
    pub phase: Phase,
    /// Session index, once the first lookup answered.
    pub session_index: Option<SessionIndex>,
    /// Size of the session's validator set; also the candidate's chunk count.
    pub n_validators: usize,
    /// Number of distinct verified chunks needed to decode.
    pub threshold: usize,
    /// Discovery keys of the validator set, in validator-index order.
    pub discovery_keys: Vec<AuthorityId>,
    /// Peer handle of each validator that has become reachable.
    pub connected: Vec<Option<PeerId>>,
    /// Which validators have already been asked for their chunk.
    pub tried: Vec<bool>,
    /// The verified chunks accumulated so far.
    pub store: ChunkStore,
    /// The validator whose chunk request is outstanding, if any.
    pub in_flight: Option<ValidatorIndex>,
    /// The terminal result, recorded for reasoning once the task resolves.
    pub outcome: Ghost<Option<Result<AvailableData, RecoveryError>>>,
}

impl RecoveryTask {
    /// The task's internal invariant: sizing of the per-validator tables, a
    /// well-formed chunk store, and the phase discipline — in particular
    /// that the decoder is only ever invoked with at least `threshold`
    /// verified chunks, and that any resolution other than `Unavailable`
    /// had that many verified chunks behind it.
    pub open spec fn wf(self) -> bool {
        &&& self.connected@.len() == self.n_validators
        &&& self.tried@.len() == self.n_validators
        &&& self.store.wf(self.n_validators as int)
        &&& self.n_validators as int <= u32::MAX as int
        &&& (self.phase is AwaitingSessionIndex || self.phase is AwaitingSessionInfo
            ==> self.n_validators == 0 && self.store@.len() == 0)
        &&& (self.phase is RequestingChunks || self.phase is Decoding ==> self.n_validators >= 1
            && self.threshold == recovery_threshold_spec(self.n_validators as int)
            && 1 <= self.threshold <= self.n_validators)
        &&& (self.in_flight matches Some(v) ==> self.phase is RequestingChunks
            && (v as int) < self.n_validators && self.tried@[v as int])
        &&& (self.phase is Decoding ==> self.store@.len() >= self.threshold)
        &&& (self.outcome@ is Some <==> self.phase is Resolved)
        &&& (self.outcome@ matches Some(r) ==> (r != Err::<AvailableData, RecoveryError>(
            RecoveryError::Unavailable,
        ) ==> self.store@.len() >= self.threshold && self.threshold >= 1))
    }

    /// A task never changes which candidate it is recovering.
    pub open spec fn same_target(self, other: RecoveryTask) -> bool {
        &&& other.candidate_hash == self.candidate_hash
        &&& other.erasure_root == self.erasure_root
        &&& other.relay_parent == self.relay_parent
    }

    /// The event fed by `on_chunk_response` carries a chunk that is counted:
    /// it answers the outstanding request, its proof verified, its index is
    /// a validator index, and no chunk with that index is held yet.
    pub open spec fn accepts(self, validator: ValidatorIndex, fetched: ChunkFetchResult) -> bool {
        &&& self.phase is RequestingChunks
        &&& self.in_flight == Some(validator)
        &&& fetched matches ChunkFetchResult::Chunk { chunk, verifies } && verifies
            && (chunk.index as int) < self.n_validators
            && !self.store.has_index(chunk.index as int)
    }

    /// The action announces exactly the resolutions the task records: a
    /// handler returns `Conclude` precisely when the task has just
    /// resolved, and with the result it recorded as its outcome.
    pub open spec fn concluding(pre: RecoveryTask, post: RecoveryTask, a: Action) -> bool {
        &&& (a is Conclude ==> post.phase is Resolved)
        &&& (pre.phase !is Resolved && post.phase is Resolved ==> (a matches Action::Conclude {
            result,
        } && post.outcome@ == Some(result)))
    }

    /// Full input/output relation of [`Self::on_session_index`].
    pub open spec fn session_index_step(
        pre: RecoveryTask,
        post: RecoveryTask,
        response: Result<SessionIndex, QueryError>,
        a: Action,
    ) -> bool {
        &&& post.wf()
        &&& RecoveryTask::concluding(pre, post, a)
        &&& post.store@ == pre.store@
        &&& pre.same_target(post)
        &&& (pre.phase !is AwaitingSessionIndex ==> post == pre && a == Action::Await)
        &&& (pre.phase is AwaitingSessionIndex ==> (response matches Ok(ix)
            ==> post.phase is AwaitingSessionInfo && post.session_index == Some(ix)
            && post.outcome@ is None && a == (Action::RequestSessionInfo { session_index: ix })))
        &&& (pre.phase is AwaitingSessionIndex && response is Err ==> post.phase is Resolved
            && post.outcome@ == Some(Err::<AvailableData, RecoveryError>(RecoveryError::Unavailable))
            && a == (Action::Conclude { result: Err(RecoveryError::Unavailable) }))
    }

    /// Full input/output relation of [`Self::on_session_info`].
    pub open spec fn session_info_step(
        pre: RecoveryTask,
        post: RecoveryTask,
        response: Result<Option<SessionInfo>, QueryError>,
        a: Action,
    ) -> bool {
        &&& post.wf()
        &&& RecoveryTask::concluding(pre, post, a)
        &&& post.store@ == pre.store@
        &&& pre.same_target(post)
        &&& (pre.phase !is AwaitingSessionInfo ==> post == pre && a == Action::Await)
        &&& (pre.phase is AwaitingSessionInfo ==> (response matches Ok(Some(info)) ==> (
        info.validators@.len() >= 1 ==> {
            &&& post.phase is RequestingChunks
            &&& post.n_validators == info.validators@.len()
            &&& post.threshold == recovery_threshold_spec(info.validators@.len() as int)
            &&& post.discovery_keys@ == info.discovery_keys@
            &&& forall|i: int|
                0 <= i < post.n_validators ==> !(#[trigger] post.tried@[i]) && (
                #[trigger] post.connected@[i]) is None
            &&& post.in_flight is None
            &&& post.outcome@ is None
            &&& a matches Action::ConnectToValidators { discovery_keys } && discovery_keys@
                == info.discovery_keys@
        })))
        &&& (pre.phase is AwaitingSessionInfo && !usable_session_info(response)
            ==> post.phase is Resolved && post.outcome@ == Some(
            Err::<AvailableData, RecoveryError>(RecoveryError::Unavailable),
        ) && a == (Action::Conclude { result: Err(RecoveryError::Unavailable) }))
    }

    /// Full input/output relation of [`Self::on_validator_connected`]. A
    /// known authority's connection is always recorded, at the first
    /// position it holds among the session's discovery keys.
    pub open spec fn validator_connected_step(
        pre: RecoveryTask,
        post: RecoveryTask,
        authority: AuthorityId,
        peer: PeerId,
        a: Action,
    ) -> bool {
        &&& post.wf()
        &&& RecoveryTask::concluding(pre, post, a)
        &&& post.store@ == pre.store@
        &&& pre.same_target(post)
        &&& (pre.phase !is RequestingChunks ==> post == pre && a == Action::Await)
        &&& (pre.phase is RequestingChunks ==> post.n_validators == pre.n_validators
            && post.threshold == pre.threshold && post.discovery_keys@ == pre.discovery_keys@
            && post.session_index == pre.session_index)
        &&& (pre.phase is RequestingChunks && (forall|k: int|
            0 <= k < pre.n_validators && k < pre.discovery_keys@.len() ==> (
            #[trigger] pre.discovery_keys@[k]) != authority) ==> post.connected@
            == pre.connected@)
        &&& (pre.phase is RequestingChunks && (exists|k: int|
            0 <= k < pre.n_validators && k < pre.discovery_keys@.len() && (
            #[trigger] pre.discovery_keys@[k]) == authority) ==> (exists|k: int|
            0 <= k < pre.n_validators && k < pre.discovery_keys@.len() && (
            #[trigger] pre.discovery_keys@[k]) == authority && (forall|l: int|
                0 <= l < k ==> pre.discovery_keys@[l] != authority) && post.connected@
                == pre.connected@.update(k, Some(peer))))
        &&& (pre.phase is RequestingChunks && pre.in_flight is Some ==> post.tried@ == pre.tried@
            && post.in_flight == pre.in_flight && post.phase is RequestingChunks
            && a == Action::Await)
        &&& (pre.phase is RequestingChunks && pre.in_flight is None && pre.store@.len()
            >= pre.threshold ==> post.phase is Decoding && post.tried@ == pre.tried@
            && post.in_flight is None && a == (Action::Decode { n_validators: pre.n_validators }))
        &&& (pre.phase is RequestingChunks && pre.in_flight is None && pre.store@.len()
            < pre.threshold && untried_connected_exists(
            pre.tried@,
            post.connected@,
            pre.n_validators as int,
        ) ==> (a matches Action::RequestChunk { peer: p, candidate_hash, validator }
            && candidate_hash == pre.candidate_hash && (validator as int) < pre.n_validators
            && !pre.tried@[validator as int] && post.connected@[validator as int] == Some(p)
            && post.tried@ == pre.tried@.update(validator as int, true)
            && post.in_flight == Some(validator) && post.phase is RequestingChunks))
        &&& (pre.phase is RequestingChunks && pre.in_flight is None && pre.store@.len()
            < pre.threshold && !untried_connected_exists(
            pre.tried@,
            post.connected@,
            pre.n_validators as int,
        ) && all_tried(pre.tried@, pre.n_validators as int) ==> post.phase is Resolved
            && post.tried@ == pre.tried@ && post.outcome@ == Some(
            Err::<AvailableData, RecoveryError>(RecoveryError::Unavailable),
        ) && a == (Action::Conclude { result: Err(RecoveryError::Unavailable) }))
        &&& (pre.phase is RequestingChunks && pre.in_flight is None && pre.store@.len()
            < pre.threshold && !untried_connected_exists(
            pre.tried@,
            post.connected@,
            pre.n_validators as int,
        ) && !all_tried(pre.tried@, pre.n_validators as int) ==> post.phase is RequestingChunks
            && post.tried@ == pre.tried@ && post.in_flight is None && a == Action::Await)
    }

    /// Full input/output relation of [`Self::on_chunk_response`].
    pub open spec fn chunk_response_step(
        pre: RecoveryTask,
        post: RecoveryTask,
        validator: ValidatorIndex,
        fetched: ChunkFetchResult,
        a: Action,
    ) -> bool {
        &&& post.wf()
        &&& RecoveryTask::concluding(pre, post, a)
        &&& pre.same_target(post)
        &&& (!(pre.phase is RequestingChunks && pre.in_flight == Some(validator)) ==> post == pre
            && a == Action::Await)
        &&& (pre.accepts(validator, fetched) ==> (fetched matches ChunkFetchResult::Chunk {
            chunk,
            verifies,
        } && post.store@ == pre.store@.push(chunk)))
        &&& (!pre.accepts(validator, fetched) ==> post.store@ == pre.store@)
        &&& (pre.phase is RequestingChunks && pre.in_flight == Some(validator) ==> {
            &&& post.connected@ == pre.connected@
            &&& post.n_validators == pre.n_validators
            &&& post.threshold == pre.threshold
            &&& post.discovery_keys@ == pre.discovery_keys@
            &&& (post.store@.len() >= pre.threshold ==> post.phase is Decoding && post.tried@
                == pre.tried@ && a == (Action::Decode { n_validators: pre.n_validators }))
            &&& (post.store@.len() < pre.threshold && untried_connected_exists(
                pre.tried@,
                pre.connected@,
                pre.n_validators as int,
            ) ==> (a matches Action::RequestChunk { peer, candidate_hash, validator: next }
                && candidate_hash == pre.candidate_hash && (next as int) < pre.n_validators
                && !pre.tried@[next as int] && pre.connected@[next as int] == Some(peer)
                && post.tried@ == pre.tried@.update(next as int, true)
                && post.in_flight == Some(next) && post.phase is RequestingChunks))
            &&& (post.store@.len() < pre.threshold && !untried_connected_exists(
                pre.tried@,
                pre.connected@,
                pre.n_validators as int,
            ) && all_tried(pre.tried@, pre.n_validators as int) ==> post.phase is Resolved
                && post.outcome@ == Some(
                Err::<AvailableData, RecoveryError>(RecoveryError::Unavailable),
            ) && a == (Action::Conclude { result: Err(RecoveryError::Unavailable) }))
            &&& (post.store@.len() < pre.threshold && !untried_connected_exists(
                pre.tried@,
                pre.connected@,
                pre.n_validators as int,
            ) && !all_tried(pre.tried@, pre.n_validators as int) ==> post.phase is RequestingChunks
                && post.in_flight is None && a == Action::Await)
        })
    }

    /// Full input/output relation of [`Self::on_deadline`].
    pub open spec fn deadline_step(pre: RecoveryTask, post: RecoveryTask, a: Action) -> bool {
        &&& post.wf()
        &&& RecoveryTask::concluding(pre, post, a)
        &&& pre.same_target(post)
        &&& post.store@ == pre.store@
        &&& (pre.phase is Decoding || pre.phase is Resolved ==> post == pre && a == Action::Await)
        &&& (!(pre.phase is Decoding || pre.phase is Resolved) ==> post.phase is Resolved
            && post.outcome@ == Some(Err::<AvailableData, RecoveryError>(RecoveryError::Unavailable))
            && a == (Action::Conclude { result: Err(RecoveryError::Unavailable) }))
    }

    /// Full input/output relation of [`Self::on_decode_result`].
    pub open spec fn decode_result_step(
        pre: RecoveryTask,
        post: RecoveryTask,
        result: Result<AvailableData, DecodeError>,
        a: Action,
    ) -> bool {
        &&& post.wf()
        &&& RecoveryTask::concluding(pre, post, a)
        &&& pre.same_target(post)
        &&& post.store@ == pre.store@
        &&& (pre.phase !is Decoding ==> post == pre && a == Action::Await)
        &&& (pre.phase is Decoding ==> (result matches Ok(data) ==> post.phase is Resolved
            && post.outcome@ == Some(Ok::<AvailableData, RecoveryError>(data))
            && a == (Action::Conclude { result: Ok(data) })))
        &&& (pre.phase is Decoding && result is Err ==> post.phase is Resolved && post.outcome@
            == Some(Err::<AvailableData, RecoveryError>(RecoveryError::InvalidErasureRoot))
            && a == (Action::Conclude { result: Err(RecoveryError::InvalidErasureRoot) }))
    }

    /// The input/output relation of the handler that the event's kind
    /// selects: one step of the task on one event.
    pub open spec fn step(pre: RecoveryTask, post: RecoveryTask, event: Event, a: Action) -> bool {
        match event {
            Event::SessionIndexResponse(r) => RecoveryTask::session_index_step(pre, post, r, a),
            Event::SessionInfoResponse(r) => RecoveryTask::session_info_step(pre, post, r, a),
            Event::ValidatorConnected(authority, peer) => RecoveryTask::validator_connected_step(
                pre,
                post,
                authority,
                peer,
                a,
            ),
            Event::ChunkResponse(v, fetched) => RecoveryTask::chunk_response_step(
                pre,
                post,
                v,
                fetched,
                a,
            ),
            Event::DeadlineExpired => RecoveryTask::deadline_step(pre, post, a),
            Event::DecodeResult(r) => RecoveryTask::decode_result_step(pre, post, r, a),
        }
    }

    /// Start recovering the candidate of `receipt`. The first thing the
    /// driver must do is look up the session index of its relay parent.
    pub fn new(receipt: &CandidateReceipt) -> (r: (RecoveryTask, Action))
        ensures
            r.0.wf(),
            r.0.candidate_hash == receipt.candidate_hash,
            r.0.erasure_root == receipt.erasure_root,
            r.0.relay_parent == receipt.relay_parent,
            r.0.phase is AwaitingSessionIndex,
            r.0.outcome@ is None,
            r.1 == (Action::RequestSessionIndex { relay_parent: receipt.relay_parent }),
    {
        let task = RecoveryTask {
            candidate_hash: receipt.candidate_hash,
            erasure_root: receipt.erasure_root,
            relay_parent: receipt.relay_parent,
            phase: Phase::AwaitingSessionIndex,
            session_index: None,
            n_validators: 0,
            threshold: 0,
            discovery_keys: Vec::new(),
            connected: Vec::new(),
            tried: Vec::new(),
            store: ChunkStore::new(),
            in_flight: None,
            outcome: Ghost(None),
        };
        (task, Action::RequestSessionIndex { relay_parent: receipt.relay_parent })
    }

    /// The session-index lookup answered. A failed lookup is a terminal
    /// `Unavailable`: without a session there are no validator identities.
    pub fn on_session_index(&mut self, response: Result<SessionIndex, QueryError>) -> (a: Action)
        requires
            old(self).wf(),
        ensures
            RecoveryTask::session_index_step(*old(self), *final(self), response, a),
    {
        if self.phase != Phase::AwaitingSessionIndex {
            return Action::Await;
        }
        match response {
            Ok(ix) => {
                self.session_index = Some(ix);
                self.phase = Phase::AwaitingSessionInfo;
                Action::RequestSessionInfo { session_index: ix }
            },
            Err(_) => {
                self.phase = Phase::Resolved;
                self.outcome = Ghost(Some(Err(RecoveryError::Unavailable)));
                Action::Conclude { result: Err(RecoveryError::Unavailable) }
            },
        }
    }

    /// The session-info lookup answered. With a non-empty validator set the
    /// task sizes its tables, fixes the reconstruction threshold and asks
    /// the driver to connect to the whole set; otherwise it resolves
    /// `Unavailable`.
    pub fn on_session_info(&mut self, response: Result<Option<SessionInfo>, QueryError>) -> (a:
        Action)
        requires
            old(self).wf(),
            response matches Ok(Some(info)) ==> info.validators@.len() <= u32::MAX as int,
        ensures
            RecoveryTask::session_info_step(*old(self), *final(self), response, a),
    {
        if self.phase != Phase::AwaitingSessionInfo {
            return Action::Await;
        }
        match response {
            Ok(Some(info)) => {
                let n: usize = info.validators.len();
                if n == 0 {
                    self.phase = Phase::Resolved;
                    self.outcome = Ghost(Some(Err(RecoveryError::Unavailable)));
                    return Action::Conclude { result: Err(RecoveryError::Unavailable) };
                }
                let mut connected: Vec<Option<PeerId>> = Vec::new();
                let mut tried: Vec<bool> = Vec::new();
                let mut keys_copy: Vec<AuthorityId> = Vec::new();
                let mut i: usize = 0;
                while i < n
                    invariant
                        i <= n,
                        connected@.len() == i,
                        tried@.len() == i,
                        forall|l: int|
                            0 <= l < i ==> !(#[trigger] tried@[l]) && (
                            #[trigger] connected@[l]) is None,
                    decreases n - i,
                {
                    connected.push(None);
                    tried.push(false);
                    i = i + 1;
                }
                let mut k: usize = 0;
                while k < info.discovery_keys.len()
                    invariant
                        k <= info.discovery_keys@.len(),
                        keys_copy@ =~= info.discovery_keys@.subrange(0, k as int),
                    decreases info.discovery_keys@.len() - k,
                {
                    keys_copy.push(info.discovery_keys[k]);
                    k = k + 1;
                }
                assert(keys_copy@ =~= info.discovery_keys@);
                self.n_validators = n;
                self.threshold = recovery_threshold(n);
                self.discovery_keys = info.discovery_keys;
                self.connected = connected;
                self.tried = tried;
                self.phase = Phase::RequestingChunks;
                Action::ConnectToValidators { discovery_keys: keys_copy }
            },
            Ok(None) => {
                self.phase = Phase::Resolved;
                self.outcome = Ghost(Some(Err(RecoveryError::Unavailable)));
                Action::Conclude { result: Err(RecoveryError::Unavailable) }
            },
            Err(_) => {
                self.phase = Phase::Resolved;
                self.outcome = Ghost(Some(Err(RecoveryError::Unavailable)));
                Action::Conclude { result: Err(RecoveryError::Unavailable) }
            },
        }
    }

    /// Pick the task's next step while it is collecting chunks and no
    /// request is outstanding: decode once the threshold is reached, ask the
    /// next untried reachable validator otherwise, give up with
    /// `Unavailable` once every validator has been tried, and wait when the
    /// remaining untried validators are not reachable yet.
    fn dispatch(&mut self) -> (a: Action)
        requires
            old(self).wf(),
            old(self).phase is RequestingChunks,
            old(self).in_flight is None,
        ensures
            final(self).wf(),
            RecoveryTask::concluding(*old(self), *final(self), a),
            old(self).same_target(*final(self)),
            final(self).store@ == old(self).store@,
            final(self).connected@ == old(self).connected@,
            final(self).discovery_keys@ == old(self).discovery_keys@,
            final(self).n_validators == old(self).n_validators,
            final(self).threshold == old(self).threshold,
            final(self).session_index == old(self).session_index,
            old(self).store@.len() >= old(self).threshold ==> final(self).phase is Decoding
                && final(self).tried@ == old(self).tried@ && final(self).in_flight is None
                    && final(self).outcome@ is None
                    && a == (Action::Decode { n_validators: old(self).n_validators }),
            old(self).store@.len() < old(self).threshold && untried_connected_exists(
                old(self).tried@,
                old(self).connected@,
                old(self).n_validators as int,
            ) ==> (a matches Action::RequestChunk { peer, candidate_hash, validator }
                && candidate_hash == old(self).candidate_hash
                    && (validator as int) < old(self).n_validators
                    && !old(self).tried@[validator as int]
                    && old(self).connected@[validator as int] == Some(peer)
                    && final(self).tried@ == old(self).tried@.update(validator as int, true)
                    && final(self).in_flight == Some(validator)
                && final(self).phase is RequestingChunks && final(self).outcome@ is None),
            old(self).store@.len() < old(self).threshold && !untried_connected_exists(
                old(self).tried@,
                old(self).connected@,
                old(self).n_validators as int,
            )
                && all_tried(old(self).tried@, old(self).n_validators as int) ==> final(self).phase is Resolved
                && final(self).tried@ == old(self).tried@ && final(self).outcome@
                == Some(Err::<AvailableData, RecoveryError>(RecoveryError::Unavailable)) && a == (
            Action::Conclude { result: Err(RecoveryError::Unavailable) }),
            old(self).store@.len() < old(self).threshold && !untried_connected_exists(
                old(self).tried@,
                old(self).connected@,
                old(self).n_validators as int,
            ) && !all_tried(old(self).tried@, old(self).n_validators as int) ==> *final(self)
                == *old(self) && a == Action::Await,
    {
        if self.store.len() >= self.threshold {
            self.phase = Phase::Decoding;
            return Action::Decode { n_validators: self.n_validators };
        }
        let mut j: usize = 0;
        while j < self.n_validators
            invariant
                old(self).wf(),
                *self == *old(self),
                old(self).phase is RequestingChunks,
                old(self).store@.len() < old(self).threshold,
                j <= self.n_validators,
                forall|l: int|
                    0 <= l < j ==> (#[trigger] self.tried@[l]) || (
                    #[trigger] self.connected@[l]) is None,
            decreases self.n_validators - j,
        {
            if !self.tried[j] {
                match self.connected[j] {
                    Some(peer) => {
                        self.tried.set(j, true);
                        self.in_flight = Some(j as u32);
                        return Action::RequestChunk {
                            peer,
                            candidate_hash: self.candidate_hash,
                            validator: j as u32,
                        };
                    },
                    None => {},
                }
            }
            j = j + 1;
        }
        assert(!untried_connected_exists(
            self.tried@,
            self.connected@,
            self.n_validators as int,
        ));
        let mut every: bool = true;
        let mut l: usize = 0;
        while l < self.n_validators
            invariant
                old(self).wf(),
                *self == *old(self),
                old(self).phase is RequestingChunks,
                old(self).store@.len() < old(self).threshold,
                !untried_connected_exists(
                    self.tried@,
                    self.connected@,
                    self.n_validators as int,
                ),
                l <= self.n_validators,
                every == all_tried(self.tried@, l as int),
            decreases self.n_validators - l,
        {
            if !self.tried[l] {
                every = false;
            }
            l = l + 1;
        }
        if every {
            self.phase = Phase::Resolved;
            self.outcome = Ghost(Some(Err(RecoveryError::Unavailable)));
            Action::Conclude { result: Err(RecoveryError::Unavailable) }
        } else {
            Action::Await
        }
    }

    /// A validator became reachable. Its peer handle is recorded, and if no
    /// chunk request is outstanding the task immediately takes its next
    /// step. A notification for an authority outside the session's
    /// discovery-key list changes nothing.
    pub fn on_validator_connected(&mut self, authority: AuthorityId, peer: PeerId) -> (a: Action)
        requires
            old(self).wf(),
        ensures
            RecoveryTask::validator_connected_step(*old(self), *final(self), authority, peer, a),
    {
        if self.phase != Phase::RequestingChunks {
            return Action::Await;
        }
        let mut k: usize = 0;
        let keys_len: usize = self.discovery_keys.len();
        while k < keys_len && k < self.n_validators && self.discovery_keys[k].0 != authority.0
            invariant
                old(self).wf(),
                *self == *old(self),
                keys_len == self.discovery_keys@.len(),
                k <= keys_len,
                forall|l: int|
                    0 <= l < k && l < self.n_validators ==> (#[trigger] self.discovery_keys@[l])
                        != authority,
            decreases keys_len - k,
        {
            k = k + 1;
        }
        let found: bool = k < keys_len && k < self.n_validators;
        if found {
            self.connected.set(k, Some(peer));
        }
        match self.in_flight {
            Some(_) => Action::Await,
            None => self.dispatch(),
        }
    }

    /// The outstanding chunk request answered (or failed). A chunk is
    /// counted only if its inclusion proof verified and its index is fresh;
    /// anything else — a non-verifying chunk, a missing chunk, a transport
    /// failure — just consumes this validator, and the task moves on to the
    /// next one. A response from a validator without an outstanding request
    /// changes nothing.
    pub fn on_chunk_response(&mut self, validator: ValidatorIndex, fetched: ChunkFetchResult) -> (a:
        Action)
        requires
            old(self).wf(),
        ensures
            RecoveryTask::chunk_response_step(*old(self), *final(self), validator, fetched, a),
    {
        if self.phase != Phase::RequestingChunks {
            return Action::Await;
        }
        let relevant: bool = match self.in_flight {
            Some(v) => v == validator,
            None => false,
        };
        if !relevant {
            return Action::Await;
        }
        self.in_flight = None;
        match fetched {
            ChunkFetchResult::Chunk { chunk, verifies } => {
                if verifies && (chunk.index as usize) < self.n_validators
                    && !self.store.contains_index(chunk.index) {
                    let ghost pre = self.store;
                    let ghost gchunk = chunk;
                    self.store.insert(chunk);
                    proof {
                        ChunkStore::lemma_insert_wf(
                            pre,
                            self.store,
                            gchunk,
                            self.n_validators as int,
                        );
                    }
                }
            },
            ChunkFetchResult::NoChunk => {},
            ChunkFetchResult::Failed => {},
        }
        self.dispatch()
    }

    /// The overall attempt deadline expired. A task still waiting on the
    /// network gives up with `Unavailable`. Once the decoder has been
    /// invoked the deadline is ignored: decoding is a local computation and
    /// its verdict is imminent.
    pub fn on_deadline(&mut self) -> (a: Action)
        requires
            old(self).wf(),
        ensures
            RecoveryTask::deadline_step(*old(self), *final(self), a),
    {
        match self.phase {
            Phase::Decoding => Action::Await,
            Phase::Resolved => Action::Await,
            _ => {
                self.in_flight = None;
                self.phase = Phase::Resolved;
                self.outcome = Ghost(Some(Err(RecoveryError::Unavailable)));
                Action::Conclude { result: Err(RecoveryError::Unavailable) }
            },
        }
    }

    /// The erasure decoder answered. Success hands the reconstructed data to
    /// every waiting caller; failure after a threshold of individually
    /// verified chunks means the commitment itself is inconsistent, and the
    /// task resolves `InvalidErasureRoot`, not `Unavailable`.
    pub fn on_decode_result(&mut self, result: Result<AvailableData, DecodeError>) -> (a: Action)
        requires
            old(self).wf(),
        ensures
            RecoveryTask::decode_result_step(*old(self), *final(self), result, a),
    {
        if self.phase != Phase::Decoding {
            return Action::Await;
        }
        self.phase = Phase::Resolved;
        match result {
            Ok(data) => {
                self.outcome = Ghost(Some(Ok(data)));
                Action::Conclude { result: Ok(data) }
            },
            Err(_) => {
                self.outcome = Ghost(Some(Err(RecoveryError::InvalidErasureRoot)));
                Action::Conclude { result: Err(RecoveryError::InvalidErasureRoot) }
            },
        }
    }

    /// Take in one event, whatever its kind, and decide the next step; the
    /// per-kind handlers say what each event does.
    pub fn on_event(&mut self, event: Event) -> (a: Action)
        requires
            old(self).wf(),
            event matches Event::SessionInfoResponse(r) ==> (r matches Ok(Some(info))
                ==> info.validators@.len() <= u32::MAX as int),
        ensures
            final(self).wf(),
            RecoveryTask::step(*old(self), *final(self), event, a),
    {
        match event {
            Event::SessionIndexResponse(r) => self.on_session_index(r),
            Event::SessionInfoResponse(r) => self.on_session_info(r),
            Event::ValidatorConnected(authority, peer) => self.on_validator_connected(
                authority,
                peer,
            ),
            Event::ChunkResponse(validator, fetched) => self.on_chunk_response(validator, fetched),
            Event::DeadlineExpired => self.on_deadline(),
            Event::DecodeResult(r) => self.on_decode_result(r),
        }
    }
}

/// However many non-verifying or garbage responses arrived, a task that
/// never accumulated `threshold` verified chunks can only have resolved
/// `Unavailable`: chunks are counted solely through proof-verified
/// insertions, decoding is only reached at the threshold, and the two other
/// outcomes exist only past decoding.
pub proof fn lemma_below_threshold_resolves_unavailable(t: RecoveryTask)
    requires
        t.wf(),
        t.phase is Resolved,
        t.store@.len() < t.threshold,
    ensures
        t.outcome@ == Some(Err::<AvailableData, RecoveryError>(RecoveryError::Unavailable)),
{
}

/// The accumulated verified-chunk set never exceeds the validator count and
/// never holds two chunks with the same index.
pub proof fn lemma_store_bounded(t: RecoveryTask)
    requires
        t.wf(),
    ensures
        t.store@.len() <= t.n_validators,
        forall|k: int, l: int|
            0 <= k < l < t.store@.len() ==> (#[trigger] t.store@[k]).index != (
            #[trigger] t.store@[l]).index,
{
    t.store.lemma_len_bounded(t.n_validators as int);
}

} // verus!
