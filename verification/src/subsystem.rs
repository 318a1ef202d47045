//! The long-lived coordinator.
//!
//! It accepts recovery requests from callers, deduplicates concurrent
//! requests for the same candidate onto one task, routes incoming events to
//! the owning task, and, when a task resolves, hands back the one shared
//! result together with every waiting caller — each exactly once.

use vstd::prelude::*;
use crate::primitives::AuthorityId;
use crate::primitives::AvailableData;
use crate::primitives::CandidateHash;
use crate::primitives::CandidateReceipt;
use crate::primitives::DecodeError;
use crate::primitives::ErasureChunk;
use crate::primitives::PeerId;
use crate::primitives::QueryError;
use crate::primitives::RecoveryError;
use crate::primitives::SessionIndex;
use crate::primitives::SessionInfo;
use crate::primitives::ValidatorIndex;
use crate::task::Action;
use crate::task::Event;
use crate::task::ChunkFetchResult;
use crate::task::Phase;
use crate::task::RecoveryTask;

verus! {

/// One in-flight recovery: its task plus every caller waiting on it.
/// Listeners are opaque tickets; the driver maps each ticket to the
/// caller's single-use reply channel.
pub struct PendingRecovery {
    /// The state machine owning this candidate's recovery.
    pub task: RecoveryTask,
    /// Tickets of the callers to resolve when the task concludes.
    pub listeners: Vec<u64>,
}

/// What the coordinator wants done after taking in one event.
#[derive(PartialEq, Eq, Debug)]
pub enum Output {
    /// Carry out this action for the candidate the event belonged to.
    Act(Action),
    /// The candidate's recovery concluded: deliver `result` to every
    /// listed ticket, exactly once each. All of them receive this one
    /// result.
    Concluded { listeners: Vec<u64>, result: Result<AvailableData, RecoveryError> },
}

/// The coordinator's registry of in-flight recoveries, keyed by candidate
/// hash.
pub struct AvailabilityRecoverySubsystem {
    /// The in-flight recoveries; at most one per candidate hash.
    pub recoveries: Vec<PendingRecovery>,
}

impl AvailabilityRecoverySubsystem {
    /// Registry invariant: every entry holds a well-formed, unresolved task
    /// and at least one waiting caller, and no two entries share a
    /// candidate hash.
    pub open spec fn wf(self) -> bool {
        &&& forall|i: int|
            0 <= i < self.recoveries@.len() ==> (#[trigger] self.recoveries@[i]).task.wf()
                && self.recoveries@[i].task.phase !is Resolved
                && self.recoveries@[i].listeners@.len() >= 1
        &&& forall|i: int, j: int|
            0 <= i < j < self.recoveries@.len() ==> (
            #[trigger] self.recoveries@[i]).task.candidate_hash != (
            #[trigger] self.recoveries@[j]).task.candidate_hash
    }

    /// A recovery for this candidate hash is in flight.
    pub open spec fn contains_hash(self, h: CandidateHash) -> bool {
        exists|i: int|
            0 <= i < self.recoveries@.len() && (#[trigger] self.recoveries@[i]).task.candidate_hash
                == h
    }

    /// The registry position of this candidate's entry (unique under `wf`).
    pub open spec fn index_of(self, h: CandidateHash) -> int {
        choose|i: int|
            0 <= i < self.recoveries@.len() && (#[trigger] self.recoveries@[i]).task.candidate_hash
                == h
    }

    /// A coordinator with no recovery in flight.
    pub fn new() -> (s: AvailabilityRecoverySubsystem)
        ensures
            s.wf(),
            s.recoveries@.len() == 0,
    {
        AvailabilityRecoverySubsystem { recoveries: Vec::new() }
    }

    /// Find the registry position of a candidate hash.
    fn find(&self, h: CandidateHash) -> (r: Option<usize>)
        requires
            self.wf(),
        ensures
            r is Some <==> self.contains_hash(h),
            r matches Some(k) ==> (k as int) < self.recoveries@.len()
                && self.recoveries@[k as int].task.candidate_hash == h && k as int == self.index_of(
                h,
            ),
    {
        let mut k: usize = 0;
        while k < self.recoveries.len()
            invariant
                self.wf(),
                k <= self.recoveries@.len(),
                forall|l: int|
                    0 <= l < k ==> (#[trigger] self.recoveries@[l]).task.candidate_hash != h,
            decreases self.recoveries@.len() - k,
        {
            let entry = &self.recoveries[k];
            if entry.task.candidate_hash.0 == h.0 {
                assert(self.recoveries@[k as int].task.candidate_hash == h);
                proof {
                    // `index_of` picks some entry with this hash; by the
                    // registry's distinctness it can only be this one.
                    let w = self.index_of(h);
                    assert(self.recoveries@[w].task.candidate_hash == h);
                    assert(w == k as int);
                }
                return Some(k);
            }
            k = k + 1;
        }
        None
    }

    /// A caller asks to recover this candidate's data; `listener` is the
    /// ticket its reply will be addressed to. If a recovery for the same
    /// candidate hash is already in flight, the caller is attached to its
    /// outcome and nothing else happens — in particular no second round of
    /// requests is ever issued for a candidate. Otherwise a fresh task is
    /// registered and its first action is returned.
    pub fn recover_available_data(&mut self, receipt: &CandidateReceipt, listener: u64) -> (a:
        Option<Action>)
        requires
            old(self).wf(),
        ensures
            final(self).wf(),
            old(self).contains_hash(receipt.candidate_hash) ==> {
                let k = old(self).index_of(receipt.candidate_hash);
                &&& a is None
                &&& final(self).recoveries@.len() == old(self).recoveries@.len()
                &&& forall|j: int|
                    0 <= j < old(self).recoveries@.len() && j != k ==> final(self).recoveries@[j]
                        == old(self).recoveries@[j]
                &&& final(self).recoveries@[k].task == old(self).recoveries@[k].task
                &&& final(self).recoveries@[k].listeners@ == old(self).recoveries@[k].listeners@.push(
                    listener,
                )
            },
            !old(self).contains_hash(receipt.candidate_hash) ==> {
                &&& a == Some(Action::RequestSessionIndex { relay_parent: receipt.relay_parent })
                &&& final(self).recoveries@.len() == old(self).recoveries@.len() + 1
                &&& forall|j: int|
                    0 <= j < old(self).recoveries@.len() ==> final(self).recoveries@[j] == old(self).recoveries@[j]
                &&& final(self).recoveries@.last().task.candidate_hash == receipt.candidate_hash
                &&& final(self).recoveries@.last().task.erasure_root == receipt.erasure_root
                &&& final(self).recoveries@.last().task.relay_parent == receipt.relay_parent
                &&& final(self).recoveries@.last().task.phase is AwaitingSessionIndex
                &&& final(self).recoveries@.last().listeners@ =~= seq![listener]
            },
            final(self).contains_hash(receipt.candidate_hash),
    {
        let found = self.find(receipt.candidate_hash);
        match found {
            Some(k) => {
                let ghost pre = self.recoveries@;
                let mut entry = self.recoveries.remove(k);
                entry.listeners.push(listener);
                self.recoveries.insert(k, entry);
                proof {
                    assert(self.recoveries@ =~= pre.remove(k as int).insert(
                        k as int,
                        self.recoveries@[k as int],
                    ));
                }
                None
            },
            None => {
                let (task, action) = RecoveryTask::new(receipt);
                let mut listeners: Vec<u64> = Vec::new();
                listeners.push(listener);
                self.recoveries.push(PendingRecovery { task, listeners });
                Some(action)
            },
        }
    }

    /// The chunks held so far for this candidate, for handing to the
    /// erasure decoder when the task asks for a decode.
    pub fn held_chunks(&self, candidate_hash: CandidateHash) -> (r: Option<&Vec<ErasureChunk>>)
        requires
            self.wf(),
        ensures
            r is Some <==> self.contains_hash(candidate_hash),
            r matches Some(v) ==> v@ == self.recoveries@[self.index_of(candidate_hash)].task.store@,
    {
        let found = self.find(candidate_hash);
        match found {
            Some(k) => Some(self.recoveries[k].task.store.chunks()),
            None => None,
        }
    }

    /// Route one event to the task owning `candidate_hash` and carry its
    /// decision outward. An event for a candidate with no recovery in
    /// flight (for instance one that already concluded) changes nothing.
    /// When the task resolves, its entry is removed and every waiting
    /// caller is returned with the one shared result.
    pub fn handle_event(&mut self, candidate_hash: CandidateHash, event: Event) -> (out: Output)
        requires
            old(self).wf(),
            event matches Event::SessionInfoResponse(r) ==> (r matches Ok(Some(info))
                ==> info.validators@.len() <= u32::MAX as int),
        ensures
            final(self).wf(),
            !old(self).contains_hash(candidate_hash) ==> *final(self) == *old(self) && out
                == Output::Act(Action::Await),
            old(self).contains_hash(candidate_hash) ==> {
                let k = old(self).index_of(candidate_hash);
                &&& (out matches Output::Act(a) ==> a !is Conclude
                    && final(self).recoveries@.len() == old(self).recoveries@.len()
                    && (forall|j: int|
                    0 <= j < old(self).recoveries@.len() && j != k ==> final(self).recoveries@[j]
                        == old(self).recoveries@[j])
                            && final(self).recoveries@[k].listeners@ == old(self).recoveries@[k].listeners@
                            && final(self).recoveries@[k].task.candidate_hash
                    == candidate_hash && old(self).recoveries@[k].task.same_target(
                    final(self).recoveries@[k].task,
                ))
                &&& (out matches Output::Concluded { listeners, result } ==> final(self).recoveries@ == old(self).recoveries@.remove(k)
                    && listeners@ == old(self).recoveries@[k].listeners@)
                &&& (out matches Output::Act(a) ==> RecoveryTask::step(
                    old(self).recoveries@[k].task,
                    final(self).recoveries@[k].task,
                    event,
                    a,
                ))
                &&& (out matches Output::Concluded { listeners, result } ==> exists|
                    stepped: RecoveryTask,
                |
                    RecoveryTask::step(
                        old(self).recoveries@[k].task,
                        stepped,
                        event,
                        (Action::Conclude { result }),
                    ))
                &&& (event is DeadlineExpired && old(self).recoveries@[k].task.phase !is Decoding
                    ==> (out matches Output::Concluded { listeners, result } && result == Err::<
                    AvailableData,
                    RecoveryError,
                >(RecoveryError::Unavailable)))
                &&& (old(self).recoveries@[k].task.phase is Decoding ==> (event matches Event::DecodeResult(
                    r,
                ) ==> (r matches Ok(data) ==> (out matches Output::Concluded { listeners, result }
                    && result == Ok::<AvailableData, RecoveryError>(data))) && (r is Err ==> (
                out matches Output::Concluded { listeners, result } && result == Err::<
                    AvailableData,
                    RecoveryError,
                >(RecoveryError::InvalidErasureRoot)))))
            },
    {
        let found = self.find(candidate_hash);
        let k = match found {
            Some(k) => k,
            None => {
                return Output::Act(Action::Await);
            },
        };
        let ghost pre = self.recoveries@;
        let ghost gevent = event;
        let mut entry = self.recoveries.remove(k);
        let ghost pre_task = entry.task;
        let action = entry.task.on_event(event);
        match action {
            Action::Conclude { result } => {
                assert(self.recoveries@ =~= pre.remove(k as int));
                proof {
                    // The stepped task itself witnesses that the conclusion
                    // is one legal step of the entry's task on this event.
                    assert(RecoveryTask::step(
                        pre_task,
                        entry.task,
                        gevent,
                        (Action::Conclude { result }),
                    ));
                }
                Output::Concluded { listeners: entry.listeners, result }
            },
            other => {
                self.recoveries.insert(k, entry);
                Output::Act(other)
            },
        }
    }
}

/// Concurrent recovery requests for one candidate hash wait on one task:
/// the registry never holds two entries with the same candidate hash, so
/// both callers are resolved together, with the one result their shared
/// task concluded with.
pub proof fn lemma_one_task_per_candidate(s: AvailabilityRecoverySubsystem, i: int, j: int)
    requires
        s.wf(),
        0 <= i < s.recoveries@.len(),
        0 <= j < s.recoveries@.len(),
        s.recoveries@[i].task.candidate_hash == s.recoveries@[j].task.candidate_hash,
    ensures
        i == j,
{
}

} // verus!
