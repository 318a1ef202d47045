//! End-to-end scenarios: a five-validator session in which recovery either
//! collects enough verified chunks and decodes, or runs out of validators
//! and reports `Unavailable`.

use availability_recovery::Action;
use availability_recovery::AuthorityId;
use availability_recovery::AvailabilityRecoverySubsystem;
use availability_recovery::AvailableData;
use availability_recovery::BlockHash;
use availability_recovery::CandidateHash;
use availability_recovery::CandidateReceipt;
use availability_recovery::ChunkFetchResult;
use availability_recovery::ErasureChunk;
use availability_recovery::ErasureRoot;
use availability_recovery::Event;
use availability_recovery::Output;
use availability_recovery::PeerId;
use availability_recovery::PersistedValidationData;
use availability_recovery::RecoveryError;
use availability_recovery::SessionInfo;
use availability_recovery::ValidatorId;

const N_VALIDATORS: u64 = 5;
const SESSION_INDEX: u32 = 10;

fn current_block() -> BlockHash {
    BlockHash(1)
}

fn authority_ids() -> Vec<AuthorityId> {
    (0..N_VALIDATORS).map(AuthorityId).collect()
}

fn peer_of(validator: u64) -> PeerId {
    PeerId(100 + validator)
}

fn session_info() -> SessionInfo {
    SessionInfo {
        validators: (0..N_VALIDATORS).map(ValidatorId).collect(),
        discovery_keys: authority_ids(),
    }
}

fn available_data() -> AvailableData {
    AvailableData {
        validation_data: PersistedValidationData {
            parent_head: vec![7, 8, 9],
            block_number: 0,
            max_pov_size: 1024,
        },
        pov: vec![42; 64],
    }
}

fn chunk_of(validator: u64) -> ErasureChunk {
    ErasureChunk {
        chunk: vec![validator as u8; 8],
        index: validator as u32,
        proof: vec![vec![validator as u8]],
    }
}

fn candidate() -> CandidateReceipt {
    CandidateReceipt {
        relay_parent: current_block(),
        erasure_root: ErasureRoot(7),
        candidate_hash: CandidateHash(100),
    }
}

/// Walk a fresh recovery up to the point where chunk requests begin: the
/// two session lookups are answered, and all five validators connect. The
/// returned action is what the task wants next (the first chunk request).
fn run_until_connected(
    sub: &mut AvailabilityRecoverySubsystem,
    receipt: &CandidateReceipt,
    listener: u64,
) -> Action {
    let first = sub
        .recover_available_data(receipt, listener)
        .expect("a fresh candidate spawns a task");
    assert_eq!(first, Action::RequestSessionIndex { relay_parent: receipt.relay_parent });
    let hash = receipt.hash();

    let out = sub.handle_event(hash, Event::SessionIndexResponse(Ok(SESSION_INDEX)));
    assert_eq!(out, Output::Act(Action::RequestSessionInfo { session_index: SESSION_INDEX }));

    let out = sub.handle_event(hash, Event::SessionInfoResponse(Ok(Some(session_info()))));
    match out {
        Output::Act(Action::ConnectToValidators { discovery_keys }) => {
            assert_eq!(discovery_keys, authority_ids());
        }
        other => panic!("expected a connect request, got {:?}", other),
    }

    let mut next = Action::Await;
    for v in 0..N_VALIDATORS {
        let out = sub.handle_event(hash, Event::ValidatorConnected(AuthorityId(v), peer_of(v)));
        match out {
            Output::Act(a) => {
                if a != Action::Await {
                    next = a;
                }
            }
            other => panic!("connecting must not conclude, got {:?}", other),
        }
    }
    next
}

/// Answer chunk requests until the task either asks for a decode or
/// concludes; `respond` decides what each asked validator sends back.
fn serve_chunk_requests(
    sub: &mut AvailabilityRecoverySubsystem,
    hash: CandidateHash,
    mut pending: Action,
    respond: impl Fn(u32) -> ChunkFetchResult,
) -> Result<Action, (Vec<u64>, Result<AvailableData, RecoveryError>)> {
    loop {
        match pending {
            Action::RequestChunk { peer, candidate_hash, validator } => {
                assert_eq!(candidate_hash, hash);
                assert_eq!(peer, peer_of(validator as u64));
                let out =
                    sub.handle_event(hash, Event::ChunkResponse(validator, respond(validator)));
                match out {
                    Output::Act(a) => pending = a,
                    Output::Concluded { listeners, result } => return Err((listeners, result)),
                }
            }
            other => return Ok(other),
        }
    }
}

#[test]
fn availability_is_recovered() {
    let mut sub = AvailabilityRecoverySubsystem::new();
    let receipt = candidate();
    let hash = receipt.hash();

    // All five validators hold their own verified chunk.
    let first_request = run_until_connected(&mut sub, &receipt, 1);
    let decode = serve_chunk_requests(&mut sub, hash, first_request, |v| {
        ChunkFetchResult::Chunk { chunk: chunk_of(v as u64), verifies: true }
    })
    .expect("enough verified chunks must lead to a decode, not a conclusion");
    assert_eq!(decode, Action::Decode { n_validators: N_VALIDATORS as usize });

    let held = sub.held_chunks(hash).expect("the recovery is in flight").clone();
    assert!(held.len() >= 2);
    let out = sub.handle_event(hash, Event::DecodeResult(Ok(available_data())));
    match out {
        Output::Concluded { listeners, result } => {
            assert_eq!(listeners, vec![1]);
            // Recovered data should match the original one.
            assert_eq!(result.unwrap(), available_data());
        }
        other => panic!("expected a conclusion, got {:?}", other),
    }

    // Another candidate, but no validator ever supplies a chunk.
    let new_candidate = CandidateReceipt {
        relay_parent: current_block(),
        erasure_root: ErasureRoot(0),
        candidate_hash: CandidateHash(0),
    };
    let new_hash = new_candidate.hash();
    let first_request = run_until_connected(&mut sub, &new_candidate, 2);
    let concluded =
        serve_chunk_requests(&mut sub, new_hash, first_request, |_| ChunkFetchResult::Failed)
            .expect_err("with every request failing the recovery must conclude");
    let (listeners, result) = concluded;
    assert_eq!(listeners, vec![2]);
    // A request times out with `Unavailable` error.
    assert_eq!(result.unwrap_err(), RecoveryError::Unavailable);
}

#[test]
fn five_validators_reach_threshold() {
    let mut sub = AvailabilityRecoverySubsystem::new();
    let receipt = candidate();
    let hash = receipt.hash();
    let first_request = run_until_connected(&mut sub, &receipt, 7);
    let decode = serve_chunk_requests(&mut sub, hash, first_request, |v| {
        ChunkFetchResult::Chunk { chunk: chunk_of(v as u64), verifies: true }
    })
    .expect("a decode must be requested");
    assert_eq!(decode, Action::Decode { n_validators: 5 });
    // With five validators the threshold is two chunks.
    assert_eq!(sub.held_chunks(hash).unwrap().len(), 2);
    let out = sub.handle_event(hash, Event::DecodeResult(Ok(available_data())));
    assert_eq!(out, Output::Concluded { listeners: vec![7], result: Ok(available_data()) });
}

#[test]
fn five_validators_no_responses() {
    let mut sub = AvailabilityRecoverySubsystem::new();
    let receipt = candidate();
    let hash = receipt.hash();
    let first_request = run_until_connected(&mut sub, &receipt, 3);
    let (listeners, result) =
        serve_chunk_requests(&mut sub, hash, first_request, |_| ChunkFetchResult::NoChunk)
            .expect_err("with no chunks anywhere the recovery must conclude");
    assert_eq!(listeners, vec![3]);
    assert_eq!(result, Err(RecoveryError::Unavailable));
    // The entry is gone: a late event for this candidate changes nothing.
    let out = sub.handle_event(hash, Event::DeadlineExpired);
    assert_eq!(out, Output::Act(Action::Await));
}

#[test]
fn invalid_chunks_are_not_counted_and_do_not_abort() {
    let mut sub = AvailabilityRecoverySubsystem::new();
    let receipt = candidate();
    let hash = receipt.hash();
    let first_request = run_until_connected(&mut sub, &receipt, 1);
    // The first three validators return garbage that fails proof
    // verification; the last two hold good chunks.
    let decode = serve_chunk_requests(&mut sub, hash, first_request, |v| {
        ChunkFetchResult::Chunk { chunk: chunk_of(v as u64), verifies: v >= 3 }
    })
    .expect("the two good chunks still reach the threshold");
    assert_eq!(decode, Action::Decode { n_validators: 5 });
    let held = sub.held_chunks(hash).unwrap();
    assert_eq!(held.len(), 2);
    assert!(held.iter().all(|c| c.index >= 3));
    let out = sub.handle_event(hash, Event::DecodeResult(Ok(available_data())));
    assert_eq!(out, Output::Concluded { listeners: vec![1], result: Ok(available_data()) });
}

#[test]
fn duplicate_chunk_index_is_ignored() {
    let mut sub = AvailabilityRecoverySubsystem::new();
    let receipt = candidate();
    let hash = receipt.hash();
    let first_request = run_until_connected(&mut sub, &receipt, 1);
    // Validators 1 and 2 maliciously replay validator 0's chunk; only
    // validator 3 finally supplies a second distinct index.
    let decode = serve_chunk_requests(&mut sub, hash, first_request, |v| {
        if v >= 1 && v <= 2 {
            ChunkFetchResult::Chunk { chunk: chunk_of(0), verifies: true }
        } else {
            ChunkFetchResult::Chunk { chunk: chunk_of(v as u64), verifies: true }
        }
    })
    .expect("two distinct indices are eventually held");
    assert_eq!(decode, Action::Decode { n_validators: 5 });
    let held = sub.held_chunks(hash).unwrap();
    let mut indices: Vec<u32> = held.iter().map(|c| c.index).collect();
    indices.sort();
    assert_eq!(indices, vec![0, 3]);
}

#[test]
fn decode_failure_reports_invalid_erasure_root() {
    let mut sub = AvailabilityRecoverySubsystem::new();
    let receipt = candidate();
    let hash = receipt.hash();
    let first_request = run_until_connected(&mut sub, &receipt, 1);
    let decode = serve_chunk_requests(&mut sub, hash, first_request, |v| {
        ChunkFetchResult::Chunk { chunk: chunk_of(v as u64), verifies: true }
    })
    .expect("a decode must be requested");
    assert_eq!(decode, Action::Decode { n_validators: 5 });
    let out = sub.handle_event(
        hash,
        Event::DecodeResult(Err(availability_recovery::DecodeError)),
    );
    assert_eq!(
        out,
        Output::Concluded { listeners: vec![1], result: Err(RecoveryError::InvalidErasureRoot) },
    );
}

#[test]
fn deadline_expiry_resolves_unavailable() {
    let mut sub = AvailabilityRecoverySubsystem::new();
    let receipt = candidate();
    let hash = receipt.hash();
    let first_request = run_until_connected(&mut sub, &receipt, 1);
    assert!(matches!(first_request, Action::RequestChunk { .. }));
    let out = sub.handle_event(hash, Event::DeadlineExpired);
    assert_eq!(
        out,
        Output::Concluded { listeners: vec![1], result: Err(RecoveryError::Unavailable) },
    );
}

#[test]
fn duplicate_requests_share_one_task_and_one_outcome() {
    let mut sub = AvailabilityRecoverySubsystem::new();
    let receipt = candidate();
    let hash = receipt.hash();
    let first = sub.recover_available_data(&receipt, 1);
    assert!(first.is_some());
    // The second request for the same candidate attaches to the running
    // task: no new task, no new network activity.
    let second = sub.recover_available_data(&receipt, 2);
    assert!(second.is_none());
    let out = sub.handle_event(hash, Event::SessionIndexResponse(Err(availability_recovery::QueryError)));
    assert_eq!(
        out,
        Output::Concluded { listeners: vec![1, 2], result: Err(RecoveryError::Unavailable) },
    );
}

#[test]
fn late_connections_resume_requesting() {
    let mut sub = AvailabilityRecoverySubsystem::new();
    let receipt = candidate();
    let hash = receipt.hash();
    sub.recover_available_data(&receipt, 1).unwrap();
    sub.handle_event(hash, Event::SessionIndexResponse(Ok(SESSION_INDEX)));
    sub.handle_event(hash, Event::SessionInfoResponse(Ok(Some(session_info()))));

    // Only validator 0 is reachable at first; it is asked and fails.
    let out = sub.handle_event(hash, Event::ValidatorConnected(AuthorityId(0), peer_of(0)));
    assert_eq!(
        out,
        Output::Act(Action::RequestChunk { peer: peer_of(0), candidate_hash: hash, validator: 0 }),
    );
    let out = sub.handle_event(hash, Event::ChunkResponse(0, ChunkFetchResult::Failed));
    // Nobody else is reachable yet, but untried validators remain: wait.
    assert_eq!(out, Output::Act(Action::Await));

    // Validator 1 connects late and supplies its chunk.
    let out = sub.handle_event(hash, Event::ValidatorConnected(AuthorityId(1), peer_of(1)));
    assert_eq!(
        out,
        Output::Act(Action::RequestChunk { peer: peer_of(1), candidate_hash: hash, validator: 1 }),
    );
    let out = sub.handle_event(
        hash,
        Event::ChunkResponse(1, ChunkFetchResult::Chunk { chunk: chunk_of(1), verifies: true }),
    );
    assert_eq!(out, Output::Act(Action::Await));

    // Validator 2 connects late as well; its chunk reaches the threshold.
    let out = sub.handle_event(hash, Event::ValidatorConnected(AuthorityId(2), peer_of(2)));
    assert_eq!(
        out,
        Output::Act(Action::RequestChunk { peer: peer_of(2), candidate_hash: hash, validator: 2 }),
    );
    let out = sub.handle_event(
        hash,
        Event::ChunkResponse(2, ChunkFetchResult::Chunk { chunk: chunk_of(2), verifies: true }),
    );
    assert_eq!(out, Output::Act(Action::Decode { n_validators: 5 }));
}

#[test]
fn deadline_before_session_lookup_answers() {
    let mut sub = AvailabilityRecoverySubsystem::new();
    let receipt = candidate();
    sub.recover_available_data(&receipt, 4).unwrap();
    let out = sub.handle_event(receipt.hash(), Event::DeadlineExpired);
    assert_eq!(
        out,
        Output::Concluded { listeners: vec![4], result: Err(RecoveryError::Unavailable) },
    );
}
