//! The agent: requests, answers, kept results, permits and passkeys.

use hmac::{Hmac, KeyInit, Mac};
use librarian_vault_agent::coordinator::{Coordinator, RequestKey};
use librarian_vault_agent::dispatch::{
    execute, execute_decoded, request_deadline, DispatchContext, RequestAdmission,
};
use librarian_vault_agent::errors::{
    AccountError, ConnectionError, CreateError, DispatchError, PasskeyVerificationError,
    ProtocolError, RuntimeStartError, StorageError, UnlockError,
};
use librarian_vault_agent::filesystem::NameProbe;
use librarian_vault_agent::fingerprint::request_fingerprint;
use librarian_vault_agent::idempotency::{
    finish_replay, CachedOutcome, IdempotencyState, Reservation, MAX_IDEMPOTENCY_RESULTS,
};
use librarian_vault_agent::lifecycle::{VaultAgent, VaultBinding};
use librarian_vault_agent::operations::{encode_summary_page, record_outcome};
use librarian_vault_agent::outcome::{
    bounded_response, map_account_error, map_operation_decode_error,
    map_passkey_verification_error, should_cache, ExecutionOutcome, Verdict,
};
use librarian_vault_agent::ownership::{FileIdentity, OwnershipRecord, OwnershipRegistry};
use librarian_vault_agent::passkeys::{
    passkey_binding_failure, PendingPasskeyCreation, PendingPasskeyCreationKey,
};
use librarian_vault_agent::permits::{
    lock, release_failed_commit_guard, CounterPermit, FlagPermit,
};
use librarian_vault_agent::protocol::{
    decode_state, AgentState, BeginRequestError, OperationCode, OperationProfile,
    PublicErrorCode, RequestCompletion, RequestPermit, ResponseEnvelope, RetryCategory,
};
use librarian_vault_agent::runtime::{
    shutdown_waited, AgentRuntime, ShutdownEvent, ShutdownStep, StartRequest,
};
use librarian_vault_agent::signals::{
    before_commit, post_secret_operation, pre_secret_operation, secret_operation_should_abort,
    Signals,
};

const MAX_IN_FLIGHT: usize = 8;

fn record(name: &str, file: Option<u64>) -> OwnershipRecord {
    OwnershipRecord {
        normalized_path: name.as_bytes().to_vec(),
        identity: file.map(|file| FileIdentity { volume: 1, file }),
    }
}

fn start_request(name: &str, presence: NameProbe) -> StartRequest {
    StartRequest {
        vault_path: name.as_bytes().to_vec(),
        vault_path_is_absolute: true,
        has_prompt: false,
        has_prompt_state: false,
        vault_record: Ok(record(name, None)),
        state_record: None,
        presence,
    }
}

struct World {
    registry: OwnershipRegistry,
    next_token: u64,
}

impl World {
    fn new() -> World {
        World {
            registry: OwnershipRegistry::new(),
            next_token: 1,
        }
    }

    fn start(&mut self, name: &str) -> AgentRuntime {
        AgentRuntime::start(
            start_request(name, NameProbe::NotFound),
            &mut self.registry,
            &mut self.next_token,
        )
        .ok()
        .expect("runtime")
    }
}

fn runtime() -> AgentRuntime {
    World::new().start("/vault.db")
}

fn profile(code: OperationCode) -> OperationProfile {
    let locked = matches!(
        code,
        OperationCode::Status
            | OperationCode::CreateVault
            | OperationCode::UnlockMasterPassword
            | OperationCode::UnlockWindowsHello
            | OperationCode::Lock
    );
    OperationProfile {
        code,
        wire_code: 7,
        requires_unlocked_epoch: !locked,
        requires_idempotency_key: false,
    }
}

fn permit(code: OperationCode, request_id: u64, unlock_epoch: u64) -> RequestPermit {
    RequestPermit {
        operation: profile(code),
        request_id,
        unlock_epoch,
        effective_timeout_ms: 5_000,
    }
}

fn admitted(
    agent: &mut AgentRuntime,
    connection_id: [u8; 16],
    code: OperationCode,
) -> DispatchContext {
    let epoch = agent.unlock_epoch();
    let admission = agent.admit_request(
        Ok(permit(code, 1, epoch)),
        connection_id,
        [0x31; 16],
        1_000,
        1_000,
        MAX_IN_FLIGHT,
        |_| Ok(RequestCompletion::Completed),
        |_| false,
    );
    match admission {
        Ok(RequestAdmission::Admitted(context)) => context,
        _ => panic!("the request must be admitted"),
    }
}

fn encode_status(state: AgentState, epoch: u64) -> Result<Vec<u8>, ProtocolError> {
    let mut bytes = vec![state.code()];
    bytes.extend_from_slice(&epoch.to_be_bytes());
    Ok(bytes)
}

fn finish(
    agent: &AgentRuntime,
    context: &DispatchContext,
    outcome: ExecutionOutcome,
    completion: RequestCompletion,
) -> ResponseEnvelope {
    agent
        .finish_dispatch(context, outcome, Ok(completion), false, encode_status)
        .ok()
        .expect("terminal response")
}

fn secret() -> ExecutionOutcome {
    ExecutionOutcome::success(b"SECRET-CANARY".to_vec())
}

fn open_vault(vault_id: [u8; 16]) -> VaultAgent<u8> {
    VaultAgent::create(
        b"/vault.db".to_vec(),
        9,
        VaultBinding {
            vault_id,
            key_epoch: 1,
        },
        vec![1],
        vec![2],
        1,
    )
}

fn signals() -> Signals {
    Signals {
        lock_active: false,
        cancelled: false,
        expired: false,
        state: AgentState::Unlocked,
        epoch_current: true,
    }
}

// Permits

#[test]
fn global_and_serial_resource_permits_are_exact_and_reusable() {
    let mut counter = 0_usize;
    let mut permits = Vec::new();
    for _ in 0..MAX_IN_FLIGHT {
        permits.push(CounterPermit::acquire(&mut counter, MAX_IN_FLIGHT));
    }
    assert!(permits.iter().all(Option::is_some));
    assert!(CounterPermit::acquire(&mut counter, MAX_IN_FLIGHT).is_none());
    for permit in permits.into_iter().flatten() {
        permit.release(&mut counter);
    }
    assert_eq!(counter, 0);
    assert!(CounterPermit::acquire(&mut counter, MAX_IN_FLIGHT).is_some());

    let mut flag = false;
    let permit = FlagPermit::acquire(&mut flag).expect("first serial permit");
    assert!(FlagPermit::acquire(&mut flag).is_none());
    permit.release(&mut flag);
    assert!(FlagPermit::acquire(&mut flag).is_some());
}

#[test]
fn mutation_commit_guard_is_released_before_failure_handling() {
    let mut commit_guard = Some(7_u8);
    let failed: Result<(), AccountError> = Err(AccountError::Failed);
    release_failed_commit_guard(&failed, &mut commit_guard);
    assert!(commit_guard.is_none());

    let mut kept = Some(7_u8);
    let stored: Result<(), AccountError> = Ok(());
    release_failed_commit_guard(&stored, &mut kept);
    assert_eq!(kept, Some(7));
}

#[test]
fn poisoned_sections_are_internal_failures() {
    assert_eq!(lock::<u8, ()>(Ok(4)), Ok(4));
    assert_eq!(lock::<u8, ()>(Err(())), Err(DispatchError::Internal));
    let mut flag = true;
    let taken_over = FlagPermit::take_over_active(&flag);
    taken_over.release(&mut flag);
    assert!(!flag);
    let mut raised = false;
    let handed = FlagPermit::acquire(&mut raised).expect("flag").handoff();
    handed.release(&mut raised);
    assert!(raised);
}

// Kept results

fn cached(key: [u8; 16], fingerprint: [u8; 32]) -> CachedOutcome {
    CachedOutcome {
        key,
        request_fingerprint: fingerprint,
        error: None,
        retry: RetryCategory::Never,
        body: Vec::new(),
    }
}

fn keeps(state: &IdempotencyState, key: [u8; 16]) -> bool {
    state.cached.iter().any(|entry| entry.key == key)
}

#[test]
fn idempotency_cache_rotates_completed_entries_without_permanent_busy() {
    let mut state = IdempotencyState::new();
    for sequence in 0..MAX_IDEMPOTENCY_RESULTS {
        let key = (sequence as u128).to_be_bytes();
        let fingerprint = [(sequence % 256) as u8; 32];
        state.cached.push(cached(key, fingerprint));
    }
    let newest = u128::MAX.to_be_bytes();
    let fingerprint = [0x77; 32];
    assert!(matches!(
        state.reserve(newest, fingerprint),
        Reservation::Reserved
    ));
    let outcome = state
        .finish_execution(newest, fingerprint, Ok(ExecutionOutcome::success(Vec::new())))
        .ok()
        .expect("rotated execution");
    assert_eq!(outcome.verdict.error, None);
    assert_eq!(state.cached.len(), MAX_IDEMPOTENCY_RESULTS);
    assert!(state.in_flight.is_empty());
    assert!(!keeps(&state, 0_u128.to_be_bytes()));
    assert!(keeps(&state, newest));
}

#[test]
fn unlocked_idempotency_fingerprints_are_epoch_scoped() {
    let key = [0x19; 32];
    let body = b"disposable canonical request body";
    let adding = profile(OperationCode::AddAccount);
    let first_epoch = request_fingerprint(&key, adding, 7, body).expect("fingerprint");
    let next_epoch = request_fingerprint(&key, adding, 8, body).expect("fingerprint");
    assert_ne!(
        first_epoch, next_epoch,
        "unlocked-operation cache identity must change with the admitted epoch"
    );
    let status = profile(OperationCode::Status);
    let first_status = request_fingerprint(&key, status, 7, body).expect("fingerprint");
    let next_status = request_fingerprint(&key, status, 8, body).expect("fingerprint");
    assert_eq!(
        first_status, next_status,
        "operations that do not require an unlocked epoch retain stable replay identity"
    );
}

#[test]
fn idempotency_scope_tracks_the_authenticated_cryptographic_vault() {
    let mut state = IdempotencyState::new();
    let cached_key = [0x41; 16];
    state.cached.push(cached(cached_key, [0x42; 32]));

    let first_vault = [0x43; 16];
    state
        .initialize_idempotency_vault(first_vault)
        .expect("initial vault binding");
    assert!(state.cached.is_empty());
    state.cached.push(cached(cached_key, [0x44; 32]));
    state.in_flight.push([0x45; 16]);

    state
        .bind_authenticated_idempotency_vault(first_vault)
        .expect("same vault binding");
    assert!(keeps(&state, cached_key));
    assert_eq!(
        state.bind_authenticated_idempotency_vault([0x46; 16]),
        Err(DispatchError::Internal)
    );
    state.in_flight.clear();
    state
        .bind_authenticated_idempotency_vault([0x46; 16])
        .expect("changed vault binding");
    assert_eq!(state.authenticated_vault_id, Some([0x46; 16]));
    assert!(state.cached.is_empty());
    assert_eq!(
        state.initialize_idempotency_vault([0x47; 16]),
        Err(DispatchError::Internal)
    );
}

#[test]
fn terminal_operation_failures_remain_idempotent() {
    let mut state = IdempotencyState::new();
    let key = [0x44; 16];
    let fingerprint = [0x45; 32];
    state.in_flight.push(key);
    let failed = Verdict::failed();
    assert!(should_cache(&failed));
    state
        .complete(
            key,
            Some(CachedOutcome {
                key,
                request_fingerprint: fingerprint,
                error: failed.error,
                retry: failed.retry,
                body: Vec::new(),
            }),
        )
        .expect("cache terminal failure");

    let replay = match state.reserve(key, fingerprint) {
        Reservation::Replay(replay) => finish_replay(replay, Ok(None)).ok().expect("replay"),
        _ => panic!("a cached terminal result must not execute again"),
    };
    assert_eq!(replay.verdict.error, Some(PublicErrorCode::OperationFailed));
    assert!(replay.verdict.replayed);
}

#[test]
fn idempotency_key_is_reserved_before_body_decoding_or_execution() {
    let mut state = IdempotencyState::new();
    let key = [0x47; 16];
    let fingerprint = [0x48; 32];
    assert!(matches!(state.reserve(key, fingerprint), Reservation::Reserved));
    assert!(state.in_flight.contains(&key));
    assert!(matches!(state.reserve(key, fingerprint), Reservation::Busy));

    let outcome = state
        .finish_execution(
            key,
            fingerprint,
            Ok(ExecutionOutcome::without_body(Verdict::invalid())),
        )
        .ok()
        .expect("invalid request outcome");
    assert_eq!(outcome.verdict.error, Some(PublicErrorCode::InvalidRequest));
    assert!(state.in_flight.is_empty());
    assert_eq!(state.cached[0].request_fingerprint, fingerprint);
    assert!(matches!(state.reserve(key, [0x49; 32]), Reservation::Conflict));
}

#[test]
fn broken_and_transient_executions_are_not_kept() {
    let mut state = IdempotencyState::new();
    let key = [0x50; 16];
    assert!(matches!(state.reserve(key, [1; 32]), Reservation::Reserved));
    let broken = state.finish_execution(key, [1; 32], Err(DispatchError::Internal));
    assert!(broken.is_err());
    assert!(state.cached.is_empty() && state.in_flight.is_empty());
    for verdict in [
        Verdict::busy(),
        Verdict::locked(),
        Verdict::cancelled(),
        Verdict::deadline(),
        Verdict::retryable_failure(),
    ] {
        assert!(!should_cache(&verdict));
        assert!(matches!(state.reserve(key, [1; 32]), Reservation::Reserved));
        let outcome = ExecutionOutcome::without_body(verdict);
        assert!(state.finish_execution(key, [1; 32], Ok(outcome)).is_ok());
        assert!(!keeps(&state, key));
    }
}

#[test]
fn full_reservations_are_busy() {
    let mut state = IdempotencyState::new();
    for sequence in 0..MAX_IDEMPOTENCY_RESULTS {
        let key = (sequence as u128).to_be_bytes();
        assert!(matches!(state.reserve(key, [0; 32]), Reservation::Reserved));
    }
    assert!(matches!(
        state.reserve(u128::MAX.to_be_bytes(), [0; 32]),
        Reservation::Busy
    ));
    state.abandon(0_u128.to_be_bytes());
    assert!(matches!(
        state.reserve(u128::MAX.to_be_bytes(), [0; 32]),
        Reservation::Reserved
    ));
}

#[test]
fn fingerprint_is_the_keyed_digest_of_the_labelled_request() {
    let key = [0x21; 32];
    let operation = OperationProfile {
        wire_code: 0x0102,
        ..profile(OperationCode::AddAccount)
    };
    let found = request_fingerprint(&key, operation, 5, b"body").expect("fingerprint");
    let mut mac = Hmac::<sha2::Sha256>::new_from_slice(&key).expect("key");
    mac.update(b"Librarian idempotency request v2\0");
    mac.update(&[1, 2, 1]);
    mac.update(&5_u64.to_be_bytes());
    mac.update(b"body");
    let expected: [u8; 32] = mac.finalize().into_bytes().into();
    assert_eq!(found, expected);
}

// Starting

#[test]
fn vault_path_has_exactly_one_runtime_owner() {
    let mut world = World::new();
    let first = world.start("/vault.db");
    assert_eq!(first.state(), AgentState::NoVault);
    assert_eq!(first.unlock_epoch(), 1);
    let second = AgentRuntime::start(
        start_request("/vault.db", NameProbe::NotFound),
        &mut world.registry,
        &mut world.next_token,
    );
    assert_eq!(second.err(), Some(RuntimeStartError::AlreadyOwned));
    world.registry.release(first.ownership.token);
    let third = world.start("/vault.db");
    assert_ne!(third.ownership.token, first.ownership.token);
}

#[test]
fn unusable_starts_claim_nothing() {
    let mut world = World::new();
    let mut refused = |request: StartRequest| {
        AgentRuntime::start(request, &mut world.registry, &mut world.next_token).err()
    };
    let good = || start_request("/vault.db", NameProbe::NotFound);
    assert_eq!(
        refused(StartRequest { has_prompt: true, ..good() }),
        Some(RuntimeStartError::InvalidLocalStatePath)
    );
    assert_eq!(
        refused(StartRequest { vault_path_is_absolute: false, ..good() }),
        Some(RuntimeStartError::InvalidVaultPath)
    );
    assert_eq!(
        refused(StartRequest {
            vault_record: Err(RuntimeStartError::InvalidVaultPath),
            ..good()
        }),
        Some(RuntimeStartError::InvalidVaultPath)
    );
    assert_eq!(
        refused(StartRequest {
            state_record: Some(Err(RuntimeStartError::InvalidVaultPath)),
            ..good()
        }),
        Some(RuntimeStartError::InvalidLocalStatePath)
    );
    assert_eq!(
        refused(StartRequest {
            state_record: Some(Ok(record("/vault.db", None))),
            ..good()
        }),
        Some(RuntimeStartError::InvalidLocalStatePath)
    );
    assert_eq!(
        refused(start_request("/vault.db", NameProbe::Failed)),
        Some(RuntimeStartError::InvalidVaultPath)
    );
    assert!(world.registry.entries.is_empty());
    assert_eq!(
        AgentRuntime::start_with_key(
            good(),
            Err(RuntimeStartError::Internal),
            &mut world.registry,
            &mut world.next_token
        )
        .err(),
        Some(RuntimeStartError::Internal)
    );
    let found = AgentRuntime::start_with_key(
        start_request("/vault.db", NameProbe::Found),
        Ok([7; 32]),
        &mut world.registry,
        &mut world.next_token,
    )
    .ok()
    .expect("runtime");
    assert_eq!(found.state(), AgentState::Locked);
    assert_eq!(found.idempotency_fingerprint_key, [7; 32]);
}

#[test]
fn every_stored_state_is_read_back() {
    for state in [
        AgentState::Starting,
        AgentState::NoVault,
        AgentState::Locked,
        AgentState::Unlocking,
        AgentState::Unlocked,
        AgentState::Updating,
        AgentState::ShuttingDown,
    ] {
        assert_eq!(decode_state(state.code()), state);
    }
    assert_eq!(decode_state(200), AgentState::ShuttingDown);
}

// Admission

#[test]
fn transport_admission_callback_skips_connection_fatal_headers() {
    let mut agent = runtime();
    let result = agent.admit_request(
        Err(BeginRequestError::Connection(ConnectionError::InvalidFrame)),
        [0x76; 16],
        [1; 16],
        0,
        0,
        MAX_IN_FLIGHT,
        |_| Ok(RequestCompletion::Completed),
        |_| false,
    );
    assert!(matches!(
        result,
        Err(DispatchError::Connection(ConnectionError::InvalidFrame))
    ));
    assert_eq!(agent.coordinator.global_in_flight, 0);
}

fn rejection(agent: &mut AgentRuntime, error: BeginRequestError, now: u64) -> ResponseEnvelope {
    match agent.admit_request(
        Err(error),
        [0x76; 16],
        [0x99; 16],
        1_000,
        now,
        MAX_IN_FLIGHT,
        |_| Ok(RequestCompletion::Completed),
        |_| false,
    ) {
        Ok(RequestAdmission::Rejected(response)) => response,
        _ => panic!("the request must be rejected"),
    }
}

#[test]
fn rejected_requests_get_their_public_answer() {
    let mut agent = runtime();
    let unauthorized = rejection(&mut agent, BeginRequestError::Unauthorized, 0);
    assert_eq!(
        unauthorized.error,
        Some(PublicErrorCode::UnauthorizedOperation)
    );
    assert_eq!(unauthorized.retry, RetryCategory::Never);
    assert_eq!(unauthorized.correlation, [0x99; 16]);
    let stale = rejection(&mut agent, BeginRequestError::StaleEpoch, 0);
    assert_eq!(stale.error, Some(PublicErrorCode::Locked));
    assert_eq!(stale.retry, RetryCategory::AfterUnlock);
    let missing = rejection(&mut agent, BeginRequestError::MissingIdempotencyKey, 0);
    assert_eq!(missing.error, Some(PublicErrorCode::InvalidRequest));
}

#[test]
fn expired_admission_reports_deadline_when_connection_capacity_is_full() {
    let mut agent = runtime();
    let busy = BeginRequestError::Busy {
        effective_timeout_ms: 50,
    };
    let early = rejection(&mut agent, busy, 50_000_999);
    assert_eq!(early.error, Some(PublicErrorCode::Busy));
    assert_eq!(early.retry, RetryCategory::Backoff);
    let late = rejection(&mut agent, busy, 50_001_000);
    assert_eq!(late.error, Some(PublicErrorCode::DeadlineExceeded));
    assert_eq!(late.retry, RetryCategory::Never);
}

#[test]
fn expired_admission_reports_deadline_when_global_capacity_is_full() {
    let mut agent = runtime();
    agent.coordinator.global_in_flight = MAX_IN_FLIGHT;
    let short = RequestPermit {
        effective_timeout_ms: 50,
        ..permit(OperationCode::Status, 1, 1)
    };
    let mut answers = Vec::new();
    for now in [1_000_u64, 100_000_000] {
        let admission = agent.admit_request(
            Ok(short),
            [0x78; 16],
            [1; 16],
            1_000,
            now,
            MAX_IN_FLIGHT,
            |_| Ok(RequestCompletion::Completed),
            |_| false,
        );
        match admission {
            Ok(RequestAdmission::Rejected(response)) => answers.push(response.error),
            _ => panic!("the request must be rejected"),
        }
    }
    assert_eq!(
        answers,
        vec![
            Some(PublicErrorCode::Busy),
            Some(PublicErrorCode::DeadlineExceeded)
        ]
    );
    assert_eq!(agent.coordinator.global_in_flight, MAX_IN_FLIGHT);
    let broken = agent.admit_request(
        Ok(short),
        [0x78; 16],
        [1; 16],
        1_000,
        1_000,
        MAX_IN_FLIGHT,
        |_| Err(ConnectionError::ConnectionClosed),
        |_| false,
    );
    assert!(matches!(
        broken,
        Err(DispatchError::Connection(ConnectionError::ConnectionClosed))
    ));
}

#[test]
fn request_deadlines_count_from_admission() {
    assert_eq!(request_deadline(5, 0), Ok(5));
    assert_eq!(request_deadline(1_000, 50), Ok(50_001_000));
    assert_eq!(
        request_deadline(u64::MAX, 1),
        Err(DispatchError::Internal)
    );
}

#[test]
fn admitted_requests_are_registered_until_they_end() {
    let mut agent = runtime();
    let context = admitted(&mut agent, [0x11; 16], OperationCode::Status);
    assert_eq!(context.deadline, 5_000_001_000);
    assert_eq!(agent.coordinator.global_in_flight, 1);
    let again = agent.admit_request(
        Ok(permit(OperationCode::Status, 1, 1)),
        [0x11; 16],
        [1; 16],
        0,
        0,
        MAX_IN_FLIGHT,
        |_| Ok(RequestCompletion::Completed),
        |_| false,
    );
    assert!(matches!(again, Err(DispatchError::Internal)));
    assert_eq!(agent.coordinator.global_in_flight, 1);
    agent.end_request(&context.key, false);
    assert_eq!(agent.coordinator.global_in_flight, 0);
    assert!(agent.coordinator.running.is_empty());
}

#[test]
fn request_ordering_precedes_admission_gate_for_cancellation() {
    let mut agent = runtime();
    let admission = agent.admit_request(
        Ok(permit(OperationCode::Status, 1, 1)),
        [0x11; 16],
        [1; 16],
        0,
        0,
        MAX_IN_FLIGHT,
        |_| Ok(RequestCompletion::Completed),
        |_| true,
    );
    let context = match admission {
        Ok(RequestAdmission::Admitted(context)) => context,
        _ => panic!("the request must be admitted"),
    };
    assert!(agent.coordinator.is_cancelled(&context.key));
    let response = finish(&agent, &context, secret(), RequestCompletion::Completed);
    assert_eq!(response.error, Some(PublicErrorCode::Cancelled));
}

#[test]
fn cancellations_reach_one_request_and_disconnects_reach_all() {
    let mut agent = runtime();
    let first = admitted(&mut agent, [1; 16], OperationCode::Status);
    let second = admitted(&mut agent, [2; 16], OperationCode::Status);
    assert!(agent.cancel_request([1; 16], 1));
    assert!(!agent.cancel_request([1; 16], 2));
    assert!(agent.coordinator.is_cancelled(&first.key));
    assert!(!agent.coordinator.is_cancelled(&second.key));
    assert_eq!(
        agent.apply_cancel(Err(ConnectionError::InvalidFrame), [2; 16], 1),
        Err(DispatchError::Connection(ConnectionError::InvalidFrame))
    );
    assert!(!agent.coordinator.is_cancelled(&second.key));
    let key = PendingPasskeyCreationKey {
        connection_id: [2; 16],
        transaction_id: [9; 16],
    };
    agent.pending_passkey_creations.insert(key, creation(1));
    agent.disconnect([2; 16]);
    assert!(agent.coordinator.is_cancelled(&second.key));
    assert!(!agent.pending_passkey_creations.contains(&key));
}

// Terminal answers

#[test]
fn authenticated_not_found_rechecks_terminal_authorization() {
    let mut agent = runtime();
    agent.state = AgentState::Unlocked;
    let mut vault = open_vault([0x74; 16]);
    let expired = Signals {
        expired: true,
        ..signals()
    };
    let answer = agent
        .authenticated_read_error_after_core(&mut vault, AccountError::NotFound, &expired)
        .expect("deadline outcome");
    assert_eq!(answer.error, Some(PublicErrorCode::DeadlineExceeded));

    let context = admitted(&mut agent, [0x75; 16], OperationCode::GetAccount);
    agent.state = AgentState::Locked;
    agent
        .coordinator
        .advance_epoch_without_cancellation()
        .expect("lock epoch");
    let stale = finish(
        &agent,
        &context,
        ExecutionOutcome::without_body(Verdict::not_found()),
        RequestCompletion::Completed,
    );
    assert_eq!(stale.error, Some(PublicErrorCode::Locked));
}

#[test]
fn terminal_commit_suppresses_cancelled_and_stale_successes() {
    let mut agent = runtime();
    let status = admitted(&mut agent, [7; 16], OperationCode::Status);
    let cancelled = finish(&agent, &status, secret(), RequestCompletion::Cancelled);
    assert_eq!(cancelled.error, Some(PublicErrorCode::Cancelled));
    assert!(cancelled.body.is_empty());

    agent.state = AgentState::Unlocked;
    let context = admitted(&mut agent, [17; 16], OperationCode::GetAccount);
    agent.state = AgentState::Locked;
    agent
        .coordinator
        .advance_epoch_without_cancellation()
        .expect("epoch transition");
    let stale = finish(&agent, &context, secret(), RequestCompletion::Completed);
    assert_eq!(stale.error, Some(PublicErrorCode::Locked));
    assert!(stale.body.is_empty());
}

#[test]
fn committed_empty_result_wins_a_later_cancellation() {
    let mut agent = runtime();
    let context = admitted(&mut agent, [0xA7; 16], OperationCode::Status);
    let committed = ExecutionOutcome {
        verdict: Verdict::success().commit_point(),
        body: Vec::new(),
    };
    let response = finish(&agent, &context, committed, RequestCompletion::Cancelled);
    assert_eq!(response.error, None);
}

#[test]
fn terminal_responses_honor_the_negotiated_connection_payload_limit() {
    let mut agent = runtime();
    agent.state = AgentState::Unlocked;
    let context = admitted(&mut agent, [0x82; 16], OperationCode::GetAccount);
    let response = finish(
        &agent,
        &context,
        ExecutionOutcome::success(vec![0xA5; 256]),
        RequestCompletion::Completed,
    );
    assert_eq!(response.body.len(), 256);
    let bounded = bounded_response(response, false, true)
        .ok()
        .expect("bounded terminal response");
    assert_eq!(bounded.error, Some(PublicErrorCode::OperationFailed));
    assert!(bounded.body.is_empty());
    assert_eq!(bounded.correlation, [0x31; 16]);
    let whole = bounded_response(bounded, true, true).ok().expect("fits");
    assert_eq!(
        bounded_response(whole, false, false).err(),
        Some(DispatchError::Connection(ConnectionError::InvalidLimit))
    );
}

#[test]
fn terminal_commit_refreshes_status_snapshot() {
    let mut agent = runtime();
    agent.state = AgentState::Unlocked;
    agent
        .coordinator
        .advance_epoch_without_cancellation()
        .expect("first epoch");
    let stale_epoch = agent.unlock_epoch();
    let context = admitted(&mut agent, [71; 16], OperationCode::Status);
    agent.state = AgentState::Locked;
    agent
        .coordinator
        .advance_epoch_without_cancellation()
        .expect("lock epoch");
    let current_epoch = agent.unlock_epoch();
    let stale = encode_status(AgentState::Unlocked, stale_epoch).expect("stale status body");
    let status = finish(
        &agent,
        &context,
        ExecutionOutcome::success(stale),
        RequestCompletion::Completed,
    );
    assert_eq!(
        status.body,
        encode_status(AgentState::Locked, current_epoch).expect("status body")
    );
    assert_eq!(
        agent.status_snapshot(),
        (AgentState::Locked, current_epoch)
    );
}

#[test]
fn terminal_commit_refreshes_replayed_create_epoch() {
    let mut agent = runtime();
    agent.state = AgentState::Unlocked;
    let context = admitted(&mut agent, [81; 16], OperationCode::CreateVault);
    agent.state = AgentState::Locked;
    agent
        .coordinator
        .advance_epoch_without_cancellation()
        .expect("lock epoch");
    let replay_epoch = agent.unlock_epoch();
    let mut cached = ExecutionOutcome::success(vec![1, 2, 3]);
    let fresh = finish(
        &agent,
        &context,
        ExecutionOutcome::success(vec![1, 2, 3]),
        RequestCompletion::Completed,
    );
    assert_eq!(fresh.error, Some(PublicErrorCode::Locked));
    cached.verdict.replayed = true;
    let replay = finish(&agent, &context, cached, RequestCompletion::Completed);
    assert_eq!(
        replay.body,
        encode_status(AgentState::Locked, replay_epoch).expect("status body")
    );
}

#[test]
fn lock_transition_remains_active_through_terminal_response_write() {
    let mut agent = runtime();
    agent.state = AgentState::Unlocked;
    let mut vault = open_vault([0x76; 16]);
    let context = admitted(&mut agent, [0x76; 16], OperationCode::Lock);
    let target = agent
        .begin_lock()
        .expect("lock intent")
        .expect("no lock under way");
    assert_eq!(target, AgentState::Locked);
    let verdict = agent.finish_lock(&mut vault, target);
    assert!(verdict.holds_lock_transition);
    assert!(agent.coordinator.lock_active);
    assert!(!vault.is_unlocked());
    let response = finish(
        &agent,
        &context,
        ExecutionOutcome {
            verdict,
            body: vec![0x80],
        },
        RequestCompletion::Completed,
    );
    assert_eq!(response.error, None);
    agent.end_request(&context.key, verdict.holds_lock_transition);
    assert!(!agent.coordinator.lock_active);
    assert_eq!(agent.unlock_epoch(), 2);
}

#[test]
fn locking_keeps_terminal_states_and_cancels_everything() {
    let mut agent = runtime();
    let context = admitted(&mut agent, [1; 16], OperationCode::Status);
    assert_eq!(agent.begin_lock(), Ok(Ok(AgentState::NoVault)));
    assert!(agent.coordinator.is_cancelled(&context.key));
    assert_eq!(agent.begin_lock(), Ok(Err(Verdict::busy())));
    let epoch = agent.unlock_epoch();
    agent.abandon_lock();
    assert!(!agent.coordinator.lock_active);
    assert_eq!(agent.state(), AgentState::NoVault);
    assert_eq!(agent.unlock_epoch(), epoch);
    assert!(agent.coordinator.is_cancelled(&context.key));

    let mut updating = runtime();
    updating.state = AgentState::Updating;
    assert_eq!(updating.begin_lock(), Ok(Ok(AgentState::Updating)));
    updating.set_locked_unless_shutting_down();
    assert_eq!(updating.state(), AgentState::Updating);

    let mut exhausted = runtime();
    exhausted.coordinator.epoch = u64::MAX;
    assert_eq!(exhausted.begin_lock(), Err(DispatchError::Internal));
    assert!(!exhausted.coordinator.lock_active);
}

#[test]
fn shutdown_is_final() {
    let mut agent = runtime();
    agent.state = AgentState::Unlocked;
    let mut vault = open_vault([1; 16]);
    let step = agent.begin_shutdown().expect("shutdown");
    assert_eq!(step, ShutdownStep::Creation);
    let step = shutdown_waited(step, ShutdownEvent::PromptEnded);
    assert_eq!(step, ShutdownStep::Creation);
    let step = shutdown_waited(step, ShutdownEvent::CreationEnded);
    assert_eq!(step, ShutdownStep::Prompt);
    let step = shutdown_waited(step, ShutdownEvent::PromptEnded);
    assert_eq!(step, ShutdownStep::Vault);
    agent.finish_shutdown(step, &mut vault);
    assert!(!vault.is_unlocked());
    assert_eq!(agent.state(), AgentState::ShuttingDown);
    agent.set_locked_unless_shutting_down();
    assert_eq!(agent.state(), AgentState::ShuttingDown);
    assert_eq!(agent.begin_unlock(true).err(), Some(Verdict::conflict()));
}

#[test]
fn request_local_cancellation_does_not_lock_the_shared_session() {
    let mut agent = runtime();
    agent.state = AgentState::Unlocked;
    let epoch = agent.unlock_epoch();
    let mut vault = open_vault([0x51; 16]);
    let context = admitted(&mut agent, [0x51; 16], OperationCode::GetAccount);
    agent.cancel_request([0x51; 16], 1);
    let seen = agent.signals(&context.key, epoch, false);
    let outcome = agent
        .stop_with_secrets(&mut vault, &seen)
        .expect("cancel outcome");
    assert_eq!(outcome.error, Some(PublicErrorCode::Cancelled));
    assert_eq!(agent.state(), AgentState::Unlocked);
    assert_eq!(agent.unlock_epoch(), epoch);
    assert!(vault.is_unlocked());
}

#[test]
fn stale_sessions_are_locked_when_secrets_are_in_hand() {
    let mut agent = runtime();
    agent.state = AgentState::Unlocked;
    let mut vault = open_vault([0x52; 16]);
    let stale = Signals {
        epoch_current: false,
        ..signals()
    };
    let released = agent.finish_read(&mut vault, Ok(5_u8), &stale);
    assert_eq!(released, Ok(Err(Verdict::locked())));
    assert!(!vault.is_unlocked());
    assert_eq!(agent.state(), AgentState::Locked);
}

#[test]
fn reads_release_secrets_only_in_time() {
    let mut agent = runtime();
    agent.state = AgentState::Unlocked;
    let mut vault = open_vault([0x53; 16]);
    assert_eq!(
        agent.finish_read(&mut vault, Ok(5_u8), &signals()),
        Ok(Ok(5))
    );
    let late = Signals {
        expired: true,
        ..signals()
    };
    assert_eq!(
        agent.finish_read(&mut vault, Ok(5_u8), &late),
        Ok(Err(Verdict::deadline()))
    );
    let aborted: Result<u8, AccountError> = Err(AccountError::Aborted);
    assert_eq!(
        agent.finish_read(&mut vault, aborted, &signals()),
        Err(DispatchError::Internal)
    );
    let missing: Result<u8, AccountError> = Err(AccountError::NotFound);
    assert_eq!(
        agent.finish_read(&mut vault, missing, &signals()),
        Ok(Err(Verdict::not_found()))
    );
    assert!(vault.is_unlocked());
}

#[test]
fn core_integrity_failure_locks_runtime_advances_epoch_and_allows_unlock_attempt() {
    let mut agent = runtime();
    agent.state = AgentState::Unlocked;
    let mut vault = open_vault([0x54; 16]);
    let epoch = agent.unlock_epoch();
    let failed: Result<u8, AccountError> = Err(AccountError::Failed);
    assert_eq!(
        agent.finish_read(&mut vault, failed, &signals()),
        Ok(Err(Verdict::failed()))
    );
    assert_eq!(agent.state(), AgentState::Locked);
    assert_eq!(agent.unlock_epoch(), epoch + 1);
    assert!(!vault.is_unlocked());
    assert!(agent.begin_unlock(true).is_ok());
}

#[test]
fn mutation_commit_cancellation_rolls_back_without_locking_the_session() {
    let mut agent = runtime();
    agent.state = AgentState::Unlocked;
    let mut vault = open_vault([0x55; 16]);
    let permit = agent.begin_change(&signals()).ok().expect("mutation permit");
    assert_eq!(
        agent.begin_change(&signals()).err(),
        Some(Verdict::busy())
    );
    let permit = agent
        .continue_change(permit, true, &signals())
        .ok()
        .expect("still wanted");
    let cancelled = Signals {
        cancelled: true,
        ..signals()
    };
    assert_eq!(before_commit(&cancelled), Err(StorageError::Aborted));
    assert_eq!(before_commit(&signals()), Ok(()));
    let aborted: Result<(), AccountError> = Err(AccountError::Aborted);
    assert_eq!(
        agent.finish_change(&mut vault, permit, aborted, &cancelled),
        Ok(Err(Verdict::cancelled()))
    );
    assert!(vault.is_unlocked());
    assert_eq!(agent.state(), AgentState::Unlocked);
    assert!(!agent.coordinator.mutation_active);
}

#[test]
fn stored_changes_are_answered_whatever_happened_meanwhile() {
    let mut agent = runtime();
    agent.state = AgentState::Unlocked;
    let mut vault = open_vault([0x56; 16]);
    let permit = agent.begin_change(&signals()).ok().expect("mutation permit");
    let cancelled = Signals {
        cancelled: true,
        ..signals()
    };
    assert_eq!(
        agent.finish_change(&mut vault, permit, Ok(3_u8), &cancelled),
        Ok(Ok(3))
    );
    let permit = agent.begin_change(&signals()).ok().expect("mutation permit");
    let refused = agent.continue_change(permit, false, &signals());
    assert_eq!(refused.err(), Some(Verdict::invalid()));
    assert!(!agent.coordinator.mutation_active);
}

#[test]
fn stopping_signals_are_ranked() {
    let all = Signals {
        lock_active: true,
        cancelled: true,
        expired: true,
        state: AgentState::Locked,
        epoch_current: false,
    };
    assert_eq!(pre_secret_operation(&all), Some(Verdict::locked()));
    let cancelled = Signals {
        lock_active: false,
        ..all
    };
    assert_eq!(pre_secret_operation(&cancelled), Some(Verdict::cancelled()));
    assert_eq!(post_secret_operation(&cancelled), Some(Verdict::locked()));
    let expired = Signals {
        cancelled: false,
        ..cancelled
    };
    assert_eq!(pre_secret_operation(&expired), Some(Verdict::deadline()));
    assert!(secret_operation_should_abort(&expired));
    assert_eq!(pre_secret_operation(&signals()), None);
    assert_eq!(post_secret_operation(&signals()), None);
}

// Creating and unlocking

fn key() -> RequestKey {
    RequestKey {
        connection_id: [0x60; 16],
        request_id: 1,
    }
}

#[test]
fn created_vaults_open_in_a_new_epoch() {
    let mut world = World::new();
    let mut agent = world.start("/vault.db");
    let mut vault = VaultAgent::<u8>::open_locked(Some(b"/vault.db".to_vec()));
    let permit = agent.begin_create().ok().expect("creation permit");
    let (permit, epoch) = agent
        .continue_create(permit, &key(), false, true)
        .ok()
        .expect("creation permit");
    assert_eq!(epoch, 1);
    assert_eq!(agent.may_publish_creation(&key(), epoch, false), Ok(()));
    let outcome = agent
        .finish_create(
            &mut vault,
            permit,
            &mut world.registry,
            Ok(record("/vault.db", Some(42))),
            Ok(open_vault([0x61; 16])),
            &key(),
            false,
            encode_status,
        )
        .ok()
        .expect("creation outcome");
    assert_eq!(outcome.verdict, Verdict::success());
    assert_eq!(agent.state(), AgentState::Unlocked);
    assert_eq!(agent.unlock_epoch(), 2);
    assert!(vault.is_unlocked());
    assert_eq!(
        agent.idempotency.authenticated_vault_id,
        Some([0x61; 16])
    );
    assert_eq!(
        outcome.body,
        encode_status(AgentState::Unlocked, 2).expect("status body")
    );
    assert_eq!(agent.begin_create().err(), Some(Verdict::conflict()));
}

#[test]
fn lock_wins_create_before_atomic_publication() {
    let mut world = World::new();
    let mut agent = world.start("/vault.db");
    let mut vault = VaultAgent::<u8>::open_locked(Some(b"/vault.db".to_vec()));
    let permit = agent.begin_create().ok().expect("creation permit");
    let (permit, epoch) = agent
        .continue_create(permit, &key(), false, true)
        .ok()
        .expect("creation permit");
    agent.begin_lock().expect("lock intent");
    assert_eq!(
        agent.may_publish_creation(&key(), epoch, false),
        Err(CreateError::Failed)
    );
    let outcome = agent
        .finish_create(
            &mut vault,
            permit,
            &mut world.registry,
            Err(RuntimeStartError::InvalidVaultPath),
            Err(CreateError::Failed),
            &key(),
            false,
            encode_status,
        )
        .ok()
        .expect("creation outcome");
    assert_eq!(outcome.verdict, Verdict::failed());
    assert_eq!(agent.state(), AgentState::NoVault);
    assert!(!agent.coordinator.mutation_active);
}

#[test]
fn creation_refusals_are_ranked() {
    let mut agent = runtime();
    let stopped = |agent: &mut AgentRuntime, expired, valid| {
        let permit = agent.begin_create().ok().expect("creation permit");
        let stopped = agent.continue_create(permit, &key(), expired, valid).err();
        assert!(!agent.coordinator.mutation_active);
        stopped
    };
    assert_eq!(stopped(&mut agent, true, false), Some(Verdict::deadline()));
    assert_eq!(stopped(&mut agent, false, false), Some(Verdict::invalid()));
    agent.coordinator.lock_active = true;
    assert_eq!(stopped(&mut agent, false, true), Some(Verdict::busy()));
    agent.coordinator.lock_active = false;
    agent.coordinator.mutation_active = true;
    assert_eq!(agent.begin_create().err(), Some(Verdict::busy()));
    agent.state = AgentState::Locked;
    assert_eq!(agent.begin_create().err(), Some(Verdict::conflict()));
}

fn unlocking_agent(world: &mut World) -> (AgentRuntime, VaultAgent<u8>, FlagPermit) {
    let mut agent = AgentRuntime::start(
        start_request("/vault.db", NameProbe::Found),
        &mut world.registry,
        &mut world.next_token,
    )
    .ok()
    .expect("runtime");
    let permit = agent.begin_unlock(true).ok().expect("unlock permit");
    (agent, open_vault([0x62; 16]), permit)
}

#[test]
fn password_unlock_publishes_the_authenticated_vault() {
    let mut world = World::new();
    let (mut agent, mut vault, permit) = unlocking_agent(&mut world);
    assert_eq!(agent.state(), AgentState::Unlocking);
    assert_eq!(agent.begin_unlock(true).err(), Some(Verdict::busy()));
    let outcome = agent
        .finish_unlock(
            &mut vault,
            permit,
            &mut world.registry,
            Ok(record("/vault.db", Some(7))),
            Some(record("/vault.db", Some(7))),
            Ok(Some([0x62; 16])),
            &key(),
            false,
            encode_status,
        )
        .ok()
        .expect("unlock outcome");
    assert_eq!(outcome.verdict, Verdict::success());
    assert_eq!(agent.state(), AgentState::Unlocked);
    assert_eq!(agent.unlock_epoch(), 2);
    assert!(!agent.coordinator.kdf_active);
}

#[test]
fn unlock_revalidates_the_authenticated_vault_ownership_lease() {
    let mut world = World::new();
    let (mut agent, mut vault, permit) = unlocking_agent(&mut world);
    let competing = AgentRuntime::start(
        StartRequest {
            vault_record: Ok(record("/replacement-hard-link.db", Some(8))),
            ..start_request("/replacement-hard-link.db", NameProbe::Found)
        },
        &mut world.registry,
        &mut world.next_token,
    );
    assert!(competing.is_ok());
    let outcome = agent
        .finish_unlock(
            &mut vault,
            permit,
            &mut world.registry,
            Ok(record("/vault.db", Some(8))),
            Some(record("/vault.db", Some(8))),
            Ok(Some([0x62; 16])),
            &key(),
            false,
            encode_status,
        )
        .ok()
        .expect("unlock outcome");
    assert_eq!(outcome.verdict, Verdict::failed());
    assert_eq!(agent.state(), AgentState::Locked);
    assert!(!vault.is_unlocked());
}

#[test]
fn unlock_refuses_another_file_than_the_authenticated_one() {
    let mut world = World::new();
    let (mut agent, mut vault, permit) = unlocking_agent(&mut world);
    let outcome = agent
        .finish_unlock(
            &mut vault,
            permit,
            &mut world.registry,
            Ok(record("/vault.db", Some(8))),
            Some(record("/vault.db", Some(7))),
            Ok(Some([0x62; 16])),
            &key(),
            false,
            encode_status,
        )
        .ok()
        .expect("unlock outcome");
    assert_eq!(outcome.verdict, Verdict::failed());
    assert_eq!(agent.state(), AgentState::Locked);
    assert!(!vault.is_unlocked());
}

#[test]
fn unlock_publication_preserves_deadline_expiry() {
    let mut world = World::new();
    let (mut agent, mut vault, permit) = unlocking_agent(&mut world);
    let outcome = agent
        .finish_unlock(
            &mut vault,
            permit,
            &mut world.registry,
            Ok(record("/vault.db", Some(7))),
            Some(record("/vault.db", Some(7))),
            Ok(Some([0x62; 16])),
            &key(),
            true,
            encode_status,
        )
        .ok()
        .expect("unlock outcome");
    assert_eq!(outcome.verdict, Verdict::deadline());
    assert_eq!(agent.state(), AgentState::Locked);
    assert_eq!(agent.unlock_epoch(), 1);
    assert!(!vault.is_unlocked());
}

#[test]
fn lock_wins_after_core_unlock_before_authenticated_id_publication() {
    let mut world = World::new();
    let (mut agent, mut vault, permit) = unlocking_agent(&mut world);
    agent.begin_lock().expect("lock intent");
    let outcome = agent
        .finish_unlock(
            &mut vault,
            permit,
            &mut world.registry,
            Ok(record("/vault.db", Some(7))),
            Some(record("/vault.db", Some(7))),
            Ok(Some([0x62; 16])),
            &key(),
            false,
            encode_status,
        )
        .ok()
        .expect("unlock outcome");
    assert_eq!(outcome.verdict, Verdict::cancelled());
    assert_eq!(agent.state(), AgentState::Locked);
    assert!(!vault.is_unlocked());
    assert_eq!(agent.idempotency.authenticated_vault_id, None);
}

#[test]
fn failed_unlocks_fall_back_to_locked() {
    for (error, verdict) in [
        (UnlockError::Failed, Verdict::failed()),
        (UnlockError::Cancelled, Verdict::cancelled()),
    ] {
        let mut world = World::new();
        let (mut agent, mut vault, permit) = unlocking_agent(&mut world);
        vault.lock();
        let outcome = agent
            .finish_unlock(
                &mut vault,
                permit,
                &mut world.registry,
                Ok(record("/vault.db", Some(7))),
                None,
                Err(error),
                &key(),
                false,
                encode_status,
            )
            .ok()
            .expect("unlock outcome");
        assert_eq!(outcome.verdict, verdict);
        assert_eq!(agent.state(), AgentState::Locked);
    }
    let mut agent = runtime();
    agent.state = AgentState::Locked;
    assert_eq!(agent.begin_unlock(false).err(), Some(Verdict::invalid()));
    agent.enter_unlocking();
    assert_eq!(agent.state(), AgentState::Unlocking);
}

// Passkeys

fn creation(marker: u8) -> PendingPasskeyCreation {
    PendingPasskeyCreation {
        credential_id: [marker; 32],
        authenticated_process_id: 17,
        unlock_epoch: 1,
    }
}

fn transaction(connection: u8, marker: u8) -> PendingPasskeyCreationKey {
    PendingPasskeyCreationKey {
        connection_id: [connection; 16],
        transaction_id: [marker; 16],
    }
}

#[test]
fn passkey_creation_rollback_is_exact_and_connection_bound() {
    let mut agent = runtime();
    agent.state = AgentState::Unlocked;
    let mut vault = open_vault([0x61; 16]);
    let key = transaction(0x61, 0x21);
    let permit = agent
        .begin_make_passkey(&signals(), Ok(()), &key, &signals())
        .ok()
        .expect("creation permit");
    let made = agent.finish_make_passkey(
        &mut vault,
        permit,
        Ok(((), creation(5))),
        key,
        &signals(),
    );
    assert_eq!(made, Ok(Ok(())));

    let refuse = |agent: &mut AgentRuntime, key, expected| {
        agent
            .begin_rollback_passkey(&signals(), Ok(()), &key, &expected, &signals())
            .err()
    };
    assert_eq!(
        refuse(&mut agent, transaction(0x62, 0x21), creation(5)),
        Some(Verdict::invalid())
    );
    assert_eq!(
        refuse(&mut agent, key, creation(6)),
        Some(Verdict::invalid())
    );
    let permit = agent
        .begin_rollback_passkey(&signals(), Ok(()), &key, &creation(5), &signals())
        .ok()
        .expect("rollback permit");
    let rolled_back = agent.finish_rollback_passkey(
        &mut vault,
        permit,
        Ok(()),
        &key,
        &creation(5),
        &signals(),
    );
    assert_eq!(rolled_back, Ok(Ok(())));
    assert!(agent.pending_passkey_creations.entries.is_empty());
    assert_eq!(
        refuse(&mut agent, key, creation(5)),
        Some(Verdict::invalid())
    );
}

#[test]
fn passkey_ipc_rejects_malformed_or_unverified_transactions_before_mutation() {
    let mut agent = runtime();
    agent.state = AgentState::Unlocked;
    let malformed = execute_decoded(Err(ProtocolError::Malformed), &signals(), || {
        panic!("a malformed request must not run")
    })
    .ok()
    .expect("malformed dispatch");
    assert_eq!(
        malformed.verdict.error,
        Some(PublicErrorCode::InvalidRequest)
    );
    let key = transaction(0x36, 0xEE);
    let invalid = agent.begin_make_passkey(
        &signals(),
        Err(PasskeyVerificationError::Invalid),
        &key,
        &signals(),
    );
    assert_eq!(invalid.err(), Some(Verdict::invalid()));
    let failed = agent.begin_make_passkey(
        &signals(),
        Err(PasskeyVerificationError::Failed),
        &key,
        &signals(),
    );
    assert_eq!(failed.err(), Some(Verdict::failed()));
    assert!(!agent.coordinator.mutation_active);

    let connection_id = [0x38; 16];
    let bound = |request_id, challenge| {
        passkey_binding_failure(
            OperationCode::MakePasskey,
            request_id,
            Some(challenge),
            connection_id,
        )
    };
    assert_eq!(bound(1, connection_id), None);
    assert_eq!(bound(2, connection_id), Some(Verdict::invalid()));
    assert_eq!(bound(1, [0x39; 16]), Some(Verdict::invalid()));
    assert_eq!(
        passkey_binding_failure(
            OperationCode::RollbackPasskeyCreation,
            2,
            Some(connection_id),
            connection_id
        ),
        None
    );
    assert_eq!(
        passkey_binding_failure(OperationCode::ListPasskeys, 9, None, connection_id),
        None
    );
    let replay = finish_replay(secret(), Ok(Some(Verdict::invalid())))
        .ok()
        .expect("rejected replay");
    assert_eq!(replay.verdict, Verdict::invalid());
    assert!(replay.body.is_empty());
}

#[test]
fn repeated_transactions_make_no_second_passkey() {
    let mut agent = runtime();
    agent.state = AgentState::Unlocked;
    let key = transaction(1, 2);
    agent.pending_passkey_creations.insert(key, creation(1));
    let refused = agent.begin_make_passkey(&signals(), Ok(()), &key, &signals());
    assert_eq!(refused.err(), Some(Verdict::invalid()));
    let assertion = agent.begin_passkey_assertion(
        &signals(),
        Err(PasskeyVerificationError::Unavailable),
        &signals(),
    );
    assert_eq!(assertion.err(), Some(Verdict::failed()));
    assert!(agent
        .begin_passkey_assertion(&signals(), Ok(()), &signals())
        .is_ok());
}

#[test]
fn missing_passkeys_count_as_taken_back() {
    let mut agent = runtime();
    agent.state = AgentState::Unlocked;
    let mut vault = open_vault([1; 16]);
    let key = transaction(1, 2);
    agent.pending_passkey_creations.insert(key, creation(1));
    let permit = agent
        .begin_rollback_passkey(&signals(), Ok(()), &key, &creation(1), &signals())
        .ok()
        .expect("rollback permit");
    assert_eq!(
        agent.finish_rollback_passkey(
            &mut vault,
            permit,
            Err(AccountError::NotFound),
            &key,
            &creation(1),
            &signals()
        ),
        Ok(Ok(()))
    );
    assert!(!agent.pending_passkey_creations.contains(&key));
}

// Answers

#[test]
fn operations_do_not_run_after_their_request_ended() {
    let cancelled = Signals {
        cancelled: true,
        ..signals()
    };
    let outcome = execute(&cancelled, || panic!("must not run")).ok().expect("outcome");
    assert_eq!(outcome.verdict, Verdict::cancelled());
    let expired = Signals {
        expired: true,
        ..signals()
    };
    let outcome = execute(&expired, || panic!("must not run")).ok().expect("outcome");
    assert_eq!(outcome.verdict, Verdict::deadline());
    let outcome = execute(&signals(), || Ok(secret())).ok().expect("outcome");
    assert_eq!(outcome.body, b"SECRET-CANARY".to_vec());
    let rejected = execute_decoded(Ok(Some(Verdict::invalid())), &signals(), || Ok(secret()))
        .ok()
        .expect("outcome");
    assert!(rejected.body.is_empty());
}

#[test]
fn conflicts_that_locked_the_vault_end_the_session() {
    let mut agent = runtime();
    agent.state = AgentState::Unlocked;
    let context = admitted(&mut agent, [0x64; 16], OperationCode::UpdateAccount);
    let epoch = agent.unlock_epoch();
    let signals = agent.signals(&context.key, epoch, false);
    let mut open = open_vault([0x64; 16]);
    let permit = agent.begin_change(&signals).ok().expect("permit");
    let kept: Result<Result<u8, Verdict>, DispatchError> =
        agent.finish_change(&mut open, permit, Err(AccountError::Conflict), &signals);
    assert_eq!(kept, Ok(Err(Verdict::conflict())));
    assert_eq!(agent.state(), AgentState::Unlocked);
    assert_eq!(agent.unlock_epoch(), epoch);
    assert!(open.is_unlocked());

    open.lock();
    let permit = agent.begin_change(&signals).ok().expect("permit");
    let ended: Result<Result<u8, Verdict>, DispatchError> =
        agent.finish_change(&mut open, permit, Err(AccountError::Conflict), &signals);
    assert_eq!(ended, Ok(Err(Verdict::conflict())));
    assert_eq!(agent.state(), AgentState::Locked);
    assert_eq!(agent.unlock_epoch(), epoch + 1);
    assert!(agent.coordinator.is_cancelled(&context.key));
}

#[test]
fn record_outcomes_encode_what_was_released() {
    let stored: Result<Result<u8, Verdict>, DispatchError> = Ok(Ok(4));
    let outcome = record_outcome(OperationCode::AddAccount, stored, |value| Ok(vec![value]))
        .ok()
        .expect("outcome");
    assert_eq!(outcome.verdict, Verdict::success());
    assert_eq!(outcome.body, vec![4]);
    let durable: Result<Result<u8, Verdict>, DispatchError> = Ok(Ok(4));
    let outcome = record_outcome(OperationCode::MakePasskey, durable, |value| Ok(vec![value]))
        .ok()
        .expect("outcome");
    assert!(outcome.verdict.committed);
    let broken: Result<Result<u8, Verdict>, DispatchError> = Ok(Ok(4));
    assert_eq!(
        record_outcome(OperationCode::AddAccount, broken, |_| Err(
            ProtocolError::TooLarge
        ))
        .err(),
        Some(DispatchError::Internal)
    );
    let refused: Result<Result<u8, Verdict>, DispatchError> = Ok(Err(Verdict::busy()));
    let outcome = record_outcome(OperationCode::AddAccount, refused, |value| Ok(vec![value]))
        .ok()
        .expect("outcome");
    assert_eq!(outcome.verdict, Verdict::busy());
}

#[test]
fn errors_map_to_public_verdicts() {
    assert_eq!(map_account_error(AccountError::Locked), Verdict::locked());
    assert_eq!(
        map_account_error(AccountError::NotFound),
        Verdict::not_found()
    );
    assert_eq!(
        map_account_error(AccountError::Conflict),
        Verdict::conflict()
    );
    assert_eq!(map_account_error(AccountError::Aborted), Verdict::failed());
    assert_eq!(map_account_error(AccountError::Failed), Verdict::failed());
    assert_eq!(
        map_operation_decode_error(ProtocolError::Unsupported),
        Verdict::failed()
    );
    assert_eq!(
        map_operation_decode_error(ProtocolError::TooLarge),
        Verdict::invalid()
    );
    assert_eq!(
        map_passkey_verification_error(PasskeyVerificationError::Unavailable),
        Verdict::failed()
    );
    assert_eq!(
        DispatchError::from(ProtocolError::Malformed),
        DispatchError::Internal
    );
    assert_eq!(
        DispatchError::from(ConnectionError::InvalidLimit),
        DispatchError::Connection(ConnectionError::InvalidLimit)
    );
}

/// A page of accounts of this many bytes each, with its next offset, in an
/// answer of at most 65536 bytes.
fn encode_page(count: usize, next: Option<u32>) -> Result<Vec<u8>, ProtocolError> {
    let mut body = vec![0x82];
    body.extend_from_slice(&next.unwrap_or(u32::MAX).to_be_bytes());
    body.extend_from_slice(&(count as u32).to_be_bytes());
    body.extend(std::iter::repeat(0x55).take(count * 3_400));
    if body.len() > 65_536 {
        Err(ProtocolError::TooLarge)
    } else {
        Ok(body)
    }
}

#[test]
fn summary_pages_shrink_to_the_bounded_response_size() {
    let outcome = encode_summary_page(100, 0, false, encode_page)
        .ok()
        .expect("bounded page");
    assert_eq!(outcome.verdict.error, None);
    let mut count = [0_u8; 4];
    count.copy_from_slice(&outcome.body[5..9]);
    let mut next = [0_u8; 4];
    next.copy_from_slice(&outcome.body[1..5]);
    let count = u32::from_be_bytes(count);
    assert!(count > 0 && count < 100);
    assert_eq!(count, 19);
    assert_eq!(u32::from_be_bytes(next), count);
}

#[test]
fn summary_pages_cover_their_edges() {
    let empty = encode_summary_page(0, 0, false, encode_page).ok().expect("page");
    assert_eq!(empty.body.len(), 9);
    let inconsistent = encode_summary_page(0, 0, true, encode_page).ok().expect("page");
    assert_eq!(inconsistent.verdict, Verdict::failed());
    let whole = encode_summary_page(3, 0, false, encode_page).ok().expect("page");
    assert_eq!(whole.body.len(), 9 + 3 * 3_400);
    let oversized = encode_summary_page(3, 0, false, |_, _| Err(ProtocolError::TooLarge))
        .ok()
        .expect("page");
    assert_eq!(oversized.verdict, Verdict::failed());
    assert_eq!(
        encode_summary_page(3, u32::MAX, true, encode_page).err(),
        Some(DispatchError::Internal)
    );
    assert_eq!(
        encode_summary_page(3, 0, false, |_, _| Err(ProtocolError::Malformed)).err(),
        Some(DispatchError::Internal)
    );
}

#[test]
fn coordinators_start_in_the_first_epoch() {
    let mut coordinator = Coordinator::new();
    assert_eq!(coordinator.epoch, 1);
    coordinator.register(key()).expect("registration");
    assert_eq!(coordinator.register(key()), Err(DispatchError::Internal));
    assert_eq!(coordinator.advance_epoch(), Ok(2));
    assert!(coordinator.is_cancelled(&key()));
    coordinator.unregister(&key());
    assert!(!coordinator.is_cancelled(&key()));
    coordinator.epoch = u64::MAX;
    assert_eq!(coordinator.advance_epoch(), Err(DispatchError::Internal));
}

#[test]
fn requests_end_with_the_epoch_they_were_admitted_in() {
    let mut agent = runtime();
    agent.state = AgentState::Unlocked;
    let key = RequestKey {
        connection_id: [0x61; 16],
        request_id: 1,
    };
    let epoch = agent.unlock_epoch();
    assert!(pre_secret_operation(&agent.signals(&key, epoch, false)).is_none());
    let target = agent
        .begin_lock()
        .expect("lock begins")
        .expect("no lock under way");
    agent.finish_lock(&mut VaultAgent::<u8>::open_locked(None), target);
    agent.coordinator.lock_active = false;
    agent.state = AgentState::Unlocked;

    let late = agent.signals(&key, epoch, false);
    assert!(pre_secret_operation(&late).is_some());
    assert!(secret_operation_should_abort(&late));
    assert!(post_secret_operation(&late).is_some());
    assert_eq!(before_commit(&late), Err(StorageError::Aborted));
}

#[test]
fn bodies_that_are_not_released_are_overwritten() {
    let secret = ExecutionOutcome::success(b"SECRET-CANARY".to_vec());
    let refused = secret.discard(Verdict::cancelled());
    assert_eq!(refused.verdict, Verdict::cancelled());
    assert!(refused.body.is_empty());

    let failed = ExecutionOutcome {
        verdict: Verdict::failed(),
        body: b"SECRET-CANARY".to_vec(),
    };
    assert!(failed.into_response([1; 16]).body.is_empty());

    let mut kept = CachedOutcome {
        key: [2; 16],
        request_fingerprint: [3; 32],
        error: None,
        retry: RetryCategory::Never,
        body: b"SECRET-CANARY".to_vec(),
    };
    kept.wipe();
    assert!(kept.body.is_empty());
    assert_eq!(kept.key, [2; 16]);
    assert_eq!(kept.request_fingerprint, [3; 32]);

    let mut agent = runtime();
    assert_ne!(agent.idempotency_fingerprint_key, [0; 32]);
    agent.forget_fingerprint_key();
    assert_eq!(agent.idempotency_fingerprint_key, [0; 32]);
}
