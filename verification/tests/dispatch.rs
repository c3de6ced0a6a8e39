//! Whole requests, over a small connection without a wire.

use librarian_vault_agent::dispatch::{execute_decoded, RequestAdmission};
use librarian_vault_agent::dispatching::{DispatchFlow, DispatchStep};
use librarian_vault_agent::errors::{
    ConnectionError, DispatchError, ProtocolError, RuntimeStartError, WindowsHelloStateError,
};
use librarian_vault_agent::filesystem::NameProbe;
use librarian_vault_agent::hello_store::WindowsHelloStateStore;
use librarian_vault_agent::lifecycle::{VaultAgent, VaultBinding};
use librarian_vault_agent::outcome::{ExecutionOutcome, Verdict};
use librarian_vault_agent::ownership::{OwnershipRecord, OwnershipRegistry};
use librarian_vault_agent::protocol::{
    AgentState, BeginRequestError, OperationCode, OperationProfile, PublicErrorCode,
    RequestCompletion, RequestPermit, ResponseEnvelope, RetryCategory,
};
use librarian_vault_agent::runtime::{AgentRuntime, StartRequest};

struct Client {
    id: [u8; 16],
    closed: bool,
    in_flight: usize,
    limit: usize,
}

struct Request {
    id: u64,
    code: OperationCode,
    key: Option<[u8; 16]>,
    needs_key: bool,
    body: Vec<u8>,
}

#[derive(Default)]
struct Trace {
    announcements: usize,
    in_flight_when_announced: usize,
    bodies_read: usize,
    executions: usize,
    writes: usize,
}

fn connection(marker: u8) -> Client {
    Client {
        id: [marker; 16],
        closed: false,
        in_flight: 0,
        limit: 4_096,
    }
}

fn status(id: u64) -> Request {
    Request {
        id,
        code: OperationCode::Status,
        key: None,
        needs_key: false,
        body: Vec::new(),
    }
}

fn runtime() -> AgentRuntime {
    AgentRuntime::start(
        StartRequest {
            vault_path: b"/vault.db".to_vec(),
            vault_path_is_absolute: true,
            has_prompt: false,
            has_prompt_state: false,
            vault_record: Ok(OwnershipRecord {
                normalized_path: b"/vault.db".to_vec(),
                identity: None,
            }),
            state_record: None,
            presence: NameProbe::NotFound,
        },
        &mut OwnershipRegistry::new(),
        &mut 1,
    )
    .ok()
    .expect("runtime")
}

fn encode_status(state: AgentState, epoch: u64) -> Result<Vec<u8>, ProtocolError> {
    Ok(vec![state.code(), epoch as u8])
}

fn begin(
    connection: &mut Client,
    request: &Request,
    epoch: u64,
    authorized: bool,
) -> Result<RequestPermit, BeginRequestError> {
    if connection.closed {
        return Err(BeginRequestError::Connection(
            ConnectionError::ConnectionClosed,
        ));
    }
    if !authorized {
        return Err(BeginRequestError::Unauthorized);
    }
    connection.in_flight += 1;
    Ok(RequestPermit {
        operation: OperationProfile {
            code: request.code,
            wire_code: 1,
            requires_unlocked_epoch: false,
            requires_idempotency_key: request.needs_key,
        },
        request_id: request.id,
        unlock_epoch: epoch,
        effective_timeout_ms: 5_000,
    })
}

/// Runs one request from its frame to its answer.
fn dispatch(
    agent: &mut AgentRuntime,
    connection: &mut Client,
    request: &Request,
    authorized: bool,
    trace: &mut Trace,
    operation: impl FnOnce() -> Result<ExecutionOutcome, DispatchError>,
) -> Result<ResponseEnvelope, DispatchError> {
    let begun = begin(connection, request, agent.unlock_epoch(), authorized);
    let admission = agent.admit_request(
        begun,
        connection.id,
        [0x31; 16],
        0,
        0,
        8,
        |_| Ok(RequestCompletion::Completed),
        |_| false,
    );
    let mut operation = Some(operation);
    let mut written = None;
    let mut flow = DispatchFlow::dispatch_with_admission(admission);
    loop {
        flow = match &flow.step {
            DispatchStep::Announce(admission) => {
                trace.announcements += 1;
                trace.in_flight_when_announced = connection.in_flight;
                assert!(
                    matches!(admission, RequestAdmission::Rejected(_))
                        || connection.in_flight > 0
                );
                flow.announced(agent, request.key, &request.body)
            }
            DispatchStep::CheckReplay { .. } => {
                trace.bodies_read += 1;
                flow.replay_checked(agent, Ok(None))
            }
            DispatchStep::Execute { context, .. } => {
                trace.bodies_read += 1;
                trace.executions += 1;
                let decoded = if request.body.first() == Some(&0xFF) {
                    Err(ProtocolError::Malformed)
                } else {
                    Ok(None)
                };
                let seen = agent.signals(&context.key, context.permit.unlock_epoch, false);
                let run = operation.take().expect("one execution");
                flow.executed(agent, execute_decoded(decoded, &seen, run))
            }
            DispatchStep::Settle { .. } => {
                connection.in_flight -= 1;
                flow.settled(
                    agent,
                    Ok(RequestCompletion::Completed),
                    false,
                    encode_status,
                )
            }
            DispatchStep::Measure { response, .. } => {
                let fits = response.body.len() <= connection.limit;
                flow.measured(agent, fits, true)
            }
            DispatchStep::Write { response, .. } => {
                trace.writes += 1;
                written = Some(ResponseEnvelope {
                    correlation: response.correlation,
                    error: response.error,
                    retry: response.retry,
                    body: response.body.clone(),
                });
                flow.written(agent, Ok(()))
            }
            DispatchStep::Finish(result) => {
                return result.map(|()| written.expect("an answer was written"));
            }
        };
    }
}

fn nothing() -> Result<ExecutionOutcome, DispatchError> {
    Ok(ExecutionOutcome::success(Vec::new()))
}

#[test]
fn transport_admission_callback_follows_request_id_issuance() {
    let mut agent = runtime();
    let mut client = connection(75);
    let mut trace = Trace::default();
    let response = dispatch(
        &mut agent,
        &mut client,
        &status(1),
        true,
        &mut trace,
        nothing,
    )
    .ok()
    .expect("status response");
    assert_eq!(response.error, None);
    assert_eq!(response.body, vec![AgentState::NoVault.code(), 1]);
    assert_eq!(trace.announcements, 1);
    assert_eq!(trace.in_flight_when_announced, 1);
    assert_eq!(client.in_flight, 0);
    assert_eq!(agent.coordinator.global_in_flight, 0);
    assert!(agent.coordinator.running.is_empty());
}

#[test]
fn disconnect_closes_admission_before_returning() {
    let mut agent = runtime();
    let mut client = connection(39);
    agent.disconnect(client.id);
    client.closed = true;
    let mut trace = Trace::default();
    assert!(matches!(
        dispatch(
            &mut agent,
            &mut client,
            &status(1),
            true,
            &mut trace,
            nothing
        ),
        Err(DispatchError::Connection(ConnectionError::ConnectionClosed))
    ));
    assert_eq!(trace.writes, 0);
    assert_eq!(trace.announcements, 0);
}

#[test]
fn role_authorization_precedes_operation_body_decoding() {
    let mut agent = runtime();
    let mut native_host = connection(17);
    let mut trace = Trace::default();
    let request = Request {
        code: OperationCode::ListAccountSummaries,
        body: vec![0xFF],
        ..status(1)
    };
    let response = dispatch(
        &mut agent,
        &mut native_host,
        &request,
        false,
        &mut trace,
        nothing,
    )
    .ok()
    .expect("unauthorized request is terminal");
    assert_eq!(
        response.error,
        Some(PublicErrorCode::UnauthorizedOperation)
    );
    assert_eq!(trace.announcements, 1);
    assert_eq!(trace.bodies_read, 0);
}

fn creation(id: u64, key: [u8; 16], body: &[u8]) -> Request {
    Request {
        id,
        code: OperationCode::CreateVault,
        key: Some(key),
        needs_key: true,
        body: body.to_vec(),
    }
}

#[test]
fn repeated_requests_are_executed_once() {
    let mut agent = runtime();
    agent.state = AgentState::Unlocked;
    let mut client = connection(40);
    let mut trace = Trace::default();
    for id in 1..=3 {
        let response = dispatch(
            &mut agent,
            &mut client,
            &creation(id, [0x11; 16], b"password"),
            true,
            &mut trace,
            nothing,
        )
        .ok()
        .expect("answer");
        assert_eq!(response.error, None);
    }
    assert_eq!(trace.executions, 1);
    let other = dispatch(
        &mut agent,
        &mut client,
        &creation(4, [0x11; 16], b"another password"),
        true,
        &mut trace,
        nothing,
    )
    .ok()
    .expect("answer");
    assert_eq!(other.error, Some(PublicErrorCode::Conflict));
    assert_eq!(other.retry, RetryCategory::Never);
    assert_eq!(trace.executions, 1);
    assert!(agent.idempotency.in_flight.is_empty());
}

#[test]
fn broken_executions_give_everything_back() {
    let mut agent = runtime();
    let mut client = connection(41);
    let mut trace = Trace::default();
    let broken = dispatch(
        &mut agent,
        &mut client,
        &creation(1, [0x12; 16], b"password"),
        true,
        &mut trace,
        || Err(DispatchError::Internal),
    );
    assert_eq!(broken.err(), Some(DispatchError::Internal));
    assert!(agent.idempotency.in_flight.is_empty());
    assert!(agent.coordinator.running.is_empty());
    assert_eq!(agent.coordinator.global_in_flight, 0);
    let keyless = Request {
        key: None,
        ..creation(2, [0; 16], b"password")
    };
    let refused = dispatch(
        &mut agent,
        &mut client,
        &keyless,
        true,
        &mut trace,
        nothing,
    );
    assert_eq!(refused.err(), Some(DispatchError::Internal));
    assert_eq!(agent.coordinator.global_in_flight, 0);
}

#[test]
fn malformed_bodies_and_oversized_answers_are_failures() {
    let mut agent = runtime();
    let mut client = connection(42);
    let mut trace = Trace::default();
    let malformed = Request {
        body: vec![0xFF],
        ..creation(1, [0x13; 16], b"")
    };
    let response = dispatch(
        &mut agent,
        &mut client,
        &malformed,
        true,
        &mut trace,
        || panic!("a malformed request must not run"),
    )
    .ok()
    .expect("answer");
    assert_eq!(response.error, Some(PublicErrorCode::InvalidRequest));
    client.limit = 1;
    let response = dispatch(
        &mut agent,
        &mut client,
        &status(2),
        true,
        &mut trace,
        nothing,
    )
    .ok()
    .expect("answer");
    assert_eq!(response.error, Some(PublicErrorCode::OperationFailed));
    assert!(response.body.is_empty());
}

#[test]
fn lock_flag_falls_when_the_answer_was_written() {
    let mut agent = runtime();
    agent.state = AgentState::Unlocked;
    let mut client = connection(43);
    let mut vault = VaultAgent::create(
        b"/vault.db".to_vec(),
        1_u8,
        VaultBinding {
            vault_id: [1; 16],
            key_epoch: 1,
        },
        Vec::new(),
        Vec::new(),
        1,
    );
    let request = Request {
        code: OperationCode::Lock,
        ..status(1)
    };
    let begun = begin(&mut client, &request, agent.unlock_epoch(), true);
    let admission = agent.admit_request(
        begun,
        client.id,
        [1; 16],
        0,
        0,
        8,
        |_| Ok(RequestCompletion::Completed),
        |_| false,
    );
    let flow = DispatchFlow::dispatch_with_admission(admission);
    let flow = flow.announced(&mut agent, None, &[]);
    let target = agent.begin_lock().expect("lock").expect("target");
    let verdict = agent.finish_lock(&mut vault, target);
    let flow = flow.executed(
        &mut agent,
        Ok(ExecutionOutcome {
            verdict,
            body: vec![0x80],
        }),
    );
    let flow = flow.settled(
        &mut agent,
        Ok(RequestCompletion::Completed),
        false,
        encode_status,
    );
    let flow = flow.measured(&mut agent, true, true);
    assert!(agent.coordinator.lock_active);
    match &flow.step {
        DispatchStep::Write { response, .. } => assert_eq!(response.error, None),
        _ => panic!("the answer must be written"),
    }
    let flow = flow.written(&mut agent, Err(DispatchError::Internal));
    assert!(!agent.coordinator.lock_active);
    assert!(matches!(
        flow.step,
        DispatchStep::Finish(Err(DispatchError::Internal))
    ));
}

#[test]
fn rejected_replays_release_nothing() {
    let mut agent = runtime();
    agent.state = AgentState::Unlocked;
    let mut client = connection(44);
    let mut trace = Trace::default();
    let request = creation(1, [0x14; 16], b"password");
    assert!(dispatch(
        &mut agent,
        &mut client,
        &request,
        true,
        &mut trace,
        nothing
    )
    .is_ok());
    let repeated = Request { id: 2, ..request };
    let begun = begin(&mut client, &repeated, agent.unlock_epoch(), true);
    let admission = agent.admit_request(
        begun,
        client.id,
        [1; 16],
        0,
        0,
        8,
        |_| Ok(RequestCompletion::Completed),
        |_| false,
    );
    let flow = DispatchFlow::dispatch_with_admission(admission);
    let flow = flow.announced(&mut agent, repeated.key, &repeated.body);
    assert!(matches!(flow.step, DispatchStep::CheckReplay { .. }));
    let flow = flow.replay_checked(&mut agent, Ok(Some(Verdict::invalid())));
    match &flow.step {
        DispatchStep::Settle { outcome, .. } => {
            assert_eq!(outcome.verdict, Verdict::invalid());
            assert!(outcome.body.is_empty());
        }
        _ => panic!("the rejection must be settled"),
    }
}

#[test]
fn prompt_agents_need_a_usable_store() {
    let mut registry = OwnershipRegistry::new();
    let mut next = 1;
    let record = |name: &str| OwnershipRecord {
        normalized_path: name.as_bytes().to_vec(),
        identity: None,
    };
    let refused = AgentRuntime::start_with_windows_hello(
        b"/vault.db".to_vec(),
        true,
        Ok(record("/vault.db")),
        NameProbe::NotFound,
        Err(WindowsHelloStateError::Invalid),
        Ok(record("/state.bin")),
        &mut registry,
        &mut next,
    );
    assert_eq!(
        refused.err(),
        Some(RuntimeStartError::InvalidLocalStatePath)
    );
    assert_eq!(next, 1);
    let (agent, store) = AgentRuntime::start_with_windows_hello(
        b"/vault.db".to_vec(),
        true,
        Ok(record("/vault.db")),
        NameProbe::NotFound,
        WindowsHelloStateStore::new(
            b"/state.bin".to_vec(),
            true,
            Some(b"state.bin".to_vec()),
            true,
        ),
        Ok(record("/state.bin")),
        &mut registry,
        &mut next,
    )
    .ok()
    .expect("agent");
    assert!(agent.windows_hello_configured);
    assert_eq!(store.file_name, b"state.bin".to_vec());
}

#[test]
fn shutdown_locks_and_stops_everything() {
    let mut agent = runtime();
    agent.state = AgentState::Unlocked;
    let mut vault = VaultAgent::create(
        b"/vault.db".to_vec(),
        1_u8,
        VaultBinding {
            vault_id: [1; 16],
            key_epoch: 1,
        },
        Vec::new(),
        Vec::new(),
        1,
    );
    assert_eq!(agent.shutdown(&mut vault), Ok(()));
    assert!(!vault.is_unlocked());
    assert_eq!(agent.state(), AgentState::ShuttingDown);
    assert_eq!(agent.unlock_epoch(), 2);
    let mut exhausted = runtime();
    exhausted.coordinator.epoch = u64::MAX;
    assert_eq!(
        exhausted.shutdown(&mut vault),
        Err(DispatchError::Internal)
    );
}
