//! Files, paths, owners, the local state file and the process around the agent.

use std::cell::RefCell;

use librarian_vault_agent::errors::{
    CreateError, DispatchError, RuntimeStartError, StorageError, UnlockError,
    WindowsHelloStateError,
};
use librarian_vault_agent::filesystem::{
    ancestor_directories, ancestor_is_trusted, ensure_sidecars_absent, guarded_file_matches_path,
    guarded_file_size, guarded_files_match, guarded_optional_file_matches_path,
    optional_regular_file, parent_directory, sqlite_sidecar, FileStamp, NameProbe, PathComponent,
};
use librarian_vault_agent::hello_store::{
    remove_step, saved_with_ownership, with_ownership, LoadAction, LoadEvent, LoadFlow,
    RemoveAction, SaveAction, SaveEvent, SaveFlow, WindowsHelloStateStore,
    MAXIMUM_PROTECTED_STATE_BYTES,
};
use librarian_vault_agent::host::{
    accept_local_state, after_accept, build_id, desktop_policy, eq_ignore_ascii_case,
    frame_decision, offers_windows_hello, validate_agent, without_listener, AcceptDecision,
    AcceptResult, ClientRole, FrameDecision, HostError, MessageKind, ProcessObservation,
};
use librarian_vault_agent::idempotency::IdempotencyState;
use librarian_vault_agent::lifecycle::VaultAgent;
use librarian_vault_agent::ownership::{
    next_ownership_token, ownership_record, FileIdentity, NameCase, OwnershipLease,
    OwnershipRecord, OwnershipRegistry, PathObservation, PlatformPath,
};
use librarian_vault_agent::random::{
    correlation_id, idempotency_fingerprint_key, installation_key, name_entropy, usable_random,
    windows_hello_operation_id,
};
use librarian_vault_agent::runtime::{AgentRuntime, StartRequest};
use librarian_vault_agent::snapshot::{
    accept_snapshot, accept_snapshot_copy, reserve_sqlite_snapshot_directory,
    try_snapshot_directory, write_snapshot_directory_name,
};
use librarian_vault_agent::storage::{
    publication_is_valid, reserve_staging_file, seal_published_vault, target_is_published,
    validate_new_target, verify_published_vault, write_staging_name, CreateAction, CreateAttempt,
    CreateEvent, CreateFlow, TargetProbe, MAX_STAGING_ATTEMPTS,
};
use librarian_vault_agent::text::{push_decimal, push_hex};
use librarian_vault_agent::unlock_attempt::{UnlockEvent, UnlockStep};
use librarian_vault_agent::vault_data::{EncryptedRecord, RecordId, VaultData};
use librarian_vault_agent::vault_rows::{read_empty_vault, read_guarded_empty_vault};
use librarian_vault_agent::windows_hello::{
    HelloEnrollment, HelloLimits, ProtectorBinding, WindowsHelloLocalState,
};

fn file(number: u64) -> FileStamp {
    FileStamp {
        is_file: true,
        is_redirected: false,
        volume: 1,
        file: number,
        length: 2,
    }
}

// Files and paths

#[test]
fn guarded_file_size_reports_the_resource_limit_category() {
    assert_eq!(
        guarded_file_size(Some(Some(file(1))), 1),
        Err(StorageError::ResourceLimit)
    );
    assert_eq!(guarded_file_size(Some(Some(file(1))), 2), Ok(2));
    assert_eq!(guarded_file_size(None, 0), Ok(0));
    assert_eq!(
        guarded_file_size(Some(None), 2),
        Err(StorageError::Filesystem)
    );
    let redirected = FileStamp {
        is_redirected: true,
        ..file(1)
    };
    assert_eq!(
        guarded_file_size(Some(Some(redirected)), 2),
        Err(StorageError::Identity)
    );
}

#[test]
fn files_are_one_by_volume_and_number() {
    let other_volume = FileStamp {
        volume: 2,
        ..file(1)
    };
    let directory = FileStamp {
        is_file: false,
        ..file(1)
    };
    assert_eq!(guarded_files_match(Some(file(1)), Some(file(1))), Ok(()));
    for other in [file(2), other_volume, directory] {
        assert_eq!(
            guarded_files_match(Some(file(1)), Some(other)),
            Err(StorageError::Identity)
        );
    }
    assert_eq!(
        guarded_files_match(None, Some(file(1))),
        Err(StorageError::Filesystem)
    );
    assert_eq!(
        guarded_file_matches_path(Some(file(1)), Some(file(1))),
        Ok(())
    );
    assert_eq!(
        guarded_file_matches_path(Some(file(1)), Some(file(2))),
        Err(StorageError::Identity)
    );
    assert_eq!(
        guarded_file_matches_path(Some(file(1)), None),
        Err(StorageError::Filesystem)
    );
}

#[test]
fn absent_files_must_stay_absent() {
    assert_eq!(
        guarded_optional_file_matches_path(None, NameProbe::NotFound),
        Ok(())
    );
    assert_eq!(
        guarded_optional_file_matches_path(None, NameProbe::Found),
        Err(StorageError::Identity)
    );
    assert_eq!(
        guarded_optional_file_matches_path(None, NameProbe::Failed),
        Err(StorageError::Filesystem)
    );
    assert_eq!(
        guarded_optional_file_matches_path(Some(Ok(())), NameProbe::Failed),
        Ok(())
    );
    assert_eq!(
        optional_regular_file(NameProbe::NotFound, None),
        Ok(None)
    );
    assert_eq!(
        optional_regular_file(NameProbe::Found, Some(file(1))),
        Ok(Some(file(1)))
    );
    assert_eq!(
        optional_regular_file(NameProbe::Found, None),
        Err(StorageError::Filesystem)
    );
    assert_eq!(
        ensure_sidecars_absent(NameProbe::NotFound, NameProbe::NotFound),
        Ok(())
    );
    assert_eq!(
        ensure_sidecars_absent(NameProbe::NotFound, NameProbe::Found),
        Err(StorageError::Sidecar)
    );
    assert_eq!(
        ensure_sidecars_absent(NameProbe::Failed, NameProbe::Found),
        Err(StorageError::Filesystem)
    );
}

#[test]
fn bare_relative_vault_paths_use_the_current_directory_as_parent() {
    assert_eq!(parent_directory(Some(Vec::new())), b".".to_vec());
    assert_eq!(parent_directory(None), b".".to_vec());
    assert_eq!(parent_directory(Some(b"/a".to_vec())), b"/a".to_vec());
    assert_eq!(
        sqlite_sidecar(b"/a/vault.db", "-wal"),
        b"/a/vault.db-wal".to_vec()
    );
}

#[test]
fn ancestors_are_opened_one_by_one() {
    let components = vec![
        PathComponent::RootDir,
        PathComponent::Normal(b"home".to_vec()),
        PathComponent::CurDir,
        PathComponent::ParentDir,
        PathComponent::Normal(b"vaults".to_vec()),
    ];
    assert_eq!(
        ancestor_directories(true, &components),
        Some(vec![
            b"home".to_vec(),
            b"..".to_vec(),
            b"vaults".to_vec()
        ])
    );
    assert_eq!(ancestor_directories(false, &components), None);
    assert_eq!(
        ancestor_directories(true, &vec![PathComponent::Prefix]),
        None
    );
    assert!(ancestor_is_trusted(true, false));
    assert!(!ancestor_is_trusted(true, true));
    assert!(!ancestor_is_trusted(false, false));
}

#[test]
fn numbers_are_written_in_decimal_and_hexadecimal() {
    let mut text = Vec::new();
    for value in [0, 7, 10, u64::MAX] {
        push_decimal(&mut text, value);
        text.push(b' ');
    }
    assert_eq!(text, b"0 7 10 18446744073709551615 ".to_vec());
    let mut text = b"x".to_vec();
    push_hex(&mut text, &[0, 0x0F, 0xA5, 0xFF]);
    assert_eq!(text, b"x000fa5ff".to_vec());
}

// Creating a vault file

#[test]
fn creation_never_overwrites_an_existing_file() {
    let found = |is_redirected| TargetProbe::Found { is_redirected };
    assert_eq!(
        validate_new_target(true, true, found(Some(false))),
        Err(CreateError::AlreadyExists)
    );
    assert_eq!(
        validate_new_target(true, true, found(Some(true))),
        Err(CreateError::Failed)
    );
    assert_eq!(
        validate_new_target(true, true, found(None)),
        Err(CreateError::Failed)
    );
    assert_eq!(
        validate_new_target(false, true, TargetProbe::NotFound),
        Err(CreateError::Failed)
    );
    assert_eq!(
        validate_new_target(true, false, TargetProbe::NotFound),
        Err(CreateError::Failed)
    );
    assert_eq!(
        validate_new_target(true, true, TargetProbe::Failed),
        Err(CreateError::Failed)
    );
    assert_eq!(
        validate_new_target(true, true, TargetProbe::NotFound),
        Ok(())
    );
}

#[test]
fn staging_names_are_used_once() {
    assert_eq!(
        write_staging_name(b"vault.db", 17, 3),
        b"vault.db.librarian-stage-17-3".to_vec()
    );
    let mut next = 3;
    let reserved = reserve_staging_file(b"v", 1, &mut next, |name| {
        if name.ends_with(b"-5") {
            CreateAttempt::Created
        } else {
            CreateAttempt::AlreadyExists
        }
    });
    assert_eq!(reserved, Ok(b"v.librarian-stage-1-5".to_vec()));
    assert_eq!(next, 6);
    assert_eq!(
        reserve_staging_file(b"v", 1, &mut next, |_| CreateAttempt::Failed),
        Err(CreateError::Failed)
    );
    assert_eq!(next, 7);
    assert_eq!(
        reserve_staging_file(b"v", 1, &mut next, |_| CreateAttempt::AlreadyExists),
        Err(CreateError::Failed)
    );
    assert_eq!(next, 7 + MAX_STAGING_ATTEMPTS);
    let mut exhausted = u64::MAX;
    assert_eq!(
        reserve_staging_file(b"v", 1, &mut exhausted, |_| CreateAttempt::Created),
        Err(CreateError::Failed)
    );
}

/// Runs a creation in which one action fails.
fn create(failing: Option<CreateAction>) -> (Vec<CreateAction>, Result<(), CreateError>) {
    let mut flow = CreateFlow::create();
    let mut action = CreateAction::ValidateTarget;
    let mut actions = Vec::new();
    loop {
        actions.push(action);
        let fails = failing == Some(action);
        let event = match action {
            CreateAction::ValidateTarget | CreateAction::ReserveStaging => {
                CreateEvent::Target(if fails {
                    Err(CreateError::AlreadyExists)
                } else {
                    Ok(())
                })
            }
            CreateAction::BeforePublish => CreateEvent::Asked(if fails {
                Err(CreateError::Failed)
            } else {
                Ok(())
            }),
            CreateAction::LinkTarget => CreateEvent::Linked(if fails {
                CreateAttempt::AlreadyExists
            } else {
                CreateAttempt::Created
            }),
            CreateAction::Finish(result) => return (actions, result),
            _ if fails => CreateEvent::NotDone,
            _ => CreateEvent::Done,
        };
        action = flow.step(event);
    }
}

#[test]
fn creation_publishes_only_complete_vaults() {
    let (actions, result) = create(None);
    assert_eq!(result, Ok(()));
    assert_eq!(actions.len(), 16);
    assert_eq!(actions[14], CreateAction::CleanUpStaging(Ok(())));
    let position = |wanted| {
        actions
            .iter()
            .position(|action| *action == wanted)
            .expect("action")
    };
    assert!(
        position(CreateAction::InitializeDatabase) < position(CreateAction::LinkTarget)
    );
    assert!(position(CreateAction::BeforePublish) < position(CreateAction::LinkTarget));
}

#[test]
fn creation_rejects_final_path_sidecars() {
    let target = b"/vaults/vault.sqlite3";
    for (sidecar, content) in [("-wal", &b"stale wal"[..]), ("-shm", &b"stale shm"[..])] {
        let fixture = sqlite_sidecar(target, sidecar);
        let names = RefCell::new(vec![(fixture.clone(), content.to_vec())]);
        let probe = |suffix: &str| {
            let name = sqlite_sidecar(target, suffix);
            if names.borrow().iter().any(|(taken, _)| *taken == name) {
                NameProbe::Found
            } else {
                NameProbe::NotFound
            }
        };
        let mut flow = CreateFlow::create();
        let mut action = CreateAction::ValidateTarget;
        let result = loop {
            let event = match action {
                CreateAction::ValidateTarget | CreateAction::ReserveStaging => {
                    CreateEvent::Target(Ok(()))
                }
                CreateAction::CheckTargetSidecars => {
                    match ensure_sidecars_absent(probe("-wal"), probe("-shm")) {
                        Ok(()) => CreateEvent::Done,
                        Err(_) => CreateEvent::NotDone,
                    }
                }
                CreateAction::BeforePublish => CreateEvent::Asked(Ok(())),
                CreateAction::LinkTarget => {
                    names.borrow_mut().push((target.to_vec(), Vec::new()));
                    CreateEvent::Linked(CreateAttempt::Created)
                }
                CreateAction::RemoveTarget { .. }
                | CreateAction::RemoveTargetIfPublished { .. } => {
                    names.borrow_mut().retain(|(taken, _)| taken != target);
                    CreateEvent::Done
                }
                CreateAction::Finish(result) => break result,
                _ => CreateEvent::Done,
            };
            action = flow.step(event);
        };
        assert_eq!(result, Err(CreateError::Failed));
        assert_eq!(*names.borrow(), vec![(fixture, content.to_vec())]);
    }
    let (actions, result) = create(Some(CreateAction::CheckTargetSidecars));
    assert_eq!(result, Err(CreateError::Failed));
    assert!(!actions.contains(&CreateAction::LinkTarget));
}

#[test]
fn create_never_replaces_an_existing_target() {
    let (actions, result) = create(Some(CreateAction::ValidateTarget));
    assert_eq!(result, Err(CreateError::AlreadyExists));
    assert_eq!(actions.len(), 2);
    let (actions, result) = create(Some(CreateAction::LinkTarget));
    assert_eq!(result, Err(CreateError::AlreadyExists));
    assert!(!actions.contains(&CreateAction::RemoveTarget { sync: false }));
}

#[test]
fn partial_staging_never_publishes_the_target_name() {
    for failing in [
        CreateAction::CreateCore,
        CreateAction::InitializeDatabase,
        CreateAction::CheckStagingSidecars,
        CreateAction::MatchReservation,
        CreateAction::BeforePublish,
    ] {
        let (actions, result) = create(Some(failing));
        assert_eq!(result, Err(CreateError::Failed));
        assert!(!actions.contains(&CreateAction::LinkTarget));
    }
}

#[test]
fn creations_leave_no_staging_file() {
    let refused = create(Some(CreateAction::ReserveStaging)).0;
    assert!(!refused
        .iter()
        .any(|action| matches!(action, CreateAction::CleanUpStaging(_))));
    for failing in [
        CreateAction::CreateCore,
        CreateAction::InitializeDatabase,
        CreateAction::CheckStagingSidecars,
        CreateAction::CheckTargetSidecars,
        CreateAction::MatchReservation,
        CreateAction::BeforePublish,
        CreateAction::LinkTarget,
        CreateAction::CheckPublication,
        CreateAction::RemoveStagingName,
        CreateAction::SealTarget,
        CreateAction::SyncParent,
        CreateAction::VerifyPublished,
    ] {
        let (actions, result) = create(Some(failing));
        assert!(result.is_err());
        assert_eq!(
            actions[actions.len() - 2],
            CreateAction::CleanUpStaging(result)
        );
    }
}

#[test]
fn creations_end_with_the_refusal_of_whoever_wants_them() {
    for refusal in [CreateError::Failed, CreateError::AlreadyExists] {
        let mut flow = CreateFlow::create();
        let mut action = CreateAction::ValidateTarget;
        let mut asked = 0;
        let result = loop {
            let event = match action {
                CreateAction::ValidateTarget | CreateAction::ReserveStaging => {
                    CreateEvent::Target(Ok(()))
                }
                CreateAction::BeforePublish => {
                    asked += 1;
                    CreateEvent::Asked(Err(refusal))
                }
                CreateAction::Finish(result) => break result,
                _ => CreateEvent::Done,
            };
            action = flow.step(event);
        };
        assert_eq!(result, Err(refusal));
        assert_eq!(asked, 1);
        assert!(!flow.linked);
    }
}

#[test]
fn failed_publications_are_taken_back() {
    for (failing, expected) in [
        (
            CreateAction::CheckPublication,
            CreateAction::RemoveTarget { sync: false },
        ),
        (
            CreateAction::RemoveStagingName,
            CreateAction::RemoveTarget { sync: false },
        ),
        (
            CreateAction::SealTarget,
            CreateAction::RemoveTargetIfPublished { sync: false },
        ),
        (
            CreateAction::SyncParent,
            CreateAction::RemoveTarget { sync: true },
        ),
        (
            CreateAction::VerifyPublished,
            CreateAction::RemoveTargetIfPublished { sync: true },
        ),
    ] {
        let (actions, result) = create(Some(failing));
        assert_eq!(result, Err(CreateError::Failed));
        assert!(actions.contains(&expected));
        let durable = matches!(
            expected,
            CreateAction::RemoveTarget { sync: true }
                | CreateAction::RemoveTargetIfPublished { sync: true }
        );
        assert_eq!(actions.contains(&CreateAction::SyncRemoval), durable);
    }
}

// Snapshots

fn redirected(number: u64) -> FileStamp {
    FileStamp {
        is_redirected: true,
        ..file(number)
    }
}

#[test]
fn symlinked_vault_files_fail_closed() {
    assert_eq!(
        validate_new_target(
            true,
            true,
            TargetProbe::Found {
                is_redirected: Some(true)
            }
        ),
        Err(CreateError::Failed)
    );
    assert!(!redirected(4).is_regular());
    assert_eq!(
        optional_regular_file(NameProbe::Found, Some(redirected(4))).err(),
        Some(StorageError::Filesystem)
    );
    assert_eq!(
        guarded_file_matches_path(Some(file(4)), Some(redirected(4))),
        Err(StorageError::Filesystem)
    );

    let mut linked_agent = VaultAgent::<u8>::open_locked(Some(b"/linked-vault.sqlite3".to_vec()));
    let attempt = linked_agent.unlock();
    let attempt = linked_agent.continue_unlock(attempt, &mut 1, UnlockEvent::Cancelled(false));
    assert_eq!(attempt.step, UnlockStep::Read);
    let found = match optional_regular_file(NameProbe::Found, Some(redirected(4))) {
        Ok(_) => Ok(new_vault(0)),
        Err(error) => Err(error),
    };
    let attempt = linked_agent.continue_unlock(attempt, &mut 1, UnlockEvent::Rows(found));
    assert_eq!(attempt.step, UnlockStep::Refused(UnlockError::Failed));
    assert!(!linked_agent.is_unlocked());
}

fn new_vault(records: usize) -> VaultData {
    VaultData {
        header: b"header".to_vec(),
        manifest: b"manifest".to_vec(),
        records: (0..records)
            .map(|index| {
                EncryptedRecord::new(RecordId::from_bytes([index as u8; 16]), vec![1])
            })
            .collect(),
    }
}

#[test]
fn published_files_must_be_the_staged_ones() {
    assert!(publication_is_valid(Some(file(4)), Some(file(4)), Ok(())));
    assert!(!publication_is_valid(Some(file(4)), Some(file(5)), Ok(())));
    assert!(!publication_is_valid(
        Some(file(4)),
        Some(redirected(4)),
        Ok(())
    ));
    assert!(!publication_is_valid(Some(file(4)), None, Ok(())));
    assert!(!publication_is_valid(None, Some(file(4)), Ok(())));
    assert!(!publication_is_valid(
        Some(file(4)),
        Some(file(4)),
        Err(StorageError::Sidecar)
    ));

    assert_eq!(
        seal_published_vault(Some(file(4)), Some(file(4)), Ok(())),
        Ok(())
    );
    assert_eq!(
        seal_published_vault(Some(file(4)), Some(file(6)), Ok(())),
        Err(CreateError::Failed)
    );
    assert_eq!(
        seal_published_vault(Some(file(4)), Some(file(4)), Err(StorageError::Sidecar)),
        Err(CreateError::Failed)
    );

    assert!(target_is_published(Some(file(4)), Some(file(4))));
    assert!(!target_is_published(Some(file(4)), Some(file(5))));
    assert!(!target_is_published(Some(file(4)), None));
}

#[test]
fn published_vaults_are_read_back_empty() {
    let verify = |read, from, header: &[u8], manifest: &[u8]| {
        verify_published_vault(Some(file(4)), read, from, header, manifest)
    };
    assert_eq!(
        verify(Ok(new_vault(0)), Some(file(4)), b"header", b"manifest"),
        Ok(())
    );
    assert_eq!(
        verify(Ok(new_vault(0)), Some(file(5)), b"header", b"manifest"),
        Err(CreateError::Failed)
    );
    assert_eq!(
        verify(Ok(new_vault(0)), Some(file(4)), b"other", b"manifest"),
        Err(CreateError::Failed)
    );
    assert_eq!(
        verify(Ok(new_vault(0)), Some(file(4)), b"header", b"other"),
        Err(CreateError::Failed)
    );
    assert_eq!(
        verify(Ok(new_vault(1)), Some(file(4)), b"header", b"manifest"),
        Err(CreateError::Failed)
    );
    assert_eq!(
        verify(
            Err(StorageError::Integrity),
            Some(file(4)),
            b"header",
            b"manifest"
        ),
        Err(CreateError::Failed)
    );
}

#[test]
fn only_empty_vaults_pass_as_empty() {
    let empty = read_guarded_empty_vault(Ok(new_vault(0))).ok();
    assert!(empty.is_some_and(|data| data.header == b"header" && data.records.is_empty()));
    assert_eq!(
        read_guarded_empty_vault(Ok(new_vault(2))).err(),
        Some(StorageError::Schema)
    );
    assert_eq!(
        read_guarded_empty_vault(Err(StorageError::Sqlite)).err(),
        Some(StorageError::Sqlite)
    );
    assert_eq!(
        read_empty_vault(Ok(new_vault(0))),
        Ok((b"header".to_vec(), b"manifest".to_vec()))
    );
    assert_eq!(
        read_empty_vault(Ok(new_vault(1))),
        Err(StorageError::Schema)
    );
}

#[test]
fn snapshot_directories_have_random_names() {
    let mut random = [0_u8; 16];
    random[0] = 0xAB;
    random[15] = 0x01;
    assert_eq!(
        write_snapshot_directory_name(&random),
        b"librarian-vault-snapshot-010000000000000000000000000000ab".to_vec()
    );
    let tried = RefCell::new(Vec::new());
    let reserved = reserve_sqlite_snapshot_directory(|name| {
        tried.borrow_mut().push(name.clone());
        if tried.borrow().len() < 3 {
            CreateAttempt::AlreadyExists
        } else {
            CreateAttempt::Created
        }
    })
    .expect("directory");
    let tried = tried.borrow();
    assert_eq!(tried.len(), 3);
    assert_eq!(tried[2], reserved);
    assert_ne!(tried[0], tried[1]);
    assert_eq!(reserved.len(), 25 + 32);
    assert_eq!(
        reserve_sqlite_snapshot_directory(|_| CreateAttempt::Failed),
        Err(StorageError::Filesystem)
    );
    assert_eq!(
        reserve_sqlite_snapshot_directory(|_| CreateAttempt::AlreadyExists),
        Err(StorageError::Snapshot)
    );
    assert_eq!(
        try_snapshot_directory(None, &|_| CreateAttempt::Created),
        Err(StorageError::Randomness)
    );
}

#[test]
fn snapshots_are_whole_or_refused() {
    assert_eq!(accept_snapshot_copy(5, 5), Ok(()));
    assert_eq!(accept_snapshot_copy(5, 4), Err(StorageError::Snapshot));
    assert_eq!(accept_snapshot(Ok(()), None), Ok(()));
    assert_eq!(accept_snapshot(Ok(()), Some(Ok(()))), Ok(()));
    assert_eq!(
        accept_snapshot(Ok(()), Some(Err(StorageError::Filesystem))),
        Err(StorageError::Snapshot)
    );
    assert_eq!(
        accept_snapshot(Err(StorageError::Filesystem), None),
        Err(StorageError::Snapshot)
    );
}

// Randomness

#[test]
fn random_values_are_never_zero() {
    assert_eq!(usable_random::<4>(Some([0; 4])), None);
    assert_eq!(usable_random(Some([0, 0, 1])), Some([0, 0, 1]));
    assert_eq!(usable_random::<4>(None), None);
    assert_ne!(correlation_id().expect("id"), [0; 16]);
    assert_ne!(
        correlation_id().expect("id"),
        correlation_id().expect("id")
    );
    assert_ne!(windows_hello_operation_id().expect("id"), [0; 16]);
    assert_ne!(idempotency_fingerprint_key().expect("key"), [0; 32]);
    assert_ne!(installation_key().expect("key"), [0; 32]);
    assert_ne!(name_entropy(), name_entropy());
}

// Owners

fn record(name: &str, number: Option<u64>) -> OwnershipRecord {
    OwnershipRecord {
        normalized_path: name.as_bytes().to_vec(),
        identity: number.map(|file| FileIdentity { volume: 1, file }),
    }
}

struct Process {
    registry: OwnershipRegistry,
    next: u64,
}

impl Process {
    fn new() -> Process {
        Process {
            registry: OwnershipRegistry::new(),
            next: 1,
        }
    }

    fn start(
        &mut self,
        vault: OwnershipRecord,
        state: OwnershipRecord,
    ) -> Result<AgentRuntime, RuntimeStartError> {
        AgentRuntime::start(
            StartRequest {
                vault_path: vault.normalized_path.clone(),
                vault_path_is_absolute: true,
                has_prompt: true,
                has_prompt_state: true,
                vault_record: Ok(vault),
                state_record: Some(Ok(state)),
                presence: NameProbe::NotFound,
            },
            &mut self.registry,
            &mut self.next,
        )
    }
}

#[test]
fn windows_hello_state_paths_are_disjoint_and_exclusively_owned() {
    let mut process = Process::new();
    let first = process
        .start(
            record("/first.sqlite3", None),
            record("/windows-hello.dat", None),
        )
        .ok()
        .expect("first protected-state owner");
    assert!(first.windows_hello_configured);
    assert_eq!(
        process
            .start(
                record("/second.sqlite3", None),
                record("/windows-hello.dat", None)
            )
            .err(),
        Some(RuntimeStartError::AlreadyOwned)
    );
    assert_eq!(
        process
            .start(
                record("/second.sqlite3", None),
                record("/second.sqlite3", None)
            )
            .err(),
        Some(RuntimeStartError::InvalidLocalStatePath)
    );
    assert_eq!(
        process
            .start(
                record("/existing.sqlite3", Some(5)),
                record("/existing-alias.dat", Some(5))
            )
            .err(),
        Some(RuntimeStartError::InvalidLocalStatePath)
    );
    assert_eq!(process.registry.entries.len(), 1);
}

#[test]
fn windows_hello_state_ownership_tracks_replaced_file_identity() {
    let mut process = Process::new();
    let first = process
        .start(
            record("/first.sqlite3", None),
            record("/windows-hello.dat", None),
        )
        .ok()
        .expect("protected-state owner");
    for number in [7, 8] {
        assert_eq!(
            first.ownership.bind_windows_hello_state(
                &mut process.registry,
                Ok(record("/windows-hello.dat", Some(number)))
            ),
            Ok(())
        );
    }
    assert_eq!(
        process
            .start(
                record("/second.sqlite3", None),
                record("/windows-hello-alias.dat", Some(8))
            )
            .err(),
        Some(RuntimeStartError::AlreadyOwned)
    );
    assert!(process
        .start(
            record("/second.sqlite3", None),
            record("/windows-hello-alias.dat", Some(7))
        )
        .is_ok());
}

#[test]
fn leases_follow_only_their_own_files() {
    let mut process = Process::new();
    let agent = process
        .start(record("/vault", None), record("/state", None))
        .ok()
        .expect("agent");
    let lease = agent.ownership;
    let stranger = OwnershipLease { token: 99 };
    for observed in [
        Ok(record("/vault", None)),
        Ok(record("/other", Some(3))),
        Err(RuntimeStartError::InvalidVaultPath),
    ] {
        assert_eq!(
            lease.bind_existing(&mut process.registry, observed),
            Err(DispatchError::Internal)
        );
    }
    assert_eq!(
        stranger.bind_existing(&mut process.registry, Ok(record("/vault", Some(3)))),
        Err(DispatchError::Internal)
    );
    assert_eq!(
        lease.bind_existing(&mut process.registry, Ok(record("/vault", Some(3)))),
        Ok(())
    );
    assert_eq!(
        lease.bind_windows_hello_state(&mut process.registry, Ok(record("/state", Some(3)))),
        Err(DispatchError::Internal)
    );
    let mut kept = IdempotencyState::new();
    assert_eq!(
        lease.bind_authenticated(
            &mut process.registry,
            &record("/vault", Some(3)),
            Ok(record("/vault", Some(4))),
            &mut kept,
            [9; 16]
        ),
        Err(DispatchError::Internal)
    );
    assert_eq!(kept.authenticated_vault_id, None);
    assert_eq!(
        lease.bind_authenticated(
            &mut process.registry,
            &record("/vault", Some(3)),
            Ok(record("/vault", Some(3))),
            &mut kept,
            [9; 16]
        ),
        Ok(())
    );
    assert_eq!(kept.authenticated_vault_id, Some([9; 16]));
    let mut next = u64::MAX;
    assert_eq!(
        next_ownership_token(&mut next),
        Err(RuntimeStartError::Internal)
    );
}

fn path(text: &str) -> Option<PlatformPath> {
    Some(PlatformPath {
        bytes: text.as_bytes().to_vec(),
        text: Some(text.to_owned()),
    })
}

#[test]
fn owned_paths_are_canonical() {
    let identity = Some(FileIdentity { volume: 1, file: 2 });
    let exists = |is_file, canonical, identity| PathObservation::Exists {
        is_file,
        canonical,
        identity,
    };
    let found = ownership_record(
        exists(true, path("/Vault.DB"), identity),
        NameCase::Distinguished,
    )
    .ok()
    .expect("record");
    assert_eq!(found.normalized_path, b"/Vault.DB".to_vec());
    assert_eq!(found.identity, identity);
    let ignoring = ownership_record(
        exists(true, path("C:\\V\u{c4}ult.DB"), identity),
        NameCase::Ignored,
    )
    .ok()
    .expect("record");
    assert_eq!(
        ignoring.normalized_path,
        "c:\\v\u{e4}ult.db".as_bytes().to_vec()
    );
    let textless = Some(PlatformPath {
        bytes: vec![0xFF],
        text: None,
    });
    for observation in [
        exists(false, path("/a"), identity),
        exists(true, None, identity),
        exists(true, path("/a"), None),
        exists(true, textless, identity),
        PathObservation::NotFound {
            link_is_there: true,
            below_canonical_parent: path("/a"),
        },
        PathObservation::NotFound {
            link_is_there: false,
            below_canonical_parent: None,
        },
        PathObservation::Failed,
    ] {
        assert_eq!(
            ownership_record(observation, NameCase::Ignored).err(),
            Some(RuntimeStartError::InvalidVaultPath)
        );
    }
    let absent = ownership_record(
        PathObservation::NotFound {
            link_is_there: false,
            below_canonical_parent: path("/a/New"),
        },
        NameCase::Ignored,
    )
    .ok()
    .expect("record");
    assert_eq!(absent.normalized_path, b"/a/new".to_vec());
    assert_eq!(absent.identity, None);
}

// The local state file

fn hello_limits() -> HelloLimits {
    HelloLimits {
        max_credential_id_bytes: 1024,
        max_protector_bytes: 2048,
    }
}

fn protector_binding(marker: u8) -> ProtectorBinding {
    ProtectorBinding {
        vault_id: [marker; 16],
        key_epoch: 1,
        credential_id: vec![marker; 64],
        prf_salt: [marker; 32],
    }
}

fn state(marker: u8) -> WindowsHelloLocalState {
    WindowsHelloLocalState::new(
        HelloEnrollment {
            vault_id: [marker; 16],
            key_epoch: 1,
            installation_key: [marker.wrapping_add(6); 32],
            credential_id: vec![marker; 64],
            prf_salt: [marker; 32],
            protector: vec![marker; 9],
        },
        hello_limits(),
        Some(protector_binding(marker)),
    )
    .ok()
    .expect("state")
}

fn protect(plaintext: &Vec<u8>) -> Option<Vec<u8>> {
    Some(plaintext.iter().map(|byte| byte ^ 0x5A).collect())
}

/// A directory with one name for the state and one for the staging file.
struct StateDirectory {
    stored: Option<Vec<u8>>,
    staging: Option<Vec<u8>>,
}

impl StateDirectory {
    fn save(
        &mut self,
        state: &WindowsHelloLocalState,
        failing: Option<SaveAction>,
    ) -> Result<(), WindowsHelloStateError> {
        let mut flow = SaveFlow::save(state, protect)?;
        let mut action = SaveAction::GuardAncestors;
        loop {
            if let SaveAction::Finish(result) = action {
                return result;
            }
            let event = if failing == Some(action) {
                SaveEvent::NotDone
            } else {
                match action {
                    SaveAction::OpenExisting => SaveEvent::Existing(if self.stored.is_some() {
                        NameProbe::Found
                    } else {
                        NameProbe::NotFound
                    }),
                    SaveAction::WriteStaging => {
                        self.staging = Some(flow.protected.clone());
                        SaveEvent::Done
                    }
                    SaveAction::ReplaceFile => {
                        self.stored = self.staging.take();
                        SaveEvent::Done
                    }
                    SaveAction::ReadReplacement => SaveEvent::Content(self.stored.clone()),
                    SaveAction::LinkFile => {
                        self.stored = self.staging.clone();
                        SaveEvent::Done
                    }
                    SaveAction::RemoveStagingName | SaveAction::CleanUpStaging => {
                        self.staging = None;
                        SaveEvent::Done
                    }
                    _ => SaveEvent::Done,
                }
            };
            action = flow.step(event);
        }
    }

    fn load(&self) -> Result<WindowsHelloLocalState, WindowsHelloStateError> {
        let mut flow = LoadFlow::load();
        let mut action = LoadAction::GuardAncestors;
        loop {
            let event = match action {
                LoadAction::OpenFile => LoadEvent::Opened(if self.stored.is_some() {
                    NameProbe::Found
                } else {
                    NameProbe::NotFound
                }),
                LoadAction::Measure => LoadEvent::Measured(Ok(self
                    .stored
                    .as_ref()
                    .map_or(0, |bytes| bytes.len() as u64))),
                LoadAction::ReadPlaintext => {
                    LoadEvent::Plaintext(self.stored.as_ref().and_then(protect))
                }
                LoadAction::Finish => {
                    return flow.finish(hello_limits(), |protector| {
                        Some(protector_binding(protector[0]))
                    })
                }
                _ => LoadEvent::Done,
            };
            action = flow.step(event);
        }
    }

    fn remove(&mut self) -> Result<(), WindowsHelloStateError> {
        let mut action = RemoveAction::GuardAncestors;
        loop {
            if let RemoveAction::Finish(result) = action {
                return result;
            }
            let opened = if self.stored.is_some() {
                NameProbe::Found
            } else {
                NameProbe::NotFound
            };
            if action == RemoveAction::RemoveFile {
                self.stored = None;
            }
            action = remove_step(action, opened, true);
        }
    }
}

#[test]
fn protected_store_round_trips_replaces_and_removes_without_plaintext() {
    let mut directory = StateDirectory {
        stored: None,
        staging: None,
    };
    let first = state(0x41);
    assert_eq!(directory.save(&first, None), Ok(()));
    assert!(!directory
        .stored
        .as_ref()
        .expect("stored")
        .windows(32)
        .any(|value| value == [0x47; 32]));
    let loaded = directory.load().ok().expect("first load");
    assert_eq!(loaded.credential_id(), first.credential_id());

    let second = state(0x51);
    assert_eq!(directory.save(&second, None), Ok(()));
    assert_eq!(directory.staging, None);
    let loaded = directory.load().ok().expect("second load");
    assert_eq!(loaded.credential_id(), second.credential_id());

    assert_eq!(directory.remove(), Ok(()));
    assert_eq!(
        directory.load().err(),
        Some(WindowsHelloStateError::NotFound)
    );
    assert_eq!(
        directory.remove(),
        Err(WindowsHelloStateError::NotFound)
    );
}

#[test]
fn failed_saves_tell_whether_the_state_is_in_place() {
    for (failing, expected) in [
        (SaveAction::GuardAncestors, WindowsHelloStateError::Failed),
        (SaveAction::ReserveStaging, WindowsHelloStateError::Failed),
        (SaveAction::WriteStaging, WindowsHelloStateError::Failed),
        (SaveAction::MatchExisting, WindowsHelloStateError::Failed),
        (SaveAction::ReplaceFile, WindowsHelloStateError::Failed),
        (
            SaveAction::ReadReplacement,
            WindowsHelloStateError::Published,
        ),
        (SaveAction::SyncParent, WindowsHelloStateError::Published),
    ] {
        let mut directory = StateDirectory {
            stored: None,
            staging: None,
        };
        assert_eq!(directory.save(&state(1), None), Ok(()));
        assert_eq!(
            directory.save(&state(2), Some(failing)),
            Err(expected)
        );
        assert_eq!(directory.staging, None);
        let loaded = directory.load().ok().expect("state");
        let marker = if expected == WindowsHelloStateError::Published {
            2
        } else {
            1
        };
        assert_eq!(loaded.credential_id(), state(marker).credential_id());
    }
}

#[test]
fn unprotectable_states_are_not_written() {
    assert_eq!(
        SaveFlow::save(&state(1), |_| None).err(),
        Some(WindowsHelloStateError::Failed)
    );
}

#[test]
fn protected_states_are_bounded() {
    for (length, expected) in [
        (0, Err(WindowsHelloStateError::Invalid)),
        (
            MAXIMUM_PROTECTED_STATE_BYTES + 1,
            Err(WindowsHelloStateError::Failed),
        ),
        (MAXIMUM_PROTECTED_STATE_BYTES, Ok(())),
    ] {
        let mut flow = LoadFlow::load();
        flow.step(LoadEvent::Done);
        flow.step(LoadEvent::Opened(NameProbe::Found));
        flow.step(LoadEvent::Done);
        let action = flow.step(LoadEvent::Measured(Ok(length)));
        match expected {
            Ok(()) => assert_eq!(action, LoadAction::ReadPlaintext),
            Err(error) => {
                assert_eq!(action, LoadAction::Finish);
                assert_eq!(
                    flow.finish(hello_limits(), |_| None).err(),
                    Some(error)
                );
            }
        }
    }
}

#[test]
fn state_stores_name_their_staging_file() {
    let named = |is_absolute, name: Option<&str>, has_parent| {
        WindowsHelloStateStore::new(
            b"/a/state.bin".to_vec(),
            is_absolute,
            name.map(|name| name.as_bytes().to_vec()),
            has_parent,
        )
    };
    assert_eq!(
        named(false, Some("state.bin"), true).err(),
        Some(WindowsHelloStateError::Invalid)
    );
    assert_eq!(
        named(true, None, true).err(),
        Some(WindowsHelloStateError::Invalid)
    );
    assert_eq!(
        named(true, Some("state.bin"), false).err(),
        Some(WindowsHelloStateError::Invalid)
    );
    let store = named(true, Some("state.bin"), true).ok().expect("store");
    assert_eq!(
        store.staging_name(Some([0xAB; 16])),
        Ok(b"state.bin.abababababababababababababababab.tmp".to_vec())
    );
    assert_eq!(
        store.staging_name(Some([0; 16])),
        Err(WindowsHelloStateError::Failed)
    );
    assert_eq!(
        store.staging_name(None),
        Err(WindowsHelloStateError::Failed)
    );
    assert_ne!(store.staging_path(), store.staging_path());
}

#[test]
fn lost_ownership_is_a_failure() {
    assert_eq!(with_ownership(Ok(3), true), Ok(3));
    assert_eq!(
        with_ownership(Ok(3), false),
        Err(WindowsHelloStateError::Failed)
    );
    assert_eq!(
        saved_with_ownership(Ok(()), false),
        Err(WindowsHelloStateError::Published)
    );
    assert_eq!(
        saved_with_ownership(Err(WindowsHelloStateError::Invalid), false),
        Err(WindowsHelloStateError::Failed)
    );
    assert_eq!(
        saved_with_ownership(Err(WindowsHelloStateError::Invalid), true),
        Err(WindowsHelloStateError::Invalid)
    );
}

// The process

fn observation() -> ProcessObservation {
    ProcessObservation {
        package_full_name: Some(b"Librarian_1.0_x64".to_vec()),
        package_family_name: Some(b"Librarian_abc".to_vec()),
        application_user_model_id: Some(b"Librarian_abc!VaultAgent".to_vec()),
        elevated: false,
        app_container: false,
        integrity_rid: 0x2000,
        image_name: Some(b"librarian.vaultagent.EXE".to_vec()),
        image_directory: Some(b"C:\\Apps".to_vec()),
        session_id: 4,
        user_sid: b"S-1-5-21".to_vec(),
        logon_sid: b"S-1-5-5".to_vec(),
    }
}

#[test]
fn only_the_installed_agent_serves() {
    let identity = validate_agent(&observation()).ok().expect("identity");
    assert_eq!(identity.install_root, b"C:\\Apps".to_vec());
    for wrong in [
        ProcessObservation {
            package_full_name: None,
            ..observation()
        },
        ProcessObservation {
            package_family_name: None,
            ..observation()
        },
        ProcessObservation {
            application_user_model_id: Some(b"Librarian_abc!Desktop".to_vec()),
            ..observation()
        },
        ProcessObservation {
            elevated: true,
            ..observation()
        },
        ProcessObservation {
            app_container: true,
            ..observation()
        },
        ProcessObservation {
            integrity_rid: 0x3000,
            ..observation()
        },
        ProcessObservation {
            image_name: Some(b"other.exe".to_vec()),
            ..observation()
        },
        ProcessObservation {
            image_directory: None,
            ..observation()
        },
    ] {
        assert_eq!(validate_agent(&wrong).err(), Some(HostError::Identity));
    }
    let policy = desktop_policy(&observation(), &identity);
    assert_eq!(policy.session_id, 4);
    assert_eq!(policy.image_name, b"Librarian.Windows.exe".to_vec());
    assert_eq!(
        policy.application_user_model_id,
        b"Librarian_abc!Desktop".to_vec()
    );
    assert!(eq_ignore_ascii_case(b"aZ@[", b"Az@["));
    assert!(!eq_ignore_ascii_case(b"@", b"`"));
}

#[test]
fn local_state_must_be_a_directory() {
    assert_eq!(
        accept_local_state(true, true, CreateAttempt::AlreadyExists, true),
        Ok(())
    );
    for (absolute, directory, created, root) in [
        (false, true, CreateAttempt::Created, true),
        (true, false, CreateAttempt::Created, true),
        (true, true, CreateAttempt::Failed, true),
        (true, true, CreateAttempt::Created, false),
    ] {
        assert_eq!(
            accept_local_state(absolute, directory, created, root),
            Err(HostError::LocalState)
        );
    }
}

#[test]
fn connections_and_frames_are_decided() {
    assert_eq!(after_accept(AcceptResult::Connected), AcceptDecision::Serve);
    assert_eq!(after_accept(AcceptResult::Timeout), AcceptDecision::Wait);
    assert_eq!(
        after_accept(AcceptResult::ResourceLimit),
        AcceptDecision::Pause
    );
    assert_eq!(
        after_accept(AcceptResult::ListenerLost),
        AcceptDecision::Republish
    );
    assert_eq!(after_accept(AcceptResult::Internal), AcceptDecision::Stop);
    assert_eq!(without_listener(0), AcceptDecision::Republish);
    assert_eq!(without_listener(1), AcceptDecision::Pause);
    assert_eq!(
        frame_decision(MessageKind::Request),
        FrameDecision::Dispatch
    );
    assert_eq!(frame_decision(MessageKind::Cancel), FrameDecision::Cancel);
    assert_eq!(
        frame_decision(MessageKind::ServerHello),
        FrameDecision::Close
    );
}

#[test]
fn builds_are_known_by_their_digest() {
    let mut text = Vec::new();
    push_hex(&mut text, &build_id(Some(b"abc")).expect("digest"));
    assert_eq!(
        text,
        b"ba7816bf8f01cfea414140de5dae2223b00361a396177a9cb410ff61f20015ad".to_vec()
    );
    assert_eq!(build_id(None), Err(HostError::Identity));
}

#[test]
fn only_the_desktop_is_offered_the_prompt() {
    assert!(offers_windows_hello(ClientRole::Desktop));
    assert!(!offers_windows_hello(ClientRole::PasskeyProvider));
    assert!(!offers_windows_hello(ClientRole::NativeHost));
}

#[test]
fn snapshot_directories_are_given_up_when_every_name_is_taken() {
    let tried = RefCell::new(Vec::new());
    let reserved = reserve_sqlite_snapshot_directory(|name| {
        tried.borrow_mut().push(name.clone());
        CreateAttempt::AlreadyExists
    });
    assert_eq!(reserved, Err(StorageError::Snapshot));
    assert_eq!(tried.borrow().len() as u64, MAX_STAGING_ATTEMPTS);
}
