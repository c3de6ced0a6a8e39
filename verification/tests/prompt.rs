//! Enrolling, using and removing the credential of the platform's prompt, on a
//! platform and a store that are kept in memory.

use librarian_vault_agent::errors::{
    UnlockError, WindowsHelloProviderError, WindowsHelloStateError,
};
use librarian_vault_agent::hello::{
    map_bridge_error, map_windows_hello_provider_error, platform_parent, still_protects,
    BridgeError, EnrollFlow, EnrollStep, HelloEvent, NewCredential, Protection, RetirementStep,
};
use librarian_vault_agent::hello_removal::{HelloRemovalFlow, HelloRemovalStep};
use librarian_vault_agent::hello_unlock::{HelloUnlockFlow, HelloUnlockStep};
use librarian_vault_agent::lifecycle::{VaultAgent, VaultBinding};
use librarian_vault_agent::outcome::{should_cache, Verdict};
use librarian_vault_agent::protocol::{AgentState, PublicErrorCode, RetryCategory};
use librarian_vault_agent::signals::{prompt_should_close, Signals};
use librarian_vault_agent::windows_hello::{
    HelloEnrollment, HelloLimits, ProtectorBinding, WindowsHelloLocalState,
    MAXIMUM_LOCAL_STATE_BYTES,
};

const LIMITS: HelloLimits = HelloLimits {
    max_credential_id_bytes: 1_024,
    max_protector_bytes: 2_048,
};

const SALT: [u8; 32] = [0x5A; 32];

const FIRST_VAULT: VaultBinding = VaultBinding {
    vault_id: [0x11; 16],
    key_epoch: 1,
};

const SECOND_VAULT: VaultBinding = VaultBinding {
    vault_id: [0x22; 16],
    key_epoch: 1,
};

/// The protector of the tests: what it was made for, one field after the other.
fn protector(binding: VaultBinding, salt: [u8; 32], credential_id: &[u8]) -> Vec<u8> {
    let mut bytes = binding.vault_id.to_vec();
    bytes.extend_from_slice(&binding.key_epoch.to_be_bytes());
    bytes.extend_from_slice(&salt);
    bytes.extend_from_slice(credential_id);
    bytes
}

fn read_protector(bytes: &Vec<u8>) -> Option<ProtectorBinding> {
    if bytes.len() < 53 {
        return None;
    }
    let mut vault_id = [0_u8; 16];
    vault_id.copy_from_slice(&bytes[..16]);
    let mut epoch = [0_u8; 4];
    epoch.copy_from_slice(&bytes[16..20]);
    let mut prf_salt = [0_u8; 32];
    prf_salt.copy_from_slice(&bytes[20..52]);
    Some(ProtectorBinding {
        vault_id,
        key_epoch: u32::from_be_bytes(epoch),
        credential_id: bytes[52..].to_vec(),
        prf_salt,
    })
}

fn enrollment(binding: VaultBinding, credential_id: &[u8]) -> HelloEnrollment {
    HelloEnrollment {
        vault_id: binding.vault_id,
        key_epoch: binding.key_epoch,
        installation_key: [0x77; 32],
        credential_id: credential_id.to_vec(),
        prf_salt: SALT,
        protector: protector(binding, SALT, credential_id),
    }
}

#[derive(Default)]
struct Platform {
    next_credential: u8,
    invalid_next_enrollment: bool,
    next_cleanup_failure: Option<Vec<u8>>,
    prompt_cancelled: bool,
    removed: Vec<Vec<u8>>,
    evaluated: Vec<Vec<u8>>,
    removal_failures: Vec<Vec<u8>>,
    transient_removal_failures: Vec<(Vec<u8>, usize)>,
}

impl Platform {
    fn remove(&mut self, credential_id: &[u8]) -> bool {
        for entry in &mut self.transient_removal_failures {
            if entry.0 == credential_id && entry.1 > 0 {
                entry.1 -= 1;
                return false;
            }
        }
        if self.removal_failures.iter().any(|id| id == credential_id) {
            return false;
        }
        self.removed.push(credential_id.to_vec());
        true
    }

    fn enroll(&mut self) -> Result<NewCredential, WindowsHelloProviderError> {
        if self.prompt_cancelled {
            return Err(WindowsHelloProviderError::Cancelled);
        }
        if let Some(credential_id) = self.next_cleanup_failure.take() {
            return Err(WindowsHelloProviderError::CleanupRequired(credential_id));
        }
        let marker = self.next_credential;
        self.next_credential += 1;
        let prf_salt = if self.invalid_next_enrollment {
            [0; 32]
        } else {
            SALT
        };
        self.invalid_next_enrollment = false;
        Ok(NewCredential {
            credential_id: vec![0xA0, marker],
            prf_salt,
        })
    }
}

#[derive(Default)]
struct Store {
    encoded: Option<Vec<u8>>,
    save_count: usize,
    remove_count: usize,
    fail_next_save_after_publication: bool,
    fail_saves: bool,
    fail_next_remove: bool,
    fail_next_remove_after_publication: bool,
}

impl Store {
    fn load(&self) -> Result<WindowsHelloLocalState, WindowsHelloStateError> {
        match &self.encoded {
            None => Err(WindowsHelloStateError::NotFound),
            Some(bytes) => WindowsHelloLocalState::decode(bytes, LIMITS, read_protector),
        }
    }

    fn save(&mut self, state: &WindowsHelloLocalState) -> Result<(), WindowsHelloStateError> {
        if self.fail_saves {
            return Err(WindowsHelloStateError::Failed);
        }
        self.encoded = Some(state.encode()?);
        self.save_count += 1;
        if self.fail_next_save_after_publication {
            self.fail_next_save_after_publication = false;
            return Err(WindowsHelloStateError::Published);
        }
        Ok(())
    }

    fn remove(&mut self) -> Result<(), WindowsHelloStateError> {
        self.remove_count += 1;
        if self.fail_next_remove {
            self.fail_next_remove = false;
            return Err(WindowsHelloStateError::Failed);
        }
        let removed = self.encoded.take();
        if self.fail_next_remove_after_publication {
            self.fail_next_remove_after_publication = false;
            return Err(WindowsHelloStateError::Published);
        }
        match removed {
            Some(_) => Ok(()),
            None => Err(WindowsHelloStateError::NotFound),
        }
    }

    fn credential_id(&self) -> Option<Vec<u8>> {
        let state = self.load().ok()?;
        state.credential_id().cloned()
    }

    fn pending_removal_credential_id(&self) -> Option<Vec<u8>> {
        let state = self.load().ok()?;
        state.pending_removal_credential_id().cloned()
    }

    fn vault_id(&self) -> Option<[u8; 16]> {
        let state = self.load().ok()?;
        state.vault_binding().map(|binding| binding.vault_id)
    }

    fn is_empty(&self) -> bool {
        self.encoded.is_none()
    }
}

fn unlocked() -> Signals {
    Signals {
        lock_active: false,
        cancelled: false,
        expired: false,
        state: AgentState::Unlocked,
        epoch_current: true,
    }
}

/// Runs an enrollment to its end. What each check sees is given by the number
/// of checks before it.
fn enroll_seeing(
    platform: &mut Platform,
    store: &mut Store,
    binding: VaultBinding,
    see: impl Fn(usize) -> Signals,
) -> Verdict {
    let mut flow = EnrollFlow::enroll_windows_hello(true, LIMITS);
    let mut checks = 0;
    loop {
        let event = match flow.step {
            EnrollStep::Done(verdict) => return verdict,
            EnrollStep::CheckFirst
            | EnrollStep::CheckAgain
            | EnrollStep::CheckRecovered
            | EnrollStep::CheckBeforePrompt
            | EnrollStep::CheckAfterPrompt
            | EnrollStep::CheckBeforePublish
            | EnrollStep::EnterCommit
            | EnrollStep::CheckUnpublished => {
                checks += 1;
                HelloEvent::Signals(see(checks - 1))
            }
            EnrollStep::TakePrompt => HelloEvent::PromptTaken(true),
            EnrollStep::BeginOperation => HelloEvent::Begun(Some(binding)),
            EnrollStep::LoadState => HelloEvent::Loaded(store.load()),
            EnrollStep::EnsureAbsent | EnrollStep::Retire(RetirementStep::RemoveEmptied) => {
                HelloEvent::StateRemoved(store.remove())
            }
            EnrollStep::Prompt => HelloEvent::Enrolled(platform.enroll()),
            EnrollStep::DrawKey => HelloEvent::Key(Some([0x77; 32])),
            EnrollStep::Protect => {
                let bytes = protector(binding, flow.prf_salt, &flow.credential_id);
                let reads_as = read_protector(&bytes);
                HelloEvent::Protected(Protection {
                    authorized: true,
                    protector: Some(bytes),
                    reads_as,
                })
            }
            _ => match (flow.state_to_save(), flow.credential_to_remove()) {
                (Some(state), _) => HelloEvent::Saved(store.save(state)),
                (None, Some(id)) => HelloEvent::CredentialRemoved(platform.remove(id)),
                (None, None) => panic!("a step must store or remove something"),
            },
        };
        flow.advance(event);
    }
}

fn enroll(platform: &mut Platform, store: &mut Store, binding: VaultBinding) -> Verdict {
    enroll_seeing(platform, store, binding, |_| unlocked())
}

/// Runs an attempt to unlock to its end, or to the point where the open vault
/// is published. The result says whether it was, and the answer where not.
fn unlock(
    platform: &mut Platform,
    store: &mut Store,
    begin: Signals,
    core: Result<(), UnlockError>,
) -> Result<(), Verdict> {
    let mut flow = HelloUnlockFlow::unlock_windows_hello(true, AgentState::Locked);
    loop {
        let event = match flow.step {
            HelloUnlockStep::Done(ending) => return Err(ending.verdict),
            HelloUnlockStep::Publish => return Ok(()),
            HelloUnlockStep::TakePrompt => HelloEvent::PromptTaken(true),
            HelloUnlockStep::LoadState => HelloEvent::Loaded(store.load()),
            HelloUnlockStep::EnsureAbsent
            | HelloUnlockStep::Retire(RetirementStep::RemoveEmptied) => {
                HelloEvent::StateRemoved(store.remove())
            }
            HelloUnlockStep::Retire(RetirementStep::RemoveCredential) => {
                let state = flow.state.as_ref().expect("loaded state");
                let id = state
                    .pending_removal_credential_id()
                    .expect("pending removal")
                    .clone();
                HelloEvent::CredentialRemoved(platform.remove(&id))
            }
            HelloUnlockStep::Retire(_) => {
                HelloEvent::Saved(store.save(flow.state.as_ref().expect("loaded state")))
            }
            HelloUnlockStep::Begin => HelloEvent::Signals(begin),
            HelloUnlockStep::Evaluate => {
                let state = flow.state.as_ref().expect("loaded state");
                platform
                    .evaluated
                    .push(state.credential_id().expect("enrolled").clone());
                HelloEvent::Evaluated(Ok(()))
            }
            HelloUnlockStep::CheckAfterPrompt | HelloUnlockStep::CheckAfterCore(_) => {
                HelloEvent::Signals(Signals {
                    state: AgentState::Unlocking,
                    ..begin
                })
            }
            HelloUnlockStep::Authenticate => HelloEvent::Authenticated(core),
        };
        flow.advance(event);
    }
}

fn locked() -> Signals {
    Signals {
        state: AgentState::Locked,
        ..unlocked()
    }
}

fn remove(platform: &mut Platform, store: &mut Store, binding: VaultBinding) -> Verdict {
    let mut flow = HelloRemovalFlow::remove_windows_hello(true);
    loop {
        let event = match flow.step {
            HelloRemovalStep::Done(verdict) => return verdict,
            HelloRemovalStep::CheckFirst
            | HelloRemovalStep::CheckBeforeCommit
            | HelloRemovalStep::EnterCommit => HelloEvent::Signals(unlocked()),
            HelloRemovalStep::TakePrompt => HelloEvent::PromptTaken(true),
            HelloRemovalStep::LoadState => HelloEvent::Loaded(store.load()),
            HelloRemovalStep::EnsureAbsent
            | HelloRemovalStep::RemoveState
            | HelloRemovalStep::Retire(RetirementStep::RemoveEmptied) => {
                HelloEvent::StateRemoved(store.remove())
            }
            HelloRemovalStep::Retire(RetirementStep::RemoveCredential) => {
                let state = flow.state.as_ref().expect("loaded state");
                let id = state
                    .pending_removal_credential_id()
                    .expect("pending removal")
                    .clone();
                HelloEvent::CredentialRemoved(platform.remove(&id))
            }
            HelloRemovalStep::Retire(_) => {
                HelloEvent::Saved(store.save(flow.state.as_ref().expect("loaded state")))
            }
            HelloRemovalStep::CheckBinding | HelloRemovalStep::CheckBindingAgain => {
                HelloEvent::Binding(Some(binding))
            }
            HelloRemovalStep::RemoveCredential => {
                let state = flow.state.as_ref().expect("loaded state");
                let id = state.credential_id().expect("enrolled").clone();
                HelloEvent::CredentialRemoved(platform.remove(&id))
            }
        };
        flow.advance(event);
    }
}

#[test]
fn windows_hello_cycle_reenrolls_unlocks_removes_and_preserves_password_fallback() {
    let mut platform = Platform::default();
    let mut store = Store::default();

    let first = enroll(&mut platform, &mut store, FIRST_VAULT);
    assert_eq!(first.error, None);
    assert_eq!(store.credential_id(), Some(vec![0xA0, 0]));

    let second = enroll(&mut platform, &mut store, FIRST_VAULT);
    assert_eq!(second.error, None);
    assert_eq!(store.credential_id(), Some(vec![0xA0, 1]));
    assert_eq!(platform.removed, vec![vec![0xA0, 0]]);

    let unlocked = unlock(&mut platform, &mut store, locked(), Ok(()));
    assert_eq!(unlocked, Ok(()));
    assert_eq!(platform.evaluated, vec![vec![0xA0, 1]]);

    let removed = remove(&mut platform, &mut store, FIRST_VAULT);
    assert_eq!(removed.error, None);
    assert!(store.is_empty());
    assert_eq!(platform.removed, vec![vec![0xA0, 0], vec![0xA0, 1]]);
}

#[test]
fn windows_hello_corrupt_existing_state_blocks_enrollment() {
    let mut platform = Platform::default();
    let mut store = Store {
        encoded: Some(b"corrupt local state".to_vec()),
        ..Store::default()
    };

    let outcome = enroll(&mut platform, &mut store, FIRST_VAULT);
    assert_eq!(outcome.error, Some(PublicErrorCode::OperationFailed));
    assert_eq!(platform.next_credential, 0);
    assert_eq!(store.save_count, 0);
    assert!(!store.is_empty());
}

#[test]
fn windows_hello_reenrollment_persists_retirement_until_deletion() {
    let mut platform = Platform::default();
    let mut store = Store::default();
    assert_eq!(enroll(&mut platform, &mut store, FIRST_VAULT).error, None);

    let mut flow = EnrollFlow::enroll_windows_hello(true, LIMITS);
    while flow.step != EnrollStep::RetirePrevious {
        let event = match flow.step {
            EnrollStep::TakePrompt => HelloEvent::PromptTaken(true),
            EnrollStep::BeginOperation => HelloEvent::Begun(Some(FIRST_VAULT)),
            EnrollStep::LoadState => HelloEvent::Loaded(store.load()),
            EnrollStep::Prompt => HelloEvent::Enrolled(platform.enroll()),
            EnrollStep::DrawKey => HelloEvent::Key(Some([0x77; 32])),
            EnrollStep::Protect => {
                let bytes = protector(FIRST_VAULT, SALT, &flow.credential_id);
                let reads_as = read_protector(&bytes);
                HelloEvent::Protected(Protection {
                    authorized: true,
                    protector: Some(bytes),
                    reads_as,
                })
            }
            EnrollStep::Publish => {
                HelloEvent::Saved(store.save(flow.state_to_save().expect("new enrollment")))
            }
            _ => HelloEvent::Signals(unlocked()),
        };
        flow.advance(event);
    }
    assert_eq!(store.credential_id(), Some(vec![0xA0, 1]));
    assert_eq!(
        store.pending_removal_credential_id(),
        Some(vec![0xA0, 0])
    );
    assert!(flow.in_commit);

    let id = flow.credential_to_remove().expect("replaced").clone();
    flow.advance(HelloEvent::CredentialRemoved(platform.remove(&id)));
    assert_eq!(flow.step, EnrollStep::SaveRetired);
    let saved = store.save(flow.state_to_save().expect("new enrollment"));
    flow.advance(HelloEvent::Saved(saved));
    assert_eq!(
        flow.step,
        EnrollStep::Done(Verdict::success().commit_point())
    );
    assert_eq!(store.credential_id(), Some(vec![0xA0, 1]));
    assert_eq!(store.pending_removal_credential_id(), None);
    assert_eq!(platform.removed, vec![vec![0xA0, 0]]);
}

#[test]
fn windows_hello_retries_persisted_retirement_without_a_new_ceremony() {
    let mut platform = Platform::default();
    let mut store = Store::default();
    assert_eq!(enroll(&mut platform, &mut store, FIRST_VAULT).error, None);
    let mut persisted = store.load().ok().expect("persisted enrollment");
    persisted
        .set_pending_removal_credential_id(&[0xB0, 0], LIMITS)
        .expect("pending retirement");
    store.save(&persisted).expect("pending retirement save");

    let retry = enroll(&mut platform, &mut store, FIRST_VAULT);
    assert_eq!(retry.error, None);
    assert!(!retry.committed);
    assert_eq!(platform.next_credential, 1);
    assert_eq!(store.credential_id(), Some(vec![0xA0, 0]));
    assert_eq!(store.pending_removal_credential_id(), None);
    assert_eq!(platform.removed, vec![vec![0xB0, 0]]);
}

#[test]
fn windows_hello_recovered_retirement_reenrolls_for_a_different_vault() {
    let mut platform = Platform::default();
    let mut store = Store::default();
    assert_eq!(enroll(&mut platform, &mut store, FIRST_VAULT).error, None);
    let mut persisted = store.load().ok().expect("persisted first enrollment");
    persisted
        .set_pending_removal_credential_id(&[0xB1, 0], LIMITS)
        .expect("pending retirement");
    store.save(&persisted).expect("pending retirement save");

    let second = enroll(&mut platform, &mut store, SECOND_VAULT);
    assert_eq!(second.error, None);
    assert_eq!(platform.next_credential, 2);
    assert_eq!(store.credential_id(), Some(vec![0xA0, 1]));
    assert_ne!(store.vault_id(), Some(FIRST_VAULT.vault_id));
    assert_eq!(store.vault_id(), Some(SECOND_VAULT.vault_id));
    assert_eq!(platform.removed, vec![vec![0xB1, 0], vec![0xA0, 0]]);
}

#[test]
fn windows_hello_reenrollment_requires_previous_credential_retirement() {
    let mut platform = Platform::default();
    let mut store = Store::default();
    assert_eq!(enroll(&mut platform, &mut store, FIRST_VAULT).error, None);

    platform.removal_failures.push(vec![0xA0, 0]);
    let second = enroll(&mut platform, &mut store, FIRST_VAULT);
    assert_eq!(second.error, Some(PublicErrorCode::OperationFailed));
    assert_eq!(second.retry, RetryCategory::Backoff);
    assert!(!should_cache(&second));
    assert_eq!(store.credential_id(), Some(vec![0xA0, 0]));
    assert_eq!(
        store.save_count, 3,
        "replacement must publish before retirement failure rolls back"
    );
    assert_eq!(platform.removed, vec![vec![0xA0, 1]]);
}

#[test]
fn windows_hello_published_rollback_still_removes_the_replacement() {
    let mut platform = Platform::default();
    let mut store = Store::default();
    assert_eq!(enroll(&mut platform, &mut store, FIRST_VAULT).error, None);

    platform.transient_removal_failures.push((vec![0xA0, 0], 1));
    let mut flow = EnrollFlow::enroll_windows_hello(true, LIMITS);
    let second = loop {
        let event = match flow.step {
            EnrollStep::Done(verdict) => break verdict,
            EnrollStep::TakePrompt => HelloEvent::PromptTaken(true),
            EnrollStep::BeginOperation => HelloEvent::Begun(Some(FIRST_VAULT)),
            EnrollStep::LoadState => HelloEvent::Loaded(store.load()),
            EnrollStep::Prompt => HelloEvent::Enrolled(platform.enroll()),
            EnrollStep::DrawKey => HelloEvent::Key(Some([0x77; 32])),
            EnrollStep::Protect => {
                let bytes = protector(FIRST_VAULT, SALT, &flow.credential_id);
                let reads_as = read_protector(&bytes);
                HelloEvent::Protected(Protection {
                    authorized: true,
                    protector: Some(bytes),
                    reads_as,
                })
            }
            EnrollStep::RestorePrevious => {
                store.fail_next_save_after_publication = true;
                HelloEvent::Saved(store.save(flow.state_to_save().expect("previous")))
            }
            EnrollStep::Publish => {
                HelloEvent::Saved(store.save(flow.state_to_save().expect("replacement")))
            }
            EnrollStep::RetirePrevious | EnrollStep::RemoveNew(_) => {
                let id = flow.credential_to_remove().expect("credential").clone();
                HelloEvent::CredentialRemoved(platform.remove(&id))
            }
            _ => HelloEvent::Signals(unlocked()),
        };
        flow.advance(event);
    };
    assert_eq!(second.error, Some(PublicErrorCode::OperationFailed));
    assert_eq!(second.retry, RetryCategory::Backoff);
    assert_eq!(store.credential_id(), Some(vec![0xA0, 0]));
    assert_eq!(store.pending_removal_credential_id(), None);
    assert_eq!(platform.removed, vec![vec![0xA0, 1]]);
}

#[test]
fn windows_hello_post_publication_failure_preserves_the_published_credential() {
    let mut platform = Platform::default();
    let mut store = Store {
        fail_next_save_after_publication: true,
        ..Store::default()
    };

    let outcome = enroll(&mut platform, &mut store, FIRST_VAULT);
    assert_eq!(outcome.error, Some(PublicErrorCode::OperationFailed));
    assert_eq!(outcome.retry, RetryCategory::Backoff);
    assert!(!should_cache(&outcome));
    assert_eq!(store.credential_id(), Some(vec![0xA0, 0]));
    assert!(platform.removed.is_empty());

    let retry = enroll(&mut platform, &mut store, FIRST_VAULT);
    assert_eq!(retry.error, None);
    assert_eq!(store.credential_id(), Some(vec![0xA0, 1]));
    assert_eq!(platform.removed, vec![vec![0xA0, 0]]);
}

#[test]
fn windows_hello_stale_unlock_epoch_never_starts_a_ceremony() {
    let mut platform = Platform::default();
    let mut store = Store::default();
    assert_eq!(enroll(&mut platform, &mut store, FIRST_VAULT).error, None);

    let stale = Signals {
        epoch_current: false,
        ..locked()
    };
    let outcome = unlock(&mut platform, &mut store, stale, Ok(()));
    assert_eq!(
        outcome.expect_err("stale unlock").error,
        Some(PublicErrorCode::Locked)
    );
    assert!(platform.evaluated.is_empty());
}

#[test]
fn windows_hello_cancelled_while_waiting_never_starts_unlock_prompt() {
    let mut platform = Platform::default();
    let mut store = Store::default();
    assert_eq!(enroll(&mut platform, &mut store, FIRST_VAULT).error, None);

    let cancelled = Signals {
        cancelled: true,
        ..locked()
    };
    let outcome = unlock(&mut platform, &mut store, cancelled, Ok(()));
    assert_eq!(
        outcome.expect_err("cancelled unlock").error,
        Some(PublicErrorCode::Cancelled)
    );
    assert!(platform.evaluated.is_empty());
}

#[test]
fn windows_hello_partial_removal_failure_remains_retryable() {
    let mut platform = Platform::default();
    let mut store = Store::default();
    assert_eq!(enroll(&mut platform, &mut store, FIRST_VAULT).error, None);

    store.fail_next_remove = true;
    let first_remove = remove(&mut platform, &mut store, FIRST_VAULT);
    assert_eq!(first_remove.error, Some(PublicErrorCode::OperationFailed));
    assert_eq!(first_remove.retry, RetryCategory::Backoff);
    assert!(!should_cache(&first_remove));
    assert_eq!(store.credential_id(), Some(vec![0xA0, 0]));

    let retry = remove(&mut platform, &mut store, FIRST_VAULT);
    assert_eq!(retry.error, None);
    assert!(retry.committed);
    assert!(store.is_empty());
}

#[test]
fn windows_hello_absent_state_retries_the_removal_durability_barrier() {
    let mut platform = Platform::default();
    let mut store = Store::default();
    assert_eq!(enroll(&mut platform, &mut store, FIRST_VAULT).error, None);

    let baseline_remove_count = store.remove_count;
    store.fail_next_remove_after_publication = true;
    let first = remove(&mut platform, &mut store, FIRST_VAULT);
    assert_eq!(first.error, Some(PublicErrorCode::OperationFailed));
    assert_eq!(first.retry, RetryCategory::Backoff);
    assert!(store.is_empty());

    let retry = remove(&mut platform, &mut store, FIRST_VAULT);
    assert_eq!(retry.error, None);
    assert_eq!(store.remove_count, baseline_remove_count + 2);
    assert_eq!(platform.removed, vec![vec![0xA0, 0]]);
}

#[test]
fn windows_hello_cancellation_reaches_the_provider_and_publishes_no_state() {
    let cancelled = Signals {
        cancelled: true,
        ..unlocked()
    };
    assert!(prompt_should_close(&cancelled));
    assert!(!prompt_should_close(&unlocked()));

    let mut platform = Platform {
        prompt_cancelled: true,
        ..Platform::default()
    };
    let mut store = Store::default();
    let outcome = enroll(&mut platform, &mut store, FIRST_VAULT);
    assert_eq!(outcome.error, Some(PublicErrorCode::Cancelled));
    assert!(store.is_empty());
}

#[test]
fn windows_hello_lock_cancels_the_ceremony_before_locking_the_vault() {
    let locking = Signals {
        lock_active: true,
        cancelled: true,
        ..unlocked()
    };
    assert!(prompt_should_close(&locking));

    let mut platform = Platform::default();
    let mut store = Store::default();
    let outcome = enroll_seeing(&mut platform, &mut store, FIRST_VAULT, |check| {
        if check < 3 {
            unlocked()
        } else {
            locking
        }
    });
    assert_eq!(outcome.error, Some(PublicErrorCode::Cancelled));
    assert!(store.is_empty());
    assert_eq!(platform.removed, vec![vec![0xA0, 0]]);
}

#[test]
fn windows_hello_native_cleanup_failure_persists_credential_for_restart_retry() {
    let orphaned_credential_id = vec![0xC1, 0xC2];
    let mut platform = Platform {
        next_cleanup_failure: Some(orphaned_credential_id.clone()),
        ..Platform::default()
    };
    let mut store = Store::default();

    let first = enroll(&mut platform, &mut store, FIRST_VAULT);
    assert_eq!(first.error, Some(PublicErrorCode::OperationFailed));
    assert_eq!(first.retry, RetryCategory::Backoff);
    assert!(!should_cache(&first));
    assert_eq!(store.credential_id(), None);
    assert_eq!(
        store.pending_removal_credential_id(),
        Some(orphaned_credential_id.clone())
    );

    let retry = enroll(&mut platform, &mut store, FIRST_VAULT);
    assert_eq!(retry.error, None);
    assert_eq!(store.credential_id(), Some(vec![0xA0, 0]));
    assert_eq!(store.pending_removal_credential_id(), None);
    assert_eq!(platform.removed, vec![orphaned_credential_id]);
}

#[test]
fn windows_hello_failed_cleanup_retains_the_credential_for_retry() {
    let mut platform = Platform {
        invalid_next_enrollment: true,
        transient_removal_failures: vec![(vec![0xA0, 0], 1)],
        ..Platform::default()
    };
    let mut store = Store::default();

    let first = enroll(&mut platform, &mut store, FIRST_VAULT);
    assert_eq!(first.error, Some(PublicErrorCode::OperationFailed));
    assert_eq!(first.retry, RetryCategory::Backoff);
    assert!(!should_cache(&first));
    assert_eq!(store.credential_id(), None);
    assert_eq!(
        store.pending_removal_credential_id(),
        Some(vec![0xA0, 0])
    );

    platform.invalid_next_enrollment = true;
    let retry = enroll(&mut platform, &mut store, FIRST_VAULT);
    assert_eq!(retry.error, Some(PublicErrorCode::OperationFailed));
    assert_eq!(retry.retry, RetryCategory::Never);
    assert_eq!(platform.removed, vec![vec![0xA0, 0], vec![0xA0, 1]]);
    assert!(store.is_empty());
}

#[test]
fn credential_that_can_be_neither_removed_nor_recorded_is_a_final_failure() {
    let mut platform = Platform {
        invalid_next_enrollment: true,
        removal_failures: vec![vec![0xA0, 0]],
        ..Platform::default()
    };
    let mut store = Store {
        fail_saves: true,
        ..Store::default()
    };
    let outcome = enroll(&mut platform, &mut store, FIRST_VAULT);
    assert_eq!(outcome, Verdict::failed());
    assert!(should_cache(&outcome));
}

#[test]
fn prompt_outcomes_map_to_public_verdicts() {
    let outcomes = vec![
        (WindowsHelloProviderError::InvalidRequest, Verdict::invalid()),
        (WindowsHelloProviderError::Cancelled, Verdict::cancelled()),
        (WindowsHelloProviderError::Unavailable, Verdict::failed()),
        (WindowsHelloProviderError::Failed, Verdict::failed()),
        (WindowsHelloProviderError::RemovalFailed, Verdict::failed()),
    ];
    for (error, verdict) in outcomes {
        assert_eq!(
            librarian_vault_agent::hello::map_windows_hello_provider_error(&error),
            verdict
        );
    }
}

#[test]
fn unlock_attempts_answer_for_every_refusal() {
    let unconfigured = HelloUnlockFlow::unlock_windows_hello(false, AgentState::Locked);
    assert_eq!(
        unconfigured.step,
        librarian_vault_agent::hello_unlock::refused(Verdict::failed())
    );
    let unlocking = HelloUnlockFlow::unlock_windows_hello(true, AgentState::Unlocking);
    assert_eq!(
        unlocking.step,
        librarian_vault_agent::hello_unlock::refused(Verdict::busy())
    );
    let open = HelloUnlockFlow::unlock_windows_hello(true, AgentState::Unlocked);
    assert_eq!(
        open.step,
        librarian_vault_agent::hello_unlock::refused(Verdict::conflict())
    );

    let mut platform = Platform::default();
    let mut store = Store::default();
    let absent = unlock(&mut platform, &mut store, locked(), Ok(()));
    assert_eq!(absent, Err(Verdict::failed()));
    assert_eq!(store.remove_count, 1);

    assert_eq!(enroll(&mut platform, &mut store, FIRST_VAULT).error, None);
    let wrong = unlock(&mut platform, &mut store, locked(), Err(UnlockError::Failed));
    assert_eq!(wrong, Err(Verdict::failed()));
    let stopped = unlock(
        &mut platform,
        &mut store,
        locked(),
        Err(UnlockError::Cancelled),
    );
    assert_eq!(stopped, Err(Verdict::cancelled()));
}

#[test]
fn removal_for_another_vault_is_refused() {
    let mut platform = Platform::default();
    let mut store = Store::default();
    assert_eq!(enroll(&mut platform, &mut store, FIRST_VAULT).error, None);
    let outcome = remove(&mut platform, &mut store, SECOND_VAULT);
    assert_eq!(outcome, Verdict::failed());
    assert!(platform.removed.is_empty());
    assert_eq!(store.credential_id(), Some(vec![0xA0, 0]));
}

#[test]
fn local_state_is_canonical_and_binding_checked() {
    let credential_id = vec![0x31; 64];
    let state = WindowsHelloLocalState::new(
        enrollment(FIRST_VAULT, &credential_id),
        LIMITS,
        read_protector(&protector(FIRST_VAULT, SALT, &credential_id)),
    )
    .ok()
    .expect("test state");
    let encoded = state.encode().expect("encoded local state");
    let decoded = WindowsHelloLocalState::decode(&encoded, LIMITS, read_protector)
        .ok()
        .expect("decoded local state");
    let decoded_binding = decoded.vault_binding().expect("decoded binding");
    assert_eq!(decoded_binding.vault_id, FIRST_VAULT.vault_id);
    assert_eq!(decoded_binding.key_epoch, FIRST_VAULT.key_epoch);
    assert_eq!(decoded.credential_id(), state.credential_id());
    assert_eq!(decoded.prf_salt(), state.prf_salt());
    assert_eq!(decoded.protector(), state.protector());
    assert_eq!(decoded.installation_key(), Some([0x77; 32]));

    let mut corrupted = encoded.to_vec();
    corrupted.push(0);
    assert!(WindowsHelloLocalState::decode(&corrupted, LIMITS, read_protector).is_err());
}

#[test]
fn local_state_has_one_stored_form() {
    let state = WindowsHelloLocalState::new(
        enrollment(FIRST_VAULT, &[0xA0, 7]),
        LIMITS,
        read_protector(&protector(FIRST_VAULT, SALT, &[0xA0, 7])),
    )
    .ok()
    .expect("test state");
    let encoded = state.encode().expect("encoded local state");
    let mut expected = vec![0x88, 0x67];
    expected.extend_from_slice(b"LBR-HLO");
    expected.extend_from_slice(&[0x01, 0x50]);
    expected.extend_from_slice(&[0x11; 16]);
    expected.extend_from_slice(&[0x01, 0x58, 0x20]);
    expected.extend_from_slice(&[0x77; 32]);
    expected.extend_from_slice(&[0x42, 0xA0, 7, 0x58, 0x20]);
    expected.extend_from_slice(&SALT);
    expected.extend_from_slice(&[0x58, 54]);
    expected.extend_from_slice(&protector(FIRST_VAULT, SALT, &[0xA0, 7]));
    assert_eq!(encoded, expected);

    let mut long_form = encoded.clone();
    long_form.splice(9..10, [0x18, 0x01]);
    assert!(WindowsHelloLocalState::decode(&long_form, LIMITS, read_protector).is_err());
    assert!(WindowsHelloLocalState::decode(&[], LIMITS, read_protector).is_err());
    assert!(WindowsHelloLocalState::decode(
        &vec![0_u8; MAXIMUM_LOCAL_STATE_BYTES + 1],
        LIMITS,
        read_protector
    )
    .is_err());
}

#[test]
fn pending_removals_are_stored_and_read_back() {
    let alone = WindowsHelloLocalState::pending_removal(&[0xC1, 0xC2], LIMITS)
        .ok()
        .expect("pending removal");
    let encoded = alone.encode().expect("encoded removal");
    let decoded = WindowsHelloLocalState::decode(&encoded, LIMITS, read_protector)
        .ok()
        .expect("decoded removal");
    assert_eq!(
        decoded.pending_removal_credential_id(),
        Some(&vec![0xC1, 0xC2])
    );
    assert!(decoded.vault_binding().is_none());

    assert!(WindowsHelloLocalState::pending_removal(&[], LIMITS).is_err());
    assert!(WindowsHelloLocalState::pending_removal(&[1; 1_025], LIMITS).is_err());
    let mut emptied = decoded;
    assert!(!emptied.clear_pending_removal_credential_id());
    assert_eq!(emptied.encode(), Err(WindowsHelloStateError::Invalid));
}

#[test]
fn incomplete_enrollments_are_refused() {
    let good = || enrollment(FIRST_VAULT, &[0xA0, 1]);
    let reads_as = || read_protector(&protector(FIRST_VAULT, SALT, &[0xA0, 1]));
    assert!(WindowsHelloLocalState::new(good(), LIMITS, reads_as()).is_ok());
    assert!(WindowsHelloLocalState::new(good(), LIMITS, None).is_err());
    let broken = vec![
        HelloEnrollment { vault_id: [0; 16], ..good() },
        HelloEnrollment { key_epoch: 0, ..good() },
        HelloEnrollment { installation_key: [0; 32], ..good() },
        HelloEnrollment { credential_id: Vec::new(), ..good() },
        HelloEnrollment { credential_id: vec![1; 1_025], ..good() },
        HelloEnrollment { prf_salt: [0; 32], ..good() },
        HelloEnrollment { protector: Vec::new(), ..good() },
        HelloEnrollment { protector: vec![1; 2_049], ..good() },
        HelloEnrollment { key_epoch: 2, ..good() },
        HelloEnrollment { credential_id: vec![0xA0, 2], ..good() },
    ];
    for enrollment in broken {
        assert_eq!(
            WindowsHelloLocalState::new(enrollment, LIMITS, reads_as()).err(),
            Some(WindowsHelloStateError::Invalid)
        );
    }
}

#[test]
fn failures_of_the_bridge_are_answered() {
    let answered = |error| map_windows_hello_provider_error(&map_bridge_error(error));
    assert!(matches!(
        map_bridge_error(BridgeError::CredentialRemovalFailed),
        WindowsHelloProviderError::RemovalFailed
    ));
    assert!(matches!(
        map_bridge_error(BridgeError::Unsupported),
        WindowsHelloProviderError::Unavailable
    ));
    assert!(matches!(
        map_bridge_error(BridgeError::InvalidResponse),
        WindowsHelloProviderError::Failed
    ));
    assert_eq!(
        answered(BridgeError::InvalidArgument),
        Verdict::failure(PublicErrorCode::InvalidRequest, RetryCategory::Never)
    );
    assert_eq!(answered(BridgeError::Cancelled), Verdict::cancelled());
}

#[test]
fn parent_windows_are_numbers_of_this_machine() {
    assert!(matches!(platform_parent(42), Ok(42)));
    assert_eq!(
        platform_parent(u64::MAX).is_ok(),
        usize::BITS >= u64::BITS
    );
}

#[test]
fn enrollments_keep_no_key_by_themselves() {
    let mut platform = Platform::default();
    let mut store = Store::default();
    assert_eq!(enroll(&mut platform, &mut store, FIRST_VAULT).error, None);
    let mut flow = EnrollFlow::enroll_windows_hello(true, LIMITS);
    while flow.step != EnrollStep::CheckBeforePublish {
        let event = match flow.step {
            EnrollStep::TakePrompt => HelloEvent::PromptTaken(true),
            EnrollStep::BeginOperation => HelloEvent::Begun(Some(FIRST_VAULT)),
            EnrollStep::LoadState => HelloEvent::Loaded(store.load()),
            EnrollStep::Prompt => HelloEvent::Enrolled(platform.enroll()),
            EnrollStep::DrawKey => HelloEvent::Key(Some([0x77; 32])),
            EnrollStep::Protect => {
                assert_eq!(flow.installation_key, [0x77; 32]);
                let bytes = protector(FIRST_VAULT, SALT, &flow.credential_id);
                let reads_as = read_protector(&bytes);
                HelloEvent::Protected(Protection {
                    authorized: true,
                    protector: Some(bytes),
                    reads_as,
                })
            }
            _ => HelloEvent::Signals(unlocked()),
        };
        flow.advance(event);
    }
    assert_eq!(flow.installation_key, [0; 32]);
    let replacement = flow.replacement.as_ref().expect("new enrollment");
    assert_eq!(replacement.installation_key(), Some([0x77; 32]));
    flow.forget();
    assert!(flow.replacement.is_none());
    assert!(flow.previous.is_none());
    assert_eq!(flow.step, EnrollStep::CheckBeforePublish);

    let mut attempt = HelloUnlockFlow::unlock_windows_hello(true, AgentState::Locked);
    attempt.state = store.load().ok();
    attempt.forget();
    assert!(attempt.state.is_none());
    let mut removal = HelloRemovalFlow::remove_windows_hello(true);
    removal.state = store.load().ok();
    removal.forget();
    assert!(removal.state.is_none());
}

#[test]
fn keys_are_protected_only_for_the_vault_and_epoch_of_the_enrollment() {
    let open = |binding| {
        VaultAgent::create(
            b"/vault.db".to_vec(),
            1_u8,
            binding,
            b"header".to_vec(),
            b"manifest".to_vec(),
            3,
        )
    };
    let mut vault = open(FIRST_VAULT);
    let permit = vault.begin_operation().expect("permit");
    assert!(still_protects(&vault, permit, FIRST_VAULT, true));
    assert!(!still_protects(&vault, permit, FIRST_VAULT, false));
    assert!(!still_protects(&vault, permit, SECOND_VAULT, true));
    assert!(!still_protects(&open(SECOND_VAULT), permit, FIRST_VAULT, true));
    vault.lock();
    assert!(!still_protects(&vault, permit, FIRST_VAULT, true));
}
