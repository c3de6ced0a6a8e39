//! Vault sessions and their records, over a small core without cryptography.
//!
//! The header of these vaults is the password. The manifest lists every record.
//! An envelope is the plaintext.

use std::cell::{Cell, RefCell};

use librarian_vault_agent::errors::{
    AccountError, CreateError, RecordOperationError, StorageError, UnlockError,
};
use librarian_vault_agent::lifecycle::{
    bind_vault_path, next_session_id, unix_time_ms, VaultAgent, VaultBinding,
};
use librarian_vault_agent::records::{
    assertion_allow_list, direct_allow_list, no_last_look,
};
use librarian_vault_agent::unlock_attempt::{UnlockEvent, UnlockStep};
use librarian_vault_agent::vault_data::{
    apply_to_expected_records, same_records, EncryptedRecord, PreparedRecordMutation, RecordId,
    RecordMutationKind, VaultData,
};

type Agent = VaultAgent<Vec<u8>>;

const PATH: &[u8] = b"/vaults/vault.sqlite3";

struct Disk {
    stored: RefCell<Option<VaultData>>,
    sessions: Cell<u64>,
    reads: Cell<usize>,
}

fn copied(data: &VaultData) -> VaultData {
    VaultData {
        header: data.header.clone(),
        manifest: data.manifest.clone(),
        records: data.records.iter().map(EncryptedRecord::copy).collect(),
    }
}

fn manifest_of(records: &[EncryptedRecord]) -> Vec<u8> {
    let mut manifest = Vec::new();
    for record in records {
        manifest.extend_from_slice(&record.id.as_bytes());
        manifest.push(record.envelope.len() as u8);
        manifest.extend_from_slice(&record.envelope);
    }
    manifest
}

fn authentic(data: &VaultData) -> Result<(), RecordOperationError> {
    if data.manifest == manifest_of(&data.records) {
        Ok(())
    } else {
        Err(RecordOperationError::Failed)
    }
}

impl Disk {
    fn empty() -> Disk {
        Disk {
            stored: RefCell::new(None),
            sessions: Cell::new(1),
            reads: Cell::new(0),
        }
    }

    fn create(&self, password: &str) -> Agent {
        let header = password.as_bytes().to_vec();
        let mut sessions = self.sessions.get();
        let session_id = next_session_id(&mut sessions).expect("session");
        self.sessions.set(sessions);
        *self.stored.borrow_mut() = Some(VaultData {
            header: header.clone(),
            manifest: Vec::new(),
            records: Vec::new(),
        });
        VaultAgent::create(
            PATH.to_vec(),
            header.clone(),
            binding(),
            header,
            Vec::new(),
            session_id,
        )
    }

    fn read(&self) -> Result<VaultData, StorageError> {
        self.reads.set(self.reads.get() + 1);
        match &*self.stored.borrow() {
            Some(data) => Ok(copied(data)),
            None => Err(StorageError::Filesystem),
        }
    }

    fn unlock(&self, agent: &mut Agent, password: &str) -> Result<(), UnlockError> {
        self.unlock_with(agent, password, || false, || {}, || {})
    }

    fn unlock_with(
        &self,
        agent: &mut Agent,
        password: &str,
        is_cancelled: impl Fn() -> bool,
        before_publish: impl FnOnce(),
        before_reread: impl FnOnce(),
    ) -> Result<(), UnlockError> {
        let mut before_publish = Some(before_publish);
        let mut before_reread = Some(before_reread);
        let mut sessions = self.sessions.get();
        let mut attempt = agent.unlock();
        let result = loop {
            let event = match attempt.step {
                UnlockStep::CheckFirst
                | UnlockStep::CheckBeforePublish
                | UnlockStep::CheckAfterPublish => UnlockEvent::Cancelled(is_cancelled()),
                UnlockStep::Read => UnlockEvent::Rows(self.read()),
                UnlockStep::Authenticate => {
                    let data = attempt.data.as_ref().expect("rows in hand");
                    let right = data.header == password.as_bytes() && authentic(data).is_ok();
                    UnlockEvent::Core(if right {
                        Ok((password.as_bytes().to_vec(), binding()))
                    } else {
                        Err(UnlockError::Failed)
                    })
                }
                UnlockStep::BeforePublish => {
                    (before_publish.take().expect("it is run once"))();
                    UnlockEvent::Announced
                }
                UnlockStep::Reread => {
                    (before_reread.take().expect("it is read again once"))();
                    UnlockEvent::Rows(self.read())
                }
                UnlockStep::Unlocked => break Ok(()),
                UnlockStep::Refused(error) => break Err(error),
            };
            attempt = agent.continue_unlock(attempt, &mut sessions, event);
        };
        self.sessions.set(sessions);
        result
    }

    fn get(&self, agent: &mut Agent, id: RecordId) -> Result<Vec<u8>, AccountError> {
        agent.get_website_account(
            |_| self.read(),
            |_, data| {
                authentic(data)?;
                data.records
                    .iter()
                    .find(|record| record.id.same(&id))
                    .map(|record| record.envelope.clone())
                    .ok_or(RecordOperationError::NotFound)
            },
        )
    }

    fn count(&self, agent: &mut Agent) -> Result<usize, AccountError> {
        agent.list_website_accounts(
            |_| self.read(),
            |_, data| authentic(data).map(|()| data.records.len()),
        )
    }

    fn change(
        &self,
        agent: &mut Agent,
        kind: RecordMutationKind,
        id: RecordId,
        envelope: Option<&str>,
        cancelled: bool,
        before_commit: impl FnOnce() -> Result<(), StorageError>,
    ) -> Result<u64, AccountError> {
        let prepare = |_: &Vec<u8>, data: &VaultData, now: u64| {
            authentic(data)?;
            if cancelled {
                return Err(RecordOperationError::Cancelled);
            }
            let mut prepared = PreparedRecordMutation {
                kind,
                id,
                envelope: envelope.map(|text| text.as_bytes().to_vec()),
                manifest_envelope: Vec::new(),
            };
            match apply_to_expected_records(&data.records, &prepared) {
                Ok(records) => prepared.manifest_envelope = manifest_of(&records),
                Err(StorageError::Conflict) => return Err(RecordOperationError::NotFound),
                Err(_) => return Err(RecordOperationError::Failed),
            }
            Ok((prepared, now))
        };
        let apply = |_: &Vec<u8>, data: &VaultData, prepared: &PreparedRecordMutation, _: ()| {
            let records = apply_to_expected_records(&data.records, prepared)?;
            before_commit()?;
            *self.stored.borrow_mut() = Some(VaultData {
                header: data.header.clone(),
                manifest: prepared.manifest_envelope.clone(),
                records,
            });
            Ok(())
        };
        let commit = |session: Vec<u8>, _: PreparedRecordMutation, now: u64| (session, Some(now));
        let clock = || unix_time_ms(Some(1_700_000_000_000));
        let read = |_: &Vec<u8>| self.read();
        match kind {
            RecordMutationKind::Insert => {
                agent.add_website_account(read, clock, prepare, apply, commit)
            }
            RecordMutationKind::Update => {
                agent.update_website_account(read, clock, prepare, apply, commit)
            }
            RecordMutationKind::Delete => {
                agent.delete_website_account(read, clock, prepare, apply, commit)
            }
        }
    }

    fn add(&self, agent: &mut Agent, marker: u8, text: &str) -> Result<u64, AccountError> {
        self.change(
            agent,
            RecordMutationKind::Insert,
            RecordId::from_bytes([marker; 16]),
            Some(text),
            false,
            || Ok(()),
        )
    }

    fn tamper(&self, change: impl FnOnce(&mut VaultData)) {
        change(self.stored.borrow_mut().as_mut().expect("stored vault"));
    }
}

fn binding() -> VaultBinding {
    VaultBinding {
        vault_id: [0x31; 16],
        key_epoch: 1,
    }
}

fn restarted() -> Agent {
    VaultAgent::open_locked(Some(PATH.to_vec()))
}

// Sessions

#[test]
fn create_lock_restart_and_unlock_round_trip() {
    let disk = Disk::empty();
    let mut created = disk.create("restart password");
    assert!(created.is_unlocked());
    created.lock();
    assert!(!created.is_unlocked());

    let mut agent = restarted();
    assert!(!agent.is_unlocked());
    disk.unlock(&mut agent, "restart password")
        .expect("correct password must unlock after restart");
    assert!(agent.is_unlocked());
}

#[test]
fn create_lock_restart_and_unlock_uses_only_the_public_api() {
    let disk = Disk::empty();
    let mut created = disk.create("integration restart password");
    assert!(created.is_unlocked());
    assert!(created.begin_operation().is_some());
    assert_eq!(created.authenticated_vault_id(), Some([0x31; 16]));
    created.lock();
    assert!(!created.is_unlocked());
    assert!(created.begin_operation().is_none());
    assert_eq!(created.authenticated_vault_id(), None);

    let mut agent = restarted();
    assert_eq!(agent.bound_path(), Some(&PATH.to_vec()));
    assert!(!agent.is_unlocked());
    disk.unlock(&mut agent, "integration restart password")
        .expect("matching password must unlock after restart");
    assert!(agent.is_unlocked());
    assert_eq!(agent.authenticated_vault_id(), Some([0x31; 16]));
}

#[test]
fn lock_invalidates_existing_operation_permits() {
    let disk = Disk::empty();
    let mut agent = disk.create("permit password");
    let permit = agent
        .begin_operation()
        .expect("unlocked vault must issue a permit");
    assert!(agent.operation_is_authorized(permit));
    agent.lock();
    assert!(!agent.operation_is_authorized(permit));
    assert!(agent.begin_operation().is_none());
}

#[test]
fn operation_permits_are_bound_to_the_issuing_session() {
    let disk = Disk::empty();
    let first = disk.create("first permit password");
    let second = disk.create("second permit password");
    let first_permit = first
        .begin_operation()
        .expect("first vault must issue a permit");
    let second_permit = second
        .begin_operation()
        .expect("second vault must issue a permit");
    assert!(first.operation_is_authorized(first_permit));
    assert!(second.operation_is_authorized(second_permit));
    assert!(!first.operation_is_authorized(second_permit));
    assert!(!second.operation_is_authorized(first_permit));
}

#[test]
fn operation_permits_are_invalidated_by_lock_and_session_changes() {
    let disk = Disk::empty();
    let mut created = disk.create("permit integration password");
    let original = created
        .begin_operation()
        .expect("unlocked session must issue a permit");
    assert!(created.operation_is_authorized(original));
    created.lock();
    assert!(!created.operation_is_authorized(original));

    let mut agent = restarted();
    disk.unlock(&mut agent, "permit integration password")
        .expect("vault must unlock");
    let replacement = agent
        .begin_operation()
        .expect("new session must issue a permit");
    assert!(!agent.operation_is_authorized(original));
    assert!(agent.operation_is_authorized(replacement));
}

#[test]
fn wrong_password_and_corruption_have_the_same_public_error() {
    let disk = Disk::empty();
    let mut agent = disk.create("right password");
    agent.lock();
    assert_eq!(
        disk.unlock(&mut agent, "wrong password"),
        Err(UnlockError::Failed)
    );
    assert!(!agent.is_unlocked());
    disk.tamper(|data| *data.header.last_mut().expect("header") ^= 1);
    assert_eq!(
        disk.unlock(&mut agent, "right password"),
        Err(UnlockError::Failed)
    );
    assert!(!agent.is_unlocked());
}

#[test]
fn cancellation_leaves_the_agent_locked() {
    let disk = Disk::empty();
    let mut agent = disk.create("cancel password");
    agent.lock();
    assert_eq!(
        disk.unlock_with(&mut agent, "cancel password", || true, || {}, || {}),
        Err(UnlockError::Cancelled)
    );
    assert!(!agent.is_unlocked());
}

#[test]
fn pre_cancelled_unlock_does_not_read_the_vault_path() {
    let disk = Disk::empty();
    let mut agent = restarted();
    assert_eq!(
        disk.unlock_with(&mut agent, "cancel before read", || true, || {}, || {}),
        Err(UnlockError::Cancelled)
    );
    assert!(!agent.is_unlocked());
    assert_eq!(disk.reads.get(), 0);
}

#[test]
fn pre_cancelled_unlock_never_publishes_a_session() {
    let disk = Disk::empty();
    let mut created = disk.create("cancel integration password");
    created.lock();
    let mut agent = restarted();
    assert_eq!(
        disk.unlock_with(
            &mut agent,
            "cancel integration password",
            || true,
            || {},
            || {}
        ),
        Err(UnlockError::Cancelled)
    );
    assert!(!agent.is_unlocked());
    assert!(agent.begin_operation().is_none());
}

#[test]
fn cancellation_after_core_unlock_does_not_publish_the_session() {
    let disk = Disk::empty();
    let mut agent = disk.create("late cancel password");
    agent.lock();
    let cancelled = Cell::new(false);
    assert_eq!(
        disk.unlock_with(
            &mut agent,
            "late cancel password",
            || cancelled.get(),
            || cancelled.set(true),
            || {}
        ),
        Err(UnlockError::Cancelled)
    );
    assert!(!agent.is_unlocked());
    assert!(agent.begin_operation().is_none());
}

#[test]
fn vault_rewrite_during_password_work_prevents_unlock_publication() {
    let disk = Disk::empty();
    disk.create("rewrite race password");
    let mut agent = restarted();
    assert_eq!(
        disk.unlock_with(
            &mut agent,
            "rewrite race password",
            || false,
            || disk.tamper(|data| data.manifest = b"rewritten during password work".to_vec()),
            || {}
        ),
        Err(UnlockError::Failed)
    );
    assert!(!agent.is_unlocked());
    assert!(agent.begin_operation().is_none());
}

#[test]
fn vault_replacement_during_password_work_prevents_unlock_publication() {
    let disk = Disk::empty();
    let replacement = Disk::empty();
    disk.create("replacement race password");
    replacement.create("other replacement password");
    let mut agent = restarted();
    assert_eq!(
        disk.unlock_with(
            &mut agent,
            "replacement race password",
            || false,
            || {
                disk.stored.swap(&replacement.stored);
            },
            || {}
        ),
        Err(UnlockError::Failed)
    );
    assert!(!agent.is_unlocked());
    assert!(agent.begin_operation().is_none());
}

#[test]
fn unlocking_voids_every_earlier_permit() {
    let disk = Disk::empty();
    let mut agent = disk.create("first session password");
    let own = agent.begin_operation().expect("permit");
    let other = disk.create("second session password");
    let foreign = other.begin_operation().expect("permit");
    disk.unlock(&mut agent, "second session password")
        .expect("vault must unlock");
    assert!(!agent.operation_is_authorized(own));
    assert!(!agent.operation_is_authorized(foreign));
    let current = agent.begin_operation().expect("permit");
    assert!(agent.operation_is_authorized(current));
    assert!(!other.operation_is_authorized(current));
}

#[test]
fn unexpected_events_end_an_attempt() {
    let disk = Disk::empty();
    let mut agent = disk.create("unexpected event password");
    let mut sessions = 5;
    let attempt = agent.unlock();
    assert!(!agent.is_unlocked());
    let attempt = agent.continue_unlock(attempt, &mut sessions, UnlockEvent::Announced);
    assert_eq!(attempt.step, UnlockStep::Refused(UnlockError::Failed));
    let attempt = agent.continue_unlock(attempt, &mut sessions, UnlockEvent::Cancelled(false));
    assert_eq!(attempt.step, UnlockStep::Refused(UnlockError::Failed));
    assert_eq!(sessions, 5);
    assert!(!agent.is_unlocked());
}

#[test]
fn cancellation_at_the_very_end_takes_the_session_back() {
    let disk = Disk::empty();
    let mut agent = disk.create("last cancel password");
    agent.lock();
    let cancelled = Cell::new(false);
    assert_eq!(
        disk.unlock_with(
            &mut agent,
            "last cancel password",
            || cancelled.get(),
            || {},
            || cancelled.set(true)
        ),
        Err(UnlockError::Cancelled)
    );
    assert!(!agent.is_unlocked());
}

#[test]
fn missing_vault_fails_closed_and_remains_locked() {
    let disk = Disk::empty();
    let mut agent = restarted();
    assert_eq!(
        disk.unlock(&mut agent, "missing integration password"),
        Err(UnlockError::Failed)
    );
    assert!(!agent.is_unlocked());

    disk.create("missing integration password");
    let mut nowhere = VaultAgent::open_locked(None);
    assert_eq!(
        disk.unlock(&mut nowhere, "missing integration password"),
        Err(UnlockError::Failed)
    );
}

#[test]
fn exhausted_session_numbers_open_nothing() {
    let disk = Disk::empty();
    let mut agent = disk.create("exhausted password");
    agent.lock();
    disk.sessions.set(u64::MAX);
    assert_eq!(
        disk.unlock(&mut agent, "exhausted password"),
        Err(UnlockError::Failed)
    );
    assert!(!agent.is_unlocked());
}

#[test]
fn public_errors_do_not_disclose_paths_or_failure_details() {
    assert_eq!(
        CreateError::AlreadyExists.message(),
        "a vault already exists at the selected location"
    );
    assert_eq!(CreateError::Failed.message(), "vault creation failed");
    assert_eq!(UnlockError::Failed.message(), "vault unlock failed");
    assert_eq!(
        UnlockError::Cancelled.message(),
        "vault unlock was cancelled"
    );
}

#[test]
fn clocks_and_paths_are_bound() {
    assert_eq!(unix_time_ms(Some(5)), Ok(5));
    assert_eq!(
        unix_time_ms(Some(u64::MAX as u128 + 1)),
        Err(StorageError::Clock)
    );
    assert_eq!(unix_time_ms(None), Err(StorageError::Clock));
    assert_eq!(
        bind_vault_path(b"/a".to_vec(), true, Some(b"/b".to_vec())),
        Some(b"/a".to_vec())
    );
    assert_eq!(
        bind_vault_path(b"a".to_vec(), false, Some(b"/b/a".to_vec())),
        Some(b"/b/a".to_vec())
    );
    assert_eq!(bind_vault_path(b"a".to_vec(), false, None), None);
}

// Records

fn account(service: &str, origin: &str, username: &str, password: &str) -> String {
    format!("{service}\n{origin}\n{username}\n{password}")
}

#[test]
fn website_account_crud_survives_lock_and_restart() {
    let disk = Disk::empty();
    let mut agent = disk.create("website account lifecycle password");
    let id = RecordId::from_bytes([7; 16]);
    let added = account(
        "Example",
        "https://example.com",
        "first@example.com",
        "first disposable password",
    );
    let updated = account(
        "Example Updated",
        "https://login.example.com",
        "second@example.com",
        "second disposable password",
    );
    assert_eq!(
        disk.add(&mut agent, 7, &added),
        Ok(1_700_000_000_000)
    );
    assert_eq!(
        disk.get(&mut agent, id),
        Ok(added.clone().into_bytes())
    );
    assert_eq!(disk.count(&mut agent), Ok(1));
    assert!(disk
        .change(
            &mut agent,
            RecordMutationKind::Update,
            id,
            Some(&updated),
            false,
            || Ok(())
        )
        .is_ok());
    assert_eq!(
        disk.get(&mut agent, id),
        Ok(updated.clone().into_bytes())
    );
    agent.lock();

    let mut agent = restarted();
    disk.unlock(&mut agent, "website account lifecycle password")
        .expect("non-empty vault must unlock after restart");
    assert_eq!(
        disk.get(&mut agent, id),
        Ok(updated.clone().into_bytes())
    );
    assert!(disk
        .change(
            &mut agent,
            RecordMutationKind::Delete,
            id,
            None,
            false,
            || Ok(())
        )
        .is_ok());
    assert_eq!(disk.get(&mut agent, id), Err(AccountError::NotFound));
    assert_eq!(disk.count(&mut agent), Ok(0));
    assert!(agent.is_unlocked());
}

#[test]
fn locked_agent_rejects_every_record_operation_without_reading_plaintext() {
    let disk = Disk::empty();
    let mut agent = disk.create("locked record operation password");
    agent.lock();
    let unknown = RecordId::from_bytes([0xA5; 16]);
    assert_eq!(
        disk.add(&mut agent, 1, "password"),
        Err(AccountError::Locked)
    );
    assert_eq!(disk.get(&mut agent, unknown), Err(AccountError::Locked));
    assert_eq!(disk.count(&mut agent), Err(AccountError::Locked));
    for (kind, envelope) in [
        (RecordMutationKind::Update, Some("password")),
        (RecordMutationKind::Delete, None),
    ] {
        assert_eq!(
            disk.change(&mut agent, kind, unknown, envelope, false, || Ok(())),
            Err(AccountError::Locked)
        );
    }
    assert_eq!(disk.reads.get(), 0);
}

#[test]
fn locked_agent_releases_no_passkey_operation() {
    let disk = Disk::empty();
    let mut agent = disk.create("disposable passkey vault password");
    agent.lock();
    assert_eq!(
        agent.list_passkeys(|_| disk.read(), |_, _| Ok(1_u8)),
        Err(AccountError::Locked)
    );
    assert_eq!(
        agent.list_passkeys_for_assertion(|_| disk.read(), |_, _| Ok(1_u8)),
        Err(AccountError::Locked)
    );
    assert_eq!(
        agent.pending_passkey_credential_ids(|_| disk.read(), |_, _| Ok(1_u8)),
        Err(AccountError::Locked)
    );
    let clock = || Ok(1);
    let prepare = |_: &Vec<u8>, _: &VaultData, _: u64| -> Result<
        (PreparedRecordMutation, ()),
        RecordOperationError,
    > { panic!("a locked vault must not be asked") };
    let apply =
        |_: &Vec<u8>, _: &VaultData, _: &PreparedRecordMutation, _: ()| panic!("nothing to store");
    let commit = |session: Vec<u8>, _: PreparedRecordMutation, _: ()| (session, Some(1_u8));
    assert_eq!(
        agent.add_passkey(
            |_| disk.read(),
            clock,
            prepare,
            no_last_look,
            apply,
            commit
        ),
        Err(AccountError::Locked)
    );
    assert_eq!(
        agent.sign_passkey_assertion(
            |_| disk.read(),
            clock,
            prepare,
            no_last_look,
            apply,
            commit
        ),
        Err(AccountError::Locked)
    );
    assert_eq!(
        agent.delete_passkey(
            |_| disk.read(),
            clock,
            prepare,
            no_last_look,
            apply,
            commit
        ),
        Err(AccountError::Locked)
    );
    assert_eq!(
        agent.confirm_passkey_creation(
            |_| disk.read(),
            clock,
            prepare,
            no_last_look,
            apply,
            commit
        ),
        Err(AccountError::Locked)
    );
    assert_eq!(disk.reads.get(), 0);
}

#[test]
fn stale_concurrent_agent_fails_closed_instead_of_losing_an_update() {
    let disk = Disk::empty();
    let mut first = disk.create("concurrent writer password");
    let mut second = restarted();
    disk.unlock(&mut second, "concurrent writer password")
        .expect("second agent must authenticate the initial generation");
    assert!(disk.add(&mut first, 1, "first password").is_ok());
    assert_eq!(
        disk.add(&mut second, 2, "second password"),
        Err(AccountError::Failed)
    );
    assert!(!second.is_unlocked());
    assert_eq!(disk.count(&mut first), Ok(1));
}

#[test]
fn record_corruption_blocks_unlock_without_exposing_a_distinction() {
    let disk = Disk::empty();
    let mut agent = disk.create("corrupted record password");
    assert!(disk.add(&mut agent, 1, "disposable password").is_ok());
    agent.lock();
    disk.tamper(|data| *data.records[0].envelope.last_mut().expect("envelope") ^= 1);
    let mut agent = restarted();
    assert_eq!(
        disk.unlock(&mut agent, "corrupted record password"),
        Err(UnlockError::Failed)
    );
    assert!(!agent.is_unlocked());
}

#[test]
fn manifest_rejects_missing_and_extra_record_rows() {
    for tamper in ["missing", "extra"] {
        let disk = Disk::empty();
        let password = format!("{tamper} record-set password");
        let mut agent = disk.create(&password);
        assert!(disk.add(&mut agent, 1, "disposable password").is_ok());
        agent.lock();
        disk.tamper(|data| {
            if tamper == "missing" {
                data.records.clear();
            } else {
                let envelope = data.records[0].envelope.clone();
                let id = RecordId::from_bytes([0xE7; 16]);
                data.records.push(EncryptedRecord::new(id, envelope));
            }
        });
        let mut agent = restarted();
        assert_eq!(
            disk.unlock(&mut agent, &password),
            Err(UnlockError::Failed)
        );
        assert!(!agent.is_unlocked());
    }
}

#[test]
fn replaying_an_older_record_envelope_blocks_unlock() {
    let disk = Disk::empty();
    let mut agent = disk.create("replayed envelope password");
    let id = RecordId::from_bytes([1; 16]);
    assert!(disk.add(&mut agent, 1, "first password").is_ok());
    assert!(disk
        .change(
            &mut agent,
            RecordMutationKind::Update,
            id,
            Some("second password"),
            false,
            || Ok(())
        )
        .is_ok());
    agent.lock();
    disk.tamper(|data| data.records[0].envelope = b"first password".to_vec());
    let mut agent = restarted();
    assert_eq!(
        disk.unlock(&mut agent, "replayed envelope password"),
        Err(UnlockError::Failed)
    );
    assert!(!agent.is_unlocked());
}

#[test]
fn single_record_get_authenticates_every_other_row_before_returning_plaintext() {
    let disk = Disk::empty();
    let mut agent = disk.create("streaming authentication password");
    assert!(disk.add(&mut agent, 1, "requested password").is_ok());
    assert!(disk.add(&mut agent, 2, "corrupted password").is_ok());
    disk.tamper(|data| *data.records[1].envelope.last_mut().expect("envelope") ^= 1);
    assert_eq!(
        disk.get(&mut agent, RecordId::from_bytes([1; 16])),
        Err(AccountError::Failed)
    );
    assert!(!agent.is_unlocked());
}

#[test]
fn unknown_record_id_is_not_found_only_after_authentication() {
    let disk = Disk::empty();
    let mut agent = disk.create("unknown identifier password");
    let unknown = RecordId::from_bytes([0x5A; 16]);
    assert_eq!(disk.get(&mut agent, unknown), Err(AccountError::NotFound));
    assert_eq!(
        disk.change(
            &mut agent,
            RecordMutationKind::Delete,
            unknown,
            None,
            false,
            || Ok(())
        ),
        Err(AccountError::NotFound)
    );
    assert!(agent.is_unlocked());
}

#[test]
fn interrupted_record_transaction_commits_neither_row_nor_manifest() {
    let disk = Disk::empty();
    let mut agent = disk.create("interrupted transaction password");
    assert_eq!(
        disk.change(
            &mut agent,
            RecordMutationKind::Insert,
            RecordId::from_bytes([1; 16]),
            Some("Interrupted"),
            false,
            || Err(StorageError::Sqlite)
        ),
        Err(AccountError::Failed)
    );
    assert!(!agent.is_unlocked());
    let mut agent = restarted();
    disk.unlock(&mut agent, "interrupted transaction password")
        .expect("rolled-back vault must remain authentic");
    assert_eq!(disk.count(&mut agent), Ok(0));
}

#[test]
fn lock_before_plaintext_return_discards_the_result() {
    let disk = Disk::empty();
    let mut agent = disk.create("lock race record password");
    assert!(disk.add(&mut agent, 1, "Lock Race").is_ok());
    let permit = agent.require_operation().expect("permit");
    assert_eq!(agent.release(permit, 5_u8), Ok(5));
    agent.lock();
    assert_eq!(agent.release(permit, 5_u8), Err(AccountError::Locked));
    assert!(!agent.is_unlocked());
}

#[test]
fn account_page_authentication_honors_mid_visit_cancellation() {
    let disk = Disk::empty();
    let mut agent = disk.create("page cancellation password");
    assert!(disk.add(&mut agent, 1, "Page Cancellation").is_ok());
    let checks = Cell::new(0_usize);
    let page: Result<u8, AccountError> = agent.list_website_account_page(
        |_| disk.read(),
        |_, _| {
            checks.set(checks.get() + 1);
            Err(RecordOperationError::Cancelled)
        },
    );
    assert_eq!(page, Err(AccountError::Aborted));
    assert_eq!(checks.get(), 1);
    assert!(agent.is_unlocked());
}

#[test]
fn account_mutation_authentication_honors_mid_visit_cancellation() {
    let disk = Disk::empty();
    let mut agent = disk.create("mutation cancellation password");
    let id = RecordId::from_bytes([1; 16]);
    assert!(disk.add(&mut agent, 1, "Existing").is_ok());
    for (kind, changed, envelope) in [
        (
            RecordMutationKind::Insert,
            RecordId::from_bytes([2; 16]),
            Some("Cancelled Add"),
        ),
        (RecordMutationKind::Update, id, Some("Cancelled Update")),
        (RecordMutationKind::Delete, id, None),
    ] {
        let committed = Cell::new(false);
        assert_eq!(
            disk.change(&mut agent, kind, changed, envelope, true, || {
                committed.set(true);
                Ok(())
            }),
            Err(AccountError::Aborted)
        );
        assert!(!committed.get());
    }
    assert!(agent.is_unlocked());
    assert!(
        disk.get(&mut agent, id).is_ok(),
        "existing account must remain authenticated"
    );
}

#[test]
fn aborted_transactions_keep_the_session() {
    let disk = Disk::empty();
    let mut agent = disk.create("aborted password");
    assert_eq!(
        disk.change(
            &mut agent,
            RecordMutationKind::Insert,
            RecordId::from_bytes([1; 16]),
            Some("Aborted"),
            false,
            || Err(StorageError::Aborted)
        ),
        Err(AccountError::Aborted)
    );
    assert!(agent.is_unlocked());
    assert_eq!(disk.count(&mut agent), Ok(0));
}

#[test]
fn missing_clock_locks_the_vault() {
    let disk = Disk::empty();
    let mut agent = disk.create("clock password");
    assert_eq!(
        agent.commit_time(Err(StorageError::Clock)),
        Err(AccountError::Failed)
    );
    assert!(!agent.is_unlocked());
}

fn insertion() -> PreparedRecordMutation {
    PreparedRecordMutation {
        kind: RecordMutationKind::Insert,
        id: RecordId::from_bytes([1; 16]),
        envelope: Some(vec![1]),
        manifest_envelope: vec![2],
    }
}

#[test]
fn passkey_changes_ask_for_cancellation_before_storing() {
    let disk = Disk::empty();
    let mut agent = disk.create("passkey cancel password");
    let stopped = agent.add_passkey(
        |_| disk.read(),
        || Ok(1),
        |_, _, _| Ok((insertion(), ())),
        |_| None::<()>,
        |_, _, _, _| panic!("a cancelled change must not be stored"),
        |session, _, ()| (session, Some(1_u8)),
    );
    assert_eq!(stopped, Err(AccountError::Aborted));
    assert!(agent.is_unlocked());
    let lost: Result<u8, AccountError> = agent.add_passkey(
        |_| disk.read(),
        || Ok(1),
        |_, _, _| Ok((insertion(), ())),
        |_| Some(()),
        |_, _, _, _| Ok(()),
        |session, _, ()| (session, None),
    );
    assert_eq!(lost, Err(AccountError::Failed));
    assert!(!agent.is_unlocked());
}

#[test]
fn passkey_changes_are_looked_at_once_they_are_prepared() {
    let disk = Disk::empty();
    let mut agent = disk.create("passkey order password");
    let log = RefCell::new(Vec::new());
    let signed = agent.sign_passkey_assertion(
        |_| {
            log.borrow_mut().push("read");
            disk.read()
        },
        || {
            log.borrow_mut().push("clock");
            Ok(1)
        },
        |_, _, _| {
            log.borrow_mut().push("prepare");
            Ok((insertion(), ()))
        },
        |prepared| {
            assert_eq!(prepared.manifest_envelope, vec![2]);
            log.borrow_mut().push("look");
            Some(7_u8)
        },
        |_, _, _, leave| {
            assert_eq!(leave, 7);
            log.borrow_mut().push("store");
            Ok(())
        },
        |session, _, ()| {
            log.borrow_mut().push("commit");
            (session, Some(1_u8))
        },
    );
    assert_eq!(signed, Ok(1));
    assert_eq!(
        *log.borrow(),
        ["read", "clock", "prepare", "look", "store", "commit"]
    );
    assert!(agent.is_unlocked());
}

type Refusal = Result<(PreparedRecordMutation, ()), RecordOperationError>;

#[test]
fn conflicting_account_changes_lock_the_vault() {
    let disk = Disk::empty();
    let conflict = |_: &Vec<u8>, _: &VaultData, _: u64| -> Refusal {
        Err(RecordOperationError::Conflict)
    };
    let apply = |_: &Vec<u8>, _: &VaultData, _: &PreparedRecordMutation, _: ()| {
        panic!("a refused change must not be stored")
    };
    let commit = |session: Vec<u8>, _: PreparedRecordMutation, ()| (session, Some(1_u8));
    let read = |_: &Vec<u8>| disk.read();

    let mut adding = disk.create("conflicting add password");
    assert_eq!(
        adding.add_website_account(read, || Ok(1), conflict, apply, commit),
        Err(AccountError::Failed)
    );
    assert!(!adding.is_unlocked());
    let mut updating = disk.create("conflicting update password");
    assert_eq!(
        updating.update_website_account(read, || Ok(1), conflict, apply, commit),
        Err(AccountError::Conflict)
    );
    assert!(!updating.is_unlocked());
    let mut deleting = disk.create("conflicting delete password");
    assert_eq!(
        deleting.delete_website_account(read, || Ok(1), conflict, apply, commit),
        Err(AccountError::Conflict)
    );
    assert!(!deleting.is_unlocked());
}

#[test]
fn conflicting_passkey_changes_keep_the_session() {
    let disk = Disk::empty();
    let mut agent = disk.create("conflicting passkey password");
    let conflict = |_: &Vec<u8>, _: &VaultData, _: u64| -> Refusal {
        Err(RecordOperationError::Conflict)
    };
    let apply = |_: &Vec<u8>, _: &VaultData, _: &PreparedRecordMutation, _: ()| {
        panic!("a refused change must not be stored")
    };
    let commit = |session: Vec<u8>, _: PreparedRecordMutation, ()| (session, Some(1_u8));
    let read = |_: &Vec<u8>| disk.read();
    assert_eq!(
        agent.add_passkey(read, || Ok(1), conflict, no_last_look, apply, commit),
        Err(AccountError::Conflict)
    );
    assert_eq!(
        agent.sign_passkey_assertion(read, || Ok(1), conflict, no_last_look, apply, commit),
        Err(AccountError::Conflict)
    );
    assert_eq!(
        agent.delete_passkey(read, || Ok(1), conflict, no_last_look, apply, commit),
        Err(AccountError::Conflict)
    );
    assert_eq!(
        agent.confirm_passkey_creation(read, || Ok(1), conflict, no_last_look, apply, commit),
        Err(AccountError::Conflict)
    );
    assert!(agent.is_unlocked());
}

#[test]
fn allow_lists_restrict_only_where_given() {
    assert_eq!(
        assertion_allow_list(vec![[1; 32]], true),
        Some(vec![[1; 32]])
    );
    assert_eq!(assertion_allow_list(Vec::new(), true), Some(Vec::new()));
    assert_eq!(assertion_allow_list(vec![[1; 32]], false), None);
    assert_eq!(direct_allow_list(vec![[1; 32]]), Some(vec![[1; 32]]));
    assert_eq!(direct_allow_list(Vec::new()), None);
}

#[test]
fn changed_rows_stand_in_the_order_of_their_names() {
    let record = |marker: u8, text: &str| {
        EncryptedRecord::new(
            RecordId::from_bytes([marker; 16]),
            text.as_bytes().to_vec(),
        )
    };
    let change = |kind, marker: u8, envelope: Option<&str>| PreparedRecordMutation {
        kind,
        id: RecordId::from_bytes([marker; 16]),
        envelope: envelope.map(|text| text.as_bytes().to_vec()),
        manifest_envelope: Vec::new(),
    };
    let records = vec![record(2, "b"), record(4, "d")];
    let inserted = apply_to_expected_records(
        &records,
        &change(RecordMutationKind::Insert, 3, Some("c")),
    )
    .ok()
    .expect("rows");
    assert!(same_records(
        &inserted,
        &vec![record(2, "b"), record(3, "c"), record(4, "d")]
    ));
    let updated = apply_to_expected_records(
        &records,
        &change(RecordMutationKind::Update, 4, Some("D")),
    )
    .ok()
    .expect("rows");
    assert!(same_records(
        &updated,
        &vec![record(2, "b"), record(4, "D")]
    ));
    let deleted =
        apply_to_expected_records(&records, &change(RecordMutationKind::Delete, 2, None))
            .ok()
            .expect("rows");
    assert!(same_records(&deleted, &vec![record(4, "d")]));
    assert!(matches!(
        apply_to_expected_records(&records, &change(RecordMutationKind::Insert, 9, None)),
        Err(StorageError::Schema)
    ));
    assert!(matches!(
        apply_to_expected_records(&records, &change(RecordMutationKind::Update, 4, None)),
        Err(StorageError::Schema)
    ));
    assert!(matches!(
        apply_to_expected_records(&records, &change(RecordMutationKind::Update, 9, None)),
        Err(StorageError::Conflict)
    ));
    assert!(matches!(
        apply_to_expected_records(&records, &change(RecordMutationKind::Delete, 9, None)),
        Err(StorageError::Conflict)
    ));
}
