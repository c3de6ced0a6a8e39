//! Operations on the encrypted records of an unlocked vault.
//!
//! Every operation reads the database anew and goes on only where its header
//! and manifest are those that were authenticated when the session opened or
//! last committed. Whatever cannot be explained locks the vault.

use vstd::prelude::*;

use crate::bytes::same_bytes;
use crate::errors::{AccountError, RecordOperationError, StorageError};
use crate::lifecycle::{OperationPermit, VaultAgent};
use crate::vault_data::{PreparedRecordMutation, VaultData, VaultModel};

verus! {

/// What a failure of the core is reported as.
pub open spec fn account_error(error: RecordOperationError) -> AccountError {
    match error {
        RecordOperationError::NotFound => AccountError::NotFound,
        RecordOperationError::Conflict => AccountError::Conflict,
        RecordOperationError::Cancelled => AccountError::Aborted,
        RecordOperationError::Failed => AccountError::Failed,
    }
}

/// What becomes of a change that the core refuses because of a conflict.
#[derive(Clone, Copy, Debug, PartialEq, Eq, Structural)]
pub enum OnConflict {
    /// The conflict is reported, and the session goes on.
    Reported,
    /// The conflict is reported, and the vault is locked.
    Locks,
    /// The change failed, and the vault is locked.
    Fails,
}

/// What a change that the core refuses is reported as.
pub open spec fn change_error(
    error: RecordOperationError,
    on_conflict: OnConflict,
) -> AccountError {
    if error == RecordOperationError::Conflict && on_conflict == OnConflict::Fails {
        AccountError::Failed
    } else {
        account_error(error)
    }
}

/// Whether a change that the core refuses locks the vault.
pub open spec fn refusal_locks(error: RecordOperationError, on_conflict: OnConflict) -> bool {
    match error {
        RecordOperationError::Failed => true,
        RecordOperationError::Conflict => on_conflict != OnConflict::Reported,
        _ => false,
    }
}

impl<S> VaultAgent<S> {
    /// Whether rows carry the header and the manifest that were authenticated.
    pub open spec fn recognizes(&self, data: VaultModel) -> bool {
        &&& self.authenticated_header is Some && self.authenticated_header->Some_0@ == data.header
        &&& self.authenticated_manifest is Some && self.authenticated_manifest->Some_0@
            == data.manifest
    }

    /// How the handle stands after the core reported its result.
    pub open spec fn after_core_result<T>(
        &self,
        before: &VaultAgent<S>,
        core: Result<T, RecordOperationError>,
    ) -> bool {
        if core == Err::<T, RecordOperationError>(RecordOperationError::Failed) {
            self.is_locked_form_of(before)
        } else {
            *self == *before
        }
    }

    /// The authority to begin a record operation.
    pub fn require_operation(&self) -> (permit: Result<OperationPermit, AccountError>)
        requires
            self.wf(),
        ensures
            self.session is Some ==> permit is Ok && self.authorizes(permit->Ok_0),
            self.session is None ==> permit == Err::<OperationPermit, AccountError>(
                AccountError::Locked,
            ),
    {
        match self.begin_operation() {
            Some(permit) => Ok(permit),
            None => Err(AccountError::Locked),
        }
    }

    /// Gives out a value only while the permit under which it was made stands.
    pub fn release<T>(&self, permit: OperationPermit, value: T) -> (released: Result<
        T,
        AccountError,
    >)
        ensures
            self.authorizes(permit) ==> released == Ok::<T, AccountError>(value),
            !self.authorizes(permit) ==> released == Err::<T, AccountError>(AccountError::Locked),
    {
        if self.operation_is_authorized(permit) {
            Ok(value)
        } else {
            Err(AccountError::Locked)
        }
    }

    /// Believes rows only where they carry the authenticated header and
    /// manifest; any others lock the vault.
    pub fn load_authenticated_snapshot(
        &mut self,
        found: Result<VaultData, StorageError>,
    ) -> (snapshot: Result<VaultData, AccountError>)
        requires
            old(self).wf(),
        ensures
            final(self).wf(),
            found is Ok && old(self).recognizes(found->Ok_0@) ==> {
                &&& snapshot == Ok::<VaultData, AccountError>(found->Ok_0)
                &&& *final(self) == *old(self)
            },
            found is Err || !old(self).recognizes(found->Ok_0@) ==> {
                &&& snapshot == Err::<VaultData, AccountError>(AccountError::Failed)
                &&& final(self).is_locked_form_of(old(self))
            },
    {
        let data = match found {
            Ok(data) => data,
            Err(_) => {
                self.lock();
                return Err(AccountError::Failed);
            },
        };
        let header_matches = match &self.authenticated_header {
            Some(expected) => same_bytes(expected, &data.header),
            None => false,
        };
        let manifest_matches = match &self.authenticated_manifest {
            Some(expected) => same_bytes(expected, &data.manifest),
            None => false,
        };
        if !header_matches || !manifest_matches {
            self.lock();
            return Err(AccountError::Failed);
        }
        Ok(data)
    }

    /// The result of a read, or the failure that it is reported as.
    pub fn map_read<T>(&mut self, core: Result<T, RecordOperationError>) -> (result: Result<
        T,
        AccountError,
    >)
        requires
            old(self).wf(),
        ensures
            final(self).wf(),
            final(self).after_core_result(old(self), core),
            match core {
                Ok(value) => result == Ok::<T, AccountError>(value),
                Err(error) => result == Err::<T, AccountError>(account_error(error)),
            },
    {
        match core {
            Ok(value) => Ok(value),
            Err(RecordOperationError::NotFound) => Err(AccountError::NotFound),
            Err(RecordOperationError::Conflict) => Err(AccountError::Conflict),
            Err(RecordOperationError::Cancelled) => Err(AccountError::Aborted),
            Err(RecordOperationError::Failed) => {
                self.lock();
                Err(AccountError::Failed)
            },
        }
    }

    /// What the core prepared, or what its refusal is reported as.
    pub fn map_change<T>(
        &mut self,
        core: Result<T, RecordOperationError>,
        on_conflict: OnConflict,
    ) -> (result: Result<T, AccountError>)
        requires
            old(self).wf(),
        ensures
            final(self).wf(),
            match core {
                Ok(value) => result == Ok::<T, AccountError>(value) && *final(self) == *old(self),
                Err(error) => {
                    &&& result == Err::<T, AccountError>(change_error(error, on_conflict))
                    &&& if refusal_locks(error, on_conflict) {
                        final(self).is_locked_form_of(old(self))
                    } else {
                        *final(self) == *old(self)
                    }
                },
            },
    {
        match core {
            Err(RecordOperationError::Conflict) => match on_conflict {
                OnConflict::Reported => Err(AccountError::Conflict),
                OnConflict::Locks => {
                    self.lock();
                    Err(AccountError::Conflict)
                },
                OnConflict::Fails => {
                    self.lock();
                    Err(AccountError::Failed)
                },
            },
            _ => self.map_read(core),
        }
    }

    /// The time of a commit. Without a clock the vault is locked.
    pub fn commit_time(&mut self, clock: Result<u64, StorageError>) -> (time: Result<
        u64,
        AccountError,
    >)
        requires
            old(self).wf(),
        ensures
            final(self).wf(),
            match clock {
                Ok(now) => time == Ok::<u64, AccountError>(now) && *final(self) == *old(self),
                Err(_) => time == Err::<u64, AccountError>(AccountError::Failed)
                    && final(self).is_locked_form_of(old(self)),
            },
    {
        match clock {
            Ok(now) => Ok(now),
            Err(_) => {
                self.lock();
                Err(AccountError::Failed)
            },
        }
    }
}

/// How a read of an unlocked vault ends, from the rows that were found.
pub open spec fn read_result<S, T, R, G>(
    before: VaultAgent<S>,
    after: VaultAgent<S>,
    read: R,
    get: G,
    result: Result<T, AccountError>,
) -> bool where
    R: FnOnce(&Vec<u8>) -> Result<VaultData, StorageError>,
    G: FnOnce(&S, &VaultData) -> Result<T, RecordOperationError>,
 {
    if before.session is None {
        result == Err::<T, AccountError>(AccountError::Locked) && after == before
    } else if before.path is None {
        result == Err::<T, AccountError>(AccountError::Failed) && after == before
    } else {
        exists|found: Result<VaultData, StorageError>| #[trigger]
            call_ensures(read, (&before.path->Some_0,), found) && {
                if found is Err || !before.recognizes(found->Ok_0@) {
                    &&& result == Err::<T, AccountError>(AccountError::Failed)
                    &&& after.is_locked_form_of(&before)
                } else {
                    exists|core: Result<T, RecordOperationError>| #[trigger]
                        call_ensures(get, (&before.session->Some_0, &found->Ok_0), core) && {
                            &&& after.after_core_result(&before, core)
                            &&& match core {
                                Ok(value) => result == Ok::<T, AccountError>(value),
                                Err(error) => result == Err::<T, AccountError>(
                                    account_error(error),
                                ),
                            }
                        }
                }
            }
    }
}

/// How a change to an unlocked vault ends, from the rows that were found.
pub open spec fn mutation_result<S, T, H, R, K, P, C, G, W, M>(
    before: VaultAgent<S>,
    after: VaultAgent<S>,
    read: R,
    clock: K,
    prepare: P,
    on_conflict: OnConflict,
    last_look: C,
    apply: W,
    commit: M,
    result: Result<T, AccountError>,
) -> bool where
    R: FnOnce(&Vec<u8>) -> Result<VaultData, StorageError>,
    K: FnOnce() -> Result<u64, StorageError>,
    P: FnOnce(&S, &VaultData, u64) -> Result<(PreparedRecordMutation, H), RecordOperationError>,
    C: FnOnce(&PreparedRecordMutation) -> Option<G>,
    W: FnOnce(&Vec<u8>, &VaultData, &PreparedRecordMutation, G) -> Result<(), StorageError>,
    M: FnOnce(S, PreparedRecordMutation, H) -> (S, Option<T>),
 {
    if before.session is None {
        result == Err::<T, AccountError>(AccountError::Locked) && after == before
    } else if before.path is None {
        result == Err::<T, AccountError>(AccountError::Failed) && after == before
    } else {
        exists|found: Result<VaultData, StorageError>| #[trigger]
            call_ensures(read, (&before.path->Some_0,), found) && {
                if found is Err || !before.recognizes(found->Ok_0@) {
                    &&& result == Err::<T, AccountError>(AccountError::Failed)
                    &&& after.is_locked_form_of(&before)
                } else {
                    exists|time: Result<u64, StorageError>| #[trigger]
                        call_ensures(clock, (), time) && match time {
                            Err(_) => {
                                &&& result == Err::<T, AccountError>(AccountError::Failed)
                                &&& after.is_locked_form_of(&before)
                            },
                            Ok(now) => mutation_of_snapshot(
                                before,
                                after,
                                found->Ok_0,
                                now,
                                prepare,
                                on_conflict,
                                last_look,
                                apply,
                                commit,
                                result,
                            ),
                        }
                }
            }
    }
}

/// How a change ends, from the authenticated rows and the time of its commit.
pub open spec fn mutation_of_snapshot<S, T, H, P, C, G, W, M>(
    before: VaultAgent<S>,
    after: VaultAgent<S>,
    data: VaultData,
    now: u64,
    prepare: P,
    on_conflict: OnConflict,
    last_look: C,
    apply: W,
    commit: M,
    result: Result<T, AccountError>,
) -> bool where
    P: FnOnce(&S, &VaultData, u64) -> Result<(PreparedRecordMutation, H), RecordOperationError>,
    C: FnOnce(&PreparedRecordMutation) -> Option<G>,
    W: FnOnce(&Vec<u8>, &VaultData, &PreparedRecordMutation, G) -> Result<(), StorageError>,
    M: FnOnce(S, PreparedRecordMutation, H) -> (S, Option<T>),
 {
    exists|core: Result<(PreparedRecordMutation, H), RecordOperationError>| #[trigger]
        call_ensures(prepare, (&before.session->Some_0, &data, now), core) && match core {
            Err(error) => {
                &&& result == Err::<T, AccountError>(change_error(error, on_conflict))
                &&& if refusal_locks(error, on_conflict) {
                    after.is_locked_form_of(&before)
                } else {
                    after == before
                }
            },
            Ok((prepared, handle)) => exists|looked: Option<G>| #[trigger]
                call_ensures(last_look, (&prepared,), looked) && match looked {
                    None => {
                        &&& result == Err::<T, AccountError>(AccountError::Aborted)
                        &&& after == before
                    },
                    Some(leave) => persist_result(
                        before,
                        after,
                        data,
                        prepared,
                        handle,
                        leave,
                        apply,
                        commit,
                        result,
                    ),
                },
        }
}

/// How a prepared change ends. Its new manifest is the authenticated one only
/// once the change is stored and the core has taken it in.
pub open spec fn persist_result<S, T, H, G, W, M>(
    before: VaultAgent<S>,
    after: VaultAgent<S>,
    data: VaultData,
    prepared: PreparedRecordMutation,
    handle: H,
    leave: G,
    apply: W,
    commit: M,
    result: Result<T, AccountError>,
) -> bool where
    W: FnOnce(&Vec<u8>, &VaultData, &PreparedRecordMutation, G) -> Result<(), StorageError>,
    M: FnOnce(S, PreparedRecordMutation, H) -> (S, Option<T>),
 {
    exists|stored: Result<(), StorageError>| #[trigger]
        call_ensures(apply, (&before.path->Some_0, &data, &prepared, leave), stored)
            && match stored {
            Err(StorageError::Aborted) => {
                &&& result == Err::<T, AccountError>(AccountError::Aborted)
                &&& after == before
            },
            Err(_) => {
                &&& result == Err::<T, AccountError>(AccountError::Failed)
                &&& after.is_locked_form_of(&before)
            },
            Ok(()) => exists|kept: S, value: Option<T>| #[trigger]
                call_ensures(commit, (before.session->Some_0, prepared, handle), (kept, value))
                    && match value {
                    None => {
                        &&& result == Err::<T, AccountError>(AccountError::Failed)
                        &&& after.is_locked_form_of(&before)
                    },
                    Some(value) => {
                        &&& result == Ok::<T, AccountError>(value)
                        &&& after.path == before.path
                        &&& after.session == Some(kept)
                        &&& after.binding == before.binding
                        &&& after.authenticated_header == before.authenticated_header
                        &&& after.authenticated_manifest is Some
                        &&& after.authenticated_manifest->Some_0@ == prepared.manifest_envelope@
                        &&& after.session_id == before.session_id
                        &&& after.authorization_epoch == before.authorization_epoch
                    },
                },
        }
}

impl<S> VaultAgent<S> {
    /// Reads from the records of an unlocked vault. A locked vault is not read.
    pub fn read_records<T, R, G>(&mut self, read: R, get: G) -> (result: Result<
        T,
        AccountError,
    >) where
        R: FnOnce(&Vec<u8>) -> Result<VaultData, StorageError>,
        G: FnOnce(&S, &VaultData) -> Result<T, RecordOperationError>,

        requires
            old(self).wf(),
            forall|path: &Vec<u8>| call_requires(read, (path,)),
            forall|session: &S, data: &VaultData| call_requires(get, (session, data)),
        ensures
            final(self).wf(),
            read_result(*old(self), *final(self), read, get, result),
    {
        let permit = match self.require_operation() {
            Ok(permit) => permit,
            Err(error) => {
                return Err(error);
            },
        };
        let found = match &self.path {
            Some(path) => read(path),
            None => {
                return Err(AccountError::Failed);
            },
        };
        let data = match self.load_authenticated_snapshot(found) {
            Ok(data) => data,
            Err(error) => {
                return Err(error);
            },
        };
        let core = match &self.session {
            Some(session) => get(session, &data),
            None => {
                return Err(AccountError::Locked);
            },
        };
        match self.map_read(core) {
            Ok(value) => self.release(permit, value),
            Err(error) => Err(error),
        }
    }

    /// Changes the records of an unlocked vault. A locked vault is not read.
    /// The last look is at the prepared change, and nothing is stored without
    /// the leave that it gives.
    pub fn change_records<T, H, R, K, P, C, G, W, M>(
        &mut self,
        read: R,
        clock: K,
        prepare: P,
        on_conflict: OnConflict,
        last_look: C,
        apply: W,
        commit: M,
    ) -> (result: Result<T, AccountError>) where
        R: FnOnce(&Vec<u8>) -> Result<VaultData, StorageError>,
        K: FnOnce() -> Result<u64, StorageError>,
        P: FnOnce(&S, &VaultData, u64) -> Result<
            (PreparedRecordMutation, H),
            RecordOperationError,
        >,
        C: FnOnce(&PreparedRecordMutation) -> Option<G>,
        W: FnOnce(&Vec<u8>, &VaultData, &PreparedRecordMutation, G) -> Result<(), StorageError>,
        M: FnOnce(S, PreparedRecordMutation, H) -> (S, Option<T>),

        requires
            old(self).wf(),
            forall|path: &Vec<u8>| call_requires(read, (path,)),
            call_requires(clock, ()),
            forall|session: &S, data: &VaultData, now: u64|
                call_requires(prepare, (session, data, now)),
            forall|prepared: &PreparedRecordMutation| call_requires(last_look, (prepared,)),
            forall|path: &Vec<u8>, data: &VaultData, prepared: &PreparedRecordMutation, leave: G|
                call_requires(apply, (path, data, prepared, leave)),
            forall|session: S, prepared: PreparedRecordMutation, handle: H|
                call_requires(commit, (session, prepared, handle)),
        ensures
            final(self).wf(),
            mutation_result(
                *old(self),
                *final(self),
                read,
                clock,
                prepare,
                on_conflict,
                last_look,
                apply,
                commit,
                result,
            ),
    {
        let permit = match self.require_operation() {
            Ok(permit) => permit,
            Err(error) => {
                return Err(error);
            },
        };
        let found = match &self.path {
            Some(path) => read(path),
            None => {
                return Err(AccountError::Failed);
            },
        };
        let data = match self.load_authenticated_snapshot(found) {
            Ok(data) => data,
            Err(error) => {
                return Err(error);
            },
        };
        let now: u64 = match self.commit_time(clock()) {
            Ok(now) => now,
            Err(error) => {
                return Err(error);
            },
        };
        let core = match &self.session {
            Some(session) => prepare(session, &data, now),
            None => {
                return Err(AccountError::Locked);
            },
        };
        let (prepared, handle) = match self.map_change(core, on_conflict) {
            Ok(pair) => pair,
            Err(error) => {
                return Err(error);
            },
        };
        let leave = match last_look(&prepared) {
            Some(leave) => leave,
            None => {
                return Err(AccountError::Aborted);
            },
        };
        self.persist_mutation(permit, &data, prepared, handle, leave, apply, commit)
    }

    /// Stores a prepared change and lets the core take it in.
    pub fn persist_mutation<T, H, G, W, M>(
        &mut self,
        permit: OperationPermit,
        data: &VaultData,
        prepared: PreparedRecordMutation,
        handle: H,
        leave: G,
        apply: W,
        commit: M,
    ) -> (result: Result<T, AccountError>) where
        W: FnOnce(&Vec<u8>, &VaultData, &PreparedRecordMutation, G) -> Result<(), StorageError>,
        M: FnOnce(S, PreparedRecordMutation, H) -> (S, Option<T>),

        requires
            old(self).wf(),
            call_requires(apply, (&old(self).path->Some_0, data, &prepared, leave)),
            call_requires(commit, (old(self).session->Some_0, prepared, handle)),
        ensures
            final(self).wf(),
            !old(self).authorizes(permit) ==> result == Err::<T, AccountError>(
                AccountError::Locked,
            ) && *final(self) == *old(self),
            old(self).authorizes(permit) && old(self).path is None ==> result == Err::<
                T,
                AccountError,
            >(AccountError::Failed) && *final(self) == *old(self),
            old(self).authorizes(permit) && old(self).path is Some ==> persist_result(
                *old(self),
                *final(self),
                *data,
                prepared,
                handle,
                leave,
                apply,
                commit,
                result,
            ),
    {
        if !self.operation_is_authorized(permit) {
            return Err(AccountError::Locked);
        }
        let stored = match &self.path {
            Some(path) => apply(path, data, &prepared, leave),
            None => {
                return Err(AccountError::Failed);
            },
        };
        match stored {
            Ok(()) => {},
            Err(StorageError::Aborted) => {
                return Err(AccountError::Aborted);
            },
            Err(_) => {
                self.lock();
                return Err(AccountError::Failed);
            },
        }
        let next_manifest = crate::bytes::copy_bytes(&prepared.manifest_envelope);
        let session = match self.session.take() {
            Some(session) => session,
            None => {
                return Err(AccountError::Locked);
            },
        };
        let (kept, value) = commit(session, prepared, handle);
        self.session = Some(kept);
        match value {
            None => {
                self.lock();
                Err(AccountError::Failed)
            },
            Some(value) => {
                self.authenticated_manifest = Some(next_manifest);
                Ok(value)
            },
        }
    }
}

impl<S> VaultAgent<S> {
    /// Retrieves one account, once the complete snapshot has authenticated.
    pub fn get_website_account<T, R, G>(&mut self, read: R, get: G) -> (result: Result<
        T,
        AccountError,
    >) where
        R: FnOnce(&Vec<u8>) -> Result<VaultData, StorageError>,
        G: FnOnce(&S, &VaultData) -> Result<T, RecordOperationError>,

        requires
            old(self).wf(),
            forall|path: &Vec<u8>| call_requires(read, (path,)),
            forall|session: &S, data: &VaultData| call_requires(get, (session, data)),
        ensures
            final(self).wf(),
            read_result(*old(self), *final(self), read, get, result),
    {
        self.read_records(read, get)
    }

    /// Lists every account, once the complete snapshot has authenticated.
    pub fn list_website_accounts<T, R, G>(&mut self, read: R, get: G) -> (result: Result<
        T,
        AccountError,
    >) where
        R: FnOnce(&Vec<u8>) -> Result<VaultData, StorageError>,
        G: FnOnce(&S, &VaultData) -> Result<T, RecordOperationError>,

        requires
            old(self).wf(),
            forall|path: &Vec<u8>| call_requires(read, (path,)),
            forall|session: &S, data: &VaultData| call_requires(get, (session, data)),
        ensures
            final(self).wf(),
            read_result(*old(self), *final(self), read, get, result),
    {
        self.read_records(read, get)
    }

    /// Lists one page of accounts, once the complete snapshot has authenticated.
    pub fn list_website_account_page<T, R, G>(&mut self, read: R, get: G) -> (result: Result<
        T,
        AccountError,
    >) where
        R: FnOnce(&Vec<u8>) -> Result<VaultData, StorageError>,
        G: FnOnce(&S, &VaultData) -> Result<T, RecordOperationError>,

        requires
            old(self).wf(),
            forall|path: &Vec<u8>| call_requires(read, (path,)),
            forall|session: &S, data: &VaultData| call_requires(get, (session, data)),
        ensures
            final(self).wf(),
            read_result(*old(self), *final(self), read, get, result),
    {
        self.read_records(read, get)
    }

    /// Lists public metadata of every passkey.
    pub fn list_passkeys<T, R, G>(&mut self, read: R, get: G) -> (result: Result<
        T,
        AccountError,
    >) where
        R: FnOnce(&Vec<u8>) -> Result<VaultData, StorageError>,
        G: FnOnce(&S, &VaultData) -> Result<T, RecordOperationError>,

        requires
            old(self).wf(),
            forall|path: &Vec<u8>| call_requires(read, (path,)),
            forall|session: &S, data: &VaultData| call_requires(get, (session, data)),
        ensures
            final(self).wf(),
            read_result(*old(self), *final(self), read, get, result),
    {
        self.read_records(read, get)
    }

    /// Lists public metadata of the passkeys that match one relying party and
    /// its allow-list.
    pub fn list_passkeys_for_assertion<T, R, G>(&mut self, read: R, get: G) -> (result: Result<
        T,
        AccountError,
    >) where
        R: FnOnce(&Vec<u8>) -> Result<VaultData, StorageError>,
        G: FnOnce(&S, &VaultData) -> Result<T, RecordOperationError>,

        requires
            old(self).wf(),
            forall|path: &Vec<u8>| call_requires(read, (path,)),
            forall|session: &S, data: &VaultData| call_requires(get, (session, data)),
        ensures
            final(self).wf(),
            read_result(*old(self), *final(self), read, get, result),
    {
        self.read_records(read, get)
    }

    /// Lists the passkeys whose creation was not confirmed yet.
    pub fn pending_passkey_credential_ids<T, R, G>(&mut self, read: R, get: G) -> (result: Result<
        T,
        AccountError,
    >) where
        R: FnOnce(&Vec<u8>) -> Result<VaultData, StorageError>,
        G: FnOnce(&S, &VaultData) -> Result<T, RecordOperationError>,

        requires
            old(self).wf(),
            forall|path: &Vec<u8>| call_requires(read, (path,)),
            forall|session: &S, data: &VaultData| call_requires(get, (session, data)),
        ensures
            final(self).wf(),
            read_result(*old(self), *final(self), read, get, result),
    {
        self.read_records(read, get)
    }

    /// Creates one passkey and stores it. Cancellation is looked at once more
    /// before the change is stored.
    pub fn add_passkey<T, H, R, K, P, C, G, W, M>(
        &mut self,
        read: R,
        clock: K,
        prepare: P,
        last_look: C,
        apply: W,
        commit: M,
    ) -> (result: Result<T, AccountError>) where
        R: FnOnce(&Vec<u8>) -> Result<VaultData, StorageError>,
        K: FnOnce() -> Result<u64, StorageError>,
        P: FnOnce(&S, &VaultData, u64) -> Result<
            (PreparedRecordMutation, H),
            RecordOperationError,
        >,
        C: FnOnce(&PreparedRecordMutation) -> Option<G>,
        W: FnOnce(&Vec<u8>, &VaultData, &PreparedRecordMutation, G) -> Result<(), StorageError>,
        M: FnOnce(S, PreparedRecordMutation, H) -> (S, Option<T>),

        requires
            old(self).wf(),
            forall|path: &Vec<u8>| call_requires(read, (path,)),
            call_requires(clock, ()),
            forall|session: &S, data: &VaultData, now: u64|
                call_requires(prepare, (session, data, now)),
            forall|prepared: &PreparedRecordMutation| call_requires(last_look, (prepared,)),
            forall|path: &Vec<u8>, data: &VaultData, prepared: &PreparedRecordMutation, leave: G|
                call_requires(apply, (path, data, prepared, leave)),
            forall|session: S, prepared: PreparedRecordMutation, handle: H|
                call_requires(commit, (session, prepared, handle)),
        ensures
            final(self).wf(),
            mutation_result(
                *old(self),
                *final(self),
                read,
                clock,
                prepare,
                OnConflict::Reported,
                last_look,
                apply,
                commit,
                result,
            ),
    {
        self.change_records(
            read,
            clock,
            prepare,
            OnConflict::Reported,
            last_look,
            apply,
            commit,
        )
    }

    /// Signs one assertion and stores the advanced signature counter.
    /// Cancellation is looked at once more before the change is stored.
    pub fn sign_passkey_assertion<T, H, R, K, P, C, G, W, M>(
        &mut self,
        read: R,
        clock: K,
        prepare: P,
        last_look: C,
        apply: W,
        commit: M,
    ) -> (result: Result<T, AccountError>) where
        R: FnOnce(&Vec<u8>) -> Result<VaultData, StorageError>,
        K: FnOnce() -> Result<u64, StorageError>,
        P: FnOnce(&S, &VaultData, u64) -> Result<
            (PreparedRecordMutation, H),
            RecordOperationError,
        >,
        C: FnOnce(&PreparedRecordMutation) -> Option<G>,
        W: FnOnce(&Vec<u8>, &VaultData, &PreparedRecordMutation, G) -> Result<(), StorageError>,
        M: FnOnce(S, PreparedRecordMutation, H) -> (S, Option<T>),

        requires
            old(self).wf(),
            forall|path: &Vec<u8>| call_requires(read, (path,)),
            call_requires(clock, ()),
            forall|session: &S, data: &VaultData, now: u64|
                call_requires(prepare, (session, data, now)),
            forall|prepared: &PreparedRecordMutation| call_requires(last_look, (prepared,)),
            forall|path: &Vec<u8>, data: &VaultData, prepared: &PreparedRecordMutation, leave: G|
                call_requires(apply, (path, data, prepared, leave)),
            forall|session: S, prepared: PreparedRecordMutation, handle: H|
                call_requires(commit, (session, prepared, handle)),
        ensures
            final(self).wf(),
            mutation_result(
                *old(self),
                *final(self),
                read,
                clock,
                prepare,
                OnConflict::Reported,
                last_look,
                apply,
                commit,
                result,
            ),
    {
        self.change_records(
            read,
            clock,
            prepare,
            OnConflict::Reported,
            last_look,
            apply,
            commit,
        )
    }

    /// Deletes one passkey. Cancellation is looked at once more before the
    /// change is stored.
    pub fn delete_passkey<T, H, R, K, P, C, G, W, M>(
        &mut self,
        read: R,
        clock: K,
        prepare: P,
        last_look: C,
        apply: W,
        commit: M,
    ) -> (result: Result<T, AccountError>) where
        R: FnOnce(&Vec<u8>) -> Result<VaultData, StorageError>,
        K: FnOnce() -> Result<u64, StorageError>,
        P: FnOnce(&S, &VaultData, u64) -> Result<
            (PreparedRecordMutation, H),
            RecordOperationError,
        >,
        C: FnOnce(&PreparedRecordMutation) -> Option<G>,
        W: FnOnce(&Vec<u8>, &VaultData, &PreparedRecordMutation, G) -> Result<(), StorageError>,
        M: FnOnce(S, PreparedRecordMutation, H) -> (S, Option<T>),

        requires
            old(self).wf(),
            forall|path: &Vec<u8>| call_requires(read, (path,)),
            call_requires(clock, ()),
            forall|session: &S, data: &VaultData, now: u64|
                call_requires(prepare, (session, data, now)),
            forall|prepared: &PreparedRecordMutation| call_requires(last_look, (prepared,)),
            forall|path: &Vec<u8>, data: &VaultData, prepared: &PreparedRecordMutation, leave: G|
                call_requires(apply, (path, data, prepared, leave)),
            forall|session: S, prepared: PreparedRecordMutation, handle: H|
                call_requires(commit, (session, prepared, handle)),
        ensures
            final(self).wf(),
            mutation_result(
                *old(self),
                *final(self),
                read,
                clock,
                prepare,
                OnConflict::Reported,
                last_look,
                apply,
                commit,
                result,
            ),
    {
        self.change_records(
            read,
            clock,
            prepare,
            OnConflict::Reported,
            last_look,
            apply,
            commit,
        )
    }

    /// Confirms the creation of one passkey. Cancellation is looked at once
    /// more before the change is stored.
    pub fn confirm_passkey_creation<T, H, R, K, P, C, G, W, M>(
        &mut self,
        read: R,
        clock: K,
        prepare: P,
        last_look: C,
        apply: W,
        commit: M,
    ) -> (result: Result<T, AccountError>) where
        R: FnOnce(&Vec<u8>) -> Result<VaultData, StorageError>,
        K: FnOnce() -> Result<u64, StorageError>,
        P: FnOnce(&S, &VaultData, u64) -> Result<
            (PreparedRecordMutation, H),
            RecordOperationError,
        >,
        C: FnOnce(&PreparedRecordMutation) -> Option<G>,
        W: FnOnce(&Vec<u8>, &VaultData, &PreparedRecordMutation, G) -> Result<(), StorageError>,
        M: FnOnce(S, PreparedRecordMutation, H) -> (S, Option<T>),

        requires
            old(self).wf(),
            forall|path: &Vec<u8>| call_requires(read, (path,)),
            call_requires(clock, ()),
            forall|session: &S, data: &VaultData, now: u64|
                call_requires(prepare, (session, data, now)),
            forall|prepared: &PreparedRecordMutation| call_requires(last_look, (prepared,)),
            forall|path: &Vec<u8>, data: &VaultData, prepared: &PreparedRecordMutation, leave: G|
                call_requires(apply, (path, data, prepared, leave)),
            forall|session: S, prepared: PreparedRecordMutation, handle: H|
                call_requires(commit, (session, prepared, handle)),
        ensures
            final(self).wf(),
            mutation_result(
                *old(self),
                *final(self),
                read,
                clock,
                prepare,
                OnConflict::Reported,
                last_look,
                apply,
                commit,
                result,
            ),
    {
        self.change_records(
            read,
            clock,
            prepare,
            OnConflict::Reported,
            last_look,
            apply,
            commit,
        )
    }

    /// Adds one account and commits its manifest. Every refusal to store it, a
    /// conflict among them, is a failure and locks the vault.
    pub fn add_website_account<T, H, R, K, P, W, M>(
        &mut self,
        read: R,
        clock: K,
        prepare: P,
        apply: W,
        commit: M,
    ) -> (result: Result<T, AccountError>) where
        R: FnOnce(&Vec<u8>) -> Result<VaultData, StorageError>,
        K: FnOnce() -> Result<u64, StorageError>,
        P: FnOnce(&S, &VaultData, u64) -> Result<
            (PreparedRecordMutation, H),
            RecordOperationError,
        >,
        W: FnOnce(&Vec<u8>, &VaultData, &PreparedRecordMutation, ()) -> Result<(), StorageError>,
        M: FnOnce(S, PreparedRecordMutation, H) -> (S, Option<T>),

        requires
            old(self).wf(),
            forall|path: &Vec<u8>| call_requires(read, (path,)),
            call_requires(clock, ()),
            forall|session: &S, data: &VaultData, now: u64|
                call_requires(prepare, (session, data, now)),
            forall|path: &Vec<u8>, data: &VaultData, prepared: &PreparedRecordMutation|
                call_requires(apply, (path, data, prepared, ())),
            forall|session: S, prepared: PreparedRecordMutation, handle: H|
                call_requires(commit, (session, prepared, handle)),
        ensures
            final(self).wf(),
            mutation_result(
                *old(self),
                *final(self),
                read,
                clock,
                prepare,
                OnConflict::Fails,
                no_last_look,
                apply,
                commit,
                result,
            ),
    {
        self.change_records(
            read,
            clock,
            prepare,
            OnConflict::Fails,
            no_last_look,
            apply,
            commit,
        )
    }

    /// Replaces the user-authored fields of one account. A conflict locks the
    /// vault; that the account is not there does not.
    pub fn update_website_account<T, H, R, K, P, W, M>(
        &mut self,
        read: R,
        clock: K,
        prepare: P,
        apply: W,
        commit: M,
    ) -> (result: Result<T, AccountError>) where
        R: FnOnce(&Vec<u8>) -> Result<VaultData, StorageError>,
        K: FnOnce() -> Result<u64, StorageError>,
        P: FnOnce(&S, &VaultData, u64) -> Result<
            (PreparedRecordMutation, H),
            RecordOperationError,
        >,
        W: FnOnce(&Vec<u8>, &VaultData, &PreparedRecordMutation, ()) -> Result<(), StorageError>,
        M: FnOnce(S, PreparedRecordMutation, H) -> (S, Option<T>),

        requires
            old(self).wf(),
            forall|path: &Vec<u8>| call_requires(read, (path,)),
            call_requires(clock, ()),
            forall|session: &S, data: &VaultData, now: u64|
                call_requires(prepare, (session, data, now)),
            forall|path: &Vec<u8>, data: &VaultData, prepared: &PreparedRecordMutation|
                call_requires(apply, (path, data, prepared, ())),
            forall|session: S, prepared: PreparedRecordMutation, handle: H|
                call_requires(commit, (session, prepared, handle)),
        ensures
            final(self).wf(),
            mutation_result(
                *old(self),
                *final(self),
                read,
                clock,
                prepare,
                OnConflict::Locks,
                no_last_look,
                apply,
                commit,
                result,
            ),
    {
        self.change_records(
            read,
            clock,
            prepare,
            OnConflict::Locks,
            no_last_look,
            apply,
            commit,
        )
    }

    /// Deletes one account and its manifest commitment. A conflict locks the
    /// vault; that the account is not there does not.
    pub fn delete_website_account<T, H, R, K, P, W, M>(
        &mut self,
        read: R,
        clock: K,
        prepare: P,
        apply: W,
        commit: M,
    ) -> (result: Result<T, AccountError>) where
        R: FnOnce(&Vec<u8>) -> Result<VaultData, StorageError>,
        K: FnOnce() -> Result<u64, StorageError>,
        P: FnOnce(&S, &VaultData, u64) -> Result<
            (PreparedRecordMutation, H),
            RecordOperationError,
        >,
        W: FnOnce(&Vec<u8>, &VaultData, &PreparedRecordMutation, ()) -> Result<(), StorageError>,
        M: FnOnce(S, PreparedRecordMutation, H) -> (S, Option<T>),

        requires
            old(self).wf(),
            forall|path: &Vec<u8>| call_requires(read, (path,)),
            call_requires(clock, ()),
            forall|session: &S, data: &VaultData, now: u64|
                call_requires(prepare, (session, data, now)),
            forall|path: &Vec<u8>, data: &VaultData, prepared: &PreparedRecordMutation|
                call_requires(apply, (path, data, prepared, ())),
            forall|session: S, prepared: PreparedRecordMutation, handle: H|
                call_requires(commit, (session, prepared, handle)),
        ensures
            final(self).wf(),
            mutation_result(
                *old(self),
                *final(self),
                read,
                clock,
                prepare,
                OnConflict::Locks,
                no_last_look,
                apply,
                commit,
                result,
            ),
    {
        self.change_records(
            read,
            clock,
            prepare,
            OnConflict::Locks,
            no_last_look,
            apply,
            commit,
        )
    }
}

/// Lets every prepared change be stored.
pub fn no_last_look(prepared: &PreparedRecordMutation) -> (leave: Option<()>)
    ensures
        leave == Some(()),
{
    Some(())
}

/// The allow-list that a passkey lookup is restricted to. A peer that gave no
/// list at all asks for every discoverable passkey of the relying party.
pub fn assertion_allow_list(
    allowed_credential_ids: Vec<[u8; 32]>,
    allow_list_present: bool,
) -> (list: Option<Vec<[u8; 32]>>)
    ensures
        list == (if allow_list_present { Some(allowed_credential_ids) } else { None }),
{
    if allow_list_present {
        Some(allowed_credential_ids)
    } else {
        None
    }
}

/// The allow-list of a caller that names credentials directly. An empty one
/// restricts nothing: every discoverable passkey of the relying party matches.
pub fn direct_allow_list(allowed: Vec<[u8; 32]>) -> (list: Option<Vec<[u8; 32]>>)
    ensures
        list == (if allowed@.len() == 0 { None } else { Some(allowed) }),
{
    if allowed.len() == 0 {
        None
    } else {
        Some(allowed)
    }
}

// Laws

/// How a change leaves the session. One that succeeds keeps it, in the same
/// epoch. One that finds nothing, is aborted, or meets a locked vault changes
/// nothing of the handle. Every other one locks the vault, but for a conflict
/// that is only to be reported.
pub proof fn unsuccessful_changes_end_the_session<S, T, H, R, K, P, C, G, W, M>(
    before: VaultAgent<S>,
    after: VaultAgent<S>,
    read: R,
    clock: K,
    prepare: P,
    on_conflict: OnConflict,
    last_look: C,
    apply: W,
    commit: M,
    result: Result<T, AccountError>,
) where
    R: FnOnce(&Vec<u8>) -> Result<VaultData, StorageError>,
    K: FnOnce() -> Result<u64, StorageError>,
    P: FnOnce(&S, &VaultData, u64) -> Result<(PreparedRecordMutation, H), RecordOperationError>,
    C: FnOnce(&PreparedRecordMutation) -> Option<G>,
    W: FnOnce(&Vec<u8>, &VaultData, &PreparedRecordMutation, G) -> Result<(), StorageError>,
    M: FnOnce(S, PreparedRecordMutation, H) -> (S, Option<T>),

    requires
        before.wf(),
        mutation_result(
            before,
            after,
            read,
            clock,
            prepare,
            on_conflict,
            last_look,
            apply,
            commit,
            result,
        ),
    ensures
        match result {
            Ok(_) => {
                &&& before.session is Some
                &&& after.session is Some
                &&& after.session_id == before.session_id
                &&& after.authorization_epoch == before.authorization_epoch
            },
            Err(AccountError::Locked) => before.session is None && after == before,
            Err(AccountError::NotFound) => after == before,
            Err(AccountError::Aborted) => after == before,
            Err(AccountError::Conflict) => if on_conflict == OnConflict::Reported {
                after == before
            } else {
                after.is_locked_form_of(&before)
            },
            Err(AccountError::Failed) => after.is_locked_form_of(&before),
        },
{
}

/// Whether rows are of the vault that was authenticated: its header and its
/// manifest, byte for byte.
pub open spec fn is_of_the_open_vault<S>(vault: VaultAgent<S>, data: VaultData) -> bool {
    &&& vault.authenticated_header matches Some(header) && header@ == data.header@
    &&& vault.authenticated_manifest matches Some(manifest) && manifest@ == data.manifest@
}

/// What is read from the records is what the core gives of rows that are of the
/// open vault, and an open vault whose rows are its own is read wherever the
/// core reads it; nothing changes in either case. Rows that are not its own lock
/// it.
pub proof fn open_vaults_are_read<S, T, R, G>(
    before: VaultAgent<S>,
    after: VaultAgent<S>,
    read: R,
    get: G,
    result: Result<T, AccountError>,
) where
    R: FnOnce(&Vec<u8>) -> Result<VaultData, StorageError>,
    G: FnOnce(&S, &VaultData) -> Result<T, RecordOperationError>,

    requires
        read_result(before, after, read, get, result),
    ensures
        result matches Ok(value) ==> {
            &&& after == before
            &&& before.session is Some && before.path is Some
            &&& exists|data: VaultData|
                {
                    &&& #[trigger] call_ensures(read, (&before.path->Some_0,), Ok(data))
                    &&& is_of_the_open_vault(before, data)
                    &&& call_ensures(get, (&before.session->Some_0, &data), Ok(value))
                }
        },
        before.session is Some && before.path is Some && (forall|
            found: Result<VaultData, StorageError>,
        |
            #[trigger] call_ensures(read, (&before.path->Some_0,), found) ==> (found matches Ok(data)
                && is_of_the_open_vault(before, data))) && (forall|
            data: VaultData,
            core: Result<T, RecordOperationError>,
        |
            #[trigger] call_ensures(get, (&before.session->Some_0, &data), core) ==> core is Ok)
            ==> result is Ok,
        before.session is Some && before.path is Some && (forall|
            found: Result<VaultData, StorageError>,
        |
            #[trigger] call_ensures(read, (&before.path->Some_0,), found) ==> (found matches Ok(data)
                ==> !is_of_the_open_vault(before, data))) ==> {
            &&& result == Err::<T, AccountError>(AccountError::Failed)
            &&& after.session is None
        },
        before.session is None ==> result == Err::<T, AccountError>(AccountError::Locked),
{
}

/// A change that succeeds was prepared by the core on rows of the open vault,
/// was still wanted when it was complete, is stored, and was taken in by the
/// core; its manifest is the authenticated one from then on.
pub proof fn stored_changes_are_of_the_open_vault<S, T, H, R, K, P, C, G, W, M>(
    before: VaultAgent<S>,
    after: VaultAgent<S>,
    read: R,
    clock: K,
    prepare: P,
    on_conflict: OnConflict,
    last_look: C,
    apply: W,
    commit: M,
    result: Result<T, AccountError>,
) where
    R: FnOnce(&Vec<u8>) -> Result<VaultData, StorageError>,
    K: FnOnce() -> Result<u64, StorageError>,
    P: FnOnce(&S, &VaultData, u64) -> Result<(PreparedRecordMutation, H), RecordOperationError>,
    C: FnOnce(&PreparedRecordMutation) -> Option<G>,
    W: FnOnce(&Vec<u8>, &VaultData, &PreparedRecordMutation, G) -> Result<(), StorageError>,
    M: FnOnce(S, PreparedRecordMutation, H) -> (S, Option<T>),

    requires
        mutation_result(
            before,
            after,
            read,
            clock,
            prepare,
            on_conflict,
            last_look,
            apply,
            commit,
            result,
        ),
        result is Ok,
    ensures
        exists|
            data: VaultData,
            now: u64,
            prepared: PreparedRecordMutation,
            handle: H,
            leave: G,
            stored: Result<(), StorageError>,
            kept: S,
        |
            {
                &&& #[trigger] call_ensures(read, (&before.path->Some_0,), Ok(data))
                &&& is_of_the_open_vault(before, data)
                &&& #[trigger] call_ensures(clock, (), Ok(now))
                &&& #[trigger] call_ensures(
                    prepare,
                    (&before.session->Some_0, &data, now),
                    Ok((prepared, handle)),
                )
                &&& #[trigger] call_ensures(last_look, (&prepared,), Some(leave))
                &&& stored is Ok && #[trigger] call_ensures(
                    apply,
                    (&before.path->Some_0, &data, &prepared, leave),
                    stored,
                )
                &&& #[trigger] call_ensures(
                    commit,
                    (before.session->Some_0, prepared, handle),
                    (kept, Some(result->Ok_0)),
                )
                &&& after.session == Some(kept)
                &&& after.authenticated_manifest matches Some(manifest)
                &&& manifest@ == prepared.manifest_envelope@
                &&& after.authenticated_header == before.authenticated_header
            },
{
    let found = choose|found: Result<VaultData, StorageError>| #[trigger]
        call_ensures(read, (&before.path->Some_0,), found) && !(found is Err
            || !before.recognizes(found->Ok_0@)) && exists|time: Result<u64, StorageError>|
            #[trigger] call_ensures(clock, (), time) && time is Ok && mutation_of_snapshot(
                before,
                after,
                found->Ok_0,
                time->Ok_0,
                prepare,
                on_conflict,
                last_look,
                apply,
                commit,
                result,
            );
    let data = found->Ok_0;
    let time = choose|time: Result<u64, StorageError>| #[trigger]
        call_ensures(clock, (), time) && time is Ok && mutation_of_snapshot(
            before,
            after,
            data,
            time->Ok_0,
            prepare,
            on_conflict,
            last_look,
            apply,
            commit,
            result,
        );
    let now = time->Ok_0;
    let core = choose|core: Result<(PreparedRecordMutation, H), RecordOperationError>| #[trigger]
        call_ensures(prepare, (&before.session->Some_0, &data, now), core) && core is Ok
            && exists|looked: Option<G>| #[trigger]
            call_ensures(last_look, (&core->Ok_0.0,), looked) && looked is Some && persist_result(
                before,
                after,
                data,
                core->Ok_0.0,
                core->Ok_0.1,
                looked->Some_0,
                apply,
                commit,
                result,
            );
    let (prepared, handle) = core->Ok_0;
    let looked = choose|looked: Option<G>| #[trigger]
        call_ensures(last_look, (&prepared,), looked) && looked is Some && persist_result(
            before,
            after,
            data,
            prepared,
            handle,
            looked->Some_0,
            apply,
            commit,
            result,
        );
    let leave = looked->Some_0;
    assert(found == Ok::<VaultData, StorageError>(data));
    assert(time == Ok::<u64, StorageError>(now));
    assert(core == Ok::<(PreparedRecordMutation, H), RecordOperationError>((prepared, handle)));
    assert(looked == Some(leave));
    assert(call_ensures(read, (&before.path->Some_0,), Ok(data)));
    assert(call_ensures(clock, (), Ok(now)));
    assert(call_ensures(
        prepare,
        (&before.session->Some_0, &data, now),
        Ok((prepared, handle)),
    ));
    assert(call_ensures(last_look, (&prepared,), Some(leave)));
    let stored = choose|stored: Result<(), StorageError>| #[trigger]
        call_ensures(apply, (&before.path->Some_0, &data, &prepared, leave), stored) && stored is Ok
            && exists|kept: S, value: Option<T>| #[trigger]
            call_ensures(commit, (before.session->Some_0, prepared, handle), (kept, value))
                && value == Some(result->Ok_0) && after.session == Some(kept);
    let (kept, value) = choose|kept: S, value: Option<T>| #[trigger]
        call_ensures(commit, (before.session->Some_0, prepared, handle), (kept, value)) && value
            == Some(result->Ok_0) && after.session == Some(kept);
    assert(stored is Ok);
    assert(call_ensures(
        commit,
        (before.session->Some_0, prepared, handle),
        (kept, Some(result->Ok_0)),
    ));
    assert(after.authenticated_manifest->Some_0@ == prepared.manifest_envelope@);
}

/// A change that nothing stands against succeeds: the vault is open, its rows
/// are its own, the time is known, the core prepares the change, it is still
/// wanted, it is stored, and the core takes it in.
pub proof fn unhindered_changes_succeed<S, T, H, R, K, P, C, G, W, M>(
    before: VaultAgent<S>,
    after: VaultAgent<S>,
    read: R,
    clock: K,
    prepare: P,
    on_conflict: OnConflict,
    last_look: C,
    apply: W,
    commit: M,
    result: Result<T, AccountError>,
) where
    R: FnOnce(&Vec<u8>) -> Result<VaultData, StorageError>,
    K: FnOnce() -> Result<u64, StorageError>,
    P: FnOnce(&S, &VaultData, u64) -> Result<(PreparedRecordMutation, H), RecordOperationError>,
    C: FnOnce(&PreparedRecordMutation) -> Option<G>,
    W: FnOnce(&Vec<u8>, &VaultData, &PreparedRecordMutation, G) -> Result<(), StorageError>,
    M: FnOnce(S, PreparedRecordMutation, H) -> (S, Option<T>),

    requires
        mutation_result(
            before,
            after,
            read,
            clock,
            prepare,
            on_conflict,
            last_look,
            apply,
            commit,
            result,
        ),
        before.session is Some,
        before.path is Some,
        forall|found: Result<VaultData, StorageError>| #[trigger]
            call_ensures(read, (&before.path->Some_0,), found) ==> (found matches Ok(data)
                && is_of_the_open_vault(before, data)),
        forall|time: Result<u64, StorageError>| #[trigger]
            call_ensures(clock, (), time) ==> time is Ok,
        forall|
            data: VaultData,
            now: u64,
            core: Result<(PreparedRecordMutation, H), RecordOperationError>,
        |
            #[trigger] call_ensures(prepare, (&before.session->Some_0, &data, now), core)
                ==> core is Ok,
        forall|prepared: PreparedRecordMutation, looked: Option<G>| #[trigger]
            call_ensures(last_look, (&prepared,), looked) ==> looked is Some,
        forall|
            data: VaultData,
            prepared: PreparedRecordMutation,
            leave: G,
            stored: Result<(), StorageError>,
        |
            #[trigger] call_ensures(
                apply,
                (&before.path->Some_0, &data, &prepared, leave),
                stored,
            ) ==> stored is Ok,
        forall|prepared: PreparedRecordMutation, handle: H, kept: S, value: Option<T>| #[trigger]
            call_ensures(commit, (before.session->Some_0, prepared, handle), (kept, value))
                ==> value is Some,
    ensures
        result is Ok,
        after.session is Some,
{
}

/// A change that the core refuses is reported as what the core says, but where a
/// conflict counts as a failure. It locks the vault where it is a failure, and
/// where it is a conflict that is more than reported.
pub proof fn refusals_say_what_the_core_says(
    error: RecordOperationError,
    on_conflict: OnConflict,
)
    ensures
        change_error(error, on_conflict) == AccountError::NotFound <==> error
            == RecordOperationError::NotFound,
        change_error(error, on_conflict) == AccountError::Aborted <==> error
            == RecordOperationError::Cancelled,
        change_error(error, on_conflict) == AccountError::Conflict <==> error
            == RecordOperationError::Conflict && on_conflict != OnConflict::Fails,
        change_error(error, on_conflict) == AccountError::Failed ==> refusal_locks(
            error,
            on_conflict,
        ),
        refusal_locks(error, on_conflict) ==> change_error(error, on_conflict)
            == AccountError::Failed || on_conflict == OnConflict::Locks,
        refusal_locks(RecordOperationError::Conflict, OnConflict::Locks),
        change_error(error, on_conflict) != AccountError::Locked,
{
}

/// What was made under a permit is released only while the permit stands.
pub proof fn values_are_released_under_their_permit<S, T>(
    vault: VaultAgent<S>,
    permit: OperationPermit,
    value: T,
    released: Result<T, AccountError>,
)
    requires
        call_ensures(VaultAgent::<S>::release::<T>, (&vault, permit, value), released),
    ensures
        released is Ok <==> vault.session is Some && vault.session_id == Some(permit.session())
            && vault.authorization_epoch == permit.epoch(),
        released matches Ok(given) ==> given == value,
        released matches Err(error) ==> error == AccountError::Locked,
{
}

/// A list of credentials restricts a lookup wherever the peer gave one, even an
/// empty one; a caller that names none directly restricts nothing.
pub proof fn lists_restrict_where_they_are_given(
    named: Vec<[u8; 32]>,
    present: bool,
    list: Option<Vec<[u8; 32]>>,
    direct: Option<Vec<[u8; 32]>>,
)
    requires
        call_ensures(assertion_allow_list, (named, present), list),
        call_ensures(direct_allow_list, (named,), direct),
    ensures
        list is Some <==> present,
        list matches Some(given) ==> given@ == named@,
        direct is Some <==> named@.len() > 0,
        direct matches Some(given) ==> given@ == named@,
{
}

/// A read that the core refuses is reported as what the core says, and locks the
/// vault only where the core failed.
pub proof fn refused_reads_say_why<S, T, R, G>(
    before: VaultAgent<S>,
    after: VaultAgent<S>,
    read: R,
    get: G,
    result: Result<T, AccountError>,
    refusal: RecordOperationError,
) where
    R: FnOnce(&Vec<u8>) -> Result<VaultData, StorageError>,
    G: FnOnce(&S, &VaultData) -> Result<T, RecordOperationError>,

    requires
        read_result(before, after, read, get, result),
        before.session is Some,
        before.path is Some,
        forall|found: Result<VaultData, StorageError>| #[trigger]
            call_ensures(read, (&before.path->Some_0,), found) ==> (found matches Ok(data)
                && is_of_the_open_vault(before, data)),
        forall|data: VaultData, core: Result<T, RecordOperationError>| #[trigger]
            call_ensures(get, (&before.session->Some_0, &data), core) ==> core == Err::<
                T,
                RecordOperationError,
            >(refusal),
    ensures
        result is Err,
        after.session is None <==> refusal == RecordOperationError::Failed,
        refusal != RecordOperationError::Failed ==> after == before,
        result == Err::<T, AccountError>(AccountError::NotFound) <==> refusal
            == RecordOperationError::NotFound,
        result == Err::<T, AccountError>(AccountError::Conflict) <==> refusal
            == RecordOperationError::Conflict,
        result == Err::<T, AccountError>(AccountError::Aborted) <==> refusal
            == RecordOperationError::Cancelled,
        result == Err::<T, AccountError>(AccountError::Failed) <==> refusal
            == RecordOperationError::Failed,
{
}

} // verus!
