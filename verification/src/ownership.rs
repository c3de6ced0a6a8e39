//! Which agent of this process owns which vault and which protected state.
//!
//! A file is known by its canonical path and, once it exists, by its identity
//! on its volume. No two agents own files that are the same by either.

use vstd::prelude::*;

use crate::bytes::{copy_bytes, same_bytes};
use crate::errors::{DispatchError, RuntimeStartError};
use crate::idempotency::IdempotencyState;

verus! {

/// What names one existing file among all files of the machine.
#[derive(Clone, Copy, Debug, PartialEq, Eq, Structural)]
pub struct FileIdentity {
    pub volume: u64,
    pub file: u64,
}

/// A file that is owned, which need not exist yet.
pub struct OwnershipRecord {
    pub normalized_path: Vec<u8>,
    pub identity: Option<FileIdentity>,
}

/// What an owned file is known by.
pub struct OwnedFile {
    pub path: Seq<u8>,
    pub identity: Option<FileIdentity>,
}

impl View for OwnershipRecord {
    type V = OwnedFile;

    open spec fn view(&self) -> OwnedFile {
        OwnedFile { path: self.normalized_path@, identity: self.identity }
    }
}

/// Whether two files cannot have different owners.
pub open spec fn files_conflict(left: OwnedFile, right: OwnedFile) -> bool {
    left.path == right.path || (left.identity is Some && left.identity == right.identity)
}

/// Whether two files are one that exists, under one path.
pub open spec fn same_existing_file(left: OwnedFile, right: OwnedFile) -> bool {
    left.path == right.path && left.identity is Some && left.identity == right.identity
}

impl OwnershipRecord {
    pub fn conflicts_with(&self, other: &OwnershipRecord) -> (conflict: bool)
        ensures
            conflict == files_conflict(self@, other@),
    {
        same_bytes(&self.normalized_path, &other.normalized_path) || (self.identity.is_some()
            && self.identity == other.identity)
    }

    pub fn is_same_existing_target(&self, other: &OwnershipRecord) -> (same: bool)
        ensures
            same == same_existing_file(self@, other@),
    {
        same_bytes(&self.normalized_path, &other.normalized_path) && self.identity.is_some()
            && self.identity == other.identity
    }

    fn copy(&self) -> (copy: OwnershipRecord)
        ensures
            copy@ == self@,
    {
        OwnershipRecord {
            normalized_path: copy_bytes(&self.normalized_path),
            identity: self.identity,
        }
    }
}

/// What one agent owns.
pub struct RuntimeOwnership {
    pub token: u64,
    pub vault: OwnershipRecord,
    pub windows_hello_state: Option<OwnershipRecord>,
}

/// What one agent owns, as files.
pub struct OwnedFiles {
    pub vault: OwnedFile,
    pub state: Option<OwnedFile>,
}

impl View for RuntimeOwnership {
    type V = OwnedFiles;

    open spec fn view(&self) -> OwnedFiles {
        OwnedFiles {
            vault: self.vault@,
            state: match self.windows_hello_state {
                Some(state) => Some(state@),
                None => None,
            },
        }
    }
}

impl OwnedFiles {
    /// Whether owning these keeps another agent from owning a file.
    pub open spec fn conflicts(self, file: OwnedFile) -> bool {
        files_conflict(self.vault, file) || (self.state is Some && files_conflict(
            self.state->Some_0,
            file,
        ))
    }

    /// Whether owning these keeps another agent from owning others.
    pub open spec fn conflicts_with_any(self, other: OwnedFiles) -> bool {
        self.conflicts(other.vault) || (other.state is Some && self.conflicts(
            other.state->Some_0,
        ))
    }
}

impl RuntimeOwnership {
    pub fn conflicts_with(&self, record: &OwnershipRecord) -> (conflict: bool)
        ensures
            conflict == self@.conflicts(record@),
    {
        if self.vault.conflicts_with(record) {
            return true;
        }
        match &self.windows_hello_state {
            Some(state) => state.conflicts_with(record),
            None => false,
        }
    }
}

/// The agents of this process and what each owns.
pub struct OwnershipRegistry {
    pub entries: Vec<RuntimeOwnership>,
}

/// Whether an agent stands in a list of owners.
pub open spec fn owns_something(entries: Seq<RuntimeOwnership>, token: u64) -> bool {
    exists|i: int| 0 <= i < entries.len() && #[trigger] entries[i].token == token
}

/// The place of an agent in a list of owners.
pub open spec fn owner_place(entries: Seq<RuntimeOwnership>, token: u64) -> int {
    choose|i: int| 0 <= i < entries.len() && #[trigger] entries[i].token == token
}

impl View for OwnershipRegistry {
    type V = Map<u64, OwnedFiles>;

    open spec fn view(&self) -> Map<u64, OwnedFiles> {
        Map::new(
            |token: u64| owns_something(self.entries@, token),
            |token: u64| self.entries@[owner_place(self.entries@, token)]@,
        )
    }
}

/// Whether no file has two owners.
pub open spec fn exclusively_owned(owners: Map<u64, OwnedFiles>) -> bool {
    forall|one: u64, other: u64|
        #![trigger owners[one], owners[other]]
        owners.dom().contains(one) && owners.dom().contains(other) && one != other
            ==> !owners[one].conflicts_with_any(owners[other])
}

/// Whether an agent other than one keeps it from owning a file.
pub open spec fn owned_by_another(
    owners: Map<u64, OwnedFiles>,
    token: u64,
    file: OwnedFile,
) -> bool {
    exists|other: u64| #[trigger]
        owners.dom().contains(other) && other != token && owners[other].conflicts(file)
}

impl OwnershipRegistry {
    /// Every agent stands in the list once, and no file has two owners.
    pub open spec fn wf(&self) -> bool {
        &&& forall|i: int, j: int|
            0 <= i < self.entries@.len() && 0 <= j < self.entries@.len() && (
            #[trigger] self.entries@[i]).token == (#[trigger] self.entries@[j]).token ==> i == j
        &&& exclusively_owned(self@)
    }

    /// The place of an entry is the place of its token.
    proof fn place_of(&self, i: int)
        requires
            self.wf(),
            0 <= i < self.entries@.len(),
        ensures
            owner_place(self.entries@, self.entries@[i].token) == i,
            self@.dom().contains(self.entries@[i].token),
            self@[self.entries@[i].token] == self.entries@[i]@,
    {
        let token = self.entries@[i].token;
        assert(owns_something(self.entries@, token));
        let place = owner_place(self.entries@, token);
        assert(self.entries@[place].token == token);
    }

    pub fn new() -> (registry: OwnershipRegistry)
        ensures
            registry.wf(),
            registry@ == Map::<u64, OwnedFiles>::empty(),
    {
        let registry = OwnershipRegistry { entries: Vec::new() };
        assert(registry@ =~= Map::<u64, OwnedFiles>::empty());
        registry
    }

    fn find(&self, token: u64) -> (place: Option<usize>)
        requires
            self.wf(),
        ensures
            place is Some <==> self@.dom().contains(token),
            place matches Some(index) ==> index < self.entries@.len()
                && self.entries@[index as int].token == token && self@[token]
                == self.entries@[index as int]@,
    {
        let mut index: usize = 0;
        while index < self.entries.len()
            invariant
                index <= self.entries.len(),
                self.wf(),
                forall|i: int| 0 <= i < index ==> (#[trigger] self.entries@[i]).token != token,
            decreases self.entries.len() - index,
        {
            if self.entries[index].token == token {
                proof {
                    self.place_of(index as int);
                }
                return Some(index);
            }
            index += 1;
        }
        None
    }

    /// Whether an agent other than one keeps it from owning a file.
    fn another_owns(&self, token: u64, record: &OwnershipRecord) -> (owned: bool)
        requires
            self.wf(),
        ensures
            owned == owned_by_another(self@, token, record@),
    {
        let mut index: usize = 0;
        while index < self.entries.len()
            invariant
                index <= self.entries.len(),
                self.wf(),
                forall|i: int|
                    0 <= i < index ==> (#[trigger] self.entries@[i]).token == token
                        || !self.entries@[i]@.conflicts(record@),
            decreases self.entries.len() - index,
        {
            let entry = &self.entries[index];
            if entry.token != token && entry.conflicts_with(record) {
                proof {
                    self.place_of(index as int);
                }
                return true;
            }
            index += 1;
        }
        proof {
            if owned_by_another(self@, token, record@) {
                let other = choose|other: u64| #[trigger]
                    self@.dom().contains(other) && other != token && self@[other].conflicts(
                        record@,
                    );
                let place = owner_place(self.entries@, other);
                assert(self.entries@[place].token == other);
            }
        }
        false
    }

    /// Enters an agent with what it owns, unless any of it has an owner.
    pub fn claim(
        &mut self,
        token: u64,
        vault: OwnershipRecord,
        windows_hello_state: Option<OwnershipRecord>,
    ) -> (claimed: bool)
        requires
            old(self).wf(),
            !old(self)@.dom().contains(token),
        ensures
            final(self).wf(),
            claimed == !(owned_by_another(old(self)@, token, vault@) || (windows_hello_state is Some
                && owned_by_another(old(self)@, token, windows_hello_state->Some_0@))),
            claimed ==> final(self)@ == old(self)@.insert(
                token,
                (RuntimeOwnership { token, vault, windows_hello_state })@,
            ),
            !claimed ==> *final(self) == *old(self),
    {
        if self.another_owns(token, &vault) {
            return false;
        }
        if let Some(state) = &windows_hello_state {
            if self.another_owns(token, state) {
                return false;
            }
        }
        let ghost before = *self;
        let entry = RuntimeOwnership { token, vault, windows_hello_state };
        let ghost added = entry;
        self.entries.push(entry);
        proof {
            let after = self.entries@;
            let n = before.entries@.len() as int;
            assert forall|i: int, j: int|
                0 <= i < after.len() && 0 <= j < after.len() && (#[trigger] after[i]).token == (
                #[trigger] after[j]).token implies i == j by {
                if i < n && j == n {
                    before.place_of(i);
                }
                if j < n && i == n {
                    before.place_of(j);
                }
            }
            self.updated_view(before, n, token, added);
            self.exclusivity_survives(before@, token, added@);
        }
        true
    }

    /// The view after one entry was added or replaced.
    proof fn updated_view(
        &self,
        before: OwnershipRegistry,
        place: int,
        token: u64,
        entry: RuntimeOwnership,
    )
        requires
            forall|i: int, j: int|
                0 <= i < self.entries@.len() && 0 <= j < self.entries@.len() && (
                #[trigger] self.entries@[i]).token == (#[trigger] self.entries@[j]).token ==> i
                    == j,
            forall|i: int, j: int|
                0 <= i < before.entries@.len() && 0 <= j < before.entries@.len() && (
                #[trigger] before.entries@[i]).token == (#[trigger] before.entries@[j]).token ==> i
                    == j,
            entry.token == token,
            0 <= place <= before.entries@.len(),
            place < before.entries@.len() ==> before.entries@[place].token == token
                && self.entries@ == before.entries@.update(place, entry),
            place == before.entries@.len() ==> self.entries@ == before.entries@.push(entry),
        ensures
            self@ == before@.insert(token, entry@),
    {
        let old_entries = before.entries@;
        let new_entries = self.entries@;
        assert(new_entries[place] == entry);
        assert forall|t: u64| owns_something(new_entries, t) <==> (t == token || owns_something(
            old_entries,
            t,
        )) by {
            if owns_something(new_entries, t) {
                let i = owner_place(new_entries, t);
                if i != place {
                    assert(old_entries[i].token == t);
                }
            }
            if owns_something(old_entries, t) {
                let i = owner_place(old_entries, t);
                assert(new_entries[i].token == t);
            }
            if t == token {
                assert(new_entries[place].token == t);
            }
        }
        assert forall|t: u64| owns_something(new_entries, t) implies self@[t] == before@.insert(
            token,
            entry@,
        )[t] by {
            let i = owner_place(new_entries, t);
            assert(new_entries[i].token == t);
            if t == token {
                assert(new_entries[place].token == new_entries[i].token);
            } else {
                assert(i != place);
                assert(old_entries[i].token == t);
                let j = owner_place(old_entries, t);
                assert(old_entries[j].token == old_entries[i].token);
            }
        }
        assert(self@ =~= before@.insert(token, entry@));
    }

    proof fn exclusivity_survives(
        &self,
        before: Map<u64, OwnedFiles>,
        token: u64,
        files: OwnedFiles,
    )
        requires
            exclusively_owned(before),
            self@ == before.insert(token, files),
            !owned_by_another(before, token, files.vault),
            files.state is Some ==> !owned_by_another(before, token, files.state->Some_0),
        ensures
            exclusively_owned(self@),
    {
        assert forall|one: u64, other: u64|
            #![trigger self@[one], self@[other]]
            self@.dom().contains(one) && self@.dom().contains(other) && one != other implies
            !self@[one].conflicts_with_any(self@[other]) by {
            if one == token {
                assert(before.dom().contains(other));
                assert(!before[other].conflicts(files.vault));
            } else if other == token {
                assert(before.dom().contains(one));
                assert(!before[one].conflicts(files.vault));
            } else {
                assert(!before[one].conflicts_with_any(before[other]));
            }
        }
    }

    /// Gives up everything that an agent owns.
    pub fn release(&mut self, token: u64)
        requires
            old(self).wf(),
        ensures
            final(self).wf(),
            final(self)@ == old(self)@.remove(token),
    {
        let ghost before = *self;
        match self.find(token) {
            None => {
                assert(self@ =~= before@.remove(token));
            },
            Some(place) => {
                self.entries.remove(place);
                proof {
                    let p = place as int;
                    let was = before.entries@;
                    let is = self.entries@;
                    assert forall|i: int, j: int|
                        0 <= i < is.len() && 0 <= j < is.len() && (#[trigger] is[i]).token == (
                        #[trigger] is[j]).token implies i == j by {
                        let a = if i < p { i } else { i + 1 };
                        let b = if j < p { j } else { j + 1 };
                        assert(was[a].token == was[b].token);
                    }
                    assert forall|t: u64| owns_something(is, t) <==> (t != token && owns_something(
                        was,
                        t,
                    )) by {
                        if owns_something(is, t) {
                            let j = owner_place(is, t);
                            let i = if j < p { j } else { j + 1 };
                            assert(was[i].token == t);
                            if was[i].token == was[p].token {
                                assert(i == p);
                            }
                        }
                        if owns_something(was, t) && t != token {
                            let i = owner_place(was, t);
                            let j = if i < p { i } else { i - 1 };
                            assert(is[j].token == t);
                        }
                    }
                    assert forall|t: u64| owns_something(is, t) implies self@[t]
                        == before@.remove(token)[t] by {
                        let j = owner_place(is, t);
                        let i = if j < p { j } else { j + 1 };
                        assert(was[i].token == t);
                        let k = owner_place(was, t);
                        assert(was[k].token == was[i].token);
                    }
                    assert(self@ =~= before@.remove(token));
                    assert(exclusively_owned(self@)) by {
                        assert forall|one: u64, other: u64|
                            #![trigger self@[one], self@[other]]
                            self@.dom().contains(one) && self@.dom().contains(other) && one
                                != other implies !self@[one].conflicts_with_any(self@[other]) by {
                            assert(!before@[one].conflicts_with_any(before@[other]));
                        }
                    }
                }
            },
        }
    }

    /// Replaces the vault record of an agent. Nobody else may own the file.
    fn replace_vault(&mut self, place: usize, record: OwnershipRecord)
        requires
            old(self).wf(),
            place < old(self).entries@.len(),
            !owned_by_another(old(self)@, old(self).entries@[place as int].token, record@),
        ensures
            final(self).wf(),
            final(self)@ == old(self)@.insert(
                old(self).entries@[place as int].token,
                (OwnedFiles { vault: record@, ..old(self).entries@[place as int]@ }),
            ),
    {
        let ghost before = *self;
        let ghost token = self.entries@[place as int].token;
        proof {
            self.place_of(place as int);
        }
        let state = match &self.entries[place].windows_hello_state {
            Some(state) => Some(state.copy()),
            None => None,
        };
        let token_value: u64 = self.entries[place].token;
        let entry = RuntimeOwnership {
            token: token_value,
            vault: record,
            windows_hello_state: state,
        };
        let ghost replaced = entry;
        self.entries.set(place, entry);
        proof {
            assert(replaced@.vault == record@);
            assert(replaced@.state == before.entries@[place as int]@.state);
            self.updated_view(before, place as int, token, replaced);
            if replaced@.state is Some {
                assert forall|other: u64| #[trigger]
                    before@.dom().contains(other) && other != token implies !before@[other].conflicts(
                    replaced@.state->Some_0,
                ) by {
                    assert(!before@[other].conflicts_with_any(before@[token]));
                }
            }
            self.exclusivity_survives(before@, token, replaced@);
        }
    }

    /// Replaces the state record of an agent. Nobody else may own the file.
    fn replace_state(&mut self, place: usize, record: OwnershipRecord)
        requires
            old(self).wf(),
            place < old(self).entries@.len(),
            !owned_by_another(old(self)@, old(self).entries@[place as int].token, record@),
        ensures
            final(self).wf(),
            final(self)@ == old(self)@.insert(
                old(self).entries@[place as int].token,
                (OwnedFiles { state: Some(record@), ..old(self).entries@[place as int]@ }),
            ),
    {
        let ghost before = *self;
        let ghost token = self.entries@[place as int].token;
        proof {
            self.place_of(place as int);
        }
        let vault = self.entries[place].vault.copy();
        let token_value: u64 = self.entries[place].token;
        let entry = RuntimeOwnership {
            token: token_value,
            vault,
            windows_hello_state: Some(record),
        };
        let ghost replaced = entry;
        self.entries.set(place, entry);
        proof {
            assert(replaced@.state == Some(record@));
            assert(replaced@.vault == before.entries@[place as int]@.vault);
            self.updated_view(before, place as int, token, replaced);
            assert forall|other: u64| #[trigger]
                before@.dom().contains(other) && other != token implies !before@[other].conflicts(
                replaced@.vault,
            ) by {
                assert(!before@[other].conflicts_with_any(before@[token]));
            }
            self.exclusivity_survives(before@, token, replaced@);
        }
    }
}

/// The hold that one agent has on the registry.
#[derive(Clone, Copy, Debug, PartialEq, Eq, Structural)]
pub struct OwnershipLease {
    pub token: u64,
}

impl OwnershipLease {
    /// Binds the lease to the vault file, which exists now.
    pub fn bind_existing(
        &self,
        registry: &mut OwnershipRegistry,
        observed: Result<OwnershipRecord, RuntimeStartError>,
    ) -> (bound: Result<(), DispatchError>)
        requires
            old(registry).wf(),
        ensures
            final(registry).wf(),
            bound is Ok <==> {
                &&& observed is Ok
                &&& observed->Ok_0@.identity is Some
                &&& !owned_by_another(old(registry)@, self.token, observed->Ok_0@)
                &&& old(registry)@.dom().contains(self.token)
                &&& old(registry)@[self.token].vault.path == observed->Ok_0@.path
            },
            bound is Ok ==> final(registry)@ == old(registry)@.insert(
                self.token,
                (OwnedFiles { vault: observed->Ok_0@, ..old(registry)@[self.token] }),
            ),
            bound is Err ==> bound == Err::<(), DispatchError>(DispatchError::Internal)
                && *final(registry) == *old(registry),
    {
        let record = match observed {
            Ok(record) => record,
            Err(_) => {
                return Err(DispatchError::Internal);
            },
        };
        if record.identity.is_none() || registry.another_owns(self.token, &record) {
            return Err(DispatchError::Internal);
        }
        let place: usize = match registry.find(self.token) {
            Some(place) => place,
            None => {
                return Err(DispatchError::Internal);
            },
        };
        if !same_bytes(&registry.entries[place].vault.normalized_path, &record.normalized_path) {
            return Err(DispatchError::Internal);
        }
        registry.replace_vault(place, record);
        Ok(())
    }

    /// Binds the lease to the protected state file as it is now.
    pub fn bind_windows_hello_state(
        &self,
        registry: &mut OwnershipRegistry,
        observed: Result<OwnershipRecord, RuntimeStartError>,
    ) -> (bound: Result<(), DispatchError>)
        requires
            old(registry).wf(),
        ensures
            final(registry).wf(),
            bound is Ok <==> {
                &&& observed is Ok
                &&& !owned_by_another(old(registry)@, self.token, observed->Ok_0@)
                &&& old(registry)@.dom().contains(self.token)
                &&& !files_conflict(old(registry)@[self.token].vault, observed->Ok_0@)
                &&& old(registry)@[self.token].state is Some
                &&& old(registry)@[self.token].state->Some_0.path == observed->Ok_0@.path
            },
            bound is Ok ==> final(registry)@ == old(registry)@.insert(
                self.token,
                (OwnedFiles { state: Some(observed->Ok_0@), ..old(registry)@[self.token] }),
            ),
            bound is Err ==> bound == Err::<(), DispatchError>(DispatchError::Internal)
                && *final(registry) == *old(registry),
    {
        let record = match observed {
            Ok(record) => record,
            Err(_) => {
                return Err(DispatchError::Internal);
            },
        };
        if registry.another_owns(self.token, &record) {
            return Err(DispatchError::Internal);
        }
        let place: usize = match registry.find(self.token) {
            Some(place) => place,
            None => {
                return Err(DispatchError::Internal);
            },
        };
        if registry.entries[place].vault.conflicts_with(&record) {
            return Err(DispatchError::Internal);
        }
        let same_path = match &registry.entries[place].windows_hello_state {
            Some(state) => same_bytes(&state.normalized_path, &record.normalized_path),
            None => false,
        };
        if !same_path {
            return Err(DispatchError::Internal);
        }
        registry.replace_state(place, record);
        Ok(())
    }

    /// Whether the lease may be bound to the vault file that was authenticated.
    pub open spec fn may_bind_authenticated(
        &self,
        owners: Map<u64, OwnedFiles>,
        authenticated: OwnedFile,
        current: Result<OwnershipRecord, RuntimeStartError>,
    ) -> bool {
        &&& current is Ok
        &&& same_existing_file(authenticated, current->Ok_0@)
        &&& !owned_by_another(owners, self.token, current->Ok_0@)
        &&& owners.dom().contains(self.token)
        &&& owners[self.token].vault.path == current->Ok_0@.path
    }

    /// Binds the lease to the vault file that was authenticated, if it is
    /// still the one that the path names, and the kept results to its vault.
    pub fn bind_authenticated(
        &self,
        registry: &mut OwnershipRegistry,
        authenticated: &OwnershipRecord,
        current: Result<OwnershipRecord, RuntimeStartError>,
        idempotency: &mut IdempotencyState,
        vault_id: [u8; 16],
    ) -> (bound: Result<(), DispatchError>)
        requires
            old(registry).wf(),
            old(idempotency).wf(),
        ensures
            final(registry).wf(),
            final(idempotency).wf(),
            bound is Ok <==> {
                &&& self.may_bind_authenticated(old(registry)@, authenticated@, current)
                &&& old(idempotency)@.vault_id == Some(vault_id) || old(
                    idempotency,
                )@.in_flight.len() == 0
            },
            bound is Ok ==> {
                &&& final(registry)@ == old(registry)@.insert(
                    self.token,
                    (OwnedFiles { vault: current->Ok_0@, ..old(registry)@[self.token] }),
                )
                &&& final(idempotency)@ == (if old(idempotency)@.vault_id == Some(vault_id) {
                    old(idempotency)@
                } else {
                    old(idempotency)@.of_vault(vault_id)
                })
            },
            bound is Err ==> {
                &&& bound == Err::<(), DispatchError>(DispatchError::Internal)
                &&& *final(registry) == *old(registry)
                &&& final(idempotency)@ == old(idempotency)@
            },
    {
        let record = match current {
            Ok(record) => record,
            Err(_) => {
                return Err(DispatchError::Internal);
            },
        };
        if !authenticated.is_same_existing_target(&record) {
            return Err(DispatchError::Internal);
        }
        if registry.another_owns(self.token, &record) {
            return Err(DispatchError::Internal);
        }
        let place: usize = match registry.find(self.token) {
            Some(place) => place,
            None => {
                return Err(DispatchError::Internal);
            },
        };
        if !same_bytes(&registry.entries[place].vault.normalized_path, &record.normalized_path) {
            return Err(DispatchError::Internal);
        }
        match idempotency.bind_authenticated_idempotency_vault(vault_id) {
            Ok(()) => {},
            Err(error) => {
                return Err(error);
            },
        }
        registry.replace_vault(place, record);
        Ok(())
    }
}

/// Takes the next token. None is given out twice.
pub fn next_ownership_token(next: &mut u64) -> (token: Result<u64, RuntimeStartError>)
    ensures
        *old(next) < u64::MAX ==> token == Ok::<u64, RuntimeStartError>(*old(next))
            && *final(next) == *old(next) + 1,
        *old(next) == u64::MAX ==> token == Err::<u64, RuntimeStartError>(
            RuntimeStartError::Internal,
        ) && *final(next) == *old(next),
{
    match next.checked_add(1) {
        Some(following) => {
            let token: u64 = *next;
            *next = following;
            Ok(token)
        },
        None => Err(RuntimeStartError::Internal),
    }
}

// Observing a path

/// Whether the platform tells names apart by the case of their letters.
#[derive(Clone, Copy, Debug, PartialEq, Eq, Structural)]
pub enum NameCase {
    Distinguished,
    Ignored,
}

/// A path as the platform gives it: its bytes and, if it has one, its text.
pub struct PlatformPath {
    pub bytes: Vec<u8>,
    pub text: Option<String>,
}

/// A text with its letters in lower case.
pub uninterp spec fn lowercased(text: Seq<char>) -> Seq<char>;

/// Calls `str::to_lowercase`. The result depends on the text alone.
#[verifier::external_body]
fn to_lowercase(text: &str) -> (lower: String)
    ensures
        lower@ == lowercased(text@),
{
    text.to_lowercase()
}

/// The form of a path in which equal names of the platform are equal bytes.
pub fn normalize_ownership_path(
    path: PlatformPath,
    name_case: NameCase,
) -> (normalized: Result<Vec<u8>, RuntimeStartError>)
    ensures
        name_case is Distinguished ==> normalized == Ok::<Vec<u8>, RuntimeStartError>(path.bytes),
        name_case is Ignored && path.text is None ==> normalized == Err::<
            Vec<u8>,
            RuntimeStartError,
        >(RuntimeStartError::InvalidVaultPath),
        name_case is Ignored && path.text is Some ==> normalized is Ok && normalized->Ok_0@
            == vstd::utf8::encode_utf8(lowercased(path.text->Some_0@)),
{
    match name_case {
        NameCase::Distinguished => Ok(path.bytes),
        NameCase::Ignored => match path.text {
            Some(text) => {
                let lower = to_lowercase(text.as_str());
                Ok(normalized_text(lower.as_str()))
            },
            None => Err(RuntimeStartError::InvalidVaultPath),
        },
    }
}

/// The bytes of a text that is already in lower case.
pub fn normalized_text(lower: &str) -> (bytes: Vec<u8>)
    ensures
        bytes@ == vstd::utf8::encode_utf8(lower@),
{
    copy_bytes(lower.as_bytes())
}

/// What looking at a path gave. What could not be found out is none.
pub enum PathObservation {
    /// Something is there, redirections being followed.
    Exists {
        is_file: bool,
        canonical: Option<PlatformPath>,
        identity: Option<FileIdentity>,
    },
    /// Nothing is there. `link_is_there` says whether a redirection to nothing
    /// is; `below_canonical_parent` is the name below its canonical directory.
    NotFound { link_is_there: bool, below_canonical_parent: Option<PlatformPath> },
    Failed,
}

/// What a path is owned by. It must name a regular file, or nothing at all in
/// a directory that can be found.
pub fn ownership_record(
    observation: PathObservation,
    name_case: NameCase,
) -> (record: Result<OwnershipRecord, RuntimeStartError>)
    ensures
        record is Err ==> record == Err::<OwnershipRecord, RuntimeStartError>(
            RuntimeStartError::InvalidVaultPath,
        ),
        match observation {
            PathObservation::Exists { is_file, canonical, identity } => {
                &&& record is Ok <==> is_file && canonical is Some && identity is Some && (
                name_case is Ignored ==> canonical->Some_0.text is Some)
                &&& record matches Ok(found) ==> found.identity == identity
                    && found.normalized_path@ == normal_form(canonical->Some_0, name_case)
            },
            PathObservation::NotFound { link_is_there, below_canonical_parent } => {
                &&& record is Ok <==> !link_is_there && below_canonical_parent is Some && (
                name_case is Ignored ==> below_canonical_parent->Some_0.text is Some)
                &&& record matches Ok(found) ==> found.identity is None && found.normalized_path@
                    == normal_form(below_canonical_parent->Some_0, name_case)
            },
            PathObservation::Failed => record is Err,
        },
{
    match observation {
        PathObservation::Exists { is_file, canonical, identity } => {
            if !is_file {
                return Err(RuntimeStartError::InvalidVaultPath);
            }
            let canonical = match canonical {
                Some(canonical) => canonical,
                None => {
                    return Err(RuntimeStartError::InvalidVaultPath);
                },
            };
            let normalized_path = match normalize_ownership_path(canonical, name_case) {
                Ok(path) => path,
                Err(error) => {
                    return Err(error);
                },
            };
            match identity {
                Some(identity) => Ok(
                    OwnershipRecord { normalized_path, identity: Some(identity) },
                ),
                None => Err(RuntimeStartError::InvalidVaultPath),
            }
        },
        PathObservation::NotFound { link_is_there, below_canonical_parent } => {
            if link_is_there {
                return Err(RuntimeStartError::InvalidVaultPath);
            }
            match below_canonical_parent {
                Some(path) => match normalize_ownership_path(path, name_case) {
                    Ok(normalized_path) => Ok(OwnershipRecord { normalized_path, identity: None }),
                    Err(error) => Err(error),
                },
                None => Err(RuntimeStartError::InvalidVaultPath),
            }
        },
        PathObservation::Failed => Err(RuntimeStartError::InvalidVaultPath),
    }
}

/// The bytes that a path is owned by.
pub open spec fn normal_form(path: PlatformPath, name_case: NameCase) -> Seq<u8> {
    match name_case {
        NameCase::Distinguished => path.bytes@,
        NameCase::Ignored => vstd::utf8::encode_utf8(lowercased(path.text->Some_0@)),
    }
}

// Laws

/// No two agents of a process own the same file, whether it is known by its
/// path or by its identity, and whether it is a vault or a protected state.
pub proof fn no_file_has_two_owners(registry: OwnershipRegistry, one: u64, other: u64)
    requires
        registry.wf(),
        registry@.dom().contains(one),
        registry@.dom().contains(other),
        one != other,
    ensures
        !files_conflict(registry@[one].vault, registry@[other].vault),
        registry@[one].state is Some ==> !files_conflict(
            registry@[one].state->Some_0,
            registry@[other].vault,
        ),
        registry@[one].state is Some && registry@[other].state is Some ==> !files_conflict(
            registry@[one].state->Some_0,
            registry@[other].state->Some_0,
        ),
{
    assert(!registry@[one].conflicts_with_any(registry@[other]));
}

/// Two files cannot have different owners where they have one path, or where
/// both exist and are one file; the question has the same answer from either
/// side, and a file that does not exist yet is told apart by its path alone.
pub proof fn files_conflict_by_path_or_identity(
    one: &OwnershipRecord,
    other: &OwnershipRecord,
    conflict: bool,
    reverse: bool,
)
    requires
        call_ensures(OwnershipRecord::conflicts_with, (one, other), conflict),
        call_ensures(OwnershipRecord::conflicts_with, (other, one), reverse),
    ensures
        conflict == reverse,
        one.normalized_path@ == other.normalized_path@ ==> conflict,
        one.identity is Some && one.identity == other.identity ==> conflict,
        one.normalized_path@ != other.normalized_path@ && one.identity != other.identity
            ==> !conflict,
        one.normalized_path@ != other.normalized_path@ && one.identity is None ==> !conflict,
{
}

/// Two records stand for one existing file where neither the path nor the file
/// behind it changed between them, and never for a file that does not exist.
pub proof fn files_stay_the_same_by_path_and_identity(
    one: &OwnershipRecord,
    other: &OwnershipRecord,
    same: bool,
)
    requires
        call_ensures(OwnershipRecord::is_same_existing_target, (one, other), same),
    ensures
        same <==> one@ == other@ && one.identity is Some,
{
}

/// A path can be owned where it names a regular file that can be told from every
/// other, or nothing yet, in a directory that can be found; a link that leads
/// nowhere, and whatever cannot be looked at, cannot.
pub proof fn owned_paths_are_files_or_free(
    observation: PathObservation,
    record: Result<OwnershipRecord, RuntimeStartError>,
)
    requires
        call_ensures(ownership_record, (observation, NameCase::Distinguished), record),
    ensures
        record is Ok <==> match observation {
            PathObservation::Exists { is_file, canonical, identity } => is_file && canonical is Some
                && identity is Some,
            PathObservation::NotFound { link_is_there, below_canonical_parent } => !link_is_there
                && below_canonical_parent is Some,
            PathObservation::Failed => false,
        },
        record matches Ok(found) ==> match observation {
            PathObservation::Exists { canonical, identity, .. } => found@.identity == identity
                && found@.path == canonical->Some_0.bytes@,
            PathObservation::NotFound { below_canonical_parent, .. } => found@.identity is None
                && found@.path == below_canonical_parent->Some_0.bytes@,
            PathObservation::Failed => false,
        },
{
}

/// Where the platform tells names apart by case, so does the agent; where it
/// does not, paths that differ in case alone are one, and a path that is no text
/// cannot be owned.
pub proof fn paths_are_one_where_the_platform_says_so(
    one: PlatformPath,
    other: PlatformPath,
    name_case: NameCase,
    left: Result<Vec<u8>, RuntimeStartError>,
    right: Result<Vec<u8>, RuntimeStartError>,
)
    requires
        call_ensures(normalize_ownership_path, (one, name_case), left),
        call_ensures(normalize_ownership_path, (other, name_case), right),
    ensures
        name_case is Distinguished ==> left is Ok && right is Ok && (left->Ok_0@ == right->Ok_0@
            <==> one.bytes@ == other.bytes@),
        name_case is Ignored ==> (left is Ok <==> one.text is Some),
        name_case is Ignored && one.text is Some && other.text is Some && lowercased(
            one.text->Some_0@,
        ) == lowercased(other.text->Some_0@) ==> left->Ok_0@ == right->Ok_0@,
{
}

/// What an agent owns keeps others from a file where its vault or its protected
/// state has the file's path or is the file.
pub proof fn owners_keep_both_their_files(
    owner: RuntimeOwnership,
    record: OwnershipRecord,
    conflict: bool,
)
    requires
        call_ensures(RuntimeOwnership::conflicts_with, (&owner, &record), conflict),
    ensures
        owner.vault@.path == record@.path ==> conflict,
        owner.vault@.identity is Some && owner.vault@.identity == record@.identity ==> conflict,
        owner.windows_hello_state matches Some(state) ==> {
            &&& state@.path == record@.path ==> conflict
            &&& state@.identity is Some && state@.identity == record@.identity ==> conflict
        },
        conflict ==> {
            ||| owner.vault@.path == record@.path
            ||| owner.vault@.identity is Some && owner.vault@.identity == record@.identity
            ||| owner.windows_hello_state is Some && (owner.windows_hello_state->Some_0@.path
                == record@.path || owner.windows_hello_state->Some_0@.identity is Some
                && owner.windows_hello_state->Some_0@.identity == record@.identity)
        },
{
}

} // verus!
