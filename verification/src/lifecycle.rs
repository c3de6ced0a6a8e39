//! Lifecycle of one vault: locked, unlocked, and the permits in between.

use vstd::prelude::*;

use crate::bytes::same_array;
use crate::errors::StorageError;

verus! {

/// A snapshot of the authority under which one operation was begun. It holds
/// no secret, and only `VaultAgent::begin_operation` makes one.
#[derive(Clone, Copy, Debug, PartialEq, Eq, Structural)]
pub struct OperationPermit {
    session_id: u64,
    authorization_epoch: u64,
}

impl OperationPermit {
    /// The session that issued the permit.
    pub closed spec fn session(&self) -> u64 {
        self.session_id
    }

    /// The epoch in which the permit was issued.
    pub closed spec fn epoch(&self) -> u64 {
        self.authorization_epoch
    }
}

/// The cryptographic vault that an unlocked session belongs to.
#[derive(Clone, Copy)]
pub struct VaultBinding {
    pub vault_id: [u8; 16],
    pub key_epoch: u32,
}

impl VaultBinding {
    pub fn same(&self, other: &VaultBinding) -> (same: bool)
        ensures
            same == (*self == *other),
            same == (self.key_epoch == other.key_epoch && self.vault_id@ == other.vault_id@),
    {
        self.key_epoch == other.key_epoch && same_array(&self.vault_id, &other.vault_id)
    }
}

/// One local vault and the session that has it unlocked, if any. `S` is the
/// unlocked session of the vault's cryptographic core.
pub struct VaultAgent<S> {
    pub path: Option<Vec<u8>>,
    pub session: Option<S>,
    pub binding: Option<VaultBinding>,
    pub authenticated_header: Option<Vec<u8>>,
    pub authenticated_manifest: Option<Vec<u8>>,
    pub session_id: Option<u64>,
    pub authorization_epoch: u64,
}

/// The epoch that follows. The last one has no successor.
pub open spec fn next_epoch(epoch: u64) -> u64 {
    if epoch < u64::MAX {
        (epoch + 1) as u64
    } else {
        epoch
    }
}

impl<S> VaultAgent<S> {
    /// A session is there together with all that was authenticated for it, and
    /// belongs to a vault at a path.
    pub open spec fn wf(&self) -> bool {
        &&& self.session is Some ==> self.path is Some
        &&& self.session is Some <==> self.session_id is Some
        &&& self.session is Some <==> self.binding is Some
        &&& self.session is Some <==> self.authenticated_header is Some
        &&& self.session is Some <==> self.authenticated_manifest is Some
    }

    /// Whether this is `before` with its session and everything that was
    /// authenticated for it gone, and a new epoch begun.
    pub open spec fn is_locked_form_of(&self, before: &VaultAgent<S>) -> bool {
        &&& self.path == before.path
        &&& self.session is None
        &&& self.binding is None
        &&& self.authenticated_header is None
        &&& self.authenticated_manifest is None
        &&& self.session_id is None
        &&& self.authorization_epoch == next_epoch(before.authorization_epoch)
    }

    /// Whether a permit still stands for the session that is open now.
    pub open spec fn authorizes(&self, permit: OperationPermit) -> bool {
        &&& self.session is Some
        &&& self.session_id == Some(permit.session())
        &&& self.authorization_epoch == permit.epoch()
    }

    /// A vault that was just created, unlocked by the session that created it.
    pub fn create(
        path: Vec<u8>,
        session: S,
        binding: VaultBinding,
        header: Vec<u8>,
        manifest: Vec<u8>,
        session_id: u64,
    ) -> (agent: VaultAgent<S>)
        ensures
            agent.wf(),
            agent.path == Some(path),
            agent.session == Some(session),
            agent.binding == Some(binding),
            agent.authenticated_header == Some(header),
            agent.authenticated_manifest == Some(manifest),
            agent.session_id == Some(session_id),
            agent.authorization_epoch == 1,
    {
        VaultAgent {
            path: Some(path),
            session: Some(session),
            binding: Some(binding),
            authenticated_header: Some(header),
            authenticated_manifest: Some(manifest),
            session_id: Some(session_id),
            authorization_epoch: 1,
        }
    }

    /// A locked handle of the vault at a path. Nothing is read. Without a path
    /// the handle never unlocks.
    pub fn open_locked(path: Option<Vec<u8>>) -> (agent: VaultAgent<S>)
        ensures
            agent.wf(),
            agent.path == path,
            agent.session is None,
            agent.authorization_epoch == 0,
    {
        VaultAgent {
            path,
            session: None,
            binding: None,
            authenticated_header: None,
            authenticated_manifest: None,
            session_id: None,
            authorization_epoch: 0,
        }
    }

    pub fn is_unlocked(&self) -> (unlocked: bool)
        ensures
            unlocked == (self.session is Some),
    {
        self.session.is_some()
    }

    /// The path that the handle was bound to when it was made.
    pub fn bound_path(&self) -> (path: Option<&Vec<u8>>)
        ensures
            path is Some <==> self.path is Some,
            path matches Some(bound) ==> *bound == self.path->Some_0,
    {
        self.path.as_ref()
    }

    /// Drops the session and everything that was authenticated for it. Every
    /// permit issued before stands for nothing any more.
    pub fn lock(&mut self)
        ensures
            final(self).wf(),
            final(self).is_locked_form_of(old(self)),
    {
        self.session = None;
        self.binding = None;
        self.authenticated_header = None;
        self.authenticated_manifest = None;
        self.session_id = None;
        let _ = self.advance_authorization_epoch();
    }

    /// The authority to begin one operation, where a session is open.
    pub fn begin_operation(&self) -> (permit: Option<OperationPermit>)
        requires
            self.wf(),
        ensures
            permit is Some <==> self.session is Some,
            permit matches Some(issued) ==> self.authorizes(issued),
    {
        match (self.session.is_some(), self.session_id) {
            (true, Some(session_id)) => Some(
                OperationPermit { session_id, authorization_epoch: self.authorization_epoch },
            ),
            _ => None,
        }
    }

    /// Whether a permit still stands for the session that is open now.
    pub fn operation_is_authorized(&self, permit: OperationPermit) -> (authorized: bool)
        ensures
            authorized == self.authorizes(permit),
    {
        match self.session_id {
            Some(session_id) => self.session.is_some() && session_id == permit.session_id
                && self.authorization_epoch == permit.authorization_epoch,
            None => false,
        }
    }

    /// The vault that the open session belongs to.
    pub fn authenticated_vault_binding(&self) -> (binding: Option<VaultBinding>)
        ensures
            binding == self.binding,
    {
        self.binding
    }

    /// The name of the vault that the open session belongs to.
    pub fn authenticated_vault_id(&self) -> (vault_id: Option<[u8; 16]>)
        ensures
            vault_id is Some <==> self.binding is Some,
            vault_id matches Some(id) ==> id == self.binding->Some_0.vault_id,
    {
        match self.binding {
            Some(binding) => Some(binding.vault_id),
            None => None,
        }
    }

    /// Begins the next epoch, if there is one.
    pub(crate) fn advance_authorization_epoch(&mut self) -> (advanced: bool)
        ensures
            advanced == (old(self).authorization_epoch < u64::MAX),
            final(self).authorization_epoch == next_epoch(old(self).authorization_epoch),
            final(self).path == old(self).path,
            final(self).session == old(self).session,
            final(self).binding == old(self).binding,
            final(self).authenticated_header == old(self).authenticated_header,
            final(self).authenticated_manifest == old(self).authenticated_manifest,
            final(self).session_id == old(self).session_id,
    {
        match self.authorization_epoch.checked_add(1) {
            Some(next) => {
                self.authorization_epoch = next;
                true
            },
            None => false,
        }
    }
}

/// Takes the next session number. None is given out twice.
pub fn next_session_id(next: &mut u64) -> (taken: Option<u64>)
    ensures
        *old(next) < u64::MAX ==> taken == Some(*old(next)) && *final(next) == *old(next) + 1,
        *old(next) == u64::MAX ==> taken is None && *final(next) == *old(next),
{
    match next.checked_add(1) {
        Some(following) => {
            let taken: u64 = *next;
            *next = following;
            Some(taken)
        },
        None => None,
    }
}

/// Milliseconds since the start of 1970, from the time that passed since then,
/// or none where the clock stands before it.
pub fn unix_time_ms(elapsed_ms: Option<u128>) -> (time: Result<u64, StorageError>)
    ensures
        match elapsed_ms {
            Some(elapsed) => if elapsed <= u64::MAX {
                time is Ok && time->Ok_0 == elapsed
            } else {
                time == Err::<u64, StorageError>(StorageError::Clock)
            },
            None => time == Err::<u64, StorageError>(StorageError::Clock),
        },
{
    match elapsed_ms {
        Some(elapsed) => if elapsed <= u64::MAX as u128 {
            Ok(elapsed as u64)
        } else {
            Err(StorageError::Clock)
        },
        None => Err(StorageError::Clock),
    }
}

/// The absolute path that a vault is bound to: the given one where it is
/// absolute, else the given one below the working directory.
pub fn bind_vault_path(
    path: Vec<u8>,
    is_absolute: bool,
    below_working_directory: Option<Vec<u8>>,
) -> (bound: Option<Vec<u8>>)
    ensures
        bound == (if is_absolute { Some(path) } else { below_working_directory }),
{
    if is_absolute {
        Some(path)
    } else {
        below_working_directory
    }
}

// Laws

/// Locking voids every permit, also where the epoch can advance no further.
pub proof fn locking_voids_permits<S>(
    before: VaultAgent<S>,
    after: VaultAgent<S>,
    permit: OperationPermit,
)
    requires
        after.is_locked_form_of(&before),
    ensures
        !after.authorizes(permit),
{
}

/// A permit stands for nothing in any other session than the one that issued
/// it, whatever the epochs of the two are.
pub proof fn permits_belong_to_one_session<S>(
    issuer: VaultAgent<S>,
    other: VaultAgent<S>,
    permit: OperationPermit,
)
    requires
        issuer.authorizes(permit),
        other.session_id != issuer.session_id,
    ensures
        !other.authorizes(permit),
{
}

/// A permit stands for nothing in any later epoch than the one in which it was
/// issued.
pub proof fn permits_belong_to_one_epoch<S>(
    issuer: VaultAgent<S>,
    later: VaultAgent<S>,
    permit: OperationPermit,
)
    requires
        issuer.authorizes(permit),
        later.authorization_epoch > issuer.authorization_epoch,
    ensures
        !later.authorizes(permit),
{
}

/// A permit that was just issued stands, and goes on standing for every later
/// form of the handle in which the same session is open in the same epoch.
pub proof fn permits_stand_until_something_ends<S>(
    vault: VaultAgent<S>,
    later: VaultAgent<S>,
    issued: Option<OperationPermit>,
    stands: bool,
)
    requires
        call_ensures(VaultAgent::<S>::begin_operation, (&vault,), issued),
        issued is Some,
        call_ensures(
            VaultAgent::<S>::operation_is_authorized,
            (&later, issued->Some_0),
            stands,
        ),
    ensures
        vault.session is Some,
        stands <==> later.session is Some && later.session_id == vault.session_id
            && later.authorization_epoch == vault.authorization_epoch,
{
}

/// A handle without a session gives out no authority, and one with a session
/// does.
pub proof fn open_vaults_give_permits<S>(vault: VaultAgent<S>, issued: Option<OperationPermit>)
    requires
        call_ensures(VaultAgent::<S>::begin_operation, (&vault,), issued),
    ensures
        issued is Some <==> vault.session is Some,
{
}

/// A moment is a time exactly where it lies after the beginning of the count and
/// fits.
pub proof fn moments_that_fit_are_times(elapsed_ms: Option<u128>, time: Result<u64, StorageError>)
    requires
        call_ensures(unix_time_ms, (elapsed_ms,), time),
    ensures
        time is Ok <==> elapsed_ms is Some && elapsed_ms->Some_0 <= u64::MAX,
        time matches Ok(moment) ==> Some(moment as u128) == elapsed_ms,
        time matches Err(error) ==> error == StorageError::Clock,
{
}

} // verus!
