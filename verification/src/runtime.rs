//! The agent of one vault: its state, its epoch, its running requests and what
//! it keeps between them.
//!
//! The open vault itself is guarded apart from all this, since opening it and
//! working on it take long. Functions that need both take both.

use vstd::prelude::*;

use crate::coordinator::{Coordinator, RequestKey};
use crate::errors::{
    ConnectionError, DispatchError, RuntimeStartError, WindowsHelloStateError,
};
use crate::filesystem::NameProbe;
use crate::hello_store::WindowsHelloStateStore;
use crate::idempotency::IdempotencyState;
use crate::lifecycle::VaultAgent;
use crate::outcome::Verdict;
use crate::ownership::{
    next_ownership_token, OwnedFiles, OwnershipLease, OwnershipRecord, OwnershipRegistry,
};
use crate::passkeys::{PendingPasskeyCreationKey, PendingPasskeyCreations};
use crate::permits::FlagPermit;
use crate::protocol::AgentState;
use crate::random::idempotency_fingerprint_key;
use crate::secrets::wipe_array;
use crate::signals::Signals;

verus! {

/// What an agent is started with, as the platform sees it.
pub struct StartRequest {
    pub vault_path: Vec<u8>,
    pub vault_path_is_absolute: bool,
    pub has_prompt: bool,
    pub has_prompt_state: bool,
    /// The vault file as a thing to be owned.
    pub vault_record: Result<OwnershipRecord, RuntimeStartError>,
    /// The file of the protected state as a thing to be owned, where the
    /// agent keeps one.
    pub state_record: Option<Result<OwnershipRecord, RuntimeStartError>>,
    /// What stands at the vault path.
    pub presence: NameProbe,
}

/// The sole owner of one vault in this process.
pub struct AgentRuntime {
    pub vault_path: Vec<u8>,
    pub state: AgentState,
    pub coordinator: Coordinator,
    pub idempotency: IdempotencyState,
    pub pending_passkey_creations: PendingPasskeyCreations,
    pub idempotency_fingerprint_key: [u8; 32],
    pub windows_hello_configured: bool,
    pub windows_hello_active: bool,
    pub ownership: OwnershipLease,
}

/// What a shutdown waits for.
#[derive(Clone, Copy, Debug, PartialEq, Eq, Structural)]
pub enum ShutdownStep {
    /// That nothing creates the vault any more.
    Creation,
    /// That nothing prompts for it any more.
    Prompt,
    /// The vault itself.
    Vault,
}

/// What a shutdown has waited for.
#[derive(Clone, Copy, Debug, PartialEq, Eq, Structural)]
pub enum ShutdownEvent {
    /// Nothing creates the vault, and nothing will until the shutdown is over.
    CreationEnded,
    /// Nothing prompts for the vault, and nothing will until the shutdown is over.
    PromptEnded,
}

/// What a shutdown waits for after an event. One that it does not wait for
/// changes nothing.
pub open spec fn next_shutdown_step(step: ShutdownStep, event: ShutdownEvent) -> ShutdownStep {
    match (step, event) {
        (ShutdownStep::Creation, ShutdownEvent::CreationEnded) => ShutdownStep::Prompt,
        (ShutdownStep::Prompt, ShutdownEvent::PromptEnded) => ShutdownStep::Vault,
        _ => step,
    }
}

/// Goes on with a shutdown that has waited for something.
pub fn shutdown_waited(step: ShutdownStep, event: ShutdownEvent) -> (next: ShutdownStep)
    ensures
        next == next_shutdown_step(step, event),
{
    match (step, event) {
        (ShutdownStep::Creation, ShutdownEvent::CreationEnded) => ShutdownStep::Prompt,
        (ShutdownStep::Prompt, ShutdownEvent::PromptEnded) => ShutdownStep::Vault,
        _ => step,
    }
}

/// The state that an agent starts in, from what stands at the vault path.
pub open spec fn first_state(presence: NameProbe) -> Option<AgentState> {
    match presence {
        NameProbe::Found => Some(AgentState::Locked),
        NameProbe::NotFound => Some(AgentState::NoVault),
        NameProbe::Failed => None,
    }
}

/// Why an agent cannot be started, before anything is claimed.
pub open spec fn start_refusal(
    request: StartRequest,
    key: Result<[u8; 32], RuntimeStartError>,
) -> Option<RuntimeStartError> {
    if request.has_prompt != request.has_prompt_state {
        Some(RuntimeStartError::InvalidLocalStatePath)
    } else if !request.vault_path_is_absolute {
        Some(RuntimeStartError::InvalidVaultPath)
    } else if key is Err {
        Some(key->Err_0)
    } else if request.vault_record is Err {
        Some(request.vault_record->Err_0)
    } else {
        match request.state_record {
            None => None,
            Some(Err(_)) => Some(RuntimeStartError::InvalidLocalStatePath),
            Some(Ok(state)) => if crate::ownership::files_conflict(
                state@,
                request.vault_record->Ok_0@,
            ) {
                Some(RuntimeStartError::InvalidLocalStatePath)
            } else {
                None
            },
        }
    }
}

/// What a started agent owns.
pub open spec fn owned_files(request: StartRequest) -> OwnedFiles {
    OwnedFiles {
        vault: request.vault_record->Ok_0@,
        state: match request.state_record {
            Some(Ok(state)) => Some(state@),
            _ => None,
        },
    }
}

/// Whether every token that was given out is below the next one.
pub open spec fn tokens_are_past(owners: Map<u64, OwnedFiles>, next: u64) -> bool {
    forall|token: u64| #[trigger] owners.dom().contains(token) ==> token < next
}

/// How a start ends, with a given key for request fingerprints: the registry
/// and the next token before and after it, and the agent.
pub open spec fn start_outcome(
    request: StartRequest,
    key: Result<[u8; 32], RuntimeStartError>,
    owners: Map<u64, OwnedFiles>,
    token: u64,
    owners_after: Map<u64, OwnedFiles>,
    next_token: u64,
    started: Result<AgentRuntime, RuntimeStartError>,
) -> bool {
    let owned = owned_files(request);
    match start_refusal(request, key) {
        Some(error) => {
            &&& started == Err::<AgentRuntime, RuntimeStartError>(error)
            &&& next_token == token
            &&& owners_after == owners
        },
        None => if token == u64::MAX {
            &&& started == Err::<AgentRuntime, RuntimeStartError>(RuntimeStartError::Internal)
            &&& next_token == token
            &&& owners_after == owners
        } else if crate::ownership::owned_by_another(owners, token, owned.vault) || (owned.state
            is Some && crate::ownership::owned_by_another(owners, token, owned.state->Some_0)) {
            &&& started == Err::<AgentRuntime, RuntimeStartError>(RuntimeStartError::AlreadyOwned)
            &&& next_token == token + 1
            &&& owners_after == owners
        } else if first_state(request.presence) is None {
            &&& started == Err::<AgentRuntime, RuntimeStartError>(
                RuntimeStartError::InvalidVaultPath,
            )
            &&& next_token == token + 1
            &&& owners_after == owners
        } else {
            &&& started is Ok
            &&& started->Ok_0.is_fresh()
            &&& started->Ok_0.ownership.token == token
            &&& Some(started->Ok_0.state) == first_state(request.presence)
            &&& started->Ok_0.vault_path == request.vault_path
            &&& started->Ok_0.idempotency_fingerprint_key == key->Ok_0
            &&& started->Ok_0.windows_hello_configured == request.has_prompt
            &&& next_token == token + 1
            &&& owners_after == owners.insert(token, owned)
        },
    }
}

impl AgentRuntime {
    pub open spec fn wf(&self) -> bool {
        &&& self.coordinator.wf()
        &&& self.idempotency.wf()
        &&& self.pending_passkey_creations.wf()
    }

    /// Whether nothing has happened to the agent yet.
    pub open spec fn is_fresh(&self) -> bool {
        &&& self.wf()
        &&& self.coordinator.epoch == 1
        &&& self.coordinator.requests() == Map::<RequestKey, bool>::empty()
        &&& self.coordinator.global_in_flight == 0
        &&& !self.coordinator.lock_active
        &&& !self.coordinator.mutation_active
        &&& !self.coordinator.kdf_active
        &&& !self.windows_hello_active
        &&& self.idempotency@.vault_id is None
        &&& self.idempotency@.cached.len() == 0
        &&& self.idempotency@.in_flight.len() == 0
        &&& self.pending_passkey_creations@.dom() == Set::<PendingPasskeyCreationKey>::empty()
    }

    /// Whether everything is the same that an agent keeps for as long as it
    /// lives, and the flag of the platform's prompt.
    pub open spec fn same_agent(&self, other: &AgentRuntime) -> bool {
        &&& self.vault_path == other.vault_path
        &&& self.idempotency_fingerprint_key == other.idempotency_fingerprint_key
        &&& self.windows_hello_configured == other.windows_hello_configured
        &&& self.windows_hello_active == other.windows_hello_active
        &&& self.ownership == other.ownership
    }

    /// Whether everything but the state and the coordinator is the same.
    pub open spec fn same_besides_lifecycle(&self, other: &AgentRuntime) -> bool {
        &&& self.same_agent(other)
        &&& self.idempotency == other.idempotency
        &&& self.pending_passkey_creations == other.pending_passkey_creations
    }

    /// Binds one vault path, and the path of its protected state, to one agent
    /// of this process. Nothing is opened. The key for request fingerprints is
    /// drawn afresh.
    pub fn start(
        request: StartRequest,
        registry: &mut OwnershipRegistry,
        next_token: &mut u64,
    ) -> (started: Result<AgentRuntime, RuntimeStartError>)
        requires
            old(registry).wf(),
            tokens_are_past(old(registry)@, *old(next_token)),
        ensures
            final(registry).wf(),
            tokens_are_past(final(registry)@, *final(next_token)),
            exists|key: Result<[u8; 32], RuntimeStartError>|
                {
                    &&& key matches Ok(bytes) ==> bytes@ != crate::bytes::zeros(32)
                    &&& key matches Err(error) ==> error == RuntimeStartError::Internal
                    &&& #[trigger] start_outcome(
                        request,
                        key,
                        old(registry)@,
                        *old(next_token),
                        final(registry)@,
                        *final(next_token),
                        started,
                    )
                },
    {
        let key = idempotency_fingerprint_key();
        AgentRuntime::start_with_key(request, key, registry, next_token)
    }

    /// Binds one vault path, and the path of the state that the platform's
    /// prompt is kept in, to one agent that offers that prompt. Nothing is
    /// opened.
    pub fn start_with_windows_hello(
        vault_path: Vec<u8>,
        vault_path_is_absolute: bool,
        vault_record: Result<OwnershipRecord, RuntimeStartError>,
        presence: NameProbe,
        store: Result<WindowsHelloStateStore, WindowsHelloStateError>,
        state_record: Result<OwnershipRecord, RuntimeStartError>,
        registry: &mut OwnershipRegistry,
        next_token: &mut u64,
    ) -> (started: Result<(AgentRuntime, WindowsHelloStateStore), RuntimeStartError>)
        requires
            old(registry).wf(),
            tokens_are_past(old(registry)@, *old(next_token)),
        ensures
            final(registry).wf(),
            tokens_are_past(final(registry)@, *final(next_token)),
            match store {
                Err(_) => {
                    &&& started == Err::<(AgentRuntime, WindowsHelloStateStore), RuntimeStartError>(
                        RuntimeStartError::InvalidLocalStatePath,
                    )
                    &&& *final(registry) == *old(registry)
                    &&& *final(next_token) == *old(next_token)
                },
                Ok(store) => exists|
                    key: Result<[u8; 32], RuntimeStartError>,
                    agent: Result<AgentRuntime, RuntimeStartError>,
                |
                    {
                        &&& key matches Ok(bytes) ==> bytes@ != crate::bytes::zeros(32)
                        &&& key matches Err(error) ==> error == RuntimeStartError::Internal
                        &&& #[trigger] start_outcome(
                            (StartRequest {
                                vault_path,
                                vault_path_is_absolute,
                                has_prompt: true,
                                has_prompt_state: true,
                                vault_record,
                                state_record: Some(state_record),
                                presence,
                            }),
                            key,
                            old(registry)@,
                            *old(next_token),
                            final(registry)@,
                            *final(next_token),
                            agent,
                        )
                        &&& started == (match agent {
                            Ok(agent) => Ok::<
                                (AgentRuntime, WindowsHelloStateStore),
                                RuntimeStartError,
                            >((agent, store)),
                            Err(error) => Err(error),
                        })
                    },
            },
    {
        let store = match store {
            Ok(store) => store,
            Err(_) => {
                return Err(RuntimeStartError::InvalidLocalStatePath);
            },
        };
        let agent = AgentRuntime::start(
            StartRequest {
                vault_path,
                vault_path_is_absolute,
                has_prompt: true,
                has_prompt_state: true,
                vault_record,
                state_record: Some(state_record),
                presence,
            },
            registry,
            next_token,
        );
        match agent {
            Ok(agent) => Ok((agent, store)),
            Err(error) => Err(error),
        }
    }

    /// Binds one vault path to one agent, with a given key for request
    /// fingerprints.
    pub fn start_with_key(
        request: StartRequest,
        key: Result<[u8; 32], RuntimeStartError>,
        registry: &mut OwnershipRegistry,
        next_token: &mut u64,
    ) -> (started: Result<AgentRuntime, RuntimeStartError>)
        requires
            old(registry).wf(),
            tokens_are_past(old(registry)@, *old(next_token)),
        ensures
            final(registry).wf(),
            tokens_are_past(final(registry)@, *final(next_token)),
            start_outcome(
                request,
                key,
                old(registry)@,
                *old(next_token),
                final(registry)@,
                *final(next_token),
                started,
            ),
    {
        if request.has_prompt != request.has_prompt_state {
            return Err(RuntimeStartError::InvalidLocalStatePath);
        }
        if !request.vault_path_is_absolute {
            return Err(RuntimeStartError::InvalidVaultPath);
        }
        let key = match key {
            Ok(key) => key,
            Err(error) => {
                return Err(error);
            },
        };
        let vault_record = match request.vault_record {
            Ok(record) => record,
            Err(error) => {
                return Err(error);
            },
        };
        let state_record = match request.state_record {
            Some(Ok(record)) => Some(record),
            Some(Err(_)) => {
                return Err(RuntimeStartError::InvalidLocalStatePath);
            },
            None => None,
        };
        if let Some(state) = &state_record {
            if state.conflicts_with(&vault_record) {
                return Err(RuntimeStartError::InvalidLocalStatePath);
            }
        }
        let token: u64 = match next_ownership_token(next_token) {
            Ok(token) => token,
            Err(error) => {
                return Err(error);
            },
        };
        if !registry.claim(token, vault_record, state_record) {
            return Err(RuntimeStartError::AlreadyOwned);
        }
        let state = match request.presence {
            NameProbe::Found => AgentState::Locked,
            NameProbe::NotFound => AgentState::NoVault,
            NameProbe::Failed => {
                registry.release(token);
                assert(registry@ =~= old(registry)@);
                return Err(RuntimeStartError::InvalidVaultPath);
            },
        };
        Ok(
            AgentRuntime {
                vault_path: request.vault_path,
                state,
                coordinator: Coordinator::new(),
                idempotency: IdempotencyState::new(),
                pending_passkey_creations: PendingPasskeyCreations::new(),
                idempotency_fingerprint_key: key,
                windows_hello_configured: request.has_prompt,
                windows_hello_active: false,
                ownership: OwnershipLease { token },
            },
        )
    }

    /// The state that is advertised to peers.
    pub fn state(&self) -> (state: AgentState)
        ensures
            state == self.state,
    {
        self.state
    }

    /// The epoch in which requests are authorized now.
    pub fn unlock_epoch(&self) -> (epoch: u64)
        ensures
            epoch == self.coordinator.epoch,
    {
        self.coordinator.epoch
    }

    /// The state and the epoch of one moment.
    pub fn status_snapshot(&self) -> (snapshot: (AgentState, u64))
        ensures
            snapshot == (self.state, self.coordinator.epoch),
    {
        (self.state, self.coordinator.epoch)
    }

    /// What a running request sees of the agent and of itself.
    pub fn signals(&self, key: &RequestKey, request_epoch: u64, expired: bool) -> (signals: Signals)
        requires
            self.wf(),
        ensures
            signals == self.signals_of(*key, request_epoch, expired),
    {
        Signals {
            lock_active: self.coordinator.lock_active,
            cancelled: self.coordinator.is_cancelled(key),
            expired,
            state: self.state,
            epoch_current: self.coordinator.epoch == request_epoch,
        }
    }

    /// What a running request sees of the agent and of itself.
    pub open spec fn signals_of(
        &self,
        key: RequestKey,
        request_epoch: u64,
        expired: bool,
    ) -> Signals {
        Signals {
            lock_active: self.coordinator.lock_active,
            cancelled: self.coordinator.cancelled(key),
            expired,
            state: self.state,
            epoch_current: self.coordinator.epoch == request_epoch,
        }
    }

    /// Tells one request to stop. The result says whether it is running.
    pub fn cancel_request(&mut self, connection_id: [u8; 16], request_id: u64) -> (found: bool)
        requires
            old(self).wf(),
        ensures
            final(self).wf(),
            final(self).same_besides_lifecycle(old(self)),
            final(self).state == old(self).state,
            final(self).coordinator.epoch == old(self).coordinator.epoch,
            final(self).coordinator.same_flags(&old(self).coordinator),
            found == old(self).coordinator.requests().dom().contains(
                (RequestKey { connection_id, request_id }),
            ),
            final(self).coordinator.requests() == (if found {
                old(self).coordinator.requests().insert(
                    (RequestKey { connection_id, request_id }),
                    true,
                )
            } else {
                old(self).coordinator.requests()
            }),
    {
        self.coordinator.cancel(RequestKey { connection_id, request_id })
    }

    /// Applies a cancellation that a connection accepted. One that it refused
    /// breaks the connection and stops nothing.
    pub fn apply_cancel(
        &mut self,
        accepted: Result<(), ConnectionError>,
        connection_id: [u8; 16],
        request_id: u64,
    ) -> (applied: Result<(), DispatchError>)
        requires
            old(self).wf(),
        ensures
            final(self).wf(),
            final(self).same_besides_lifecycle(old(self)),
            final(self).state == old(self).state,
            final(self).coordinator.epoch == old(self).coordinator.epoch,
            final(self).coordinator.same_flags(&old(self).coordinator),
            match accepted {
                Err(error) => {
                    &&& applied == Err::<(), DispatchError>(DispatchError::Connection(error))
                    &&& *final(self) == *old(self)
                },
                Ok(()) => {
                    let key = RequestKey { connection_id, request_id };
                    &&& applied == Ok::<(), DispatchError>(())
                    &&& final(self).coordinator.requests() == (if old(
                        self,
                    ).coordinator.requests().dom().contains(key) {
                        old(self).coordinator.requests().insert(key, true)
                    } else {
                        old(self).coordinator.requests()
                    })
                },
            },
    {
        match accepted {
            Ok(()) => {
                let _ = self.cancel_request(connection_id, request_id);
                Ok(())
            },
            Err(error) => Err(DispatchError::Connection(error)),
        }
    }

    /// Tells every request of a connection that is gone to stop, and forgets
    /// which passkeys it could still have taken back.
    pub fn disconnect(&mut self, connection_id: [u8; 16])
        requires
            old(self).wf(),
        ensures
            final(self).wf(),
            final(self).state == old(self).state,
            final(self).coordinator.epoch == old(self).coordinator.epoch,
            final(self).coordinator.same_flags(&old(self).coordinator),
            final(self).coordinator.requests().dom() == old(self).coordinator.requests().dom(),
            forall|key: RequestKey| #[trigger]
                final(self).coordinator.cancelled(key) == (old(self).coordinator.cancelled(key) || (
                old(self).coordinator.requests().dom().contains(key) && key.connection_id
                    == connection_id)),
            final(self).pending_passkey_creations@ == crate::passkeys::of_other_connections(
                old(self).pending_passkey_creations@,
                connection_id,
            ),
            final(self).idempotency == old(self).idempotency,
            final(self).same_agent(old(self)),
    {
        self.pending_passkey_creations.forget_connection(connection_id);
        self.coordinator.cancel_connection(connection_id);
    }

    /// The state that the agent falls back to when its vault is locked: an
    /// agent that is updating or shutting down stays so.
    pub open spec fn locked_state(&self) -> AgentState {
        if self.state == AgentState::Updating || self.state == AgentState::ShuttingDown {
            self.state
        } else {
            AgentState::Locked
        }
    }

    pub fn set_locked_unless_shutting_down(&mut self)
        ensures
            final(self).state == old(self).locked_state(),
            final(self).coordinator == old(self).coordinator,
            final(self).same_besides_lifecycle(old(self)),
    {
        match self.state {
            AgentState::Updating => {},
            AgentState::ShuttingDown => {},
            _ => {
                self.state = AgentState::Locked;
            },
        }
    }

    // Locking

    /// The state that an agent is in while and after its vault is locked.
    pub open spec fn lock_target(&self) -> AgentState {
        if self.state == AgentState::NoVault {
            AgentState::NoVault
        } else {
            self.locked_state()
        }
    }

    /// Starts to lock the vault: the lock flag is raised, the state falls back,
    /// a new epoch is opened and every request is told to stop. The result is
    /// the state to be in afterwards. While another lock is under way the answer
    /// is that the agent is busy, and nothing changes.
    pub fn begin_lock(&mut self) -> (begun: Result<
        Result<AgentState, Verdict>,
        DispatchError,
    >)
        requires
            old(self).wf(),
        ensures
            final(self).wf(),
            final(self).same_besides_lifecycle(old(self)),
            old(self).coordinator.lock_active ==> {
                &&& begun == Ok::<Result<AgentState, Verdict>, DispatchError>(Err(Verdict::busy()))
                &&& *final(self) == *old(self)
            },
            !old(self).coordinator.lock_active ==> {
                &&& final(self).state == old(self).lock_target()
                &&& final(self).coordinator.global_in_flight == old(
                    self,
                ).coordinator.global_in_flight
                &&& final(self).coordinator.kdf_active == old(self).coordinator.kdf_active
                &&& final(self).coordinator.mutation_active == old(
                    self,
                ).coordinator.mutation_active
                &&& if old(self).coordinator.epoch == u64::MAX {
                    &&& begun == Err::<Result<AgentState, Verdict>, DispatchError>(
                        DispatchError::Internal,
                    )
                    &&& !final(self).coordinator.lock_active
                    &&& final(self).coordinator.epoch == old(self).coordinator.epoch
                    &&& final(self).coordinator.requests() == old(self).coordinator.requests()
                } else {
                    &&& begun == Ok::<Result<AgentState, Verdict>, DispatchError>(
                        Ok(final(self).state),
                    )
                    &&& final(self).coordinator.lock_active
                    &&& final(self).coordinator.epoch == old(self).coordinator.epoch + 1
                    &&& final(self).coordinator.requests() == old(
                        self,
                    ).coordinator.requests().map_values(|stop: bool| true)
                }
            },
    {
        let permit = match FlagPermit::acquire(&mut self.coordinator.lock_active) {
            Some(permit) => permit,
            None => {
                return Ok(Err(Verdict::busy()));
            },
        };
        let target = match self.state {
            AgentState::NoVault => AgentState::NoVault,
            AgentState::Updating => AgentState::Updating,
            AgentState::ShuttingDown => AgentState::ShuttingDown,
            _ => AgentState::Locked,
        };
        self.state = target;
        match self.coordinator.advance_epoch() {
            Ok(_) => {
                let _ = permit.handoff();
                Ok(Ok(target))
            },
            Err(error) => {
                permit.release(&mut self.coordinator.lock_active);
                Err(error)
            },
        }
    }

    /// Overwrites the key of the fingerprints, once the agent is over.
    pub fn forget_fingerprint_key(&mut self)
        ensures
            final(self).idempotency_fingerprint_key@ == crate::bytes::zeros(32),
            *final(self) == (AgentRuntime {
                idempotency_fingerprint_key: final(self).idempotency_fingerprint_key,
                ..*old(self)
            }),
    {
        wipe_array(&mut self.idempotency_fingerprint_key);
    }

    /// Gives up a lock that was begun and cannot be finished: the lock flag is
    /// lowered, and nothing else changes.
    pub fn abandon_lock(&mut self)
        requires
            old(self).wf(),
        ensures
            final(self).wf(),
            final(self).same_besides_lifecycle(old(self)),
            final(self).state == old(self).state,
            final(self).coordinator.with_lock(&old(self).coordinator, false),
    {
        self.coordinator.lock_active = false;
    }

    /// Locks the vault, once nothing creates it or prompts for it any more. The
    /// lock flag stays raised until the answer has been written.
    pub fn finish_lock<S>(&mut self, vault: &mut VaultAgent<S>, target: AgentState) -> (verdict:
        Verdict)
        ensures
            verdict == Verdict::success().hold_lock_transition(),
            final(vault).wf(),
            final(vault).is_locked_form_of(old(vault)),
            final(self).state == (if old(self).state == AgentState::Updating || old(self).state
                == AgentState::ShuttingDown {
                old(self).state
            } else {
                target
            }),
            final(self).coordinator == old(self).coordinator,
            final(self).same_besides_lifecycle(old(self)),
    {
        vault.lock();
        match self.state {
            AgentState::Updating => {},
            AgentState::ShuttingDown => {},
            _ => {
                self.state = target;
            },
        }
        Verdict::success().hold_lock_transition()
    }

    /// Starts to shut down: the lock flag is raised for good, a new epoch is
    /// opened and every request is told to stop.
    /// The result is what is to be waited for first.
    pub fn begin_shutdown(&mut self) -> (begun: Result<ShutdownStep, DispatchError>)
        requires
            old(self).wf(),
        ensures
            final(self).wf(),
            final(self).same_besides_lifecycle(old(self)),
            final(self).state == AgentState::ShuttingDown,
            final(self).coordinator.lock_active,
            final(self).coordinator.global_in_flight == old(self).coordinator.global_in_flight,
            final(self).coordinator.kdf_active == old(self).coordinator.kdf_active,
            final(self).coordinator.mutation_active == old(self).coordinator.mutation_active,
            if old(self).coordinator.epoch == u64::MAX {
                &&& begun == Err::<ShutdownStep, DispatchError>(DispatchError::Internal)
                &&& final(self).coordinator.epoch == old(self).coordinator.epoch
                &&& final(self).coordinator.requests() == old(self).coordinator.requests()
            } else {
                &&& begun == Ok::<ShutdownStep, DispatchError>(ShutdownStep::Creation)
                &&& final(self).coordinator.epoch == old(self).coordinator.epoch + 1
                &&& final(self).coordinator.requests() == old(
                    self,
                ).coordinator.requests().map_values(|stop: bool| true)
            },
    {
        self.coordinator.lock_active = true;
        self.state = AgentState::ShuttingDown;
        match self.coordinator.advance_epoch() {
            Ok(_) => Ok(ShutdownStep::Creation),
            Err(error) => Err(error),
        }
    }

    /// Shuts down, once nothing creates the vault or prompts for it any more.
    pub fn finish_shutdown<S>(&mut self, step: ShutdownStep, vault: &mut VaultAgent<S>)
        requires
            step == ShutdownStep::Vault,
        ensures
            final(vault).wf(),
            final(vault).is_locked_form_of(old(vault)),
            final(self).state == AgentState::ShuttingDown,
            final(self).coordinator == old(self).coordinator,
            final(self).same_besides_lifecycle(old(self)),
    {
        vault.lock();
        self.state = AgentState::ShuttingDown;
    }

    /// Shuts down an agent of which nothing creates the vault or prompts for it:
    /// every request is told to stop and the vault is locked.
    pub fn shutdown<S>(&mut self, vault: &mut VaultAgent<S>) -> (done: Result<(), DispatchError>)
        requires
            old(self).wf(),
            old(vault).wf(),
        ensures
            final(self).wf(),
            final(vault).wf(),
            final(self).same_besides_lifecycle(old(self)),
            final(self).state == AgentState::ShuttingDown,
            final(self).coordinator.lock_active,
            if old(self).coordinator.epoch == u64::MAX {
                &&& done == Err::<(), DispatchError>(DispatchError::Internal)
                &&& final(self).coordinator.requests() == old(self).coordinator.requests()
                &&& *final(vault) == *old(vault)
            } else {
                &&& done == Ok::<(), DispatchError>(())
                &&& final(self).coordinator.epoch == old(self).coordinator.epoch + 1
                &&& final(self).coordinator.requests() == old(
                    self,
                ).coordinator.requests().map_values(|stop: bool| true)
                &&& final(vault).is_locked_form_of(old(vault))
            },
    {
        match self.begin_shutdown() {
            Ok(step) => {
                let step = shutdown_waited(step, ShutdownEvent::CreationEnded);
                let step = shutdown_waited(step, ShutdownEvent::PromptEnded);
                self.finish_shutdown(step, vault);
                Ok(())
            },
            Err(error) => Err(error),
        }
    }
}

// Laws

/// What a shutdown waits for after these events.
pub open spec fn shutdown_after(events: Seq<ShutdownEvent>) -> ShutdownStep
    decreases events.len(),
{
    if events.len() == 0 {
        ShutdownStep::Creation
    } else {
        next_shutdown_step(shutdown_after(events.drop_last()), events.last())
    }
}

/// A shutdown takes the vault in hand only after it has seen the end of every
/// creation, and after that the end of every prompt.
pub proof fn shutdowns_wait_for_running_work(events: Seq<ShutdownEvent>)
    ensures
        shutdown_after(events) is Prompt ==> events.contains(ShutdownEvent::CreationEnded),
        shutdown_after(events) is Vault ==> exists|created: int, prompted: int|
            0 <= created < prompted < events.len() && #[trigger] events[created]
                == ShutdownEvent::CreationEnded && #[trigger] events[prompted]
                == ShutdownEvent::PromptEnded,
    decreases events.len(),
{
    if events.len() > 0 {
        let earlier = events.drop_last();
        shutdowns_wait_for_running_work(earlier);
        assert(forall|i: int| 0 <= i < earlier.len() ==> earlier[i] == #[trigger] events[i]);
        assert(events[events.len() - 1] == events.last());
        if shutdown_after(earlier) is Prompt {
            let created = choose|i: int|
                0 <= i < earlier.len() && earlier[i] == ShutdownEvent::CreationEnded;
            assert(events[created] == ShutdownEvent::CreationEnded);
        } else if shutdown_after(earlier) is Vault {
            let (created, prompted) = choose|created: int, prompted: int|
                0 <= created < prompted < earlier.len() && #[trigger] earlier[created]
                    == ShutdownEvent::CreationEnded && #[trigger] earlier[prompted]
                    == ShutdownEvent::PromptEnded;
            assert(events[created] == ShutdownEvent::CreationEnded);
            assert(events[prompted] == ShutdownEvent::PromptEnded);
        }
    }
}

/// Once the vault was locked or the agent shut down, no request that was
/// admitted before goes on with secrets, whatever else it sees: it stops before
/// they are read, while they are worked on and before anything is committed.
pub proof fn requests_do_not_outlive_their_epoch(
    before: AgentRuntime,
    after: AgentRuntime,
    key: RequestKey,
    request_epoch: u64,
    expired: bool,
)
    requires
        request_epoch <= before.coordinator.epoch,
        after.coordinator.epoch == before.coordinator.epoch + 1,
    ensures
        crate::signals::pre_secret_operation(&after.signals_of(key, request_epoch, expired)) is Some,
        crate::signals::secret_operation_should_abort(&after.signals_of(key, request_epoch, expired)),
        crate::signals::post_secret_operation(&after.signals_of(key, request_epoch, expired)) is Some,
        !crate::signals::allows_commit(after.signals_of(key, request_epoch, expired)),
{
}

/// What a request sees is what is so: it is told to stop exactly where it runs
/// and was told to, and it is of the current epoch exactly where none began
/// since.
pub proof fn signals_tell_what_is_so(
    agent: &AgentRuntime,
    key: RequestKey,
    request_epoch: u64,
    expired: bool,
)
    ensures
        ({
            let signals = agent.signals_of(key, request_epoch, expired);
            let requests = agent.coordinator.requests();
            &&& signals.cancelled <==> requests.dom().contains(key) && requests[key]
            &&& signals.lock_active <==> agent.coordinator.lock_active
            &&& signals.expired <==> expired
            &&& signals.state == agent.state
            &&& signals.epoch_current <==> request_epoch == agent.coordinator.epoch
        }),
{
}

/// A vault that is locked is never left open to requests, and an agent that is
/// on its way out stays so. Where there is no vault, locking makes none.
pub proof fn locking_never_opens(agent: &AgentRuntime)
    ensures
        agent.locked_state() != AgentState::Unlocked,
        agent.locked_state() != AgentState::Unlocking,
        agent.lock_target() != AgentState::Unlocked,
        agent.lock_target() != AgentState::Unlocking,
        agent.lock_target() == AgentState::NoVault <==> agent.state == AgentState::NoVault,
        agent.locked_state() == AgentState::ShuttingDown <==> agent.state
            == AgentState::ShuttingDown,
        agent.locked_state() == AgentState::Updating <==> agent.state == AgentState::Updating,
        agent.lock_target() == AgentState::ShuttingDown <==> agent.state
            == AgentState::ShuttingDown,
        agent.lock_target() == AgentState::Updating <==> agent.state == AgentState::Updating,
        agent.state == AgentState::Unlocked || agent.state == AgentState::Unlocking ==> {
            &&& agent.lock_target() == AgentState::Locked
            &&& agent.locked_state() == AgentState::Locked
        },
{
}

/// An agent is started for every vault that it can have to itself: with an
/// absolute path, a prompt and a store for its state or neither, two different
/// files, neither of which any other agent has anything to do with, and a vault
/// path that can be looked at. It begins locked where a vault is there and
/// without one where none is, and owns just these files.
pub proof fn free_vaults_can_be_claimed(
    request: StartRequest,
    key: [u8; 32],
    owners: Map<u64, OwnedFiles>,
    token: u64,
    owners_after: Map<u64, OwnedFiles>,
    next_token: u64,
    started: Result<AgentRuntime, RuntimeStartError>,
)
    requires
        start_outcome(request, Ok(key), owners, token, owners_after, next_token, started),
        token < u64::MAX,
    ensures
        started is Ok <==> {
            &&& request.has_prompt == request.has_prompt_state
            &&& request.vault_path_is_absolute
            &&& request.presence != NameProbe::Failed
            &&& request.vault_record matches Ok(vault)
            &&& request.state_record matches Some(record) ==> {
                &&& record matches Ok(state)
                &&& state@.path != vault@.path
                &&& state@.identity is None || state@.identity != vault@.identity
                &&& stands_alone(owners, token, state@)
            }
            &&& stands_alone(owners, token, vault@)
        },
        started matches Ok(agent) ==> {
            &&& agent.state == AgentState::Locked <==> request.presence == NameProbe::Found
            &&& agent.state == AgentState::NoVault <==> request.presence == NameProbe::NotFound
            &&& owners_after.dom() == owners.dom().insert(token)
            &&& owners_after[token].vault == request.vault_record->Ok_0@
            &&& owners_after[token].state == (match request.state_record {
                Some(record) => Some(record->Ok_0@),
                None => None,
            })
            &&& forall|other: u64| other != token && #[trigger] owners.dom().contains(other)
                ==> owners_after[other] == owners[other]
        },
        started is Err ==> owners_after == owners,
{
    if let Ok(vault) = request.vault_record {
        standing_alone(owners, token, vault@);
    }
    if let Some(Ok(state)) = request.state_record {
        standing_alone(owners, token, state@);
    }
    if started is Ok {
        assert(owners_after.dom() =~= owners.dom().insert(token));
    }
}

/// Whether no other agent has anything to do with a file, by its path or by what
/// it is.
pub open spec fn stands_alone(
    owners: Map<u64, OwnedFiles>,
    token: u64,
    file: crate::ownership::OwnedFile,
) -> bool {
    forall|other: u64| #[trigger]
        owners.dom().contains(other) && other != token ==> {
            &&& owners[other].vault.path != file.path
            &&& file.identity is None || owners[other].vault.identity != file.identity
            &&& owners[other].state matches Some(state) ==> state.path != file.path && (
            file.identity is None || state.identity != file.identity)
        }
}

proof fn standing_alone(
    owners: Map<u64, OwnedFiles>,
    token: u64,
    file: crate::ownership::OwnedFile,
)
    ensures
        stands_alone(owners, token, file) <==> !crate::ownership::owned_by_another(
            owners,
            token,
            file,
        ),
{
    if !crate::ownership::owned_by_another(owners, token, file) {
        assert forall|other: u64| #[trigger]
            owners.dom().contains(other) && other != token implies {
            &&& owners[other].vault.path != file.path
            &&& file.identity is None || owners[other].vault.identity != file.identity
            &&& owners[other].state matches Some(state) ==> state.path != file.path && (
            file.identity is None || state.identity != file.identity)
        } by {
            assert(!owners[other].conflicts(file));
        }
    }
}

/// A shutdown that has seen the end of every creation and of every prompt, in
/// this order, takes the vault in hand, and what it has seen is not forgotten.
pub proof fn shutdowns_end(step: ShutdownStep, event: ShutdownEvent)
    ensures
        next_shutdown_step(
            next_shutdown_step(step, ShutdownEvent::CreationEnded),
            ShutdownEvent::PromptEnded,
        ) is Vault,
        step is Vault ==> next_shutdown_step(step, event) is Vault,
        step is Prompt ==> !(next_shutdown_step(step, event) is Creation),
        step is Prompt && event != ShutdownEvent::PromptEnded ==> next_shutdown_step(step, event)
            is Prompt,
        step is Creation && event != ShutdownEvent::CreationEnded ==> next_shutdown_step(
            step,
            event,
        ) is Creation,
{
}

/// An agent that is not started is told why: its local state is at fault where a
/// prompt lacks a store or the other way round, where the state cannot be owned,
/// or where it is the vault itself; the vault path is at fault where it is not
/// absolute or cannot be looked at; a file of somebody else is owned already.
pub proof fn refused_starts_say_why(
    request: StartRequest,
    key: [u8; 32],
    owners: Map<u64, OwnedFiles>,
    token: u64,
    owners_after: Map<u64, OwnedFiles>,
    next_token: u64,
    error: RuntimeStartError,
)
    requires
        start_outcome(request, Ok(key), owners, token, owners_after, next_token, Err(error)),
        token < u64::MAX,
    ensures
        request.has_prompt != request.has_prompt_state ==> error
            == RuntimeStartError::InvalidLocalStatePath,
        request.has_prompt == request.has_prompt_state && !request.vault_path_is_absolute ==> error
            == RuntimeStartError::InvalidVaultPath,
        request.has_prompt == request.has_prompt_state && request.vault_path_is_absolute ==> {
            &&& request.vault_record matches Err(reported) ==> error == reported
            &&& request.vault_record is Ok && (request.state_record matches Some(Err(_)))
                ==> error == RuntimeStartError::InvalidLocalStatePath
            &&& request.vault_record is Ok && (request.state_record matches Some(Ok(state)) && state@
                == request.vault_record->Ok_0@) ==> error
                == RuntimeStartError::InvalidLocalStatePath
            &&& request.vault_record is Ok && request.state_record is None && !stands_alone(
                owners,
                token,
                request.vault_record->Ok_0@,
            ) ==> error == RuntimeStartError::AlreadyOwned
            &&& request.vault_record is Ok && request.state_record is None && stands_alone(
                owners,
                token,
                request.vault_record->Ok_0@,
            ) ==> error == RuntimeStartError::InvalidVaultPath && request.presence
                == NameProbe::Failed
        },
        owners_after == owners,
{
    if let Ok(vault) = request.vault_record {
        standing_alone(owners, token, vault@);
    }
}

} // verus!
