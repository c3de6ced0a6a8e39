//! Creating the vault and unlocking it.

use vstd::prelude::*;

use crate::coordinator::RequestKey;
use crate::errors::{CreateError, DispatchError, ProtocolError, RuntimeStartError, UnlockError};
use crate::lifecycle::VaultAgent;
use crate::outcome::{ExecutionOutcome, Verdict};
use crate::ownership::{OwnedFiles, OwnershipRecord, OwnershipRegistry};
use crate::permits::FlagPermit;
use crate::protocol::AgentState;
use crate::runtime::AgentRuntime;

verus! {

/// Whether an operation ended with this verdict and releases nothing.
pub open spec fn ends_with(
    outcome: Result<ExecutionOutcome, DispatchError>,
    verdict: Verdict,
) -> bool {
    &&& outcome is Ok
    &&& outcome->Ok_0.verdict == verdict
    &&& outcome->Ok_0.body@.len() == 0
}

/// Whether an operation ended as a success that reports a state, where the
/// state could be encoded.
pub open spec fn reports<E>(
    outcome: Result<ExecutionOutcome, DispatchError>,
    encode_status: E,
    state: AgentState,
    epoch: u64,
) -> bool where E: FnOnce(AgentState, u64) -> Result<Vec<u8>, ProtocolError> {
    exists|encoded: Result<Vec<u8>, ProtocolError>| #[trigger]
        call_ensures(encode_status, (state, epoch), encoded) && match encoded {
            Ok(status) => {
                &&& outcome is Ok
                &&& outcome->Ok_0.verdict == Verdict::success()
                &&& outcome->Ok_0.body@ == status@
            },
            Err(_) => outcome == Err::<ExecutionOutcome, DispatchError>(DispatchError::Internal),
        }
}

fn report<E>(encode_status: E, state: AgentState, epoch: u64) -> (outcome: Result<
    ExecutionOutcome,
    DispatchError,
>) where E: FnOnce(AgentState, u64) -> Result<Vec<u8>, ProtocolError>
    requires
        call_requires(encode_status, (state, epoch)),
    ensures
        reports(outcome, encode_status, state, epoch),
{
    match encode_status(state, epoch) {
        Ok(status) => Ok(ExecutionOutcome::success(status)),
        Err(_) => Err(DispatchError::Internal),
    }
}

impl AgentRuntime {
    // Creating

    /// Why the creation of a vault does not begin: there is one, or something
    /// else changes records.
    pub open spec fn creation_refusal(&self) -> Option<Verdict> {
        if self.state != AgentState::NoVault {
            Some(Verdict::conflict())
        } else if self.coordinator.mutation_active {
            Some(Verdict::busy())
        } else {
            None
        }
    }

    /// Why the creation of a vault does not go on, once nothing else creates or
    /// locks it.
    pub open spec fn creation_stop(
        &self,
        key: RequestKey,
        expired: bool,
        password_is_valid: bool,
    ) -> Option<Verdict> {
        if self.coordinator.cancelled(key) {
            Some(Verdict::cancelled())
        } else if expired {
            Some(Verdict::deadline())
        } else if self.coordinator.lock_active {
            Some(Verdict::busy())
        } else if !password_is_valid {
            Some(Verdict::invalid())
        } else {
            None
        }
    }

    /// Begins to create a vault: there must be none, and nothing else may change
    /// records.
    pub fn begin_create(&mut self) -> (begun: Result<FlagPermit, Verdict>)
        requires
            old(self).wf(),
        ensures
            final(self).wf(),
            final(self).same_besides_lifecycle(old(self)),
            final(self).state == old(self).state,
            match old(self).creation_refusal() {
                Some(verdict) => {
                    &&& begun == Err::<FlagPermit, Verdict>(verdict)
                    &&& final(self).coordinator.with_mutation(
                        &old(self).coordinator,
                        old(self).coordinator.mutation_active,
                    )
                },
                None => {
                    &&& begun is Ok
                    &&& begun->Ok_0.holds()
                    &&& final(self).coordinator.with_mutation(&old(self).coordinator, true)
                },
            },
    {
        if self.state != AgentState::NoVault {
            return Err(Verdict::conflict());
        }
        match FlagPermit::acquire(&mut self.coordinator.mutation_active) {
            Some(permit) => Ok(permit),
            None => Err(Verdict::busy()),
        }
    }

    /// Goes on to create a vault, once nothing else creates or locks it, or gives
    /// it up. The result holds the epoch in which the vault has to be published.
    pub fn continue_create(
        &mut self,
        permit: FlagPermit,
        key: &RequestKey,
        expired: bool,
        password_is_valid: bool,
    ) -> (going_on: Result<(FlagPermit, u64), Verdict>)
        requires
            old(self).wf(),
            permit.holds(),
        ensures
            final(self).wf(),
            final(self).same_besides_lifecycle(old(self)),
            final(self).state == old(self).state,
            match old(self).creation_stop(*key, expired, password_is_valid) {
                Some(verdict) => {
                    &&& going_on == Err::<(FlagPermit, u64), Verdict>(verdict)
                    &&& final(self).coordinator.with_mutation(&old(self).coordinator, false)
                },
                None => {
                    &&& going_on is Ok
                    &&& going_on->Ok_0.0.holds()
                    &&& going_on->Ok_0.1 == old(self).coordinator.epoch
                    &&& *final(self) == *old(self)
                },
            },
    {
        let stop = if self.coordinator.is_cancelled(key) {
            Verdict::cancelled()
        } else if expired {
            Verdict::deadline()
        } else if self.coordinator.lock_active {
            Verdict::busy()
        } else if !password_is_valid {
            Verdict::invalid()
        } else {
            return Ok((permit, self.coordinator.epoch));
        };
        permit.release(&mut self.coordinator.mutation_active);
        Err(stop)
    }

    /// The last word on a new vault: it is not wanted any more once the request
    /// was cancelled or came too late, once the vault was locked, or where the
    /// agent has another state or epoch by now.
    pub open spec fn last_word(
        &self,
        key: RequestKey,
        start_epoch: u64,
        expired: bool,
    ) -> Result<(), CreateError> {
        if self.coordinator.epoch != start_epoch || self.coordinator.cancelled(key) || expired
            || self.coordinator.lock_active || self.state != AgentState::NoVault {
            Err(CreateError::Failed)
        } else {
            Ok(())
        }
    }

    /// The last word on a new vault, asked for inside the commit section.
    pub fn may_publish_creation(
        &self,
        key: &RequestKey,
        start_epoch: u64,
        expired: bool,
    ) -> (allowed: Result<(), CreateError>)
        requires
            self.wf(),
        ensures
            allowed == self.last_word(*key, start_epoch, expired),
    {
        if self.coordinator.epoch != start_epoch || self.coordinator.is_cancelled(key) || expired
            || self.coordinator.lock_active || self.state != AgentState::NoVault {
            Err(CreateError::Failed)
        } else {
            Ok(())
        }
    }

    /// Whether the file of a vault that was just created may be bound to this
    /// agent.
    pub open spec fn may_bind_created(
        &self,
        owners: Map<u64, OwnedFiles>,
        observed: Result<OwnershipRecord, RuntimeStartError>,
    ) -> bool {
        let token = self.ownership.token;
        &&& observed is Ok
        &&& observed->Ok_0@.identity is Some
        &&& !crate::ownership::owned_by_another(owners, token, observed->Ok_0@)
        &&& owners.dom().contains(token)
        &&& owners[token].vault.path == observed->Ok_0@.path
    }

    /// How opening a vault that was just created ends. Its file is bound first,
    /// then the kept results, and then the vault takes the place of the closed
    /// one.
    pub open spec fn opens_created<S, E>(
        &self,
        before: &AgentRuntime,
        vault: &VaultAgent<S>,
        vault_before: &VaultAgent<S>,
        owners: Map<u64, OwnedFiles>,
        owners_before: Map<u64, OwnedFiles>,
        observed: Result<OwnershipRecord, RuntimeStartError>,
        created: VaultAgent<S>,
        encode_status: E,
        outcome: Result<ExecutionOutcome, DispatchError>,
    ) -> bool where E: FnOnce(AgentState, u64) -> Result<Vec<u8>, ProtocolError> {
        let token = before.ownership.token;
        let bound = before.may_bind_created(owners_before, observed);
        let results = before.idempotency@;
        let fits = bound && created.binding is Some && (results.vault_id is None
            || results.vault_id == Some(created.binding->Some_0.vault_id));
        &&& self.same_agent(before)
        &&& self.pending_passkey_creations == before.pending_passkey_creations
        &&& self.coordinator.requests() == before.coordinator.requests()
        &&& self.coordinator.global_in_flight == before.coordinator.global_in_flight
        &&& self.coordinator.kdf_active == before.coordinator.kdf_active
        &&& self.coordinator.lock_active == before.coordinator.lock_active
        &&& owners == (if bound {
            owners_before.insert(
                token,
                (OwnedFiles { vault: observed->Ok_0@, ..owners_before[token] }),
            )
        } else {
            owners_before
        })
        &&& self.idempotency@ == (if fits && results.vault_id is None {
            results.of_vault(created.binding->Some_0.vault_id)
        } else {
            results
        })
        &&& *vault == (if fits {
            created
        } else {
            *vault_before
        })
        &&& if fits && before.coordinator.epoch < u64::MAX {
            &&& self.state == AgentState::Unlocked
            &&& self.coordinator.epoch == before.coordinator.epoch + 1
            &&& reports(outcome, encode_status, AgentState::Unlocked, self.coordinator.epoch)
        } else {
            &&& self.state == before.state
            &&& self.coordinator.epoch == before.coordinator.epoch
            &&& outcome == Err::<ExecutionOutcome, DispatchError>(DispatchError::Internal)
        }
    }

    /// Ends the creation of a vault. A vault that was created is opened in a
    /// new epoch, once its file and its results are bound to this agent.
    pub fn finish_create<S, E>(
        &mut self,
        vault: &mut VaultAgent<S>,
        permit: FlagPermit,
        registry: &mut OwnershipRegistry,
        observed: Result<OwnershipRecord, RuntimeStartError>,
        result: Result<VaultAgent<S>, CreateError>,
        key: &RequestKey,
        expired: bool,
        encode_status: E,
    ) -> (outcome: Result<ExecutionOutcome, DispatchError>) where
        E: FnOnce(AgentState, u64) -> Result<Vec<u8>, ProtocolError>,

        requires
            old(self).wf(),
            old(vault).wf(),
            old(registry).wf(),
            permit.holds(),
            result matches Ok(created) ==> created.wf(),
            forall|state: AgentState, epoch: u64| call_requires(encode_status, (state, epoch)),
        ensures
            final(self).wf(),
            final(vault).wf(),
            final(registry).wf(),
            !final(self).coordinator.mutation_active,
            match result {
                Err(error) => {
                    &&& *final(vault) == *old(vault)
                    &&& *final(registry) == *old(registry)
                    &&& final(self).same_besides_lifecycle(old(self))
                    &&& final(self).state == old(self).state
                    &&& final(self).coordinator.with_mutation(&old(self).coordinator, false)
                    &&& ends_with(
                        outcome,
                        if error == CreateError::AlreadyExists {
                            Verdict::conflict()
                        } else if old(self).coordinator.cancelled(*key) {
                            Verdict::cancelled()
                        } else if expired {
                            Verdict::deadline()
                        } else {
                            Verdict::failed()
                        },
                    )
                },
                Ok(created) => final(self).opens_created(
                    old(self),
                    final(vault),
                    old(vault),
                    final(registry)@,
                    old(registry)@,
                    observed,
                    created,
                    encode_status,
                    outcome,
                ),
            },
    {
        let outcome = match result {
            Ok(created) => self.open_created(vault, registry, observed, created, encode_status),
            Err(CreateError::AlreadyExists) => Ok(
                ExecutionOutcome::without_body(Verdict::conflict()),
            ),
            Err(CreateError::Failed) => {
                let verdict = if self.coordinator.is_cancelled(key) {
                    Verdict::cancelled()
                } else if expired {
                    Verdict::deadline()
                } else {
                    Verdict::failed()
                };
                Ok(ExecutionOutcome::without_body(verdict))
            },
        };
        permit.release(&mut self.coordinator.mutation_active);
        outcome
    }

    fn open_created<S, E>(
        &mut self,
        vault: &mut VaultAgent<S>,
        registry: &mut OwnershipRegistry,
        observed: Result<OwnershipRecord, RuntimeStartError>,
        created: VaultAgent<S>,
        encode_status: E,
    ) -> (outcome: Result<ExecutionOutcome, DispatchError>) where
        E: FnOnce(AgentState, u64) -> Result<Vec<u8>, ProtocolError>,

        requires
            old(self).wf(),
            old(vault).wf(),
            old(registry).wf(),
            created.wf(),
            forall|state: AgentState, epoch: u64| call_requires(encode_status, (state, epoch)),
        ensures
            final(self).wf(),
            final(vault).wf(),
            final(registry).wf(),
            final(self).coordinator.running@ == old(self).coordinator.running@,
            final(self).opens_created(
                old(self),
                final(vault),
                old(vault),
                final(registry)@,
                old(registry)@,
                observed,
                created,
                encode_status,
                outcome,
            ),
    {
        match self.ownership.bind_existing(registry, observed) {
            Ok(()) => {},
            Err(_) => {
                return Err(DispatchError::Internal);
            },
        }
        let vault_id = match created.authenticated_vault_id() {
            Some(vault_id) => vault_id,
            None => {
                return Err(DispatchError::Internal);
            },
        };
        match self.idempotency.initialize_idempotency_vault(vault_id) {
            Ok(()) => {},
            Err(error) => {
                return Err(error);
            },
        }
        *vault = created;
        match self.coordinator.advance_epoch_without_cancellation() {
            Ok(_) => {},
            Err(error) => {
                return Err(error);
            },
        }
        self.state = AgentState::Unlocked;
        report(encode_status, AgentState::Unlocked, self.coordinator.epoch)
    }

    // Unlocking

    /// Why the vault is not unlocked with a password now.
    pub open spec fn unlock_refusal(&self, password_is_valid: bool) -> Option<Verdict> {
        if self.state == AgentState::Unlocking {
            Some(Verdict::busy())
        } else if self.state != AgentState::Locked {
            Some(Verdict::conflict())
        } else if self.coordinator.kdf_active {
            Some(Verdict::busy())
        } else if !password_is_valid {
            Some(Verdict::invalid())
        } else if self.coordinator.lock_active {
            Some(Verdict::busy())
        } else {
            None
        }
    }

    /// Begins to unlock the vault with a password: it must be locked, no other
    /// password may be under trial, and it must not be being locked. From here
    /// on the agent says that it is unlocking.
    pub fn begin_unlock(&mut self, password_is_valid: bool) -> (begun: Result<FlagPermit, Verdict>)
        requires
            old(self).wf(),
        ensures
            final(self).wf(),
            final(self).same_besides_lifecycle(old(self)),
            match old(self).unlock_refusal(password_is_valid) {
                Some(verdict) => {
                    &&& begun == Err::<FlagPermit, Verdict>(verdict)
                    &&& final(self).state == old(self).state
                    &&& final(self).coordinator.with_kdf(
                        &old(self).coordinator,
                        old(self).coordinator.kdf_active,
                    )
                },
                None => {
                    &&& begun is Ok
                    &&& begun->Ok_0.holds()
                    &&& final(self).state == AgentState::Unlocking
                    &&& final(self).coordinator.with_kdf(&old(self).coordinator, true)
                },
            },
    {
        if self.state == AgentState::Unlocking {
            return Err(Verdict::busy());
        }
        if self.state != AgentState::Locked {
            return Err(Verdict::conflict());
        }
        let permit = match FlagPermit::acquire(&mut self.coordinator.kdf_active) {
            Some(permit) => permit,
            None => {
                return Err(Verdict::busy());
            },
        };
        let refusal = if !password_is_valid {
            Verdict::invalid()
        } else if self.coordinator.lock_active {
            Verdict::busy()
        } else {
            self.state = AgentState::Unlocking;
            return Ok(permit);
        };
        permit.release(&mut self.coordinator.kdf_active);
        Err(refusal)
    }

    /// Says that the agent is unlocking, where the platform's prompt is to be
    /// shown for a locked vault.
    pub fn enter_unlocking(&mut self)
        requires
            old(self).state == AgentState::Locked,
        ensures
            final(self).state == AgentState::Unlocking,
            final(self).coordinator == old(self).coordinator,
            final(self).same_besides_lifecycle(old(self)),
    {
        self.state = AgentState::Unlocking;
    }

    /// Whether an attempt ended with the vault locked.
    pub open spec fn abandons<S>(
        &self,
        before: &AgentRuntime,
        vault: &VaultAgent<S>,
        vault_before: &VaultAgent<S>,
    ) -> bool {
        &&& vault.is_locked_form_of(vault_before)
        &&& self.state == before.locked_state()
        &&& self.coordinator.epoch == before.coordinator.epoch
        &&& self.coordinator.requests() == before.coordinator.requests()
        &&& self.same_besides_lifecycle(before)
    }

    /// How publishing an open vault ends.
    pub open spec fn publishes<S, E>(
        &self,
        before: &AgentRuntime,
        vault: &VaultAgent<S>,
        vault_before: &VaultAgent<S>,
        owners: Map<u64, OwnedFiles>,
        owners_before: Map<u64, OwnedFiles>,
        current: Result<OwnershipRecord, RuntimeStartError>,
        authenticated: Option<OwnershipRecord>,
        vault_id: [u8; 16],
        key: RequestKey,
        expired: bool,
        encode_status: E,
        outcome: Result<ExecutionOutcome, DispatchError>,
    ) -> bool where E: FnOnce(AgentState, u64) -> Result<Vec<u8>, ProtocolError> {
        let bound = authenticated is Some && before.ownership.may_bind_authenticated(
            owners_before,
            authenticated->Some_0@,
            current,
        ) && (before.idempotency@.vault_id == Some(vault_id) || before.idempotency@.in_flight.len()
            == 0);
        &&& self.same_agent(before)
        &&& self.pending_passkey_creations == before.pending_passkey_creations
        &&& self.coordinator.requests() == before.coordinator.requests()
        &&& self.coordinator.global_in_flight == before.coordinator.global_in_flight
        &&& self.coordinator.mutation_active == before.coordinator.mutation_active
        &&& self.coordinator.lock_active == before.coordinator.lock_active
        &&& if before.coordinator.lock_active || before.coordinator.cancelled(key) || before.state
            != AgentState::Unlocking {
            &&& self.abandons(before, vault, vault_before)
            &&& owners == owners_before
            &&& ends_with(outcome, Verdict::cancelled())
        } else if expired {
            &&& self.abandons(before, vault, vault_before)
            &&& owners == owners_before
            &&& ends_with(outcome, Verdict::deadline())
        } else if !bound {
            &&& vault.is_locked_form_of(vault_before)
            &&& self.state == before.locked_state()
            &&& self.coordinator.epoch == before.coordinator.epoch
            &&& self.idempotency@ == before.idempotency@
            &&& owners == owners_before
            &&& ends_with(outcome, Verdict::failed())
        } else {
            let token = before.ownership.token;
            &&& *vault == *vault_before
            &&& owners == owners_before.insert(
                token,
                (OwnedFiles { vault: current->Ok_0@, ..owners_before[token] }),
            )
            &&& self.idempotency@ == (if before.idempotency@.vault_id == Some(vault_id) {
                before.idempotency@
            } else {
                before.idempotency@.of_vault(vault_id)
            })
            &&& if before.coordinator.epoch == u64::MAX {
                &&& outcome == Err::<ExecutionOutcome, DispatchError>(DispatchError::Internal)
                &&& self.state == before.state
                &&& self.coordinator.epoch == before.coordinator.epoch
            } else {
                &&& self.state == AgentState::Unlocked
                &&& self.coordinator.epoch == before.coordinator.epoch + 1
                &&& reports(
                    outcome,
                    encode_status,
                    AgentState::Unlocked,
                    self.coordinator.epoch,
                )
            }
        }
    }

    /// Publishes a vault that was just opened: a new epoch begins, in which
    /// requests may work on it. It is locked again where the request ended, or
    /// where the file that was opened is not the one that this agent owns.
    pub fn publish_authenticated_unlock<S, E>(
        &mut self,
        vault: &mut VaultAgent<S>,
        registry: &mut OwnershipRegistry,
        current: Result<OwnershipRecord, RuntimeStartError>,
        authenticated: Option<OwnershipRecord>,
        vault_id: [u8; 16],
        key: &RequestKey,
        expired: bool,
        encode_status: E,
    ) -> (outcome: Result<ExecutionOutcome, DispatchError>) where
        E: FnOnce(AgentState, u64) -> Result<Vec<u8>, ProtocolError>,

        requires
            old(self).wf(),
            old(vault).wf(),
            old(registry).wf(),
            forall|state: AgentState, epoch: u64| call_requires(encode_status, (state, epoch)),
        ensures
            final(self).wf(),
            final(vault).wf(),
            final(registry).wf(),
            final(self).coordinator.same_flags(&old(self).coordinator),
            final(self).publishes(
                old(self),
                final(vault),
                old(vault),
                final(registry)@,
                old(registry)@,
                current,
                authenticated,
                vault_id,
                *key,
                expired,
                encode_status,
                outcome,
            ),
    {
        if self.coordinator.lock_active || self.coordinator.is_cancelled(key) || self.state
            != AgentState::Unlocking {
            vault.lock();
            self.set_locked_unless_shutting_down();
            return Ok(ExecutionOutcome::without_body(Verdict::cancelled()));
        }
        if expired {
            vault.lock();
            self.set_locked_unless_shutting_down();
            return Ok(ExecutionOutcome::without_body(Verdict::deadline()));
        }
        let authenticated = match authenticated {
            Some(authenticated) => authenticated,
            None => {
                vault.lock();
                self.set_locked_unless_shutting_down();
                return Ok(ExecutionOutcome::without_body(Verdict::failed()));
            },
        };
        if self.ownership.bind_authenticated(
            registry,
            &authenticated,
            current,
            &mut self.idempotency,
            vault_id,
        ).is_err() {
            vault.lock();
            self.set_locked_unless_shutting_down();
            return Ok(ExecutionOutcome::without_body(Verdict::failed()));
        }
        match self.coordinator.advance_epoch_without_cancellation() {
            Ok(_) => {},
            Err(error) => {
                return Err(error);
            },
        }
        self.state = AgentState::Unlocked;
        report(encode_status, AgentState::Unlocked, self.coordinator.epoch)
    }

    /// Ends an attempt to unlock the vault with a password. An attempt whose
    /// request was told to stop or came too late leaves the vault locked, even
    /// where the password was right.
    pub fn finish_unlock<S, E>(
        &mut self,
        vault: &mut VaultAgent<S>,
        permit: FlagPermit,
        registry: &mut OwnershipRegistry,
        current: Result<OwnershipRecord, RuntimeStartError>,
        authenticated: Option<OwnershipRecord>,
        result: Result<Option<[u8; 16]>, UnlockError>,
        key: &RequestKey,
        expired: bool,
        encode_status: E,
    ) -> (outcome: Result<ExecutionOutcome, DispatchError>) where
        E: FnOnce(AgentState, u64) -> Result<Vec<u8>, ProtocolError>,

        requires
            old(self).wf(),
            old(vault).wf(),
            old(registry).wf(),
            permit.holds(),
            forall|state: AgentState, epoch: u64| call_requires(encode_status, (state, epoch)),
        ensures
            final(self).wf(),
            final(vault).wf(),
            final(registry).wf(),
            !final(self).coordinator.kdf_active,
            final(self).coordinator.global_in_flight == old(self).coordinator.global_in_flight,
            final(self).coordinator.mutation_active == old(self).coordinator.mutation_active,
            final(self).coordinator.lock_active == old(self).coordinator.lock_active,
            if old(self).coordinator.cancelled(*key) {
                &&& final(self).abandons(old(self), final(vault), old(vault))
                &&& final(registry)@ == old(registry)@
                &&& ends_with(outcome, Verdict::cancelled())
            } else if expired {
                &&& final(self).abandons(old(self), final(vault), old(vault))
                &&& final(registry)@ == old(registry)@
                &&& ends_with(outcome, Verdict::deadline())
            } else {
                match result {
                    Err(error) => {
                        &&& *final(vault) == *old(vault)
                        &&& final(registry)@ == old(registry)@
                        &&& final(self).state == old(self).locked_state()
                        &&& final(self).coordinator.with_kdf(&old(self).coordinator, false)
                        &&& final(self).same_besides_lifecycle(old(self))
                        &&& ends_with(
                            outcome,
                            if error == UnlockError::Cancelled {
                                Verdict::cancelled()
                            } else {
                                Verdict::failed()
                            },
                        )
                    },
                    Ok(None) => {
                        &&& outcome == Err::<ExecutionOutcome, DispatchError>(
                            DispatchError::Internal,
                        )
                        &&& *final(vault) == *old(vault)
                        &&& final(registry)@ == old(registry)@
                        &&& final(self).state == old(self).state
                        &&& final(self).coordinator.with_kdf(&old(self).coordinator, false)
                        &&& final(self).same_besides_lifecycle(old(self))
                    },
                    Ok(Some(vault_id)) => final(self).publishes(
                        old(self),
                        final(vault),
                        old(vault),
                        final(registry)@,
                        old(registry)@,
                        current,
                        authenticated,
                        vault_id,
                        *key,
                        expired,
                        encode_status,
                        outcome,
                    ),
                }
            },
    {
        let outcome = if self.coordinator.is_cancelled(key) {
            vault.lock();
            self.set_locked_unless_shutting_down();
            Ok(ExecutionOutcome::without_body(Verdict::cancelled()))
        } else if expired {
            vault.lock();
            self.set_locked_unless_shutting_down();
            Ok(ExecutionOutcome::without_body(Verdict::deadline()))
        } else {
            match result {
                Ok(Some(vault_id)) => self.publish_authenticated_unlock(
                    vault,
                    registry,
                    current,
                    authenticated,
                    vault_id,
                    key,
                    expired,
                    encode_status,
                ),
                Ok(None) => Err(DispatchError::Internal),
                Err(UnlockError::Cancelled) => {
                    self.set_locked_unless_shutting_down();
                    Ok(ExecutionOutcome::without_body(Verdict::cancelled()))
                },
                Err(UnlockError::Failed) => {
                    self.set_locked_unless_shutting_down();
                    Ok(ExecutionOutcome::without_body(Verdict::failed()))
                },
            }
        };
        permit.release(&mut self.coordinator.kdf_active);
        outcome
    }
}

// Laws

/// An agent that shuts down stays so: it falls back to no other state, and
/// neither creates nor unlocks a vault.
pub proof fn shutting_down_is_final(agent: AgentRuntime, password_is_valid: bool)
    requires
        agent.state == AgentState::ShuttingDown,
    ensures
        agent.locked_state() == AgentState::ShuttingDown,
        agent.lock_target() == AgentState::ShuttingDown,
        agent.unlock_refusal(password_is_valid) == Some(Verdict::conflict()),
        agent.creation_refusal() == Some(Verdict::conflict()),
{
}

/// A new vault is published whenever its request was neither cancelled nor is
/// late, nothing is locking, and the agent still has no vault and the epoch in
/// which the creation began. Nothing else keeps it from being published.
pub proof fn wanted_vaults_are_published(
    agent: AgentRuntime,
    key: RequestKey,
    start_epoch: u64,
    expired: bool,
    allowed: Result<(), CreateError>,
)
    requires
        call_ensures(
            AgentRuntime::may_publish_creation,
            (&agent, &key, start_epoch, expired),
            allowed,
        ),
    ensures
        allowed is Ok <==> {
            &&& agent.state == AgentState::NoVault
            &&& agent.coordinator.epoch == start_epoch
            &&& !agent.coordinator.lock_active
            &&& !expired
            &&& !(agent.coordinator.requests().dom().contains(key)
                && agent.coordinator.requests()[key])
        },
{
}

/// A vault that was linked to its name was still wanted when the last word was
/// asked for, which was before that: the request was neither cancelled nor
/// late, nothing was locking the vault, and no new epoch had begun.
pub proof fn published_vaults_were_still_wanted(
    events: Seq<crate::storage::CreateEvent>,
    asked: AgentRuntime,
    key: RequestKey,
    start_epoch: u64,
    expired: bool,
)
    requires
        crate::storage::create_after(events).linked,
        events.len() > 7 ==> events[7] == crate::storage::CreateEvent::Asked(
            asked.last_word(key, start_epoch, expired),
        ),
    ensures
        !expired,
        !asked.coordinator.cancelled(key),
        !asked.coordinator.lock_active,
        asked.coordinator.epoch == start_epoch,
        asked.state == AgentState::NoVault,
{
    crate::storage::creations_ask_once_before_publishing(events);
    assert(crate::storage::is_success_at(events[7], 7));
}

/// Of two attempts to unlock, the second is refused while the first is under
/// way.
pub proof fn one_unlock_at_a_time(agent: AgentRuntime, password_is_valid: bool)
    requires
        agent.state == AgentState::Unlocking,
    ensures
        agent.unlock_refusal(password_is_valid) == Some(Verdict::busy()),
{
}

/// A vault begins to be created wherever there is none and nothing else changes
/// records; whoever may wait is told to come again, and whoever has a vault
/// already is not.
pub proof fn wanted_creations_begin(agent: &AgentRuntime)
    ensures
        agent.creation_refusal() is None <==> agent.state == AgentState::NoVault
            && !agent.coordinator.mutation_active,
        agent.creation_refusal() matches Some(verdict) ==> match verdict.error {
            Some(crate::protocol::PublicErrorCode::Conflict) => agent.state != AgentState::NoVault,
            Some(crate::protocol::PublicErrorCode::Busy) => agent.state == AgentState::NoVault,
            _ => false,
        },
{
}

/// A creation that has begun goes on with every valid password, as long as its
/// request is wanted and nothing locks the vault. What ends it is answered.
pub proof fn begun_creations_go_on(
    agent: &AgentRuntime,
    key: RequestKey,
    expired: bool,
    valid: bool,
)
    ensures
        ({
            let requests = agent.coordinator.requests();
            let unwanted = requests.dom().contains(key) && requests[key];
            let stop = agent.creation_stop(key, expired, valid);
            &&& stop is None <==> !unwanted && !expired && !agent.coordinator.lock_active && valid
            &&& stop matches Some(verdict) ==> match verdict.error {
                Some(crate::protocol::PublicErrorCode::Cancelled) => unwanted,
                Some(crate::protocol::PublicErrorCode::DeadlineExceeded) => !unwanted && expired,
                Some(crate::protocol::PublicErrorCode::Busy) => !unwanted && !expired
                    && agent.coordinator.lock_active,
                Some(crate::protocol::PublicErrorCode::InvalidRequest) => !unwanted && !expired
                    && !agent.coordinator.lock_active && !valid,
                _ => false,
            }
        }),
{
}

/// A locked vault begins to be unlocked with every valid password, unless
/// another one is under trial or the vault is being locked. Whoever may wait is
/// told to come again; a wrong password is told apart from both.
pub proof fn wanted_unlocks_begin(agent: &AgentRuntime, valid: bool)
    ensures
        agent.unlock_refusal(valid) is None <==> agent.state == AgentState::Locked
            && !agent.coordinator.kdf_active && !agent.coordinator.lock_active && valid,
        agent.unlock_refusal(valid) matches Some(verdict) ==> match verdict.error {
            Some(crate::protocol::PublicErrorCode::Busy) => agent.state == AgentState::Unlocking || agent.state
                == AgentState::Locked && (agent.coordinator.kdf_active || valid),
            Some(crate::protocol::PublicErrorCode::Conflict) => agent.state != AgentState::Unlocking && agent.state
                != AgentState::Locked,
            Some(crate::protocol::PublicErrorCode::InvalidRequest) => agent.state == AgentState::Locked
                && !agent.coordinator.kdf_active && !valid,
            _ => false,
        },
{
}

/// A file that somebody else's path or identity does not stand for.
proof fn nobody_else_owns(owners: Map<u64, OwnedFiles>, token: u64, file: crate::ownership::OwnedFile)
    requires
        forall|other: u64| #[trigger]
            owners.dom().contains(other) && other != token ==> {
                &&& owners[other].vault.path != file.path
                &&& owners[other].vault.identity != file.identity
                &&& owners[other].state matches Some(state) ==> state.path != file.path
                    && state.identity != file.identity
            },
    ensures
        !crate::ownership::owned_by_another(owners, token, file),
{
}

/// A vault that was opened is published: where its request is still wanted, no
/// one locks it, its file is the one that stands at the agent's own path and no
/// other agent has anything to do with that file, and no request of another
/// vault is under way, the agent is unlocked in the next epoch, the vault stays
/// open, the file is the agent's, and the peer is told so.
pub proof fn opened_vaults_are_published<S, E>(
    before: &AgentRuntime,
    after: &AgentRuntime,
    vault_before: &VaultAgent<S>,
    vault: &VaultAgent<S>,
    owners_before: Map<u64, OwnedFiles>,
    owners: Map<u64, OwnedFiles>,
    file: OwnershipRecord,
    current: OwnershipRecord,
    vault_id: [u8; 16],
    key: RequestKey,
    encode_status: E,
    outcome: Result<ExecutionOutcome, DispatchError>,
) where E: FnOnce(AgentState, u64) -> Result<Vec<u8>, ProtocolError>
    requires
        after.publishes(
            before,
            vault,
            vault_before,
            owners,
            owners_before,
            Ok(current),
            Some(file),
            vault_id,
            key,
            false,
            encode_status,
            outcome,
        ),
        before.state == AgentState::Unlocking,
        before.coordinator.epoch < u64::MAX,
        !before.coordinator.lock_active,
        before.coordinator.requests().dom().contains(key),
        !before.coordinator.requests()[key],
        before.idempotency@.vault_id == Some(vault_id) || before.idempotency@.in_flight.len() == 0,
        file@ == current@,
        file@.identity is Some,
        owners_before.dom().contains(before.ownership.token),
        owners_before[before.ownership.token].vault.path == file@.path,
        forall|other: u64| #[trigger]
            owners_before.dom().contains(other) && other != before.ownership.token ==> {
                &&& owners_before[other].vault.path != file@.path
                &&& owners_before[other].vault.identity != file@.identity
                &&& owners_before[other].state matches Some(state) ==> state.path != file@.path
                    && state.identity != file@.identity
            },
        forall|state: AgentState, epoch: u64, encoded: Result<Vec<u8>, ProtocolError>| #[trigger]
            call_ensures(encode_status, (state, epoch), encoded) ==> encoded is Ok,
    ensures
        after.state == AgentState::Unlocked,
        after.coordinator.epoch == before.coordinator.epoch + 1,
        *vault == *vault_before,
        owners.dom() == owners_before.dom(),
        owners[before.ownership.token].vault == file@,
        owners[before.ownership.token].state == owners_before[before.ownership.token].state,
        forall|other: u64| other != before.ownership.token && #[trigger] owners.dom().contains(other)
            ==> owners[other] == owners_before[other],
        outcome is Ok,
        outcome->Ok_0.verdict.error is None,
        exists|status: Vec<u8>|
            call_ensures(
                encode_status,
                (AgentState::Unlocked, after.coordinator.epoch),
                Ok::<Vec<u8>, ProtocolError>(status),
            ) && #[trigger] status@ == outcome->Ok_0.body@,
        after.idempotency@.vault_id == Some(vault_id),
        after.idempotency@.in_flight == before.idempotency@.in_flight,
        before.idempotency@.vault_id == Some(vault_id) ==> after.idempotency@.cached
            == before.idempotency@.cached,
{
    nobody_else_owns(owners_before, before.ownership.token, file@);
    assert(owners.dom() =~= owners_before.dom());
}

/// A vault that is published belongs to a request that wants it and to the file
/// that was opened: wherever the agent ends unlocked in a new epoch, all of what
/// publishing asks for was so, and wherever it does not, the vault is closed
/// again, or the epochs are used up.
pub proof fn published_vaults_were_asked_for<S, E>(
    before: &AgentRuntime,
    after: &AgentRuntime,
    vault_before: &VaultAgent<S>,
    vault: &VaultAgent<S>,
    owners_before: Map<u64, OwnedFiles>,
    owners: Map<u64, OwnedFiles>,
    current: Result<OwnershipRecord, RuntimeStartError>,
    authenticated: Option<OwnershipRecord>,
    vault_id: [u8; 16],
    key: RequestKey,
    expired: bool,
    encode_status: E,
    outcome: Result<ExecutionOutcome, DispatchError>,
) where E: FnOnce(AgentState, u64) -> Result<Vec<u8>, ProtocolError>
    requires
        after.publishes(
            before,
            vault,
            vault_before,
            owners,
            owners_before,
            current,
            authenticated,
            vault_id,
            key,
            expired,
            encode_status,
            outcome,
        ),
        before.coordinator.epoch < u64::MAX,
    ensures
        after.coordinator.epoch != before.coordinator.epoch ==> {
            let token = before.ownership.token;
            let requests = before.coordinator.requests();
            &&& before.state == AgentState::Unlocking && after.state == AgentState::Unlocked
            &&& !expired && !before.coordinator.lock_active
            &&& !(requests.dom().contains(key) && requests[key])
            &&& authenticated is Some && current is Ok
            &&& authenticated->Some_0@ == current->Ok_0@
            &&& current->Ok_0@.identity is Some
            &&& owners_before[token].vault.path == current->Ok_0@.path
            &&& forall|other: u64| #[trigger]
                owners_before.dom().contains(other) && other != token ==> {
                    &&& owners_before[other].vault.path != current->Ok_0@.path
                    &&& owners_before[other].vault.identity != current->Ok_0@.identity
                    &&& owners_before[other].state matches Some(state) ==> state.path
                        != current->Ok_0@.path && state.identity != current->Ok_0@.identity
                }
            &&& before.idempotency@.vault_id != Some(vault_id)
                ==> after.idempotency@.cached.len() == 0
        },
        after.coordinator.epoch == before.coordinator.epoch ==> {
            &&& vault.session is None
            &&& after.state != AgentState::Unlocked
            &&& owners == owners_before
            &&& outcome matches Ok(ended) && ended.verdict.error is Some && ended.body@.len() == 0
        },
{
    if after.coordinator.epoch != before.coordinator.epoch {
        let token = before.ownership.token;
        let file = current->Ok_0@;
        assert forall|other: u64| #[trigger]
            owners_before.dom().contains(other) && other != token implies {
            &&& owners_before[other].vault.path != file.path
            &&& owners_before[other].vault.identity != file.identity
            &&& owners_before[other].state matches Some(state) ==> state.path != file.path
                && state.identity != file.identity
        } by {
            assert(!owners_before[other].conflicts(file));
        }
    }
}

/// A vault that was created is opened: where its file stands at the agent's own
/// path and no other agent has anything to do with it, and the kept results are
/// of no other vault, the agent is unlocked in the next epoch with the new
/// vault, and the peer is told so.
pub proof fn created_vaults_are_opened<S, E>(
    before: &AgentRuntime,
    after: &AgentRuntime,
    vault_before: &VaultAgent<S>,
    vault: &VaultAgent<S>,
    owners_before: Map<u64, OwnedFiles>,
    owners: Map<u64, OwnedFiles>,
    observed: OwnershipRecord,
    created: VaultAgent<S>,
    encode_status: E,
    outcome: Result<ExecutionOutcome, DispatchError>,
) where E: FnOnce(AgentState, u64) -> Result<Vec<u8>, ProtocolError>
    requires
        after.opens_created(
            before,
            vault,
            vault_before,
            owners,
            owners_before,
            Ok(observed),
            created,
            encode_status,
            outcome,
        ),
        before.coordinator.epoch < u64::MAX,
        created.binding is Some,
        before.idempotency@.vault_id is None,
        observed@.identity is Some,
        owners_before.dom().contains(before.ownership.token),
        owners_before[before.ownership.token].vault.path == observed@.path,
        forall|other: u64| #[trigger]
            owners_before.dom().contains(other) && other != before.ownership.token ==> {
                &&& owners_before[other].vault.path != observed@.path
                &&& owners_before[other].vault.identity != observed@.identity
                &&& owners_before[other].state matches Some(state) ==> state.path != observed@.path
                    && state.identity != observed@.identity
            },
        forall|state: AgentState, epoch: u64, encoded: Result<Vec<u8>, ProtocolError>| #[trigger]
            call_ensures(encode_status, (state, epoch), encoded) ==> encoded is Ok,
    ensures
        after.state == AgentState::Unlocked,
        after.coordinator.epoch == before.coordinator.epoch + 1,
        *vault == created,
        owners[before.ownership.token].vault == observed@,
        owners[before.ownership.token].state == owners_before[before.ownership.token].state,
        outcome is Ok,
        outcome->Ok_0.verdict.error is None,
        after.idempotency@.vault_id == Some(created.binding->Some_0.vault_id),
{
    nobody_else_owns(owners_before, before.ownership.token, observed@);
}

/// A vault that was opened and is not published is answered with why: its
/// request ended or the vault is being locked, it is too late, or its file is
/// not the agent's.
pub proof fn unpublished_vaults_say_why<S, E>(
    before: &AgentRuntime,
    after: &AgentRuntime,
    vault_before: &VaultAgent<S>,
    vault: &VaultAgent<S>,
    owners_before: Map<u64, OwnedFiles>,
    owners: Map<u64, OwnedFiles>,
    current: Result<OwnershipRecord, RuntimeStartError>,
    authenticated: Option<OwnershipRecord>,
    vault_id: [u8; 16],
    key: RequestKey,
    expired: bool,
    encode_status: E,
    outcome: Result<ExecutionOutcome, DispatchError>,
) where E: FnOnce(AgentState, u64) -> Result<Vec<u8>, ProtocolError>
    requires
        after.publishes(
            before,
            vault,
            vault_before,
            owners,
            owners_before,
            current,
            authenticated,
            vault_id,
            key,
            expired,
            encode_status,
            outcome,
        ),
        outcome matches Ok(ended) && ended.verdict.error is Some,
    ensures
        ({
            let requests = before.coordinator.requests();
            let ended = before.coordinator.lock_active || requests.dom().contains(key)
                && requests[key] || before.state != AgentState::Unlocking;
            let error = outcome->Ok_0.verdict.error;
            &&& error == Some(crate::protocol::PublicErrorCode::Cancelled) <==> ended
            &&& error == Some(crate::protocol::PublicErrorCode::DeadlineExceeded) <==> !ended
                && expired
            &&& error == Some(crate::protocol::PublicErrorCode::OperationFailed) <==> !ended
                && !expired
            &&& after.state == (if before.state == AgentState::Updating || before.state
                == AgentState::ShuttingDown {
                before.state
            } else {
                AgentState::Locked
            })
        }),
{
}

/// A vault that was created is opened only where its file is bound to this agent
/// and the kept results are of no other vault; where it is not, the handle stays
/// as it was and nobody is told of a success.
pub proof fn opened_creations_were_bound<S, E>(
    before: &AgentRuntime,
    after: &AgentRuntime,
    vault_before: &VaultAgent<S>,
    vault: &VaultAgent<S>,
    owners_before: Map<u64, OwnedFiles>,
    owners: Map<u64, OwnedFiles>,
    observed: Result<OwnershipRecord, RuntimeStartError>,
    created: VaultAgent<S>,
    encode_status: E,
    outcome: Result<ExecutionOutcome, DispatchError>,
) where E: FnOnce(AgentState, u64) -> Result<Vec<u8>, ProtocolError>
    requires
        after.opens_created(
            before,
            vault,
            vault_before,
            owners,
            owners_before,
            observed,
            created,
            encode_status,
            outcome,
        ),
    ensures
        after.coordinator.epoch != before.coordinator.epoch ==> {
            let token = before.ownership.token;
            &&& after.coordinator.epoch == before.coordinator.epoch + 1
            &&& after.state == AgentState::Unlocked && *vault == created
            &&& observed matches Ok(file)
            &&& file@.identity is Some
            &&& owners_before[token].vault.path == file@.path
            &&& owners[token].vault == file@
            &&& created.binding matches Some(binding)
            &&& before.idempotency@.vault_id matches Some(kept) ==> kept == binding.vault_id
            &&& after.idempotency@.vault_id == Some(binding.vault_id)
            &&& forall|other: u64| #[trigger]
                owners_before.dom().contains(other) && other != token ==> {
                    &&& owners_before[other].vault.path != file@.path
                    &&& owners_before[other].vault.identity != file@.identity
                    &&& owners_before[other].state matches Some(state) ==> state.path != file@.path
                        && state.identity != file@.identity
                }
        },
        after.coordinator.epoch == before.coordinator.epoch ==> after.state == before.state
            && outcome is Err,
        before.idempotency@.vault_id is Some && created.binding is Some
            && before.idempotency@.vault_id->Some_0 != created.binding->Some_0.vault_id ==> *vault
            == *vault_before && outcome is Err,
{
    if after.coordinator.epoch != before.coordinator.epoch {
        let token = before.ownership.token;
        let file = observed->Ok_0@;
        assert forall|other: u64| #[trigger]
            owners_before.dom().contains(other) && other != token implies {
            &&& owners_before[other].vault.path != file.path
            &&& owners_before[other].vault.identity != file.identity
            &&& owners_before[other].state matches Some(state) ==> state.path != file.path
                && state.identity != file.identity
        } by {
            assert(!owners_before[other].conflicts(file));
        }
    }
}

} // verus!
