//! The operations on the vault that requests ask for.
//!
//! An operation begins and ends under the guard of the agent. What it does in
//! between, on the vault or on the platform, is done without that guard, so
//! that it can be cancelled and the vault can be locked meanwhile.

use vstd::prelude::*;

use crate::errors::{AccountError, DispatchError, PasskeyVerificationError, ProtocolError};
use crate::lifecycle::VaultAgent;
use crate::outcome::{
    map_account_error, map_passkey_verification_error, ExecutionOutcome, Verdict,
};
use crate::passkeys::{PendingPasskeyCreation, PendingPasskeyCreationKey};
use crate::permits::FlagPermit;
use crate::protocol::OperationCode;
use crate::runtime::AgentRuntime;
use crate::signals::{post_secret_operation, pre_secret_operation, Signals};

verus! {

/// Whether an error means that the session is over: something failed, or a
/// conflict has locked the vault.
pub open spec fn ends_session<S>(error: AccountError, vault: &VaultAgent<S>) -> bool {
    ||| error == AccountError::Failed
    ||| error == AccountError::Conflict && vault.session is None
}

/// Whether an error means that the session is over.
fn session_is_over<S>(error: AccountError, vault: &VaultAgent<S>) -> (over: bool)
    ensures
        over == ends_session(error, vault),
{
    error == AccountError::Failed || error == AccountError::Conflict && !vault.is_unlocked()
}

impl AgentRuntime {
    /// Whether the agent is as before but for its state and its epoch: the
    /// vault was found out to be locked.
    pub open spec fn is_locked_form(&self, before: &AgentRuntime) -> bool {
        &&& self.same_besides_lifecycle(before)
        &&& self.state == before.locked_state()
        &&& self.coordinator == before.coordinator
    }

    /// The answer of an operation that has secrets in hand and has to stop.
    /// Where the session no longer stands, the vault is locked.
    pub fn stop_with_secrets<S>(
        &mut self,
        vault: &mut VaultAgent<S>,
        signals: &Signals,
    ) -> (stop: Option<Verdict>)
        requires
            old(vault).wf(),
        ensures
            stop == post_secret_operation(signals),
            final(vault).wf(),
            signals.session_stands() ==> *final(self) == *old(self) && *final(vault) == *old(vault),
            !signals.session_stands() ==> final(self).is_locked_form(old(self))
                && final(vault).is_locked_form_of(old(vault)),
    {
        if !signals.session_stands() {
            vault.lock();
            self.set_locked_unless_shutting_down();
        }
        post_secret_operation(signals)
    }

    /// The answer of an operation that was aborted inside the vault: whatever
    /// aborted it still stands.
    pub fn abort_after_core<S>(
        &mut self,
        vault: &mut VaultAgent<S>,
        signals: &Signals,
    ) -> (aborted: Result<Verdict, DispatchError>)
        requires
            old(vault).wf(),
        ensures
            final(vault).wf(),
            aborted == (match post_secret_operation(signals) {
                Some(verdict) => Ok::<Verdict, DispatchError>(verdict),
                None => Err(DispatchError::Internal),
            }),
            signals.session_stands() ==> *final(self) == *old(self) && *final(vault) == *old(vault),
            !signals.session_stands() ==> final(self).is_locked_form(old(self))
                && final(vault).is_locked_form_of(old(vault)),
    {
        match self.stop_with_secrets(vault, signals) {
            Some(verdict) => Ok(verdict),
            None => Err(DispatchError::Internal),
        }
    }

    /// Whether the vault was locked, and every request told to stop, because
    /// something failed inside it.
    pub open spec fn is_failed_form(&self, before: &AgentRuntime) -> bool {
        &&& self.same_besides_lifecycle(before)
        &&& self.state == before.locked_state()
        &&& self.coordinator.same_flags(&before.coordinator)
        &&& before.coordinator.epoch < u64::MAX ==> {
            &&& self.coordinator.epoch == before.coordinator.epoch + 1
            &&& self.coordinator.requests() == before.coordinator.requests().map_values(
                |stop: bool| true,
            )
        }
        &&& before.coordinator.epoch == u64::MAX ==> self.coordinator == before.coordinator
    }

    /// The answer where the vault gave an error. A failure inside it locks it
    /// and begins a new epoch, and so does a conflict that has locked it; every
    /// other error leaves the agent as it is.
    pub fn account_error_after_core<S>(
        &mut self,
        vault: &mut VaultAgent<S>,
        error: AccountError,
    ) -> (answer: Result<Verdict, DispatchError>)
        requires
            old(self).wf(),
            old(vault).wf(),
        ensures
            final(self).wf(),
            final(vault).wf(),
            !ends_session(error, old(vault)) ==> {
                &&& answer == Ok::<Verdict, DispatchError>(map_account_error(error))
                &&& *final(self) == *old(self)
                &&& *final(vault) == *old(vault)
            },
            ends_session(error, old(vault)) ==> {
                &&& final(vault).is_locked_form_of(old(vault))
                &&& final(self).is_failed_form(old(self))
                &&& answer == (if old(self).coordinator.epoch < u64::MAX {
                    Ok::<Verdict, DispatchError>(map_account_error(error))
                } else {
                    Err(DispatchError::Internal)
                })
            },
    {
        if !session_is_over(error, vault) {
            return Ok(map_account_error(error));
        }
        vault.lock();
        self.set_locked_unless_shutting_down();
        match self.coordinator.advance_epoch() {
            Ok(_) => Ok(map_account_error(error)),
            Err(fatal) => Err(fatal),
        }
    }

    /// The answer where reading the vault gave an error. What the error would
    /// say of the vault's contents is held back once the operation has to stop.
    pub fn authenticated_read_error_after_core<S>(
        &mut self,
        vault: &mut VaultAgent<S>,
        error: AccountError,
        signals: &Signals,
    ) -> (answer: Result<Verdict, DispatchError>)
        requires
            old(self).wf(),
            old(vault).wf(),
        ensures
            final(self).wf(),
            final(vault).wf(),
            ends_session(error, old(vault)) ==> {
                &&& final(vault).is_locked_form_of(old(vault))
                &&& final(self).is_failed_form(old(self))
                &&& answer == (if old(self).coordinator.epoch < u64::MAX {
                    Ok::<Verdict, DispatchError>(map_account_error(error))
                } else {
                    Err(DispatchError::Internal)
                })
            },
            !ends_session(error, old(vault)) ==> {
                &&& answer == Ok::<Verdict, DispatchError>(
                    match post_secret_operation(signals) {
                        Some(verdict) => verdict,
                        None => map_account_error(error),
                    },
                )
                &&& signals.session_stands() ==> *final(self) == *old(self) && *final(vault)
                    == *old(vault)
                &&& !signals.session_stands() ==> final(self).is_locked_form(old(self))
                    && final(vault).is_locked_form_of(old(vault))
            },
    {
        if session_is_over(error, vault) {
            return self.account_error_after_core(vault, error);
        }
        match self.stop_with_secrets(vault, signals) {
            Some(verdict) => Ok(verdict),
            None => Ok(map_account_error(error)),
        }
    }

    /// What the vault, the agent and the answer are after an operation that
    /// gave an error.
    pub open spec fn errs<S>(
        &self,
        before: &AgentRuntime,
        vault: &VaultAgent<S>,
        vault_before: &VaultAgent<S>,
        error: AccountError,
        signals: Signals,
        answer: Result<Verdict, DispatchError>,
    ) -> bool {
        if ends_session(error, vault_before) {
            &&& vault.is_locked_form_of(vault_before)
            &&& self.is_failed_form(before)
            &&& answer == (if before.coordinator.epoch < u64::MAX {
                Ok::<Verdict, DispatchError>(map_account_error(error))
            } else {
                Err(DispatchError::Internal)
            })
        } else {
            &&& signals.session_stands() ==> *self == *before && *vault == *vault_before
            &&& !signals.session_stands() ==> self.is_locked_form(before)
                && vault.is_locked_form_of(vault_before)
            &&& answer == (match post_secret_operation(&signals) {
                Some(verdict) => Ok::<Verdict, DispatchError>(verdict),
                None => if error == AccountError::Aborted {
                    Err(DispatchError::Internal)
                } else {
                    Ok(map_account_error(error))
                },
            })
        }
    }

    /// The answer where an operation on the vault gave an error.
    pub fn operation_error_after_core<S>(
        &mut self,
        vault: &mut VaultAgent<S>,
        error: AccountError,
        signals: &Signals,
    ) -> (answer: Result<Verdict, DispatchError>)
        requires
            old(self).wf(),
            old(vault).wf(),
        ensures
            final(self).wf(),
            final(vault).wf(),
            final(self).errs(old(self), final(vault), old(vault), error, *signals, answer),
    {
        match error {
            AccountError::Aborted => self.abort_after_core(vault, signals),
            _ => self.authenticated_read_error_after_core(vault, error, signals),
        }
    }

    // Reading

    /// Ends an operation that read secrets. They are handed on only while the
    /// session stands and the request is neither cancelled nor late.
    pub fn finish_read<S, T>(
        &mut self,
        vault: &mut VaultAgent<S>,
        result: Result<T, AccountError>,
        signals: &Signals,
    ) -> (released: Result<Result<T, Verdict>, DispatchError>)
        requires
            old(self).wf(),
            old(vault).wf(),
        ensures
            final(self).wf(),
            final(vault).wf(),
            match result {
                Ok(secrets) => {
                    &&& released == Ok::<Result<T, Verdict>, DispatchError>(
                        match post_secret_operation(signals) {
                            Some(verdict) => Err(verdict),
                            None => Ok(secrets),
                        },
                    )
                    &&& signals.session_stands() ==> *final(self) == *old(self) && *final(vault)
                        == *old(vault)
                    &&& !signals.session_stands() ==> final(self).is_locked_form(old(self))
                        && final(vault).is_locked_form_of(old(vault))
                },
                Err(error) => exists|answer: Result<Verdict, DispatchError>|
                    {
                        &&& #[trigger] final(self).errs(
                            old(self),
                            final(vault),
                            old(vault),
                            error,
                            *signals,
                            answer,
                        )
                        &&& released == (match answer {
                            Ok(verdict) => Ok::<Result<T, Verdict>, DispatchError>(Err(verdict)),
                            Err(fatal) => Err(fatal),
                        })
                    },
            },
    {
        match result {
            Ok(secrets) => match self.stop_with_secrets(vault, signals) {
                Some(verdict) => Ok(Err(verdict)),
                None => Ok(Ok(secrets)),
            },
            Err(error) => {
                let answer = self.operation_error_after_core(vault, error, signals);
                match answer {
                    Ok(verdict) => Ok(Err(verdict)),
                    Err(fatal) => Err(fatal),
                }
            },
        }
    }

    // Changing

    /// Begins an operation that changes records: there is one at a time, and it
    /// must not have to stop already.
    pub fn begin_change(&mut self, signals: &Signals) -> (begun: Result<FlagPermit, Verdict>)
        requires
            old(self).wf(),
        ensures
            final(self).wf(),
            final(self).same_besides_lifecycle(old(self)),
            final(self).state == old(self).state,
            match change_refusal(old(self), *signals) {
                Some(verdict) => {
                    &&& begun == Err::<FlagPermit, Verdict>(verdict)
                    &&& final(self).coordinator.with_mutation(
                        &old(self).coordinator,
                        old(self).coordinator.mutation_active,
                    )
                },
                None => {
                    &&& begun is Ok
                    &&& begun->Ok_0.holds()
                    &&& final(self).coordinator.with_mutation(&old(self).coordinator, true)
                },
            },
    {
        let permit = match FlagPermit::acquire(&mut self.coordinator.mutation_active) {
            Some(permit) => permit,
            None => {
                return Err(Verdict::busy());
            },
        };
        match pre_secret_operation(signals) {
            Some(verdict) => {
                permit.release(&mut self.coordinator.mutation_active);
                Err(verdict)
            },
            None => Ok(permit),
        }
    }

    /// Goes on with a change once its input was looked at and the vault is in
    /// hand, or gives it up.
    pub fn continue_change(
        &mut self,
        permit: FlagPermit,
        input_is_valid: bool,
        signals: &Signals,
    ) -> (going_on: Result<FlagPermit, Verdict>)
        requires
            old(self).wf(),
            permit.holds(),
        ensures
            final(self).wf(),
            final(self).same_besides_lifecycle(old(self)),
            final(self).state == old(self).state,
            !input_is_valid ==> going_on == Err::<FlagPermit, Verdict>(Verdict::invalid()),
            input_is_valid ==> match pre_secret_operation(signals) {
                Some(verdict) => going_on == Err::<FlagPermit, Verdict>(verdict),
                None => going_on is Ok && going_on->Ok_0.holds() && *final(self) == *old(self),
            },
            going_on is Err ==> final(self).coordinator.with_mutation(
                &old(self).coordinator,
                false,
            ),
    {
        if !input_is_valid {
            permit.release(&mut self.coordinator.mutation_active);
            return Err(Verdict::invalid());
        }
        match pre_secret_operation(signals) {
            Some(verdict) => {
                permit.release(&mut self.coordinator.mutation_active);
                Err(verdict)
            },
            None => Ok(permit),
        }
    }

    /// Ends an operation that changed records. A change that was stored is
    /// answered, whatever happened meanwhile.
    pub fn finish_change<S, T>(
        &mut self,
        vault: &mut VaultAgent<S>,
        permit: FlagPermit,
        result: Result<T, AccountError>,
        signals: &Signals,
    ) -> (answered: Result<Result<T, Verdict>, DispatchError>)
        requires
            old(self).wf(),
            old(vault).wf(),
            permit.holds(),
        ensures
            final(self).wf(),
            final(vault).wf(),
            match result {
                Ok(stored) => {
                    &&& answered == Ok::<Result<T, Verdict>, DispatchError>(Ok(stored))
                    &&& *final(vault) == *old(vault)
                    &&& final(self).same_besides_lifecycle(old(self))
                    &&& final(self).state == old(self).state
                    &&& final(self).coordinator.with_mutation(&old(self).coordinator, false)
                },
                Err(error) => exists|ended: AgentRuntime, answer: Result<Verdict, DispatchError>|
                    {
                        &&& #[trigger] ended.errs(
                            old(self),
                            final(vault),
                            old(vault),
                            error,
                            *signals,
                            answer,
                        )
                        &&& final(self).same_besides_lifecycle(&ended)
                        &&& final(self).state == ended.state
                        &&& final(self).coordinator.with_mutation(&ended.coordinator, false)
                        &&& answered == (match answer {
                            Ok(verdict) => Ok::<Result<T, Verdict>, DispatchError>(Err(verdict)),
                            Err(fatal) => Err(fatal),
                        })
                    },
            },
    {
        let answered = match result {
            Ok(stored) => Ok(Ok(stored)),
            Err(error) => {
                let answer = self.operation_error_after_core(vault, error, signals);
                assert(self.errs(old(self), vault, old(vault), error, *signals, answer));
                match answer {
                    Ok(verdict) => Ok(Err(verdict)),
                    Err(fatal) => Err(fatal),
                }
            },
        };
        permit.release(&mut self.coordinator.mutation_active);
        answered
    }

    // Passkeys

    /// Begins to make a passkey. The platform must have verified the request,
    /// and its transaction must not have made a passkey already.
    pub fn begin_make_passkey(
        &mut self,
        before: &Signals,
        verified: Result<(), PasskeyVerificationError>,
        key: &PendingPasskeyCreationKey,
        after: &Signals,
    ) -> (begun: Result<FlagPermit, Verdict>)
        requires
            old(self).wf(),
        ensures
            final(self).wf(),
            final(self).same_besides_lifecycle(old(self)),
            final(self).state == old(self).state,
            match make_passkey_refusal(*before, verified, old(self), *key, *after) {
                Some(verdict) => {
                    &&& begun == Err::<FlagPermit, Verdict>(verdict)
                    &&& final(self).coordinator.with_mutation(
                        &old(self).coordinator,
                        old(self).coordinator.mutation_active,
                    )
                },
                None => begun is Ok && begun->Ok_0.holds()
                    && final(self).coordinator.with_mutation(&old(self).coordinator, true),
            },
    {
        if let Some(verdict) = pre_secret_operation(before) {
            return Err(verdict);
        }
        if let Err(error) = verified {
            return Err(map_passkey_verification_error(error));
        }
        if self.pending_passkey_creations.contains(key) {
            return Err(Verdict::invalid());
        }
        self.begin_change(after)
    }

    /// Ends making a passkey. One that was stored can be taken back by its
    /// transaction from here on.
    pub fn finish_make_passkey<S, T>(
        &mut self,
        vault: &mut VaultAgent<S>,
        permit: FlagPermit,
        result: Result<(T, PendingPasskeyCreation), AccountError>,
        key: PendingPasskeyCreationKey,
        signals: &Signals,
    ) -> (answered: Result<Result<T, Verdict>, DispatchError>)
        requires
            old(self).wf(),
            old(vault).wf(),
            permit.holds(),
        ensures
            final(self).wf(),
            final(vault).wf(),
            match result {
                Ok((made, creation)) => {
                    &&& answered == (if old(self).pending_passkey_creations@.dom().contains(key) {
                        Err::<Result<T, Verdict>, DispatchError>(DispatchError::Internal)
                    } else {
                        Ok(Ok(made))
                    })
                    &&& final(self).pending_passkey_creations@ == old(
                        self,
                    ).pending_passkey_creations@.insert(key, creation)
                    &&& *final(vault) == *old(vault)
                    &&& final(self).same_agent(old(self))
                    &&& final(self).idempotency == old(self).idempotency
                    &&& final(self).state == old(self).state
                    &&& final(self).coordinator.with_mutation(&old(self).coordinator, false)
                },
                Err(error) => exists|ended: AgentRuntime, answer: Result<Verdict, DispatchError>|
                    {
                        &&& #[trigger] ended.errs(
                            old(self),
                            final(vault),
                            old(vault),
                            error,
                            *signals,
                            answer,
                        )
                        &&& final(self).same_besides_lifecycle(&ended)
                        &&& final(self).state == ended.state
                        &&& final(self).coordinator.with_mutation(&ended.coordinator, false)
                        &&& answered == (match answer {
                            Ok(verdict) => Ok::<Result<T, Verdict>, DispatchError>(Err(verdict)),
                            Err(fatal) => Err(fatal),
                        })
                    },
            },
    {
        match result {
            Ok((made, creation)) => {
                let new = self.pending_passkey_creations.insert(key, creation);
                permit.release(&mut self.coordinator.mutation_active);
                if new {
                    Ok(Ok(made))
                } else {
                    Err(DispatchError::Internal)
                }
            },
            Err(error) => self.finish_change(vault, permit, Err(error), signals),
        }
    }

    /// Begins to use a passkey: the platform must have verified the request.
    pub fn begin_passkey_assertion(
        &mut self,
        before: &Signals,
        verified: Result<(), PasskeyVerificationError>,
        after: &Signals,
    ) -> (begun: Result<FlagPermit, Verdict>)
        requires
            old(self).wf(),
        ensures
            final(self).wf(),
            final(self).same_besides_lifecycle(old(self)),
            final(self).state == old(self).state,
            match assertion_refusal(*before, verified, old(self), *after) {
                Some(verdict) => {
                    &&& begun == Err::<FlagPermit, Verdict>(verdict)
                    &&& final(self).coordinator.with_mutation(
                        &old(self).coordinator,
                        old(self).coordinator.mutation_active,
                    )
                },
                None => begun is Ok && begun->Ok_0.holds()
                    && final(self).coordinator.with_mutation(&old(self).coordinator, true),
            },
    {
        if let Some(verdict) = pre_secret_operation(before) {
            return Err(verdict);
        }
        if let Err(error) = verified {
            return Err(map_passkey_verification_error(error));
        }
        self.begin_change(after)
    }

    /// Begins to take the creation of a passkey back: it must be the one that
    /// this transaction made, for the same process and in the same epoch.
    pub fn begin_rollback_passkey(
        &mut self,
        before: &Signals,
        verified: Result<(), PasskeyVerificationError>,
        key: &PendingPasskeyCreationKey,
        expected: &PendingPasskeyCreation,
        after: &Signals,
    ) -> (begun: Result<FlagPermit, Verdict>)
        requires
            old(self).wf(),
        ensures
            final(self).wf(),
            final(self).same_besides_lifecycle(old(self)),
            final(self).state == old(self).state,
            match rollback_refusal(*before, verified, old(self), *key, *expected, *after) {
                Some(verdict) => {
                    &&& begun == Err::<FlagPermit, Verdict>(verdict)
                    &&& final(self).coordinator.with_mutation(
                        &old(self).coordinator,
                        old(self).coordinator.mutation_active,
                    )
                },
                None => begun is Ok && begun->Ok_0.holds()
                    && final(self).coordinator.with_mutation(&old(self).coordinator, true),
            },
    {
        if let Some(verdict) = pre_secret_operation(before) {
            return Err(verdict);
        }
        if let Err(error) = verified {
            return Err(map_passkey_verification_error(error));
        }
        if !self.pending_passkey_creations.made(key, expected) {
            return Err(Verdict::invalid());
        }
        self.begin_change(after)
    }

    /// Ends taking a creation back. A passkey that is gone already counts as
    /// taken back.
    pub fn finish_rollback_passkey<S>(
        &mut self,
        vault: &mut VaultAgent<S>,
        permit: FlagPermit,
        result: Result<(), AccountError>,
        key: &PendingPasskeyCreationKey,
        expected: &PendingPasskeyCreation,
        signals: &Signals,
    ) -> (answered: Result<Result<(), Verdict>, DispatchError>)
        requires
            old(self).wf(),
            old(vault).wf(),
            permit.holds(),
        ensures
            final(self).wf(),
            final(vault).wf(),
            result is Ok || result->Err_0 == AccountError::NotFound ==> {
                let pending = old(self).pending_passkey_creations@;
                &&& final(self).pending_passkey_creations@ == pending.remove(*key)
                &&& *final(vault) == *old(vault)
                &&& final(self).same_agent(old(self))
                &&& final(self).idempotency == old(self).idempotency
                &&& final(self).state == old(self).state
                &&& final(self).coordinator.with_mutation(&old(self).coordinator, false)
                &&& answered == (if pending.dom().contains(*key) && pending[*key] != *expected {
                    Err::<Result<(), Verdict>, DispatchError>(DispatchError::Internal)
                } else {
                    Ok(Ok(()))
                })
            },
            result is Err && result->Err_0 != AccountError::NotFound ==> exists|
                ended: AgentRuntime,
                answer: Result<Verdict, DispatchError>,
            |
                {
                    &&& #[trigger] ended.errs(
                        old(self),
                        final(vault),
                        old(vault),
                        result->Err_0,
                        *signals,
                        answer,
                    )
                    &&& final(self).same_besides_lifecycle(&ended)
                    &&& final(self).state == ended.state
                    &&& final(self).coordinator.with_mutation(&ended.coordinator, false)
                    &&& answered == (match answer {
                        Ok(verdict) => Ok::<Result<(), Verdict>, DispatchError>(Err(verdict)),
                        Err(fatal) => Err(fatal),
                    })
                },
    {
        let taken_back = match result {
            Ok(()) => true,
            Err(AccountError::NotFound) => true,
            Err(_) => false,
        };
        if !taken_back {
            return self.finish_change(vault, permit, result, signals);
        }
        let removed = self.pending_passkey_creations.remove(key);
        permit.release(&mut self.coordinator.mutation_active);
        match removed {
            Some(creation) => if creation.same(expected) {
                Ok(Ok(()))
            } else {
                Err(DispatchError::Internal)
            },
            None => Ok(Ok(())),
        }
    }
}

/// Why a change is not begun now.
pub open spec fn change_refusal(agent: &AgentRuntime, signals: Signals) -> Option<Verdict> {
    if agent.coordinator.mutation_active {
        Some(Verdict::busy())
    } else {
        pre_secret_operation(&signals)
    }
}

/// Why a passkey is not used now.
pub open spec fn assertion_refusal(
    before: Signals,
    verified: Result<(), PasskeyVerificationError>,
    agent: &AgentRuntime,
    after: Signals,
) -> Option<Verdict> {
    match pre_secret_operation(&before) {
        Some(verdict) => Some(verdict),
        None => match verified {
            Err(error) => Some(map_passkey_verification_error(error)),
            Ok(()) => change_refusal(agent, after),
        },
    }
}

/// Why a passkey is not made now.
pub open spec fn make_passkey_refusal(
    before: Signals,
    verified: Result<(), PasskeyVerificationError>,
    agent: &AgentRuntime,
    key: PendingPasskeyCreationKey,
    after: Signals,
) -> Option<Verdict> {
    match pre_secret_operation(&before) {
        Some(verdict) => Some(verdict),
        None => match verified {
            Err(error) => Some(map_passkey_verification_error(error)),
            Ok(()) => if agent.pending_passkey_creations@.dom().contains(key) {
                Some(Verdict::invalid())
            } else {
                change_refusal(agent, after)
            },
        },
    }
}

/// Why the creation of a passkey is not taken back now.
pub open spec fn rollback_refusal(
    before: Signals,
    verified: Result<(), PasskeyVerificationError>,
    agent: &AgentRuntime,
    key: PendingPasskeyCreationKey,
    expected: PendingPasskeyCreation,
    after: Signals,
) -> Option<Verdict> {
    let pending = agent.pending_passkey_creations@;
    match pre_secret_operation(&before) {
        Some(verdict) => Some(verdict),
        None => match verified {
            Err(error) => Some(map_passkey_verification_error(error)),
            Ok(()) => if !(pending.dom().contains(key) && pending[key] == expected) {
                Some(Verdict::invalid())
            } else {
                change_refusal(agent, after)
            },
        },
    }
}

// Answers

/// Whether a successful operation on records is answered as durable.
#[verifier::allow_in_spec]
pub fn is_durable(operation: OperationCode) -> bool
    returns
        operation == OperationCode::MakePasskey || operation == OperationCode::GetPasskeyAssertion
            || operation == OperationCode::DeletePasskey || operation
            == OperationCode::RollbackPasskeyCreation,
{
    operation == OperationCode::MakePasskey || operation == OperationCode::GetPasskeyAssertion
        || operation == OperationCode::DeletePasskey || operation
        == OperationCode::RollbackPasskeyCreation
}

/// The outcome of an operation on records: what it released, put into bytes, or
/// the verdict on it.
pub fn record_outcome<T, E>(
    operation: OperationCode,
    answered: Result<Result<T, Verdict>, DispatchError>,
    encode: E,
) -> (outcome: Result<ExecutionOutcome, DispatchError>) where
    E: FnOnce(T) -> Result<Vec<u8>, ProtocolError>,

    requires
        forall|value: T| call_requires(encode, (value,)),
    ensures
        match answered {
            Err(fatal) => outcome == Err::<ExecutionOutcome, DispatchError>(fatal),
            Ok(Err(verdict)) => outcome is Ok && outcome->Ok_0.verdict == verdict
                && outcome->Ok_0.body@.len() == 0,
            Ok(Ok(value)) => exists|encoded: Result<Vec<u8>, ProtocolError>| #[trigger]
                call_ensures(encode, (value,), encoded) && match encoded {
                    Err(_) => outcome == Err::<ExecutionOutcome, DispatchError>(
                        DispatchError::Internal,
                    ),
                    Ok(body) => {
                        &&& outcome is Ok
                        &&& outcome->Ok_0.body@ == body@
                        &&& outcome->Ok_0.verdict == (if is_durable(operation) {
                            Verdict::success().commit_point()
                        } else {
                            Verdict::success()
                        })
                    },
                },
        },
{
    match answered {
        Err(fatal) => Err(fatal),
        Ok(Err(verdict)) => Ok(ExecutionOutcome::without_body(verdict)),
        Ok(Ok(value)) => match encode(value) {
            Err(_) => Err(DispatchError::Internal),
            Ok(body) => {
                let verdict = if is_durable(operation) {
                    Verdict::success().commit_point()
                } else {
                    Verdict::success()
                };
                Ok(ExecutionOutcome { verdict, body })
            },
        },
    }
}

/// Where the page after one of this many accounts begins, where there is one.
pub open spec fn next_offset(offset: u32, count: int, available: int, more: bool) -> Option<int> {
    if more || count < available {
        Some(offset + count)
    } else {
        None
    }
}

/// Whether a page of this many accounts was put into bytes with this result.
pub open spec fn page_encodes<E>(
    encode: E,
    offset: u32,
    count: int,
    available: int,
    more: bool,
    encoded: Result<Vec<u8>, ProtocolError>,
) -> bool where E: Fn(usize, Option<u32>) -> Result<Vec<u8>, ProtocolError> {
    match next_offset(offset, count, available, more) {
        None => call_ensures(encode, (count as usize, None::<u32>), encoded),
        Some(next) => next <= u32::MAX && call_ensures(
            encode,
            (count as usize, Some(next as u32)),
            encoded,
        ),
    }
}

/// Whether no page of this many accounts can be put into bytes at all.
pub open spec fn page_breaks<E>(
    encode: E,
    offset: u32,
    count: int,
    available: int,
    more: bool,
) -> bool where E: Fn(usize, Option<u32>) -> Result<Vec<u8>, ProtocolError> {
    ||| next_offset(offset, count, available, more) matches Some(next) && next > u32::MAX
    ||| exists|error: ProtocolError|
        error != ProtocolError::TooLarge && #[trigger] page_encodes(
            encode,
            offset,
            count,
            available,
            more,
            Err(error),
        )
}

/// Puts as many accounts as fit into one answer, and says where the next page
/// begins. One account more would not have fitted.
pub fn encode_summary_page<E>(
    available: usize,
    offset: u32,
    source_has_more: bool,
    encode: E,
) -> (outcome: Result<ExecutionOutcome, DispatchError>) where
    E: Fn(usize, Option<u32>) -> Result<Vec<u8>, ProtocolError>,

    requires
        available < usize::MAX,
        forall|count: usize, next: Option<u32>|
            count <= available ==> call_requires(encode, (count, next)),
    ensures
        available == 0 && source_has_more ==> outcome is Ok && outcome->Ok_0.verdict
            == Verdict::failed() && outcome->Ok_0.body@.len() == 0,
        available == 0 && !source_has_more ==> exists|encoded: Result<Vec<u8>, ProtocolError>|
            #[trigger] call_ensures(encode, (0usize, None::<u32>), encoded) && match encoded {
                Err(_) => outcome == Err::<ExecutionOutcome, DispatchError>(
                    DispatchError::Internal,
                ),
                Ok(body) => outcome is Ok && outcome->Ok_0.verdict == Verdict::success()
                    && outcome->Ok_0.body@ == body@,
            },
        available > 0 ==> match outcome {
            Err(fatal) => {
                &&& fatal == DispatchError::Internal
                &&& exists|count: int|
                    1 <= count <= available && #[trigger] page_breaks(
                        encode,
                        offset,
                        count,
                        available as int,
                        source_has_more,
                    )
            },
            Ok(page) => if page.verdict.error is None {
                &&& page.verdict == Verdict::success()
                &&& exists|count: int, body: Vec<u8>|
                    {
                        &&& 1 <= count <= available
                        &&& #[trigger] page_encodes(
                            encode,
                            offset,
                            count,
                            available as int,
                            source_has_more,
                            Ok(body),
                        )
                        &&& page.body@ == body@
                        &&& count == available || page_encodes(
                            encode,
                            offset,
                            count + 1,
                            available as int,
                            source_has_more,
                            Err(ProtocolError::TooLarge),
                        )
                    }
            } else {
                &&& page.verdict == Verdict::failed()
                &&& page.body@.len() == 0
                &&& page_encodes(
                    encode,
                    offset,
                    1,
                    available as int,
                    source_has_more,
                    Err(ProtocolError::TooLarge),
                )
            },
        },
{
    if available == 0 {
        if source_has_more {
            return Ok(ExecutionOutcome::without_body(Verdict::failed()));
        }
        return match encode(0, None) {
            Ok(body) => Ok(ExecutionOutcome::success(body)),
            Err(_) => Err(DispatchError::Internal),
        };
    }
    let mut lower: usize = 1;
    let mut upper: usize = available;
    let mut best: Option<Vec<u8>> = None;
    while lower <= upper
        invariant
            1 <= lower <= available + 1,
            upper <= available,
            available < usize::MAX,
            lower <= upper + 1,
            forall|count: usize, next: Option<u32>|
                count <= available ==> call_requires(encode, (count, next)),
            upper == available || page_encodes(
                encode,
                offset,
                upper + 1,
                available as int,
                source_has_more,
                Err(ProtocolError::TooLarge),
            ),
            match best {
                None => lower == 1,
                Some(body) => lower > 1 && page_encodes(
                    encode,
                    offset,
                    lower - 1,
                    available as int,
                    source_has_more,
                    Ok(body),
                ),
            },
        decreases upper + 1 - lower,
    {
        let count: usize = lower + (upper - lower) / 2;
        let has_more = source_has_more || count < available;
        let next: Option<u32> = if has_more {
            if count > u32::MAX as usize {
                assert(page_breaks(
                    encode,
                    offset,
                    count as int,
                    available as int,
                    source_has_more,
                ));
                return Err(DispatchError::Internal);
            }
            match offset.checked_add(count as u32) {
                Some(next) => Some(next),
                None => {
                    assert(page_breaks(
                        encode,
                        offset,
                        count as int,
                        available as int,
                        source_has_more,
                    ));
                    return Err(DispatchError::Internal);
                },
            }
        } else {
            None
        };
        let encoded = encode(count, next);
        assert(page_encodes(
            encode,
            offset,
            count as int,
            available as int,
            source_has_more,
            encoded,
        ));
        match encoded {
            Ok(body) => {
                best = Some(body);
                lower = count + 1;
            },
            Err(ProtocolError::TooLarge) => {
                upper = count - 1;
            },
            Err(_) => {
                assert(page_breaks(
                    encode,
                    offset,
                    count as int,
                    available as int,
                    source_has_more,
                ));
                return Err(DispatchError::Internal);
            },
        }
    }
    match best {
        Some(body) => Ok(ExecutionOutcome::success(body)),
        None => Ok(ExecutionOutcome::without_body(Verdict::failed())),
    }
}

// Laws

/// One page of a walk through a list: where it begins, how many accounts it
/// holds, and how many were at hand for it.
pub struct ListPage {
    pub begin: int,
    pub count: int,
    pub available: int,
}

/// Whether a page lists this account.
pub open spec fn lists(page: ListPage, account: int) -> bool {
    page.begin <= account < page.begin + page.count
}

/// Whether these are the pages that a peer sees of a list of this many accounts,
/// which begins at the first and goes on wherever each page says that the next
/// one begins, until one names no next.
pub open spec fn is_walk(pages: Seq<ListPage>, total: int) -> bool {
    &&& pages.len() > 0
    &&& pages[0].begin == 0
    &&& forall|i: int|
        0 <= i < pages.len() ==> {
            &&& 0 <= (#[trigger] pages[i]).begin <= u32::MAX
            &&& 0 < pages[i].count <= pages[i].available
            &&& pages[i].begin + pages[i].available <= total
        }
    &&& forall|i: int|
        #![trigger pages[i]]
        0 < i < pages.len() ==> next_offset(
            pages[i - 1].begin as u32,
            pages[i - 1].count,
            pages[i - 1].available,
            pages[i - 1].begin + pages[i - 1].available < total,
        ) == Some(pages[i].begin)
    &&& next_offset(
        pages.last().begin as u32,
        pages.last().count,
        pages.last().available,
        pages.last().begin + pages.last().available < total,
    ) is None
}

/// A page names as the start of the next one what follows its own last account,
/// at every offset, and names none exactly where the list ends with it. That is
/// what is handed over to be put into bytes.
pub proof fn pages_name_what_follows_them<E>(
    encode: E,
    offset: u32,
    count: usize,
    available: int,
    total: int,
    encoded: Result<Vec<u8>, ProtocolError>,
) where E: Fn(usize, Option<u32>) -> Result<Vec<u8>, ProtocolError>
    requires
        count <= available,
        offset + available <= total,
        page_encodes(
            encode,
            offset,
            count as int,
            available,
            offset + available < total,
            encoded,
        ),
    ensures
        offset + count == total ==> call_ensures(encode, (count, None::<u32>), encoded),
        offset + count < total ==> exists|next: u32|
            next == offset + count && #[trigger] call_ensures(encode, (count, Some(next)), encoded),
{
    if offset + count < total {
        let next = (offset + count) as u32;
        assert(call_ensures(encode, (count, Some(next)), encoded));
    }
}

/// A page that is answered holds as many accounts as fit: at least one, and
/// either all that were at hand or one fewer than were too many. It was put into
/// bytes with the start of the page that follows its own last account, and with
/// none where the list ends with it.
pub proof fn pages_hold_as_much_as_fits<E>(
    encode: E,
    available: usize,
    offset: u32,
    total: int,
    outcome: Result<ExecutionOutcome, DispatchError>,
) where E: Fn(usize, Option<u32>) -> Result<Vec<u8>, ProtocolError>
    requires
        0 < available,
        offset + available <= total,
        call_ensures(
            encode_summary_page::<E>,
            (available, offset, offset + available < total, encode),
            outcome,
        ),
        outcome is Ok,
        outcome->Ok_0.verdict.error is None,
    ensures
        exists|count: usize, next: Option<u32>, body: Vec<u8>|
            {
                &&& #[trigger] call_ensures(encode, (count, next), Ok(body))
                &&& 1 <= count <= available
                &&& outcome->Ok_0.body@ == body@
                &&& next is None <==> offset + count == total
                &&& next is Some ==> next->Some_0 == offset + count
                &&& count == available || exists|following: Option<u32>|
                    #[trigger] call_ensures(
                        encode,
                        ((count + 1) as usize, following),
                        Err(ProtocolError::TooLarge),
                    )
            },
{
    let more = offset + available < total;
    let (count, body) = choose|count: int, body: Vec<u8>|
        {
            &&& 1 <= count <= available
            &&& #[trigger] page_encodes(encode, offset, count, available as int, more, Ok(body))
            &&& outcome->Ok_0.body@ == body@
            &&& count == available || page_encodes(
                encode,
                offset,
                count + 1,
                available as int,
                more,
                Err(ProtocolError::TooLarge),
            )
        };
    let held = count as usize;
    if offset + count < total {
        assert(call_ensures(encode, (held, Some((offset + count) as u32)), Ok(body)));
    } else {
        assert(call_ensures(encode, (held, None::<u32>), Ok(body)));
    }
}

proof fn walks_go_on_without_a_gap(pages: Seq<ListPage>, total: int, place: int)
    requires
        is_walk(pages, total),
        0 <= place < pages.len(),
    ensures
        place > 0 ==> pages[place].begin == pages[place - 1].begin + pages[place - 1].count,
        place == pages.len() - 1 ==> pages[place].begin + pages[place].count == total,
{
}

proof fn walks_list_what_came_before(
    pages: Seq<ListPage>,
    total: int,
    place: int,
    account: int,
) -> (found: int)
    requires
        is_walk(pages, total),
        0 <= place < pages.len(),
        0 <= account < pages[place].begin + pages[place].count,
    ensures
        0 <= found <= place,
        lists(pages[found], account),
    decreases place,
{
    walks_go_on_without_a_gap(pages, total, place);
    if account >= pages[place].begin {
        place
    } else {
        walks_list_what_came_before(pages, total, place - 1, account)
    }
}

proof fn later_pages_begin_later(pages: Seq<ListPage>, total: int, first: int, second: int)
    requires
        is_walk(pages, total),
        0 <= first < second < pages.len(),
    ensures
        pages[first].begin + pages[first].count <= pages[second].begin,
    decreases second,
{
    walks_go_on_without_a_gap(pages, total, second);
    if first < second - 1 {
        later_pages_begin_later(pages, total, first, second - 1);
        assert(pages[second - 1].count > 0);
    }
}

/// Following the offsets that the pages name lists every account of the list
/// exactly once, and nothing that is not in it.
pub proof fn walks_list_every_account_once(
    pages: Seq<ListPage>,
    total: int,
    account: int,
)
    requires
        is_walk(pages, total),
    ensures
        0 <= account < total <==> exists|i: int|
            0 <= i < pages.len() && lists(#[trigger] pages[i], account),
        forall|i: int, j: int|
            0 <= i < pages.len() && 0 <= j < pages.len() && lists(#[trigger] pages[i], account)
                && lists(#[trigger] pages[j], account) ==> i == j,
{
    let last = pages.len() - 1;
    walks_go_on_without_a_gap(pages, total, last);
    if 0 <= account < total {
        let found = walks_list_what_came_before(pages, total, last, account);
        assert(lists(pages[found], account));
    }
    assert forall|i: int, j: int|
        0 <= i < pages.len() && 0 <= j < pages.len() && lists(#[trigger] pages[i], account)
            && lists(#[trigger] pages[j], account) implies i == j by {
        if i < j {
            later_pages_begin_later(pages, total, i, j);
        } else if j < i {
            later_pages_begin_later(pages, total, j, i);
        }
    }
}

/// No operation on the vault brings an agent back that shuts down, whether it
/// had to stop, failed inside the vault, or gave any other error.
pub proof fn no_operation_ends_a_shutdown<S>(
    before: AgentRuntime,
    after: AgentRuntime,
    vault_before: VaultAgent<S>,
    vault: VaultAgent<S>,
    error: AccountError,
    signals: Signals,
    answer: Result<Verdict, DispatchError>,
)
    requires
        before.state == crate::protocol::AgentState::ShuttingDown,
        after.is_locked_form(&before) || after.is_failed_form(&before) || after.errs(
            &before,
            &vault,
            &vault_before,
            error,
            signals,
            answer,
        ),
    ensures
        after.state == crate::protocol::AgentState::ShuttingDown,
{
}

/// The creation of a passkey is taken back only over the connection and in the
/// transaction that made it, for the same process and in the same epoch.
pub proof fn only_the_maker_takes_back(
    before: Signals,
    verified: Result<(), PasskeyVerificationError>,
    agent: AgentRuntime,
    key: PendingPasskeyCreationKey,
    expected: PendingPasskeyCreation,
    after: Signals,
)
    requires
        rollback_refusal(before, verified, &agent, key, expected, after) is None,
    ensures
        verified is Ok,
        agent.pending_passkey_creations@.dom().contains(key),
        agent.pending_passkey_creations@[key] == expected,
{
}

/// Nothing is taken back twice, and nothing after its connection is gone.
pub proof fn creations_are_taken_back_once(
    before: Signals,
    verified: Result<(), PasskeyVerificationError>,
    agent: AgentRuntime,
    ended: AgentRuntime,
    key: PendingPasskeyCreationKey,
    expected: PendingPasskeyCreation,
    after: Signals,
)
    requires
        ended.pending_passkey_creations@ == agent.pending_passkey_creations@.remove(key)
            || ended.pending_passkey_creations@ == crate::passkeys::of_other_connections(
            agent.pending_passkey_creations@,
            key.connection_id,
        ),
    ensures
        rollback_refusal(before, verified, &ended, key, expected, after) is Some,
{
}

/// A change begins wherever none is under way and its request may work on the
/// open vault.
pub proof fn wanted_changes_begin(agent: &AgentRuntime, signals: Signals)
    ensures
        change_refusal(agent, signals) is None <==> !agent.coordinator.mutation_active
            && !signals.lock_active && !signals.cancelled && !signals.expired && signals.state
            == crate::protocol::AgentState::Unlocked && signals.epoch_current,
        agent.coordinator.mutation_active ==> change_refusal(agent, signals) == Some(
            Verdict::busy(),
        ),
{
}

/// A passkey that the user agreed to use is used, and one that they agreed to
/// make is made, wherever the vault is open before and after they were asked
/// and no change is under way; one transaction makes at most one.
pub proof fn approved_passkeys_are_used(
    before: Signals,
    verified: Result<(), PasskeyVerificationError>,
    agent: &AgentRuntime,
    key: PendingPasskeyCreationKey,
    after: Signals,
)
    ensures
        ({
            let may = !crate::signals::secret_operation_should_abort(&before) && verified is Ok
                && !crate::signals::secret_operation_should_abort(&after) && !agent.coordinator.mutation_active;
            let pending = agent.pending_passkey_creations@;
            &&& assertion_refusal(before, verified, agent, after) is None <==> may
            &&& make_passkey_refusal(before, verified, agent, key, after) is None <==> may
                && !pending.dom().contains(key)
        }),
        verified is Err && !crate::signals::secret_operation_should_abort(&before) ==> {
            &&& assertion_refusal(before, verified, agent, after) matches Some(verdict)
            &&& verdict.error == Some(
                if verified->Err_0 == PasskeyVerificationError::Invalid {
                    crate::protocol::PublicErrorCode::InvalidRequest
                } else {
                    crate::protocol::PublicErrorCode::OperationFailed
                },
            )
        },
{
}

/// The creation of a passkey is taken back for whoever made it: the transaction
/// and what it made must both be the ones that stand open.
pub proof fn only_open_creations_are_taken_back(
    before: Signals,
    verified: Result<(), PasskeyVerificationError>,
    agent: &AgentRuntime,
    key: PendingPasskeyCreationKey,
    expected: PendingPasskeyCreation,
    after: Signals,
)
    ensures
        rollback_refusal(before, verified, agent, key, expected, after) is None
            <==> agent.pending_passkey_creations@.contains_pair(key, expected)
            && !crate::signals::secret_operation_should_abort(&before) && verified is Ok
            && !crate::signals::secret_operation_should_abort(&after) && !agent.coordinator.mutation_active,
{
}

/// An error that says nothing of the session leaves an open vault open: while
/// the session stands, only a failure inside the vault, or a conflict that has
/// closed it, ends the session; every other error is answered as it is and
/// changes nothing.
pub proof fn harmless_errors_change_nothing<S>(
    before: &AgentRuntime,
    after: &AgentRuntime,
    vault_before: &VaultAgent<S>,
    vault: &VaultAgent<S>,
    error: AccountError,
    signals: Signals,
    answer: Result<Verdict, DispatchError>,
)
    requires
        after.errs(before, vault, vault_before, error, signals, answer),
        vault_before.session is Some,
        !crate::signals::secret_operation_should_abort(&signals),
    ensures
        error != AccountError::Failed ==> *after == *before && *vault == *vault_before,
        error == AccountError::NotFound ==> (answer matches Ok(verdict) && verdict.error == Some(
            crate::protocol::PublicErrorCode::NotFound,
        )),
        error == AccountError::Conflict ==> (answer matches Ok(verdict) && verdict.error == Some(
            crate::protocol::PublicErrorCode::Conflict,
        )),
        error == AccountError::Locked ==> (answer matches Ok(verdict) && verdict.error == Some(
            crate::protocol::PublicErrorCode::Locked,
        )),
        error == AccountError::Failed ==> {
            &&& vault.session is None
            &&& after.state != crate::protocol::AgentState::Unlocked
            &&& before.coordinator.epoch < u64::MAX ==> {
                &&& after.coordinator.epoch == before.coordinator.epoch + 1
                &&& answer matches Ok(verdict) && verdict.error == Some(
                    crate::protocol::PublicErrorCode::OperationFailed,
                )
                &&& forall|key: crate::coordinator::RequestKey| #[trigger]
                    after.coordinator.requests().dom().contains(key)
                        ==> after.coordinator.requests()[key]
            }
        },
{
}

/// What is done with passkeys is answered as durable once it is done, and
/// nothing else that reads or changes records is.
pub proof fn passkey_answers_are_durable<T, E>(
    operation: OperationCode,
    value: T,
    encode: E,
    outcome: Result<ExecutionOutcome, DispatchError>,
) where E: FnOnce(T) -> Result<Vec<u8>, ProtocolError>
    requires
        call_ensures(record_outcome::<T, E>, (operation, Ok(Ok(value)), encode), outcome),
    ensures
        outcome matches Ok(ended) ==> {
            &&& ended.verdict.error is None
            &&& ended.verdict.committed <==> operation == OperationCode::MakePasskey || operation
                == OperationCode::GetPasskeyAssertion || operation == OperationCode::DeletePasskey
                || operation == OperationCode::RollbackPasskeyCreation
            &&& exists|body: Vec<u8>|
                call_ensures(encode, (value,), Ok::<Vec<u8>, ProtocolError>(body))
                    && #[trigger] body@ == ended.body@
        },
{
    if let Ok(ended) = outcome {
        let encoded = choose|encoded: Result<Vec<u8>, ProtocolError>| #[trigger]
            call_ensures(encode, (value,), encoded) && encoded is Ok && ended.body@
                == encoded->Ok_0@;
        assert(encoded == Ok::<Vec<u8>, ProtocolError>(encoded->Ok_0));
        assert(encoded->Ok_0@ == ended.body@);
    }
}

} // verus!
