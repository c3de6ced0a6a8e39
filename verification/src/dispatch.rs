//! Admitting requests, and answering them.

use vstd::prelude::*;

use crate::coordinator::RequestKey;
use crate::errors::{ConnectionError, DispatchError, ProtocolError};
use crate::outcome::{ExecutionOutcome, Verdict};
use crate::permits::{CounterPermit, FlagPermit};
use crate::protocol::{
    AgentState, BeginRequestError, OperationCode, PublicErrorCode, RequestCompletion,
    RequestPermit, ResponseEnvelope, RetryCategory,
};
use crate::runtime::AgentRuntime;
use crate::signals::Signals;

verus! {

/// The moment at which a request that was admitted at another one is too late.
/// Moments are counted in nanoseconds.
pub fn request_deadline(started: u64, effective_timeout_ms: u32) -> (deadline: Result<
    u64,
    DispatchError,
>)
    ensures
        deadline == deadline_of(started, effective_timeout_ms),
{
    match started.checked_add(effective_timeout_ms as u64 * 1_000_000) {
        Some(deadline) => Ok(deadline),
        None => Err(DispatchError::Internal),
    }
}

/// The moment at which a request is too late, where there is one.
pub open spec fn deadline_of(started: u64, effective_timeout_ms: u32) -> Result<
    u64,
    DispatchError,
> {
    let deadline = started + effective_timeout_ms * 1_000_000;
    if deadline <= u64::MAX {
        Ok(deadline as u64)
    } else {
        Err(DispatchError::Internal)
    }
}

/// An admitted request.
#[derive(Clone, Copy)]
pub struct DispatchContext {
    pub permit: RequestPermit,
    pub key: RequestKey,
    pub deadline: u64,
    pub correlation: [u8; 16],
}

/// What becomes of a request.
pub enum RequestAdmission {
    Admitted(DispatchContext),
    Rejected(ResponseEnvelope),
}

/// Whether a response says that a request failed in this way.
pub open spec fn is_failure(
    response: ResponseEnvelope,
    verdict: Verdict,
    correlation: [u8; 16],
) -> bool {
    &&& response.correlation == correlation
    &&& response.error == verdict.error
    &&& response.retry == verdict.retry
    &&& response.body@.len() == 0
}

/// The answer of a request for which there is no place.
#[verifier::allow_in_spec]
pub fn no_room(now: u64, deadline: u64) -> Verdict
    returns
        (if now >= deadline {
            Verdict::deadline()
        } else {
            Verdict::busy()
        }),
{
    if now >= deadline {
        Verdict::deadline()
    } else {
        Verdict::busy()
    }
}

/// The answer of a request that its connection did not admit.
pub open spec fn connection_rejection(
    error: BeginRequestError,
    started: u64,
    now: u64,
) -> Result<Verdict, DispatchError> {
    match error {
        BeginRequestError::Unauthorized => Ok(
            Verdict::failure(PublicErrorCode::UnauthorizedOperation, RetryCategory::Never),
        ),
        BeginRequestError::Busy { effective_timeout_ms } => match deadline_of(
            started,
            effective_timeout_ms,
        ) {
            Ok(deadline) => Ok(no_room(now, deadline)),
            Err(error) => Err(error),
        },
        BeginRequestError::StaleEpoch => Ok(Verdict::locked()),
        BeginRequestError::MissingIdempotencyKey => Ok(Verdict::invalid()),
        BeginRequestError::Connection(error) => Err(DispatchError::Connection(error)),
    }
}

fn reject_for_connection(error: BeginRequestError, started: u64, now: u64) -> (verdict: Result<
    Verdict,
    DispatchError,
>)
    ensures
        verdict == connection_rejection(error, started, now),
{
    match error {
        BeginRequestError::Unauthorized => Ok(
            Verdict::failure(PublicErrorCode::UnauthorizedOperation, RetryCategory::Never),
        ),
        BeginRequestError::Busy { effective_timeout_ms } => match request_deadline(
            started,
            effective_timeout_ms,
        ) {
            Ok(deadline) => Ok(no_room(now, deadline)),
            Err(error) => Err(error),
        },
        BeginRequestError::StaleEpoch => Ok(Verdict::locked()),
        BeginRequestError::MissingIdempotencyKey => Ok(Verdict::invalid()),
        BeginRequestError::Connection(error) => Err(DispatchError::Connection(error)),
    }
}

impl AgentRuntime {
    /// Whether the registry of running requests gained this one, and one place
    /// was taken for it.
    pub open spec fn admits(
        &self,
        before: &AgentRuntime,
        key: RequestKey,
        told_to_stop: bool,
    ) -> bool {
        &&& self.same_besides_lifecycle(before)
        &&& self.state == before.state
        &&& self.coordinator.epoch == before.coordinator.epoch
        &&& self.coordinator.kdf_active == before.coordinator.kdf_active
        &&& self.coordinator.mutation_active == before.coordinator.mutation_active
        &&& self.coordinator.lock_active == before.coordinator.lock_active
        &&& self.coordinator.global_in_flight == before.coordinator.global_in_flight + 1
        &&& self.coordinator.requests() == before.coordinator.requests().insert(key, told_to_stop)
    }

    /// Admits a request that its connection admitted, or rejects it with a
    /// public answer. A request for which there is no place is given back to its
    /// connection. One that the connection was already told to cancel starts
    /// told to stop.
    pub fn admit_request<F, C>(
        &mut self,
        begun: Result<RequestPermit, BeginRequestError>,
        connection_id: [u8; 16],
        correlation: [u8; 16],
        started: u64,
        now: u64,
        maximum_in_flight: usize,
        finish: F,
        is_cancelled: C,
    ) -> (admission: Result<RequestAdmission, DispatchError>) where
        F: FnOnce(RequestPermit) -> Result<RequestCompletion, ConnectionError>,
        C: FnOnce(RequestPermit) -> bool,

        requires
            old(self).wf(),
            forall|permit: RequestPermit| call_requires(finish, (permit,)),
            forall|permit: RequestPermit| call_requires(is_cancelled, (permit,)),
        ensures
            final(self).wf(),
            match begun {
                Err(error) => {
                    &&& *final(self) == *old(self)
                    &&& match connection_rejection(error, started, now) {
                        Err(fatal) => admission == Err::<RequestAdmission, DispatchError>(fatal),
                        Ok(verdict) => {
                            &&& admission matches Ok(RequestAdmission::Rejected(response))
                            &&& is_failure(response, verdict, correlation)
                        },
                    }
                },
                Ok(permit) => {
                    let key = RequestKey { connection_id, request_id: permit.request_id };
                    match deadline_of(started, permit.effective_timeout_ms) {
                        Err(fatal) => {
                            &&& *final(self) == *old(self)
                            &&& admission == Err::<RequestAdmission, DispatchError>(fatal)
                        },
                        Ok(deadline) => if old(self).coordinator.global_in_flight
                            >= maximum_in_flight {
                            &&& *final(self) == *old(self)
                            &&& exists|finished: Result<RequestCompletion, ConnectionError>|
                                #[trigger] call_ensures(finish, (permit,), finished)
                                    && match finished {
                                    Err(error) => admission == Err::<
                                        RequestAdmission,
                                        DispatchError,
                                    >(DispatchError::Connection(error)),
                                    Ok(_) => {
                                        &&& admission matches Ok(
                                            RequestAdmission::Rejected(response),
                                        )
                                        &&& is_failure(
                                            response,
                                            no_room(now, deadline),
                                            correlation,
                                        )
                                    },
                                }
                        } else if old(self).coordinator.requests().dom().contains(key) {
                            &&& *final(self) == *old(self)
                            &&& admission == Err::<RequestAdmission, DispatchError>(
                                DispatchError::Internal,
                            )
                        } else {
                            &&& admission == Ok::<RequestAdmission, DispatchError>(
                                RequestAdmission::Admitted(
                                    DispatchContext { permit, key, deadline, correlation },
                                ),
                            )
                            &&& exists|cancelled: bool| #[trigger]
                                call_ensures(is_cancelled, (permit,), cancelled)
                                    && final(self).admits(old(self), key, cancelled)
                        },
                    }
                },
            },
    {
        let permit = match begun {
            Ok(permit) => permit,
            Err(error) => {
                return match reject_for_connection(error, started, now) {
                    Ok(verdict) => Ok(
                        RequestAdmission::Rejected(
                            ExecutionOutcome::without_body(verdict).into_response(correlation),
                        ),
                    ),
                    Err(fatal) => Err(fatal),
                };
            },
        };
        let deadline: u64 = match request_deadline(started, permit.effective_timeout_ms) {
            Ok(deadline) => deadline,
            Err(fatal) => {
                return Err(fatal);
            },
        };
        let place = match CounterPermit::acquire(
            &mut self.coordinator.global_in_flight,
            maximum_in_flight,
        ) {
            Some(place) => place,
            None => {
                return match finish(permit) {
                    Ok(_) => Ok(
                        RequestAdmission::Rejected(
                            ExecutionOutcome::without_body(no_room(now, deadline)).into_response(
                                correlation,
                            ),
                        ),
                    ),
                    Err(error) => Err(DispatchError::Connection(error)),
                };
            },
        };
        let key = RequestKey { connection_id, request_id: permit.request_id };
        match self.coordinator.register(key) {
            Ok(()) => {},
            Err(fatal) => {
                place.release(&mut self.coordinator.global_in_flight);
                return Err(fatal);
            },
        }
        let told_to_stop = is_cancelled(permit);
        if told_to_stop {
            let _ = self.coordinator.cancel(key);
        }
        proof {
            assert(old(self).coordinator.requests().insert(key, false).insert(key, true)
                =~= old(self).coordinator.requests().insert(key, true));
            assert(self.admits(old(self), key, told_to_stop));
        }
        Ok(RequestAdmission::Admitted(DispatchContext { permit, key, deadline, correlation }))
    }

    /// Takes a request that ended off the registry, gives its place back, and
    /// lowers the lock flag where the request had kept it raised.
    pub fn end_request(&mut self, key: &RequestKey, holds_lock_transition: bool)
        requires
            old(self).wf(),
            old(self).coordinator.global_in_flight > 0,
            holds_lock_transition ==> old(self).coordinator.lock_active,
        ensures
            final(self).wf(),
            final(self).same_besides_lifecycle(old(self)),
            final(self).state == old(self).state,
            final(self).coordinator.epoch == old(self).coordinator.epoch,
            final(self).coordinator.kdf_active == old(self).coordinator.kdf_active,
            final(self).coordinator.mutation_active == old(self).coordinator.mutation_active,
            final(self).coordinator.lock_active == (old(self).coordinator.lock_active
                && !holds_lock_transition),
            final(self).coordinator.global_in_flight == old(self).coordinator.global_in_flight - 1,
            final(self).coordinator.requests() == old(self).coordinator.requests().remove(*key),
    {
        self.coordinator.unregister(key);
        self.coordinator.global_in_flight = self.coordinator.global_in_flight - 1;
        if holds_lock_transition {
            let permit = FlagPermit::take_over_active(&self.coordinator.lock_active);
            permit.release(&mut self.coordinator.lock_active);
        }
    }

    /// Whether the agent is still in a state in which the outcome of a request
    /// may be released.
    pub open spec fn authorizes_release(&self, permit: RequestPermit, verdict: Verdict) -> bool {
        match permit.operation.code {
            OperationCode::Status => verdict.error is None,
            OperationCode::Lock => verdict.error is None,
            OperationCode::CreateVault => !self.coordinator.lock_active && self.state
                == AgentState::Unlocked,
            OperationCode::UnlockMasterPassword => !self.coordinator.lock_active && self.state
                == AgentState::Unlocked,
            OperationCode::UnlockWindowsHello => !self.coordinator.lock_active && self.state
                == AgentState::Unlocked,
            _ => permit.operation.requires_unlocked_epoch && !self.coordinator.lock_active
                && self.state == AgentState::Unlocked && self.coordinator.epoch
                == permit.unlock_epoch,
        }
    }

    pub fn outcome_is_still_authorized(&self, permit: RequestPermit, verdict: &Verdict) -> (still:
        bool)
        ensures
            still == self.authorizes_release(permit, *verdict),
    {
        match permit.operation.code {
            OperationCode::Status => verdict.error.is_none(),
            OperationCode::Lock => verdict.error.is_none(),
            OperationCode::CreateVault => !self.coordinator.lock_active && self.state
                == AgentState::Unlocked,
            OperationCode::UnlockMasterPassword => !self.coordinator.lock_active && self.state
                == AgentState::Unlocked,
            OperationCode::UnlockWindowsHello => !self.coordinator.lock_active && self.state
                == AgentState::Unlocked,
            _ => permit.operation.requires_unlocked_epoch && !self.coordinator.lock_active
                && self.state == AgentState::Unlocked && self.coordinator.epoch
                == permit.unlock_epoch,
        }
    }

    /// The last word on the verdict of a request. A durable effect is answered
    /// as it is. What would release something, or say that something is not
    /// there, is held back once the request was told to stop, came too late, or
    /// is no longer authorized.
    pub open spec fn settled(
        &self,
        context: DispatchContext,
        verdict: Verdict,
        completion: RequestCompletion,
        expired: bool,
    ) -> Verdict {
        if verdict.committed {
            verdict
        } else if completion == RequestCompletion::Cancelled {
            Verdict::cancelled()
        } else if verdict.error is Some && verdict.error != Some(PublicErrorCode::NotFound) {
            verdict
        } else if self.coordinator.cancelled(context.key) && context.permit.operation.code
            != OperationCode::Lock {
            Verdict::cancelled()
        } else if expired {
            Verdict::deadline()
        } else if !self.authorizes_release(context.permit, verdict) && !(verdict.replayed
            && context.permit.operation.code == OperationCode::CreateVault) {
            Verdict::locked()
        } else {
            verdict
        }
    }

    fn settle(
        &self,
        context: &DispatchContext,
        verdict: Verdict,
        completion: RequestCompletion,
        expired: bool,
    ) -> (settled: Verdict)
        requires
            self.wf(),
        ensures
            settled == self.settled(*context, verdict, completion, expired),
    {
        if verdict.committed {
            return verdict;
        }
        if completion == RequestCompletion::Cancelled {
            return Verdict::cancelled();
        }
        if verdict.error.is_some() && verdict.error != Some(PublicErrorCode::NotFound) {
            return verdict;
        }
        if self.coordinator.is_cancelled(&context.key) && context.permit.operation.code
            != OperationCode::Lock {
            Verdict::cancelled()
        } else if expired {
            Verdict::deadline()
        } else if !self.outcome_is_still_authorized(context.permit, &verdict) && !(verdict.replayed
            && context.permit.operation.code == OperationCode::CreateVault) {
            Verdict::locked()
        } else {
            verdict
        }
    }

    /// How a request that was executed is answered. Asking for the status and
    /// creating a vault are answered with the state of this very moment.
    pub open spec fn answers<E>(
        &self,
        context: DispatchContext,
        outcome: ExecutionOutcome,
        completion: Result<RequestCompletion, ConnectionError>,
        expired: bool,
        encode_status: E,
        response: Result<ResponseEnvelope, DispatchError>,
    ) -> bool where E: FnOnce(AgentState, u64) -> Result<Vec<u8>, ProtocolError> {
        match completion {
            Err(error) => response == Err::<ResponseEnvelope, DispatchError>(
                DispatchError::Connection(error),
            ),
            Ok(completion) => {
                let verdict = self.settled(context, outcome.verdict, completion, expired);
                let reports_state = context.permit.operation.code == OperationCode::Status
                    || context.permit.operation.code == OperationCode::CreateVault;
                if verdict.error is Some {
                    &&& response is Ok
                    &&& is_failure(response->Ok_0, verdict, context.correlation)
                } else if reports_state {
                    exists|encoded: Result<Vec<u8>, ProtocolError>| #[trigger]
                        call_ensures(
                            encode_status,
                            (self.state, self.coordinator.epoch),
                            encoded,
                        ) && match encoded {
                            Err(_) => response == Err::<ResponseEnvelope, DispatchError>(
                                DispatchError::Internal,
                            ),
                            Ok(status) => {
                                &&& response is Ok
                                &&& response->Ok_0.correlation == context.correlation
                                &&& response->Ok_0.error is None
                                &&& response->Ok_0.retry == RetryCategory::Never
                                &&& response->Ok_0.body@ == status@
                            },
                        }
                } else {
                    &&& response is Ok
                    &&& response->Ok_0.correlation == context.correlation
                    &&& response->Ok_0.error is None
                    &&& response->Ok_0.retry == RetryCategory::Never
                    &&& response->Ok_0.body@ == outcome.body@
                }
            },
        }
    }

    /// The answer to a request that was executed. Asking for the status and
    /// creating a vault are answered with the state of this very moment.
    pub fn finish_dispatch<E>(
        &self,
        context: &DispatchContext,
        outcome: ExecutionOutcome,
        completion: Result<RequestCompletion, ConnectionError>,
        expired: bool,
        encode_status: E,
    ) -> (response: Result<ResponseEnvelope, DispatchError>) where
        E: FnOnce(AgentState, u64) -> Result<Vec<u8>, ProtocolError>,

        requires
            self.wf(),
            forall|state: AgentState, epoch: u64| call_requires(encode_status, (state, epoch)),
        ensures
            self.answers(*context, outcome, completion, expired, encode_status, response),
    {
        let completion = match completion {
            Ok(completion) => completion,
            Err(error) => {
                let _ = outcome.discard(Verdict::failed());
                return Err(DispatchError::Connection(error));
            },
        };
        let verdict = self.settle(context, outcome.verdict, completion, expired);
        if verdict.error.is_some() {
            return Ok(outcome.discard(verdict).into_response(context.correlation));
        }
        let code = context.permit.operation.code;
        let body = if code == OperationCode::Status || code == OperationCode::CreateVault {
            let _ = outcome.discard(verdict);
            match encode_status(self.state, self.coordinator.epoch) {
                Ok(status) => status,
                Err(_) => {
                    return Err(DispatchError::Internal);
                },
            }
        } else {
            outcome.body
        };
        Ok(ExecutionOutcome::success(body).into_response(context.correlation))
    }
}

/// Runs an operation, unless its request was told to stop or came too late
/// before it began.
pub fn execute<F>(signals: &Signals, operation: F) -> (outcome: Result<
    ExecutionOutcome,
    DispatchError,
>) where F: FnOnce() -> Result<ExecutionOutcome, DispatchError>
    requires
        call_requires(operation, ()),
    ensures
        signals.cancelled ==> outcome is Ok && outcome->Ok_0.verdict == Verdict::cancelled()
            && outcome->Ok_0.body@.len() == 0,
        !signals.cancelled && signals.expired ==> outcome is Ok && outcome->Ok_0.verdict
            == Verdict::deadline() && outcome->Ok_0.body@.len() == 0,
        !signals.cancelled && !signals.expired ==> call_ensures(operation, (), outcome),
{
    if signals.cancelled {
        return Ok(ExecutionOutcome::without_body(Verdict::cancelled()));
    }
    if signals.expired {
        return Ok(ExecutionOutcome::without_body(Verdict::deadline()));
    }
    operation()
}

/// Runs the operation of a request that was read, or answers for one that was
/// not or that its passkey proof was not made for.
pub fn execute_decoded<F>(
    decoded: Result<Option<Verdict>, ProtocolError>,
    signals: &Signals,
    operation: F,
) -> (outcome: Result<ExecutionOutcome, DispatchError>) where
    F: FnOnce() -> Result<ExecutionOutcome, DispatchError>,

    requires
        call_requires(operation, ()),
    ensures
        match decoded {
            Err(error) => outcome is Ok && outcome->Ok_0.verdict
                == crate::outcome::map_operation_decode_error(error)
                && outcome->Ok_0.body@.len() == 0,
            Ok(Some(verdict)) => outcome is Ok && outcome->Ok_0.verdict == verdict
                && outcome->Ok_0.body@.len() == 0,
            Ok(None) => {
                &&& signals.cancelled ==> outcome is Ok && outcome->Ok_0.verdict
                    == Verdict::cancelled() && outcome->Ok_0.body@.len() == 0
                &&& !signals.cancelled && signals.expired ==> outcome is Ok
                    && outcome->Ok_0.verdict == Verdict::deadline() && outcome->Ok_0.body@.len()
                    == 0
                &&& !signals.cancelled && !signals.expired ==> call_ensures(operation, (), outcome)
            },
        },
{
    match decoded {
        Err(error) => Ok(
            ExecutionOutcome::without_body(crate::outcome::map_operation_decode_error(error)),
        ),
        Ok(Some(verdict)) => Ok(ExecutionOutcome::without_body(verdict)),
        Ok(None) => execute(signals, operation),
    }
}

// Laws

/// A durable effect is answered as what it is, whatever happens to its request
/// afterwards.
pub proof fn durable_effects_are_answered(
    agent: AgentRuntime,
    context: DispatchContext,
    verdict: Verdict,
    completion: RequestCompletion,
    expired: bool,
)
    requires
        verdict.committed,
    ensures
        agent.settled(context, verdict, completion, expired) == verdict,
{
}

/// What a request succeeded with is answered as that success, wherever nobody
/// cancelled it and it is in time. Creating or unlocking the vault asks for no
/// more than that the agent is unlocked now and nothing locks it, whatever epoch
/// the request was admitted in; work on the records asks for its own epoch as
/// well; asking for the status, and locking, ask for nothing. The body is that
/// of the success, but for the two requests that report the state of the moment.
pub proof fn successes_are_answered<E>(
    agent: AgentRuntime,
    context: DispatchContext,
    outcome: ExecutionOutcome,
    encode_status: E,
    response: Result<ResponseEnvelope, DispatchError>,
) where E: FnOnce(AgentState, u64) -> Result<Vec<u8>, ProtocolError>
    requires
        call_ensures(
            AgentRuntime::finish_dispatch::<E>,
            (&agent, &context, outcome, Ok(RequestCompletion::Completed), false, encode_status),
            response,
        ),
        outcome.verdict.error is None,
        !(agent.coordinator.requests().dom().contains(context.key)
            && agent.coordinator.requests()[context.key]) || context.permit.operation.code
            == OperationCode::Lock,
        ({
            let code = context.permit.operation.code;
            let is_open = agent.state == AgentState::Unlocked && !agent.coordinator.lock_active;
            ||| code == OperationCode::Status
            ||| code == OperationCode::Lock
            ||| is_open && code == OperationCode::CreateVault
            ||| is_open && code == OperationCode::UnlockMasterPassword
            ||| is_open && code == OperationCode::UnlockWindowsHello
            ||| is_open && context.permit.operation.requires_unlocked_epoch
                && context.permit.unlock_epoch == agent.coordinator.epoch
        }),
    ensures
        response is Ok ==> {
            &&& response->Ok_0.error is None
            &&& response->Ok_0.correlation == context.correlation
        },
        context.permit.operation.code != OperationCode::Status && context.permit.operation.code
            != OperationCode::CreateVault ==> response is Ok && response->Ok_0.body@
            == outcome.body@,
        context.permit.operation.code == OperationCode::Status || context.permit.operation.code
            == OperationCode::CreateVault ==> exists|encoded: Result<Vec<u8>, ProtocolError>|
            #[trigger] call_ensures(
                encode_status,
                (agent.state, agent.coordinator.epoch),
                encoded,
            ) && (encoded is Ok <==> response is Ok) && (response is Ok ==> response->Ok_0.body@
                == encoded->Ok_0@),
{
}

/// A result that is not durable is released only for a request that nobody
/// cancelled, that is in time, and that is still authorized. Asking for the
/// status and locking need no more than that they succeeded, and a vault that
/// was created before is reported again whatever its state.
pub proof fn results_are_held_back(
    agent: AgentRuntime,
    context: DispatchContext,
    verdict: Verdict,
    completion: RequestCompletion,
    expired: bool,
)
    requires
        !verdict.committed,
        agent.settled(context, verdict, completion, expired).error is None,
    ensures
        completion == RequestCompletion::Completed,
        agent.coordinator.cancelled(context.key) ==> context.permit.operation.code
            == OperationCode::Lock,
        !expired,
        context.permit.operation.code == OperationCode::Status || context.permit.operation.code
            == OperationCode::Lock || (verdict.replayed && context.permit.operation.code
            == OperationCode::CreateVault) || (!agent.coordinator.lock_active && agent.state
            == AgentState::Unlocked),
        context.permit.operation.code != OperationCode::Status && context.permit.operation.code
            != OperationCode::Lock && context.permit.operation.code != OperationCode::CreateVault
            && context.permit.operation.code != OperationCode::UnlockMasterPassword
            && context.permit.operation.code != OperationCode::UnlockWindowsHello
            ==> context.permit.operation.requires_unlocked_epoch && agent.coordinator.epoch
            == context.permit.unlock_epoch,
{
}

/// A request that was admitted and ended leaves the registry and the number of
/// places taken as they were.
pub proof fn ended_requests_leave_no_trace(
    before: AgentRuntime,
    running: AgentRuntime,
    after: AgentRuntime,
    key: RequestKey,
    told_to_stop: bool,
)
    requires
        !before.coordinator.requests().dom().contains(key),
        running.admits(&before, key, told_to_stop),
        after.coordinator.requests() == running.coordinator.requests().remove(key),
        after.coordinator.global_in_flight == running.coordinator.global_in_flight - 1,
    ensures
        after.coordinator.requests() == before.coordinator.requests(),
        after.coordinator.global_in_flight == before.coordinator.global_in_flight,
{
    assert(after.coordinator.requests() =~= before.coordinator.requests());
}

/// A request is too late exactly once its whole timeout has passed: at every
/// moment since its start, it is late where as many milliseconds have gone by as
/// it was given. It has no deadline only where there is no such moment.
pub proof fn requests_are_late_after_their_timeout(
    started: u64,
    timeout_ms: u32,
    deadline: Result<u64, DispatchError>,
    now: u64,
)
    requires
        call_ensures(request_deadline, (started, timeout_ms), deadline),
        started <= now,
    ensures
        deadline matches Ok(moment) ==> (now >= moment <==> (now - started) / 1_000_000
            >= timeout_ms),
        deadline is Err ==> (now - started) / 1_000_000 < timeout_ms,
        deadline matches Err(error) ==> error == DispatchError::Internal,
{
    let passed = (now - started) / 1_000_000;
    assert(passed * 1_000_000 <= now - started < passed * 1_000_000 + 1_000_000);
}

/// A request that its connection did not admit is answered, unless the
/// connection itself is broken or the request could have no deadline. Only one
/// for which there was no place is worth sending again as it is, and only while
/// it is not too late.
pub proof fn refused_requests_are_answered(error: BeginRequestError, started: u64, now: u64)
    ensures
        ({
            let answer = connection_rejection(error, started, now);
            &&& answer is Err <==> error is Connection || (error matches BeginRequestError::Busy {
                effective_timeout_ms,
            } && started + effective_timeout_ms * 1_000_000 > u64::MAX)
            &&& answer matches Ok(verdict) ==> match verdict.error {
                Some(PublicErrorCode::UnauthorizedOperation) => error is Unauthorized
                    && verdict.retry == RetryCategory::Never,
                Some(PublicErrorCode::Locked) => error is StaleEpoch && verdict.retry
                    == RetryCategory::AfterUnlock,
                Some(PublicErrorCode::InvalidRequest) => error is MissingIdempotencyKey
                    && verdict.retry == RetryCategory::Never,
                Some(PublicErrorCode::Busy) => error matches BeginRequestError::Busy {
                    effective_timeout_ms,
                } && now < started + effective_timeout_ms * 1_000_000 && verdict.retry
                    == RetryCategory::Backoff,
                Some(PublicErrorCode::DeadlineExceeded) => error matches BeginRequestError::Busy {
                    effective_timeout_ms,
                } && now >= started + effective_timeout_ms * 1_000_000 && verdict.retry
                    == RetryCategory::Never,
                _ => false,
            }
        }),
{
}

/// A verdict is changed on the way out only where it may not be given: a durable
/// one never is, a failure that tells nothing of the vault only for a request
/// that its connection cancelled, and what is put in its place says why.
pub proof fn answers_are_changed_for_a_reason(
    agent: AgentRuntime,
    context: DispatchContext,
    verdict: Verdict,
    completion: RequestCompletion,
    expired: bool,
)
    ensures
        ({
            let settled = agent.settled(context, verdict, completion, expired);
            let requests = agent.coordinator.requests();
            let unwanted = requests.dom().contains(context.key) && requests[context.key]
                && context.permit.operation.code != OperationCode::Lock;
            let tells = verdict.error is None || verdict.error == Some(PublicErrorCode::NotFound);
            &&& verdict.committed ==> settled == verdict
            &&& !verdict.committed && completion == RequestCompletion::Cancelled ==> settled.error
                == Some(PublicErrorCode::Cancelled)
            &&& completion == RequestCompletion::Completed && !tells ==> settled == verdict
            &&& !verdict.committed && completion == RequestCompletion::Completed && tells ==> {
                &&& unwanted ==> settled.error == Some(PublicErrorCode::Cancelled)
                &&& !unwanted && expired ==> settled.error == Some(
                    PublicErrorCode::DeadlineExceeded,
                )
                &&& !unwanted && !expired ==> settled == verdict || settled.error == Some(
                    PublicErrorCode::Locked,
                )
            }
        }),
{
}

/// An operation runs exactly where its request was read, its proof was made for
/// it, and it is wanted and in time; every other request is answered without it.
pub proof fn wanted_operations_run<F>(
    decoded: Result<Option<Verdict>, ProtocolError>,
    signals: Signals,
    operation: F,
    outcome: Result<ExecutionOutcome, DispatchError>,
) where F: FnOnce() -> Result<ExecutionOutcome, DispatchError>
    requires
        call_ensures(execute_decoded::<F>, (decoded, &signals, operation), outcome),
    ensures
        decoded matches Ok(refusal) ==> (refusal is None && !signals.cancelled && !signals.expired
            ==> call_ensures(operation, (), outcome)),
        decoded is Err || decoded->Ok_0 is Some || signals.cancelled || signals.expired ==> {
            &&& outcome is Ok
            &&& outcome->Ok_0.body@.len() == 0
            &&& decoded is Ok && decoded->Ok_0 is Some ==> outcome->Ok_0.verdict
                == decoded->Ok_0->Some_0
            &&& decoded is Ok && decoded->Ok_0 is None && signals.cancelled
                ==> outcome->Ok_0.verdict.error == Some(PublicErrorCode::Cancelled)
            &&& decoded is Ok && decoded->Ok_0 is None && !signals.cancelled && signals.expired
                ==> outcome->Ok_0.verdict.error == Some(PublicErrorCode::DeadlineExceeded)
            &&& decoded is Err ==> outcome->Ok_0.verdict.error is Some
        },
{
}

/// A request that fails is answered without a body, and one whose connection is
/// broken is not answered at all.
pub proof fn failures_are_answered_without_a_body<E>(
    agent: AgentRuntime,
    context: DispatchContext,
    outcome: ExecutionOutcome,
    completion: Result<RequestCompletion, ConnectionError>,
    expired: bool,
    encode_status: E,
    response: Result<ResponseEnvelope, DispatchError>,
) where E: FnOnce(AgentState, u64) -> Result<Vec<u8>, ProtocolError>
    requires
        call_ensures(
            AgentRuntime::finish_dispatch::<E>,
            (&agent, &context, outcome, completion, expired, encode_status),
            response,
        ),
    ensures
        completion matches Err(error) ==> response == Err::<ResponseEnvelope, DispatchError>(
            DispatchError::Connection(error),
        ),
        response matches Ok(given) ==> given.correlation == context.correlation && (given.error
            is Some ==> given.body@.len() == 0),
        completion == Ok::<RequestCompletion, ConnectionError>(RequestCompletion::Completed)
            && outcome.verdict.error is Some && outcome.verdict.error != Some(
            PublicErrorCode::NotFound,
        ) ==> response is Ok && response->Ok_0.error == outcome.verdict.error
            && response->Ok_0.retry == outcome.verdict.retry,
{
}

} // verus!
