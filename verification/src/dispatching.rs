//! One request on its way from its admission to its answer.
//!
//! What a request needs from its connection, its body and the vault is done by
//! the caller. In between, the agent decides what comes next.

use vstd::prelude::*;

use crate::coordinator::RequestKey;
use crate::dispatch::{DispatchContext, RequestAdmission};
use crate::errors::{ConnectionError, DispatchError, ProtocolError};
use crate::fingerprint::request_fingerprint;
use crate::idempotency::{finish_replay, Reservation};
use crate::outcome::{bounded_response, ExecutionOutcome, Verdict};
use crate::protocol::{AgentState, RequestCompletion, ResponseEnvelope};
use crate::runtime::AgentRuntime;

verus! {

/// The idempotency key that a request holds while it runs, and the fingerprint
/// of what it asks for.
#[derive(Clone, Copy)]
pub struct HeldKey {
    pub key: [u8; 16],
    pub fingerprint: [u8; 32],
}

/// An admitted request that has its answer.
#[derive(Clone, Copy)]
pub struct AnsweredRequest {
    pub key: RequestKey,
    pub holds_lock_transition: bool,
}

/// What is to be done next for a request.
pub enum DispatchStep {
    /// Let the transport read on: the identifier of the request was issued.
    Announce(RequestAdmission),
    /// Read the body, to see whether this peer may have the kept result.
    CheckReplay { context: DispatchContext, replay: ExecutionOutcome },
    /// Read the body and run the operation.
    Execute { context: DispatchContext, held: Option<HeldKey> },
    /// Take the request off its connection.
    Settle { context: DispatchContext, outcome: ExecutionOutcome },
    /// Ask the connection whether it carries an answer of this size.
    Measure { request: Option<AnsweredRequest>, response: ResponseEnvelope },
    /// Write the answer.
    Write { request: Option<AnsweredRequest>, response: ResponseEnvelope },
    /// The request is answered, or its connection is broken.
    Finish(Result<(), DispatchError>),
}

/// A request on its way.
pub struct DispatchFlow {
    pub step: DispatchStep,
    /// The transport was let to read on.
    pub announced: bool,
    /// The request was not even rejected: its connection broke.
    pub broken_at_once: bool,
}

impl DispatchStep {
    /// The admitted request that is on its way, where there is one.
    pub open spec fn running(self) -> Option<RequestKey> {
        match self {
            DispatchStep::Announce(RequestAdmission::Admitted(context)) => Some(context.key),
            DispatchStep::Announce(RequestAdmission::Rejected(_)) => None,
            DispatchStep::CheckReplay { context, .. } => Some(context.key),
            DispatchStep::Execute { context, .. } => Some(context.key),
            DispatchStep::Settle { context, .. } => Some(context.key),
            DispatchStep::Measure { request: Some(request), .. } => Some(request.key),
            DispatchStep::Measure { request: None, .. } => None,
            DispatchStep::Write { request: Some(request), .. } => Some(request.key),
            DispatchStep::Write { request: None, .. } => None,
            DispatchStep::Finish(_) => None,
        }
    }

    /// Whether the body of the request is read in this step.
    pub open spec fn reads_body(self) -> bool {
        self is CheckReplay || self is Execute
    }

    /// Whether the request keeps the vault from being unlocked until it has
    /// its answer.
    pub open spec fn holds_lock(self) -> bool {
        match self {
            DispatchStep::Settle { outcome, .. } => outcome.verdict.holds_lock_transition,
            DispatchStep::Measure { request: Some(request), .. } => request.holds_lock_transition,
            DispatchStep::Write { request: Some(request), .. } => request.holds_lock_transition,
            _ => false,
        }
    }
}

/// Whether a request was taken off the registry of an agent.
pub open spec fn request_ended(
    before: AgentRuntime,
    after: AgentRuntime,
    key: RequestKey,
    holds_lock_transition: bool,
) -> bool {
    &&& after.same_besides_lifecycle(&before)
    &&& after.state == before.state
    &&& after.coordinator.epoch == before.coordinator.epoch
    &&& after.coordinator.kdf_active == before.coordinator.kdf_active
    &&& after.coordinator.mutation_active == before.coordinator.mutation_active
    &&& after.coordinator.lock_active == (before.coordinator.lock_active && !holds_lock_transition)
    &&& after.coordinator.global_in_flight == before.coordinator.global_in_flight - 1
    &&& after.coordinator.requests() == before.coordinator.requests().remove(key)
}

/// Whether a step follows from what a key was found to be.
pub open spec fn follows_reservation(
    next: DispatchStep,
    context: DispatchContext,
    key: [u8; 16],
    fingerprint: [u8; 32],
    told: Reservation,
) -> bool {
    match told {
        Reservation::Conflict => {
            &&& next is Settle
            &&& next->Settle_context == context
            &&& next->Settle_outcome.verdict == Verdict::conflict()
            &&& next->Settle_outcome.body@.len() == 0
        },
        Reservation::Busy => {
            &&& next is Settle
            &&& next->Settle_context == context
            &&& next->Settle_outcome.verdict == Verdict::busy()
            &&& next->Settle_outcome.body@.len() == 0
        },
        Reservation::Replay(replay) => next == (DispatchStep::CheckReplay { context, replay }),
        Reservation::Reserved => next == (DispatchStep::Execute {
            context,
            held: Some(HeldKey { key, fingerprint }),
        }),
    }
}

impl DispatchFlow {
    /// What holds of a request at every point: the transport reads on exactly
    /// once the identifier was issued, and no body is read before.
    pub open spec fn wf(&self) -> bool {
        &&& self.step is Announce ==> !self.announced && !self.broken_at_once
        &&& !(self.step is Announce) ==> self.announced == !self.broken_at_once
        &&& self.broken_at_once ==> self.step is Finish
    }

    /// Whether the agent has taken the request in, so that it can take it off
    /// again.
    pub open spec fn is_counted(&self, agent: &AgentRuntime) -> bool {
        self.step.running() is Some ==> {
            &&& agent.coordinator.global_in_flight > 0
            &&& self.step.holds_lock() ==> agent.coordinator.lock_active
        }
    }

    /// A request that was admitted or rejected, or whose connection broke.
    pub fn dispatch_with_admission(admission: Result<RequestAdmission, DispatchError>) -> (flow:
        DispatchFlow)
        ensures
            flow.wf(),
            !flow.announced,
            flow.step == (match admission {
                Ok(admission) => DispatchStep::Announce(admission),
                Err(fatal) => DispatchStep::Finish(Err(fatal)),
            }),
    {
        match admission {
            Ok(admission) => DispatchFlow {
                step: DispatchStep::Announce(admission),
                announced: false,
                broken_at_once: false,
            },
            Err(fatal) => DispatchFlow {
                step: DispatchStep::Finish(Err(fatal)),
                announced: false,
                broken_at_once: true,
            },
        }
    }

    /// Goes on once the transport reads on. A request that must not be executed
    /// twice looks for its key first.
    pub fn announced(
        self,
        agent: &mut AgentRuntime,
        idempotency_key: Option<[u8; 16]>,
        body: &[u8],
    ) -> (next: DispatchFlow)
        requires
            self.wf(),
            old(agent).wf(),
            self.step is Announce,
            self.is_counted(old(agent)),
        ensures
            next.wf(),
            next.announced,
            final(agent).wf(),
            match self.step->Announce_0 {
                RequestAdmission::Rejected(response) => {
                    &&& *final(agent) == *old(agent)
                    &&& next.step == (DispatchStep::Measure { request: None, response })
                },
                RequestAdmission::Admitted(context) => {
                    if !context.permit.operation.requires_idempotency_key {
                        &&& *final(agent) == *old(agent)
                        &&& next.step == (DispatchStep::Execute { context, held: None })
                    } else if idempotency_key is None {
                        &&& request_ended(*old(agent), *final(agent), context.key, false)
                        &&& next.step == DispatchStep::Finish(
                            Err::<(), DispatchError>(DispatchError::Internal),
                        )
                    } else {
                        let key = idempotency_key->Some_0;
                        &&& final(agent).state == old(agent).state
                        &&& final(agent).coordinator == old(agent).coordinator
                        &&& final(agent).same_agent(old(agent))
                        &&& final(agent).pending_passkey_creations == old(
                            agent,
                        ).pending_passkey_creations
                        &&& exists|fingerprint: [u8; 32], told: Reservation|
                            {
                                &&& fingerprint@ == crate::fingerprint::hmac_sha256_of(
                                    old(agent).idempotency_fingerprint_key@,
                                    crate::fingerprint::fingerprint_message(
                                        context.permit.operation,
                                        context.permit.unlock_epoch,
                                        body@,
                                    ),
                                )
                                &&& #[trigger] crate::idempotency::reserves(
                                    old(agent).idempotency@,
                                    final(agent).idempotency@,
                                    key,
                                    fingerprint,
                                    told,
                                )
                                &&& follows_reservation(
                                    next.step,
                                    context,
                                    key,
                                    fingerprint,
                                    told,
                                )
                            }
                    }
                },
            },
    {
        let context = match self.step {
            DispatchStep::Announce(RequestAdmission::Admitted(context)) => context,
            DispatchStep::Announce(RequestAdmission::Rejected(response)) => {
                return DispatchFlow {
                    step: DispatchStep::Measure { request: None, response },
                    announced: true,
                    broken_at_once: false,
                };
            },
            step => {
                return DispatchFlow { step, announced: true, broken_at_once: false };
            },
        };
        let step = if !context.permit.operation.requires_idempotency_key {
            DispatchStep::Execute { context, held: None }
        } else {
            match idempotency_key {
                None => {
                    agent.end_request(&context.key, false);
                    DispatchStep::Finish(Err(DispatchError::Internal))
                },
                Some(key) => match request_fingerprint(
                    &agent.idempotency_fingerprint_key,
                    context.permit.operation,
                    context.permit.unlock_epoch,
                    body,
                ) {
                    Err(fatal) => DispatchStep::Finish(Err(fatal)),
                    Ok(fingerprint) => {
                        let told = agent.idempotency.reserve(key, fingerprint);
                        let ghost found = told;
                        let step = match told {
                            Reservation::Conflict => DispatchStep::Settle {
                                context,
                                outcome: ExecutionOutcome::without_body(Verdict::conflict()),
                            },
                            Reservation::Busy => DispatchStep::Settle {
                                context,
                                outcome: ExecutionOutcome::without_body(Verdict::busy()),
                            },
                            Reservation::Replay(replay) => DispatchStep::CheckReplay {
                                context,
                                replay,
                            },
                            Reservation::Reserved => DispatchStep::Execute {
                                context,
                                held: Some(HeldKey { key, fingerprint }),
                            },
                        };
                        assert(crate::idempotency::reserves(
                            old(agent).idempotency@,
                            agent.idempotency@,
                            key,
                            fingerprint,
                            found,
                        ));
                        step
                    },
                },
            }
        };
        DispatchFlow { step, announced: true, broken_at_once: false }
    }

    /// Goes on with a kept result, once it is known whether this peer may have
    /// it.
    pub fn replay_checked(
        self,
        agent: &mut AgentRuntime,
        rejection: Result<Option<Verdict>, DispatchError>,
    ) -> (next: DispatchFlow)
        requires
            self.wf(),
            old(agent).wf(),
            self.step is CheckReplay,
            self.is_counted(old(agent)),
        ensures
            next.wf(),
            next.announced,
            final(agent).wf(),
            match rejection {
                Err(fatal) => {
                    &&& request_ended(
                        *old(agent),
                        *final(agent),
                        self.step->CheckReplay_context.key,
                        false,
                    )
                    &&& next.step == DispatchStep::Finish(Err::<(), DispatchError>(fatal))
                },
                Ok(rejection) => {
                    &&& *final(agent) == *old(agent)
                    &&& next.step is Settle
                    &&& next.step->Settle_context == self.step->CheckReplay_context
                    &&& match rejection {
                        None => next.step->Settle_outcome == self.step->CheckReplay_replay,
                        Some(verdict) => next.step->Settle_outcome.verdict == verdict
                            && next.step->Settle_outcome.body@.len() == 0,
                    }
                },
            },
    {
        let step = match self.step {
            DispatchStep::CheckReplay { context, replay } => match finish_replay(
                replay,
                rejection,
            ) {
                Ok(outcome) => DispatchStep::Settle { context, outcome },
                Err(fatal) => {
                    agent.end_request(&context.key, false);
                    DispatchStep::Finish(Err(fatal))
                },
            },
            step => step,
        };
        DispatchFlow { step, announced: true, broken_at_once: false }
    }

    /// Goes on once the operation ran. A key that the request held is given
    /// back, with the result where that is kept.
    pub fn executed(
        self,
        agent: &mut AgentRuntime,
        executed: Result<ExecutionOutcome, DispatchError>,
    ) -> (next: DispatchFlow)
        requires
            self.wf(),
            old(agent).wf(),
            self.step is Execute,
            self.is_counted(old(agent)),
            self.step->Execute_held matches Some(held) ==> old(agent).idempotency@.runs(held.key),
        ensures
            next.wf(),
            next.announced,
            final(agent).wf(),
            final(agent).idempotency@ == (match self.step->Execute_held {
                None => old(agent).idempotency@,
                Some(held) => crate::idempotency::concluded(
                    old(agent).idempotency@,
                    held.key,
                    held.fingerprint,
                    executed,
                ),
            }),
            final(agent).same_agent(old(agent)),
            final(agent).pending_passkey_creations == old(agent).pending_passkey_creations,
            final(agent).state == old(agent).state,
            match executed {
                Ok(outcome) => {
                    &&& final(agent).coordinator == old(agent).coordinator
                    &&& next.step == (DispatchStep::Settle {
                        context: self.step->Execute_context,
                        outcome,
                    })
                },
                Err(fatal) => {
                    let key = self.step->Execute_context.key;
                    let before = old(agent).coordinator;
                    &&& final(agent).coordinator.epoch == before.epoch
                    &&& final(agent).coordinator.kdf_active == before.kdf_active
                    &&& final(agent).coordinator.mutation_active == before.mutation_active
                    &&& final(agent).coordinator.lock_active == before.lock_active
                    &&& final(agent).coordinator.global_in_flight == before.global_in_flight - 1
                    &&& final(agent).coordinator.requests() == before.requests().remove(key)
                    &&& next.step == DispatchStep::Finish(Err::<(), DispatchError>(fatal))
                },
            },
    {
        let step = match self.step {
            DispatchStep::Execute { context, held } => {
                let concluded = match held {
                    Some(held) => agent.idempotency.finish_execution(
                        held.key,
                        held.fingerprint,
                        executed,
                    ),
                    None => executed,
                };
                match concluded {
                    Ok(outcome) => DispatchStep::Settle { context, outcome },
                    Err(fatal) => {
                        agent.end_request(&context.key, false);
                        DispatchStep::Finish(Err(fatal))
                    },
                }
            },
            step => step,
        };
        DispatchFlow { step, announced: true, broken_at_once: false }
    }

    /// Whether a step follows from settling the answer of a request.
    pub open spec fn follows_settling<E>(
        next: DispatchStep,
        agent: AgentRuntime,
        context: DispatchContext,
        outcome: ExecutionOutcome,
        completion: Result<RequestCompletion, ConnectionError>,
        expired: bool,
        encode_status: E,
    ) -> bool where E: FnOnce(AgentState, u64) -> Result<Vec<u8>, ProtocolError> {
        exists|answer: Result<ResponseEnvelope, DispatchError>|
            {
                &&& #[trigger] agent.answers(
                    context,
                    outcome,
                    completion,
                    expired,
                    encode_status,
                    answer,
                )
                &&& next == (match answer {
                    Ok(response) => DispatchStep::Measure {
                        request: Some(
                            AnsweredRequest {
                                key: context.key,
                                holds_lock_transition: outcome.verdict.holds_lock_transition,
                            },
                        ),
                        response,
                    },
                    Err(fatal) => DispatchStep::Finish(Err(fatal)),
                })
            }
    }

    /// Goes on once the request is off its connection.
    pub fn settled<E>(
        self,
        agent: &mut AgentRuntime,
        completion: Result<RequestCompletion, ConnectionError>,
        expired: bool,
        encode_status: E,
    ) -> (next: DispatchFlow) where
        E: FnOnce(AgentState, u64) -> Result<Vec<u8>, ProtocolError>,

        requires
            self.wf(),
            old(agent).wf(),
            self.step is Settle,
            self.is_counted(old(agent)),
            forall|state: AgentState, epoch: u64| call_requires(encode_status, (state, epoch)),
        ensures
            next.wf(),
            next.announced,
            final(agent).wf(),
            DispatchFlow::follows_settling(
                next.step,
                *old(agent),
                self.step->Settle_context,
                self.step->Settle_outcome,
                completion,
                expired,
                encode_status,
            ),
            next.step is Measure ==> *final(agent) == *old(agent),
            next.step is Finish ==> request_ended(
                *old(agent),
                *final(agent),
                self.step->Settle_context.key,
                self.step->Settle_outcome.verdict.holds_lock_transition,
            ),
    {
        let step = match self.step {
            DispatchStep::Settle { context, outcome } => {
                let holds_lock_transition = outcome.verdict.holds_lock_transition;
                let answer = agent.finish_dispatch(
                    &context,
                    outcome,
                    completion,
                    expired,
                    encode_status,
                );
                match answer {
                    Ok(response) => DispatchStep::Measure {
                        request: Some(AnsweredRequest { key: context.key, holds_lock_transition }),
                        response,
                    },
                    Err(fatal) => {
                        agent.end_request(&context.key, holds_lock_transition);
                        DispatchStep::Finish(Err(fatal))
                    },
                }
            },
            step => step,
        };
        DispatchFlow { step, announced: true, broken_at_once: false }
    }

    /// Goes on once it is known whether the connection carries the answer, and
    /// whether it would carry the shortest failure.
    pub fn measured(
        self,
        agent: &mut AgentRuntime,
        fits: bool,
        failure_fits: bool,
    ) -> (next: DispatchFlow)
        requires
            self.wf(),
            old(agent).wf(),
            self.step is Measure,
            self.is_counted(old(agent)),
        ensures
            next.wf(),
            next.announced,
            final(agent).wf(),
            if fits {
                &&& *final(agent) == *old(agent)
                &&& next.step == (DispatchStep::Write {
                    request: self.step->Measure_request,
                    response: self.step->Measure_response,
                })
            } else if failure_fits {
                &&& *final(agent) == *old(agent)
                &&& next.step is Write
                &&& next.step->Write_request == self.step->Measure_request
                &&& crate::dispatch::is_failure(
                    next.step->Write_response,
                    Verdict::failed(),
                    self.step->Measure_response.correlation,
                )
            } else {
                &&& next.step == DispatchStep::Finish(
                    Err::<(), DispatchError>(
                        DispatchError::Connection(ConnectionError::InvalidLimit),
                    ),
                )
                &&& match self.step->Measure_request {
                    None => *final(agent) == *old(agent),
                    Some(request) => request_ended(
                        *old(agent),
                        *final(agent),
                        request.key,
                        request.holds_lock_transition,
                    ),
                }
            },
    {
        let step = match self.step {
            DispatchStep::Measure { request, response } => {
                match bounded_response(response, fits, failure_fits) {
                    Ok(response) => DispatchStep::Write { request, response },
                    Err(fatal) => {
                        if let Some(request) = request {
                            agent.end_request(&request.key, request.holds_lock_transition);
                        }
                        DispatchStep::Finish(Err(fatal))
                    },
                }
            },
            step => step,
        };
        DispatchFlow { step, announced: true, broken_at_once: false }
    }

    /// Ends the request once its answer was written, or could not be.
    pub fn written(self, agent: &mut AgentRuntime, result: Result<(), DispatchError>) -> (next:
        DispatchFlow)
        requires
            self.wf(),
            old(agent).wf(),
            self.step is Write,
            self.is_counted(old(agent)),
        ensures
            next.wf(),
            next.announced,
            next.step == DispatchStep::Finish(result),
            final(agent).wf(),
            match self.step->Write_request {
                None => *final(agent) == *old(agent),
                Some(request) => request_ended(
                    *old(agent),
                    *final(agent),
                    request.key,
                    request.holds_lock_transition,
                ),
            },
    {
        if let DispatchStep::Write { request: Some(request), .. } = &self.step {
            agent.end_request(&request.key, request.holds_lock_transition);
        }
        DispatchFlow {
            step: DispatchStep::Finish(result),
            announced: true,
            broken_at_once: false,
        }
    }
}

// Laws

/// Whether a request can go on from one point to another: it is not done yet,
/// and its transport reads on from here, as every function says that takes it
/// further.
pub open spec fn goes_on(before: DispatchFlow, after: DispatchFlow) -> bool {
    &&& before.wf()
    &&& !(before.step is Finish)
    &&& after.wf()
    &&& after.announced
}

/// Over the whole of a request, its transport is let to read on once where its
/// identifier was issued, and never where its connection broke at once: only
/// the first point of it can wait for that, it does so exactly where the request
/// was admitted or rejected, and no later one does.
pub proof fn transports_read_on_once(
    admission: Result<RequestAdmission, DispatchError>,
    points: Seq<DispatchFlow>,
)
    requires
        points.len() > 0,
        points[0].wf(),
        !points[0].announced,
        points[0].step == (match admission {
            Ok(admission) => DispatchStep::Announce(admission),
            Err(fatal) => DispatchStep::Finish(Err(fatal)),
        }),
        forall|i: int|
            #![trigger points[i]]
            0 < i < points.len() ==> goes_on(points[i - 1], points[i]),
    ensures
        points[0].step is Announce <==> admission is Ok,
        forall|i: int|
            0 < i < points.len() ==> !((#[trigger] points[i]).step is Announce)
                && points[i].announced,
        admission is Err ==> points.len() == 1,
        points.last().step is Finish ==> (points.last().announced <==> admission is Ok),
{
    if points.len() > 1 {
        assert(goes_on(points[0], points[1]));
    }
}

/// No body is read before the request was admitted and announced.
pub proof fn bodies_are_read_after_admission(flow: DispatchFlow)
    requires
        flow.wf(),
        flow.step.reads_body(),
    ensures
        flow.announced,
        flow.step.running() is Some,
{
}

/// A request that ended gives back what it held and nothing else: its place, its
/// entry, and the lock flag where it was the one to hold it; every other request
/// stays as it is.
pub proof fn ended_requests_give_back_what_they_held(
    before: AgentRuntime,
    after: AgentRuntime,
    key: RequestKey,
    holds_lock_transition: bool,
    other: RequestKey,
)
    requires
        request_ended(before, after, key, holds_lock_transition),
    ensures
        holds_lock_transition ==> !after.coordinator.lock_active,
        !holds_lock_transition ==> after.coordinator.lock_active == before.coordinator.lock_active,
        after.coordinator.global_in_flight + 1 == before.coordinator.global_in_flight,
        !after.coordinator.requests().dom().contains(key),
        other != key ==> {
            &&& after.coordinator.requests().dom().contains(other)
                <==> before.coordinator.requests().dom().contains(other)
            &&& before.coordinator.requests().dom().contains(other)
                ==> after.coordinator.requests()[other] == before.coordinator.requests()[other]
        },
        after.coordinator.epoch == before.coordinator.epoch,
        after.state == before.state,
{
}

/// What a key was found to be decides how its request goes on: one that is new
/// is executed, one whose result is kept is given it again, one that is under
/// way is told to come again, and one that asks for something else is a
/// conflict.
pub proof fn keys_decide_how_requests_go_on(
    next: DispatchStep,
    context: DispatchContext,
    key: [u8; 16],
    fingerprint: [u8; 32],
    told: Reservation,
)
    requires
        follows_reservation(next, context, key, fingerprint, told),
    ensures
        next is Execute <==> told is Reserved,
        next is CheckReplay <==> told is Replay,
        next is Settle <==> told is Busy || told is Conflict,
        told is Busy ==> next->Settle_outcome.verdict.error == Some(
            crate::protocol::PublicErrorCode::Busy,
        ),
        told is Conflict ==> next->Settle_outcome.verdict.error == Some(
            crate::protocol::PublicErrorCode::Conflict,
        ),
        told is Busy || told is Conflict ==> next->Settle_outcome.body@.len() == 0,
        next.running() == Some(context.key),
{
}

} // verus!
