//! One attempt to unlock a vault, step by step.
//!
//! The attempt says what has to be done next: look at whether it was cancelled,
//! read the database, let the core authenticate what was read, or run what
//! stands before publication. What came of it is handed back as an event.

use vstd::prelude::*;

use crate::errors::{StorageError, UnlockError};
use crate::lifecycle::{next_session_id, OperationPermit, VaultAgent, VaultBinding};
use crate::vault_data::VaultData;

verus! {

/// What an attempt waits for.
#[derive(Clone, Copy, Debug, PartialEq, Eq, Structural)]
pub enum UnlockStep {
    /// Whether the attempt was cancelled before anything is read.
    CheckFirst,
    /// The rows of the database at the path of the handle.
    Read,
    /// The session that the core opens with the rows.
    Authenticate,
    /// That what stands before publication was run.
    BeforePublish,
    /// Whether the attempt was cancelled meanwhile.
    CheckBeforePublish,
    /// The rows of the same database once more.
    Reread,
    /// Whether the attempt was cancelled until the session was in place.
    CheckAfterPublish,
    /// Nothing more: the vault is unlocked.
    Unlocked,
    /// Nothing more: the vault stays locked.
    Refused(UnlockError),
}

/// What came of a step. `S` is the unlocked session of the core.
pub enum UnlockEvent<S> {
    /// Whether the attempt was cancelled.
    Cancelled(bool),
    /// The rows that were read.
    Rows(Result<VaultData, StorageError>),
    /// What the core made of the rows.
    Core(Result<(S, VaultBinding), UnlockError>),
    /// What stands before publication was run.
    Announced,
}

/// How far an attempt has come, and what it has in hand.
pub struct UnlockAttempt<S> {
    pub step: UnlockStep,
    pub data: Option<VaultData>,
    pub opened: Option<(S, VaultBinding)>,
}

/// An attempt together with what it changes: the handle, and the number of the
/// next session.
pub struct UnlockState<S> {
    pub attempt: UnlockAttempt<S>,
    pub agent: VaultAgent<S>,
    pub sessions: u64,
}

impl<S> UnlockAttempt<S> {
    /// What is in hand at a step.
    pub open spec fn wf(&self) -> bool {
        match self.step {
            UnlockStep::Authenticate => self.data is Some,
            UnlockStep::BeforePublish
            | UnlockStep::CheckBeforePublish
            | UnlockStep::Reread => self.data is Some && self.opened is Some,
            _ => true,
        }
    }
}

/// A handle without its session and what was authenticated for it, in a new
/// epoch.
pub open spec fn locked<S>(agent: VaultAgent<S>) -> VaultAgent<S> {
    VaultAgent {
        path: agent.path,
        session: None,
        binding: None,
        authenticated_header: None,
        authenticated_manifest: None,
        session_id: None,
        authorization_epoch: crate::lifecycle::next_epoch(agent.authorization_epoch),
    }
}

/// An attempt that holds nothing.
pub open spec fn at_step<S>(step: UnlockStep) -> UnlockAttempt<S> {
    UnlockAttempt { step, data: None, opened: None }
}

/// An attempt ends at once, and changes nothing more.
pub open spec fn refused<S>(state: UnlockState<S>, error: UnlockError) -> UnlockState<S> {
    UnlockState { attempt: at_step(UnlockStep::Refused(error)), ..state }
}

/// The second read: the session is put in place only where the database at the
/// path is as it was at the first, a session number is left, and a new epoch can
/// begin.
pub open spec fn publication<S>(
    state: UnlockState<S>,
    found: Result<VaultData, StorageError>,
) -> UnlockState<S> {
    if state.agent.path is None || found is Err || found->Ok_0@ != state.attempt.data->Some_0@
        || state.sessions == u64::MAX {
        refused(state, UnlockError::Failed)
    } else if state.agent.authorization_epoch == u64::MAX {
        UnlockState {
            sessions: (state.sessions + 1) as u64,
            ..refused(state, UnlockError::Failed)
        }
    } else {
        UnlockState {
            attempt: at_step(UnlockStep::CheckAfterPublish),
            agent: VaultAgent {
                path: state.agent.path,
                session: Some(state.attempt.opened->Some_0.0),
                binding: Some(state.attempt.opened->Some_0.1),
                authenticated_header: Some(state.attempt.data->Some_0.header),
                authenticated_manifest: Some(state.attempt.data->Some_0.manifest),
                session_id: Some(state.sessions),
                authorization_epoch: (state.agent.authorization_epoch + 1) as u64,
            },
            sessions: (state.sessions + 1) as u64,
        }
    }
}

/// What follows an event. One that the attempt does not wait for ends it.
pub open spec fn unlock_next<S>(state: UnlockState<S>, event: UnlockEvent<S>) -> UnlockState<S> {
    let attempt = state.attempt;
    match attempt.step {
        UnlockStep::Unlocked | UnlockStep::Refused(_) => state,
        UnlockStep::CheckFirst => match event {
            UnlockEvent::Cancelled(true) => refused(state, UnlockError::Cancelled),
            UnlockEvent::Cancelled(false) => if state.agent.path is Some {
                UnlockState { attempt: at_step(UnlockStep::Read), ..state }
            } else {
                refused(state, UnlockError::Failed)
            },
            _ => refused(state, UnlockError::Failed),
        },
        UnlockStep::Read => match event {
            UnlockEvent::Rows(Ok(data)) => UnlockState {
                attempt: UnlockAttempt {
                    step: UnlockStep::Authenticate,
                    data: Some(data),
                    opened: None,
                },
                ..state
            },
            _ => refused(state, UnlockError::Failed),
        },
        UnlockStep::Authenticate => match event {
            UnlockEvent::Core(Ok(opened)) => UnlockState {
                attempt: UnlockAttempt {
                    step: UnlockStep::BeforePublish,
                    data: attempt.data,
                    opened: Some(opened),
                },
                ..state
            },
            UnlockEvent::Core(Err(error)) => refused(state, error),
            _ => refused(state, UnlockError::Failed),
        },
        UnlockStep::BeforePublish => match event {
            UnlockEvent::Announced => UnlockState {
                attempt: UnlockAttempt { step: UnlockStep::CheckBeforePublish, ..attempt },
                ..state
            },
            _ => refused(state, UnlockError::Failed),
        },
        UnlockStep::CheckBeforePublish => match event {
            UnlockEvent::Cancelled(true) => refused(state, UnlockError::Cancelled),
            UnlockEvent::Cancelled(false) => UnlockState {
                attempt: UnlockAttempt { step: UnlockStep::Reread, ..attempt },
                ..state
            },
            _ => refused(state, UnlockError::Failed),
        },
        UnlockStep::Reread => match event {
            UnlockEvent::Rows(found) => publication(state, found),
            _ => refused(state, UnlockError::Failed),
        },
        UnlockStep::CheckAfterPublish => match event {
            UnlockEvent::Cancelled(false) => UnlockState {
                attempt: at_step(UnlockStep::Unlocked),
                ..state
            },
            UnlockEvent::Cancelled(true) => UnlockState {
                agent: locked(state.agent),
                ..refused(state, UnlockError::Cancelled)
            },
            _ => UnlockState {
                agent: locked(state.agent),
                ..refused(state, UnlockError::Failed)
            },
        },
    }
}

fn waiting<S>(step: UnlockStep) -> (attempt: UnlockAttempt<S>)
    ensures
        attempt == at_step::<S>(step),
{
    UnlockAttempt { step, data: None, opened: None }
}

impl<S> VaultAgent<S> {
    /// Begins to unlock the vault. The handle is locked first, and stays locked
    /// unless everything succeeds.
    pub fn unlock(&mut self) -> (attempt: UnlockAttempt<S>)
        ensures
            *final(self) == locked(*old(self)),
            final(self).wf(),
            attempt == at_step::<S>(UnlockStep::CheckFirst),
    {
        self.lock();
        waiting(UnlockStep::CheckFirst)
    }

    /// Goes on with an attempt to unlock the vault, once what it waits for has
    /// happened. Every reason not to unlock but a cancellation, a wrong password
    /// among them, is the same failure.
    pub fn continue_unlock(
        &mut self,
        attempt: UnlockAttempt<S>,
        sessions: &mut u64,
        event: UnlockEvent<S>,
    ) -> (next: UnlockAttempt<S>)
        requires
            attempt.wf(),
        ensures
            (UnlockState { attempt: next, agent: *final(self), sessions: *final(sessions) })
                == unlock_next(
                (UnlockState { attempt, agent: *old(self), sessions: *old(sessions) }),
                event,
            ),
            next.wf(),
            old(self).wf() ==> final(self).wf(),
    {
        match attempt.step {
            UnlockStep::Unlocked | UnlockStep::Refused(_) => attempt,
            UnlockStep::CheckFirst => match event {
                UnlockEvent::Cancelled(true) => waiting(
                    UnlockStep::Refused(UnlockError::Cancelled),
                ),
                UnlockEvent::Cancelled(false) => if self.path.is_some() {
                    waiting(UnlockStep::Read)
                } else {
                    waiting(UnlockStep::Refused(UnlockError::Failed))
                },
                _ => waiting(UnlockStep::Refused(UnlockError::Failed)),
            },
            UnlockStep::Read => match event {
                UnlockEvent::Rows(Ok(data)) => UnlockAttempt {
                    step: UnlockStep::Authenticate,
                    data: Some(data),
                    opened: None,
                },
                _ => waiting(UnlockStep::Refused(UnlockError::Failed)),
            },
            UnlockStep::Authenticate => match event {
                UnlockEvent::Core(Ok(opened)) => UnlockAttempt {
                    step: UnlockStep::BeforePublish,
                    data: attempt.data,
                    opened: Some(opened),
                },
                UnlockEvent::Core(Err(error)) => waiting(UnlockStep::Refused(error)),
                _ => waiting(UnlockStep::Refused(UnlockError::Failed)),
            },
            UnlockStep::BeforePublish => match event {
                UnlockEvent::Announced => UnlockAttempt {
                    step: UnlockStep::CheckBeforePublish,
                    data: attempt.data,
                    opened: attempt.opened,
                },
                _ => waiting(UnlockStep::Refused(UnlockError::Failed)),
            },
            UnlockStep::CheckBeforePublish => match event {
                UnlockEvent::Cancelled(true) => waiting(
                    UnlockStep::Refused(UnlockError::Cancelled),
                ),
                UnlockEvent::Cancelled(false) => UnlockAttempt {
                    step: UnlockStep::Reread,
                    data: attempt.data,
                    opened: attempt.opened,
                },
                _ => waiting(UnlockStep::Refused(UnlockError::Failed)),
            },
            UnlockStep::Reread => match event {
                UnlockEvent::Rows(found) => self.publish(attempt, sessions, found),
                _ => waiting(UnlockStep::Refused(UnlockError::Failed)),
            },
            UnlockStep::CheckAfterPublish => match event {
                UnlockEvent::Cancelled(false) => waiting(UnlockStep::Unlocked),
                UnlockEvent::Cancelled(true) => {
                    self.lock();
                    waiting(UnlockStep::Refused(UnlockError::Cancelled))
                },
                _ => {
                    self.lock();
                    waiting(UnlockStep::Refused(UnlockError::Failed))
                },
            },
        }
    }

    /// Puts the session in place, if the database is as it was when the core
    /// authenticated it.
    fn publish(
        &mut self,
        attempt: UnlockAttempt<S>,
        sessions: &mut u64,
        found: Result<VaultData, StorageError>,
    ) -> (next: UnlockAttempt<S>)
        requires
            attempt.wf(),
            attempt.step == UnlockStep::Reread,
        ensures
            (UnlockState { attempt: next, agent: *final(self), sessions: *final(sessions) })
                == publication(
                (UnlockState { attempt, agent: *old(self), sessions: *old(sessions) }),
                found,
            ),
    {
        let (data, session, binding) = match (attempt.data, attempt.opened) {
            (Some(data), Some((session, binding))) => (data, session, binding),
            _ => {
                return waiting(UnlockStep::Refused(UnlockError::Failed));
            },
        };
        let unchanged = match found {
            Ok(current) => current.same(&data),
            Err(_) => false,
        };
        if !unchanged || self.path.is_none() {
            return waiting(UnlockStep::Refused(UnlockError::Failed));
        }
        let session_id: u64 = match next_session_id(sessions) {
            Some(session_id) => session_id,
            None => {
                return waiting(UnlockStep::Refused(UnlockError::Failed));
            },
        };
        if !self.advance_authorization_epoch() {
            return waiting(UnlockStep::Refused(UnlockError::Failed));
        }
        self.session = Some(session);
        self.binding = Some(binding);
        self.authenticated_header = Some(data.header);
        self.authenticated_manifest = Some(data.manifest);
        self.session_id = Some(session_id);
        waiting(UnlockStep::CheckAfterPublish)
    }
}

// Laws

/// A handle and an attempt to unlock it, after these events.
pub open spec fn unlocked_by<S>(
    agent: VaultAgent<S>,
    sessions: u64,
    events: Seq<UnlockEvent<S>>,
) -> UnlockState<S>
    decreases events.len(),
{
    if events.len() == 0 {
        UnlockState {
            attempt: at_step(UnlockStep::CheckFirst),
            agent: locked(agent),
            sessions,
        }
    } else {
        unlock_next(unlocked_by(agent, sessions, events.drop_last()), events.last())
    }
}

/// How many events brought an attempt to a step.
pub open spec fn events_before(step: UnlockStep) -> int {
    match step {
        UnlockStep::CheckFirst => 0,
        UnlockStep::Read => 1,
        UnlockStep::Authenticate => 2,
        UnlockStep::BeforePublish => 3,
        UnlockStep::CheckBeforePublish => 4,
        UnlockStep::Reread => 5,
        UnlockStep::CheckAfterPublish => 6,
        _ => 7,
    }
}

/// Whether the first events are, in this order: not cancelled, rows, a session
/// of the core, the run of what stands before publication, not cancelled, the
/// same rows, not cancelled.
pub open spec fn goes_well<S>(events: Seq<UnlockEvent<S>>, count: int) -> bool {
    &&& count > 0 ==> events[0] == UnlockEvent::<S>::Cancelled(false)
    &&& count > 1 ==> events[1] is Rows && events[1]->Rows_0 is Ok
    &&& count > 2 ==> events[2] is Core && events[2]->Core_0 is Ok
    &&& count > 3 ==> events[3] is Announced
    &&& count > 4 ==> events[4] == UnlockEvent::<S>::Cancelled(false)
    &&& count > 5 ==> events[5] is Rows && events[5]->Rows_0 is Ok
        && events[5]->Rows_0->Ok_0@ == events[1]->Rows_0->Ok_0@
    &&& count > 6 ==> events[6] == UnlockEvent::<S>::Cancelled(false)
}

/// The handle with the session of the core in place.
pub open spec fn opened_with<S>(
    before: VaultAgent<S>,
    after: VaultAgent<S>,
    sessions: u64,
    events: Seq<UnlockEvent<S>>,
) -> bool {
    &&& after.path == before.path
    &&& after.session == Some(events[2]->Core_0->Ok_0.0)
    &&& after.binding == Some(events[2]->Core_0->Ok_0.1)
    &&& after.authenticated_header == Some(events[1]->Rows_0->Ok_0.header)
    &&& after.authenticated_manifest == Some(events[1]->Rows_0->Ok_0.manifest)
    &&& after.session_id == Some(sessions)
    &&& after.authorization_epoch == before.authorization_epoch + 2
}

/// Where an attempt stands, seen from the events that brought it there.
proof fn attempts_follow_their_events<S>(
    agent: VaultAgent<S>,
    sessions: u64,
    events: Seq<UnlockEvent<S>>,
)
    ensures
        ({
            let state = unlocked_by(agent, sessions, events);
            let step = state.attempt.step;
            let count = events_before(step);
            &&& state.attempt.wf()
            &&& state.agent.wf()
            &&& step is Refused ==> state.agent.session is None
            &&& step is Refused ==> state.agent.path == agent.path
            &&& step !is Refused && count > 0 ==> agent.path is Some
            &&& step == UnlockStep::Refused(UnlockError::Cancelled) ==> exists|i: int|
                0 <= i < events.len() && (#[trigger] events[i] == UnlockEvent::<S>::Cancelled(true)
                    || events[i] == UnlockEvent::<S>::Core(Err(UnlockError::Cancelled)))
            &&& step !is Refused ==> goes_well(events, count) && events.len() >= count
            &&& step !is Refused && step !is Unlocked ==> events.len() == count
            &&& step !is Refused && count < 6 ==> state.agent == locked(agent) && state.sessions
                == sessions
            &&& step !is Refused && 2 <= count < 6 ==> state.attempt.data == Some(
                events[1]->Rows_0->Ok_0,
            )
            &&& step !is Refused && 3 <= count < 6 ==> state.attempt.opened == Some(
                events[2]->Core_0->Ok_0,
            )
            &&& step !is Refused && count >= 6 ==> {
                &&& opened_with(agent, state.agent, sessions, events)
                &&& state.sessions == sessions + 1
            }
        }),
    decreases events.len(),
{
    if events.len() > 0 {
        let earlier = events.drop_last();
        attempts_follow_their_events(agent, sessions, earlier);
        let before = unlocked_by(agent, sessions, earlier);
        assert(unlocked_by(agent, sessions, events) == unlock_next(before, events.last()));
        assert(forall|i: int| 0 <= i < earlier.len() ==> earlier[i] == events[i]);
        let state = unlocked_by(agent, sessions, events);
        if state.attempt.step == UnlockStep::Refused(UnlockError::Cancelled) {
            if before.attempt.step is Refused {
                let i = choose|i: int|
                    0 <= i < earlier.len() && (#[trigger] earlier[i] == UnlockEvent::<
                        S,
                    >::Cancelled(true) || earlier[i] == UnlockEvent::<S>::Core(
                        Err(UnlockError::Cancelled),
                    ));
                assert(events[i] == earlier[i]);
            } else {
                assert(events[events.len() - 1] == events.last());
            }
        }
    }
}

/// A vault is unlocked only after everything went well, in order: nothing was
/// cancelled at any of the three looks, and the database that was read again
/// after the one run of what stands before publication is the one that the core
/// had authenticated. So a cancellation or another database that shows by then
/// leaves the vault locked. The session is that of the core, in an epoch and
/// under a number of its own.
pub proof fn unlocked_vaults_passed_every_check<S>(
    agent: VaultAgent<S>,
    sessions: u64,
    events: Seq<UnlockEvent<S>>,
)
    requires
        unlocked_by(agent, sessions, events).attempt.step is Unlocked,
    ensures
        events.len() >= 7,
        goes_well(events, 7),
        opened_with(agent, unlocked_by(agent, sessions, events).agent, sessions, events),
        unlocked_by(agent, sessions, events).sessions == sessions + 1,
{
    attempts_follow_their_events(agent, sessions, events);
}

/// An attempt that is refused, whenever and for whatever reason, leaves a
/// locked handle of the same vault, under which no operation begins. It is
/// reported as cancelled only where it was.
pub proof fn refused_attempts_leave_the_vault_locked<S>(
    agent: VaultAgent<S>,
    sessions: u64,
    events: Seq<UnlockEvent<S>>,
    permit: OperationPermit,
)
    requires
        unlocked_by(agent, sessions, events).attempt.step is Refused,
    ensures
        unlocked_by(agent, sessions, events).agent.wf(),
        unlocked_by(agent, sessions, events).agent.session is None,
        unlocked_by(agent, sessions, events).agent.path == agent.path,
        !unlocked_by(agent, sessions, events).agent.authorizes(permit),
        unlocked_by(agent, sessions, events).attempt.step == UnlockStep::Refused(
            UnlockError::Cancelled,
        ) ==> exists|i: int|
            0 <= i < events.len() && (#[trigger] events[i] == UnlockEvent::<S>::Cancelled(true)
                || events[i] == UnlockEvent::<S>::Core(Err(UnlockError::Cancelled))),
{
    attempts_follow_their_events(agent, sessions, events);
}

/// An attempt that everything goes well with unlocks the vault, if a session
/// number is left and two more epochs are.
pub proof fn attempts_that_go_well_unlock<S>(
    agent: VaultAgent<S>,
    sessions: u64,
    events: Seq<UnlockEvent<S>>,
)
    requires
        agent.path is Some,
        agent.authorization_epoch < u64::MAX - 1,
        sessions < u64::MAX,
        events.len() == 7,
        goes_well(events, 7),
    ensures
        unlocked_by(agent, sessions, events).attempt.step is Unlocked,
{
    assert forall|count: int| 0 < count <= 7 implies {
        &&& #[trigger] events.take(count).drop_last() == events.take(count - 1)
        &&& events.take(count).last() == events[count - 1]
    } by {
        assert(events.take(count).drop_last() =~= events.take(count - 1));
    }
    assert(unlocked_by(agent, sessions, events.take(0)).attempt.step == UnlockStep::CheckFirst);
    assert(events.take(1).drop_last() == events.take(0));
    assert(unlocked_by(agent, sessions, events.take(1)).attempt.step == UnlockStep::Read);
    assert(events.take(2).drop_last() == events.take(1));
    assert(unlocked_by(agent, sessions, events.take(2)).attempt.step == UnlockStep::Authenticate);
    assert(events.take(3).drop_last() == events.take(2));
    assert(unlocked_by(agent, sessions, events.take(3)).attempt.step == UnlockStep::BeforePublish);
    assert(events.take(4).drop_last() == events.take(3));
    assert(unlocked_by(agent, sessions, events.take(4)).attempt.step
        == UnlockStep::CheckBeforePublish);
    assert(events.take(5).drop_last() == events.take(4));
    assert(unlocked_by(agent, sessions, events.take(5)).attempt.step == UnlockStep::Reread);
    attempts_follow_their_events(agent, sessions, events.take(5));
    assert(events.take(6).drop_last() == events.take(5));
    assert(unlocked_by(agent, sessions, events.take(6)).attempt.step
        == UnlockStep::CheckAfterPublish);
    assert(events.take(7).drop_last() == events.take(6));
    assert(events.take(7) =~= events);
}

/// A vault that was created and one that is opened again from the same rows are
/// both unlocked and know the rows as theirs: where the rows that are read, the
/// first time and again, have the header and the manifest of the created vault
/// and no records, and the core opens them, the handle unlocks.
pub proof fn created_vaults_unlock<S>(
    created: VaultAgent<S>,
    reopened: VaultAgent<S>,
    sessions: u64,
    rows: crate::vault_data::VaultModel,
    events: Seq<UnlockEvent<S>>,
)
    requires
        created.session is Some,
        created.authenticated_header is Some,
        created.authenticated_header->Some_0@ == rows.header,
        created.authenticated_manifest is Some,
        created.authenticated_manifest->Some_0@ == rows.manifest,
        reopened.path is Some,
        reopened.session is None,
        reopened.authorization_epoch == 0,
        sessions < u64::MAX,
        events.len() == 7,
        goes_well(events, 7),
        events[1]->Rows_0->Ok_0@ == rows,
    ensures
        created.recognizes(rows),
        unlocked_by(reopened, sessions, events).attempt.step is Unlocked,
        unlocked_by(reopened, sessions, events).agent.session is Some,
        unlocked_by(reopened, sessions, events).agent.recognizes(rows),
{
    attempts_that_go_well_unlock(reopened, sessions, events);
    unlocked_vaults_passed_every_check(reopened, sessions, events);
}

/// No permit that was issued before an attempt stands for anything once the
/// vault is unlocked: neither one of the handle itself, nor one of any other
/// session that was numbered before.
pub proof fn unlocking_voids_permits<S>(
    agent: VaultAgent<S>,
    sessions: u64,
    events: Seq<UnlockEvent<S>>,
    permit: OperationPermit,
)
    requires
        permit.epoch() <= agent.authorization_epoch || permit.session() < sessions,
    ensures
        !unlocked_by(agent, sessions, events).agent.authorizes(permit),
{
    attempts_follow_their_events(agent, sessions, events);
}

/// An attempt that is refused says why: it was cancelled only where somebody
/// cancelled it or the core says so, and failed in every other case; only an
/// attempt that had already put its session in place locks the vault again.
pub proof fn refused_attempts_say_why<S>(
    state: UnlockState<S>,
    event: UnlockEvent<S>,
    error: UnlockError,
)
    requires
        !(state.attempt.step is Refused),
        unlock_next(state, event).attempt.step == UnlockStep::Refused(error),
    ensures
        error == UnlockError::Cancelled <==> {
            ||| event == UnlockEvent::<S>::Cancelled(true) && (state.attempt.step is CheckFirst
                || state.attempt.step is CheckBeforePublish || state.attempt.step
                is CheckAfterPublish)
            ||| state.attempt.step is Authenticate && event is Core && event->Core_0 is Err
                && event->Core_0->Err_0 == UnlockError::Cancelled
        },
        state.attempt.step is CheckAfterPublish ==> unlock_next(state, event).agent.session is None,
        !(state.attempt.step is CheckAfterPublish) ==> unlock_next(state, event).agent
            == state.agent,
{
}

} // verus!
