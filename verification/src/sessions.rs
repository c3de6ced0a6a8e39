//! What holds of all handles of one process together: their sessions are
//! numbered by one counter, and so told apart for good.

use vstd::prelude::*;

use crate::errors::{AccountError, RecordOperationError, StorageError};
use crate::lifecycle::{OperationPermit, VaultAgent};
use crate::records::OnConflict;
use crate::unlock_attempt::{UnlockAttempt, UnlockEvent, UnlockState};
use crate::vault_data::{PreparedRecordMutation, VaultData};

verus! {

/// Every handle that was made so far, and the number of the next session. A
/// handle that is gone stays here as it last was.
pub struct Handles<S> {
    pub agents: Seq<VaultAgent<S>>,
    pub sessions: u64,
}

/// Whether one handle can become another one: it is locked, an operation keeps
/// its session, or an attempt to unlock it takes in an event.
pub open spec fn handle_may_become<S>(
    before: VaultAgent<S>,
    after: VaultAgent<S>,
    sessions_before: u64,
    sessions_after: u64,
) -> bool {
    ||| sessions_after == sessions_before && after.is_locked_form_of(&before)
    ||| {
        &&& sessions_after == sessions_before
        &&& after.session is Some <==> before.session is Some
        &&& after.session_id == before.session_id
        &&& after.authorization_epoch == before.authorization_epoch
    }
    ||| exists|attempt: UnlockAttempt<S>, event: UnlockEvent<S>|
        {
            let next = #[trigger] crate::unlock_attempt::unlock_next(
                (UnlockState { attempt, agent: before, sessions: sessions_before }),
                event,
            );
            next.agent == after && next.sessions == sessions_after
        }
}

/// Whether the number of the next session is taken.
pub open spec fn takes_number(before: u64, after: u64) -> bool {
    before < u64::MAX && after == before + 1
}

/// Whether a handle is added at the end.
pub open spec fn adds<S>(before: Handles<S>, after: Handles<S>, agent: VaultAgent<S>) -> bool {
    after.agents == before.agents.push(agent)
}

/// Whether only the handle at one place changes.
pub open spec fn changes_at<S>(before: Handles<S>, after: Handles<S>, place: int) -> bool {
    &&& 0 <= place < before.agents.len()
    &&& after.agents.len() == before.agents.len()
    &&& forall|other: int|
        0 <= other < before.agents.len() && other != place ==> #[trigger] after.agents[other]
            == before.agents[other]
    &&& handle_may_become(
        before.agents[place],
        after.agents[place],
        before.sessions,
        after.sessions,
    )
}

/// Whether all handles can become these: a locked handle is added, a handle of a
/// vault that was just created is added under the next number, a number is taken
/// in vain, or one handle changes.
pub open spec fn handles_may_become<S>(before: Handles<S>, after: Handles<S>) -> bool {
    ||| {
        &&& after.sessions == before.sessions
        &&& exists|agent: VaultAgent<S>| #[trigger]
            adds(before, after, agent) && agent.session is None && agent.session_id is None
    }
    ||| {
        &&& takes_number(before.sessions, after.sessions)
        &&& exists|agent: VaultAgent<S>| #[trigger]
            adds(before, after, agent) && agent.session_id == Some(before.sessions)
    }
    ||| takes_number(before.sessions, after.sessions) && after.agents == before.agents
    ||| exists|place: int| #[trigger] changes_at(before, after, place)
}

/// Whether these are states of one process, from its start on.
pub open spec fn is_history<S>(states: Seq<Handles<S>>) -> bool {
    &&& states.len() > 0
    &&& states[0].agents.len() == 0
    &&& forall|i: int|
        #![trigger states[i]]
        0 < i < states.len() ==> handles_may_become(states[i - 1], states[i])
}

/// Whether every session has a number that was taken, and no two the same.
pub open spec fn sessions_are_told_apart<S>(state: Handles<S>) -> bool {
    &&& forall|a: int|
        0 <= a < state.agents.len() && (#[trigger] state.agents[a]).session_id is Some
            ==> state.agents[a].session_id->Some_0 < state.sessions
    &&& forall|a: int, b: int|
        0 <= a < b < state.agents.len() && (#[trigger] state.agents[a]).session_id is Some ==> (
        #[trigger] state.agents[b]).session_id != state.agents[a].session_id
}

/// Whether a permit of a session that was numbered stands for nothing any more.
pub open spec fn is_void<S>(state: Handles<S>, permit: OperationPermit) -> bool {
    &&& permit.session() < state.sessions
    &&& forall|a: int|
        0 <= a < state.agents.len() ==> !(#[trigger] state.agents[a]).authorizes(permit)
}

/// What a change leaves of the number of a session.
proof fn numbers_after_a_change<S>(
    before: VaultAgent<S>,
    after: VaultAgent<S>,
    sessions_before: u64,
    sessions_after: u64,
)
    requires
        handle_may_become(before, after, sessions_before, sessions_after),
    ensures
        sessions_before <= sessions_after,
        after.session_id == before.session_id || after.session_id is None || (after.session_id
            == Some(sessions_before) && sessions_after == sessions_before + 1),
        after.session_id == before.session_id && after.session_id is Some && after.session_id
            != Some(sessions_before) ==> {
            &&& after.session is Some <==> before.session is Some
            &&& after.authorization_epoch == before.authorization_epoch
        },
{
}

proof fn sessions_stay_told_apart<S>(before: Handles<S>, after: Handles<S>)
    requires
        sessions_are_told_apart(before),
        handles_may_become(before, after),
    ensures
        sessions_are_told_apart(after),
        before.sessions <= after.sessions,
        before.agents.len() <= after.agents.len(),
{
    if exists|place: int| #[trigger] changes_at(before, after, place) {
        let place = choose|place: int| #[trigger] changes_at(before, after, place);
        numbers_after_a_change(
            before.agents[place],
            after.agents[place],
            before.sessions,
            after.sessions,
        );
        assert forall|a: int, b: int|
            0 <= a < b < after.agents.len() && (
            #[trigger] after.agents[a]).session_id is Some implies (
        #[trigger] after.agents[b]).session_id != after.agents[a].session_id by {
            assert(before.agents[a].session_id is Some ==> before.agents[b].session_id
                != before.agents[a].session_id);
        }
    }
}

proof fn void_permits_stay_void<S>(before: Handles<S>, after: Handles<S>, permit: OperationPermit)
    requires
        sessions_are_told_apart(before),
        handles_may_become(before, after),
        is_void(before, permit),
    ensures
        is_void(after, permit),
{
    sessions_stay_told_apart(before, after);
    if exists|place: int| #[trigger] changes_at(before, after, place) {
        let place = choose|place: int| #[trigger] changes_at(before, after, place);
        numbers_after_a_change(
            before.agents[place],
            after.agents[place],
            before.sessions,
            after.sessions,
        );
        assert(!before.agents[place].authorizes(permit));
    }
}

proof fn permits_stand_or_are_void<S>(
    before: Handles<S>,
    after: Handles<S>,
    place: int,
    permit: OperationPermit,
)
    requires
        sessions_are_told_apart(before),
        handles_may_become(before, after),
        0 <= place < before.agents.len(),
        before.agents[place].authorizes(permit),
    ensures
        after.agents[place].authorizes(permit) || is_void(after, permit),
{
    sessions_stay_told_apart(before, after);
    assert(permit.session() < before.sessions);
    if !after.agents[place].authorizes(permit) {
        if exists|changed: int| #[trigger] changes_at(before, after, changed) {
            let changed = choose|changed: int| #[trigger] changes_at(before, after, changed);
            numbers_after_a_change(
                before.agents[changed],
                after.agents[changed],
                before.sessions,
                after.sessions,
            );
            assert(changed == place);
            assert forall|other: int| 0 <= other < after.agents.len() implies !(
            #[trigger] after.agents[other]).authorizes(permit) by {
                if other < place {
                    assert(before.agents[other].session_id is Some ==> before.agents[place].session_id
                        != before.agents[other].session_id);
                } else if other > place {
                    assert(before.agents[other].session_id != before.agents[place].session_id);
                }
            }
        }
    }
}

// Laws

/// Reading records changes a handle only as handles may change.
pub proof fn reads_change_handles_as_they_may<S, T, R, G>(
    before: VaultAgent<S>,
    after: VaultAgent<S>,
    read: R,
    get: G,
    result: Result<T, AccountError>,
    sessions: u64,
) where
    R: FnOnce(&Vec<u8>) -> Result<VaultData, StorageError>,
    G: FnOnce(&S, &VaultData) -> Result<T, RecordOperationError>,

    requires
        crate::records::read_result(before, after, read, get, result),
    ensures
        handle_may_become(before, after, sessions, sessions),
{
}

/// Changing records changes a handle only as handles may change.
pub proof fn changes_change_handles_as_they_may<S, T, H, R, K, P, C, G, W, M>(
    before: VaultAgent<S>,
    after: VaultAgent<S>,
    read: R,
    clock: K,
    prepare: P,
    on_conflict: OnConflict,
    last_look: C,
    apply: W,
    commit: M,
    result: Result<T, AccountError>,
    sessions: u64,
) where
    R: FnOnce(&Vec<u8>) -> Result<VaultData, StorageError>,
    K: FnOnce() -> Result<u64, StorageError>,
    P: FnOnce(&S, &VaultData, u64) -> Result<(PreparedRecordMutation, H), RecordOperationError>,
    C: FnOnce(&PreparedRecordMutation) -> Option<G>,
    W: FnOnce(&Vec<u8>, &VaultData, &PreparedRecordMutation, G) -> Result<(), StorageError>,
    M: FnOnce(S, PreparedRecordMutation, H) -> (S, Option<T>),

    requires
        before.wf(),
        crate::records::mutation_result(
            before,
            after,
            read,
            clock,
            prepare,
            on_conflict,
            last_look,
            apply,
            commit,
            result,
        ),
    ensures
        handle_may_become(before, after, sessions, sessions),
{
    crate::records::unsuccessful_changes_end_the_session(
        before,
        after,
        read,
        clock,
        prepare,
        on_conflict,
        last_look,
        apply,
        commit,
        result,
    );
}

/// At every moment, the sessions of all handles of a process have numbers of
/// their own, which were taken from the one counter.
pub proof fn no_two_sessions_share_a_number<S>(states: Seq<Handles<S>>, moment: int)
    requires
        is_history(states),
        0 <= moment < states.len(),
    ensures
        sessions_are_told_apart(states[moment]),
    decreases moment,
{
    if moment > 0 {
        no_two_sessions_share_a_number(states, moment - 1);
        assert(handles_may_become(states[moment - 1], states[moment]));
        sessions_stay_told_apart(states[moment - 1], states[moment]);
    }
}

proof fn permits_over_time<S>(
    states: Seq<Handles<S>>,
    issued: int,
    moment: int,
    place: int,
    permit: OperationPermit,
)
    requires
        is_history(states),
        0 <= issued <= moment < states.len(),
        0 <= place < states[issued].agents.len(),
        states[issued].agents[place].authorizes(permit),
    ensures
        states[issued].agents.len() <= states[moment].agents.len(),
        is_void(states[moment], permit) || forall|between: int|
            issued <= between <= moment ==> (#[trigger] states[between]).agents[place].authorizes(
                permit,
            ),
    decreases moment,
{
    no_two_sessions_share_a_number(states, moment);
    if moment > issued {
        permits_over_time(states, issued, moment - 1, place, permit);
        no_two_sessions_share_a_number(states, moment - 1);
        let before = states[moment - 1];
        let after = states[moment];
        assert(handles_may_become(before, after));
        sessions_stay_told_apart(before, after);
        if is_void(before, permit) {
            void_permits_stay_void(before, after, permit);
        } else {
            permits_stand_or_are_void(before, after, place, permit);
        }
    }
}

/// A permit stands for the handle that issued it and for no other, whichever
/// vaults they opened, and without a break: where it stands for a handle at some
/// later moment, that is the same handle, and it stood for it at every moment in
/// between. So once the handle is locked, by whatever, the permit never stands
/// for anything again.
pub proof fn permits_stand_for_one_handle_without_a_break<S>(
    states: Seq<Handles<S>>,
    issued: int,
    later: int,
    issuer: int,
    other: int,
    permit: OperationPermit,
)
    requires
        is_history(states),
        0 <= issued <= later < states.len(),
        0 <= issuer < states[issued].agents.len(),
        states[issued].agents[issuer].authorizes(permit),
        0 <= other < states[later].agents.len(),
        states[later].agents[other].authorizes(permit),
    ensures
        other == issuer,
        forall|between: int|
            issued <= between <= later ==> (#[trigger] states[between]).agents[issuer].authorizes(
                permit,
            ),
{
    permits_over_time(states, issued, later, issuer, permit);
    no_two_sessions_share_a_number(states, later);
    assert(!is_void(states[later], permit));
    assert(states[later].agents[issuer].authorizes(permit));
    if other < issuer {
        assert(states[later].agents[issuer].session_id != states[later].agents[other].session_id);
    } else if issuer < other {
        assert(states[later].agents[other].session_id != states[later].agents[issuer].session_id);
    }
}

} // verus!
