//! What becomes of credentials while the platform's prompt is enrolled.

use vstd::prelude::*;

use crate::errors::{WindowsHelloProviderError, WindowsHelloStateError};
use crate::hello::{EnrollModel, EnrollStep, HelloEvent, RetirementStep};
use crate::outcome::Verdict;
use crate::windows_hello::LocalStateModel;

verus! {

/// The credentials that exist on the platform, and what is stored of them.
pub struct CredentialWorld {
    pub live: Set<Seq<u8>>,
    pub stored: Option<LocalStateModel>,
}

/// Whether a state names a credential, as enrolled or as one that has to go.
pub open spec fn names(state: Option<LocalStateModel>, credential_id: Seq<u8>) -> bool {
    &&& state is Some
    &&& {
        ||| state->Some_0.enrollment is Some && state->Some_0.enrollment->Some_0.credential_id
            == credential_id
        ||| state->Some_0.pending_removal == Some(credential_id)
    }
}

/// Whether every credential that exists is named by a state, except for one.
pub open spec fn covers(
    live: Set<Seq<u8>>,
    state: Option<LocalStateModel>,
    except: Option<Seq<u8>>,
) -> bool {
    forall|credential_id: Seq<u8>| #[trigger]
        live.contains(credential_id) ==> names(state, credential_id) || except == Some(
            credential_id,
        )
}

/// Whether every credential that exists is named in what is stored, so that it
/// can still be used or removed.
pub open spec fn accounted(world: CredentialWorld) -> bool {
    covers(world.live, world.stored, None)
}

/// Whether the credential that the stored enrollment needs exists.
pub open spec fn usable(world: CredentialWorld) -> bool {
    world.stored is Some && world.stored->Some_0.enrollment is Some ==> world.live.contains(
        world.stored->Some_0.enrollment->Some_0.credential_id,
    )
}

/// What an awaited step and what came of it say about credentials and storage.
/// A removal that is reported as failed may have happened all the same.
pub open spec fn enroll_effect(
    flow: EnrollModel,
    event: HelloEvent,
    before: CredentialWorld,
    after: CredentialWorld,
) -> bool {
    match (flow.step, event) {
        (EnrollStep::LoadState, HelloEvent::Loaded(Ok(state))) => {
            &&& after == before
            &&& before.stored == Some(state@)
            &&& state@.enrollment is Some || state@.pending_removal is Some
        },
        (EnrollStep::LoadState, HelloEvent::Loaded(Err(WindowsHelloStateError::NotFound))) => {
            &&& after == before
            &&& before.stored is None
        },
        (EnrollStep::Prompt, HelloEvent::Enrolled(Ok(credential))) => {
            &&& after.stored == before.stored
            &&& after.live == before.live.insert(credential.credential_id@)
        },
        (
            EnrollStep::Prompt,
            HelloEvent::Enrolled(Err(WindowsHelloProviderError::CleanupRequired(credential_id))),
        ) => {
            &&& after.stored == before.stored
            &&& after.live == before.live.insert(credential_id@)
        },
        (_, HelloEvent::CredentialRemoved(removed)) => match flow.removes() {
            Some(credential_id) => {
                &&& after.stored == before.stored
                &&& after.live == before.live.remove(credential_id) || (!removed && after.live
                    == before.live)
            },
            None => after == before,
        },
        (_, HelloEvent::Saved(result)) => match flow.saves() {
            Some(state) => {
                &&& after.live == before.live
                &&& after.stored == (if crate::hello::is_stored(result) {
                    Some(state)
                } else {
                    before.stored
                })
            },
            None => after == before,
        },
        (
            EnrollStep::EnsureAbsent | EnrollStep::Retire(RetirementStep::RemoveEmptied),
            HelloEvent::StateRemoved(result),
        ) => {
            &&& after.live == before.live
            &&& after.stored is None || (!crate::hello::is_absent(result) && after.stored
                == before.stored)
        },
        _ => after == before,
    }
}

/// Where the credentials stand at each step of an enrollment.
pub open spec fn accounts(flow: EnrollModel, world: CredentialWorld) -> bool {
    match flow.step {
        EnrollStep::Done(verdict) => verdict == Verdict::failed() || accounted(world),
        EnrollStep::CheckFirst => accounted(world) && flow.previous is None,
        EnrollStep::TakePrompt => accounted(world) && flow.previous is None,
        EnrollStep::CheckAgain => accounted(world) && flow.previous is None,
        EnrollStep::BeginOperation => accounted(world) && flow.previous is None,
        EnrollStep::LoadState => accounted(world) && flow.previous is None,
        EnrollStep::EnsureAbsent => accounted(world) && world.stored is None && flow.previous
            is None,
        EnrollStep::Retire(RetirementStep::RemoveCredential) => accounted(world) && world.stored
            == flow.previous,
        EnrollStep::Retire(_) => accounted(world) && covers(world.live, flow.previous, None),
        EnrollStep::CheckRecovered => accounted(world) && world.stored == flow.previous,
        EnrollStep::CheckBeforePrompt => accounted(world) && world.stored == flow.previous,
        EnrollStep::Prompt => accounted(world) && world.stored == flow.previous,
        EnrollStep::RetirePrevious => accounted(world) && world.stored == flow.replacement,
        EnrollStep::SaveRetired => accounted(world) && covers(world.live, flow.replacement, None),
        EnrollStep::RestorePrevious => accounted(world) && world.stored == flow.replacement,
        EnrollStep::RecordNew => covers(world.live, flow.previous, None),
        _ => world.stored == flow.previous && covers(
            world.live,
            world.stored,
            Some(flow.credential_id),
        ),
    }
}

proof fn enrollment_stays_wf(flow: EnrollModel, event: HelloEvent)
    requires
        flow.wf(),
    ensures
        crate::hello::enroll_next(flow, event).wf(),
{
}

proof fn step_accounts(
    flow: EnrollModel,
    event: HelloEvent,
    before: CredentialWorld,
    after: CredentialWorld,
)
    requires
        flow.wf(),
        accounts(flow, before),
        enroll_effect(flow, event, before, after),
    ensures
        accounts(crate::hello::enroll_next(flow, event), after),
{
}

/// Whether an enrollment went from its start through these events, with these
/// effects on credentials and storage.
pub open spec fn is_enrollment(
    flows: Seq<EnrollModel>,
    events: Seq<HelloEvent>,
    worlds: Seq<CredentialWorld>,
) -> bool {
    &&& flows.len() == events.len() + 1
    &&& worlds.len() == flows.len()
    &&& flows[0].wf() && flows[0].step is CheckFirst && flows[0].previous is None
    &&& forall|i: int|
        0 <= i < events.len() ==> {
            &&& flows[i + 1] == crate::hello::enroll_next(flows[i], #[trigger] events[i])
            &&& enroll_effect(flows[i], events[i], worlds[i], worlds[i + 1])
        }
}

proof fn run_accounts(
    flows: Seq<EnrollModel>,
    events: Seq<HelloEvent>,
    worlds: Seq<CredentialWorld>,
    place: int,
)
    requires
        is_enrollment(flows, events, worlds),
        accounted(worlds[0]),
        0 <= place < flows.len(),
    ensures
        flows[place].wf(),
        accounts(flows[place], worlds[place]),
    decreases place,
{
    if place > 0 {
        run_accounts(flows, events, worlds, place - 1);
        let event = events[place - 1];
        enrollment_stays_wf(flows[place - 1], event);
        step_accounts(flows[place - 1], event, worlds[place - 1], worlds[place]);
    }
}

/// However an enrollment ends, no credential is lost track of: each one that
/// exists is named in what is stored, as enrolled or as one that has to go. The
/// one exception is answered as a failure that is not tried again.
pub proof fn no_credential_is_lost(
    flows: Seq<EnrollModel>,
    events: Seq<HelloEvent>,
    worlds: Seq<CredentialWorld>,
)
    requires
        is_enrollment(flows, events, worlds),
        accounted(worlds[0]),
        flows.last().step is Done,
    ensures
        accounted(worlds.last()) || flows.last().step == EnrollStep::Done(Verdict::failed()),
{
    run_accounts(flows, events, worlds, flows.len() - 1);
}

/// Whether a step met a platform that makes fresh credentials and leaves in
/// place what it says it could not remove, and a stored state that does not ask
/// to remove the credential it is enrolled with.
pub open spec fn is_faithful(
    flow: EnrollModel,
    event: HelloEvent,
    before: CredentialWorld,
    after: CredentialWorld,
) -> bool {
    match event {
        HelloEvent::CredentialRemoved(false) => after.live == before.live,
        HelloEvent::Enrolled(Ok(credential)) => !before.live.contains(credential.credential_id@),
        HelloEvent::Enrolled(Err(WindowsHelloProviderError::CleanupRequired(credential_id))) => {
            !before.live.contains(credential_id@)
        },
        HelloEvent::Loaded(Ok(state)) => state@.enrollment is Some ==> state@.pending_removal
            != Some(state@.enrollment->Some_0.credential_id),
        _ => true,
    }
}

/// Where the enrolled credential stands at each step of an enrollment.
pub open spec fn keeps_usable(flow: EnrollModel, world: CredentialWorld) -> bool {
    let previous_usable = match flow.previous_enrollment() {
        Some(enrollment) => world.live.contains(enrollment.credential_id),
        None => true,
    };
    &&& usable(world)
    &&& match flow.step {
        EnrollStep::Done(_) => true,
        EnrollStep::CheckFirst => flow.previous is None,
        EnrollStep::TakePrompt => flow.previous is None,
        EnrollStep::CheckAgain => flow.previous is None,
        EnrollStep::BeginOperation => flow.previous is None,
        EnrollStep::LoadState => flow.previous is None,
        EnrollStep::EnsureAbsent => flow.previous is None && world.stored is None,
        EnrollStep::Retire(RetirementStep::RemoveCredential) => world.stored == flow.previous && (
        flow.previous_enrollment() is Some ==> flow.previous->Some_0.pending_removal != Some(
            flow.previous_enrollment()->Some_0.credential_id,
        )),
        EnrollStep::Retire(_) => previous_usable,
        EnrollStep::CheckRecovered => world.stored == flow.previous,
        EnrollStep::CheckBeforePrompt => world.stored == flow.previous,
        EnrollStep::Prompt => world.stored == flow.previous,
        EnrollStep::RetirePrevious => {
            &&& world.stored == flow.replacement
            &&& world.live.contains(flow.credential_id)
            &&& previous_usable
        },
        EnrollStep::SaveRetired => world.live.contains(flow.credential_id),
        EnrollStep::RestorePrevious => previous_usable,
        EnrollStep::RecordNew => previous_usable,
        EnrollStep::RemoveNew(_) => {
            &&& world.stored == flow.previous
            &&& flow.previous_enrollment() is Some
                ==> flow.previous_enrollment()->Some_0.credential_id != flow.credential_id
        },
        _ => {
            &&& world.stored == flow.previous
            &&& world.live.contains(flow.credential_id)
            &&& flow.previous_enrollment() is Some
                ==> flow.previous_enrollment()->Some_0.credential_id != flow.credential_id
        },
    }
}

proof fn step_keeps_usable(
    flow: EnrollModel,
    event: HelloEvent,
    before: CredentialWorld,
    after: CredentialWorld,
)
    requires
        flow.wf(),
        keeps_usable(flow, before),
        enroll_effect(flow, event, before, after),
        is_faithful(flow, event, before, after),
    ensures
        keeps_usable(crate::hello::enroll_next(flow, event), after),
{
}

proof fn run_keeps_usable(
    flows: Seq<EnrollModel>,
    events: Seq<HelloEvent>,
    worlds: Seq<CredentialWorld>,
    place: int,
)
    requires
        is_enrollment(flows, events, worlds),
        usable(worlds[0]),
        forall|i: int|
            0 <= i < events.len() ==> is_faithful(
                flows[i],
                #[trigger] events[i],
                worlds[i],
                worlds[i + 1],
            ),
        0 <= place < flows.len(),
    ensures
        flows[place].wf(),
        keeps_usable(flows[place], worlds[place]),
    decreases place,
{
    if place > 0 {
        run_keeps_usable(flows, events, worlds, place - 1);
        let event = events[place - 1];
        enrollment_stays_wf(flows[place - 1], event);
        step_keeps_usable(flows[place - 1], event, worlds[place - 1], worlds[place]);
    }
}

/// At every moment of an enrollment the enrollment that is stored can be used:
/// the credential it needs exists. A new enrollment is stored before the
/// credential of the previous one is removed, and the previous one is stored
/// again before the new credential is.
pub proof fn stored_enrollment_stays_usable(
    flows: Seq<EnrollModel>,
    events: Seq<HelloEvent>,
    worlds: Seq<CredentialWorld>,
    place: int,
)
    requires
        is_enrollment(flows, events, worlds),
        usable(worlds[0]),
        forall|i: int|
            0 <= i < events.len() ==> is_faithful(
                flows[i],
                #[trigger] events[i],
                worlds[i],
                worlds[i + 1],
            ),
        0 <= place < worlds.len(),
    ensures
        usable(worlds[place]),
{
    run_keeps_usable(flows, events, worlds, place);
}

/// Whether a state enrolls the vault of an enrollment with its new credential.
pub open spec fn enrolls(flow: EnrollModel, state: Option<LocalStateModel>) -> bool {
    &&& state is Some
    &&& state->Some_0.enrollment is Some
    &&& flow.binding is Some
    &&& state->Some_0.enrollment->Some_0.vault_id == flow.binding->Some_0.vault_id@
    &&& state->Some_0.enrollment->Some_0.key_epoch == flow.binding->Some_0.key_epoch
    &&& state->Some_0.enrollment->Some_0.credential_id == flow.credential_id
}

/// Where the new enrollment stands at each step.
pub open spec fn prepares(flow: EnrollModel, world: CredentialWorld) -> bool {
    match flow.step {
        EnrollStep::Done(verdict) => verdict.committed ==> verdict
            == Verdict::success().commit_point() && enrolls(flow, world.stored)
            && world.stored->Some_0.pending_removal is None,
        EnrollStep::RemoveNew(verdict) => !verdict.committed,
        EnrollStep::CheckBeforePublish => enrolls(flow, flow.replacement),
        EnrollStep::EnterCommit => enrolls(flow, flow.replacement),
        EnrollStep::Publish => enrolls(flow, flow.replacement),
        EnrollStep::RetirePrevious => enrolls(flow, flow.replacement),
        EnrollStep::SaveRetired => enrolls(flow, flow.replacement),
        _ => true,
    }
}

proof fn step_prepares(
    flow: EnrollModel,
    event: HelloEvent,
    before: CredentialWorld,
    after: CredentialWorld,
)
    requires
        flow.wf(),
        prepares(flow, before),
        enroll_effect(flow, event, before, after),
    ensures
        prepares(crate::hello::enroll_next(flow, event), after),
{
}

proof fn run_prepares(
    flows: Seq<EnrollModel>,
    events: Seq<HelloEvent>,
    worlds: Seq<CredentialWorld>,
    place: int,
)
    requires
        is_enrollment(flows, events, worlds),
        0 <= place < flows.len(),
    ensures
        flows[place].wf(),
        prepares(flows[place], worlds[place]),
    decreases place,
{
    if place > 0 {
        run_prepares(flows, events, worlds, place - 1);
        let event = events[place - 1];
        enrollment_stays_wf(flows[place - 1], event);
        step_prepares(flows[place - 1], event, worlds[place - 1], worlds[place]);
    }
}

/// An enrollment that is answered as durable is stored, for the vault that was
/// open and with the new credential, and nothing is left to remove.
pub proof fn durable_enrollment_is_stored(
    flows: Seq<EnrollModel>,
    events: Seq<HelloEvent>,
    worlds: Seq<CredentialWorld>,
    verdict: Verdict,
)
    requires
        is_enrollment(flows, events, worlds),
        flows.last().step == EnrollStep::Done(verdict),
        verdict.committed,
    ensures
        enrolls(flows.last(), worlds.last().stored),
        worlds.last().stored->Some_0.pending_removal is None,
{
    run_prepares(flows, events, worlds, flows.len() - 1);
}

/// Whether the platform gave this credential and this salt in an enrollment,
/// before some point of it.
pub open spec fn was_given(
    flows: Seq<EnrollModel>,
    events: Seq<HelloEvent>,
    point: int,
    credential_id: Seq<u8>,
    prf_salt: Seq<u8>,
) -> bool {
    exists|i: int|
        0 <= i < point && flows[i].step is Prompt && (#[trigger] events[i] matches
            HelloEvent::Enrolled(Ok(credential)) && credential.credential_id@ == credential_id
            && credential.prf_salt@ == prf_salt)
}

/// Whether this installation key was drawn in an enrollment, before some point
/// of it.
pub open spec fn was_drawn(
    flows: Seq<EnrollModel>,
    events: Seq<HelloEvent>,
    point: int,
    key: Seq<u8>,
) -> bool {
    exists|i: int|
        0 <= i < point && flows[i].step is DrawKey && (#[trigger] events[i] matches HelloEvent::Key(
            Some(drawn),
        ) && drawn@ == key)
}

/// Whether the vault made this protector in an enrollment, before some point of
/// it, and was still authorized to.
pub open spec fn was_made(
    flows: Seq<EnrollModel>,
    events: Seq<HelloEvent>,
    point: int,
    protector: Seq<u8>,
) -> bool {
    exists|i: int|
        0 <= i < point && flows[i].step is Protect && (#[trigger] events[i] matches
            HelloEvent::Protected(protection) && protection.authorized
            && protection.protector is Some && protection.protector->Some_0@ == protector)
}

/// Whether everything secret in a stored enrollment comes out of this very
/// enrollment.
pub open spec fn comes_from(
    flows: Seq<EnrollModel>,
    events: Seq<HelloEvent>,
    point: int,
    state: Option<LocalStateModel>,
) -> bool {
    &&& state is Some
    &&& state->Some_0.enrollment is Some
    &&& was_given(
        flows,
        events,
        point,
        state->Some_0.enrollment->Some_0.credential_id,
        state->Some_0.enrollment->Some_0.prf_salt,
    )
    &&& was_drawn(flows, events, point, state->Some_0.enrollment->Some_0.installation_key)
    &&& was_made(flows, events, point, state->Some_0.enrollment->Some_0.protector)
}

/// What an enrollment has come by so far: credentials with their salts, keys, and
/// protectors.
struct Sources {
    given: Set<(Seq<u8>, Seq<u8>)>,
    drawn: Set<Seq<u8>>,
    made: Set<Seq<u8>>,
}

spec fn sources_before(flows: Seq<EnrollModel>, events: Seq<HelloEvent>, point: int) -> Sources {
    Sources {
        given: Set::new(
            |pair: (Seq<u8>, Seq<u8>)| was_given(flows, events, point, pair.0, pair.1),
        ),
        drawn: Set::new(|key: Seq<u8>| was_drawn(flows, events, point, key)),
        made: Set::new(|bytes: Seq<u8>| was_made(flows, events, point, bytes)),
    }
}

/// Whether a state is made of these parts.
spec fn is_made_of(state: Option<LocalStateModel>, parts: Sources) -> bool {
    &&& state is Some
    &&& state->Some_0.enrollment is Some
    &&& parts.given.contains(
        (
            state->Some_0.enrollment->Some_0.credential_id,
            state->Some_0.enrollment->Some_0.prf_salt,
        ),
    )
    &&& parts.drawn.contains(state->Some_0.enrollment->Some_0.installation_key)
    &&& parts.made.contains(state->Some_0.enrollment->Some_0.protector)
}

/// Where the parts of the new enrollment come from at each step.
spec fn has_sources(flow: EnrollModel, world: CredentialWorld, parts: Sources) -> bool {
    match flow.step {
        EnrollStep::CheckAfterPrompt => parts.given.contains((flow.credential_id, flow.prf_salt)),
        EnrollStep::DrawKey => parts.given.contains((flow.credential_id, flow.prf_salt)),
        EnrollStep::Protect => parts.given.contains((flow.credential_id, flow.prf_salt))
            && parts.drawn.contains(flow.installation_key),
        EnrollStep::CheckBeforePublish => is_made_of(flow.replacement, parts),
        EnrollStep::EnterCommit => is_made_of(flow.replacement, parts),
        EnrollStep::Publish => is_made_of(flow.replacement, parts),
        EnrollStep::RetirePrevious => is_made_of(flow.replacement, parts) && world.stored
            == flow.replacement,
        EnrollStep::SaveRetired => is_made_of(flow.replacement, parts),
        EnrollStep::Done(verdict) => verdict.committed ==> is_made_of(world.stored, parts),
        EnrollStep::RemoveNew(verdict) => !verdict.committed,
        _ => true,
    }
}

/// Whether parts hold what there was before and what an event brings.
spec fn takes_in(flow: EnrollModel, event: HelloEvent, before: Sources, after: Sources) -> bool {
    &&& before.given.subset_of(after.given)
    &&& before.drawn.subset_of(after.drawn)
    &&& before.made.subset_of(after.made)
    &&& match (flow.step, event) {
        (EnrollStep::Prompt, HelloEvent::Enrolled(Ok(credential))) => after.given.contains(
            (credential.credential_id@, credential.prf_salt@),
        ),
        (EnrollStep::DrawKey, HelloEvent::Key(Some(key))) => after.drawn.contains(key@),
        (EnrollStep::Protect, HelloEvent::Protected(protection)) => protection.authorized
            && protection.protector is Some ==> after.made.contains(
            protection.protector->Some_0@,
        ),
        _ => true,
    }
}

proof fn step_has_sources(
    flow: EnrollModel,
    event: HelloEvent,
    before: CredentialWorld,
    after: CredentialWorld,
    parts_before: Sources,
    parts_after: Sources,
)
    requires
        flow.wf(),
        has_sources(flow, before, parts_before),
        enroll_effect(flow, event, before, after),
        takes_in(flow, event, parts_before, parts_after),
    ensures
        has_sources(crate::hello::enroll_next(flow, event), after, parts_after),
{
}

proof fn sources_take_in(flows: Seq<EnrollModel>, events: Seq<HelloEvent>, point: int)
    requires
        0 <= point < events.len(),
    ensures
        takes_in(
            flows[point],
            events[point],
            sources_before(flows, events, point),
            sources_before(flows, events, point + 1),
        ),
{
    let before = sources_before(flows, events, point);
    let after = sources_before(flows, events, point + 1);
    assert(before.given.subset_of(after.given));
    assert(before.drawn.subset_of(after.drawn));
    assert(before.made.subset_of(after.made));
}

proof fn run_has_sources(
    flows: Seq<EnrollModel>,
    events: Seq<HelloEvent>,
    worlds: Seq<CredentialWorld>,
    point: int,
)
    requires
        is_enrollment(flows, events, worlds),
        0 <= point < flows.len(),
    ensures
        flows[point].wf(),
        has_sources(flows[point], worlds[point], sources_before(flows, events, point)),
    decreases point,
{
    if point > 0 {
        let last = point - 1;
        run_has_sources(flows, events, worlds, last);
        enrollment_stays_wf(flows[last], events[last]);
        sources_take_in(flows, events, last);
        step_has_sources(
            flows[last],
            events[last],
            worlds[last],
            worlds[point],
            sources_before(flows, events, last),
            sources_before(flows, events, point),
        );
    }
}

/// What a durable answer leaves stored was all made in this enrollment, whatever
/// was enrolled before: the installation key is the one that was drawn, the
/// credential and its salt are those that the platform gave, and the protector
/// is the one that the vault made.
pub proof fn durable_enrollment_holds_what_was_made_for_it(
    flows: Seq<EnrollModel>,
    events: Seq<HelloEvent>,
    worlds: Seq<CredentialWorld>,
    verdict: Verdict,
)
    requires
        is_enrollment(flows, events, worlds),
        flows.last().step == EnrollStep::Done(verdict),
        verdict.committed,
    ensures
        comes_from(flows, events, events.len() as int, worlds.last().stored),
{
    run_has_sources(flows, events, worlds, flows.len() - 1);
}

/// An enrollment from its first step on, with nothing stored that is known yet:
/// the enrollment before each event, and the enrollment after the last one.
#[verifier::opaque]
pub open spec fn is_enrollment_run(flows: Seq<EnrollModel>, events: Seq<HelloEvent>) -> bool {
    &&& flows.len() == events.len() + 1
    &&& flows[0].step is CheckFirst
    &&& flows[0].previous is None
    &&& !flows[0].recovering
    &&& forall|i: int|
        0 <= i < events.len() ==> flows[i + 1] == crate::hello::enroll_next(
            flows[i],
            #[trigger] events[i],
        )
}

/// How far an enrollment is.
spec fn enroll_rank(step: EnrollStep) -> int {
    match step {
        EnrollStep::CheckFirst => 0,
        EnrollStep::TakePrompt => 1,
        EnrollStep::CheckAgain => 2,
        EnrollStep::BeginOperation => 3,
        EnrollStep::LoadState => 4,
        EnrollStep::EnsureAbsent => 5,
        EnrollStep::CheckBeforePrompt => 6,
        EnrollStep::Prompt => 7,
        EnrollStep::CheckAfterPrompt => 8,
        EnrollStep::DrawKey => 9,
        EnrollStep::Protect => 10,
        EnrollStep::CheckBeforePublish => 11,
        EnrollStep::EnterCommit => 12,
        EnrollStep::Publish => 13,
        EnrollStep::Retire(_) => 5,
        EnrollStep::CheckRecovered => 5,
        EnrollStep::Done(verdict) => if verdict.committed {
            14
        } else {
            -1
        },
        EnrollStep::CheckUnpublished => -1,
        EnrollStep::RestorePrevious => -1,
        EnrollStep::RemoveNew(verdict) => if verdict.committed {
            14
        } else {
            -1
        },
        EnrollStep::RecordNew => -1,
        EnrollStep::RetirePrevious => 13,
        EnrollStep::SaveRetired => 13,
    }
}

/// Whether a first enrollment has not lost a step up to a place, and knows what
/// was given to it before.
spec fn enrolls_in_time(flow: EnrollModel, events: Seq<HelloEvent>, place: int) -> bool {
    &&& enroll_rank(flow.step) == place
    &&& !(flow.step is Retire) && !(flow.step is CheckRecovered)
    &&& !(flow.step is RetirePrevious) && !(flow.step is SaveRetired)
    &&& !(flow.step is RemoveNew)
    &&& flow.previous is None && !flow.recovering
    &&& place > 3 ==> flow.binding == events[3]->Begun_0 && flow.binding is Some
    &&& place > 7 ==> flow.credential_id == events[7]->Enrolled_0->Ok_0.credential_id@
        && flow.prf_salt == events[7]->Enrolled_0->Ok_0.prf_salt@
    &&& place == 10 ==> flow.installation_key == events[9]->Key_0->Some_0@
    &&& place > 10 ==> {
        &&& flow.replacement matches Some(stored)
        &&& stored.pending_removal is None
        &&& stored.enrollment matches Some(enrollment)
        &&& enrollment.vault_id == events[3]->Begun_0->Some_0.vault_id@
        &&& enrollment.key_epoch == events[3]->Begun_0->Some_0.key_epoch
        &&& enrollment.credential_id == events[7]->Enrolled_0->Ok_0.credential_id@
        &&& enrollment.prf_salt == events[7]->Enrolled_0->Ok_0.prf_salt@
        &&& enrollment.installation_key == events[9]->Key_0->Some_0@
        &&& enrollment.protector == events[10]->Protected_0.protector->Some_0@
    }
}

/// Whether an enrollment has lost a step up to a place. One that lost it before
/// the stored state was loaded has lost another one there.
spec fn enrolls_late(flow: EnrollModel, place: int) -> bool {
    let rank = enroll_rank(flow.step);
    &&& rank < place
    &&& place > 4 && rank < 5 ==> rank < place - 1
}

/// Whether the event at a place is what a first enrollment needs there.
spec fn enrolls_at(
    events: Seq<HelloEvent>,
    place: int,
    limits: crate::windows_hello::HelloLimits,
) -> bool {
    let event = events[place];
    if place == 0 || place == 2 || place == 6 || place == 12 {
        event matches HelloEvent::Signals(signals) && crate::hello_removal::may_work(signals)
    } else if place == 1 {
        event == HelloEvent::PromptTaken(true)
    } else if place == 3 {
        event matches HelloEvent::Begun(Some(_))
    } else if place == 4 {
        event matches HelloEvent::Loaded(Err(error)) && error is NotFound
    } else if place == 5 {
        event matches HelloEvent::StateRemoved(removed) && (removed matches Err(error) ==> error
            is NotFound)
    } else if place == 7 {
        event matches HelloEvent::Enrolled(Ok(_))
    } else if place == 8 {
        event matches HelloEvent::Signals(signals) && crate::hello_unlock::goes_on(signals)
            && signals.epoch_current
    } else if place == 9 {
        event matches HelloEvent::Key(Some(_))
    } else if place == 10 {
        event matches HelloEvent::Protected(protection) && fit_together(
            events[3]->Begun_0->Some_0,
            events[7]->Enrolled_0->Ok_0,
            events[9]->Key_0->Some_0,
            protection,
            limits,
        )
    } else if place == 11 {
        event matches HelloEvent::Signals(signals) && crate::hello_unlock::goes_on(signals)
    } else {
        event matches HelloEvent::Saved(Ok(_))
    }
}

/// An event takes an enrollment at most one step further, but for a stored state,
/// which can save it the next one.
#[verifier::spinoff_prover]
proof fn enrollments_go_one_step_further(flow: EnrollModel, event: HelloEvent)
    ensures
        ({
            let rank = enroll_rank(flow.step);
            let next = enroll_rank(crate::hello::enroll_next(flow, event).step);
            &&& next <= rank + 1 || rank == 4 && next <= 6 || rank >= 13 && next <= 14
            &&& rank < 4 && event is Loaded ==> next <= rank
        }),
        crate::hello::enroll_next(flow, event).limits == flow.limits,
{
}

#[verifier::spinoff_prover]
#[verifier::rlimit(40)]
proof fn late_enrollments_stay_late(
    flows: Seq<EnrollModel>,
    events: Seq<HelloEvent>,
    place: int,
)
    requires
        is_enrollment_run(flows, events),
        0 <= place < 14,
        events.len() == 14,
        events[4] == HelloEvent::Loaded(Err(crate::errors::WindowsHelloStateError::NotFound)),
    ensures
        enrolls_late(flows[place], place) ==> enrolls_late(flows[place + 1], place + 1),
        flows[place + 1].limits == flows[place].limits,
{
    assert(flows[place + 1] == crate::hello::enroll_next(flows[place], events[place])) by {
        reveal(is_enrollment_run);
    }
    enrollments_go_one_step_further(flows[place], events[place]);
    let rank = enroll_rank(flows[place].step);
    let next = enroll_rank(flows[place + 1].step);
    assert(rank < place ==> next < place + 1 || rank == 4 && next <= 6);
}

#[verifier::spinoff_prover]
#[verifier::rlimit(40)]
proof fn enrollment_point(flows: Seq<EnrollModel>, events: Seq<HelloEvent>, place: int)
    requires
        is_enrollment_run(flows, events),
        0 <= place < 14,
        events.len() == 14,
        enrolls_in_time(flows[place], events, place),
    ensures
        ({
            let well = enrolls_at(events, place, flows[place].limits);
            &&& well ==> enrolls_in_time(flows[place + 1], events, place + 1)
            &&& !well ==> enrolls_late(flows[place + 1], place + 1) || place == 4
            &&& place == 13 && well ==> flows[14].step->Done_0.error is None
        }),
{
    reveal(is_enrollment_run);
    assert(events[3]->Begun_0->Some_0.vault_id@.len() == 16);
    assert(events[7]->Enrolled_0->Ok_0.prf_salt@.len() == 32);
    assert(events[9]->Key_0->Some_0@.len() == 32);
    assert(flows[place + 1] == crate::hello::enroll_next(flows[place], events[place]));
}

/// Whether an enrollment may be made of these parts: none of its names and keys
/// is empty, all are within the limits, and the protector reads as one that was
/// made for just this vault, credential and salt.
pub open spec fn fit_together(
    binding: crate::lifecycle::VaultBinding,
    credential: crate::hello::NewCredential,
    key: [u8; 32],
    protection: crate::hello::Protection,
    limits: crate::windows_hello::HelloLimits,
) -> bool {
    &&& binding.vault_id@ != crate::bytes::zeros(16) && binding.key_epoch != 0
    &&& 0 < credential.credential_id@.len() <= limits.max_credential_id_bytes
    &&& credential.prf_salt@ != crate::bytes::zeros(32)
    &&& key@ != crate::bytes::zeros(32)
    &&& protection.authorized
    &&& protection.protector matches Some(protector)
    &&& 0 < protector@.len() <= limits.max_protector_bytes
    &&& protection.reads_as matches Some(made_for)
    &&& made_for.vault_id@ == binding.vault_id@ && made_for.key_epoch == binding.key_epoch
    &&& made_for.credential_id@ == credential.credential_id@
    &&& made_for.prf_salt@ == credential.prf_salt@
}

/// A first enrollment is durable exactly where all of this is so, in this order:
/// the vault is open, the place for a prompt is free, the vault is still open
/// and says which one it is, no state is stored, the vault is still open, the
/// platform makes a credential, its request is still wanted in its epoch, a key
/// is drawn, the vault makes a protector for just these, the request is still
/// wanted, inside the commit section too, and the state is stored. What is
/// stored is made of just these.
pub proof fn first_enrollments_that_go_well_are_durable(
    flows: Seq<EnrollModel>,
    events: Seq<HelloEvent>,
)
    requires
        is_enrollment_run(flows, events),
        events.len() == 14,
        events[4] == HelloEvent::Loaded(Err(crate::errors::WindowsHelloStateError::NotFound)),
    ensures
        (flows[14].step matches EnrollStep::Done(verdict) && verdict.committed) <==> {
            &&& events[0] matches HelloEvent::Signals(s0) && crate::hello_removal::may_work(s0)
            &&& events[1] == HelloEvent::PromptTaken(true)
            &&& events[2] matches HelloEvent::Signals(s2) && crate::hello_removal::may_work(s2)
            &&& events[3] matches HelloEvent::Begun(Some(binding))
            &&& events[5] matches HelloEvent::StateRemoved(absent)
            &&& absent matches Err(error) ==> error is NotFound
            &&& events[6] matches HelloEvent::Signals(s6) && crate::hello_removal::may_work(s6)
            &&& events[7] matches HelloEvent::Enrolled(Ok(credential))
            &&& events[8] matches HelloEvent::Signals(s8) && crate::hello_unlock::goes_on(s8) && s8.epoch_current
            &&& events[9] matches HelloEvent::Key(Some(key))
            &&& events[10] matches HelloEvent::Protected(protection)
            &&& fit_together(binding, credential, key, protection, flows[0].limits)
            &&& events[11] matches HelloEvent::Signals(s11) && crate::hello_unlock::goes_on(s11)
            &&& events[12] matches HelloEvent::Signals(s12) && crate::hello_removal::may_work(s12)
            &&& events[13] matches HelloEvent::Saved(Ok(_))
        },
        (flows[14].step matches EnrollStep::Done(verdict) && verdict.committed) ==> {
            let binding = events[3]->Begun_0->Some_0;
            let credential = events[7]->Enrolled_0->Ok_0;
            &&& flows[14].step->Done_0.error is None
            &&& flows[14].replacement matches Some(stored)
            &&& stored.pending_removal is None
            &&& stored.enrollment matches Some(enrollment)
            &&& enrollment.vault_id == binding.vault_id@
            &&& enrollment.key_epoch == binding.key_epoch
            &&& enrollment.credential_id == credential.credential_id@
            &&& enrollment.prf_salt == credential.prf_salt@
            &&& enrollment.installation_key == events[9]->Key_0->Some_0@
            &&& enrollment.protector == events[10]->Protected_0.protector->Some_0@
        },
{
    assert(flows[0].step is CheckFirst && flows[0].previous is None && !flows[0].recovering) by {
        reveal(is_enrollment_run);
    }
    late_enrollments_stay_late(flows, events, 0);
    if enrolls_in_time(flows[0], events, 0) {
        enrollment_point(flows, events, 0);
    }
    late_enrollments_stay_late(flows, events, 1);
    if enrolls_in_time(flows[1], events, 1) {
        enrollment_point(flows, events, 1);
    }
    late_enrollments_stay_late(flows, events, 2);
    if enrolls_in_time(flows[2], events, 2) {
        enrollment_point(flows, events, 2);
    }
    late_enrollments_stay_late(flows, events, 3);
    if enrolls_in_time(flows[3], events, 3) {
        enrollment_point(flows, events, 3);
    }
    late_enrollments_stay_late(flows, events, 4);
    if enrolls_in_time(flows[4], events, 4) {
        enrollment_point(flows, events, 4);
    }
    late_enrollments_stay_late(flows, events, 5);
    if enrolls_in_time(flows[5], events, 5) {
        enrollment_point(flows, events, 5);
    }
    late_enrollments_stay_late(flows, events, 6);
    if enrolls_in_time(flows[6], events, 6) {
        enrollment_point(flows, events, 6);
    }
    late_enrollments_stay_late(flows, events, 7);
    if enrolls_in_time(flows[7], events, 7) {
        enrollment_point(flows, events, 7);
    }
    late_enrollments_stay_late(flows, events, 8);
    if enrolls_in_time(flows[8], events, 8) {
        enrollment_point(flows, events, 8);
    }
    late_enrollments_stay_late(flows, events, 9);
    if enrolls_in_time(flows[9], events, 9) {
        enrollment_point(flows, events, 9);
    }
    late_enrollments_stay_late(flows, events, 10);
    if enrolls_in_time(flows[10], events, 10) {
        enrollment_point(flows, events, 10);
    }
    late_enrollments_stay_late(flows, events, 11);
    if enrolls_in_time(flows[11], events, 11) {
        enrollment_point(flows, events, 11);
    }
    late_enrollments_stay_late(flows, events, 12);
    if enrolls_in_time(flows[12], events, 12) {
        enrollment_point(flows, events, 12);
    }
    late_enrollments_stay_late(flows, events, 13);
    if enrolls_in_time(flows[13], events, 13) {
        enrollment_point(flows, events, 13);
    }
}

/// An enrollment that ends says why: success that is not durable is that of an
/// enrollment which was only waiting for a clean-up; durable success comes with
/// the new state in place and nothing left to remove; a peer is told to come
/// again where another prompt is shown or a clean-up failed.
pub proof fn ended_enrollments_say_why(flow: EnrollModel, event: HelloEvent, verdict: Verdict)
    requires
        flow.wf(),
        !(flow.step is Done),
        !(flow.step is RemoveNew),
        crate::hello::enroll_next(flow, event).step == EnrollStep::Done(verdict),
    ensures
        verdict.error == Some(crate::protocol::PublicErrorCode::Busy) <==> flow.step is TakePrompt,
        verdict.error is None && !verdict.committed <==> flow.step is CheckRecovered && event
            is Signals && crate::hello_removal::may_work(event->Signals_0),
        verdict.committed ==> verdict.error is None,
        verdict.committed <==> (flow.step is Publish && event is Saved && event->Saved_0 is Ok
            && flow.replaced_credential() is None) || (flow.step is SaveRetired && event is Saved && (
        event->Saved_0 is Ok || event->Saved_0->Err_0 is Published)),
        flow.step is BeginOperation ==> verdict.error == Some(
            crate::protocol::PublicErrorCode::Locked,
        ),
        flow.step is EnsureAbsent || flow.step is Retire ==> verdict.retry
            == crate::protocol::RetryCategory::Backoff,
        flow.step is SaveRetired && !verdict.committed ==> verdict.retry
            == crate::protocol::RetryCategory::Backoff,
        flow.step is RecordNew ==> (verdict.retry == crate::protocol::RetryCategory::Backoff
            <==> event is Saved && (event->Saved_0 is Ok || event->Saved_0->Err_0 is Published)),
        flow.step is LoadState ==> verdict.error == Some(
            crate::protocol::PublicErrorCode::OperationFailed,
        ) && verdict.retry == crate::protocol::RetryCategory::Never,
        flow.step is RestorePrevious ==> verdict.retry == crate::protocol::RetryCategory::Never,
        flow.step is Publish && !verdict.committed ==> (verdict.retry
            == crate::protocol::RetryCategory::Backoff <==> flow.previous is None),
{
}

/// What is stored decides how an enrollment goes on: one of this vault that was
/// only waiting for a clean-up is complete, and everything else takes a new
/// credential. The credential of an enrollment that is replaced goes, unless the
/// platform gave the same one again.
pub proof fn stored_enrollments_decide(flow: EnrollModel)
    ensures
        flow.after_retirement().step is CheckRecovered <==> {
            &&& flow.recovering
            &&& flow.previous matches Some(state)
            &&& state.enrollment matches Some(enrollment)
            &&& flow.binding matches Some(binding)
            &&& binding.vault_id@ == enrollment.vault_id
            &&& binding.key_epoch == enrollment.key_epoch
        },
        flow.after_retirement().step is CheckRecovered || flow.after_retirement().step
            is CheckBeforePrompt,
        flow.replaced_credential() matches Some(credential) ==> {
            &&& flow.previous is Some && flow.previous->Some_0.enrollment is Some
            &&& credential == flow.previous->Some_0.enrollment->Some_0.credential_id
            &&& credential != flow.credential_id
        },
        flow.previous is Some && flow.previous->Some_0.enrollment is Some
            && flow.previous->Some_0.enrollment->Some_0.credential_id != flow.credential_id
            ==> flow.replaced_credential() is Some,
{
}

/// A new enrollment that could not be completed is taken back as far as it can
/// be: the previous one is stored again wherever there is one with a credential
/// of its own, and the new credential is removed, or stored as one that has to
/// go.
pub proof fn unfinished_enrollments_are_taken_back(flow: EnrollModel, event: HelloEvent)
    requires
        flow.wf(),
    ensures
        flow.step is RetirePrevious && event == HelloEvent::CredentialRemoved(false)
            ==> crate::hello::enroll_next(flow, event).step is RestorePrevious,
        flow.step is Publish && event is Saved && event->Saved_0 is Err ==> {
            let next = crate::hello::enroll_next(flow, event).step;
            &&& event->Saved_0->Err_0 is Published && flow.replaced_credential() is Some ==> next
                is RestorePrevious
            &&& !(event->Saved_0->Err_0 is Published) ==> next is CheckUnpublished
        },
        flow.step is RestorePrevious && event is Saved && (event->Saved_0 is Ok
            || event->Saved_0->Err_0 is Published) ==> crate::hello::enroll_next(
            flow,
            event,
        ).step is RemoveNew,
        flow.step is RemoveNew && event == HelloEvent::CredentialRemoved(true)
            ==> crate::hello::enroll_next(flow, event).step == EnrollStep::Done(
            flow.step->RemoveNew_0,
        ),
        flow.step is RemoveNew && event == HelloEvent::CredentialRemoved(false) && 0
            < flow.credential_id.len() <= flow.limits.max_credential_id_bytes ==> {
            let next = crate::hello::enroll_next(flow, event);
            &&& next.step is RecordNew
            &&& next.previous matches Some(state)
            &&& state.pending_removal == Some(flow.credential_id)
            &&& state.enrollment == (match flow.previous {
                Some(previous) => previous.enrollment,
                None => None,
            })
        },
{
}

} // verus!
