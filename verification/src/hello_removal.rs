//! Removing the enrollment of the platform's prompt.

use vstd::prelude::*;

use crate::errors::WindowsHelloStateError;
use crate::hello::{
    forget_state, retry_persisted_windows_hello_retirement, was_left_absent, HelloEvent,
    RetirementStep,
};
use crate::hello_laws::CredentialWorld;
use crate::lifecycle::VaultBinding;
use crate::outcome::Verdict;
use crate::signals::pre_secret_operation;
use crate::windows_hello::{LocalStateModel, WindowsHelloLocalState};

verus! {

/// A step of a removal.
#[derive(Clone, Copy, Debug, PartialEq, Eq, Structural)]
pub enum HelloRemovalStep {
    /// See whether the operation has to stop.
    CheckFirst,
    /// Take the one place for a prompt.
    TakePrompt,
    /// Load the stored state.
    LoadState,
    /// Make sure that no state is stored where none was found.
    EnsureAbsent,
    /// Get rid of the credential that the stored state says has to go.
    Retire(RetirementStep),
    /// Ask which vault is open.
    CheckBinding,
    /// See whether the operation has to stop.
    CheckBeforeCommit,
    /// Enter the commit section and see whether the operation has to stop.
    EnterCommit,
    /// Ask again which vault is open.
    CheckBindingAgain,
    /// Remove the enrolled credential from the platform.
    RemoveCredential,
    /// Remove the stored state.
    RemoveState,
    /// The answer.
    Done(Verdict),
}

/// One removal.
pub struct HelloRemovalFlow {
    pub step: HelloRemovalStep,
    pub state: Option<WindowsHelloLocalState>,
}

impl HelloRemovalFlow {
    /// Overwrites what a removal that is over knows of keys.
    pub fn forget(&mut self)
        ensures
            final(self)@ == (HelloRemovalModel { state: None, ..old(self)@ }),
    {
        forget_state(&mut self.state);
    }
}

/// What a removal knows.
pub struct HelloRemovalModel {
    pub step: HelloRemovalStep,
    pub state: Option<LocalStateModel>,
}

impl View for HelloRemovalFlow {
    type V = HelloRemovalModel;

    open spec fn view(&self) -> HelloRemovalModel {
        HelloRemovalModel {
            step: self.step,
            state: crate::hello::optional_state(self.state),
        }
    }
}

/// Whether the open vault is the one that a state enrolls.
pub open spec fn is_bound_to(state: LocalStateModel, binding: Option<VaultBinding>) -> bool {
    &&& state.enrollment is Some
    &&& binding is Some
    &&& binding->Some_0.vault_id@ == state.enrollment->Some_0.vault_id
    &&& binding->Some_0.key_epoch == state.enrollment->Some_0.key_epoch
}

impl HelloRemovalModel {
    pub open spec fn at(self, step: HelloRemovalStep) -> HelloRemovalModel {
        HelloRemovalModel { step, ..self }
    }

    pub open spec fn done(self, verdict: Verdict) -> HelloRemovalModel {
        self.at(HelloRemovalStep::Done(verdict))
    }

    pub open spec fn unless(
        self,
        stop: Option<Verdict>,
        step: HelloRemovalStep,
    ) -> HelloRemovalModel {
        match stop {
            Some(verdict) => self.done(verdict),
            None => self.at(step),
        }
    }

    /// Every credential that had to go is gone. Without an enrollment nothing
    /// is left to remove.
    pub open spec fn after_retirement(self) -> HelloRemovalModel {
        if self.state is Some && self.state->Some_0.enrollment is Some {
            self.at(HelloRemovalStep::CheckBinding)
        } else {
            self.done(Verdict::success())
        }
    }

    pub open spec fn wf(self) -> bool {
        match self.step {
            HelloRemovalStep::Retire(step) => {
                &&& self.state is Some
                &&& step is RemoveCredential || step is SaveCleared || step is RemoveEmptied
                &&& step is RemoveCredential <==> self.state->Some_0.pending_removal is Some
                &&& step is SaveCleared ==> self.state->Some_0.enrollment is Some
                &&& step is RemoveEmptied ==> self.state->Some_0.enrollment is None
            },
            HelloRemovalStep::CheckBinding => self.enrolled(),
            HelloRemovalStep::CheckBeforeCommit => self.enrolled(),
            HelloRemovalStep::EnterCommit => self.enrolled(),
            HelloRemovalStep::CheckBindingAgain => self.enrolled(),
            HelloRemovalStep::RemoveCredential => self.enrolled(),
            HelloRemovalStep::RemoveState => self.enrolled(),
            _ => true,
        }
    }

    pub open spec fn enrolled(self) -> bool {
        &&& self.state is Some
        &&& self.state->Some_0.enrollment is Some
        &&& self.state->Some_0.pending_removal is None
    }

    /// The state that the awaited step stores.
    pub open spec fn saves(self) -> Option<LocalStateModel> {
        match self.step {
            HelloRemovalStep::Retire(RetirementStep::SaveCleared) => self.state,
            _ => None,
        }
    }

    /// The credential that the awaited step removes from the platform.
    pub open spec fn removes(self) -> Option<Seq<u8>> {
        match self.step {
            HelloRemovalStep::Retire(RetirementStep::RemoveCredential) => match self.state {
                Some(state) => state.pending_removal,
                None => None,
            },
            HelloRemovalStep::RemoveCredential => match self.state {
                Some(state) => match state.enrollment {
                    Some(enrollment) => Some(enrollment.credential_id),
                    None => None,
                },
                None => None,
            },
            _ => None,
        }
    }
}

/// What an event makes of a removal.
pub open spec fn hello_removal_next(
    flow: HelloRemovalModel,
    event: HelloEvent,
) -> HelloRemovalModel {
    match (flow.step, event) {
        (HelloRemovalStep::CheckFirst, HelloEvent::Signals(signals)) => flow.unless(
            pre_secret_operation(&signals),
            HelloRemovalStep::TakePrompt,
        ),
        (HelloRemovalStep::TakePrompt, HelloEvent::PromptTaken(taken)) => if taken {
            flow.at(HelloRemovalStep::LoadState)
        } else {
            flow.done(Verdict::busy())
        },
        (HelloRemovalStep::LoadState, HelloEvent::Loaded(Ok(state))) => {
            let loaded = HelloRemovalModel { state: Some(state@), ..flow };
            if state@.pending_removal is Some {
                loaded.at(HelloRemovalStep::Retire(RetirementStep::RemoveCredential))
            } else {
                loaded.after_retirement()
            }
        },
        (HelloRemovalStep::LoadState, HelloEvent::Loaded(Err(error))) => if error is NotFound {
            flow.at(HelloRemovalStep::EnsureAbsent)
        } else {
            flow.done(Verdict::failed())
        },
        (HelloRemovalStep::EnsureAbsent, HelloEvent::StateRemoved(result)) => flow.done(
            if crate::hello::is_absent(result) {
                Verdict::success()
            } else {
                Verdict::retryable_failure()
            },
        ),
        (HelloRemovalStep::Retire(step), event) => {
            let (state, next) = crate::hello::retirement_next(flow.state->Some_0, step, event);
            let retired = HelloRemovalModel { state: Some(state), ..flow };
            match next {
                RetirementStep::Retired => retired.after_retirement(),
                RetirementStep::Failed => retired.done(Verdict::retryable_failure()),
                _ => retired.at(HelloRemovalStep::Retire(next)),
            }
        },
        (HelloRemovalStep::CheckBinding, HelloEvent::Binding(binding)) => if is_bound_to(
            flow.state->Some_0,
            binding,
        ) {
            flow.at(HelloRemovalStep::CheckBeforeCommit)
        } else {
            flow.done(Verdict::failed())
        },
        (HelloRemovalStep::CheckBeforeCommit, HelloEvent::Signals(signals)) => flow.unless(
            pre_secret_operation(&signals),
            HelloRemovalStep::EnterCommit,
        ),
        (HelloRemovalStep::EnterCommit, HelloEvent::Signals(signals)) => flow.unless(
            pre_secret_operation(&signals),
            HelloRemovalStep::CheckBindingAgain,
        ),
        (HelloRemovalStep::CheckBindingAgain, HelloEvent::Binding(binding)) => if is_bound_to(
            flow.state->Some_0,
            binding,
        ) {
            flow.at(HelloRemovalStep::RemoveCredential)
        } else {
            flow.done(Verdict::failed())
        },
        (HelloRemovalStep::RemoveCredential, HelloEvent::CredentialRemoved(removed)) => {
            if removed {
                flow.at(HelloRemovalStep::RemoveState)
            } else {
                flow.done(Verdict::retryable_failure())
            }
        },
        (HelloRemovalStep::RemoveState, HelloEvent::StateRemoved(result)) => flow.done(
            if crate::hello::is_absent(result) {
                Verdict::success().commit_point()
            } else {
                Verdict::retryable_failure()
            },
        ),
        _ => flow,
    }
}

impl HelloRemovalFlow {
    /// A removal that has not begun. Without a platform prompt and a store for
    /// its state there is none.
    pub fn remove_windows_hello(configured: bool) -> (flow: HelloRemovalFlow)
        ensures
            flow@.wf(),
            flow.step == (if configured {
                HelloRemovalStep::CheckFirst
            } else {
                HelloRemovalStep::Done(Verdict::failed())
            }),
            flow.state is None,
    {
        HelloRemovalFlow {
            step: if configured {
                HelloRemovalStep::CheckFirst
            } else {
                HelloRemovalStep::Done(Verdict::failed())
            },
            state: None,
        }
    }

    fn unless(&mut self, stop: Option<Verdict>, step: HelloRemovalStep)
        ensures
            final(self)@ == old(self)@.unless(stop, step),
    {
        self.step = match stop {
            Some(verdict) => HelloRemovalStep::Done(verdict),
            None => step,
        };
    }

    fn after_retirement(&mut self)
        ensures
            final(self)@ == old(self)@.after_retirement(),
    {
        let enrolled = match &self.state {
            Some(state) => state.enrollment.is_some(),
            None => false,
        };
        self.step = if enrolled {
            HelloRemovalStep::CheckBinding
        } else {
            HelloRemovalStep::Done(Verdict::success())
        };
    }

    fn is_bound_to(&self, binding: Option<VaultBinding>) -> (bound: bool)
        requires
            self.state is Some,
        ensures
            bound == is_bound_to(self@.state->Some_0, binding),
    {
        let enrolled = match &self.state {
            Some(state) => state.vault_binding(),
            None => None,
        };
        match (enrolled, binding) {
            (Some(enrolled), Some(binding)) => enrolled.same(&binding),
            _ => false,
        }
    }

    /// Takes in what came of the awaited step and goes on to the next one.
    pub fn advance(&mut self, event: HelloEvent)
        requires
            old(self)@.wf(),
        ensures
            final(self)@.wf(),
            final(self)@ == hello_removal_next(old(self)@, event),
    {
        match (self.step, event) {
            (HelloRemovalStep::CheckFirst, HelloEvent::Signals(signals)) => {
                self.unless(pre_secret_operation(&signals), HelloRemovalStep::TakePrompt);
            },
            (HelloRemovalStep::TakePrompt, HelloEvent::PromptTaken(taken)) => {
                self.step = if taken {
                    HelloRemovalStep::LoadState
                } else {
                    HelloRemovalStep::Done(Verdict::busy())
                };
            },
            (HelloRemovalStep::LoadState, HelloEvent::Loaded(loaded)) => match loaded {
                Ok(state) => {
                    let retiring = state.pending_removal.is_some();
                    self.state = Some(state);
                    if retiring {
                        self.step = HelloRemovalStep::Retire(RetirementStep::RemoveCredential);
                    } else {
                        self.after_retirement();
                    }
                },
                Err(WindowsHelloStateError::NotFound) => {
                    self.step = HelloRemovalStep::EnsureAbsent;
                },
                Err(_) => {
                    self.step = HelloRemovalStep::Done(Verdict::failed());
                },
            },
            (HelloRemovalStep::EnsureAbsent, HelloEvent::StateRemoved(result)) => {
                self.step = HelloRemovalStep::Done(
                    if was_left_absent(&result) {
                        Verdict::success()
                    } else {
                        Verdict::retryable_failure()
                    },
                );
            },
            (HelloRemovalStep::Retire(step), event) => {
                if let Some(mut state) = self.state.take() {
                    let next = retry_persisted_windows_hello_retirement(&mut state, step, &event);
                    self.state = Some(state);
                    match next {
                        RetirementStep::Retired => {
                            self.after_retirement();
                        },
                        RetirementStep::Failed => {
                            self.step = HelloRemovalStep::Done(Verdict::retryable_failure());
                        },
                        _ => {
                            self.step = HelloRemovalStep::Retire(next);
                        },
                    }
                }
            },
            (HelloRemovalStep::CheckBinding, HelloEvent::Binding(binding)) => {
                self.step = if self.is_bound_to(binding) {
                    HelloRemovalStep::CheckBeforeCommit
                } else {
                    HelloRemovalStep::Done(Verdict::failed())
                };
            },
            (HelloRemovalStep::CheckBeforeCommit, HelloEvent::Signals(signals)) => {
                self.unless(pre_secret_operation(&signals), HelloRemovalStep::EnterCommit);
            },
            (HelloRemovalStep::EnterCommit, HelloEvent::Signals(signals)) => {
                self.unless(pre_secret_operation(&signals), HelloRemovalStep::CheckBindingAgain);
            },
            (HelloRemovalStep::CheckBindingAgain, HelloEvent::Binding(binding)) => {
                self.step = if self.is_bound_to(binding) {
                    HelloRemovalStep::RemoveCredential
                } else {
                    HelloRemovalStep::Done(Verdict::failed())
                };
            },
            (HelloRemovalStep::RemoveCredential, HelloEvent::CredentialRemoved(removed)) => {
                self.step = if removed {
                    HelloRemovalStep::RemoveState
                } else {
                    HelloRemovalStep::Done(Verdict::retryable_failure())
                };
            },
            (HelloRemovalStep::RemoveState, HelloEvent::StateRemoved(result)) => {
                self.step = HelloRemovalStep::Done(
                    if was_left_absent(&result) {
                        Verdict::success().commit_point()
                    } else {
                        Verdict::retryable_failure()
                    },
                );
            },
            _ => {},
        }
    }
}

// Laws

/// What an awaited step and what came of it say about credentials and storage.
/// A removal that is reported as failed may have happened all the same.
pub open spec fn removal_effect(
    flow: HelloRemovalModel,
    event: HelloEvent,
    before: CredentialWorld,
    after: CredentialWorld,
) -> bool {
    match (flow.step, event) {
        (HelloRemovalStep::LoadState, HelloEvent::Loaded(Ok(state))) => {
            &&& after == before
            &&& before.stored == Some(state@)
            &&& state@.enrollment is Some || state@.pending_removal is Some
        },
        (
            HelloRemovalStep::LoadState,
            HelloEvent::Loaded(Err(WindowsHelloStateError::NotFound)),
        ) => {
            &&& after == before
            &&& before.stored is None
        },
        (_, HelloEvent::CredentialRemoved(removed)) => match flow.removes() {
            Some(credential_id) => {
                &&& after.stored == before.stored
                &&& after.live == before.live.remove(credential_id) || (!removed && after.live
                    == before.live)
            },
            None => after == before,
        },
        (_, HelloEvent::Saved(result)) => match flow.saves() {
            Some(state) => {
                &&& after.live == before.live
                &&& after.stored == (if crate::hello::is_stored(result) {
                    Some(state)
                } else {
                    before.stored
                })
            },
            None => after == before,
        },
        (
            HelloRemovalStep::EnsureAbsent | HelloRemovalStep::Retire(
                RetirementStep::RemoveEmptied,
            ) | HelloRemovalStep::RemoveState,
            HelloEvent::StateRemoved(result),
        ) => {
            &&& after.live == before.live
            &&& after.stored is None || (!crate::hello::is_absent(result) && after.stored
                == before.stored)
        },
        _ => after == before,
    }
}

/// Where the credentials stand at each step of a removal.
pub open spec fn removal_accounts(flow: HelloRemovalModel, world: CredentialWorld) -> bool {
    &&& crate::hello_laws::accounted(world)
    &&& match flow.step {
        HelloRemovalStep::EnsureAbsent => world.stored is None,
        HelloRemovalStep::Retire(RetirementStep::RemoveCredential) => world.stored == flow.state,
        HelloRemovalStep::Retire(_) => crate::hello_laws::covers(world.live, flow.state, None),
        HelloRemovalStep::CheckBinding => world.stored == flow.state,
        HelloRemovalStep::CheckBeforeCommit => world.stored == flow.state,
        HelloRemovalStep::EnterCommit => world.stored == flow.state,
        HelloRemovalStep::CheckBindingAgain => world.stored == flow.state,
        HelloRemovalStep::RemoveCredential => world.stored == flow.state,
        HelloRemovalStep::RemoveState => crate::hello_laws::covers(world.live, None, None),
        HelloRemovalStep::Done(verdict) => verdict.error is None ==> world.stored is None
            && crate::hello_laws::covers(world.live, None, None),
        _ => true,
    }
}

proof fn removal_step_accounts(
    flow: HelloRemovalModel,
    event: HelloEvent,
    before: CredentialWorld,
    after: CredentialWorld,
)
    requires
        flow.wf(),
        removal_accounts(flow, before),
        removal_effect(flow, event, before, after),
    ensures
        hello_removal_next(flow, event).wf(),
        removal_accounts(hello_removal_next(flow, event), after),
{
}

/// Whether a removal went from its start through these events, with these
/// effects on credentials and storage.
pub open spec fn is_removal(
    flows: Seq<HelloRemovalModel>,
    events: Seq<HelloEvent>,
    worlds: Seq<CredentialWorld>,
) -> bool {
    &&& flows.len() == events.len() + 1
    &&& worlds.len() == flows.len()
    &&& flows[0].wf() && flows[0].step is CheckFirst
    &&& forall|i: int|
        0 <= i < events.len() ==> {
            &&& flows[i + 1] == hello_removal_next(flows[i], #[trigger] events[i])
            &&& removal_effect(flows[i], events[i], worlds[i], worlds[i + 1])
        }
}

proof fn removal_run_accounts(
    flows: Seq<HelloRemovalModel>,
    events: Seq<HelloEvent>,
    worlds: Seq<CredentialWorld>,
    place: int,
)
    requires
        is_removal(flows, events, worlds),
        crate::hello_laws::accounted(worlds[0]),
        0 <= place < flows.len(),
    ensures
        flows[place].wf(),
        removal_accounts(flows[place], worlds[place]),
    decreases place,
{
    if place > 0 {
        removal_run_accounts(flows, events, worlds, place - 1);
        removal_step_accounts(
            flows[place - 1],
            events[place - 1],
            worlds[place - 1],
            worlds[place],
        );
    }
}

/// A removal never loses track of a credential, and one that is answered as a
/// success leaves neither a credential nor a stored state.
pub proof fn removal_leaves_nothing_behind(
    flows: Seq<HelloRemovalModel>,
    events: Seq<HelloEvent>,
    worlds: Seq<CredentialWorld>,
    verdict: Verdict,
)
    requires
        is_removal(flows, events, worlds),
        crate::hello_laws::accounted(worlds[0]),
        flows.last().step == HelloRemovalStep::Done(verdict),
    ensures
        crate::hello_laws::accounted(worlds.last()),
        verdict.error is None ==> worlds.last().stored is None && worlds.last().live
            == Set::<Seq<u8>>::empty(),
{
    removal_run_accounts(flows, events, worlds, flows.len() - 1);
    if verdict.error is None {
        assert(worlds.last().live =~= Set::<Seq<u8>>::empty());
    }
}

/// Whether the vault is open in the epoch of a request that is wanted and in
/// time, and nothing locks it.
pub open spec fn may_work(signals: crate::signals::Signals) -> bool {
    &&& !signals.lock_active && !signals.cancelled && !signals.expired
    &&& signals.state == crate::protocol::AgentState::Unlocked && signals.epoch_current
}

/// A removal from its first step on: the removal before each event, and the
/// removal after the last one.
#[verifier::opaque]
pub open spec fn is_removal_run(flows: Seq<HelloRemovalModel>, events: Seq<HelloEvent>) -> bool {
    &&& flows.len() == events.len() + 1
    &&& flows[0].step is CheckFirst
    &&& forall|i: int|
        0 <= i < events.len() ==> flows[i + 1] == hello_removal_next(flows[i], #[trigger] events[i])
}

/// How far a removal is, in half steps.
spec fn removal_rank(step: HelloRemovalStep) -> int {
    match step {
        HelloRemovalStep::CheckFirst => 0,
        HelloRemovalStep::TakePrompt => 2,
        HelloRemovalStep::LoadState => 4,
        HelloRemovalStep::EnsureAbsent => 5,
        HelloRemovalStep::Retire(_) => 5,
        HelloRemovalStep::CheckBinding => 6,
        HelloRemovalStep::CheckBeforeCommit => 8,
        HelloRemovalStep::EnterCommit => 10,
        HelloRemovalStep::CheckBindingAgain => 12,
        HelloRemovalStep::RemoveCredential => 14,
        HelloRemovalStep::RemoveState => 16,
        HelloRemovalStep::Done(verdict) => if verdict.committed {
            18
        } else {
            -1
        },
    }
}

/// Whether the event at a place is what a removal of an enrollment needs there.
spec fn removes_at(event: HelloEvent, place: int, enrolled: LocalStateModel) -> bool {
    if place == 0 || place == 4 || place == 5 {
        event matches HelloEvent::Signals(signals) && may_work(signals)
    } else if place == 1 {
        event == HelloEvent::PromptTaken(true)
    } else if place == 2 {
        event matches HelloEvent::Loaded(Ok(state)) && state@.pending_removal is None
            && state@.enrollment is Some
    } else if place == 3 || place == 6 {
        event matches HelloEvent::Binding(Some(open)) && open.vault_id@
            == enrolled.enrollment->Some_0.vault_id && open.key_epoch
            == enrolled.enrollment->Some_0.key_epoch
    } else if place == 7 {
        event == HelloEvent::CredentialRemoved(true)
    } else {
        event matches HelloEvent::StateRemoved(removed) && (removed matches Err(error) ==> error
            is NotFound)
    }
}

/// Whether a removal has not lost a step up to a place.
spec fn is_in_time(flow: HelloRemovalModel, place: int) -> bool {
    &&& removal_rank(flow.step) == 2 * place
    &&& place > 2 && place < 9 ==> flow.state is Some && flow.state->Some_0.enrollment is Some
}

proof fn removal_point(flows: Seq<HelloRemovalModel>, events: Seq<HelloEvent>, place: int)
    requires
        is_removal_run(flows, events),
        0 <= place < 9,
        place < events.len(),
    ensures
        removal_rank(flows[place].step) < 2 * place ==> removal_rank(flows[place + 1].step) < 2
            * place + 2,
        is_in_time(flows[place], place) ==> {
            let well = removes_at(events[place], place, flows[place].state->Some_0);
            &&& well ==> is_in_time(flows[place + 1], place + 1)
            &&& !well ==> removal_rank(flows[place + 1].step) < 2 * place + 2
            &&& place == 2 && well ==> flows[3].state == Some(events[2]->Loaded_0->Ok_0@)
            &&& place > 2 ==> flows[place + 1].state == flows[place].state
            &&& place == 8 && well ==> flows[9].step->Done_0.error is None
        },
{
    reveal(is_removal_run);
    let flow = flows[place];
    let event = events[place];
    assert(flows[place + 1] == hello_removal_next(flow, event));
}

/// An enrollment with nothing else to clear up is durably removed exactly where
/// all of this is so, in this order: the vault is open, the place for a prompt is
/// free, the enrollment is loaded and is that of the open vault, the vault is
/// still open, inside the commit section too, and still the same, the platform
/// removes the credential, and the stored state is gone.
pub proof fn removals_that_go_well_are_durable(
    flows: Seq<HelloRemovalModel>,
    events: Seq<HelloEvent>,
)
    requires
        is_removal_run(flows, events),
        events.len() == 9,
    ensures
        (flows[9].step matches HelloRemovalStep::Done(verdict) && verdict.committed) <==> {
            &&& events[0] matches HelloEvent::Signals(first)
            &&& may_work(first)
            &&& events[1] == HelloEvent::PromptTaken(true)
            &&& events[2] matches HelloEvent::Loaded(Ok(state))
            &&& state@.pending_removal is None && state@.enrollment is Some
            &&& events[3] matches HelloEvent::Binding(Some(open))
            &&& open.vault_id@ == state@.enrollment->Some_0.vault_id
            &&& open.key_epoch == state@.enrollment->Some_0.key_epoch
            &&& events[4] matches HelloEvent::Signals(second)
            &&& may_work(second)
            &&& events[5] matches HelloEvent::Signals(third)
            &&& may_work(third)
            &&& events[6] matches HelloEvent::Binding(Some(still))
            &&& still.vault_id@ == open.vault_id@ && still.key_epoch == open.key_epoch
            &&& events[7] == HelloEvent::CredentialRemoved(true)
            &&& events[8] matches HelloEvent::StateRemoved(removed)
            &&& removed matches Err(error) ==> error is NotFound
        },
        (flows[9].step matches HelloRemovalStep::Done(verdict) && verdict.committed)
            ==> flows[9].step->Done_0.error is None,
{
    assert(flows[0].step is CheckFirst) by {
        reveal(is_removal_run);
    }
    removal_point(flows, events, 0);
    removal_point(flows, events, 1);
    removal_point(flows, events, 2);
    removal_point(flows, events, 3);
    removal_point(flows, events, 4);
    removal_point(flows, events, 5);
    removal_point(flows, events, 6);
    removal_point(flows, events, 7);
    removal_point(flows, events, 8);
}

/// A removal that ends says why: a peer is told to come again where another
/// prompt is shown or a clean-up failed, and nowhere else; there is success only
/// where nothing is left, and it is durable only where an enrollment went.
pub proof fn ended_removals_say_why(flow: HelloRemovalModel, event: HelloEvent, verdict: Verdict)
    requires
        flow.wf(),
        !(flow.step is Done),
        hello_removal_next(flow, event).step == HelloRemovalStep::Done(verdict),
    ensures
        verdict.error == Some(crate::protocol::PublicErrorCode::Busy) <==> flow.step is TakePrompt,
        verdict.committed ==> flow.step is RemoveState && verdict.error is None,
        flow.step is RemoveState ==> (verdict.error is None <==> verdict.committed),
        verdict.error is None ==> {
            ||| flow.step is RemoveState && event is StateRemoved && (event->StateRemoved_0 is Ok
                || event->StateRemoved_0->Err_0 is NotFound)
            ||| flow.step is EnsureAbsent && event is StateRemoved && (event->StateRemoved_0 is Ok
                || event->StateRemoved_0->Err_0 is NotFound)
            ||| flow.step is LoadState && event is Loaded && event->Loaded_0 is Ok
                && event->Loaded_0->Ok_0@.enrollment is None
            ||| flow.step is Retire && flow.state->Some_0.enrollment is None
        },
        flow.step is RemoveCredential || flow.step is RemoveState || flow.step is EnsureAbsent ==> (
        verdict.error is Some <==> verdict.error == Some(
            crate::protocol::PublicErrorCode::OperationFailed,
        ) && verdict.retry == crate::protocol::RetryCategory::Backoff),
        flow.step is CheckBinding || flow.step is CheckBindingAgain ==> verdict.error == Some(
            crate::protocol::PublicErrorCode::OperationFailed,
        ) && verdict.retry == crate::protocol::RetryCategory::Never,
        flow.step is Retire && verdict.error is Some ==> verdict.retry
            == crate::protocol::RetryCategory::Backoff,
        flow.step is CheckFirst || flow.step is CheckBeforeCommit || flow.step is EnterCommit ==> {
            &&& event is Signals && !may_work(event->Signals_0)
            &&& Some(verdict) == pre_secret_operation(&event->Signals_0)
        },
{
}

/// A removal begins exactly where there is a prompt, by seeing whether it may
/// work, and knows of nothing stored yet.
pub proof fn removals_begin_with_a_look(configured: bool, flow: HelloRemovalFlow)
    requires
        call_ensures(HelloRemovalFlow::remove_windows_hello, (configured,), flow),
    ensures
        flow.step is CheckFirst <==> configured,
        !configured ==> (flow.step matches HelloRemovalStep::Done(verdict) && verdict.error == Some(
            crate::protocol::PublicErrorCode::OperationFailed,
        )),
        flow.state is None,
{
}

} // verus!
