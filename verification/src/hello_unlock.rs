//! Unlocking the vault with the platform's prompt.

use vstd::prelude::*;

use crate::errors::{UnlockError, WindowsHelloStateError};
use crate::hello::{
    forget_state, map_windows_hello_provider_error, retry_persisted_windows_hello_retirement,
    was_left_absent, HelloEvent, RetirementStep,
};
use crate::outcome::Verdict;
use crate::protocol::AgentState;
use crate::signals::windows_hello_terminal_abort;
use crate::windows_hello::{LocalStateModel, WindowsHelloLocalState};

verus! {

/// What the vault answered to the secret of the prompt.
#[derive(Clone, Copy, Debug, PartialEq, Eq, Structural)]
pub enum CoreAnswer {
    Opened,
    Cancelled,
    Failed,
}

/// How an attempt ends.
#[derive(Clone, Copy, Debug, PartialEq, Eq, Structural)]
pub struct UnlockEnding {
    pub verdict: Verdict,
    /// The vault is locked again.
    pub locks_vault: bool,
    /// The agent says again that it is locked.
    pub leaves_unlocking: bool,
}

/// A step of an attempt to unlock.
#[derive(Clone, Copy, Debug, PartialEq, Eq, Structural)]
pub enum HelloUnlockStep {
    /// Take the one place for a prompt.
    TakePrompt,
    /// Load the stored state.
    LoadState,
    /// Make sure that no state is stored where none was found.
    EnsureAbsent,
    /// Get rid of the credential that the stored state says has to go.
    Retire(RetirementStep),
    /// In the commit section, see whether the attempt may begin; if it may, the
    /// agent says that it is unlocking.
    Begin,
    /// Show the prompt that gives the secret of the enrolled credential.
    Evaluate,
    /// See whether the request ended while the prompt was shown.
    CheckAfterPrompt,
    /// Open the vault with the secret.
    Authenticate,
    /// See whether the request ended meanwhile.
    CheckAfterCore(CoreAnswer),
    /// Publish the open vault.
    Publish,
    /// The attempt is over.
    Done(UnlockEnding),
}

/// An attempt that ends before the agent said that it is unlocking.
#[verifier::allow_in_spec]
pub fn refused(verdict: Verdict) -> HelloUnlockStep
    returns
        HelloUnlockStep::Done(
            UnlockEnding { verdict, locks_vault: false, leaves_unlocking: false },
        ),
{
    HelloUnlockStep::Done(UnlockEnding { verdict, locks_vault: false, leaves_unlocking: false })
}

/// An attempt that ends after that.
#[verifier::allow_in_spec]
pub fn abandoned(verdict: Verdict, locks_vault: bool) -> HelloUnlockStep
    returns
        HelloUnlockStep::Done(UnlockEnding { verdict, locks_vault, leaves_unlocking: true }),
{
    HelloUnlockStep::Done(UnlockEnding { verdict, locks_vault, leaves_unlocking: true })
}

/// One attempt to unlock the vault with the platform's prompt.
pub struct HelloUnlockFlow {
    pub step: HelloUnlockStep,
    pub state: Option<WindowsHelloLocalState>,
    /// The agent said that it is unlocking.
    pub began: bool,
    /// The vault was opened.
    pub opened: bool,
}

impl HelloUnlockFlow {
    /// Overwrites what an attempt that is over knows of keys.
    pub fn forget(&mut self)
        ensures
            final(self)@ == (HelloUnlockModel { state: None, ..old(self)@ }),
    {
        forget_state(&mut self.state);
    }
}

/// What an attempt knows.
pub struct HelloUnlockModel {
    pub step: HelloUnlockStep,
    pub state: Option<LocalStateModel>,
    pub began: bool,
    pub opened: bool,
}

impl View for HelloUnlockFlow {
    type V = HelloUnlockModel;

    open spec fn view(&self) -> HelloUnlockModel {
        HelloUnlockModel {
            step: self.step,
            state: crate::hello::optional_state(self.state),
            began: self.began,
            opened: self.opened,
        }
    }
}

impl HelloUnlockModel {
    pub open spec fn at(self, step: HelloUnlockStep) -> HelloUnlockModel {
        HelloUnlockModel { step, ..self }
    }

    /// Every credential that had to go is gone. Without an enrollment there is
    /// nothing to unlock with.
    pub open spec fn after_retirement(self) -> HelloUnlockModel {
        if self.state is Some && self.state->Some_0.enrollment is Some {
            self.at(HelloUnlockStep::Begin)
        } else {
            self.at(refused(Verdict::failed()))
        }
    }

    /// What holds at every step: an attempt that ends after the agent said that
    /// it is unlocking takes that back, and one that ends with the vault open
    /// locks it.
    pub open spec fn wf(self) -> bool {
        &&& match self.step {
            HelloUnlockStep::TakePrompt => !self.began && !self.opened,
            HelloUnlockStep::LoadState => !self.began && !self.opened,
            HelloUnlockStep::EnsureAbsent => !self.began && !self.opened,
            HelloUnlockStep::Retire(_) => !self.began && !self.opened && self.state is Some,
            HelloUnlockStep::Begin => !self.began && !self.opened,
            HelloUnlockStep::Evaluate => self.began && !self.opened,
            HelloUnlockStep::CheckAfterPrompt => self.began && !self.opened,
            HelloUnlockStep::Authenticate => self.began && !self.opened,
            HelloUnlockStep::CheckAfterCore(answer) => self.began && self.opened == (answer
                is Opened),
            HelloUnlockStep::Publish => self.began && self.opened,
            HelloUnlockStep::Done(ending) => {
                &&& self.began ==> ending.leaves_unlocking
                &&& self.opened ==> ending.locks_vault
                &&& ending.verdict.error is Some
                &&& !ending.verdict.committed
            },
        }
        &&& match self.step {
            HelloUnlockStep::Begin => true,
            HelloUnlockStep::Evaluate => true,
            HelloUnlockStep::CheckAfterPrompt => true,
            HelloUnlockStep::Authenticate => true,
            _ => false,
        } ==> self.state is Some && self.state->Some_0.enrollment is Some
    }
}

/// What an event makes of an attempt to unlock.
pub open spec fn hello_unlock_next(flow: HelloUnlockModel, event: HelloEvent) -> HelloUnlockModel {
    match (flow.step, event) {
        (HelloUnlockStep::TakePrompt, HelloEvent::PromptTaken(taken)) => if taken {
            flow.at(HelloUnlockStep::LoadState)
        } else {
            flow.at(refused(Verdict::busy()))
        },
        (HelloUnlockStep::LoadState, HelloEvent::Loaded(Ok(state))) => {
            let loaded = HelloUnlockModel { state: Some(state@), ..flow };
            if state@.pending_removal is Some {
                loaded.at(HelloUnlockStep::Retire(RetirementStep::RemoveCredential))
            } else {
                loaded.after_retirement()
            }
        },
        (HelloUnlockStep::LoadState, HelloEvent::Loaded(Err(error))) => if error is NotFound {
            flow.at(HelloUnlockStep::EnsureAbsent)
        } else {
            flow.at(refused(Verdict::failed()))
        },
        (HelloUnlockStep::EnsureAbsent, HelloEvent::StateRemoved(result)) => flow.at(
            if crate::hello::is_absent(result) {
                refused(Verdict::failed())
            } else {
                refused(Verdict::retryable_failure())
            },
        ),
        (HelloUnlockStep::Retire(step), event) => {
            let (state, next) = crate::hello::retirement_next(flow.state->Some_0, step, event);
            let retired = HelloUnlockModel { state: Some(state), ..flow };
            match next {
                RetirementStep::Retired => retired.after_retirement(),
                RetirementStep::Failed => retired.at(refused(Verdict::retryable_failure())),
                _ => retired.at(HelloUnlockStep::Retire(next)),
            }
        },
        (HelloUnlockStep::Begin, HelloEvent::Signals(signals)) => {
            match windows_hello_terminal_abort(&signals) {
                Some(verdict) => flow.at(refused(verdict)),
                None => if !signals.epoch_current {
                    flow.at(refused(Verdict::locked()))
                } else if signals.state != AgentState::Locked {
                    flow.at(refused(Verdict::conflict()))
                } else {
                    HelloUnlockModel { began: true, step: HelloUnlockStep::Evaluate, ..flow }
                },
            }
        },
        (HelloUnlockStep::Evaluate, HelloEvent::Evaluated(result)) => match result {
            Ok(()) => flow.at(HelloUnlockStep::CheckAfterPrompt),
            Err(error) => flow.at(abandoned(crate::hello::provider_verdict(error), false)),
        },
        (HelloUnlockStep::CheckAfterPrompt, HelloEvent::Signals(signals)) => {
            match windows_hello_terminal_abort(&signals) {
                Some(verdict) => flow.at(abandoned(verdict, false)),
                None => if !signals.epoch_current || signals.state != AgentState::Unlocking {
                    flow.at(abandoned(Verdict::cancelled(), false))
                } else {
                    flow.at(HelloUnlockStep::Authenticate)
                },
            }
        },
        (HelloUnlockStep::Authenticate, HelloEvent::Authenticated(result)) => match result {
            Ok(()) => HelloUnlockModel {
                opened: true,
                step: HelloUnlockStep::CheckAfterCore(CoreAnswer::Opened),
                ..flow
            },
            Err(UnlockError::Cancelled) => flow.at(
                HelloUnlockStep::CheckAfterCore(CoreAnswer::Cancelled),
            ),
            Err(UnlockError::Failed) => flow.at(
                HelloUnlockStep::CheckAfterCore(CoreAnswer::Failed),
            ),
        },
        (HelloUnlockStep::CheckAfterCore(answer), HelloEvent::Signals(signals)) => {
            match windows_hello_terminal_abort(&signals) {
                Some(verdict) => flow.at(abandoned(verdict, true)),
                None => flow.at(
                    match answer {
                        CoreAnswer::Opened => HelloUnlockStep::Publish,
                        CoreAnswer::Cancelled => abandoned(Verdict::cancelled(), false),
                        CoreAnswer::Failed => abandoned(Verdict::failed(), false),
                    },
                ),
            }
        },
        _ => flow,
    }
}

impl HelloUnlockFlow {
    /// An attempt that has not begun. There is none without a platform prompt
    /// and a store for its state, nor for a vault that is not locked.
    pub fn unlock_windows_hello(configured: bool, state: AgentState) -> (flow: HelloUnlockFlow)
        ensures
            flow@.wf(),
            flow.step == (if !configured {
                refused(Verdict::failed())
            } else if state == AgentState::Unlocking {
                refused(Verdict::busy())
            } else if state != AgentState::Locked {
                refused(Verdict::conflict())
            } else {
                HelloUnlockStep::TakePrompt
            }),
            flow.state is None,
            !flow.began,
            !flow.opened,
    {
        let step = if !configured {
            refused(Verdict::failed())
        } else if state == AgentState::Unlocking {
            refused(Verdict::busy())
        } else if state != AgentState::Locked {
            refused(Verdict::conflict())
        } else {
            HelloUnlockStep::TakePrompt
        };
        HelloUnlockFlow { step, state: None, began: false, opened: false }
    }

    fn after_retirement(&mut self)
        ensures
            final(self)@ == old(self)@.after_retirement(),
    {
        let enrolled = match &self.state {
            Some(state) => state.enrollment.is_some(),
            None => false,
        };
        self.step = if enrolled {
            HelloUnlockStep::Begin
        } else {
            refused(Verdict::failed())
        };
    }

    /// Takes in what came of the awaited step and goes on to the next one.
    pub fn advance(&mut self, event: HelloEvent)
        requires
            old(self)@.wf(),
        ensures
            final(self)@.wf(),
            final(self)@ == hello_unlock_next(old(self)@, event),
    {
        match (self.step, event) {
            (HelloUnlockStep::TakePrompt, HelloEvent::PromptTaken(taken)) => {
                self.step = if taken {
                    HelloUnlockStep::LoadState
                } else {
                    refused(Verdict::busy())
                };
            },
            (HelloUnlockStep::LoadState, HelloEvent::Loaded(loaded)) => match loaded {
                Ok(state) => {
                    let retiring = state.pending_removal.is_some();
                    self.state = Some(state);
                    if retiring {
                        self.step = HelloUnlockStep::Retire(RetirementStep::RemoveCredential);
                    } else {
                        self.after_retirement();
                    }
                },
                Err(WindowsHelloStateError::NotFound) => {
                    self.step = HelloUnlockStep::EnsureAbsent;
                },
                Err(_) => {
                    self.step = refused(Verdict::failed());
                },
            },
            (HelloUnlockStep::EnsureAbsent, HelloEvent::StateRemoved(result)) => {
                self.step = if was_left_absent(&result) {
                    refused(Verdict::failed())
                } else {
                    refused(Verdict::retryable_failure())
                };
            },
            (HelloUnlockStep::Retire(step), event) => {
                if let Some(mut state) = self.state.take() {
                    let next = retry_persisted_windows_hello_retirement(&mut state, step, &event);
                    self.state = Some(state);
                    match next {
                        RetirementStep::Retired => {
                            self.after_retirement();
                        },
                        RetirementStep::Failed => {
                            self.step = refused(Verdict::retryable_failure());
                        },
                        _ => {
                            self.step = HelloUnlockStep::Retire(next);
                        },
                    }
                }
            },
            (HelloUnlockStep::Begin, HelloEvent::Signals(signals)) => {
                match windows_hello_terminal_abort(&signals) {
                    Some(verdict) => {
                        self.step = refused(verdict);
                    },
                    None => {
                        if !signals.epoch_current {
                            self.step = refused(Verdict::locked());
                        } else if signals.state != AgentState::Locked {
                            self.step = refused(Verdict::conflict());
                        } else {
                            self.began = true;
                            self.step = HelloUnlockStep::Evaluate;
                        }
                    },
                }
            },
            (HelloUnlockStep::Evaluate, HelloEvent::Evaluated(result)) => {
                self.step = match result {
                    Ok(()) => HelloUnlockStep::CheckAfterPrompt,
                    Err(error) => abandoned(map_windows_hello_provider_error(&error), false),
                };
            },
            (HelloUnlockStep::CheckAfterPrompt, HelloEvent::Signals(signals)) => {
                self.step = match windows_hello_terminal_abort(&signals) {
                    Some(verdict) => abandoned(verdict, false),
                    None => if !signals.epoch_current || signals.state != AgentState::Unlocking {
                        abandoned(Verdict::cancelled(), false)
                    } else {
                        HelloUnlockStep::Authenticate
                    },
                };
            },
            (HelloUnlockStep::Authenticate, HelloEvent::Authenticated(result)) => match result {
                Ok(()) => {
                    self.opened = true;
                    self.step = HelloUnlockStep::CheckAfterCore(CoreAnswer::Opened);
                },
                Err(UnlockError::Cancelled) => {
                    self.step = HelloUnlockStep::CheckAfterCore(CoreAnswer::Cancelled);
                },
                Err(UnlockError::Failed) => {
                    self.step = HelloUnlockStep::CheckAfterCore(CoreAnswer::Failed);
                },
            },
            (HelloUnlockStep::CheckAfterCore(answer), HelloEvent::Signals(signals)) => {
                self.step = match windows_hello_terminal_abort(&signals) {
                    Some(verdict) => abandoned(verdict, true),
                    None => match answer {
                        CoreAnswer::Opened => HelloUnlockStep::Publish,
                        CoreAnswer::Cancelled => abandoned(Verdict::cancelled(), false),
                        CoreAnswer::Failed => abandoned(Verdict::failed(), false),
                    },
                };
            },
            _ => {},
        }
    }
}

/// Whether nothing ends a request: it is wanted, in time, and nothing locks the
/// vault.
pub open spec fn goes_on(signals: crate::signals::Signals) -> bool {
    !signals.lock_active && !signals.cancelled && !signals.expired
}

/// How far an attempt is.
spec fn unlock_rank(step: HelloUnlockStep) -> int {
    match step {
        HelloUnlockStep::TakePrompt => 0,
        HelloUnlockStep::LoadState => 1,
        HelloUnlockStep::EnsureAbsent => 2,
        HelloUnlockStep::Retire(_) => 2,
        HelloUnlockStep::Begin => 2,
        HelloUnlockStep::Evaluate => 3,
        HelloUnlockStep::CheckAfterPrompt => 4,
        HelloUnlockStep::Authenticate => 5,
        HelloUnlockStep::CheckAfterCore(_) => 6,
        HelloUnlockStep::Publish => 7,
        HelloUnlockStep::Done(_) => -1,
    }
}

/// An attempt publishes the vault straight away exactly where all of this is so,
/// in this order: the place for a prompt is free, an enrollment is stored and
/// nothing has to go, the vault is locked in the epoch of the request, the
/// platform gives the secret, the agent is still unlocking in that epoch, and
/// the secret opens the vault, while the request is wanted to the end.
pub proof fn prompts_that_go_well_unlock(flows: Seq<HelloUnlockModel>, events: Seq<HelloEvent>)
    requires
        events.len() == 7,
        flows.len() == 8,
        flows[0].step is TakePrompt,
        forall|i: int|
            0 <= i < 7 ==> flows[i + 1] == hello_unlock_next(flows[i], #[trigger] events[i]),
    ensures
        flows[7].step is Publish <==> {
            &&& events[0] == HelloEvent::PromptTaken(true)
            &&& events[1] matches HelloEvent::Loaded(Ok(state))
            &&& state@.pending_removal is None && state@.enrollment is Some
            &&& events[2] matches HelloEvent::Signals(first)
            &&& goes_on(first) && first.epoch_current && first.state == AgentState::Locked
            &&& events[3] matches HelloEvent::Evaluated(Ok(_))
            &&& events[4] matches HelloEvent::Signals(second)
            &&& goes_on(second) && second.epoch_current && second.state == AgentState::Unlocking
            &&& events[5] matches HelloEvent::Authenticated(Ok(_))
            &&& events[6] matches HelloEvent::Signals(third)
            &&& goes_on(third)
        },
{
    assert(flows[1] == hello_unlock_next(flows[0], events[0]));
    assert(unlock_rank(flows[1].step) <= 1);
    assert(flows[2] == hello_unlock_next(flows[1], events[1]));
    assert(unlock_rank(flows[2].step) <= 2);
    assert(flows[3] == hello_unlock_next(flows[2], events[2]));
    assert(unlock_rank(flows[3].step) <= 3);
    assert(flows[4] == hello_unlock_next(flows[3], events[3]));
    assert(unlock_rank(flows[4].step) <= 4);
    assert(flows[5] == hello_unlock_next(flows[4], events[4]));
    assert(unlock_rank(flows[5].step) <= 5);
    assert(flows[6] == hello_unlock_next(flows[5], events[5]));
    assert(unlock_rank(flows[6].step) <= 6);
    assert(flows[7] == hello_unlock_next(flows[6], events[6]));
    assert(unlock_rank(flows[7].step) <= 7);
}

/// An attempt that is over has not unlocked anything, and says so: the answer
/// is an error, and the vault and the agent are put back wherever the attempt
/// had changed them.
pub proof fn attempts_that_end_put_everything_back(flow: HelloUnlockModel, ending: UnlockEnding)
    requires
        flow.wf(),
        flow.step == HelloUnlockStep::Done(ending),
    ensures
        ending.verdict.error is Some,
        flow.opened ==> ending.locks_vault,
        flow.began ==> ending.leaves_unlocking,
{
}

/// An attempt that ends says why, and puts back just what it had changed: a peer
/// is told to come again where another prompt is shown or a clean-up failed, and
/// nowhere else; a vault that is open already is a conflict; an attempt of an
/// earlier epoch meets a locked vault.
pub proof fn ended_attempts_say_why(
    flow: HelloUnlockModel,
    event: HelloEvent,
    ending: UnlockEnding,
)
    requires
        flow.wf(),
        !(flow.step is Done),
        flow.step matches HelloUnlockStep::Retire(step) ==> !(step is Retired) && !(step is Failed),
        hello_unlock_next(flow, event).step == HelloUnlockStep::Done(ending),
    ensures
        ending.verdict.error == Some(crate::protocol::PublicErrorCode::Busy) <==> flow.step
            is TakePrompt,
        ending.verdict.retry == crate::protocol::RetryCategory::Backoff <==> flow.step is TakePrompt
            || (flow.step is EnsureAbsent && event is StateRemoved && event->StateRemoved_0 is Err
            && !(event->StateRemoved_0->Err_0 is NotFound)) || (flow.step is Retire && (event
            == HelloEvent::CredentialRemoved(false) || (event is Saved && event->Saved_0 is Err && !(
        event->Saved_0->Err_0 is Published)) || (event is StateRemoved && event->StateRemoved_0
            is Err && !(event->StateRemoved_0->Err_0 is NotFound)))),
        ending.verdict.error == Some(crate::protocol::PublicErrorCode::Conflict) <==> flow.step
            is Begin && event is Signals && goes_on(event->Signals_0)
            && event->Signals_0.epoch_current,
        ending.verdict.error == Some(crate::protocol::PublicErrorCode::Locked) <==> flow.step
            is Begin && event is Signals && goes_on(event->Signals_0)
            && !event->Signals_0.epoch_current,
        ending.verdict.error == Some(crate::protocol::PublicErrorCode::DeadlineExceeded) <==> event
            is Signals && event->Signals_0.expired && !event->Signals_0.cancelled
            && !event->Signals_0.lock_active,
        ending.leaves_unlocking <==> flow.began,
        ending.locks_vault ==> flow.step is CheckAfterCore && event is Signals && !goes_on(
            event->Signals_0,
        ),
        flow.step is CheckAfterCore && event is Signals && !goes_on(event->Signals_0)
            ==> ending.locks_vault,
{
}

/// An attempt begins exactly where there is a prompt and the vault is locked; one
/// that is under way already is told to come again.
pub proof fn attempts_begin_on_locked_vaults(
    configured: bool,
    state: AgentState,
    flow: HelloUnlockFlow,
)
    requires
        call_ensures(HelloUnlockFlow::unlock_windows_hello, (configured, state), flow),
    ensures
        flow.step is TakePrompt <==> configured && state == AgentState::Locked,
        flow.step matches HelloUnlockStep::Done(ending) ==> {
            &&& ending.verdict.error == Some(crate::protocol::PublicErrorCode::Busy) <==> configured
                && state == AgentState::Unlocking
            &&& ending.verdict.error == Some(crate::protocol::PublicErrorCode::OperationFailed)
                <==> !configured
            &&& !ending.locks_vault && !ending.leaves_unlocking
        },
        flow.step is TakePrompt || flow.step is Done,
        !flow.began && !flow.opened,
{
}

} // verus!
