//! Enrolling, using and removing the credential of the platform's prompt.
//!
//! Each operation is a sequence of steps. A step waits for something that only
//! the platform, the store or the vault can do, takes in what came of it, and
//! goes on to the next one. An event that does not answer the awaited step
//! changes nothing.

use vstd::prelude::*;

use crate::bytes::{copy_bytes, same_bytes};
use crate::errors::{UnlockError, WindowsHelloProviderError, WindowsHelloStateError};
use crate::lifecycle::{OperationPermit, VaultAgent, VaultBinding};
use crate::outcome::Verdict;
use crate::secrets::wipe_array;
use crate::signals::{pre_secret_operation, windows_hello_terminal_abort, Signals};
use crate::windows_hello::{
    EnrollmentModel, HelloEnrollment, HelloLimits, LocalStateModel, ProtectorBinding,
    WindowsHelloLocalState,
};

verus! {

/// A credential that the platform made.
pub struct NewCredential {
    pub credential_id: Vec<u8>,
    pub prf_salt: [u8; 32],
}

/// Whether a key may still be protected for an enrollment: the permit under
/// which it began stands, the vault is the one that was seen then, and no new
/// epoch has begun.
pub fn still_protects<S>(
    vault: &VaultAgent<S>,
    permit: OperationPermit,
    binding: VaultBinding,
    epoch_current: bool,
) -> (protects: bool)
    ensures
        protects == (vault.authorizes(permit) && vault.binding == Some(binding) && epoch_current),
{
    let same_vault = match vault.authenticated_vault_binding() {
        Some(current) => current.same(&binding),
        None => false,
    };
    vault.operation_is_authorized(permit) && same_vault && epoch_current
}

/// What came of protecting a new enrollment.
pub struct Protection {
    /// The permit under which the operation began still stands, for the same
    /// vault and in the same epoch.
    pub authorized: bool,
    pub protector: Option<Vec<u8>>,
    /// What the protector reads as.
    pub reads_as: Option<ProtectorBinding>,
}

/// What came of the awaited step.
pub enum HelloEvent {
    Signals(Signals),
    PromptTaken(bool),
    Begun(Option<VaultBinding>),
    Loaded(Result<WindowsHelloLocalState, WindowsHelloStateError>),
    Saved(Result<(), WindowsHelloStateError>),
    StateRemoved(Result<(), WindowsHelloStateError>),
    CredentialRemoved(bool),
    Enrolled(Result<NewCredential, WindowsHelloProviderError>),
    Key(Option<[u8; 32]>),
    Protected(Protection),
    Evaluated(Result<(), WindowsHelloProviderError>),
    Authenticated(Result<(), UnlockError>),
    Binding(Option<VaultBinding>),
}

/// The answer where the platform's prompt gave no result.
pub open spec fn provider_verdict(error: WindowsHelloProviderError) -> Verdict {
    match error {
        WindowsHelloProviderError::InvalidRequest => Verdict::invalid(),
        WindowsHelloProviderError::Cancelled => Verdict::cancelled(),
        _ => Verdict::failed(),
    }
}

/// The answer where the platform's prompt gave no result.
pub fn map_windows_hello_provider_error(error: &WindowsHelloProviderError) -> (verdict: Verdict)
    ensures
        verdict == provider_verdict(*error),
{
    match error {
        WindowsHelloProviderError::InvalidRequest => Verdict::invalid(),
        WindowsHelloProviderError::Cancelled => Verdict::cancelled(),
        WindowsHelloProviderError::Unavailable => Verdict::failed(),
        WindowsHelloProviderError::Failed => Verdict::failed(),
        WindowsHelloProviderError::RemovalFailed => Verdict::failed(),
        WindowsHelloProviderError::CleanupRequired(_) => Verdict::failed(),
    }
}

/// What the bridge to the platform's prompt reports.
#[derive(Clone, Copy, Debug, PartialEq, Eq, Structural)]
pub enum BridgeError {
    InvalidArgument,
    Unavailable,
    Unsupported,
    Cancelled,
    CredentialRemovalFailed,
    InvalidResponse,
    PlatformFailure,
}

/// What a failure of the bridge means for an operation.
pub fn map_bridge_error(error: BridgeError) -> (mapped: WindowsHelloProviderError)
    ensures
        mapped == (match error {
            BridgeError::InvalidArgument => WindowsHelloProviderError::InvalidRequest,
            BridgeError::Unavailable => WindowsHelloProviderError::Unavailable,
            BridgeError::Unsupported => WindowsHelloProviderError::Unavailable,
            BridgeError::Cancelled => WindowsHelloProviderError::Cancelled,
            BridgeError::CredentialRemovalFailed => WindowsHelloProviderError::RemovalFailed,
            BridgeError::InvalidResponse => WindowsHelloProviderError::Failed,
            BridgeError::PlatformFailure => WindowsHelloProviderError::Failed,
        }),
{
    match error {
        BridgeError::InvalidArgument => WindowsHelloProviderError::InvalidRequest,
        BridgeError::Unavailable => WindowsHelloProviderError::Unavailable,
        BridgeError::Unsupported => WindowsHelloProviderError::Unavailable,
        BridgeError::Cancelled => WindowsHelloProviderError::Cancelled,
        BridgeError::CredentialRemovalFailed => WindowsHelloProviderError::RemovalFailed,
        BridgeError::InvalidResponse => WindowsHelloProviderError::Failed,
        BridgeError::PlatformFailure => WindowsHelloProviderError::Failed,
    }
}

/// The window that a prompt belongs to, as this machine numbers windows.
pub fn platform_parent(parent_window: u64) -> (parent: Result<usize, WindowsHelloProviderError>)
    ensures
        parent_window <= usize::MAX ==> parent is Ok && parent->Ok_0 == parent_window,
        parent_window > usize::MAX ==> parent == Err::<usize, WindowsHelloProviderError>(
            WindowsHelloProviderError::InvalidRequest,
        ),
{
    if parent_window <= usize::MAX as u64 {
        Ok(parent_window as usize)
    } else {
        Err(WindowsHelloProviderError::InvalidRequest)
    }
}

/// Whether saving a state put it in place.
pub open spec fn is_stored(result: Result<(), WindowsHelloStateError>) -> bool {
    result is Ok || result->Err_0 is Published
}

pub fn was_stored(result: &Result<(), WindowsHelloStateError>) -> (stored: bool)
    ensures
        stored == is_stored(*result),
{
    match result {
        Ok(()) => true,
        Err(WindowsHelloStateError::Published) => true,
        Err(_) => false,
    }
}

/// Whether removing the state left none.
pub open spec fn is_absent(result: Result<(), WindowsHelloStateError>) -> bool {
    result is Ok || result->Err_0 is NotFound
}

pub fn was_left_absent(result: &Result<(), WindowsHelloStateError>) -> (absent: bool)
    ensures
        absent == is_absent(*result),
{
    match result {
        Ok(()) => true,
        Err(WindowsHelloStateError::NotFound) => true,
        Err(_) => false,
    }
}

// Credentials that wait to be removed

/// A step in removing the credential that a stored state says has to go.
#[derive(Clone, Copy, Debug, PartialEq, Eq, Structural)]
pub enum RetirementStep {
    /// Remove the credential from the platform.
    RemoveCredential,
    /// Store the state without the credential.
    SaveCleared,
    /// Remove the stored state, which says nothing any more.
    RemoveEmptied,
    /// Nothing is left to remove.
    Retired,
    /// Something failed, and can be tried again.
    Failed,
}

/// The state without the credential that had to go.
pub open spec fn cleared(state: LocalStateModel) -> LocalStateModel {
    LocalStateModel { enrollment: state.enrollment, pending_removal: None }
}

/// What an event makes of a state and of the step that it awaits.
pub open spec fn retirement_next(
    state: LocalStateModel,
    step: RetirementStep,
    event: HelloEvent,
) -> (LocalStateModel, RetirementStep) {
    match (step, event) {
        (RetirementStep::RemoveCredential, HelloEvent::CredentialRemoved(removed)) => if !removed {
            (state, RetirementStep::Failed)
        } else if state.enrollment is Some {
            (cleared(state), RetirementStep::SaveCleared)
        } else {
            (cleared(state), RetirementStep::RemoveEmptied)
        },
        (RetirementStep::SaveCleared, HelloEvent::Saved(result)) => if is_stored(result) {
            (state, RetirementStep::Retired)
        } else {
            (state, RetirementStep::Failed)
        },
        (RetirementStep::RemoveEmptied, HelloEvent::StateRemoved(result)) => if is_absent(result) {
            (state, RetirementStep::Retired)
        } else {
            (state, RetirementStep::Failed)
        },
        _ => (state, step),
    }
}

/// Takes a loaded state one step further in getting rid of the credential that
/// has to go.
pub fn retry_persisted_windows_hello_retirement(
    state: &mut WindowsHelloLocalState,
    step: RetirementStep,
    event: &HelloEvent,
) -> (next: RetirementStep)
    ensures
        (final(state)@, next) == retirement_next(old(state)@, step, *event),
        final(state).enrollment == old(state).enrollment,
{
    match (step, event) {
        (RetirementStep::RemoveCredential, HelloEvent::CredentialRemoved(removed)) => {
            if !*removed {
                RetirementStep::Failed
            } else if state.clear_pending_removal_credential_id() {
                RetirementStep::SaveCleared
            } else {
                RetirementStep::RemoveEmptied
            }
        },
        (RetirementStep::SaveCleared, HelloEvent::Saved(result)) => if was_stored(result) {
            RetirementStep::Retired
        } else {
            RetirementStep::Failed
        },
        (RetirementStep::RemoveEmptied, HelloEvent::StateRemoved(result)) => {
            if was_left_absent(result) {
                RetirementStep::Retired
            } else {
                RetirementStep::Failed
            }
        },
        _ => step,
    }
}

// Enrolling

/// A step of an enrollment.
#[derive(Clone, Copy, Debug, PartialEq, Eq, Structural)]
pub enum EnrollStep {
    /// See whether the operation has to stop.
    CheckFirst,
    /// Take the one place for a prompt.
    TakePrompt,
    /// See again whether the operation has to stop.
    CheckAgain,
    /// Begin an operation on the vault and ask which vault it is.
    BeginOperation,
    /// Load the stored state.
    LoadState,
    /// Make sure that no state is stored where none was found.
    EnsureAbsent,
    /// Get rid of the credential that the stored state says has to go.
    Retire(RetirementStep),
    /// See whether the operation has to stop, with the enrollment of this vault
    /// recovered.
    CheckRecovered,
    /// See whether the operation has to stop before the prompt is shown.
    CheckBeforePrompt,
    /// Show the prompt that makes a credential.
    Prompt,
    /// See whether the request ended while the prompt was shown.
    CheckAfterPrompt,
    /// Draw a fresh installation key.
    DrawKey,
    /// Have the vault protect its key for the new enrollment.
    Protect,
    /// See whether the request ended meanwhile.
    CheckBeforePublish,
    /// Enter the commit section and see whether the operation has to stop.
    EnterCommit,
    /// Store the new enrollment.
    Publish,
    /// The new enrollment is not stored. Leave the commit section and see
    /// whether the request ended.
    CheckUnpublished,
    /// Remove the credential of the enrollment that was replaced.
    RetirePrevious,
    /// Store the new enrollment without the credential that is gone.
    SaveRetired,
    /// Store the previous enrollment again.
    RestorePrevious,
    /// Remove the new credential, and then give this answer.
    RemoveNew(Verdict),
    /// Store that the new credential has to go.
    RecordNew,
    /// The answer.
    Done(Verdict),
}

/// One enrollment.
pub struct EnrollFlow {
    pub step: EnrollStep,
    pub limits: HelloLimits,
    /// The vault that is enrolled.
    pub binding: Option<VaultBinding>,
    /// The stored state had a credential that had to go.
    pub recovering: bool,
    /// The commit section is held.
    pub in_commit: bool,
    /// What is stored besides the new enrollment.
    pub previous: Option<WindowsHelloLocalState>,
    /// The new enrollment.
    pub replacement: Option<WindowsHelloLocalState>,
    /// The new credential.
    pub credential_id: Vec<u8>,
    pub prf_salt: [u8; 32],
    pub installation_key: [u8; 32],
}

/// What an enrollment knows.
pub struct EnrollModel {
    pub step: EnrollStep,
    pub limits: HelloLimits,
    pub binding: Option<VaultBinding>,
    pub recovering: bool,
    pub in_commit: bool,
    pub previous: Option<LocalStateModel>,
    pub replacement: Option<LocalStateModel>,
    pub credential_id: Seq<u8>,
    pub prf_salt: Seq<u8>,
    pub installation_key: Seq<u8>,
}

/// What a local state that may be missing says.
pub open spec fn optional_state(state: Option<WindowsHelloLocalState>) -> Option<LocalStateModel> {
    match state {
        Some(state) => Some(state@),
        None => None,
    }
}

/// Overwrites the key of a state that is not needed any more.
pub fn forget_state(state: &mut Option<WindowsHelloLocalState>)
    ensures
        *final(state) is None,
{
    if let Some(mut given_up) = state.take() {
        if let Some(mut enrollment) = given_up.enrollment.take() {
            wipe_array(&mut enrollment.installation_key);
        }
    }
}

impl View for EnrollFlow {
    type V = EnrollModel;

    open spec fn view(&self) -> EnrollModel {
        EnrollModel {
            step: self.step,
            limits: self.limits,
            binding: self.binding,
            recovering: self.recovering,
            in_commit: self.in_commit,
            previous: optional_state(self.previous),
            replacement: optional_state(self.replacement),
            credential_id: self.credential_id@,
            prf_salt: self.prf_salt@,
            installation_key: self.installation_key@,
        }
    }
}

impl EnrollModel {
    pub open spec fn at(self, step: EnrollStep) -> EnrollModel {
        EnrollModel { step, ..self }
    }

    pub open spec fn done(self, verdict: Verdict) -> EnrollModel {
        self.at(EnrollStep::Done(verdict))
    }

    /// Goes on to a step, unless the operation has to stop.
    pub open spec fn unless(self, stop: Option<Verdict>, step: EnrollStep) -> EnrollModel {
        match stop {
            Some(verdict) => self.done(verdict),
            None => self.at(step),
        }
    }

    /// Goes on to a step, unless the operation has to stop, in which case the
    /// new credential is removed first.
    pub open spec fn unless_removing(self, stop: Option<Verdict>, step: EnrollStep) -> EnrollModel {
        match stop {
            Some(verdict) => self.at(EnrollStep::RemoveNew(verdict)),
            None => self.at(step),
        }
    }

    /// The enrollment that is stored already.
    pub open spec fn previous_enrollment(self) -> Option<EnrollmentModel> {
        match self.previous {
            Some(state) => state.enrollment,
            None => None,
        }
    }

    /// Every credential that had to go is gone: an enrollment of this vault
    /// that was only waiting for that is complete, and everything else takes a
    /// new one.
    pub open spec fn after_retirement(self) -> EnrollModel {
        match self.previous_enrollment() {
            Some(enrollment) => if self.recovering && self.binding is Some
                && self.binding->Some_0.vault_id@ == enrollment.vault_id
                && self.binding->Some_0.key_epoch == enrollment.key_epoch {
                self.at(EnrollStep::CheckRecovered)
            } else {
                self.at(EnrollStep::CheckBeforePrompt)
            },
            None => EnrollModel { previous: None, step: EnrollStep::CheckBeforePrompt, ..self },
        }
    }

    /// The new enrollment.
    pub open spec fn new_enrollment(self, protector: Seq<u8>) -> EnrollmentModel {
        EnrollmentModel {
            vault_id: self.binding->Some_0.vault_id@,
            key_epoch: self.binding->Some_0.key_epoch,
            installation_key: self.installation_key,
            credential_id: self.credential_id,
            prf_salt: self.prf_salt,
            protector,
        }
    }

    /// The credential that has to go once the new enrollment is stored.
    pub open spec fn replaced_credential(self) -> Option<Seq<u8>> {
        match self.previous_enrollment() {
            Some(enrollment) if enrollment.credential_id != self.credential_id => Some(
                enrollment.credential_id,
            ),
            _ => None,
        }
    }

    /// The vault protected its key, or did not. Either way the installation key
    /// is not needed by itself any more.
    pub open spec fn protected(self, protection: Protection) -> EnrollModel {
        EnrollModel { installation_key: crate::bytes::zeros(32), ..self.protecting(protection) }
    }

    /// What becomes of the new enrollment.
    pub open spec fn protecting(self, protection: Protection) -> EnrollModel {
        if !protection.authorized {
            self.at(EnrollStep::RemoveNew(Verdict::locked()))
        } else if protection.protector is None {
            self.at(EnrollStep::RemoveNew(Verdict::failed()))
        } else {
            let enrollment = self.new_enrollment(protection.protector->Some_0@);
            let replaced = self.replaced_credential();
            if crate::windows_hello::valid_enrollment(enrollment, self.limits)
                && protection.reads_as is Some && crate::windows_hello::protects(
                protection.reads_as->Some_0,
                enrollment,
            ) && (replaced is Some ==> crate::windows_hello::is_credential_id(
                replaced->Some_0,
                self.limits,
            )) {
                EnrollModel {
                    replacement: Some(
                        LocalStateModel {
                            enrollment: Some(enrollment),
                            pending_removal: replaced,
                        },
                    ),
                    step: EnrollStep::CheckBeforePublish,
                    ..self
                }
            } else {
                self.at(EnrollStep::RemoveNew(Verdict::failed()))
            }
        }
    }

    /// The new credential has to go, and could not be removed: that is stored,
    /// beside whatever enrollment there is.
    pub open spec fn recording(self) -> EnrollModel {
        if crate::windows_hello::is_credential_id(self.credential_id, self.limits) {
            EnrollModel {
                previous: Some(
                    LocalStateModel {
                        enrollment: self.previous_enrollment(),
                        pending_removal: Some(self.credential_id),
                    },
                ),
                step: EnrollStep::RecordNew,
                ..self
            }
        } else {
            self.done(Verdict::failed())
        }
    }

    /// The new enrollment may be stored, and something failed: the previous one
    /// is put back where there is one with another credential.
    pub open spec fn rolling_back(self) -> EnrollModel {
        if self.previous is None {
            self.done(Verdict::retryable_failure())
        } else if self.replaced_credential() is Some {
            self.at(EnrollStep::RestorePrevious)
        } else {
            self.done(Verdict::failed())
        }
    }

    /// What is known at each step.
    pub open spec fn wf(self) -> bool {
        let enrolling = match self.step {
            EnrollStep::CheckBeforePublish => true,
            EnrollStep::EnterCommit => true,
            EnrollStep::Publish => true,
            EnrollStep::CheckUnpublished => true,
            EnrollStep::RetirePrevious => true,
            EnrollStep::SaveRetired => true,
            EnrollStep::RestorePrevious => true,
            _ => false,
        };
        let bound = match self.step {
            EnrollStep::CheckFirst => false,
            EnrollStep::TakePrompt => false,
            EnrollStep::CheckAgain => false,
            EnrollStep::BeginOperation => false,
            EnrollStep::Done(_) => false,
            _ => true,
        };
        let settled = match self.step {
            EnrollStep::Retire(_) => false,
            EnrollStep::RecordNew => false,
            EnrollStep::Done(_) => false,
            _ => true,
        };
        &&& bound ==> self.binding is Some
        &&& self.step is Retire ==> {
            &&& self.previous is Some
            &&& self.step->Retire_0 is RemoveCredential || self.step->Retire_0 is SaveCleared
                || self.step->Retire_0 is RemoveEmptied
            &&& self.step->Retire_0 is RemoveCredential <==> self.previous->Some_0.pending_removal
                is Some
            &&& self.step->Retire_0 is SaveCleared ==> self.previous->Some_0.enrollment is Some
            &&& self.step->Retire_0 is RemoveEmptied ==> self.previous->Some_0.enrollment is None
        }
        &&& settled && self.previous is Some ==> self.previous->Some_0.enrollment is Some
            && self.previous->Some_0.pending_removal is None
        &&& enrolling ==> {
            &&& self.replacement is Some
            &&& self.replacement->Some_0.enrollment is Some
            &&& self.replacement->Some_0.enrollment->Some_0.credential_id == self.credential_id
            &&& self.replacement->Some_0.pending_removal == (if self.step is SaveRetired {
                None
            } else {
                self.replaced_credential()
            })
        }
        &&& self.step is RetirePrevious || self.step is SaveRetired || self.step is RestorePrevious
            ==> self.replaced_credential() is Some
        &&& self.step is RecordNew ==> self.previous is Some
            && self.previous->Some_0.pending_removal == Some(self.credential_id)
    }
}

/// What an event makes of an enrollment.
pub open spec fn enroll_next(flow: EnrollModel, event: HelloEvent) -> EnrollModel {
    match (flow.step, event) {
        (EnrollStep::CheckFirst, HelloEvent::Signals(signals)) => flow.unless(
            pre_secret_operation(&signals),
            EnrollStep::TakePrompt,
        ),
        (EnrollStep::TakePrompt, HelloEvent::PromptTaken(taken)) => if taken {
            flow.at(EnrollStep::CheckAgain)
        } else {
            flow.done(Verdict::busy())
        },
        (EnrollStep::CheckAgain, HelloEvent::Signals(signals)) => flow.unless(
            pre_secret_operation(&signals),
            EnrollStep::BeginOperation,
        ),
        (EnrollStep::BeginOperation, HelloEvent::Begun(binding)) => if binding is Some {
            EnrollModel { binding, step: EnrollStep::LoadState, ..flow }
        } else {
            flow.done(Verdict::locked())
        },
        (EnrollStep::LoadState, HelloEvent::Loaded(Ok(state))) => {
            let loaded = EnrollModel {
                previous: Some(state@),
                recovering: state@.pending_removal is Some,
                ..flow
            };
            if state@.pending_removal is Some {
                loaded.at(EnrollStep::Retire(RetirementStep::RemoveCredential))
            } else {
                loaded.after_retirement()
            }
        },
        (EnrollStep::LoadState, HelloEvent::Loaded(Err(error))) => if error is NotFound {
            flow.at(EnrollStep::EnsureAbsent)
        } else {
            flow.done(Verdict::failed())
        },
        (EnrollStep::EnsureAbsent, HelloEvent::StateRemoved(result)) => if is_absent(result) {
            flow.after_retirement()
        } else {
            flow.done(Verdict::retryable_failure())
        },
        (EnrollStep::Retire(step), event) => {
            let (state, next) = retirement_next(flow.previous->Some_0, step, event);
            let retired = EnrollModel { previous: Some(state), ..flow };
            match next {
                RetirementStep::Retired => retired.after_retirement(),
                RetirementStep::Failed => retired.done(Verdict::retryable_failure()),
                _ => retired.at(EnrollStep::Retire(next)),
            }
        },
        (EnrollStep::CheckRecovered, HelloEvent::Signals(signals)) => flow.unless(
            pre_secret_operation(&signals),
            EnrollStep::Done(Verdict::success()),
        ),
        (EnrollStep::CheckBeforePrompt, HelloEvent::Signals(signals)) => flow.unless(
            pre_secret_operation(&signals),
            EnrollStep::Prompt,
        ),
        (EnrollStep::Prompt, HelloEvent::Enrolled(Ok(credential))) => EnrollModel {
            credential_id: credential.credential_id@,
            prf_salt: credential.prf_salt@,
            step: EnrollStep::CheckAfterPrompt,
            ..flow
        },
        (EnrollStep::Prompt, HelloEvent::Enrolled(Err(error))) => match error {
            WindowsHelloProviderError::CleanupRequired(credential_id) => (EnrollModel {
                credential_id: credential_id@,
                ..flow
            }).recording(),
            _ => flow.done(provider_verdict(error)),
        },
        (EnrollStep::CheckAfterPrompt, HelloEvent::Signals(signals)) => flow.unless_removing(
            match windows_hello_terminal_abort(&signals) {
                Some(verdict) => Some(verdict),
                None => if signals.epoch_current {
                    None
                } else {
                    Some(Verdict::locked())
                },
            },
            EnrollStep::DrawKey,
        ),
        (EnrollStep::DrawKey, HelloEvent::Key(key)) => match key {
            Some(key) => EnrollModel {
                installation_key: key@,
                step: EnrollStep::Protect,
                ..flow
            },
            None => flow.at(EnrollStep::RemoveNew(Verdict::failed())),
        },
        (EnrollStep::Protect, HelloEvent::Protected(protection)) => flow.protected(protection),
        (EnrollStep::CheckBeforePublish, HelloEvent::Signals(signals)) => flow.unless_removing(
            windows_hello_terminal_abort(&signals),
            EnrollStep::EnterCommit,
        ),
        (EnrollStep::EnterCommit, HelloEvent::Signals(signals)) => match pre_secret_operation(
            &signals,
        ) {
            Some(verdict) => flow.at(EnrollStep::RemoveNew(verdict)),
            None => EnrollModel { in_commit: true, step: EnrollStep::Publish, ..flow },
        },
        (EnrollStep::Publish, HelloEvent::Saved(result)) => match result {
            Ok(()) => if flow.replacement->Some_0.pending_removal is Some {
                flow.at(EnrollStep::RetirePrevious)
            } else {
                flow.done(Verdict::success().commit_point())
            },
            Err(error) => if error is Published {
                flow.rolling_back()
            } else {
                EnrollModel { in_commit: false, step: EnrollStep::CheckUnpublished, ..flow }
            },
        },
        (EnrollStep::CheckUnpublished, HelloEvent::Signals(signals)) => flow.at(
            EnrollStep::RemoveNew(
                match windows_hello_terminal_abort(&signals) {
                    Some(verdict) => verdict,
                    None => Verdict::failed(),
                },
            ),
        ),
        (EnrollStep::RetirePrevious, HelloEvent::CredentialRemoved(removed)) => if removed {
            EnrollModel {
                replacement: Some(cleared(flow.replacement->Some_0)),
                step: EnrollStep::SaveRetired,
                ..flow
            }
        } else {
            flow.rolling_back()
        },
        (EnrollStep::SaveRetired, HelloEvent::Saved(result)) => if is_stored(result) {
            flow.done(Verdict::success().commit_point())
        } else {
            flow.done(Verdict::retryable_failure())
        },
        (EnrollStep::RestorePrevious, HelloEvent::Saved(result)) => if is_stored(result) {
            flow.at(EnrollStep::RemoveNew(Verdict::retryable_failure()))
        } else {
            flow.done(Verdict::failed())
        },
        (EnrollStep::RemoveNew(verdict), HelloEvent::CredentialRemoved(removed)) => if removed {
            flow.done(verdict)
        } else {
            flow.recording()
        },
        (EnrollStep::RecordNew, HelloEvent::Saved(result)) => if is_stored(result) {
            flow.done(Verdict::retryable_failure())
        } else {
            flow.done(Verdict::failed())
        },
        _ => flow,
    }
}

impl EnrollFlow {
    /// An enrollment that has not begun. Without a platform prompt and a store
    /// for its state there is none.
    pub fn enroll_windows_hello(configured: bool, limits: HelloLimits) -> (flow: EnrollFlow)
        ensures
            flow@.wf(),
            flow.limits == limits,
            flow.step == (if configured {
                EnrollStep::CheckFirst
            } else {
                EnrollStep::Done(Verdict::failed())
            }),
            flow.previous is None,
            flow.replacement is None,
            flow.binding is None,
            flow.credential_id@.len() == 0,
            !flow.recovering,
            !flow.in_commit,
    {
        EnrollFlow {
            step: if configured {
                EnrollStep::CheckFirst
            } else {
                EnrollStep::Done(Verdict::failed())
            },
            limits,
            binding: None,
            recovering: false,
            in_commit: false,
            previous: None,
            replacement: None,
            credential_id: Vec::new(),
            prf_salt: [0; 32],
            installation_key: [0; 32],
        }
    }

    fn unless(&mut self, stop: Option<Verdict>, step: EnrollStep)
        ensures
            final(self)@ == old(self)@.unless(stop, step),
    {
        self.step = match stop {
            Some(verdict) => EnrollStep::Done(verdict),
            None => step,
        };
    }

    fn unless_removing(&mut self, stop: Option<Verdict>, step: EnrollStep)
        ensures
            final(self)@ == old(self)@.unless_removing(stop, step),
    {
        self.step = match stop {
            Some(verdict) => EnrollStep::RemoveNew(verdict),
            None => step,
        };
    }

    fn after_retirement(&mut self)
        ensures
            final(self)@ == old(self)@.after_retirement(),
    {
        let previous = match &self.previous {
            Some(state) => state.vault_binding(),
            None => None,
        };
        match (previous, &self.binding) {
            (Some(previous), Some(binding)) => {
                if self.recovering && previous.same(binding) {
                    self.step = EnrollStep::CheckRecovered;
                } else {
                    self.step = EnrollStep::CheckBeforePrompt;
                }
            },
            (Some(_), None) => {
                self.step = EnrollStep::CheckBeforePrompt;
            },
            (None, _) => {
                self.previous = None;
                self.step = EnrollStep::CheckBeforePrompt;
            },
        }
    }

    /// Whether the previous enrollment has another credential than the new one.
    fn replaces_credential(&self) -> (replaces: bool)
        ensures
            replaces == (self@.replaced_credential() is Some),
    {
        match &self.previous {
            Some(state) => match state.credential_id() {
                Some(credential_id) => !same_bytes(credential_id, &self.credential_id),
                None => false,
            },
            None => false,
        }
    }

    fn protected(&mut self, protection: Protection)
        requires
            old(self).binding is Some,
        ensures
            final(self)@ == old(self)@.protected(protection),
    {
        self.protecting(protection);
        wipe_array(&mut self.installation_key);
    }

    fn protecting(&mut self, protection: Protection)
        requires
            old(self).binding is Some,
        ensures
            final(self)@ == old(self)@.protecting(protection),
    {
        if !protection.authorized {
            self.step = EnrollStep::RemoveNew(Verdict::locked());
            return;
        }
        let (protector, binding) = match (protection.protector, self.binding) {
            (Some(protector), Some(binding)) => (protector, binding),
            _ => {
                self.step = EnrollStep::RemoveNew(Verdict::failed());
                return;
            },
        };
        let enrollment = HelloEnrollment {
            vault_id: binding.vault_id,
            key_epoch: binding.key_epoch,
            installation_key: self.installation_key,
            credential_id: copy_bytes(&self.credential_id),
            prf_salt: self.prf_salt,
            protector,
        };
        let created = WindowsHelloLocalState::new(enrollment, self.limits, protection.reads_as);
        let mut replacement = match created {
            Ok(state) => state,
            Err(_) => {
                self.step = EnrollStep::RemoveNew(Verdict::failed());
                return;
            },
        };
        if self.replaces_credential() {
            if let Some(state) = &self.previous {
                if let Some(credential_id) = state.credential_id() {
                    if replacement.set_pending_removal_credential_id(
                        credential_id,
                        self.limits,
                    ).is_err() {
                        self.step = EnrollStep::RemoveNew(Verdict::failed());
                        return;
                    }
                }
            }
        }
        self.replacement = Some(replacement);
        self.step = EnrollStep::CheckBeforePublish;
    }

    /// Notes that the new credential has to go, beside the previous enrollment
    /// or alone.
    fn persist_windows_hello_cleanup(&mut self)
        ensures
            final(self)@ == old(self)@.recording(),
    {
        if self.credential_id.len() == 0 || self.credential_id.len()
            > self.limits.max_credential_id_bytes {
            self.step = EnrollStep::Done(Verdict::failed());
            return;
        }
        let enrollment = match self.previous.take() {
            Some(state) => state.enrollment,
            None => None,
        };
        self.previous = Some(
            WindowsHelloLocalState {
                enrollment,
                pending_removal: Some(copy_bytes(&self.credential_id)),
            },
        );
        self.step = EnrollStep::RecordNew;
    }

    fn rollback_windows_hello_enrollment(&mut self)
        ensures
            final(self)@ == old(self)@.rolling_back(),
    {
        self.step = if self.previous.is_none() {
            EnrollStep::Done(Verdict::retryable_failure())
        } else if self.replaces_credential() {
            EnrollStep::RestorePrevious
        } else {
            EnrollStep::Done(Verdict::failed())
        };
    }

    /// Takes in what came of the awaited step and goes on to the next one.
    pub fn advance(&mut self, event: HelloEvent)
        requires
            old(self)@.wf(),
        ensures
            final(self)@.wf(),
            final(self)@ == enroll_next(old(self)@, event),
    {
        match (self.step, event) {
            (EnrollStep::CheckFirst, HelloEvent::Signals(signals)) => {
                self.unless(pre_secret_operation(&signals), EnrollStep::TakePrompt);
            },
            (EnrollStep::TakePrompt, HelloEvent::PromptTaken(taken)) => {
                self.step = if taken {
                    EnrollStep::CheckAgain
                } else {
                    EnrollStep::Done(Verdict::busy())
                };
            },
            (EnrollStep::CheckAgain, HelloEvent::Signals(signals)) => {
                self.unless(pre_secret_operation(&signals), EnrollStep::BeginOperation);
            },
            (EnrollStep::BeginOperation, HelloEvent::Begun(binding)) => {
                if binding.is_some() {
                    self.binding = binding;
                    self.step = EnrollStep::LoadState;
                } else {
                    self.step = EnrollStep::Done(Verdict::locked());
                }
            },
            (EnrollStep::LoadState, HelloEvent::Loaded(loaded)) => {
                self.loaded(loaded);
            },
            (EnrollStep::EnsureAbsent, HelloEvent::StateRemoved(result)) => {
                if was_left_absent(&result) {
                    self.after_retirement();
                } else {
                    self.step = EnrollStep::Done(Verdict::retryable_failure());
                }
            },
            (EnrollStep::Retire(step), event) => {
                self.retire(step, &event);
            },
            (EnrollStep::CheckRecovered, HelloEvent::Signals(signals)) => {
                self.unless(pre_secret_operation(&signals), EnrollStep::Done(Verdict::success()));
            },
            (EnrollStep::CheckBeforePrompt, HelloEvent::Signals(signals)) => {
                self.unless(pre_secret_operation(&signals), EnrollStep::Prompt);
            },
            (EnrollStep::Prompt, HelloEvent::Enrolled(enrolled)) => {
                self.enrolled(enrolled);
            },
            (EnrollStep::CheckAfterPrompt, HelloEvent::Signals(signals)) => {
                let stop = match windows_hello_terminal_abort(&signals) {
                    Some(verdict) => Some(verdict),
                    None => if signals.epoch_current {
                        None
                    } else {
                        Some(Verdict::locked())
                    },
                };
                self.unless_removing(stop, EnrollStep::DrawKey);
            },
            (EnrollStep::DrawKey, HelloEvent::Key(key)) => match key {
                Some(key) => {
                    self.installation_key = key;
                    self.step = EnrollStep::Protect;
                },
                None => {
                    self.step = EnrollStep::RemoveNew(Verdict::failed());
                },
            },
            (EnrollStep::Protect, HelloEvent::Protected(protection)) => {
                self.protected(protection);
            },
            (EnrollStep::CheckBeforePublish, HelloEvent::Signals(signals)) => {
                self.unless_removing(
                    windows_hello_terminal_abort(&signals),
                    EnrollStep::EnterCommit,
                );
            },
            (EnrollStep::EnterCommit, HelloEvent::Signals(signals)) => {
                match pre_secret_operation(&signals) {
                    Some(verdict) => {
                        self.step = EnrollStep::RemoveNew(verdict);
                    },
                    None => {
                        self.in_commit = true;
                        self.step = EnrollStep::Publish;
                    },
                }
            },
            (EnrollStep::Publish, HelloEvent::Saved(result)) => {
                self.published(result);
            },
            (EnrollStep::CheckUnpublished, HelloEvent::Signals(signals)) => {
                self.step = EnrollStep::RemoveNew(
                    match windows_hello_terminal_abort(&signals) {
                        Some(verdict) => verdict,
                        None => Verdict::failed(),
                    },
                );
            },
            (EnrollStep::RetirePrevious, HelloEvent::CredentialRemoved(removed)) => {
                if removed {
                    let replacement = self.replacement.take();
                    self.replacement = match replacement {
                        Some(state) => Some(
                            WindowsHelloLocalState {
                                enrollment: state.enrollment,
                                pending_removal: None,
                            },
                        ),
                        None => None,
                    };
                    self.step = EnrollStep::SaveRetired;
                } else {
                    self.rollback_windows_hello_enrollment();
                }
            },
            (EnrollStep::SaveRetired, HelloEvent::Saved(result)) => {
                self.step = EnrollStep::Done(
                    if was_stored(&result) {
                        Verdict::success().commit_point()
                    } else {
                        Verdict::retryable_failure()
                    },
                );
            },
            (EnrollStep::RestorePrevious, HelloEvent::Saved(result)) => {
                self.step = if was_stored(&result) {
                    EnrollStep::RemoveNew(Verdict::retryable_failure())
                } else {
                    EnrollStep::Done(Verdict::failed())
                };
            },
            (EnrollStep::RemoveNew(verdict), HelloEvent::CredentialRemoved(removed)) => {
                if removed {
                    self.step = EnrollStep::Done(verdict);
                } else {
                    self.persist_windows_hello_cleanup();
                }
            },
            (EnrollStep::RecordNew, HelloEvent::Saved(result)) => {
                self.step = EnrollStep::Done(
                    if was_stored(&result) {
                        Verdict::retryable_failure()
                    } else {
                        Verdict::failed()
                    },
                );
            },
            _ => {},
        }
    }

    fn loaded(&mut self, loaded: Result<WindowsHelloLocalState, WindowsHelloStateError>)
        requires
            old(self)@.wf(),
            old(self).step is LoadState,
        ensures
            final(self)@.wf(),
            final(self)@ == enroll_next(old(self)@, HelloEvent::Loaded(loaded)),
    {
        match loaded {
            Ok(state) => {
                let retiring = state.pending_removal.is_some();
                self.previous = Some(state);
                self.recovering = retiring;
                if retiring {
                    self.step = EnrollStep::Retire(RetirementStep::RemoveCredential);
                } else {
                    self.after_retirement();
                }
            },
            Err(WindowsHelloStateError::NotFound) => {
                self.step = EnrollStep::EnsureAbsent;
            },
            Err(_) => {
                self.step = EnrollStep::Done(Verdict::failed());
            },
        }
    }

    fn retire(&mut self, step: RetirementStep, event: &HelloEvent)
        requires
            old(self)@.wf(),
            old(self).step == EnrollStep::Retire(step),
        ensures
            final(self)@.wf(),
            final(self)@ == enroll_next(old(self)@, *event),
    {
        if let Some(mut state) = self.previous.take() {
            let next = retry_persisted_windows_hello_retirement(&mut state, step, event);
            self.previous = Some(state);
            match next {
                RetirementStep::Retired => {
                    self.after_retirement();
                },
                RetirementStep::Failed => {
                    self.step = EnrollStep::Done(Verdict::retryable_failure());
                },
                _ => {
                    self.step = EnrollStep::Retire(next);
                },
            }
        }
    }

    fn enrolled(&mut self, enrolled: Result<NewCredential, WindowsHelloProviderError>)
        requires
            old(self)@.wf(),
            old(self).step is Prompt,
        ensures
            final(self)@.wf(),
            final(self)@ == enroll_next(old(self)@, HelloEvent::Enrolled(enrolled)),
    {
        match enrolled {
            Ok(credential) => {
                self.credential_id = credential.credential_id;
                self.prf_salt = credential.prf_salt;
                self.step = EnrollStep::CheckAfterPrompt;
            },
            Err(WindowsHelloProviderError::CleanupRequired(credential_id)) => {
                self.credential_id = credential_id;
                self.persist_windows_hello_cleanup();
            },
            Err(error) => {
                self.step = EnrollStep::Done(map_windows_hello_provider_error(&error));
            },
        }
    }

    fn published(&mut self, result: Result<(), WindowsHelloStateError>)
        requires
            old(self)@.wf(),
            old(self).step is Publish,
        ensures
            final(self)@.wf(),
            final(self)@ == enroll_next(old(self)@, HelloEvent::Saved(result)),
    {
        match result {
            Ok(()) => {
                let retiring = match &self.replacement {
                    Some(state) => state.pending_removal.is_some(),
                    None => false,
                };
                self.step = if retiring {
                    EnrollStep::RetirePrevious
                } else {
                    EnrollStep::Done(Verdict::success().commit_point())
                };
            },
            Err(WindowsHelloStateError::Published) => {
                self.rollback_windows_hello_enrollment();
            },
            Err(_) => {
                self.in_commit = false;
                self.step = EnrollStep::CheckUnpublished;
            },
        }
    }

    /// Overwrites what an enrollment that is over knows of keys.
    pub fn forget(&mut self)
        ensures
            final(self)@ == (EnrollModel {
                previous: None,
                replacement: None,
                installation_key: crate::bytes::zeros(32),
                ..old(self)@
            }),
    {
        forget_state(&mut self.previous);
        forget_state(&mut self.replacement);
        wipe_array(&mut self.installation_key);
    }

    /// The state that the awaited step stores.
    pub fn state_to_save(&self) -> (state: Option<&WindowsHelloLocalState>)
        ensures
            state is Some <==> self@.saves() is Some,
            state matches Some(found) ==> Some(found@) == self@.saves(),
    {
        match self.step {
            EnrollStep::Retire(RetirementStep::SaveCleared) => self.previous.as_ref(),
            EnrollStep::RestorePrevious => self.previous.as_ref(),
            EnrollStep::RecordNew => self.previous.as_ref(),
            EnrollStep::Publish => self.replacement.as_ref(),
            EnrollStep::SaveRetired => self.replacement.as_ref(),
            _ => None,
        }
    }

    /// The credential that the awaited step removes from the platform.
    pub fn credential_to_remove(&self) -> (credential_id: Option<&Vec<u8>>)
        ensures
            credential_id is Some <==> self@.removes() is Some,
            credential_id matches Some(found) ==> Some(found@) == self@.removes(),
    {
        match self.step {
            EnrollStep::Retire(RetirementStep::RemoveCredential) => match &self.previous {
                Some(state) => state.pending_removal_credential_id(),
                None => None,
            },
            EnrollStep::RetirePrevious => match &self.replacement {
                Some(state) => state.pending_removal_credential_id(),
                None => None,
            },
            EnrollStep::RemoveNew(_) => Some(&self.credential_id),
            _ => None,
        }
    }
}

impl EnrollModel {
    /// The state that the awaited step stores.
    pub open spec fn saves(self) -> Option<LocalStateModel> {
        match self.step {
            EnrollStep::Retire(RetirementStep::SaveCleared) => self.previous,
            EnrollStep::RestorePrevious => self.previous,
            EnrollStep::RecordNew => self.previous,
            EnrollStep::Publish => self.replacement,
            EnrollStep::SaveRetired => self.replacement,
            _ => None,
        }
    }

    /// The credential that the awaited step removes from the platform.
    pub open spec fn removes(self) -> Option<Seq<u8>> {
        match self.step {
            EnrollStep::Retire(RetirementStep::RemoveCredential) => match self.previous {
                Some(state) => state.pending_removal,
                None => None,
            },
            EnrollStep::RetirePrevious => match self.replacement {
                Some(state) => state.pending_removal,
                None => None,
            },
            EnrollStep::RemoveNew(_) => Some(self.credential_id),
            _ => None,
        }
    }
}

/// A prompt that the user closed is told apart from a request that could not be
/// shown and from every failure, from the bridge to the answer.
pub proof fn prompt_failures_are_told_apart(
    error: BridgeError,
    mapped: WindowsHelloProviderError,
    verdict: Verdict,
)
    requires
        call_ensures(map_bridge_error, (error,), mapped),
        call_ensures(map_windows_hello_provider_error, (&mapped,), verdict),
    ensures
        verdict.error == Some(crate::protocol::PublicErrorCode::Cancelled) <==> error
            == BridgeError::Cancelled,
        verdict.error == Some(crate::protocol::PublicErrorCode::InvalidRequest) <==> error
            == BridgeError::InvalidArgument,
        verdict.error is Some,
        mapped is RemovalFailed <==> error == BridgeError::CredentialRemovalFailed,
        !(mapped is CleanupRequired),
        !verdict.committed,
{
}

/// A credential that has to go is gone from the platform before the stored state
/// forgets it, the enrollment beside it stays as it is, and the state goes with
/// it where there is none.
pub proof fn retirements_forget_what_is_gone(
    state: LocalStateModel,
    step: RetirementStep,
    event: HelloEvent,
)
    ensures
        ({
            let (after, next) = retirement_next(state, step, event);
            &&& after.enrollment == state.enrollment
            &&& after.pending_removal == state.pending_removal || {
                &&& step is RemoveCredential && event == HelloEvent::CredentialRemoved(true)
                &&& after.pending_removal is None
            }
            &&& step is RemoveCredential && event == HelloEvent::CredentialRemoved(true) ==> {
                &&& after.pending_removal is None
                &&& next is SaveCleared <==> state.enrollment is Some
                &&& next is RemoveEmptied <==> state.enrollment is None
            }
            &&& step is RemoveCredential && event == HelloEvent::CredentialRemoved(false)
                ==> next is Failed
            &&& next is Retired && !(step is Retired) ==> {
                ||| step is SaveCleared && event is Saved && (event->Saved_0 matches Err(error)
                    ==> error is Published)
                ||| step is RemoveEmptied && event is StateRemoved && (
                event->StateRemoved_0 matches Err(error) ==> error is NotFound)
            }
            &&& step is SaveCleared ==> (event matches HelloEvent::Saved(Ok(_)) ==> next is Retired)
            &&& step is RemoveEmptied ==> (event matches HelloEvent::StateRemoved(Ok(_)) ==> next
                is Retired)
        }),
{
}

/// A key is protected for an enrollment only while nothing changed since it
/// began: the session, the vault, its key and the epoch are all the same.
pub proof fn keys_are_protected_while_nothing_changes<S>(
    vault: VaultAgent<S>,
    permit: OperationPermit,
    binding: VaultBinding,
    epoch_current: bool,
    protects: bool,
)
    requires
        call_ensures(still_protects::<S>, (&vault, permit, binding, epoch_current), protects),
    ensures
        protects ==> {
            &&& epoch_current
            &&& vault.session is Some
            &&& vault.session_id == Some(permit.session())
            &&& vault.authorization_epoch == permit.epoch()
            &&& vault.binding matches Some(current)
            &&& current.vault_id@ == binding.vault_id@ && current.key_epoch == binding.key_epoch
        },
        epoch_current && vault.session is Some && vault.session_id == Some(permit.session())
            && vault.authorization_epoch == permit.epoch() && vault.binding == Some(binding)
            ==> protects,
{
}

} // verus!
