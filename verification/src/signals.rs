//! What can stop a running operation, and the answers it then gets.

use vstd::prelude::*;

use crate::errors::StorageError;
use crate::outcome::Verdict;
use crate::protocol::AgentState;

verus! {

/// What an operation sees of the agent and of its own request at one moment.
#[derive(Clone, Copy, Debug, PartialEq, Eq, Structural)]
pub struct Signals {
    /// The vault is being locked.
    pub lock_active: bool,
    /// The request was told to stop.
    pub cancelled: bool,
    /// The deadline of the request has passed.
    pub expired: bool,
    pub state: AgentState,
    /// The epoch in which the request was admitted is still the current one.
    pub epoch_current: bool,
}

impl Signals {
    /// Whether the vault is open in the epoch of the request and stays so.
    #[verifier::allow_in_spec]
    pub fn session_stands(&self) -> bool
        returns
            !self.lock_active && self.state == AgentState::Unlocked && self.epoch_current,
    {
        !self.lock_active && self.state == AgentState::Unlocked && self.epoch_current
    }
}

/// Whether an operation on secrets has to stop.
#[verifier::allow_in_spec]
pub fn secret_operation_should_abort(signals: &Signals) -> bool
    returns
        signals.lock_active || signals.cancelled || signals.expired || signals.state
            != AgentState::Unlocked || !signals.epoch_current,
{
    signals.lock_active || signals.cancelled || signals.expired || signals.state
        != AgentState::Unlocked || !signals.epoch_current
}

/// The answer of an operation on secrets that has to stop before it reads any.
#[verifier::allow_in_spec]
pub fn pre_secret_operation(signals: &Signals) -> Option<Verdict>
    returns
        (if signals.lock_active {
            Some(Verdict::locked())
        } else if signals.cancelled {
            Some(Verdict::cancelled())
        } else if signals.expired {
            Some(Verdict::deadline())
        } else if signals.state != AgentState::Unlocked || !signals.epoch_current {
            Some(Verdict::locked())
        } else {
            None
        }),
{
    if signals.lock_active {
        Some(Verdict::locked())
    } else if signals.cancelled {
        Some(Verdict::cancelled())
    } else if signals.expired {
        Some(Verdict::deadline())
    } else if signals.state != AgentState::Unlocked || !signals.epoch_current {
        Some(Verdict::locked())
    } else {
        None
    }
}

/// The answer of an operation that has secrets in hand and has to stop. Where
/// the session no longer stands, the vault is locked as well; a request that
/// was only told to stop, or came too late, leaves it open.
#[verifier::allow_in_spec]
pub fn post_secret_operation(signals: &Signals) -> Option<Verdict>
    returns
        (if !signals.session_stands() {
            Some(Verdict::locked())
        } else if signals.cancelled {
            Some(Verdict::cancelled())
        } else if signals.expired {
            Some(Verdict::deadline())
        } else {
            None
        }),
{
    if !signals.session_stands() {
        Some(Verdict::locked())
    } else if signals.cancelled {
        Some(Verdict::cancelled())
    } else if signals.expired {
        Some(Verdict::deadline())
    } else {
        None
    }
}

/// The answer of a platform prompt whose request ended while it was shown.
#[verifier::allow_in_spec]
pub fn windows_hello_terminal_abort(signals: &Signals) -> Option<Verdict>
    returns
        (if signals.cancelled || signals.lock_active {
            Some(Verdict::cancelled())
        } else if signals.expired {
            Some(Verdict::deadline())
        } else {
            None
        }),
{
    if signals.cancelled || signals.lock_active {
        Some(Verdict::cancelled())
    } else if signals.expired {
        Some(Verdict::deadline())
    } else {
        None
    }
}

/// Whether the platform's prompt is asked to close.
#[verifier::allow_in_spec]
pub fn prompt_should_close(signals: &Signals) -> bool
    returns
        signals.cancelled || signals.lock_active || signals.expired,
{
    signals.cancelled || signals.lock_active || signals.expired
}

/// Whether a request may commit a change of records.
pub open spec fn allows_commit(signals: Signals) -> bool {
    signals.epoch_current && !signals.lock_active && !signals.cancelled && !signals.expired
}

/// The last word on a change of records, asked for inside the commit section.
pub fn before_commit(signals: &Signals) -> (allowed: Result<(), StorageError>)
    ensures
        allowed == (if allows_commit(*signals) {
            Ok::<(), StorageError>(())
        } else {
            Err(StorageError::Aborted)
        }),
{
    if !signals.epoch_current || signals.lock_active || signals.cancelled || signals.expired {
        Err(StorageError::Aborted)
    } else {
        Ok(())
    }
}

/// A change that is refused in the commit section belongs to an operation that
/// has to stop.
pub proof fn refused_commits_stop(signals: Signals)
    ensures
        !allows_commit(signals) ==> secret_operation_should_abort(&signals),
{
}

/// An operation on secrets stops before and after they are read on exactly the
/// same signals.
pub proof fn stops_agree(signals: Signals)
    ensures
        secret_operation_should_abort(&signals) <==> pre_secret_operation(&signals) is Some,
        secret_operation_should_abort(&signals) <==> post_secret_operation(&signals) is Some,
{
}

/// Whatever stops an operation is answered with an error that is not kept for
/// later requests with the same idempotency key.
pub proof fn stopped_answers_are_not_kept(signals: Signals)
    ensures
        pre_secret_operation(&signals) matches Some(verdict) ==> verdict.error is Some
            && !crate::outcome::should_cache(&verdict),
        post_secret_operation(&signals) matches Some(verdict) ==> verdict.error is Some
            && !crate::outcome::should_cache(&verdict),
        windows_hello_terminal_abort(&signals) matches Some(verdict) ==> verdict.error is Some
            && !crate::outcome::should_cache(&verdict),
{
}

/// An operation on secrets goes on in one situation only: the vault is open in
/// the epoch of its request, nothing locks it, and the request was neither told
/// to stop nor is too late. A change is committed in the same situation, except
/// that the state is not asked for once more.
pub proof fn only_unhindered_operations_go_on(
    signals: Signals,
    allowed: Result<(), StorageError>,
)
    requires
        call_ensures(before_commit, (&signals,), allowed),
    ensures
        ({
            let free = Signals {
                lock_active: false,
                cancelled: false,
                expired: false,
                state: AgentState::Unlocked,
                epoch_current: true,
            };
            &&& pre_secret_operation(&signals) is None <==> signals == free
            &&& post_secret_operation(&signals) is None <==> signals == free
            &&& !secret_operation_should_abort(&signals) <==> signals == free
            &&& allowed is Ok <==> (Signals { state: AgentState::Unlocked, ..signals }) == free
            &&& allowed matches Err(error) ==> error == StorageError::Aborted
        }),
{
}

/// A prompt stays open as long as its request is wanted and nothing locks the
/// vault, whatever state the agent is in, and an answer that comes while it is
/// open is used.
pub proof fn prompts_close_when_nobody_waits(signals: Signals)
    ensures
        !prompt_should_close(&signals) <==> (Signals {
            lock_active: false,
            cancelled: false,
            expired: false,
            ..signals
        }) == signals,
        windows_hello_terminal_abort(&signals) is Some <==> prompt_should_close(&signals),
{
}

/// The answer of an operation that has to stop says what stopped it: a lock
/// comes before the request's own wish, and that before its deadline, unless
/// secrets are in hand, where a session that is over comes before both. A
/// prompt answers a lock as it answers the request's own wish.
pub proof fn answers_say_what_stopped_them(signals: Signals)
    ensures
        pre_secret_operation(&signals) matches Some(verdict) ==> match verdict.error {
            Some(crate::protocol::PublicErrorCode::Cancelled) => signals.cancelled && !signals.lock_active,
            Some(crate::protocol::PublicErrorCode::DeadlineExceeded) => signals.expired && !signals.cancelled
                && !signals.lock_active,
            Some(crate::protocol::PublicErrorCode::Locked) => signals.lock_active || !signals.cancelled
                && !signals.expired,
            _ => false,
        },
        post_secret_operation(&signals) matches Some(verdict) ==> match verdict.error {
            Some(crate::protocol::PublicErrorCode::Cancelled) => signals.cancelled && signals.session_stands(),
            Some(crate::protocol::PublicErrorCode::DeadlineExceeded) => signals.expired && !signals.cancelled
                && signals.session_stands(),
            Some(crate::protocol::PublicErrorCode::Locked) => signals.lock_active || signals.state
                != AgentState::Unlocked || !signals.epoch_current,
            _ => false,
        },
        windows_hello_terminal_abort(&signals) matches Some(verdict) ==> match verdict.error {
            Some(crate::protocol::PublicErrorCode::Cancelled) => signals.cancelled || signals.lock_active,
            Some(crate::protocol::PublicErrorCode::DeadlineExceeded) => signals.expired && !signals.cancelled
                && !signals.lock_active,
            _ => false,
        },
        signals.session_stands() <==> (Signals {
            lock_active: false,
            state: AgentState::Unlocked,
            epoch_current: true,
            ..signals
        }) == signals,
{
}

} // verus!
