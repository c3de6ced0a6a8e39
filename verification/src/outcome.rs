//! Outcomes of executed requests and the public answers they become.

use vstd::prelude::*;

use crate::errors::{
    AccountError, ConnectionError, DispatchError, PasskeyVerificationError, ProtocolError,
};
use crate::protocol::{PublicErrorCode, ResponseEnvelope, RetryCategory};
use crate::secrets::wipe;

verus! {

/// How a request ended, apart from the bytes that a success releases.
#[derive(Clone, Copy, Debug, PartialEq, Eq, Structural)]
pub struct Verdict {
    pub error: Option<PublicErrorCode>,
    pub retry: RetryCategory,
    /// The outcome of an earlier request with the same key is given again.
    pub replayed: bool,
    /// The lock flag stays raised until the answer has been written.
    pub holds_lock_transition: bool,
    /// The effect is durable: nothing that happens later changes the answer.
    pub committed: bool,
}

impl Verdict {
    /// The request succeeded.
    #[verifier::allow_in_spec]
    pub fn success() -> Verdict
        returns
            (Verdict {
                error: None,
                retry: RetryCategory::Never,
                replayed: false,
                holds_lock_transition: false,
                committed: false,
            }),
    {
        Verdict {
            error: None,
            retry: RetryCategory::Never,
            replayed: false,
            holds_lock_transition: false,
            committed: false,
        }
    }

    /// The request failed with a public error.
    #[verifier::allow_in_spec]
    pub fn failure(error: PublicErrorCode, retry: RetryCategory) -> Verdict
        returns
            (Verdict {
                error: Some(error),
                retry,
                replayed: false,
                holds_lock_transition: false,
                committed: false,
            }),
    {
        Verdict {
            error: Some(error),
            retry,
            replayed: false,
            holds_lock_transition: false,
            committed: false,
        }
    }

    /// The same verdict, with its effect durable.
    #[verifier::allow_in_spec]
    pub fn commit_point(self) -> Verdict
        returns
            (Verdict {
                error: self.error,
                retry: self.retry,
                replayed: self.replayed,
                holds_lock_transition: self.holds_lock_transition,
                committed: true,
            }),
    {
        Verdict {
            error: self.error,
            retry: self.retry,
            replayed: self.replayed,
            holds_lock_transition: self.holds_lock_transition,
            committed: true,
        }
    }

    /// The same verdict, keeping the lock flag raised until it is answered.
    #[verifier::allow_in_spec]
    pub fn hold_lock_transition(self) -> Verdict
        returns
            (Verdict {
                error: self.error,
                retry: self.retry,
                replayed: self.replayed,
                holds_lock_transition: true,
                committed: self.committed,
            }),
    {
        Verdict {
            error: self.error,
            retry: self.retry,
            replayed: self.replayed,
            holds_lock_transition: true,
            committed: self.committed,
        }
    }

    #[verifier::allow_in_spec]
    pub fn invalid() -> Verdict
        returns
            Verdict::failure(PublicErrorCode::InvalidRequest, RetryCategory::Never),
    {
        Verdict::failure(PublicErrorCode::InvalidRequest, RetryCategory::Never)
    }

    #[verifier::allow_in_spec]
    pub fn locked() -> Verdict
        returns
            Verdict::failure(PublicErrorCode::Locked, RetryCategory::AfterUnlock),
    {
        Verdict::failure(PublicErrorCode::Locked, RetryCategory::AfterUnlock)
    }

    #[verifier::allow_in_spec]
    pub fn busy() -> Verdict
        returns
            Verdict::failure(PublicErrorCode::Busy, RetryCategory::Backoff),
    {
        Verdict::failure(PublicErrorCode::Busy, RetryCategory::Backoff)
    }

    #[verifier::allow_in_spec]
    pub fn cancelled() -> Verdict
        returns
            Verdict::failure(PublicErrorCode::Cancelled, RetryCategory::Never),
    {
        Verdict::failure(PublicErrorCode::Cancelled, RetryCategory::Never)
    }

    #[verifier::allow_in_spec]
    pub fn deadline() -> Verdict
        returns
            Verdict::failure(PublicErrorCode::DeadlineExceeded, RetryCategory::Never),
    {
        Verdict::failure(PublicErrorCode::DeadlineExceeded, RetryCategory::Never)
    }

    #[verifier::allow_in_spec]
    pub fn failed() -> Verdict
        returns
            Verdict::failure(PublicErrorCode::OperationFailed, RetryCategory::Never),
    {
        Verdict::failure(PublicErrorCode::OperationFailed, RetryCategory::Never)
    }

    #[verifier::allow_in_spec]
    pub fn retryable_failure() -> Verdict
        returns
            Verdict::failure(PublicErrorCode::OperationFailed, RetryCategory::Backoff),
    {
        Verdict::failure(PublicErrorCode::OperationFailed, RetryCategory::Backoff)
    }

    #[verifier::allow_in_spec]
    pub fn conflict() -> Verdict
        returns
            Verdict::failure(PublicErrorCode::Conflict, RetryCategory::Never),
    {
        Verdict::failure(PublicErrorCode::Conflict, RetryCategory::Never)
    }

    #[verifier::allow_in_spec]
    pub fn not_found() -> Verdict
        returns
            Verdict::failure(PublicErrorCode::NotFound, RetryCategory::Never),
    {
        Verdict::failure(PublicErrorCode::NotFound, RetryCategory::Never)
    }
}

/// A verdict and the bytes that it releases. A failure releases none.
pub struct ExecutionOutcome {
    pub verdict: Verdict,
    pub body: Vec<u8>,
}

impl ExecutionOutcome {
    pub fn success(body: Vec<u8>) -> (outcome: ExecutionOutcome)
        ensures
            outcome.verdict == Verdict::success(),
            outcome.body@ == body@,
    {
        ExecutionOutcome { verdict: Verdict::success(), body }
    }

    /// The outcome of a verdict that releases nothing.
    pub fn without_body(verdict: Verdict) -> (outcome: ExecutionOutcome)
        ensures
            outcome.verdict == verdict,
            outcome.body@.len() == 0,
    {
        ExecutionOutcome { verdict, body: Vec::new() }
    }

    /// The outcome of a verdict that releases nothing, in place of this one,
    /// whose body is overwritten.
    pub fn discard(self, verdict: Verdict) -> (outcome: ExecutionOutcome)
        ensures
            outcome.verdict == verdict,
            outcome.body@.len() == 0,
    {
        let mut body = self.body;
        wipe(&mut body);
        ExecutionOutcome { verdict, body }
    }

    /// The answer to a request: its error without any body, or its body. A body
    /// that is held back is overwritten.
    pub fn into_response(self, correlation: [u8; 16]) -> (response: ResponseEnvelope)
        ensures
            response.correlation == correlation,
            response.error == self.verdict.error,
            self.verdict.error is Some ==> {
                &&& response.retry == self.verdict.retry
                &&& response.body@.len() == 0
            },
            self.verdict.error is None ==> {
                &&& response.retry == RetryCategory::Never
                &&& response.body@ == self.body@
            },
    {
        match self.verdict.error {
            Some(error) => {
                let mut body = self.body;
                wipe(&mut body);
                ResponseEnvelope {
                    correlation,
                    error: Some(error),
                    retry: self.verdict.retry,
                    body,
                }
            },
            None => ResponseEnvelope {
                correlation,
                error: None,
                retry: RetryCategory::Never,
                body: self.body,
            },
        }
    }
}

/// Whether a verdict is kept for later requests with the same idempotency key:
/// successes and failures that sending the request again cannot change.
#[verifier::allow_in_spec]
pub fn should_cache(verdict: &Verdict) -> bool
    returns
        (match verdict.error {
            None => true,
            Some(PublicErrorCode::InvalidRequest) => true,
            Some(PublicErrorCode::NotFound) => true,
            Some(PublicErrorCode::Conflict) => true,
            Some(PublicErrorCode::OperationFailed) => verdict.retry == RetryCategory::Never,
            Some(_) => false,
        }),
{
    match verdict.error {
        None => true,
        Some(PublicErrorCode::InvalidRequest) => true,
        Some(PublicErrorCode::NotFound) => true,
        Some(PublicErrorCode::Conflict) => true,
        Some(PublicErrorCode::OperationFailed) => verdict.retry == RetryCategory::Never,
        Some(_) => false,
    }
}

/// The verdict on a request body that does not decode.
#[verifier::allow_in_spec]
pub fn map_operation_decode_error(error: ProtocolError) -> Verdict
    returns
        (if error == ProtocolError::Unsupported {
            Verdict::failed()
        } else {
            Verdict::invalid()
        }),
{
    if error == ProtocolError::Unsupported {
        Verdict::failed()
    } else {
        Verdict::invalid()
    }
}

/// The verdict on a record operation that gave no result.
#[verifier::allow_in_spec]
pub fn map_account_error(error: AccountError) -> Verdict
    returns
        (match error {
            AccountError::Locked => Verdict::locked(),
            AccountError::NotFound => Verdict::not_found(),
            AccountError::Conflict => Verdict::conflict(),
            AccountError::Aborted => Verdict::failed(),
            AccountError::Failed => Verdict::failed(),
        }),
{
    match error {
        AccountError::Locked => Verdict::locked(),
        AccountError::NotFound => Verdict::not_found(),
        AccountError::Conflict => Verdict::conflict(),
        AccountError::Aborted => Verdict::failed(),
        AccountError::Failed => Verdict::failed(),
    }
}

/// The verdict on a passkey request that the platform did not verify.
#[verifier::allow_in_spec]
pub fn map_passkey_verification_error(error: PasskeyVerificationError) -> Verdict
    returns
        (match error {
            PasskeyVerificationError::Invalid => Verdict::invalid(),
            PasskeyVerificationError::Unavailable => Verdict::failed(),
            PasskeyVerificationError::Failed => Verdict::failed(),
        }),
{
    match error {
        PasskeyVerificationError::Invalid => Verdict::invalid(),
        PasskeyVerificationError::Unavailable => Verdict::failed(),
        PasskeyVerificationError::Failed => Verdict::failed(),
    }
}

/// The answer that a connection can carry: the response itself, or a uniform
/// failure in its place where the response does not fit, which is then
/// overwritten. A connection that cannot carry even the failure is broken.
pub fn bounded_response(
    response: ResponseEnvelope,
    response_fits: bool,
    failure_fits: bool,
) -> (bounded: Result<ResponseEnvelope, DispatchError>)
    ensures
        response_fits ==> bounded == Ok::<ResponseEnvelope, DispatchError>(response),
        !response_fits && !failure_fits ==> bounded == Err::<ResponseEnvelope, DispatchError>(
            DispatchError::Connection(ConnectionError::InvalidLimit),
        ),
        !response_fits && failure_fits ==> {
            &&& bounded is Ok
            &&& bounded->Ok_0.correlation == response.correlation
            &&& bounded->Ok_0.error == Some(PublicErrorCode::OperationFailed)
            &&& bounded->Ok_0.retry == RetryCategory::Never
            &&& bounded->Ok_0.body@.len() == 0
        },
{
    if response_fits {
        return Ok(response);
    }
    let mut body = response.body;
    wipe(&mut body);
    if !failure_fits {
        return Err(DispatchError::Connection(ConnectionError::InvalidLimit));
    }
    let failure = ExecutionOutcome { verdict: Verdict::failed(), body };
    Ok(failure.into_response(response.correlation))
}

/// Answers that sending the request again cannot change are kept for later
/// requests with the same key; those that another moment may change are not.
pub proof fn lasting_answers_are_kept()
    ensures
        should_cache(&Verdict::success()),
        should_cache(&Verdict::invalid()),
        should_cache(&Verdict::not_found()),
        should_cache(&Verdict::conflict()),
        should_cache(&Verdict::failed()),
        !should_cache(&Verdict::locked()),
        !should_cache(&Verdict::busy()),
        !should_cache(&Verdict::cancelled()),
        !should_cache(&Verdict::deadline()),
        !should_cache(&Verdict::retryable_failure()),
{
}

/// Whether an answer is kept depends on nothing but what the peer is told.
pub proof fn equal_answers_are_kept_alike(one: Verdict, other: Verdict)
    requires
        one.error == other.error,
        one.retry == other.retry,
    ensures
        should_cache(&one) == should_cache(&other),
        should_cache(&one) == should_cache(&one.commit_point()),
        should_cache(&one) == should_cache(&one.hold_lock_transition()),
{
}

/// A peer can tell the failures of record operations apart, except that an
/// aborted one looks like a failed one, and no failure looks like a success.
pub proof fn record_failures_are_told_apart(one: AccountError, other: AccountError)
    ensures
        map_account_error(one).error is Some,
        map_account_error(one).error == map_account_error(other).error <==> one == other || {
            &&& one == AccountError::Aborted || one == AccountError::Failed
            &&& other == AccountError::Aborted || other == AccountError::Failed
        },
        map_account_error(one).error == Some(PublicErrorCode::NotFound) <==> one
            == AccountError::NotFound,
        map_account_error(one).error == Some(PublicErrorCode::Conflict) <==> one
            == AccountError::Conflict,
        map_account_error(one).error == Some(PublicErrorCode::Locked) <==> one
            == AccountError::Locked,
        map_account_error(one).retry == RetryCategory::AfterUnlock <==> one
            == AccountError::Locked,
        !should_cache(&map_account_error(one)) <==> one == AccountError::Locked,
        !map_account_error(one).committed,
{
}

/// A failure releases nothing and a success releases what it holds, to whoever
/// asked.
pub proof fn only_successes_release(
    outcome: ExecutionOutcome,
    correlation: [u8; 16],
    response: ResponseEnvelope,
)
    requires
        call_ensures(ExecutionOutcome::into_response, (outcome, correlation), response),
    ensures
        response.correlation == correlation,
        response.error == outcome.verdict.error,
        response.error is Some ==> response.body@.len() == 0 && response.retry
            == outcome.verdict.retry,
        response.error is None ==> response.body@ == outcome.body@ && response.retry
            == RetryCategory::Never,
{
}

/// An answer that does not fit is replaced by a failure that says nothing of it,
/// and one that fits is sent as it is.
pub proof fn answers_that_fit_are_sent(
    response: ResponseEnvelope,
    response_fits: bool,
    failure_fits: bool,
    bounded: Result<ResponseEnvelope, DispatchError>,
)
    requires
        call_ensures(bounded_response, (response, response_fits, failure_fits), bounded),
    ensures
        bounded is Ok <==> response_fits || failure_fits,
        response_fits ==> bounded == Ok::<ResponseEnvelope, DispatchError>(response),
        !response_fits && failure_fits ==> {
            &&& bounded->Ok_0.correlation == response.correlation
            &&& bounded->Ok_0.error == Some(PublicErrorCode::OperationFailed)
            &&& bounded->Ok_0.body@.len() == 0
        },
{
}

/// A body that no version of the protocol could read is an invalid request; one
/// that only this version cannot read fails.
pub proof fn unread_bodies_are_told_apart(error: ProtocolError)
    ensures
        map_operation_decode_error(error).error == Some(PublicErrorCode::OperationFailed) <==> error
            == ProtocolError::Unsupported,
        map_operation_decode_error(error).error == Some(PublicErrorCode::InvalidRequest) <==> error
            != ProtocolError::Unsupported,
{
}

/// A proof that is wrong is the fault of its request; one that could not be
/// looked at is not.
pub proof fn wrong_proofs_are_told_apart(error: PasskeyVerificationError)
    ensures
        map_passkey_verification_error(error).error == Some(PublicErrorCode::InvalidRequest)
            <==> error == PasskeyVerificationError::Invalid,
        map_passkey_verification_error(error).error == Some(PublicErrorCode::OperationFailed)
            <==> error != PasskeyVerificationError::Invalid,
{
}

/// Each answer names one cause, and tells the peer to come again only where
/// that can help.
pub proof fn answers_name_one_cause()
    ensures
        Verdict::success().error is None,
        Verdict::invalid().error == Some(PublicErrorCode::InvalidRequest),
        Verdict::locked().error == Some(PublicErrorCode::Locked),
        Verdict::busy().error == Some(PublicErrorCode::Busy),
        Verdict::cancelled().error == Some(PublicErrorCode::Cancelled),
        Verdict::deadline().error == Some(PublicErrorCode::DeadlineExceeded),
        Verdict::failed().error == Some(PublicErrorCode::OperationFailed),
        Verdict::retryable_failure().error == Some(PublicErrorCode::OperationFailed),
        Verdict::conflict().error == Some(PublicErrorCode::Conflict),
        Verdict::not_found().error == Some(PublicErrorCode::NotFound),
        Verdict::busy().retry == RetryCategory::Backoff,
        Verdict::retryable_failure().retry == RetryCategory::Backoff,
        Verdict::locked().retry == RetryCategory::AfterUnlock,
        Verdict::invalid().retry == RetryCategory::Never,
        Verdict::cancelled().retry == RetryCategory::Never,
        Verdict::deadline().retry == RetryCategory::Never,
        Verdict::failed().retry == RetryCategory::Never,
        Verdict::conflict().retry == RetryCategory::Never,
        Verdict::not_found().retry == RetryCategory::Never,
{
}

} // verus!
