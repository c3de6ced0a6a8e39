//! What the dispatcher reads of a request, its connection and its answer.

use vstd::prelude::*;

use crate::errors::ConnectionError;

verus! {

/// Lifecycle state of the agent, as it is advertised to peers.
#[derive(Clone, Copy, Debug, PartialEq, Eq, Structural)]
pub enum AgentState {
    Starting,
    NoVault,
    Locked,
    Unlocking,
    Unlocked,
    Updating,
    ShuttingDown,
}

impl AgentState {
    /// The number under which the state is kept in a single byte.
    pub open spec fn spec_code(self) -> u8 {
        match self {
            AgentState::Starting => 0,
            AgentState::NoVault => 1,
            AgentState::Locked => 2,
            AgentState::Unlocking => 3,
            AgentState::Unlocked => 4,
            AgentState::Updating => 5,
            AgentState::ShuttingDown => 6,
        }
    }

    /// The number under which the state is kept in a single byte.
    pub fn code(self) -> (value: u8)
        ensures
            value == self.spec_code(),
    {
        match self {
            AgentState::Starting => 0,
            AgentState::NoVault => 1,
            AgentState::Locked => 2,
            AgentState::Unlocking => 3,
            AgentState::Unlocked => 4,
            AgentState::Updating => 5,
            AgentState::ShuttingDown => 6,
        }
    }
}

/// The state kept under a number. A number that no state has is read as
/// `ShuttingDown`, in which nothing is admitted.
pub fn decode_state(value: u8) -> (state: AgentState)
    ensures
        value <= 6 ==> state.spec_code() == value,
        value > 6 ==> state == AgentState::ShuttingDown,
{
    match value {
        0 => AgentState::Starting,
        1 => AgentState::NoVault,
        2 => AgentState::Locked,
        3 => AgentState::Unlocking,
        4 => AgentState::Unlocked,
        5 => AgentState::Updating,
        _ => AgentState::ShuttingDown,
    }
}

/// Two states never share a number, so a stored state is read back as itself.
pub proof fn state_codes_are_distinct(left: AgentState, right: AgentState)
    ensures
        left.spec_code() <= 6,
        left.spec_code() == right.spec_code() <==> left == right,
{
}

/// The public error codes that a request can be answered with.
#[derive(Clone, Copy, Debug, PartialEq, Eq, Structural)]
pub enum PublicErrorCode {
    UnauthorizedOperation,
    InvalidRequest,
    Busy,
    Locked,
    Cancelled,
    DeadlineExceeded,
    NotFound,
    Conflict,
    OperationFailed,
}

/// When a peer may send a failed request again.
#[derive(Clone, Copy, Debug, PartialEq, Eq, Structural)]
pub enum RetryCategory {
    Never,
    AfterUnlock,
    Backoff,
}

/// The typed operations of the protocol.
#[derive(Clone, Copy, Debug, PartialEq, Eq, Structural)]
pub enum OperationCode {
    Status,
    CreateVault,
    UnlockMasterPassword,
    Lock,
    ListAccountSummaries,
    GetAccount,
    AddAccount,
    UpdateAccount,
    DeleteAccount,
    EnrollWindowsHello,
    UnlockWindowsHello,
    RemoveWindowsHello,
    MakePasskey,
    GetPasskeyAssertion,
    DeletePasskey,
    ListPasskeysForAssertion,
    ListPasskeys,
    RollbackPasskeyCreation,
}

/// What the protocol fixes of one operation: its number on the wire, whether
/// it acts on an unlocked vault, and whether it carries an idempotency key.
#[derive(Clone, Copy, Debug, PartialEq, Eq, Structural)]
pub struct OperationProfile {
    pub code: OperationCode,
    pub wire_code: u16,
    pub requires_unlocked_epoch: bool,
    pub requires_idempotency_key: bool,
}

/// One admitted request of a connection.
#[derive(Clone, Copy, Debug, PartialEq, Eq, Structural)]
pub struct RequestPermit {
    pub operation: OperationProfile,
    pub request_id: u64,
    pub unlock_epoch: u64,
    pub effective_timeout_ms: u32,
}

/// Why a connection did not admit a request.
#[derive(Clone, Copy, Debug, PartialEq, Eq, Structural)]
pub enum BeginRequestError {
    Unauthorized,
    Busy { effective_timeout_ms: u32 },
    StaleEpoch,
    MissingIdempotencyKey,
    Connection(ConnectionError),
}

/// How a connection saw one of its requests end.
#[derive(Clone, Copy, Debug, PartialEq, Eq, Structural)]
pub enum RequestCompletion {
    Completed,
    Cancelled,
}

/// The answer to one request, before it is put on the wire.
pub struct ResponseEnvelope {
    pub correlation: [u8; 16],
    pub error: Option<PublicErrorCode>,
    pub retry: RetryCategory,
    pub body: Vec<u8>,
}

/// A state that is kept under its number is read back as itself, and every
/// number is read as some state, those of no state as one that admits nothing.
pub proof fn kept_states_are_read_back(
    state: AgentState,
    value: u8,
    read: AgentState,
    number: u8,
    other: AgentState,
)
    requires
        call_ensures(AgentState::code, (state,), value),
        call_ensures(decode_state, (value,), read),
        call_ensures(decode_state, (number,), other),
    ensures
        read == state,
        number > 6 ==> other == AgentState::ShuttingDown,
{
}

} // verus!
