//! Failure categories. None of them carries a path, a key or stored data.

use vstd::prelude::*;

verus! {

/// Failure categories kept inside the trusted agent. Public results collapse
/// them, so that a peer learns nothing of which subsystem failed.
#[derive(Clone, Copy, Debug, PartialEq, Eq, Structural)]
pub enum StorageError {
    Filesystem,
    Identity,
    Sidecar,
    Snapshot,
    InvalidDatabaseHeader,
    Sqlite,
    Integrity,
    Schema,
    ResourceLimit,
    Randomness,
    Clock,
    Conflict,
    Aborted,
}

/// A failure while creating a new local vault.
#[derive(Clone, Copy, Debug, PartialEq, Eq, Structural)]
pub enum CreateError {
    AlreadyExists,
    Failed,
}

impl CreateError {
    /// The text shown for the failure.
    pub fn message(&self) -> (text: String)
        ensures
            text@ == (match *self {
                CreateError::AlreadyExists => "a vault already exists at the selected location"@,
                CreateError::Failed => "vault creation failed"@,
            }),
    {
        match self {
            CreateError::AlreadyExists => "a vault already exists at the selected location".to_owned(),
            CreateError::Failed => "vault creation failed".to_owned(),
        }
    }
}

/// The deliberately uniform result of an unsuccessful unlock.
#[derive(Clone, Copy, Debug, PartialEq, Eq, Structural)]
pub enum UnlockError {
    Failed,
    Cancelled,
}

impl UnlockError {
    /// The text shown for the failure.
    pub fn message(&self) -> (text: String)
        ensures
            text@ == (match *self {
                UnlockError::Failed => "vault unlock failed"@,
                UnlockError::Cancelled => "vault unlock was cancelled"@,
            }),
    {
        match self {
            UnlockError::Failed => "vault unlock failed".to_owned(),
            UnlockError::Cancelled => "vault unlock was cancelled".to_owned(),
        }
    }
}

/// Why an operation on the records of an open vault gave no result.
#[derive(Clone, Copy, Debug, PartialEq, Eq, Structural)]
pub enum AccountError {
    Locked,
    NotFound,
    Conflict,
    Aborted,
    Failed,
}

/// What the vault's cryptographic core reports of a record operation.
#[derive(Clone, Copy, Debug, PartialEq, Eq, Structural)]
pub enum RecordOperationError {
    NotFound,
    Conflict,
    Cancelled,
    Failed,
}

/// A state-machine violation of one authenticated connection.
#[derive(Clone, Copy, Debug, PartialEq, Eq, Structural)]
pub enum ConnectionError {
    ConnectionClosed,
    InvalidFrame,
    InvalidLimit,
}

/// What the wire protocol reports of a value it could not encode or decode.
#[derive(Clone, Copy, Debug, PartialEq, Eq, Structural)]
pub enum ProtocolError {
    TooLarge,
    Unsupported,
    Malformed,
}

/// Connection-fatal dispatch failure. Request-level failures are answered with
/// a public error code instead.
#[derive(Clone, Copy, Debug, PartialEq, Eq, Structural)]
pub enum DispatchError {
    Connection(ConnectionError),
    Internal,
}

impl From<ConnectionError> for DispatchError {
    fn from(value: ConnectionError) -> (error: Self) {
        DispatchError::Connection(value)
    }
}

impl vstd::std_specs::convert::FromSpecImpl<ConnectionError> for DispatchError {
    open spec fn obeys_from_spec() -> bool {
        true
    }

    open spec fn from_spec(value: ConnectionError) -> DispatchError {
        DispatchError::Connection(value)
    }
}

impl From<ProtocolError> for DispatchError {
    fn from(value: ProtocolError) -> (error: Self) {
        DispatchError::Internal
    }
}

impl vstd::std_specs::convert::FromSpecImpl<ProtocolError> for DispatchError {
    open spec fn obeys_from_spec() -> bool {
        true
    }

    open spec fn from_spec(value: ProtocolError) -> DispatchError {
        DispatchError::Internal
    }
}

/// Startup failures carry no vault path or platform detail.
#[derive(Clone, Copy, Debug, PartialEq, Eq, Structural)]
pub enum RuntimeStartError {
    InvalidVaultPath,
    InvalidLocalStatePath,
    AlreadyOwned,
    Internal,
}

/// Why the protected local state of the platform prompt gave no result.
#[derive(Clone, Copy, Debug, PartialEq, Eq, Structural)]
pub enum WindowsHelloStateError {
    NotFound,
    Invalid,
    Failed,
    /// The new state was published, and a later verification or durability
    /// barrier failed. The credential it selects must stay available.
    Published,
}

/// Why the platform's prompt gave no result.
pub enum WindowsHelloProviderError {
    InvalidRequest,
    Unavailable,
    Cancelled,
    Failed,
    RemovalFailed,
    /// A credential was made, is of no use, and could not be removed.
    CleanupRequired(Vec<u8>),
}

/// Why the platform did not verify a passkey request.
#[derive(Clone, Copy, Debug, PartialEq, Eq, Structural)]
pub enum PasskeyVerificationError {
    Invalid,
    Unavailable,
    Failed,
}

} // verus!
