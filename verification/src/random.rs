//! Random identifiers and keys.

use vstd::prelude::*;

use crate::bytes::is_zero;
use crate::errors::{DispatchError, RuntimeStartError};

verus! {

/// Calls `getrandom::fill` on a buffer of `N` bytes. Nothing is said of the
/// bytes that come back, nor of whether any do.
#[verifier::external_body]
fn random_array<const N: usize>() -> (random: Option<[u8; N]>) {
    let mut bytes = [0_u8; N];
    getrandom::fill(&mut bytes).ok()?;
    Some(bytes)
}

/// Random bytes that can serve as an identifier or a key: all-zero bytes
/// cannot.
pub fn usable_random<const N: usize>(random: Option<[u8; N]>) -> (usable: Option<[u8; N]>)
    ensures
        match random {
            Some(bytes) => if bytes@ == crate::bytes::zeros(N as nat) {
                usable is None
            } else {
                usable == Some(bytes)
            },
            None => usable is None,
        },
{
    match random {
        Some(bytes) => if is_zero(&bytes) {
            None
        } else {
            Some(bytes)
        },
        None => None,
    }
}

/// A fresh name for one answer.
pub fn correlation_id() -> (id: Result<[u8; 16], DispatchError>)
    ensures
        id matches Ok(bytes) ==> bytes@ != crate::bytes::zeros(16),
        id matches Err(error) ==> error == DispatchError::Internal,
{
    match usable_random(random_array::<16>()) {
        Some(bytes) => Ok(bytes),
        None => Err(DispatchError::Internal),
    }
}

/// A fresh name for one platform prompt.
pub fn windows_hello_operation_id() -> (id: Result<[u8; 16], DispatchError>)
    ensures
        id matches Ok(bytes) ==> bytes@ != crate::bytes::zeros(16),
        id matches Err(error) ==> error == DispatchError::Internal,
{
    match usable_random(random_array::<16>()) {
        Some(bytes) => Ok(bytes),
        None => Err(DispatchError::Internal),
    }
}

/// A fresh key for request fingerprints.
pub fn idempotency_fingerprint_key() -> (key: Result<[u8; 32], RuntimeStartError>)
    ensures
        key matches Ok(bytes) ==> bytes@ != crate::bytes::zeros(32),
        key matches Err(error) ==> error == RuntimeStartError::Internal,
{
    match usable_random(random_array::<32>()) {
        Some(bytes) => Ok(bytes),
        None => Err(RuntimeStartError::Internal),
    }
}

/// A fresh installation key, or none where the system gives no usable one.
pub fn installation_key() -> (key: Option<[u8; 32]>)
    ensures
        key matches Some(bytes) ==> bytes@ != crate::bytes::zeros(32),
{
    usable_random(random_array::<32>())
}

/// Random bytes for a temporary name, or none where the system gives none.
pub fn name_entropy() -> (random: Option<[u8; 16]>) {
    random_array::<16>()
}

} // verus!
