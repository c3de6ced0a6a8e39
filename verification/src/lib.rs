//! Decisions of the trusted local vault agent: who may use the vault, what a
//! request is answered, what is stored and when a stored value is believed.
//!
//! Everything here is single-owner state and plain values. Files, what is stored
//! in them, platform prompts, threads and the vault's cryptographic core live
//! with the caller: it performs the action that a function of this crate hands
//! out and reports back what came of it.

pub mod bytes;
pub mod cbor;
pub mod coordinator;
pub mod dispatch;
pub mod dispatching;
pub mod errors;
pub mod filesystem;
pub mod fingerprint;
pub mod hello;
pub mod hello_laws;
pub mod hello_removal;
pub mod hello_store;
pub mod hello_unlock;
pub mod host;
pub mod idempotency;
pub mod lifecycle;
pub mod new_database;
pub mod operations;
pub mod outcome;
pub mod ownership;
pub mod passkeys;
pub mod permits;
pub mod protocol;
pub mod random;
pub mod record_mutation;
pub mod records;
pub mod runtime;
pub mod secrets;
pub mod sessions;
pub mod signals;
pub mod snapshot;
pub mod sqlite;
pub mod storage;
pub mod text;
pub mod unlock_attempt;
pub mod unlocking;
pub mod vault_data;
pub mod vault_rows;
pub mod windows_hello;
