//! Fingerprints by which a repeated request is told from another one that
//! uses its idempotency key.

use hmac::{Hmac, KeyInit, Mac};
use sha2::Sha256;
use vstd::prelude::*;

use crate::bytes::{copy_bytes, joined};
use crate::errors::DispatchError;
use crate::protocol::OperationProfile;

verus! {

/// The tag that HMAC with SHA-256 gives a message under a key.
pub uninterp spec fn hmac_sha256_of(key: Seq<u8>, message: Seq<u8>) -> Seq<u8>;

/// Calls `Hmac::<Sha256>::new_from_slice`, `update` and `finalize` of the
/// crates `hmac` and `sha2`. A key of any length is accepted, so there always
/// is a tag; it depends on the key and the message alone.
#[verifier::external_body]
fn hmac_sha256(key: &[u8], message: &[u8]) -> (tag: Option<[u8; 32]>)
    ensures
        tag is Some,
        tag->Some_0@ == hmac_sha256_of(key@, message@),
{
    let mut mac = Hmac::<Sha256>::new_from_slice(key).ok()?;
    mac.update(message);
    Some(mac.finalize().into_bytes().into())
}

/// The last `width` base-256 digits of a number, the highest first.
pub open spec fn be_bytes(value: nat, width: nat) -> Seq<u8>
    decreases width,
{
    if width == 0 {
        Seq::empty()
    } else {
        be_bytes(value / 256, (width - 1) as nat).push((value % 256) as u8)
    }
}

/// The highest-first digits of a number, behind what is there already.
pub fn push_be(out: &mut Vec<u8>, value: u64, width: usize)
    ensures
        final(out)@ == old(out)@ + be_bytes(value as nat, width as nat),
    decreases width,
{
    if width > 0 {
        push_be(out, value / 256, width - 1);
        out.push((value % 256) as u8);
        assert(out@ =~= old(out)@ + be_bytes(value as nat, width as nat));
    } else {
        assert(out@ =~= old(out)@ + be_bytes(value as nat, width as nat));
    }
}

pub proof fn be_bytes_length(value: nat, width: nat)
    ensures
        be_bytes(value, width).len() == width,
    decreases width,
{
    if width > 0 {
        be_bytes_length(value / 256, (width - 1) as nat);
    }
}

/// 256 to a power.
pub open spec fn power_256(exponent: nat) -> nat
    decreases exponent,
{
    if exponent == 0 {
        1
    } else {
        256 * power_256((exponent - 1) as nat)
    }
}

/// Numbers that fit are told apart by their digits.
pub proof fn be_bytes_injective(left: nat, right: nat, width: nat)
    requires
        left < power_256(width),
        right < power_256(width),
        be_bytes(left, width) == be_bytes(right, width),
    ensures
        left == right,
    decreases width,
{
    if width > 0 {
        let l = be_bytes(left / 256, (width - 1) as nat);
        let r = be_bytes(right / 256, (width - 1) as nat);
        assert(be_bytes(left, width).last() == (left % 256) as u8);
        assert(be_bytes(right, width).last() == (right % 256) as u8);
        assert(be_bytes(left, width).drop_last() =~= l);
        assert(be_bytes(right, width).drop_last() =~= r);
        let rest = power_256((width - 1) as nat);
        assert(left / 256 < rest) by (nonlinear_arith)
            requires
                left < 256 * rest,
        ;
        assert(right / 256 < rest) by (nonlinear_arith)
            requires
                right < 256 * rest,
        ;
        be_bytes_injective(left / 256, right / 256, (width - 1) as nat);
    }
}

/// The text that separates these tags from every other use of the key.
pub open spec fn fingerprint_label() -> Seq<u8> {
    vstd::utf8::encode_utf8("Librarian idempotency request v2\0"@)
}

/// The message that a request is fingerprinted by: the label, the operation's
/// number, whether it acts on an unlocked vault, then the epoch if it does,
/// and the request body.
pub open spec fn fingerprint_message(
    operation: OperationProfile,
    unlock_epoch: u64,
    body: Seq<u8>,
) -> Seq<u8> {
    fingerprint_label() + be_bytes(operation.wire_code as nat, 2) + (
    if operation.requires_unlocked_epoch {
        seq![1u8] + be_bytes(unlock_epoch as nat, 8)
    } else {
        seq![0u8]
    }) + body
}

/// The fingerprint of a request under the agent's key.
pub fn request_fingerprint(
    fingerprint_key: &[u8; 32],
    operation: OperationProfile,
    unlock_epoch: u64,
    body: &[u8],
) -> (fingerprint: Result<[u8; 32], DispatchError>)
    ensures
        fingerprint is Ok,
        fingerprint->Ok_0@ == hmac_sha256_of(
            fingerprint_key@,
            fingerprint_message(operation, unlock_epoch, body@),
        ),
{
    let mut message = copy_bytes("Librarian idempotency request v2\0".as_bytes());
    push_be(&mut message, operation.wire_code as u64, 2);
    let ghost head = message@;
    if operation.requires_unlocked_epoch {
        message.push(1);
        push_be(&mut message, unlock_epoch, 8);
        assert(message@ =~= head + (seq![1u8] + be_bytes(unlock_epoch as nat, 8)));
    } else {
        message.push(0);
        assert(message@ =~= head + seq![0u8]);
    }
    let message = joined(&message, body);
    match hmac_sha256(fingerprint_key, &message) {
        Some(tag) => Ok(tag),
        None => Err(DispatchError::Internal),
    }
}

/// Requests with one message agree in operation number and body, and, where
/// they act on an unlocked vault, in its epoch.
pub proof fn fingerprint_messages_tell_requests_apart(
    left: OperationProfile,
    left_epoch: u64,
    left_body: Seq<u8>,
    right: OperationProfile,
    right_epoch: u64,
    right_body: Seq<u8>,
)
    requires
        fingerprint_message(left, left_epoch, left_body) == fingerprint_message(
            right,
            right_epoch,
            right_body,
        ),
    ensures
        left.wire_code == right.wire_code,
        left.requires_unlocked_epoch == right.requires_unlocked_epoch,
        left.requires_unlocked_epoch ==> left_epoch == right_epoch,
        left_body == right_body,
{
    let label = fingerprint_label();
    let n = label.len() as int;
    let lm = fingerprint_message(left, left_epoch, left_body);
    let rm = fingerprint_message(right, right_epoch, right_body);
    be_bytes_length(left.wire_code as nat, 2);
    be_bytes_length(right.wire_code as nat, 2);
    be_bytes_length(left_epoch as nat, 8);
    be_bytes_length(right_epoch as nat, 8);
    reveal_with_fuel(power_256, 9);
    assert(lm.subrange(n, n + 2) =~= be_bytes(left.wire_code as nat, 2));
    assert(rm.subrange(n, n + 2) =~= be_bytes(right.wire_code as nat, 2));
    be_bytes_injective(left.wire_code as nat, right.wire_code as nat, 2);
    assert(lm[n + 2] == (if left.requires_unlocked_epoch { 1u8 } else { 0u8 }));
    assert(rm[n + 2] == (if right.requires_unlocked_epoch { 1u8 } else { 0u8 }));
    if left.requires_unlocked_epoch {
        assert(lm.subrange(n + 3, n + 11) =~= be_bytes(left_epoch as nat, 8));
        assert(rm.subrange(n + 3, n + 11) =~= be_bytes(right_epoch as nat, 8));
        be_bytes_injective(left_epoch as nat, right_epoch as nat, 8);
        assert(lm.skip(n + 11) =~= left_body);
        assert(rm.skip(n + 11) =~= right_body);
    } else {
        assert(lm.skip(n + 3) =~= left_body);
        assert(rm.skip(n + 3) =~= right_body);
    }
}

/// An operation that does not act on an unlocked vault has one fingerprint in
/// every epoch.
pub proof fn fingerprints_without_epoch(
    operation: OperationProfile,
    one_epoch: u64,
    other_epoch: u64,
    body: Seq<u8>,
)
    requires
        !operation.requires_unlocked_epoch,
    ensures
        fingerprint_message(operation, one_epoch, body) == fingerprint_message(
            operation,
            other_epoch,
            body,
        ),
{
}

/// Digits that are written highest first are read as the number that they were
/// written of, where it fits.
pub proof fn written_digits_are_read_back(value: nat, width: nat)
    requires
        value < power_256(width),
    ensures
        crate::cbor::be_value(be_bytes(value, width)) == value,
    decreases width,
{
    if width > 0 {
        let front = be_bytes(value / 256, (width - 1) as nat);
        assert(value / 256 < power_256((width - 1) as nat)) by (nonlinear_arith)
            requires
                value < 256 * power_256((width - 1) as nat),
        ;
        written_digits_are_read_back(value / 256, (width - 1) as nat);
        assert(be_bytes(value, width).drop_last() =~= front);
    }
}

} // verus!
