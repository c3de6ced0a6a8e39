//! Secret bytes are overwritten before they are given up.

use vstd::prelude::*;

verus! {

/// `zeroize::Zeroize::zeroize` for `Vec<u8>`: the vector is empty afterwards.
/// That its memory, the part that is not in use included, holds zeros by then
/// is left unsaid: no value speaks of memory that is given up.
#[verifier::external_body]
pub(crate) fn wipe(bytes: &mut Vec<u8>)
    ensures
        final(bytes)@.len() == 0,
{
    zeroize::Zeroize::zeroize(bytes);
}

/// `zeroize::Zeroize::zeroize` for arrays of bytes: every byte is zero
/// afterwards.
#[verifier::external_body]
pub(crate) fn wipe_array<const N: usize>(bytes: &mut [u8; N])
    ensures
        final(bytes)@ == crate::bytes::zeros(N as nat),
{
    zeroize::Zeroize::zeroize(bytes);
}

} // verus!
