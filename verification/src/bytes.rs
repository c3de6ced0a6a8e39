//! Comparison and copying of byte strings.

use vstd::prelude::*;

verus! {

/// Whether two fixed-size byte strings are equal.
pub fn same_array<const N: usize>(left: &[u8; N], right: &[u8; N]) -> (same: bool)
    ensures
        same == (*left == *right),
        same == (left@ == right@),
{
    let mut index: usize = 0;
    while index < N
        invariant
            index <= N,
            forall|i: int| 0 <= i < index ==> left[i] == right[i],
        decreases N - index,
    {
        if left[index] != right[index] {
            assert(left@[index as int] != right@[index as int]);
            return false;
        }
        index += 1;
    }
    assert(*left =~= *right);
    true
}

/// The text of `N` zero bytes.
pub open spec fn zeros(length: nat) -> Seq<u8> {
    Seq::new(length, |i: int| 0u8)
}

/// Whether every byte of a fixed-size byte string is zero.
pub fn is_zero<const N: usize>(value: &[u8; N]) -> (zero: bool)
    ensures
        zero == (value@ == zeros(N as nat)),
{
    let mut index: usize = 0;
    while index < N
        invariant
            index <= N,
            forall|i: int| 0 <= i < index ==> value[i] == 0,
        decreases N - index,
    {
        if value[index] != 0 {
            assert(value@[index as int] != zeros(N as nat)[index as int]);
            return false;
        }
        index += 1;
    }
    assert(value@ =~= zeros(N as nat));
    true
}

/// Whether two byte strings are equal.
pub fn same_bytes(left: &[u8], right: &[u8]) -> (same: bool)
    ensures
        same == (left@ == right@),
{
    if left.len() != right.len() {
        return false;
    }
    let mut index: usize = 0;
    while index < left.len()
        invariant
            index <= left.len(),
            left.len() == right.len(),
            forall|i: int| 0 <= i < index ==> left[i] == right[i],
        decreases left.len() - index,
    {
        if left[index] != right[index] {
            return false;
        }
        index += 1;
    }
    assert(left@ =~= right@);
    true
}

/// An owned copy of a byte string.
pub fn copy_bytes(source: &[u8]) -> (copy: Vec<u8>)
    ensures
        copy@ == source@,
{
    let mut copy: Vec<u8> = Vec::new();
    let mut index: usize = 0;
    while index < source.len()
        invariant
            index <= source.len(),
            copy@ == source@.take(index as int),
        decreases source.len() - index,
    {
        copy.push(source[index]);
        index += 1;
        assert(copy@ =~= source@.take(index as int));
    }
    assert(copy@ =~= source@);
    copy
}

/// The bytes of `left` followed by those of `right`.
pub fn joined(left: &[u8], right: &[u8]) -> (both: Vec<u8>)
    ensures
        both@ == left@ + right@,
{
    let mut both = copy_bytes(left);
    let mut index: usize = 0;
    while index < right.len()
        invariant
            index <= right.len(),
            both@ == left@ + right@.take(index as int),
        decreases right.len() - index,
    {
        both.push(right[index]);
        index += 1;
        assert(both@ =~= left@ + right@.take(index as int));
    }
    assert(both@ =~= left@ + right@);
    both
}

/// The views of a list of byte strings.
pub open spec fn bytes_view(value: Option<Vec<u8>>) -> Option<Seq<u8>> {
    match value {
        Some(bytes) => Some(bytes@),
        None => None,
    }
}

} // verus!
