//! Numbers and bytes written out in ASCII.

use vstd::prelude::*;

verus! {

/// A number in decimal digits.
pub open spec fn decimal(value: nat) -> Seq<u8>
    decreases value,
{
    if value < 10 {
        seq![(48 + value) as u8]
    } else {
        decimal(value / 10).push((48 + value % 10) as u8)
    }
}

/// Writes a number in decimal digits behind what is there already.
pub fn push_decimal(out: &mut Vec<u8>, value: u64)
    ensures
        final(out)@ == old(out)@ + decimal(value as nat),
    decreases value,
{
    if value < 10 {
        out.push((48 + value) as u8);
        assert(out@ =~= old(out)@ + decimal(value as nat));
    } else {
        push_decimal(out, value / 10);
        out.push((48 + value % 10) as u8);
        assert(out@ =~= old(out)@ + decimal(value as nat));
    }
}

/// The lower-case hexadecimal digit of a number below sixteen.
pub open spec fn hex_digit(value: nat) -> u8 {
    if value < 10 {
        (48 + value) as u8
    } else {
        (87 + value) as u8
    }
}

/// Two hexadecimal digits for every byte.
pub open spec fn hex(bytes: Seq<u8>) -> Seq<u8> {
    Seq::new(
        2 * bytes.len(),
        |i: int|
            if i % 2 == 0 {
                hex_digit(bytes[i / 2] as nat / 16)
            } else {
                hex_digit(bytes[i / 2] as nat % 16)
            },
    )
}

fn push_hex_digit(out: &mut Vec<u8>, value: u8)
    requires
        value < 16,
    ensures
        final(out)@ == old(out)@.push(hex_digit(value as nat)),
{
    if value < 10 {
        out.push(48 + value);
    } else {
        out.push(87 + value);
    }
}

/// Writes two hexadecimal digits for every byte behind what is there already.
pub fn push_hex(out: &mut Vec<u8>, bytes: &[u8])
    ensures
        final(out)@ == old(out)@ + hex(bytes@),
{
    let mut index: usize = 0;
    assert(out@ =~= old(out)@ + hex(bytes@.take(0)));
    while index < bytes.len()
        invariant
            index <= bytes.len(),
            out@ == old(out)@ + hex(bytes@.take(index as int)),
        decreases bytes.len() - index,
    {
        let ghost before = out@;
        push_hex_digit(out, bytes[index] / 16);
        push_hex_digit(out, bytes[index] % 16);
        proof {
            let shorter = bytes@.take(index as int);
            let longer = bytes@.take(index + 1);
            assert forall|i: int| 0 <= i < hex(longer).len() implies hex(longer)[i] == (
            hex(shorter).push(hex_digit(bytes[index as int] as nat / 16)).push(
                hex_digit(bytes[index as int] as nat % 16),
            ))[i] by {}
            assert(out@ =~= old(out)@ + hex(longer));
        }
        index += 1;
    }
    assert(bytes@.take(index as int) =~= bytes@);
}

proof fn hex_digits_differ(left: nat, right: nat)
    requires
        left < 16,
        right < 16,
        hex_digit(left) == hex_digit(right),
    ensures
        left == right,
{
    assert(hex_digit(left) as int == (if left < 10 { 48 + left } else { 87 + left }));
    assert(hex_digit(right) as int == (if right < 10 { 48 + right } else { 87 + right }));
}

/// Different byte strings have different hexadecimal digits.
pub proof fn hex_tells_bytes_apart(left: Seq<u8>, right: Seq<u8>)
    requires
        hex(left) == hex(right),
    ensures
        left == right,
{
    assert(hex(left).len() == 2 * left.len());
    assert(hex(right).len() == 2 * right.len());
    assert forall|i: int| 0 <= i < left.len() implies left[i] == right[i] by {
        let l = left[i] as nat;
        let r = right[i] as nat;
        assert((2 * i) / 2 == i && (2 * i) % 2 == 0 && (2 * i + 1) / 2 == i && (2 * i + 1) % 2
            == 1);
        assert(hex(left)[2 * i] == hex_digit(l / 16));
        assert(hex(right)[2 * i] == hex_digit(r / 16));
        assert(hex(left)[2 * i + 1] == hex_digit(l % 16));
        assert(hex(right)[2 * i + 1] == hex_digit(r % 16));
        hex_digits_differ(l / 16, r / 16);
        hex_digits_differ(l % 16, r % 16);
    }
    assert(left =~= right);
}

/// The number that decimal digits stand for.
pub open spec fn decimal_value(digits: Seq<u8>) -> int
    decreases digits.len(),
{
    if digits.len() == 0 {
        0
    } else {
        10 * decimal_value(digits.drop_last()) + (digits.last() - 48)
    }
}

/// A number is written in digits alone, without a needless zero in front, and
/// its digits stand for it.
pub proof fn written_numbers_are_read_back(value: nat)
    ensures
        decimal_value(decimal(value)) == value,
        decimal(value).len() > 0,
        forall|i: int| 0 <= i < decimal(value).len() ==> 48 <= #[trigger] decimal(value)[i] <= 57,
        decimal(value).len() > 1 ==> decimal(value)[0] != 48,
    decreases value,
{
    let digits = decimal(value);
    if value < 10 {
        assert(digits.drop_last() =~= Seq::<u8>::empty());
        assert(decimal_value(digits.drop_last()) == 0);
    } else {
        let front = decimal(value / 10);
        written_numbers_are_read_back(value / 10);
        assert(digits.drop_last() =~= front);
        assert(digits[0] == front[0]);
        if front.len() == 1 {
            assert(front.drop_last() =~= Seq::<u8>::empty());
            assert(decimal_value(front.drop_last()) == 0);
            assert(decimal_value(front) == front[0] - 48);
        }
    }
}

/// The number that a hexadecimal digit stands for.
pub open spec fn hex_digit_value(digit: u8) -> int {
    if '0' as u8 <= digit <= '9' as u8 {
        digit - '0' as u8
    } else if 'a' as u8 <= digit <= 'f' as u8 {
        10 + (digit - 'a' as u8)
    } else {
        -1
    }
}

/// Bytes are written with two digits each, the higher one first, in lower case,
/// and the digits stand for the bytes.
pub proof fn written_bytes_are_read_back(bytes: Seq<u8>, place: int)
    requires
        0 <= place < bytes.len(),
    ensures
        hex(bytes).len() == 2 * bytes.len(),
        0 <= hex_digit_value(hex(bytes)[2 * place]) < 16,
        0 <= hex_digit_value(hex(bytes)[2 * place + 1]) < 16,
        bytes[place] == 16 * hex_digit_value(hex(bytes)[2 * place]) + hex_digit_value(
            hex(bytes)[2 * place + 1],
        ),
{
    assert((2 * place) / 2 == place && (2 * place) % 2 == 0);
    assert((2 * place + 1) / 2 == place && (2 * place + 1) % 2 == 1);
}

} // verus!
