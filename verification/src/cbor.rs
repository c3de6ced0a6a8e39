//! The few CBOR items that the agent stores.

use minicbor::{Decoder, Encoder};
use vstd::prelude::*;

verus! {

/// The number whose highest-first digits these bytes are.
pub open spec fn be_value(bytes: Seq<u8>) -> nat
    decreases bytes.len(),
{
    if bytes.len() == 0 {
        0
    } else {
        be_value(bytes.drop_last()) * 256 + bytes.last() as nat
    }
}

/// The head of an item: its kind and its argument in the shortest form.
pub open spec fn head(kind: nat, argument: nat) -> Seq<u8> {
    if argument < 24 {
        seq![(kind * 32 + argument) as u8]
    } else if argument < 0x100 {
        seq![(kind * 32 + 24) as u8] + crate::fingerprint::be_bytes(argument, 1)
    } else if argument < 0x1_0000 {
        seq![(kind * 32 + 25) as u8] + crate::fingerprint::be_bytes(argument, 2)
    } else if argument < 0x1_0000_0000 {
        seq![(kind * 32 + 26) as u8] + crate::fingerprint::be_bytes(argument, 4)
    } else {
        seq![(kind * 32 + 27) as u8] + crate::fingerprint::be_bytes(argument, 8)
    }
}

/// An unsigned integer.
pub open spec fn uint_item(value: nat) -> Seq<u8> {
    head(0, value)
}

/// A byte string.
pub open spec fn bytes_item(bytes: Seq<u8>) -> Seq<u8> {
    head(2, bytes.len()) + bytes
}

/// A text, given by its UTF-8 form.
pub open spec fn text_item(utf8: Seq<u8>) -> Seq<u8> {
    head(3, utf8.len()) + utf8
}

/// How many bytes of argument follow a head byte, none where it has no
/// definite argument.
pub open spec fn argument_width(info: nat) -> Option<nat> {
    if info < 24 {
        Some(0)
    } else if info == 24 {
        Some(1)
    } else if info == 25 {
        Some(2)
    } else if info == 26 {
        Some(4)
    } else if info == 27 {
        Some(8)
    } else {
        None
    }
}

/// The kind and argument of the head at a position, in any form that fits, and
/// the position behind it.
pub open spec fn head_at(input: Seq<u8>, position: int) -> Option<(nat, nat, int)> {
    if !(0 <= position < input.len()) {
        None
    } else {
        let first = input[position] as nat;
        let info = first % 32;
        match argument_width(info) {
            None => None,
            Some(width) => if position + 1 + width > input.len() {
                None
            } else if width == 0 {
                Some((first / 32, info, position + 1))
            } else {
                Some(
                    (
                        first / 32,
                        be_value(input.subrange(position + 1, position + 1 + width)),
                        position + 1 + width,
                    ),
                )
            },
        }
    }
}

/// The unsigned integer at a position, and the position behind it.
pub open spec fn uint_at(input: Seq<u8>, position: int) -> Option<(nat, int)> {
    match head_at(input, position) {
        Some((kind, argument, next)) if kind == 0 => Some((argument, next)),
        _ => None,
    }
}

/// The content of the byte string or text of definite length at a position,
/// and the position behind it.
pub open spec fn content_at(input: Seq<u8>, position: int, kind: nat) -> Option<(Seq<u8>, int)> {
    match head_at(input, position) {
        Some((found, length, next)) if found == kind && next + length <= input.len() => Some(
            (input.subrange(next, next + length), next + length),
        ),
        _ => None,
    }
}

/// Calls `Encoder::array` of the crate `minicbor` on an empty vector: the head
/// of an array of `length` items in its shortest form.
#[verifier::external_body]
pub(crate) fn encode_array_head(length: u64) -> (item: Vec<u8>)
    ensures
        item@ == head(4, length as nat),
{
    let mut encoder = Encoder::new(Vec::new());
    let _ = encoder.array(length);
    encoder.into_writer()
}

/// Calls `Encoder::u32` of the crate `minicbor` on an empty vector: an unsigned
/// integer in its shortest form.
#[verifier::external_body]
pub(crate) fn encode_u32(value: u32) -> (item: Vec<u8>)
    ensures
        item@ == uint_item(value as nat),
{
    let mut encoder = Encoder::new(Vec::new());
    let _ = encoder.u32(value);
    encoder.into_writer()
}

/// Calls `Encoder::bytes` of the crate `minicbor` on an empty vector: a byte
/// string whose length is in its shortest form.
#[verifier::external_body]
pub(crate) fn encode_bytes(bytes: &[u8]) -> (item: Vec<u8>)
    ensures
        item@ == bytes_item(bytes@),
{
    let mut encoder = Encoder::new(Vec::new());
    let _ = encoder.bytes(bytes);
    encoder.into_writer()
}

/// Calls `Encoder::str` of the crate `minicbor` on an empty vector: a text
/// whose length is in its shortest form.
#[verifier::external_body]
pub(crate) fn encode_text(text: &str) -> (item: Vec<u8>)
    ensures
        item@ == text_item(vstd::utf8::encode_utf8(text@)),
{
    let mut encoder = Encoder::new(Vec::new());
    let _ = encoder.str(text);
    encoder.into_writer()
}

/// Calls `Decoder::array` of the crate `minicbor` at a position. An array of
/// indefinite length has no length. With the length comes the position behind
/// the head.
#[verifier::external_body]
pub(crate) fn decode_array_head(input: &[u8], position: usize) -> (item: Option<
    (Option<u64>, usize),
>)
    ensures
        match head_at(input@, position as int) {
            Some((kind, length, next)) if kind == 4 => {
                &&& item is Some
                &&& item->Some_0.0 is Some
                &&& item->Some_0.0->Some_0 == length
                &&& item->Some_0.1 == next
            },
            _ => if position < input@.len() && input@[position as int] == 0x9f {
                item == Some((None::<u64>, (position + 1) as usize))
            } else {
                item is None
            },
        },
{
    let mut decoder = Decoder::new(input);
    decoder.set_position(position);
    let length = decoder.array().ok()?;
    Some((length, decoder.position()))
}

/// Calls `Decoder::u32` of the crate `minicbor` at a position. An integer that
/// does not fit is none. With the value comes the position behind it.
#[verifier::external_body]
pub(crate) fn decode_u32(input: &[u8], position: usize) -> (item: Option<(u32, usize)>)
    ensures
        match uint_at(input@, position as int) {
            Some((value, next)) if value <= u32::MAX => item is Some && item->Some_0.0 == value
                && item->Some_0.1 == next,
            _ => item is None,
        },
{
    let mut decoder = Decoder::new(input);
    decoder.set_position(position);
    let value = decoder.u32().ok()?;
    Some((value, decoder.position()))
}

/// Calls `Decoder::bytes` of the crate `minicbor` at a position. Only byte
/// strings of definite length are read. With the bytes comes the position
/// behind them.
#[verifier::external_body]
pub(crate) fn decode_bytes(input: &[u8], position: usize) -> (item: Option<(Vec<u8>, usize)>)
    ensures
        match content_at(input@, position as int, 2) {
            Some((bytes, next)) => item is Some && item->Some_0.0@ == bytes && item->Some_0.1
                == next,
            None => item is None,
        },
{
    let mut decoder = Decoder::new(input);
    decoder.set_position(position);
    let bytes = decoder.bytes().ok()?.to_vec();
    Some((bytes, decoder.position()))
}

/// Calls `Decoder::str` of the crate `minicbor` at a position and gives the
/// UTF-8 form of the text. Only texts of definite length that are valid UTF-8
/// are read. With the text comes the position behind it.
#[verifier::external_body]
pub(crate) fn decode_text(input: &[u8], position: usize) -> (item: Option<(Vec<u8>, usize)>)
    ensures
        match content_at(input@, position as int, 3) {
            Some((utf8, next)) if vstd::utf8::valid_utf8(utf8) => item is Some && item->Some_0.0@
                == utf8 && item->Some_0.1 == next,
            _ => item is None,
        },
{
    let mut decoder = Decoder::new(input);
    decoder.set_position(position);
    let utf8 = decoder.str().ok()?.as_bytes().to_vec();
    Some((utf8, decoder.position()))
}

// Reading back what was written

proof fn digits_read_back(value: nat, width: nat)
    requires
        value < crate::fingerprint::power_256(width),
    ensures
        be_value(crate::fingerprint::be_bytes(value, width)) == value,
        crate::fingerprint::be_bytes(value, width).len() == width,
    decreases width,
{
    if width > 0 {
        let rest = crate::fingerprint::power_256((width - 1) as nat);
        assert(value / 256 < rest) by (nonlinear_arith)
            requires
                value < 256 * rest,
        ;
        digits_read_back(value / 256, (width - 1) as nat);
        let digits = crate::fingerprint::be_bytes(value, width);
        assert(digits.drop_last() =~= crate::fingerprint::be_bytes(
            value / 256,
            (width - 1) as nat,
        ));
    }
}

/// A head is read back from wherever it was written.
pub proof fn head_read_back(before: Seq<u8>, kind: nat, argument: nat, after: Seq<u8>)
    requires
        kind < 8,
        argument < 0x1_0000_0000_0000_0000,
    ensures
        head_at(before + head(kind, argument) + after, before.len() as int) == Some(
            (kind, argument, (before.len() + head(kind, argument).len()) as int),
        ),
{
    reveal_with_fuel(crate::fingerprint::power_256, 9);
    let item = head(kind, argument);
    let whole = before + item + after;
    let position = before.len() as int;
    let width: nat = if argument < 24 {
        0
    } else if argument < 0x100 {
        1
    } else if argument < 0x1_0000 {
        2
    } else if argument < 0x1_0000_0000 {
        4
    } else {
        8
    };
    let info: nat = if argument < 24 {
        argument
    } else if argument < 0x100 {
        24
    } else if argument < 0x1_0000 {
        25
    } else if argument < 0x1_0000_0000 {
        26
    } else {
        27
    };
    assert(kind * 32 + info < 256);
    assert(item[0] as nat == kind * 32 + info);
    assert(whole[position] == item[0]);
    assert((kind * 32 + info) / 32 == kind && (kind * 32 + info) % 32 == info);
    assert(argument_width(info) == Some(width));
    if width > 0 {
        digits_read_back(argument, width);
        let digits = crate::fingerprint::be_bytes(argument, width);
        assert(item =~= seq![(kind * 32 + info) as u8] + digits);
        assert(whole.subrange(position + 1, position + 1 + width) =~= digits);
    }
}

/// A byte string or text is read back from wherever it was written.
pub proof fn content_read_back(before: Seq<u8>, kind: nat, content: Seq<u8>, after: Seq<u8>)
    requires
        kind < 8,
        content.len() < 0x1_0000_0000_0000_0000,
    ensures
        content_at(
            before + (head(kind, content.len()) + content) + after,
            before.len() as int,
            kind,
        ) == Some(
            (content, (before.len() + head(kind, content.len()).len() + content.len()) as int),
        ),
{
    let whole = before + (head(kind, content.len()) + content) + after;
    head_read_back(before, kind, content.len(), content + after);
    assert(whole =~= before + head(kind, content.len()) + (content + after));
    let next = (before.len() + head(kind, content.len()).len()) as int;
    assert(whole.subrange(next, next + content.len()) =~= content);
}

} // verus!
