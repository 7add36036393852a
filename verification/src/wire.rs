//! The wire format of encoded messages.
//!
//! A message is encoded as a list of fields. A field is a key, which holds the tag of the field
//! and the type of its encoding, followed by a value. The calls that take single keys and values
//! off a buffer are those of the `prost` crate.

use prost::encoding::{DecodeContext, WireType};
use prost::DecodeError;
use vstd::prelude::*;
use vstd::utf8::*;

verus! {

/// How many bytes at the front say that the number goes on in the next byte.
pub open spec fn continued(input: Seq<u8>) -> nat
    decreases input.len(),
{
    if input.len() == 0 || input[0] < 0x80 {
        0
    } else {
        1 + continued(input.skip(1))
    }
}

/// The number that the low seven bits of the bytes spell, the least significant byte first.
pub open spec fn base128(bytes: Seq<u8>) -> nat
    decreases bytes.len(),
{
    if bytes.len() == 0 {
        0
    } else {
        (bytes[0] % 128) as nat + 128 * base128(bytes.skip(1))
    }
}

/// The number at the front of the input, and the input behind it. A number ends with the first
/// byte below 128. It takes at most ten bytes and fits in 64 bits.
pub open spec fn varint(input: Seq<u8>) -> Option<(u64, Seq<u8>)> {
    let n = continued(input) as int;
    if n >= input.len() || n > 9 || (n == 9 && input[9] >= 2) {
        None
    } else {
        Some((base128(input.take(n + 1)) as u64, input.skip(n + 1)))
    }
}

/// The key at the front of the input (tag and encoding type), and the input behind it.
pub open spec fn key(input: Seq<u8>) -> Option<(u32, u64, Seq<u8>)> {
    match varint(input) {
        Some((number, rest)) => if number <= u32::MAX && number % 8 <= 5 && number / 8 > 0 {
            Some(((number / 8) as u32, number % 8, rest))
        } else {
            None
        },
        None => None,
    }
}

/// The bytes at the front of the input that follow their own length, and the input behind them.
pub open spec fn delimited(input: Seq<u8>) -> Option<(Seq<u8>, Seq<u8>)> {
    match varint(input) {
        Some((len, rest)) => if len <= rest.len() {
            Some((rest.take(len as int), rest.skip(len as int)))
        } else {
            None
        },
        None => None,
    }
}

/// The encoding type of a number.
pub const VARINT: u64 = 0;

/// The encoding type of a value of eight bytes.
pub const SIXTY_FOUR_BIT: u64 = 1;

/// The encoding type of bytes that follow their length.
pub const LENGTH_DELIMITED: u64 = 2;

/// The encoding type of a group of fields up to a closing key.
pub const START_GROUP: u64 = 3;

/// The encoding type of a value of four bytes.
pub const THIRTY_TWO_BIT: u64 = 5;

/// The encoding type of the key that closes a group.
pub const END_GROUP: u64 = 4;

/// How deeply messages and groups may be nested in one another.
pub const RECURSION_LIMIT: u32 = 100;

/// The input behind a value that is not a group.
pub open spec fn skipped_plain(wire_type: u64, input: Seq<u8>) -> Option<Seq<u8>> {
    if wire_type == VARINT {
        match varint(input) {
            Some((_, rest)) => Some(rest),
            None => None,
        }
    } else if wire_type == SIXTY_FOUR_BIT {
        if input.len() >= 8 {
            Some(input.skip(8))
        } else {
            None
        }
    } else if wire_type == LENGTH_DELIMITED {
        match delimited(input) {
            Some((_, rest)) => Some(rest),
            None => None,
        }
    } else if wire_type == THIRTY_TWO_BIT {
        if input.len() >= 4 {
            Some(input.skip(4))
        } else {
            None
        }
    } else {
        None
    }
}

/// The input behind the rest of a group: behind the key that closes it with the tag that opened
/// it.
pub open spec fn skipped_group(tag: u32, input: Seq<u8>, depth: nat) -> Option<Seq<u8>>
    decreases depth, input.len(), 0nat,
{
    match key(input) {
        Some((inner_tag, wire_type, rest)) => if wire_type == END_GROUP {
            if inner_tag == tag {
                Some(rest)
            } else {
                None
            }
        } else if depth > 0 {
            match skipped(wire_type, inner_tag, rest, (depth - 1) as nat) {
                Some(behind) => if behind.len() < input.len() {
                    skipped_group(tag, behind, depth)
                } else {
                    None
                },
                None => None,
            }
        } else {
            None
        },
        None => None,
    }
}

/// The input behind a value of the given encoding type, where groups may still be nested to the
/// given depth.
pub open spec fn skipped(wire_type: u64, tag: u32, input: Seq<u8>, depth: nat) -> Option<Seq<u8>>
    decreases depth, input.len(), 1nat,
{
    if depth == 0 {
        None
    } else if wire_type == START_GROUP {
        skipped_group(tag, input, depth)
    } else {
        skipped_plain(wire_type, input)
    }
}

/// Calls `prost::encoding::decode_key`, which takes a key off the buffer: a number that fits in
/// 32 bits, of which the low three bits are the encoding type and the others the tag. It refuses
/// encoding types above five and the tag zero. The encoding type is handed on as its number.
#[verifier::external_body]
pub(crate) fn read_key<'a>(input: &'a [u8]) -> (res: Result<(u32, u64, &'a [u8]), DecodeError>)
    ensures
        match res {
            Ok((tag, wire_type, rest)) => key(input@) == Some((tag, wire_type, rest@)),
            Err(_) => key(input@) is None,
        },
{
    let mut rest: &[u8] = input;
    let (tag, wire_type) = prost::encoding::decode_key(&mut rest)?;
    Ok((tag, wire_type as u64, rest))
}

/// Calls `prost::encoding::uint64::merge`, which checks that the encoding type is that of a
/// number and takes a number off the buffer.
#[verifier::external_body]
pub(crate) fn read_number<'a>(wire_type: u64, input: &'a [u8]) -> (res: Result<
    (u64, &'a [u8]),
    DecodeError,
>)
    ensures
        match res {
            Ok((number, rest)) => wire_type == VARINT && varint(input@) == Some((number, rest@)),
            Err(_) => wire_type != VARINT || varint(input@) is None,
        },
{
    let mut rest: &[u8] = input;
    let mut number: u64 = 0;
    let wire_type = WireType::try_from(wire_type)?;
    prost::encoding::uint64::merge(wire_type, &mut number, &mut rest, DecodeContext::default())?;
    Ok((number, rest))
}

/// Calls `prost::encoding::bytes::merge`, which checks that the encoding type is that of bytes
/// with their length, and takes such bytes off the buffer.
#[verifier::external_body]
pub(crate) fn read_bytes<'a>(wire_type: u64, input: &'a [u8]) -> (res: Result<
    (Vec<u8>, &'a [u8]),
    DecodeError,
>)
    ensures
        match res {
            Ok((bytes, rest)) => wire_type == LENGTH_DELIMITED && delimited(input@) == Some(
                (bytes@, rest@),
            ),
            Err(_) => wire_type != LENGTH_DELIMITED || delimited(input@) is None,
        },
{
    let mut rest: &[u8] = input;
    let mut bytes: Vec<u8> = Vec::new();
    let wire_type = WireType::try_from(wire_type)?;
    prost::encoding::bytes::merge(wire_type, &mut bytes, &mut rest, DecodeContext::default())?;
    Ok((bytes, rest))
}

/// Calls `prost::encoding::string::merge`, which takes bytes with their length off the buffer as
/// `prost::encoding::bytes::merge` does, and refuses them unless they are UTF-8.
#[verifier::external_body]
pub(crate) fn read_text<'a>(wire_type: u64, input: &'a [u8]) -> (res: Result<
    (String, &'a [u8]),
    DecodeError,
>)
    ensures
        match res {
            Ok((text, rest)) => {
                &&& wire_type == LENGTH_DELIMITED
                &&& delimited(input@) matches Some((bytes, behind))
                &&& valid_utf8(bytes)
                &&& text@ == decode_utf8(bytes)
                &&& rest@ == behind
            },
            Err(_) => wire_type != LENGTH_DELIMITED || match delimited(input@) {
                Some((bytes, _)) => !valid_utf8(bytes),
                None => true,
            },
        },
{
    let mut rest: &[u8] = input;
    let mut text: String = String::new();
    let wire_type = WireType::try_from(wire_type)?;
    prost::encoding::string::merge(wire_type, &mut text, &mut rest, DecodeContext::default())?;
    Ok((text, rest))
}

/// Calls `prost::encoding::skip_field` on a value that is not a group. It takes the value off the
/// buffer and drops it: a number, four bytes, eight bytes, or bytes with their length. A closing
/// key in the place of a field is refused.
#[verifier::external_body]
fn skip_plain<'a>(wire_type: u64, tag: u32, input: &'a [u8]) -> (res: Result<&'a [u8], DecodeError>)
    requires
        wire_type != START_GROUP,
    ensures
        match res {
            Ok(rest) => skipped_plain(wire_type, input@) == Some(rest@),
            Err(_) => skipped_plain(wire_type, input@) is None,
        },
{
    let mut rest: &[u8] = input;
    let wire_type = WireType::try_from(wire_type)?;
    prost::encoding::skip_field(wire_type, tag, &mut rest, DecodeContext::default())?;
    Ok(rest)
}

/// Calls `prost::DecodeError::new`, which makes an error with the given description. Errors are
/// opaque here, so that nothing is claimed of the result.
#[verifier::external_body]
pub(crate) fn new_error(description: &'static str) -> (res: DecodeError) {
    DecodeError::new(description)
}

/// Calls `prost::DecodeError::push`, which notes on an error the message and the field that it
/// came up in. Errors are opaque here, so that nothing is claimed of the result.
#[verifier::external_body]
pub(crate) fn at_field(err: DecodeError, message: &'static str, field: &'static str) -> (res:
    DecodeError) {
    let mut err = err;
    err.push(message, field);
    err
}

/// A call that gives an error, with what it is handed.
pub enum FailedCall {
    /// [`read_key`] on some input.
    Key { input: Seq<u8> },
    /// [`read_number`] with an encoding type, on some input.
    Number { wire_type: u64, input: Seq<u8> },
    /// [`read_bytes`] with an encoding type, on some input.
    Bytes { wire_type: u64, input: Seq<u8> },
    /// [`read_text`] with an encoding type, on some input.
    Text { wire_type: u64, input: Seq<u8> },
    /// [`skip_plain`] with an encoding type and a tag, on some input.
    Skip { wire_type: u64, tag: u32, input: Seq<u8> },
    /// [`new_error`] with a description.
    New { description: &'static str },
}

/// The error is one that [`read_key`] gives.
spec fn key_error(input: Seq<u8>, err: DecodeError) -> bool {
    exists|bytes: &[u8]|
        bytes@ == input && #[trigger] call_ensures(
            read_key,
            (bytes,),
            Err::<(u32, u64, &[u8]), DecodeError>(err),
        )
}

/// The error is one that [`read_number`] gives.
spec fn number_error(wire_type: u64, input: Seq<u8>, err: DecodeError) -> bool {
    exists|bytes: &[u8]|
        bytes@ == input && #[trigger] call_ensures(
            read_number,
            (wire_type, bytes),
            Err::<(u64, &[u8]), DecodeError>(err),
        )
}

/// The error is one that [`read_bytes`] gives.
spec fn bytes_error(wire_type: u64, input: Seq<u8>, err: DecodeError) -> bool {
    exists|bytes: &[u8]|
        bytes@ == input && #[trigger] call_ensures(
            read_bytes,
            (wire_type, bytes),
            Err::<(Vec<u8>, &[u8]), DecodeError>(err),
        )
}

/// The error is one that [`read_text`] gives.
spec fn text_error(wire_type: u64, input: Seq<u8>, err: DecodeError) -> bool {
    exists|bytes: &[u8]|
        bytes@ == input && #[trigger] call_ensures(
            read_text,
            (wire_type, bytes),
            Err::<(String, &[u8]), DecodeError>(err),
        )
}

/// The error is one that [`skip_plain`] gives.
spec fn skip_error(wire_type: u64, tag: u32, input: Seq<u8>, err: DecodeError) -> bool {
    exists|bytes: &[u8]|
        bytes@ == input && #[trigger] call_ensures(
            skip_plain,
            (wire_type, tag, bytes),
            Err::<&[u8], DecodeError>(err),
        )
}

impl FailedCall {
    /// The error is one that the call gives.
    pub closed spec fn gives(self, err: DecodeError) -> bool {
        match self {
            FailedCall::Key { input } => key_error(input, err),
            FailedCall::Number { wire_type, input } => number_error(wire_type, input, err),
            FailedCall::Bytes { wire_type, input } => bytes_error(wire_type, input, err),
            FailedCall::Text { wire_type, input } => text_error(wire_type, input, err),
            FailedCall::Skip { wire_type, tag, input } => skip_error(wire_type, tag, input, err),
            FailedCall::New { description } => call_ensures(new_error, (description,), err),
        }
    }
}

/// An error that a call gave is one that the call gives.
pub(crate) proof fn lemma_key_error(bytes: &[u8], err: DecodeError)
    requires
        call_ensures(read_key, (bytes,), Err::<(u32, u64, &[u8]), DecodeError>(err)),
    ensures
        (FailedCall::Key { input: bytes@ }).gives(err),
{
}

pub(crate) proof fn lemma_number_error(wire_type: u64, bytes: &[u8], err: DecodeError)
    requires
        call_ensures(read_number, (wire_type, bytes), Err::<(u64, &[u8]), DecodeError>(err)),
    ensures
        (FailedCall::Number { wire_type, input: bytes@ }).gives(err),
{
}

pub(crate) proof fn lemma_bytes_error(wire_type: u64, bytes: &[u8], err: DecodeError)
    requires
        call_ensures(read_bytes, (wire_type, bytes), Err::<(Vec<u8>, &[u8]), DecodeError>(err)),
    ensures
        (FailedCall::Bytes { wire_type, input: bytes@ }).gives(err),
{
}

pub(crate) proof fn lemma_text_error(wire_type: u64, bytes: &[u8], err: DecodeError)
    requires
        call_ensures(read_text, (wire_type, bytes), Err::<(String, &[u8]), DecodeError>(err)),
    ensures
        (FailedCall::Text { wire_type, input: bytes@ }).gives(err),
{
}

pub(crate) proof fn lemma_new_error(description: &'static str, err: DecodeError)
    requires
        call_ensures(new_error, (description,), err),
    ensures
        (FailedCall::New { description }).gives(err),
{
}

/// The call that fails in the rest of a group that cannot be passed over.
pub open spec fn group_failure(tag: u32, input: Seq<u8>, depth: nat) -> FailedCall
    decreases depth, input.len(), 0nat,
{
    match key(input) {
        Some((inner_tag, wire_type, rest)) => if wire_type == END_GROUP {
            FailedCall::New { description: "unexpected end group tag" }
        } else if depth == 0 {
            FailedCall::New { description: "recursion limit reached" }
        } else {
            match skipped(wire_type, inner_tag, rest, (depth - 1) as nat) {
                Some(behind) => {
                    proof {
                        lemma_varint_shrinks(input);
                        lemma_skipped_shrinks(wire_type, inner_tag, rest, (depth - 1) as nat);
                    }
                    group_failure(tag, behind, depth)
                },
                None => skip_failure(wire_type, inner_tag, rest, (depth - 1) as nat),
            }
        },
        None => FailedCall::Key { input },
    }
}

/// The call that fails on a value that cannot be passed over.
pub open spec fn skip_failure(wire_type: u64, tag: u32, input: Seq<u8>, depth: nat) -> FailedCall
    decreases depth, input.len(), 1nat,
{
    if depth == 0 {
        FailedCall::New { description: "recursion limit reached" }
    } else if wire_type == START_GROUP {
        group_failure(tag, input, depth)
    } else {
        FailedCall::Skip { wire_type, tag, input }
    }
}

/// Passes over a value of the given encoding type. The depth to which groups may still be nested
/// takes the messages around them into account. From outside its crate
/// `prost::encoding::skip_field` can only be called as if there were none, so that groups are
/// taken apart here, and only what they hold is handed on.
pub fn skip_value<'a>(wire_type: u64, tag: u32, input: &'a [u8], depth: u32) -> (res: Result<
    &'a [u8],
    DecodeError,
>)
    ensures
        match res {
            Ok(rest) => skipped(wire_type, tag, input@, depth as nat) == Some(rest@),
            Err(err) => {
                &&& skipped(wire_type, tag, input@, depth as nat) is None
                &&& skip_failure(wire_type, tag, input@, depth as nat).gives(err)
            },
        },
    decreases depth,
{
    if depth == 0 {
        return Err(new_error("recursion limit reached"));
    }
    if wire_type != START_GROUP {
        return match skip_plain(wire_type, tag, input) {
            Ok(rest) => Ok(rest),
            Err(err) => {
                assert(call_ensures(
                    skip_plain,
                    (wire_type, tag, input),
                    Err::<&[u8], DecodeError>(err),
                ));
                Err(err)
            },
        };
    }
    let mut left: &[u8] = input;
    loop
        invariant
            depth > 0,
            skipped(wire_type, tag, input@, depth as nat) == skipped_group(
                tag,
                left@,
                depth as nat,
            ),
            skip_failure(wire_type, tag, input@, depth as nat) == group_failure(
                tag,
                left@,
                depth as nat,
            ),
        decreases left@.len(),
    {
        let (inner_tag, inner_type, rest) = match read_key(left) {
            Ok(found) => found,
            Err(err) => return Err(err),
        };
        proof {
            lemma_varint_shrinks(left@);
        }
        if inner_type == END_GROUP {
            if inner_tag == tag {
                return Ok(rest);
            }
            return Err(new_error("unexpected end group tag"));
        }
        let behind = match skip_value(inner_type, inner_tag, rest, depth - 1) {
            Ok(behind) => behind,
            Err(err) => return Err(err),
        };
        proof {
            lemma_skipped_shrinks(inner_type, inner_tag, rest@, (depth - 1) as nat);
        }
        left = behind;
    }
}

/// Behind a number there is less input.
pub proof fn lemma_varint_shrinks(input: Seq<u8>)
    ensures
        varint(input) matches Some((_, rest)) ==> rest.len() < input.len(),
{
}

/// Behind a group there is less input.
pub proof fn lemma_skipped_group_shrinks(tag: u32, input: Seq<u8>, depth: nat)
    ensures
        skipped_group(tag, input, depth) matches Some(rest) ==> rest.len() < input.len(),
    decreases input.len(),
{
    lemma_varint_shrinks(input);
    if let Some((inner_tag, wire_type, rest)) = key(input) {
        if wire_type != END_GROUP && depth > 0 {
            if let Some(behind) = skipped(wire_type, inner_tag, rest, (depth - 1) as nat) {
                if behind.len() < input.len() {
                    lemma_skipped_group_shrinks(tag, behind, depth);
                }
            }
        }
    }
}

/// Behind a value there is no more input.
pub proof fn lemma_skipped_shrinks(wire_type: u64, tag: u32, input: Seq<u8>, depth: nat)
    ensures
        skipped(wire_type, tag, input, depth) matches Some(rest) ==> rest.len() <= input.len(),
{
    lemma_varint_shrinks(input);
    lemma_skipped_group_shrinks(tag, input, depth);
}

} // verus!
