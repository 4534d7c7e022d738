//! The wire format of single fields, as functions on byte sequences.
//!
//! A field is read at a position of a buffer. The outcome is either the
//! field's value together with the position behind it, or the reason why the
//! bytes at that position are no such field. Each field kind also has its
//! writer, the function from a value to the bytes that stand for it.

use vstd::prelude::*;
use vstd::utf8::{decode_utf8, encode_utf8, valid_utf8};
use crate::error::DecodeError;

verus! {

/// Length of the tag in front of every payload.
pub const DISCRIMINATOR_LEN: usize = 8;

/// Length of a key.
pub const KEY_LEN: usize = 32;

/// True when `n` bytes stand in `buf` from `pos` on.
pub open spec fn available(buf: Seq<u8>, pos: int, n: int) -> bool {
    0 <= pos && 0 <= n && pos + n <= buf.len()
}

/// The number that four bytes stand for, least significant byte first.
pub open spec fn le_u32(b: Seq<u8>) -> int
    recommends
        b.len() == 4,
{
    b[0] + 0x100 * b[1] + 0x1_0000 * b[2] + 0x100_0000 * b[3]
}

/// The number that eight bytes stand for, least significant byte first.
pub open spec fn le_u64(b: Seq<u8>) -> int
    recommends
        b.len() == 8,
{
    b[0] + 0x100 * b[1] + 0x1_0000 * b[2] + 0x100_0000 * b[3] + 0x1_0000_0000 * b[4]
        + 0x100_0000_0000 * b[5] + 0x1_0000_0000_0000 * b[6] + 0x100_0000_0000_0000 * b[7]
}

/// The four bytes that stand for `v`, least significant byte first.
#[verifier::opaque]
pub open spec fn u32_le(v: u32) -> Seq<u8> {
    seq![
        (v % 0x100) as u8,
        (v / 0x100 % 0x100) as u8,
        (v / 0x1_0000 % 0x100) as u8,
        (v / 0x100_0000 % 0x100) as u8,
    ]
}

/// The eight bytes that stand for `v`, least significant byte first.
#[verifier::opaque]
pub open spec fn u64_le(v: u64) -> Seq<u8> {
    seq![
        (v % 0x100) as u8,
        (v / 0x100 % 0x100) as u8,
        (v / 0x1_0000 % 0x100) as u8,
        (v / 0x100_0000 % 0x100) as u8,
        (v / 0x1_0000_0000 % 0x100) as u8,
        (v / 0x100_0000_0000 % 0x100) as u8,
        (v / 0x1_0000_0000_0000 % 0x100) as u8,
        (v / 0x100_0000_0000_0000 % 0x100) as u8,
    ]
}

/// The little-endian `u64` in the eight bytes of `buf` from `at` on.
pub open spec fn u64_in(buf: Seq<u8>, at: int) -> u64
    recommends
        available(buf, at, 8),
{
    le_u64(buf.subrange(at, at + 8)) as u64
}

/// The bytes that stand for a text: the length of its UTF-8 form as a
/// little-endian `u32`, then that form.
pub open spec fn text_bytes(text: Seq<char>) -> Seq<u8> {
    u32_le(encode_utf8(text).len() as u32) + encode_utf8(text)
}

/// True when the UTF-8 form of `text` is short enough for its length prefix.
pub open spec fn text_fits(text: Seq<char>) -> bool {
    encode_utf8(text).len() <= u32::MAX
}

/// The `n` bytes at `pos`.
pub open spec fn fixed_at(buf: Seq<u8>, pos: int, n: int) -> Result<(Seq<u8>, int), DecodeError> {
    if available(buf, pos, n) {
        Ok((buf.subrange(pos, pos + n), pos + n))
    } else {
        Err(DecodeError::BufferTooShort)
    }
}

/// The byte at `pos`.
pub open spec fn u8_at(buf: Seq<u8>, pos: int) -> Result<(u8, int), DecodeError> {
    match fixed_at(buf, pos, 1) {
        Ok((b, next)) => Ok((b[0], next)),
        Err(e) => Err(e),
    }
}

/// The flag at `pos`: one byte, set unless it is zero.
pub open spec fn flag_at(buf: Seq<u8>, pos: int) -> Result<(bool, int), DecodeError> {
    match u8_at(buf, pos) {
        Ok((b, next)) => Ok((b != 0, next)),
        Err(e) => Err(e),
    }
}

/// The little-endian `u32` at `pos`.
pub open spec fn u32_at(buf: Seq<u8>, pos: int) -> Result<(u32, int), DecodeError> {
    match fixed_at(buf, pos, 4) {
        Ok((b, next)) => Ok((le_u32(b) as u32, next)),
        Err(e) => Err(e),
    }
}

/// The little-endian `u64` at `pos`.
pub open spec fn u64_at(buf: Seq<u8>, pos: int) -> Result<(u64, int), DecodeError> {
    match fixed_at(buf, pos, 8) {
        Ok((b, next)) => Ok((le_u64(b) as u64, next)),
        Err(e) => Err(e),
    }
}

/// The 32-byte key at `pos`.
pub open spec fn key_at(buf: Seq<u8>, pos: int) -> Result<(Seq<u8>, int), DecodeError> {
    fixed_at(buf, pos, KEY_LEN as int)
}

/// The text at `pos`: a little-endian `u32` length, then that many bytes of
/// UTF-8. A length that reaches past the end of the buffer is reported before
/// the bytes are looked at.
pub open spec fn text_at(buf: Seq<u8>, pos: int) -> Result<(Seq<char>, int), DecodeError> {
    match u32_at(buf, pos) {
        Ok((len, body)) => match fixed_at(buf, body, len as int) {
            Ok((bytes, next)) => if valid_utf8(bytes) {
                Ok((decode_utf8(bytes), next))
            } else {
                Err(DecodeError::InvalidUtf8)
            },
            Err(e) => Err(e),
        },
        Err(e) => Err(e),
    }
}

/// What follows the discriminator of `data`, where `data` is long enough to
/// hold one.
pub open spec fn body_of(data: Seq<u8>) -> Result<Seq<u8>, DecodeError> {
    if data.len() >= DISCRIMINATOR_LEN {
        Ok(data.subrange(DISCRIMINATOR_LEN as int, data.len() as int))
    } else {
        Err(DecodeError::BufferTooShort)
    }
}

} // verus!
