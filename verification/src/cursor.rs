//! A read position over a borrowed byte buffer.
//!
//! Every read checks first that the bytes it needs are there. A read that
//! fails leaves the cursor where it was.

use vstd::prelude::*;
use vstd::slice::slice_subrange;
use vstd::utf8::encode_utf8_decode_utf8;
use crate::address::{base58_text, key_text};
use crate::error::DecodeError;
use crate::wire::{available, fixed_at, flag_at, key_at, text_at, u32_at, u64_at, u8_at, KEY_LEN};

verus! {

/// A buffer and the position of the next byte to read.
#[derive(Clone, Copy)]
pub struct Cursor<'a> {
    buf: &'a [u8],
    pos: usize,
}

impl<'a> Cursor<'a> {
    #[verifier::type_invariant]
    spec fn in_bounds(self) -> bool {
        self.pos <= self.buf@.len()
    }

    /// The bytes of the buffer.
    pub closed spec fn bytes(self) -> Seq<u8> {
        self.buf@
    }

    /// The position of the next byte to read.
    pub closed spec fn position(self) -> int {
        self.pos as int
    }

    /// A cursor at the start of `buf`.
    pub fn new(buf: &'a [u8]) -> (cur: Self)
        ensures
            cur.bytes() == buf@,
            cur.position() == 0,
    {
        Cursor { buf, pos: 0 }
    }

    /// The position of the next byte to read.
    pub fn offset(&self) -> (pos: usize)
        ensures
            pos == self.position(),
            pos <= self.bytes().len(),
    {
        proof {
            use_type_invariant(self);
        }
        self.pos
    }

    /// The number of bytes not yet read.
    pub fn remaining(&self) -> (n: usize)
        ensures
            n == self.bytes().len() - self.position(),
    {
        proof {
            use_type_invariant(self);
        }
        self.buf.len() - self.pos
    }

    /// Reads the next `n` bytes.
    pub fn read_le(&mut self, n: usize) -> (r: Result<&'a [u8], DecodeError>)
        ensures
            final(self).bytes() == old(self).bytes(),
            fixed_at(old(self).bytes(), old(self).position(), n as int) == (match r {
                Ok(b) => Ok((b@, final(self).position())),
                Err(e) => Err(e),
            }),
            r is Err ==> final(self).position() == old(self).position(),
    {
        proof {
            use_type_invariant(&*self);
        }
        if self.buf.len() - self.pos < n {
            return Err(DecodeError::BufferTooShort);
        }
        let end: usize = self.pos + n;
        let out = slice_subrange(self.buf, self.pos, end);
        self.pos = end;
        Ok(out)
    }

    /// Passes over the next `n` bytes.
    pub fn skip(&mut self, n: usize) -> (r: Result<(), DecodeError>)
        ensures
            final(self).bytes() == old(self).bytes(),
            match r {
                Ok(_) => available(old(self).bytes(), old(self).position(), n as int)
                    && final(self).position() == old(self).position() + n,
                Err(e) => !available(old(self).bytes(), old(self).position(), n as int) && e
                    == DecodeError::BufferTooShort && final(self).position() == old(
                    self,
                ).position(),
            },
    {
        match self.read_le(n) {
            Ok(_) => Ok(()),
            Err(e) => Err(e),
        }
    }

    /// Reads one byte.
    pub fn read_u8(&mut self) -> (r: Result<u8, DecodeError>)
        ensures
            final(self).bytes() == old(self).bytes(),
            u8_at(old(self).bytes(), old(self).position()) == (match r {
                Ok(v) => Ok((v, final(self).position())),
                Err(e) => Err(e),
            }),
            r is Err ==> final(self).position() == old(self).position(),
    {
        match self.read_le(1) {
            Ok(b) => Ok(b[0]),
            Err(e) => Err(e),
        }
    }

    /// Reads a flag: one byte, set unless it is zero.
    pub fn read_bool(&mut self) -> (r: Result<bool, DecodeError>)
        ensures
            final(self).bytes() == old(self).bytes(),
            flag_at(old(self).bytes(), old(self).position()) == (match r {
                Ok(v) => Ok((v, final(self).position())),
                Err(e) => Err(e),
            }),
            r is Err ==> final(self).position() == old(self).position(),
    {
        match self.read_u8() {
            Ok(b) => Ok(b != 0),
            Err(e) => Err(e),
        }
    }

    /// Reads a little-endian `u32`.
    pub fn read_u32(&mut self) -> (r: Result<u32, DecodeError>)
        ensures
            final(self).bytes() == old(self).bytes(),
            u32_at(old(self).bytes(), old(self).position()) == (match r {
                Ok(v) => Ok((v, final(self).position())),
                Err(e) => Err(e),
            }),
            r is Err ==> final(self).position() == old(self).position(),
    {
        match self.read_le(4) {
            Ok(b) => {
                let v: u32 = b[0] as u32 + 0x100 * (b[1] as u32) + 0x1_0000 * (b[2] as u32)
                    + 0x100_0000 * (b[3] as u32);
                Ok(v)
            },
            Err(e) => Err(e),
        }
    }

    /// Reads a little-endian `u64`.
    pub fn read_u64(&mut self) -> (r: Result<u64, DecodeError>)
        ensures
            final(self).bytes() == old(self).bytes(),
            u64_at(old(self).bytes(), old(self).position()) == (match r {
                Ok(v) => Ok((v, final(self).position())),
                Err(e) => Err(e),
            }),
            r is Err ==> final(self).position() == old(self).position(),
    {
        match self.read_le(8) {
            Ok(b) => {
                let v: u64 = b[0] as u64 + 0x100 * (b[1] as u64) + 0x1_0000 * (b[2] as u64)
                    + 0x100_0000 * (b[3] as u64) + 0x1_0000_0000 * (b[4] as u64)
                    + 0x100_0000_0000 * (b[5] as u64) + 0x1_0000_0000_0000 * (b[6] as u64)
                    + 0x100_0000_0000_0000 * (b[7] as u64);
                Ok(v)
            },
            Err(e) => Err(e),
        }
    }

    /// Reads a text: a little-endian `u32` length, then that many bytes of
    /// UTF-8.
    pub fn read_string(&mut self) -> (r: Result<String, DecodeError>)
        ensures
            final(self).bytes() == old(self).bytes(),
            text_at(old(self).bytes(), old(self).position()) == (match r {
                Ok(s) => Ok((s@, final(self).position())),
                Err(e) => Err(e),
            }),
            r is Err ==> final(self).position() == old(self).position(),
    {
        proof {
            use_type_invariant(&*self);
        }
        let start: usize = self.pos;
        let len: usize = match self.read_u32() {
            Ok(v) => v as usize,
            Err(e) => {
                return Err(e);
            },
        };
        let body = match self.read_le(len) {
            Ok(b) => b,
            Err(e) => {
                self.pos = start;
                return Err(e);
            },
        };
        match core::str::from_utf8(body) {
            Ok(s) => {
                proof {
                    encode_utf8_decode_utf8(s@);
                }
                Ok(s.to_owned())
            },
            Err(_) => {
                self.pos = start;
                Err(DecodeError::InvalidUtf8)
            },
        }
    }

    /// Reads a 32-byte key and writes it as base-58 text.
    pub fn read_pubkey(&mut self) -> (r: Result<String, DecodeError>)
        ensures
            final(self).bytes() == old(self).bytes(),
            match r {
                Ok(s) => key_at(old(self).bytes(), old(self).position()) matches Ok((key, next))
                    && s@ == base58_text(key) && final(self).position() == next,
                Err(e) => key_at(old(self).bytes(), old(self).position()) matches Err(err) && err
                    == e && final(self).position() == old(self).position(),
            },
    {
        match self.read_le(KEY_LEN) {
            Ok(key) => Ok(key_text(key)),
            Err(e) => Err(e),
        }
    }
}

} // verus!
