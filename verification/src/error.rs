//! The ways in which a payload can fail to decode.

use vstd::prelude::*;

verus! {

/// Why a decode was given up.
#[derive(Debug, Clone, Copy, PartialEq, Eq, Hash, Structural)]
pub enum DecodeError {
    /// Fewer bytes remain than the next read needs.
    BufferTooShort,
    /// The bytes of a text field are not UTF-8.
    InvalidUtf8,
    /// The tag of a tagged union names none of its variants.
    UnknownVariant,
    /// The address list has no text at an index that the record needs.
    MissingAccount,
    /// The payload does not have the shape of the record in some other way,
    /// such as bytes left over behind a record that must fill its payload.
    SchemaMismatch,
}

/// True when `r` is the failure `e`.
pub open spec fn fails_with<T>(r: Result<T, DecodeError>, e: DecodeError) -> bool {
    r matches Err(err) && err == e
}

/// True when `read` is the value `v` with `next` as the position behind it.
pub open spec fn gives<T>(read: Result<(T, int), DecodeError>, v: T, next: int) -> bool {
    read == Ok::<(T, int), DecodeError>((v, next))
}

/// True when `r` is the record `v`.
pub open spec fn holds<T>(r: Result<T, DecodeError>, v: T) -> bool {
    r == Ok::<T, DecodeError>(v)
}

impl DecodeError {
    /// A short description for the caller.
    pub fn message(&self) -> (text: &'static str)
        ensures
            text@ == match *self {
                DecodeError::BufferTooShort => "data too short"@,
                DecodeError::InvalidUtf8 => "invalid UTF-8"@,
                DecodeError::UnknownVariant => "unknown variant"@,
                DecodeError::MissingAccount => "missing account"@,
                DecodeError::SchemaMismatch => "schema mismatch"@,
            },
    {
        match self {
            DecodeError::BufferTooShort => "data too short",
            DecodeError::InvalidUtf8 => "invalid UTF-8",
            DecodeError::UnknownVariant => "unknown variant",
            DecodeError::MissingAccount => "missing account",
            DecodeError::SchemaMismatch => "schema mismatch",
        }
    }
}

} // verus!
