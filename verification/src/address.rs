//! Keys as base-58 text.

use vstd::prelude::*;
use crate::wire::KEY_LEN;

verus! {

/// The base-58 text of a byte sequence in the Bitcoin alphabet, as the
/// `bs58` crate writes it.
pub uninterp spec fn base58_text(bytes: Seq<u8>) -> Seq<char>;

/// `bs58::encode(..).into_string()` on a key: the result is the base-58 text
/// of the key's bytes, and depends on nothing else.
#[verifier::external_body]
pub(crate) fn key_text(key: &[u8]) -> (text: String)
    requires
        key@.len() == KEY_LEN,
    ensures
        text@ == base58_text(key@),
{
    bs58::encode(key).into_string()
}

} // verus!
