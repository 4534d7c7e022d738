//! Decoders for the instruction and account payloads of several token-launch
//! programs.
//!
//! Every payload is a fixed sequence of little-endian integers,
//! length-prefixed UTF-8 texts and 32-byte keys behind an 8-byte
//! discriminator. The caller chooses the decoder; the decoder returns the
//! record or the reason why the bytes hold none.
//!
//! - [`wire`] states the format of single fields as functions on byte
//!   sequences, and [`layout`] the format of each record and payload.
//! - [`cursor`] holds the bounds-checked reads and [`decode`] the decoders;
//!   what they return is stated by the functions of `wire` and `layout`.
//! - [`records`] holds the records, [`boundary`] the form in which a record
//!   is handed to the caller, and [`error`] the failures.
//! - [`laws`] and [`payload_laws`] prove what holds of the formats: reading
//!   and writing undo each other, and a payload cut short does not decode.
//! - [`text`] and [`address`] hold what is taken on trust: UTF-8 validation
//!   by the standard library and base-58 encoding by `bs58`.

pub mod address;
pub mod boundary;
pub mod cursor;
pub mod decode;
pub mod error;
pub mod laws;
pub mod layout;
pub mod payload_laws;
pub mod records;
pub mod text;
pub mod wire;
