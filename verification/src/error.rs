//! What can go wrong with a call.

use vstd::prelude::*;

verus! {

/// Why a reply's body is not the record that was asked for.
#[derive(Debug)]
pub enum DecodeError {
    /// The body is not a JSON document; the codec's own error says where.
    Malformed(serde_json::Error),
    /// The body is a JSON document of another shape: a required field is
    /// missing, or a field holds a value of the wrong type.
    Mismatch,
}

/// Why a call failed. `E` is the transport's own error type; the library
/// carries it and never looks inside.
#[derive(Debug)]
pub enum SapiError<E> {
    /// No reply arrived: connection, TLS or timeout failure.
    Transport(E),
    /// A reply arrived and its body could not be decoded.
    Decode(DecodeError),
}

} // verus!
