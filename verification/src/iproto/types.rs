//! The errors of the codec.

use vstd::prelude::*;
use crate::iproto::constants::Field;

verus! {

/// Why a request could not be packed or a response could not be decoded.
#[derive(Debug, Clone, Copy, PartialEq, Eq, Structural)]
pub enum Error {
    /// The response has no body to decode.
    EmptyBody,
    /// The bytes end early, or are not the MessagePack that is expected at
    /// this place.
    Malformed,
    /// A map is keyed by a code that the catalog does not have, or by a field
    /// that the decoder cannot use; the code comes with it.
    UnexpectedField(u64),
    /// A known field holds a value outside its range.
    UnexpectedValue(Field),
    /// A body of a fixed shape has another number of entries.
    WrongMapLen { expected: u32, found: u32 },
    /// A string of the response is not UTF-8.
    InvalidUtf8,
    /// A string, byte string or array is longer than the 32 bits that the
    /// format has for a length.
    TooLong,
}

} // verus!
