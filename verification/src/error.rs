//! The protocol's error kinds.  Every failure aborts the connection; no
//! error is retried or corrected.

use vstd::prelude::*;

verus! {

/// Everything that can go wrong while decoding wire data or while driving
/// the session state machine.
#[derive(PartialEq, Eq, Structural, Clone, Copy, Debug)]
pub enum ProtocolError {
    /// Fewer bytes were available than a field declares or requires.
    Truncated,
    /// A variable-length integer ran over its five-group limit.
    Overflow,
    /// A frame or string announced a length of zero or less.
    EmptyOrNegativeLength,
    /// A byte or packet id outside the set that is valid at this point.
    InvalidData,
    /// A string exceeded the caller-supplied maximum byte length.
    TooLarge,
    /// A numeric field lies outside its permitted range.
    OutOfRange,
    /// The handshake's server address is not a valid IP address.
    InvalidAddress,
    /// The handshake's next-state field was neither status nor login.
    InvalidNextState,
    /// The client echoed a teleport id other than the one just sent.
    TeleportMismatch,
}

impl ProtocolError {
    /// A human-readable name for logs; the library itself never prints.
    pub fn describe(&self) -> (r: &'static str)
        ensures
            true,
    {
        match self {
            ProtocolError::Truncated => "not enough bytes to decode the field",
            ProtocolError::Overflow => "varint is too big",
            ProtocolError::EmptyOrNegativeLength => "length of zero (or less)",
            ProtocolError::InvalidData => "invalid or unexpected data",
            ProtocolError::TooLarge => "string is too large",
            ProtocolError::OutOfRange => "value outside its valid range",
            ProtocolError::InvalidAddress => "invalid ip address given",
            ProtocolError::InvalidNextState => "the next state may only be 1 or 2",
            ProtocolError::TeleportMismatch => "teleport id sent by client did not match",
        }
    }
}

} // verus!
