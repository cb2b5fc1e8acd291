//! A byte-exact encoder/decoder for a length-prefixed binary client-server
//! protocol (the Minecraft Java-edition wire format), together with the
//! session state machine that drives one connection from the initial
//! handshake through a status or login exchange into the play state.
//!
//! The crate is pure: every function here computes on plain values.  The
//! surrounding program owns the sockets, reads whole frames into byte
//! queues, hands them to this library, and writes back the frames the
//! library builds.

pub mod client_settings;
pub mod coding;
pub mod connection;
pub mod difficulty;
pub mod dimension;
pub mod entity;
pub mod error;
pub mod ip;
pub mod location;
pub mod packet;
pub mod player;
pub mod plugin_message;
pub mod world;

use vstd::prelude::*;

verus! {

/// Guards the total length announced by a frame or a string: the protocol
/// rejects empty and negative sizes outright.
pub fn ensure_data_size(size: i32) -> (r: Result<(), error::ProtocolError>)
    ensures
        r == if size <= 0 {
            Err::<(), error::ProtocolError>(error::ProtocolError::EmptyOrNegativeLength)
        } else {
            Ok::<(), error::ProtocolError>(())
        },
{
    if size <= 0 {
        Err(error::ProtocolError::EmptyOrNegativeLength)
    } else {
        Ok(())
    }
}

} // verus!
