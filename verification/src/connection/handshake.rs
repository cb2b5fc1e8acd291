//! The handshake's next-state choice and the static status (server list
//! ping) payload.  Turning the payload into JSON is the embedding
//! program's business; this library only length-prefixes the resulting
//! string onto the wire.

use vstd::prelude::*;

verus! {

/// Where the client wants to go after the handshake.
#[derive(PartialEq, Eq, Structural, Clone, Copy, Debug)]
pub enum HandshakeNextState {
    Status,
    Login,
}

/// The version block of a status response.
#[derive(Debug)]
pub struct ServerListPingVersion {
    pub name: String,
    pub protocol: u16,
}

/// The players block of a status response.
#[derive(Debug)]
pub struct ServerListPingPlayers {
    pub max: u16,
    pub online: u16,
    pub sample: Vec<()>,
}

/// The description block of a status response.
#[derive(Debug)]
pub struct ServerListPingDescription {
    pub text: String,
}

/// A whole status response.
#[derive(Debug)]
pub struct ServerListPingResponse {
    pub version: ServerListPingVersion,
    pub players: ServerListPingPlayers,
    pub description: ServerListPingDescription,
}

/// The fixed status payload this server answers with.
pub fn mock_slp() -> (r: ServerListPingResponse)
    ensures
        r.version.name@ == "1.13.1"@,
        r.version.protocol == 404,
        r.players.max == 100,
        r.players.online == 5,
        r.players.sample@.len() == 0,
        r.description.text@ == "Java edition doesn't necessarily mean everything is run by Java."@,
{
    ServerListPingResponse {
        version: ServerListPingVersion { name: String::from_str("1.13.1"), protocol: 404 },
        players: ServerListPingPlayers { max: 100, online: 5, sample: Vec::new() },
        description: ServerListPingDescription {
            text: String::from_str(
                "Java edition doesn't necessarily mean everything is run by Java.",
            ),
        },
    }
}

} // verus!
