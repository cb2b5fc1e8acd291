//! One connection's identity and protocol state, and the packet-level
//! steps that drive it: the handshake, the status exchange, and the
//! beginning of the login flow.
//!
//! Every function here works on whole frames the transport has already
//! read; the embedding program performs the reads and writes and hands
//! the frames across.

pub mod handshake;

use crate::coding::short::ushort_scan;
use crate::coding::string::{string_bytes, string_scan};
use crate::coding::varint::{varint_parse, Varint};
use crate::entity::IdCounter;
use crate::error::ProtocolError;
use crate::ip::{ip_of, IpAddress, ServerAddress};
use crate::packet::{Packet, PacketData};
use handshake::HandshakeNextState;
use vstd::prelude::*;

verus! {

/// A connection's serial number, drawn from a shared counter.
#[derive(PartialEq, Eq, Structural, Clone, Copy, Debug)]
pub struct ConnectionId {
    pub value: usize,
}

impl ConnectionId {
    /// Draws the next connection id from the shared counter.
    pub fn new(counter: &mut IdCounter) -> (r: ConnectionId)
        ensures
            r.value == old(counter).value,
            final(counter).value == if old(counter).value == usize::MAX {
                0usize
            } else {
                (old(counter).value + 1) as usize
            },
    {
        ConnectionId { value: counter.fetch_add() }
    }
}

/// The phase a connection is in.  Status and login are traversal
/// branches; they do not linger as stored states.
#[derive(PartialEq, Eq, Structural, Clone, Copy, Debug)]
pub enum ConnectionState {
    Unknown,
    Handshaking,
    Play,
}

impl Default for ConnectionState {
    fn default() -> (r: ConnectionState)
        ensures
            r == ConnectionState::Unknown,
    {
        ConnectionState::Unknown
    }
}

/// One connection's protocol-visible state.  The transport itself (the
/// socket, its peer address, timing) lives with the embedding program.
pub struct Connection {
    pub connection_id: ConnectionId,
    pub state: ConnectionState,
    /// The protocol version specified by the client.
    pub protocol_version: Option<u16>,
    /// The server address the client used to connect, once validated.
    pub server_address: Option<ServerAddress>,
    pub username: Option<String>,
}

/// `localhost` rewritten to the loopback address; anything else kept.
pub open spec fn rewrite_localhost(s: Seq<char>) -> Seq<char> {
    if s == "localhost"@ {
        "127.0.0.1"@
    } else {
        s
    }
}

/// Everything the handshake decides: the returned next state or error,
/// and the connection fields as they stand afterwards.
pub struct HandshakeOutcome {
    pub result: Result<HandshakeNextState, ProtocolError>,
    pub state: ConnectionState,
    pub protocol_version: Option<u16>,
    pub server_address: Option<ServerAddress>,
}

/// The handshake, as a function of the incoming frame and the fields it
/// may touch.  The packet id must be zero.  The payload carries the
/// protocol version (a varint that must fit sixteen bits), the server
/// address (a string of at most 255 bytes, `localhost` rewritten to
/// `127.0.0.1`, then required to parse as an IP address), the port, and
/// the next state (1 for status, 2 for login).  Fields are recorded in
/// that order, so an early failure leaves later fields untouched.
pub open spec fn handshake_outcome(
    pre_state: ConnectionState,
    pre_version: Option<u16>,
    pre_address: Option<ServerAddress>,
    packet_id: i32,
    has_data: bool,
    data: Seq<u8>,
) -> HandshakeOutcome {
    if packet_id != 0 {
        HandshakeOutcome {
            result: Err(ProtocolError::InvalidData),
            state: pre_state,
            protocol_version: pre_version,
            server_address: pre_address,
        }
    } else if !has_data {
        HandshakeOutcome {
            result: Err(ProtocolError::InvalidData),
            state: ConnectionState::Handshaking,
            protocol_version: pre_version,
            server_address: pre_address,
        }
    } else {
        let pv = varint_parse(data);
        match pv.0 {
            Err(e) => HandshakeOutcome {
                result: Err(e),
                state: ConnectionState::Handshaking,
                protocol_version: pre_version,
                server_address: pre_address,
            },
            Ok(version) => {
                if version > 65535 || version < 0 {
                    HandshakeOutcome {
                        result: Err(ProtocolError::OutOfRange),
                        state: ConnectionState::Handshaking,
                        protocol_version: pre_version,
                        server_address: pre_address,
                    }
                } else {
                    let s1 = data.skip(pv.1);
                    let st = string_scan(s1, 255);
                    match st.0 {
                        Err(e) => HandshakeOutcome {
                            result: Err(e),
                            state: ConnectionState::Handshaking,
                            protocol_version: Some(version as u16),
                            server_address: pre_address,
                        },
                        Ok(raw_address) => {
                            let address = rewrite_localhost(raw_address);
                            match ip_of(address) {
                                None => HandshakeOutcome {
                                    result: Err(ProtocolError::InvalidAddress),
                                    state: ConnectionState::Handshaking,
                                    protocol_version: Some(version as u16),
                                    server_address: pre_address,
                                },
                                Some(ip) => {
                                    let s2 = s1.skip(st.1);
                                    let ps = ushort_scan(s2);
                                    match ps.0 {
                                        Err(e) => HandshakeOutcome {
                                            result: Err(e),
                                            state: ConnectionState::Handshaking,
                                            protocol_version: Some(version as u16),
                                            server_address: pre_address,
                                        },
                                        Ok(port) => {
                                            let s3 = s2.skip(ps.1);
                                            let ns = varint_parse(s3);
                                            match ns.0 {
                                                Err(e) => HandshakeOutcome {
                                                    result: Err(e),
                                                    state: ConnectionState::Handshaking,
                                                    protocol_version: Some(version as u16),
                                                    server_address: Some(
                                                        ServerAddress { ip, port },
                                                    ),
                                                },
                                                Ok(next) => {
                                                    if next == 1 || next == 2 {
                                                        HandshakeOutcome {
                                                            result: Ok(
                                                                if next == 1 {
                                                                    HandshakeNextState::Status
                                                                } else {
                                                                    HandshakeNextState::Login
                                                                },
                                                            ),
                                                            state: ConnectionState::Handshaking,
                                                            protocol_version: Some(
                                                                version as u16,
                                                            ),
                                                            server_address: Some(
                                                                ServerAddress { ip, port },
                                                            ),
                                                        }
                                                    } else {
                                                        HandshakeOutcome {
                                                            result: Err(
                                                                ProtocolError::InvalidNextState,
                                                            ),
                                                            state: ConnectionState::Handshaking,
                                                            protocol_version: Some(
                                                                version as u16,
                                                            ),
                                                            server_address: Some(
                                                                ServerAddress { ip, port },
                                                            ),
                                                        }
                                                    }
                                                },
                                            }
                                        },
                                    }
                                },
                            }
                        },
                    }
                }
            },
        }
    }
}

impl Connection {
    /// A fresh connection in the unknown state.
    pub fn new(connection_id: ConnectionId) -> (r: Connection)
        ensures
            r.connection_id == connection_id,
            r.state == ConnectionState::Unknown,
            r.protocol_version is None,
            r.server_address is None,
            r.username is None,
    {
        Connection {
            connection_id,
            state: ConnectionState::Unknown,
            protocol_version: None,
            server_address: None,
            username: None,
        }
    }

    /// Processes the client's handshake frame: validates the packet id,
    /// records the protocol version and the validated server address,
    /// and returns the next state the client asked for.
    pub fn do_handshake(&mut self, packet: Packet) -> (r: Result<
        HandshakeNextState,
        ProtocolError,
    >)
        ensures
            ({
                let oc = handshake_outcome(
                    old(self).state,
                    old(self).protocol_version,
                    old(self).server_address,
                    packet.packet_id.0,
                    packet.data matches PacketData::Data(_),
                    packet.data.bytes(),
                );
                r == oc.result && final(self).state == oc.state && final(self).protocol_version
                    == oc.protocol_version && final(self).server_address == oc.server_address
                    && final(self).username == old(self).username && final(self).connection_id
                    == old(self).connection_id
            }),
    {
        if packet.packet_id.0 != 0 {
            return Err(ProtocolError::InvalidData);
        }
        self.state = ConnectionState::Handshaking;
        let mut data = match packet.data {
            PacketData::Data(d) => d,
            _ => {
                return Err(ProtocolError::InvalidData);
            },
        };
        let ghost s0 = data@;
        proof {
            crate::coding::varint::lemma_varint_parse_consumed(s0);
        }
        let protocol_version = match Varint::decode(&mut data) {
            Err(e) => {
                return Err(e);
            },
            Ok(v) => v.0,
        };
        if protocol_version > 65535 || protocol_version < 0 {
            return Err(ProtocolError::OutOfRange);
        }
        self.protocol_version = Some(protocol_version as u16);
        let ghost c1 = varint_parse(s0).1;
        proof {
            crate::coding::string::lemma_string_scan_consumed(s0.skip(c1), 255);
        }
        let raw_address = match crate::coding::string::read_string(&mut data, 255) {
            Err(e) => {
                return Err(e);
            },
            Ok(v) => v,
        };
        let ghost c2 = c1 + string_scan(s0.skip(c1), 255).1;
        proof {
            crate::coding::lemma_skip_add(s0, c1, string_scan(s0.skip(c1), 255).1);
        }
        proof {
            reveal_strlit("localhost");
            reveal_strlit("127.0.0.1");
        }
        let address = if string_eq(raw_address.as_str(), "localhost") {
            String::from_str("127.0.0.1")
        } else {
            raw_address
        };
        let ip = match crate::ip::parse_ip(address.as_str()) {
            None => {
                return Err(ProtocolError::InvalidAddress);
            },
            Some(ip) => ip,
        };
        let port = match crate::coding::short::decode_unsigned(&mut data) {
            Err(e) => {
                return Err(e);
            },
            Ok(v) => v,
        };
        let ghost c3 = c2 + ushort_scan(s0.skip(c2)).1;
        proof {
            crate::coding::lemma_skip_add(s0, c2, ushort_scan(s0.skip(c2)).1);
        }
        self.server_address = Some(ServerAddress { ip, port });
        let next_state = match Varint::decode(&mut data) {
            Err(e) => {
                return Err(e);
            },
            Ok(v) => v.0,
        };
        if next_state == 1 {
            Ok(HandshakeNextState::Status)
        } else if next_state == 2 {
            Ok(HandshakeNextState::Login)
        } else {
            Err(ProtocolError::InvalidNextState)
        }
    }

    /// Checks the empty status-request frame: only packet id zero is
    /// accepted at this step.
    pub fn accept_status_request(&self, packet: &Packet) -> (r: Result<(), ProtocolError>)
        requires
            self.state == ConnectionState::Handshaking,
        ensures
            r == if packet.packet_id.0 == 0 {
                Ok::<(), ProtocolError>(())
            } else {
                Err::<(), ProtocolError>(ProtocolError::InvalidData)
            },
    {
        if packet.packet_id.0 == 0 {
            Ok(())
        } else {
            Err(ProtocolError::InvalidData)
        }
    }

    /// Builds the status-response frame around the given JSON text,
    /// which travels as a length-prefixed string.
    pub fn build_status_response(json: &str) -> (r: Packet)
        requires
            json@.len() <= 32767,
        ensures
            r.packet_id.0 == 0,
            r.data.bytes() == string_bytes(json@),
            r.data matches PacketData::Data(_),
            r.length == 0,
    {
        let payload = crate::coding::string::encode_str(json);
        Packet::from_id_and_data(Varint(0x00), PacketData::Data(payload))
    }

    /// Builds the pong for a ping frame: the same payload echoed back
    /// unchanged under packet id one.  Any other packet id is a
    /// protocol error.
    pub fn build_pong(packet: Packet) -> (r: Result<Packet, ProtocolError>)
        ensures
            packet.packet_id.0 == 1 && (packet.data matches PacketData::Data(_)) ==> (r matches Ok(
                pong,
            ) && pong.packet_id.0 == 1 && pong.data.bytes() == packet.data.bytes() && (
            pong.data matches PacketData::Data(_)) && pong.length == 0),
            !(packet.packet_id.0 == 1 && packet.data matches PacketData::Data(_)) ==> r == Err::<
                Packet,
                ProtocolError,
            >(ProtocolError::InvalidData),
    {
        if packet.packet_id.0 != 1 {
            return Err(ProtocolError::InvalidData);
        }
        match packet.data {
            PacketData::Data(d) => Ok(Packet::from_id_and_data(Varint(0x01), PacketData::Data(d))),
            _ => Err(ProtocolError::InvalidData),
        }
    }

    /// Reads the login-start frame: packet id zero carrying the
    /// username (at most sixteen bytes).  Records the username and
    /// returns it together with the placeholder account id this server
    /// hands every player.
    pub fn prepare_login(&mut self, packet: Packet) -> (r: Result<
        (String, String),
        ProtocolError,
    >)
        ensures
            final(self).connection_id == old(self).connection_id,
            final(self).state == old(self).state,
            final(self).protocol_version == old(self).protocol_version,
            final(self).server_address == old(self).server_address,
            ({
                let oc = login_start_outcome(
                    packet.packet_id.0,
                    packet.data matches PacketData::Data(_),
                    packet.data.bytes(),
                );
                match oc {
                    Ok(name) => r matches Ok(p) && p.0@ == name && p.1@ == player_uuid() && (
                    final(self).username matches Some(u) && u@ == name),
                    Err(e) => r == Err::<(String, String), ProtocolError>(e) && final(self).username
                        == old(self).username,
                }
            }),
    {
        if packet.packet_id.0 != 0 {
            return Err(ProtocolError::InvalidData);
        }
        let mut data = match packet.data {
            PacketData::Data(d) => d,
            _ => {
                return Err(ProtocolError::InvalidData);
            },
        };
        let username = match crate::coding::string::read_string(&mut data, 16) {
            Err(e) => {
                return Err(e);
            },
            Ok(v) => v,
        };
        proof {
            reveal_strlit("8e383e9f-608e-4556-97c9-61312c741ea0");
        }
        let uuid = String::from_str("8e383e9f-608e-4556-97c9-61312c741ea0");
        let name_again = username.clone();
        self.username = Some(name_again);
        Ok((username, uuid))
    }
}

/// The placeholder account id assigned to every player; this server
/// performs no real authentication.
pub open spec fn player_uuid() -> Seq<char> {
    "8e383e9f-608e-4556-97c9-61312c741ea0"@
}

/// What the login-start frame yields: the username, or the error.
pub open spec fn login_start_outcome(packet_id: i32, has_data: bool, data: Seq<u8>) -> Result<
    Seq<char>,
    ProtocolError,
> {
    if packet_id != 0 {
        Err(ProtocolError::InvalidData)
    } else if !has_data {
        Err(ProtocolError::InvalidData)
    } else {
        match string_scan(data, 16).0 {
            Err(e) => Err(e),
            Ok(name) => Ok(name),
        }
    }
}

/// Character-for-character string comparison.
fn string_eq(a: &str, b: &str) -> (r: bool)
    ensures
        r == (a@ == b@),
{
    let n = a.unicode_len();
    let m = b.unicode_len();
    if n != m {
        proof {
            assert(a@ != b@);
        }
        return false;
    }
    let mut i: usize = 0;
    while i < n
        invariant
            i <= n,
            n == a@.len(),
            n == b@.len(),
            forall|j: int| 0 <= j < i ==> a@[j] == b@[j],
        decreases n - i,
    {
        if a.get_char(i) != b.get_char(i) {
            proof {
                assert(a@[i as int] != b@[i as int]);
            }
            return false;
        }
        i = i + 1;
    }
    proof {
        assert(a@ =~= b@);
    }
    true
}

} // verus!
