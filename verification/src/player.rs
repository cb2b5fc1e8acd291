//! A logged-in player and the packets that carry one from login success
//! to a confirmed spawn position.  Every outbound step builds its frame
//! and hands it back; the embedding program writes it to the socket.

use crate::client_settings::ClientSettings;
use crate::coding::boolean::bool_bytes;
use crate::coding::byte::i8_bits;
use crate::coding::client_settings::{client_settings_scan, ClientSettingsFields};
use crate::coding::difficulty::difficulty_byte;
use crate::coding::dimension::dimension_value;
use crate::coding::float_bits::{double_bits_of_int, FloatBits};
use crate::coding::gamemode::gamemode_byte;
use crate::coding::integer::int_bytes;
use crate::coding::level_type::level_type_bytes;
use crate::coding::location::location_bytes;
use crate::coding::string::string_bytes;
use crate::coding::varint::{bits_to_i32, varint_bytes_of, varint_parse, Varint};
use crate::coding::be_bytes;
use crate::connection::{Connection, ConnectionState};
use crate::entity::{get_new_eid, get_new_teleport_id, IdCounter, TeleportIdCounter};
use crate::error::ProtocolError;
use crate::location::Location;
use crate::packet::{Packet, PacketData};
use crate::plugin_message::{plugin_message_bytes, plugin_message_scan, PluginMessage};
use crate::world::World;
use std::collections::VecDeque;
use vstd::prelude::*;

verus! {

/// A player: their connection, identity, settings, and whereabouts.
pub struct Player {
    pub connection: Connection,
    pub username: String,
    pub uuid: String,
    pub client_settings: Option<ClientSettings>,
    pub entity_id: usize,
    pub spawn_location: Location,
    pub current_location: Location,
    pub current_world: World,
}

/// The entity id as the signed 32-bit value it occupies on the wire.
pub open spec fn entity_id_as_i32(eid: usize) -> i32 {
    bits_to_i32((eid as nat) % 0x1_0000_0000)
}

/// The join-game payload: entity id, gamemode, dimension, difficulty,
/// the player cap, the level type, and the reduced-debug-info flag.
pub open spec fn join_game_bytes(eid: usize, world: World) -> Seq<u8> {
    int_bytes(entity_id_as_i32(eid)) + seq![gamemode_byte(world.gamemode)] + int_bytes(
        dimension_value(world.dimension),
    ) + seq![difficulty_byte(world.difficulty)] + seq![20u8] + level_type_bytes(world.level_type)
        + bool_bytes(false)
}

/// The player-abilities payload: flags, flying speed, walking speed.
pub open spec fn player_abilities_bytes(flags: i8, flying: FloatBits, walking: FloatBits) -> Seq<
    u8,
> {
    seq![i8_bits(flags)] + be_bytes(flying.0 as nat, 4) + be_bytes(walking.0 as nat, 4)
}

/// The position-and-look payload: the three coordinates as doubles, yaw
/// and pitch as floats, the flags byte, and the teleport id.
pub open spec fn position_and_look_bytes(
    loc: Location,
    yaw: FloatBits,
    pitch: FloatBits,
    flags: i8,
    teleport_id: i32,
) -> Seq<u8> {
    be_bytes(double_bits_of_int(loc.x as int), 8) + be_bytes(double_bits_of_int(loc.y as int), 8)
        + be_bytes(double_bits_of_int(loc.z as int), 8) + be_bytes(yaw.0 as nat, 4) + be_bytes(
        pitch.0 as nat,
        4,
    ) + seq![i8_bits(flags)] + varint_bytes_of(teleport_id)
}

impl Player {
    /// Builds a player around a connection, drawing a fresh entity id
    /// from the shared counter.
    pub fn from_basic_data(
        connection: Connection,
        username: String,
        uuid: String,
        eid_counter: &mut IdCounter,
    ) -> (r: Player)
        ensures
            r.connection == connection,
            r.username == username,
            r.uuid == uuid,
            r.client_settings is None,
            r.entity_id == old(eid_counter).value,
            final(eid_counter).value == if old(eid_counter).value == usize::MAX {
                0usize
            } else {
                (old(eid_counter).value + 1) as usize
            },
            r.spawn_location == (Location { x: 0, y: 0, z: 0 }),
            r.current_location == (Location { x: 0, y: 0, z: 0 }),
            r.current_world == (World {
                gamemode: crate::coding::gamemode::Gamemode::Creative,
                dimension: crate::dimension::Dimension::Overworld,
                difficulty: crate::difficulty::Difficulty::Peaceful,
                level_type: crate::coding::level_type::LevelType::Flat,
            }),
    {
        Player {
            connection,
            username,
            uuid,
            client_settings: None,
            entity_id: get_new_eid(eid_counter),
            spawn_location: Location::default(),
            current_location: Location::default(),
            current_world: World::default(),
        }
    }

    /// Where this player will spawn.
    pub fn spawn_location(&self) -> (r: &Location)
        ensures
            r == self.spawn_location,
    {
        &self.spawn_location
    }

    /// Builds the login-success frame (the account id and the username,
    /// both as strings) and moves the connection into the play state.
    pub fn send_login_success(&mut self) -> (r: Packet)
        requires
            old(self).uuid@.len() <= 32767,
            old(self).username@.len() <= 32767,
        ensures
            r.packet_id.0 == 0x02,
            r.data.bytes() == string_bytes(old(self).uuid@) + string_bytes(old(self).username@),
            r.data matches PacketData::Data(_),
            final(self).connection.state == ConnectionState::Play,
            final(self).connection.connection_id == old(self).connection.connection_id,
            final(self).connection.protocol_version == old(self).connection.protocol_version,
            final(self).connection.server_address == old(self).connection.server_address,
            final(self).connection.username == old(self).connection.username,
            final(self).username == old(self).username,
            final(self).uuid == old(self).uuid,
            final(self).client_settings == old(self).client_settings,
            final(self).entity_id == old(self).entity_id,
            final(self).spawn_location == old(self).spawn_location,
            final(self).current_location == old(self).current_location,
            final(self).current_world == old(self).current_world,
    {
        let mut payload = crate::coding::string::encode_str(self.uuid.as_str());
        let mut name_bytes = crate::coding::string::encode_str(self.username.as_str());
        payload.append(&mut name_bytes);
        self.connection.state = ConnectionState::Play;
        Packet::from_id_and_data(Varint(0x02), PacketData::Data(payload))
    }

    /// Builds the join-game frame from the world this player enters.
    pub fn send_join_game(&self) -> (r: Packet)
        ensures
            r.packet_id.0 == 0x25,
            r.data.bytes() == join_game_bytes(self.entity_id, self.current_world),
            r.data matches PacketData::Data(_),
    {
        let low: u64 = (self.entity_id as u64) % 0x1_0000_0000;
        let eid: i32 = if low < 0x8000_0000 {
            low as i32
        } else {
            ((low as i64) - 0x1_0000_0000) as i32
        };
        let mut payload = crate::coding::integer::encode(eid);
        let mut part = crate::coding::gamemode::encode(&self.current_world.gamemode);
        payload.append(&mut part);
        let mut part = crate::coding::dimension::encode(&self.current_world.dimension);
        payload.append(&mut part);
        let mut part = crate::coding::difficulty::encode(&self.current_world.difficulty);
        payload.append(&mut part);
        let mut part = crate::coding::byte::encode_unsigned(20);
        payload.append(&mut part);
        let mut part = crate::coding::level_type::encode(&self.current_world.level_type);
        payload.append(&mut part);
        let mut part = crate::coding::boolean::encode(false);
        payload.append(&mut part);
        Packet::from_id_and_data(Varint(0x25), PacketData::Data(payload))
    }

    /// Builds the plugin-message frame announcing this server's brand.
    pub fn broadcast_server_name(&self) -> (r: Packet)
        ensures
            r.packet_id.0 == 0x19,
            r.data.bytes() == plugin_message_bytes("minecraft:brand"@, brand_bytes()),
            r.data matches PacketData::Data(_),
    {
        let mut data: VecDeque<u8> = VecDeque::new();
        data.push_back(111);  // o
        data.push_back(120);  // x
        data.push_back(105);  // i
        data.push_back(99);  // c
        data.push_back(114);  // r
        data.push_back(97);  // a
        data.push_back(102);  // f
        data.push_back(116);  // t
        proof {
            assert(data@ =~= brand_bytes());
            reveal_strlit("minecraft:brand");
        }
        let message = PluginMessage::new(
            String::from_str("minecraft:brand"),
            data,
            crate::plugin_message::PluginMessageOrigin::Server,
        );
        proof {
            lemma_literal_channel_norm();
        }
        self.send_plugin_message(message)
    }

    /// Builds the frame that carries a plugin message.
    pub fn send_plugin_message(&self, plugin_message: PluginMessage) -> (r: Packet)
        requires
            plugin_message.channel@.len() <= 32767,
        ensures
            r.packet_id.0 == 0x19,
            r.data.bytes() == plugin_message_bytes(
                plugin_message.channel@,
                plugin_message.data@,
            ),
            r.data matches PacketData::Data(_),
    {
        let payload = plugin_message.encode();
        Packet::from_id_and_data(Varint(0x19), PacketData::Data(payload))
    }

    /// Records the spawn location and builds the frame announcing it.
    pub fn set_spawn_location(&mut self, spawn_location: Location) -> (r: Packet)
        ensures
            r.packet_id.0 == 0x49,
            r.data.bytes() == location_bytes(spawn_location),
            r.data matches PacketData::Data(_),
            final(self).spawn_location == spawn_location,
            final(self).connection == old(self).connection,
            final(self).username == old(self).username,
            final(self).uuid == old(self).uuid,
            final(self).client_settings == old(self).client_settings,
            final(self).entity_id == old(self).entity_id,
            final(self).current_location == old(self).current_location,
            final(self).current_world == old(self).current_world,
    {
        self.spawn_location = spawn_location;
        let payload = crate::coding::location::encode(&self.spawn_location);
        Packet::from_id_and_data(Varint(0x49), PacketData::Data(payload))
    }

    /// Builds the player-abilities frame: the ability flags and the two
    /// speeds (as float bit patterns).
    pub fn set_player_abilities(&self, flags: i8, flying_speed: FloatBits, walking_speed: FloatBits)
        -> (r: Packet)
        ensures
            r.packet_id.0 == 0x2E,
            r.data.bytes() == player_abilities_bytes(flags, flying_speed, walking_speed),
            r.data matches PacketData::Data(_),
    {
        let mut payload = crate::coding::byte::encode_signed(flags);
        let mut part = crate::coding::float_bits::encode_float(&flying_speed);
        payload.append(&mut part);
        let mut part = crate::coding::float_bits::encode_float(&walking_speed);
        payload.append(&mut part);
        Packet::from_id_and_data(Varint(0x2E), PacketData::Data(payload))
    }

    /// Accepts the client-settings frame (packet id 0x04) and stores the
    /// settings.
    pub fn read_client_settings(&mut self, packet: Packet) -> (r: Result<(), ProtocolError>)
        ensures
            final(self).connection == old(self).connection,
            final(self).username == old(self).username,
            final(self).uuid == old(self).uuid,
            final(self).entity_id == old(self).entity_id,
            final(self).spawn_location == old(self).spawn_location,
            final(self).current_location == old(self).current_location,
            final(self).current_world == old(self).current_world,
            ({
                let oc = client_settings_outcome(
                    packet.packet_id.0,
                    packet.data matches PacketData::Data(_),
                    packet.data.bytes(),
                );
                match oc {
                    Ok(fields) => r == Ok::<(), ProtocolError>(()) && (final(self).client_settings
                     matches Some(cs) && cs.locale@ == fields.locale
                        && cs.render_distance == fields.render_distance && cs.chat_mode
                        == fields.chat_mode && cs.chat_colors_enabled == fields.chat_colors_enabled
                        && cs.skin_parts_displayed == fields.skin_parts_displayed && cs.main_hand
                        == fields.main_hand),
                    Err(e) => r == Err::<(), ProtocolError>(e) && final(self).client_settings
                        == old(self).client_settings,
                }
            }),
    {
        if packet.packet_id.0 != 0x04 {
            return Err(ProtocolError::InvalidData);
        }
        let mut data = match packet.data {
            PacketData::Data(d) => d,
            _ => {
                return Err(ProtocolError::InvalidData);
            },
        };
        match crate::coding::client_settings::decode(&mut data) {
            Err(e) => Err(e),
            Ok(settings) => {
                self.client_settings = Some(settings);
                Ok(())
            },
        }
    }

    /// Accepts a plugin-message frame from the client (packet id 0x0A).
    pub fn receive_plugin_message(&self, packet: Packet) -> (r: Result<
        PluginMessage,
        ProtocolError,
    >)
        ensures
            ({
                let oc = plugin_message_outcome(
                    packet.packet_id.0,
                    packet.data matches PacketData::Data(_),
                    packet.data.bytes(),
                );
                match oc {
                    Ok(fields) => r matches Ok(pm) && pm.channel@ == fields.0 && pm.data@
                        == fields.1 && pm.origin
                        == crate::plugin_message::PluginMessageOrigin::Client,
                    Err(e) => r == Err::<PluginMessage, ProtocolError>(e),
                }
            }),
    {
        if packet.packet_id.0 != 0x0A {
            return Err(ProtocolError::InvalidData);
        }
        let mut data = match packet.data {
            PacketData::Data(d) => d,
            _ => {
                return Err(ProtocolError::InvalidData);
            },
        };
        PluginMessage::decode(&mut data)
    }

    /// Builds the position-and-look frame for a location, drawing a
    /// fresh teleport id, and returns the frame together with the id
    /// the client must echo back.
    pub fn set_location(
        &mut self,
        new_location: &Location,
        yaw: FloatBits,
        pitch: FloatBits,
        flags: i8,
        teleport_counter: &mut TeleportIdCounter,
    ) -> (r: (Packet, Varint))
        ensures
            r.0.packet_id.0 == 0x32,
            r.0.data.bytes() == position_and_look_bytes(
                *new_location,
                yaw,
                pitch,
                flags,
                old(teleport_counter).value,
            ),
            r.0.data matches PacketData::Data(_),
            r.1.0 == old(teleport_counter).value,
            final(teleport_counter).value == if old(teleport_counter).value == i32::MAX {
                i32::MIN
            } else {
                (old(teleport_counter).value + 1) as i32
            },
            *final(self) == *old(self),
    {
        let teleport_id = get_new_teleport_id(teleport_counter);
        let x_bits = crate::coding::float_bits::double_bits_from_i32(new_location.x);
        let y_bits = crate::coding::float_bits::double_bits_from_i32(new_location.y as i32);
        let z_bits = crate::coding::float_bits::double_bits_from_i32(new_location.z);
        let mut payload = crate::coding::float_bits::encode_double(&x_bits);
        let mut part = crate::coding::float_bits::encode_double(&y_bits);
        payload.append(&mut part);
        let mut part = crate::coding::float_bits::encode_double(&z_bits);
        payload.append(&mut part);
        let mut part = crate::coding::float_bits::encode_float(&yaw);
        payload.append(&mut part);
        let mut part = crate::coding::float_bits::encode_float(&pitch);
        payload.append(&mut part);
        let mut part = crate::coding::byte::encode_signed(flags);
        payload.append(&mut part);
        let mut part = teleport_id.encode();
        payload.append(&mut part);
        let packet = Packet::from_id_and_data(Varint(0x32), PacketData::Data(payload));
        (packet, teleport_id)
    }

    /// Accepts the teleport-confirm frame (packet id 0x00) and checks
    /// that the echoed id matches the one just sent; a different id is
    /// a teleport mismatch.
    pub fn expect_teleport_confirm(&self, packet: Packet, teleport_id: Varint) -> (r: Result<
        (),
        ProtocolError,
    >)
        ensures
            r == teleport_confirm_outcome(
                packet.packet_id.0,
                packet.data matches PacketData::Data(_),
                packet.data.bytes(),
                teleport_id.0,
            ),
    {
        if packet.packet_id.0 != 0x00 {
            return Err(ProtocolError::InvalidData);
        }
        let mut data = match packet.data {
            PacketData::Data(d) => d,
            _ => {
                return Err(ProtocolError::TeleportMismatch);
            },
        };
        match Varint::decode(&mut data) {
            Err(e) => Err(e),
            Ok(given) => {
                if given.0 == teleport_id.0 {
                    Ok(())
                } else {
                    Err(ProtocolError::TeleportMismatch)
                }
            },
        }
    }
}

/// The bytes of this server's brand name.
pub open spec fn brand_bytes() -> Seq<u8> {
    seq![111u8, 120u8, 105u8, 99u8, 114u8, 97u8, 102u8, 116u8]
}

/// A channel name that already carries a namespace is left alone.
proof fn lemma_literal_channel_norm()
    ensures
        crate::plugin_message::channel_norm("minecraft:brand"@) == "minecraft:brand"@,
{
    reveal_strlit("minecraft:brand");
    assert("minecraft:brand"@[9] == ':');
    assert(crate::plugin_message::contains_colon("minecraft:brand"@));
}

/// What the client-settings frame yields: the decoded fields, or the
/// error.
pub open spec fn client_settings_outcome(packet_id: i32, has_data: bool, data: Seq<u8>) -> Result<
    ClientSettingsFields,
    ProtocolError,
> {
    if packet_id != 0x04 {
        Err(ProtocolError::InvalidData)
    } else if !has_data {
        Err(ProtocolError::InvalidData)
    } else {
        client_settings_scan(data).0
    }
}

/// What a client plugin-message frame yields: the channel and data, or
/// the error.
pub open spec fn plugin_message_outcome(packet_id: i32, has_data: bool, data: Seq<u8>) -> Result<
    (Seq<char>, Seq<u8>),
    ProtocolError,
> {
    if packet_id != 0x0A {
        Err(ProtocolError::InvalidData)
    } else if !has_data {
        Err(ProtocolError::InvalidData)
    } else {
        plugin_message_scan(data).0
    }
}

/// What the teleport-confirm frame yields: acceptance if and only if
/// the echoed id equals the one sent.
pub open spec fn teleport_confirm_outcome(
    packet_id: i32,
    has_data: bool,
    data: Seq<u8>,
    expected: i32,
) -> Result<(), ProtocolError> {
    if packet_id != 0x00 {
        Err(ProtocolError::InvalidData)
    } else if !has_data {
        Err(ProtocolError::TeleportMismatch)
    } else {
        match varint_parse(data).0 {
            Err(e) => Err(e),
            Ok(given) => {
                if given == expected {
                    Ok(())
                } else {
                    Err(ProtocolError::TeleportMismatch)
                }
            },
        }
    }
}

} // verus!
