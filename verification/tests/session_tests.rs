//! The framing layer, the coordinate codec, address parsing, and the
//! session state machine, end to end on concrete frames.

use oxicraft::client_settings::{ChatMode, MainHand};
use oxicraft::coding::location;
use oxicraft::coding::varint::Varint;
use oxicraft::connection::handshake::HandshakeNextState;
use oxicraft::connection::{Connection, ConnectionId, ConnectionState};
use oxicraft::entity::{IdCounter, TeleportIdCounter};
use oxicraft::error::ProtocolError;
use oxicraft::ip::{parse_ip, IpAddress, ServerAddress};
use oxicraft::location::Location;
use oxicraft::packet::{parse_packet, Packet, PacketData};
use oxicraft::player::Player;
use oxicraft::plugin_message::{PluginMessage, PluginMessageOrigin};
use std::collections::VecDeque;

fn fresh_connection(counter: &mut IdCounter) -> Connection {
    Connection::new(ConnectionId::new(counter))
}

fn handshake_payload(protocol: i32, address: &str, port: u16, next_state: i32) -> VecDeque<u8> {
    let mut payload = Varint(protocol).encode();
    payload.append(&mut oxicraft::coding::string::encode_str(address));
    payload.push_back((port >> 8) as u8);
    payload.push_back((port & 0xFF) as u8);
    payload.append(&mut Varint(next_state).encode());
    payload
}

#[test]
fn handshake_localhost_rewritten_and_login_chosen() {
    let mut counter = IdCounter::new();
    let mut connection = fresh_connection(&mut counter);
    let packet = Packet::from_id_and_data(
        Varint(0x00),
        PacketData::Data(handshake_payload(404, "localhost", 25565, 2)),
    );
    let next = connection.do_handshake(packet).unwrap();
    assert_eq!(next, HandshakeNextState::Login);
    assert_eq!(connection.state, ConnectionState::Handshaking);
    assert_eq!(connection.protocol_version, Some(404));
    assert_eq!(
        connection.server_address,
        Some(ServerAddress {
            ip: IpAddress::V4(127, 0, 0, 1),
            port: 25565,
        })
    );
}

#[test]
fn handshake_status_branch() {
    let mut counter = IdCounter::new();
    let mut connection = fresh_connection(&mut counter);
    let packet = Packet::from_id_and_data(
        Varint(0x00),
        PacketData::Data(handshake_payload(404, "10.0.0.7", 25565, 1)),
    );
    let next = connection.do_handshake(packet).unwrap();
    assert_eq!(next, HandshakeNextState::Status);
    assert_eq!(
        connection.server_address,
        Some(ServerAddress {
            ip: IpAddress::V4(10, 0, 0, 7),
            port: 25565,
        })
    );
}

#[test]
fn handshake_rejects_wrong_packet_id() {
    let mut counter = IdCounter::new();
    let mut connection = fresh_connection(&mut counter);
    let packet = Packet::from_id_and_data(
        Varint(0x01),
        PacketData::Data(handshake_payload(404, "localhost", 25565, 2)),
    );
    assert_eq!(
        connection.do_handshake(packet).unwrap_err(),
        ProtocolError::InvalidData
    );
    assert_eq!(connection.state, ConnectionState::Unknown);
}

#[test]
fn handshake_rejects_large_protocol_version() {
    let mut counter = IdCounter::new();
    let mut connection = fresh_connection(&mut counter);
    let packet = Packet::from_id_and_data(
        Varint(0x00),
        PacketData::Data(handshake_payload(70000, "localhost", 25565, 2)),
    );
    assert_eq!(
        connection.do_handshake(packet).unwrap_err(),
        ProtocolError::OutOfRange
    );
    assert_eq!(connection.protocol_version, None);
    assert_eq!(connection.state, ConnectionState::Handshaking);
}

#[test]
fn handshake_rejects_bad_address() {
    let mut counter = IdCounter::new();
    let mut connection = fresh_connection(&mut counter);
    let packet = Packet::from_id_and_data(
        Varint(0x00),
        PacketData::Data(handshake_payload(404, "not-an-ip", 25565, 2)),
    );
    assert_eq!(
        connection.do_handshake(packet).unwrap_err(),
        ProtocolError::InvalidAddress
    );
    assert_eq!(connection.protocol_version, Some(404));
    assert_eq!(connection.server_address, None);
}

#[test]
fn handshake_rejects_bad_next_state() {
    let mut counter = IdCounter::new();
    let mut connection = fresh_connection(&mut counter);
    let packet = Packet::from_id_and_data(
        Varint(0x00),
        PacketData::Data(handshake_payload(404, "127.0.0.1", 25565, 3)),
    );
    assert_eq!(
        connection.do_handshake(packet).unwrap_err(),
        ProtocolError::InvalidNextState
    );
    assert_eq!(
        connection.server_address,
        Some(ServerAddress {
            ip: IpAddress::V4(127, 0, 0, 1),
            port: 25565,
        })
    );
}

#[test]
fn frame_round_trip() {
    let payload = VecDeque::from(vec![1u8, 2, 3, 4, 5]);
    let mut packet = Packet::from_id_and_data(Varint(0x25), PacketData::Data(payload));
    let wire = packet.to_wire_bytes();
    assert_eq!(packet.length, 6);
    assert_eq!(wire, vec![6, 0x25, 1, 2, 3, 4, 5]);
    let mut q = VecDeque::from(wire);
    let parsed = parse_packet(&mut q).unwrap();
    assert_eq!(parsed.length, 6);
    assert_eq!(parsed.packet_id.0, 0x25);
    match parsed.data {
        PacketData::Data(d) => assert_eq!(d, VecDeque::from(vec![1u8, 2, 3, 4, 5])),
        _ => panic!("expected data"),
    }
    assert!(q.is_empty());
}

#[test]
fn frame_rejects_zero_length() {
    let mut q = VecDeque::from(vec![0x00, 0x00]);
    assert_eq!(
        parse_packet(&mut q).unwrap_err(),
        ProtocolError::EmptyOrNegativeLength
    );
}

#[test]
fn frame_rejects_missing_payload() {
    let mut q = VecDeque::from(vec![0x05, 0x00, 0x01]);
    assert_eq!(parse_packet(&mut q).unwrap_err(), ProtocolError::Truncated);
}

#[test]
fn location_codec_round_trip() {
    let samples = [
        (0i32, 0i16, 0i32),
        (1, 2, 3),
        (-1, -1, -1),
        (33554431, 2047, 33554431),
        (-33554432, -2048, -33554432),
        (100, -5, -7),
    ];
    for (x, y, z) in samples {
        let loc = Location { x, y, z };
        let mut q = location::encode(&loc);
        assert_eq!(q.len(), 8);
        let back = location::decode(&mut q).unwrap();
        assert_eq!(loc, back);
    }
}

#[test]
fn location_codec_known_word() {
    // x = 1, y = 2, z = 3 packs to 1<<38 | 2<<26 | 3.
    let loc = Location { x: 1, y: 2, z: 3 };
    let q = location::encode(&loc);
    let expected: u64 = (1u64 << 38) | (2u64 << 26) | 3;
    let bytes: Vec<u8> = q.iter().cloned().collect();
    assert_eq!(bytes, expected.to_be_bytes().to_vec());
}

#[test]
fn location_decode_truncated() {
    let mut q = VecDeque::from(vec![1u8, 2, 3]);
    assert_eq!(
        location::decode(&mut q).unwrap_err(),
        ProtocolError::Truncated
    );
}

#[test]
fn parse_ip_v4_forms() {
    assert_eq!(parse_ip("127.0.0.1"), Some(IpAddress::V4(127, 0, 0, 1)));
    assert_eq!(parse_ip("0.0.0.0"), Some(IpAddress::V4(0, 0, 0, 0)));
    assert_eq!(
        parse_ip("255.255.255.255"),
        Some(IpAddress::V4(255, 255, 255, 255))
    );
    assert_eq!(parse_ip("256.0.0.1"), None);
    assert_eq!(parse_ip("01.2.3.4"), None);
    assert_eq!(parse_ip("1.2.3"), None);
    assert_eq!(parse_ip("1.2.3.4.5"), None);
    assert_eq!(parse_ip("localhost"), None);
    assert_eq!(parse_ip(""), None);
}

#[test]
fn parse_ip_v6_forms() {
    assert_eq!(
        parse_ip("1:2:3:4:5:6:7:8"),
        Some(IpAddress::V6(1, 2, 3, 4, 5, 6, 7, 8))
    );
    assert_eq!(parse_ip("::"), Some(IpAddress::V6(0, 0, 0, 0, 0, 0, 0, 0)));
    assert_eq!(parse_ip("::1"), Some(IpAddress::V6(0, 0, 0, 0, 0, 0, 0, 1)));
    assert_eq!(
        parse_ip("fe80::aBcD"),
        Some(IpAddress::V6(0xfe80, 0, 0, 0, 0, 0, 0, 0xabcd))
    );
    assert_eq!(
        parse_ip("1:2::7:8"),
        Some(IpAddress::V6(1, 2, 0, 0, 0, 0, 7, 8))
    );
    assert_eq!(
        parse_ip("::ffff:1.2.3.4"),
        Some(IpAddress::V6(0, 0, 0, 0, 0, 0xffff, 0x0102, 0x0304))
    );
    assert_eq!(parse_ip("1:2:3:4:5:6:7"), None);
    assert_eq!(parse_ip("1:2:3:4:5:6:7:8:9"), None);
    assert_eq!(parse_ip("1::2::3"), None);
    assert_eq!(parse_ip(":1:2:3:4:5:6:7"), None);
    assert_eq!(parse_ip("12345::"), None);
}

#[test]
fn status_response_and_pong() {
    let response = Connection::build_status_response("{\"a\":1}");
    assert_eq!(response.packet_id.0, 0x00);
    match &response.data {
        PacketData::Data(d) => {
            let mut expected = VecDeque::from(vec![7u8]);
            expected.extend("{\"a\":1}".bytes());
            assert_eq!(*d, expected);
        }
        _ => panic!("expected data"),
    }

    let ping = Packet::from_id_and_data(
        Varint(0x01),
        PacketData::Data(VecDeque::from(vec![9u8, 8, 7, 6, 5, 4, 3, 2])),
    );
    let pong = Connection::build_pong(ping).unwrap();
    assert_eq!(pong.packet_id.0, 0x01);
    match pong.data {
        PacketData::Data(d) => {
            assert_eq!(d, VecDeque::from(vec![9u8, 8, 7, 6, 5, 4, 3, 2]))
        }
        _ => panic!("expected data"),
    }

    let not_ping = Packet::from_id_and_data(Varint(0x02), PacketData::Data(VecDeque::new()));
    assert_eq!(
        Connection::build_pong(not_ping).unwrap_err(),
        ProtocolError::InvalidData
    );
}

#[test]
fn mock_slp_fields() {
    let slp = oxicraft::connection::handshake::mock_slp();
    assert_eq!(slp.version.name, "1.13.1");
    assert_eq!(slp.version.protocol, 404);
    assert_eq!(slp.players.max, 100);
    assert_eq!(slp.players.online, 5);
    assert!(slp.players.sample.is_empty());
    assert_eq!(
        slp.description.text,
        "Java edition doesn't necessarily mean everything is run by Java."
    );
}

#[test]
fn login_flow_packets() {
    let mut counter = IdCounter::new();
    let mut connection = fresh_connection(&mut counter);
    let mut login_payload = VecDeque::from(vec![5u8]);
    login_payload.extend("jens1".bytes());
    let login_start = Packet::from_id_and_data(Varint(0x00), PacketData::Data(login_payload));
    let (username, uuid) = connection.prepare_login(login_start).unwrap();
    assert_eq!(username, "jens1");
    assert_eq!(uuid, "8e383e9f-608e-4556-97c9-61312c741ea0");
    assert_eq!(connection.username.as_deref(), Some("jens1"));

    let mut eid_counter = IdCounter::new();
    let mut player = Player::from_basic_data(connection, username, uuid, &mut eid_counter);
    assert_eq!(player.entity_id, 1);
    assert_eq!(eid_counter.value, 2);

    let success = player.send_login_success();
    assert_eq!(success.packet_id.0, 0x02);
    assert_eq!(player.connection.state, ConnectionState::Play);
    match success.data {
        PacketData::Data(d) => {
            let mut expected = VecDeque::from(vec![36u8]);
            expected.extend("8e383e9f-608e-4556-97c9-61312c741ea0".bytes());
            expected.push_back(5);
            expected.extend("jens1".bytes());
            assert_eq!(d, expected);
        }
        _ => panic!("expected data"),
    }

    let join = player.send_join_game();
    assert_eq!(join.packet_id.0, 0x25);
    match join.data {
        PacketData::Data(d) => {
            let mut expected: VecDeque<u8> = VecDeque::new();
            expected.extend([0, 0, 0, 1]); // entity id
            expected.push_back(1); // creative
            expected.extend([0, 0, 0, 0]); // overworld
            expected.push_back(0); // peaceful
            expected.push_back(20); // max players
            expected.push_back(4);
            expected.extend("flat".bytes());
            expected.push_back(0); // reduced debug info
            assert_eq!(d, expected);
        }
        _ => panic!("expected data"),
    }
}

#[test]
fn teleport_confirm_matching_id_accepted() {
    let mut counter = IdCounter::new();
    let connection = fresh_connection(&mut counter);
    let mut eid_counter = IdCounter::new();
    let player = Player::from_basic_data(
        connection,
        "a".to_owned(),
        "b".to_owned(),
        &mut eid_counter,
    );
    let confirm = Packet::from_id_and_data(
        Varint(0x00),
        PacketData::Data(Varint(5).encode()),
    );
    assert!(player.expect_teleport_confirm(confirm, Varint(5)).is_ok());
    let wrong = Packet::from_id_and_data(
        Varint(0x00),
        PacketData::Data(Varint(6).encode()),
    );
    assert_eq!(
        player.expect_teleport_confirm(wrong, Varint(5)).unwrap_err(),
        ProtocolError::TeleportMismatch
    );
}

#[test]
fn set_location_draws_fresh_teleport_ids() {
    let mut counter = IdCounter::new();
    let connection = fresh_connection(&mut counter);
    let mut eid_counter = IdCounter::new();
    let mut player = Player::from_basic_data(
        connection,
        "a".to_owned(),
        "b".to_owned(),
        &mut eid_counter,
    );
    let mut teleport_counter = TeleportIdCounter::new();
    let loc = Location::default();
    let (packet, first) = player.set_location(
        &loc,
        oxicraft::coding::float_bits::FloatBits(0),
        oxicraft::coding::float_bits::FloatBits(0),
        0,
        &mut teleport_counter,
    );
    assert_eq!(packet.packet_id.0, 0x32);
    assert_eq!(first.0, 1);
    let (_, second) = player.set_location(
        &loc,
        oxicraft::coding::float_bits::FloatBits(0),
        oxicraft::coding::float_bits::FloatBits(0),
        0,
        &mut teleport_counter,
    );
    assert_eq!(second.0, 2);
    match packet.data {
        PacketData::Data(d) => {
            let mut expected: VecDeque<u8> = VecDeque::new();
            expected.extend(0f64.to_bits().to_be_bytes()); // x
            expected.extend(0f64.to_bits().to_be_bytes()); // y
            expected.extend(0f64.to_bits().to_be_bytes()); // z
            expected.extend([0, 0, 0, 0]); // yaw
            expected.extend([0, 0, 0, 0]); // pitch
            expected.push_back(0); // flags
            expected.push_back(1); // teleport id
            assert_eq!(d, expected);
        }
        _ => panic!("expected data"),
    }
}

#[test]
fn client_settings_decoded_and_stored() {
    let mut counter = IdCounter::new();
    let connection = fresh_connection(&mut counter);
    let mut eid_counter = IdCounter::new();
    let mut player = Player::from_basic_data(
        connection,
        "a".to_owned(),
        "b".to_owned(),
        &mut eid_counter,
    );
    let mut payload = VecDeque::from(vec![5u8]);
    payload.extend("EN_us".bytes());
    payload.push_back(10); // render distance
    payload.push_back(0); // chat mode: enabled
    payload.push_back(1); // chat colors on
    payload.push_back(0x7F); // skin parts
    payload.push_back(1); // main hand: right
    let packet = Packet::from_id_and_data(Varint(0x04), PacketData::Data(payload));
    player.read_client_settings(packet).unwrap();
    let settings = player.client_settings.as_ref().unwrap();
    assert_eq!(settings.locale, "en_us");
    assert_eq!(settings.render_distance, 10);
    assert_eq!(settings.chat_mode, ChatMode::Enabled);
    assert!(settings.chat_colors_enabled);
    assert_eq!(settings.skin_parts_displayed, 0x7F);
    assert_eq!(settings.main_hand, MainHand::Right);
}

#[test]
fn plugin_message_namespace_and_data() {
    let message = PluginMessage::new(
        "brand".to_owned(),
        VecDeque::from(vec![1u8, 2, 3]),
        PluginMessageOrigin::Server,
    );
    assert_eq!(message.channel().as_str(), "minecraft:brand");
    assert!(message.is_minecraft());
    assert_eq!(message.get_channel_namespace(), "minecraft");

    let custom = PluginMessage::new(
        "forge:handshake".to_owned(),
        VecDeque::new(),
        PluginMessageOrigin::Client,
    );
    assert_eq!(custom.channel().as_str(), "forge:handshake");
    assert!(!custom.is_minecraft());
    assert_eq!(custom.get_channel_namespace(), "forge");
}

#[test]
fn plugin_message_stringify_and_broadcast() {
    let mut counter = IdCounter::new();
    let connection = fresh_connection(&mut counter);
    let mut eid_counter = IdCounter::new();
    let player = Player::from_basic_data(
        connection,
        "a".to_owned(),
        "b".to_owned(),
        &mut eid_counter,
    );
    let packet = player.broadcast_server_name();
    assert_eq!(packet.packet_id.0, 0x19);
    match packet.data {
        PacketData::Data(d) => {
            let mut expected = VecDeque::from(vec![15u8]);
            expected.extend("minecraft:brand".bytes());
            expected.extend("oxicraft".bytes());
            assert_eq!(d, expected);
        }
        _ => panic!("expected data"),
    }

    // A received brand message reads back as a length-prefixed string.
    let mut data = VecDeque::from(vec![8u8]);
    data.extend("vanilla!".bytes());
    let mut message = PluginMessage::new(
        "minecraft:brand".to_owned(),
        data,
        PluginMessageOrigin::Client,
    );
    assert_eq!(message.data_stringify().unwrap(), "vanilla!");
}

#[test]
fn receive_plugin_message_checks_packet_id() {
    let mut counter = IdCounter::new();
    let connection = fresh_connection(&mut counter);
    let mut eid_counter = IdCounter::new();
    let player = Player::from_basic_data(
        connection,
        "a".to_owned(),
        "b".to_owned(),
        &mut eid_counter,
    );
    let mut payload = VecDeque::from(vec![15u8]);
    payload.extend("minecraft:brand".bytes());
    payload.extend([7u8, 118, 97, 110, 105, 108, 108, 97]);
    let packet = Packet::from_id_and_data(Varint(0x0A), PacketData::Data(payload));
    let message = player.receive_plugin_message(packet).unwrap();
    assert_eq!(message.channel().as_str(), "minecraft:brand");
    assert_eq!(message.data().len(), 8);

    let wrong = Packet::from_id_and_data(Varint(0x03), PacketData::Data(VecDeque::new()));
    assert_eq!(
        player.receive_plugin_message(wrong).unwrap_err(),
        ProtocolError::InvalidData
    );
}

#[test]
fn ensure_data_size_rejects_non_positive() {
    assert!(oxicraft::ensure_data_size(1).is_ok());
    assert_eq!(
        oxicraft::ensure_data_size(0).unwrap_err(),
        ProtocolError::EmptyOrNegativeLength
    );
    assert_eq!(
        oxicraft::ensure_data_size(-3).unwrap_err(),
        ProtocolError::EmptyOrNegativeLength
    );
}

#[test]
fn connection_ids_are_monotonic() {
    let mut counter = IdCounter::new();
    let a = ConnectionId::new(&mut counter);
    let b = ConnectionId::new(&mut counter);
    let c = ConnectionId::new(&mut counter);
    assert_eq!((a.value, b.value, c.value), (1, 2, 3));
}
