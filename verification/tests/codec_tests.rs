//! The primitive codec, exercised on the wire examples the protocol
//! documents, through the `Decodeable` / `Encodeable` / `ReadString`
//! interface.

use oxicraft::client_settings::{ChatMode, MainHand};
use oxicraft::coding::float_bits::{self, FloatBits};
use oxicraft::coding::varint::{self, Varint};
use oxicraft::coding::{Decodeable, Encodeable, ReadString};
use oxicraft::error::ProtocolError;
use std::collections::VecDeque;

#[test]
fn boolean_test_decoding() {
    let mappings: Vec<(bool, Vec<u8>)> = vec![(true, vec![0x01]), (false, vec![0x00])];
    for mapping in mappings {
        let actual: bool = VecDeque::from(mapping.1).decode().unwrap();
        assert_eq!(mapping.0, actual);
    }
}

#[test]
fn boolean_test_decoding_err() {
    let mappings: Vec<Vec<u8>> = vec![vec![0x42], vec![0x21]];
    for mapping in mappings {
        let actual: Result<bool, ProtocolError> = VecDeque::from(mapping).decode();
        assert!(actual.is_err());
        assert_eq!(actual.unwrap_err(), ProtocolError::InvalidData);
    }
}

#[test]
fn boolean_test_decoding_err_empty() {
    let actual: Result<bool, ProtocolError> = VecDeque::from(vec![]).decode();
    assert!(actual.is_err());
    assert_eq!(actual.unwrap_err(), ProtocolError::Truncated);
}

#[test]
fn boolean_test_encoding() {
    let mappings: Vec<(bool, Vec<u8>)> = vec![(true, vec![0x01]), (false, vec![0x00])];
    for mapping in mappings {
        assert_eq!(VecDeque::from(mapping.1), mapping.0.encode());
    }
}

#[test]
fn test_decoding_unsigned() {
    let mappings: Vec<(u8, Vec<u8>)> = vec![(0x01, vec![0x01]), (0x00, vec![0x00])];
    for mapping in mappings {
        let actual: u8 = VecDeque::from(mapping.1).decode().unwrap();
        assert_eq!(mapping.0, actual);
    }
}

#[test]
fn test_decoding_err_unsigned() {
    let actual: Result<u8, ProtocolError> = VecDeque::from(vec![]).decode();
    assert!(actual.is_err());
}

#[test]
fn test_encoding_unsigned() {
    let mappings: Vec<(u8, Vec<u8>)> = vec![(0x01, vec![0x01]), (0x00, vec![0x00])];
    for mapping in mappings {
        assert_eq!(VecDeque::from(mapping.1), mapping.0.encode());
    }
}

#[test]
fn test_decoding_signed() {
    let mappings: Vec<(i8, Vec<u8>)> = vec![
        (0x01, vec![0x01]),
        (0x00, vec![0x00]),
        (-128, vec![0x80]),
        (127, vec![0x7F]),
    ];
    for mapping in mappings {
        let actual: i8 = VecDeque::from(mapping.1).decode().unwrap();
        assert_eq!(mapping.0, actual);
    }
}

#[test]
fn test_decoding_err_signed() {
    let actual: Result<i8, ProtocolError> = VecDeque::from(vec![]).decode();
    assert!(actual.is_err());
}

#[test]
fn test_encoding_signed() {
    let mappings: Vec<(i8, Vec<u8>)> = vec![
        (0x01, vec![0x01]),
        (0x00, vec![0x00]),
        (-128, vec![0x80]),
        (127, vec![0x7F]),
    ];
    for mapping in mappings {
        assert_eq!(VecDeque::from(mapping.1), mapping.0.encode());
    }
}

#[test]
fn signed_byte_test_decoding() {
    let mappings: Vec<(i8, Vec<u8>)> = vec![
        (0x01, vec![0x01]),
        (0x00, vec![0x00]),
        (-128, vec![0x80]),
        (127, vec![0x7F]),
    ];
    for mapping in mappings {
        let actual: i8 = VecDeque::from(mapping.1).decode().unwrap();
        assert_eq!(mapping.0, actual);
    }
}

#[test]
fn signed_byte_test_decoding_err() {
    let actual: Result<i8, ProtocolError> = VecDeque::from(vec![]).decode();
    assert!(actual.is_err());
}

#[test]
fn signed_byte_test_encoding() {
    let mappings: Vec<(i8, Vec<u8>)> = vec![
        (0x01, vec![0x01]),
        (0x00, vec![0x00]),
        (-128, vec![0x80]),
        (127, vec![0x7F]),
    ];
    for mapping in mappings {
        assert_eq!(VecDeque::from(mapping.1), mapping.0.encode());
    }
}

#[test]
fn ubyte_test_decoding() {
    let mappings: Vec<(u8, Vec<u8>)> = vec![(0x01, vec![0x01]), (0x00, vec![0x00])];
    for mapping in mappings {
        let actual: u8 = VecDeque::from(mapping.1).decode().unwrap();
        assert_eq!(mapping.0, actual);
    }
}

#[test]
fn ubyte_test_decoding_err() {
    let actual: Result<u8, ProtocolError> = VecDeque::from(vec![]).decode();
    assert!(actual.is_err());
}

#[test]
fn ubyte_test_encoding() {
    let mappings: Vec<(u8, Vec<u8>)> = vec![(0x01, vec![0x01]), (0x00, vec![0x00])];
    for mapping in mappings {
        assert_eq!(VecDeque::from(mapping.1), mapping.0.encode());
    }
}

#[test]
fn chat_mode_test_decoding() {
    let mappings: Vec<(ChatMode, Vec<u8>)> = vec![
        (ChatMode::Enabled, vec![0x00]),
        (ChatMode::CommandsOnly, vec![0x01, 0x02]),
        (ChatMode::Hidden, vec![0x02]),
    ];
    for mapping in mappings {
        let actual: ChatMode = VecDeque::from(mapping.1).decode().unwrap();
        assert_eq!(mapping.0, actual);
    }
}

#[test]
fn chat_mode_test_decoding_err() {
    let mappings: Vec<Vec<u8>> = vec![vec![0x42], vec![0x07, 0x03]];
    for mapping in mappings {
        let actual: Result<ChatMode, ProtocolError> = VecDeque::from(mapping).decode();
        assert!(actual.is_err());
        assert_eq!(actual.unwrap_err(), ProtocolError::InvalidData);
    }
}

#[test]
fn chat_mode_test_decoding_err_empty() {
    let actual: Result<ChatMode, ProtocolError> = VecDeque::from(vec![]).decode();
    assert!(actual.is_err());
    assert_eq!(actual.unwrap_err(), ProtocolError::Truncated);
}

#[test]
fn main_hand_test_decoding() {
    let mappings: Vec<(MainHand, Vec<u8>)> =
        vec![(MainHand::Left, vec![0x00]), (MainHand::Right, vec![0x01])];
    for mapping in mappings {
        let actual: MainHand = VecDeque::from(mapping.1).decode().unwrap();
        assert_eq!(mapping.0, actual);
    }
}

#[test]
fn main_hand_test_decoding_err() {
    let mappings: Vec<Vec<u8>> = vec![vec![0x42], vec![0x05]];
    for mapping in mappings {
        let actual: Result<MainHand, ProtocolError> = VecDeque::from(mapping).decode();
        assert!(actual.is_err());
        assert_eq!(actual.unwrap_err(), ProtocolError::InvalidData);
    }
}

#[test]
fn main_hand_test_decoding_err_empty() {
    let actual: Result<MainHand, ProtocolError> = VecDeque::from(vec![]).decode();
    assert!(actual.is_err());
    assert_eq!(actual.unwrap_err(), ProtocolError::Truncated);
}

#[test]
fn short_test_read_unsigned_short_on_vec() {
    let mappings: Vec<(u16, Vec<u8>)> = vec![
        (25565, vec![99, 221]),
        (25555, vec![99, 211]),
        (24555, vec![95, 235]),
    ];
    for mapping in mappings {
        let actual: u16 = VecDeque::from(mapping.1).decode().unwrap();
        assert_eq!(mapping.0, actual);
    }
}

#[test]
fn long_test_read_long_on_vec() {
    let mappings: Vec<(i64, Vec<u8>)> = vec![
        (0, vec![0, 0, 0, 0, 0, 0, 0, 0]),
        (1, vec![0, 0, 0, 0, 0, 0, 0, 1]),
        (-1, vec![0xFF, 0xFF, 0xFF, 0xFF, 0xFF, 0xFF, 0xFF, 0xFF]),
        (127, vec![0, 0, 0, 0, 0, 0, 0, 127]),
        (-127, vec![0xFF, 0xFF, 0xFF, 0xFF, 0xFF, 0xFF, 0xFF, 0x81]),
        (-0x8000000000000000, vec![0x80, 0, 0, 0, 0, 0, 0, 0]),
        (
            0x7FFFFFFFFFFFFFFF,
            vec![0x7F, 0xFF, 0xFF, 0xFF, 0xFF, 0xFF, 0xFF, 0xFF],
        ),
    ];
    for mapping in mappings {
        let actual: i64 = VecDeque::from(mapping.1).decode().unwrap();
        assert_eq!(mapping.0, actual);
    }
}

#[test]
fn long_test_write_long_to_vec() {
    let mappings: Vec<(i64, Vec<u8>)> = vec![
        (0, vec![0, 0, 0, 0, 0, 0, 0, 0]),
        (1, vec![0, 0, 0, 0, 0, 0, 0, 1]),
        (-1, vec![0xFF, 0xFF, 0xFF, 0xFF, 0xFF, 0xFF, 0xFF, 0xFF]),
        (127, vec![0, 0, 0, 0, 0, 0, 0, 127]),
        (-127, vec![0xFF, 0xFF, 0xFF, 0xFF, 0xFF, 0xFF, 0xFF, 0x81]),
        (-0x8000000000000000, vec![0x80, 0, 0, 0, 0, 0, 0, 0]),
        (
            0x7FFFFFFFFFFFFFFF,
            vec![0x7F, 0xFF, 0xFF, 0xFF, 0xFF, 0xFF, 0xFF, 0xFF],
        ),
    ];
    for mapping in mappings {
        assert_eq!(VecDeque::from(mapping.1), mapping.0.encode());
    }
}

#[test]
fn test_read_float_on_vec() {
    let mappings: Vec<(f32, Vec<u8>)> = vec![
        (12.5f32, vec![0x41, 0x48, 0, 0]),
        (-12.5f32, vec![0xC1, 0x48, 0, 0]),
        (1f32, vec![0x3F, 0x80, 0, 0]),
        (-1f32, vec![0xBF, 0x80, 0, 0]),
    ];
    for mapping in mappings {
        let actual: FloatBits = VecDeque::from(mapping.1).decode().unwrap();
        assert_eq!(mapping.0.to_bits(), actual.0);
    }
}

#[test]
fn test_write_float_to_vec() {
    let mappings: Vec<(f32, Vec<u8>)> = vec![
        (12.5f32, vec![0x41, 0x48, 0, 0]),
        (-12.5f32, vec![0xC1, 0x48, 0, 0]),
        (1f32, vec![0x3F, 0x80, 0, 0]),
        (-1f32, vec![0xBF, 0x80, 0, 0]),
    ];
    for mapping in mappings {
        let bits = FloatBits(mapping.0.to_bits());
        assert_eq!(VecDeque::from(mapping.1), bits.encode());
    }
}

#[test]
fn varint_test_read_varint_from_vec() {
    let mappings: Vec<(i32, Vec<u8>)> = vec![
        (0, vec![0x00]),
        (1, vec![0x01]),
        (127, vec![0x7f]),
        (128, vec![0x80, 0x01]),
        (255, vec![0xff, 0x01]),
        (2147483647, vec![0xff, 0xff, 0xff, 0xff, 0x07]),
        (-1, vec![0xff, 0xff, 0xff, 0xff, 0x0f]),
        (-2147483648, vec![0x80, 0x80, 0x80, 0x80, 0x08]),
    ];
    for mapping in mappings {
        let expected: Varint = VecDeque::from(mapping.1).decode().unwrap();
        assert_eq!(mapping.0, expected);
    }
}

#[test]
fn test_read_err() {
    let mappings: Vec<Vec<u8>> = vec![vec![]];
    for mapping in mappings {
        let expected: Result<Varint, ProtocolError> = VecDeque::from(mapping).decode();
        assert!(expected.is_err());
        assert_eq!(expected.unwrap_err(), ProtocolError::Truncated);
    }
}

#[test]
fn varint_test_write_vec_from_varint_negative() {
    let mappings: Vec<(i32, Vec<u8>)> = vec![
        (-1, vec![0xff, 0xff, 0xff, 0xff, 0x0f]),
        (-2147483648, vec![0x80, 0x80, 0x80, 0x80, 0x08]),
    ];
    for mapping in mappings {
        assert_eq!(VecDeque::from(mapping.1), Varint(mapping.0).encode());
    }
}

#[test]
fn varint_test_write_vec_from_varint_positive() {
    let mappings: Vec<(i32, Vec<u8>)> = vec![
        (0, vec![0x00]),
        (1, vec![0x01]),
        (127, vec![0x7f]),
        (128, vec![0x80, 0x01]),
        (255, vec![0xff, 0x01]),
        (2147483647, vec![0xff, 0xff, 0xff, 0xff, 0x07]),
    ];
    for mapping in mappings {
        assert_eq!(VecDeque::from(mapping.1), Varint(mapping.0).encode());
    }
}

#[test]
fn test_write_vec_from_usize() {
    let mappings: Vec<(usize, Vec<u8>)> = vec![
        (0, vec![0x00]),
        (1, vec![0x01]),
        (127, vec![0x7f]),
        (128, vec![0x80, 0x01]),
        (255, vec![0xff, 0x01]),
        (2147483647, vec![0xff, 0xff, 0xff, 0xff, 0x07]),
    ];
    for mapping in mappings {
        assert_eq!(VecDeque::from(mapping.1), mapping.0.encode());
    }
}

#[test]
fn test_varint_and_i32_are_same() {
    for i in (i32::MIN..=i32::MAX).take(1000) {
        assert_eq!(i, Varint(i));
    }
}

#[test]
fn varint_overflow_on_sixth_group() {
    let actual: Result<Varint, ProtocolError> =
        VecDeque::from(vec![0x80, 0x80, 0x80, 0x80, 0x80, 0x80]).decode();
    assert_eq!(actual.unwrap_err(), ProtocolError::Overflow);
}

#[test]
fn varint_truncated_on_unfinished_groups() {
    let actual: Result<Varint, ProtocolError> = VecDeque::from(vec![0x80, 0x80]).decode();
    assert_eq!(actual.unwrap_err(), ProtocolError::Truncated);
}

#[test]
fn varint_round_trip_samples() {
    for v in [0i32, 1, -1, 127, 128, 255, 300, 25565, i32::MAX, i32::MIN, -42] {
        let mut q = Varint(v).encode();
        let back = varint::Varint::decode(&mut q).unwrap();
        assert_eq!(v, back.0);
        assert!(q.is_empty());
    }
}

#[test]
fn string_read_string() {
    let vector = vec![9, 108, 111, 99, 97, 108, 104, 111, 115, 116];
    assert_eq!("localhost", VecDeque::from(vector).read_string(9).unwrap());
}

#[test]
fn write_str() {
    let expected = vec![9, 108, 111, 99, 97, 108, 104, 111, 115, 116];
    assert_eq!(VecDeque::from(expected), "localhost".encode());
}

#[test]
fn write_string() {
    let expected = vec![9, 108, 111, 99, 97, 108, 104, 111, 115, 116];
    assert_eq!(VecDeque::from(expected), "localhost".to_owned().encode());
}

#[test]
fn string_read_string_should_err_if_too_long() {
    let vector = vec![111, 108, 111, 99, 97, 108, 104, 111, 115, 116];
    let actual = VecDeque::from(vector).read_string(9);
    assert!(actual.is_err());
    assert_eq!(actual.unwrap_err(), ProtocolError::TooLarge);
}

#[test]
fn string_read_string_zero_length_rejected() {
    let actual = VecDeque::from(vec![0x00]).read_string(9);
    assert_eq!(actual.unwrap_err(), ProtocolError::EmptyOrNegativeLength);
}

#[test]
fn string_read_string_truncated() {
    let actual = VecDeque::from(vec![5, 104, 105]).read_string(9);
    assert_eq!(actual.unwrap_err(), ProtocolError::Truncated);
}

#[test]
fn double_bits_match_ieee() {
    for v in [
        0i32, 1, -1, 2, 3, 10, 100, -100, 4096, 33554431, -33554432, i32::MAX, i32::MIN,
    ] {
        let bits = float_bits::double_bits_from_i32(v);
        assert_eq!((v as f64).to_bits(), bits.0);
    }
}
