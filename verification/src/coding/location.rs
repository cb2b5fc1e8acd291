//! The packed-coordinate codec: `x` (26 bits), `y` (12 bits) and `z` (26
//! bits) packed into one big-endian 64-bit word as `x<<38 | y<<26 | z`.
//! Each field is masked to its width before packing and sign-extended on
//! unpacking, so the round trip is lossless exactly within the fields'
//! signed ranges.

use crate::coding::varint::i32_bits;
use crate::coding::{be_bytes, be_val, decode_be, encode_be};
use crate::error::ProtocolError;
use crate::location::Location;
use std::collections::VecDeque;
use vstd::arithmetic::div_mod::{
    lemma_fundamental_div_mod_converse, lemma_mod_multiples_vanish, lemma_small_mod,
};
use vstd::prelude::*;

verus! {

/// The 16-bit two's-complement representation of `v`, as a natural number.
pub open spec fn i16_bits(v: i16) -> nat {
    if v >= 0 {
        v as nat
    } else {
        (v + 0x1_0000) as nat
    }
}

/// The low 26 bits of the x coordinate.
pub open spec fn x_field(x: i32) -> nat {
    i32_bits(x) % 0x400_0000
}

/// The low 12 bits of the y coordinate.
pub open spec fn y_field(y: i16) -> nat {
    i16_bits(y) % 0x1000
}

/// The low 26 bits of the z coordinate.
pub open spec fn z_field(z: i32) -> nat {
    i32_bits(z) % 0x400_0000
}

/// The packed 64-bit word.
pub open spec fn pack(loc: Location) -> nat {
    x_field(loc.x) * 0x40_0000_0000 + y_field(loc.y) * 0x400_0000 + z_field(loc.z)
}

/// Sign extension of a 26-bit field.
pub open spec fn sign_extend_26(b: nat) -> int
    recommends
        b < 0x400_0000,
{
    if b < 0x200_0000 {
        b as int
    } else {
        b - 0x400_0000
    }
}

/// Sign extension of a 12-bit field.
pub open spec fn sign_extend_12(b: nat) -> int
    recommends
        b < 0x1000,
{
    if b < 0x800 {
        b as int
    } else {
        b - 0x1000
    }
}

/// The coordinate a packed word stands for: each field cut out of the
/// word and sign-extended.
pub open spec fn location_of_word(w: nat) -> Location
    recommends
        w < 0x1_0000_0000_0000_0000,
{
    Location {
        x: sign_extend_26(w / 0x40_0000_0000) as i32,
        y: sign_extend_12((w / 0x400_0000) % 0x1000) as i16,
        z: sign_extend_26(w % 0x400_0000) as i32,
    }
}

/// The eight-byte wire form of a coordinate.
pub open spec fn location_bytes(loc: Location) -> Seq<u8> {
    be_bytes(pack(loc), 8)
}

/// The outcome of reading one packed coordinate, with the bytes consumed.
pub open spec fn location_scan(s: Seq<u8>) -> (Result<Location, ProtocolError>, int) {
    if s.len() < 8 {
        (Err(ProtocolError::Truncated), 0)
    } else {
        (Ok(location_of_word(be_val(s.take(8)))), 8)
    }
}

impl crate::coding::Decodeable<Location, ProtocolError> for VecDeque<u8> {
    open spec fn decoded(pre: Seq<u8>, r: Result<Location, ProtocolError>, post: Seq<u8>) -> bool {
        post == pre.skip(location_scan(pre).1) && r == location_scan(pre).0
    }

    fn decode(&mut self) -> (r: Result<Location, ProtocolError>) {
        decode(self)
    }
}

impl crate::coding::Encodeable for Location {
    open spec fn encodable(&self) -> bool {
        true
    }

    open spec fn encoding(&self) -> Seq<u8> {
        location_bytes(*self)
    }

    fn encode(&self) -> (r: VecDeque<u8>) {
        encode(self)
    }
}

/// Encodes a coordinate by masking each field to its width and packing
/// all three into one big-endian long.
pub fn encode(loc: &Location) -> (r: VecDeque<u8>)
    ensures
        r@ == location_bytes(*loc),
{
    let xb: u32 = if loc.x >= 0 {
        loc.x as u32
    } else {
        ((loc.x as i64) + 0x1_0000_0000) as u32
    };
    let yb: u16 = if loc.y >= 0 {
        loc.y as u16
    } else {
        ((loc.y as i32) + 0x1_0000) as u16
    };
    let zb: u32 = if loc.z >= 0 {
        loc.z as u32
    } else {
        ((loc.z as i64) + 0x1_0000_0000) as u32
    };
    let xm: u64 = (xb % 0x400_0000) as u64;
    let ym: u64 = (yb % 0x1000) as u64;
    let zm: u64 = (zb % 0x400_0000) as u64;
    let word: u64 = xm * 0x40_0000_0000 + ym * 0x400_0000 + zm;
    let mut out: VecDeque<u8> = VecDeque::new();
    encode_be(word, 8, &mut out);
    assert(out@ =~= location_bytes(*loc));
    out
}

/// Decodes one packed coordinate from the front of the queue.
pub fn decode(q: &mut VecDeque<u8>) -> (r: Result<Location, ProtocolError>)
    ensures
        final(q)@ == old(q)@.skip(location_scan(old(q)@).1),
        r == location_scan(old(q)@).0,
{
    match decode_be(q, 8) {
        Err(e) => {
            assert(q@ =~= old(q)@.skip(0));
            Err(e)
        },
        Ok(word) => {
            proof {
                crate::coding::lemma_be_val_bound(old(q)@.take(8));
                crate::coding::lemma_pow256_8();
                assert(word as nat == be_val(old(q)@.take(8)));
            }
            let x_bits: u64 = word / 0x40_0000_0000;
            let y_bits: u64 = (word / 0x400_0000) % 0x1000;
            let z_bits: u64 = word % 0x400_0000;
            assert(x_bits < 0x400_0000) by {
                if x_bits >= 0x400_0000 {
                    vstd::arithmetic::div_mod::lemma_fundamental_div_mod(
                        word as int,
                        0x40_0000_0000,
                    );
                    vstd::arithmetic::mul::lemma_mul_inequality(
                        0x400_0000,
                        x_bits as int,
                        0x40_0000_0000,
                    );
                }
            }
            let x: i32 = if x_bits < 0x200_0000 {
                x_bits as i32
            } else {
                ((x_bits as i64) - 0x400_0000) as i32
            };
            let y: i16 = if y_bits < 0x800 {
                y_bits as i16
            } else {
                ((y_bits as i32) - 0x1000) as i16
            };
            let z: i32 = if z_bits < 0x200_0000 {
                z_bits as i32
            } else {
                ((z_bits as i64) - 0x400_0000) as i32
            };
            Ok(Location { x, y, z })
        },
    }
}

/// The coordinate codec is lossless within the stated ranges:
/// `x` and `z` in `[-33554432, 33554431]`, `y` in `[-2048, 2047]`.
pub proof fn lemma_location_round_trip(x: i32, y: i16, z: i32)
    requires
        -33554432 <= x <= 33554431,
        -2048 <= y <= 2047,
        -33554432 <= z <= 33554431,
    ensures
        location_bytes(Location { x, y, z }).len() == 8,
        location_scan(location_bytes(Location { x, y, z })) == (
            Ok::<Location, ProtocolError>(Location { x, y, z }),
            8int,
        ),
{
    let loc = Location { x, y, z };
    let xm = x_field(x);
    let ym = y_field(y);
    let zm = z_field(z);

    assert(xm == if x >= 0 {
        x as int
    } else {
        x + 0x400_0000
    }) by {
        if x >= 0 {
            lemma_small_mod(x as nat, 0x400_0000);
        } else {
            lemma_mod_multiples_vanish(63, x + 0x400_0000, 0x400_0000);
            lemma_small_mod((x + 0x400_0000) as nat, 0x400_0000);
        }
    }
    assert(ym == if y >= 0 {
        y as int
    } else {
        y + 0x1000
    }) by {
        if y >= 0 {
            lemma_small_mod(y as nat, 0x1000);
        } else {
            lemma_mod_multiples_vanish(15, y + 0x1000, 0x1000);
            lemma_small_mod((y + 0x1000) as nat, 0x1000);
        }
    }
    assert(zm == if z >= 0 {
        z as int
    } else {
        z + 0x400_0000
    }) by {
        if z >= 0 {
            lemma_small_mod(z as nat, 0x400_0000);
        } else {
            lemma_mod_multiples_vanish(63, z + 0x400_0000, 0x400_0000);
            lemma_small_mod((z + 0x400_0000) as nat, 0x400_0000);
        }
    }

    let w = pack(loc);
    crate::coding::lemma_pow256_8();
    assert(w < 0x1_0000_0000_0000_0000);
    crate::coding::lemma_be_bytes_len(w, 8);
    crate::coding::lemma_be_round_trip(w, 8);
    assert(location_bytes(loc).take(8) =~= location_bytes(loc));

    assert(w / 0x40_0000_0000 == xm && w % 0x40_0000_0000 == ym * 0x400_0000 + zm) by {
        lemma_fundamental_div_mod_converse(
            w as int,
            0x40_0000_0000,
            xm as int,
            (ym * 0x400_0000 + zm) as int,
        );
    }
    assert(w / 0x400_0000 == xm * 0x1000 + ym && w % 0x400_0000 == zm) by {
        assert(w == (xm * 0x1000 + ym) * 0x400_0000 + zm) by (nonlinear_arith)
            requires
                w == xm * 0x40_0000_0000 + ym * 0x400_0000 + zm,
        ;
        lemma_fundamental_div_mod_converse(
            w as int,
            0x400_0000,
            (xm * 0x1000 + ym) as int,
            zm as int,
        );
    }
    assert((xm * 0x1000 + ym) % 0x1000 == ym) by {
        lemma_mod_multiples_vanish(xm as int, ym as int, 0x1000);
        lemma_small_mod(ym, 0x1000);
    }
}

} // verus!
