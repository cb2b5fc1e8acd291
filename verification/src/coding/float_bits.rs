//! Float and double fields travel as their IEEE-754 bit patterns, four or
//! eight bytes big-endian.  This library never computes with floating
//! point: it carries the bit patterns as plain integers, and builds the
//! exact double pattern of a small integer where the protocol needs one.

use crate::coding::{be_bytes, be_val, decode_be, encode_be};
use crate::error::ProtocolError;
use std::collections::VecDeque;
use vstd::arithmetic::power2::{
    lemma2_to64, lemma2_to64_rest, lemma_pow2_adds, lemma_pow2_pos, lemma_pow2_strictly_increases,
    pow2,
};
use vstd::prelude::*;

verus! {

/// The 32-bit pattern of a single-precision float.
#[derive(PartialEq, Eq, Structural, Clone, Copy, Debug)]
pub struct FloatBits(pub u32);

/// The 64-bit pattern of a double-precision float.
#[derive(PartialEq, Eq, Structural, Clone, Copy, Debug)]
pub struct DoubleBits(pub u64);

/// The outcome of reading one float pattern, with the bytes consumed.
pub open spec fn float_scan(s: Seq<u8>) -> (Result<FloatBits, ProtocolError>, int) {
    if s.len() < 4 {
        (Err(ProtocolError::Truncated), 0)
    } else {
        (Ok(FloatBits(be_val(s.take(4)) as u32)), 4)
    }
}

/// The outcome of reading one double pattern, with the bytes consumed.
pub open spec fn double_scan(s: Seq<u8>) -> (Result<DoubleBits, ProtocolError>, int) {
    if s.len() < 8 {
        (Err(ProtocolError::Truncated), 0)
    } else {
        (Ok(DoubleBits(be_val(s.take(8)) as u64)), 8)
    }
}

impl crate::coding::Decodeable<FloatBits, ProtocolError> for VecDeque<u8> {
    open spec fn decoded(pre: Seq<u8>, r: Result<FloatBits, ProtocolError>, post: Seq<u8>) -> bool {
        post == pre.skip(float_scan(pre).1) && r == float_scan(pre).0
    }

    fn decode(&mut self) -> (r: Result<FloatBits, ProtocolError>) {
        decode_float(self)
    }
}

impl crate::coding::Decodeable<DoubleBits, ProtocolError> for VecDeque<u8> {
    open spec fn decoded(pre: Seq<u8>, r: Result<DoubleBits, ProtocolError>, post: Seq<u8>) -> bool {
        post == pre.skip(double_scan(pre).1) && r == double_scan(pre).0
    }

    fn decode(&mut self) -> (r: Result<DoubleBits, ProtocolError>) {
        decode_double(self)
    }
}

impl crate::coding::Encodeable for FloatBits {
    open spec fn encodable(&self) -> bool {
        true
    }

    open spec fn encoding(&self) -> Seq<u8> {
        be_bytes(self.0 as nat, 4)
    }

    fn encode(&self) -> (r: VecDeque<u8>) {
        encode_float(self)
    }
}

impl crate::coding::Encodeable for DoubleBits {
    open spec fn encodable(&self) -> bool {
        true
    }

    open spec fn encoding(&self) -> Seq<u8> {
        be_bytes(self.0 as nat, 8)
    }

    fn encode(&self) -> (r: VecDeque<u8>) {
        encode_double(self)
    }
}

/// Decodes one float pattern from the front of the queue.
pub fn decode_float(q: &mut VecDeque<u8>) -> (r: Result<FloatBits, ProtocolError>)
    ensures
        final(q)@ == old(q)@.skip(float_scan(old(q)@).1),
        r == float_scan(old(q)@).0,
{
    match decode_be(q, 4) {
        Err(e) => {
            assert(q@ =~= old(q)@.skip(0));
            Err(e)
        },
        Ok(v) => {
            proof {
                crate::coding::lemma_be_val_bound(old(q)@.take(4));
                crate::coding::lemma_pow256_8();
            }
            Ok(FloatBits(v as u32))
        },
    }
}

/// Decodes one double pattern from the front of the queue.
pub fn decode_double(q: &mut VecDeque<u8>) -> (r: Result<DoubleBits, ProtocolError>)
    ensures
        final(q)@ == old(q)@.skip(double_scan(old(q)@).1),
        r == double_scan(old(q)@).0,
{
    match decode_be(q, 8) {
        Err(e) => {
            assert(q@ =~= old(q)@.skip(0));
            Err(e)
        },
        Ok(v) => {
            proof {
                crate::coding::lemma_be_val_bound(old(q)@.take(8));
                crate::coding::lemma_pow256_8();
            }
            Ok(DoubleBits(v))
        },
    }
}

/// Encodes a float pattern as four big-endian bytes.
pub fn encode_float(f: &FloatBits) -> (r: VecDeque<u8>)
    ensures
        r@ == be_bytes(f.0 as nat, 4),
{
    let mut out: VecDeque<u8> = VecDeque::new();
    encode_be(f.0 as u64, 4, &mut out);
    assert(out@ =~= be_bytes(f.0 as nat, 4));
    out
}

/// Encodes a double pattern as eight big-endian bytes.
pub fn encode_double(d: &DoubleBits) -> (r: VecDeque<u8>)
    ensures
        r@ == be_bytes(d.0 as nat, 8),
{
    let mut out: VecDeque<u8> = VecDeque::new();
    encode_be(d.0, 8, &mut out);
    assert(out@ =~= be_bytes(d.0 as nat, 8));
    out
}

/// The position of the highest set bit.
pub open spec fn log2_floor(m: nat) -> nat
    decreases m,
{
    if m < 2 {
        0
    } else {
        1 + log2_floor(m / 2)
    }
}

/// The IEEE-754 double-precision bit pattern of an integer in the 32-bit
/// range: sign bit, biased exponent, and the 52-bit mantissa with its
/// leading one removed.  Every such integer is exactly representable.
pub open spec fn double_bits_of_int(v: int) -> nat
    recommends
        -0x8000_0000 <= v <= 0x7FFF_FFFF,
{
    if v == 0 {
        0
    } else {
        let m = if v < 0 {
            (-v) as nat
        } else {
            v as nat
        };
        let e = log2_floor(m);
        let sign: nat = if v < 0 {
            pow2(63)
        } else {
            0
        };
        (sign + (1023 + e) * pow2(52) + (m * pow2((52 - e) as nat) - pow2(52))) as nat
    }
}

proof fn lemma_log2_floor_bounds(m: nat)
    requires
        m >= 1,
    ensures
        pow2(log2_floor(m)) <= m < pow2(log2_floor(m) + 1),
    decreases m,
{
    if m < 2 {
        lemma2_to64();
    } else {
        lemma_log2_floor_bounds(m / 2);
        let e = log2_floor(m / 2);
        assert(pow2(e + 1) == 2 * pow2(e)) by {
            lemma_pow2_adds(1, e);
            lemma2_to64();
        }
        assert(pow2(e + 2) == 2 * pow2(e + 1)) by {
            lemma_pow2_adds(1, e + 1);
            lemma2_to64();
        }
    }
}

proof fn lemma_log2_floor_mono(m: nat, n: nat)
    requires
        1 <= m,
        m < pow2(n),
    ensures
        log2_floor(m) < n,
{
    lemma_log2_floor_bounds(m);
    if log2_floor(m) >= n {
        lemma_pow2_pos(log2_floor(m));
        if log2_floor(m) > n {
            lemma_pow2_strictly_increases(n, log2_floor(m));
        }
    }
}

/// Computes the exact double-precision bit pattern of a 32-bit integer,
/// without touching floating point: the coordinate fields of the
/// position packet travel as doubles.
pub fn double_bits_from_i32(v: i32) -> (r: DoubleBits)
    ensures
        r.0 as nat == double_bits_of_int(v as int),
{
    if v == 0 {
        return DoubleBits(0);
    }
    let m: u64 = if v < 0 {
        (-(v as i64)) as u64
    } else {
        v as u64
    };
    proof {
        lemma2_to64();
        lemma2_to64_rest();
        assert(m as nat >= 1);
        lemma_log2_floor_mono(m as nat, 32);
    }
    let mut e: u64 = 0;
    let mut t: u64 = m;
    while t >= 2
        invariant
            t >= 1,
            log2_floor(m as nat) == e + log2_floor(t as nat),
            e <= log2_floor(m as nat),
            log2_floor(m as nat) < 32,
        decreases t,
    {
        proof {
            assert(log2_floor(t as nat) >= 1);
        }
        t = t / 2;
        e = e + 1;
    }
    proof {
        assert(log2_floor(t as nat) == 0);
        assert(e == log2_floor(m as nat));
        assert(e < 32);
    }
    let shift: u64 = 52 - e;
    let mut p: u64 = 1;
    let mut i: u64 = 0;
    while i < shift
        invariant
            i <= shift <= 52,
            p == pow2(i as nat),
        decreases shift - i,
    {
        proof {
            lemma2_to64();
            lemma2_to64_rest();
            if i as nat + 1 <= 52 {
                lemma_pow2_adds(i as nat, 1);
                if i as nat + 1 < 52 {
                    lemma_pow2_strictly_increases(i as nat + 1, 52);
                }
            }
        }
        p = p * 2;
        i = i + 1;
    }
    proof {
        lemma2_to64();
        lemma2_to64_rest();
        lemma_log2_floor_bounds(m as nat);
        lemma_pow2_adds(e as nat, (52 - e as nat) as nat);
        lemma_pow2_adds(e as nat + 1, (52 - e as nat) as nat);
        assert(m as nat * pow2((52 - e as nat) as nat) >= pow2(e as nat) * pow2(
            (52 - e as nat) as nat,
        )) by {
            vstd::arithmetic::mul::lemma_mul_inequality(
                pow2(e as nat) as int,
                m as int,
                pow2((52 - e as nat) as nat) as int,
            );
        }
        assert(m as nat * pow2((52 - e as nat) as nat) < pow2(e as nat + 1) * pow2(
            (52 - e as nat) as nat,
        )) by {
            vstd::arithmetic::mul::lemma_mul_strict_inequality(
                m as int,
                pow2(e as nat + 1) as int,
                pow2((52 - e as nat) as nat) as int,
            );
        }
    }
    let mantissa_full: u64 = m * p;
    let frac: u64 = mantissa_full - 0x10_0000_0000_0000;
    let expo: u64 = (1023 + e) * 0x10_0000_0000_0000;
    let sign: u64 = if v < 0 {
        0x8000_0000_0000_0000
    } else {
        0
    };
    DoubleBits(sign + expo + frac)
}

} // verus!
