//! The primitive value codec: variable-length integers, fixed-width
//! integers, booleans, length-prefixed strings, and the bit-packed
//! coordinate, each in its own module.
//!
//! Every decoder consumes bytes from the front of a `VecDeque<u8>` and its
//! contract is stated through a spec-level scan function that returns both
//! the outcome and the number of bytes consumed, so callers know exactly
//! what is left in the queue afterwards.  The fixed-width integers share
//! the big-endian helpers defined here.

pub mod boolean;
pub mod byte;
pub mod chat_mode;
pub mod client_settings;
pub mod difficulty;
pub mod dimension;
pub mod float_bits;
pub mod gamemode;
pub mod integer;
pub mod level_type;
pub mod location;
pub mod long;
pub mod main_hand;
pub mod short;
pub mod string;
pub mod varint;
pub mod vec_deque;

use crate::error::ProtocolError;
use std::collections::VecDeque;
use vstd::arithmetic::div_mod::lemma_fundamental_div_mod;
use vstd::prelude::*;

verus! {

/// Decoding from the wire format into the type `T`.  Each implementation
/// pins the outcome down with its `decoded` relation: given the bytes
/// before the call, it says exactly which result comes back and which
/// bytes remain.
pub trait Decodeable<T, E>: View {
    /// How the decode result and the remaining input relate to the
    /// input the decoder saw.
    spec fn decoded(pre: Self::V, r: Result<T, E>, post: Self::V) -> bool;

    /// Decodes one value of type `T` from the front of `self`.
    fn decode(&mut self) -> (r: Result<T, E>)
        ensures
            Self::decoded(old(self)@, r, final(self)@),
    ;
}

/// Encoding into the wire format: an array of bytes.  Each
/// implementation gives the bytes exactly through its `encoding`
/// function; `encodable` bounds the values the protocol can carry
/// (strings, for instance, are bounded by the largest field size).
pub trait Encodeable {
    /// Whether this value fits the wire format at all.
    spec fn encodable(&self) -> bool;

    /// The exact bytes this value encodes to.
    spec fn encoding(&self) -> Seq<u8>;

    /// Encodes this value.
    fn encode(&self) -> (r: VecDeque<u8>)
        requires
            self.encodable(),
        ensures
            r@ == self.encoding(),
    ;
}

/// Reading a length-prefixed string bounded by a caller-given maximum.
pub trait ReadString<E>: View {
    /// How the result and the remaining input relate to the input.
    spec fn string_read(pre: Self::V, max_size: u16, r: Result<String, E>, post: Self::V) -> bool;

    /// Reads one string of at most `max_size` bytes from the buffer.
    fn read_string(&mut self, max_size: u16) -> (r: Result<String, E>)
        ensures
            Self::string_read(old(self)@, max_size, r, final(self)@),
    ;
}

impl ReadString<ProtocolError> for VecDeque<u8> {
    open spec fn string_read(
        pre: Seq<u8>,
        max_size: u16,
        r: Result<String, ProtocolError>,
        post: Seq<u8>,
    ) -> bool {
        &&& post == pre.skip(string::string_scan(pre, max_size).1)
        &&& match string::string_scan(pre, max_size).0 {
            Ok(chars) => r matches Ok(out) && out@ == chars,
            Err(e) => r == Err::<String, ProtocolError>(e),
        }
    }

    fn read_string(&mut self, max_size: u16) -> (r: Result<String, ProtocolError>) {
        string::read_string(self, max_size)
    }
}

/// `256^n`.
pub open spec fn pow256(n: nat) -> nat
    decreases n,
{
    if n == 0 {
        1
    } else {
        256 * pow256((n - 1) as nat)
    }
}

/// The `n`-byte big-endian representation of the low `8 n` bits of `v`.
pub open spec fn be_bytes(v: nat, n: nat) -> Seq<u8>
    decreases n,
{
    if n == 0 {
        Seq::empty()
    } else {
        be_bytes(v / 256, (n - 1) as nat) + seq![(v % 256) as u8]
    }
}

/// The natural number a big-endian byte sequence stands for.
pub open spec fn be_val(s: Seq<u8>) -> nat
    decreases s.len(),
{
    if s.len() == 0 {
        0
    } else {
        be_val(s.drop_last()) * 256 + s.last() as nat
    }
}

pub proof fn lemma_be_bytes_len(v: nat, n: nat)
    ensures
        be_bytes(v, n).len() == n,
    decreases n,
{
    if n > 0 {
        lemma_be_bytes_len(v / 256, (n - 1) as nat);
    }
}

pub proof fn lemma_pow256_pos(n: nat)
    ensures
        pow256(n) >= 1,
    decreases n,
{
    if n > 0 {
        lemma_pow256_pos((n - 1) as nat);
    }
}

/// Big-endian encoding is lossless for values that fit in `n` bytes.
pub proof fn lemma_be_round_trip(v: nat, n: nat)
    requires
        v < pow256(n),
    ensures
        be_val(be_bytes(v, n)) == v,
    decreases n,
{
    if n == 0 {
    } else {
        lemma_be_bytes_len(v / 256, (n - 1) as nat);
        let s = be_bytes(v, n);
        assert(s.drop_last() =~= be_bytes(v / 256, (n - 1) as nat));
        assert(s.last() == (v % 256) as u8);
        assert(v / 256 < pow256((n - 1) as nat)) by {
            lemma_pow256_pos((n - 1) as nat);
            lemma_fundamental_div_mod(v as int, 256);
            if v / 256 >= pow256((n - 1) as nat) {
                vstd::arithmetic::mul::lemma_mul_inequality(
                    pow256((n - 1) as nat) as int,
                    (v / 256) as int,
                    256,
                );
            }
        }
        lemma_be_round_trip(v / 256, (n - 1) as nat);
        lemma_fundamental_div_mod(v as int, 256);
    }
}

/// The value of a big-endian sequence is below `256^len`.
pub proof fn lemma_be_val_bound(s: Seq<u8>)
    ensures
        be_val(s) < pow256(s.len()),
    decreases s.len(),
{
    if s.len() > 0 {
        lemma_be_val_bound(s.drop_last());
        vstd::arithmetic::mul::lemma_mul_inequality(
            be_val(s.drop_last()) as int + 1,
            pow256((s.len() - 1) as nat) as int,
            256,
        );
    }
}

/// Appends the `n`-byte big-endian form of `v` to `out`.
pub fn encode_be(v: u64, n: u8, out: &mut VecDeque<u8>)
    ensures
        final(out)@ == old(out)@ + be_bytes(v as nat, n as nat),
    decreases n,
{
    if n == 0 {
        assert(final(out)@ =~= old(out)@ + be_bytes(v as nat, 0));
    } else {
        encode_be(v / 256, n - 1, out);
        out.push_back((v % 256) as u8);
        assert(final(out)@ =~= old(out)@ + be_bytes(v as nat, n as nat));
    }
}

/// Consumes `n` bytes from the queue and returns their big-endian value,
/// or `Truncated` (consuming nothing) if fewer than `n` remain.
pub fn decode_be(q: &mut VecDeque<u8>, n: u8) -> (r: Result<u64, ProtocolError>)
    requires
        n <= 8,
    ensures
        old(q)@.len() < n as nat ==> r == Err::<u64, ProtocolError>(ProtocolError::Truncated)
            && final(q)@ == old(q)@,
        old(q)@.len() >= n as nat ==> r == Ok::<u64, ProtocolError>(
            be_val(old(q)@.take(n as int)) as u64,
        ) && final(q)@ == old(q)@.skip(n as int),
{
    if q.len() < n as usize {
        return Err(ProtocolError::Truncated);
    }
    let ghost s0 = q@;
    let mut acc: u64 = 0;
    let mut k: u8 = 0;
    proof {
        assert(s0.take(0) =~= Seq::<u8>::empty());
    }
    while k < n
        invariant
            k <= n <= 8,
            s0.len() >= n as nat,
            q@ == s0.skip(k as int),
            acc as nat == be_val(s0.take(k as int)),
            acc < pow256(k as nat),
        decreases n - k,
    {
        proof {
            lemma_pow256_bound8(k as nat);
        }
        assert(q@.len() == s0.len() - k as int);
        let byte = q.pop_front().unwrap();
        proof {
            assert(byte == s0[k as int]);
            assert(s0.take(k as int + 1).drop_last() =~= s0.take(k as int));
            assert(s0.take(k as int + 1).last() == s0[k as int]);
            assert(q@ =~= s0.skip(k as int + 1));
        }
        acc = acc * 256 + byte as u64;
        k = k + 1;
    }
    proof {
        lemma_be_val_bound(s0.take(n as int));
    }
    Ok(acc)
}

proof fn lemma_pow256_bound8(k: nat)
    requires
        k <= 7,
    ensures
        pow256(k) * 256 <= 0x1_0000_0000_0000_0000,
    decreases k,
{
    reveal_with_fuel(pow256, 9);
}

/// Dropping `a` bytes and then `b` more is dropping `a + b` at once;
/// sequential decoders chain their consumed counts through this.
pub proof fn lemma_skip_add<T>(s: Seq<T>, a: int, b: int)
    requires
        0 <= a <= s.len(),
        0 <= b <= s.len() - a,
    ensures
        s.skip(a).skip(b) == s.skip(a + b),
{
    assert(s.skip(a).skip(b) =~= s.skip(a + b));
}

/// `pow256(8)` as a plain bound, for callers that hold eight-byte values.
pub proof fn lemma_pow256_8()
    ensures
        pow256(8) == 0x1_0000_0000_0000_0000,
        pow256(4) == 0x1_0000_0000,
        pow256(2) == 0x1_0000,
{
    reveal_with_fuel(pow256, 9);
}

/// A byte sequence shorter than a field's required width makes every
/// fixed-width decoder report truncation and consume nothing: never
/// partial data.  (The varint and string decoders state the same law in
/// their own modules, where the required width is not a constant.)
pub proof fn lemma_fixed_width_decoders_reject_short_input(s: Seq<u8>)
    ensures
        s.len() < 1 ==> boolean::bool_scan(s) == (
            Err::<bool, ProtocolError>(ProtocolError::Truncated),
            0int,
        ),
        s.len() < 1 ==> byte::ubyte_scan(s) == (
            Err::<u8, ProtocolError>(ProtocolError::Truncated),
            0int,
        ),
        s.len() < 1 ==> byte::sbyte_scan(s) == (
            Err::<i8, ProtocolError>(ProtocolError::Truncated),
            0int,
        ),
        s.len() < 2 ==> short::ushort_scan(s) == (
            Err::<u16, ProtocolError>(ProtocolError::Truncated),
            0int,
        ),
        s.len() < 8 ==> long::long_scan(s) == (
            Err::<i64, ProtocolError>(ProtocolError::Truncated),
            0int,
        ),
        s.len() < 4 ==> float_bits::float_scan(s) == (
            Err::<float_bits::FloatBits, ProtocolError>(ProtocolError::Truncated),
            0int,
        ),
        s.len() < 8 ==> float_bits::double_scan(s) == (
            Err::<float_bits::DoubleBits, ProtocolError>(ProtocolError::Truncated),
            0int,
        ),
        s.len() < 8 ==> location::location_scan(s) == (
            Err::<crate::location::Location, ProtocolError>(ProtocolError::Truncated),
            0int,
        ),
{
}

} // verus!
