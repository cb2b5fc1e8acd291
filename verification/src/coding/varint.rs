//! The variable-length signed-32-bit integer codec.
//!
//! Wire form: one to five bytes, seven payload bits plus one continuation
//! bit per byte, least-significant group first.  Negative values are
//! encoded through their 32-bit two's-complement representation, so
//! encoding is total; decoding more than five groups is always an error.

use crate::error::ProtocolError;
use std::collections::VecDeque;
use vstd::arithmetic::div_mod::lemma_fundamental_div_mod;
use vstd::prelude::*;

verus! {

/// A signed 32-bit value carried on the wire in variable-length form.
#[derive(PartialEq, Eq, Structural, Clone, Copy, Debug)]
pub struct Varint(pub i32);

impl PartialEq<i32> for Varint {
    /// A varint equals the plain value it wraps.
    fn eq(&self, other: &i32) -> (r: bool)
        ensures
            r == (self.0 == *other),
    {
        self.0 == *other
    }
}

impl vstd::std_specs::cmp::PartialEqSpecImpl<i32> for Varint {
    open spec fn obeys_eq_spec() -> bool {
        true
    }

    open spec fn eq_spec(&self, other: &i32) -> bool {
        self.0 == *other
    }
}

impl PartialEq<Varint> for i32 {
    /// A plain value equals the varint that wraps it.
    fn eq(&self, other: &Varint) -> (r: bool)
        ensures
            r == (*self == other.0),
    {
        *self == other.0
    }
}

impl vstd::std_specs::cmp::PartialEqSpecImpl<Varint> for i32 {
    open spec fn obeys_eq_spec() -> bool {
        true
    }

    open spec fn eq_spec(&self, other: &Varint) -> bool {
        *self == other.0
    }
}

impl crate::coding::Decodeable<Varint, ProtocolError> for VecDeque<u8> {
    open spec fn decoded(pre: Seq<u8>, r: Result<Varint, ProtocolError>, post: Seq<u8>) -> bool {
        &&& post == pre.skip(varint_parse(pre).1)
        &&& r == match varint_parse(pre).0 {
            Ok(v) => Ok::<Varint, ProtocolError>(Varint(v)),
            Err(e) => Err::<Varint, ProtocolError>(e),
        }
    }

    fn decode(&mut self) -> (r: Result<Varint, ProtocolError>) {
        Varint::decode(self)
    }
}

impl crate::coding::Encodeable for Varint {
    open spec fn encodable(&self) -> bool {
        true
    }

    open spec fn encoding(&self) -> Seq<u8> {
        varint_bytes_of(self.0)
    }

    fn encode(&self) -> (r: VecDeque<u8>) {
        Varint::encode(self)
    }
}

impl crate::coding::Encodeable for usize {
    open spec fn encodable(&self) -> bool {
        *self <= u32::MAX
    }

    open spec fn encoding(&self) -> Seq<u8> {
        varint_bytes(*self as nat)
    }

    fn encode(&self) -> (r: VecDeque<u8>) {
        encode_usize(*self)
    }
}

/// The 32-bit two's-complement representation of `v`, as a natural number.
pub open spec fn i32_bits(v: i32) -> nat {
    if v >= 0 {
        v as nat
    } else {
        (v + 0x1_0000_0000) as nat
    }
}

/// The signed value whose 32-bit two's-complement representation is `n`.
pub open spec fn bits_to_i32(n: nat) -> i32
    recommends
        n < 0x1_0000_0000,
{
    if n < 0x8000_0000 {
        n as i32
    } else {
        (n - 0x1_0000_0000) as i32
    }
}

/// The minimal group sequence that encodes the natural number `v`:
/// seven bits per byte, least-significant group first, continuation bit
/// set on every byte but the last.
pub open spec fn varint_bytes(v: nat) -> Seq<u8>
    decreases v,
{
    if v < 128 {
        seq![v as u8]
    } else {
        seq![(v % 128 + 128) as u8] + varint_bytes(v / 128)
    }
}

/// The wire form of a signed 32-bit value.
pub open spec fn varint_bytes_of(v: i32) -> Seq<u8> {
    varint_bytes(i32_bits(v))
}

/// How many groups the encoding of `v` occupies.
pub open spec fn varint_group_count(v: nat) -> nat
    decreases v,
{
    if v < 128 {
        1
    } else {
        1 + varint_group_count(v / 128)
    }
}

/// Reads groups from the front of `s` with `budget` groups still allowed,
/// returning the decoded natural number (or the error) together with the
/// number of bytes consumed.  Running out of bytes is `Truncated`; asking
/// for a group beyond the budget is `Overflow`.
pub open spec fn varint_scan(s: Seq<u8>, budget: nat) -> (Result<nat, ProtocolError>, int)
    decreases budget,
{
    if s.len() == 0 {
        (Err(ProtocolError::Truncated), 0)
    } else if budget == 0 {
        (Err(ProtocolError::Overflow), 1)
    } else if s[0] < 128 {
        (Ok(s[0] as nat), 1)
    } else {
        let rec = varint_scan(s.skip(1), (budget - 1) as nat);
        (
            match rec.0 {
                Ok(v) => Ok(((s[0] - 128) + 128 * v) as nat),
                Err(e) => Err(e),
            },
            rec.1 + 1,
        )
    }
}

/// The result of decoding one varint from the front of `s`: the signed
/// value (the raw group number truncated to 32 bits) or the error, and the
/// number of bytes consumed.
pub open spec fn varint_parse(s: Seq<u8>) -> (Result<i32, ProtocolError>, int) {
    let rec = varint_scan(s, 5);
    (
        match rec.0 {
            Ok(raw) => Ok(bits_to_i32(raw % 0x1_0000_0000)),
            Err(e) => Err(e),
        },
        rec.1,
    )
}

/// A successful scan with `budget` groups yields a value below `128^budget`.
proof fn lemma_varint_scan_bound(s: Seq<u8>, budget: nat, bound: nat)
    requires
        pow128(budget) <= bound,
    ensures
        varint_scan(s, budget).0 matches Ok(v) ==> v < bound,
    decreases budget,
{
    if s.len() == 0 || budget == 0 {
    } else if s[0] < 128 {
        assert(pow128(budget) >= 128) by {
            lemma_pow128_at_least(budget);
        }
    } else {
        lemma_varint_scan_bound(s.skip(1), (budget - 1) as nat, pow128((budget - 1) as nat));
    }
}

/// A byte sequence that ends before a terminating group appears (every
/// byte still carries the continuation bit) makes the varint decoder
/// report truncation, never partial data.
pub proof fn lemma_varint_truncated(s: Seq<u8>)
    requires
        s.len() <= 5,
        forall|i: int| 0 <= i < s.len() ==> s[i] >= 128,
    ensures
        varint_parse(s) == (Err::<i32, ProtocolError>(ProtocolError::Truncated), s.len() as int),
{
    lemma_varint_scan_truncated(s, 5);
}

proof fn lemma_varint_scan_truncated(s: Seq<u8>, budget: nat)
    requires
        s.len() <= budget,
        forall|i: int| 0 <= i < s.len() ==> s[i] >= 128,
    ensures
        varint_scan(s, budget) == (
            Err::<nat, ProtocolError>(ProtocolError::Truncated),
            s.len() as int,
        ),
    decreases budget,
{
    if s.len() > 0 {
        assert(forall|i: int| 0 <= i < s.skip(1).len() ==> s.skip(1)[i] >= 128);
        lemma_varint_scan_truncated(s.skip(1), (budget - 1) as nat);
    }
}

/// A parse never consumes more bytes than the sequence holds.
pub proof fn lemma_varint_parse_consumed(s: Seq<u8>)
    ensures
        0 <= varint_parse(s).1 <= s.len(),
{
    lemma_varint_scan_consumed(s, 5);
}

/// A scan never consumes more bytes than the sequence holds.
proof fn lemma_varint_scan_consumed(s: Seq<u8>, budget: nat)
    ensures
        0 <= varint_scan(s, budget).1 <= s.len(),
    decreases budget,
{
    if s.len() > 0 && budget > 0 && s[0] >= 128 {
        lemma_varint_scan_consumed(s.skip(1), (budget - 1) as nat);
    }
}

/// `128^n`.
pub open spec fn pow128(n: nat) -> nat
    decreases n,
{
    if n == 0 {
        1
    } else {
        128 * pow128((n - 1) as nat)
    }
}

proof fn lemma_pow128_pos(n: nat)
    ensures
        pow128(n) >= 1,
    decreases n,
{
    if n > 0 {
        lemma_pow128_pos((n - 1) as nat);
    }
}

proof fn lemma_pow128_at_least(n: nat)
    requires
        n >= 1,
    ensures
        pow128(n) >= 128,
{
    lemma_pow128_pos((n - 1) as nat);
}

/// Values below `128^n` need at most `n` groups.
proof fn lemma_group_count_le(v: nat, n: nat)
    requires
        n >= 1,
        v < pow128(n),
    ensures
        varint_group_count(v) <= n,
    decreases v,
{
    if v >= 128 {
        lemma_pow128_at_least(n);
        assert(v < 128 * pow128((n - 1) as nat));
        assert(v / 128 < pow128((n - 1) as nat)) by {
            lemma_fundamental_div_mod(v as int, 128);
            if v / 128 >= pow128((n - 1) as nat) {
                vstd::arithmetic::mul::lemma_mul_inequality(
                    pow128((n - 1) as nat) as int,
                    (v / 128) as int,
                    128,
                );
            }
        }
        lemma_group_count_le(v / 128, (n - 1) as nat);
    }
}

/// Every 32-bit value needs at most five groups.
pub proof fn lemma_group_count_le_5(v: nat)
    requires
        v < 0x8_0000_0000,
    ensures
        varint_group_count(v) <= 5,
{
    reveal_with_fuel(pow128, 6);
    lemma_group_count_le(v, 5);
}

/// Scanning the encoding of `v` (with anything at all after it) succeeds,
/// returns `v` itself, and consumes exactly the encoding.
proof fn lemma_varint_scan_of_encoding(v: nat, rest: Seq<u8>, budget: nat)
    requires
        varint_group_count(v) <= budget,
    ensures
        varint_scan(varint_bytes(v) + rest, budget) == (
            Ok::<nat, ProtocolError>(v),
            varint_bytes(v).len() as int,
        ),
    decreases v,
{
    let s = varint_bytes(v) + rest;
    if v < 128 {
        assert(s[0] == v as u8);
    } else {
        let b0 = (v % 128 + 128) as u8;
        assert(s.skip(1) =~= varint_bytes(v / 128) + rest);
        lemma_varint_scan_of_encoding(v / 128, rest, (budget - 1) as nat);
        lemma_fundamental_div_mod(v as int, 128);
        assert(varint_bytes(v).len() == 1 + varint_bytes(v / 128).len());
    }
}

/// Parsing the encoding of any `i32` (with anything at all after it)
/// yields the value back and consumes exactly the encoding.
pub proof fn lemma_varint_parse_of_encoding(v: i32, rest: Seq<u8>)
    ensures
        varint_parse(varint_bytes_of(v) + rest) == (
            Ok::<i32, ProtocolError>(v),
            varint_bytes_of(v).len() as int,
        ),
{
    let bits = i32_bits(v);
    lemma_group_count_le_5(bits);
    lemma_varint_scan_of_encoding(bits, rest, 5);
    assert(bits % 0x1_0000_0000 == bits);
    assert(bits_to_i32(bits) == v);
}

/// The varint codec is lossless: decoding an encoded value yields the
/// value back and consumes the whole encoding.  This holds for every
/// `i32`, negative values included.
pub proof fn lemma_varint_round_trip(v: i32)
    ensures
        varint_parse(varint_bytes_of(v)) == (
            Ok::<i32, ProtocolError>(v),
            varint_bytes_of(v).len() as int,
        ),
{
    lemma_varint_parse_of_encoding(v, Seq::<u8>::empty());
    assert(varint_bytes_of(v) + Seq::<u8>::empty() =~= varint_bytes_of(v));
}

/// The encoding is exactly one byte per group.
pub proof fn lemma_varint_bytes_len(v: nat)
    ensures
        varint_bytes(v).len() == varint_group_count(v),
    decreases v,
{
    if v >= 128 {
        lemma_varint_bytes_len(v / 128);
    }
}

/// Parsing the encoding of a small non-negative value (with anything
/// after it) yields the value itself; length prefixes rely on this.
pub proof fn lemma_varint_parse_of_small(v: nat, rest: Seq<u8>)
    requires
        v < 0x8000_0000,
    ensures
        varint_parse(varint_bytes(v) + rest) == (
            Ok::<i32, ProtocolError>(v as i32),
            varint_bytes(v).len() as int,
        ),
{
    lemma_group_count_le_5(v);
    lemma_varint_scan_of_encoding(v, rest, 5);
}

/// Appends the group sequence of `value` to `out`.
fn encode_groups(value: u32, out: &mut VecDeque<u8>)
    ensures
        final(out)@ == old(out)@ + varint_bytes(value as nat),
    decreases value,
{
    let group: u8 = (value % 128) as u8;
    let next: u32 = value / 128;
    if next == 0 {
        out.push_back(group);
        assert(final(out)@ =~= old(out)@ + varint_bytes(value as nat));
    } else {
        out.push_back(group + 128);
        encode_groups(next, out);
        assert(final(out)@ =~= old(out)@ + varint_bytes(value as nat));
    }
}

/// Reads one group (and, recursively, its successors) from the queue;
/// `budget` counts how many further groups are still permitted.
fn decode_groups(q: &mut VecDeque<u8>, budget: u8) -> (r: Result<u64, ProtocolError>)
    requires
        budget <= 5,
    ensures
        final(q)@ == old(q)@.skip(varint_scan(old(q)@, budget as nat).1),
        r == match varint_scan(old(q)@, budget as nat).0 {
            Ok(v) => Ok::<u64, ProtocolError>(v as u64),
            Err(e) => Err::<u64, ProtocolError>(e),
        },
    decreases budget,
{
    proof {
        lemma_varint_scan_bound(old(q)@, budget as nat, pow128(budget as nat));
        reveal_with_fuel(pow128, 6);
    }
    match q.pop_front() {
        None => {
            assert(q@ =~= old(q)@.skip(0));
            Err(ProtocolError::Truncated)
        },
        Some(byte) => {
            assert(q@ =~= old(q)@.skip(1));
            if budget == 0 {
                Err(ProtocolError::Overflow)
            } else if byte < 128 {
                Ok(byte as u64)
            } else {
                proof {
                    lemma_varint_scan_bound(
                        old(q)@.skip(1),
                        (budget - 1) as nat,
                        pow128((budget - 1) as nat),
                    );
                    lemma_pow128_mono(budget as nat);
                }
                let ghost mid = q@;
                let r = decode_groups(q, budget - 1);
                proof {
                    let rec = varint_scan(old(q)@.skip(1), (budget - 1) as nat);
                    lemma_varint_scan_consumed(old(q)@.skip(1), (budget - 1) as nat);
                    assert(q@ =~= old(q)@.skip(rec.1 + 1));
                }
                match r {
                    Ok(v) => Ok(((byte - 128) as u64) + 128 * v),
                    Err(e) => Err(e),
                }
            }
        },
    }
}

proof fn lemma_pow128_mono(n: nat)
    requires
        1 <= n <= 5,
    ensures
        128 * pow128((n - 1) as nat) <= pow128(5),
    decreases n,
{
    reveal_with_fuel(pow128, 6);
}

impl Varint {
    /// Encodes this value as its minimal group sequence.
    pub fn encode(&self) -> (r: VecDeque<u8>)
        ensures
            r@ == varint_bytes_of(self.0),
    {
        let bits: u32 = if self.0 >= 0 {
            self.0 as u32
        } else {
            ((self.0 as i64) + 0x1_0000_0000) as u32
        };
        let mut result: VecDeque<u8> = VecDeque::new();
        encode_groups(bits, &mut result);
        assert(result@ =~= varint_bytes_of(self.0));
        result
    }

    /// Decodes one varint from the front of the queue, consuming exactly
    /// the bytes the spec-level parse accounts for.
    pub fn decode(q: &mut VecDeque<u8>) -> (r: Result<Varint, ProtocolError>)
        ensures
            final(q)@ == old(q)@.skip(varint_parse(old(q)@).1),
            r == match varint_parse(old(q)@).0 {
                Ok(v) => Ok::<Varint, ProtocolError>(Varint(v)),
                Err(e) => Err::<Varint, ProtocolError>(e),
            },
    {
        proof {
            lemma_varint_scan_bound(old(q)@, 5, pow128(5));
            reveal_with_fuel(pow128, 6);
        }
        match decode_groups(q, 5) {
            Err(e) => Err(e),
            Ok(raw) => {
                let low: u64 = raw % 0x1_0000_0000;
                let value: i32 = if low < 0x8000_0000 {
                    low as i32
                } else {
                    ((low as i64) - 0x1_0000_0000) as i32
                };
                Ok(Varint(value))
            },
        }
    }
}

/// Encodes a non-negative size (a length prefix) as a varint group
/// sequence.  Sizes above the 32-bit range do not occur in this protocol.
pub fn encode_usize(value: usize) -> (r: VecDeque<u8>)
    requires
        value <= u32::MAX,
    ensures
        r@ == varint_bytes(value as nat),
{
    let mut result: VecDeque<u8> = VecDeque::new();
    encode_groups(value as u32, &mut result);
    assert(result@ =~= varint_bytes(value as nat));
    result
}

} // verus!
