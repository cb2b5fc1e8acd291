//! The length-prefixed string codec.
//!
//! Wire form: a varint byte length followed by the raw bytes.  The
//! protocol treats every character as exactly one byte in both
//! directions: decoding turns each byte into the character with that code
//! point, encoding truncates each character's code point to a byte.  Each
//! field carries a caller-supplied maximum byte length; a declared length
//! above it is rejected as too large.

use crate::coding::varint::{varint_bytes, varint_parse, Varint};
use crate::error::ProtocolError;
use std::collections::VecDeque;
use vstd::prelude::*;

verus! {

/// Each byte read as the character with that code point.
pub open spec fn bytes_as_chars(s: Seq<u8>) -> Seq<char> {
    s.map_values(|b: u8| b as char)
}

/// Each character's code point truncated to one byte.
pub open spec fn chars_as_bytes(s: Seq<char>) -> Seq<u8> {
    s.map_values(|c: char| (c as u32 % 256) as u8)
}

/// The wire form of a string: a varint length prefix, then one byte per
/// character.
pub open spec fn string_bytes(s: Seq<char>) -> Seq<u8> {
    varint_bytes(s.len()) + chars_as_bytes(s)
}

/// The outcome of reading one string bounded by `max` from the front of
/// `s`, with the bytes consumed.
pub open spec fn string_scan(s: Seq<u8>, max: u16) -> (Result<Seq<char>, ProtocolError>, int) {
    let pre = varint_parse(s);
    match pre.0 {
        Err(e) => (Err(e), pre.1),
        Ok(len) => {
            if len <= 0 {
                (Err(ProtocolError::EmptyOrNegativeLength), pre.1)
            } else if len > max as i32 {
                (Err(ProtocolError::TooLarge), pre.1)
            } else if s.len() - pre.1 < len as int {
                (Err(ProtocolError::Truncated), pre.1)
            } else {
                (Ok(bytes_as_chars(s.subrange(pre.1, pre.1 + len as int))), pre.1 + len as int)
            }
        },
    }
}

/// A string whose declared length is valid but exceeds the bytes that
/// remain is reported as truncated, never as partial data.
pub proof fn lemma_string_truncated(s: Seq<u8>, max: u16)
    requires
        ({
            let pre = varint_parse(s);
            &&& pre.0 matches Ok(len)
            &&& 0 < len <= max
            &&& s.len() - pre.1 < len
        }),
    ensures
        string_scan(s, max).0 == Err::<Seq<char>, ProtocolError>(ProtocolError::Truncated),
        string_scan(s, max).1 == varint_parse(s).1,
{
}

/// A string scan never consumes more bytes than the sequence holds.
pub proof fn lemma_string_scan_consumed(s: Seq<u8>, max: u16)
    ensures
        0 <= string_scan(s, max).1 <= s.len(),
{
    crate::coding::varint::lemma_varint_parse_consumed(s);
}

/// Relies on `String::push`: appends the given character to the string.
#[verifier::external_body]
fn push_char(s: &mut String, c: char)
    ensures
        final(s)@ == old(s)@.push(c),
{
    s.push(c);
}

/// Reads one length-prefixed string from the queue, rejecting declared
/// lengths of zero or less, lengths above `max_size`, and prefixes that
/// announce more bytes than remain.
pub fn read_string(q: &mut VecDeque<u8>, max_size: u16) -> (r: Result<String, ProtocolError>)
    ensures
        final(q)@ == old(q)@.skip(string_scan(old(q)@, max_size).1),
        match string_scan(old(q)@, max_size).0 {
            Ok(chars) => r matches Ok(out) && out@ == chars,
            Err(e) => r == Err::<String, ProtocolError>(e),
        },
{
    let ghost s0 = q@;
    proof {
        crate::coding::varint::lemma_varint_parse_consumed(s0);
    }
    let length = match Varint::decode(q) {
        Err(e) => {
            return Err(e);
        },
        Ok(v) => v.0,
    };
    let ghost pre = varint_parse(s0).1;
    proof {
        assert(q@.len() == s0.len() - pre);
    }
    if length <= 0 {
        return Err(ProtocolError::EmptyOrNegativeLength);
    }
    if length > max_size as i32 {
        return Err(ProtocolError::TooLarge);
    }
    let len = length as usize;
    if q.len() < len {
        return Err(ProtocolError::Truncated);
    }
    let mut out = String::new();
    let mut i: usize = 0;
    while i < len
        invariant
            i <= len,
            0 <= pre,
            pre + len <= s0.len(),
            len <= q@.len() + i,
            q@ == s0.skip(pre + i as int),
            out@ == bytes_as_chars(s0.subrange(pre, pre + i as int)),
        decreases len - i,
    {
        let ghost qpre = q@;
        proof {
            assert(qpre[0] == s0[pre + i as int]) by {
                assert(s0.skip(pre + i as int)[0] == s0[pre + i as int]);
            }
        }
        let byte = q.pop_front().unwrap();
        proof {
            assert(byte == s0[pre + i as int]);
            assert forall|j: int| 0 <= j < q@.len() implies q@[j] == s0.skip(
                pre + i as int + 1,
            )[j] by {
                assert(q@[j] == qpre[j + 1]);
                assert(qpre[j + 1] == s0.skip(pre + i as int)[j + 1]);
            }
            assert(q@ =~= s0.skip(pre + i as int + 1));
        }
        push_char(&mut out, byte as char);
        proof {
            assert(s0.subrange(pre, pre + i as int + 1).drop_last() =~= s0.subrange(
                pre,
                pre + i as int,
            ));
            assert(bytes_as_chars(s0.subrange(pre, pre + i as int + 1)) =~= bytes_as_chars(
                s0.subrange(pre, pre + i as int),
            ).push(s0[pre + i as int] as char));
        }
        i = i + 1;
    }
    proof {
        assert(s0.subrange(pre, pre + len as int) =~= s0.subrange(pre, pre + length as int));
    }
    Ok(out)
}

/// Encodes a string as its varint length prefix followed by one byte per
/// character.  Protocol strings never exceed the largest field bound.
pub fn encode_str(s: &str) -> (r: VecDeque<u8>)
    requires
        s@.len() <= 32767,
    ensures
        r@ == string_bytes(s@),
{
    let len = s.unicode_len();
    let mut out = crate::coding::varint::encode_usize(len);
    proof {
        assert(chars_as_bytes(s@.take(0)) =~= Seq::<u8>::empty());
        assert(out@ =~= varint_bytes(s@.len()) + chars_as_bytes(s@.take(0)));
    }
    let mut i: usize = 0;
    while i < len
        invariant
            i <= len,
            len == s@.len(),
            s@.len() <= 32767,
            out@ == varint_bytes(s@.len()) + chars_as_bytes(s@.take(i as int)),
        decreases len - i,
    {
        let c = s.get_char(i);
        let byte: u8 = ((c as u32) % 256) as u8;
        out.push_back(byte);
        proof {
            assert(chars_as_bytes(s@.take(i as int + 1)) =~= chars_as_bytes(
                s@.take(i as int),
            ).push((s@[i as int] as u32 % 256) as u8));
            assert(out@ =~= varint_bytes(s@.len()) + chars_as_bytes(s@.take(i as int + 1)));
        }
        i = i + 1;
    }
    proof {
        assert(s@.take(len as int) =~= s@);
    }
    out
}

impl crate::coding::Encodeable for String {
    open spec fn encodable(&self) -> bool {
        self@.len() <= 32767
    }

    open spec fn encoding(&self) -> Seq<u8> {
        string_bytes(self@)
    }

    fn encode(&self) -> (r: VecDeque<u8>) {
        encode_str(self.as_str())
    }
}

impl crate::coding::Encodeable for str {
    open spec fn encodable(&self) -> bool {
        self@.len() <= 32767
    }

    open spec fn encoding(&self) -> Seq<u8> {
        string_bytes(self@)
    }

    fn encode(&self) -> (r: VecDeque<u8>) {
        encode_str(self)
    }
}

/// Encoding then decoding a string yields the same characters back,
/// provided every character is a single byte (code point below 256), the
/// string is not empty, and it fits the field bound.
pub proof fn lemma_string_round_trip(s: Seq<char>, max: u16)
    requires
        0 < s.len() <= max,
        forall|i: int| 0 <= i < s.len() ==> #[trigger] (s[i] as u32) < 256,
    ensures
        string_scan(string_bytes(s), max) == (
            Ok::<Seq<char>, ProtocolError>(s),
            string_bytes(s).len() as int,
        ),
{
    let w = string_bytes(s);
    crate::coding::varint::lemma_varint_parse_of_small(s.len() as nat, chars_as_bytes(s));
    let pre = varint_parse(w).1;
    assert(w.subrange(pre, pre + s.len() as int) =~= chars_as_bytes(s));
    assert(bytes_as_chars(chars_as_bytes(s)) =~= s) by {
        assert forall|i: int| 0 <= i < s.len() implies bytes_as_chars(chars_as_bytes(s))[i]
            == s[i] by {
            assert((s[i] as u32) < 256);
            let b = chars_as_bytes(s)[i];
            assert(b as u32 == s[i] as u32);
            assert(bytes_as_chars(chars_as_bytes(s))[i] == b as char);
            vstd::utf8::char_u32_cast(s[i], s[i] as u32);
            vstd::utf8::char_u32_cast(b as char, (b as char) as u32);
            assert((b as char) as u32 == b as u32);
        }
    }
}

} // verus!
