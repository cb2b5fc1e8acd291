//! The packet framing layer: a varint total length, a varint packet id,
//! and the payload.  The total length counts the id's bytes plus the
//! payload and excludes itself.

use crate::coding::varint::{
    i32_bits, lemma_varint_parse_consumed, varint_bytes, varint_bytes_of, varint_parse, Varint,
};
use crate::error::ProtocolError;
use std::collections::VecDeque;
use vstd::prelude::*;

verus! {

/// What a packet carries.
#[derive(Debug)]
pub enum PacketData {
    Command,
    Data(VecDeque<u8>),
    Message(String),
}

impl PacketData {
    /// The payload bytes; meaningful only for the `Data` variant.
    pub open spec fn bytes(&self) -> Seq<u8>
        recommends
            self matches PacketData::Data(_),
    {
        match self {
            PacketData::Data(d) => d@,
            _ => Seq::empty(),
        }
    }

    /// How many payload bytes this packet holds.
    pub fn len(&self) -> (r: usize)
        requires
            self matches PacketData::Data(_),
        ensures
            r == self.bytes().len(),
    {
        match self {
            PacketData::Data(d) => d.len(),
            _ => 0,
        }
    }

    /// The payload as a plain byte vector.
    pub fn to_bytes(&self) -> (r: Vec<u8>)
        requires
            self matches PacketData::Data(_),
        ensures
            r@ == self.bytes(),
    {
        let mut out: Vec<u8> = Vec::new();
        match self {
            PacketData::Data(d) => {
                let mut i: usize = 0;
                let n = d.len();
                while i < n
                    invariant
                        i <= n,
                        n == d@.len(),
                        out@ == d@.take(i as int),
                    decreases n - i,
                {
                    out.push(d[i]);
                    proof {
                        assert(d@.take(i as int + 1) =~= d@.take(i as int).push(d@[i as int]));
                    }
                    i = i + 1;
                }
                proof {
                    assert(d@.take(n as int) =~= d@);
                }
            },
            _ => (),
        }
        out
    }
}

/// One frame: its announced total length, its packet id, and its data.
#[derive(Debug)]
pub struct Packet {
    pub length: usize,
    pub packet_id: Varint,
    pub data: PacketData,
}

/// The wire form of a frame around `payload` with id `id`: total length,
/// then the id, then the payload, the first two as varints.
pub open spec fn frame_bytes(id: i32, payload: Seq<u8>) -> Seq<u8> {
    varint_bytes((varint_bytes_of(id).len() + payload.len()) as nat) + varint_bytes_of(id) + payload
}

/// The spec-level image of a parsed frame.
pub struct PacketFields {
    pub length: int,
    pub packet_id: i32,
    pub payload: Seq<u8>,
}

/// The outcome of reading one frame from the front of `s`, with the
/// bytes consumed.  The declared length must be positive, must cover the
/// minimal encoding of the packet id, and the payload must be present in
/// full.
pub open spec fn packet_scan(s: Seq<u8>) -> (Result<PacketFields, ProtocolError>, int) {
    let lv = varint_parse(s);
    match lv.0 {
        Err(e) => (Err(e), lv.1),
        Ok(total) => {
            if total <= 0 {
                (Err(ProtocolError::EmptyOrNegativeLength), lv.1)
            } else {
                let s1 = s.skip(lv.1);
                let iv = varint_parse(s1);
                match iv.0 {
                    Err(e) => (Err(e), lv.1 + iv.1),
                    Ok(id) => {
                        let id_len = varint_bytes_of(id).len() as int;
                        if total < id_len {
                            (Err(ProtocolError::InvalidData), lv.1 + iv.1)
                        } else if s1.len() - iv.1 < total - id_len {
                            (Err(ProtocolError::Truncated), lv.1 + iv.1)
                        } else {
                            (
                                Ok(
                                    PacketFields {
                                        length: total as int,
                                        packet_id: id,
                                        payload: s1.subrange(iv.1, iv.1 + (total - id_len)),
                                    },
                                ),
                                lv.1 + iv.1 + (total - id_len),
                            )
                        }
                    },
                }
            }
        },
    }
}

impl Packet {
    /// Builds a frame around a payload; the length is filled in when the
    /// frame is turned into wire bytes.
    pub fn from_id_and_data(packet_id: Varint, data: PacketData) -> (r: Packet)
        ensures
            r.length == 0,
            r.packet_id == packet_id,
            r.data == data,
    {
        Packet { length: 0, packet_id, data }
    }

    /// Serializes this frame: varint total length, varint id, payload.
    /// Records the computed total length in `self.length`.  The caller
    /// hands the returned bytes to the transport.
    pub fn to_wire_bytes(&mut self) -> (r: Vec<u8>)
        requires
            old(self).data matches PacketData::Data(_),
            old(self).data.bytes().len() <= 0x7FFF_FFF0,
        ensures
            final(self).packet_id == old(self).packet_id,
            final(self).data == old(self).data,
            final(self).length == varint_bytes_of(old(self).packet_id.0).len()
                + old(self).data.bytes().len(),
            r@ == frame_bytes(old(self).packet_id.0, old(self).data.bytes()),
    {
        let id_encoded = self.packet_id.encode();
        proof {
            lemma_varint_bytes_len_le_5(i32_bits(self.packet_id.0));
        }
        let length: usize = id_encoded.len() + self.data.len();
        self.length = length;
        let length_encoded = crate::coding::varint::encode_usize(length);
        let mut out: Vec<u8> = Vec::new();
        append_deque(&mut out, &length_encoded);
        append_deque(&mut out, &id_encoded);
        let payload = self.data.to_bytes();
        append_vec(&mut out, &payload);
        proof {
            assert(out@ =~= frame_bytes(self.packet_id.0, self.data.bytes()));
        }
        out
    }
}

/// The framing layer is lossless: parsing the wire form of a frame
/// yields the same packet id and payload back, with the total length
/// filled in, and consumes the whole frame.
pub proof fn lemma_frame_round_trip(id: i32, payload: Seq<u8>)
    requires
        payload.len() <= 0x7FFF_FFF0,
    ensures
        ({
            let w = frame_bytes(id, payload);
            let total = varint_bytes_of(id).len() + payload.len();
            &&& packet_scan(w).1 == w.len()
            &&& packet_scan(w).0 matches Ok(fields) && fields.length == total && fields.packet_id
                == id && fields.payload == payload
        }),
{
    let id_bytes = varint_bytes_of(id);
    let total = (id_bytes.len() + payload.len()) as nat;
    let w = frame_bytes(id, payload);
    lemma_varint_bytes_len_le_5(i32_bits(id));
    crate::coding::varint::lemma_varint_parse_of_small(total, id_bytes + payload);
    assert(w =~= varint_bytes(total) + (id_bytes + payload));
    let c1 = varint_parse(w).1;
    assert(c1 == varint_bytes(total).len());
    assert(w.skip(c1) =~= id_bytes + payload);
    crate::coding::varint::lemma_varint_parse_of_encoding(id, payload);
    let s1 = w.skip(c1);
    assert(s1.subrange(id_bytes.len() as int, (id_bytes.len() + payload.len()) as int) =~= payload);
}

/// The encoding of a 32-bit value is one to five groups long.
proof fn lemma_varint_bytes_len_le_5(v: nat)
    requires
        v < 0x1_0000_0000,
    ensures
        1 <= varint_bytes(v).len() <= 5,
{
    crate::coding::varint::lemma_varint_bytes_len(v);
    crate::coding::varint::lemma_group_count_le_5(v);
}

/// Appends a byte queue to a byte vector.
fn append_deque(out: &mut Vec<u8>, q: &VecDeque<u8>)
    ensures
        final(out)@ == old(out)@ + q@,
{
    let n = q.len();
    let mut i: usize = 0;
    while i < n
        invariant
            i <= n,
            n == q@.len(),
            out@ == old(out)@ + q@.take(i as int),
        decreases n - i,
    {
        out.push(q[i]);
        proof {
            assert(q@.take(i as int + 1) =~= q@.take(i as int).push(q@[i as int]));
            assert(old(out)@ + q@.take(i as int + 1) =~= (old(out)@ + q@.take(i as int)).push(
                q@[i as int],
            ));
        }
        i = i + 1;
    }
    proof {
        assert(q@.take(n as int) =~= q@);
        assert(out@ =~= old(out)@ + q@);
    }
}

/// Appends a byte vector to another.
fn append_vec(out: &mut Vec<u8>, v: &Vec<u8>)
    ensures
        final(out)@ == old(out)@ + v@,
{
    let n = v.len();
    let mut i: usize = 0;
    while i < n
        invariant
            i <= n,
            n == v@.len(),
            out@ == old(out)@ + v@.take(i as int),
        decreases n - i,
    {
        out.push(v[i]);
        proof {
            assert(v@.take(i as int + 1) =~= v@.take(i as int).push(v@[i as int]));
            assert(old(out)@ + v@.take(i as int + 1) =~= (old(out)@ + v@.take(i as int)).push(
                v@[i as int],
            ));
        }
        i = i + 1;
    }
    proof {
        assert(v@.take(n as int) =~= v@);
        assert(out@ =~= old(out)@ + v@);
    }
}

/// Reads one frame from the front of the queue: total length, packet id,
/// and exactly the announced number of payload bytes.
pub fn parse_packet(q: &mut VecDeque<u8>) -> (r: Result<Packet, ProtocolError>)
    ensures
        final(q)@ == old(q)@.skip(packet_scan(old(q)@).1),
        match packet_scan(old(q)@).0 {
            Ok(fields) => r matches Ok(p) && p.length == fields.length && p.packet_id.0
                == fields.packet_id && (p.data matches PacketData::Data(d) && d@
                == fields.payload),
            Err(e) => r matches Err(e2) && e2 == e,
        },
{
    let ghost s0 = q@;
    proof {
        lemma_varint_parse_consumed(s0);
    }
    let total = match Varint::decode(q) {
        Err(e) => {
            return Err(e);
        },
        Ok(v) => v.0,
    };
    if total <= 0 {
        return Err(ProtocolError::EmptyOrNegativeLength);
    }
    let ghost c1 = varint_parse(s0).1;
    proof {
        lemma_varint_parse_consumed(s0.skip(c1));
    }
    let id = match Varint::decode(q) {
        Err(e) => {
            proof {
                crate::coding::lemma_skip_add(s0, c1, varint_parse(s0.skip(c1)).1);
            }
            return Err(e);
        },
        Ok(v) => v,
    };
    proof {
        crate::coding::lemma_skip_add(s0, c1, varint_parse(s0.skip(c1)).1);
    }
    let ghost c2 = c1 + varint_parse(s0.skip(c1)).1;
    let id_encoded = id.encode();
    proof {
        lemma_varint_bytes_len_le_5(i32_bits(id.0));
    }
    if (total as usize) < id_encoded.len() {
        return Err(ProtocolError::InvalidData);
    }
    let data_length: usize = total as usize - id_encoded.len();
    if q.len() < data_length {
        return Err(ProtocolError::Truncated);
    }
    let mut payload: VecDeque<u8> = VecDeque::new();
    let mut i: usize = 0;
    while i < data_length
        invariant
            i <= data_length,
            0 <= c2,
            c2 + data_length <= s0.len(),
            q@ == s0.skip(c2 + i as int),
            payload@ == s0.subrange(c2, c2 + i as int),
        decreases data_length - i,
    {
        proof {
            assert(q@.len() == s0.len() - (c2 + i as int));
            assert(q@[0] == s0.skip(c2 + i as int)[0]);
        }
        let byte = q.pop_front().unwrap();
        payload.push_back(byte);
        proof {
            assert(q@ =~= s0.skip(c2 + i as int + 1));
            assert(s0.subrange(c2, c2 + i as int + 1) =~= s0.subrange(c2, c2 + i as int).push(
                s0[c2 + i as int],
            ));
        }
        i = i + 1;
    }
    Ok(Packet { length: total as usize, packet_id: id, data: PacketData::Data(payload) })
}

} // verus!
