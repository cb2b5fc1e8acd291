//! Plugin messages: free-form payloads on named channels.  A channel
//! name always carries a namespace; a bare name is filed under
//! `minecraft:`.

use crate::coding::string::{read_string, string_bytes, string_scan};
use crate::error::ProtocolError;
use std::collections::VecDeque;
use vstd::prelude::*;

verus! {

/// Who sent a plugin message.
#[derive(PartialEq, Eq, Structural, Clone, Copy, Debug)]
pub enum PluginMessageOrigin {
    /// The message originates from the server.
    Server,
    /// The message was received from the client.
    Client,
}

/// A plugin message: its channel (always namespaced), its raw data, and
/// where it came from.
#[derive(Debug)]
pub struct PluginMessage {
    pub channel: String,
    pub data: VecDeque<u8>,
    pub origin: PluginMessageOrigin,
}

/// Whether a colon occurs anywhere in the text.
pub open spec fn contains_colon(s: Seq<char>) -> bool {
    exists|i: int| 0 <= i < s.len() && s[i] == ':'
}

/// A channel name with its namespace made explicit: left alone if it has
/// a colon, filed under `minecraft:` otherwise.
pub open spec fn channel_norm(s: Seq<char>) -> Seq<char> {
    if contains_colon(s) {
        s
    } else {
        "minecraft:"@ + s
    }
}

/// The index of the first colon, or the length if there is none.
pub open spec fn colon_pos(s: Seq<char>, i: int) -> int
    decreases s.len() - i,
{
    if i < 0 || i >= s.len() {
        s.len() as int
    } else if s[i] == ':' {
        i
    } else {
        colon_pos(s, i + 1)
    }
}

/// Whether the text begins with the `minecraft:` namespace.
pub open spec fn is_minecraft_channel(s: Seq<char>) -> bool {
    s.len() >= 10 && s.subrange(0, 10) == "minecraft:"@
}

/// The wire form of a plugin message: the channel as a length-prefixed
/// string, then the raw data bytes.
pub open spec fn plugin_message_bytes(channel: Seq<char>, data: Seq<u8>) -> Seq<u8> {
    string_bytes(channel) + data
}

/// The outcome of reading a plugin message from a payload: the channel
/// is a string bounded by the largest field size, and everything after
/// it is the message data.  Reading the data copies it: the scan
/// consumes the channel alone.
pub open spec fn plugin_message_scan(s: Seq<u8>) -> (
    Result<(Seq<char>, Seq<u8>), ProtocolError>,
    int,
) {
    let st = string_scan(s, 32767);
    match st.0 {
        Err(e) => (Err(e), st.1),
        Ok(channel) => (Ok((channel_norm(channel), s.skip(st.1))), st.1),
    }
}

impl crate::coding::Decodeable<PluginMessage, ProtocolError> for VecDeque<u8> {
    open spec fn decoded(
        pre: Seq<u8>,
        r: Result<PluginMessage, ProtocolError>,
        post: Seq<u8>,
    ) -> bool {
        &&& post == pre.skip(plugin_message_scan(pre).1)
        &&& match plugin_message_scan(pre).0 {
            Ok(fields) => r matches Ok(pm) && pm.channel@ == fields.0 && pm.data@ == fields.1
                && pm.origin == PluginMessageOrigin::Client,
            Err(e) => r == Err::<PluginMessage, ProtocolError>(e),
        }
    }

    fn decode(&mut self) -> (r: Result<PluginMessage, ProtocolError>) {
        PluginMessage::decode(self)
    }
}

impl crate::coding::Encodeable for PluginMessage {
    open spec fn encodable(&self) -> bool {
        self.channel@.len() <= 32767
    }

    open spec fn encoding(&self) -> Seq<u8> {
        plugin_message_bytes(self.channel@, self.data@)
    }

    fn encode(&self) -> (r: VecDeque<u8>) {
        PluginMessage::encode(self)
    }
}

impl PluginMessage {
    /// Builds a plugin message, filing a namespace-less channel under
    /// `minecraft:`.
    pub fn new(channel: String, data: VecDeque<u8>, origin: PluginMessageOrigin) -> (r:
        PluginMessage)
        ensures
            r.channel@ == channel_norm(channel@),
            r.data@ == data@,
            r.origin == origin,
    {
        let has_colon = find_colon(channel.as_str()) < channel.unicode_len();
        proof {
            reveal_strlit("minecraft:");
            lemma_colon_pos_finds(channel@, 0);
        }
        let namespaced = if has_colon {
            channel
        } else {
            String::from_str("minecraft:").concat(channel.as_str())
        };
        PluginMessage { channel: namespaced, data, origin }
    }

    /// The channel this message travels on, e.g. `minecraft:brand`.
    pub fn channel(&self) -> (r: &String)
        ensures
            r@ == self.channel@,
    {
        &self.channel
    }

    /// The raw message data.
    pub fn data(&self) -> (r: &VecDeque<u8>)
        ensures
            r@ == self.data@,
    {
        &self.data
    }

    /// Where this message came from.
    pub fn origin(&self) -> (r: &PluginMessageOrigin)
        ensures
            *r == self.origin,
    {
        &self.origin
    }

    /// Reads the data as one length-prefixed string, consuming it.
    pub fn data_stringify(&mut self) -> (r: Result<String, ProtocolError>)
        ensures
            final(self).channel@ == old(self).channel@,
            final(self).origin == old(self).origin,
            final(self).data@ == old(self).data@.skip(string_scan(old(self).data@, 32767).1),
            match string_scan(old(self).data@, 32767).0 {
                Ok(chars) => r matches Ok(out) && out@ == chars,
                Err(e) => r == Err::<String, ProtocolError>(e),
            },
    {
        read_string(&mut self.data, 32767)
    }

    /// Whether the channel lies in the `minecraft:` namespace.
    pub fn is_minecraft(&self) -> (r: bool)
        ensures
            r == is_minecraft_channel(self.channel@),
    {
        proof {
            reveal_strlit("minecraft:");
        }
        let lit = "minecraft:";
        let n = self.channel.unicode_len();
        if n < 10 {
            return false;
        }
        let mut i: usize = 0;
        while i < 10
            invariant
                i <= 10,
                self.channel@.len() >= 10,
                lit@ == "minecraft:"@,
                lit@.len() == 10,
                forall|j: int| 0 <= j < i ==> self.channel@[j] == lit@[j],
            decreases 10 - i,
        {
            let a = self.channel.as_str().get_char(i);
            let b = lit.get_char(i);
            if a != b {
                proof {
                    assert(self.channel@.subrange(0, 10)[i as int] != "minecraft:"@[i as int]);
                }
                return false;
            }
            i = i + 1;
        }
        proof {
            assert(self.channel@.subrange(0, 10) =~= "minecraft:"@);
        }
        true
    }

    /// The channel's namespace: everything before the first colon.
    pub fn get_channel_namespace(&self) -> (r: &str)
        requires
            contains_colon(self.channel@),
        ensures
            r@ == self.channel@.subrange(0, colon_pos(self.channel@, 0)),
    {
        let pos = find_colon(self.channel.as_str());
        proof {
            lemma_colon_pos_bounds(self.channel@, 0);
        }
        self.channel.as_str().substring_char(0, pos)
    }

    /// Serializes this message: the channel as a length-prefixed string,
    /// then the data.
    pub fn encode(&self) -> (r: VecDeque<u8>)
        requires
            self.channel@.len() <= 32767,
        ensures
            r@ == plugin_message_bytes(self.channel@, self.data@),
    {
        let mut out = crate::coding::string::encode_str(self.channel.as_str());
        let mut rest = crate::coding::vec_deque::copy_bytes(&self.data);
        out.append(&mut rest);
        out
    }

    /// Reads a plugin message out of a client packet payload: the
    /// channel string, then everything left as the data (which stays in
    /// the queue).
    pub fn decode(q: &mut VecDeque<u8>) -> (r: Result<PluginMessage, ProtocolError>)
        ensures
            final(q)@ == old(q)@.skip(plugin_message_scan(old(q)@).1),
            match plugin_message_scan(old(q)@).0 {
                Ok(fields) => r matches Ok(pm) && pm.channel@ == fields.0 && pm.data@ == fields.1
                    && pm.origin == PluginMessageOrigin::Client,
                Err(e) => r == Err::<PluginMessage, ProtocolError>(e),
            },
    {
        let channel = match read_string(q, 32767) {
            Err(e) => {
                return Err(e);
            },
            Ok(v) => v,
        };
        let data = crate::coding::vec_deque::copy_bytes(q);
        Ok(PluginMessage::new(channel, data, PluginMessageOrigin::Client))
    }
}

/// The index of the first colon, or the text's length if there is none.
fn find_colon(s: &str) -> (r: usize)
    ensures
        r == colon_pos(s@, 0),
        r <= s@.len(),
{
    let n = s.unicode_len();
    let mut i: usize = 0;
    while i < n
        invariant
            i <= n,
            n == s@.len(),
            colon_pos(s@, 0) == colon_pos(s@, i as int),
            forall|j: int| 0 <= j < i ==> s@[j] != ':',
        decreases n - i,
    {
        if s.get_char(i) == ':' {
            return i;
        }
        i = i + 1;
    }
    i
}

/// `colon_pos` lands on a colon when there is one, and on the end
/// otherwise.
proof fn lemma_colon_pos_finds(s: Seq<char>, i: int)
    requires
        0 <= i <= s.len(),
    ensures
        i <= colon_pos(s, i) <= s.len(),
        colon_pos(s, i) < s.len() ==> s[colon_pos(s, i)] == ':',
        forall|j: int| i <= j < colon_pos(s, i) ==> s[j] != ':',
    decreases s.len() - i,
{
    if i < s.len() && s[i] != ':' {
        lemma_colon_pos_finds(s, i + 1);
    }
}

proof fn lemma_colon_pos_bounds(s: Seq<char>, i: int)
    requires
        0 <= i <= s.len(),
    ensures
        i <= colon_pos(s, i) <= s.len(),
    decreases s.len() - i,
{
    if i < s.len() && s[i] != ':' {
        lemma_colon_pos_bounds(s, i + 1);
    }
}

} // verus!
