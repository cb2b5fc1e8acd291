//! The client-settings codec: locale string (stored lowercased), render
//! distance, chat mode, chat colours, skin parts and main hand, read in
//! that order.

use crate::client_settings::{ChatMode, ClientSettings, MainHand};
use crate::coding::boolean::{self, bool_scan};
use crate::coding::byte::{self, sbyte_scan, ubyte_scan};
use crate::coding::chat_mode::{self, chat_mode_scan};
use crate::coding::main_hand::{self, main_hand_scan};
use crate::coding::string::{read_string, string_scan};
use crate::error::ProtocolError;
use std::collections::VecDeque;
use vstd::prelude::*;

verus! {

/// What `str::to_lowercase` returns for a given character sequence.
pub uninterp spec fn lowercase_of(s: Seq<char>) -> Seq<char>;

/// Relies on `str::to_lowercase`: the result depends on the characters
/// alone.
#[verifier::external_body]
fn to_lowercase_string(s: &str) -> (r: String)
    ensures
        r@ == lowercase_of(s@),
{
    s.to_lowercase()
}

/// The spec-level image of a decoded client-settings packet: the fields
/// as mathematical values.
pub struct ClientSettingsFields {
    pub locale: Seq<char>,
    pub render_distance: i8,
    pub chat_mode: ChatMode,
    pub chat_colors_enabled: bool,
    pub skin_parts_displayed: u8,
    pub main_hand: MainHand,
}

/// The outcome of reading one client-settings payload, with the bytes
/// consumed.  The locale is read with a 16-byte bound and lowercased.
pub open spec fn client_settings_scan(s: Seq<u8>) -> (
    Result<ClientSettingsFields, ProtocolError>,
    int,
) {
    let loc = string_scan(s, 16);
    match loc.0 {
        Err(e) => (Err(e), loc.1),
        Ok(raw_locale) => {
            let s1 = s.skip(loc.1);
            let rd = sbyte_scan(s1);
            match rd.0 {
                Err(e) => (Err(e), loc.1 + rd.1),
                Ok(render_distance) => {
                    let s2 = s1.skip(rd.1);
                    let cm = chat_mode_scan(s2);
                    match cm.0 {
                        Err(e) => (Err(e), loc.1 + rd.1 + cm.1),
                        Ok(chat_mode) => {
                            let s3 = s2.skip(cm.1);
                            let cc = bool_scan(s3);
                            match cc.0 {
                                Err(e) => (Err(e), loc.1 + rd.1 + cm.1 + cc.1),
                                Ok(chat_colors_enabled) => {
                                    let s4 = s3.skip(cc.1);
                                    let sp = ubyte_scan(s4);
                                    match sp.0 {
                                        Err(e) => (Err(e), loc.1 + rd.1 + cm.1 + cc.1 + sp.1),
                                        Ok(skin_parts_displayed) => {
                                            let s5 = s4.skip(sp.1);
                                            let mh = main_hand_scan(s5);
                                            match mh.0 {
                                                Err(e) => (
                                                    Err(e),
                                                    loc.1 + rd.1 + cm.1 + cc.1 + sp.1 + mh.1,
                                                ),
                                                Ok(main_hand) => (
                                                    Ok(
                                                        ClientSettingsFields {
                                                            locale: lowercase_of(raw_locale),
                                                            render_distance,
                                                            chat_mode,
                                                            chat_colors_enabled,
                                                            skin_parts_displayed,
                                                            main_hand,
                                                        },
                                                    ),
                                                    loc.1 + rd.1 + cm.1 + cc.1 + sp.1 + mh.1,
                                                ),
                                            }
                                        },
                                    }
                                },
                            }
                        },
                    }
                },
            }
        },
    }
}

impl crate::coding::Decodeable<ClientSettings, ProtocolError> for VecDeque<u8> {
    open spec fn decoded(
        pre: Seq<u8>,
        r: Result<ClientSettings, ProtocolError>,
        post: Seq<u8>,
    ) -> bool {
        &&& post == pre.skip(client_settings_scan(pre).1)
        &&& match client_settings_scan(pre).0 {
            Ok(fields) => r matches Ok(cs) && cs.locale@ == fields.locale && cs.render_distance
                == fields.render_distance && cs.chat_mode == fields.chat_mode
                && cs.chat_colors_enabled == fields.chat_colors_enabled && cs.skin_parts_displayed
                == fields.skin_parts_displayed && cs.main_hand == fields.main_hand,
            Err(e) => r == Err::<ClientSettings, ProtocolError>(e),
        }
    }

    fn decode(&mut self) -> (r: Result<ClientSettings, ProtocolError>) {
        decode(self)
    }
}

/// Decodes one client-settings payload from the front of the queue.
pub fn decode(q: &mut VecDeque<u8>) -> (r: Result<ClientSettings, ProtocolError>)
    ensures
        final(q)@ == old(q)@.skip(client_settings_scan(old(q)@).1),
        match client_settings_scan(old(q)@).0 {
            Ok(fields) => r matches Ok(cs) && cs.locale@ == fields.locale && cs.render_distance
                == fields.render_distance && cs.chat_mode == fields.chat_mode
                && cs.chat_colors_enabled == fields.chat_colors_enabled && cs.skin_parts_displayed
                == fields.skin_parts_displayed && cs.main_hand == fields.main_hand,
            Err(e) => r == Err::<ClientSettings, ProtocolError>(e),
        },
{
    let ghost s0 = q@;
    let raw_locale = match read_string(q, 16) {
        Err(e) => {
            return Err(e);
        },
        Ok(v) => v,
    };
    proof {
        crate::coding::string::lemma_string_scan_consumed(s0, 16);
    }
    let ghost c1 = string_scan(s0, 16).1;
    let render_distance = match byte::decode_signed(q) {
        Err(e) => {
            proof {
                crate::coding::lemma_skip_add(s0, c1, sbyte_scan(s0.skip(c1)).1);
            }
            return Err(e);
        },
        Ok(v) => v,
    };
    proof {
        crate::coding::lemma_skip_add(s0, c1, sbyte_scan(s0.skip(c1)).1);
    }
    let ghost c2 = c1 + sbyte_scan(s0.skip(c1)).1;
    let chat_mode = match chat_mode::decode(q) {
        Err(e) => {
            proof {
                crate::coding::varint::lemma_varint_parse_consumed(s0.skip(c2));
                crate::coding::lemma_skip_add(s0, c2, chat_mode_scan(s0.skip(c2)).1);
            }
            return Err(e);
        },
        Ok(v) => v,
    };
    proof {
        crate::coding::varint::lemma_varint_parse_consumed(s0.skip(c2));
                crate::coding::lemma_skip_add(s0, c2, chat_mode_scan(s0.skip(c2)).1);
    }
    let ghost c3 = c2 + chat_mode_scan(s0.skip(c2)).1;
    let chat_colors_enabled = match boolean::decode(q) {
        Err(e) => {
            proof {
                crate::coding::lemma_skip_add(s0, c3, bool_scan(s0.skip(c3)).1);
            }
            return Err(e);
        },
        Ok(v) => v,
    };
    proof {
        crate::coding::lemma_skip_add(s0, c3, bool_scan(s0.skip(c3)).1);
    }
    let ghost c4 = c3 + bool_scan(s0.skip(c3)).1;
    let skin_parts_displayed = match byte::decode_unsigned(q) {
        Err(e) => {
            proof {
                crate::coding::lemma_skip_add(s0, c4, ubyte_scan(s0.skip(c4)).1);
            }
            return Err(e);
        },
        Ok(v) => v,
    };
    proof {
        crate::coding::lemma_skip_add(s0, c4, ubyte_scan(s0.skip(c4)).1);
    }
    let ghost c5 = c4 + ubyte_scan(s0.skip(c4)).1;
    let main_hand = match main_hand::decode(q) {
        Err(e) => {
            proof {
                crate::coding::varint::lemma_varint_parse_consumed(s0.skip(c5));
                crate::coding::lemma_skip_add(s0, c5, main_hand_scan(s0.skip(c5)).1);
            }
            return Err(e);
        },
        Ok(v) => v,
    };
    proof {
        crate::coding::varint::lemma_varint_parse_consumed(s0.skip(c5));
                crate::coding::lemma_skip_add(s0, c5, main_hand_scan(s0.skip(c5)).1);
    }
    let locale = to_lowercase_string(raw_locale.as_str());
    Ok(
        ClientSettings {
            locale,
            render_distance,
            chat_mode,
            chat_colors_enabled,
            skin_parts_displayed,
            main_hand,
        },
    )
}

} // verus!
