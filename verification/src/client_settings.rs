//! The settings a client reports after joining: locale, render distance,
//! chat behaviour, displayed skin parts and main hand.

use vstd::prelude::*;

verus! {

/// The fields of the client-settings packet.  The locale is always
/// stored lowercased.
#[derive(Debug)]
pub struct ClientSettings {
    pub locale: String,
    pub render_distance: i8,
    pub chat_mode: ChatMode,
    pub chat_colors_enabled: bool,
    pub skin_parts_displayed: u8,
    pub main_hand: MainHand,
}

/// How much chat the client wants to see.
#[derive(PartialEq, Eq, Structural, Clone, Copy, Debug)]
pub enum ChatMode {
    Enabled,
    CommandsOnly,
    Hidden,
}

/// Which hand the client's avatar leads with.
#[derive(PartialEq, Eq, Structural, Clone, Copy, Debug)]
pub enum MainHand {
    Left,
    Right,
}

} // verus!
