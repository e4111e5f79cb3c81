//! How processed text reaches the focused window: it is copied to the
//! clipboard, and a paste shortcut is simulated.

use crate::config::is_paste_mode;
use vstd::prelude::*;

verus! {

/// Milliseconds to wait for the clipboard to settle before the paste
/// shortcut is simulated.
pub const SETTLE_MILLIS: u64 = 120;

/// The shortcut that pastes.
#[derive(Clone, Copy, Debug, PartialEq, Eq, Structural)]
pub enum PasteMode {
    /// Super+V.
    Super,
    /// Ctrl+Shift+V.
    CtrlShift,
    /// Ctrl+V.
    Ctrl,
    /// The text is copied to the clipboard and not pasted.
    CopyOnly,
}

impl PasteMode {
    /// The mode that a configuration names.
    pub open spec fn spec_from_name(name: Seq<char>) -> Option<PasteMode> {
        if name == "super"@ {
            Some(PasteMode::Super)
        } else if name == "ctrl_shift"@ {
            Some(PasteMode::CtrlShift)
        } else if name == "ctrl"@ {
            Some(PasteMode::Ctrl)
        } else {
            None
        }
    }

    /// The mode that a configuration names: one for each paste mode that a
    /// valid configuration can hold, none for any other text.
    pub fn from_name(name: &str) -> (mode: Option<PasteMode>)
        ensures
            mode == Self::spec_from_name(name@),
            mode is Some <==> is_paste_mode(name@),
    {
        if name.eq("super") {
            Some(PasteMode::Super)
        } else if name.eq("ctrl_shift") {
            Some(PasteMode::CtrlShift)
        } else if name.eq("ctrl") {
            Some(PasteMode::Ctrl)
        } else {
            None
        }
    }

    /// The key events of the shortcut, each a key code and whether the key
    /// goes down (1) or up (0), in the order in which they are sent.
    pub open spec fn spec_keys(&self) -> Option<Seq<char>> {
        match *self {
            PasteMode::Super => Some("125:1 47:1 47:0 125:0"@),
            PasteMode::CtrlShift => Some("29:1 42:1 47:1 47:0 42:0 29:0"@),
            PasteMode::Ctrl => Some("29:1 47:1 47:0 29:0"@),
            PasteMode::CopyOnly => None,
        }
    }

    /// The key events to simulate after the text was copied, or `None`
    /// where nothing is pasted.
    pub fn keys(&self) -> (keys: Option<&'static str>)
        ensures
            keys is Some <==> self.spec_keys() is Some,
            keys is Some ==> keys->Some_0@ == self.spec_keys()->Some_0,
    {
        match self {
            PasteMode::Super => Some("125:1 47:1 47:0 125:0"),
            PasteMode::CtrlShift => Some("29:1 42:1 47:1 47:0 42:0 29:0"),
            PasteMode::Ctrl => Some("29:1 47:1 47:0 29:0"),
            PasteMode::CopyOnly => None,
        }
    }
}

} // verus!
