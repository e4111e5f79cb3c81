//! Shortcuts: from a text such as `SUPER+ALT+D` to the set of key codes
//! that have to be held down together.

use crate::text::{trimmed, uppercased};
use evdev::{EnumParseError, KeyCode};
use std::collections::HashSet;
use std::str::FromStr;
use vstd::prelude::*;
use vstd::std_specs::hash::*;
use vstd::string::{StrSliceExecFns, StringExecFns};

verus! {

broadcast use group_hash_axioms;

/// A key of the input layer: its code.
#[verifier::external_type_specification]
pub struct ExKeyCode(KeyCode);

/// The error of the input layer for a name that it does not know.
#[verifier::external_type_specification]
#[verifier::external_body]
pub struct ExEnumParseError(EnumParseError);

/// The code of the key that the input layer knows by a name, if it knows
/// one by it. Names are matched letter for letter, in upper case, with
/// their `KEY_` in front.
pub uninterp spec fn key_code_named(name: Seq<char>) -> Option<u16>;

/// `evdev::KeyCode::from_str`: the key of that name, or an error where the
/// input layer has no key of that name.
#[verifier::external_body]
fn key_from_name(name: &str) -> (key: Result<KeyCode, EnumParseError>)
    ensures
        key is Ok <==> key_code_named(name@) is Some,
        key is Ok ==> key_code_named(name@) == Some(key->Ok_0.0),
{
    KeyCode::from_str(name)
}

/// The text of an optional string slice.
pub open spec fn text_of(text: Option<&str>) -> Option<Seq<char>> {
    match text {
        Some(t) => Some(t@),
        None => None,
    }
}

/// Modifier keys: the plain names are the left-hand keys, an `R` in front names the right-hand ones.
pub open spec fn spec_modifier_alias(name: Seq<char>) -> Option<Seq<char>> {
    if name == "SUPER"@ || name == "META"@ || name == "WIN"@ {
        Some("KEY_LEFTMETA"@)
    } else if name == "ALT"@ {
        Some("KEY_LEFTALT"@)
    } else if name == "CTRL"@ || name == "CONTROL"@ {
        Some("KEY_LEFTCTRL"@)
    } else if name == "SHIFT"@ {
        Some("KEY_LEFTSHIFT"@)
    } else if name == "RSUPER"@ || name == "RMETA"@ || name == "RWIN"@ {
        Some("KEY_RIGHTMETA"@)
    } else if name == "RALT"@ {
        Some("KEY_RIGHTALT"@)
    } else if name == "RCTRL"@ || name == "RCONTROL"@ {
        Some("KEY_RIGHTCTRL"@)
    } else if name == "RSHIFT"@ {
        Some("KEY_RIGHTSHIFT"@)
    } else {
        None
    }
}

fn modifier_alias(name: &str) -> (alias: Option<&'static str>)
    ensures
        text_of(alias) == spec_modifier_alias(name@),
{
    if name.eq("SUPER") || name.eq("META") || name.eq("WIN") {
        Some("KEY_LEFTMETA")
    } else if name.eq("ALT") {
        Some("KEY_LEFTALT")
    } else if name.eq("CTRL") || name.eq("CONTROL") {
        Some("KEY_LEFTCTRL")
    } else if name.eq("SHIFT") {
        Some("KEY_LEFTSHIFT")
    } else if name.eq("RSUPER") || name.eq("RMETA") || name.eq("RWIN") {
        Some("KEY_RIGHTMETA")
    } else if name.eq("RALT") {
        Some("KEY_RIGHTALT")
    } else if name.eq("RCTRL") || name.eq("RCONTROL") {
        Some("KEY_RIGHTCTRL")
    } else if name.eq("RSHIFT") {
        Some("KEY_RIGHTSHIFT")
    } else {
        None
    }
}

/// Function keys.
pub open spec fn spec_function_key_alias(name: Seq<char>) -> Option<Seq<char>> {
    if name == "F1"@ {
        Some("KEY_F1"@)
    } else if name == "F2"@ {
        Some("KEY_F2"@)
    } else if name == "F3"@ {
        Some("KEY_F3"@)
    } else if name == "F4"@ {
        Some("KEY_F4"@)
    } else if name == "F5"@ {
        Some("KEY_F5"@)
    } else if name == "F6"@ {
        Some("KEY_F6"@)
    } else if name == "F7"@ {
        Some("KEY_F7"@)
    } else if name == "F8"@ {
        Some("KEY_F8"@)
    } else if name == "F9"@ {
        Some("KEY_F9"@)
    } else if name == "F10"@ {
        Some("KEY_F10"@)
    } else if name == "F11"@ {
        Some("KEY_F11"@)
    } else if name == "F12"@ {
        Some("KEY_F12"@)
    } else if name == "F13"@ {
        Some("KEY_F13"@)
    } else if name == "F14"@ {
        Some("KEY_F14"@)
    } else if name == "F15"@ {
        Some("KEY_F15"@)
    } else if name == "F16"@ {
        Some("KEY_F16"@)
    } else if name == "F17"@ {
        Some("KEY_F17"@)
    } else if name == "F18"@ {
        Some("KEY_F18"@)
    } else if name == "F19"@ {
        Some("KEY_F19"@)
    } else if name == "F20"@ {
        Some("KEY_F20"@)
    } else if name == "F21"@ {
        Some("KEY_F21"@)
    } else if name == "F22"@ {
        Some("KEY_F22"@)
    } else if name == "F23"@ {
        Some("KEY_F23"@)
    } else if name == "F24"@ {
        Some("KEY_F24"@)
    } else {
        None
    }
}

fn function_key_alias(name: &str) -> (alias: Option<&'static str>)
    ensures
        text_of(alias) == spec_function_key_alias(name@),
{
    if name.eq("F1") {
        Some("KEY_F1")
    } else if name.eq("F2") {
        Some("KEY_F2")
    } else if name.eq("F3") {
        Some("KEY_F3")
    } else if name.eq("F4") {
        Some("KEY_F4")
    } else if name.eq("F5") {
        Some("KEY_F5")
    } else if name.eq("F6") {
        Some("KEY_F6")
    } else if name.eq("F7") {
        Some("KEY_F7")
    } else if name.eq("F8") {
        Some("KEY_F8")
    } else if name.eq("F9") {
        Some("KEY_F9")
    } else if name.eq("F10") {
        Some("KEY_F10")
    } else if name.eq("F11") {
        Some("KEY_F11")
    } else if name.eq("F12") {
        Some("KEY_F12")
    } else if name.eq("F13") {
        Some("KEY_F13")
    } else if name.eq("F14") {
        Some("KEY_F14")
    } else if name.eq("F15") {
        Some("KEY_F15")
    } else if name.eq("F16") {
        Some("KEY_F16")
    } else if name.eq("F17") {
        Some("KEY_F17")
    } else if name.eq("F18") {
        Some("KEY_F18")
    } else if name.eq("F19") {
        Some("KEY_F19")
    } else if name.eq("F20") {
        Some("KEY_F20")
    } else if name.eq("F21") {
        Some("KEY_F21")
    } else if name.eq("F22") {
        Some("KEY_F22")
    } else if name.eq("F23") {
        Some("KEY_F23")
    } else if name.eq("F24") {
        Some("KEY_F24")
    } else {
        None
    }
}

/// The digits of the top row.
pub open spec fn spec_digit_alias(name: Seq<char>) -> Option<Seq<char>> {
    if name == "0"@ {
        Some("KEY_0"@)
    } else if name == "1"@ {
        Some("KEY_1"@)
    } else if name == "2"@ {
        Some("KEY_2"@)
    } else if name == "3"@ {
        Some("KEY_3"@)
    } else if name == "4"@ {
        Some("KEY_4"@)
    } else if name == "5"@ {
        Some("KEY_5"@)
    } else if name == "6"@ {
        Some("KEY_6"@)
    } else if name == "7"@ {
        Some("KEY_7"@)
    } else if name == "8"@ {
        Some("KEY_8"@)
    } else if name == "9"@ {
        Some("KEY_9"@)
    } else {
        None
    }
}

fn digit_alias(name: &str) -> (alias: Option<&'static str>)
    ensures
        text_of(alias) == spec_digit_alias(name@),
{
    if name.eq("0") {
        Some("KEY_0")
    } else if name.eq("1") {
        Some("KEY_1")
    } else if name.eq("2") {
        Some("KEY_2")
    } else if name.eq("3") {
        Some("KEY_3")
    } else if name.eq("4") {
        Some("KEY_4")
    } else if name.eq("5") {
        Some("KEY_5")
    } else if name.eq("6") {
        Some("KEY_6")
    } else if name.eq("7") {
        Some("KEY_7")
    } else if name.eq("8") {
        Some("KEY_8")
    } else if name.eq("9") {
        Some("KEY_9")
    } else {
        None
    }
}

/// Navigation keys.
pub open spec fn spec_navigation_alias(name: Seq<char>) -> Option<Seq<char>> {
    if name == "UP"@ {
        Some("KEY_UP"@)
    } else if name == "DOWN"@ {
        Some("KEY_DOWN"@)
    } else if name == "LEFT"@ {
        Some("KEY_LEFT"@)
    } else if name == "RIGHT"@ {
        Some("KEY_RIGHT"@)
    } else if name == "HOME"@ {
        Some("KEY_HOME"@)
    } else if name == "END"@ {
        Some("KEY_END"@)
    } else if name == "PAGEUP"@ || name == "PGUP"@ {
        Some("KEY_PAGEUP"@)
    } else if name == "PAGEDOWN"@ || name == "PGDOWN"@ {
        Some("KEY_PAGEDOWN"@)
    } else {
        None
    }
}

fn navigation_alias(name: &str) -> (alias: Option<&'static str>)
    ensures
        text_of(alias) == spec_navigation_alias(name@),
{
    if name.eq("UP") {
        Some("KEY_UP")
    } else if name.eq("DOWN") {
        Some("KEY_DOWN")
    } else if name.eq("LEFT") {
        Some("KEY_LEFT")
    } else if name.eq("RIGHT") {
        Some("KEY_RIGHT")
    } else if name.eq("HOME") {
        Some("KEY_HOME")
    } else if name.eq("END") {
        Some("KEY_END")
    } else if name.eq("PAGEUP") || name.eq("PGUP") {
        Some("KEY_PAGEUP")
    } else if name.eq("PAGEDOWN") || name.eq("PGDOWN") {
        Some("KEY_PAGEDOWN")
    } else {
        None
    }
}

/// Editing keys.
pub open spec fn spec_editing_alias(name: Seq<char>) -> Option<Seq<char>> {
    if name == "ENTER"@ || name == "RETURN"@ {
        Some("KEY_ENTER"@)
    } else if name == "SPACE"@ {
        Some("KEY_SPACE"@)
    } else if name == "BACKSPACE"@ || name == "BKSP"@ {
        Some("KEY_BACKSPACE"@)
    } else if name == "TAB"@ {
        Some("KEY_TAB"@)
    } else if name == "ESC"@ || name == "ESCAPE"@ {
        Some("KEY_ESC"@)
    } else if name == "DELETE"@ || name == "DEL"@ {
        Some("KEY_DELETE"@)
    } else if name == "INSERT"@ || name == "INS"@ {
        Some("KEY_INSERT"@)
    } else {
        None
    }
}

fn editing_alias(name: &str) -> (alias: Option<&'static str>)
    ensures
        text_of(alias) == spec_editing_alias(name@),
{
    if name.eq("ENTER") || name.eq("RETURN") {
        Some("KEY_ENTER")
    } else if name.eq("SPACE") {
        Some("KEY_SPACE")
    } else if name.eq("BACKSPACE") || name.eq("BKSP") {
        Some("KEY_BACKSPACE")
    } else if name.eq("TAB") {
        Some("KEY_TAB")
    } else if name.eq("ESC") || name.eq("ESCAPE") {
        Some("KEY_ESC")
    } else if name.eq("DELETE") || name.eq("DEL") {
        Some("KEY_DELETE")
    } else if name.eq("INSERT") || name.eq("INS") {
        Some("KEY_INSERT")
    } else {
        None
    }
}

/// Punctuation keys.
pub open spec fn spec_punctuation_alias(name: Seq<char>) -> Option<Seq<char>> {
    if name == "COMMA"@ {
        Some("KEY_COMMA"@)
    } else if name == "PERIOD"@ || name == "DOT"@ {
        Some("KEY_DOT"@)
    } else if name == "SLASH"@ {
        Some("KEY_SLASH"@)
    } else if name == "BACKSLASH"@ {
        Some("KEY_BACKSLASH"@)
    } else if name == "SEMICOLON"@ {
        Some("KEY_SEMICOLON"@)
    } else if name == "APOSTROPHE"@ || name == "QUOTE"@ {
        Some("KEY_APOSTROPHE"@)
    } else if name == "GRAVE"@ || name == "BACKTICK"@ {
        Some("KEY_GRAVE"@)
    } else if name == "LEFTBRACE"@ || name == "LBRACKET"@ {
        Some("KEY_LEFTBRACE"@)
    } else if name == "RIGHTBRACE"@ || name == "RBRACKET"@ {
        Some("KEY_RIGHTBRACE"@)
    } else if name == "MINUS"@ || name == "DASH"@ {
        Some("KEY_MINUS"@)
    } else if name == "EQUAL"@ || name == "EQUALS"@ {
        Some("KEY_EQUAL"@)
    } else {
        None
    }
}

fn punctuation_alias(name: &str) -> (alias: Option<&'static str>)
    ensures
        text_of(alias) == spec_punctuation_alias(name@),
{
    if name.eq("COMMA") {
        Some("KEY_COMMA")
    } else if name.eq("PERIOD") || name.eq("DOT") {
        Some("KEY_DOT")
    } else if name.eq("SLASH") {
        Some("KEY_SLASH")
    } else if name.eq("BACKSLASH") {
        Some("KEY_BACKSLASH")
    } else if name.eq("SEMICOLON") {
        Some("KEY_SEMICOLON")
    } else if name.eq("APOSTROPHE") || name.eq("QUOTE") {
        Some("KEY_APOSTROPHE")
    } else if name.eq("GRAVE") || name.eq("BACKTICK") {
        Some("KEY_GRAVE")
    } else if name.eq("LEFTBRACE") || name.eq("LBRACKET") {
        Some("KEY_LEFTBRACE")
    } else if name.eq("RIGHTBRACE") || name.eq("RBRACKET") {
        Some("KEY_RIGHTBRACE")
    } else if name.eq("MINUS") || name.eq("DASH") {
        Some("KEY_MINUS")
    } else if name.eq("EQUAL") || name.eq("EQUALS") {
        Some("KEY_EQUAL")
    } else {
        None
    }
}

/// Lock keys.
pub open spec fn spec_lock_alias(name: Seq<char>) -> Option<Seq<char>> {
    if name == "CAPSLOCK"@ || name == "CAPS"@ {
        Some("KEY_CAPSLOCK"@)
    } else if name == "NUMLOCK"@ {
        Some("KEY_NUMLOCK"@)
    } else if name == "SCROLLLOCK"@ {
        Some("KEY_SCROLLLOCK"@)
    } else {
        None
    }
}

fn lock_alias(name: &str) -> (alias: Option<&'static str>)
    ensures
        text_of(alias) == spec_lock_alias(name@),
{
    if name.eq("CAPSLOCK") || name.eq("CAPS") {
        Some("KEY_CAPSLOCK")
    } else if name.eq("NUMLOCK") {
        Some("KEY_NUMLOCK")
    } else if name.eq("SCROLLLOCK") {
        Some("KEY_SCROLLLOCK")
    } else {
        None
    }
}

/// Media keys.
pub open spec fn spec_media_alias(name: Seq<char>) -> Option<Seq<char>> {
    if name == "VOLUMEUP"@ || name == "VOLUP"@ {
        Some("KEY_VOLUMEUP"@)
    } else if name == "VOLUMEDOWN"@ || name == "VOLDOWN"@ {
        Some("KEY_VOLUMEDOWN"@)
    } else if name == "MUTE"@ {
        Some("KEY_MUTE"@)
    } else if name == "PLAYPAUSE"@ || name == "PLAY"@ {
        Some("KEY_PLAYPAUSE"@)
    } else if name == "STOP"@ {
        Some("KEY_STOPCD"@)
    } else if name == "PREVIOUSSONG"@ || name == "PREV"@ {
        Some("KEY_PREVIOUSSONG"@)
    } else if name == "NEXTSONG"@ || name == "NEXT"@ {
        Some("KEY_NEXTSONG"@)
    } else {
        None
    }
}

fn media_alias(name: &str) -> (alias: Option<&'static str>)
    ensures
        text_of(alias) == spec_media_alias(name@),
{
    if name.eq("VOLUMEUP") || name.eq("VOLUP") {
        Some("KEY_VOLUMEUP")
    } else if name.eq("VOLUMEDOWN") || name.eq("VOLDOWN") {
        Some("KEY_VOLUMEDOWN")
    } else if name.eq("MUTE") {
        Some("KEY_MUTE")
    } else if name.eq("PLAYPAUSE") || name.eq("PLAY") {
        Some("KEY_PLAYPAUSE")
    } else if name.eq("STOP") {
        Some("KEY_STOPCD")
    } else if name.eq("PREVIOUSSONG") || name.eq("PREV") {
        Some("KEY_PREVIOUSSONG")
    } else if name.eq("NEXTSONG") || name.eq("NEXT") {
        Some("KEY_NEXTSONG")
    } else {
        None
    }
}

/// Keys of the numeric pad.
pub open spec fn spec_numpad_alias(name: Seq<char>) -> Option<Seq<char>> {
    if name == "KP0"@ {
        Some("KEY_KP0"@)
    } else if name == "KP1"@ {
        Some("KEY_KP1"@)
    } else if name == "KP2"@ {
        Some("KEY_KP2"@)
    } else if name == "KP3"@ {
        Some("KEY_KP3"@)
    } else if name == "KP4"@ {
        Some("KEY_KP4"@)
    } else if name == "KP5"@ {
        Some("KEY_KP5"@)
    } else if name == "KP6"@ {
        Some("KEY_KP6"@)
    } else if name == "KP7"@ {
        Some("KEY_KP7"@)
    } else if name == "KP8"@ {
        Some("KEY_KP8"@)
    } else if name == "KP9"@ {
        Some("KEY_KP9"@)
    } else if name == "KPENTER"@ {
        Some("KEY_KPENTER"@)
    } else if name == "KPPLUS"@ {
        Some("KEY_KPPLUS"@)
    } else if name == "KPMINUS"@ {
        Some("KEY_KPMINUS"@)
    } else if name == "KPASTERISK"@ || name == "KPMULTIPLY"@ {
        Some("KEY_KPASTERISK"@)
    } else if name == "KPSLASH"@ || name == "KPDIVIDE"@ {
        Some("KEY_KPSLASH"@)
    } else if name == "KPDOT"@ {
        Some("KEY_KPDOT"@)
    } else {
        None
    }
}

fn numpad_alias(name: &str) -> (alias: Option<&'static str>)
    ensures
        text_of(alias) == spec_numpad_alias(name@),
{
    if name.eq("KP0") {
        Some("KEY_KP0")
    } else if name.eq("KP1") {
        Some("KEY_KP1")
    } else if name.eq("KP2") {
        Some("KEY_KP2")
    } else if name.eq("KP3") {
        Some("KEY_KP3")
    } else if name.eq("KP4") {
        Some("KEY_KP4")
    } else if name.eq("KP5") {
        Some("KEY_KP5")
    } else if name.eq("KP6") {
        Some("KEY_KP6")
    } else if name.eq("KP7") {
        Some("KEY_KP7")
    } else if name.eq("KP8") {
        Some("KEY_KP8")
    } else if name.eq("KP9") {
        Some("KEY_KP9")
    } else if name.eq("KPENTER") {
        Some("KEY_KPENTER")
    } else if name.eq("KPPLUS") {
        Some("KEY_KPPLUS")
    } else if name.eq("KPMINUS") {
        Some("KEY_KPMINUS")
    } else if name.eq("KPASTERISK") || name.eq("KPMULTIPLY") {
        Some("KEY_KPASTERISK")
    } else if name.eq("KPSLASH") || name.eq("KPDIVIDE") {
        Some("KEY_KPSLASH")
    } else if name.eq("KPDOT") {
        Some("KEY_KPDOT")
    } else {
        None
    }
}

/// Browser keys.
pub open spec fn spec_browser_alias(name: Seq<char>) -> Option<Seq<char>> {
    if name == "BACK"@ {
        Some("KEY_BACK"@)
    } else if name == "FORWARD"@ {
        Some("KEY_FORWARD"@)
    } else if name == "REFRESH"@ {
        Some("KEY_REFRESH"@)
    } else if name == "HOMEPAGE"@ {
        Some("KEY_HOMEPAGE"@)
    } else {
        None
    }
}

fn browser_alias(name: &str) -> (alias: Option<&'static str>)
    ensures
        text_of(alias) == spec_browser_alias(name@),
{
    if name.eq("BACK") {
        Some("KEY_BACK")
    } else if name.eq("FORWARD") {
        Some("KEY_FORWARD")
    } else if name.eq("REFRESH") {
        Some("KEY_REFRESH")
    } else if name.eq("HOMEPAGE") {
        Some("KEY_HOMEPAGE")
    } else {
        None
    }
}

/// Letter keys.
pub open spec fn spec_letter_alias(name: Seq<char>) -> Option<Seq<char>> {
    if name == "A"@ {
        Some("KEY_A"@)
    } else if name == "B"@ {
        Some("KEY_B"@)
    } else if name == "C"@ {
        Some("KEY_C"@)
    } else if name == "D"@ {
        Some("KEY_D"@)
    } else if name == "E"@ {
        Some("KEY_E"@)
    } else if name == "F"@ {
        Some("KEY_F"@)
    } else if name == "G"@ {
        Some("KEY_G"@)
    } else if name == "H"@ {
        Some("KEY_H"@)
    } else if name == "I"@ {
        Some("KEY_I"@)
    } else if name == "J"@ {
        Some("KEY_J"@)
    } else if name == "K"@ {
        Some("KEY_K"@)
    } else if name == "L"@ {
        Some("KEY_L"@)
    } else if name == "M"@ {
        Some("KEY_M"@)
    } else if name == "N"@ {
        Some("KEY_N"@)
    } else if name == "O"@ {
        Some("KEY_O"@)
    } else if name == "P"@ {
        Some("KEY_P"@)
    } else if name == "Q"@ {
        Some("KEY_Q"@)
    } else if name == "R"@ {
        Some("KEY_R"@)
    } else if name == "S"@ {
        Some("KEY_S"@)
    } else if name == "T"@ {
        Some("KEY_T"@)
    } else if name == "U"@ {
        Some("KEY_U"@)
    } else if name == "V"@ {
        Some("KEY_V"@)
    } else if name == "W"@ {
        Some("KEY_W"@)
    } else if name == "X"@ {
        Some("KEY_X"@)
    } else if name == "Y"@ {
        Some("KEY_Y"@)
    } else if name == "Z"@ {
        Some("KEY_Z"@)
    } else {
        None
    }
}

fn letter_alias(name: &str) -> (alias: Option<&'static str>)
    ensures
        text_of(alias) == spec_letter_alias(name@),
{
    if name.eq("A") {
        Some("KEY_A")
    } else if name.eq("B") {
        Some("KEY_B")
    } else if name.eq("C") {
        Some("KEY_C")
    } else if name.eq("D") {
        Some("KEY_D")
    } else if name.eq("E") {
        Some("KEY_E")
    } else if name.eq("F") {
        Some("KEY_F")
    } else if name.eq("G") {
        Some("KEY_G")
    } else if name.eq("H") {
        Some("KEY_H")
    } else if name.eq("I") {
        Some("KEY_I")
    } else if name.eq("J") {
        Some("KEY_J")
    } else if name.eq("K") {
        Some("KEY_K")
    } else if name.eq("L") {
        Some("KEY_L")
    } else if name.eq("M") {
        Some("KEY_M")
    } else if name.eq("N") {
        Some("KEY_N")
    } else if name.eq("O") {
        Some("KEY_O")
    } else if name.eq("P") {
        Some("KEY_P")
    } else if name.eq("Q") {
        Some("KEY_Q")
    } else if name.eq("R") {
        Some("KEY_R")
    } else if name.eq("S") {
        Some("KEY_S")
    } else if name.eq("T") {
        Some("KEY_T")
    } else if name.eq("U") {
        Some("KEY_U")
    } else if name.eq("V") {
        Some("KEY_V")
    } else if name.eq("W") {
        Some("KEY_W")
    } else if name.eq("X") {
        Some("KEY_X")
    } else if name.eq("Y") {
        Some("KEY_Y")
    } else if name.eq("Z") {
        Some("KEY_Z")
    } else {
        None
    }
}

/// The key name behind a friendly name, for the names that have one.
pub open spec fn spec_key_alias(name: Seq<char>) -> Option<Seq<char>> {
    if spec_modifier_alias(name) is Some {
        spec_modifier_alias(name)
    } else if spec_function_key_alias(name) is Some {
        spec_function_key_alias(name)
    } else if spec_digit_alias(name) is Some {
        spec_digit_alias(name)
    } else if spec_navigation_alias(name) is Some {
        spec_navigation_alias(name)
    } else if spec_editing_alias(name) is Some {
        spec_editing_alias(name)
    } else if spec_punctuation_alias(name) is Some {
        spec_punctuation_alias(name)
    } else if spec_lock_alias(name) is Some {
        spec_lock_alias(name)
    } else if spec_media_alias(name) is Some {
        spec_media_alias(name)
    } else if spec_numpad_alias(name) is Some {
        spec_numpad_alias(name)
    } else if spec_browser_alias(name) is Some {
        spec_browser_alias(name)
    } else if spec_letter_alias(name) is Some {
        spec_letter_alias(name)
    } else {
        None
    }
}

/// Maps a friendly key name to the name the input layer knows the key by.
pub fn get_key_alias(name: &str) -> (alias: Option<&'static str>)
    ensures
        text_of(alias) == spec_key_alias(name@),
{
    let found = modifier_alias(name);
    if found.is_some() {
        return found;
    }
    let found = function_key_alias(name);
    if found.is_some() {
        return found;
    }
    let found = digit_alias(name);
    if found.is_some() {
        return found;
    }
    let found = navigation_alias(name);
    if found.is_some() {
        return found;
    }
    let found = editing_alias(name);
    if found.is_some() {
        return found;
    }
    let found = punctuation_alias(name);
    if found.is_some() {
        return found;
    }
    let found = lock_alias(name);
    if found.is_some() {
        return found;
    }
    let found = media_alias(name);
    if found.is_some() {
        return found;
    }
    let found = numpad_alias(name);
    if found.is_some() {
        return found;
    }
    let found = browser_alias(name);
    if found.is_some() {
        return found;
    }
    let found = letter_alias(name);
    if found.is_some() {
        return found;
    }
    None
}

/// Why a shortcut could not be understood.
#[derive(Debug, PartialEq, Eq)]
pub enum ShortcutError {
    /// A part of the shortcut names no key: the part as written, and the
    /// name that was looked up for it.
    UnknownKey { part: String, tried: String },
}

impl ShortcutError {
    /// The text of the error.
    pub fn message(&self) -> (text: String)
        ensures
            text@ == match *self {
                ShortcutError::UnknownKey { part, tried } => "Unknown key: "@ + part@
                    + " (tried parsing as '"@ + tried@ + "')"@,
            },
    {
        match self {
            ShortcutError::UnknownKey { part, tried } => {
                "Unknown key: ".to_owned().concat(part.as_str()).concat(
                    " (tried parsing as '",
                ).concat(tried.as_str()).concat("')")
            },
        }
    }
}

/// Where the first `+` of a text stands, or its length where it has none.
pub open spec fn first_plus(text: Seq<char>) -> int
    decreases text.len(),
{
    if text.len() == 0 || text[0] == '+' {
        0
    } else {
        1 + first_plus(text.drop_first())
    }
}

/// The parts of a text between its `+` signs, in order. A text without a
/// `+` is its own single part; an empty part stays.
pub open spec fn split_plus(text: Seq<char>) -> Seq<Seq<char>>
    decreases text.len(),
{
    let at = first_plus(text);
    if 0 <= at < text.len() {
        seq![text.take(at)] + split_plus(text.skip(at + 1))
    } else {
        seq![text]
    }
}

/// Whether a text begins with `KEY_`.
pub open spec fn has_key_prefix(text: Seq<char>) -> bool {
    text.len() >= 4 && text[0] == 'K' && text[1] == 'E' && text[2] == 'Y' && text[3] == '_'
}

/// The name that is looked up for a part of a shortcut: the part is
/// trimmed and put in upper case; a friendly name gives its key name; a
/// name that begins with `KEY_` stands for itself; any other gets `KEY_`
/// in front.
pub open spec fn lookup_name(part: Seq<char>) -> Seq<char> {
    let upper = uppercased(trimmed(part));
    match spec_key_alias(upper) {
        Some(alias) => alias,
        None => if has_key_prefix(upper) {
            upper
        } else {
            "KEY_"@ + upper
        },
    }
}

/// The key code of a part of a shortcut, if it names a key.
pub open spec fn part_code(part: Seq<char>) -> Option<u16> {
    key_code_named(lookup_name(part))
}

/// The key codes of the first `n` parts.
pub open spec fn codes_of(parts: Seq<Seq<char>>, n: int) -> Set<u16> {
    Set::new(|code: u16| exists|i: int| 0 <= i < n && #[trigger] part_code(parts[i]) == Some(code))
}

/// Whether part `i` is the first that names no key.
pub open spec fn first_unknown(parts: Seq<Seq<char>>, i: int) -> bool {
    &&& 0 <= i < parts.len()
    &&& part_code(parts[i]) is None
    &&& forall|j: int| 0 <= j < i ==> #[trigger] part_code(parts[j]) is Some
}

/// What a shortcut text means: the set of the key codes of its parts, or
/// its first part that names no key.
pub open spec fn parsed(text: Seq<char>, r: Result<HashSet<u16>, ShortcutError>) -> bool {
    let parts = split_plus(text);
    match r {
        Ok(keys) => {
            &&& forall|i: int| 0 <= i < parts.len() ==> #[trigger] part_code(parts[i]) is Some
            &&& keys@ == codes_of(parts, parts.len() as int)
        },
        Err(error) => exists|i: int| #[trigger]
            first_unknown(parts, i) && error->part@ == parts[i] && error->tried@ == lookup_name(
                parts[i],
            ),
    }
}

/// If the first `k` characters hold no `+` and the next one is a `+`, the
/// first `+` stands at `k`; if there is none at all, `first_plus` is the
/// length.
proof fn lemma_first_plus(text: Seq<char>, k: int)
    requires
        0 <= k <= text.len(),
        forall|i: int| 0 <= i < k ==> text[i] != '+',
        k < text.len() ==> text[k] == '+',
    ensures
        first_plus(text) == k,
    decreases k,
{
    if k > 0 {
        let rest = text.drop_first();
        assert forall|i: int| 0 <= i < k - 1 implies rest[i] != '+' by {
            assert(rest[i] == text[i + 1]);
        }
        lemma_first_plus(rest, k - 1);
    }
}

/// Cuts a text at its `+` signs.
pub fn split_on_plus<'a>(text: &'a str) -> (parts: Vec<&'a str>)
    ensures
        parts@.len() == split_plus(text@).len(),
        forall|i: int| 0 <= i < parts@.len() ==> #[trigger] parts@[i]@ == split_plus(text@)[i],
{
    let len: usize = text.unicode_len();
    let mut parts: Vec<&'a str> = Vec::new();
    let mut start: usize = 0;
    let mut at: usize = 0;
    let ghost mut done: Seq<Seq<char>> = Seq::empty();
    proof {
        assert(text@.skip(0) =~= text@);
        assert(done + split_plus(text@) =~= split_plus(text@));
    }
    while at < len
        invariant
            len == text@.len(),
            start <= at <= len,
            forall|i: int| start <= i < at ==> text@[i] != '+',
            done.len() == parts@.len(),
            forall|i: int| 0 <= i < parts@.len() ==> #[trigger] parts@[i]@ == done[i],
            split_plus(text@) == done + split_plus(text@.skip(start as int)),
        decreases len - at,
    {
        let c = text.get_char(at);
        if c == '+' {
            let part = text.substring_char(start, at);
            proof {
                let rest = text@.skip(start as int);
                lemma_first_plus(rest, at - start);
                assert(rest.take(at - start) =~= text@.subrange(start as int, at as int));
                assert(rest.skip(at - start + 1) =~= text@.skip(at + 1));
                assert(done + (seq![part@] + split_plus(text@.skip(at + 1))) =~= done.push(part@)
                    + split_plus(text@.skip(at + 1)));
                done = done.push(part@);
            }
            parts.push(part);
            start = at + 1;
        }
        at += 1;
    }
    let part = text.substring_char(start, len);
    proof {
        let rest = text@.skip(start as int);
        lemma_first_plus(rest, len - start);
        assert(rest =~= text@.subrange(start as int, len as int));
        assert(split_plus(rest) == seq![rest]);
        assert(done + seq![part@] =~= done.push(part@));
    }
    parts.push(part);
    parts
}

/// Whether a text begins with `KEY_`.
pub fn starts_with_key_prefix(text: &str) -> (yes: bool)
    ensures
        yes == has_key_prefix(text@),
{
    let len: usize = text.unicode_len();
    len >= 4 && text.get_char(0) == 'K' && text.get_char(1) == 'E' && text.get_char(2) == 'Y'
        && text.get_char(3) == '_'
}

/// The name to look up for a part of a shortcut.
pub fn resolve_part(part: &str) -> (name: String)
    ensures
        name@ == lookup_name(part@),
{
    let upper = part.trim().to_uppercase();
    match get_key_alias(upper.as_str()) {
        Some(alias) => alias.to_owned(),
        None => {
            if starts_with_key_prefix(upper.as_str()) {
                upper
            } else {
                "KEY_".to_owned().concat(upper.as_str())
            }
        },
    }
}

/// Parses a shortcut such as `SUPER+ALT+D` into the set of its key codes.
///
/// Each part between `+` signs names one key: by a friendly name
/// (`SUPER`, `F12`, `ENTER`), by the input layer's own name
/// (`KEY_LEFTMETA`), or by that name without its `KEY_` (`COMMA`). The
/// first part that names no key is the error.
pub fn parse_shortcut(shortcut: &str) -> (r: Result<HashSet<u16>, ShortcutError>)
    ensures
        parsed(shortcut@, r),
{
    let parts = split_on_plus(shortcut);
    let ghost texts = split_plus(shortcut@);
    let mut keys: HashSet<u16> = HashSet::new();
    let mut i: usize = 0;
    while i < parts.len()
        invariant
            i <= parts@.len(),
            texts == split_plus(shortcut@),
            parts@.len() == texts.len(),
            forall|k: int| 0 <= k < parts@.len() ==> #[trigger] parts@[k]@ == texts[k],
            forall|k: int| 0 <= k < i ==> #[trigger] part_code(texts[k]) is Some,
            keys@ == codes_of(texts, i as int),
        decreases parts@.len() - i,
    {
        let part: &str = parts[i];
        let name = resolve_part(part);
        match key_from_name(name.as_str()) {
            Ok(key) => {
                let code: u16 = key.0;
                keys.insert(code);
                proof {
                    assert(part_code(texts[i as int]) == Some(code));
                    assert(keys@ =~= codes_of(texts, i + 1)) by {
                        assert forall|c: u16| codes_of(texts, i + 1).contains(c) implies keys@.contains(
                            c,
                        ) by {
                            let k = choose|k: int|
                                0 <= k < i + 1 && #[trigger] part_code(texts[k]) == Some(c);
                            if k < i {
                                assert(codes_of(texts, i as int).contains(c));
                            }
                        }
                        assert forall|c: u16| keys@.contains(c) implies codes_of(
                            texts,
                            i + 1,
                        ).contains(c) by {
                            if c != code {
                                assert(codes_of(texts, i as int).contains(c));
                                let k = choose|k: int|
                                    0 <= k < i && #[trigger] part_code(texts[k]) == Some(c);
                                assert(0 <= k < i + 1 && part_code(texts[k]) == Some(c));
                            }
                        }
                    }
                }
            },
            Err(_) => {
                let failure: Result<HashSet<u16>, ShortcutError> = Err(
                    ShortcutError::UnknownKey { part: part.to_owned(), tried: name },
                );
                proof {
                    let at = i as int;
                    assert(0 <= at < texts.len());
                    assert(part_code(texts[at]) is None);
                    assert(first_unknown(texts, at));
                }
                return failure;
            },
        }
        i += 1;
    }
    Ok(keys)
}

/// Milliseconds that must have passed since the last trigger before the
/// shortcut triggers again.
pub const DEBOUNCE_MILLIS: u64 = 500;

/// Value of a key event for a key that went down.
pub const KEY_DOWN: i32 = 1;

/// Value of a key event for a key that went up.
pub const KEY_UP: i32 = 0;

/// Watches the key events of one keyboard for a shortcut.
pub struct KeyMonitor {
    target: HashSet<u16>,
    pressed: HashSet<u16>,
    last_trigger: u64,
}

impl KeyMonitor {
    /// The keys of the shortcut.
    pub closed spec fn target(&self) -> Set<u16> {
        self.target@
    }

    /// The keys that are held down.
    pub closed spec fn pressed(&self) -> Set<u16> {
        self.pressed@
    }

    /// When the shortcut triggered last, in milliseconds since the monitor
    /// was made.
    pub closed spec fn last_trigger(&self) -> u64 {
        self.last_trigger
    }

    /// Whether every key of the shortcut is in a set of keys.
    pub open spec fn held(&self, keys: Set<u16>) -> bool {
        self.target().subset_of(keys)
    }

    /// A monitor for a shortcut, with no key held down. Its clock starts
    /// now, and so does the first debounce period.
    pub fn new(target: HashSet<u16>) -> (monitor: Self)
        ensures
            monitor.target() == target@,
            monitor.pressed() == Set::<u16>::empty(),
            monitor.last_trigger() == 0,
    {
        KeyMonitor { target, pressed: HashSet::new(), last_trigger: 0 }
    }

    /// Whether every key of the shortcut is held down.
    pub fn all_held(&self) -> (yes: bool)
        ensures
            yes == self.held(self.pressed()),
    {
        let ghost mut seen: Set<u16> = Set::empty();
        for code in iter: self.target.iter()
            invariant
                iter.seq().unref().to_set() == self.target@,
                seen.subset_of(self.pressed@),
                forall|k: int| 0 <= k < iter.index() ==> seen.contains(#[trigger] iter.seq().unref()[k]),
        {
            if !self.pressed.contains(code) {
                proof {
                    let k = iter.index() as int;
                    assert(iter.seq().unref()[k] == *code);
                    assert(iter.seq().unref().to_set().contains(*code));
                }
                return false;
            }
            proof {
                seen = seen.insert(*code);
            }
        }
        proof {
            assert(self.target@.subset_of(seen));
        }
        true
    }

    /// Takes one key event, at `now` milliseconds since the monitor was
    /// made, and says whether the shortcut triggers.
    ///
    /// A key that goes down is held from then on; the shortcut triggers if
    /// all its keys are held and more than the debounce period has passed
    /// since it triggered last. A key that goes up is no longer held. Any
    /// other event changes nothing.
    pub fn on_key(&mut self, code: u16, value: i32, now: u64) -> (triggered: bool)
        ensures
            final(self).target() == old(self).target(),
            value == KEY_DOWN ==> final(self).pressed() == old(self).pressed().insert(code),
            value == KEY_UP ==> final(self).pressed() == old(self).pressed().remove(code),
            value != KEY_DOWN && value != KEY_UP ==> final(self).pressed() == old(self).pressed(),
            triggered <==> value == KEY_DOWN && old(self).held(old(self).pressed().insert(code))
                && now - old(self).last_trigger() > DEBOUNCE_MILLIS,
            final(self).last_trigger() == if triggered {
                now
            } else {
                old(self).last_trigger()
            },
    {
        if value == KEY_DOWN {
            self.pressed.insert(code);
            if self.all_held() && now > self.last_trigger && now - self.last_trigger
                > DEBOUNCE_MILLIS {
                self.last_trigger = now;
                return true;
            }
            false
        } else if value == KEY_UP {
            self.pressed.remove(&code);
            false
        } else {
            false
        }
    }
}

} // verus!
