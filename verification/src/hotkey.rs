//! Global-hotkey configuration: parsing `"cmd+shift+space"`-style combos into
//! a modifier mask and a macOS virtual keycode, the registry of bindings, and
//! the press/release decision taken for every keyboard event the event tap
//! sees.
use vstd::prelude::*;

use crate::text::{seq_starts_with, split_chars, split_on, starts_with_str, str_eq, to_lowercase, unicode_lowercase};

verus! {

/// Command modifier bit of the event flags (`kCGEventFlagMaskCommand`).
pub const MOD_CMD: u64 = 0x100000;
/// Shift modifier bit (`kCGEventFlagMaskShift`).
pub const MOD_SHIFT: u64 = 0x20000;
/// Option/Alt modifier bit (`kCGEventFlagMaskAlternate`).
pub const MOD_ALT: u64 = 0x80000;
/// Control modifier bit (`kCGEventFlagMaskControl`).
pub const MOD_CTRL: u64 = 0x40000;

/// A parsed hotkey configuration.
#[derive(Debug, Clone)]
pub struct HotkeyConfig {
    /// Event-flag bitmask of the required modifiers.
    pub modifiers: u64,
    /// macOS virtual keycode.
    pub keycode: u16,
    /// Human-readable label used to identify this hotkey in callbacks.
    pub label: String,
}

/// The macOS virtual keycode (`kVK_*`) a lowercase key name denotes.
pub open spec fn key_code(name: Seq<char>) -> Option<u16> {
    if name == "a"@ {
        Some(0x00u16)
    } else if name == "b"@ {
        Some(0x0Bu16)
    } else if name == "c"@ {
        Some(0x08u16)
    } else if name == "d"@ {
        Some(0x02u16)
    } else if name == "e"@ {
        Some(0x0Eu16)
    } else if name == "f"@ {
        Some(0x03u16)
    } else if name == "g"@ {
        Some(0x05u16)
    } else if name == "h"@ {
        Some(0x04u16)
    } else if name == "i"@ {
        Some(0x22u16)
    } else if name == "j"@ {
        Some(0x26u16)
    } else if name == "k"@ {
        Some(0x28u16)
    } else if name == "l"@ {
        Some(0x25u16)
    } else if name == "m"@ {
        Some(0x2Eu16)
    } else if name == "n"@ {
        Some(0x2Du16)
    } else if name == "o"@ {
        Some(0x1Fu16)
    } else if name == "p"@ {
        Some(0x23u16)
    } else if name == "q"@ {
        Some(0x0Cu16)
    } else if name == "r"@ {
        Some(0x0Fu16)
    } else if name == "s"@ {
        Some(0x01u16)
    } else if name == "t"@ {
        Some(0x11u16)
    } else if name == "u"@ {
        Some(0x20u16)
    } else if name == "v"@ {
        Some(0x09u16)
    } else if name == "w"@ {
        Some(0x0Du16)
    } else if name == "x"@ {
        Some(0x07u16)
    } else if name == "y"@ {
        Some(0x10u16)
    } else if name == "z"@ {
        Some(0x06u16)
    } else if name == "0"@ {
        Some(0x1Du16)
    } else if name == "1"@ {
        Some(0x12u16)
    } else if name == "2"@ {
        Some(0x13u16)
    } else if name == "3"@ {
        Some(0x14u16)
    } else if name == "4"@ {
        Some(0x15u16)
    } else if name == "5"@ {
        Some(0x17u16)
    } else if name == "6"@ {
        Some(0x16u16)
    } else if name == "7"@ {
        Some(0x1Au16)
    } else if name == "8"@ {
        Some(0x1Cu16)
    } else if name == "9"@ {
        Some(0x19u16)
    } else if name == "-"@ || name == "minus"@ {
        Some(0x1Bu16)
    } else if name == "="@ || name == "equal"@ {
        Some(0x18u16)
    } else if name == "["@ || name == "bracketleft"@ {
        Some(0x21u16)
    } else if name == "]"@ || name == "bracketright"@ {
        Some(0x1Eu16)
    } else if name == "'"@ || name == "quote"@ {
        Some(0x27u16)
    } else if name == ";"@ || name == "semicolon"@ {
        Some(0x29u16)
    } else if name == "\\"@ || name == "backslash"@ {
        Some(0x2Au16)
    } else if name == ","@ || name == "comma"@ {
        Some(0x2Bu16)
    } else if name == "/"@ || name == "slash"@ {
        Some(0x2Cu16)
    } else if name == "."@ || name == "period"@ {
        Some(0x2Fu16)
    } else if name == "`"@ || name == "grave"@ || name == "backquote"@ {
        Some(0x32u16)
    } else if name == "space"@ || name == " "@ {
        Some(0x31u16)
    } else if name == "return"@ || name == "enter"@ {
        Some(0x24u16)
    } else if name == "tab"@ {
        Some(0x30u16)
    } else if name == "delete"@ || name == "backspace"@ {
        Some(0x33u16)
    } else if name == "forwarddelete"@ {
        Some(0x75u16)
    } else if name == "escape"@ || name == "esc"@ {
        Some(0x35u16)
    } else if name == "up"@ || name == "arrowup"@ {
        Some(0x7Eu16)
    } else if name == "down"@ || name == "arrowdown"@ {
        Some(0x7Du16)
    } else if name == "left"@ || name == "arrowleft"@ {
        Some(0x7Bu16)
    } else if name == "right"@ || name == "arrowright"@ {
        Some(0x7Cu16)
    } else if name == "f1"@ {
        Some(0x7Au16)
    } else if name == "f2"@ {
        Some(0x78u16)
    } else if name == "f3"@ {
        Some(0x63u16)
    } else if name == "f4"@ {
        Some(0x76u16)
    } else if name == "f5"@ {
        Some(0x60u16)
    } else if name == "f6"@ {
        Some(0x61u16)
    } else if name == "f7"@ {
        Some(0x62u16)
    } else if name == "f8"@ {
        Some(0x64u16)
    } else if name == "f9"@ {
        Some(0x65u16)
    } else if name == "f10"@ {
        Some(0x6Du16)
    } else if name == "f11"@ {
        Some(0x67u16)
    } else if name == "f12"@ {
        Some(0x6Fu16)
    } else if name == "f13"@ {
        Some(0x69u16)
    } else if name == "f14"@ {
        Some(0x6Bu16)
    } else if name == "f15"@ {
        Some(0x71u16)
    } else if name == "f16"@ {
        Some(0x6Au16)
    } else if name == "f17"@ {
        Some(0x40u16)
    } else if name == "f18"@ {
        Some(0x4Fu16)
    } else if name == "f19"@ {
        Some(0x50u16)
    } else {
        None
    }
}

/// The key names the macOS virtual keycode `code` (`kVK_*`) is written
/// with in a combo, listed by keycode: letters and digits by themselves,
/// punctuation by its character or its name, and the named keys (`space`,
/// `return`/`enter`, arrows, function keys and so on).
pub open spec fn names_key(code: u16, name: Seq<char>) -> bool {
    if code == 0x00u16 {
        name == "a"@
    } else if code == 0x01u16 {
        name == "s"@
    } else if code == 0x02u16 {
        name == "d"@
    } else if code == 0x03u16 {
        name == "f"@
    } else if code == 0x04u16 {
        name == "h"@
    } else if code == 0x05u16 {
        name == "g"@
    } else if code == 0x06u16 {
        name == "z"@
    } else if code == 0x07u16 {
        name == "x"@
    } else if code == 0x08u16 {
        name == "c"@
    } else if code == 0x09u16 {
        name == "v"@
    } else if code == 0x0Bu16 {
        name == "b"@
    } else if code == 0x0Cu16 {
        name == "q"@
    } else if code == 0x0Du16 {
        name == "w"@
    } else if code == 0x0Eu16 {
        name == "e"@
    } else if code == 0x0Fu16 {
        name == "r"@
    } else if code == 0x10u16 {
        name == "y"@
    } else if code == 0x11u16 {
        name == "t"@
    } else if code == 0x12u16 {
        name == "1"@
    } else if code == 0x13u16 {
        name == "2"@
    } else if code == 0x14u16 {
        name == "3"@
    } else if code == 0x15u16 {
        name == "4"@
    } else if code == 0x16u16 {
        name == "6"@
    } else if code == 0x17u16 {
        name == "5"@
    } else if code == 0x18u16 {
        name == "="@ || name == "equal"@
    } else if code == 0x19u16 {
        name == "9"@
    } else if code == 0x1Au16 {
        name == "7"@
    } else if code == 0x1Bu16 {
        name == "-"@ || name == "minus"@
    } else if code == 0x1Cu16 {
        name == "8"@
    } else if code == 0x1Du16 {
        name == "0"@
    } else if code == 0x1Eu16 {
        name == "]"@ || name == "bracketright"@
    } else if code == 0x1Fu16 {
        name == "o"@
    } else if code == 0x20u16 {
        name == "u"@
    } else if code == 0x21u16 {
        name == "["@ || name == "bracketleft"@
    } else if code == 0x22u16 {
        name == "i"@
    } else if code == 0x23u16 {
        name == "p"@
    } else if code == 0x24u16 {
        name == "return"@ || name == "enter"@
    } else if code == 0x25u16 {
        name == "l"@
    } else if code == 0x26u16 {
        name == "j"@
    } else if code == 0x27u16 {
        name == "'"@ || name == "quote"@
    } else if code == 0x28u16 {
        name == "k"@
    } else if code == 0x29u16 {
        name == ";"@ || name == "semicolon"@
    } else if code == 0x2Au16 {
        name == "\\"@ || name == "backslash"@
    } else if code == 0x2Bu16 {
        name == ","@ || name == "comma"@
    } else if code == 0x2Cu16 {
        name == "/"@ || name == "slash"@
    } else if code == 0x2Du16 {
        name == "n"@
    } else if code == 0x2Eu16 {
        name == "m"@
    } else if code == 0x2Fu16 {
        name == "."@ || name == "period"@
    } else if code == 0x30u16 {
        name == "tab"@
    } else if code == 0x31u16 {
        name == "space"@ || name == " "@
    } else if code == 0x32u16 {
        name == "`"@ || name == "grave"@ || name == "backquote"@
    } else if code == 0x33u16 {
        name == "delete"@ || name == "backspace"@
    } else if code == 0x35u16 {
        name == "escape"@ || name == "esc"@
    } else if code == 0x40u16 {
        name == "f17"@
    } else if code == 0x4Fu16 {
        name == "f18"@
    } else if code == 0x50u16 {
        name == "f19"@
    } else if code == 0x60u16 {
        name == "f5"@
    } else if code == 0x61u16 {
        name == "f6"@
    } else if code == 0x62u16 {
        name == "f7"@
    } else if code == 0x63u16 {
        name == "f3"@
    } else if code == 0x64u16 {
        name == "f8"@
    } else if code == 0x65u16 {
        name == "f9"@
    } else if code == 0x67u16 {
        name == "f11"@
    } else if code == 0x69u16 {
        name == "f13"@
    } else if code == 0x6Au16 {
        name == "f16"@
    } else if code == 0x6Bu16 {
        name == "f14"@
    } else if code == 0x6Du16 {
        name == "f10"@
    } else if code == 0x6Fu16 {
        name == "f12"@
    } else if code == 0x71u16 {
        name == "f15"@
    } else if code == 0x75u16 {
        name == "forwarddelete"@
    } else if code == 0x76u16 {
        name == "f4"@
    } else if code == 0x78u16 {
        name == "f2"@
    } else if code == 0x7Au16 {
        name == "f1"@
    } else if code == 0x7Bu16 {
        name == "left"@ || name == "arrowleft"@
    } else if code == 0x7Cu16 {
        name == "right"@ || name == "arrowright"@
    } else if code == 0x7Du16 {
        name == "down"@ || name == "arrowdown"@
    } else if code == 0x7Eu16 {
        name == "up"@ || name == "arrowup"@
    } else {
        false
    }
}

/// Every key name maps to a keycode that is written with that very name:
/// no key name is sent as another key's code.
pub proof fn lemma_key_name_maps_to_its_own_key(name: Seq<char>)
    ensures
        key_code(name) matches Some(code) ==> names_key(code, name),
{
}

/// Map a lowercase key name to its macOS virtual keycode.
pub fn key_name_to_code(name: &str) -> (code: Option<u16>)
    ensures
        code == key_code(name@),
        code matches Some(c) ==> names_key(c, name@),
{
    if str_eq(name, "a") {
        Some(0x00u16)
    } else if str_eq(name, "b") {
        Some(0x0Bu16)
    } else if str_eq(name, "c") {
        Some(0x08u16)
    } else if str_eq(name, "d") {
        Some(0x02u16)
    } else if str_eq(name, "e") {
        Some(0x0Eu16)
    } else if str_eq(name, "f") {
        Some(0x03u16)
    } else if str_eq(name, "g") {
        Some(0x05u16)
    } else if str_eq(name, "h") {
        Some(0x04u16)
    } else if str_eq(name, "i") {
        Some(0x22u16)
    } else if str_eq(name, "j") {
        Some(0x26u16)
    } else if str_eq(name, "k") {
        Some(0x28u16)
    } else if str_eq(name, "l") {
        Some(0x25u16)
    } else if str_eq(name, "m") {
        Some(0x2Eu16)
    } else if str_eq(name, "n") {
        Some(0x2Du16)
    } else if str_eq(name, "o") {
        Some(0x1Fu16)
    } else if str_eq(name, "p") {
        Some(0x23u16)
    } else if str_eq(name, "q") {
        Some(0x0Cu16)
    } else if str_eq(name, "r") {
        Some(0x0Fu16)
    } else if str_eq(name, "s") {
        Some(0x01u16)
    } else if str_eq(name, "t") {
        Some(0x11u16)
    } else if str_eq(name, "u") {
        Some(0x20u16)
    } else if str_eq(name, "v") {
        Some(0x09u16)
    } else if str_eq(name, "w") {
        Some(0x0Du16)
    } else if str_eq(name, "x") {
        Some(0x07u16)
    } else if str_eq(name, "y") {
        Some(0x10u16)
    } else if str_eq(name, "z") {
        Some(0x06u16)
    } else if str_eq(name, "0") {
        Some(0x1Du16)
    } else if str_eq(name, "1") {
        Some(0x12u16)
    } else if str_eq(name, "2") {
        Some(0x13u16)
    } else if str_eq(name, "3") {
        Some(0x14u16)
    } else if str_eq(name, "4") {
        Some(0x15u16)
    } else if str_eq(name, "5") {
        Some(0x17u16)
    } else if str_eq(name, "6") {
        Some(0x16u16)
    } else if str_eq(name, "7") {
        Some(0x1Au16)
    } else if str_eq(name, "8") {
        Some(0x1Cu16)
    } else if str_eq(name, "9") {
        Some(0x19u16)
    } else if str_eq(name, "-") || str_eq(name, "minus") {
        Some(0x1Bu16)
    } else if str_eq(name, "=") || str_eq(name, "equal") {
        Some(0x18u16)
    } else if str_eq(name, "[") || str_eq(name, "bracketleft") {
        Some(0x21u16)
    } else if str_eq(name, "]") || str_eq(name, "bracketright") {
        Some(0x1Eu16)
    } else if str_eq(name, "'") || str_eq(name, "quote") {
        Some(0x27u16)
    } else if str_eq(name, ";") || str_eq(name, "semicolon") {
        Some(0x29u16)
    } else if str_eq(name, "\\") || str_eq(name, "backslash") {
        Some(0x2Au16)
    } else if str_eq(name, ",") || str_eq(name, "comma") {
        Some(0x2Bu16)
    } else if str_eq(name, "/") || str_eq(name, "slash") {
        Some(0x2Cu16)
    } else if str_eq(name, ".") || str_eq(name, "period") {
        Some(0x2Fu16)
    } else if str_eq(name, "`") || str_eq(name, "grave") || str_eq(name, "backquote") {
        Some(0x32u16)
    } else if str_eq(name, "space") || str_eq(name, " ") {
        Some(0x31u16)
    } else if str_eq(name, "return") || str_eq(name, "enter") {
        Some(0x24u16)
    } else if str_eq(name, "tab") {
        Some(0x30u16)
    } else if str_eq(name, "delete") || str_eq(name, "backspace") {
        Some(0x33u16)
    } else if str_eq(name, "forwarddelete") {
        Some(0x75u16)
    } else if str_eq(name, "escape") || str_eq(name, "esc") {
        Some(0x35u16)
    } else if str_eq(name, "up") || str_eq(name, "arrowup") {
        Some(0x7Eu16)
    } else if str_eq(name, "down") || str_eq(name, "arrowdown") {
        Some(0x7Du16)
    } else if str_eq(name, "left") || str_eq(name, "arrowleft") {
        Some(0x7Bu16)
    } else if str_eq(name, "right") || str_eq(name, "arrowright") {
        Some(0x7Cu16)
    } else if str_eq(name, "f1") {
        Some(0x7Au16)
    } else if str_eq(name, "f2") {
        Some(0x78u16)
    } else if str_eq(name, "f3") {
        Some(0x63u16)
    } else if str_eq(name, "f4") {
        Some(0x76u16)
    } else if str_eq(name, "f5") {
        Some(0x60u16)
    } else if str_eq(name, "f6") {
        Some(0x61u16)
    } else if str_eq(name, "f7") {
        Some(0x62u16)
    } else if str_eq(name, "f8") {
        Some(0x64u16)
    } else if str_eq(name, "f9") {
        Some(0x65u16)
    } else if str_eq(name, "f10") {
        Some(0x6Du16)
    } else if str_eq(name, "f11") {
        Some(0x67u16)
    } else if str_eq(name, "f12") {
        Some(0x6Fu16)
    } else if str_eq(name, "f13") {
        Some(0x69u16)
    } else if str_eq(name, "f14") {
        Some(0x6Bu16)
    } else if str_eq(name, "f15") {
        Some(0x71u16)
    } else if str_eq(name, "f16") {
        Some(0x6Au16)
    } else if str_eq(name, "f17") {
        Some(0x40u16)
    } else if str_eq(name, "f18") {
        Some(0x4Fu16)
    } else if str_eq(name, "f19") {
        Some(0x50u16)
    } else {
        None
    }
}

/// The modifier bit a lowercase modifier name denotes.
pub open spec fn modifier_bit(name: Seq<char>) -> Option<u64> {
    if name == "cmd"@ || name == "command"@ {
        Some(MOD_CMD)
    } else if name == "shift"@ {
        Some(MOD_SHIFT)
    } else if name == "alt"@ || name == "opt"@ || name == "option"@ {
        Some(MOD_ALT)
    } else if name == "ctrl"@ || name == "control"@ {
        Some(MOD_CTRL)
    } else {
        None
    }
}

/// Whether `name` is one of the names the modifier `bit` is written with in
/// a combo: `cmd`/`command` for Command, `shift` for Shift,
/// `alt`/`opt`/`option` for Option and `ctrl`/`control` for Control.
pub open spec fn is_modifier_alias(bit: u64, name: Seq<char>) -> bool {
    ||| bit == MOD_CMD && (name == "cmd"@ || name == "command"@)
    ||| bit == MOD_SHIFT && name == "shift"@
    ||| bit == MOD_ALT && (name == "alt"@ || name == "opt"@ || name == "option"@)
    ||| bit == MOD_CTRL && (name == "ctrl"@ || name == "control"@)
}

proof fn lemma_modifier_literals()
    ensures
        "cmd"@.len() == 3 && "cmd"@[0] == 'c' && "cmd"@[1] == 'm',
        "command"@.len() == 7 && "command"@[0] == 'c' && "command"@[1] == 'o',
        "shift"@.len() == 5 && "shift"@[0] == 's',
        "alt"@.len() == 3 && "alt"@[0] == 'a',
        "opt"@.len() == 3 && "opt"@[0] == 'o',
        "option"@.len() == 6 && "option"@[0] == 'o',
        "ctrl"@.len() == 4 && "ctrl"@[0] == 'c' && "ctrl"@[1] == 't',
        "control"@.len() == 7 && "control"@[0] == 'c' && "control"@[1] == 'o' && "control"@[2] == 'n',
        "command"@[2] == 'm',
{
    reveal_strlit("cmd");
    reveal_strlit("command");
    reveal_strlit("shift");
    reveal_strlit("alt");
    reveal_strlit("opt");
    reveal_strlit("option");
    reveal_strlit("ctrl");
    reveal_strlit("control");
}

/// Each modifier name denotes exactly the modifier it is an alias of: a name
/// maps to a bit exactly when it is one of that bit's aliases, and the four
/// modifiers are four distinct single bits.
pub proof fn lemma_modifier_names_denote_their_own_bit(name: Seq<char>, bit: u64)
    ensures
        modifier_bit(name) == Some(bit) <==> is_modifier_alias(bit, name),
        MOD_CMD != MOD_SHIFT && MOD_CMD != MOD_ALT && MOD_CMD != MOD_CTRL,
        MOD_SHIFT != MOD_ALT && MOD_SHIFT != MOD_CTRL && MOD_ALT != MOD_CTRL,
        modifier_bit(name) matches Some(b) ==> b & ((b - 1) as u64) == 0 && b != 0,
{
    lemma_modifier_literals();
    assert(MOD_CMD & ((MOD_CMD - 1) as u64) == 0) by (bit_vector);
    assert(MOD_SHIFT & ((MOD_SHIFT - 1) as u64) == 0) by (bit_vector);
    assert(MOD_ALT & ((MOD_ALT - 1) as u64) == 0) by (bit_vector);
    assert(MOD_CTRL & ((MOD_CTRL - 1) as u64) == 0) by (bit_vector);
}

fn modifier_for(name: &str) -> (bit: Option<u64>)
    ensures
        bit == modifier_bit(name@),
        bit matches Some(b) ==> is_modifier_alias(b, name@),
{
    proof {
        lemma_modifier_literals();
    }
    if str_eq(name, "cmd") || str_eq(name, "command") {
        Some(MOD_CMD)
    } else if str_eq(name, "shift") {
        Some(MOD_SHIFT)
    } else if str_eq(name, "alt") || str_eq(name, "opt") || str_eq(name, "option") {
        Some(MOD_ALT)
    } else if str_eq(name, "ctrl") || str_eq(name, "control") {
        Some(MOD_CTRL)
    } else {
        None
    }
}

/// The combined modifier mask of the modifier tokens `mods`, each lowercased
/// before lookup; `Err` carries the first lowercased token that names no
/// modifier.
pub open spec fn fold_modifiers(mods: Seq<Seq<char>>) -> Result<u64, Seq<char>>
    decreases mods.len(),
{
    if mods.len() == 0 {
        Ok(0u64)
    } else {
        match fold_modifiers(mods.drop_last()) {
            Err(bad) => Err(bad),
            Ok(acc) => match modifier_bit(unicode_lowercase(mods.last())) {
                Some(bit) => Ok(acc | bit),
                None => Err(unicode_lowercase(mods.last())),
            },
        }
    }
}

/// The outcome of parsing `combo`: the last `+`-separated token is the key,
/// the preceding tokens are modifiers (all compared lowercased). `Ok` holds
/// `(modifiers, keycode)`; `Err` the error text.
pub open spec fn hotkey_parse(combo: Seq<char>) -> Result<(u64, u16), Seq<char>> {
    let parts = split_chars(combo, '+');
    let key = unicode_lowercase(parts.last());
    match fold_modifiers(parts.drop_last()) {
        Err(bad) => Err("unknown modifier: "@ + bad),
        Ok(mods) => match key_code(key) {
            Some(code) => Ok((mods, code)),
            None => Err("unknown key: "@ + key),
        },
    }
}

/// The bits of an event's flags that hotkey matching compares: command,
/// shift, option and control.
pub fn active_modifiers(flags: u64) -> (mods: u64)
    ensures
        mods == flags & (MOD_CMD | MOD_SHIFT | MOD_ALT | MOD_CTRL),
{
    flags & (MOD_CMD | MOD_SHIFT | MOD_ALT | MOD_CTRL)
}

/// Manages the registered global hotkeys, the press/release callback and
/// whether the listener is running. The event tap itself runs outside the
/// library and reports each keyboard event to
/// [`HotkeyManager::handle_key_event`].
pub struct HotkeyManager<C> {
    hotkeys: Vec<HotkeyConfig>,
    callback: Option<C>,
    running: bool,
}

impl<C> HotkeyManager<C> {
    /// The registered hotkeys, in registration order.
    pub closed spec fn registered(&self) -> Seq<HotkeyConfig> {
        self.hotkeys@
    }

    /// The callback that fires on press/release, if one was set.
    pub closed spec fn current_callback(&self) -> Option<C> {
        self.callback
    }

    /// Whether the listener is marked as running.
    pub closed spec fn is_running(&self) -> bool {
        self.running
    }

    /// Create a new, empty hotkey manager.
    pub fn new() -> (m: Self)
        ensures
            m.registered() == Seq::<HotkeyConfig>::empty(),
            m.current_callback() is None,
            !m.is_running(),
    {
        HotkeyManager { hotkeys: Vec::new(), callback: None, running: false }
    }

    /// Parse a hotkey string like `"cmd+shift+space"` into a [`HotkeyConfig`].
    ///
    /// The last `+`-separated token is the key; preceding tokens are modifiers.
    /// Recognised modifiers: `cmd`/`command`, `shift`, `alt`/`opt`/`option`,
    /// `ctrl`/`control`.
    pub fn parse_hotkey(combo: &str, label: &str) -> (res: Result<HotkeyConfig, String>)
        ensures
            match res {
                Ok(cfg) => hotkey_parse(combo@) == Ok::<(u64, u16), Seq<char>>((cfg.modifiers, cfg.keycode))
                    && cfg.label@ == label@,
                Err(e) => hotkey_parse(combo@) == Err::<(u64, u16), Seq<char>>(e@),
            },
    {
        let parts = split_on(combo, '+');
        let n = parts.len();
        let ghost sp = split_chars(combo@, '+');
        let key_str = to_lowercase(parts[n - 1].as_str());
        let mut modifiers: u64 = 0;
        let mut i: usize = 0;
        while i < n - 1
            invariant
                n == parts@.len(),
                n == sp.len(),
                sp == split_chars(combo@, '+'),
                n >= 1,
                i <= n - 1,
                forall|k: int| 0 <= k < n ==> #[trigger] parts@[k]@ == sp[k],
                fold_modifiers(sp.subrange(0, i as int)) == Ok::<u64, Seq<char>>(modifiers),
            decreases n - 1 - i,
        {
            let lower = to_lowercase(parts[i].as_str());
            proof {
                assert(sp.subrange(0, i as int + 1).drop_last() =~= sp.subrange(0, i as int));
                assert(sp.subrange(0, i as int + 1).last() == sp[i as int]);
            }
            match modifier_for(lower.as_str()) {
                Some(bit) => {
                    modifiers = modifiers | bit;
                }
                None => {
                    let mut msg = String::from_str("unknown modifier: ");
                    msg.append(lower.as_str());
                    proof {
                        assert(sp.drop_last().subrange(0, i as int + 1) =~= sp.subrange(0, i as int + 1));
                        assert(fold_modifiers(sp.subrange(0, i as int + 1)) == Err::<u64, Seq<char>>(lower@));
                        lemma_fold_prefix_error(sp.drop_last(), i as int + 1);
                        assert(msg@ == "unknown modifier: "@ + lower@);
                        assert(fold_modifiers(sp.drop_last()) == Err::<u64, Seq<char>>(lower@));
                    }
                    return Err(msg);
                }
            }
            i = i + 1;
        }
        proof {
            assert(sp.drop_last() =~= sp.subrange(0, n as int - 1));
        }
        match key_name_to_code(key_str.as_str()) {
            Some(keycode) => Ok(HotkeyConfig { modifiers, keycode, label: String::from_str(label) }),
            None => {
                let mut msg = String::from_str("unknown key: ");
                msg.append(key_str.as_str());
                Err(msg)
            }
        }
    }

    /// Register a hotkey. Can be called before or after the listener starts.
    pub fn register(&mut self, config: HotkeyConfig)
        ensures
            final(self).registered() == old(self).registered().push(config),
            final(self).current_callback() == old(self).current_callback(),
            final(self).is_running() == old(self).is_running(),
    {
        self.hotkeys.push(config);
    }

    /// The registered hotkeys, for the listener and for reloads.
    pub fn hotkeys_ref(&self) -> (hotkeys: &Vec<HotkeyConfig>)
        ensures
            hotkeys@ == self.registered(),
    {
        &self.hotkeys
    }

    /// Replace all registered hotkeys at runtime (for hot-reload).
    pub fn replace_hotkeys(&mut self, new_hotkeys: Vec<HotkeyConfig>)
        ensures
            final(self).registered() == new_hotkeys@,
            final(self).current_callback() == old(self).current_callback(),
            final(self).is_running() == old(self).is_running(),
    {
        self.hotkeys = new_hotkeys;
    }

    /// Set the callback that fires when a registered hotkey is pressed or
    /// released (it receives the hotkey label and `true` on key-down, `false`
    /// on key-up).
    pub fn set_callback(&mut self, callback: C)
        ensures
            final(self).current_callback() == Some(callback),
            final(self).registered() == old(self).registered(),
            final(self).is_running() == old(self).is_running(),
    {
        self.callback = Some(callback);
    }

    /// The callback set by [`set_callback`](Self::set_callback), if any.
    pub fn callback(&self) -> (cb: Option<&C>)
        ensures
            match cb {
                Some(c) => self.current_callback() == Some(*c),
                None => self.current_callback() is None,
            },
    {
        match &self.callback {
            Some(c) => Some(c),
            None => None,
        }
    }

    /// Mark the listener as started. Fails when it is already running.
    pub fn start(&mut self) -> (res: Result<(), String>)
        ensures
            res is Err <==> old(self).is_running(),
            res matches Err(e) ==> e@ == "HotkeyManager already running"@,
            final(self).is_running(),
            final(self).registered() == old(self).registered(),
            final(self).current_callback() == old(self).current_callback(),
    {
        if self.running {
            return Err(String::from_str("HotkeyManager already running"));
        }
        self.running = true;
        Ok(())
    }

    /// Stop the listener: from now on every keyboard event passes through
    /// untouched and fires no callback (see [`HotkeyManager::handle_key_event`]),
    /// and [`HotkeyManager::start`] may be called again.
    pub fn stop(&mut self)
        ensures
            !final(self).is_running(),
            final(self).registered() == old(self).registered(),
            final(self).current_callback() == old(self).current_callback(),
            forall|held: Set<Seq<char>>, keycode: u16, mods: u64, is_down: bool|
                #[trigger] tap_step(final(self).is_running(), held, final(self).registered(), keycode, mods, is_down)
                    == (held, false, Option::<(Seq<char>, bool)>::None),
    {
        self.running = false;
    }

    /// Handle one keyboard event reported by the event tap: while the
    /// listener runs, decide it against the registered hotkeys (see
    /// [`HeldKeys::on_key_event`]); once stopped, let it through, fire
    /// nothing and leave `held` as it is.
    pub fn handle_key_event(&self, held: &mut HeldKeys, keycode: u16, mods: u64, is_down: bool) -> (out: KeyEventOutcome)
        ensures
            ({
                let step = tap_step(self.is_running(), old(held).held(), self.registered(), keycode, mods, is_down);
                &&& final(held).held() == step.0
                &&& (out.action == TapAction::Drop) == step.1
                &&& match out.fire {
                    Some(f) => step.2 == Some((f.0@, f.1)),
                    None => step.2 is None,
                }
            }),
    {
        if !self.running {
            return KeyEventOutcome { action: TapAction::Keep, fire: None };
        }
        held.on_key_event(&self.hotkeys, keycode, mods, is_down)
    }
}

impl<C> Default for HotkeyManager<C> {
    fn default() -> (m: Self)
        ensures
            m.registered() == Seq::<HotkeyConfig>::empty(),
            m.current_callback() is None,
            !m.is_running(),
    {
        Self::new()
    }
}

proof fn lemma_fold_prefix_error(mods: Seq<Seq<char>>, len: int)
    requires
        0 < len <= mods.len(),
        fold_modifiers(mods.subrange(0, len)) is Err,
    ensures
        fold_modifiers(mods) == fold_modifiers(mods.subrange(0, len)),
    decreases mods.len() - len,
{
    if len < mods.len() {
        assert(mods.subrange(0, len + 1).drop_last() =~= mods.subrange(0, len));
        lemma_fold_prefix_error(mods, len + 1);
    } else {
        assert(mods.subrange(0, len) =~= mods);
    }
}

/// What the event tap does with a keyboard event it has seen.
#[derive(Debug, Clone, Copy, PartialEq, Eq)]
pub enum TapAction {
    /// Let the event through to the focused application.
    Keep,
    /// Consume the event (it belonged to a hotkey).
    Drop,
}

/// The decision for one keyboard event: whether to consume it and which
/// callback, if any, to fire (`(label, true)` on press, `(label, false)` on
/// release).
#[derive(Debug)]
pub struct KeyEventOutcome {
    pub action: TapAction,
    pub fire: Option<(String, bool)>,
}

/// Index of the first hotkey at or after `i` that a key-up of `keycode`
/// releases: same keycode, and its label currently held.
pub open spec fn release_index(hks: Seq<HotkeyConfig>, held: Set<Seq<char>>, keycode: u16, i: int) -> Option<int>
    decreases hks.len() - i,
{
    if i < 0 || i >= hks.len() {
        None
    } else if hks[i].keycode == keycode && held.contains(hks[i].label@) {
        Some(i)
    } else {
        release_index(hks, held, keycode, i + 1)
    }
}

/// Index of the first hotkey at or after `i` that a key-down of `keycode`
/// with modifier bits `mods` matches exactly.
pub open spec fn press_index(hks: Seq<HotkeyConfig>, keycode: u16, mods: u64, i: int) -> Option<int>
    decreases hks.len() - i,
{
    if i < 0 || i >= hks.len() {
        None
    } else if hks[i].keycode == keycode && hks[i].modifiers == mods {
        Some(i)
    } else {
        press_index(hks, keycode, mods, i + 1)
    }
}

/// One keyboard event's effect: the labels held afterwards, whether the event
/// is consumed, and the callback to fire.
///
/// A key-up releases the first held hotkey with that keycode. A key-down
/// fires the first hotkey whose keycode and modifiers match, unless it is
/// already held, in which case it is an auto-repeat and is swallowed silently.
pub open spec fn key_event_step(
    held: Set<Seq<char>>,
    hks: Seq<HotkeyConfig>,
    keycode: u16,
    mods: u64,
    is_down: bool,
) -> (Set<Seq<char>>, bool, Option<(Seq<char>, bool)>) {
    if !is_down {
        match release_index(hks, held, keycode, 0) {
            Some(i) => (held.remove(hks[i].label@), true, Some((hks[i].label@, false))),
            None => (held, false, None),
        }
    } else {
        match press_index(hks, keycode, mods, 0) {
            Some(i) => if held.contains(hks[i].label@) {
                (held, true, None)
            } else {
                (held.insert(hks[i].label@), true, Some((hks[i].label@, true)))
            },
            None => (held, false, None),
        }
    }
}

/// One keyboard event as the listener handles it: decided by
/// [`key_event_step`] while `running`, and otherwise let through with
/// nothing held changed and no callback fired.
pub open spec fn tap_step(
    running: bool,
    held: Set<Seq<char>>,
    hks: Seq<HotkeyConfig>,
    keycode: u16,
    mods: u64,
    is_down: bool,
) -> (Set<Seq<char>>, bool, Option<(Seq<char>, bool)>) {
    if running {
        key_event_step(held, hks, keycode, mods, is_down)
    } else {
        (held, false, None)
    }
}

/// The events that reach a listener, in order, from the held labels `held`:
/// the held labels afterwards and the callbacks fired, in order.
pub open spec fn tap_run(
    running: bool,
    held: Set<Seq<char>>,
    hks: Seq<HotkeyConfig>,
    events: Seq<(u16, u64, bool)>,
) -> (Set<Seq<char>>, Seq<(Seq<char>, bool)>)
    decreases events.len(),
{
    if events.len() == 0 {
        (held, Seq::empty())
    } else {
        let before = tap_run(running, held, hks, events.drop_last());
        let e = events.last();
        let step = tap_step(running, before.0, hks, e.0, e.1, e.2);
        match step.2 {
            Some(f) => (step.0, before.1.push(f)),
            None => (step.0, before.1),
        }
    }
}

/// A stopped listener is inert: whatever keyboard events reach it, none is
/// consumed, no callback fires and the held hotkeys stay as they were.
pub proof fn lemma_stopped_listener_is_inert(held: Set<Seq<char>>, hks: Seq<HotkeyConfig>, events: Seq<(u16, u64, bool)>)
    ensures
        tap_run(false, held, hks, events) == (held, Seq::<(Seq<char>, bool)>::empty()),
        forall|i: int| 0 <= i < events.len() ==> !(#[trigger] tap_step(false, held, hks, events[i].0, events[i].1, events[i].2)).1,
    decreases events.len(),
{
    if events.len() > 0 {
        lemma_stopped_listener_is_inert(held, hks, events.drop_last());
    }
}

proof fn lemma_release_index_found(hks: Seq<HotkeyConfig>, held: Set<Seq<char>>, keycode: u16, i: int)
    requires
        0 <= i,
        release_index(hks, held, keycode, i) is Some,
    ensures
        ({
            let j = release_index(hks, held, keycode, i)->0;
            &&& i <= j < hks.len()
            &&& hks[j].keycode == keycode
            &&& held.contains(hks[j].label@)
        }),
    decreases hks.len() - i,
{
    if i < hks.len() && !(hks[i].keycode == keycode && held.contains(hks[i].label@)) {
        lemma_release_index_found(hks, held, keycode, i + 1);
    }
}

proof fn lemma_press_index_found(hks: Seq<HotkeyConfig>, keycode: u16, mods: u64, i: int)
    requires
        0 <= i,
        press_index(hks, keycode, mods, i) is Some,
    ensures
        ({
            let j = press_index(hks, keycode, mods, i)->0;
            &&& i <= j < hks.len()
            &&& hks[j].keycode == keycode
            &&& hks[j].modifiers == mods
        }),
    decreases hks.len() - i,
{
    if i < hks.len() && !(hks[i].keycode == keycode && hks[i].modifiers == mods) {
        lemma_press_index_found(hks, keycode, mods, i + 1);
    }
}

/// Some element of `v` reads `l`.
pub open spec fn has_label(v: Seq<String>, l: Seq<char>) -> bool {
    exists|j: int| 0 <= j < v.len() && #[trigger] v[j]@ == l
}

/// The labels of the hotkeys currently held down (pressed, not yet released).
pub struct HeldKeys {
    labels: Vec<String>,
}

impl HeldKeys {
    /// The set of held labels.
    pub closed spec fn held(&self) -> Set<Seq<char>> {
        Set::new(|l: Seq<char>| has_label(self.labels@, l))
    }

    /// Nothing is held.
    pub fn new() -> (h: Self)
        ensures
            h.held() == Set::<Seq<char>>::empty(),
    {
        let h = HeldKeys { labels: Vec::new() };
        proof {
            assert(h.held() =~= Set::<Seq<char>>::empty());
        }
        h
    }

    fn contains(&self, label: &String) -> (found: bool)
        ensures
            found == self.held().contains(label@),
    {
        let mut k: usize = 0;
        while k < self.labels.len()
            invariant
                k <= self.labels@.len(),
                forall|j: int| 0 <= j < k ==> #[trigger] self.labels@[j]@ != label@,
            decreases self.labels@.len() - k,
        {
            if str_eq(self.labels[k].as_str(), label.as_str()) {
                proof { assert(has_label(self.labels@, label@)); }
                return true;
            }
            k = k + 1;
        }
        false
    }

    fn insert(&mut self, label: String)
        ensures
            final(self).held() == old(self).held().insert(label@),
    {
        let ghost before = self.labels@;
        self.labels.push(label);
        proof {
            assert forall|l: Seq<char>| #[trigger] has_label(self.labels@, l) <==> (has_label(before, l) || l == label@) by {
                if has_label(before, l) {
                    let j = choose|j: int| 0 <= j < before.len() && #[trigger] before[j]@ == l;
                    assert(self.labels@[j] == before[j]);
                }
                if l == label@ {
                    assert(self.labels@[before.len() as int]@ == l);
                }
                if has_label(self.labels@, l) {
                    let j = choose|j: int| 0 <= j < self.labels@.len() && #[trigger] self.labels@[j]@ == l;
                    if j < before.len() {
                        assert(self.labels@[j] == before[j]);
                    }
                }
            }
            assert(self.held() =~= old(self).held().insert(label@));
        }
    }

    fn remove(&mut self, label: &String)
        ensures
            final(self).held() == old(self).held().remove(label@),
    {
        let mut kept: Vec<String> = Vec::new();
        let mut k: usize = 0;
        while k < self.labels.len()
            invariant
                k <= self.labels@.len(),
                forall|l: Seq<char>| #[trigger] has_label(kept@, l) <==>
                    (l != label@ && has_label(self.labels@.subrange(0, k as int), l)),
            decreases self.labels@.len() - k,
        {
            let ghost before = kept@;
            let ghost pre = self.labels@.subrange(0, k as int);
            let ghost post = self.labels@.subrange(0, k as int + 1);
            let same = str_eq(self.labels[k].as_str(), label.as_str());
            if !same {
                kept.push(self.labels[k].clone());
            }
            proof {
                if same {
                    assert(kept@ == before);
                } else {
                    assert(kept@ == before.push(self.labels@[k as int]));
                }
                assert forall|l: Seq<char>| #[trigger] has_label(kept@, l) <==>
                    (l != label@ && has_label(post, l)) by {
                    if has_label(post, l) {
                        let j = choose|j: int| 0 <= j < post.len() && #[trigger] post[j]@ == l;
                        if j < k {
                            assert(pre[j] == post[j]);
                            assert(has_label(pre, l));
                            if l != label@ {
                                assert(has_label(before, l));
                                let jj = choose|jj: int| 0 <= jj < before.len() && #[trigger] before[jj]@ == l;
                                assert(kept@[jj] == before[jj]);
                            }
                        } else if l != label@ {
                            assert(kept@[kept@.len() - 1]@ == l);
                        }
                    }
                    if has_label(kept@, l) {
                        let j = choose|j: int| 0 <= j < kept@.len() && #[trigger] kept@[j]@ == l;
                        if j < before.len() {
                            assert(kept@[j] == before[j]);
                            assert(has_label(before, l));
                            let jj = choose|jj: int| 0 <= jj < pre.len() && #[trigger] pre[jj]@ == l;
                            assert(post[jj] == pre[jj]);
                        } else {
                            assert(post[k as int] == self.labels@[k as int]);
                        }
                    }
                }
            }
            k = k + 1;
        }
        proof {
            assert(self.labels@.subrange(0, self.labels@.len() as int) =~= self.labels@);
        }
        self.labels = kept;
        proof {
            assert(self.held() =~= old(self).held().remove(label@));
        }
    }

    /// Decide what to do with one keyboard event: `keycode`, the event's
    /// active modifier bits `mods` (see [`active_modifiers`]), and whether it
    /// is a key-down, against the registered `hotkeys`.
    pub fn on_key_event(&mut self, hotkeys: &Vec<HotkeyConfig>, keycode: u16, mods: u64, is_down: bool) -> (out: KeyEventOutcome)
        ensures
            ({
                let step = key_event_step(old(self).held(), hotkeys@, keycode, mods, is_down);
                &&& final(self).held() == step.0
                &&& (out.action == TapAction::Drop) == step.1
                &&& match out.fire {
                    Some(f) => step.2 == Some((f.0@, f.1)),
                    None => step.2 is None,
                }
            }),
    {
        let n = hotkeys.len();
        let mut i: usize = 0;
        if !is_down {
            while i < n
                invariant
                    n == hotkeys@.len(),
                    i <= n,
                    release_index(hotkeys@, self.held(), keycode, 0)
                        == release_index(hotkeys@, self.held(), keycode, i as int),
                    self.held() == old(self).held(),
                    !is_down,
                decreases n - i,
            {
                let hk = &hotkeys[i];
                if keycode == hk.keycode && self.contains(&hk.label) {
                    let label = hk.label.clone();
                    self.remove(&hk.label);
                    return KeyEventOutcome { action: TapAction::Drop, fire: Some((label, false)) };
                }
                i = i + 1;
            }
            return KeyEventOutcome { action: TapAction::Keep, fire: None };
        }
        while i < n
            invariant
                n == hotkeys@.len(),
                i <= n,
                press_index(hotkeys@, keycode, mods, 0) == press_index(hotkeys@, keycode, mods, i as int),
                self.held() == old(self).held(),
                is_down,
            decreases n - i,
        {
            let hk = &hotkeys[i];
            if keycode == hk.keycode && mods == hk.modifiers {
                if self.contains(&hk.label) {
                    return KeyEventOutcome { action: TapAction::Drop, fire: None };
                }
                self.insert(hk.label.clone());
                return KeyEventOutcome { action: TapAction::Drop, fire: Some((hk.label.clone(), true)) };
            }
            i = i + 1;
        }
        KeyEventOutcome { action: TapAction::Keep, fire: None }
    }
}

proof fn lemma_release_index_exists(hks: Seq<HotkeyConfig>, held: Set<Seq<char>>, keycode: u16, start: int, i: int)
    requires
        0 <= start <= i < hks.len(),
        hks[i].keycode == keycode,
        held.contains(hks[i].label@),
    ensures
        release_index(hks, held, keycode, start) is Some,
    decreases i - start,
{
    if !(hks[start].keycode == keycode && held.contains(hks[start].label@)) {
        lemma_release_index_exists(hks, held, keycode, start + 1, i);
    }
}

/// Holding a hotkey down does not fire it again: the auto-repeat key-downs
/// that follow a press are consumed without a callback and change nothing.
pub proof fn lemma_key_repeat_is_swallowed(held: Set<Seq<char>>, hks: Seq<HotkeyConfig>, keycode: u16, mods: u64)
    ensures
        ({
            let first = key_event_step(held, hks, keycode, mods, true);
            let again = key_event_step(first.0, hks, keycode, mods, true);
            &&& again.0 == first.0
            &&& again.1 == first.1
            &&& again.2 is None
        }),
{
    if press_index(hks, keycode, mods, 0) is Some {
        lemma_press_index_found(hks, keycode, mods, 0);
    }
}

/// A press followed by a release of the same key, starting with nothing held,
/// fires the pressed hotkey's callback once with `true` and once with `false`,
/// consumes both events, and leaves nothing held.
pub proof fn lemma_press_then_release(hks: Seq<HotkeyConfig>, keycode: u16, mods: u64, mods_at_release: u64)
    requires
        press_index(hks, keycode, mods, 0) is Some,
    ensures
        ({
            let down = key_event_step(Set::empty(), hks, keycode, mods, true);
            let up = key_event_step(down.0, hks, keycode, mods_at_release, false);
            let label = hks[press_index(hks, keycode, mods, 0)->0].label@;
            &&& down.1 && down.2 == Some((label, true))
            &&& up.1 && up.2 == Some((label, false))
            &&& up.0 == Set::<Seq<char>>::empty()
        }),
{
    lemma_press_then_release_while_holding(Set::empty(), hks, keycode, mods, mods_at_release);
}

/// A press followed by a release of the same key fires the pressed hotkey's
/// callback once with `true` and once with `false`, consumes both events, and
/// leaves the held hotkeys as they were, whatever else is held, so long as
/// no hotkey on that key is held already (a held one would take the
/// release).
pub proof fn lemma_press_then_release_while_holding(
    held: Set<Seq<char>>,
    hks: Seq<HotkeyConfig>,
    keycode: u16,
    mods: u64,
    mods_at_release: u64,
)
    requires
        press_index(hks, keycode, mods, 0) is Some,
        forall|j: int| 0 <= j < hks.len() && hks[j].keycode == keycode ==> !held.contains(#[trigger] hks[j].label@),
    ensures
        ({
            let down = key_event_step(held, hks, keycode, mods, true);
            let up = key_event_step(down.0, hks, keycode, mods_at_release, false);
            let label = hks[press_index(hks, keycode, mods, 0)->0].label@;
            &&& down.1 && down.2 == Some((label, true))
            &&& up.1 && up.2 == Some((label, false))
            &&& up.0 == held
        }),
{
    lemma_press_index_found(hks, keycode, mods, 0);
    let i = press_index(hks, keycode, mods, 0)->0;
    let label = hks[i].label@;
    assert(!held.contains(hks[i].label@));
    let held1 = held.insert(label);
    lemma_release_index_exists(hks, held1, keycode, 0, i);
    lemma_release_index_found(hks, held1, keycode, 0);
    let j = release_index(hks, held1, keycode, 0)->0;
    assert(held1.contains(hks[j].label@));
    assert(!held.contains(hks[j].label@));
    assert(hks[j].label@ == label);
    assert(held1.remove(label) =~= held);
}

/// A configuration key whose change requires the hotkeys to be registered
/// again: the `hotkey_*` and `notebook_hotkey_*` keys, the text actions (which
/// carry bindings), the workflows (which carry triggers), and the pill hotkey
/// and its capture mode.
pub open spec fn is_hotkey_key(key: Seq<char>) -> bool {
    ||| seq_starts_with(key, "hotkey_"@)
    ||| key == "text_actions"@
    ||| seq_starts_with(key, "notebook_hotkey_"@)
    ||| key == "workflows"@
    ||| key == "pill_hotkey"@
    ||| key == "pill_hotkey_capture"@
}

/// Whether configuration key `key` affects hotkey registration (see
/// [`is_hotkey_key`]).
pub fn affects_hotkeys(key: &str) -> (affects: bool)
    ensures
        affects == is_hotkey_key(key@),
{
    starts_with_str(key, "hotkey_") || str_eq(key, "text_actions") || starts_with_str(key, "notebook_hotkey_")
        || str_eq(key, "workflows") || str_eq(key, "pill_hotkey") || str_eq(key, "pill_hotkey_capture")
}

/// Whether a settings update touching `keys` requires the hotkeys to be
/// registered again: some key affects them.
pub fn hotkeys_changed(keys: &[String]) -> (changed: bool)
    ensures
        changed == exists|i: int| 0 <= i < keys@.len() && is_hotkey_key(#[trigger] keys@[i]@),
{
    let mut i: usize = 0;
    while i < keys.len()
        invariant
            i <= keys@.len(),
            forall|k: int| 0 <= k < i ==> !is_hotkey_key(#[trigger] keys@[k]@),
        decreases keys@.len() - i,
    {
        if affects_hotkeys(keys[i].as_str()) {
            return true;
        }
        i = i + 1;
    }
    false
}

} // verus!
