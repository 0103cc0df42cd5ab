//! Key names: which names are pure modifiers, and the display name of each native key code.
//!
//! There is one table for macOS virtual key codes and one for Windows virtual-key codes.
//! A code that a table does not list gets a label made of `#` and the code's digits, so
//! every key has a name and the same code always has the same name.

use vstd::prelude::*;
use crate::text::{
    decimal_digits,
    hex_digits,
    lemma_decimal_digits_differ,
    lemma_hex_digits_differ,
    lemma_hex_digits_len,
    push_decimal,
    push_hex,
};

verus! {

/// Whether `name` is the name of a pure modifier: Meta (shown as `⌘`, or `Win` on Windows),
/// Shift, Ctrl, Alt, Caps or Fn.
pub open spec fn is_modifier(name: Seq<char>) -> bool {
    name == "⌘"@ || name == "Win"@ || name == "Shift"@ || name == "Ctrl"@ || name == "Alt"@
        || name == "Caps"@ || name == "Fn"@
}

/// Returns true for the names of keys that are pure modifiers.
pub fn is_modifier_name(name: &str) -> (r: bool)
    ensures
        r == is_modifier(name@),
{
    name.eq("⌘") || name.eq("Win") || name.eq("Shift") || name.eq("Ctrl") || name.eq("Alt")
        || name.eq("Caps") || name.eq("Fn")
}

/// The name that the macOS table gives to a virtual key code, if it lists the code.
pub open spec fn mac_table(code: u16) -> Option<Seq<char>> {
    match code {
        0 => Some("A"@),
        1 => Some("S"@),
        2 => Some("D"@),
        3 => Some("F"@),
        4 => Some("H"@),
        5 => Some("G"@),
        6 => Some("Z"@),
        7 => Some("X"@),
        8 => Some("C"@),
        9 => Some("V"@),
        11 => Some("B"@),
        12 => Some("Q"@),
        13 => Some("W"@),
        14 => Some("E"@),
        15 => Some("R"@),
        16 => Some("Y"@),
        17 => Some("T"@),
        18 => Some("1"@),
        19 => Some("2"@),
        20 => Some("3"@),
        21 => Some("4"@),
        22 => Some("6"@),
        23 => Some("5"@),
        24 => Some("="@),
        25 => Some("9"@),
        26 => Some("7"@),
        27 => Some("-"@),
        28 => Some("8"@),
        29 => Some("0"@),
        30 => Some("]"@),
        31 => Some("O"@),
        32 => Some("U"@),
        33 => Some("["@),
        34 => Some("I"@),
        35 => Some("P"@),
        36 => Some("↩"@),
        37 => Some("L"@),
        38 => Some("J"@),
        39 => Some("'"@),
        40 => Some("K"@),
        41 => Some(";"@),
        42 => Some("\\"@),
        43 => Some(","@),
        44 => Some("/"@),
        45 => Some("N"@),
        46 => Some("M"@),
        47 => Some("."@),
        48 => Some("Tab"@),
        49 => Some("Space"@),
        50 => Some("`"@),
        51 => Some("⌫"@),
        53 => Some("Esc"@),
        54 | 55 => Some("⌘"@),
        56 | 60 => Some("Shift"@),
        57 => Some("Caps"@),
        58 | 61 => Some("Alt"@),
        59 | 62 => Some("Ctrl"@),
        63 => Some("Fn"@),
        96 => Some("F5"@),
        97 => Some("F6"@),
        98 => Some("F7"@),
        99 => Some("F3"@),
        100 => Some("F8"@),
        101 => Some("F9"@),
        103 => Some("F11"@),
        109 => Some("F10"@),
        111 => Some("F12"@),
        115 => Some("Home"@),
        116 => Some("PgUp"@),
        117 => Some("Del"@),
        118 => Some("F4"@),
        119 => Some("End"@),
        120 => Some("F2"@),
        121 => Some("PgDn"@),
        122 => Some("F1"@),
        123 => Some("←"@),
        124 => Some("→"@),
        125 => Some("↓"@),
        126 => Some("↑"@),
        _ => None,
    }
}

/// The display name of a macOS virtual key code: the table's name, or `#` and the code in
/// decimal.
pub open spec fn mac_key_name(code: u16) -> Seq<char> {
    match mac_table(code) {
        Some(name) => name,
        None => "#"@ + decimal_digits(code as nat),
    }
}

/// Looks a macOS virtual key code up in the table.
fn mac_table_entry(code: u16) -> (entry: Option<&'static str>)
    ensures
        match entry {
            Some(name) => mac_table(code) == Some(name@),
            None => mac_table(code) is None,
        },
{
    match code {
        0 => Some("A"),
        1 => Some("S"),
        2 => Some("D"),
        3 => Some("F"),
        4 => Some("H"),
        5 => Some("G"),
        6 => Some("Z"),
        7 => Some("X"),
        8 => Some("C"),
        9 => Some("V"),
        11 => Some("B"),
        12 => Some("Q"),
        13 => Some("W"),
        14 => Some("E"),
        15 => Some("R"),
        16 => Some("Y"),
        17 => Some("T"),
        18 => Some("1"),
        19 => Some("2"),
        20 => Some("3"),
        21 => Some("4"),
        22 => Some("6"),
        23 => Some("5"),
        24 => Some("="),
        25 => Some("9"),
        26 => Some("7"),
        27 => Some("-"),
        28 => Some("8"),
        29 => Some("0"),
        30 => Some("]"),
        31 => Some("O"),
        32 => Some("U"),
        33 => Some("["),
        34 => Some("I"),
        35 => Some("P"),
        36 => Some("↩"),
        37 => Some("L"),
        38 => Some("J"),
        39 => Some("'"),
        40 => Some("K"),
        41 => Some(";"),
        42 => Some("\\"),
        43 => Some(","),
        44 => Some("/"),
        45 => Some("N"),
        46 => Some("M"),
        47 => Some("."),
        48 => Some("Tab"),
        49 => Some("Space"),
        50 => Some("`"),
        51 => Some("⌫"),
        53 => Some("Esc"),
        54 | 55 => Some("⌘"),
        56 | 60 => Some("Shift"),
        57 => Some("Caps"),
        58 | 61 => Some("Alt"),
        59 | 62 => Some("Ctrl"),
        63 => Some("Fn"),
        96 => Some("F5"),
        97 => Some("F6"),
        98 => Some("F7"),
        99 => Some("F3"),
        100 => Some("F8"),
        101 => Some("F9"),
        103 => Some("F11"),
        109 => Some("F10"),
        111 => Some("F12"),
        115 => Some("Home"),
        116 => Some("PgUp"),
        117 => Some("Del"),
        118 => Some("F4"),
        119 => Some("End"),
        120 => Some("F2"),
        121 => Some("PgDn"),
        122 => Some("F1"),
        123 => Some("←"),
        124 => Some("→"),
        125 => Some("↓"),
        126 => Some("↑"),
        _ => None,
    }
}

/// Converts a macOS virtual key code to its display name.
pub fn keycode_to_name(code: u16) -> (name: String)
    ensures
        name@ == mac_key_name(code),
{
    match mac_table_entry(code) {
        Some(label) => label.to_owned(),
        None => {
            let mut name = "#".to_owned();
            push_decimal(&mut name, code as u32);
            name
        },
    }
}

/// The name that the Windows table gives to a virtual-key code, if it lists the code.
pub open spec fn windows_table(vk: u32) -> Option<Seq<char>> {
    match vk {
        0x08 => Some("⌫"@),
        0x09 => Some("Tab"@),
        0x0D => Some("↩"@),
        0x14 => Some("Caps"@),
        0x1B => Some("Esc"@),
        0x20 => Some("Space"@),
        0x21 => Some("PgUp"@),
        0x22 => Some("PgDn"@),
        0x23 => Some("End"@),
        0x24 => Some("Home"@),
        0x25 => Some("←"@),
        0x26 => Some("↑"@),
        0x27 => Some("→"@),
        0x28 => Some("↓"@),
        0x2E => Some("Del"@),
        0x30 => Some("0"@),
        0x31 => Some("1"@),
        0x32 => Some("2"@),
        0x33 => Some("3"@),
        0x34 => Some("4"@),
        0x35 => Some("5"@),
        0x36 => Some("6"@),
        0x37 => Some("7"@),
        0x38 => Some("8"@),
        0x39 => Some("9"@),
        0x41 => Some("A"@),
        0x42 => Some("B"@),
        0x43 => Some("C"@),
        0x44 => Some("D"@),
        0x45 => Some("E"@),
        0x46 => Some("F"@),
        0x47 => Some("G"@),
        0x48 => Some("H"@),
        0x49 => Some("I"@),
        0x4A => Some("J"@),
        0x4B => Some("K"@),
        0x4C => Some("L"@),
        0x4D => Some("M"@),
        0x4E => Some("N"@),
        0x4F => Some("O"@),
        0x50 => Some("P"@),
        0x51 => Some("Q"@),
        0x52 => Some("R"@),
        0x53 => Some("S"@),
        0x54 => Some("T"@),
        0x55 => Some("U"@),
        0x56 => Some("V"@),
        0x57 => Some("W"@),
        0x58 => Some("X"@),
        0x59 => Some("Y"@),
        0x5A => Some("Z"@),
        0x5B | 0x5C => Some("Win"@),
        0x70 => Some("F1"@),
        0x71 => Some("F2"@),
        0x72 => Some("F3"@),
        0x73 => Some("F4"@),
        0x74 => Some("F5"@),
        0x75 => Some("F6"@),
        0x76 => Some("F7"@),
        0x77 => Some("F8"@),
        0x78 => Some("F9"@),
        0x79 => Some("F10"@),
        0x7A => Some("F11"@),
        0x7B => Some("F12"@),
        0xA0 | 0xA1 => Some("Shift"@),
        0xA2 | 0xA3 => Some("Ctrl"@),
        0xA4 | 0xA5 => Some("Alt"@),
        0xBA => Some(";"@),
        0xBB => Some("="@),
        0xBC => Some(","@),
        0xBD => Some("-"@),
        0xBE => Some("."@),
        0xBF => Some("/"@),
        0xC0 => Some("`"@),
        0xDB => Some("["@),
        0xDC => Some("\\"@),
        0xDD => Some("]"@),
        0xDE => Some("'"@),
        _ => None,
    }
}

/// The label of a virtual-key code that the Windows table does not list: `#` and the code
/// in upper-case hexadecimal, padded with a zero to two digits.
pub open spec fn windows_fallback(vk: u32) -> Seq<char> {
    if vk < 16 {
        "#0"@ + hex_digits(vk as nat)
    } else {
        "#"@ + hex_digits(vk as nat)
    }
}

/// The display name of a Windows virtual-key code.
pub open spec fn windows_key_name(vk: u32) -> Seq<char> {
    match windows_table(vk) {
        Some(name) => name,
        None => windows_fallback(vk),
    }
}

/// Looks a Windows virtual-key code up in the table.
fn windows_table_entry(vk: u32) -> (entry: Option<&'static str>)
    ensures
        match entry {
            Some(name) => windows_table(vk) == Some(name@),
            None => windows_table(vk) is None,
        },
{
    match vk {
        0x08 => Some("⌫"),
        0x09 => Some("Tab"),
        0x0D => Some("↩"),
        0x14 => Some("Caps"),
        0x1B => Some("Esc"),
        0x20 => Some("Space"),
        0x21 => Some("PgUp"),
        0x22 => Some("PgDn"),
        0x23 => Some("End"),
        0x24 => Some("Home"),
        0x25 => Some("←"),
        0x26 => Some("↑"),
        0x27 => Some("→"),
        0x28 => Some("↓"),
        0x2E => Some("Del"),
        0x30 => Some("0"),
        0x31 => Some("1"),
        0x32 => Some("2"),
        0x33 => Some("3"),
        0x34 => Some("4"),
        0x35 => Some("5"),
        0x36 => Some("6"),
        0x37 => Some("7"),
        0x38 => Some("8"),
        0x39 => Some("9"),
        0x41 => Some("A"),
        0x42 => Some("B"),
        0x43 => Some("C"),
        0x44 => Some("D"),
        0x45 => Some("E"),
        0x46 => Some("F"),
        0x47 => Some("G"),
        0x48 => Some("H"),
        0x49 => Some("I"),
        0x4A => Some("J"),
        0x4B => Some("K"),
        0x4C => Some("L"),
        0x4D => Some("M"),
        0x4E => Some("N"),
        0x4F => Some("O"),
        0x50 => Some("P"),
        0x51 => Some("Q"),
        0x52 => Some("R"),
        0x53 => Some("S"),
        0x54 => Some("T"),
        0x55 => Some("U"),
        0x56 => Some("V"),
        0x57 => Some("W"),
        0x58 => Some("X"),
        0x59 => Some("Y"),
        0x5A => Some("Z"),
        0x5B | 0x5C => Some("Win"),
        0x70 => Some("F1"),
        0x71 => Some("F2"),
        0x72 => Some("F3"),
        0x73 => Some("F4"),
        0x74 => Some("F5"),
        0x75 => Some("F6"),
        0x76 => Some("F7"),
        0x77 => Some("F8"),
        0x78 => Some("F9"),
        0x79 => Some("F10"),
        0x7A => Some("F11"),
        0x7B => Some("F12"),
        0xA0 | 0xA1 => Some("Shift"),
        0xA2 | 0xA3 => Some("Ctrl"),
        0xA4 | 0xA5 => Some("Alt"),
        0xBA => Some(";"),
        0xBB => Some("="),
        0xBC => Some(","),
        0xBD => Some("-"),
        0xBE => Some("."),
        0xBF => Some("/"),
        0xC0 => Some("`"),
        0xDB => Some("["),
        0xDC => Some("\\"),
        0xDD => Some("]"),
        0xDE => Some("'"),
        _ => None,
    }
}

/// Converts a Windows virtual-key code to its display name.
pub fn vkey_to_name(vk: u32) -> (name: String)
    ensures
        name@ == windows_key_name(vk),
{
    match windows_table_entry(vk) {
        Some(label) => label.to_owned(),
        None => {
            let mut name = if vk < 16 {
                "#0".to_owned()
            } else {
                "#".to_owned()
            };
            push_hex(&mut name, vk);
            name
        },
    }
}

/// Names are stable, and the labels of unlisted keys tell the keys apart: a key code
/// has the one name that the resolver's contract gives it, and two different codes that
/// the macOS table does not list have different names.
pub proof fn lemma_mac_labels_are_distinct(a: u16, b: u16)
    requires
        a != b,
        mac_table(a) is None,
        mac_table(b) is None,
    ensures
        mac_key_name(a) != mac_key_name(b),
        mac_key_name(a) == "#"@ + decimal_digits(a as nat),
{
    lemma_decimal_digits_differ(a as nat, b as nat);
    let x = "#"@ + decimal_digits(a as nat);
    let y = "#"@ + decimal_digits(b as nat);
    assert(x.subrange("#"@.len() as int, x.len() as int) =~= decimal_digits(a as nat));
    assert(y.subrange("#"@.len() as int, y.len() as int) =~= decimal_digits(b as nat));
}

/// Two different virtual-key codes that the Windows table does not list have different
/// names.
pub proof fn lemma_windows_labels_are_distinct(a: u32, b: u32)
    requires
        a != b,
        windows_table(a) is None,
        windows_table(b) is None,
    ensures
        windows_key_name(a) != windows_key_name(b),
{
    reveal_strlit("#");
    reveal_strlit("#0");
    lemma_hex_digits_differ(a as nat, b as nat);
    lemma_hex_digits_len(a as nat);
    lemma_hex_digits_len(b as nat);
    let x = windows_fallback(a);
    let y = windows_fallback(b);
    if a < 16 && b < 16 {
        assert(x[2] == hex_digits(a as nat)[0]);
        assert(y[2] == hex_digits(b as nat)[0]);
        assert(hex_digits(a as nat)[0] != hex_digits(b as nat)[0]);
    } else if a >= 16 && b >= 16 {
        assert(x.subrange(1, x.len() as int) =~= hex_digits(a as nat));
        assert(y.subrange(1, y.len() as int) =~= hex_digits(b as nat));
    } else if a < 16 {
        assert(x[1] == '0');
        assert(y[1] == hex_digits(b as nat)[0]);
    } else {
        assert(y[1] == '0');
        assert(x[1] == hex_digits(a as nat)[0]);
    }
}

} // verus!
