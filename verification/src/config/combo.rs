use vstd::prelude::*;

use crate::text::{
    ascii_lowercase, chars_eq, chars_of, decimal, digit_char, is_ascii, lemma_lower_split, lemma_lower_trim,
    spec_to_lowercase, split_on, to_lowercase, trim, trim_bounds,
};

verus! {

/// The platform whose virtual-key codes a combo is expressed in.
#[derive(Debug, Clone, Copy, PartialEq, Eq)]
pub enum Platform {
    /// macOS Carbon virtual-key codes.
    MacOs,
    /// Windows virtual-key codes.
    Windows,
    /// Any other platform: no key has a code there.
    Other,
}

/// Parsed result of a key combo like `"Ctrl+Q"`.
#[derive(Debug, Clone, Copy, PartialEq, Eq)]
pub struct ParsedCombo {
    /// Platform virtual-key code for the main key.
    pub vk: u16,
    /// Modifier bitmask (USB HID convention: 1=Ctrl, 2=Shift, 4=Alt, 8=Super).
    pub modifiers: u8,
}

/// The modifier bit that a lowercased modifier name stands for.
pub open spec fn modifier_bit(name: Seq<char>) -> Option<u8> {
    if name == seq!['c', 't', 'r', 'l'] || name == seq!['c', 'o', 'n', 't', 'r', 'o', 'l'] {
        Some(1u8)
    } else if name == seq!['s', 'h', 'i', 'f', 't'] {
        Some(2u8)
    } else if name == seq!['a', 'l', 't'] || name == seq!['o', 'p', 't', 'i', 'o', 'n'] {
        Some(4u8)
    } else if name == seq!['c', 'm', 'd'] || name == seq!['c', 'o', 'm', 'm', 'a', 'n', 'd']
        || name == seq!['s', 'u', 'p', 'e', 'r'] || name == seq!['m', 'e', 't', 'a'] || name
        == seq!['w', 'i', 'n'] {
        Some(8u8)
    } else {
        None
    }
}

/// The combined modifier mask of a sequence of lowercased modifier names,
/// or `None` when one of them is not a modifier name.
pub open spec fn modifier_mask(names: Seq<Seq<char>>) -> Option<u8>
    decreases names.len(),
{
    if names.len() == 0 {
        Some(0u8)
    } else {
        match modifier_mask(names.drop_last()) {
            Some(m) => match modifier_bit(names.last()) {
                Some(b) => Some(m | b),
                None => None,
            },
            None => None,
        }
    }
}

/// The virtual-key code of a lowercased key name on a platform.
pub open spec fn key_vk(platform: Platform, name: Seq<char>) -> Option<u16> {
    match platform {
        Platform::MacOs => if name.len() == 1 {
            mac_char_vk(name[0])
        } else {
            mac_named_vk(name)
        },
        Platform::Windows => if name.len() == 1 {
            win_char_vk(name[0])
        } else {
            win_named_vk(name)
        },
        Platform::Other => None,
    }
}

/// One token of a binding as it is matched: trimmed, then lowercased.
pub open spec fn token_name(t: Seq<char>) -> Seq<char> {
    spec_to_lowercase(trim(t))
}

/// The tokens of a binding (the pieces between `+`), trimmed and lowercased.
pub open spec fn combo_tokens(binding: Seq<char>) -> Seq<Seq<char>> {
    split_on(binding, '+').map_values(|t: Seq<char>| token_name(t))
}

/// The combo that a sequence of token names stands for: the last name is
/// the key, every name before it a modifier; `None` when there is no name,
/// or a modifier or the key is unknown.
pub open spec fn combo_from_names(platform: Platform, names: Seq<Seq<char>>) -> Option<ParsedCombo> {
    if names.len() == 0 {
        None
    } else {
        match modifier_mask(names.drop_last()) {
            Some(m) => match key_vk(platform, names.last()) {
                Some(vk) => Some(ParsedCombo { vk, modifiers: m }),
                None => None,
            },
            None => None,
        }
    }
}

/// What `parse_combo_on` returns: the combo of the binding's trimmed,
/// lowercased tokens.
pub open spec fn combo_of(platform: Platform, binding: Seq<char>) -> Option<ParsedCombo> {
    combo_from_names(platform, combo_tokens(binding))
}

/// One token of an ASCII binding as it is matched: trimmed, then
/// ASCII-lowercased.
pub open spec fn ascii_token_name(t: Seq<char>) -> Seq<char> {
    ascii_lowercase(trim(t))
}

/// The tokens of an ASCII binding: the binding lowercased, split at `+`,
/// each piece trimmed.
pub open spec fn ascii_combo_tokens(binding: Seq<char>) -> Seq<Seq<char>> {
    split_on(ascii_lowercase(binding), '+').map_values(|t: Seq<char>| trim(t))
}

/// What `parse_combo_on` returns for an ASCII binding.
pub open spec fn ascii_combo_of(platform: Platform, binding: Seq<char>) -> Option<ParsedCombo> {
    combo_from_names(platform, ascii_combo_tokens(binding))
}

/// Lowercasing each trimmed token is lowercasing the binding, then
/// splitting and trimming.
pub proof fn lemma_ascii_tokens(binding: Seq<char>)
    ensures
        split_on(binding, '+').map_values(|t: Seq<char>| ascii_token_name(t))
            == ascii_combo_tokens(binding),
{
    lemma_lower_split(binding);
    let toks = split_on(binding, '+');
    let a = toks.map_values(|t: Seq<char>| ascii_token_name(t));
    let b = ascii_combo_tokens(binding);
    assert forall|i: int| 0 <= i < a.len() implies a[i] == b[i] by {
        lemma_lower_trim(toks[i]);
    }
    assert(a =~= b);
}

/// Bindings are case-insensitive: ASCII bindings that differ only in letter
/// case parse to the same combo.
pub proof fn lemma_combo_ignores_case(platform: Platform, a: Seq<char>, b: Seq<char>)
    requires
        ascii_lowercase(a) == ascii_lowercase(b),
    ensures
        ascii_combo_of(platform, a) == ascii_combo_of(platform, b),
{
}

/// macOS (Carbon virtual-key codes) of the single-character key names (letters and digits).
pub open spec fn mac_char_vk(c: char) -> Option<u16> {
    match c {
        'a' => Some(0x00u16),
        'b' => Some(0x0Bu16),
        'c' => Some(0x08u16),
        'd' => Some(0x02u16),
        'e' => Some(0x0Eu16),
        'f' => Some(0x03u16),
        'g' => Some(0x05u16),
        'h' => Some(0x04u16),
        'i' => Some(0x22u16),
        'j' => Some(0x26u16),
        'k' => Some(0x28u16),
        'l' => Some(0x25u16),
        'm' => Some(0x2Eu16),
        'n' => Some(0x2Du16),
        'o' => Some(0x1Fu16),
        'p' => Some(0x23u16),
        'q' => Some(0x0Cu16),
        'r' => Some(0x0Fu16),
        's' => Some(0x01u16),
        't' => Some(0x11u16),
        'u' => Some(0x20u16),
        'v' => Some(0x09u16),
        'w' => Some(0x0Du16),
        'x' => Some(0x07u16),
        'y' => Some(0x10u16),
        'z' => Some(0x06u16),
        '0' => Some(0x1Du16),
        '1' => Some(0x12u16),
        '2' => Some(0x13u16),
        '3' => Some(0x14u16),
        '4' => Some(0x15u16),
        '5' => Some(0x17u16),
        '6' => Some(0x16u16),
        '7' => Some(0x1Au16),
        '8' => Some(0x1Cu16),
        '9' => Some(0x19u16),
        _ => None,
    }
}

/// macOS (Carbon virtual-key codes) of the multi-character key names (function keys and named keys).
pub open spec fn mac_named_vk(s: Seq<char>) -> Option<u16> {
    if s == seq!['f', '1'] {
        Some(0x7Au16)
    } else if s == seq!['f', '2'] {
        Some(0x78u16)
    } else if s == seq!['f', '3'] {
        Some(0x63u16)
    } else if s == seq!['f', '4'] {
        Some(0x76u16)
    } else if s == seq!['f', '5'] {
        Some(0x60u16)
    } else if s == seq!['f', '6'] {
        Some(0x61u16)
    } else if s == seq!['f', '7'] {
        Some(0x62u16)
    } else if s == seq!['f', '8'] {
        Some(0x64u16)
    } else if s == seq!['f', '9'] {
        Some(0x65u16)
    } else if s == seq!['f', '1', '0'] {
        Some(0x6Du16)
    } else if s == seq!['f', '1', '1'] {
        Some(0x67u16)
    } else if s == seq!['f', '1', '2'] {
        Some(0x6Fu16)
    } else if s == seq!['f', '1', '3'] {
        Some(0x69u16)
    } else if s == seq!['f', '1', '4'] {
        Some(0x6Bu16)
    } else if s == seq!['f', '1', '5'] {
        Some(0x71u16)
    } else if s == seq!['f', '1', '6'] {
        Some(0x6Au16)
    } else if s == seq!['f', '1', '7'] {
        Some(0x40u16)
    } else if s == seq!['f', '1', '8'] {
        Some(0x4Fu16)
    } else if s == seq!['f', '1', '9'] {
        Some(0x50u16)
    } else if s == seq!['s', 'p', 'a', 'c', 'e'] {
        Some(0x31u16)
    } else if s == seq!['e', 'n', 't', 'e', 'r'] || s == seq!['r', 'e', 't', 'u', 'r', 'n'] {
        Some(0x24u16)
    } else if s == seq!['e', 's', 'c', 'a', 'p', 'e'] || s == seq!['e', 's', 'c'] {
        Some(0x35u16)
    } else if s == seq!['b', 'a', 'c', 'k', 's', 'p', 'a', 'c', 'e'] {
        Some(0x33u16)
    } else if s == seq!['t', 'a', 'b'] {
        Some(0x30u16)
    } else if s == seq!['d', 'e', 'l', 'e', 't', 'e'] || s == seq!['d', 'e', 'l'] {
        Some(0x75u16)
    } else if s == seq!['h', 'o', 'm', 'e'] {
        Some(0x73u16)
    } else if s == seq!['e', 'n', 'd'] {
        Some(0x77u16)
    } else if s == seq!['p', 'a', 'g', 'e', 'u', 'p'] {
        Some(0x74u16)
    } else if s == seq!['p', 'a', 'g', 'e', 'd', 'o', 'w', 'n'] {
        Some(0x79u16)
    } else if s == seq!['a', 'r', 'r', 'o', 'w', 'l', 'e', 'f', 't'] || s == seq!['l', 'e', 'f', 't'] {
        Some(0x7Bu16)
    } else if s == seq!['a', 'r', 'r', 'o', 'w', 'r', 'i', 'g', 'h', 't'] || s == seq!['r', 'i', 'g', 'h', 't'] {
        Some(0x7Cu16)
    } else if s == seq!['a', 'r', 'r', 'o', 'w', 'u', 'p'] || s == seq!['u', 'p'] {
        Some(0x7Eu16)
    } else if s == seq!['a', 'r', 'r', 'o', 'w', 'd', 'o', 'w', 'n'] || s == seq!['d', 'o', 'w', 'n'] {
        Some(0x7Du16)
    } else {
        None
    }
}

fn mac_char_vk_exec(c: char) -> (r: Option<u16>)
    ensures
        r == mac_char_vk(c),
{
    match c {
        'a' => Some(0x00),
        'b' => Some(0x0B),
        'c' => Some(0x08),
        'd' => Some(0x02),
        'e' => Some(0x0E),
        'f' => Some(0x03),
        'g' => Some(0x05),
        'h' => Some(0x04),
        'i' => Some(0x22),
        'j' => Some(0x26),
        'k' => Some(0x28),
        'l' => Some(0x25),
        'm' => Some(0x2E),
        'n' => Some(0x2D),
        'o' => Some(0x1F),
        'p' => Some(0x23),
        'q' => Some(0x0C),
        'r' => Some(0x0F),
        's' => Some(0x01),
        't' => Some(0x11),
        'u' => Some(0x20),
        'v' => Some(0x09),
        'w' => Some(0x0D),
        'x' => Some(0x07),
        'y' => Some(0x10),
        'z' => Some(0x06),
        '0' => Some(0x1D),
        '1' => Some(0x12),
        '2' => Some(0x13),
        '3' => Some(0x14),
        '4' => Some(0x15),
        '5' => Some(0x17),
        '6' => Some(0x16),
        '7' => Some(0x1A),
        '8' => Some(0x1C),
        '9' => Some(0x19),
        _ => None,
    }
}

fn mac_named_vk_exec(s: &[char]) -> (r: Option<u16>)
    ensures
        r == mac_named_vk(s@),
{
    if chars_eq(s, &['f', '1']) {
        Some(0x7A)
    } else if chars_eq(s, &['f', '2']) {
        Some(0x78)
    } else if chars_eq(s, &['f', '3']) {
        Some(0x63)
    } else if chars_eq(s, &['f', '4']) {
        Some(0x76)
    } else if chars_eq(s, &['f', '5']) {
        Some(0x60)
    } else if chars_eq(s, &['f', '6']) {
        Some(0x61)
    } else if chars_eq(s, &['f', '7']) {
        Some(0x62)
    } else if chars_eq(s, &['f', '8']) {
        Some(0x64)
    } else if chars_eq(s, &['f', '9']) {
        Some(0x65)
    } else if chars_eq(s, &['f', '1', '0']) {
        Some(0x6D)
    } else if chars_eq(s, &['f', '1', '1']) {
        Some(0x67)
    } else if chars_eq(s, &['f', '1', '2']) {
        Some(0x6F)
    } else if chars_eq(s, &['f', '1', '3']) {
        Some(0x69)
    } else if chars_eq(s, &['f', '1', '4']) {
        Some(0x6B)
    } else if chars_eq(s, &['f', '1', '5']) {
        Some(0x71)
    } else if chars_eq(s, &['f', '1', '6']) {
        Some(0x6A)
    } else if chars_eq(s, &['f', '1', '7']) {
        Some(0x40)
    } else if chars_eq(s, &['f', '1', '8']) {
        Some(0x4F)
    } else if chars_eq(s, &['f', '1', '9']) {
        Some(0x50)
    } else if chars_eq(s, &['s', 'p', 'a', 'c', 'e']) {
        Some(0x31)
    } else if chars_eq(s, &['e', 'n', 't', 'e', 'r']) || chars_eq(s, &['r', 'e', 't', 'u', 'r', 'n']) {
        Some(0x24)
    } else if chars_eq(s, &['e', 's', 'c', 'a', 'p', 'e']) || chars_eq(s, &['e', 's', 'c']) {
        Some(0x35)
    } else if chars_eq(s, &['b', 'a', 'c', 'k', 's', 'p', 'a', 'c', 'e']) {
        Some(0x33)
    } else if chars_eq(s, &['t', 'a', 'b']) {
        Some(0x30)
    } else if chars_eq(s, &['d', 'e', 'l', 'e', 't', 'e']) || chars_eq(s, &['d', 'e', 'l']) {
        Some(0x75)
    } else if chars_eq(s, &['h', 'o', 'm', 'e']) {
        Some(0x73)
    } else if chars_eq(s, &['e', 'n', 'd']) {
        Some(0x77)
    } else if chars_eq(s, &['p', 'a', 'g', 'e', 'u', 'p']) {
        Some(0x74)
    } else if chars_eq(s, &['p', 'a', 'g', 'e', 'd', 'o', 'w', 'n']) {
        Some(0x79)
    } else if chars_eq(s, &['a', 'r', 'r', 'o', 'w', 'l', 'e', 'f', 't']) || chars_eq(s, &['l', 'e', 'f', 't']) {
        Some(0x7B)
    } else if chars_eq(s, &['a', 'r', 'r', 'o', 'w', 'r', 'i', 'g', 'h', 't']) || chars_eq(s, &['r', 'i', 'g', 'h', 't']) {
        Some(0x7C)
    } else if chars_eq(s, &['a', 'r', 'r', 'o', 'w', 'u', 'p']) || chars_eq(s, &['u', 'p']) {
        Some(0x7E)
    } else if chars_eq(s, &['a', 'r', 'r', 'o', 'w', 'd', 'o', 'w', 'n']) || chars_eq(s, &['d', 'o', 'w', 'n']) {
        Some(0x7D)
    } else {
        None
    }
}

/// Windows (virtual-key codes) of the single-character key names (letters and digits).
pub open spec fn win_char_vk(c: char) -> Option<u16> {
    match c {
        'a' => Some(0x41u16),
        'b' => Some(0x42u16),
        'c' => Some(0x43u16),
        'd' => Some(0x44u16),
        'e' => Some(0x45u16),
        'f' => Some(0x46u16),
        'g' => Some(0x47u16),
        'h' => Some(0x48u16),
        'i' => Some(0x49u16),
        'j' => Some(0x4Au16),
        'k' => Some(0x4Bu16),
        'l' => Some(0x4Cu16),
        'm' => Some(0x4Du16),
        'n' => Some(0x4Eu16),
        'o' => Some(0x4Fu16),
        'p' => Some(0x50u16),
        'q' => Some(0x51u16),
        'r' => Some(0x52u16),
        's' => Some(0x53u16),
        't' => Some(0x54u16),
        'u' => Some(0x55u16),
        'v' => Some(0x56u16),
        'w' => Some(0x57u16),
        'x' => Some(0x58u16),
        'y' => Some(0x59u16),
        'z' => Some(0x5Au16),
        '0' => Some(0x30u16),
        '1' => Some(0x31u16),
        '2' => Some(0x32u16),
        '3' => Some(0x33u16),
        '4' => Some(0x34u16),
        '5' => Some(0x35u16),
        '6' => Some(0x36u16),
        '7' => Some(0x37u16),
        '8' => Some(0x38u16),
        '9' => Some(0x39u16),
        _ => None,
    }
}

/// Windows (virtual-key codes) of the multi-character key names (function keys and named keys).
pub open spec fn win_named_vk(s: Seq<char>) -> Option<u16> {
    if s == seq!['f', '1'] {
        Some(0x70u16)
    } else if s == seq!['f', '2'] {
        Some(0x71u16)
    } else if s == seq!['f', '3'] {
        Some(0x72u16)
    } else if s == seq!['f', '4'] {
        Some(0x73u16)
    } else if s == seq!['f', '5'] {
        Some(0x74u16)
    } else if s == seq!['f', '6'] {
        Some(0x75u16)
    } else if s == seq!['f', '7'] {
        Some(0x76u16)
    } else if s == seq!['f', '8'] {
        Some(0x77u16)
    } else if s == seq!['f', '9'] {
        Some(0x78u16)
    } else if s == seq!['f', '1', '0'] {
        Some(0x79u16)
    } else if s == seq!['f', '1', '1'] {
        Some(0x7Au16)
    } else if s == seq!['f', '1', '2'] {
        Some(0x7Bu16)
    } else if s == seq!['f', '1', '3'] {
        Some(0x7Cu16)
    } else if s == seq!['f', '1', '4'] {
        Some(0x7Du16)
    } else if s == seq!['f', '1', '5'] {
        Some(0x7Eu16)
    } else if s == seq!['f', '1', '6'] {
        Some(0x7Fu16)
    } else if s == seq!['f', '1', '7'] {
        Some(0x80u16)
    } else if s == seq!['f', '1', '8'] {
        Some(0x81u16)
    } else if s == seq!['f', '1', '9'] {
        Some(0x82u16)
    } else if s == seq!['s', 'p', 'a', 'c', 'e'] {
        Some(0x20u16)
    } else if s == seq!['e', 'n', 't', 'e', 'r'] || s == seq!['r', 'e', 't', 'u', 'r', 'n'] {
        Some(0x0Du16)
    } else if s == seq!['e', 's', 'c', 'a', 'p', 'e'] || s == seq!['e', 's', 'c'] {
        Some(0x1Bu16)
    } else if s == seq!['b', 'a', 'c', 'k', 's', 'p', 'a', 'c', 'e'] {
        Some(0x08u16)
    } else if s == seq!['t', 'a', 'b'] {
        Some(0x09u16)
    } else if s == seq!['d', 'e', 'l', 'e', 't', 'e'] || s == seq!['d', 'e', 'l'] {
        Some(0x2Eu16)
    } else if s == seq!['h', 'o', 'm', 'e'] {
        Some(0x24u16)
    } else if s == seq!['e', 'n', 'd'] {
        Some(0x23u16)
    } else if s == seq!['p', 'a', 'g', 'e', 'u', 'p'] {
        Some(0x21u16)
    } else if s == seq!['p', 'a', 'g', 'e', 'd', 'o', 'w', 'n'] {
        Some(0x22u16)
    } else if s == seq!['a', 'r', 'r', 'o', 'w', 'l', 'e', 'f', 't'] || s == seq!['l', 'e', 'f', 't'] {
        Some(0x25u16)
    } else if s == seq!['a', 'r', 'r', 'o', 'w', 'r', 'i', 'g', 'h', 't'] || s == seq!['r', 'i', 'g', 'h', 't'] {
        Some(0x27u16)
    } else if s == seq!['a', 'r', 'r', 'o', 'w', 'u', 'p'] || s == seq!['u', 'p'] {
        Some(0x26u16)
    } else if s == seq!['a', 'r', 'r', 'o', 'w', 'd', 'o', 'w', 'n'] || s == seq!['d', 'o', 'w', 'n'] {
        Some(0x28u16)
    } else {
        None
    }
}

fn win_char_vk_exec(c: char) -> (r: Option<u16>)
    ensures
        r == win_char_vk(c),
{
    match c {
        'a' => Some(0x41),
        'b' => Some(0x42),
        'c' => Some(0x43),
        'd' => Some(0x44),
        'e' => Some(0x45),
        'f' => Some(0x46),
        'g' => Some(0x47),
        'h' => Some(0x48),
        'i' => Some(0x49),
        'j' => Some(0x4A),
        'k' => Some(0x4B),
        'l' => Some(0x4C),
        'm' => Some(0x4D),
        'n' => Some(0x4E),
        'o' => Some(0x4F),
        'p' => Some(0x50),
        'q' => Some(0x51),
        'r' => Some(0x52),
        's' => Some(0x53),
        't' => Some(0x54),
        'u' => Some(0x55),
        'v' => Some(0x56),
        'w' => Some(0x57),
        'x' => Some(0x58),
        'y' => Some(0x59),
        'z' => Some(0x5A),
        '0' => Some(0x30),
        '1' => Some(0x31),
        '2' => Some(0x32),
        '3' => Some(0x33),
        '4' => Some(0x34),
        '5' => Some(0x35),
        '6' => Some(0x36),
        '7' => Some(0x37),
        '8' => Some(0x38),
        '9' => Some(0x39),
        _ => None,
    }
}

fn win_named_vk_exec(s: &[char]) -> (r: Option<u16>)
    ensures
        r == win_named_vk(s@),
{
    if chars_eq(s, &['f', '1']) {
        Some(0x70)
    } else if chars_eq(s, &['f', '2']) {
        Some(0x71)
    } else if chars_eq(s, &['f', '3']) {
        Some(0x72)
    } else if chars_eq(s, &['f', '4']) {
        Some(0x73)
    } else if chars_eq(s, &['f', '5']) {
        Some(0x74)
    } else if chars_eq(s, &['f', '6']) {
        Some(0x75)
    } else if chars_eq(s, &['f', '7']) {
        Some(0x76)
    } else if chars_eq(s, &['f', '8']) {
        Some(0x77)
    } else if chars_eq(s, &['f', '9']) {
        Some(0x78)
    } else if chars_eq(s, &['f', '1', '0']) {
        Some(0x79)
    } else if chars_eq(s, &['f', '1', '1']) {
        Some(0x7A)
    } else if chars_eq(s, &['f', '1', '2']) {
        Some(0x7B)
    } else if chars_eq(s, &['f', '1', '3']) {
        Some(0x7C)
    } else if chars_eq(s, &['f', '1', '4']) {
        Some(0x7D)
    } else if chars_eq(s, &['f', '1', '5']) {
        Some(0x7E)
    } else if chars_eq(s, &['f', '1', '6']) {
        Some(0x7F)
    } else if chars_eq(s, &['f', '1', '7']) {
        Some(0x80)
    } else if chars_eq(s, &['f', '1', '8']) {
        Some(0x81)
    } else if chars_eq(s, &['f', '1', '9']) {
        Some(0x82)
    } else if chars_eq(s, &['s', 'p', 'a', 'c', 'e']) {
        Some(0x20)
    } else if chars_eq(s, &['e', 'n', 't', 'e', 'r']) || chars_eq(s, &['r', 'e', 't', 'u', 'r', 'n']) {
        Some(0x0D)
    } else if chars_eq(s, &['e', 's', 'c', 'a', 'p', 'e']) || chars_eq(s, &['e', 's', 'c']) {
        Some(0x1B)
    } else if chars_eq(s, &['b', 'a', 'c', 'k', 's', 'p', 'a', 'c', 'e']) {
        Some(0x08)
    } else if chars_eq(s, &['t', 'a', 'b']) {
        Some(0x09)
    } else if chars_eq(s, &['d', 'e', 'l', 'e', 't', 'e']) || chars_eq(s, &['d', 'e', 'l']) {
        Some(0x2E)
    } else if chars_eq(s, &['h', 'o', 'm', 'e']) {
        Some(0x24)
    } else if chars_eq(s, &['e', 'n', 'd']) {
        Some(0x23)
    } else if chars_eq(s, &['p', 'a', 'g', 'e', 'u', 'p']) {
        Some(0x21)
    } else if chars_eq(s, &['p', 'a', 'g', 'e', 'd', 'o', 'w', 'n']) {
        Some(0x22)
    } else if chars_eq(s, &['a', 'r', 'r', 'o', 'w', 'l', 'e', 'f', 't']) || chars_eq(s, &['l', 'e', 'f', 't']) {
        Some(0x25)
    } else if chars_eq(s, &['a', 'r', 'r', 'o', 'w', 'r', 'i', 'g', 'h', 't']) || chars_eq(s, &['r', 'i', 'g', 'h', 't']) {
        Some(0x27)
    } else if chars_eq(s, &['a', 'r', 'r', 'o', 'w', 'u', 'p']) || chars_eq(s, &['u', 'p']) {
        Some(0x26)
    } else if chars_eq(s, &['a', 'r', 'r', 'o', 'w', 'd', 'o', 'w', 'n']) || chars_eq(s, &['d', 'o', 'w', 'n']) {
        Some(0x28)
    } else {
        None
    }
}
/// Both platforms accept exactly the same key names: a name has a code on
/// macOS if and only if it has one on Windows.
pub proof fn lemma_same_key_names(name: Seq<char>)
    ensures
        (key_vk(Platform::MacOs, name) is Some) == (key_vk(Platform::Windows, name) is Some),
{
}

/// Whether a binding is accepted does not depend on the platform (macOS or
/// Windows), and the modifier mask is the same on both.
pub proof fn lemma_combo_platform_independent(binding: Seq<char>)
    ensures
        (combo_of(Platform::MacOs, binding) is Some) == (combo_of(Platform::Windows, binding) is Some),
        combo_of(Platform::MacOs, binding) is Some ==> combo_of(Platform::MacOs, binding)->0.modifiers
            == combo_of(Platform::Windows, binding)->0.modifiers,
{
    lemma_same_key_names(combo_tokens(binding).last());
}

/// A modifier mask only ever has the four low bits (Ctrl, Shift, Alt, Super).
pub proof fn lemma_modifier_mask_low_bits(names: Seq<Seq<char>>)
    ensures
        modifier_mask(names) matches Some(m) ==> m & 0xF0 == 0,
    decreases names.len(),
{
    if names.len() == 0 {
        assert(0u8 & 0xF0 == 0) by (bit_vector);
    } else {
        lemma_modifier_mask_low_bits(names.drop_last());
        if let Some(m) = modifier_mask(names.drop_last()) {
            if let Some(b) = modifier_bit(names.last()) {
                assert(m & 0xF0 == 0 && (b == 1 || b == 2 || b == 4 || b == 8) ==> (m | b) & 0xF0
                    == 0) by (bit_vector);
            }
        }
    }
}

/// On a platform other than macOS and Windows no key has a code, so no
/// binding parses.
pub proof fn lemma_other_platform_parses_nothing(binding: Seq<char>)
    ensures
        combo_of(Platform::Other, binding) is None,
{
}

/// The ASCII capital of a small letter.
pub open spec fn ascii_upper_char(c: char) -> char {
    ((c as u32) - 32) as char
}

/// The Windows key table: every letter names its capital's code in either
/// case, every digit the code of its character, and `F1`–`F19` (either
/// case) the codes 0x70–0x82.
pub proof fn lemma_windows_key_table(c: char, d: nat, n: nat)
    ensures
        'a' <= c <= 'z' ==> key_vk(Platform::Windows, ascii_lowercase(seq![c])) == Some(
            ((c as u32) - 32) as u16,
        ) && key_vk(Platform::Windows, ascii_lowercase(seq![ascii_upper_char(c)])) == Some(
            ((c as u32) - 32) as u16,
        ),
        d < 10 ==> key_vk(Platform::Windows, ascii_lowercase(seq![digit_char(d)])) == Some(
            (0x30 + d) as u16,
        ),
        1 <= n <= 19 ==> key_vk(Platform::Windows, ascii_lowercase(seq!['F'] + decimal(n)))
            == Some((0x6F + n) as u16) && key_vk(
            Platform::Windows,
            ascii_lowercase(seq!['f'] + decimal(n)),
        ) == Some((0x6F + n) as u16),
{
    if 'a' <= c <= 'z' {
        let u = ascii_upper_char(c);
        assert(u as u32 == (c as u32) - 32);
        assert(ascii_lowercase(seq![c]) =~= seq![c]);
        assert(ascii_lowercase(seq![u]) =~= seq![c]);
    }
    if d < 10 {
        assert(ascii_lowercase(seq![digit_char(d)]) =~= seq![digit_char(d)]);
    }
    if 1 <= n <= 19 {
        reveal_with_fuel(decimal, 3);
        let t = decimal(n);
        if n < 10 {
            assert(t == seq![digit_char(n)]);
            assert(ascii_lowercase(seq!['F'] + t) =~= seq!['f', digit_char(n)]);
            assert(ascii_lowercase(seq!['f'] + t) =~= seq!['f', digit_char(n)]);
        } else {
            assert(decimal(n / 10) == seq!['1']);
            assert(t == seq!['1', digit_char((n % 10) as nat)]);
            assert(ascii_lowercase(seq!['F'] + t) =~= seq!['f', '1', digit_char((n % 10) as nat)]);
            assert(ascii_lowercase(seq!['f'] + t) =~= seq!['f', '1', digit_char((n % 10) as nat)]);
        }
    }
}

/// The aliases of the named keys name the same key on every platform:
/// `esc`/`escape`, `return`/`enter`, `del`/`delete` and the four arrows
/// with and without `arrow`.
pub proof fn lemma_key_aliases(p: Platform)
    ensures
        key_vk(p, seq!['e', 's', 'c']) == key_vk(p, seq!['e', 's', 'c', 'a', 'p', 'e']),
        key_vk(p, seq!['r', 'e', 't', 'u', 'r', 'n']) == key_vk(p, seq!['e', 'n', 't', 'e', 'r']),
        key_vk(p, seq!['d', 'e', 'l']) == key_vk(p, seq!['d', 'e', 'l', 'e', 't', 'e']),
        key_vk(p, seq!['l', 'e', 'f', 't']) == key_vk(
            p,
            seq!['a', 'r', 'r', 'o', 'w', 'l', 'e', 'f', 't'],
        ),
        key_vk(p, seq!['r', 'i', 'g', 'h', 't']) == key_vk(
            p,
            seq!['a', 'r', 'r', 'o', 'w', 'r', 'i', 'g', 'h', 't'],
        ),
        key_vk(p, seq!['u', 'p']) == key_vk(p, seq!['a', 'r', 'r', 'o', 'w', 'u', 'p']),
        key_vk(p, seq!['d', 'o', 'w', 'n']) == key_vk(
            p,
            seq!['a', 'r', 'r', 'o', 'w', 'd', 'o', 'w', 'n'],
        ),
{
}

/// The Carbon virtual-key codes of the ANSI letter and digit keys
/// (`kVK_ANSI_*` in HIToolbox `Events.h`), in order of code.
pub open spec fn carbon_ansi_codes() -> Seq<(char, u16)> {
    seq![
        ('a', 0x00u16), ('s', 0x01u16), ('d', 0x02u16), ('f', 0x03u16), ('h', 0x04u16),
        ('g', 0x05u16), ('z', 0x06u16), ('x', 0x07u16), ('c', 0x08u16), ('v', 0x09u16),
        ('b', 0x0Bu16), ('q', 0x0Cu16), ('w', 0x0Du16), ('e', 0x0Eu16), ('r', 0x0Fu16),
        ('y', 0x10u16), ('t', 0x11u16), ('1', 0x12u16), ('2', 0x13u16), ('3', 0x14u16),
        ('4', 0x15u16), ('6', 0x16u16), ('5', 0x17u16), ('9', 0x19u16), ('7', 0x1Au16),
        ('8', 0x1Cu16), ('0', 0x1Du16), ('o', 0x1Fu16), ('u', 0x20u16), ('i', 0x22u16),
        ('p', 0x23u16), ('l', 0x25u16), ('j', 0x26u16), ('k', 0x28u16), ('n', 0x2Du16),
        ('m', 0x2Eu16),
    ]
}

/// On macOS every letter (in either case) and digit names its Carbon
/// `kVK_ANSI_*` code, and no two one-character names share a code.
pub proof fn lemma_mac_key_table()
    ensures
        forall|i: int|
            0 <= i < carbon_ansi_codes().len() ==> key_vk(
                Platform::MacOs,
                seq![#[trigger] carbon_ansi_codes()[i].0],
            ) == Some(carbon_ansi_codes()[i].1),
        forall|c1: char, c2: char|
            #![trigger mac_char_vk(c1), mac_char_vk(c2)]
            key_vk(Platform::MacOs, seq![c1]) is Some && key_vk(Platform::MacOs, seq![c1]) == key_vk(
                Platform::MacOs,
                seq![c2],
            ) ==> c1 == c2,
        forall|c: char|
            'a' <= c <= 'z' ==> #[trigger] key_vk(
                Platform::MacOs,
                ascii_lowercase(seq![ascii_upper_char(c)]),
            ) == key_vk(Platform::MacOs, seq![c]),
{
    let t = carbon_ansi_codes();
    assert forall|i: int| 0 <= i < t.len() implies key_vk(Platform::MacOs, seq![#[trigger] t[i].0])
        == Some(t[i].1) by {
        assert(seq![t[i].0].len() == 1);
        assert(seq![t[i].0][0] == t[i].0);
    }
    assert forall|c1: char, c2: char|
        key_vk(Platform::MacOs, seq![c1]) is Some && key_vk(Platform::MacOs, seq![c1]) == key_vk(
            Platform::MacOs,
            seq![c2],
        ) implies c1 == c2 by {
        assert(seq![c1][0] == c1);
        assert(seq![c2][0] == c2);
        assert(mac_char_vk(c1) is Some && mac_char_vk(c1) == mac_char_vk(c2));
    }
    assert forall|c: char| 'a' <= c <= 'z' implies #[trigger] key_vk(
        Platform::MacOs,
        ascii_lowercase(seq![ascii_upper_char(c)]),
    ) == key_vk(Platform::MacOs, seq![c]) by {
        let u = ascii_upper_char(c);
        assert(u as u32 == (c as u32) - 32);
        assert(ascii_lowercase(seq![u]) =~= seq![c]);
    }
}

/// A parsed combo's modifier mask uses only the four modifier bits.
pub proof fn lemma_combo_modifiers_in_range(platform: Platform, binding: Seq<char>)
    ensures
        combo_of(platform, binding) matches Some(c) ==> c.modifiers & 0xF0 == 0,
{
    lemma_modifier_mask_low_bits(combo_tokens(binding).drop_last());
}

/// Parsing depends on the binding only through its trimmed, lowercased
/// tokens: bindings that differ only in letter case or in white space
/// around `+` parse to the same result.
pub proof fn lemma_combo_depends_on_token_names(platform: Platform, a: Seq<char>, b: Seq<char>)
    requires
        combo_tokens(a) == combo_tokens(b),
    ensures
        combo_of(platform, a) == combo_of(platform, b),
{
}

fn modifier_bit_exec(name: &[char]) -> (r: Option<u8>)
    ensures
        r == modifier_bit(name@),
{
    if chars_eq(name, &['c', 't', 'r', 'l']) || chars_eq(name, &['c', 'o', 'n', 't', 'r', 'o', 'l']) {
        Some(1)
    } else if chars_eq(name, &['s', 'h', 'i', 'f', 't']) {
        Some(2)
    } else if chars_eq(name, &['a', 'l', 't']) || chars_eq(name, &['o', 'p', 't', 'i', 'o', 'n']) {
        Some(4)
    } else if chars_eq(name, &['c', 'm', 'd']) || chars_eq(name, &['c', 'o', 'm', 'm', 'a', 'n', 'd'])
        || chars_eq(name, &['s', 'u', 'p', 'e', 'r']) || chars_eq(name, &['m', 'e', 't', 'a'])
        || chars_eq(name, &['w', 'i', 'n']) {
        Some(8)
    } else {
        None
    }
}

/// The virtual-key code of a key name that is already lowercased.
pub fn lowercase_key_to_vk(platform: Platform, name: &[char]) -> (r: Option<u16>)
    ensures
        r == key_vk(platform, name@),
{
    match platform {
        Platform::MacOs => if name.len() == 1 {
            mac_char_vk_exec(name[0])
        } else {
            mac_named_vk_exec(name)
        },
        Platform::Windows => if name.len() == 1 {
            win_char_vk_exec(name[0])
        } else {
            win_named_vk_exec(name)
        },
        Platform::Other => None,
    }
}

/// The virtual-key code of a key name on a platform. Names are
/// case-insensitive: the name is lowercased first, so `"Q"`, `"q"`,
/// `"PageUp"` and `"pageup"` name the keys they name in lowercase.
pub fn key_to_vk(platform: Platform, key: &str) -> (r: Option<u16>)
    ensures
        r == key_vk(platform, spec_to_lowercase(key@)),
        is_ascii(key@) ==> r == key_vk(platform, ascii_lowercase(key@)),
{
    let lower = to_lowercase(key);
    let name = chars_of(lower.as_str());
    lowercase_key_to_vk(platform, name.as_slice())
}

/// Key names are case-insensitive: ASCII names that differ only in letter
/// case name the same key.
pub proof fn lemma_key_names_ignore_case(platform: Platform, a: Seq<char>, b: Seq<char>)
    requires
        ascii_lowercase(a) == ascii_lowercase(b),
    ensures
        key_vk(platform, ascii_lowercase(a)) == key_vk(platform, ascii_lowercase(b)),
{
}

/// The token `binding[start..end]`, trimmed and lowercased.
fn token_at(binding: &str, chars: &[char], start: usize, end: usize) -> (v: Vec<char>)
    requires
        chars@ == binding@,
        start <= end <= chars@.len(),
    ensures
        v@ == token_name(chars@.subrange(start as int, end as int)),
        is_ascii(chars@.subrange(start as int, end as int)) ==> v@ == ascii_token_name(
            chars@.subrange(start as int, end as int),
        ),
{
    let (lo, hi) = trim_bounds(chars, start, end);
    let piece = binding.substring_char(lo, hi);
    proof {
        let sub = chars@.subrange(start as int, end as int);
        if is_ascii(sub) {
            assert forall|k: int| 0 <= k < piece@.len() implies (#[trigger] piece@[k] as u32)
                < 128 by {
                assert(piece@[k] == sub[lo - start + k]);
            }
        }
    }
    let lower = to_lowercase(piece);
    chars_of(lower.as_str())
}

/// The characters of each token name.
pub open spec fn names_view(names: Seq<Vec<char>>) -> Seq<Seq<char>> {
    names.map_values(|t: Vec<char>| t@)
}

/// The combo that the token names (trimmed and lowercased pieces of a
/// binding) stand for on `platform`: the last is the key, the others are
/// modifiers.
pub fn combo_from_tokens(platform: Platform, names: &[Vec<char>]) -> (r: Option<ParsedCombo>)
    ensures
        r == combo_from_names(platform, names_view(names@)),
{
    let n = names.len();
    if n == 0 {
        return None;
    }
    let ghost all = names_view(names@);
    let mut modifiers: u8 = 0;
    let mut i: usize = 0;
    while i < n - 1
        invariant
            n == names@.len(),
            n >= 1,
            all == names_view(names@),
            i <= n - 1,
            modifier_mask(all.take(i as int)) == Some(modifiers),
        decreases n - 1 - i,
    {
        assert(all.take(i + 1).drop_last() == all.take(i as int));
        assert(all.take(i + 1).last() == names@[i as int]@);
        match modifier_bit_exec(names[i].as_slice()) {
            Some(b) => {
                modifiers = modifiers | b;
            },
            None => {
                proof {
                    assert(all.take(n - 1) == all.drop_last());
                    assert(all.drop_last().take(i + 1) == all.take(i + 1));
                    lemma_mask_unknown_prefix(all.drop_last(), (i + 1) as int);
                }
                return None;
            },
        }
        i = i + 1;
    }
    assert(all.take(n - 1) == all.drop_last());
    assert(all.last() == names@[n - 1]@);
    match lowercase_key_to_vk(platform, names[n - 1].as_slice()) {
        Some(vk) => Some(ParsedCombo { vk, modifiers }),
        None => None,
    }
}

/// Once a prefix of the names holds an unknown modifier, so does the whole.
proof fn lemma_mask_unknown_prefix(names: Seq<Seq<char>>, k: int)
    requires
        0 <= k <= names.len(),
        modifier_mask(names.take(k)) is None,
    ensures
        modifier_mask(names) is None,
    decreases names.len() - k,
{
    if k < names.len() {
        assert(names.take(k + 1).drop_last() == names.take(k));
        lemma_mask_unknown_prefix(names, k + 1);
    } else {
        assert(names.take(k) == names);
    }
}

/// Parse a key combo string like `"Ctrl+Q"` or `"Cmd+Shift+3"` into the
/// virtual-key code of `platform` and a modifier mask.
///
/// The string is split at `+`; each piece is trimmed and lowercased. The last
/// piece is the key, every piece before it a modifier (`Ctrl`/`Control`,
/// `Shift`, `Alt`/`Option`, `Cmd`/`Command`/`Super`/`Meta`/`Win`).
pub fn parse_combo_on(binding: &str, platform: Platform) -> (r: Option<ParsedCombo>)
    ensures
        r == combo_of(platform, binding@),
        is_ascii(binding@) ==> r == ascii_combo_of(platform, binding@),
{
    let chars = chars_of(binding);
    let n = chars.len();
    let mut names: Vec<Vec<char>> = Vec::new();
    let mut start: usize = 0;
    let mut i: usize = 0;
    let ghost mut done: Seq<Seq<char>> = Seq::empty();
    assert(chars@.take(0) == Seq::<char>::empty());
    assert(chars@.subrange(0, 0) == Seq::<char>::empty());
    assert(split_on(Seq::<char>::empty(), '+') == done.push(Seq::<char>::empty()));
    while i < n
        invariant
            chars@ == binding@,
            n == chars@.len(),
            start <= i <= n,
            split_on(chars@.take(i as int), '+') == done.push(
                chars@.subrange(start as int, i as int),
            ),
            names_view(names@) == done.map_values(|t: Seq<char>| token_name(t)),
            is_ascii(binding@) ==> names_view(names@) == done.map_values(
                |t: Seq<char>| ascii_token_name(t),
            ),
        decreases n - i,
    {
        let ghost pre = chars@.take(i as int);
        assert(chars@.take(i + 1).drop_last() == pre);
        assert(chars@.take(i + 1).last() == chars@[i as int]);
        if chars[i] == '+' {
            let ghost tok = chars@.subrange(start as int, i as int);
            proof {
                if is_ascii(binding@) {
                    assert forall|k: int| 0 <= k < tok.len() implies (#[trigger] tok[k] as u32)
                        < 128 by {
                        assert(tok[k] == chars@[start + k]);
                    }
                }
            }
            let name = token_at(binding, chars.as_slice(), start, i);
            let ghost old_names = names@;
            let ghost name_chars = name@;
            names.push(name);
            proof {
                let next = done.push(tok);
                assert(names_view(names@) =~= names_view(old_names).push(name_chars));
                assert(next.map_values(|t: Seq<char>| token_name(t)) =~= done.map_values(
                    |t: Seq<char>| token_name(t),
                ).push(token_name(tok)));
                assert(next.map_values(|t: Seq<char>| ascii_token_name(t)) =~= done.map_values(
                    |t: Seq<char>| ascii_token_name(t),
                ).push(ascii_token_name(tok)));
                done = next;
                assert(chars@.subrange(i + 1, i + 1) == Seq::<char>::empty());
            }
            start = i + 1;
        } else {
            assert(chars@.subrange(start as int, i + 1) == chars@.subrange(
                start as int,
                i as int,
            ).push(chars@[i as int]));
        }
        i = i + 1;
    }
    assert(chars@.take(n as int) == chars@);
    proof {
        if is_ascii(binding@) {
            let last = chars@.subrange(start as int, n as int);
            assert forall|k: int| 0 <= k < last.len() implies (#[trigger] last[k] as u32)
                < 128 by {
                assert(last[k] == chars@[start + k]);
            }
        }
    }
    let key = token_at(binding, chars.as_slice(), start, n);
    let ghost old_names = names@;
    let ghost key_chars = key@;
    names.push(key);
    proof {
        let toks = split_on(binding@, '+');
        let last = chars@.subrange(start as int, n as int);
        assert(toks == done.push(last));
        assert(names_view(names@) =~= names_view(old_names).push(key_chars));
        assert(toks.map_values(|t: Seq<char>| token_name(t)) =~= done.map_values(
            |t: Seq<char>| token_name(t),
        ).push(token_name(last)));
        assert(names_view(names@) == toks.map_values(|t: Seq<char>| token_name(t)));
        if is_ascii(binding@) {
            assert(toks.map_values(|t: Seq<char>| ascii_token_name(t)) =~= done.map_values(
                |t: Seq<char>| ascii_token_name(t),
            ).push(ascii_token_name(last)));
            lemma_ascii_tokens(binding@);
        }
    }
    combo_from_tokens(platform, names.as_slice())
}

/// [`parse_combo_on`] with macOS codes: it gives macOS codes on every
/// platform. Code that injects or validates on the platform it runs on calls
/// [`parse_combo_on`] with that platform.
pub fn parse_combo(binding: &str) -> (r: Option<ParsedCombo>)
    ensures
        r == combo_of(Platform::MacOs, binding@),
        is_ascii(binding@) ==> r == ascii_combo_of(Platform::MacOs, binding@),
{
    parse_combo_on(binding, Platform::MacOs)
}

} // verus!
