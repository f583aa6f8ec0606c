use vstd::prelude::*;

use crate::error::Error;
use crate::hid::keycode::KeyCode;
use crate::hid::parser::{parse, parse_result};
use crate::hid::report::{KeyboardReport, Report};
use crate::text::{chars_eq, chars_of, decimal, push_decimal, string_of};

verus! {

pub const VK_CONTROL: u16 = 0x11;
pub const VK_SHIFT: u16 = 0x10;
pub const VK_MENU: u16 = 0x12;
pub const VK_LWIN: u16 = 0x5B;
pub const VK_RWIN: u16 = 0x5C;
pub const VK_VOLUME_UP: u16 = 0xAF;
pub const VK_VOLUME_DOWN: u16 = 0xAE;
pub const VK_VOLUME_MUTE: u16 = 0xAD;
pub const VK_MEDIA_PLAY_PAUSE: u16 = 0xB3;
pub const KEYEVENTF_KEYUP: u32 = 0x0002;
pub const MOUSEEVENTF_LEFTDOWN: u32 = 0x0002;
pub const MOUSEEVENTF_LEFTUP: u32 = 0x0004;
pub const MOUSEEVENTF_RIGHTDOWN: u32 = 0x0008;
pub const MOUSEEVENTF_RIGHTUP: u32 = 0x0010;
pub const MOUSEEVENTF_MIDDLEDOWN: u32 = 0x0020;
pub const MOUSEEVENTF_MIDDLEUP: u32 = 0x0040;
pub const LLKHF_INJECTED: u32 = 0x10;
pub const LLKHF_LOWER_IL_INJECTED: u32 = 0x02;
pub const HC_ACTION: i32 = 0;
pub const DBT_DEVICEARRIVAL: u32 = 0x8000;
pub const DBT_DEVICEREMOVECOMPLETE: u32 = 0x8004;

// ── HID usage → virtual key ─────────────────────────────────────────────────

/// The Windows virtual-key code of a HID keyboard-page usage (0x04–0x56):
/// letters, digits, punctuation, function keys, navigation and keypad.
pub open spec fn usage_vk(u: u8) -> Option<u16> {
    if 0x04 <= u <= 0x1D {
        Some((u + 0x3D) as u16)
    } else if 0x1E <= u <= 0x26 {
        Some((u + 0x13) as u16)
    } else if u == 0x27 {
        Some(0x30u16)
    } else if u == 0x28 {
        Some(0x0Du16)
    } else if u == 0x29 {
        Some(0x1Bu16)
    } else if u == 0x2A {
        Some(0x08u16)
    } else if u == 0x2B {
        Some(0x09u16)
    } else if u == 0x2C {
        Some(0x20u16)
    } else if u == 0x2D {
        Some(0xBDu16)
    } else if u == 0x2E {
        Some(0xBBu16)
    } else if u == 0x2F {
        Some(0xDBu16)
    } else if u == 0x30 {
        Some(0xDDu16)
    } else if u == 0x31 || u == 0x32 {
        // backslash and the non-US `#`/`~` key share one scan code: VK_OEM_5
        Some(0xDCu16)
    } else if u == 0x33 {
        Some(0xBAu16)
    } else if u == 0x34 {
        Some(0xDEu16)
    } else if u == 0x35 {
        Some(0xC0u16)
    } else if u == 0x36 {
        Some(0xBCu16)
    } else if u == 0x37 {
        Some(0xBEu16)
    } else if u == 0x38 {
        Some(0xBFu16)
    } else if u == 0x39 {
        Some(0x14u16)
    } else if u == 0x3A {
        Some(0x70u16)
    } else if u == 0x3B {
        Some(0x71u16)
    } else if u == 0x3C {
        Some(0x72u16)
    } else if u == 0x3D {
        Some(0x73u16)
    } else if u == 0x3E {
        Some(0x74u16)
    } else if u == 0x3F {
        Some(0x75u16)
    } else if u == 0x40 {
        Some(0x76u16)
    } else if u == 0x41 {
        Some(0x77u16)
    } else if u == 0x42 {
        Some(0x78u16)
    } else if u == 0x43 {
        Some(0x79u16)
    } else if u == 0x44 {
        Some(0x7Au16)
    } else if u == 0x45 {
        Some(0x7Bu16)
    } else if u == 0x46 {
        Some(0x2Cu16)
    } else if u == 0x47 {
        Some(0x91u16)
    } else if u == 0x48 {
        Some(0x13u16)
    } else if u == 0x49 {
        Some(0x2Du16)
    } else if u == 0x4A {
        Some(0x24u16)
    } else if u == 0x4B {
        Some(0x21u16)
    } else if u == 0x4C {
        Some(0x2Eu16)
    } else if u == 0x4D {
        Some(0x23u16)
    } else if u == 0x4E {
        Some(0x22u16)
    } else if u == 0x4F {
        Some(0x27u16)
    } else if u == 0x50 {
        Some(0x25u16)
    } else if u == 0x51 {
        Some(0x28u16)
    } else if u == 0x52 {
        Some(0x26u16)
    } else if u == 0x53 {
        Some(0x62u16)
    } else if u == 0x54 {
        Some(0x64u16)
    } else if u == 0x55 {
        Some(0x66u16)
    } else if u == 0x56 {
        Some(0x68u16)
    } else {
        None
    }
}

/// Every standard keyboard-page usage 0x04–0x56 has a virtual key, and no
/// other usage has one.
pub proof fn lemma_usage_table_complete(u: u8)
    ensures
        (usage_vk(u) is Some) == (0x04 <= u <= 0x56),
{
}

/// The Windows virtual-key code of a HID keyboard-page usage.
pub fn hid_kbd_usage_to_vk(usage: u8) -> (r: Option<u16>)
    ensures
        r == usage_vk(usage),
{
    if 0x04 <= usage && usage <= 0x1D {
        Some(usage as u16 + 0x3D)
    } else if 0x1E <= usage && usage <= 0x26 {
        Some(usage as u16 + 0x13)
    } else if usage == 0x27 {
        Some(0x30)
    } else if usage == 0x28 {
        Some(0x0D)
    } else if usage == 0x29 {
        Some(0x1B)
    } else if usage == 0x2A {
        Some(0x08)
    } else if usage == 0x2B {
        Some(0x09)
    } else if usage == 0x2C {
        Some(0x20)
    } else if usage == 0x2D {
        Some(0xBD)
    } else if usage == 0x2E {
        Some(0xBB)
    } else if usage == 0x2F {
        Some(0xDB)
    } else if usage == 0x30 {
        Some(0xDD)
    } else if usage == 0x31 || usage == 0x32 {
        Some(0xDC)
    } else if usage == 0x33 {
        Some(0xBA)
    } else if usage == 0x34 {
        Some(0xDE)
    } else if usage == 0x35 {
        Some(0xC0)
    } else if usage == 0x36 {
        Some(0xBC)
    } else if usage == 0x37 {
        Some(0xBE)
    } else if usage == 0x38 {
        Some(0xBF)
    } else if usage == 0x39 {
        Some(0x14)
    } else if usage == 0x3A {
        Some(0x70)
    } else if usage == 0x3B {
        Some(0x71)
    } else if usage == 0x3C {
        Some(0x72)
    } else if usage == 0x3D {
        Some(0x73)
    } else if usage == 0x3E {
        Some(0x74)
    } else if usage == 0x3F {
        Some(0x75)
    } else if usage == 0x40 {
        Some(0x76)
    } else if usage == 0x41 {
        Some(0x77)
    } else if usage == 0x42 {
        Some(0x78)
    } else if usage == 0x43 {
        Some(0x79)
    } else if usage == 0x44 {
        Some(0x7A)
    } else if usage == 0x45 {
        Some(0x7B)
    } else if usage == 0x46 {
        Some(0x2C)
    } else if usage == 0x47 {
        Some(0x91)
    } else if usage == 0x48 {
        Some(0x13)
    } else if usage == 0x49 {
        Some(0x2D)
    } else if usage == 0x4A {
        Some(0x24)
    } else if usage == 0x4B {
        Some(0x21)
    } else if usage == 0x4C {
        Some(0x2E)
    } else if usage == 0x4D {
        Some(0x23)
    } else if usage == 0x4E {
        Some(0x22)
    } else if usage == 0x4F {
        Some(0x27)
    } else if usage == 0x50 {
        Some(0x25)
    } else if usage == 0x51 {
        Some(0x28)
    } else if usage == 0x52 {
        Some(0x26)
    } else if usage == 0x53 {
        Some(0x62)
    } else if usage == 0x54 {
        Some(0x64)
    } else if usage == 0x55 {
        Some(0x66)
    } else if usage == 0x56 {
        Some(0x68)
    } else {
        None
    }
}

// ── Keys the low-level hook suppresses ──────────────────────────────────────

/// The virtual keys of the keycodes that have one, in report order.
pub open spec fn key_vks(keys: Seq<KeyCode>) -> Seq<u16>
    decreases keys.len(),
{
    if keys.len() == 0 {
        Seq::empty()
    } else {
        let rest = key_vks(keys.drop_last());
        match usage_vk(keys.last().0) {
            Some(vk) => rest.push(vk),
            None => rest,
        }
    }
}

/// `vk` when `cond`, else nothing.
pub open spec fn vk_if(cond: bool, vk: u16) -> Seq<u16> {
    if cond {
        seq![vk]
    } else {
        Seq::empty()
    }
}

/// The virtual keys of the modifier bits that are set (left and right
/// variants map to the same key, except the Windows keys).
pub open spec fn modifier_vks(m: u8) -> Seq<u16> {
    vk_if(m & 0x01 != 0, VK_CONTROL) + vk_if(m & 0x10 != 0, VK_CONTROL) + vk_if(
        m & 0x02 != 0,
        VK_SHIFT,
    ) + vk_if(m & 0x20 != 0, VK_SHIFT) + vk_if(m & 0x04 != 0, VK_MENU) + vk_if(
        m & 0x40 != 0,
        VK_MENU,
    ) + vk_if(m & 0x08 != 0, VK_LWIN) + vk_if(m & 0x80 != 0, VK_RWIN)
}

fn push_vk_if(v: &mut Vec<u16>, cond: bool, vk: u16)
    ensures
        final(v)@ == old(v)@ + vk_if(cond, vk),
{
    if cond {
        v.push(vk);
    } else {
        assert(old(v)@ + Seq::<u16>::empty() == old(v)@);
    }
}

/// The virtual keys of the modifier bits that are set.
fn modifier_vk_list(m: u8) -> (v: Vec<u16>)
    ensures
        v@ == modifier_vks(m),
{
    let mut v: Vec<u16> = Vec::new();
    push_vk_if(&mut v, m & 0x01 != 0, VK_CONTROL);
    assert(v@ == vk_if(m & 0x01 != 0, VK_CONTROL));
    push_vk_if(&mut v, m & 0x10 != 0, VK_CONTROL);
    push_vk_if(&mut v, m & 0x02 != 0, VK_SHIFT);
    push_vk_if(&mut v, m & 0x20 != 0, VK_SHIFT);
    push_vk_if(&mut v, m & 0x04 != 0, VK_MENU);
    push_vk_if(&mut v, m & 0x40 != 0, VK_MENU);
    push_vk_if(&mut v, m & 0x08 != 0, VK_LWIN);
    push_vk_if(&mut v, m & 0x80 != 0, VK_RWIN);
    v
}

/// The virtual keys a hub keyboard report holds down: those of its
/// keycodes, then those of its modifier bits. The hook suppresses exactly
/// these keys until the next keyboard report.
pub fn hub_vk_codes(kb: &KeyboardReport) -> (r: Vec<u16>)
    ensures
        r@ == key_vks(kb.keycodes@) + modifier_vks(kb.modifier),
{
    let mut v: Vec<u16> = Vec::new();
    let mut i: usize = 0;
    while i < kb.keycodes.len()
        invariant
            i <= kb.keycodes@.len(),
            v@ == key_vks(kb.keycodes@.take(i as int)),
        decreases kb.keycodes@.len() - i,
    {
        assert(kb.keycodes@.take(i + 1).drop_last() == kb.keycodes@.take(i as int));
        if let Some(vk) = hid_kbd_usage_to_vk(kb.keycodes[i].0) {
            v.push(vk);
        }
        i = i + 1;
    }
    assert(kb.keycodes@.take(kb.keycodes@.len() as int) == kb.keycodes@);
    let mut mods = modifier_vk_list(kb.modifier);
    v.append(&mut mods);
    v
}

/// Whether the low-level keyboard hook swallows an event: only actions
/// (`HC_ACTION`) that were not injected by software and whose key the hub
/// currently holds.
pub open spec fn hook_swallows(code: i32, flags: u32, vk_code: u32, hub_vks: Seq<u16>) -> bool {
    &&& code == HC_ACTION
    &&& flags & LLKHF_INJECTED == 0
    &&& flags & LLKHF_LOWER_IL_INJECTED == 0
    &&& hub_vks.contains(vk_code as u16)
}

/// Whether the low-level keyboard hook swallows a keyboard event.
pub fn hook_blocks(code: i32, flags: u32, vk_code: u32, hub_vks: &[u16]) -> (r: bool)
    ensures
        r == hook_swallows(code, flags, vk_code, hub_vks@),
{
    if code != HC_ACTION {
        return false;
    }
    if flags & LLKHF_INJECTED != 0 || flags & LLKHF_LOWER_IL_INJECTED != 0 {
        return false;
    }
    let vk = vk_code as u16;
    let mut i: usize = 0;
    while i < hub_vks.len()
        invariant
            code == HC_ACTION,
            flags & LLKHF_INJECTED == 0,
            flags & LLKHF_LOWER_IL_INJECTED == 0,
            i <= hub_vks@.len(),
            vk == vk_code as u16,
            forall|j: int| 0 <= j < i ==> hub_vks@[j] != vk,
        decreases hub_vks@.len() - i,
    {
        if hub_vks[i] == vk {
            assert(hub_vks@[i as int] == vk_code as u16);
            return true;
        }
        i = i + 1;
    }
    false
}

/// Keys that software injected (the engine's own output among them) always
/// pass the hook; only hardware events of held hub keys are swallowed.
pub proof fn lemma_injected_keys_pass(code: i32, flags: u32, vk_code: u32, hub_vks: Seq<u16>)
    ensures
        flags & LLKHF_INJECTED != 0 ==> !hook_swallows(code, flags, vk_code, hub_vks),
        flags & LLKHF_LOWER_IL_INJECTED != 0 ==> !hook_swallows(code, flags, vk_code, hub_vks),
        !hub_vks.contains(vk_code as u16) ==> !hook_swallows(code, flags, vk_code, hub_vks),
{
}

// ── Device identification ───────────────────────────────────────────────────

/// The hub controller (0x05AC:0x029C) and its audio chip (0x0C76:0x1710).
pub open spec fn hub_ids(vid: u32, pid: u32) -> bool {
    (vid == 0x05AC && pid == 0x029C) || (vid == 0x0C76 && pid == 0x1710)
}

/// Whether a raw-input device's vendor and product IDs are the hub's.
pub fn is_hub_device(vid: u32, pid: u32) -> (r: bool)
    ensures
        r == hub_ids(vid, pid),
{
    (vid == 0x05AC && pid == 0x029C) || (vid == 0x0C76 && pid == 0x1710)
}

/// Whether `needle` occurs in `hay` at some position.
pub open spec fn occurs_in(hay: Seq<char>, needle: Seq<char>) -> bool {
    exists|i: int| 0 <= i <= hay.len() - needle.len() && #[trigger] hay.subrange(i, i + needle.len()) == needle
}

fn contains_chars(hay: &[char], needle: &[char]) -> (r: bool)
    ensures
        r == occurs_in(hay@, needle@),
{
    if needle.len() > hay.len() {
        return false;
    }
    let mut i: usize = 0;
    while i <= hay.len() - needle.len()
        invariant
            needle@.len() <= hay@.len(),
            i <= hay@.len() - needle@.len() + 1,
            forall|j: int| 0 <= j < i ==> #[trigger] hay@.subrange(j, j + needle@.len()) != needle@,
        decreases hay@.len() - needle@.len() + 1 - i,
    {
        let mut k: usize = 0;
        let mut same = true;
        while k < needle.len()
            invariant
                hay@.len() == hay.len(),
                needle@.len() == needle.len(),
                i + needle@.len() <= hay@.len(),
                k <= needle@.len(),
                same == (forall|t: int| 0 <= t < k ==> hay@[i + t] == needle@[t]),
            decreases needle@.len() - k,
        {
            if hay[i + k] != needle[k] {
                same = false;
            }
            k = k + 1;
        }
        if same {
            assert(hay@.subrange(i as int, i + needle@.len()) =~= needle@);
            return true;
        }
        proof {
            if hay@.subrange(i as int, i + needle@.len()) == needle@ {
                assert forall|t: int| 0 <= t < needle@.len() implies hay@[i + t] == needle@[t] by {
                    assert(hay@.subrange(i as int, i + needle@.len())[t] == hay@[i + t]);
                }
            }
        }
        i = i + 1;
    }
    false
}

/// Whether a device-interface name names one of the hub's vendors
/// (`VID_05AC` or `VID_0C76`); arrivals and removals of other devices are
/// ignored.
pub fn device_name_is_hub(name: &str) -> (r: bool)
    ensures
        r == (occurs_in(name@, seq!['V', 'I', 'D', '_', '0', '5', 'A', 'C']) || occurs_in(
            name@,
            seq!['V', 'I', 'D', '_', '0', 'C', '7', '6'],
        )),
{
    let chars = chars_of(name);
    let a: [char; 8] = ['V', 'I', 'D', '_', '0', '5', 'A', 'C'];
    let b: [char; 8] = ['V', 'I', 'D', '_', '0', 'C', '7', '6'];
    assert(a@ == seq!['V', 'I', 'D', '_', '0', '5', 'A', 'C']);
    assert(b@ == seq!['V', 'I', 'D', '_', '0', 'C', '7', '6']);
    contains_chars(chars.as_slice(), &a) || contains_chars(chars.as_slice(), &b)
}

/// The device-present flag after a device-change message: a hub removal
/// clears it, a hub arrival sets it, anything else leaves it (`None`).
pub fn device_presence_change(wparam: u32, is_hub: bool) -> (r: Option<bool>)
    ensures
        r == (if wparam == DBT_DEVICEREMOVECOMPLETE && is_hub {
            Some(false)
        } else if wparam == DBT_DEVICEARRIVAL && is_hub {
            Some(true)
        } else {
            None
        }),
{
    if wparam == DBT_DEVICEREMOVECOMPLETE && is_hub {
        Some(false)
    } else if wparam == DBT_DEVICEARRIVAL && is_hub {
        Some(true)
    } else {
        None
    }
}

// ── RAWHID payload ──────────────────────────────────────────────────────────

/// The little-endian `u32` at `buf[i..i+4]`.
pub open spec fn le32(buf: Seq<u8>, i: int) -> nat {
    (buf[i] + buf[i + 1] * 256 + buf[i + 2] * 65536 + buf[i + 3] * 16777216) as nat
}

/// The report a raw-input buffer carries after its header (which is
/// `hid_offset` bytes long): a `RAWHID` block with `dwSizeHid` and
/// `dwCount` (little-endian `u32`s) followed by `dwSizeHid * dwCount` bytes
/// of report data, parsed with the report ID in its first byte. `None` when
/// the block is truncated or empty.
pub open spec fn raw_input_result(r: Option<Report>, buf: Seq<u8>, hid_offset: int) -> bool {
    if hid_offset + 8 > buf.len() {
        r is None
    } else {
        let size = le32(buf, hid_offset);
        let count = le32(buf, hid_offset + 4);
        let begin = hid_offset + 8;
        if size == 0 || count == 0 || begin + size * count > buf.len() {
            r is None
        } else {
            let data = buf.subrange(begin, begin + size * count);
            r matches Some(rep) && parse_result(rep, data, data[0] as u32, data.len() as usize)
        }
    }
}

fn read_le32(buf: &[u8], i: usize) -> (r: u32)
    requires
        i + 4 <= buf@.len(),
    ensures
        r == le32(buf@, i as int),
{
    let b0 = buf[i] as u32;
    let b1 = buf[i + 1] as u32;
    let b2 = buf[i + 2] as u32;
    let b3 = buf[i + 3] as u32;
    b0 + b1 * 256 + b2 * 65536 + b3 * 16777216
}

/// The parsed report of a raw-input buffer whose header is `hid_offset`
/// bytes long.
pub fn raw_input_report(buf: &[u8], hid_offset: usize) -> (r: Option<Report>)
    ensures
        raw_input_result(r, buf@, hid_offset as int),
{
    if hid_offset > buf.len() || buf.len() - hid_offset < 8 {
        return None;
    }
    let size = read_le32(buf, hid_offset);
    let count = read_le32(buf, hid_offset + 4);
    if size == 0 || count == 0 {
        return None;
    }
    let begin = hid_offset + 8;
    assert(size as u64 * count as u64 <= 0xFFFF_FFFE_0000_0001u64) by (nonlinear_arith)
        requires
            size <= u32::MAX,
            count <= u32::MAX,
    ;
    let data_len: u64 = size as u64 * count as u64;
    assert(data_len >= 1) by (nonlinear_arith)
        requires
            data_len == size as u64 * count as u64,
            size >= 1,
            count >= 1,
    ;
    if (begin as u128) + (data_len as u128) > buf.len() as u128 {
        return None;
    }
    let end = begin + data_len as usize;
    let data = vstd::slice::slice_subrange(buf, begin, end);
    let report_id = data[0] as u32;
    Some(parse(data, report_id, data.len()))
}

// ── SendInput decisions ─────────────────────────────────────────────────────

/// The `dwFlags` of a key event: 0 for key-down, `KEYEVENTF_KEYUP` for key-up.
pub fn key_event_flags(down: bool) -> (r: u32)
    ensures
        r == (if down {
            0
        } else {
            KEYEVENTF_KEYUP
        }),
{
    if down {
        0
    } else {
        KEYEVENTF_KEYUP
    }
}

/// A key event when `cond`, else nothing.
pub open spec fn key_if(cond: bool, vk: u16, flags: u32) -> Seq<(u16, u32)> {
    if cond {
        seq![(vk, flags)]
    } else {
        Seq::empty()
    }
}

/// The key events of a combo: modifiers pressed (Ctrl, Shift, Alt, Win),
/// the key pressed and released, modifiers released in reverse order.
pub open spec fn combo_events(vk: u16, m: u8) -> Seq<(u16, u32)> {
    key_if(m & 1 != 0, VK_CONTROL, 0) + key_if(m & 2 != 0, VK_SHIFT, 0) + key_if(
        m & 4 != 0,
        VK_MENU,
        0,
    ) + key_if(m & 8 != 0, VK_LWIN, 0) + seq![(vk, 0u32), (vk, KEYEVENTF_KEYUP)] + key_if(
        m & 8 != 0,
        VK_LWIN,
        KEYEVENTF_KEYUP,
    ) + key_if(m & 4 != 0, VK_MENU, KEYEVENTF_KEYUP) + key_if(m & 2 != 0, VK_SHIFT, KEYEVENTF_KEYUP)
        + key_if(m & 1 != 0, VK_CONTROL, KEYEVENTF_KEYUP)
}

fn push_key_if(v: &mut Vec<(u16, u32)>, cond: bool, vk: u16, flags: u32)
    ensures
        final(v)@ == old(v)@ + key_if(cond, vk, flags),
{
    if cond {
        v.push((vk, flags));
    } else {
        assert(old(v)@ + Seq::<(u16, u32)>::empty() == old(v)@);
    }
}

/// The `(virtual key, flags)` events that inject a key combo.
pub fn combo_key_events(vk: u16, modifiers: u8) -> (r: Vec<(u16, u32)>)
    ensures
        r@ == combo_events(vk, modifiers),
{
    let m = modifiers;
    let mut v: Vec<(u16, u32)> = Vec::new();
    assert(v@ == Seq::<(u16, u32)>::empty());
    push_key_if(&mut v, m & 1 != 0, VK_CONTROL, 0);
    push_key_if(&mut v, m & 2 != 0, VK_SHIFT, 0);
    push_key_if(&mut v, m & 4 != 0, VK_MENU, 0);
    push_key_if(&mut v, m & 8 != 0, VK_LWIN, 0);
    let ghost pressed = v@;
    v.push((vk, 0));
    v.push((vk, KEYEVENTF_KEYUP));
    assert(v@ == pressed + seq![(vk, 0u32), (vk, KEYEVENTF_KEYUP)]);
    push_key_if(&mut v, m & 8 != 0, VK_LWIN, KEYEVENTF_KEYUP);
    push_key_if(&mut v, m & 4 != 0, VK_MENU, KEYEVENTF_KEYUP);
    push_key_if(&mut v, m & 2 != 0, VK_SHIFT, KEYEVENTF_KEYUP);
    push_key_if(&mut v, m & 1 != 0, VK_CONTROL, KEYEVENTF_KEYUP);
    assert(Seq::<(u16, u32)>::empty() + key_if(m & 1 != 0, VK_CONTROL, 0) == key_if(
        m & 1 != 0,
        VK_CONTROL,
        0,
    ));
    v
}

/// An injection error whose message is `text` followed by a number.
pub fn inject_error(text: &str, n: u128) -> (r: Error)
    ensures
        r matches Error::Inject(m) && m@ == text@ + decimal(n as nat),
{
    let mut m = string_of(text);
    push_decimal(&mut m, n);
    Error::Inject(m)
}

/// The media virtual key of an `NX_KEYTYPE_*` value (volume up, volume
/// down, mute, play/pause); others are refused.
pub fn media_key_vk(key_type: u8) -> (r: Result<u16, Error>)
    ensures
        key_type == 0 ==> r == Ok::<u16, Error>(VK_VOLUME_UP),
        key_type == 1 ==> r == Ok::<u16, Error>(VK_VOLUME_DOWN),
        key_type == 7 ==> r == Ok::<u16, Error>(VK_VOLUME_MUTE),
        key_type == 16 ==> r == Ok::<u16, Error>(VK_MEDIA_PLAY_PAUSE),
        !(key_type == 0 || key_type == 1 || key_type == 7 || key_type == 16) ==> (r matches Err(
            Error::Inject(m),
        ) && m@ == "unknown media key_type: "@ + decimal(key_type as nat)),
{
    if key_type == 0 {
        Ok(VK_VOLUME_UP)
    } else if key_type == 1 {
        Ok(VK_VOLUME_DOWN)
    } else if key_type == 7 {
        Ok(VK_VOLUME_MUTE)
    } else if key_type == 16 {
        Ok(VK_MEDIA_PLAY_PAUSE)
    } else {
        Err(inject_error("unknown media key_type: ", key_type as u128))
    }
}

/// What a system event does on Windows.
#[derive(Debug, Clone, Copy, PartialEq, Eq)]
pub enum WinSystemAction {
    /// Brightness: injected as the media key whose type is the event's data.
    MediaKey(u8),
    /// Sleep (`SetSuspendState`).
    Suspend,
    /// Restart (`ExitWindowsEx` with reboot).
    Reboot,
    /// Shutdown (`ExitWindowsEx` with shutdown).
    Shutdown,
}

/// The Windows action of a system event: brightness (53) becomes a media
/// key with the data's low byte as its type, sleep (11), restart (12) and
/// shutdown (13) their power actions; other subtypes are refused.
pub fn system_event_action(subtype: u16, data: i32) -> (r: Result<WinSystemAction, Error>)
    ensures
        subtype == 53 ==> r == Ok::<WinSystemAction, Error>(WinSystemAction::MediaKey(data as u8)),
        subtype == 11 ==> r == Ok::<WinSystemAction, Error>(WinSystemAction::Suspend),
        subtype == 12 ==> r == Ok::<WinSystemAction, Error>(WinSystemAction::Reboot),
        subtype == 13 ==> r == Ok::<WinSystemAction, Error>(WinSystemAction::Shutdown),
        !(subtype == 53 || subtype == 11 || subtype == 12 || subtype == 13) ==> (r matches Err(
            Error::Inject(m),
        ) && m@ == "system event subtype "@ + decimal(subtype as nat) + " not supported on Windows"@),
{
    if subtype == 53 {
        Ok(WinSystemAction::MediaKey(data as u8))
    } else if subtype == 11 {
        Ok(WinSystemAction::Suspend)
    } else if subtype == 12 {
        Ok(WinSystemAction::Reboot)
    } else if subtype == 13 {
        Ok(WinSystemAction::Shutdown)
    } else {
        let mut m = string_of("system event subtype ");
        push_decimal(&mut m, subtype as u128);
        crate::text::push_str(&mut m, " not supported on Windows");
        Err(Error::Inject(m))
    }
}

/// The down and up `dwFlags` of a mouse button (1 left, 2 right, 3 middle);
/// other buttons are refused.
pub fn mouse_button_flags(button: u8) -> (r: Result<(u32, u32), Error>)
    ensures
        button == 1 ==> r == Ok::<(u32, u32), Error>((MOUSEEVENTF_LEFTDOWN, MOUSEEVENTF_LEFTUP)),
        button == 2 ==> r == Ok::<(u32, u32), Error>((MOUSEEVENTF_RIGHTDOWN, MOUSEEVENTF_RIGHTUP)),
        button == 3 ==> r == Ok::<(u32, u32), Error>((MOUSEEVENTF_MIDDLEDOWN, MOUSEEVENTF_MIDDLEUP)),
        !(1 <= button <= 3) ==> (r matches Err(Error::Inject(m)) && m@ == "unknown mouse button: "@
            + decimal(button as nat)),
{
    if button == 1 {
        Ok((MOUSEEVENTF_LEFTDOWN, MOUSEEVENTF_LEFTUP))
    } else if button == 2 {
        Ok((MOUSEEVENTF_RIGHTDOWN, MOUSEEVENTF_RIGHTUP))
    } else if button == 3 {
        Ok((MOUSEEVENTF_MIDDLEDOWN, MOUSEEVENTF_MIDDLEUP))
    } else {
        Err(inject_error("unknown mouse button: ", button as u128))
    }
}


/// How many of the four modifier bits (1 Ctrl, 2 Shift, 4 Alt, 8 Win) are
/// set.
pub open spec fn modifier_count(m: u8) -> nat {
    (if m & 1 != 0 { 1nat } else { 0nat }) + (if m & 2 != 0 { 1nat } else { 0nat }) + (if m
        & 4 != 0 {
        1nat
    } else {
        0nat
    }) + (if m & 8 != 0 { 1nat } else { 0nat })
}

/// The key events of a combo hold each modifier across the key: first the
/// modifiers go down (VK_CONTROL 0x11 for bit 1, VK_SHIFT 0x10 for bit 2,
/// VK_MENU 0x12 for bit 4, VK_LWIN 0x5B for bit 8, and no other key), then
/// the key goes down and up, then the modifiers come up in reverse order.
pub proof fn lemma_combo_events_shape(vk: u16, m: u8)
    ensures
        ({
            let e = combo_events(vk, m);
            let n = modifier_count(m) as int;
            &&& e.len() == 2 * n + 2
            &&& e[n] == (vk, 0u32) && e[n + 1] == (vk, 2u32)
            &&& forall|i: int|
                0 <= i < n ==> (#[trigger] e[i]).1 == 0u32 && e[2 * n + 1 - i] == (e[i].0, 2u32)
                    && (e[i].0 == 0x11 || e[i].0 == 0x10 || e[i].0 == 0x12 || e[i].0 == 0x5B)
            &&& e.take(n).contains((0x11u16, 0u32)) == (m & 1 != 0)
            &&& e.take(n).contains((0x10u16, 0u32)) == (m & 2 != 0)
            &&& e.take(n).contains((0x12u16, 0u32)) == (m & 4 != 0)
            &&& e.take(n).contains((0x5Bu16, 0u32)) == (m & 8 != 0)
        }),
{
    let e = combo_events(vk, m);
    assert(KEYEVENTF_KEYUP == 2u32);
        if (m & 1 != 0) == false && (m & 2 != 0) == false && (m & 4 != 0) == false && (m & 8 != 0) == false {
            assert(e =~= seq![(vk, 0u32), (vk, 2u32)]);
            let d = Seq::<(u16, u32)>::empty();
            assert(e.take(0) =~= d);
            assert(!d.contains((0x11u16, 0u32)));
            assert(!d.contains((0x10u16, 0u32)));
            assert(!d.contains((0x12u16, 0u32)));
            assert(!d.contains((0x5Bu16, 0u32)));
        }
        if (m & 1 != 0) == true && (m & 2 != 0) == false && (m & 4 != 0) == false && (m & 8 != 0) == false {
            assert(e =~= seq![(0x11u16, 0u32), (vk, 0u32), (vk, 2u32), (0x11u16, 2u32)]);
            let d = seq![(0x11u16, 0u32)];
            assert(e.take(1) =~= d);
            assert(d[0] == (0x11u16, 0u32));
            assert(!d.contains((0x10u16, 0u32)));
            assert(!d.contains((0x12u16, 0u32)));
            assert(!d.contains((0x5Bu16, 0u32)));
        }
        if (m & 1 != 0) == false && (m & 2 != 0) == true && (m & 4 != 0) == false && (m & 8 != 0) == false {
            assert(e =~= seq![(0x10u16, 0u32), (vk, 0u32), (vk, 2u32), (0x10u16, 2u32)]);
            let d = seq![(0x10u16, 0u32)];
            assert(e.take(1) =~= d);
            assert(d[0] == (0x10u16, 0u32));
            assert(!d.contains((0x11u16, 0u32)));
            assert(!d.contains((0x12u16, 0u32)));
            assert(!d.contains((0x5Bu16, 0u32)));
        }
        if (m & 1 != 0) == true && (m & 2 != 0) == true && (m & 4 != 0) == false && (m & 8 != 0) == false {
            assert(e =~= seq![(0x11u16, 0u32), (0x10u16, 0u32), (vk, 0u32), (vk, 2u32), (0x10u16, 2u32), (0x11u16, 2u32)]);
            let d = seq![(0x11u16, 0u32), (0x10u16, 0u32)];
            assert(e.take(2) =~= d);
            assert(d[0] == (0x11u16, 0u32));
            assert(d[1] == (0x10u16, 0u32));
            assert(!d.contains((0x12u16, 0u32)));
            assert(!d.contains((0x5Bu16, 0u32)));
        }
        if (m & 1 != 0) == false && (m & 2 != 0) == false && (m & 4 != 0) == true && (m & 8 != 0) == false {
            assert(e =~= seq![(0x12u16, 0u32), (vk, 0u32), (vk, 2u32), (0x12u16, 2u32)]);
            let d = seq![(0x12u16, 0u32)];
            assert(e.take(1) =~= d);
            assert(d[0] == (0x12u16, 0u32));
            assert(!d.contains((0x11u16, 0u32)));
            assert(!d.contains((0x10u16, 0u32)));
            assert(!d.contains((0x5Bu16, 0u32)));
        }
        if (m & 1 != 0) == true && (m & 2 != 0) == false && (m & 4 != 0) == true && (m & 8 != 0) == false {
            assert(e =~= seq![(0x11u16, 0u32), (0x12u16, 0u32), (vk, 0u32), (vk, 2u32), (0x12u16, 2u32), (0x11u16, 2u32)]);
            let d = seq![(0x11u16, 0u32), (0x12u16, 0u32)];
            assert(e.take(2) =~= d);
            assert(d[0] == (0x11u16, 0u32));
            assert(d[1] == (0x12u16, 0u32));
            assert(!d.contains((0x10u16, 0u32)));
            assert(!d.contains((0x5Bu16, 0u32)));
        }
        if (m & 1 != 0) == false && (m & 2 != 0) == true && (m & 4 != 0) == true && (m & 8 != 0) == false {
            assert(e =~= seq![(0x10u16, 0u32), (0x12u16, 0u32), (vk, 0u32), (vk, 2u32), (0x12u16, 2u32), (0x10u16, 2u32)]);
            let d = seq![(0x10u16, 0u32), (0x12u16, 0u32)];
            assert(e.take(2) =~= d);
            assert(d[0] == (0x10u16, 0u32));
            assert(d[1] == (0x12u16, 0u32));
            assert(!d.contains((0x11u16, 0u32)));
            assert(!d.contains((0x5Bu16, 0u32)));
        }
        if (m & 1 != 0) == true && (m & 2 != 0) == true && (m & 4 != 0) == true && (m & 8 != 0) == false {
            assert(e =~= seq![(0x11u16, 0u32), (0x10u16, 0u32), (0x12u16, 0u32), (vk, 0u32), (vk, 2u32), (0x12u16, 2u32), (0x10u16, 2u32), (0x11u16, 2u32)]);
            let d = seq![(0x11u16, 0u32), (0x10u16, 0u32), (0x12u16, 0u32)];
            assert(e.take(3) =~= d);
            assert(d[0] == (0x11u16, 0u32));
            assert(d[1] == (0x10u16, 0u32));
            assert(d[2] == (0x12u16, 0u32));
            assert(!d.contains((0x5Bu16, 0u32)));
        }
        if (m & 1 != 0) == false && (m & 2 != 0) == false && (m & 4 != 0) == false && (m & 8 != 0) == true {
            assert(e =~= seq![(0x5Bu16, 0u32), (vk, 0u32), (vk, 2u32), (0x5Bu16, 2u32)]);
            let d = seq![(0x5Bu16, 0u32)];
            assert(e.take(1) =~= d);
            assert(d[0] == (0x5Bu16, 0u32));
            assert(!d.contains((0x11u16, 0u32)));
            assert(!d.contains((0x10u16, 0u32)));
            assert(!d.contains((0x12u16, 0u32)));
        }
        if (m & 1 != 0) == true && (m & 2 != 0) == false && (m & 4 != 0) == false && (m & 8 != 0) == true {
            assert(e =~= seq![(0x11u16, 0u32), (0x5Bu16, 0u32), (vk, 0u32), (vk, 2u32), (0x5Bu16, 2u32), (0x11u16, 2u32)]);
            let d = seq![(0x11u16, 0u32), (0x5Bu16, 0u32)];
            assert(e.take(2) =~= d);
            assert(d[0] == (0x11u16, 0u32));
            assert(d[1] == (0x5Bu16, 0u32));
            assert(!d.contains((0x10u16, 0u32)));
            assert(!d.contains((0x12u16, 0u32)));
        }
        if (m & 1 != 0) == false && (m & 2 != 0) == true && (m & 4 != 0) == false && (m & 8 != 0) == true {
            assert(e =~= seq![(0x10u16, 0u32), (0x5Bu16, 0u32), (vk, 0u32), (vk, 2u32), (0x5Bu16, 2u32), (0x10u16, 2u32)]);
            let d = seq![(0x10u16, 0u32), (0x5Bu16, 0u32)];
            assert(e.take(2) =~= d);
            assert(d[0] == (0x10u16, 0u32));
            assert(d[1] == (0x5Bu16, 0u32));
            assert(!d.contains((0x11u16, 0u32)));
            assert(!d.contains((0x12u16, 0u32)));
        }
        if (m & 1 != 0) == true && (m & 2 != 0) == true && (m & 4 != 0) == false && (m & 8 != 0) == true {
            assert(e =~= seq![(0x11u16, 0u32), (0x10u16, 0u32), (0x5Bu16, 0u32), (vk, 0u32), (vk, 2u32), (0x5Bu16, 2u32), (0x10u16, 2u32), (0x11u16, 2u32)]);
            let d = seq![(0x11u16, 0u32), (0x10u16, 0u32), (0x5Bu16, 0u32)];
            assert(e.take(3) =~= d);
            assert(d[0] == (0x11u16, 0u32));
            assert(d[1] == (0x10u16, 0u32));
            assert(d[2] == (0x5Bu16, 0u32));
            assert(!d.contains((0x12u16, 0u32)));
        }
        if (m & 1 != 0) == false && (m & 2 != 0) == false && (m & 4 != 0) == true && (m & 8 != 0) == true {
            assert(e =~= seq![(0x12u16, 0u32), (0x5Bu16, 0u32), (vk, 0u32), (vk, 2u32), (0x5Bu16, 2u32), (0x12u16, 2u32)]);
            let d = seq![(0x12u16, 0u32), (0x5Bu16, 0u32)];
            assert(e.take(2) =~= d);
            assert(d[0] == (0x12u16, 0u32));
            assert(d[1] == (0x5Bu16, 0u32));
            assert(!d.contains((0x11u16, 0u32)));
            assert(!d.contains((0x10u16, 0u32)));
        }
        if (m & 1 != 0) == true && (m & 2 != 0) == false && (m & 4 != 0) == true && (m & 8 != 0) == true {
            assert(e =~= seq![(0x11u16, 0u32), (0x12u16, 0u32), (0x5Bu16, 0u32), (vk, 0u32), (vk, 2u32), (0x5Bu16, 2u32), (0x12u16, 2u32), (0x11u16, 2u32)]);
            let d = seq![(0x11u16, 0u32), (0x12u16, 0u32), (0x5Bu16, 0u32)];
            assert(e.take(3) =~= d);
            assert(d[0] == (0x11u16, 0u32));
            assert(d[1] == (0x12u16, 0u32));
            assert(d[2] == (0x5Bu16, 0u32));
            assert(!d.contains((0x10u16, 0u32)));
        }
        if (m & 1 != 0) == false && (m & 2 != 0) == true && (m & 4 != 0) == true && (m & 8 != 0) == true {
            assert(e =~= seq![(0x10u16, 0u32), (0x12u16, 0u32), (0x5Bu16, 0u32), (vk, 0u32), (vk, 2u32), (0x5Bu16, 2u32), (0x12u16, 2u32), (0x10u16, 2u32)]);
            let d = seq![(0x10u16, 0u32), (0x12u16, 0u32), (0x5Bu16, 0u32)];
            assert(e.take(3) =~= d);
            assert(d[0] == (0x10u16, 0u32));
            assert(d[1] == (0x12u16, 0u32));
            assert(d[2] == (0x5Bu16, 0u32));
            assert(!d.contains((0x11u16, 0u32)));
        }
        if (m & 1 != 0) == true && (m & 2 != 0) == true && (m & 4 != 0) == true && (m & 8 != 0) == true {
            assert(e =~= seq![(0x11u16, 0u32), (0x10u16, 0u32), (0x12u16, 0u32), (0x5Bu16, 0u32), (vk, 0u32), (vk, 2u32), (0x5Bu16, 2u32), (0x12u16, 2u32), (0x10u16, 2u32), (0x11u16, 2u32)]);
            let d = seq![(0x11u16, 0u32), (0x10u16, 0u32), (0x12u16, 0u32), (0x5Bu16, 0u32)];
            assert(e.take(4) =~= d);
            assert(d[0] == (0x11u16, 0u32));
            assert(d[1] == (0x10u16, 0u32));
            assert(d[2] == (0x12u16, 0u32));
            assert(d[3] == (0x5Bu16, 0u32));
        }
}

/// The Windows virtual keys of the HID keyboard-page usages that are not
/// letters, digits 1–9 or F1–F12: 0 (VK_0), Enter (VK_RETURN), Escape,
/// Backspace, Tab, Space, the OEM punctuation keys, Caps Lock, Print Screen
/// (VK_SNAPSHOT 0x2C), Scroll Lock, Pause, Insert, Home, Page Up, Delete,
/// End, Page Down, the arrows, and the keypad keys 0x53–0x56.
pub open spec fn windows_usage_codes() -> Seq<(u8, u16)> {
    seq![
        (0x27u8, 0x30u16),
        (0x28u8, 0x0Du16),
        (0x29u8, 0x1Bu16),
        (0x2Au8, 0x08u16),
        (0x2Bu8, 0x09u16),
        (0x2Cu8, 0x20u16),
        (0x2Du8, 0xBDu16),
        (0x2Eu8, 0xBBu16),
        (0x2Fu8, 0xDBu16),
        (0x30u8, 0xDDu16),
        (0x31u8, 0xDCu16),
        (0x32u8, 0xDCu16),
        (0x33u8, 0xBAu16),
        (0x34u8, 0xDEu16),
        (0x35u8, 0xC0u16),
        (0x36u8, 0xBCu16),
        (0x37u8, 0xBEu16),
        (0x38u8, 0xBFu16),
        (0x39u8, 0x14u16),
        (0x46u8, 0x2Cu16),
        (0x47u8, 0x91u16),
        (0x48u8, 0x13u16),
        (0x49u8, 0x2Du16),
        (0x4Au8, 0x24u16),
        (0x4Bu8, 0x21u16),
        (0x4Cu8, 0x2Eu16),
        (0x4Du8, 0x23u16),
        (0x4Eu8, 0x22u16),
        (0x4Fu8, 0x27u16),
        (0x50u8, 0x25u16),
        (0x51u8, 0x28u16),
        (0x52u8, 0x26u16),
        (0x53u8, 0x62u16),
        (0x54u8, 0x64u16),
        (0x55u8, 0x66u16),
        (0x56u8, 0x68u16),
    ]
}

/// The usage table agrees with the HID keyboard page and the Windows
/// virtual keys point by point: letters A–Z (0x04–0x1D) give VK 'A'–'Z'
/// (0x41–0x5A), digits 1–9 (0x1E–0x26) give '1'–'9', F1–F12 (0x3A–0x45)
/// give VK_F1–VK_F12 (0x70–0x7B), and every other usage of the page gives
/// the key that [`windows_usage_codes`] lists for it.
pub proof fn lemma_usage_table_values(u: u8)
    ensures
        0x04 <= u <= 0x1D ==> usage_vk(u) == Some((0x41 + (u - 0x04)) as u16),
        0x1E <= u <= 0x26 ==> usage_vk(u) == Some((0x31 + (u - 0x1E)) as u16),
        0x3A <= u <= 0x45 ==> usage_vk(u) == Some((0x70 + (u - 0x3A)) as u16),
        forall|i: int|
            0 <= i < windows_usage_codes().len() ==> usage_vk(
                #[trigger] windows_usage_codes()[i].0,
            ) == Some(windows_usage_codes()[i].1),
{
    let t = windows_usage_codes();
    assert forall|i: int| 0 <= i < t.len() implies usage_vk(#[trigger] t[i].0) == Some(t[i].1) by {
    }
}

proof fn lemma_key_vks_contains(keys: Seq<KeyCode>, j: int)
    requires
        0 <= j < keys.len(),
        usage_vk(keys[j].0) is Some,
    ensures
        key_vks(keys).contains(usage_vk(keys[j].0)->0),
    decreases keys.len(),
{
    let rest = key_vks(keys.drop_last());
    if j == keys.len() - 1 {
        let vk = usage_vk(keys.last().0)->0;
        assert(key_vks(keys) == rest.push(vk));
        assert(rest.push(vk)[rest.len() as int] == vk);
    } else {
        assert(keys.drop_last()[j] == keys[j]);
        lemma_key_vks_contains(keys.drop_last(), j);
        let vk = usage_vk(keys[j].0)->0;
        let k = choose|k: int| 0 <= k < rest.len() && rest[k] == vk;
        match usage_vk(keys.last().0) {
            Some(v) => {
                assert(rest.push(v)[k] == vk);
            },
            None => {},
        }
    }
}

/// While the hub holds a key of the keyboard page, the hook swallows the
/// hardware events of its virtual key: for Print Screen (usage 0x46) that is
/// VK_SNAPSHOT 0x2C.
pub proof fn lemma_hook_swallows_hub_keys(kb: KeyboardReport, j: int, flags: u32)
    requires
        0 <= j < kb.keycodes@.len(),
        0x04 <= kb.keycodes@[j].0 <= 0x56,
        flags & 0x10 == 0,
        flags & 0x02 == 0,
    ensures
        hook_swallows(
            0,
            flags,
            usage_vk(kb.keycodes@[j].0)->0 as u32,
            key_vks(kb.keycodes@) + modifier_vks(kb.modifier),
        ),
        kb.keycodes@[j].0 == 0x46 ==> hook_swallows(
            0,
            flags,
            0x2C,
            key_vks(kb.keycodes@) + modifier_vks(kb.modifier),
        ),
{
    lemma_usage_table_complete(kb.keycodes@[j].0);
    lemma_usage_table_values(0x46);
    lemma_key_vks_contains(kb.keycodes@, j);
    let vks = key_vks(kb.keycodes@);
    let all = vks + modifier_vks(kb.modifier);
    let vk = usage_vk(kb.keycodes@[j].0)->0;
    let k = choose|k: int| 0 <= k < vks.len() && vks[k] == vk;
    assert(all[k] == vk);
    assert((vk as u32) as u16 == vk);
    assert(windows_usage_codes()[19] == (0x46u8, 0x2Cu16));
}
} // verus!
