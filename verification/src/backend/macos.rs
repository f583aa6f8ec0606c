use vstd::prelude::*;

use crate::backend::windows::inject_error;
use crate::error::Error;
use crate::text::decimal;

verus! {

pub const CG_EVENT_FLAG_MASK_CONTROL: u64 = 0x40000;
pub const CG_EVENT_FLAG_MASK_SHIFT: u64 = 0x20000;
pub const CG_EVENT_FLAG_MASK_ALTERNATE: u64 = 0x80000;
pub const CG_EVENT_FLAG_MASK_COMMAND: u64 = 0x100000;
pub const CG_EVENT_LEFT_MOUSE_DOWN: u32 = 1;
pub const CG_EVENT_LEFT_MOUSE_UP: u32 = 2;
pub const CG_EVENT_RIGHT_MOUSE_DOWN: u32 = 3;
pub const CG_EVENT_RIGHT_MOUSE_UP: u32 = 4;
pub const CG_EVENT_OTHER_MOUSE_DOWN: u32 = 25;
pub const CG_EVENT_OTHER_MOUSE_UP: u32 = 26;
pub const CG_BUTTON_LEFT: u32 = 0;
pub const CG_BUTTON_RIGHT: u32 = 1;
pub const CG_BUTTON_CENTER: u32 = 2;

/// `flag` when `cond`, else 0.
pub open spec fn flag_if(cond: bool, flag: u64) -> u64 {
    if cond {
        flag
    } else {
        0
    }
}

/// The CGEventFlags of a USB HID modifier mask (1 Ctrl, 2 Shift, 4 Alt,
/// 8 Cmd).
pub open spec fn cg_flags(m: u8) -> u64 {
    flag_if(m & 1 != 0, CG_EVENT_FLAG_MASK_CONTROL) | flag_if(m & 2 != 0, CG_EVENT_FLAG_MASK_SHIFT)
        | flag_if(m & 4 != 0, CG_EVENT_FLAG_MASK_ALTERNATE) | flag_if(
        m & 8 != 0,
        CG_EVENT_FLAG_MASK_COMMAND,
    )
}

/// Convert USB HID modifier bits (1=Ctrl, 2=Shift, 4=Alt, 8=Super/Cmd) to
/// CGEventFlags for `CGEventSetFlags`.
pub fn modifier_mask_to_cgflags(mask: u8) -> (r: u64)
    ensures
        r == cg_flags(mask),
{
    let mut flags: u64 = 0;
    flags = flags | if mask & 1 != 0 {
        CG_EVENT_FLAG_MASK_CONTROL
    } else {
        0
    };
    assert(0u64 | flag_if(mask & 1 != 0, CG_EVENT_FLAG_MASK_CONTROL) == flag_if(
        mask & 1 != 0,
        CG_EVENT_FLAG_MASK_CONTROL,
    )) by (bit_vector);
    flags = flags | if mask & 2 != 0 {
        CG_EVENT_FLAG_MASK_SHIFT
    } else {
        0
    };
    flags = flags | if mask & 4 != 0 {
        CG_EVENT_FLAG_MASK_ALTERNATE
    } else {
        0
    };
    flags = flags | if mask & 8 != 0 {
        CG_EVENT_FLAG_MASK_COMMAND
    } else {
        0
    };
    flags
}

/// The media-key code posted for an `NX_KEYTYPE_*` value (volume up,
/// volume down, mute, play/pause are posted as themselves); others are
/// refused.
pub fn media_key_code(key_type: u8) -> (r: Result<i32, Error>)
    ensures
        (key_type == 0 || key_type == 1 || key_type == 7 || key_type == 16) ==> r == Ok::<
            i32,
            Error,
        >(key_type as i32),
        !(key_type == 0 || key_type == 1 || key_type == 7 || key_type == 16) ==> (r matches Err(
            Error::Inject(m),
        ) && m@ == "unknown media key_type: "@ + decimal(key_type as nat)),
{
    if key_type == 0 || key_type == 1 || key_type == 7 || key_type == 16 {
        Ok(key_type as i32)
    } else {
        Err(inject_error("unknown media key_type: ", key_type as u128))
    }
}

/// What a system event does on macOS.
#[derive(Debug, Clone, Copy, PartialEq, Eq)]
pub enum MacSystemAction {
    /// Brightness: the media key whose code is the event's data.
    MediaKey(i32),
    /// Sleep / restart / shutdown / eject: a system-defined event.
    SystemEvent(i32),
}

/// The macOS action of a system event: brightness (53) becomes the media
/// key with the event's data as its code, eject, sleep, restart and
/// shutdown (10–13) a system-defined event; other subtypes are refused.
pub fn system_event_action(subtype: u16, data: i32) -> (r: Result<MacSystemAction, Error>)
    ensures
        subtype == 53 ==> r == Ok::<MacSystemAction, Error>(MacSystemAction::MediaKey(data)),
        10 <= subtype <= 13 ==> r == Ok::<MacSystemAction, Error>(
            MacSystemAction::SystemEvent(subtype as i32),
        ),
        !(subtype == 53 || 10 <= subtype <= 13) ==> (r matches Err(Error::Inject(m)) && m@
            == "unknown system subtype: "@ + decimal(subtype as nat)),
{
    if subtype == 53 {
        Ok(MacSystemAction::MediaKey(data))
    } else if 10 <= subtype && subtype <= 13 {
        Ok(MacSystemAction::SystemEvent(subtype as i32))
    } else {
        Err(inject_error("unknown system subtype: ", subtype as u128))
    }
}

/// The down event type, up event type and button number of a mouse button
/// (1 left, 2 right, 3 middle); others are refused.
pub fn mouse_button_events(button: u8) -> (r: Result<(u32, u32, u32), Error>)
    ensures
        button == 1 ==> r == Ok::<(u32, u32, u32), Error>(
            (CG_EVENT_LEFT_MOUSE_DOWN, CG_EVENT_LEFT_MOUSE_UP, CG_BUTTON_LEFT),
        ),
        button == 2 ==> r == Ok::<(u32, u32, u32), Error>(
            (CG_EVENT_RIGHT_MOUSE_DOWN, CG_EVENT_RIGHT_MOUSE_UP, CG_BUTTON_RIGHT),
        ),
        button == 3 ==> r == Ok::<(u32, u32, u32), Error>(
            (CG_EVENT_OTHER_MOUSE_DOWN, CG_EVENT_OTHER_MOUSE_UP, CG_BUTTON_CENTER),
        ),
        !(1 <= button <= 3) ==> (r matches Err(Error::Inject(m)) && m@ == "unknown mouse button: "@
            + decimal(button as nat)),
{
    if button == 1 {
        Ok((CG_EVENT_LEFT_MOUSE_DOWN, CG_EVENT_LEFT_MOUSE_UP, CG_BUTTON_LEFT))
    } else if button == 2 {
        Ok((CG_EVENT_RIGHT_MOUSE_DOWN, CG_EVENT_RIGHT_MOUSE_UP, CG_BUTTON_RIGHT))
    } else if button == 3 {
        Ok((CG_EVENT_OTHER_MOUSE_DOWN, CG_EVENT_OTHER_MOUSE_UP, CG_BUTTON_CENTER))
    } else {
        Err(inject_error("unknown mouse button: ", button as u128))
    }
}


/// Each modifier bit sets exactly its own CGEventFlags mask and nothing
/// else: 1 (Ctrl) kCGEventFlagMaskControl 0x40000, 2 (Shift)
/// kCGEventFlagMaskShift 0x20000, 4 (Alt/Option) kCGEventFlagMaskAlternate
/// 0x80000, 8 (Cmd) kCGEventFlagMaskCommand 0x100000; the high bits of the
/// mask add no flag.
pub proof fn lemma_cg_flags_bits(m: u8)
    ensures
        (cg_flags(m) & 0x40000 != 0) == (m & 1 != 0),
        (cg_flags(m) & 0x20000 != 0) == (m & 2 != 0),
        (cg_flags(m) & 0x80000 != 0) == (m & 4 != 0),
        (cg_flags(m) & 0x100000 != 0) == (m & 8 != 0),
        cg_flags(m) & !0x1E0000u64 == 0,
        cg_flags(m) == cg_flags(m & 0x0F),
{
    let f = cg_flags(m);
    let b1 = m & 1 != 0;
    let b2 = m & 2 != 0;
    let b4 = m & 4 != 0;
    let b8 = m & 8 != 0;
    assert(f == (if b1 { 0x40000u64 } else { 0 }) | (if b2 { 0x20000u64 } else { 0 }) | (if b4 {
        0x80000u64
    } else {
        0
    }) | (if b8 { 0x100000u64 } else { 0 }));
    assert(((if b1 { 0x40000u64 } else { 0 }) | (if b2 { 0x20000u64 } else { 0 }) | (if b4 {
        0x80000u64
    } else {
        0
    }) | (if b8 { 0x100000u64 } else { 0 })) & 0x40000 != 0 <==> b1) by (bit_vector);
    assert(((if b1 { 0x40000u64 } else { 0 }) | (if b2 { 0x20000u64 } else { 0 }) | (if b4 {
        0x80000u64
    } else {
        0
    }) | (if b8 { 0x100000u64 } else { 0 })) & 0x20000 != 0 <==> b2) by (bit_vector);
    assert(((if b1 { 0x40000u64 } else { 0 }) | (if b2 { 0x20000u64 } else { 0 }) | (if b4 {
        0x80000u64
    } else {
        0
    }) | (if b8 { 0x100000u64 } else { 0 })) & 0x80000 != 0 <==> b4) by (bit_vector);
    assert(((if b1 { 0x40000u64 } else { 0 }) | (if b2 { 0x20000u64 } else { 0 }) | (if b4 {
        0x80000u64
    } else {
        0
    }) | (if b8 { 0x100000u64 } else { 0 })) & 0x100000 != 0 <==> b8) by (bit_vector);
    assert(((if b1 { 0x40000u64 } else { 0 }) | (if b2 { 0x20000u64 } else { 0 }) | (if b4 {
        0x80000u64
    } else {
        0
    }) | (if b8 { 0x100000u64 } else { 0 })) & !0x1E0000u64 == 0) by (bit_vector);
    assert((m & 0x0F) & 1 == m & 1 && (m & 0x0F) & 2 == m & 2 && (m & 0x0F) & 4 == m & 4 && (m
        & 0x0F) & 8 == m & 8) by (bit_vector);
}
} // verus!
