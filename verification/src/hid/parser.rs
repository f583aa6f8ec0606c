use vstd::prelude::*;

use crate::hid::keycode::{ConsumerBits, KeyCode};
use crate::hid::report::{ConsumerReport, KeyboardReport, MediaKeysReport, Report};

verus! {

/// Report ID of the vendor collection of Interface 2.
pub const REPORT_ID_VENDOR: u32 = 0x3F;
/// Report ID of the media-key collection of Interface 2.
pub const REPORT_ID_MEDIA: u32 = 0x52;
/// Report ID of the composite keyboard collection of Interface 2.
pub const REPORT_ID_KEYBOARD: u32 = 0x01;

/// The keycodes of a 6KRO slot array: its non-zero bytes, in slot order.
pub open spec fn pressed_keys(slots: Seq<u8>) -> Seq<KeyCode>
    decreases slots.len(),
{
    if slots.len() == 0 {
        Seq::empty()
    } else {
        let rest = pressed_keys(slots.drop_last());
        if slots.last() != 0 {
            rest.push(KeyCode(slots.last()))
        } else {
            rest
        }
    }
}

/// Media-key flags decoded from the bitmask byte of report 0x52.
pub open spec fn media_keys_of(b: u8) -> MediaKeysReport {
    MediaKeysReport {
        play: b & 0x01 != 0,
        fast_forward: b & 0x02 != 0,
        rewind: b & 0x04 != 0,
        next_track: b & 0x08 != 0,
        prev_track: b & 0x10 != 0,
    }
}

/// A keyboard report with the given modifier and 6KRO slot bytes.
pub open spec fn is_keyboard_report(r: Report, modifier: u8, slots: Seq<u8>) -> bool {
    &&& r is Keyboard
    &&& r->Keyboard_0.modifier == modifier
    &&& r->Keyboard_0.keycodes@ == pressed_keys(slots)
}

/// What `parse` returns for a buffer, a report ID and a report length.
///
/// - empty buffer: `Unknown`;
/// - ID 0x3F: `Vendor`;
/// - ID 0x52: media keys from byte 1 when `report_len >= 2`, else `Unknown`;
/// - ID 0x01: keyboard (modifier byte 1, slots 3..9) when the buffer holds
///   at least 9 bytes, else `Unknown`;
/// - no ID (0): keyboard (modifier byte 0, slots 2..8) when `report_len >= 8`,
///   consumer bits from byte 0 when `report_len >= 4`, else `Unknown`;
/// - any other ID: `Unknown`.
pub open spec fn parse_result(r: Report, data: Seq<u8>, report_id: u32, report_len: usize) -> bool {
    if data.len() == 0 {
        r is Unknown
    } else if report_id == REPORT_ID_VENDOR {
        r is Vendor
    } else if report_id == REPORT_ID_MEDIA {
        if report_len >= 2 {
            r == Report::MediaKeys(media_keys_of(data[1]))
        } else {
            r is Unknown
        }
    } else if report_id == REPORT_ID_KEYBOARD {
        if data.len() >= 9 {
            is_keyboard_report(r, data[1], data.subrange(3, 9))
        } else {
            r is Unknown
        }
    } else if report_id == 0 {
        if report_len >= 8 {
            is_keyboard_report(r, data[0], data.subrange(2, 8))
        } else if report_len >= 4 {
            r == Report::Consumer(ConsumerReport { bits: ConsumerBits(data[0]) })
        } else {
            r is Unknown
        }
    } else {
        r is Unknown
    }
}

/// The non-zero bytes of `data[start..end]`, as keycodes.
fn collect_keys(data: &[u8], start: usize, end: usize) -> (keys: Vec<KeyCode>)
    requires
        start <= end <= data@.len(),
    ensures
        keys@ == pressed_keys(data@.subrange(start as int, end as int)),
{
    let mut keys: Vec<KeyCode> = Vec::new();
    let mut i = start;
    while i < end
        invariant
            start <= i <= end <= data@.len(),
            keys@ == pressed_keys(data@.subrange(start as int, i as int)),
        decreases end - i,
    {
        assert(data@.subrange(start as int, i + 1).drop_last() == data@.subrange(
            start as int,
            i as int,
        ));
        let b = data[i];
        if b != 0 {
            keys.push(KeyCode(b));
        }
        i = i + 1;
    }
    keys
}

/// Parse a raw HID input report buffer into a typed [`Report`].
///
/// The buffer includes the report ID byte when one is present (Interface 2);
/// Interfaces 0 and 1 and the audio chip have none (`report_id == 0`).
/// The buffer must be long enough for the bytes that `report_len` announces
/// where the parser reads them.
pub fn parse(data: &[u8], report_id: u32, report_len: usize) -> (r: Report)
    requires
        data@.len() > 0 && report_id == REPORT_ID_MEDIA && report_len >= 2 ==> data@.len() >= 2,
        data@.len() > 0 && report_id == 0 && report_len >= 8 ==> data@.len() >= 8,
    ensures
        parse_result(r, data@, report_id, report_len),
{
    if data.len() == 0 {
        return Report::Unknown;
    }
    if report_id == REPORT_ID_VENDOR {
        Report::Vendor
    } else if report_id == REPORT_ID_MEDIA {
        if report_len >= 2 {
            let b = data[1];
            Report::MediaKeys(
                MediaKeysReport {
                    play: b & 0x01 != 0,
                    fast_forward: b & 0x02 != 0,
                    rewind: b & 0x04 != 0,
                    next_track: b & 0x08 != 0,
                    prev_track: b & 0x10 != 0,
                },
            )
        } else {
            Report::Unknown
        }
    } else if report_id == REPORT_ID_KEYBOARD {
        if data.len() >= 9 {
            let modifier = data[1];
            let keycodes = collect_keys(data, 3, 9);
            Report::Keyboard(KeyboardReport { modifier, keycodes })
        } else {
            Report::Unknown
        }
    } else if report_id == 0 {
        if report_len >= 8 {
            let modifier = data[0];
            let keycodes = collect_keys(data, 2, 8);
            Report::Keyboard(KeyboardReport { modifier, keycodes })
        } else if report_len >= 4 {
            Report::Consumer(ConsumerReport { bits: ConsumerBits(data[0]) })
        } else {
            Report::Unknown
        }
    } else {
        Report::Unknown
    }
}

/// The keycodes of a slot array are its non-zero bytes: never more than
/// there are slots, none of them zero, and each one taken from a slot.
pub proof fn lemma_pressed_keys_nonzero(slots: Seq<u8>)
    ensures
        pressed_keys(slots).len() <= slots.len(),
        forall|i: int| 0 <= i < pressed_keys(slots).len() ==> pressed_keys(slots)[i].0 != 0,
        forall|i: int|
            0 <= i < pressed_keys(slots).len() ==> slots.contains(#[trigger] pressed_keys(slots)[i].0),
    decreases slots.len(),
{
    if slots.len() > 0 {
        let init = slots.drop_last();
        lemma_pressed_keys_nonzero(init);
        assert forall|i: int| 0 <= i < pressed_keys(init).len() implies slots.contains(
            pressed_keys(init)[i].0,
        ) by {
            let j = choose|j: int| 0 <= j < init.len() && init[j] == pressed_keys(init)[i].0;
            assert(slots[j] == init[j]);
        }
        assert(slots[slots.len() - 1] == slots.last());
    }
}

/// A keyboard report holds at most six keycodes, all non-zero.
pub proof fn lemma_keyboard_report_keys(r: Report, data: Seq<u8>, report_id: u32, report_len: usize)
    requires
        data.len() > 0 && report_id == 0 && report_len >= 8 ==> data.len() >= 8,
        parse_result(r, data, report_id, report_len),
        r is Keyboard,
    ensures
        r->Keyboard_0.keycodes@.len() <= 6,
        forall|i: int| 0 <= i < r->Keyboard_0.keycodes@.len() ==> r->Keyboard_0.keycodes@[i].0 != 0,
{
    if report_id == REPORT_ID_KEYBOARD {
        lemma_pressed_keys_nonzero(data.subrange(3, 9));
    } else {
        lemma_pressed_keys_nonzero(data.subrange(2, 8));
    }
}


/// The media-key report (ID 0x52) carries one key per bit of its second
/// byte: bit 0x01 Play/Pause, 0x02 Fast Forward, 0x04 Rewind, 0x08 Next
/// Track, 0x10 Previous Track; the other bits name no key.
pub proof fn lemma_media_key_bits(r: Report, data: Seq<u8>, report_len: usize)
    requires
        data.len() >= 2,
        report_len >= 2,
        parse_result(r, data, 0x52, report_len),
    ensures
        r matches Report::MediaKeys(mk) && mk.play == (data[1] & 0x01 != 0) && mk.fast_forward == (
        data[1] & 0x02 != 0) && mk.rewind == (data[1] & 0x04 != 0) && mk.next_track == (data[1]
            & 0x08 != 0) && mk.prev_track == (data[1] & 0x10 != 0),
{
}
} // verus!
