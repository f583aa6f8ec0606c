use hagibis_hub_mapper::hid::parser::parse;
use hagibis_hub_mapper::hid::{MediaKeysReport, Report};

#[test]
fn empty_buffer() {
    assert_eq!(parse(&[], 0, 0), Report::Unknown);
}

#[test]
fn report_id_vendor() {
    assert_eq!(parse(&[0x3F], 0x3F, 1), Report::Vendor);
}

#[test]
fn report_id_unknown() {
    assert_eq!(parse(&[0x99], 0x99, 1), Report::Unknown);
}

#[test]
fn if0_keyboard_no_modifiers() {
    let data = [0x00, 0x00, 0x0F, 0x00, 0x00, 0x00, 0x00, 0x00];
    if let Report::Keyboard(kb) = parse(&data, 0, 8) {
        assert_eq!(kb.modifier, 0);
        assert_eq!(kb.keycodes.len(), 1);
        assert_eq!(kb.keycodes[0].0, 0x0F);
    } else {
        panic!("expected Keyboard");
    }
}

#[test]
fn if0_keyboard_with_modifiers() {
    let data = [0x09, 0x00, 0x14, 0x00, 0x00, 0x00, 0x00, 0x00];
    if let Report::Keyboard(kb) = parse(&data, 0, 8) {
        assert_eq!(kb.modifier, 0x09);
        assert_eq!(kb.keycodes[0].0, 0x14);
    } else {
        panic!("expected Keyboard");
    }
}

#[test]
fn if0_keyboard_no_keys_pressed() {
    let data = [0x00, 0x00, 0x00, 0x00, 0x00, 0x00, 0x00, 0x00];
    if let Report::Keyboard(kb) = parse(&data, 0, 8) {
        assert_eq!(kb.modifier, 0);
        assert!(kb.keycodes.is_empty());
    } else {
        panic!("expected Keyboard");
    }
}

#[test]
fn if1_consumer_vol_up() {
    let data = [0x01, 0x00, 0x00, 0x00];
    if let Report::Consumer(c) = parse(&data, 0, 4) {
        assert!(c.bits.has_vol_up());
        assert!(!c.bits.has_vol_down());
    } else {
        panic!("expected Consumer");
    }
}

#[test]
fn if1_consumer_mute() {
    let data = [0x04, 0x00, 0x00, 0x00];
    if let Report::Consumer(c) = parse(&data, 0, 4) {
        assert!(c.bits.has_mute());
    } else {
        panic!("expected Consumer");
    }
}

#[test]
fn if1_consumer_play_pause() {
    let data = [0x40, 0x00, 0x00, 0x00];
    if let Report::Consumer(c) = parse(&data, 0, 4) {
        assert!(c.bits.has_play_pause());
    } else {
        panic!("expected Consumer");
    }
}

#[test]
fn if2_media_keys_play() {
    let data = [0x52, 0x01];
    if let Report::MediaKeys(mk) = parse(&data, 0x52, 2) {
        assert!(mk.play);
        assert!(!mk.fast_forward);
    } else {
        panic!("expected MediaKeys");
    }
}

#[test]
fn if2_media_keys_next_prev() {
    let data = [0x52, 0x18];
    if let Report::MediaKeys(mk) = parse(&data, 0x52, 2) {
        assert!(mk.next_track);
        assert!(mk.prev_track);
        assert!(!mk.play);
    } else {
        panic!("expected MediaKeys");
    }
}

#[test]
fn if2_keyboard_composite() {
    let data = [0x01, 0x08, 0x00, 0x46, 0x00, 0x00, 0x00, 0x00, 0x00, 0x00];
    if let Report::Keyboard(kb) = parse(&data, 0x01, 10) {
        assert_eq!(kb.modifier, 0x08);
        assert_eq!(kb.keycodes.len(), 1);
        assert_eq!(kb.keycodes[0].0, 0x46);
    } else {
        panic!("expected Keyboard in interface 2");
    }
}

// ── Edge cases ──────────────────────────────────────────────────────────────

#[test]
fn short_reports_are_unknown() {
    assert_eq!(parse(&[0x00, 0x00, 0x00], 0, 3), Report::Unknown);
    assert_eq!(parse(&[0x52], 0x52, 1), Report::Unknown);
    assert_eq!(parse(&[0x01, 0x02, 0x00, 0x04], 0x01, 4), Report::Unknown);
}

#[test]
fn keyboard_keeps_all_pressed_keys_in_slot_order() {
    let data = [0x00, 0x00, 0x04, 0x00, 0x05, 0x06, 0x00, 0x07];
    if let Report::Keyboard(kb) = parse(&data, 0, 8) {
        let codes: Vec<u8> = kb.keycodes.iter().map(|k| k.0).collect();
        assert_eq!(codes, vec![0x04, 0x05, 0x06, 0x07]);
    } else {
        panic!("expected Keyboard");
    }
}

#[test]
fn media_keys_all_bits() {
    assert_eq!(
        parse(&[0x52, 0x1F], 0x52, 2),
        Report::MediaKeys(MediaKeysReport {
            play: true,
            fast_forward: true,
            rewind: true,
            next_track: true,
            prev_track: true,
        })
    );
    assert_eq!(parse(&[0x52, 0xE0], 0x52, 2), Report::MediaKeys(MediaKeysReport::default()));
}

#[test]
fn vendor_report_even_if_long() {
    let data = [0x3Fu8; 65];
    assert_eq!(parse(&data, 0x3F, 65), Report::Vendor);
}
