use hagibis_hub_mapper::backend::macos;
use hagibis_hub_mapper::backend::windows::{
    combo_key_events, device_name_is_hub, device_presence_change, hid_kbd_usage_to_vk,
    hook_blocks, hub_vk_codes, is_hub_device, key_event_flags, media_key_vk, mouse_button_flags,
    raw_input_report, system_event_action, WinSystemAction,
};
use hagibis_hub_mapper::error::Error;
use hagibis_hub_mapper::hid::{KeyCode, KeyboardReport, Report};

#[test]
fn usage_to_vk_table() {
    assert_eq!(hid_kbd_usage_to_vk(0x04), Some(0x41));
    assert_eq!(hid_kbd_usage_to_vk(0x1D), Some(0x5A));
    assert_eq!(hid_kbd_usage_to_vk(0x1E), Some(0x31));
    assert_eq!(hid_kbd_usage_to_vk(0x27), Some(0x30));
    assert_eq!(hid_kbd_usage_to_vk(0x2C), Some(0x20));
    assert_eq!(hid_kbd_usage_to_vk(0x32), Some(0xDC));
    for u in 0x04..=0x56u8 {
        assert!(hid_kbd_usage_to_vk(u).is_some(), "usage {:#x}", u);
    }
    assert_eq!(hid_kbd_usage_to_vk(0x45), Some(0x7B));
    assert_eq!(hid_kbd_usage_to_vk(0x56), Some(0x68));
    assert_eq!(hid_kbd_usage_to_vk(0x0F), Some(0x4C));
    assert_eq!(hid_kbd_usage_to_vk(0x00), None);
    assert_eq!(hid_kbd_usage_to_vk(0x57), None);
}

#[test]
fn hub_keys_and_hook() {
    let kb = KeyboardReport { modifier: 0x81, keycodes: vec![KeyCode(0x14), KeyCode(0x03)] };
    let vks = hub_vk_codes(&kb);
    assert_eq!(vks, vec![0x51, 0x11, 0x5C]);
    assert!(hook_blocks(0, 0, 0x51, &vks));
    assert!(hook_blocks(0, 0, 0x10051, &vks));
    assert!(!hook_blocks(0, 0x10, 0x51, &vks));
    assert!(!hook_blocks(0, 0x02, 0x51, &vks));
    assert!(!hook_blocks(1, 0, 0x51, &vks));
    assert!(!hook_blocks(0, 0, 0x41, &vks));
}

#[test]
fn device_identification() {
    assert!(is_hub_device(0x05AC, 0x029C));
    assert!(is_hub_device(0x0C76, 0x1710));
    assert!(!is_hub_device(0x05AC, 0x1710));
    assert!(device_name_is_hub(r"\\?\HID#VID_05AC&PID_029C#7&1"));
    assert!(device_name_is_hub("xxVID_0C76"));
    assert!(!device_name_is_hub("VID_05A"));
    assert!(!device_name_is_hub(""));
    assert_eq!(device_presence_change(0x8004, true), Some(false));
    assert_eq!(device_presence_change(0x8000, true), Some(true));
    assert_eq!(device_presence_change(0x8000, false), None);
    assert_eq!(device_presence_change(0x0007, true), None);
}

fn raw(header: usize, size: u32, count: u32, data: &[u8]) -> Vec<u8> {
    let mut v = vec![0xEEu8; header];
    v.extend_from_slice(&size.to_le_bytes());
    v.extend_from_slice(&count.to_le_bytes());
    v.extend_from_slice(data);
    v
}

#[test]
fn raw_input_payloads() {
    let buf = raw(24, 2, 1, &[0x52, 0x01]);
    match raw_input_report(&buf, 24) {
        Some(Report::MediaKeys(mk)) => assert!(mk.play),
        other => panic!("unexpected {:?}", other),
    }
    let buf = raw(24, 10, 1, &[0x01, 0x08, 0x00, 0x46, 0, 0, 0, 0, 0, 0]);
    match raw_input_report(&buf, 24) {
        Some(Report::Keyboard(kb)) => {
            assert_eq!(kb.modifier, 0x08);
            assert_eq!(kb.keycodes, vec![KeyCode(0x46)]);
        }
        other => panic!("unexpected {:?}", other),
    }
    assert!(raw_input_report(&raw(24, 0, 1, &[1]), 24).is_none());
    assert!(raw_input_report(&raw(24, 4, 0, &[1]), 24).is_none());
    assert!(raw_input_report(&raw(24, 4, 1, &[1, 2]), 24).is_none());
    assert!(raw_input_report(&[0u8; 30], 24).is_none());
    assert!(raw_input_report(&raw(24, u32::MAX, u32::MAX, &[1]), 24).is_none());
}

#[test]
fn sendinput_decisions() {
    assert_eq!(key_event_flags(true), 0);
    assert_eq!(key_event_flags(false), 2);
    assert_eq!(
        combo_key_events(0x51, 0x09),
        vec![(0x11, 0), (0x5B, 0), (0x51, 0), (0x51, 2), (0x5B, 2), (0x11, 2)]
    );
    assert_eq!(combo_key_events(0x41, 0), vec![(0x41, 0), (0x41, 2)]);
    assert_eq!(media_key_vk(16).unwrap(), 0xB3);
    match media_key_vk(5) {
        Err(Error::Inject(m)) => assert_eq!(m, "unknown media key_type: 5"),
        other => panic!("unexpected {:?}", other),
    }
    assert_eq!(system_event_action(53, 0x103).unwrap(), WinSystemAction::MediaKey(3));
    assert_eq!(system_event_action(13, 0).unwrap(), WinSystemAction::Shutdown);
    match system_event_action(10, 0) {
        Err(Error::Inject(m)) => assert_eq!(m, "system event subtype 10 not supported on Windows"),
        other => panic!("unexpected {:?}", other),
    }
    assert_eq!(mouse_button_flags(3).unwrap(), (0x20, 0x40));
    match mouse_button_flags(0) {
        Err(Error::Inject(m)) => assert_eq!(m, "unknown mouse button: 0"),
        other => panic!("unexpected {:?}", other),
    }
}

#[test]
fn cgevent_decisions() {
    assert_eq!(macos::modifier_mask_to_cgflags(0), 0);
    assert_eq!(macos::modifier_mask_to_cgflags(0x0A), 0x20000 | 0x100000);
    assert_eq!(macos::modifier_mask_to_cgflags(0xFF), 0x1E0000);
    assert_eq!(macos::media_key_code(7).unwrap(), 7);
    match macos::media_key_code(2) {
        Err(Error::Inject(m)) => assert_eq!(m, "unknown media key_type: 2"),
        other => panic!("unexpected {:?}", other),
    }
    assert_eq!(macos::system_event_action(53, 2).unwrap(), macos::MacSystemAction::MediaKey(2));
    assert_eq!(macos::system_event_action(11, 0).unwrap(), macos::MacSystemAction::SystemEvent(11));
    match macos::system_event_action(1, 0) {
        Err(Error::Inject(m)) => assert_eq!(m, "unknown system subtype: 1"),
        other => panic!("unexpected {:?}", other),
    }
    assert_eq!(macos::mouse_button_events(3).unwrap(), (25, 26, 2));
    assert!(macos::mouse_button_events(4).is_err());
}
