use hagibis_hub_mapper::config::defaults::default_config_toml;
use hagibis_hub_mapper::config::types::{default_loglevel, DeviceMatch, LoggingConfig, TargetEvent};
use hagibis_hub_mapper::config::combo::parse_combo;
use hagibis_hub_mapper::text::cstr_copy_len;

fn dm(v: &str, p: &str) -> DeviceMatch {
    DeviceMatch { vendor_id: v.into(), product_id: p.into(), usage_page: None, usage: None }
}

#[test]
fn hex_ids() {
    let d = dm("0x05AC", "029C");
    assert_eq!(d.vendor_id_u16(), Some(0x05AC));
    assert_eq!(d.product_id_u16(), Some(0x029C));
    assert_eq!(dm(" 0x0c76 ", "x").vendor_id_u16(), Some(0x0C76));
    assert_eq!(dm("x", " 0C76").product_id_u16(), None);
    assert_eq!(dm("+ff", "").vendor_id_u16(), Some(0xFF));
    assert_eq!(dm("+", "").vendor_id_u16(), None);
    assert_eq!(dm("-1", "").vendor_id_u16(), None);
    assert_eq!(dm("0x", "").vendor_id_u16(), None);
    assert_eq!(dm("FFFF", "").vendor_id_u16(), Some(0xFFFF));
    assert_eq!(dm("10000", "").vendor_id_u16(), None);
    assert_eq!(dm("0000000000FFFF", "").vendor_id_u16(), Some(0xFFFF));
    assert_eq!(dm("0X05AC", "").vendor_id_u16(), None);
    assert_eq!(dm("", "").vendor_id_u16(), None);
}

#[test]
fn labels() {
    let e = TargetEvent::SystemEvent { subtype: 53, data: 2, label: "".into() };
    assert_eq!(e.label(), "Brightness");
    let e = TargetEvent::SystemEvent { subtype: 99, data: 2, label: "".into() };
    assert_eq!(e.label(), "SystemEvent");
    let e = TargetEvent::MediaKey { key_type: 18, label: "".into() };
    assert_eq!(e.label(), "Prev");
    let e = TargetEvent::MediaKey { key_type: 18, label: "Back".into() };
    assert_eq!(e.label(), "Back");
    let e = TargetEvent::MouseScroll { dx: 0, dy: 0, label: "".into() };
    assert_eq!(e.label(), "Mouse");
    assert!(TargetEvent::SystemEvent { subtype: 12, data: 0, label: "".into() }.is_destructive());
    assert!(!TargetEvent::SystemEvent { subtype: 1, data: 0, label: "".into() }.is_destructive());
    assert!(!TargetEvent::MediaKey { key_type: 6, label: "".into() }.is_destructive());
    match TargetEvent::default() {
        TargetEvent::Keyboard { binding, label } => assert!(binding.is_empty() && label.is_empty()),
        other => panic!("unexpected {:?}", other),
    }
}

#[test]
fn logging_defaults() {
    assert_eq!(default_loglevel(), "info");
    assert_eq!(LoggingConfig::default().loglevel, "info");
}

#[test]
fn default_config_is_valid_toml_with_valid_bindings() {
    let text = default_config_toml();
    let v: toml::Value = toml::from_str(&text).expect("default config TOML is valid");
    let default = v.get("default").unwrap().as_table().unwrap();
    assert_eq!(default.len(), 8);
    for (_, slot) in default {
        if slot.get("type").unwrap().as_str() == Some("Keyboard") {
            let b = slot.get("binding").unwrap().as_str().unwrap();
            assert!(parse_combo(b).is_some(), "{}", b);
        }
    }
    assert_eq!(v["logging"]["loglevel"].as_str(), Some("debug"));
    assert_eq!(v["device"]["seize"].as_array().unwrap().len(), 3);
}

#[test]
fn c_buffer_lengths() {
    assert_eq!(cstr_copy_len("hello", 10), 5);
    assert_eq!(cstr_copy_len("hello", 4), 3);
    assert_eq!(cstr_copy_len("hello", 1), 0);
    // "é" is two bytes: never split
    assert_eq!(cstr_copy_len("aé", 3), 1);
    assert_eq!(cstr_copy_len("aé", 4), 3);
    assert_eq!(cstr_copy_len("—", 3), 0);
}
