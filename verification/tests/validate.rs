use hagibis_hub_mapper::config::combo::Platform;
use hagibis_hub_mapper::config::types::{
    ButtonMappingSet, Config, DeviceConfig, LoggingConfig, Profile, TargetEvent,
};
use hagibis_hub_mapper::config::validate::{
    check_config, find_destructive_binding, startup_config, validate_bindings, Rejection,
};

fn empty_config() -> Config {
    Config {
        device: DeviceConfig { seize: vec![] },
        default: ButtonMappingSet {
            button_top_left: None,
            button_top_left_hold: None,
            button_bottom_right: None,
            button_bottom_right_hold: None,
            play_pause: None,
            knob_cw: None,
            knob_ccw: None,
            knob_click: None,
        },
        profiles: vec![],
        logging: LoggingConfig { loglevel: "info".into() },
        allow_destructive: false,
    }
}

fn mk_kb(binding: &str) -> TargetEvent {
    TargetEvent::Keyboard { binding: binding.into(), label: "".into() }
}

#[test]
fn validate_accepts_valid_bindings() {
    let mut config = empty_config();
    config.default.button_top_left = Some(mk_kb("Ctrl+Shift+Q"));
    config.default.button_top_left_hold = Some(mk_kb("Alt+Tab"));
    config.default.button_bottom_right = Some(mk_kb("Enter"));
    assert!(validate_bindings(&config, Platform::MacOs).is_ok());
}

#[test]
fn validate_rejects_unknown_key() {
    let mut config = empty_config();
    config.default.button_top_left = Some(mk_kb("BogusKey"));
    let err = validate_bindings(&config, Platform::MacOs).unwrap_err();
    assert_eq!(err, "BogusKey");
}

#[test]
fn validate_rejects_unknown_modifier() {
    let mut config = empty_config();
    config.default.button_top_left = Some(mk_kb("Ctrl+BogusModifier"));
    let err = validate_bindings(&config, Platform::MacOs).unwrap_err();
    assert_eq!(err, "Ctrl+BogusModifier");
}

#[test]
fn validate_rejects_multiple_invalid() {
    let mut config = empty_config();
    config.default.button_top_left = Some(mk_kb("NotAKey+NotAThing"));
    let err = validate_bindings(&config, Platform::MacOs).unwrap_err();
    assert_eq!(err, "NotAKey+NotAThing");
}

#[test]
fn validate_skips_empty_binding() {
    let mut config = empty_config();
    config.default.button_top_left =
        Some(TargetEvent::Keyboard { binding: "".into(), label: "".into() });
    assert!(validate_bindings(&config, Platform::MacOs).is_ok());
}

#[test]
fn validate_ignores_non_keyboard_events() {
    let mut config = empty_config();
    config.default.button_top_left = Some(TargetEvent::MediaKey { key_type: 0, label: "".into() });
    config.default.button_top_left_hold =
        Some(TargetEvent::SystemEvent { subtype: 11, data: 0, label: "".into() });
    config.default.button_bottom_right = Some(TargetEvent::MouseMove {
        dx: 10.0f64.to_bits(),
        dy: 0.0f64.to_bits(),
        label: "".into(),
    });
    config.default.button_bottom_right_hold =
        Some(TargetEvent::MouseClick { button: 1, x: None, y: None, label: "".into() });
    assert!(validate_bindings(&config, Platform::MacOs).is_ok());
}

#[test]
fn find_destructive_finds_shutdown() {
    let mut config = empty_config();
    config.default.button_top_left =
        Some(TargetEvent::SystemEvent { subtype: 13, data: 0, label: "".into() });
    let found = find_destructive_binding(&config);
    assert!(found.is_some());
    assert!(found.unwrap().contains("Shutdown"));
}

#[test]
fn find_destructive_finds_sleep() {
    let mut config = empty_config();
    config.default.button_bottom_right =
        Some(TargetEvent::SystemEvent { subtype: 11, data: 0, label: "Zzz".into() });
    let found = find_destructive_binding(&config);
    assert!(found.is_some());
    assert_eq!(found.unwrap(), "Zzz");
}

#[test]
fn find_destructive_returns_none_for_safe_config() {
    let mut config = empty_config();
    config.default.button_top_left = Some(mk_kb("Ctrl+Q"));
    config.default.button_top_left_hold =
        Some(TargetEvent::MediaKey { key_type: 16, label: "".into() });
    config.default.knob_cw = Some(TargetEvent::MouseMove {
        dx: 5.0f64.to_bits(),
        dy: 0.0f64.to_bits(),
        label: "".into(),
    });
    assert!(find_destructive_binding(&config).is_none());
}

#[test]
fn find_destructive_returns_none_for_eject() {
    let mut config = empty_config();
    config.default.button_top_left =
        Some(TargetEvent::SystemEvent { subtype: 10, data: 0, label: "".into() });
    assert!(find_destructive_binding(&config).is_none());
}

#[test]
fn find_destructive_scans_profiles_too() {
    let mut config = empty_config();
    config.profiles = vec![Profile {
        app_id: "com.example".into(),
        app_name: "Example".into(),
        mappings: ButtonMappingSet {
            button_top_left: Some(TargetEvent::SystemEvent {
                subtype: 12,
                data: 0,
                label: "Restart".into(),
            }),
            button_top_left_hold: None,
            button_bottom_right: None,
            button_bottom_right_hold: None,
            play_pause: None,
            knob_cw: None,
            knob_ccw: None,
            knob_click: None,
        },
    }];
    let found = find_destructive_binding(&config);
    assert!(found.is_some());
    assert_eq!(found.unwrap(), "Restart");
}

// ── Own tests ───────────────────────────────────────────────────────────────

#[test]
fn validate_reports_first_invalid_in_scan_order() {
    let mut config = empty_config();
    config.default.knob_click = Some(mk_kb("Second"));
    config.default.button_bottom_right = Some(mk_kb("First"));
    assert_eq!(validate_bindings(&config, Platform::MacOs).unwrap_err(), "First");
}

#[test]
fn validate_scans_profiles() {
    let mut config = empty_config();
    let mut p = empty_config().default;
    p.play_pause = Some(mk_kb("Ctrl+Nope"));
    config.profiles.push(Profile { app_id: "a".into(), app_name: "A".into(), mappings: p });
    assert_eq!(validate_bindings(&config, Platform::MacOs).unwrap_err(), "Ctrl+Nope");
}

#[test]
fn check_config_rejections() {
    let mut config = empty_config();
    config.default.button_top_left =
        Some(TargetEvent::SystemEvent { subtype: 13, data: 0, label: "".into() });
    match check_config(&config, Platform::MacOs) {
        Err(Rejection::Destructive(l)) => assert_eq!(l, "Shutdown"),
        other => panic!("unexpected {:?}", other),
    }
    config.allow_destructive = true;
    assert!(check_config(&config, Platform::MacOs).is_ok());
    config.default.button_top_left_hold = Some(mk_kb("Nope"));
    match check_config(&config, Platform::MacOs) {
        Err(Rejection::InvalidBinding(b)) => assert_eq!(b, "Nope"),
        other => panic!("unexpected {:?}", other),
    }
}

#[test]
fn startup_falls_back_to_defaults() {
    let mut loaded = empty_config();
    loaded.default.button_top_left = Some(mk_kb("Nope"));
    let mut defaults = empty_config();
    defaults.logging.loglevel = "debug".into();
    let (cfg, why) = startup_config(loaded, defaults, Platform::MacOs);
    assert_eq!(cfg.logging.loglevel, "debug");
    assert!(matches!(why, Some(Rejection::InvalidBinding(_))));

    let good = empty_config();
    let (cfg, why) = startup_config(good, empty_config(), Platform::MacOs);
    assert_eq!(cfg.logging.loglevel, "info");
    assert!(why.is_none());
}

#[test]
fn validation_follows_the_platform() {
    let mut config = empty_config();
    config.default.button_top_left = Some(mk_kb("Ctrl+Q"));
    assert!(validate_bindings(&config, Platform::MacOs).is_ok());
    assert!(validate_bindings(&config, Platform::Windows).is_ok());
    assert_eq!(validate_bindings(&config, Platform::Other).unwrap_err(), "Ctrl+Q");
    match check_config(&config, Platform::Other) {
        Err(Rejection::InvalidBinding(b)) => assert_eq!(b, "Ctrl+Q"),
        other => panic!("unexpected {:?}", other),
    }
}
