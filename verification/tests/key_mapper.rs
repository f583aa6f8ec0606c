use hagibis_hub_mapper::config::types::{
    ButtonMappingSet, Config, DeviceConfig, LoggingConfig, Profile, TargetEvent,
};
use hagibis_hub_mapper::engine::key_mapper::ConfigKeyMapper;
use hagibis_hub_mapper::hid::KeyCode;

fn test_config() -> Config {
    Config {
        device: DeviceConfig { seize: vec![] },
        default: ButtonMappingSet {
            button_top_left: Some(TargetEvent::Keyboard {
                binding: "Shift+Cmd+N".into(),
                label: "New".into(),
            }),
            button_top_left_hold: Some(TargetEvent::Keyboard {
                binding: "Cmd+T".into(),
                label: "".into(),
            }),
            button_bottom_right: None,
            button_bottom_right_hold: None,
            play_pause: Some(TargetEvent::MediaKey { key_type: 16, label: "".into() }),
            knob_cw: Some(TargetEvent::MediaKey { key_type: 0, label: "Vol+".into() }),
            knob_ccw: None,
            knob_click: None,
        },
        profiles: vec![],
        logging: LoggingConfig { loglevel: "info".into() },
        allow_destructive: false,
    }
}

#[test]
fn resolve_default_when_no_focus() {
    let cfg = test_config();
    let m = ConfigKeyMapper::resolve(&cfg, None);
    assert_eq!(m.button_top_left.as_ref().unwrap().label(), "New");
}

#[test]
fn resolve_default_when_app_not_matched() {
    let cfg = test_config();
    let m = ConfigKeyMapper::resolve(&cfg, Some("com.unknown.App"));
    assert_eq!(m.button_top_left.as_ref().unwrap().label(), "New");
}

#[test]
fn resolve_profile_overrides_default() {
    let mut cfg = test_config();
    cfg.profiles.push(Profile {
        app_id: "com.app.Term".into(),
        app_name: "Term".into(),
        mappings: ButtonMappingSet {
            button_top_left: Some(TargetEvent::Keyboard {
                binding: "Cmd+N".into(),
                label: "TermWin".into(),
            }),
            button_top_left_hold: None,
            button_bottom_right: None,
            button_bottom_right_hold: None,
            play_pause: None,
            knob_cw: None,
            knob_ccw: None,
            knob_click: None,
        },
    });
    let m = ConfigKeyMapper::resolve(&cfg, Some("com.app.Term"));
    assert_eq!(m.button_top_left.as_ref().unwrap().label(), "TermWin");
    assert_eq!(m.button_top_left.as_ref().unwrap().label(), "TermWin");
    let binding = match m.button_top_left.as_ref().unwrap() {
        TargetEvent::Keyboard { binding, .. } => binding.as_str(),
        _ => "",
    };
    assert_eq!(binding, "Cmd+N");
    assert_eq!(m.button_top_left_hold.as_ref().unwrap().label(), "Cmd+T");
    assert_eq!(m.knob_cw.as_ref().unwrap().label(), "Vol+");
}

#[test]
fn map_keycode_known() {
    let mapping = test_config().default;
    assert!(ConfigKeyMapper::map_keycode(KeyCode(KeyCode::BTN_TOP_LEFT), &mapping).is_some());
    assert!(ConfigKeyMapper::map_keycode(KeyCode(KeyCode::BTN_TOP_LEFT_HOLD), &mapping).is_some());
    assert!(ConfigKeyMapper::map_keycode(KeyCode(KeyCode::BTN_BOTTOM_RIGHT), &mapping).is_none());
    assert!(ConfigKeyMapper::map_keycode(KeyCode(0x99), &mapping).is_none());
}

// ── Own tests ───────────────────────────────────────────────────────────────

fn empty_set() -> ButtonMappingSet {
    ButtonMappingSet {
        button_top_left: None,
        button_top_left_hold: None,
        button_bottom_right: None,
        button_bottom_right_hold: None,
        play_pause: None,
        knob_cw: None,
        knob_ccw: None,
        knob_click: None,
    }
}

#[test]
fn first_matching_profile_wins() {
    let mut cfg = test_config();
    let mut a = empty_set();
    a.knob_cw = Some(TargetEvent::MediaKey { key_type: 17, label: "".into() });
    let mut b = empty_set();
    b.knob_cw = Some(TargetEvent::MediaKey { key_type: 18, label: "".into() });
    cfg.profiles.push(Profile { app_id: "x".into(), app_name: "A".into(), mappings: a });
    cfg.profiles.push(Profile { app_id: "x".into(), app_name: "B".into(), mappings: b });
    let m = ConfigKeyMapper::resolve(&cfg, Some("x"));
    assert_eq!(m.knob_cw.as_ref().unwrap().label(), "Next");
    assert_eq!(m.play_pause.as_ref().unwrap().label(), "Play/Pause");
}

#[test]
fn merge_is_idempotent() {
    let cfg = test_config();
    let mut p = empty_set();
    p.knob_ccw = Some(TargetEvent::MediaKey { key_type: 1, label: "".into() });
    let once = p.merge(&cfg.default);
    let twice = once.merge(&cfg.default);
    assert_eq!(format!("{:?}", once), format!("{:?}", twice));
    assert_eq!(once.knob_ccw.as_ref().unwrap().label(), "Vol-");
    assert_eq!(once.button_top_left.as_ref().unwrap().label(), "New");
    assert!(once.knob_click.is_none());
}

#[test]
fn map_keycode_all_buttons() {
    let mut m = empty_set();
    m.button_bottom_right = Some(TargetEvent::Keyboard { binding: "A".into(), label: "".into() });
    m.button_bottom_right_hold =
        Some(TargetEvent::Keyboard { binding: "B".into(), label: "".into() });
    assert_eq!(
        ConfigKeyMapper::map_keycode(KeyCode(0x46), &m).unwrap().label(),
        "A"
    );
    assert_eq!(
        ConfigKeyMapper::map_keycode(KeyCode(0x20), &m).unwrap().label(),
        "B"
    );
    assert!(ConfigKeyMapper::map_keycode(KeyCode(0x04), &m).is_none());
}
