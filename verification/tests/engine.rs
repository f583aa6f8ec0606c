use hagibis_hub_mapper::backend::FocusedApp;
use hagibis_hub_mapper::config::combo::Platform;
use hagibis_hub_mapper::config::types::{
    ButtonMappingSet, Config, DeviceConfig, LoggingConfig, Profile, TargetEvent,
};
use hagibis_hub_mapper::engine::consumer::ConsumerHandler;
use hagibis_hub_mapper::engine::injector_util::{fire, InjectCall};
use hagibis_hub_mapper::engine::keyboard::KeyboardHandler;
use hagibis_hub_mapper::engine::status::Status;
use hagibis_hub_mapper::engine::Dispatcher;
use hagibis_hub_mapper::error::Error;
use hagibis_hub_mapper::hid::{ConsumerBits, ConsumerReport, KeyCode, KeyboardReport, Report};

fn kb(binding: &str) -> TargetEvent {
    TargetEvent::Keyboard { binding: binding.into(), label: "".into() }
}

fn media(key_type: u8) -> TargetEvent {
    TargetEvent::MediaKey { key_type, label: "".into() }
}

fn mapping() -> ButtonMappingSet {
    ButtonMappingSet {
        button_top_left: Some(kb("Shift+Cmd+N")),
        button_top_left_hold: Some(kb("Cmd+T")),
        button_bottom_right: Some(kb("Shift+Cmd+4")),
        button_bottom_right_hold: None,
        play_pause: Some(media(16)),
        knob_cw: Some(media(0)),
        knob_ccw: Some(media(1)),
        knob_click: Some(media(7)),
    }
}

fn config() -> Config {
    Config {
        device: DeviceConfig { seize: vec![] },
        default: mapping(),
        profiles: vec![],
        logging: LoggingConfig { loglevel: "info".into() },
        allow_destructive: false,
    }
}

fn labels(events: &[TargetEvent]) -> Vec<String> {
    events.iter().map(|e| e.label().to_string()).collect()
}

fn consumer(bits: u8) -> ConsumerReport {
    ConsumerReport { bits: ConsumerBits(bits) }
}

fn keyboard(keys: &[u8]) -> KeyboardReport {
    KeyboardReport { modifier: 0, keycodes: keys.iter().map(|&k| KeyCode(k)).collect() }
}

#[test]
fn fire_plain_key_is_down_then_up() {
    let calls = fire(&kb("a"), Platform::MacOs).unwrap();
    assert_eq!(
        calls,
        vec![InjectCall::Key { vk: 0x00, down: true }, InjectCall::Key { vk: 0x00, down: false }]
    );
}

#[test]
fn fire_combo_is_one_call() {
    let calls = fire(&kb("Ctrl+Q"), Platform::Windows).unwrap();
    assert_eq!(calls, vec![InjectCall::KeyCombo { vk: 0x51, modifiers: 1 }]);
}

#[test]
fn fire_invalid_binding_is_config_error() {
    match fire(&kb("Nope+Q"), Platform::MacOs) {
        Err(Error::Config(m)) => assert_eq!(m, "invalid binding: Nope+Q"),
        other => panic!("unexpected {:?}", other),
    }
}

#[test]
fn fire_other_events_pass_arguments() {
    assert_eq!(fire(&media(7), Platform::MacOs).unwrap(), vec![InjectCall::MediaKey { key_type: 7 }]);
    let ev = TargetEvent::SystemEvent { subtype: 53, data: 2, label: "".into() };
    assert_eq!(
        fire(&ev, Platform::MacOs).unwrap(),
        vec![InjectCall::SystemEvent { subtype: 53, data: 2 }]
    );
    let ev = TargetEvent::MouseScroll { dx: 0.0f64.to_bits(), dy: 3.0f64.to_bits(), label: "".into() };
    assert_eq!(
        fire(&ev, Platform::MacOs).unwrap(),
        vec![InjectCall::MouseScroll { dx: 0.0f64.to_bits(), dy: 3.0f64.to_bits() }]
    );
    let ev = TargetEvent::MouseClick {
        button: 2,
        x: Some(200.0f64.to_bits()),
        y: None,
        label: "".into(),
    };
    assert_eq!(
        fire(&ev, Platform::MacOs).unwrap(),
        vec![InjectCall::MouseClick { button: 2, x: Some(200.0f64.to_bits()), y: None }]
    );
}

#[test]
fn consumer_fires_on_rising_edges_only() {
    let m = mapping();
    let mut h = ConsumerHandler::new();
    assert_eq!(labels(&h.handle(&consumer(0x01), &m)), vec!["Vol+"]);
    // held: nothing more
    assert!(h.handle(&consumer(0x01), &m).is_empty());
    // released
    assert!(h.handle(&consumer(0x00), &m).is_empty());
    // several bits rise at once: fixed order
    assert_eq!(
        labels(&h.handle(&consumer(0x47), &m)),
        vec!["Vol+", "Vol-", "Mute", "Play/Pause"]
    );
    // 0x08 (unassigned) fires nothing
    assert!(h.handle(&consumer(0x08), &m).is_empty());
}

#[test]
fn consumer_edge() {
    assert!(ConsumerHandler::edge(0x00, 0x01, 0x01));
    assert!(!ConsumerHandler::edge(0x01, 0x01, 0x01));
    assert!(!ConsumerHandler::edge(0x01, 0x00, 0x01));
    assert!(ConsumerHandler::edge(0x02, 0x06, 0x04));
}

#[test]
fn keyboard_fires_new_keys_once() {
    let m = mapping();
    let mut h = KeyboardHandler::new();
    assert_eq!(labels(&h.handle(&keyboard(&[0x0F]), &m)), vec!["Shift+Cmd+N"]);
    assert!(h.handle(&keyboard(&[0x0F]), &m).is_empty());
    assert_eq!(labels(&h.handle(&keyboard(&[0x0F, 0x14]), &m)), vec!["Cmd+T"]);
    assert!(h.handle(&keyboard(&[]), &m).is_empty());
    // duplicates in one report fire once; unmapped keys fire nothing
    assert_eq!(labels(&h.handle(&keyboard(&[0x46, 0x46, 0x04, 0x20]), &m)), vec!["Shift+Cmd+4"]);
}

#[test]
fn dispatcher_routes_and_resolves_profile() {
    let mut cfg = config();
    let mut p = mapping();
    p.knob_cw = Some(media(17));
    cfg.profiles.push(Profile { app_id: "com.app".into(), app_name: "App".into(), mappings: p });
    let mut d = Dispatcher::new();
    let ev = d.dispatch(&Report::Consumer(consumer(0x01)), &cfg, Some("com.app"));
    assert_eq!(labels(&ev), vec!["Next"]);
    let ev = d.dispatch(&Report::Consumer(consumer(0x00)), &cfg, None);
    assert!(ev.is_empty());
    let ev = d.dispatch(&Report::Consumer(consumer(0x01)), &cfg, None);
    assert_eq!(labels(&ev), vec!["Vol+"]);
    let ev = d.dispatch(&Report::Keyboard(keyboard(&[0x0F])), &cfg, None);
    assert_eq!(labels(&ev), vec!["Shift+Cmd+N"]);
    assert!(d.dispatch(&Report::Vendor, &cfg, None).is_empty());
    assert!(d.dispatch(&Report::Unknown, &cfg, None).is_empty());
}

#[test]
fn status_idle_and_seeking() {
    let st = Status::idle();
    assert!(!st.running && !st.seized && !st.engine_present);
    assert_eq!(st.focused_app_name, "—");
    assert_eq!(st.btn_tl, "—");
    assert!(st.error.is_empty());
    let st = Status::seeking("no device".into());
    assert!(st.engine_present);
    assert_eq!(st.error, "no device");
    assert_eq!(st.play_pause, "—");
}

#[test]
fn status_cycle_labels_and_sticky_bits() {
    let cfg = config();
    let mut st = Status::idle();
    st.record_report(&Report::Consumer(consumer(0x04)));
    assert_eq!((st.consumer, st.consumer_sticky, st.consumer_hold), (0x04, 0x04, 3));
    st.record_report(&Report::Consumer(consumer(0x00)));
    assert_eq!((st.consumer, st.consumer_sticky, st.consumer_hold), (0x00, 0x04, 3));
    let app = FocusedApp { id: "com.x".into(), name: "X".into() };
    st.begin_cycle(Some(&app), &cfg);
    assert!(st.running && st.seized && st.engine_present);
    assert_eq!(st.focused_app_id, "com.x");
    assert_eq!(st.btn_tl, "Shift+Cmd+N");
    assert_eq!(st.btn_br_hold, "—");
    assert_eq!(st.knob_click, "Mute");
    assert_eq!((st.consumer_sticky, st.consumer_hold), (0x04, 2));
    st.begin_cycle(None, &cfg);
    assert_eq!(st.focused_app_id, "com.x");
    assert_eq!((st.consumer_sticky, st.consumer_hold), (0x04, 1));
    st.begin_cycle(None, &cfg);
    assert_eq!((st.consumer_sticky, st.consumer_hold), (0x00, 0));
    st.record_report(&Report::Keyboard(KeyboardReport {
        modifier: 0x09,
        keycodes: vec![KeyCode(0x14), KeyCode(0x0F)],
    }));
    assert_eq!(st.keyboard_keys, vec![0x14, 0x0F]);
    assert_eq!(st.keyboard_modifiers, 0x09);
}

#[test]
fn record_report_keeps_labels() {
    let mut st = Status::idle();
    st.begin_cycle(Some(&FocusedApp { id: "com.x".into(), name: "X".into() }), &config());
    let before = st.clone();
    st.record_report(&Report::Consumer(consumer(0x01)));
    st.record_report(&Report::Keyboard(keyboard(&[0x0F])));
    assert_eq!(st.btn_tl, before.btn_tl);
    assert_eq!(st.knob_cw, before.knob_cw);
    assert_eq!(st.play_pause, before.play_pause);
    assert_eq!(st.focused_app_name, "X");
    assert_eq!(st.error, before.error);
}
