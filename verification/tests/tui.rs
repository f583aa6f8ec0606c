use hagibis_hub_mapper::config::types::{ButtonMappingSet, TargetEvent};
use hagibis_hub_mapper::hid::{ConsumerBits, ConsumerReport, KeyCode, KeyboardReport, Report};
use hagibis_hub_mapper::tui::{inner_pad, modifier_string, visual_width, TuiState, CYAN, GREEN, RESET};

fn chars(s: &str) -> Vec<char> {
    s.chars().collect()
}

#[test]
fn visual_width_ignores_escapes() {
    assert_eq!(visual_width(&chars("abc")), 3);
    assert_eq!(visual_width(&chars("\x1b[1;32m●\x1b[0m x")), 3);
    assert_eq!(visual_width(&chars("\x1b[31")), 0);
}

#[test]
fn inner_pad_pads_and_truncates() {
    let p: String = inner_pad(&chars("ab"), 5).into_iter().collect();
    assert_eq!(p, "ab   ");
    let p: String = inner_pad(&chars("abcdef"), 3).into_iter().collect();
    assert_eq!(p, "abc");
    let p: String = inner_pad(&chars("a\x1b[0mbcd"), 2).into_iter().collect();
    assert_eq!(p, "a\x1b[0mb");
    let p: String = inner_pad(&chars("abc"), 3).into_iter().collect();
    assert_eq!(p, "abc");
    for s in ["", "x", "\x1b[1;36m│\x1b[0m", "──────────", "a\x1b[2;37mb"] {
        for w in 0..12 {
            let p = inner_pad(&chars(s), w);
            assert_eq!(visual_width(&p), w, "{:?} {}", s, w);
        }
    }
}

#[test]
fn modifier_symbols() {
    assert_eq!(modifier_string(0), "—");
    assert_eq!(modifier_string(0x09), "⌃ ⌘");
    assert_eq!(modifier_string(0xFF), "⌃ ⇧ ⌥ ⌘ ⌃R ⇧R ⌥R ⌘R");
}

#[test]
fn new_state_and_update() {
    let mut t = TuiState::new();
    assert_eq!(t.btn_tl, "?");
    assert!(!t.seized);
    t.update(&Report::Consumer(ConsumerReport { bits: ConsumerBits(0x41) }));
    assert_eq!(t.consumer, 0x41);
    t.update(&Report::Keyboard(KeyboardReport { modifier: 2, keycodes: vec![KeyCode(0x14)] }));
    assert_eq!(t.keyboard.as_ref().unwrap().modifier, 2);
    t.update(&Report::Vendor);
    assert_eq!(t.consumer, 0x41);
}

#[test]
fn render_layout() {
    let mut t = TuiState::new();
    t.focused = "Safari".into();
    t.seized = true;
    t.update(&Report::Keyboard(KeyboardReport { modifier: 0x01, keycodes: vec![KeyCode(0x14)] }));
    let out = t.render();
    let lines: Vec<&str> = out.split('\n').collect();
    // clear+home, 17 framed/ruled lines, legend, final newline
    assert!(out.starts_with("\x1b[2J\x1b[H"));
    assert!(out.ends_with("remapping active\n"));
    assert!(out.contains(" App: Safari   Ctrl+C to exit"));
    assert!(out.contains("  Modifiers: ⌃"));
    assert!(out.contains(&format!("{}SEIZED{}", GREEN, RESET)));
    // every framed line has the same printable width
    let framed: Vec<&str> = lines.iter().copied().filter(|l| l.contains(CYAN)).collect();
    assert_eq!(framed.len(), 17);
    for l in &framed[1..] {
        assert_eq!(visual_width(&chars(l)), 68, "{:?}", l);
    }
    let title = framed[0].trim_start_matches("\x1b[2J\x1b[H");
    assert_eq!(visual_width(&chars(title)), 68);
    assert!(title.contains(&format!("{} HAGIBIS HUB MAPPER {}", " ".repeat(23), " ".repeat(21))));
}

#[test]
fn render_without_keyboard_or_seize() {
    let t = TuiState::new();
    let out = t.render();
    assert!(out.contains(" App: none   Ctrl+C to exit"));
    assert!(!out.contains("Modifiers"));
    assert!(out.ends_with("Status: monitoring (passive)\n"));
    assert!(out.contains("? "));
}

#[test]
fn show_mapping_labels() {
    let mut t = TuiState::new();
    let m = ButtonMappingSet {
        button_top_left: Some(TargetEvent::Keyboard { binding: "Cmd+N".into(), label: "".into() }),
        button_top_left_hold: None,
        button_bottom_right: Some(TargetEvent::MediaKey { key_type: 99, label: "".into() }),
        button_bottom_right_hold: Some(TargetEvent::MouseMove {
            dx: 1.0f64.to_bits(),
            dy: 1.0f64.to_bits(),
            label: "".into(),
        }),
        play_pause: None,
        knob_cw: None,
        knob_ccw: None,
        knob_click: None,
    };
    t.show_mapping(None, &m);
    assert_eq!(t.focused, "default");
    assert_eq!(t.btn_tl, "Cmd+N");
    assert_eq!(t.btn_tl_hold, "?");
    assert_eq!(t.btn_br, "MediaKey");
    assert_eq!(t.btn_br_hold, "Mouse");
    t.show_mapping(Some("Term"), &m);
    assert_eq!(t.focused, "Term");
}

#[test]
fn bullets_follow_their_own_keycodes() {
    let mut t = TuiState::new();
    t.btn_tl = "AA".into();
    t.btn_tl_hold = "BB".into();
    t.btn_br = "CC".into();
    t.btn_br_hold = "DD".into();
    t.keyboard = Some(KeyboardReport { modifier: 0, keycodes: vec![KeyCode(KeyCode::BTN_TOP_LEFT)] });
    let out = t.render();
    assert!(out.contains("\x1b[1;32m●\x1b[0m AA"));
    assert!(out.contains("\x1b[2;37m○\x1b[0m BB"));
    t.keyboard = Some(KeyboardReport {
        modifier: 0,
        keycodes: vec![KeyCode(KeyCode::BTN_TOP_LEFT_HOLD), KeyCode(KeyCode::BTN_BOTTOM_RIGHT_HOLD)],
    });
    let out = t.render();
    assert!(out.contains("\x1b[2;37m○\x1b[0m AA"));
    assert!(out.contains("\x1b[1;32m●\x1b[0m BB"));
    assert!(out.contains("\x1b[2;37m○\x1b[0m CC"));
    assert!(out.contains("\x1b[1;32m●\x1b[0m DD"));
}

#[test]
fn screen_lines_and_widths() {
    let mut t = TuiState::new();
    t.focused = "Mail".into();
    let out = t.render();
    assert!(out.starts_with("\x1b[2J\x1b[H") && out.ends_with('\n'));
    let ls: Vec<&str> = out.split_terminator('\n').collect();
    assert_eq!(ls.len(), 17);
    for l in &ls[..ls.len() - 1] {
        assert_eq!(visual_width(&chars(l)), 68, "{:?}", l);
    }
    t.update(&Report::Keyboard(KeyboardReport { modifier: 0, keycodes: vec![] }));
    let out = t.render();
    let ls: Vec<&str> = out.split_terminator('\n').collect();
    assert_eq!(ls.len(), 18);
    for l in &ls[..ls.len() - 1] {
        assert_eq!(visual_width(&chars(l)), 68, "{:?}", l);
    }
}
