use hagibis_hub_mapper::config::combo::{
    combo_from_tokens, key_to_vk, lowercase_key_to_vk, parse_combo, parse_combo_on, ParsedCombo,
    Platform,
};

#[test]
fn single_key_lowercase() {
    let c = parse_combo("a").unwrap();
    assert!(c.modifiers == 0, "no modifiers");
}

#[test]
fn ctrl_key() {
    let c = parse_combo("Ctrl+q").unwrap();
    assert_eq!(c.modifiers, 1);
}

#[test]
fn shift_cmd_key() {
    let c = parse_combo("Shift+Cmd+N").unwrap();
    assert_eq!(c.modifiers, 2 | 8);
}

#[test]
fn all_modifiers() {
    let c = parse_combo("Ctrl+Shift+Alt+Super+Space").unwrap();
    assert_eq!(c.modifiers, 1 | 2 | 4 | 8);
}

#[test]
fn modifier_aliases() {
    assert_eq!(parse_combo("Command+x").unwrap().modifiers, 8);
    assert_eq!(parse_combo("Win+x").unwrap().modifiers, 8);
    assert_eq!(parse_combo("Meta+x").unwrap().modifiers, 8);
    assert_eq!(parse_combo("Option+x").unwrap().modifiers, 4);
    assert_eq!(parse_combo("Control+x").unwrap().modifiers, 1);
}

#[test]
fn named_keys() {
    assert!(parse_combo("Space").is_some());
    assert!(parse_combo("Enter").is_some());
    assert!(parse_combo("Escape").is_some());
    assert!(parse_combo("Backspace").is_some());
    assert!(parse_combo("Tab").is_some());
    assert!(parse_combo("Delete").is_some());
    assert!(parse_combo("Home").is_some());
    assert!(parse_combo("End").is_some());
    assert!(parse_combo("PageUp").is_some());
    assert!(parse_combo("PageDown").is_some());
    assert!(parse_combo("ArrowLeft").is_some());
    assert!(parse_combo("ArrowRight").is_some());
    assert!(parse_combo("ArrowUp").is_some());
    assert!(parse_combo("ArrowDown").is_some());
}

#[test]
fn case_insensitive() {
    assert_eq!(
        parse_combo("ctrl+q").unwrap().modifiers,
        parse_combo("Ctrl+Q").unwrap().modifiers,
    );
}

#[test]
fn whitespace_around_plus() {
    let c = parse_combo("Ctrl + Shift + N").unwrap();
    assert_eq!(c.modifiers, 1 | 2);
}

#[test]
fn function_keys() {
    for i in 1..=19 {
        let s = format!("F{}", i);
        assert!(parse_combo(&s).is_some(), "F{} failed", i);
    }
}

#[test]
fn digits() {
    for d in 0..=9 {
        let s = format!("{}", d);
        assert!(parse_combo(&s).is_some(), "digit {} failed", d);
    }
}

#[test]
fn unknown_modifier_returns_none() {
    assert!(parse_combo("Bogus+q").is_none());
}

#[test]
fn unknown_key_returns_none() {
    assert!(parse_combo("BogusKey").is_none());
}

#[test]
fn empty_string() {
    assert!(parse_combo("").is_none());
}

#[test]
fn only_modifiers_no_key() {
    assert!(parse_combo("Ctrl").is_none());
}

// ── Exact codes ─────────────────────────────────────────────────────────────

#[test]
fn macos_codes_exact() {
    let c = parse_combo("Shift+Cmd+N").unwrap();
    assert_eq!(c.vk, 0x2D);
    assert_eq!(parse_combo("a").unwrap().vk, 0x00);
    assert_eq!(parse_combo("Space").unwrap().vk, 0x31);
    assert_eq!(parse_combo("F19").unwrap().vk, 0x50);
    assert_eq!(parse_combo("Return").unwrap().vk, parse_combo("Enter").unwrap().vk);
    assert_eq!(parse_combo("left").unwrap().vk, 0x7B);
}

#[test]
fn windows_codes_exact() {
    let c = parse_combo_on("Ctrl+Q", Platform::Windows).unwrap();
    assert_eq!(c.vk, 0x51);
    assert_eq!(c.modifiers, 1);
    assert_eq!(parse_combo_on("0", Platform::Windows).unwrap().vk, 0x30);
    assert_eq!(parse_combo_on("esc", Platform::Windows).unwrap().vk, 0x1B);
    assert_eq!(parse_combo_on("F12", Platform::Windows).unwrap().vk, 0x7B);
}

#[test]
fn other_platform_has_no_keys() {
    assert!(parse_combo_on("a", Platform::Other).is_none());
    assert!(parse_combo_on("Ctrl+Space", Platform::Other).is_none());
}

#[test]
fn same_key_names_on_both_platforms() {
    for name in ["a", "z", "9", "F1", "F16", "PageDown", "del", "up", "Bogus", "", "F20"] {
        assert_eq!(
            parse_combo_on(name, Platform::MacOs).is_some(),
            parse_combo_on(name, Platform::Windows).is_some(),
            "{}",
            name
        );
    }
}

#[test]
fn modifiers_stay_in_low_bits() {
    let c = parse_combo("ctrl+ctrl+shift+alt+cmd+win+x").unwrap();
    assert_eq!(c.modifiers, 0x0F);
    assert_eq!(c.modifiers & 0xF0, 0);
}

#[test]
fn trailing_plus_has_no_key() {
    assert!(parse_combo("Ctrl+").is_none());
    assert!(parse_combo("+").is_none());
    assert!(parse_combo("Ctrl++Q").is_none());
}

#[test]
fn unicode_whitespace_is_trimmed() {
    let c = parse_combo("\u{3000}Ctrl\u{00A0}+\tq\n").unwrap();
    assert_eq!(c.modifiers, 1);
    assert_eq!(c.vk, 0x0C);
}

#[test]
fn kelvin_sign_lowercases_to_k() {
    // U+212A KELVIN SIGN lowercases to ASCII 'k'.
    let c = parse_combo("\u{212A}").unwrap();
    assert_eq!(c.vk, parse_combo("k").unwrap().vk);
}

#[test]
fn combo_from_lowercased_tokens() {
    let t = |s: &str| s.chars().collect::<Vec<char>>();
    assert_eq!(
        combo_from_tokens(Platform::MacOs, &[t("cmd"), t("shift"), t("q")]),
        Some(ParsedCombo { vk: 0x0C, modifiers: 10 })
    );
    assert_eq!(
        combo_from_tokens(Platform::Windows, &[t("ctrl"), t("q")]),
        Some(ParsedCombo { vk: 0x51, modifiers: 1 })
    );
    // names are matched as given: the caller lowercases them
    assert_eq!(combo_from_tokens(Platform::MacOs, &[t("Cmd"), t("q")]), None);
    assert_eq!(combo_from_tokens(Platform::MacOs, &[t("cmd"), t("Q")]), None);
    assert_eq!(combo_from_tokens(Platform::MacOs, &[]), None);
    assert_eq!(combo_from_tokens(Platform::MacOs, &[t("ctrl")]), None);
    // the parser lowercases before matching
    assert_eq!(parse_combo("CMD+SHIFT+Q"), Some(ParsedCombo { vk: 0x0C, modifiers: 10 }));
}

#[test]
fn key_names_ignore_case() {
    assert_eq!(key_to_vk(Platform::MacOs, "Q"), Some(0x0C));
    assert_eq!(key_to_vk(Platform::MacOs, "PageUp"), Some(0x74));
    assert_eq!(key_to_vk(Platform::MacOs, "Esc"), Some(0x35));
    for c in 'a'..='z' {
        let up = c.to_ascii_uppercase();
        assert_eq!(key_to_vk(Platform::Windows, &c.to_string()), Some(up as u16));
        assert_eq!(key_to_vk(Platform::Windows, &up.to_string()), Some(up as u16));
        assert_eq!(
            key_to_vk(Platform::MacOs, &c.to_string()),
            key_to_vk(Platform::MacOs, &up.to_string())
        );
    }
    for d in 0..=9u16 {
        assert_eq!(key_to_vk(Platform::Windows, &d.to_string()), Some(0x30 + d));
    }
    for n in 1..=19u16 {
        assert_eq!(key_to_vk(Platform::Windows, &format!("F{}", n)), Some(0x6F + n));
    }
    assert_eq!(key_to_vk(Platform::Windows, "ESC"), key_to_vk(Platform::Windows, "escape"));
    assert_eq!(key_to_vk(Platform::Windows, "Return"), key_to_vk(Platform::Windows, "enter"));
    assert_eq!(key_to_vk(Platform::Windows, "DEL"), key_to_vk(Platform::Windows, "delete"));
    assert_eq!(key_to_vk(Platform::Windows, "Left"), key_to_vk(Platform::Windows, "ArrowLeft"));
    assert_eq!(key_to_vk(Platform::Other, "A"), None);
    // the lowercase-only table, as the parser uses it after lowercasing
    assert_eq!(lowercase_key_to_vk(Platform::Windows, &['a']), Some(0x41));
    assert_eq!(lowercase_key_to_vk(Platform::Windows, &['A']), None);
}
