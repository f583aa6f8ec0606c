//! Minimal terminal UI: renders the HID report state with ANSI escape codes.

use vstd::prelude::*;

use crate::config::types::{label_of, ButtonMappingSet, TargetEvent};
use crate::hid::keycode::KeyCode;
use crate::hid::report::{KeyboardReport, Report};
use crate::text::{push_char, push_chars, push_str, string_of};

verus! {

pub const CLEAR: &'static str = "\x1b[2J";
pub const HOME: &'static str = "\x1b[H";
pub const HIDE: &'static str = "\x1b[?25l";
pub const SHOW: &'static str = "\x1b[?25h";
pub const GREEN: &'static str = "\x1b[1;32m";
pub const DIM: &'static str = "\x1b[2;37m";
pub const CYAN: &'static str = "\x1b[1;36m";
pub const RESET: &'static str = "\x1b[0m";
pub const ON: &'static str = "●";
pub const OFF: &'static str = "○";
pub const TOP_LEFT: &'static str = "┌";
pub const TOP_RIGHT: &'static str = "┐";
pub const BOT_LEFT: &'static str = "└";
pub const BOT_RIGHT: &'static str = "┘";
pub const VERT: &'static str = "│";
pub const T_LEFT: &'static str = "├";
pub const T_RIGHT: &'static str = "┤";

/// Inner width of the frame (between the border characters).
pub const INNER: usize = 66;
/// Width of a framed line's content (inner width minus the padding spaces).
pub const PAD_WIDTH: usize = 64;

/// The ANSI escape character, which starts a sequence that ends at `m`.
pub open spec fn is_escape(c: char) -> bool {
    c == '\x1b'
}

/// Printable characters of `s`, ignoring ANSI sequences (`ESC ... m`);
/// `esc` says whether `s` starts inside such a sequence.
pub open spec fn visual_width_from(s: Seq<char>, esc: bool) -> nat
    decreases s.len(),
{
    if s.len() == 0 {
        0
    } else if esc {
        visual_width_from(s.drop_first(), s[0] != 'm')
    } else if is_escape(s[0]) {
        visual_width_from(s.drop_first(), true)
    } else {
        1 + visual_width_from(s.drop_first(), false)
    }
}

/// Printable characters of `s`, ignoring ANSI sequences.
pub open spec fn visual_width_of(s: Seq<char>) -> nat {
    visual_width_from(s, false)
}

/// Whether `s` ends inside an ANSI sequence (`esc`: it starts inside one).
pub open spec fn ends_in_escape(s: Seq<char>, esc: bool) -> bool
    decreases s.len(),
{
    if s.len() == 0 {
        esc
    } else if esc {
        ends_in_escape(s.drop_first(), s[0] != 'm')
    } else if is_escape(s[0]) {
        ends_in_escape(s.drop_first(), true)
    } else {
        ends_in_escape(s.drop_first(), false)
    }
}

/// `s` cut after `room` printable characters; ANSI sequences are kept whole.
pub open spec fn truncated_from(s: Seq<char>, esc: bool, room: nat) -> Seq<char>
    decreases s.len(),
{
    if s.len() == 0 {
        Seq::empty()
    } else if esc {
        seq![s[0]] + truncated_from(s.drop_first(), s[0] != 'm', room)
    } else if is_escape(s[0]) {
        seq![s[0]] + truncated_from(s.drop_first(), true, room)
    } else if room == 0 {
        Seq::empty()
    } else {
        seq![s[0]] + truncated_from(s.drop_first(), false, (room - 1) as nat)
    }
}

/// `n` copies of `c`.
pub open spec fn repeat_char(c: char, n: nat) -> Seq<char> {
    Seq::new(n, |i: int| c)
}

/// Whether `s` holds no escape character.
pub open spec fn no_escape(s: Seq<char>) -> bool {
    forall|i: int| 0 <= i < s.len() ==> !is_escape(#[trigger] s[i])
}

/// `s` padded with spaces (or cut) to exactly `width` printable characters.
pub open spec fn padded(s: Seq<char>, width: nat) -> Seq<char> {
    let vis = visual_width_of(s);
    if vis >= width {
        truncated_from(s, false, width)
    } else {
        s + repeat_char(' ', (width - vis) as nat)
    }
}

/// `s` left-aligned in a field of `width` characters (`{:<width}`).
pub open spec fn left_aligned(s: Seq<char>, width: nat) -> Seq<char> {
    if s.len() >= width {
        s
    } else {
        s + repeat_char(' ', (width - s.len()) as nat)
    }
}

/// `s` centred in a field of `width` characters (`{:^width}`): the extra
/// space on the left is half the padding, rounded down.
pub open spec fn centered(s: Seq<char>, width: nat) -> Seq<char> {
    if s.len() >= width {
        s
    } else {
        let pad = (width - s.len()) as nat;
        repeat_char(' ', pad / 2) + s + repeat_char(' ', (pad - pad / 2) as nat)
    }
}

/// A framed line: cyan border characters around the padded content.
pub open spec fn border_line(left: Seq<char>, right: Seq<char>, content: Seq<char>) -> Seq<char> {
    CYAN@ + left + RESET@ + seq![' '] + padded(content, PAD_WIDTH as nat) + seq![' '] + CYAN@
        + right + RESET@
}

/// A horizontal rule between two corner characters.
pub open spec fn rule_line(left: Seq<char>, right: Seq<char>, fill: Seq<char>) -> Seq<char> {
    CYAN@ + left + RESET@ + fill + CYAN@ + right + RESET@
}

/// A green filled dot for an active control, a dim hollow one otherwise.
pub open spec fn bullet_text(active: bool) -> Seq<char> {
    if active {
        GREEN@ + ON@ + RESET@
    } else {
        DIM@ + OFF@ + RESET@
    }
}

/// The symbols of the modifier bits that are set, left modifiers first.
pub open spec fn modifier_parts(m: u8) -> Seq<Seq<char>> {
    (if m & 0x01 != 0 { seq!["⌃"@] } else { Seq::empty() }) + (if m & 0x02 != 0 {
        seq!["⇧"@]
    } else {
        Seq::empty()
    }) + (if m & 0x04 != 0 { seq!["⌥"@] } else { Seq::empty() }) + (if m & 0x08 != 0 {
        seq!["⌘"@]
    } else {
        Seq::empty()
    }) + (if m & 0x10 != 0 { seq!["⌃R"@] } else { Seq::empty() }) + (if m & 0x20 != 0 {
        seq!["⇧R"@]
    } else {
        Seq::empty()
    }) + (if m & 0x40 != 0 { seq!["⌥R"@] } else { Seq::empty() }) + (if m & 0x80 != 0 {
        seq!["⌘R"@]
    } else {
        Seq::empty()
    })
}

/// Pieces joined with single spaces.
pub open spec fn joined(parts: Seq<Seq<char>>) -> Seq<char>
    decreases parts.len(),
{
    if parts.len() == 0 {
        Seq::empty()
    } else if parts.len() == 1 {
        parts[0]
    } else {
        joined(parts.drop_last()) + seq![' '] + parts.last()
    }
}

/// The modifier symbols of a modifier byte, or a dash when none is set.
pub open spec fn modifier_text(m: u8) -> Seq<char> {
    if modifier_parts(m).len() == 0 {
        "—"@
    } else {
        joined(modifier_parts(m))
    }
}

/// State the TUI needs to render.
pub struct TuiState {
    pub consumer: u8,
    pub keyboard: Option<KeyboardReport>,
    pub seized: bool,
    /// Focused app name (empty string = none / unknown).
    pub focused: String,
    /// Binding labels (updated each cycle from the active profile).
    pub btn_tl: String,
    pub btn_tl_hold: String,
    pub btn_br: String,
    pub btn_br_hold: String,
}

/// The keycodes of the last keyboard report, as bytes.
pub open spec fn shown_keys(st: TuiState) -> Seq<u8> {
    match st.keyboard {
        Some(kb) => kb.keycodes@.map_values(|k: crate::hid::keycode::KeyCode| k.0),
        None => Seq::empty(),
    }
}

/// One row of button states: two bullets with their labels.
pub open spec fn button_row(a: bool, label_a: Seq<char>, b: bool, label_b: Seq<char>) -> Seq<char> {
    "  "@ + bullet_text(a) + seq![' '] + left_aligned(label_a, 15) + "  "@ + bullet_text(b)
        + seq![' '] + label_b
}

/// The footer status text.
pub open spec fn status_text(seized: bool) -> Seq<char> {
    if seized {
        GREEN@ + "SEIZED"@ + RESET@ + " — remapping active"@
    } else {
        "monitoring (passive)"@
    }
}

/// The text of the focused-application line.
pub open spec fn app_line(st: TuiState) -> Seq<char> {
    let focus = if st.focused@.len() == 0 {
        "none"@
    } else {
        st.focused@
    };
    " App: "@ + focus + "   Ctrl+C to exit"@
}

/// `prefix` followed by the title line, the focused-app line and a rule.
pub open spec fn header_lines(prefix: Seq<char>, st: TuiState) -> Seq<char> {
    let nl = seq!['\n'];
    let s1 = prefix + border_line(TOP_LEFT@, TOP_RIGHT@, centered(" HAGIBIS HUB MAPPER "@, INNER as nat))
        + nl;
    let s2 = s1 + border_line(VERT@, VERT@, app_line(st)) + nl;
    s2 + rule_line(T_LEFT@, T_RIGHT@, repeat_char('─', INNER as nat)) + nl
}

/// `prefix` followed by the knob and media section and a blank line.
pub open spec fn knob_lines(prefix: Seq<char>, st: TuiState) -> Seq<char> {
    let nl = seq!['\n'];
    let s4 = prefix + border_line(VERT@, VERT@, "[Knob & Media]  Consumer reports"@) + nl;
    let s5 = s4 + border_line(
        VERT@,
        VERT@,
        "  Knob:  "@ + bullet_text(st.consumer & 0x01 != 0) + " Vol+  "@ + bullet_text(
            st.consumer & 0x02 != 0,
        ) + " Vol-  "@ + bullet_text(st.consumer & 0x04 != 0) + " Mute"@,
    ) + nl;
    let s6 = s5 + border_line(
        VERT@,
        VERT@,
        "  Media: "@ + bullet_text(st.consumer & 0x40 != 0) + " Play/Pause"@,
    ) + nl;
    s6 + border_line(VERT@, VERT@, Seq::empty()) + nl
}

/// `prefix` followed by the keyboard-button section (with the modifier line
/// when a keyboard report was seen).
pub open spec fn button_lines(prefix: Seq<char>, st: TuiState) -> Seq<char> {
    let nl = seq!['\n'];
    let keys = shown_keys(st);
    let s8 = prefix + border_line(VERT@, VERT@, "[Keyboard Buttons]  Physical state"@) + nl;
    let s9 = s8 + border_line(
        VERT@,
        VERT@,
        button_row(
            keys.contains(KeyCode::BTN_TOP_LEFT),
            st.btn_tl@,
            keys.contains(KeyCode::BTN_TOP_LEFT_HOLD),
            st.btn_tl_hold@,
        ),
    ) + nl;
    let s10 = s9 + border_line(
        VERT@,
        VERT@,
        button_row(
            keys.contains(KeyCode::BTN_BOTTOM_RIGHT),
            st.btn_br@,
            keys.contains(KeyCode::BTN_BOTTOM_RIGHT_HOLD),
            st.btn_br_hold@,
        ),
    ) + nl;
    match st.keyboard {
        Some(kb) => s10 + border_line(VERT@, VERT@, "  Modifiers: "@ + modifier_text(kb.modifier))
            + nl,
        None => s10,
    }
}

/// `prefix` followed by `n` blank framed lines.
pub open spec fn blank_lines(prefix: Seq<char>, n: nat) -> Seq<char>
    decreases n,
{
    if n == 0 {
        prefix
    } else {
        blank_lines(prefix, (n - 1) as nat) + border_line(VERT@, VERT@, Seq::empty()) + seq!['\n']
    }
}

/// `prefix` followed by five blank lines, the bottom rule and the legend
/// with the seizure status.
pub open spec fn footer_lines(prefix: Seq<char>, st: TuiState) -> Seq<char> {
    let nl = seq!['\n'];
    let s12 = blank_lines(prefix, 5);
    let s13 = s12 + rule_line(BOT_LEFT@, BOT_RIGHT@, repeat_char('─', INNER as nat)) + nl;
    s13 + "  "@ + GREEN@ + "●"@ + RESET@ + "=active  "@ + DIM@ + "○"@ + RESET@
        + "=inactive  Status: "@ + status_text(st.seized) + nl
}

/// The screen as the drawing steps produce it, section by section.
pub open spec fn drawn(st: TuiState) -> Seq<char> {
    footer_lines(button_lines(knob_lines(header_lines(CLEAR@ + HOME@, st), st), st), st)
}

/// Lines, each followed by a line break.
pub open spec fn lines_text(lines: Seq<Seq<char>>) -> Seq<char>
    decreases lines.len(),
{
    if lines.len() == 0 {
        Seq::empty()
    } else {
        lines_text(lines.drop_last()) + lines.last() + seq!['\n']
    }
}

/// A framed line with nothing in it.
pub open spec fn blank_box_line() -> Seq<char> {
    border_line(VERT@, VERT@, Seq::empty())
}

/// The knob line's text: a bullet for each of clockwise, counter-clockwise
/// and click.
pub open spec fn knob_text(st: TuiState) -> Seq<char> {
    "  Knob:  "@ + bullet_text(st.consumer & 0x01 != 0) + " Vol+  "@ + bullet_text(
        st.consumer & 0x02 != 0,
    ) + " Vol-  "@ + bullet_text(st.consumer & 0x04 != 0) + " Mute"@
}

/// The media line's text: the play/pause bullet.
pub open spec fn media_text(st: TuiState) -> Seq<char> {
    "  Media: "@ + bullet_text(st.consumer & 0x40 != 0) + " Play/Pause"@
}

/// The top-left button row: each bullet lit while its own keycode is held.
pub open spec fn top_row(st: TuiState) -> Seq<char> {
    button_row(
        shown_keys(st).contains(KeyCode::BTN_TOP_LEFT),
        st.btn_tl@,
        shown_keys(st).contains(KeyCode::BTN_TOP_LEFT_HOLD),
        st.btn_tl_hold@,
    )
}

/// The bottom-right button row.
pub open spec fn bottom_row(st: TuiState) -> Seq<char> {
    button_row(
        shown_keys(st).contains(KeyCode::BTN_BOTTOM_RIGHT),
        st.btn_br@,
        shown_keys(st).contains(KeyCode::BTN_BOTTOM_RIGHT_HOLD),
        st.btn_br_hold@,
    )
}

/// The title, focused-app line and rule.
pub open spec fn header_box(st: TuiState) -> Seq<Seq<char>> {
    seq![
        border_line(TOP_LEFT@, TOP_RIGHT@, centered(" HAGIBIS HUB MAPPER "@, INNER as nat)),
        border_line(VERT@, VERT@, app_line(st)),
        rule_line(T_LEFT@, T_RIGHT@, repeat_char('─', INNER as nat)),
    ]
}

/// The knob and media section and a blank line.
pub open spec fn knob_box(st: TuiState) -> Seq<Seq<char>> {
    seq![
        border_line(VERT@, VERT@, "[Knob & Media]  Consumer reports"@),
        border_line(VERT@, VERT@, knob_text(st)),
        border_line(VERT@, VERT@, media_text(st)),
        blank_box_line(),
    ]
}

/// The keyboard-button section, with the modifier line once a keyboard
/// report was seen.
pub open spec fn button_box(st: TuiState) -> Seq<Seq<char>> {
    let rows = seq![
        border_line(VERT@, VERT@, "[Keyboard Buttons]  Physical state"@),
        border_line(VERT@, VERT@, top_row(st)),
        border_line(VERT@, VERT@, bottom_row(st)),
    ];
    match st.keyboard {
        Some(kb) => rows.push(
            border_line(VERT@, VERT@, "  Modifiers: "@ + modifier_text(kb.modifier)),
        ),
        None => rows,
    }
}

/// Five blank lines and the bottom rule.
pub open spec fn footer_box() -> Seq<Seq<char>> {
    Seq::new(5, |i: int| blank_box_line()).push(
        rule_line(BOT_LEFT@, BOT_RIGHT@, repeat_char('─', INNER as nat)),
    )
}

/// Every framed or ruled line of the screen, top to bottom.
pub open spec fn box_lines(st: TuiState) -> Seq<Seq<char>> {
    header_box(st) + knob_box(st) + button_box(st) + footer_box()
}

/// The legend under the box, with the seizure status.
pub open spec fn legend_line(st: TuiState) -> Seq<char> {
    "  "@ + GREEN@ + "●"@ + RESET@ + "=active  "@ + DIM@ + "○"@ + RESET@ + "=inactive  Status: "@
        + status_text(st.seized)
}

/// The whole screen: clear and home, the box lines, the legend.
pub open spec fn screen(st: TuiState) -> Seq<char> {
    CLEAR@ + HOME@ + lines_text(box_lines(st)) + legend_line(st) + seq!['\n']
}

/// The lines of the screen as a terminal shows them: the first box line
/// after clear-and-home, the other box lines, then the legend.
pub open spec fn screen_lines(st: TuiState) -> Seq<Seq<char>> {
    let b = box_lines(st);
    seq![CLEAR@ + HOME@ + b[0]] + b.skip(1) + seq![legend_line(st)]
}

/// The label the TUI shows for a slot: its event's label, or `?`.
pub open spec fn cli_label(slot: Option<TargetEvent>) -> Seq<char> {
    match slot {
        Some(e) => label_of(e),
        None => "?"@,
    }
}

fn cli_label_text(slot: &Option<TargetEvent>) -> (r: String)
    ensures
        r@ == cli_label(*slot),
{
    match slot {
        Some(e) => string_of(e.label()),
        None => string_of("?"),
    }
}

/// Printable width of `s` (ANSI escape sequences do not count).
pub fn visual_width(s: &[char]) -> (r: usize)
    ensures
        r == visual_width_of(s@),
{
    let mut count: usize = 0;
    let mut esc = false;
    let mut i: usize = 0;
    assert(s@.skip(0) == s@);
    while i < s.len()
        invariant
            i <= s@.len(),
            count <= i,
            visual_width_of(s@) == count + visual_width_from(s@.skip(i as int), esc),
        decreases s@.len() - i,
    {
        assert(s@.skip(i as int).drop_first() == s@.skip(i + 1));
        assert(s@.skip(i as int)[0] == s@[i as int]);
        let c = s[i];
        if esc {
            esc = c != 'm';
        } else if c == '\x1b' {
            esc = true;
        } else {
            count = count + 1;
        }
        i = i + 1;
    }
    count
}

/// `s` padded with spaces to `width` printable characters, or cut after
/// `width` printable characters (escape sequences are kept whole).
pub fn inner_pad(s: &[char], width: usize) -> (r: Vec<char>)
    ensures
        r@ == padded(s@, width as nat),
        !ends_in_escape(s@, false) ==> visual_width_of(r@) == width,
        visual_width_of(s@) < width ==> r@ == s@ + repeat_char(
            ' ',
            (width - visual_width_of(s@)) as nat,
        ),
        no_escape(s@) && s@.len() >= width ==> r@ == s@.take(width as int),
{
    proof {
        lemma_pad_laws(s@, width as nat);
    }
    let vis = visual_width(s);
    let mut out: Vec<char> = Vec::new();
    if vis >= width {
        let mut esc = false;
        let mut room: usize = width;
        let mut i: usize = 0;
        assert(s@.skip(0) == s@);
        while i < s.len()
            invariant_except_break
                i <= s@.len(),
                room <= width,
                out@ + truncated_from(s@.skip(i as int), esc, room as nat) == truncated_from(
                    s@,
                    false,
                    width as nat,
                ),
            ensures
                out@ == truncated_from(s@, false, width as nat),
            decreases s@.len() - i,
        {
            let ghost rest = s@.skip(i as int);
            assert(rest.drop_first() == s@.skip(i + 1));
            assert(rest[0] == s@[i as int]);
            let c = s[i];
            if esc {
                out.push(c);
                esc = c != 'm';
                assert(out@ + truncated_from(s@.skip(i + 1), esc, room as nat) == truncated_from(
                    s@,
                    false,
                    width as nat,
                ));
            } else if c == '\x1b' {
                out.push(c);
                esc = true;
                assert(out@ + truncated_from(s@.skip(i + 1), esc, room as nat) == truncated_from(
                    s@,
                    false,
                    width as nat,
                ));
            } else {
                if room == 0 {
                    assert(out@ + Seq::<char>::empty() == out@);
                    break;
                }
                out.push(c);
                room = room - 1;
                assert(out@ + truncated_from(s@.skip(i + 1), esc, room as nat) == truncated_from(
                    s@,
                    false,
                    width as nat,
                ));
            }
            i = i + 1;
        }
        out
    } else {
        let mut i: usize = 0;
        while i < s.len()
            invariant
                i <= s@.len(),
                out@ == s@.take(i as int),
            decreases s@.len() - i,
        {
            out.push(s[i]);
            assert(s@.take(i + 1) == s@.take(i as int).push(s@[i as int]));
            i = i + 1;
        }
        assert(s@.take(s@.len() as int) == s@);
        let mut k: usize = 0;
        while k < width - vis
            invariant
                vis < width,
                k <= width - vis,
                out@ == s@ + repeat_char(' ', k as nat),
            decreases width - vis - k,
        {
            out.push(' ');
            assert(repeat_char(' ', (k + 1) as nat) == repeat_char(' ', k as nat).push(' '));
            k = k + 1;
        }
        out
    }
}

fn push_repeat(out: &mut String, c: char, n: usize)
    ensures
        final(out)@ == old(out)@ + repeat_char(c, n as nat),
{
    let mut k: usize = 0;
    while k < n
        invariant
            k <= n,
            out@ == old(out)@ + repeat_char(c, k as nat),
        decreases n - k,
    {
        push_char(out, c);
        assert(repeat_char(c, (k + 1) as nat) == repeat_char(c, k as nat).push(c));
        k = k + 1;
    }
}

fn push_left_aligned(out: &mut String, s: &str, width: usize)
    ensures
        final(out)@ == old(out)@ + left_aligned(s@, width as nat),
{
    push_str(out, s);
    let n = s.unicode_len();
    if n < width {
        push_repeat(out, ' ', width - n);
    } else {
        assert(old(out)@ + s@ == old(out)@ + left_aligned(s@, width as nat));
    }
}

fn push_centered(out: &mut String, s: &str, width: usize)
    ensures
        final(out)@ == old(out)@ + centered(s@, width as nat),
{
    let n = s.unicode_len();
    if n >= width {
        push_str(out, s);
    } else {
        let pad = width - n;
        push_repeat(out, ' ', pad / 2);
        push_str(out, s);
        push_repeat(out, ' ', pad - pad / 2);
    }
}

fn push_bullet(out: &mut String, active: bool)
    ensures
        final(out)@ == old(out)@ + bullet_text(active),
{
    if active {
        push_str(out, GREEN);
        push_str(out, ON);
        push_str(out, RESET);
    } else {
        push_str(out, DIM);
        push_str(out, OFF);
        push_str(out, RESET);
    }
}

fn push_symbol_if(parts: &mut Vec<&'static str>, cond: bool, sym: &'static str)
    ensures
        final(parts)@.map_values(|p: &str| p@) == old(parts)@.map_values(|p: &str| p@) + (if cond {
            seq![sym@]
        } else {
            Seq::empty()
        }),
{
    if cond {
        parts.push(sym);
        assert(parts@.map_values(|p: &str| p@) =~= old(parts)@.map_values(|p: &str| p@) + seq![
            sym@,
        ]);
    } else {
        assert(old(parts)@.map_values(|p: &str| p@) + Seq::<Seq<char>>::empty() == old(
            parts,
        )@.map_values(|p: &str| p@));
    }
}

/// The symbols of the modifier bits that are set, left modifiers first.
fn modifier_symbols(m: u8) -> (parts: Vec<&'static str>)
    ensures
        parts@.map_values(|p: &str| p@) == modifier_parts(m),
{
    let mut parts: Vec<&'static str> = Vec::new();
    assert(parts@.map_values(|p: &str| p@) =~= Seq::<Seq<char>>::empty());
    push_symbol_if(&mut parts, m & 0x01 != 0, "⌃");
    push_symbol_if(&mut parts, m & 0x02 != 0, "⇧");
    push_symbol_if(&mut parts, m & 0x04 != 0, "⌥");
    push_symbol_if(&mut parts, m & 0x08 != 0, "⌘");
    push_symbol_if(&mut parts, m & 0x10 != 0, "⌃R");
    push_symbol_if(&mut parts, m & 0x20 != 0, "⇧R");
    push_symbol_if(&mut parts, m & 0x40 != 0, "⌥R");
    push_symbol_if(&mut parts, m & 0x80 != 0, "⌘R");
    assert(Seq::<Seq<char>>::empty() + (if m & 0x01 != 0 {
        seq!["⌃"@]
    } else {
        Seq::empty()
    }) == (if m & 0x01 != 0 {
        seq!["⌃"@]
    } else {
        Seq::<Seq<char>>::empty()
    }));
    parts
}

/// The modifier symbols of a modifier byte, or a dash when none is set.
pub fn modifier_string(m: u8) -> (r: String)
    ensures
        r@ == modifier_text(m),
{
    let parts = modifier_symbols(m);
    let ghost views = parts@.map_values(|p: &str| p@);
    if parts.len() == 0 {
        return string_of("—");
    }
    let mut out = String::new();
    let mut i: usize = 0;
    while i < parts.len()
        invariant
            views == parts@.map_values(|p: &str| p@),
            i <= parts@.len(),
            out@ == joined(views.take(i as int)),
        decreases parts@.len() - i,
    {
        if i > 0 {
            push_char(&mut out, ' ');
        }
        push_str(&mut out, parts[i]);
        proof {
            let t = views.take(i + 1);
            assert(t.drop_last() == views.take(i as int));
            assert(t.last() == parts@[i as int]@);
            if i == 0 {
                assert(views.take(0).len() == 0);
                assert(out@ == t[0]);
            }
        }
        i = i + 1;
    }
    assert(views.take(parts@.len() as int) == views);
    out
}

fn border_into(out: &mut String, left: &str, right: &str, content: &[char])
    ensures
        final(out)@ == old(out)@ + border_line(left@, right@, content@),
{
    push_str(out, CYAN);
    push_str(out, left);
    push_str(out, RESET);
    push_char(out, ' ');
    let p = inner_pad(content, PAD_WIDTH);
    push_chars(out, p.as_slice());
    push_char(out, ' ');
    push_str(out, CYAN);
    push_str(out, right);
    push_str(out, RESET);
}

fn rule_into(out: &mut String, left: &str, right: &str)
    ensures
        final(out)@ == old(out)@ + rule_line(left@, right@, repeat_char('─', INNER as nat)),
{
    push_str(out, CYAN);
    push_str(out, left);
    push_str(out, RESET);
    push_repeat(out, '─', INNER);
    push_str(out, CYAN);
    push_str(out, right);
    push_str(out, RESET);
}

fn framed(out: &mut String, content: &String)
    ensures
        final(out)@ == old(out)@ + border_line(VERT@, VERT@, content@) + seq!['\n'],
{
    let c = crate::text::chars_of(content.as_str());
    border_into(out, VERT, VERT, c.as_slice());
    push_char(out, '\n');
}

fn keys_hold(keys: &Vec<u8>, code: u8) -> (r: bool)
    ensures
        r == keys@.contains(code),
{
    let mut i: usize = 0;
    while i < keys.len()
        invariant
            i <= keys@.len(),
            forall|j: int| 0 <= j < i ==> keys@[j] != code,
        decreases keys@.len() - i,
    {
        if keys[i] == code {
            return true;
        }
        i = i + 1;
    }
    false
}

impl TuiState {
    /// A state with nothing pressed, not seized, no focused app, and `?`
    /// for every label.
    pub fn new() -> (r: Self)
        ensures
            r.consumer == 0,
            r.keyboard is None,
            !r.seized,
            r.focused@.len() == 0,
            r.btn_tl@ == "?"@ && r.btn_tl_hold@ == "?"@ && r.btn_br@ == "?"@ && r.btn_br_hold@
                == "?"@,
    {
        Self {
            consumer: 0,
            keyboard: None,
            seized: false,
            focused: String::new(),
            btn_tl: string_of("?"),
            btn_tl_hold: string_of("?"),
            btn_br: string_of("?"),
            btn_br_hold: string_of("?"),
        }
    }

    /// Take over the state of a parsed report: consumer bits or the keyboard
    /// report; other reports change nothing.
    pub fn update(&mut self, report: &Report)
        ensures
            match *report {
                Report::Consumer(c) => final(self).consumer == c.bits.0 && final(self).keyboard
                    == old(self).keyboard,
                Report::Keyboard(kb) => final(self).consumer == old(self).consumer
                    && (final(self).keyboard matches Some(k) && k.modifier == kb.modifier
                    && k.keycodes@ == kb.keycodes@),
                _ => final(self).consumer == old(self).consumer && final(self).keyboard
                    == old(self).keyboard,
            },
            final(self).seized == old(self).seized,
            final(self).focused == old(self).focused,
            final(self).btn_tl == old(self).btn_tl,
            final(self).btn_tl_hold == old(self).btn_tl_hold,
            final(self).btn_br == old(self).btn_br,
            final(self).btn_br_hold == old(self).btn_br_hold,
    {
        match report {
            Report::Consumer(c) => self.consumer = c.bits.0,
            Report::Keyboard(kb) => self.keyboard = Some(kb.duplicate()),
            _ => {},
        }
    }

    /// Take over the focused application's name (`default` when none is
    /// focused) and the labels of the mapping that applies (`?` for an
    /// unbound control).
    pub fn show_mapping(&mut self, focused_name: Option<&str>, mapping: &ButtonMappingSet)
        ensures
            final(self).focused@ == (match focused_name {
                Some(n) => n@,
                None => "default"@,
            }),
            final(self).btn_tl@ == cli_label(mapping.button_top_left),
            final(self).btn_tl_hold@ == cli_label(mapping.button_top_left_hold),
            final(self).btn_br@ == cli_label(mapping.button_bottom_right),
            final(self).btn_br_hold@ == cli_label(mapping.button_bottom_right_hold),
            final(self).consumer == old(self).consumer,
            final(self).keyboard == old(self).keyboard,
            final(self).seized == old(self).seized,
    {
        self.focused = match focused_name {
            Some(n) => string_of(n),
            None => string_of("default"),
        };
        self.btn_tl = cli_label_text(&mapping.button_top_left);
        self.btn_tl_hold = cli_label_text(&mapping.button_top_left_hold);
        self.btn_br = cli_label_text(&mapping.button_bottom_right);
        self.btn_br_hold = cli_label_text(&mapping.button_bottom_right_hold);
    }

    /// The whole screen: frame, focused app, knob and media bullets, button
    /// bullets with their labels, modifiers, and the status footer.
    pub fn render(&self) -> (r: String)
        ensures
            r@ == screen(*self),
    {
        let mut out = String::new();
        push_str(&mut out, CLEAR);
        push_str(&mut out, HOME);
        self.header_into(&mut out);
        self.knob_into(&mut out);
        self.buttons_into(&mut out);
        self.footer_into(&mut out);
        proof {
            lemma_drawn_is_screen(*self);
        }
        out
    }

    fn header_into(&self, out: &mut String)
        ensures
            final(out)@ == header_lines(old(out)@, *self),
    {
        let mut title = String::new();
        push_centered(&mut title, " HAGIBIS HUB MAPPER ", INNER);
        let tc = crate::text::chars_of(title.as_str());
        border_into(out, TOP_LEFT, TOP_RIGHT, tc.as_slice());
        push_char(out, '\n');
        let mut app = string_of(" App: ");
        if self.focused.unicode_len() == 0 {
            push_str(&mut app, "none");
        } else {
            push_str(&mut app, self.focused.as_str());
        }
        push_str(&mut app, "   Ctrl+C to exit");
        framed(out, &app);
        rule_into(out, T_LEFT, T_RIGHT);
        push_char(out, '\n');
    }

    fn knob_into(&self, out: &mut String)
        ensures
            final(out)@ == knob_lines(old(out)@, *self),
    {
        framed(out, &string_of("[Knob & Media]  Consumer reports"));
        let mut knob = string_of("  Knob:  ");
        push_bullet(&mut knob, self.consumer & 0x01 != 0);
        push_str(&mut knob, " Vol+  ");
        push_bullet(&mut knob, self.consumer & 0x02 != 0);
        push_str(&mut knob, " Vol-  ");
        push_bullet(&mut knob, self.consumer & 0x04 != 0);
        push_str(&mut knob, " Mute");
        framed(out, &knob);
        let mut media = string_of("  Media: ");
        push_bullet(&mut media, self.consumer & 0x40 != 0);
        push_str(&mut media, " Play/Pause");
        framed(out, &media);
        framed(out, &String::new());
    }

    fn shown_key_bytes(&self) -> (keys: Vec<u8>)
        ensures
            keys@ == shown_keys(*self),
    {
        let mut keys: Vec<u8> = Vec::new();
        if let Some(kb) = &self.keyboard {
            let mut i: usize = 0;
            while i < kb.keycodes.len()
                invariant
                    i <= kb.keycodes@.len(),
                    keys@ == kb.keycodes@.take(i as int).map_values(
                        |k: crate::hid::keycode::KeyCode| k.0,
                    ),
                decreases kb.keycodes@.len() - i,
            {
                keys.push(kb.keycodes[i].0);
                assert(kb.keycodes@.take(i + 1).map_values(|k: crate::hid::keycode::KeyCode| k.0)
                    == kb.keycodes@.take(i as int).map_values(
                    |k: crate::hid::keycode::KeyCode| k.0,
                ).push(kb.keycodes@[i as int].0));
                i = i + 1;
            }
            assert(kb.keycodes@.take(kb.keycodes@.len() as int) == kb.keycodes@);
        }
        keys
    }

    fn buttons_into(&self, out: &mut String)
        ensures
            final(out)@ == button_lines(old(out)@, *self),
    {
        let keys = self.shown_key_bytes();
        framed(out, &string_of("[Keyboard Buttons]  Physical state"));
        let row1 = button_row_text(
            keys_hold(&keys, KeyCode::BTN_TOP_LEFT),
            self.btn_tl.as_str(),
            keys_hold(&keys, KeyCode::BTN_TOP_LEFT_HOLD),
            self.btn_tl_hold.as_str(),
        );
        framed(out, &row1);
        let row2 = button_row_text(
            keys_hold(&keys, KeyCode::BTN_BOTTOM_RIGHT),
            self.btn_br.as_str(),
            keys_hold(&keys, KeyCode::BTN_BOTTOM_RIGHT_HOLD),
            self.btn_br_hold.as_str(),
        );
        framed(out, &row2);
        if let Some(kb) = &self.keyboard {
            let mut mods = string_of("  Modifiers: ");
            let text = modifier_string(kb.modifier);
            push_str(&mut mods, text.as_str());
            framed(out, &mods);
        }
    }

    fn footer_into(&self, out: &mut String)
        ensures
            final(out)@ == footer_lines(old(out)@, *self),
    {
        let ghost start = out@;
        let mut f: usize = 0;
        while f < 5
            invariant
                f <= 5,
                out@ == blank_lines(start, f as nat),
            decreases 5 - f,
        {
            framed(out, &String::new());
            f = f + 1;
        }
        rule_into(out, BOT_LEFT, BOT_RIGHT);
        push_char(out, '\n');
        push_str(out, "  ");
        push_str(out, GREEN);
        push_str(out, "●");
        push_str(out, RESET);
        push_str(out, "=active  ");
        push_str(out, DIM);
        push_str(out, "○");
        push_str(out, RESET);
        push_str(out, "=inactive  Status: ");
        if self.seized {
            let ghost before = out@;
            push_str(out, GREEN);
            push_str(out, "SEIZED");
            push_str(out, RESET);
            push_str(out, " — remapping active");
            assert(out@ == before + status_text(true));
        } else {
            push_str(out, "monitoring (passive)");
        }
        push_char(out, '\n');
    }
}

fn button_row_text(a: bool, label_a: &str, b: bool, label_b: &str) -> (r: String)
    ensures
        r@ == button_row(a, label_a@, b, label_b@),
{
    let mut row = string_of("  ");
    push_bullet(&mut row, a);
    push_char(&mut row, ' ');
    push_left_aligned(&mut row, label_a, 15);
    push_str(&mut row, "  ");
    push_bullet(&mut row, b);
    push_char(&mut row, ' ');
    push_str(&mut row, label_b);
    row
}

proof fn lemma_width_concat(a: Seq<char>, b: Seq<char>, esc: bool)
    ensures
        visual_width_from(a + b, esc) == visual_width_from(a, esc) + visual_width_from(
            b,
            ends_in_escape(a, esc),
        ),
    decreases a.len(),
{
    if a.len() > 0 {
        assert((a + b).drop_first() == a.drop_first() + b);
        assert((a + b)[0] == a[0]);
        if esc {
            lemma_width_concat(a.drop_first(), b, a[0] != 'm');
        } else if is_escape(a[0]) {
            lemma_width_concat(a.drop_first(), b, true);
        } else {
            lemma_width_concat(a.drop_first(), b, false);
        }
    } else {
        assert(a + b == b);
    }
}

proof fn lemma_width_spaces(n: nat)
    ensures
        visual_width_from(repeat_char(' ', n), false) == n,
        !ends_in_escape(repeat_char(' ', n), false),
    decreases n,
{
    if n > 0 {
        assert(repeat_char(' ', n).drop_first() == repeat_char(' ', (n - 1) as nat));
        lemma_width_spaces((n - 1) as nat);
    }
}

proof fn lemma_width_truncated(s: Seq<char>, esc: bool, room: nat)
    ensures
        visual_width_from(truncated_from(s, esc, room), esc) == if visual_width_from(s, esc)
            <= room {
            visual_width_from(s, esc)
        } else {
            room
        },
    decreases s.len(),
{
    if s.len() > 0 {
        let t = truncated_from(s, esc, room);
        if esc {
            lemma_width_truncated(s.drop_first(), s[0] != 'm', room);
            let rest = truncated_from(s.drop_first(), s[0] != 'm', room);
            assert(t.drop_first() == rest);
        } else if is_escape(s[0]) {
            lemma_width_truncated(s.drop_first(), true, room);
            let rest = truncated_from(s.drop_first(), true, room);
            assert(t.drop_first() == rest);
        } else if room > 0 {
            lemma_width_truncated(s.drop_first(), false, (room - 1) as nat);
            let rest = truncated_from(s.drop_first(), false, (room - 1) as nat);
            assert(t.drop_first() == rest);
        }
    }
}

/// A padded line has exactly the requested printable width: shorter text
/// is filled with spaces, longer text is cut. Text that ends inside an
/// unterminated escape sequence is left out (the fill would be swallowed by
/// the sequence).
pub proof fn lemma_padded_width(s: Seq<char>, width: nat)
    requires
        !ends_in_escape(s, false),
    ensures
        visual_width_of(padded(s, width)) == width,
{
    if visual_width_of(s) >= width {
        lemma_width_truncated(s, false, width);
    } else {
        let fill = repeat_char(' ', (width - visual_width_of(s)) as nat);
        lemma_width_concat(s, fill, false);
        lemma_width_spaces((width - visual_width_of(s)) as nat);
    }
}

/// Text at least as wide as the field is cut to exactly the field's width,
/// whatever escape sequences it holds.
pub proof fn lemma_truncated_width(s: Seq<char>, width: nat)
    requires
        visual_width_of(s) >= width,
    ensures
        visual_width_of(padded(s, width)) == width,
{
    lemma_width_truncated(s, false, width);
}


/// Text without escape characters has one column per character, never ends
/// inside a sequence, and is cut after `room` characters.
pub proof fn lemma_plain_text(s: Seq<char>, room: nat)
    requires
        no_escape(s),
    ensures
        visual_width_of(s) == s.len(),
        !ends_in_escape(s, false),
        truncated_from(s, false, room) == s.take(if room <= s.len() {
            room as int
        } else {
            s.len() as int
        }),
    decreases s.len(),
{
    if s.len() > 0 {
        assert(!is_escape(s[0]));
        assert(no_escape(s.drop_first())) by {
            assert forall|i: int| 0 <= i < s.drop_first().len() implies !is_escape(
                #[trigger] s.drop_first()[i],
            ) by {
                assert(s.drop_first()[i] == s[i + 1]);
            }
        }
        if room > 0 {
            lemma_plain_text(s.drop_first(), (room - 1) as nat);
            let k: int = if room <= s.len() { room as int } else { s.len() as int };
            assert(seq![s[0]] + s.drop_first().take(k - 1) =~= s.take(k));
        } else {
            lemma_plain_text(s.drop_first(), 0);
            assert(s.take(0) =~= Seq::<char>::empty());
        }
    } else {
        assert(s.take(0) =~= s);
    }
}

/// What padding does: text narrower than the field gets spaces after it,
/// plain text at least as wide is cut to its first `width` characters, and
/// text that does not end inside an escape sequence comes out exactly
/// `width` columns wide.
pub proof fn lemma_pad_laws(s: Seq<char>, width: nat)
    ensures
        !ends_in_escape(s, false) ==> visual_width_of(padded(s, width)) == width,
        visual_width_of(s) < width ==> padded(s, width) == s + repeat_char(
            ' ',
            (width - visual_width_of(s)) as nat,
        ),
        no_escape(s) && s.len() >= width ==> padded(s, width) == s.take(width as int),
{
    if !ends_in_escape(s, false) {
        lemma_padded_width(s, width);
    }
    if no_escape(s) {
        lemma_plain_text(s, width);
    }
}

proof fn lemma_lines_text_push(ls: Seq<Seq<char>>, l: Seq<char>)
    ensures
        lines_text(ls.push(l)) == lines_text(ls) + l + seq!['\n'],
{
    assert(ls.push(l).drop_last() =~= ls);
}

proof fn lemma_lines_text_concat(a: Seq<Seq<char>>, b: Seq<Seq<char>>)
    ensures
        lines_text(a + b) == lines_text(a) + lines_text(b),
    decreases b.len(),
{
    if b.len() == 0 {
        assert(a + b =~= a);
        assert(lines_text(a) + lines_text(b) =~= lines_text(a));
    } else {
        assert((a + b).drop_last() =~= a + b.drop_last());
        assert((a + b).last() == b.last());
        lemma_lines_text_concat(a, b.drop_last());
        assert(lines_text(a + b) =~= lines_text(a) + lines_text(b));
    }
}

proof fn lemma_three_lines(a: Seq<char>, b: Seq<char>, c: Seq<char>)
    ensures
        lines_text(seq![a, b, c]) == a + seq!['\n'] + b + seq!['\n'] + c + seq!['\n'],
{
    let e = Seq::<Seq<char>>::empty();
    lemma_lines_text_push(e, a);
    lemma_lines_text_push(e.push(a), b);
    lemma_lines_text_push(e.push(a).push(b), c);
    assert(seq![a, b, c] =~= e.push(a).push(b).push(c));
    assert(lines_text(e) =~= Seq::<char>::empty());
    assert(lines_text(seq![a, b, c]) =~= a + seq!['\n'] + b + seq!['\n'] + c + seq!['\n']);
}

proof fn lemma_blank_lines(p: Seq<char>, n: nat)
    ensures
        blank_lines(p, n) == p + lines_text(Seq::new(n, |i: int| blank_box_line())),
    decreases n,
{
    if n == 0 {
        assert(lines_text(Seq::new(0, |i: int| blank_box_line())) =~= Seq::<char>::empty());
        assert(p + Seq::<char>::empty() =~= p);
    } else {
        lemma_blank_lines(p, (n - 1) as nat);
        let prev = Seq::new((n - 1) as nat, |i: int| blank_box_line());
        assert(Seq::new(n, |i: int| blank_box_line()) =~= prev.push(blank_box_line()));
        lemma_lines_text_push(prev, blank_box_line());
        assert(blank_lines(p, n) =~= p + lines_text(Seq::new(n, |i: int| blank_box_line())));
    }
}

proof fn lemma_header_section(p: Seq<char>, st: TuiState)
    ensures
        header_lines(p, st) == p + lines_text(header_box(st)),
{
    let h = header_box(st);
    lemma_three_lines(h[0], h[1], h[2]);
    assert(h =~= seq![h[0], h[1], h[2]]);
    assert(header_lines(p, st) =~= p + lines_text(h));
}

proof fn lemma_knob_section(p: Seq<char>, st: TuiState)
    ensures
        knob_lines(p, st) == p + lines_text(knob_box(st)),
{
    let k = knob_box(st);
    lemma_three_lines(k[0], k[1], k[2]);
    assert(k =~= seq![k[0], k[1], k[2]].push(k[3]));
    lemma_lines_text_push(seq![k[0], k[1], k[2]], k[3]);
    assert(knob_lines(p, st) =~= p + lines_text(k));
}

proof fn lemma_button_section(p: Seq<char>, st: TuiState)
    ensures
        button_lines(p, st) == p + lines_text(button_box(st)),
{
    let b = button_box(st);
    let rows = seq![
        border_line(VERT@, VERT@, "[Keyboard Buttons]  Physical state"@),
        border_line(VERT@, VERT@, top_row(st)),
        border_line(VERT@, VERT@, bottom_row(st)),
    ];
    lemma_three_lines(rows[0], rows[1], rows[2]);
    assert(rows =~= seq![rows[0], rows[1], rows[2]]);
    match st.keyboard {
        Some(kb) => {
            let m = border_line(VERT@, VERT@, "  Modifiers: "@ + modifier_text(kb.modifier));
            lemma_lines_text_push(rows, m);
            assert(button_lines(p, st) =~= p + lines_text(rows.push(m)));
        },
        None => {
            assert(button_lines(p, st) =~= p + lines_text(rows));
        },
    }
}

proof fn lemma_footer_section(p: Seq<char>, st: TuiState)
    ensures
        footer_lines(p, st) == p + lines_text(footer_box()) + legend_line(st) + seq!['\n'],
{
    let f = footer_box();
    let blanks = Seq::new(5, |i: int| blank_box_line());
    let rule = rule_line(BOT_LEFT@, BOT_RIGHT@, repeat_char('─', INNER as nat));
    lemma_blank_lines(p, 5);
    lemma_lines_text_push(blanks, rule);
    assert(footer_lines(p, st) =~= p + lines_text(f) + legend_line(st) + seq!['\n']);
}

#[verifier::spinoff_prover]
#[verifier::rlimit(50)]
proof fn lemma_drawn_is_screen(st: TuiState)
    ensures
        drawn(st) == screen(st),
{
    let p0 = CLEAR@ + HOME@;
    let h = header_box(st);
    let k = knob_box(st);
    let b = button_box(st);
    let f = footer_box();
    lemma_header_section(p0, st);
    let p1 = header_lines(p0, st);
    lemma_knob_section(p1, st);
    let p2 = knob_lines(p1, st);
    lemma_button_section(p2, st);
    let p3 = button_lines(p2, st);
    lemma_footer_section(p3, st);
    lemma_lines_text_concat(h, k);
    lemma_lines_text_concat(h + k, b);
    lemma_lines_text_concat(h + k + b, f);
    assert(drawn(st) =~= screen(st));
}


/// Whether `s` holds no line break.
pub open spec fn no_newline(s: Seq<char>) -> bool {
    forall|i: int| 0 <= i < s.len() ==> #[trigger] s[i] != '\n'
}

/// Text with neither escape characters nor line breaks.
pub open spec fn plain(s: Seq<char>) -> bool {
    no_escape(s) && no_newline(s)
}

/// Text that can stand in a box line: no line break and no escape
/// sequence left open at its end.
pub open spec fn clean(s: Seq<char>) -> bool {
    !ends_in_escape(s, false) && no_newline(s)
}

proof fn lemma_ends_concat(a: Seq<char>, b: Seq<char>, esc: bool)
    ensures
        ends_in_escape(a + b, esc) == ends_in_escape(b, ends_in_escape(a, esc)),
    decreases a.len(),
{
    if a.len() > 0 {
        assert((a + b).drop_first() == a.drop_first() + b);
        assert((a + b)[0] == a[0]);
        if esc {
            lemma_ends_concat(a.drop_first(), b, a[0] != 'm');
        } else if is_escape(a[0]) {
            lemma_ends_concat(a.drop_first(), b, true);
        } else {
            lemma_ends_concat(a.drop_first(), b, false);
        }
    } else {
        assert(a + b == b);
    }
}

proof fn lemma_newline_concat(a: Seq<char>, b: Seq<char>)
    requires
        no_newline(a),
        no_newline(b),
    ensures
        no_newline(a + b),
{
    assert forall|i: int| 0 <= i < (a + b).len() implies #[trigger] (a + b)[i] != '\n' by {
        if i < a.len() {
            assert((a + b)[i] == a[i]);
        } else {
            assert((a + b)[i] == b[i - a.len()]);
        }
    }
}

/// Joining clean pieces: the widths add up and the result is clean.
proof fn lemma_join(a: Seq<char>, b: Seq<char>)
    requires
        clean(a),
        clean(b),
    ensures
        clean(a + b),
        visual_width_of(a + b) == visual_width_of(a) + visual_width_of(b),
{
    lemma_width_concat(a, b, false);
    lemma_ends_concat(a, b, false);
    lemma_newline_concat(a, b);
}

proof fn lemma_plain_clean(s: Seq<char>)
    requires
        plain(s),
    ensures
        clean(s),
        visual_width_of(s) == s.len(),
{
    lemma_plain_text(s, 0);
}

proof fn lemma_plain_concat(a: Seq<char>, b: Seq<char>)
    requires
        plain(a),
        plain(b),
    ensures
        plain(a + b),
{
    lemma_newline_concat(a, b);
    assert forall|i: int| 0 <= i < (a + b).len() implies !is_escape(#[trigger] (a + b)[i]) by {
        if i < a.len() {
            assert((a + b)[i] == a[i]);
        } else {
            assert((a + b)[i] == b[i - a.len()]);
        }
    }
}

proof fn lemma_repeat_plain(c: char, n: nat)
    requires
        c != '\n',
        !is_escape(c),
    ensures
        plain(repeat_char(c, n)),
        repeat_char(c, n).len() == n,
{
    let r = repeat_char(c, n);
    assert forall|i: int| 0 <= i < r.len() implies #[trigger] r[i] != '\n' && !is_escape(r[i]) by {
        assert(r[i] == c);
    }
}

proof fn lemma_ends_single(c: char, esc: bool)
    ensures
        ends_in_escape(seq![c], esc) == (if esc {
            c != 'm'
        } else {
            is_escape(c)
        }),
{
    assert(seq![c].drop_first() =~= Seq::<char>::empty());
    assert(seq![c][0] == c);
    assert(ends_in_escape(Seq::<char>::empty(), true));
    assert(!ends_in_escape(Seq::<char>::empty(), false));
}

proof fn lemma_trunc_clean(s: Seq<char>, esc: bool, room: nat)
    ensures
        !ends_in_escape(s, esc) ==> !ends_in_escape(truncated_from(s, esc, room), esc),
        no_newline(s) ==> no_newline(truncated_from(s, esc, room)),
    decreases s.len(),
{
    if s.len() > 0 {
        let t = truncated_from(s, esc, room);
        let rest = s.drop_first();
        if no_newline(s) {
            assert(no_newline(rest)) by {
                assert forall|i: int| 0 <= i < rest.len() implies #[trigger] rest[i] != '\n' by {
                    assert(rest[i] == s[i + 1]);
                }
            }
        }
        if esc {
            lemma_trunc_clean(rest, s[0] != 'm', room);
            let tr = truncated_from(rest, s[0] != 'm', room);
            assert(t == seq![s[0]] + tr);
            lemma_ends_concat(seq![s[0]], tr, esc);
            lemma_ends_single(s[0], esc);
            if no_newline(s) {
                lemma_newline_concat(seq![s[0]], tr);
            }
        } else if is_escape(s[0]) {
            lemma_trunc_clean(rest, true, room);
            let tr = truncated_from(rest, true, room);
            assert(t == seq![s[0]] + tr);
            lemma_ends_concat(seq![s[0]], tr, esc);
            lemma_ends_single(s[0], esc);
            if no_newline(s) {
                lemma_newline_concat(seq![s[0]], tr);
            }
        } else if room > 0 {
            lemma_trunc_clean(rest, false, (room - 1) as nat);
            let tr = truncated_from(rest, false, (room - 1) as nat);
            assert(t == seq![s[0]] + tr);
            lemma_ends_concat(seq![s[0]], tr, esc);
            lemma_ends_single(s[0], esc);
            if no_newline(s) {
                lemma_newline_concat(seq![s[0]], tr);
            }
        }
    }
}

proof fn lemma_padded_clean(s: Seq<char>, width: nat)
    requires
        clean(s),
    ensures
        clean(padded(s, width)),
        visual_width_of(padded(s, width)) == width,
{
    lemma_padded_width(s, width);
    if visual_width_of(s) >= width {
        lemma_trunc_clean(s, false, width);
    } else {
        let fill = repeat_char(' ', (width - visual_width_of(s)) as nat);
        lemma_repeat_plain(' ', (width - visual_width_of(s)) as nat);
        lemma_plain_clean(fill);
        lemma_join(s, fill);
    }
}

proof fn lemma_escape_codes()
    ensures
        clean(CYAN@) && visual_width_of(CYAN@) == 0,
        clean(RESET@) && visual_width_of(RESET@) == 0,
        clean(GREEN@) && visual_width_of(GREEN@) == 0,
        clean(DIM@) && visual_width_of(DIM@) == 0,
{
    reveal_strlit("\x1b[1;36m");
    reveal_strlit("\x1b[0m");
    reveal_strlit("\x1b[1;32m");
    reveal_strlit("\x1b[2;37m");
    reveal_with_fuel(visual_width_from, 8);
    reveal_with_fuel(ends_in_escape, 8);
}

proof fn lemma_glyphs()
    ensures
        plain(TOP_LEFT@) && TOP_LEFT@.len() == 1,
        plain(TOP_RIGHT@) && TOP_RIGHT@.len() == 1,
        plain(BOT_LEFT@) && BOT_LEFT@.len() == 1,
        plain(BOT_RIGHT@) && BOT_RIGHT@.len() == 1,
        plain(VERT@) && VERT@.len() == 1,
        plain(T_LEFT@) && T_LEFT@.len() == 1,
        plain(T_RIGHT@) && T_RIGHT@.len() == 1,
        plain(ON@) && ON@.len() == 1,
        plain(OFF@) && OFF@.len() == 1,
{
    reveal_strlit("┌");
    reveal_strlit("┐");
    reveal_strlit("└");
    reveal_strlit("┘");
    reveal_strlit("│");
    reveal_strlit("├");
    reveal_strlit("┤");
    reveal_strlit("●");
    reveal_strlit("○");
}

proof fn lemma_border_line(l: Seq<char>, r: Seq<char>, c: Seq<char>)
    requires
        plain(l) && l.len() == 1,
        plain(r) && r.len() == 1,
        clean(c),
    ensures
        clean(border_line(l, r, c)),
        visual_width_of(border_line(l, r, c)) == 68,
{
    lemma_escape_codes();
    lemma_plain_clean(l);
    lemma_plain_clean(r);
    let sp = seq![' '];
    assert(plain(sp));
    lemma_plain_clean(sp);
    let pad = padded(c, PAD_WIDTH as nat);
    lemma_padded_clean(c, PAD_WIDTH as nat);
    let a1 = CYAN@ + l;
    lemma_join(CYAN@, l);
    let a2 = a1 + RESET@;
    lemma_join(a1, RESET@);
    let a3 = a2 + sp;
    lemma_join(a2, sp);
    let a4 = a3 + pad;
    lemma_join(a3, pad);
    let a5 = a4 + sp;
    lemma_join(a4, sp);
    let a6 = a5 + CYAN@;
    lemma_join(a5, CYAN@);
    let a7 = a6 + r;
    lemma_join(a6, r);
    lemma_join(a7, RESET@);
}

proof fn lemma_rule_line(l: Seq<char>, r: Seq<char>)
    requires
        plain(l) && l.len() == 1,
        plain(r) && r.len() == 1,
    ensures
        clean(rule_line(l, r, repeat_char('─', INNER as nat))),
        visual_width_of(rule_line(l, r, repeat_char('─', INNER as nat))) == 68,
{
    lemma_escape_codes();
    lemma_plain_clean(l);
    lemma_plain_clean(r);
    let fill = repeat_char('─', INNER as nat);
    lemma_repeat_plain('─', INNER as nat);
    lemma_plain_clean(fill);
    let a1 = CYAN@ + l;
    lemma_join(CYAN@, l);
    let a2 = a1 + RESET@;
    lemma_join(a1, RESET@);
    let a3 = a2 + fill;
    lemma_join(a2, fill);
    let a4 = a3 + CYAN@;
    lemma_join(a3, CYAN@);
    let a5 = a4 + r;
    lemma_join(a4, r);
    lemma_join(a5, RESET@);
}

proof fn lemma_bullet_clean(active: bool)
    ensures
        clean(bullet_text(active)),
{
    lemma_escape_codes();
    lemma_glyphs();
    lemma_plain_clean(ON@);
    lemma_plain_clean(OFF@);
    lemma_join(GREEN@, ON@);
    lemma_join(GREEN@ + ON@, RESET@);
    lemma_join(DIM@, OFF@);
    lemma_join(DIM@ + OFF@, RESET@);
}

/// Clean pieces joined are clean.
proof fn lemma_clean_join(a: Seq<char>, b: Seq<char>)
    requires
        clean(a),
        clean(b),
    ensures
        clean(a + b),
{
    lemma_join(a, b);
}

proof fn lemma_plain_lit_clean(s: Seq<char>)
    requires
        plain(s),
    ensures
        clean(s),
{
    lemma_plain_clean(s);
}

/// Every line is clean and exactly the box's width.
pub open spec fn boxed(lines: Seq<Seq<char>>) -> bool {
    forall|i: int|
        0 <= i < lines.len() ==> clean(#[trigger] lines[i]) && visual_width_of(lines[i]) == 68
}

proof fn lemma_boxed_concat(a: Seq<Seq<char>>, b: Seq<Seq<char>>)
    requires
        boxed(a),
        boxed(b),
    ensures
        boxed(a + b),
{
    assert forall|i: int| 0 <= i < (a + b).len() implies clean(#[trigger] (a + b)[i])
        && visual_width_of((a + b)[i]) == 68 by {
        if i < a.len() {
            assert((a + b)[i] == a[i]);
        } else {
            assert((a + b)[i] == b[i - a.len()]);
        }
    }
}

/// Every piece is plain.
pub open spec fn all_plain(ps: Seq<Seq<char>>) -> bool {
    forall|i: int| 0 <= i < ps.len() ==> plain(#[trigger] ps[i])
}

proof fn lemma_all_plain_concat(a: Seq<Seq<char>>, b: Seq<Seq<char>>)
    requires
        all_plain(a),
        all_plain(b),
    ensures
        all_plain(a + b),
{
    assert forall|i: int| 0 <= i < (a + b).len() implies plain(#[trigger] (a + b)[i]) by {
        if i < a.len() {
            assert((a + b)[i] == a[i]);
        } else {
            assert((a + b)[i] == b[i - a.len()]);
        }
    }
}

proof fn lemma_joined_plain(parts: Seq<Seq<char>>)
    requires
        all_plain(parts),
    ensures
        plain(joined(parts)),
    decreases parts.len(),
{
    if parts.len() == 0 {
        assert(plain(Seq::<char>::empty()));
    } else if parts.len() == 1 {
        assert(plain(parts[0]));
    } else {
        let init = parts.drop_last();
        assert forall|i: int| 0 <= i < init.len() implies plain(#[trigger] init[i]) by {
            assert(init[i] == parts[i]);
        }
        lemma_joined_plain(init);
        assert(plain(seq![' ']));
        assert(plain(parts.last()));
        lemma_plain_concat(joined(init), seq![' ']);
        lemma_plain_concat(joined(init) + seq![' '], parts.last());
    }
}

proof fn lemma_piece(cond: bool, lit: Seq<char>)
    requires
        plain(lit),
    ensures
        all_plain(if cond { seq![lit] } else { Seq::<Seq<char>>::empty() }),
{
}

proof fn lemma_modifier_text_plain(m: u8)
    ensures
        plain(modifier_text(m)),
{
    reveal_strlit("⌃");
    reveal_strlit("⇧");
    reveal_strlit("⌥");
    reveal_strlit("⌘");
    reveal_strlit("⌃R");
    reveal_strlit("⇧R");
    reveal_strlit("⌥R");
    reveal_strlit("⌘R");
    reveal_strlit("—");
    let p1 = if m & 0x01 != 0 { seq!["⌃"@] } else { Seq::<Seq<char>>::empty() };
    let p2 = if m & 0x02 != 0 { seq!["⇧"@] } else { Seq::<Seq<char>>::empty() };
    let p3 = if m & 0x04 != 0 { seq!["⌥"@] } else { Seq::<Seq<char>>::empty() };
    let p4 = if m & 0x08 != 0 { seq!["⌘"@] } else { Seq::<Seq<char>>::empty() };
    let p5 = if m & 0x10 != 0 { seq!["⌃R"@] } else { Seq::<Seq<char>>::empty() };
    let p6 = if m & 0x20 != 0 { seq!["⇧R"@] } else { Seq::<Seq<char>>::empty() };
    let p7 = if m & 0x40 != 0 { seq!["⌥R"@] } else { Seq::<Seq<char>>::empty() };
    let p8 = if m & 0x80 != 0 { seq!["⌘R"@] } else { Seq::<Seq<char>>::empty() };
    lemma_piece(m & 0x01 != 0, "⌃"@);
    lemma_piece(m & 0x02 != 0, "⇧"@);
    lemma_piece(m & 0x04 != 0, "⌥"@);
    lemma_piece(m & 0x08 != 0, "⌘"@);
    lemma_piece(m & 0x10 != 0, "⌃R"@);
    lemma_piece(m & 0x20 != 0, "⇧R"@);
    lemma_piece(m & 0x40 != 0, "⌥R"@);
    lemma_piece(m & 0x80 != 0, "⌘R"@);
    lemma_all_plain_concat(p1, p2);
    lemma_all_plain_concat(p1 + p2, p3);
    lemma_all_plain_concat(p1 + p2 + p3, p4);
    lemma_all_plain_concat(p1 + p2 + p3 + p4, p5);
    lemma_all_plain_concat(p1 + p2 + p3 + p4 + p5, p6);
    lemma_all_plain_concat(p1 + p2 + p3 + p4 + p5 + p6, p7);
    lemma_all_plain_concat(p1 + p2 + p3 + p4 + p5 + p6 + p7, p8);
    assert(modifier_parts(m) == p1 + p2 + p3 + p4 + p5 + p6 + p7 + p8);
    lemma_joined_plain(modifier_parts(m));
}

proof fn lemma_button_row_clean(a: bool, la: Seq<char>, b: bool, lb: Seq<char>)
    requires
        plain(la),
        plain(lb),
    ensures
        clean(button_row(a, la, b, lb)),
{
    reveal_strlit("  ");
    let sp2 = "  "@;
    let sp = seq![' '];
    assert(plain(sp2));
    assert(plain(sp));
    lemma_plain_clean(sp2);
    lemma_plain_clean(sp);
    lemma_plain_clean(lb);
    if la.len() < 15 {
        lemma_repeat_plain(' ', (15 - la.len()) as nat);
        lemma_plain_concat(la, repeat_char(' ', (15 - la.len()) as nat));
    }
    let al = left_aligned(la, 15);
    lemma_plain_clean(al);
    lemma_bullet_clean(a);
    lemma_bullet_clean(b);
    let x1 = sp2 + bullet_text(a);
    lemma_clean_join(sp2, bullet_text(a));
    let x2 = x1 + sp;
    lemma_clean_join(x1, sp);
    let x3 = x2 + al;
    lemma_clean_join(x2, al);
    let x4 = x3 + sp2;
    lemma_clean_join(x3, sp2);
    let x5 = x4 + bullet_text(b);
    lemma_clean_join(x4, bullet_text(b));
    let x6 = x5 + sp;
    lemma_clean_join(x5, sp);
    lemma_clean_join(x6, lb);
}

proof fn lemma_header_boxed(st: TuiState)
    requires
        plain(st.focused@),
    ensures
        boxed(header_box(st)),
{
    lemma_glyphs();
    reveal_strlit(" HAGIBIS HUB MAPPER ");
    reveal_strlit(" App: ");
    reveal_strlit("none");
    reveal_strlit("   Ctrl+C to exit");
    let title = " HAGIBIS HUB MAPPER "@;
    assert(plain(title));
    let pad = (INNER - title.len()) as nat;
    lemma_repeat_plain(' ', pad / 2);
    lemma_repeat_plain(' ', (pad - pad / 2) as nat);
    lemma_plain_concat(repeat_char(' ', pad / 2), title);
    lemma_plain_concat(repeat_char(' ', pad / 2) + title, repeat_char(' ', (pad - pad / 2) as nat));
    lemma_plain_clean(centered(title, INNER as nat));
    let focus = if st.focused@.len() == 0 { "none"@ } else { st.focused@ };
    assert(plain(focus));
    assert(plain(" App: "@));
    assert(plain("   Ctrl+C to exit"@));
    lemma_plain_concat(" App: "@, focus);
    lemma_plain_concat(" App: "@ + focus, "   Ctrl+C to exit"@);
    lemma_plain_clean(app_line(st));
    lemma_border_line(TOP_LEFT@, TOP_RIGHT@, centered(title, INNER as nat));
    lemma_border_line(VERT@, VERT@, app_line(st));
    lemma_rule_line(T_LEFT@, T_RIGHT@);
    let h = header_box(st);
    assert(boxed(h)) by {
        assert forall|i: int| 0 <= i < h.len() implies clean(#[trigger] h[i]) && visual_width_of(
            h[i],
        ) == 68 by {
            if i == 0 {
            } else if i == 1 {
            } else {
            }
        }
    }
}

proof fn lemma_knob_boxed(st: TuiState)
    ensures
        boxed(knob_box(st)),
{
    lemma_glyphs();
    reveal_strlit("[Knob & Media]  Consumer reports");
    reveal_strlit("  Knob:  ");
    reveal_strlit(" Vol+  ");
    reveal_strlit(" Vol-  ");
    reveal_strlit(" Mute");
    reveal_strlit("  Media: ");
    reveal_strlit(" Play/Pause");
    let hdr = "[Knob & Media]  Consumer reports"@;
    assert(plain(hdr));
    lemma_plain_clean(hdr);
    let l1 = "  Knob:  "@;
    let l2 = " Vol+  "@;
    let l3 = " Vol-  "@;
    let l4 = " Mute"@;
    assert(plain(l1) && plain(l2) && plain(l3) && plain(l4));
    lemma_plain_clean(l1);
    lemma_plain_clean(l2);
    lemma_plain_clean(l3);
    lemma_plain_clean(l4);
    let b1 = bullet_text(st.consumer & 0x01 != 0);
    let b2 = bullet_text(st.consumer & 0x02 != 0);
    let b3 = bullet_text(st.consumer & 0x04 != 0);
    lemma_bullet_clean(st.consumer & 0x01 != 0);
    lemma_bullet_clean(st.consumer & 0x02 != 0);
    lemma_bullet_clean(st.consumer & 0x04 != 0);
    lemma_clean_join(l1, b1);
    lemma_clean_join(l1 + b1, l2);
    lemma_clean_join(l1 + b1 + l2, b2);
    lemma_clean_join(l1 + b1 + l2 + b2, l3);
    lemma_clean_join(l1 + b1 + l2 + b2 + l3, b3);
    lemma_clean_join(l1 + b1 + l2 + b2 + l3 + b3, l4);
    let m1 = "  Media: "@;
    let m2 = " Play/Pause"@;
    assert(plain(m1) && plain(m2));
    lemma_plain_clean(m1);
    lemma_plain_clean(m2);
    let b4 = bullet_text(st.consumer & 0x40 != 0);
    lemma_bullet_clean(st.consumer & 0x40 != 0);
    lemma_clean_join(m1, b4);
    lemma_clean_join(m1 + b4, m2);
    assert(plain(Seq::<char>::empty()));
    lemma_plain_clean(Seq::<char>::empty());
    lemma_border_line(VERT@, VERT@, hdr);
    lemma_border_line(VERT@, VERT@, knob_text(st));
    lemma_border_line(VERT@, VERT@, media_text(st));
    lemma_border_line(VERT@, VERT@, Seq::empty());
    let k = knob_box(st);
    assert(boxed(k)) by {
        assert forall|i: int| 0 <= i < k.len() implies clean(#[trigger] k[i]) && visual_width_of(
            k[i],
        ) == 68 by {
            if i == 0 {
            } else if i == 1 {
            } else if i == 2 {
            } else {
            }
        }
    }
}

proof fn lemma_button_boxed(st: TuiState)
    requires
        plain(st.btn_tl@),
        plain(st.btn_tl_hold@),
        plain(st.btn_br@),
        plain(st.btn_br_hold@),
    ensures
        boxed(button_box(st)),
{
    lemma_glyphs();
    reveal_strlit("[Keyboard Buttons]  Physical state");
    reveal_strlit("  Modifiers: ");
    let hdr = "[Keyboard Buttons]  Physical state"@;
    assert(plain(hdr));
    lemma_plain_clean(hdr);
    lemma_button_row_clean(
        shown_keys(st).contains(KeyCode::BTN_TOP_LEFT),
        st.btn_tl@,
        shown_keys(st).contains(KeyCode::BTN_TOP_LEFT_HOLD),
        st.btn_tl_hold@,
    );
    lemma_button_row_clean(
        shown_keys(st).contains(KeyCode::BTN_BOTTOM_RIGHT),
        st.btn_br@,
        shown_keys(st).contains(KeyCode::BTN_BOTTOM_RIGHT_HOLD),
        st.btn_br_hold@,
    );
    lemma_border_line(VERT@, VERT@, hdr);
    lemma_border_line(VERT@, VERT@, top_row(st));
    lemma_border_line(VERT@, VERT@, bottom_row(st));
    let rows = seq![
        border_line(VERT@, VERT@, hdr),
        border_line(VERT@, VERT@, top_row(st)),
        border_line(VERT@, VERT@, bottom_row(st)),
    ];
    assert(boxed(rows)) by {
        assert forall|i: int| 0 <= i < rows.len() implies clean(#[trigger] rows[i])
            && visual_width_of(rows[i]) == 68 by {
            if i == 0 {
            } else if i == 1 {
            } else {
            }
        }
    }
    match st.keyboard {
        Some(kb) => {
            let t = "  Modifiers: "@ + modifier_text(kb.modifier);
            assert(plain("  Modifiers: "@));
            lemma_modifier_text_plain(kb.modifier);
            lemma_plain_concat("  Modifiers: "@, modifier_text(kb.modifier));
            lemma_plain_clean(t);
            lemma_border_line(VERT@, VERT@, t);
            let line = border_line(VERT@, VERT@, t);
            assert(boxed(seq![line]));
            lemma_boxed_concat(rows, seq![line]);
            assert(rows.push(line) =~= rows + seq![line]);
        },
        None => {},
    }
}

proof fn lemma_footer_boxed()
    ensures
        boxed(footer_box()),
{
    lemma_glyphs();
    assert(plain(Seq::<char>::empty()));
    lemma_plain_clean(Seq::<char>::empty());
    lemma_border_line(VERT@, VERT@, Seq::empty());
    lemma_rule_line(BOT_LEFT@, BOT_RIGHT@);
    let f = footer_box();
    assert(boxed(f)) by {
        assert forall|i: int| 0 <= i < f.len() implies clean(#[trigger] f[i]) && visual_width_of(
            f[i],
        ) == 68 by {
            if i < 5 {
                assert(f[i] == blank_box_line());
            } else {
                assert(f[i] == rule_line(BOT_LEFT@, BOT_RIGHT@, repeat_char('─', INNER as nat)));
            }
        }
    }
}

proof fn lemma_legend_no_newline(st: TuiState)
    ensures
        no_newline(legend_line(st)),
{
    lemma_escape_codes();
    reveal_strlit("  ");
    reveal_strlit("●");
    reveal_strlit("=active  ");
    reveal_strlit("○");
    reveal_strlit("=inactive  Status: ");
    reveal_strlit("SEIZED");
    reveal_strlit(" — remapping active");
    reveal_strlit("monitoring (passive)");
    let a = "  "@ + GREEN@;
    lemma_newline_concat("  "@, GREEN@);
    lemma_newline_concat(a, "●"@);
    lemma_newline_concat(a + "●"@, RESET@);
    let b = a + "●"@ + RESET@;
    lemma_newline_concat(b, "=active  "@);
    lemma_newline_concat(b + "=active  "@, DIM@);
    lemma_newline_concat(b + "=active  "@ + DIM@, "○"@);
    let c = b + "=active  "@ + DIM@ + "○"@;
    lemma_newline_concat(c, RESET@);
    lemma_newline_concat(c + RESET@, "=inactive  Status: "@);
    lemma_newline_concat(GREEN@, "SEIZED"@);
    lemma_newline_concat(GREEN@ + "SEIZED"@, RESET@);
    lemma_newline_concat(GREEN@ + "SEIZED"@ + RESET@, " — remapping active"@);
    lemma_newline_concat(c + RESET@ + "=inactive  Status: "@, status_text(st.seized));
}

/// The layout of the screen: clear and home, then the box, whose lines are
/// 17 with a keyboard report shown and 16 without; with labels and an app
/// name free of escape characters and line breaks, every box line is
/// exactly 68 columns wide (two border glyphs around 66 inner columns) and
/// holds no line break, and neither does the legend, so the screen has one
/// line more than the box.
pub proof fn lemma_screen_layout(st: TuiState)
    ensures
        screen(st) == CLEAR@ + HOME@ + lines_text(box_lines(st)) + legend_line(st) + seq!['\n'],
        box_lines(st).len() == (if st.keyboard is Some {
            17int
        } else {
            16int
        }),
        no_newline(legend_line(st)),
        plain(st.focused@) && plain(st.btn_tl@) && plain(st.btn_tl_hold@) && plain(st.btn_br@)
            && plain(st.btn_br_hold@) ==> forall|i: int|
            0 <= i < box_lines(st).len() ==> visual_width_of(#[trigger] box_lines(st)[i]) == 68
                && no_newline(box_lines(st)[i]),
{
    lemma_legend_no_newline(st);
    if plain(st.focused@) && plain(st.btn_tl@) && plain(st.btn_tl_hold@) && plain(st.btn_br@)
        && plain(st.btn_br_hold@) {
        lemma_header_boxed(st);
        lemma_knob_boxed(st);
        lemma_button_boxed(st);
        lemma_footer_boxed();
        lemma_boxed_concat(header_box(st), knob_box(st));
        lemma_boxed_concat(header_box(st) + knob_box(st), button_box(st));
        lemma_boxed_concat(header_box(st) + knob_box(st) + button_box(st), footer_box());
    }
}

proof fn lemma_clear_home()
    ensures
        visual_width_of(CLEAR@ + HOME@) == 0,
        ends_in_escape(CLEAR@ + HOME@, false),
        no_newline(CLEAR@ + HOME@),
        visual_width_from(CYAN@, true) == 0,
        !ends_in_escape(CYAN@, true),
{
    reveal_strlit("\x1b[2J");
    reveal_strlit("\x1b[H");
    reveal_strlit("\x1b[1;36m");
    reveal_with_fuel(visual_width_from, 9);
    reveal_with_fuel(ends_in_escape, 9);
    assert(CLEAR@ + HOME@ =~= seq!['\x1b', '[', '2', 'J', '\x1b', '[', 'H']);
}

/// After clear-and-home (an escape sequence still open), the title line
/// still shows its full width: it starts with an escape sequence that
/// closes it.
proof fn lemma_first_line_width(st: TuiState)
    ensures
        visual_width_of(CLEAR@ + HOME@ + box_lines(st)[0]) == visual_width_of(box_lines(st)[0]),
{
    lemma_clear_home();
    lemma_escape_codes();
    let b0 = box_lines(st)[0];
    assert(box_lines(st)[0] == header_box(st)[0]);
    let c = centered(" HAGIBIS HUB MAPPER "@, INNER as nat);
    let tail = TOP_LEFT@ + RESET@ + seq![' '] + padded(c, PAD_WIDTH as nat) + seq![' '] + CYAN@
        + TOP_RIGHT@ + RESET@;
    assert(b0 =~= CYAN@ + tail);
    lemma_width_concat(CYAN@, tail, true);
    lemma_width_concat(CYAN@, tail, false);
    lemma_width_concat(CLEAR@ + HOME@, b0, false);
}

/// The text of a first line, the lines after it, and a last line.
proof fn lemma_lines_text_split(a: Seq<Seq<char>>, x: Seq<char>, y: Seq<char>)
    requires
        a.len() >= 1,
    ensures
        lines_text(seq![x + a[0]] + a.skip(1) + seq![y]) == x + lines_text(a) + y + seq!['\n'],
{
    let e = Seq::<Seq<char>>::empty();
    lemma_lines_text_push(e, x + a[0]);
    lemma_lines_text_push(e, a[0]);
    assert(seq![x + a[0]] =~= e.push(x + a[0]));
    assert(seq![a[0]] =~= e.push(a[0]));
    assert(lines_text(e) =~= Seq::<char>::empty());
    lemma_lines_text_concat(seq![x + a[0]], a.skip(1));
    lemma_lines_text_concat(seq![a[0]], a.skip(1));
    assert(seq![a[0]] + a.skip(1) =~= a);
    lemma_lines_text_concat(seq![x + a[0]] + a.skip(1), seq![y]);
    lemma_lines_text_push(e, y);
    assert(seq![y] =~= e.push(y));
    assert(lines_text(seq![x + a[0]] + a.skip(1) + seq![y]) =~= x + lines_text(a) + y + seq![
        '\n',
    ]);
}

/// The screen as a terminal shows it: it starts with clear-and-home and
/// ends with a line break; its lines are 18 with a keyboard report shown
/// and 17 without (the box and the legend); and when the app name and the
/// labels hold no escape character or line break, no line holds a line
/// break and every line but the legend is exactly 68 columns wide.
pub proof fn lemma_screen_text(st: TuiState)
    ensures
        screen(st) == lines_text(screen_lines(st)),
        screen(st).take(7) == CLEAR@ + HOME@,
        screen(st).last() == '\n',
        screen_lines(st).len() == (if st.keyboard is Some {
            18int
        } else {
            17int
        }),
        plain(st.focused@) && plain(st.btn_tl@) && plain(st.btn_tl_hold@) && plain(st.btn_br@)
            && plain(st.btn_br_hold@) ==> (forall|i: int|
            0 <= i < screen_lines(st).len() ==> no_newline(#[trigger] screen_lines(st)[i])) && (
        forall|i: int|
            0 <= i < screen_lines(st).len() - 1 ==> visual_width_of(#[trigger] screen_lines(st)[i])
                == 68),
{
    reveal_strlit("\x1b[2J");
    reveal_strlit("\x1b[H");
    lemma_screen_layout(st);
    let b = box_lines(st);
    let ch = CLEAR@ + HOME@;
    lemma_lines_text_split(b, ch, legend_line(st));
    let sl = screen_lines(st);
    assert(ch.len() == 7);
    assert(screen(st).take(7) =~= ch);
    if plain(st.focused@) && plain(st.btn_tl@) && plain(st.btn_tl_hold@) && plain(st.btn_br@)
        && plain(st.btn_br_hold@) {
        lemma_clear_home();
        lemma_first_line_width(st);
        lemma_newline_concat(ch, b[0]);
        assert forall|i: int| 0 <= i < sl.len() implies no_newline(#[trigger] sl[i]) by {
            if i == 0 {
            } else if i < sl.len() - 1 {
                assert(sl[i] == b[i]);
            } else {
                assert(sl[i] == legend_line(st));
            }
        }
        assert forall|i: int| 0 <= i < sl.len() - 1 implies visual_width_of(#[trigger] sl[i])
            == 68 by {
            if i == 0 {
            } else {
                assert(sl[i] == b[i]);
            }
        }
    }
}
} // verus!
