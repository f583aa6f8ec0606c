use vstd::prelude::*;

use crate::text::{chars_of, string_of, trim, trim_bounds};

verus! {

/// Target event to inject for a hub control.
///
/// Floating-point quantities (mouse deltas and positions) are carried as the
/// IEEE-754 bit patterns of their `f64` values (`f64::to_bits`); the engine
/// never computes with them, it hands them to the injector unchanged.
#[derive(Debug, Clone)]
pub enum TargetEvent {
    /// A keyboard event: a single key (`"A"`, `"Space"`) or a combo with
    /// modifiers (`"Ctrl+Q"`, `"Shift+Cmd+4"`).
    Keyboard { binding: String, label: String },
    /// A system media key (`NX_KEYTYPE_*`: 0=VolUp, 1=VolDown, 7=Mute, 16=Play...).
    MediaKey { key_type: u8, label: String },
    /// A system-level event (sleep, restart, shutdown, brightness, eject...).
    SystemEvent { subtype: u16, data: i32, label: String },
    /// Move the mouse cursor relative to its position (`f64` bit patterns).
    MouseMove { dx: u64, dy: u64, label: String },
    /// Mouse button click (1 = left, 2 = right, 3 = middle), optionally at an
    /// absolute position (`f64` bit patterns).
    MouseClick { button: u8, x: Option<u64>, y: Option<u64>, label: String },
    /// Scroll wheel event (`f64` bit patterns).
    MouseScroll { dx: u64, dy: u64, label: String },
}

/// The label shown for an event: its own label when it has one, else a name
/// derived from the event.
pub open spec fn label_of(e: TargetEvent) -> Seq<char> {
    match e {
        TargetEvent::Keyboard { binding, label } => if label@.len() > 0 {
            label@
        } else {
            binding@
        },
        TargetEvent::MediaKey { key_type, label } => if label@.len() > 0 {
            label@
        } else if key_type == 0 {
            "Vol+"@
        } else if key_type == 1 {
            "Vol-"@
        } else if key_type == 7 {
            "Mute"@
        } else if key_type == 16 {
            "Play/Pause"@
        } else if key_type == 17 {
            "Next"@
        } else if key_type == 18 {
            "Prev"@
        } else {
            "MediaKey"@
        },
        TargetEvent::SystemEvent { subtype, label, .. } => if label@.len() > 0 {
            label@
        } else if subtype == 10 {
            "Eject"@
        } else if subtype == 11 {
            "Sleep"@
        } else if subtype == 12 {
            "Restart"@
        } else if subtype == 13 {
            "Shutdown"@
        } else if subtype == 53 {
            "Brightness"@
        } else {
            "SystemEvent"@
        },
        TargetEvent::MouseMove { label, .. } | TargetEvent::MouseClick { label, .. }
        | TargetEvent::MouseScroll { label, .. } => if label@.len() > 0 {
            label@
        } else {
            "Mouse"@
        },
    }
}

/// Sleep, restart and shutdown: the system events that end the session.
pub open spec fn destructive(e: TargetEvent) -> bool {
    e matches TargetEvent::SystemEvent { subtype, .. } && (subtype == 11 || subtype == 12
        || subtype == 13)
}

impl TargetEvent {
    pub const SUBTYPE_POWER_KEY: u16 = 1;
    pub const SUBTYPE_EJECT_KEY: u16 = 10;
    pub const SUBTYPE_SLEEP: u16 = 11;
    pub const SUBTYPE_RESTART: u16 = 12;
    pub const SUBTYPE_SHUTDOWN: u16 = 13;
    /// Synthetic: dispatched as key_type 2/3.
    pub const SUBTYPE_BRIGHTNESS: u16 = 53;

    pub const KEYTYPE_SOUND_UP: u8 = 0;
    pub const KEYTYPE_SOUND_DOWN: u8 = 1;
    pub const KEYTYPE_BRIGHTNESS_UP: u8 = 2;
    pub const KEYTYPE_BRIGHTNESS_DOWN: u8 = 3;
    pub const KEYTYPE_CAPS_LOCK: u8 = 4;
    pub const KEYTYPE_HELP: u8 = 5;
    pub const KEYTYPE_POWER: u8 = 6;
    pub const KEYTYPE_MUTE: u8 = 7;
    pub const KEYTYPE_CONTRAST_UP: u8 = 11;
    pub const KEYTYPE_CONTRAST_DOWN: u8 = 12;
    pub const KEYTYPE_LAUNCH_PANEL: u8 = 13;
    pub const KEYTYPE_EJECT: u8 = 14;
    pub const KEYTYPE_VIDMIRROR: u8 = 15;
    pub const KEYTYPE_PLAY: u8 = 16;
    pub const KEYTYPE_NEXT: u8 = 17;
    pub const KEYTYPE_PREVIOUS: u8 = 18;
    pub const KEYTYPE_FAST: u8 = 19;
    pub const KEYTYPE_REWIND: u8 = 20;
    pub const KEYTYPE_ILLUM_UP: u8 = 21;
    pub const KEYTYPE_ILLUM_DOWN: u8 = 22;
    pub const KEYTYPE_ILLUM_TOGGLE: u8 = 23;

    /// The label shown for this event in the TUI, the status and the GUI.
    pub fn label(&self) -> (r: &str)
        ensures
            r@ == label_of(*self),
    {
        match self {
            TargetEvent::Keyboard { binding, label } => if label.unicode_len() > 0 {
                label.as_str()
            } else {
                binding.as_str()
            },
            TargetEvent::MediaKey { key_type, label } => if label.unicode_len() > 0 {
                label.as_str()
            } else if *key_type == 0 {
                "Vol+"
            } else if *key_type == 1 {
                "Vol-"
            } else if *key_type == 7 {
                "Mute"
            } else if *key_type == 16 {
                "Play/Pause"
            } else if *key_type == 17 {
                "Next"
            } else if *key_type == 18 {
                "Prev"
            } else {
                "MediaKey"
            },
            TargetEvent::SystemEvent { subtype, label, .. } => if label.unicode_len() > 0 {
                label.as_str()
            } else if *subtype == 10 {
                "Eject"
            } else if *subtype == 11 {
                "Sleep"
            } else if *subtype == 12 {
                "Restart"
            } else if *subtype == 13 {
                "Shutdown"
            } else if *subtype == 53 {
                "Brightness"
            } else {
                "SystemEvent"
            },
            TargetEvent::MouseMove { label, .. } => if label.unicode_len() > 0 {
                label.as_str()
            } else {
                "Mouse"
            },
            TargetEvent::MouseClick { label, .. } => if label.unicode_len() > 0 {
                label.as_str()
            } else {
                "Mouse"
            },
            TargetEvent::MouseScroll { label, .. } => if label.unicode_len() > 0 {
                label.as_str()
            } else {
                "Mouse"
            },
        }
    }

    /// Whether this event is a sleep, restart or shutdown.
    pub fn is_destructive(&self) -> (r: bool)
        ensures
            r == destructive(*self),
    {
        match self {
            TargetEvent::SystemEvent { subtype, .. } => *subtype == 11 || *subtype == 12
                || *subtype == 13,
            _ => false,
        }
    }

    /// A copy of this event.
    pub fn duplicate(&self) -> (r: TargetEvent)
        ensures
            r == *self,
    {
        match self {
            TargetEvent::Keyboard { binding, label } => TargetEvent::Keyboard {
                binding: binding.clone(),
                label: label.clone(),
            },
            TargetEvent::MediaKey { key_type, label } => TargetEvent::MediaKey {
                key_type: *key_type,
                label: label.clone(),
            },
            TargetEvent::SystemEvent { subtype, data, label } => TargetEvent::SystemEvent {
                subtype: *subtype,
                data: *data,
                label: label.clone(),
            },
            TargetEvent::MouseMove { dx, dy, label } => TargetEvent::MouseMove {
                dx: *dx,
                dy: *dy,
                label: label.clone(),
            },
            TargetEvent::MouseClick { button, x, y, label } => TargetEvent::MouseClick {
                button: *button,
                x: *x,
                y: *y,
                label: label.clone(),
            },
            TargetEvent::MouseScroll { dx, dy, label } => TargetEvent::MouseScroll {
                dx: *dx,
                dy: *dy,
                label: label.clone(),
            },
        }
    }
}

impl Default for TargetEvent {
    /// An unbound keyboard event (empty binding and label).
    fn default() -> (r: TargetEvent)
        ensures
            r matches TargetEvent::Keyboard { binding, label } && binding@.len() == 0
                && label@.len() == 0,
    {
        TargetEvent::Keyboard { binding: String::new(), label: String::new() }
    }
}

/// A copy of an optional event.
pub fn duplicate_slot(e: &Option<TargetEvent>) -> (r: Option<TargetEvent>)
    ensures
        r == *e,
{
    match e {
        Some(ev) => Some(ev.duplicate()),
        None => None,
    }
}

// ── Hexadecimal identifiers ─────────────────────────────────────────────────

/// The value of a hexadecimal digit (either case).
pub open spec fn hex_digit(c: char) -> Option<nat> {
    if '0' <= c && c <= '9' {
        Some((c as u32 - '0' as u32) as nat)
    } else if 'a' <= c && c <= 'f' {
        Some((c as u32 - 'a' as u32 + 10) as nat)
    } else if 'A' <= c && c <= 'F' {
        Some((c as u32 - 'A' as u32 + 10) as nat)
    } else {
        None
    }
}

/// The value of a string of hexadecimal digits (0 for the empty string).
pub open spec fn hex_value(d: Seq<char>) -> Option<nat>
    decreases d.len(),
{
    if d.len() == 0 {
        Some(0)
    } else {
        match hex_value(d.drop_last()) {
            Some(v) => match hex_digit(d.last()) {
                Some(x) => Some(v * 16 + x),
                None => None,
            },
            None => None,
        }
    }
}

/// What `u16::from_str_radix(s, 16)` returns: an optional leading `+`, then
/// one or more hex digits whose value fits in 16 bits.
pub open spec fn radix16_u16(s: Seq<char>) -> Option<u16> {
    if s.len() == 0 || s == seq!['+'] || s == seq!['-'] {
        None
    } else {
        let d = if s[0] == '+' {
            s.drop_first()
        } else {
            s
        };
        match hex_value(d) {
            Some(v) => if v <= 0xFFFF {
                Some(v as u16)
            } else {
                None
            },
            None => None,
        }
    }
}

/// The identifier value of a config string: the trimmed text after a `0x`
/// prefix when there is one, else the whole (untrimmed) text, read in base 16.
pub open spec fn hex_id(s: Seq<char>) -> Option<u16> {
    let t = trim(s);
    let digits = if t.len() >= 2 && t[0] == '0' && t[1] == 'x' {
        t.skip(2)
    } else {
        s
    };
    radix16_u16(digits)
}

proof fn lemma_hex_value_invalid_stays(d: Seq<char>, i: int, j: int)
    requires
        0 <= i <= j <= d.len(),
        hex_value(d.take(i)) is None,
    ensures
        hex_value(d.take(j)) is None,
    decreases j - i,
{
    if j > i {
        lemma_hex_value_invalid_stays(d, i, j - 1);
        assert(d.take(j).drop_last() == d.take(j - 1));
    }
}

proof fn lemma_hex_value_large_stays(d: Seq<char>, i: int, j: int)
    requires
        0 <= i <= j <= d.len(),
        hex_value(d.take(i)) matches Some(v) && v > 0xFFFF,
    ensures
        hex_value(d.take(j)) matches Some(w) ==> w > 0xFFFF,
    decreases j - i,
{
    if j > i {
        lemma_hex_value_large_stays(d, i, j - 1);
        assert(d.take(j).drop_last() == d.take(j - 1));
    }
}

fn hex_digit_exec(c: char) -> (r: Option<u32>)
    ensures
        r matches Some(x) ==> hex_digit(c) == Some(x as nat) && x < 16,
        r is None ==> hex_digit(c) is None,
{
    if '0' <= c && c <= '9' {
        Some(c as u32 - '0' as u32)
    } else if 'a' <= c && c <= 'f' {
        Some(c as u32 - 'a' as u32 + 10)
    } else if 'A' <= c && c <= 'F' {
        Some(c as u32 - 'A' as u32 + 10)
    } else {
        None
    }
}

/// `u16::from_str_radix(s[start..end], 16)`.
fn radix16_exec(s: &[char], start: usize, end: usize) -> (r: Option<u16>)
    requires
        start <= end <= s@.len(),
    ensures
        r == radix16_u16(s@.subrange(start as int, end as int)),
{
    let ghost whole = s@.subrange(start as int, end as int);
    if start == end {
        return None;
    }
    if end - start == 1 && (s[start] == '+' || s[start] == '-') {
        assert(whole == seq![s@[start as int]]);
        return None;
    }
    assert(whole != seq!['+'] && whole != seq!['-']) by {
        if end - start == 1 {
            assert(whole[0] == s@[start as int]);
        } else {
            assert(whole.len() != 1);
        }
    }
    let first = if s[start] == '+' {
        start + 1
    } else {
        start
    };
    let ghost d = s@.subrange(first as int, end as int);
    assert(d == (if whole[0] == '+' {
        whole.drop_first()
    } else {
        whole
    }));
    let mut v: u32 = 0;
    let mut i = first;
    assert(d.take(0) == Seq::<char>::empty());
    while i < end
        invariant
            first <= i <= end <= s@.len(),
            d == s@.subrange(first as int, end as int),
            whole == s@.subrange(start as int, end as int),
            whole.len() > 0,
            whole != seq!['+'] && whole != seq!['-'],
            d == (if whole[0] == '+' {
                whole.drop_first()
            } else {
                whole
            }),
            hex_value(d.take(i - first)) == Some(v as nat),
            v <= 0xFFFF,
        decreases end - i,
    {
        let k = i - first;
        assert(d.take(k + 1).drop_last() == d.take(k as int));
        assert(d.take(k + 1).last() == s@[i as int]);
        match hex_digit_exec(s[i]) {
            Some(x) => {
                let nv = v * 16 + x;
                if nv > 0xFFFF {
                    proof {
                        lemma_hex_value_large_stays(d, k + 1, d.len() as int);
                        assert(d.take(d.len() as int) == d);
                    }
                    return None;
                }
                v = nv;
            },
            None => {
                proof {
                    lemma_hex_value_invalid_stays(d, k + 1, d.len() as int);
                    assert(d.take(d.len() as int) == d);
                }
                return None;
            },
        }
        i = i + 1;
    }
    assert(d.take(end - first) == d);
    Some(v as u16)
}

/// Parse a hexadecimal identifier such as `"0x05AC"`: the `0x` prefix is
/// optional; without it the text is read as it stands.
pub fn parse_hex_u16(s: &str) -> (r: Option<u16>)
    ensures
        r == hex_id(s@),
{
    let chars = chars_of(s);
    let (lo, hi) = trim_bounds(chars.as_slice(), 0, chars.len());
    assert(chars@.subrange(0, chars@.len() as int) == chars@);
    let ghost t = trim(s@);
    if hi - lo >= 2 && chars[lo] == '0' && chars[lo + 1] == 'x' {
        assert(t.skip(2) == chars@.subrange(lo + 2, hi as int));
        radix16_exec(chars.as_slice(), lo + 2, hi)
    } else {
        assert(!(t.len() >= 2 && t[0] == '0' && t[1] == 'x'));
        radix16_exec(chars.as_slice(), 0, chars.len())
    }
}

/// The `0x` prefix of an identifier is optional: for digits without
/// surrounding white space (and not themselves starting with `0x`),
/// `"0x" + digits` and `digits` read the same value.
pub proof fn lemma_hex_prefix_optional(d: Seq<char>)
    requires
        d.len() == 0 || (!crate::text::is_white_space(d[0]) && !crate::text::is_white_space(
            d.last(),
        )),
        !(d.len() >= 2 && d[0] == '0' && d[1] == 'x'),
    ensures
        hex_id(seq!['0', 'x'] + d) == hex_id(d),
        hex_id(d) == radix16_u16(d),
{
    let p = seq!['0', 'x'] + d;
    assert(p[0] == '0');
    assert(!crate::text::is_white_space('0'));
    assert(crate::text::trim_start(p) == p);
    if d.len() > 0 {
        assert(p.last() == d.last());
    } else {
        assert(p.last() == 'x');
    }
    assert(crate::text::trim_end(p) == p);
    assert(trim(p).skip(2) == d);
    if d.len() > 0 {
        assert(crate::text::trim_start(d) == d);
        assert(crate::text::trim_end(d) == d);
    }
}

// ── Config data types ───────────────────────────────────────────────────────

/// USB HID device matching criteria (all fields must match).
#[derive(Debug, Clone)]
pub struct DeviceMatch {
    /// USB Vendor ID as a hex string, e.g. `"0x05AC"`.
    pub vendor_id: String,
    /// USB Product ID as a hex string, e.g. `"0x029C"`.
    pub product_id: String,
    /// HID Usage Page (`None` matches any usage page).
    pub usage_page: Option<u16>,
    /// HID Usage (`None` matches any usage).
    pub usage: Option<u16>,
}

impl DeviceMatch {
    /// The vendor ID as a number.
    pub fn vendor_id_u16(&self) -> (r: Option<u16>)
        ensures
            r == hex_id(self.vendor_id@),
    {
        parse_hex_u16(self.vendor_id.as_str())
    }

    /// The product ID as a number.
    pub fn product_id_u16(&self) -> (r: Option<u16>)
        ensures
            r == hex_id(self.product_id@),
    {
        parse_hex_u16(self.product_id.as_str())
    }
}

/// Which HID devices/interfaces are seized (entries are alternatives).
#[derive(Debug, Clone)]
pub struct DeviceConfig {
    pub seize: Vec<DeviceMatch>,
}

/// Mapping set for all hub controls. In a profile every field is optional:
/// a missing field inherits the default mapping.
#[derive(Debug, Clone)]
pub struct ButtonMappingSet {
    pub button_bottom_right: Option<TargetEvent>,
    pub button_bottom_right_hold: Option<TargetEvent>,
    pub button_top_left: Option<TargetEvent>,
    pub button_top_left_hold: Option<TargetEvent>,
    pub play_pause: Option<TargetEvent>,
    pub knob_cw: Option<TargetEvent>,
    pub knob_ccw: Option<TargetEvent>,
    pub knob_click: Option<TargetEvent>,
}

/// `a` when it is set, else `b`.
pub open spec fn or_fallback(a: Option<TargetEvent>, b: Option<TargetEvent>) -> Option<
    TargetEvent,
> {
    if a is Some {
        a
    } else {
        b
    }
}

/// Every field of `m` that is unset, filled from `fallback`.
pub open spec fn merged(m: ButtonMappingSet, fallback: ButtonMappingSet) -> ButtonMappingSet {
    ButtonMappingSet {
        button_bottom_right: or_fallback(m.button_bottom_right, fallback.button_bottom_right),
        button_bottom_right_hold: or_fallback(
            m.button_bottom_right_hold,
            fallback.button_bottom_right_hold,
        ),
        button_top_left: or_fallback(m.button_top_left, fallback.button_top_left),
        button_top_left_hold: or_fallback(m.button_top_left_hold, fallback.button_top_left_hold),
        play_pause: or_fallback(m.play_pause, fallback.play_pause),
        knob_cw: or_fallback(m.knob_cw, fallback.knob_cw),
        knob_ccw: or_fallback(m.knob_ccw, fallback.knob_ccw),
        knob_click: or_fallback(m.knob_click, fallback.knob_click),
    }
}

/// The eight slots of a mapping set, in the order the engine scans them:
/// top-left, top-left hold, bottom-right, bottom-right hold, play/pause,
/// knob clockwise, knob counter-clockwise, knob click.
pub open spec fn slots(m: ButtonMappingSet) -> Seq<Option<TargetEvent>> {
    seq![
        m.button_top_left,
        m.button_top_left_hold,
        m.button_bottom_right,
        m.button_bottom_right_hold,
        m.play_pause,
        m.knob_cw,
        m.knob_ccw,
        m.knob_click,
    ]
}

fn pick(a: &Option<TargetEvent>, b: &Option<TargetEvent>) -> (r: Option<TargetEvent>)
    ensures
        r == or_fallback(*a, *b),
{
    if a.is_some() {
        duplicate_slot(a)
    } else {
        duplicate_slot(b)
    }
}

impl ButtonMappingSet {
    /// Fill every unset field from `fallback`, returning a complete set.
    pub fn merge(&self, fallback: &ButtonMappingSet) -> (r: ButtonMappingSet)
        ensures
            r == merged(*self, *fallback),
    {
        ButtonMappingSet {
            button_bottom_right: pick(&self.button_bottom_right, &fallback.button_bottom_right),
            button_bottom_right_hold: pick(
                &self.button_bottom_right_hold,
                &fallback.button_bottom_right_hold,
            ),
            button_top_left: pick(&self.button_top_left, &fallback.button_top_left),
            button_top_left_hold: pick(&self.button_top_left_hold, &fallback.button_top_left_hold),
            play_pause: pick(&self.play_pause, &fallback.play_pause),
            knob_cw: pick(&self.knob_cw, &fallback.knob_cw),
            knob_ccw: pick(&self.knob_ccw, &fallback.knob_ccw),
            knob_click: pick(&self.knob_click, &fallback.knob_click),
        }
    }

    /// A copy of this mapping set.
    pub fn duplicate(&self) -> (r: ButtonMappingSet)
        ensures
            r == *self,
    {
        ButtonMappingSet {
            button_bottom_right: duplicate_slot(&self.button_bottom_right),
            button_bottom_right_hold: duplicate_slot(&self.button_bottom_right_hold),
            button_top_left: duplicate_slot(&self.button_top_left),
            button_top_left_hold: duplicate_slot(&self.button_top_left_hold),
            play_pause: duplicate_slot(&self.play_pause),
            knob_cw: duplicate_slot(&self.knob_cw),
            knob_ccw: duplicate_slot(&self.knob_ccw),
            knob_click: duplicate_slot(&self.knob_click),
        }
    }
}

/// Merging twice with the same fallback changes nothing more.
pub proof fn lemma_merge_idempotent(m: ButtonMappingSet, fallback: ButtonMappingSet)
    ensures
        merged(merged(m, fallback), fallback) == merged(m, fallback),
{
}

/// A slot set in the profile wins; an unset slot takes the fallback's value,
/// set or not.
pub proof fn lemma_merge_slots(m: ButtonMappingSet, fallback: ButtonMappingSet, i: int)
    requires
        0 <= i < 8,
    ensures
        slots(m)[i] is Some ==> slots(merged(m, fallback))[i] == slots(m)[i],
        slots(m)[i] is None ==> slots(merged(m, fallback))[i] == slots(fallback)[i],
{
}

/// Per-app remapping profile.
#[derive(Debug, Clone)]
pub struct Profile {
    pub app_id: String,
    pub app_name: String,
    pub mappings: ButtonMappingSet,
}

/// Logging configuration.
#[derive(Debug, Clone)]
pub struct LoggingConfig {
    /// Minimum log level: `"debug"`, `"info"` or `"warn"`.
    pub loglevel: String,
}

/// The log level used when the config names none.
pub fn default_loglevel() -> (r: String)
    ensures
        r@ == "info"@,
{
    string_of("info")
}

impl Default for LoggingConfig {
    fn default() -> (r: LoggingConfig)
        ensures
            r.loglevel@ == "info"@,
    {
        LoggingConfig { loglevel: default_loglevel() }
    }
}

/// Top-level configuration.
#[derive(Debug, Clone)]
pub struct Config {
    /// Device identification (which USB HID devices to seize).
    pub device: DeviceConfig,
    /// Mapping used when no per-app profile matches.
    pub default: ButtonMappingSet,
    /// Application-specific overrides (checked in order).
    pub profiles: Vec<Profile>,
    /// Logging control.
    pub logging: LoggingConfig,
    /// Whether sleep/restart/shutdown events may be bound.
    pub allow_destructive: bool,
}

} // verus!
