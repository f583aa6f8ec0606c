use vstd::prelude::*;

use crate::backend::traits::FocusedApp;
use crate::config::types::{label_of, ButtonMappingSet, Config, TargetEvent};
use crate::engine::key_mapper::{resolved, ConfigKeyMapper};
use crate::hid::report::Report;
use crate::text::string_of;

verus! {

/// How many poll cycles a non-zero consumer report stays visible in
/// `consumer_sticky` (the knob's pulses are shorter than a poll).
pub const STICKY_CYCLES: u32 = 3;

/// The engine state shown by the GUI (serialised as JSON by the C API).
#[derive(Debug, Clone)]
pub struct Status {
    pub running: bool,
    pub seized: bool,
    pub consumer: u8,
    pub consumer_sticky: u8,
    pub consumer_hold: u32,
    pub keyboard_keys: Vec<u8>,
    pub keyboard_modifiers: u8,
    pub focused_app_id: String,
    pub focused_app_name: String,
    pub btn_tl: String,
    pub btn_tl_hold: String,
    pub btn_br: String,
    pub btn_br_hold: String,
    pub knob_cw: String,
    pub knob_ccw: String,
    pub knob_click: String,
    pub play_pause: String,
    pub engine_present: bool,
    pub error: String,
}

/// The label shown for a slot: its event's label, or a dash when unbound.
pub open spec fn slot_label(slot: Option<TargetEvent>) -> Seq<char> {
    match slot {
        Some(e) => label_of(e),
        None => "—"@,
    }
}

/// The sticky consumer bits and the cycles they stay, one poll cycle later.
pub open spec fn tick(sticky: u8, hold: u32) -> (u8, u32) {
    if hold > 0 {
        if hold - 1 == 0 {
            (0u8, 0u32)
        } else {
            (sticky, (hold - 1) as u32)
        }
    } else {
        (sticky, hold)
    }
}

/// `n` poll cycles of [`tick`].
pub open spec fn ticks(sticky: u8, hold: u32, n: nat) -> (u8, u32)
    decreases n,
{
    if n == 0 {
        (sticky, hold)
    } else {
        let (s, h) = ticks(sticky, hold, (n - 1) as nat);
        tick(s, h)
    }
}

/// The labels of a mapping set are the ones shown in the status.
pub open spec fn shows_labels(s: Status, m: ButtonMappingSet) -> bool {
    &&& s.btn_tl@ == slot_label(m.button_top_left)
    &&& s.btn_tl_hold@ == slot_label(m.button_top_left_hold)
    &&& s.btn_br@ == slot_label(m.button_bottom_right)
    &&& s.btn_br_hold@ == slot_label(m.button_bottom_right_hold)
    &&& s.knob_cw@ == slot_label(m.knob_cw)
    &&& s.knob_ccw@ == slot_label(m.knob_ccw)
    &&& s.knob_click@ == slot_label(m.knob_click)
    &&& s.play_pause@ == slot_label(m.play_pause)
}

/// Nothing seized, no consumer bits or keys, no focused app, every label a
/// dash.
pub open spec fn idle_fields(s: Status) -> bool {
    &&& !s.running && !s.seized
    &&& s.consumer == 0 && s.consumer_sticky == 0 && s.consumer_hold == 0
    &&& s.keyboard_keys@.len() == 0 && s.keyboard_modifiers == 0
    &&& s.focused_app_id@.len() == 0 && s.focused_app_name@ == "—"@
    &&& s.btn_tl@ == "—"@ && s.btn_tl_hold@ == "—"@ && s.btn_br@ == "—"@ && s.btn_br_hold@
        == "—"@
    &&& s.knob_cw@ == "—"@ && s.knob_ccw@ == "—"@ && s.knob_click@ == "—"@ && s.play_pause@
        == "—"@
}

/// The status of an engine that is not running: idle fields, engine not
/// present, no error.
pub open spec fn is_idle(s: Status) -> bool {
    &&& idle_fields(s)
    &&& !s.engine_present
    &&& s.error@.len() == 0
}

/// The focused application's ID as the mapping resolver takes it: none
/// when it is empty.
pub open spec fn focus_of_status(s: Status) -> Option<Seq<char>> {
    if s.focused_app_id@.len() == 0 {
        None
    } else {
        Some(s.focused_app_id@)
    }
}

fn dash() -> (r: String)
    ensures
        r@ == "—"@,
{
    string_of("—")
}

/// The label of a slot as shown in the status.
pub fn slot_label_text(slot: &Option<TargetEvent>) -> (r: String)
    ensures
        r@ == slot_label(*slot),
{
    match slot {
        Some(e) => string_of(e.label()),
        None => dash(),
    }
}

impl Status {
    /// The status of an engine that is not running.
    pub fn idle() -> (r: Status)
        ensures
            is_idle(r),
    {
        Status {
            running: false,
            seized: false,
            consumer: 0,
            consumer_sticky: 0,
            consumer_hold: 0,
            keyboard_keys: Vec::new(),
            keyboard_modifiers: 0,
            focused_app_id: String::new(),
            focused_app_name: dash(),
            btn_tl: dash(),
            btn_tl_hold: dash(),
            btn_br: dash(),
            btn_br_hold: dash(),
            knob_cw: dash(),
            knob_ccw: dash(),
            knob_click: dash(),
            play_pause: dash(),
            engine_present: false,
            error: String::new(),
        }
    }

    /// The status while the engine looks for the hub: idle, but the engine
    /// is present, with the last error (empty after an unplug).
    pub fn seeking(error: String) -> (r: Status)
        ensures
            idle_fields(r),
            r.engine_present,
            r.error@ == error@,
    {
        let mut st = Status::idle();
        st.engine_present = true;
        st.error = error;
        st
    }

    /// Start of an active poll cycle: running and seized, no error, the
    /// sticky consumer bits one cycle older, the focused application taken
    /// over when one is known, and the labels of the mapping that applies.
    pub fn begin_cycle(&mut self, focused: Option<&FocusedApp>, config: &Config)
        ensures
            final(self).running && final(self).seized && final(self).engine_present,
            final(self).error@.len() == 0,
            (final(self).consumer_sticky, final(self).consumer_hold) == tick(
                old(self).consumer_sticky,
                old(self).consumer_hold,
            ),
            final(self).consumer == old(self).consumer,
            final(self).keyboard_keys@ == old(self).keyboard_keys@,
            final(self).keyboard_modifiers == old(self).keyboard_modifiers,
            match focused {
                Some(app) => final(self).focused_app_id@ == app.id@ && final(self).focused_app_name@
                    == app.name@,
                None => final(self).focused_app_id@ == old(self).focused_app_id@
                    && final(self).focused_app_name@ == old(self).focused_app_name@,
            },
            shows_labels(*final(self), resolved(*config, focus_of_status(*final(self)))),
    {
        self.running = true;
        self.seized = true;
        self.engine_present = true;
        self.error = String::new();
        if self.consumer_hold > 0 {
            self.consumer_hold = self.consumer_hold - 1;
            if self.consumer_hold == 0 {
                self.consumer_sticky = 0;
            }
        }
        if let Some(app) = focused {
            self.focused_app_id = app.id.clone();
            self.focused_app_name = app.name.clone();
        }
        let mapping = if self.focused_app_id.unicode_len() == 0 {
            ConfigKeyMapper::resolve(config, None)
        } else {
            ConfigKeyMapper::resolve(config, Some(self.focused_app_id.as_str()))
        };
        self.btn_tl = slot_label_text(&mapping.button_top_left);
        self.btn_tl_hold = slot_label_text(&mapping.button_top_left_hold);
        self.btn_br = slot_label_text(&mapping.button_bottom_right);
        self.btn_br_hold = slot_label_text(&mapping.button_bottom_right_hold);
        self.knob_cw = slot_label_text(&mapping.knob_cw);
        self.knob_ccw = slot_label_text(&mapping.knob_ccw);
        self.knob_click = slot_label_text(&mapping.knob_click);
        self.play_pause = slot_label_text(&mapping.play_pause);
    }

    /// Record a report: a consumer report shows its bits (non-zero bits
    /// stay visible for [`STICKY_CYCLES`] cycles), a keyboard report its
    /// keys and modifiers; other reports change nothing.
    pub fn record_report(&mut self, report: &Report)
        ensures
            match *report {
                Report::Consumer(c) => final(self).consumer == c.bits.0 && (if c.bits.0 != 0 {
                    final(self).consumer_sticky == c.bits.0 && final(self).consumer_hold
                        == STICKY_CYCLES
                } else {
                    final(self).consumer_sticky == old(self).consumer_sticky
                        && final(self).consumer_hold == old(self).consumer_hold
                }) && final(self).keyboard_keys@ == old(self).keyboard_keys@
                    && final(self).keyboard_modifiers == old(self).keyboard_modifiers,
                Report::Keyboard(kb) => final(self).keyboard_modifiers == kb.modifier
                    && final(self).keyboard_keys@.len() == kb.keycodes@.len() && (forall|i: int|
                    0 <= i < kb.keycodes@.len() ==> final(self).keyboard_keys@[i]
                        == kb.keycodes@[i].0) && final(self).consumer == old(self).consumer
                    && final(self).consumer_sticky == old(self).consumer_sticky
                    && final(self).consumer_hold == old(self).consumer_hold,
                _ => final(self).consumer == old(self).consumer && final(self).consumer_sticky
                    == old(self).consumer_sticky && final(self).consumer_hold
                    == old(self).consumer_hold && final(self).keyboard_keys@
                    == old(self).keyboard_keys@ && final(self).keyboard_modifiers
                    == old(self).keyboard_modifiers,
            },
            final(self).running == old(self).running,
            final(self).seized == old(self).seized,
            final(self).engine_present == old(self).engine_present,
            final(self).focused_app_id@ == old(self).focused_app_id@,
            final(self).error@ == old(self).error@,
            final(self).focused_app_name == old(self).focused_app_name,
            final(self).btn_tl == old(self).btn_tl,
            final(self).btn_tl_hold == old(self).btn_tl_hold,
            final(self).btn_br == old(self).btn_br,
            final(self).btn_br_hold == old(self).btn_br_hold,
            final(self).knob_cw == old(self).knob_cw,
            final(self).knob_ccw == old(self).knob_ccw,
            final(self).knob_click == old(self).knob_click,
            final(self).play_pause == old(self).play_pause,
            final(self).focused_app_id == old(self).focused_app_id,
            final(self).error == old(self).error,
    {
        match report {
            Report::Consumer(c) => {
                self.consumer = c.bits.0;
                if c.bits.0 != 0 {
                    self.consumer_sticky = c.bits.0;
                    self.consumer_hold = STICKY_CYCLES;
                }
            },
            Report::Keyboard(kb) => {
                let mut keys: Vec<u8> = Vec::new();
                let mut i: usize = 0;
                while i < kb.keycodes.len()
                    invariant
                        i <= kb.keycodes@.len(),
                        keys@.len() == i,
                        forall|j: int| 0 <= j < i ==> keys@[j] == kb.keycodes@[j].0,
                    decreases kb.keycodes@.len() - i,
                {
                    keys.push(kb.keycodes[i].0);
                    i = i + 1;
                }
                self.keyboard_keys = keys;
                self.keyboard_modifiers = kb.modifier;
            },
            _ => {},
        }
    }
}

/// A non-zero consumer report stays visible for exactly three poll cycles:
/// after one or two cycles the sticky bits are unchanged, after the third
/// they are cleared.
pub proof fn lemma_sticky_bits_last_three_cycles(bits: u8)
    ensures
        ticks(bits, STICKY_CYCLES, 1).0 == bits,
        ticks(bits, STICKY_CYCLES, 2).0 == bits,
        ticks(bits, STICKY_CYCLES, 3) == (0u8, 0u32),
{
    reveal_with_fuel(ticks, 4);
}

/// Once the sticky time has run out, further cycles change nothing.
pub proof fn lemma_tick_settles(sticky: u8)
    ensures
        tick(sticky, 0) == (sticky, 0u32),
{
}

} // verus!
