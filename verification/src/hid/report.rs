use vstd::prelude::*;

use crate::hid::keycode::{ConsumerBits, KeyCode};

verus! {

/// A parsed keyboard report from Interface 0 or Interface 2.
#[derive(Debug, Clone, PartialEq, Eq)]
pub struct KeyboardReport {
    /// HID modifier byte (bitmask: Ctrl, Shift, Alt, GUI; left then right).
    pub modifier: u8,
    /// Currently pressed keycodes (the non-zero slots of the 6KRO array).
    pub keycodes: Vec<KeyCode>,
}

impl KeyboardReport {
    /// A copy of this report.
    pub fn duplicate(&self) -> (r: KeyboardReport)
        ensures
            r.modifier == self.modifier,
            r.keycodes@ == self.keycodes@,
    {
        let mut keycodes: Vec<KeyCode> = Vec::new();
        let mut i: usize = 0;
        while i < self.keycodes.len()
            invariant
                i <= self.keycodes@.len(),
                keycodes@ == self.keycodes@.take(i as int),
            decreases self.keycodes@.len() - i,
        {
            keycodes.push(self.keycodes[i]);
            assert(self.keycodes@.take(i + 1) == self.keycodes@.take(i as int).push(
                self.keycodes@[i as int],
            ));
            i = i + 1;
        }
        assert(self.keycodes@.take(self.keycodes@.len() as int) == self.keycodes@);
        KeyboardReport { modifier: self.modifier, keycodes }
    }
}

/// A parsed consumer report from Interface 1 (knob) or the audio chip.
#[derive(Debug, Clone, Copy, PartialEq, Eq)]
pub struct ConsumerReport {
    pub bits: ConsumerBits,
}

/// Media key flags from report ID 0x52.
#[derive(Debug, Clone, Copy, Default, PartialEq, Eq)]
pub struct MediaKeysReport {
    pub play: bool,
    pub fast_forward: bool,
    pub rewind: bool,
    pub next_track: bool,
    pub prev_track: bool,
}

/// All input report types received from the hub.
#[derive(Debug, Clone, PartialEq, Eq)]
pub enum Report {
    Keyboard(KeyboardReport),
    Consumer(ConsumerReport),
    MediaKeys(MediaKeysReport),
    /// Vendor-defined (report ID 0x3F); ignored.
    Vendor,
    /// Unsupported or unknown format.
    Unknown,
}

} // verus!
