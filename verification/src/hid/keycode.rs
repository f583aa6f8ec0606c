use vstd::prelude::*;

verus! {

/// A USB HID keyboard usage code (keyboard page 0x07).
///
/// Only the codes emitted by the hub's two dual-function buttons have names.
#[derive(Debug, Clone, Copy, PartialEq, Eq, Hash)]
pub struct KeyCode(pub u8);

impl KeyCode {
    /// Usage code of the top-left button, short press.
    pub const BTN_TOP_LEFT: u8 = 0x0F;
    /// Usage code of the top-left button, hold (>500ms).
    pub const BTN_TOP_LEFT_HOLD: u8 = 0x14;
    /// Usage code of the bottom-right button, short press.
    pub const BTN_BOTTOM_RIGHT: u8 = 0x46;
    /// Usage code of the bottom-right button, hold (>500ms).
    pub const BTN_BOTTOM_RIGHT_HOLD: u8 = 0x20;
}

/// The first byte of a consumer-control report (page 0x0C), used by the
/// knob and by the audio chip.
#[derive(Debug, Clone, Copy, PartialEq, Eq)]
pub struct ConsumerBits(pub u8);

/// Bit of the volume-increment usage (knob turned clockwise).
pub const CONSUMER_VOL_UP: u8 = 0x01;
/// Bit of the volume-decrement usage (knob turned counter-clockwise).
pub const CONSUMER_VOL_DOWN: u8 = 0x02;
/// Bit of the mute usage (knob pressed).
pub const CONSUMER_MUTE: u8 = 0x04;
/// Bit of the play/pause usage (audio chip button).
pub const CONSUMER_PLAY_PAUSE: u8 = 0x40;

impl ConsumerBits {
    /// Whether the given mask has any bit in common with this byte.
    pub open spec fn has_bit(self, mask: u8) -> bool {
        self.0 & mask != 0
    }

    /// Volume-increment bit (0x01).
    pub fn has_vol_up(&self) -> (r: bool)
        ensures
            r == self.has_bit(CONSUMER_VOL_UP),
    {
        self.0 & CONSUMER_VOL_UP != 0
    }

    /// Volume-decrement bit (0x02).
    pub fn has_vol_down(&self) -> (r: bool)
        ensures
            r == self.has_bit(CONSUMER_VOL_DOWN),
    {
        self.0 & CONSUMER_VOL_DOWN != 0
    }

    /// Mute bit (0x04).
    pub fn has_mute(&self) -> (r: bool)
        ensures
            r == self.has_bit(CONSUMER_MUTE),
    {
        self.0 & CONSUMER_MUTE != 0
    }

    /// Play/pause bit (0x40).
    pub fn has_play_pause(&self) -> (r: bool)
        ensures
            r == self.has_bit(CONSUMER_PLAY_PAUSE),
    {
        self.0 & CONSUMER_PLAY_PAUSE != 0
    }
}

} // verus!
