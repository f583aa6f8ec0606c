use vstd::prelude::*;

use crate::config::types::{duplicate_slot, ButtonMappingSet, TargetEvent};
use crate::hid::keycode::{CONSUMER_MUTE, CONSUMER_PLAY_PAUSE, CONSUMER_VOL_DOWN, CONSUMER_VOL_UP};
use crate::hid::report::ConsumerReport;

verus! {

/// A bit that is set now and was clear before.
pub open spec fn rising(prev: u8, curr: u8, mask: u8) -> bool {
    curr & mask != 0 && prev & mask == 0
}

/// The event of a slot when its bit rose, else nothing.
pub open spec fn on_rise(prev: u8, curr: u8, mask: u8, slot: Option<TargetEvent>) -> Seq<
    TargetEvent,
> {
    if rising(prev, curr, mask) && slot is Some {
        seq![slot->0]
    } else {
        Seq::empty()
    }
}

/// The events a consumer report fires after the previous one, in order:
/// knob clockwise (0x01), knob counter-clockwise (0x02), knob click (0x04),
/// play/pause (0x40), each on the rising edge of its bit.
pub open spec fn consumer_events(prev: u8, curr: u8, m: ButtonMappingSet) -> Seq<TargetEvent> {
    on_rise(prev, curr, CONSUMER_VOL_UP, m.knob_cw) + on_rise(prev, curr, CONSUMER_VOL_DOWN, m.knob_ccw)
        + on_rise(prev, curr, CONSUMER_MUTE, m.knob_click) + on_rise(
        prev,
        curr,
        CONSUMER_PLAY_PAUSE,
        m.play_pause,
    )
}

/// Tracks the consumer bits of the previous report and turns the rising
/// edges of the next one into target events.
pub struct ConsumerHandler {
    last: u8,
}

impl View for ConsumerHandler {
    type V = u8;

    /// The consumer bits of the previous report.
    closed spec fn view(&self) -> u8 {
        self.last
    }
}

fn fire_on_rise(
    events: &mut Vec<TargetEvent>,
    prev: u8,
    curr: u8,
    mask: u8,
    slot: &Option<TargetEvent>,
)
    ensures
        final(events)@ == old(events)@ + on_rise(prev, curr, mask, *slot),
{
    if ConsumerHandler::edge(prev, curr, mask) {
        if let Some(event) = slot {
            events.push(event.duplicate());
            return;
        }
    }
    assert(old(events)@ + Seq::<TargetEvent>::empty() == old(events)@);
}

impl ConsumerHandler {
    /// A handler that has seen no bits set.
    pub fn new() -> (r: Self)
        ensures
            r@ == 0,
    {
        Self { last: 0 }
    }

    /// The events to fire for this report, in order (each on the rising edge
    /// of its bit); the report's bits become the previous ones.
    pub fn handle(&mut self, report: &ConsumerReport, mapping: &ButtonMappingSet) -> (r: Vec<
        TargetEvent,
    >)
        ensures
            r@ == consumer_events(old(self)@, report.bits.0, *mapping),
            final(self)@ == report.bits.0,
    {
        let curr = report.bits.0;
        let prev = self.last;
        let mut events: Vec<TargetEvent> = Vec::new();
        fire_on_rise(&mut events, prev, curr, CONSUMER_VOL_UP, &mapping.knob_cw);
        fire_on_rise(&mut events, prev, curr, CONSUMER_VOL_DOWN, &mapping.knob_ccw);
        fire_on_rise(&mut events, prev, curr, CONSUMER_MUTE, &mapping.knob_click);
        fire_on_rise(&mut events, prev, curr, CONSUMER_PLAY_PAUSE, &mapping.play_pause);
        self.last = curr;
        assert(events@ =~= consumer_events(prev, curr, *mapping));
        events
    }

    /// Whether a masked bit is set in `curr` and clear in `prev`.
    pub fn edge(prev: u8, curr: u8, mask: u8) -> (r: bool)
        ensures
            r == rising(prev, curr, mask),
    {
        curr & mask != 0 && prev & mask == 0
    }
}

/// The same consumer report seen twice fires nothing the second time: a held
/// knob direction or button is one press.
pub proof fn lemma_consumer_repeat_fires_nothing(bits: u8, m: ButtonMappingSet)
    ensures
        consumer_events(bits, bits, m) == Seq::<TargetEvent>::empty(),
{
    assert(consumer_events(bits, bits, m) =~= Seq::<TargetEvent>::empty());
}

/// A report with no bit set fires nothing, whatever came before.
pub proof fn lemma_consumer_release_fires_nothing(prev: u8, m: ButtonMappingSet)
    ensures
        consumer_events(prev, 0, m) == Seq::<TargetEvent>::empty(),
{
    assert(0u8 & CONSUMER_VOL_UP == 0 && 0u8 & CONSUMER_VOL_DOWN == 0 && 0u8 & CONSUMER_MUTE == 0
        && 0u8 & CONSUMER_PLAY_PAUSE == 0) by (bit_vector);
    assert(consumer_events(prev, 0, m) =~= Seq::<TargetEvent>::empty());
}

} // verus!
