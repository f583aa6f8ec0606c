use vstd::prelude::*;

use crate::config::types::{Config, TargetEvent};
use crate::engine::consumer::{consumer_events, ConsumerHandler};
use crate::engine::key_mapper::{focus_view, resolved, ConfigKeyMapper};
use crate::engine::keyboard::{keyboard_events, KeyboardHandler};
use crate::hid::keycode::KeyCode;
use crate::hid::report::Report;

verus! {

/// Routes a parsed [`Report`] to the keyboard or the consumer handler and
/// returns the target events to inject.
pub struct Dispatcher {
    keyboard: KeyboardHandler,
    consumer: ConsumerHandler,
}

impl View for Dispatcher {
    /// The keys held in the previous keyboard report and the bits of the
    /// previous consumer report.
    type V = (Set<KeyCode>, u8);

    closed spec fn view(&self) -> (Set<KeyCode>, u8) {
        (self.keyboard@, self.consumer@)
    }
}

impl Dispatcher {
    /// A dispatcher that has seen no report.
    pub fn new() -> (r: Self)
        ensures
            r@ == (Set::<KeyCode>::empty(), 0u8),
    {
        Self { keyboard: KeyboardHandler::new(), consumer: ConsumerHandler::new() }
    }

    /// The events to fire for `report`, under the mapping that applies to
    /// the focused application. Keyboard reports update the held keys,
    /// consumer reports the previous bits; other reports change nothing and
    /// fire nothing.
    pub fn dispatch(&mut self, report: &Report, config: &Config, focused_app_id: Option<&str>) -> (r:
        Vec<TargetEvent>)
        ensures
            ({
                let m = resolved(*config, focus_view(focused_app_id));
                match *report {
                    Report::Keyboard(kb) => r@ == keyboard_events(old(self)@.0, kb.keycodes@, m)
                        && final(self)@ == (kb.keycodes@.to_set(), old(self)@.1),
                    Report::Consumer(c) => r@ == consumer_events(old(self)@.1, c.bits.0, m)
                        && final(self)@ == (old(self)@.0, c.bits.0),
                    _ => r@ == Seq::<TargetEvent>::empty() && final(self)@ == old(self)@,
                }
            }),
    {
        let mapping = ConfigKeyMapper::resolve(config, focused_app_id);
        match report {
            Report::Keyboard(kb) => self.keyboard.handle(kb, &mapping),
            Report::Consumer(c) => self.consumer.handle(c, &mapping),
            _ => Vec::new(),
        }
    }
}

} // verus!
