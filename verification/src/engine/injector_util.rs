use vstd::prelude::*;

use crate::config::combo::{combo_of, parse_combo_on, ParsedCombo, Platform};
use crate::config::types::TargetEvent;
use crate::error::Error;
use crate::text::{push_str, string_of};

verus! {

/// One call into the platform injector. Floating-point arguments are the
/// `f64` bit patterns carried by the target event.
#[derive(Debug, Clone, Copy, PartialEq, Eq)]
pub enum InjectCall {
    /// `inject_key(vk, down)`.
    Key { vk: u16, down: bool },
    /// `inject_key_combo(vk, modifiers)`.
    KeyCombo { vk: u16, modifiers: u8 },
    /// `inject_media_key(key_type)`.
    MediaKey { key_type: u8 },
    /// `inject_system_event(subtype, data)`.
    SystemEvent { subtype: u16, data: i32 },
    /// `inject_mouse_move(dx, dy)`.
    MouseMove { dx: u64, dy: u64 },
    /// `inject_mouse_click(button, x, y)`.
    MouseClick { button: u8, x: Option<u64>, y: Option<u64> },
    /// `inject_mouse_scroll(dx, dy)`.
    MouseScroll { dx: u64, dy: u64 },
}

/// The calls that inject a parsed combo: one combo call when modifiers are
/// held, else a key-down followed by a key-up.
pub open spec fn combo_calls(c: ParsedCombo) -> Seq<InjectCall> {
    if c.modifiers != 0 {
        seq![InjectCall::KeyCombo { vk: c.vk, modifiers: c.modifiers }]
    } else {
        seq![InjectCall::Key { vk: c.vk, down: true }, InjectCall::Key { vk: c.vk, down: false }]
    }
}

/// The injector calls that execute an event, in order; `None` when it is a
/// keyboard event whose binding does not parse.
pub open spec fn planned_calls(platform: Platform, e: TargetEvent) -> Option<Seq<InjectCall>> {
    match e {
        TargetEvent::Keyboard { binding, .. } => match combo_of(platform, binding@) {
            Some(c) => Some(combo_calls(c)),
            None => None,
        },
        TargetEvent::MediaKey { key_type, .. } => Some(seq![InjectCall::MediaKey { key_type }]),
        TargetEvent::SystemEvent { subtype, data, .. } => Some(
            seq![InjectCall::SystemEvent { subtype, data }],
        ),
        TargetEvent::MouseMove { dx, dy, .. } => Some(seq![InjectCall::MouseMove { dx, dy }]),
        TargetEvent::MouseClick { button, x, y, .. } => Some(
            seq![InjectCall::MouseClick { button, x, y }],
        ),
        TargetEvent::MouseScroll { dx, dy, .. } => Some(seq![InjectCall::MouseScroll { dx, dy }]),
    }
}

/// The injector calls that execute `event` on `platform`, to be made in
/// order, stopping at the first that fails. A keyboard event whose binding
/// does not parse is a config error `"invalid binding: <binding>"`.
pub fn fire(event: &TargetEvent, platform: Platform) -> (r: Result<Vec<InjectCall>, Error>)
    ensures
        planned_calls(platform, *event) matches Some(calls) ==> (r matches Ok(v) && v@ == calls),
        planned_calls(platform, *event) is None ==> event is Keyboard && (r matches Err(
            Error::Config(m),
        ) && m@ == "invalid binding: "@ + event->Keyboard_binding@),
{
    let mut calls: Vec<InjectCall> = Vec::new();
    match event {
        TargetEvent::Keyboard { binding, .. } => {
            match parse_combo_on(binding.as_str(), platform) {
                Some(parsed) => {
                    if parsed.modifiers != 0 {
                        calls.push(
                            InjectCall::KeyCombo { vk: parsed.vk, modifiers: parsed.modifiers },
                        );
                    } else {
                        calls.push(InjectCall::Key { vk: parsed.vk, down: true });
                        calls.push(InjectCall::Key { vk: parsed.vk, down: false });
                    }
                },
                None => {
                    let mut m = string_of("invalid binding: ");
                    push_str(&mut m, binding.as_str());
                    return Err(Error::Config(m));
                },
            }
        },
        TargetEvent::MediaKey { key_type, .. } => {
            calls.push(InjectCall::MediaKey { key_type: *key_type });
        },
        TargetEvent::SystemEvent { subtype, data, .. } => {
            calls.push(InjectCall::SystemEvent { subtype: *subtype, data: *data });
        },
        TargetEvent::MouseMove { dx, dy, .. } => {
            calls.push(InjectCall::MouseMove { dx: *dx, dy: *dy });
        },
        TargetEvent::MouseClick { button, x, y, .. } => {
            calls.push(InjectCall::MouseClick { button: *button, x: *x, y: *y });
        },
        TargetEvent::MouseScroll { dx, dy, .. } => {
            calls.push(InjectCall::MouseScroll { dx: *dx, dy: *dy });
        },
    }
    Ok(calls)
}

} // verus!
