//! The engine's life cycle: it looks for the hub (seeking), remaps it while
//! seized (active), and stops on request. The engine thread performs the
//! I/O each step asks for and reports what happened as the next event.

use vstd::prelude::*;

use crate::engine::status::{idle_fields, is_idle, Status};

verus! {

/// Where the engine is in its life cycle.
#[derive(Debug, Clone, Copy, PartialEq, Eq)]
pub enum EnginePhase {
    /// Trying to seize the hub.
    Seeking,
    /// The hub is seized and its reports are remapped.
    Active,
    /// The engine has ended.
    Stopped,
}

/// What the engine thread observed.
#[derive(Debug, Clone)]
pub enum EngineEvent {
    /// A stop was requested.
    StopRequested,
    /// Seizing the hub succeeded.
    Seized,
    /// Seizing the hub failed, with the error's message.
    SeizeFailed(String),
    /// The seized hub was unplugged.
    Unplugged,
    /// Reading a report failed, with the error's message.
    PollFailed(String),
}

/// What the engine thread does next.
#[derive(Debug, Clone, Copy, PartialEq, Eq)]
pub enum EngineAction {
    /// Go on with the current phase.
    Continue,
    /// Take a fresh backend and try seizing again after a pause.
    RetryLater,
    /// Release the hub and start seeking again.
    ReleaseAndSeek,
    /// Release the hub and end the thread.
    ReleaseAndExit,
    /// End the thread.
    Exit,
}

/// The phase and action after `event` in `phase`.
pub open spec fn transition(phase: EnginePhase, event: EngineEvent) -> (EnginePhase, EngineAction) {
    match (phase, event) {
        (EnginePhase::Seeking, EngineEvent::StopRequested) => (
            EnginePhase::Stopped,
            EngineAction::Exit,
        ),
        (EnginePhase::Seeking, EngineEvent::Seized) => (EnginePhase::Active, EngineAction::Continue),
        (EnginePhase::Seeking, EngineEvent::SeizeFailed(_)) => (
            EnginePhase::Seeking,
            EngineAction::RetryLater,
        ),
        (EnginePhase::Active, EngineEvent::StopRequested) => (
            EnginePhase::Stopped,
            EngineAction::ReleaseAndExit,
        ),
        (EnginePhase::Active, EngineEvent::Unplugged) => (
            EnginePhase::Seeking,
            EngineAction::ReleaseAndSeek,
        ),
        (EnginePhase::Active, EngineEvent::PollFailed(_)) => (
            EnginePhase::Seeking,
            EngineAction::ReleaseAndSeek,
        ),
        (p, _) => (p, EngineAction::Continue),
    }
}

/// One step of the life cycle: the next phase and action for `event`, and
/// the status the GUI sees after it. A stop leaves the status idle; a
/// failed seize shows the error while seeking; an unplug goes back to
/// seeking with no error; a failed read keeps the status and shows the
/// error. Events that cannot happen in a phase change nothing.
pub fn engine_step(phase: EnginePhase, event: EngineEvent, status: &mut Status) -> (r: (
    EnginePhase,
    EngineAction,
))
    ensures
        r == transition(phase, event),
        match (phase, event) {
            (EnginePhase::Seeking, EngineEvent::StopRequested) => is_idle(*final(status)),
            (EnginePhase::Active, EngineEvent::StopRequested) => is_idle(*final(status)),
            (EnginePhase::Seeking, EngineEvent::SeizeFailed(e)) => idle_fields(*final(status))
                && final(status).engine_present && final(status).error@ == e@,
            (EnginePhase::Active, EngineEvent::Unplugged) => idle_fields(*final(status))
                && final(status).engine_present && final(status).error@.len() == 0,
            (EnginePhase::Active, EngineEvent::PollFailed(e)) => *final(status) == (Status {
                error: e,
                ..*old(status)
            }),
            _ => *final(status) == *old(status),
        },
{
    match phase {
        EnginePhase::Seeking => match event {
            EngineEvent::StopRequested => {
                *status = Status::idle();
                (EnginePhase::Stopped, EngineAction::Exit)
            },
            EngineEvent::Seized => (EnginePhase::Active, EngineAction::Continue),
            EngineEvent::SeizeFailed(e) => {
                *status = Status::seeking(e);
                (EnginePhase::Seeking, EngineAction::RetryLater)
            },
            _ => (EnginePhase::Seeking, EngineAction::Continue),
        },
        EnginePhase::Active => match event {
            EngineEvent::StopRequested => {
                *status = Status::idle();
                (EnginePhase::Stopped, EngineAction::ReleaseAndExit)
            },
            EngineEvent::Unplugged => {
                *status = Status::seeking(String::new());
                (EnginePhase::Seeking, EngineAction::ReleaseAndSeek)
            },
            EngineEvent::PollFailed(e) => {
                status.error = e;
                (EnginePhase::Seeking, EngineAction::ReleaseAndSeek)
            },
            _ => (EnginePhase::Active, EngineAction::Continue),
        },
        EnginePhase::Stopped => (EnginePhase::Stopped, EngineAction::Continue),
    }
}

/// Once stopped, the engine stays stopped: no event restarts it.
pub proof fn lemma_stopped_stays_stopped(event: EngineEvent)
    ensures
        transition(EnginePhase::Stopped, event) == (EnginePhase::Stopped, EngineAction::Continue),
{
}

/// A stop request ends the engine from any running phase, releasing the hub
/// when it was seized.
pub proof fn lemma_stop_always_ends(phase: EnginePhase)
    requires
        phase != EnginePhase::Stopped,
    ensures
        transition(phase, EngineEvent::StopRequested).0 == EnginePhase::Stopped,
        phase == EnginePhase::Active ==> transition(phase, EngineEvent::StopRequested).1
            == EngineAction::ReleaseAndExit,
{
}

} // verus!
