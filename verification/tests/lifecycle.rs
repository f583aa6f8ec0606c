use hagibis_hub_mapper::engine::lifecycle::{engine_step, EngineAction, EngineEvent, EnginePhase};
use hagibis_hub_mapper::engine::status::Status;

#[test]
fn seeking_steps() {
    let mut st = Status::idle();
    let r = engine_step(EnginePhase::Seeking, EngineEvent::SeizeFailed("seize error: x".into()), &mut st);
    assert_eq!(r, (EnginePhase::Seeking, EngineAction::RetryLater));
    assert!(st.engine_present);
    assert_eq!(st.error, "seize error: x");
    assert_eq!(st.btn_tl, "—");

    let r = engine_step(EnginePhase::Seeking, EngineEvent::Seized, &mut st);
    assert_eq!(r, (EnginePhase::Active, EngineAction::Continue));
    assert_eq!(st.error, "seize error: x");

    let r = engine_step(EnginePhase::Seeking, EngineEvent::StopRequested, &mut st);
    assert_eq!(r, (EnginePhase::Stopped, EngineAction::Exit));
    assert!(!st.engine_present);
    assert!(st.error.is_empty());
}

#[test]
fn active_steps() {
    let mut st = Status::idle();
    st.running = true;
    st.seized = true;
    st.consumer = 0x41;
    let r = engine_step(EnginePhase::Active, EngineEvent::PollFailed("boom".into()), &mut st);
    assert_eq!(r, (EnginePhase::Seeking, EngineAction::ReleaseAndSeek));
    assert_eq!(st.error, "boom");
    assert!(st.running && st.seized);
    assert_eq!(st.consumer, 0x41);

    let r = engine_step(EnginePhase::Active, EngineEvent::Unplugged, &mut st);
    assert_eq!(r, (EnginePhase::Seeking, EngineAction::ReleaseAndSeek));
    assert!(st.engine_present && !st.running && !st.seized);
    assert!(st.error.is_empty());

    let r = engine_step(EnginePhase::Active, EngineEvent::StopRequested, &mut st);
    assert_eq!(r, (EnginePhase::Stopped, EngineAction::ReleaseAndExit));
    assert!(!st.engine_present);

    let r = engine_step(EnginePhase::Stopped, EngineEvent::Seized, &mut st);
    assert_eq!(r, (EnginePhase::Stopped, EngineAction::Continue));
}
