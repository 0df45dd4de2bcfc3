use system_info::{Sampler, SamplerAction, SamplerEvent, SamplerState};

fn tick(consumer_alive: bool, state_acquired: bool) -> SamplerEvent {
    SamplerEvent::Tick { consumer_alive, state_acquired }
}

#[test]
fn delivers_when_consumer_and_state_are_available() {
    let mut s = Sampler::new();
    assert!(s.is_running());
    assert_eq!(s.on_event(tick(true, true)), SamplerAction::Deliver);
    assert_eq!(s.state, SamplerState::Running);
}

#[test]
fn skips_when_consumer_is_gone() {
    let mut s = Sampler::new();
    assert_eq!(s.on_event(tick(false, false)), SamplerAction::SkipConsumerGone);
    assert_eq!(s.state, SamplerState::Running);
}

#[test]
fn skips_when_state_is_busy() {
    let mut s = Sampler::new();
    assert_eq!(s.on_event(tick(true, false)), SamplerAction::SkipStateBusy);
    assert_eq!(s.state, SamplerState::Running);
}

#[test]
fn unresolvable_consumer_keeps_the_sampler_running() {
    let mut s = Sampler::new();
    for _ in 0..1000 {
        assert_eq!(s.on_event(tick(false, false)), SamplerAction::SkipConsumerGone);
    }
    assert!(s.is_running());
}

#[test]
fn shutdown_stops_cleanly() {
    let mut s = Sampler::new();
    assert_eq!(s.on_event(tick(true, true)), SamplerAction::Deliver);
    assert_eq!(s.on_event(SamplerEvent::Shutdown), SamplerAction::Halt);
    assert!(!s.is_running());
    assert_eq!(s.on_event(tick(true, true)), SamplerAction::Halt);
    assert_eq!(s.on_event(SamplerEvent::Shutdown), SamplerAction::Halt);
    assert_eq!(s.state, SamplerState::Stopped);
}
