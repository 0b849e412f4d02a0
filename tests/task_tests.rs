use button_events::actuator::{Blinker, Rotator};
use button_events::debouncer::{DebounceAction, PinEvent};
use button_events::level::{LedState, Level};
use button_events::poller::{run_poller, Poller, PollerAction, PollerEvent, PollerPhase};

fn levels(r: &Rotator) -> Vec<Level> {
    (0..r.len()).map(|i| r.output(i)).collect()
}

#[test]
fn rotator_starts_with_first_lit() {
    let r = Rotator::new(3);
    assert_eq!(r.index(), 0);
    assert_eq!(levels(&r), vec![Level::High, Level::Low, Level::Low]);
}

#[test]
fn rotator_moves_lit_output() {
    let mut r = Rotator::new(3);
    assert_eq!(r.on_event(LedState::Toggle), (0, 1));
    assert_eq!(r.index(), 1);
    assert_eq!(levels(&r), vec![Level::Low, Level::High, Level::Low]);
    assert_eq!(r.on_event(LedState::Toggle), (1, 2));
    assert_eq!(r.on_event(LedState::Toggle), (2, 0));
    assert_eq!(r.index(), 0);
    assert_eq!(levels(&r), vec![Level::High, Level::Low, Level::Low]);
}

#[test]
fn rotator_of_one_output_stays_lit() {
    let mut r = Rotator::new(1);
    assert_eq!(r.on_event(LedState::Toggle), (0, 0));
    assert_eq!(levels(&r), vec![Level::High]);
}

#[test]
fn blinker_alternates_each_tick() {
    let mut b = Blinker::new(Level::Low);
    let seen: Vec<Level> = (0..4).map(|_| b.tick()).collect();
    assert_eq!(seen, vec![Level::High, Level::Low, Level::High, Level::Low]);
    assert_eq!(b.level(), Level::Low);
}

#[test]
fn poller_sends_on_press_only() {
    let mut p = Poller::new(20);
    assert_eq!(p.pending(), PollerAction::Pin(DebounceAction::Sample));
    assert_eq!(
        p.step(PollerEvent::Pin(PinEvent::Sampled(Level::Low))),
        PollerAction::Pin(DebounceAction::WaitForEdge)
    );
    assert_eq!(
        p.step(PollerEvent::Pin(PinEvent::Edge)),
        PollerAction::Pin(DebounceAction::SettleThenSample(20))
    );
    assert_eq!(
        p.step(PollerEvent::Pin(PinEvent::Sampled(Level::High))),
        PollerAction::Send(LedState::Toggle)
    );
    assert_eq!(p.phase(), PollerPhase::Sending);
    assert_eq!(p.step(PollerEvent::Tick), PollerAction::Send(LedState::Toggle));
    assert_eq!(p.step(PollerEvent::Sent), PollerAction::Pin(DebounceAction::Sample));
    p.step(PollerEvent::Pin(PinEvent::Sampled(Level::High)));
    p.step(PollerEvent::Pin(PinEvent::Edge));
    assert_eq!(
        p.step(PollerEvent::Pin(PinEvent::Sampled(Level::Low))),
        PollerAction::WaitTick
    );
    assert_eq!(p.phase(), PollerPhase::AwaitingTick);
    assert_eq!(p.step(PollerEvent::Tick), PollerAction::Pin(DebounceAction::Sample));
    assert_eq!(p.phase(), PollerPhase::AwaitingPress);
}

fn held(parts: &[(Level, usize)]) -> Vec<Level> {
    parts.iter().flat_map(|&(l, n)| std::iter::repeat(l).take(n)).collect()
}

#[test]
fn press_and_release_send_one_toggle() {
    let s = held(&[(Level::High, 40), (Level::Low, 40)]);
    assert_eq!(run_poller(20, 1, &s), vec![LedState::Toggle]);
    let s = held(&[(Level::Low, 1), (Level::High, 40), (Level::Low, 40)]);
    assert_eq!(run_poller(20, 1, &s), vec![LedState::Toggle]);
}

#[test]
fn two_presses_send_two_toggles() {
    let s = held(&[
        (Level::Low, 1),
        (Level::High, 40),
        (Level::Low, 40),
        (Level::High, 40),
        (Level::Low, 40),
    ]);
    assert_eq!(run_poller(20, 10, &s), vec![LedState::Toggle, LedState::Toggle]);
}

#[test]
fn quiet_input_sends_nothing() {
    let s = held(&[(Level::Low, 100)]);
    assert_eq!(run_poller(20, 1, &s), vec![]);
}
