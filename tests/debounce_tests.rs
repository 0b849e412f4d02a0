use button_events::debouncer::{DebounceAction, Debouncer, Phase, PinEvent};
use button_events::level::Level;
use button_events::trace::run_debounce;

fn signal(parts: &[(Level, usize)]) -> Vec<Level> {
    let mut s = Vec::new();
    for &(l, n) in parts {
        for _ in 0..n {
            s.push(l);
        }
    }
    s
}

#[test]
fn level_toggles() {
    assert_eq!(Level::Low.toggled(), Level::High);
    assert_eq!(Level::High.toggled(), Level::Low);
    assert!(Level::High.is_high());
    assert!(!Level::Low.is_high());
}

#[test]
fn debouncer_confirms_a_change() {
    let mut d = Debouncer::new(20);
    assert_eq!(d.settle(), 20);
    assert_eq!(d.pending(), DebounceAction::Sample);
    assert_eq!(d.debounce(PinEvent::Sampled(Level::Low)), DebounceAction::WaitForEdge);
    assert_eq!(d.phase(), Phase::WaitingForEdge { before: Level::Low });
    assert_eq!(d.debounce(PinEvent::Edge), DebounceAction::SettleThenSample(20));
    assert_eq!(d.debounce(PinEvent::Sampled(Level::High)), DebounceAction::Confirmed(Level::High));
    assert_eq!(d.phase(), Phase::Idle);
}

#[test]
fn debouncer_discards_a_bounce() {
    let mut d = Debouncer::new(20);
    d.debounce(PinEvent::Sampled(Level::High));
    d.debounce(PinEvent::Edge);
    assert_eq!(d.debounce(PinEvent::Sampled(Level::High)), DebounceAction::Sample);
    assert_eq!(d.phase(), Phase::Idle);
}

#[test]
fn debouncer_ignores_unexpected_events() {
    let mut d = Debouncer::new(7);
    assert_eq!(d.debounce(PinEvent::Edge), DebounceAction::Sample);
    assert_eq!(d.phase(), Phase::Idle);
    d.debounce(PinEvent::Sampled(Level::Low));
    assert_eq!(d.debounce(PinEvent::Sampled(Level::High)), DebounceAction::WaitForEdge);
    d.debounce(PinEvent::Edge);
    assert_eq!(d.debounce(PinEvent::Edge), DebounceAction::SettleThenSample(7));
}

#[test]
fn short_bounces_yield_only_the_final_level() {
    // Low, then a burst of bounces shorter than the settle time, then High.
    let s = signal(&[
        (Level::Low, 10),
        (Level::High, 1),
        (Level::Low, 1),
        (Level::High, 2),
        (Level::Low, 1),
        (Level::High, 30),
    ]);
    assert_eq!(run_debounce(5, &s, 0), Some((15, Level::High)));
}

#[test]
fn glitch_back_to_the_old_level_is_discarded() {
    let s = signal(&[(Level::Low, 10), (Level::High, 2), (Level::Low, 30)]);
    assert_eq!(run_debounce(5, &s, 0), None);
}

#[test]
fn single_change_is_confirmed_after_one_settle() {
    let s = signal(&[(Level::High, 4), (Level::Low, 25)]);
    assert_eq!(run_debounce(20, &s, 0), Some((24, Level::Low)));
    assert_eq!(run_debounce(20, &s, 2), Some((24, Level::Low)));
}

#[test]
fn recording_ending_while_settling_confirms_nothing() {
    let s = signal(&[(Level::High, 4), (Level::Low, 20)]);
    assert_eq!(run_debounce(20, &s, 0), None);
    assert_eq!(run_debounce(3, &s, 30), None);
}
