use button_events::channel::{EventChannel, CAPACITY};
use button_events::level::LedState;

#[test]
fn new_channel_is_empty() {
    let mut c = EventChannel::new();
    assert_eq!(c.len(), 0);
    assert!(c.is_empty());
    assert!(!c.is_full());
    assert_eq!(c.capacity(), 64);
    assert_eq!(c.try_receive(), None);
}

#[test]
fn sends_then_receives_in_order() {
    let mut c = EventChannel::new();
    for i in 0..5 {
        assert_eq!(c.try_send(LedState::Toggle), Ok(()));
        assert_eq!(c.len(), i + 1);
    }
    for i in 0..5 {
        assert_eq!(c.try_receive(), Some(LedState::Toggle));
        assert_eq!(c.len(), 4 - i);
    }
    assert_eq!(c.try_receive(), None);
    assert!(c.is_empty());
}

#[test]
fn full_channel_refuses_until_a_receive() {
    let mut c = EventChannel::new();
    for _ in 0..CAPACITY {
        assert_eq!(c.try_send(LedState::Toggle), Ok(()));
    }
    assert!(c.is_full());
    assert_eq!(c.len(), 64);
    assert_eq!(c.try_send(LedState::Toggle), Err(LedState::Toggle));
    assert_eq!(c.len(), 64);
    assert_eq!(c.try_receive(), Some(LedState::Toggle));
    assert_eq!(c.len(), 63);
    assert_eq!(c.try_send(LedState::Toggle), Ok(()));
    assert_eq!(c.len(), 64);
}
