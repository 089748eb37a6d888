use fieldnode::button::{Button, ButtonState, DEBOUNCE_MS, LONG_PRESS_MS};
use fieldnode::mailbox::Mailbox;

fn run(button: &mut Button, events: &mut Mailbox<ButtonState>, pressed: bool, ms: u64) -> Vec<(usize, ButtonState)> {
    let mut seen = Vec::new();
    for t in 0..(ms / DEBOUNCE_MS) as usize {
        if let Some(e) = button.tick(pressed, events) {
            assert_eq!(events.try_take(), Some(e));
            seen.push((t, e));
        } else {
            assert_eq!(events.try_take(), None);
        }
    }
    seen
}

#[test]
fn press_long_press_release_scenario() {
    let mut b = Button::new();
    let mut events = Mailbox::new();
    let low = run(&mut b, &mut events, false, 200);
    let high = run(&mut b, &mut events, true, 1200);
    let release = run(&mut b, &mut events, false, 100);
    assert!(low.is_empty());
    assert_eq!(high, vec![(0, ButtonState::Pressed), (21, ButtonState::LongPressed)]);
    assert_eq!(release, vec![(0, ButtonState::Released)]);
    assert_eq!(b.state(), ButtonState::Released);
    assert_eq!(b.press_duration_ms(), 0);
}

#[test]
fn short_press_has_no_long_press() {
    let mut b = Button::new();
    let mut events = Mailbox::new();
    run(&mut b, &mut events, false, 50);
    let high = run(&mut b, &mut events, true, LONG_PRESS_MS + DEBOUNCE_MS);
    assert_eq!(high, vec![(0, ButtonState::Pressed)]);
    assert_eq!(b.press_duration_ms(), LONG_PRESS_MS);
    let release = run(&mut b, &mut events, false, 50);
    assert_eq!(release, vec![(0, ButtonState::Released)]);
}

#[test]
fn long_hold_reports_long_press_once() {
    let mut b = Button::new();
    let mut events = Mailbox::new();
    let high = run(&mut b, &mut events, true, 10_000);
    assert_eq!(high, vec![(0, ButtonState::Pressed), (21, ButtonState::LongPressed)]);
    assert_eq!(b.state(), ButtonState::LongPressed);
}

#[test]
fn second_press_can_be_long_again() {
    let mut b = Button::new();
    let mut events = Mailbox::new();
    run(&mut b, &mut events, true, 2000);
    run(&mut b, &mut events, false, 50);
    let again = run(&mut b, &mut events, true, 2000);
    assert_eq!(again, vec![(0, ButtonState::Pressed), (21, ButtonState::LongPressed)]);
}

#[test]
fn update_publishes_state() {
    let mut b = Button::new();
    let mut events = Mailbox::new();
    b.update(ButtonState::Pressed, &mut events);
    assert_eq!(b.state(), ButtonState::Pressed);
    assert_eq!(events.wait(), ButtonState::Pressed);
}
