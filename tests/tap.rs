use ime_switch::config::Config;
use ime_switch::keyboard::Key;
use ime_switch::tap::{step, KeyEvent, KeyEventKind, Reaction, TapState, Toggle};

fn enabled() -> Config {
    Config { is_running: true, activate_key: Key::RightAlt, deactivate_key: Key::LeftAlt }
}

fn down(vk: u16) -> KeyEvent {
    KeyEvent { kind: KeyEventKind::Down, vk }
}

fn up(vk: u16) -> KeyEvent {
    KeyEvent { kind: KeyEventKind::Up, vk }
}

const A: u16 = 0xA5;
const B: u16 = 0xA4;
const X: u16 = 0x09;

/// Feeds `events` from `s`; the final state and the switches asked for.
fn feed(s: TapState, c: &Config, events: &[KeyEvent]) -> (TapState, Vec<Toggle>) {
    let mut s = s;
    let mut toggles = Vec::new();
    for e in events {
        let (t, r) = step(s, c, *e);
        s = t;
        if r.toggle != Toggle::Nothing {
            toggles.push(r.toggle);
        }
    }
    (s, toggles)
}

#[test]
fn lone_tap_activates_once_and_resets() {
    let (s, toggles) = feed(TapState::new(), &enabled(), &[down(A), up(A)]);
    assert_eq!(toggles, vec![Toggle::Activate]);
    assert!(!s.other_key_seen);
    assert_eq!(s, TapState::new());
}

#[test]
fn auto_repeated_press_still_activates_once() {
    let (s, toggles) = feed(TapState::new(), &enabled(), &[down(A), down(A), down(A), up(A)]);
    assert_eq!(toggles, vec![Toggle::Activate]);
    assert_eq!(s, TapState::new());
}

#[test]
fn lone_tap_of_deactivate_key_deactivates_once() {
    let (s, toggles) = feed(TapState::new(), &enabled(), &[down(B), up(B)]);
    assert_eq!(toggles, vec![Toggle::Deactivate]);
    assert_eq!(s, TapState::new());
}

#[test]
fn accelerator_does_not_activate_but_next_tap_does() {
    let c = enabled();
    let (s, toggles) = feed(TapState::new(), &c, &[down(A), down(X), up(A)]);
    assert!(toggles.is_empty());
    let (_, toggles) = feed(s, &c, &[down(A), up(A)]);
    assert_eq!(toggles, vec![Toggle::Activate]);
}

#[test]
fn chord_of_both_watched_keys_switches_nothing() {
    let c = enabled();
    let (s, toggles) = feed(TapState::new(), &c, &[down(A), down(B), up(A), up(B)]);
    assert!(toggles.is_empty());
    assert_eq!(s, TapState::new());
    let (_, toggles) = feed(s, &c, &[down(A), up(A)]);
    assert_eq!(toggles, vec![Toggle::Activate]);
}

#[test]
fn flags_follow_the_held_keys() {
    let c = enabled();
    let (s, _) = feed(TapState::new(), &c, &[down(A)]);
    assert_eq!(
        s,
        TapState { activate_down: true, deactivate_down: false, other_key_seen: false }
    );
    let (s, _) = feed(s, &c, &[down(B)]);
    assert_eq!(s, TapState { activate_down: true, deactivate_down: true, other_key_seen: true });
    let (s, _) = feed(s, &c, &[up(A)]);
    assert_eq!(
        s,
        TapState { activate_down: false, deactivate_down: true, other_key_seen: true }
    );
}

#[test]
fn every_watched_release_sends_a_neutral_key() {
    let c = enabled();
    let (_, r) = step(TapState::new(), &c, up(A));
    assert_eq!(r, Reaction { toggle: Toggle::Activate, send_neutral: true });
    let held = TapState { activate_down: true, deactivate_down: false, other_key_seen: true };
    let (_, r) = step(held, &c, up(A));
    assert_eq!(r, Reaction { toggle: Toggle::Nothing, send_neutral: true });
    let (_, r) = step(TapState::new(), &c, up(X));
    assert_eq!(r, Reaction { toggle: Toggle::Nothing, send_neutral: false });
}

#[test]
fn disabled_config_changes_nothing() {
    let mut c = enabled();
    c.is_running = false;
    let (s, toggles) = feed(TapState::new(), &c, &[down(A), down(X), up(A), up(B)]);
    assert!(toggles.is_empty());
    assert_eq!(s, TapState::new());
    let (_, r) = step(TapState::new(), &c, up(A));
    assert_eq!(r, Reaction { toggle: Toggle::Nothing, send_neutral: false });
}

#[test]
fn hook_messages_are_decoded() {
    assert_eq!(KeyEvent::from_hook(0, 0x0104, A), down(A));
    assert_eq!(KeyEvent::from_hook(0, 0x0101, A), up(A));
    assert_eq!(
        KeyEvent::from_hook(0, 0x0100, A),
        KeyEvent { kind: KeyEventKind::Ignored, vk: A }
    );
    assert_eq!(
        KeyEvent::from_hook(-1, 0x0101, A),
        KeyEvent { kind: KeyEventKind::Ignored, vk: A }
    );
}
