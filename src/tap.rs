use vstd::prelude::*;

use crate::config::Config;
use crate::keyboard::{vk_of, Key};

verus! {

/// Hook code of an event that carries a keyboard message.
pub const HC_ACTION: i32 = 0;
/// Message of a key release.
pub const WM_KEYUP: u32 = 0x0101;
/// Message of a key press seen as a system key (Alt held, or Alt itself).
pub const WM_SYSKEYDOWN: u32 = 0x0104;

/// What an intercepted keyboard event means to the tap detector.
#[derive(Clone, Copy, Debug, PartialEq, Eq, Structural)]
pub enum KeyEventKind {
    /// A system key-down.
    Down,
    /// A key-up.
    Up,
    /// Anything else: the event is passed on with no effect.
    Ignored,
}

/// One intercepted keyboard event: its kind and native virtual-key code.
#[derive(Clone, Copy, Debug, PartialEq, Eq, Structural)]
pub struct KeyEvent {
    pub kind: KeyEventKind,
    pub vk: u16,
}

/// The kind of event that a hook code and message stand for.
pub open spec fn kind_of(code: i32, message: u32) -> KeyEventKind {
    if code != HC_ACTION {
        KeyEventKind::Ignored
    } else if message == WM_SYSKEYDOWN {
        KeyEventKind::Down
    } else if message == WM_KEYUP {
        KeyEventKind::Up
    } else {
        KeyEventKind::Ignored
    }
}

impl KeyEvent {
    pub open spec fn down(k: Key) -> KeyEvent {
        KeyEvent { kind: KeyEventKind::Down, vk: vk_of(k) }
    }

    pub open spec fn up(k: Key) -> KeyEvent {
        KeyEvent { kind: KeyEventKind::Up, vk: vk_of(k) }
    }

    /// Reads the hook code, message and virtual-key code that the system
    /// hands to a low-level keyboard hook.
    pub fn from_hook(code: i32, message: u32, vk: u16) -> (r: KeyEvent)
        ensures
            r == (KeyEvent { kind: kind_of(code, message), vk }),
    {
        let kind = if code != HC_ACTION {
            KeyEventKind::Ignored
        } else if message == WM_SYSKEYDOWN {
            KeyEventKind::Down
        } else if message == WM_KEYUP {
            KeyEventKind::Up
        } else {
            KeyEventKind::Ignored
        };
        KeyEvent { kind, vk }
    }
}

/// Which keys are held and whether the key in progress was part of a chord.
#[derive(Clone, Copy, Debug, PartialEq, Eq, Structural)]
pub struct TapState {
    /// The activate key is down.
    pub activate_down: bool,
    /// The deactivate key is down.
    pub deactivate_down: bool,
    /// Another key went down since the key in progress was pressed.
    pub other_key_seen: bool,
}

impl TapState {
    pub open spec fn initial() -> TapState {
        TapState { activate_down: false, deactivate_down: false, other_key_seen: false }
    }

    pub fn new() -> (r: TapState)
        ensures
            r == TapState::initial(),
    {
        TapState { activate_down: false, deactivate_down: false, other_key_seen: false }
    }
}

/// The switch that an event asks of the input method.
#[derive(Clone, Copy, Debug, PartialEq, Eq, Structural)]
pub enum Toggle {
    Nothing,
    Activate,
    Deactivate,
}

/// What the hook does in answer to an event, besides passing it on.
#[derive(Clone, Copy, Debug, PartialEq, Eq, Structural)]
pub struct Reaction {
    pub toggle: Toggle,
    /// Inject a neutral key press and release.
    pub send_neutral: bool,
}

impl Reaction {
    pub open spec fn none() -> Reaction {
        Reaction { toggle: Toggle::Nothing, send_neutral: false }
    }
}

/// The state after `e`, under configuration `c`.
pub open spec fn next_state(s: TapState, c: Config, e: KeyEvent) -> TapState {
    let a = vk_of(c.activate_key);
    let b = vk_of(c.deactivate_key);
    if !c.is_running {
        s
    } else {
        match e.kind {
            KeyEventKind::Down => if e.vk == a {
                TapState {
                    activate_down: true,
                    other_key_seen: s.other_key_seen || s.deactivate_down,
                    ..s
                }
            } else if e.vk == b {
                TapState {
                    deactivate_down: true,
                    other_key_seen: s.other_key_seen || s.activate_down,
                    ..s
                }
            } else {
                TapState { other_key_seen: true, ..s }
            },
            KeyEventKind::Up => if e.vk == a {
                TapState {
                    activate_down: false,
                    other_key_seen: s.other_key_seen && s.deactivate_down,
                    ..s
                }
            } else if e.vk == b {
                TapState {
                    deactivate_down: false,
                    other_key_seen: s.other_key_seen && s.activate_down,
                    ..s
                }
            } else {
                s
            },
            KeyEventKind::Ignored => s,
        }
    }
}

/// What the hook does on `e` in state `s`, under configuration `c`: the
/// release of a watched key that was tapped alone switches the input method,
/// and every release of a watched key is followed by a neutral key event.
pub open spec fn reaction(s: TapState, c: Config, e: KeyEvent) -> Reaction {
    if c.is_running && e.kind == KeyEventKind::Up && e.vk == vk_of(c.activate_key) {
        Reaction {
            toggle: if !s.deactivate_down && !s.other_key_seen {
                Toggle::Activate
            } else {
                Toggle::Nothing
            },
            send_neutral: true,
        }
    } else if c.is_running && e.kind == KeyEventKind::Up && e.vk == vk_of(c.deactivate_key) {
        Reaction {
            toggle: if !s.activate_down && !s.other_key_seen {
                Toggle::Deactivate
            } else {
                Toggle::Nothing
            },
            send_neutral: true,
        }
    } else {
        Reaction::none()
    }
}

/// Takes one event: the next state and the reaction to it.
pub fn step(s: TapState, c: &Config, e: KeyEvent) -> (r: (TapState, Reaction))
    ensures
        r.0 == next_state(s, *c, e),
        r.1 == reaction(s, *c, e),
{
    let mut t = s;
    let mut toggle = Toggle::Nothing;
    let mut send_neutral = false;
    if !c.is_running {
        return (t, Reaction { toggle, send_neutral });
    }
    let a = c.activate_key.as_virtual_key();
    let b = c.deactivate_key.as_virtual_key();
    match e.kind {
        KeyEventKind::Up => {
            if e.vk == a {
                t.activate_down = false;
                if !t.deactivate_down {
                    if !t.other_key_seen {
                        toggle = Toggle::Activate;
                    }
                    t.other_key_seen = false;
                }
                send_neutral = true;
            } else if e.vk == b {
                t.deactivate_down = false;
                if !t.activate_down {
                    if !t.other_key_seen {
                        toggle = Toggle::Deactivate;
                    }
                    t.other_key_seen = false;
                }
                send_neutral = true;
            }
        },
        KeyEventKind::Down => {
            if e.vk == a {
                t.activate_down = true;
                if t.deactivate_down {
                    t.other_key_seen = true;
                }
            } else if e.vk == b {
                t.deactivate_down = true;
                if t.activate_down {
                    t.other_key_seen = true;
                }
            } else {
                t.other_key_seen = true;
            }
        },
        KeyEventKind::Ignored => {},
    }
    (t, Reaction { toggle, send_neutral })
}

/// The state after the events `events`, in order.
pub open spec fn run(s: TapState, c: Config, events: Seq<KeyEvent>) -> TapState
    decreases events.len(),
{
    if events.len() == 0 {
        s
    } else {
        run(next_state(s, c, events[0]), c, events.drop_first())
    }
}

/// How many of the events `events` ask for the switch `t`.
pub open spec fn count_toggles(s: TapState, c: Config, events: Seq<KeyEvent>, t: Toggle) -> nat
    decreases events.len(),
{
    if events.len() == 0 {
        0
    } else {
        (if reaction(s, c, events[0]).toggle == t {
            1nat
        } else {
            0nat
        }) + count_toggles(next_state(s, c, events[0]), c, events.drop_first(), t)
    }
}

/// `n` presses of `k` (the first one and its auto-repeats) and then its release.
pub open spec fn tap_of(k: Key, n: nat) -> Seq<KeyEvent> {
    Seq::new(n, |i: int| KeyEvent::down(k)).push(KeyEvent::up(k))
}

proof fn lemma_run_cons(s: TapState, c: Config, e: KeyEvent, rest: Seq<KeyEvent>)
    ensures
        run(s, c, seq![e] + rest) == run(next_state(s, c, e), c, rest),
        forall|t: Toggle|
            count_toggles(s, c, seq![e] + rest, t) == (if reaction(s, c, e).toggle == t {
                1nat
            } else {
                0nat
            }) + count_toggles(next_state(s, c, e), c, rest, t),
{
    assert((seq![e] + rest).drop_first() =~= rest);
}

/// While the activate key is held alone, further presses of it change
/// nothing, and its release switches the input method on once and returns
/// to the initial state.
proof fn lemma_held_then_released(c: Config, m: nat)
    requires
        c.is_running,
        c.wf(),
    ensures
        ({
            let held = TapState { activate_down: true, deactivate_down: false, other_key_seen: false };
            let events = Seq::new(m, |i: int| KeyEvent::down(c.activate_key)).push(
                KeyEvent::up(c.activate_key),
            );
            &&& run(held, c, events) == TapState::initial()
            &&& count_toggles(held, c, events, Toggle::Activate) == 1
            &&& count_toggles(held, c, events, Toggle::Deactivate) == 0
        }),
    decreases m,
{
    let held = TapState { activate_down: true, deactivate_down: false, other_key_seen: false };
    let a = c.activate_key;
    let events = Seq::new(m, |i: int| KeyEvent::down(a)).push(KeyEvent::up(a));
    if m == 0 {
        assert(events =~= seq![KeyEvent::up(a)] + Seq::empty());
        lemma_run_cons(held, c, KeyEvent::up(a), Seq::empty());
        crate::keyboard::lemma_virtual_key_round_trip(a, vk_of(c.deactivate_key));
    } else {
        let rest = Seq::new((m - 1) as nat, |i: int| KeyEvent::down(a)).push(KeyEvent::up(a));
        assert(events =~= seq![KeyEvent::down(a)] + rest);
        lemma_run_cons(held, c, KeyEvent::down(a), rest);
        lemma_held_then_released(c, (m - 1) as nat);
    }
}

/// A lone tap of the activate key, its press possibly repeated, switches the
/// input method on exactly once, never off, and leaves no trace: the state
/// afterwards is the initial one, with no other key marked as seen.
pub proof fn lemma_lone_tap_activates_once(c: Config, n: nat)
    requires
        c.is_running,
        c.wf(),
        n >= 1,
    ensures
        run(TapState::initial(), c, tap_of(c.activate_key, n)) == TapState::initial(),
        count_toggles(TapState::initial(), c, tap_of(c.activate_key, n), Toggle::Activate) == 1,
        count_toggles(TapState::initial(), c, tap_of(c.activate_key, n), Toggle::Deactivate) == 0,
{
    let a = c.activate_key;
    let rest = Seq::new((n - 1) as nat, |i: int| KeyEvent::down(a)).push(KeyEvent::up(a));
    assert(tap_of(a, n) =~= seq![KeyEvent::down(a)] + rest);
    lemma_run_cons(TapState::initial(), c, KeyEvent::down(a), rest);
    lemma_held_then_released(c, (n - 1) as nat);
}

/// A press of a key other than the two watched ones while the activate key is
/// held makes it an accelerator: its release switches nothing. The next lone
/// tap of the activate key is judged afresh and switches the input method on
/// once.
pub proof fn lemma_accelerator_is_not_a_tap(c: Config, x: u16)
    requires
        c.is_running,
        c.wf(),
        x != vk_of(c.activate_key),
        x != vk_of(c.deactivate_key),
    ensures
        ({
            let a = c.activate_key;
            let chord = seq![
                KeyEvent::down(a),
                KeyEvent { kind: KeyEventKind::Down, vk: x },
                KeyEvent::up(a),
            ];
            let after = run(TapState::initial(), c, chord);
            &&& count_toggles(TapState::initial(), c, chord, Toggle::Activate) == 0
            &&& count_toggles(TapState::initial(), c, chord, Toggle::Deactivate) == 0
            &&& count_toggles(after, c, tap_of(a, 1), Toggle::Activate) == 1
        }),
{
    let a = c.activate_key;
    let e1 = KeyEvent::down(a);
    let e2 = KeyEvent { kind: KeyEventKind::Down, vk: x };
    let e3 = KeyEvent::up(a);
    let s0 = TapState::initial();
    let s1 = next_state(s0, c, e1);
    let s2 = next_state(s1, c, e2);
    crate::keyboard::lemma_virtual_key_round_trip(a, vk_of(c.deactivate_key));
    assert(seq![e1, e2, e3] =~= seq![e1] + seq![e2, e3]);
    assert(seq![e2, e3] =~= seq![e2] + seq![e3]);
    assert(seq![e3] =~= seq![e3] + Seq::empty());
    lemma_run_cons(s0, c, e1, seq![e2, e3]);
    lemma_run_cons(s1, c, e2, seq![e3]);
    lemma_run_cons(s2, c, e3, Seq::empty());
    lemma_lone_tap_activates_once(c, 1);
}

/// When the two watched keys are chorded, neither release switches anything;
/// once both are up, a lone tap of the activate key switches the input method
/// on once.
pub proof fn lemma_chord_of_watched_keys_is_not_a_tap(c: Config)
    requires
        c.is_running,
        c.wf(),
    ensures
        ({
            let a = c.activate_key;
            let b = c.deactivate_key;
            let chord = seq![KeyEvent::down(a), KeyEvent::down(b), KeyEvent::up(a), KeyEvent::up(b)];
            let after = run(TapState::initial(), c, chord);
            &&& count_toggles(TapState::initial(), c, chord, Toggle::Activate) == 0
            &&& count_toggles(TapState::initial(), c, chord, Toggle::Deactivate) == 0
            &&& after == TapState::initial()
            &&& count_toggles(after, c, tap_of(a, 1), Toggle::Activate) == 1
        }),
{
    let a = c.activate_key;
    let b = c.deactivate_key;
    let e1 = KeyEvent::down(a);
    let e2 = KeyEvent::down(b);
    let e3 = KeyEvent::up(a);
    let e4 = KeyEvent::up(b);
    let s0 = TapState::initial();
    let s1 = next_state(s0, c, e1);
    let s2 = next_state(s1, c, e2);
    let s3 = next_state(s2, c, e3);
    crate::keyboard::lemma_virtual_key_round_trip(a, vk_of(b));
    assert(seq![e1, e2, e3, e4] =~= seq![e1] + seq![e2, e3, e4]);
    assert(seq![e2, e3, e4] =~= seq![e2] + seq![e3, e4]);
    assert(seq![e3, e4] =~= seq![e3] + seq![e4]);
    assert(seq![e4] =~= seq![e4] + Seq::empty());
    lemma_run_cons(s0, c, e1, seq![e2, e3, e4]);
    lemma_run_cons(s1, c, e2, seq![e3, e4]);
    lemma_run_cons(s2, c, e3, seq![e4]);
    lemma_run_cons(s3, c, e4, Seq::empty());
    lemma_lone_tap_activates_once(c, 1);
}

} // verus!
