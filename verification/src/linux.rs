//! Linux keyboard routing: which evdev key events are replayed to the system and which become
//! NumPad input for the pointer runtime, driven by the Num Lock state.

use vstd::prelude::*;

use crate::bindings::NumpadKey;
use crate::keymap::numpad_key_of;

verus! {

/// Event type of synchronization markers (`EV_SYN` in the Linux input event codes).
pub const EV_SYN: u16 = 0;
/// Event type of key and button events (`EV_KEY`).
pub const EV_KEY: u16 = 1;
/// Event type of relative axis events (`EV_REL`).
pub const EV_REL: u16 = 2;
/// Code of the end-of-packet synchronization marker (`SYN_REPORT`).
pub const SYN_REPORT: u16 = 0;
/// Code of the horizontal relative axis (`REL_X`).
pub const REL_X: u16 = 0;
/// Code of the vertical relative axis (`REL_Y`).
pub const REL_Y: u16 = 1;
/// Code of the left mouse button (`BTN_LEFT`).
pub const BTN_LEFT: u16 = 0x110;
/// Code of the right mouse button (`BTN_RIGHT`).
pub const BTN_RIGHT: u16 = 0x111;
/// Code of the middle mouse button (`BTN_MIDDLE`).
pub const BTN_MIDDLE: u16 = 0x112;
/// Key code of Num Lock (`KEY_NUMLOCK`).
pub const KEY_NUMLOCK: u16 = 69;
/// Key code of keypad 7 (`KEY_KP7`).
pub const KEY_KP7: u16 = 71;
/// Key code of keypad 8 (`KEY_KP8`).
pub const KEY_KP8: u16 = 72;
/// Key code of keypad 9 (`KEY_KP9`).
pub const KEY_KP9: u16 = 73;
/// Key code of keypad minus (`KEY_KPMINUS`).
pub const KEY_KPMINUS: u16 = 74;
/// Key code of keypad 4 (`KEY_KP4`).
pub const KEY_KP4: u16 = 75;
/// Key code of keypad 5 (`KEY_KP5`).
pub const KEY_KP5: u16 = 76;
/// Key code of keypad 6 (`KEY_KP6`).
pub const KEY_KP6: u16 = 77;
/// Key code of keypad plus (`KEY_KPPLUS`).
pub const KEY_KPPLUS: u16 = 78;
/// Key code of keypad 1 (`KEY_KP1`).
pub const KEY_KP1: u16 = 79;
/// Key code of keypad 2 (`KEY_KP2`).
pub const KEY_KP2: u16 = 80;
/// Key code of keypad 3 (`KEY_KP3`).
pub const KEY_KP3: u16 = 81;
/// Key code of keypad 0 (`KEY_KP0`).
pub const KEY_KP0: u16 = 82;
/// Key code of keypad decimal point (`KEY_KPDOT`).
pub const KEY_KPDOT: u16 = 83;
/// Key code of keypad slash (`KEY_KPSLASH`).
pub const KEY_KPSLASH: u16 = 98;
/// Key code of keypad asterisk (`KEY_KPASTERISK`).
pub const KEY_KPASTERISK: u16 = 55;

/// A Linux key, as far as NumPad routing distinguishes keys.
#[derive(Debug, Clone, Copy, PartialEq, Eq, Structural)]
pub enum LinuxKeyCode {
    NumLock,
    Kp0,
    Kp1,
    Kp2,
    Kp3,
    Kp4,
    Kp5,
    Kp6,
    Kp7,
    Kp8,
    Kp9,
    KpPlus,
    KpDecimal,
    KpDivide,
    KpMultiply,
    KpSubtract,
    Other(u16),
}

/// The state a Linux key event reports.
#[derive(Debug, Clone, Copy, PartialEq, Eq, Structural)]
pub enum LinuxKeyState {
    Released,
    Pressed,
    Repeated,
}

/// An event the routing hands to the pointer runtime.
#[derive(Debug, Clone, Copy, PartialEq, Eq, Structural)]
pub enum LinuxInputEvent {
    Numpad { key: NumpadKey, state: LinuxKeyState },
    NumLockChanged { num_lock_on: bool },
}

/// One raw evdev event: its type, its code and its value.
#[derive(Debug, Clone, Copy, PartialEq, Eq, Structural)]
pub struct RawInputEvent {
    pub event_type: u16,
    pub code: u16,
    pub value: i32,
}

/// The NumPad key of a Linux keypad key; Num Lock and other keys have none.
pub open spec fn linux_numpad_key(key: LinuxKeyCode) -> Option<NumpadKey> {
    match key {
        LinuxKeyCode::Kp0 => Some(NumpadKey::Num0),
        LinuxKeyCode::Kp1 => Some(NumpadKey::Num1),
        LinuxKeyCode::Kp2 => Some(NumpadKey::Num2),
        LinuxKeyCode::Kp3 => Some(NumpadKey::Num3),
        LinuxKeyCode::Kp4 => Some(NumpadKey::Num4),
        LinuxKeyCode::Kp5 => Some(NumpadKey::Num5),
        LinuxKeyCode::Kp6 => Some(NumpadKey::Num6),
        LinuxKeyCode::Kp7 => Some(NumpadKey::Num7),
        LinuxKeyCode::Kp8 => Some(NumpadKey::Num8),
        LinuxKeyCode::Kp9 => Some(NumpadKey::Num9),
        LinuxKeyCode::KpPlus => Some(NumpadKey::Add),
        LinuxKeyCode::KpDecimal => Some(NumpadKey::Decimal),
        LinuxKeyCode::KpDivide => Some(NumpadKey::Divide),
        LinuxKeyCode::KpMultiply => Some(NumpadKey::Multiply),
        LinuxKeyCode::KpSubtract => Some(NumpadKey::Subtract),
        LinuxKeyCode::NumLock => None,
        LinuxKeyCode::Other(_) => None,
    }
}

/// Linux numbers keypad keys as the PC keyboard's scan codes, which the Windows hook maps to
/// NumPad keys on its own: every evdev key code other than keypad slash stands for the NumPad
/// key its number stands for as a plain scan code (and for none when that scan code is no
/// NumPad key), and keypad slash for the one of the extended scan code 0x35. So a keypad key
/// means the same NumPad key on both systems.
pub proof fn lemma_linux_keys_agree_with_scan_codes(code: u16)
    ensures
        code != KEY_KPSLASH ==> linux_numpad_key(key_code_of(code)) == numpad_key_of(code as u32, false),
        linux_numpad_key(key_code_of(KEY_KPSLASH)) == numpad_key_of(0x35, true),
{
}

/// Each Linux keypad key maps to the NumPad key with the same label, and no two keys map to
/// the same NumPad key; Num Lock and every other key map to none.
pub proof fn lemma_linux_keypad_labels(key: LinuxKeyCode, other: LinuxKeyCode)
    ensures
        linux_numpad_key(key) is Some && linux_numpad_key(key) == linux_numpad_key(other) ==> key
            == other,
        linux_numpad_key(key) is None <==> (key is NumLock || key is Other),
        linux_numpad_key(LinuxKeyCode::Kp0) == Some(NumpadKey::Num0),
        linux_numpad_key(LinuxKeyCode::Kp1) == Some(NumpadKey::Num1),
        linux_numpad_key(LinuxKeyCode::Kp2) == Some(NumpadKey::Num2),
        linux_numpad_key(LinuxKeyCode::Kp3) == Some(NumpadKey::Num3),
        linux_numpad_key(LinuxKeyCode::Kp4) == Some(NumpadKey::Num4),
        linux_numpad_key(LinuxKeyCode::Kp5) == Some(NumpadKey::Num5),
        linux_numpad_key(LinuxKeyCode::Kp6) == Some(NumpadKey::Num6),
        linux_numpad_key(LinuxKeyCode::Kp7) == Some(NumpadKey::Num7),
        linux_numpad_key(LinuxKeyCode::Kp8) == Some(NumpadKey::Num8),
        linux_numpad_key(LinuxKeyCode::Kp9) == Some(NumpadKey::Num9),
        linux_numpad_key(LinuxKeyCode::KpPlus) == Some(NumpadKey::Add),
        linux_numpad_key(LinuxKeyCode::KpDecimal) == Some(NumpadKey::Decimal),
        linux_numpad_key(LinuxKeyCode::KpDivide) == Some(NumpadKey::Divide),
        linux_numpad_key(LinuxKeyCode::KpMultiply) == Some(NumpadKey::Multiply),
        linux_numpad_key(LinuxKeyCode::KpSubtract) == Some(NumpadKey::Subtract),
{
}

/// Maps a Linux keypad key to the shared NumPad key.
pub fn map_numpad_key(key: LinuxKeyCode) -> (mapped: Option<NumpadKey>)
    ensures
        mapped == linux_numpad_key(key),
{
    match key {
        LinuxKeyCode::Kp0 => Some(NumpadKey::Num0),
        LinuxKeyCode::Kp1 => Some(NumpadKey::Num1),
        LinuxKeyCode::Kp2 => Some(NumpadKey::Num2),
        LinuxKeyCode::Kp3 => Some(NumpadKey::Num3),
        LinuxKeyCode::Kp4 => Some(NumpadKey::Num4),
        LinuxKeyCode::Kp5 => Some(NumpadKey::Num5),
        LinuxKeyCode::Kp6 => Some(NumpadKey::Num6),
        LinuxKeyCode::Kp7 => Some(NumpadKey::Num7),
        LinuxKeyCode::Kp8 => Some(NumpadKey::Num8),
        LinuxKeyCode::Kp9 => Some(NumpadKey::Num9),
        LinuxKeyCode::KpPlus => Some(NumpadKey::Add),
        LinuxKeyCode::KpDecimal => Some(NumpadKey::Decimal),
        LinuxKeyCode::KpDivide => Some(NumpadKey::Divide),
        LinuxKeyCode::KpMultiply => Some(NumpadKey::Multiply),
        LinuxKeyCode::KpSubtract => Some(NumpadKey::Subtract),
        LinuxKeyCode::NumLock | LinuxKeyCode::Other(_) => None,
    }
}

/// What routing decides for one key event.
#[derive(Debug, Clone, Copy, PartialEq, Eq, Structural)]
pub enum RoutingDecision {
    /// Forward the event to the system unchanged.
    Replay,
    /// Keep the event from the system and hand this to the runtime.
    Consume(LinuxInputEvent),
    /// Forward the event and also hand this to the runtime.
    ReplayAndEmit(LinuxInputEvent),
}

/// The abstract state of the router.
pub struct RouterView {
    pub num_lock_on: bool,
    pub num_lock_pressed: bool,
}

/// How Num Lock events are routed: only the first press of a press-release cycle toggles
/// the lock, and every Num Lock event is replayed.
pub open spec fn route_num_lock_step(router: RouterView, state: LinuxKeyState) -> (RouterView, RoutingDecision) {
    match state {
        LinuxKeyState::Pressed => if !router.num_lock_pressed {
            (
                RouterView { num_lock_on: !router.num_lock_on, num_lock_pressed: true },
                RoutingDecision::ReplayAndEmit(
                    LinuxInputEvent::NumLockChanged { num_lock_on: !router.num_lock_on },
                ),
            )
        } else {
            (router, RoutingDecision::Replay)
        },
        LinuxKeyState::Repeated => (router, RoutingDecision::Replay),
        LinuxKeyState::Released => (
            RouterView { num_lock_pressed: false, ..router },
            RoutingDecision::Replay,
        ),
    }
}

/// How a key event is routed: Num Lock as above; with Num Lock on everything is replayed;
/// with it off, keypad keys are consumed for the runtime and other keys are replayed.
pub open spec fn route_step(router: RouterView, key: LinuxKeyCode, state: LinuxKeyState) -> (
    RouterView,
    RoutingDecision,
) {
    if key == LinuxKeyCode::NumLock {
        route_num_lock_step(router, state)
    } else if router.num_lock_on {
        (router, RoutingDecision::Replay)
    } else {
        match linux_numpad_key(key) {
            Some(numpad) => (
                router,
                RoutingDecision::Consume(LinuxInputEvent::Numpad { key: numpad, state }),
            ),
            None => (router, RoutingDecision::Replay),
        }
    }
}

/// Routes key events according to the Num Lock state, which it tracks itself.
#[derive(Debug, Clone, Copy, PartialEq, Eq, Structural)]
pub struct NumLockRouter {
    num_lock_on: bool,
    num_lock_pressed: bool,
}

impl View for NumLockRouter {
    type V = RouterView;

    closed spec fn view(&self) -> RouterView {
        RouterView { num_lock_on: self.num_lock_on, num_lock_pressed: self.num_lock_pressed }
    }
}

impl NumLockRouter {
    /// Returns a router for a known Num Lock state with Num Lock not held.
    pub fn new(num_lock_on: bool) -> (router: Self)
        ensures
            router@ == (RouterView { num_lock_on, num_lock_pressed: false }),
    {
        NumLockRouter { num_lock_on, num_lock_pressed: false }
    }

    /// Whether Num Lock is on.
    pub fn num_lock_on(&self) -> (on: bool)
        ensures
            on == self@.num_lock_on,
    {
        self.num_lock_on
    }

    /// Routes one key event and updates the tracked Num Lock state.
    pub fn route(&mut self, key: LinuxKeyCode, state: LinuxKeyState) -> (decision: RoutingDecision)
        ensures
            (final(self)@, decision) == route_step(old(self)@, key, state),
    {
        if key == LinuxKeyCode::NumLock {
            return self.route_num_lock(state);
        }
        if self.num_lock_on {
            return RoutingDecision::Replay;
        }
        match map_numpad_key(key) {
            Some(numpad) => RoutingDecision::Consume(LinuxInputEvent::Numpad { key: numpad, state }),
            None => RoutingDecision::Replay,
        }
    }

    fn route_num_lock(&mut self, state: LinuxKeyState) -> (decision: RoutingDecision)
        ensures
            (final(self)@, decision) == route_num_lock_step(old(self)@, state),
    {
        match state {
            LinuxKeyState::Pressed => {
                if !self.num_lock_pressed {
                    self.num_lock_pressed = true;
                    self.num_lock_on = !self.num_lock_on;
                    RoutingDecision::ReplayAndEmit(
                        LinuxInputEvent::NumLockChanged { num_lock_on: self.num_lock_on },
                    )
                } else {
                    RoutingDecision::Replay
                }
            },
            LinuxKeyState::Repeated => RoutingDecision::Replay,
            LinuxKeyState::Released => {
                self.num_lock_pressed = false;
                RoutingDecision::Replay
            },
        }
    }
}

/// One Num Lock press-release cycle toggles the lock exactly once and reports the new state
/// once, however many repeats the press produces.
pub proof fn lemma_num_lock_toggles_once_per_press(router: RouterView, repeats: nat)
    requires
        !router.num_lock_pressed,
    ensures
        ({
            let pressed = route_step(router, LinuxKeyCode::NumLock, LinuxKeyState::Pressed);
            let again = route_step(pressed.0, LinuxKeyCode::NumLock, LinuxKeyState::Pressed);
            let repeated = route_step(pressed.0, LinuxKeyCode::NumLock, LinuxKeyState::Repeated);
            let released = route_step(pressed.0, LinuxKeyCode::NumLock, LinuxKeyState::Released);
            &&& pressed.1 == RoutingDecision::ReplayAndEmit(
                LinuxInputEvent::NumLockChanged { num_lock_on: !router.num_lock_on },
            )
            &&& again == (pressed.0, RoutingDecision::Replay)
            &&& repeated == (pressed.0, RoutingDecision::Replay)
            &&& released.1 == RoutingDecision::Replay
            &&& released.0 == (RouterView { num_lock_on: !router.num_lock_on, num_lock_pressed: false })
        }),
{
}

/// Keys other than Num Lock never change the router, and with Num Lock on they are always
/// replayed; with it off, exactly the keypad keys are consumed.
pub proof fn lemma_non_num_lock_keys(router: RouterView, key: LinuxKeyCode, state: LinuxKeyState)
    requires
        key != LinuxKeyCode::NumLock,
    ensures
        route_step(router, key, state).0 == router,
        router.num_lock_on ==> route_step(router, key, state).1 == RoutingDecision::Replay,
        !router.num_lock_on ==> (route_step(router, key, state).1 is Consume <==> linux_numpad_key(
            key,
        ) is Some),
{
}

/// The key state of an evdev key value: 0 released, 1 pressed, 2 repeated; other values are
/// not key states.
pub open spec fn key_state_of(value: i32) -> Option<LinuxKeyState> {
    if value == 0 {
        Some(LinuxKeyState::Released)
    } else if value == 1 {
        Some(LinuxKeyState::Pressed)
    } else if value == 2 {
        Some(LinuxKeyState::Repeated)
    } else {
        None
    }
}

/// Returns the key state of an evdev key value.
pub fn linux_key_state(value: i32) -> (state: Option<LinuxKeyState>)
    ensures
        state == key_state_of(value),
{
    match value {
        0 => Some(LinuxKeyState::Released),
        1 => Some(LinuxKeyState::Pressed),
        2 => Some(LinuxKeyState::Repeated),
        _ => None,
    }
}

/// The routing key of an evdev key code.
pub open spec fn key_code_of(code: u16) -> LinuxKeyCode {
    if code == KEY_NUMLOCK {
        LinuxKeyCode::NumLock
    } else if code == KEY_KP0 {
        LinuxKeyCode::Kp0
    } else if code == KEY_KP1 {
        LinuxKeyCode::Kp1
    } else if code == KEY_KP2 {
        LinuxKeyCode::Kp2
    } else if code == KEY_KP3 {
        LinuxKeyCode::Kp3
    } else if code == KEY_KP4 {
        LinuxKeyCode::Kp4
    } else if code == KEY_KP5 {
        LinuxKeyCode::Kp5
    } else if code == KEY_KP6 {
        LinuxKeyCode::Kp6
    } else if code == KEY_KP7 {
        LinuxKeyCode::Kp7
    } else if code == KEY_KP8 {
        LinuxKeyCode::Kp8
    } else if code == KEY_KP9 {
        LinuxKeyCode::Kp9
    } else if code == KEY_KPPLUS {
        LinuxKeyCode::KpPlus
    } else if code == KEY_KPDOT {
        LinuxKeyCode::KpDecimal
    } else if code == KEY_KPSLASH {
        LinuxKeyCode::KpDivide
    } else if code == KEY_KPASTERISK {
        LinuxKeyCode::KpMultiply
    } else if code == KEY_KPMINUS {
        LinuxKeyCode::KpSubtract
    } else {
        LinuxKeyCode::Other(code)
    }
}

/// Returns the routing key of an evdev key code.
pub fn linux_key_code(code: u16) -> (key: LinuxKeyCode)
    ensures
        key == key_code_of(code),
{
    if code == KEY_NUMLOCK {
        LinuxKeyCode::NumLock
    } else if code == KEY_KP0 {
        LinuxKeyCode::Kp0
    } else if code == KEY_KP1 {
        LinuxKeyCode::Kp1
    } else if code == KEY_KP2 {
        LinuxKeyCode::Kp2
    } else if code == KEY_KP3 {
        LinuxKeyCode::Kp3
    } else if code == KEY_KP4 {
        LinuxKeyCode::Kp4
    } else if code == KEY_KP5 {
        LinuxKeyCode::Kp5
    } else if code == KEY_KP6 {
        LinuxKeyCode::Kp6
    } else if code == KEY_KP7 {
        LinuxKeyCode::Kp7
    } else if code == KEY_KP8 {
        LinuxKeyCode::Kp8
    } else if code == KEY_KP9 {
        LinuxKeyCode::Kp9
    } else if code == KEY_KPPLUS {
        LinuxKeyCode::KpPlus
    } else if code == KEY_KPDOT {
        LinuxKeyCode::KpDecimal
    } else if code == KEY_KPSLASH {
        LinuxKeyCode::KpDivide
    } else if code == KEY_KPASTERISK {
        LinuxKeyCode::KpMultiply
    } else if code == KEY_KPMINUS {
        LinuxKeyCode::KpSubtract
    } else {
        LinuxKeyCode::Other(code)
    }
}

/// The events of a batch, split into those to replay and those for the runtime.
#[derive(Debug, Clone, PartialEq, Eq)]
pub struct ProcessedBatch {
    pub replay: Vec<RawInputEvent>,
    pub runtime: Vec<LinuxInputEvent>,
}

/// What processing one raw event does: synchronization reports and non-key events are
/// dropped, key events with a value that is not a key state are replayed, and key events are
/// routed.
pub open spec fn batch_event_step(router: RouterView, event: RawInputEvent) -> (
    RouterView,
    Seq<RawInputEvent>,
    Seq<LinuxInputEvent>,
) {
    if event.event_type != EV_KEY {
        (router, Seq::empty(), Seq::empty())
    } else {
        match key_state_of(event.value) {
            None => (router, seq![event], Seq::empty()),
            Some(state) => {
                let (next, decision) = route_step(router, key_code_of(event.code), state);
                match decision {
                    RoutingDecision::Replay => (next, seq![event], Seq::empty()),
                    RoutingDecision::Consume(runtime) => (next, Seq::empty(), seq![runtime]),
                    RoutingDecision::ReplayAndEmit(runtime) => (next, seq![event], seq![runtime]),
                }
            },
        }
    }
}

/// What processing a batch does, one event after the other in order.
pub open spec fn batch_spec(router: RouterView, events: Seq<RawInputEvent>) -> (
    RouterView,
    Seq<RawInputEvent>,
    Seq<LinuxInputEvent>,
)
    decreases events.len(),
{
    if events.len() == 0 {
        (router, Seq::empty(), Seq::empty())
    } else {
        let (before, replay, runtime) = batch_spec(router, events.drop_last());
        let (after, more_replay, more_runtime) = batch_event_step(before, events.last());
        (after, replay + more_replay, runtime + more_runtime)
    }
}

/// The key events of a sequence, in order.
pub open spec fn key_events(events: Seq<RawInputEvent>) -> Seq<RawInputEvent>
    decreases events.len(),
{
    if events.len() == 0 {
        Seq::empty()
    } else if events.last().event_type == EV_KEY {
        key_events(events.drop_last()).push(events.last())
    } else {
        key_events(events.drop_last())
    }
}

/// With Num Lock on and no Num Lock key event in the batch, every key event is replayed in the
/// order it came in, everything else is dropped, nothing reaches the runtime and the router is
/// unchanged.
pub proof fn lemma_num_lock_on_batch_replays_key_events(router: RouterView, events: Seq<RawInputEvent>)
    requires
        router.num_lock_on,
        forall|i: int|
            0 <= i < events.len() ==> !(#[trigger] events[i].event_type == EV_KEY && events[i].code
                == KEY_NUMLOCK),
    ensures
        batch_spec(router, events) == (router, key_events(events), Seq::<LinuxInputEvent>::empty()),
    decreases events.len(),
{
    if events.len() > 0 {
        let prefix = events.drop_last();
        assert forall|i: int|
            0 <= i < prefix.len() implies !(#[trigger] prefix[i].event_type == EV_KEY && prefix[i].code
            == KEY_NUMLOCK) by {
            assert(prefix[i] == events[i]);
        }
        lemma_num_lock_on_batch_replays_key_events(router, prefix);
        let last = events.last();
        assert(!(events[events.len() - 1].event_type == EV_KEY && events[events.len() - 1].code
            == KEY_NUMLOCK));
        let (before, replay, runtime) = batch_spec(router, prefix);
        if last.event_type == EV_KEY {
            assert(replay + seq![last] =~= key_events(prefix).push(last));
        } else {
            assert(replay + Seq::<RawInputEvent>::empty() =~= key_events(prefix));
        }
        assert(runtime + Seq::<LinuxInputEvent>::empty() =~= Seq::<LinuxInputEvent>::empty());
        if last.event_type == EV_KEY && key_state_of(last.value) is Some {
            assert(runtime + Seq::<LinuxInputEvent>::empty() =~= Seq::<LinuxInputEvent>::empty());
        }
    }
}

/// Splits a batch of raw events into the events to replay, in the order they came in and
/// without synchronization reports, and the events for the runtime.
pub fn process_event_batch(events: &[RawInputEvent], router: &mut NumLockRouter) -> (batch:
    ProcessedBatch)
    ensures
        (final(router)@, batch.replay@, batch.runtime@) == batch_spec(old(router)@, events@),
{
    let mut replay: Vec<RawInputEvent> = Vec::new();
    let mut runtime: Vec<LinuxInputEvent> = Vec::new();
    let mut i: usize = 0;
    while i < events.len()
        invariant
            i <= events@.len(),
            (router@, replay@, runtime@) == batch_spec(old(router)@, events@.take(i as int)),
        decreases events@.len() - i,
    {
        let event = events[i];
        proof {
            assert(events@.take(i + 1).drop_last() =~= events@.take(i as int));
            assert(events@.take(i + 1).last() == event);
        }
        if event.event_type == EV_SYN && event.code == SYN_REPORT {
        } else if event.event_type != EV_KEY {
        } else {
            match linux_key_state(event.value) {
                None => replay.push(event),
                Some(state) => {
                    match router.route(linux_key_code(event.code), state) {
                        RoutingDecision::Replay => replay.push(event),
                        RoutingDecision::Consume(runtime_event) => runtime.push(runtime_event),
                        RoutingDecision::ReplayAndEmit(runtime_event) => {
                            replay.push(event);
                            runtime.push(runtime_event);
                        },
                    }
                },
            }
        }
        i = i + 1;
        proof {
            let (b, r, rt) = batch_spec(old(router)@, events@.take(i as int));
            assert(replay@ =~= r);
            assert(runtime@ =~= rt);
        }
    }
    proof {
        assert(events@.take(events@.len() as int) =~= events@);
    }
    ProcessedBatch { replay, runtime }
}

/// Why the Linux input path failed; paths and operating-system errors are kept as text.
#[derive(Debug, Clone, PartialEq, Eq)]
pub enum LinuxInputError {
    InputRead { path: String, source: String },
    InputGrab { path: String, source: String },
    InputUngrab { path: String, source: String },
    UinputOpen(String),
    VirtualDevice(String),
    Runtime(String),
}

} // verus!
