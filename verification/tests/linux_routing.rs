use evdev::{EventType, KeyCode, RelativeAxisCode, SynchronizationCode};
use numflow::bindings::NumpadKey;
use numflow::linux::{
    EV_KEY, EV_REL, EV_SYN, KEY_KP8, KEY_NUMLOCK, LinuxInputEvent, LinuxKeyCode, LinuxKeyState,
    NumLockRouter, REL_X, REL_Y, RawInputEvent, RoutingDecision, SYN_REPORT, linux_key_code,
    linux_key_state, map_numpad_key, process_event_batch,
};

fn key(code: KeyCode, value: i32) -> RawInputEvent {
    RawInputEvent { event_type: EventType::KEY.0, code: code.0, value }
}

fn syn_report() -> RawInputEvent {
    RawInputEvent {
        event_type: EventType::SYNCHRONIZATION.0,
        code: SynchronizationCode::SYN_REPORT.0,
        value: 0,
    }
}

#[test]
fn maps_linux_keypad_keys_to_shared_numpad_keys() {
    assert_eq!(map_numpad_key(LinuxKeyCode::Kp8), Some(NumpadKey::Num8));
    assert_eq!(map_numpad_key(LinuxKeyCode::KpPlus), Some(NumpadKey::Add));
    assert_eq!(
        map_numpad_key(LinuxKeyCode::KpDecimal),
        Some(NumpadKey::Decimal)
    );
    assert_eq!(map_numpad_key(LinuxKeyCode::Other(30)), None);
}

#[test]
fn num_lock_on_replays_keypad_input() {
    let mut router = NumLockRouter::new(true);

    assert_eq!(
        router.route(LinuxKeyCode::Kp8, LinuxKeyState::Pressed),
        RoutingDecision::Replay
    );
}

#[test]
fn num_lock_off_consumes_mapped_keypad_input() {
    let mut router = NumLockRouter::new(false);

    assert_eq!(
        router.route(LinuxKeyCode::Kp8, LinuxKeyState::Pressed),
        RoutingDecision::Consume(LinuxInputEvent::Numpad {
            key: NumpadKey::Num8,
            state: LinuxKeyState::Pressed,
        })
    );
}

#[test]
fn unrelated_keys_replay_while_numflow_is_active() {
    let mut router = NumLockRouter::new(false);

    assert_eq!(
        router.route(LinuxKeyCode::Other(30), LinuxKeyState::Pressed),
        RoutingDecision::Replay
    );
}

#[test]
fn num_lock_press_replays_and_emits_one_transition_until_release() {
    let mut router = NumLockRouter::new(true);

    assert_eq!(
        router.route(LinuxKeyCode::NumLock, LinuxKeyState::Pressed),
        RoutingDecision::ReplayAndEmit(LinuxInputEvent::NumLockChanged { num_lock_on: false })
    );
    assert_eq!(
        router.route(LinuxKeyCode::NumLock, LinuxKeyState::Repeated),
        RoutingDecision::Replay
    );
    assert_eq!(
        router.route(LinuxKeyCode::NumLock, LinuxKeyState::Released),
        RoutingDecision::Replay
    );
    assert_eq!(
        router.route(LinuxKeyCode::NumLock, LinuxKeyState::Pressed),
        RoutingDecision::ReplayAndEmit(LinuxInputEvent::NumLockChanged { num_lock_on: true })
    );
}

#[test]
fn batch_with_num_lock_on_replays_keys_in_original_order_without_syn_report() {
    let mut router = NumLockRouter::new(true);
    let events = [key(KeyCode::KEY_A, 1), key(KeyCode::KEY_KP8, 1), syn_report()];

    let processed = process_event_batch(&events, &mut router);

    assert_eq!(processed.replay, events[..2]);
    assert!(processed.runtime.is_empty());
}

#[test]
fn batch_with_num_lock_off_consumes_only_mapped_keypad_events() {
    let mut router = NumLockRouter::new(false);
    let events = [
        key(KeyCode::KEY_A, 1),
        key(KeyCode::KEY_KP8, 1),
        key(KeyCode::KEY_KP8, 0),
        syn_report(),
    ];

    let processed = process_event_batch(&events, &mut router);

    assert_eq!(processed.replay, vec![events[0]]);
    assert_eq!(
        processed.runtime,
        vec![
            LinuxInputEvent::Numpad {
                key: NumpadKey::Num8,
                state: LinuxKeyState::Pressed,
            },
            LinuxInputEvent::Numpad {
                key: NumpadKey::Num8,
                state: LinuxKeyState::Released,
            },
        ]
    );
}

#[test]
fn batch_replays_num_lock_and_emits_one_transition_per_press_edge() {
    let mut router = NumLockRouter::new(true);
    let events = [
        key(KeyCode::KEY_NUMLOCK, 1),
        key(KeyCode::KEY_NUMLOCK, 2),
        key(KeyCode::KEY_NUMLOCK, 0),
        syn_report(),
    ];

    let processed = process_event_batch(&events, &mut router);

    assert_eq!(processed.replay, events[..3]);
    assert_eq!(
        processed.runtime,
        vec![LinuxInputEvent::NumLockChanged { num_lock_on: false }]
    );
}

#[test]
fn linux_codes_match_evdev() {
    assert_eq!(EV_KEY, EventType::KEY.0);
    assert_eq!(EV_REL, EventType::RELATIVE.0);
    assert_eq!(EV_SYN, EventType::SYNCHRONIZATION.0);
    assert_eq!(SYN_REPORT, SynchronizationCode::SYN_REPORT.0);
    assert_eq!(REL_X, RelativeAxisCode::REL_X.0);
    assert_eq!(REL_Y, RelativeAxisCode::REL_Y.0);
    assert_eq!(KEY_KP8, KeyCode::KEY_KP8.0);
    assert_eq!(KEY_NUMLOCK, KeyCode::KEY_NUMLOCK.0);
    assert_eq!(linux_key_code(KeyCode::KEY_KPDOT.0), LinuxKeyCode::KpDecimal);
    assert_eq!(linux_key_code(KeyCode::KEY_KPSLASH.0), LinuxKeyCode::KpDivide);
    assert_eq!(linux_key_code(KeyCode::KEY_A.0), LinuxKeyCode::Other(30));
    assert_eq!(linux_key_state(2), Some(LinuxKeyState::Repeated));
    assert_eq!(linux_key_state(5), None);
}

#[test]
fn router_num_lock_state_follows_press_edges() {
    let mut router = NumLockRouter::new(false);
    assert!(!router.num_lock_on());
    router.route(LinuxKeyCode::NumLock, LinuxKeyState::Pressed);
    assert!(router.num_lock_on());
    assert_eq!(
        router.route(LinuxKeyCode::Kp5, LinuxKeyState::Pressed),
        RoutingDecision::Replay
    );
}
