use std::convert::Infallible;

use numflow::action::{CoreEffect, Direction, InputAction, MouseButton, StateChange};
use numflow::bindings::{Bindings, NumpadKey};
use numflow::keymap::KeyState;
use numflow::normalize::NormalizedKeyEvent;
use numflow::runtime::{
    PointerBackend, ReplayFollowUp, RuntimeMachine, RuntimeSetup, RuntimeStateSnapshot,
    replay_follow_up, secure_enabled_for_num_lock,
};

#[derive(Debug, Default)]
struct MockPointer {
    moves: Vec<(i32, i32)>,
    held: Vec<MouseButton>,
    releases: usize,
    clicks: usize,
    double_clicks: usize,
}

impl PointerBackend for MockPointer {
    type Error = Infallible;

    fn move_relative(&mut self, dx: i32, dy: i32) -> Result<(), Self::Error> {
        self.moves.push((dx, dy));
        Ok(())
    }

    fn button_down(&mut self, button: MouseButton) -> Result<(), Self::Error> {
        if !self.held.contains(&button) {
            self.held.push(button);
        }
        Ok(())
    }

    fn button_up(&mut self, button: MouseButton) -> Result<(), Self::Error> {
        self.held.retain(|held| *held != button);
        self.releases += 1;
        Ok(())
    }

    fn click(&mut self, _button: MouseButton) -> Result<(), Self::Error> {
        self.clicks += 1;
        Ok(())
    }

    fn double_click(&mut self, _button: MouseButton) -> Result<(), Self::Error> {
        self.double_clicks += 1;
        Ok(())
    }

    fn release_all(&mut self) -> Result<(), Self::Error> {
        self.releases += self.held.len();
        self.held.clear();
        Ok(())
    }
}

fn runtime_machine() -> RuntimeMachine<MockPointer> {
    RuntimeMachine::new(
        RuntimeSetup {
            bindings: Bindings::default(),
            selected_button: MouseButton::Left,
            precision: false,
        },
        MockPointer::default(),
    )
}

fn pressed(key: NumpadKey, action: InputAction) -> NormalizedKeyEvent {
    NormalizedKeyEvent { key, action, state: KeyState::Pressed, repeated: false }
}

fn released(key: NumpadKey, action: InputAction) -> NormalizedKeyEvent {
    NormalizedKeyEvent { key, action, state: KeyState::Released, repeated: false }
}

#[test]
fn runtime_starts_disabled_and_does_not_move_pointer() {
    let mut machine = runtime_machine();
    let event = pressed(NumpadKey::Num8, InputAction::Move(Direction::Up));

    machine.handle_key_event(event).expect("mock is infallible");

    assert!(!machine.enabled());
    assert!(!machine.directions().is_moving());
    assert!(machine.pointer.moves.is_empty());
}

#[test]
fn enabled_runtime_turns_held_move_key_into_pointer_motion() {
    let mut machine = runtime_machine();
    machine.apply_action(InputAction::SetEnabled(true)).expect("mock is infallible");
    machine
        .handle_key_event(pressed(NumpadKey::Num8, InputAction::Move(Direction::Up)))
        .expect("mock is infallible");

    assert!(machine.directions().is_moving());
    let (dx, dy) = machine.directions().net_vector();
    assert_eq!(dx, 0);
    assert!(dy < 0);
}

#[test]
fn shutdown_releases_a_runtime_held_button() {
    let mut machine = runtime_machine();
    machine.apply_action(InputAction::SetEnabled(true)).expect("mock is infallible");
    machine.apply_action(InputAction::Hold).expect("mock is infallible");
    assert_eq!(machine.pointer.held, vec![MouseButton::Left]);

    let effects = machine.shutdown().expect("mock is infallible");

    assert!(!machine.enabled());
    assert!(machine.pointer.held.is_empty());
    assert!(!effects.is_empty());
    assert_eq!(machine.pointer.releases, 1);
}

#[test]
fn num_lock_on_disables_runtime_and_releases_drag() {
    let mut machine = runtime_machine();
    machine.apply_num_lock_mode(false).expect("mock is infallible");
    machine.apply_action(InputAction::Hold).expect("mock is infallible");
    machine
        .handle_key_event(pressed(NumpadKey::Num6, InputAction::Move(Direction::Right)))
        .expect("mock is infallible");
    assert!(machine.enabled());
    assert!(machine.directions().is_moving());
    assert_eq!(machine.pointer.held, vec![MouseButton::Left]);

    let effects = machine.apply_num_lock_mode(true).expect("mock is infallible");

    assert!(!machine.enabled());
    assert!(!machine.directions().is_moving());
    assert!(machine.pointer.held.is_empty());
    assert!(effects
        .iter()
        .any(|effect| matches!(effect, CoreEffect::State(StateChange::Enabled(false)))));
}

#[test]
fn num_lock_off_enables_runtime() {
    let mut machine = runtime_machine();
    let effects = machine.apply_num_lock_mode(false).expect("mock is infallible");

    assert!(machine.enabled());
    assert!(effects
        .iter()
        .any(|effect| matches!(effect, CoreEffect::State(StateChange::Enabled(true)))));
}

#[test]
fn mapped_enable_actions_do_not_override_num_lock_mode() {
    let mut machine = runtime_machine();
    machine.apply_num_lock_mode(false).expect("mock is infallible");

    let effects = machine
        .handle_key_event(pressed(NumpadKey::Num5, InputAction::SetEnabled(false)))
        .expect("mock is infallible");

    assert!(effects.is_empty());
    assert!(machine.enabled());
}

#[test]
fn numpad_zero_holds_selected_button_without_duplicate_mouse_down() {
    for button in [MouseButton::Left, MouseButton::Right, MouseButton::Middle] {
        let mut machine = runtime_machine();
        machine.apply_num_lock_mode(false).expect("mock is infallible");
        machine.apply_action(InputAction::SelectButton(button)).expect("mock is infallible");

        let first = machine
            .handle_key_event(pressed(NumpadKey::Num0, InputAction::Hold))
            .expect("mock is infallible");
        let repeated = machine
            .handle_key_event(pressed(NumpadKey::Num0, InputAction::Hold))
            .expect("mock is infallible");

        assert!(!first.is_empty());
        assert!(repeated.is_empty());
        assert_eq!(machine.pointer.held, vec![button]);
        assert_eq!(machine.controller().held_button(), Some(button));
        assert_eq!(machine.controller().selected_button(), button);
    }
}

#[test]
fn five_add_and_decimal_release_each_supported_button_and_reset_state() {
    let release_keys = [
        (NumpadKey::Num5, InputAction::Click),
        (NumpadKey::Add, InputAction::DoubleClick),
        (NumpadKey::Decimal, InputAction::Release),
    ];

    for button in [MouseButton::Left, MouseButton::Right, MouseButton::Middle] {
        for (release_key, release_action) in release_keys {
            let mut machine = runtime_machine();
            machine.apply_num_lock_mode(false).expect("mock is infallible");
            machine.apply_action(InputAction::SelectButton(button)).expect("mock is infallible");
            machine
                .handle_key_event(pressed(NumpadKey::Num0, InputAction::Hold))
                .expect("mock is infallible");

            machine
                .handle_key_event(pressed(release_key, release_action))
                .expect("mock is infallible");

            assert!(machine.pointer.held.is_empty());
            assert_eq!(machine.controller().held_button(), None);
            assert_eq!(machine.pointer.releases, 1);
            assert_eq!(machine.pointer.clicks, 0);
            assert_eq!(machine.pointer.double_clicks, 0);

            machine
                .handle_key_event(pressed(NumpadKey::Num0, InputAction::Hold))
                .expect("mock is infallible");
            assert_eq!(machine.pointer.held, vec![button]);
            assert_eq!(machine.controller().held_button(), Some(button));
        }
    }
}

#[test]
fn release_key_sweeps_multiple_backend_tracked_buttons() {
    let mut machine = runtime_machine();
    machine.apply_num_lock_mode(false).expect("mock is infallible");

    machine.pointer.button_down(MouseButton::Left).expect("mock is infallible");
    machine.pointer.button_down(MouseButton::Right).expect("mock is infallible");
    assert_eq!(machine.pointer.held, vec![MouseButton::Left, MouseButton::Right]);
    assert_eq!(machine.controller().held_button(), None);

    machine
        .handle_key_event(pressed(NumpadKey::Decimal, InputAction::Release))
        .expect("mock is infallible");

    assert!(machine.pointer.held.is_empty());
    assert_eq!(machine.pointer.releases, 2);
    assert_eq!(machine.controller().held_button(), None);
}

#[test]
fn five_and_add_keep_normal_click_behavior_without_hold() {
    let mut machine = runtime_machine();
    machine.apply_num_lock_mode(false).expect("mock is infallible");

    machine
        .handle_key_event(pressed(NumpadKey::Num5, InputAction::Click))
        .expect("mock is infallible");
    machine
        .handle_key_event(pressed(NumpadKey::Add, InputAction::DoubleClick))
        .expect("mock is infallible");
    machine
        .handle_key_event(pressed(NumpadKey::Decimal, InputAction::Release))
        .expect("mock is infallible");

    assert_eq!(machine.pointer.clicks, 1);
    assert_eq!(machine.pointer.double_clicks, 1);
    assert_eq!(machine.controller().held_button(), None);
}

#[test]
fn changing_bindings_stops_existing_motion() {
    let mut machine = runtime_machine();
    machine.apply_action(InputAction::SetEnabled(true)).expect("mock is infallible");
    machine
        .handle_key_event(pressed(NumpadKey::Num6, InputAction::Move(Direction::Right)))
        .expect("mock is infallible");
    assert!(machine.directions().is_moving());

    let mut bindings = Bindings::default();
    bindings.bind(NumpadKey::Num6, InputAction::Click);
    machine.set_bindings(bindings);

    assert!(!machine.directions().is_moving());
    assert_eq!(machine.bindings().action_for(NumpadKey::Num6), Some(InputAction::Click));
}

#[test]
fn released_move_key_stops_motion_even_while_disabled() {
    let mut machine = runtime_machine();
    machine.apply_action(InputAction::SetEnabled(true)).expect("mock is infallible");
    machine
        .handle_key_event(pressed(NumpadKey::Num4, InputAction::Move(Direction::Left)))
        .expect("mock is infallible");
    machine.apply_action(InputAction::SetEnabled(false)).expect("mock is infallible");
    assert!(!machine.directions().is_moving());

    machine.apply_action(InputAction::SetEnabled(true)).expect("mock is infallible");
    machine
        .handle_key_event(pressed(NumpadKey::Num4, InputAction::Move(Direction::Left)))
        .expect("mock is infallible");
    machine
        .handle_key_event(released(NumpadKey::Num4, InputAction::Move(Direction::Left)))
        .expect("mock is infallible");
    assert!(!machine.directions().is_moving());
}

#[test]
fn snapshot_and_configure_follow_the_controller() {
    let mut machine = runtime_machine();
    assert_eq!(
        machine.snapshot(),
        RuntimeStateSnapshot {
            enabled: false,
            selected_button: MouseButton::Left,
            held_button: None,
            precision: false,
        }
    );

    machine
        .configure(RuntimeSetup {
            bindings: Bindings::default(),
            selected_button: MouseButton::Right,
            precision: true,
        })
        .expect("mock is infallible");
    assert_eq!(
        machine.snapshot(),
        RuntimeStateSnapshot {
            enabled: false,
            selected_button: MouseButton::Right,
            held_button: None,
            precision: true,
        }
    );
}

#[test]
fn fail_safe_disables_and_sweeps_the_backend() {
    let mut machine = runtime_machine();
    machine.apply_num_lock_mode(false).expect("mock is infallible");
    machine
        .handle_key_event(pressed(NumpadKey::Num0, InputAction::Hold))
        .expect("mock is infallible");
    assert_eq!(machine.pointer.held, vec![MouseButton::Left]);

    let effects = machine.fail_safe();

    assert!(!effects.is_empty());
    assert!(!machine.enabled());
    assert_eq!(machine.controller().held_button(), None);
    assert!(machine.pointer.held.is_empty());
}

#[test]
fn secure_control_follows_settings_and_num_lock() {
    let mut machine = runtime_machine();
    machine
        .set_control_enabled(secure_enabled_for_num_lock(false, false))
        .expect("mock is infallible");
    assert!(!machine.enabled());

    machine
        .set_control_enabled(secure_enabled_for_num_lock(true, false))
        .expect("mock is infallible");
    assert!(machine.enabled());
    machine.apply_action(InputAction::Hold).expect("mock is infallible");
    assert_eq!(machine.pointer.held, vec![MouseButton::Left]);

    machine
        .set_control_enabled(secure_enabled_for_num_lock(true, true))
        .expect("mock is infallible");
    assert!(!machine.enabled());
    assert!(machine.pointer.held.is_empty());
}

#[derive(Debug, Default)]
struct FailingPointer {
    fail: bool,
    presses: usize,
}

impl PointerBackend for FailingPointer {
    type Error = &'static str;

    fn move_relative(&mut self, _dx: i32, _dy: i32) -> Result<(), Self::Error> {
        if self.fail { Err("move refused") } else { Ok(()) }
    }

    fn button_down(&mut self, _button: MouseButton) -> Result<(), Self::Error> {
        if self.fail {
            return Err("press refused");
        }
        self.presses += 1;
        Ok(())
    }

    fn button_up(&mut self, _button: MouseButton) -> Result<(), Self::Error> {
        if self.fail { Err("release refused") } else { Ok(()) }
    }

    fn click(&mut self, _button: MouseButton) -> Result<(), Self::Error> {
        if self.fail { Err("click refused") } else { Ok(()) }
    }

    fn double_click(&mut self, _button: MouseButton) -> Result<(), Self::Error> {
        if self.fail { Err("double click refused") } else { Ok(()) }
    }

    fn release_all(&mut self) -> Result<(), Self::Error> {
        if self.fail { Err("sweep refused") } else { Ok(()) }
    }
}

#[test]
fn backend_failures_leave_holds_uncommitted() {
    let mut machine = RuntimeMachine::new(
        RuntimeSetup { bindings: Bindings::default(), selected_button: MouseButton::Left, precision: false },
        FailingPointer::default(),
    );
    machine.apply_num_lock_mode(false).expect("backend works");
    machine.pointer.fail = true;

    assert_eq!(machine.apply_action(InputAction::Hold), Err("sweep refused"));
    assert_eq!(machine.controller().held_button(), None);

    machine.pointer.fail = false;
    machine.apply_action(InputAction::Hold).expect("backend works");
    assert_eq!(machine.controller().held_button(), Some(MouseButton::Left));
    assert_eq!(machine.pointer.presses, 1);

    machine.pointer.fail = true;
    assert_eq!(
        machine.handle_key_event(pressed(NumpadKey::Decimal, InputAction::Release)),
        Err("sweep refused")
    );
    assert_eq!(machine.controller().held_button(), Some(MouseButton::Left));

    assert_eq!(machine.apply_num_lock_mode(true), Err("sweep refused"));
    assert!(machine.enabled());
    assert!(!machine.directions().is_moving());

    let effects = machine.fail_safe();
    assert!(!effects.is_empty());
    assert!(!machine.enabled());
    assert_eq!(machine.controller().held_button(), None);
}

#[test]
fn motion_moves_reach_the_backend() {
    let mut machine = runtime_machine();
    machine.move_pointer(3, -4).expect("mock is infallible");
    machine.move_pointer(0, 7).expect("mock is infallible");
    assert_eq!(machine.pointer.moves, vec![(3, -4), (0, 7)]);
    assert!(!machine.enabled());
}

#[test]
fn a_lost_num_lock_replay_warns_normally_and_fails_safe_on_the_secure_desktop() {
    assert_eq!(replay_follow_up(false, true), ReplayFollowUp::Continue);
    assert_eq!(replay_follow_up(true, true), ReplayFollowUp::Continue);
    assert_eq!(replay_follow_up(false, false), ReplayFollowUp::Warn);
    assert_eq!(replay_follow_up(true, false), ReplayFollowUp::FailSafe);
}
