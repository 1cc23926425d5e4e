use numflow::action::{Direction, InputAction, MouseButton};
use numflow::bindings::NumpadKey;
use numflow::keymap::KeyState;
use numflow::normalize::NormalizedKeyEvent;
use numflow::motion::ActiveDirections;
use numflow::runtime::{
    ActionPlan, KeyEventPlan, KeyStep, MotionModifiers, RuntimeStateSnapshot, hold_allowed,
    motion_modifiers, plan_action, plan_key_event, resync_controller, secure_enabled_for_num_lock,
    snapshot_changes_profile,
};
use numflow::state::ControllerState;

fn pressed(key: NumpadKey, action: InputAction) -> NormalizedKeyEvent {
    NormalizedKeyEvent { key, action, state: KeyState::Pressed, repeated: false }
}

#[test]
fn moves_start_only_while_enabled_and_always_stop() {
    let up = pressed(NumpadKey::Num8, InputAction::Move(Direction::Up));
    assert_eq!(
        plan_key_event(true, false, up),
        KeyEventPlan { release_tracked: false, step: KeyStep::StartMotion(Direction::Up) }
    );
    assert_eq!(plan_key_event(false, false, up).step, KeyStep::Nothing);
    let released = NormalizedKeyEvent { state: KeyState::Released, ..up };
    assert_eq!(plan_key_event(false, false, released).step, KeyStep::StopMotion(Direction::Up));
}

#[test]
fn five_add_and_decimal_release_before_acting() {
    let five = pressed(NumpadKey::Num5, InputAction::Click);
    assert_eq!(
        plan_key_event(true, true, five),
        KeyEventPlan { release_tracked: true, step: KeyStep::ReportRelease }
    );
    assert_eq!(
        plan_key_event(true, false, five),
        KeyEventPlan { release_tracked: true, step: KeyStep::Apply(InputAction::Click) }
    );
    let decimal = pressed(NumpadKey::Decimal, InputAction::Release);
    assert_eq!(
        plan_key_event(true, false, decimal),
        KeyEventPlan { release_tracked: true, step: KeyStep::ReportRelease }
    );
    let zero = pressed(NumpadKey::Num0, InputAction::Hold);
    assert_eq!(
        plan_key_event(true, false, zero),
        KeyEventPlan { release_tracked: false, step: KeyStep::Apply(InputAction::Hold) }
    );
}

#[test]
fn mapped_enable_actions_are_ignored_by_the_key_plan() {
    let toggle = pressed(NumpadKey::Divide, InputAction::ToggleEnabled);
    assert_eq!(
        plan_key_event(true, false, toggle),
        KeyEventPlan { release_tracked: false, step: KeyStep::Nothing }
    );
    let released = NormalizedKeyEvent { state: KeyState::Released, ..pressed(NumpadKey::Num5, InputAction::Click) };
    assert_eq!(plan_key_event(true, true, released).step, KeyStep::Nothing);
}

#[test]
fn actions_route_to_hold_release_and_disable_paths() {
    assert_eq!(plan_action(true, InputAction::Hold), ActionPlan::HoldSelected);
    assert_eq!(plan_action(true, InputAction::Release), ActionPlan::ReleaseTracked);
    assert_eq!(plan_action(true, InputAction::SetEnabled(false)), ActionPlan::DisableAfterRelease);
    assert_eq!(
        plan_action(false, InputAction::SetEnabled(false)),
        ActionPlan::Controller(InputAction::SetEnabled(false))
    );
    assert!(hold_allowed(true, None));
    assert!(!hold_allowed(true, Some(MouseButton::Left)));
    assert!(!hold_allowed(false, None));
    assert_eq!(motion_modifiers(true), MotionModifiers { precision: true, boost: false });
}

#[test]
fn snapshot_resync_rebuilds_the_controller() {
    let mut controller = ControllerState::default();
    let snapshot = RuntimeStateSnapshot {
        enabled: true,
        selected_button: MouseButton::Right,
        held_button: Some(MouseButton::Left),
        precision: true,
    };
    let changed = snapshot_changes_profile(MouseButton::Left, false, snapshot);
    resync_controller(&mut controller, snapshot);

    assert!(changed);
    assert!(controller.is_enabled());
    assert_eq!(controller.selected_button(), MouseButton::Right);
    assert_eq!(controller.held_button(), Some(MouseButton::Left));
    assert!(controller.is_precision_enabled());
    assert!(!snapshot_changes_profile(MouseButton::Right, true, snapshot));
}

#[test]
fn disabled_snapshot_clears_any_hold() {
    let mut controller = ControllerState::default();
    controller.apply(InputAction::SetEnabled(true));
    controller.apply(InputAction::Hold);
    resync_controller(
        &mut controller,
        RuntimeStateSnapshot {
            enabled: false,
            selected_button: MouseButton::Middle,
            held_button: None,
            precision: false,
        },
    );
    assert!(!controller.is_enabled());
    assert_eq!(controller.held_button(), None);
    assert_eq!(controller.selected_button(), MouseButton::Middle);
    assert!(secure_enabled_for_num_lock(true, false));
    assert!(!secure_enabled_for_num_lock(true, true));
    assert!(!secure_enabled_for_num_lock(false, false));
}

#[test]
fn held_directions_sum_and_cancel() {
    let mut held = ActiveDirections::new();
    assert!(!held.is_moving());
    assert!(held.press(Direction::Up));
    assert!(!held.press(Direction::Right));
    assert_eq!(held.net_vector(), (1, -1));
    assert!(!held.press(Direction::Down));
    assert_eq!(held.net_vector(), (1, 0));
    assert!(!held.release(Direction::Right));
    assert_eq!(held.net_vector(), (0, 0));
    assert!(held.is_moving());
    assert!(held.contains(Direction::Down));
    assert!(!held.release(Direction::Up));
    assert!(held.release(Direction::Down));
    held.press(Direction::DownLeft);
    held.stop();
    assert!(!held.is_moving());
}
