use numflow::action::{CoreEffect, Direction, InputAction, MouseButton, PointerEffect, StateChange};
use numflow::bindings::{Bindings, NumpadKey};
use numflow::config::BindingConfig;
use numflow::state::ControllerState;

#[test]
fn directions_are_unique_and_match_screen_coordinates() {
    let expected = [
        (Direction::Up, (0, -1)),
        (Direction::Down, (0, 1)),
        (Direction::Left, (-1, 0)),
        (Direction::Right, (1, 0)),
        (Direction::UpLeft, (-1, -1)),
        (Direction::UpRight, (1, -1)),
        (Direction::DownLeft, (-1, 1)),
        (Direction::DownRight, (1, 1)),
    ];
    let vectors = expected
        .iter()
        .map(|(_, vector)| *vector)
        .collect::<std::collections::HashSet<_>>();

    assert_eq!(vectors.len(), Direction::ALL.len());
    for (direction, vector) in expected {
        assert_eq!(direction.unit_vector(), vector);
    }
}

#[test]
fn default_bindings_cover_every_numpad_control() {
    let bindings = Bindings::default();
    let expected = [
        (8, InputAction::Move(Direction::Up)),
        (2, InputAction::Move(Direction::Down)),
        (4, InputAction::Move(Direction::Left)),
        (6, InputAction::Move(Direction::Right)),
        (7, InputAction::Move(Direction::UpLeft)),
        (9, InputAction::Move(Direction::UpRight)),
        (1, InputAction::Move(Direction::DownLeft)),
        (3, InputAction::Move(Direction::DownRight)),
        (5, InputAction::Click),
    ];

    for (digit, action) in expected {
        let key = match digit {
            1 => NumpadKey::Num1,
            2 => NumpadKey::Num2,
            3 => NumpadKey::Num3,
            4 => NumpadKey::Num4,
            5 => NumpadKey::Num5,
            6 => NumpadKey::Num6,
            7 => NumpadKey::Num7,
            8 => NumpadKey::Num8,
            9 => NumpadKey::Num9,
            _ => unreachable!("test fixture only contains NumPad digits"),
        };
        assert_eq!(bindings.action_for(key), Some(action));
    }

    assert_eq!(bindings.iter().len(), 15);
}

#[test]
fn bindings_can_be_reassigned_and_removed() {
    let mut bindings = Bindings::default();

    assert_eq!(
        bindings.bind(NumpadKey::Num5, InputAction::DoubleClick),
        Some(InputAction::Click)
    );
    assert_eq!(
        bindings.action_for(NumpadKey::Num5),
        Some(InputAction::DoubleClick)
    );
    assert_eq!(
        bindings.unbind(NumpadKey::Num5),
        Some(InputAction::DoubleClick)
    );
    assert_eq!(bindings.action_for(NumpadKey::Num5), None);
}

#[test]
fn controller_emits_click_hold_release_and_fail_safe_effects() {
    let mut state = ControllerState::default();
    assert!(!state.is_enabled());
    assert!(!state.is_dragging());

    assert_eq!(
        state.apply(InputAction::SetEnabled(true)),
        vec![CoreEffect::State(StateChange::Enabled(true))]
    );
    state.apply(InputAction::SelectButton(MouseButton::Right));
    assert_eq!(
        state.apply(InputAction::Hold),
        vec![CoreEffect::Pointer(PointerEffect::ButtonDown(MouseButton::Right))]
    );
    assert!(state.apply(InputAction::Hold).is_empty());
    assert_eq!(state.held_button(), Some(MouseButton::Right));

    assert_eq!(
        state.apply(InputAction::SetEnabled(false)),
        vec![
            CoreEffect::Pointer(PointerEffect::ButtonUp(MouseButton::Right)),
            CoreEffect::State(StateChange::Enabled(false)),
        ]
    );
    assert!(!state.is_dragging());
    assert_eq!(state.held_button(), None);
    assert!(state.shutdown().is_empty());
}

#[test]
fn controller_suppresses_pointer_clicks_during_drag_but_allows_movement() {
    let mut state = ControllerState::default();
    state.apply(InputAction::SetEnabled(true));
    state.apply(InputAction::Hold);

    assert!(state.apply(InputAction::Click).is_empty());
    assert!(state.apply(InputAction::DoubleClick).is_empty());
    assert_eq!(
        state.apply(InputAction::Move(Direction::Right)),
        vec![CoreEffect::Pointer(PointerEffect::Move(Direction::Right))]
    );
}

#[test]
fn controller_keeps_held_button_stable_when_selection_changes() {
    let mut state = ControllerState::default();
    state.apply(InputAction::SetEnabled(true));
    state.apply(InputAction::SelectButton(MouseButton::Right));
    state.apply(InputAction::Hold);

    assert_eq!(
        state.apply(InputAction::SelectButton(MouseButton::Middle)),
        vec![CoreEffect::State(StateChange::SelectedButton(MouseButton::Middle))]
    );
    assert_eq!(state.selected_button(), MouseButton::Middle);
    assert_eq!(state.held_button(), Some(MouseButton::Right));
    assert_eq!(
        state.apply(InputAction::Release),
        vec![CoreEffect::Pointer(PointerEffect::ButtonUp(MouseButton::Right))]
    );
}

#[test]
fn controller_toggle_and_precision_are_independent() {
    let mut state = ControllerState::default();
    assert_eq!(
        state.apply(InputAction::ToggleEnabled),
        vec![CoreEffect::State(StateChange::Enabled(true))]
    );
    assert_eq!(
        state.apply(InputAction::ToggleEnabled),
        vec![CoreEffect::State(StateChange::Enabled(false))]
    );
    assert_eq!(
        state.apply(InputAction::SetPrecision(true)),
        vec![CoreEffect::State(StateChange::Precision(true))]
    );
    assert!(state.is_precision_enabled());
    assert!(!state.is_enabled());
}

#[test]
fn bindings_listing_is_ordered_by_key_and_complete() {
    let bindings = Bindings::default();
    let listing = bindings.iter();
    assert_eq!(listing.len(), 15);
    assert_eq!(listing[0], (NumpadKey::Num0, InputAction::Hold));
    assert_eq!(listing[14], (NumpadKey::Subtract, InputAction::SelectButton(MouseButton::Middle)));
    assert!(Bindings::empty().iter().is_empty());
}

#[test]
fn shutdown_releases_the_held_button_and_disables_control() {
    let mut state = ControllerState::default();
    state.apply(InputAction::SetEnabled(true));
    state.apply(InputAction::Hold);
    assert_eq!(
        state.shutdown(),
        vec![
            CoreEffect::Pointer(PointerEffect::ButtonUp(MouseButton::Left)),
            CoreEffect::State(StateChange::Enabled(false)),
        ]
    );
    assert!(state.shutdown().is_empty());
    assert!(!state.is_enabled());
}

#[test]
fn listing_has_one_entry_per_bound_key() {
    let mut bindings = Bindings::empty();
    assert!(bindings.iter().is_empty());
    bindings.bind(NumpadKey::Subtract, InputAction::Click);
    bindings.bind(NumpadKey::Num3, InputAction::Hold);
    bindings.bind(NumpadKey::Num3, InputAction::Release);
    let listing = bindings.iter();
    assert_eq!(listing, vec![(NumpadKey::Num3, InputAction::Release), (NumpadKey::Subtract, InputAction::Click)]);
    assert_eq!(Bindings::default().iter().len(), 15);
}

#[test]
fn stored_defaults_list_the_default_table_in_order() {
    let defaults = BindingConfig::defaults();
    let listing = Bindings::default().iter();
    assert_eq!(defaults.len(), listing.len());
    for (stored, (key, action)) in defaults.iter().zip(listing.iter()) {
        assert_eq!(stored.key.to_key(), *key);
        assert_eq!(stored.action.to_action(), *action);
    }
}
