use numflow::action::{ClickKind, Direction, MouseButton, PointerEffect};
use numflow::injector::{
    InjectionError, MouseCommand, MouseInjector, PointerConfig, button_flags, check_sent,
    commands_for,
};
use numflow::linux::{BTN_LEFT, BTN_RIGHT, EV_KEY, EV_REL, REL_X, REL_Y, RawInputEvent};
use numflow::linux_pointer::{PointerState, move_events};
use numflow::win_pointer::{
    DirectWindowsPointer, MOUSEEVENTF_LEFTDOWN, MOUSEEVENTF_LEFTUP, MOUSEEVENTF_MIDDLEDOWN,
    MOUSEEVENTF_MIDDLEUP, MOUSEEVENTF_MOVE, MOUSEEVENTF_RIGHTDOWN, MOUSEEVENTF_RIGHTUP,
    HelperConnection, MouseInput, PointerError, PointerRoute, PressedButtons, WindowsPointer,
    check_inserted, click_inputs, helper_disabled_for,
    double_click_inputs, mouse_input, release_inputs,
};
use windows_sys::Win32::UI::Input::KeyboardAndMouse as km;

fn mouse_fields(input: MouseInput) -> (i32, i32, u32) {
    (input.dx, input.dy, input.flags)
}

#[test]
fn relative_move_uses_relative_mouse_event() {
    let input = mouse_input(12, -7, MOUSEEVENTF_MOVE);
    assert_eq!(mouse_fields(input), (12, -7, km::MOUSEEVENTF_MOVE));
}

#[test]
fn click_sequences_use_matching_button_flags() {
    let cases = [
        (MouseButton::Left, km::MOUSEEVENTF_LEFTDOWN, km::MOUSEEVENTF_LEFTUP),
        (MouseButton::Right, km::MOUSEEVENTF_RIGHTDOWN, km::MOUSEEVENTF_RIGHTUP),
        (MouseButton::Middle, km::MOUSEEVENTF_MIDDLEDOWN, km::MOUSEEVENTF_MIDDLEUP),
    ];

    for (button, expected_down, expected_up) in cases {
        let [down, up] = click_inputs(button);
        assert_eq!(mouse_fields(down).2, expected_down);
        assert_eq!(mouse_fields(up).2, expected_up);
    }
}

#[test]
fn double_click_is_two_serial_clicks() {
    let inputs = double_click_inputs(MouseButton::Left);
    let flags = inputs.map(|input| mouse_fields(input).2);

    assert_eq!(
        flags,
        [
            km::MOUSEEVENTF_LEFTDOWN,
            km::MOUSEEVENTF_LEFTUP,
            km::MOUSEEVENTF_LEFTDOWN,
            km::MOUSEEVENTF_LEFTUP,
        ]
    );
}

#[test]
fn safe_release_only_targets_buttons_tracked_as_held() {
    let mut pressed = PressedButtons::default();
    pressed.insert(MouseButton::Left);
    pressed.insert(MouseButton::Middle);

    let inputs = release_inputs(pressed);
    let flags = inputs
        .into_iter()
        .map(|input| mouse_fields(input).2)
        .collect::<Vec<_>>();

    assert_eq!(flags, vec![km::MOUSEEVENTF_LEFTUP, km::MOUSEEVENTF_MIDDLEUP]);
}

#[test]
fn pressed_button_tracking_is_idempotent() {
    let mut pressed = PressedButtons::default();
    pressed.insert(MouseButton::Right);
    pressed.insert(MouseButton::Right);
    assert!(pressed.contains(MouseButton::Right));

    pressed.remove(MouseButton::Right);
    pressed.remove(MouseButton::Right);
    assert!(!pressed.contains(MouseButton::Right));
}

#[test]
fn mouse_flags_match_the_windows_headers() {
    assert_eq!(MOUSEEVENTF_MOVE, km::MOUSEEVENTF_MOVE);
    assert_eq!(MOUSEEVENTF_LEFTDOWN, km::MOUSEEVENTF_LEFTDOWN);
    assert_eq!(MOUSEEVENTF_LEFTUP, km::MOUSEEVENTF_LEFTUP);
    assert_eq!(MOUSEEVENTF_RIGHTDOWN, km::MOUSEEVENTF_RIGHTDOWN);
    assert_eq!(MOUSEEVENTF_RIGHTUP, km::MOUSEEVENTF_RIGHTUP);
    assert_eq!(MOUSEEVENTF_MIDDLEDOWN, km::MOUSEEVENTF_MIDDLEDOWN);
    assert_eq!(MOUSEEVENTF_MIDDLEUP, km::MOUSEEVENTF_MIDDLEUP);
}

#[test]
fn direct_pointer_never_presses_twice_and_refuses_clicks_on_held_buttons() {
    let pointer = DirectWindowsPointer::new();
    let down = pointer.button_down(MouseButton::Right);
    assert_eq!(down.inputs, vec![mouse_input(0, 0, MOUSEEVENTF_RIGHTDOWN)]);
    let pointer = DirectWindowsPointer::with_pressed(down.next);
    assert!(pointer.is_button_held(MouseButton::Right));
    assert!(pointer.has_held_buttons());
    assert!(pointer.button_down(MouseButton::Right).inputs.is_empty());
    assert_eq!(
        pointer.click(MouseButton::Right),
        Err(PointerError::ButtonAlreadyHeld { button: MouseButton::Right })
    );
    assert_eq!(
        pointer.double_click(MouseButton::Left).map(|inputs| inputs.len()),
        Ok(4)
    );
    let release = pointer.release_all();
    assert_eq!(release.inputs, vec![mouse_input(0, 0, MOUSEEVENTF_RIGHTUP)]);
    let pointer = DirectWindowsPointer::with_pressed(release.next);
    assert!(!pointer.has_held_buttons());
    assert!(pointer.release_all().inputs.is_empty());
    assert!(pointer.button_up(MouseButton::Right).inputs.is_empty());
    assert!(pointer.move_relative(0, 0).is_empty());
    assert_eq!(pointer.move_relative(3, 0), vec![mouse_input(3, 0, MOUSEEVENTF_MOVE)]);
}

#[test]
fn windows_pointer_reports_buttons_held_on_either_path() {
    let mut pointer = WindowsPointer::new();
    assert!(!pointer.is_button_held(MouseButton::Left));
    pointer.helper_pressed.insert(MouseButton::Left);
    assert!(pointer.is_button_held(MouseButton::Left));
    assert_eq!(
        pointer.ensure_clickable(MouseButton::Left),
        Err(PointerError::ButtonAlreadyHeld { button: MouseButton::Left })
    );
    assert_eq!(pointer.ensure_clickable(MouseButton::Middle), Ok(()));
    assert_eq!(check_inserted(2, 2), Ok(()));
    assert_eq!(
        check_inserted(2, 1),
        Err(PointerError::InjectionIncomplete { expected: 2, inserted: 1 })
    );
}

#[test]
fn movement_uses_normal_and_precision_steps() {
    let config = PointerConfig {
        step_pixels: 12,
        precision_step_pixels: 3,
    };

    assert_eq!(
        commands_for(PointerEffect::Move(Direction::UpRight), config, false),
        vec![MouseCommand {
            dx: 12,
            dy: -12,
            flags: km::MOUSEEVENTF_MOVE,
        }]
    );
    assert_eq!(
        commands_for(PointerEffect::Move(Direction::UpRight), config, true),
        vec![MouseCommand {
            dx: 3,
            dy: -3,
            flags: km::MOUSEEVENTF_MOVE,
        }]
    );
}

#[test]
fn button_flags_match_win32_mouse_events() {
    assert_eq!(button_flags(MouseButton::Left), (km::MOUSEEVENTF_LEFTDOWN, km::MOUSEEVENTF_LEFTUP));
    assert_eq!(
        button_flags(MouseButton::Right),
        (km::MOUSEEVENTF_RIGHTDOWN, km::MOUSEEVENTF_RIGHTUP)
    );
    assert_eq!(
        button_flags(MouseButton::Middle),
        (km::MOUSEEVENTF_MIDDLEDOWN, km::MOUSEEVENTF_MIDDLEUP)
    );
}

#[test]
fn double_click_is_two_complete_click_cycles() {
    let commands = commands_for(
        PointerEffect::Click {
            button: MouseButton::Left,
            kind: ClickKind::Double,
        },
        PointerConfig::default(),
        false,
    );

    assert_eq!(
        commands,
        vec![
            MouseCommand::stationary(km::MOUSEEVENTF_LEFTDOWN),
            MouseCommand::stationary(km::MOUSEEVENTF_LEFTUP),
            MouseCommand::stationary(km::MOUSEEVENTF_LEFTDOWN),
            MouseCommand::stationary(km::MOUSEEVENTF_LEFTUP),
        ]
    );
}

#[test]
fn injector_keeps_its_config_and_reports_partial_sends() {
    let injector = MouseInjector::new(PointerConfig::default());
    assert_eq!(injector.config(), PointerConfig { step_pixels: 12, precision_step_pixels: 3 });
    assert_eq!(
        injector.apply(PointerEffect::Move(Direction::DownLeft), false),
        vec![MouseCommand::movement(-12, 12)]
    );
    assert_eq!(
        injector.apply(PointerEffect::ButtonUp(MouseButton::Middle), true),
        vec![MouseCommand::stationary(MOUSEEVENTF_MIDDLEUP)]
    );
    assert_eq!(check_sent(4, 4, String::new()), Ok(()));
    assert_eq!(
        check_sent(1, 4, "denied".to_owned()),
        Err(InjectionError::PartialSend { sent: 1, requested: 4, source: "denied".to_owned() })
    );
}

/// Applies pointer updates the way the device writer does: a non-empty batch is emitted and
/// its state adopted.
struct Recorder {
    state: PointerState,
    batches: Vec<Vec<RawInputEvent>>,
}

impl Recorder {
    fn new() -> Self {
        Recorder { state: PointerState::new(), batches: Vec::new() }
    }

    fn emit(&mut self, update: numflow::linux_pointer::PointerUpdate) {
        if !update.events.is_empty() {
            self.batches.push(update.events.clone());
        }
        self.state.settle(update, true);
    }

    fn fail(&mut self, update: numflow::linux_pointer::PointerUpdate) {
        self.state.settle(update, false);
    }
}

fn raw(event: &RawInputEvent) -> (u16, u16, i32) {
    (event.event_type, event.code, event.value)
}

#[test]
fn relative_move_emits_x_and_y_in_one_batch() {
    let batches = vec![move_events(12, -7)];

    assert_eq!(batches.len(), 1);
    assert_eq!(
        batches[0].iter().map(raw).collect::<Vec<_>>(),
        vec![(EV_REL, REL_X, 12), (EV_REL, REL_Y, -7)]
    );
}

#[test]
fn left_button_down_and_up_emit_key_events() {
    let mut recorder = Recorder::new();
    let down = recorder.state.button_down(MouseButton::Left);
    recorder.emit(down);
    let up = recorder.state.button_up(MouseButton::Left);
    recorder.emit(up);

    assert_eq!(raw(&recorder.batches[0][0]), (EV_KEY, BTN_LEFT, 1));
    assert_eq!(raw(&recorder.batches[1][0]), (EV_KEY, BTN_LEFT, 0));
}

#[test]
fn release_all_only_releases_buttons_still_tracked_as_held() {
    let mut recorder = Recorder::new();
    let update = recorder.state.button_down(MouseButton::Left);
    recorder.emit(update);
    let update = recorder.state.button_down(MouseButton::Right);
    recorder.emit(update);
    let update = recorder.state.button_up(MouseButton::Right);
    recorder.emit(update);
    let update = recorder.state.release_all();
    recorder.emit(update);
    let update = recorder.state.release_all();
    recorder.emit(update);

    assert_eq!(recorder.batches.len(), 4);
    assert_eq!(
        recorder.batches[3].iter().map(raw).collect::<Vec<_>>(),
        vec![(EV_KEY, BTN_LEFT, 0)]
    );
    assert!(!recorder.state.is_button_held(MouseButton::Left));
    assert_eq!(BTN_RIGHT, 0x111);
}

#[test]
fn a_failed_batch_leaves_the_held_buttons_tracked() {
    let mut recorder = Recorder::new();
    let update = recorder.state.button_down(MouseButton::Left);
    recorder.emit(update);
    let update = recorder.state.release_all();
    recorder.fail(update);
    assert!(recorder.state.is_button_held(MouseButton::Left));
    let update = recorder.state.release_all();
    assert_eq!(update.events.iter().map(raw).collect::<Vec<_>>(), vec![(EV_KEY, BTN_LEFT, 0)]);
    recorder.emit(update);
    assert!(!recorder.state.is_button_held(MouseButton::Left));
    assert!(recorder.state.release_all().events.is_empty());

    let mut pointer = DirectWindowsPointer::new();
    let update = pointer.button_down(MouseButton::Right);
    pointer.settle(update, true);
    assert!(pointer.is_button_held(MouseButton::Right));
    let update = pointer.release_all();
    pointer.settle(update, false);
    assert!(pointer.is_button_held(MouseButton::Right));
    let update = pointer.release_all();
    pointer.settle(update, true);
    assert!(!pointer.has_held_buttons());
}

#[test]
fn helper_routing_prefers_a_connected_helper_and_falls_back_to_direct_input() {
    assert!(helper_disabled_for(false, false, false));
    assert!(helper_disabled_for(true, true, false));
    assert!(!helper_disabled_for(true, false, false));

    let mut pointer = WindowsPointer::new();
    assert_eq!(pointer.route_move(0, 0), PointerRoute::Skip);
    assert_eq!(pointer.route_move(2, 0), PointerRoute::Direct);
    assert!(pointer.begin_helper_connect(1_000, 2_000));
    assert!(!pointer.begin_helper_connect(1_500, 2_000));
    assert!(!pointer.finish_helper_connect(HelperConnection::Unavailable));
    assert!(!pointer.helper_connected);
    assert!(pointer.begin_helper_connect(3_000, 2_000));
    assert!(!pointer.finish_helper_connect(HelperConnection::WithUiAccess));
    assert_eq!(pointer.route_move(2, 0), PointerRoute::Helper);

    assert!(pointer.press_wants_helper(MouseButton::Left));
    assert_eq!(pointer.route_press(MouseButton::Left), PointerRoute::Helper);
    pointer.helper_pressed_button(MouseButton::Left);
    assert_eq!(pointer.route_press(MouseButton::Left), PointerRoute::Skip);
    assert_eq!(
        pointer.route_click(MouseButton::Left),
        Err(PointerError::ButtonAlreadyHeld { button: MouseButton::Left })
    );
    assert_eq!(pointer.route_release(MouseButton::Left), Ok(PointerRoute::Helper));

    pointer.finish_helper_request(false);
    assert!(!pointer.helper_connected);
    assert!(!pointer.is_button_held(MouseButton::Left));
    pointer.helper_pressed_button(MouseButton::Right);
    assert!(matches!(pointer.route_release(MouseButton::Right), Err(PointerError::Helper { .. })));
    assert_eq!(pointer.route_release(MouseButton::Middle), Ok(PointerRoute::Direct));

    let direct_failure = PointerError::InjectionIncomplete { expected: 1, inserted: 0 };
    let helper_failure = PointerError::Helper { reason: "gone".to_owned() };
    assert_eq!(
        pointer.finish_release_all(Some(Err(helper_failure.clone())), Err(direct_failure.clone())),
        Err(direct_failure)
    );
    assert!(!pointer.is_button_held(MouseButton::Right));
    assert_eq!(pointer.finish_release_all(Some(Err(helper_failure.clone())), Ok(())), Err(helper_failure));

    let mut without_access = WindowsPointer::new();
    assert!(without_access.begin_helper_connect(0, 2_000));
    assert!(without_access.finish_helper_connect(HelperConnection::WithoutUiAccess));
    assert!(without_access.helper_disabled);
    assert!(!without_access.begin_helper_connect(10_000, 2_000));
    assert!(!without_access.press_wants_helper(MouseButton::Left));
    assert_eq!(without_access.route_press(MouseButton::Left), PointerRoute::Direct);
}
