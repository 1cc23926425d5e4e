use numflow::action::{CoreEffect, MouseButton, PointerEffect, StateChange};
use numflow::hud::{
    HudCommand, HudEvent, HudFeedback, HudIconKind, HudPosition, HudPresentation,
    WS_EX_APPWINDOW, WS_EX_NOACTIVATE, WS_EX_TOOLWINDOW, WorkArea, bottom_right_hud_position,
    hud_extended_style, hud_position_in, style_flag,
};

const WORK: WorkArea = WorkArea {
    left: 0,
    top: 0,
    right: 1920,
    bottom: 1040,
};

#[test]
fn hud_is_always_placed_bottom_right() {
    let position = bottom_right_hud_position(WORK, 272, 78, 24);

    assert_eq!(position, HudPosition { x: 1624, y: 938 });
}

#[test]
fn negative_monitor_coordinates_are_supported() {
    let work = WorkArea {
        left: -1920,
        top: 0,
        right: 0,
        bottom: 1040,
    };
    let position = bottom_right_hud_position(work, 272, 78, 24);

    assert_eq!(position, HudPosition { x: -296, y: 938 });
}

#[test]
fn small_work_areas_clamp_to_the_available_top_left_margin() {
    let work = WorkArea {
        left: 0,
        top: 0,
        right: 240,
        bottom: 100,
    };
    let position = bottom_right_hud_position(work, 272, 78, 24);

    assert_eq!(position, HudPosition { x: 24, y: 24 });
}

#[test]
fn hud_native_style_is_tool_window_and_non_activating() {
    let app_window = style_flag(WS_EX_APPWINDOW);
    let tool_window = style_flag(WS_EX_TOOLWINDOW);
    let no_activate = style_flag(WS_EX_NOACTIVATE);
    let styled = hud_extended_style(app_window);

    assert_eq!(styled & app_window, 0);
    assert_ne!(styled & tool_window, 0);
    assert_ne!(styled & no_activate, 0);
}

#[test]
fn drag_feedback_is_persistent_and_names_the_held_button() {
    let presentation = HudPresentation::from_event(HudEvent::Dragging(MouseButton::Right));

    assert!(presentation.persistent);
    assert_eq!(presentation.headline, "Dragging · Right");
    assert!(presentation.detail.contains("press . to release"));
}

#[test]
fn ordinary_feedback_is_transient() {
    let presentation = HudPresentation::from_event(HudEvent::ButtonSelected(MouseButton::Left));

    assert!(!presentation.persistent);
    assert_eq!(presentation.headline, "Left button");
}

#[test]
fn paused_feedback_is_explicit_without_relying_on_color() {
    let presentation = HudPresentation::from_event(HudEvent::NumFlowEnabled(false));

    assert_eq!(presentation.headline, "NumFlow paused");
    assert_eq!(presentation.detail, "Pointer control disabled");
}

#[test]
fn saturating_positions_stay_in_range() {
    let work = WorkArea { left: i32::MIN, top: i32::MIN, right: i32::MIN, bottom: i32::MIN };
    assert_eq!(bottom_right_hud_position(work, 10, 10, 5), HudPosition { x: i32::MIN + 5, y: i32::MIN + 5 });
    let work = WorkArea { left: i32::MAX - 1, top: 0, right: i32::MAX, bottom: 100 };
    assert_eq!(bottom_right_hud_position(work, 0, 0, 10).x, i32::MAX);
    assert_eq!(hud_position_in(WORK, 272, 78, 24), Some(HudPosition { x: 1624, y: 938 }));
    assert_eq!(hud_position_in(WORK, u32::MAX, 78, 24), None);
}

#[test]
fn hud_style_keeps_unrelated_bits() {
    let styled = hud_extended_style(0x0000_0001);
    assert_eq!(styled, 0x0000_0001 | 0x80 | 0x0800_0000);
    assert_eq!(WS_EX_TOOLWINDOW, 0x80);
    assert_eq!(WS_EX_NOACTIVATE, 0x0800_0000);
    assert_eq!(WS_EX_APPWINDOW, 0x0004_0000);
}

#[test]
fn drag_report_blocks_transient_notices_until_release() {
    let feedback = HudFeedback::new();
    let (feedback, command) =
        feedback.observe_effect(CoreEffect::Pointer(PointerEffect::ButtonDown(MouseButton::Left)));
    assert!(feedback.persistent);
    match command {
        HudCommand::Present(presentation) => {
            assert_eq!(presentation.icon, HudIconKind::Dragging);
            assert_eq!(presentation.headline, "Dragging · Left");
        }
        other => panic!("expected a drag report, got {other:?}"),
    }
    let (feedback, command) =
        feedback.observe_effect(CoreEffect::State(StateChange::Precision(true)));
    assert_eq!(command, HudCommand::Nothing);
    let (feedback, command) =
        feedback.observe_effect(CoreEffect::Pointer(PointerEffect::ButtonUp(MouseButton::Left)));
    assert_eq!(command, HudCommand::ClearDragging);
    assert!(!feedback.persistent);
    let (_, command) = feedback.show_event(HudEvent::Precision(false));
    assert_eq!(
        command,
        HudCommand::Present(HudPresentation {
            headline: "Precision off",
            detail: "Normal pointer speed",
            icon: HudIconKind::Precision,
            persistent: false,
        })
    );
}

#[test]
fn disabled_feedback_shows_nothing_and_hides_the_window() {
    let (feedback, command) = HudFeedback::new().set_enabled(false);
    assert_eq!(command, HudCommand::Hide);
    assert_eq!(feedback.show_event(HudEvent::HudEnabled).1, HudCommand::Nothing);
    assert_eq!(feedback.sync_held_button(Some(MouseButton::Left)).1, HudCommand::Nothing);
    let (enabled, _) = feedback.set_enabled(true);
    let (enabled, command) = enabled.sync_held_button(Some(MouseButton::Middle));
    assert!(matches!(command, HudCommand::Present(p) if p.headline == "Dragging · Middle"));
    assert_eq!(enabled.sync_held_button(None).1, HudCommand::ClearDragging);
}

#[test]
fn a_batch_of_effects_is_reflected_in_order() {
    let effects = vec![
        CoreEffect::State(StateChange::Enabled(true)),
        CoreEffect::Pointer(PointerEffect::ButtonDown(MouseButton::Right)),
        CoreEffect::State(StateChange::Precision(true)),
        CoreEffect::Pointer(PointerEffect::ButtonUp(MouseButton::Right)),
    ];
    let (state, commands) = HudFeedback::new().observe_effects(&effects);

    assert_eq!(commands.len(), 4);
    assert!(matches!(commands[0], HudCommand::Present(p) if !p.persistent));
    assert!(matches!(commands[1], HudCommand::Present(p) if p.persistent));
    assert_eq!(commands[2], HudCommand::Nothing);
    assert_eq!(commands[3], HudCommand::ClearDragging);
    assert!(!state.persistent);
    assert!(state.enabled);
}
