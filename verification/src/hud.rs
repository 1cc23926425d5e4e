//! What the on-screen feedback shows for each event, and when it shows it: a drag is reported
//! persistently until it ends, and transient notices never replace it.

use vstd::prelude::*;

use crate::action::{CoreEffect, MouseButton, PointerEffect, StateChange};

verus! {

/// Something the feedback window can report.
#[derive(Debug, Clone, Copy, PartialEq, Eq, Structural)]
pub enum HudEvent {
    NumFlowEnabled(bool),
    ButtonSelected(MouseButton),
    Precision(bool),
    Dragging(MouseButton),
    HudEnabled,
    DefaultsRestored,
}

/// The icon the feedback window shows.
#[derive(Debug, Clone, Copy, PartialEq, Eq, Structural)]
pub enum HudIconKind {
    PowerOn,
    PowerOff,
    Left,
    Right,
    Middle,
    Precision,
    Dragging,
    Info,
}

/// What the feedback window shows for an event.
#[derive(Debug, Clone, Copy, PartialEq, Eq)]
pub struct HudPresentation {
    pub headline: &'static str,
    pub detail: &'static str,
    pub icon: HudIconKind,
    pub persistent: bool,
}

/// The headline naming a selected button.
pub open spec fn button_headline_of(button: MouseButton) -> &'static str {
    match button {
        MouseButton::Left => "Left button",
        MouseButton::Right => "Right button",
        MouseButton::Middle => "Middle button",
    }
}

/// The headline naming the button held for a drag.
pub open spec fn dragging_headline_of(button: MouseButton) -> &'static str {
    match button {
        MouseButton::Left => "Dragging · Left",
        MouseButton::Right => "Dragging · Right",
        MouseButton::Middle => "Dragging · Middle",
    }
}

/// The icon of a selected button.
pub open spec fn button_icon_of(button: MouseButton) -> HudIconKind {
    match button {
        MouseButton::Left => HudIconKind::Left,
        MouseButton::Right => HudIconKind::Right,
        MouseButton::Middle => HudIconKind::Middle,
    }
}

/// Returns the headline naming a selected button.
pub fn button_headline(button: MouseButton) -> (headline: &'static str)
    ensures
        headline == button_headline_of(button),
{
    match button {
        MouseButton::Left => "Left button",
        MouseButton::Right => "Right button",
        MouseButton::Middle => "Middle button",
    }
}

/// Returns the headline naming the button held for a drag.
pub fn dragging_headline(button: MouseButton) -> (headline: &'static str)
    ensures
        headline == dragging_headline_of(button),
{
    match button {
        MouseButton::Left => "Dragging · Left",
        MouseButton::Right => "Dragging · Right",
        MouseButton::Middle => "Dragging · Middle",
    }
}

/// Returns the icon of a selected button.
pub fn button_icon(button: MouseButton) -> (icon: HudIconKind)
    ensures
        icon == button_icon_of(button),
{
    match button {
        MouseButton::Left => HudIconKind::Left,
        MouseButton::Right => HudIconKind::Right,
        MouseButton::Middle => HudIconKind::Middle,
    }
}

/// What the feedback window shows for each event. Only a drag is persistent.
pub open spec fn presentation_of(event: HudEvent) -> HudPresentation {
    match event {
        HudEvent::NumFlowEnabled(true) => HudPresentation {
            headline: "NumFlow on",
            detail: "NumPad pointer control enabled",
            icon: HudIconKind::PowerOn,
            persistent: false,
        },
        HudEvent::NumFlowEnabled(false) => HudPresentation {
            headline: "NumFlow paused",
            detail: "Pointer control disabled",
            icon: HudIconKind::PowerOff,
            persistent: false,
        },
        HudEvent::ButtonSelected(button) => HudPresentation {
            headline: button_headline_of(button),
            detail: "Mouse button selected",
            icon: button_icon_of(button),
            persistent: false,
        },
        HudEvent::Precision(true) => HudPresentation {
            headline: "Precision on",
            detail: "Reduced pointer speed",
            icon: HudIconKind::Precision,
            persistent: false,
        },
        HudEvent::Precision(false) => HudPresentation {
            headline: "Precision off",
            detail: "Normal pointer speed",
            icon: HudIconKind::Precision,
            persistent: false,
        },
        HudEvent::Dragging(button) => HudPresentation {
            headline: dragging_headline_of(button),
            detail: "Drag lock active · press . to release",
            icon: HudIconKind::Dragging,
            persistent: true,
        },
        HudEvent::HudEnabled => HudPresentation {
            headline: "HUD enabled",
            detail: "NumFlow feedback is visible",
            icon: HudIconKind::Info,
            persistent: false,
        },
        HudEvent::DefaultsRestored => HudPresentation {
            headline: "Defaults restored",
            detail: "Pointer and HUD settings reset",
            icon: HudIconKind::Info,
            persistent: false,
        },
    }
}

impl HudPresentation {
    /// Returns what the feedback window shows for an event.
    pub fn from_event(event: HudEvent) -> (presentation: Self)
        ensures
            presentation == presentation_of(event),
    {
        match event {
            HudEvent::NumFlowEnabled(true) => HudPresentation {
                headline: "NumFlow on",
                detail: "NumPad pointer control enabled",
                icon: HudIconKind::PowerOn,
                persistent: false,
            },
            HudEvent::NumFlowEnabled(false) => HudPresentation {
                headline: "NumFlow paused",
                detail: "Pointer control disabled",
                icon: HudIconKind::PowerOff,
                persistent: false,
            },
            HudEvent::ButtonSelected(button) => HudPresentation {
                headline: button_headline(button),
                detail: "Mouse button selected",
                icon: button_icon(button),
                persistent: false,
            },
            HudEvent::Precision(true) => HudPresentation {
                headline: "Precision on",
                detail: "Reduced pointer speed",
                icon: HudIconKind::Precision,
                persistent: false,
            },
            HudEvent::Precision(false) => HudPresentation {
                headline: "Precision off",
                detail: "Normal pointer speed",
                icon: HudIconKind::Precision,
                persistent: false,
            },
            HudEvent::Dragging(button) => HudPresentation {
                headline: dragging_headline(button),
                detail: "Drag lock active · press . to release",
                icon: HudIconKind::Dragging,
                persistent: true,
            },
            HudEvent::HudEnabled => HudPresentation {
                headline: "HUD enabled",
                detail: "NumFlow feedback is visible",
                icon: HudIconKind::Info,
                persistent: false,
            },
            HudEvent::DefaultsRestored => HudPresentation {
                headline: "Defaults restored",
                detail: "Pointer and HUD settings reset",
                icon: HudIconKind::Info,
                persistent: false,
            },
        }
    }
}

/// What the feedback window is asked to do.
#[derive(Debug, Clone, Copy, PartialEq, Eq)]
pub enum HudCommand {
    /// Show a presentation; a transient one hides itself after a while.
    Present(HudPresentation),
    /// End the drag report and hide the window.
    ClearDragging,
    /// Hide the window.
    Hide,
    Nothing,
}

/// Whether feedback is on, and whether a persistent drag report is showing.
#[derive(Debug, Clone, Copy, PartialEq, Eq, Structural)]
pub struct HudFeedback {
    pub enabled: bool,
    pub persistent: bool,
}

/// The state and command after an event is to be shown: nothing while feedback is off; a
/// transient notice is dropped while a drag report shows; otherwise the event is presented
/// and the drag report flag follows its persistence.
pub open spec fn show_step(state: HudFeedback, event: HudEvent) -> (HudFeedback, HudCommand) {
    let presentation = presentation_of(event);
    if !state.enabled {
        (state, HudCommand::Nothing)
    } else if state.persistent && !presentation.persistent {
        (state, HudCommand::Nothing)
    } else {
        (HudFeedback { persistent: presentation.persistent, ..state }, HudCommand::Present(presentation))
    }
}

/// The state and command after a controller effect is reflected: a button press starts the
/// drag report, a button release ends it, state changes are shown, moves and clicks show
/// nothing.
pub open spec fn observe_step(state: HudFeedback, effect: CoreEffect) -> (HudFeedback, HudCommand) {
    match effect {
        CoreEffect::Pointer(PointerEffect::ButtonDown(button)) => show_step(state, HudEvent::Dragging(button)),
        CoreEffect::Pointer(PointerEffect::ButtonUp(_)) => (
            HudFeedback { persistent: false, ..state },
            HudCommand::ClearDragging,
        ),
        CoreEffect::State(StateChange::Enabled(on)) => show_step(state, HudEvent::NumFlowEnabled(on)),
        CoreEffect::State(StateChange::Precision(on)) => show_step(state, HudEvent::Precision(on)),
        CoreEffect::State(StateChange::SelectedButton(button)) => show_step(
            state,
            HudEvent::ButtonSelected(button),
        ),
        _ => (state, HudCommand::Nothing),
    }
}

/// The state and commands after controller effects are reflected in order.
pub open spec fn observe_all(state: HudFeedback, effects: Seq<CoreEffect>) -> (HudFeedback, Seq<HudCommand>)
    decreases effects.len(),
{
    if effects.len() == 0 {
        (state, Seq::empty())
    } else {
        let (before, commands) = observe_all(state, effects.drop_last());
        let (after, command) = observe_step(before, effects.last());
        (after, commands.push(command))
    }
}

impl HudFeedback {
    /// Feedback on, nothing showing.
    pub fn new() -> (state: Self)
        ensures
            state == (HudFeedback { enabled: true, persistent: false }),
    {
        HudFeedback { enabled: true, persistent: false }
    }

    /// Switches feedback on or off; switching it off ends any report and hides the window.
    pub fn set_enabled(self, enabled: bool) -> (result: (HudFeedback, HudCommand))
        ensures
            enabled ==> result == (HudFeedback { enabled: true, ..self }, HudCommand::Nothing),
            !enabled ==> result == (HudFeedback { enabled: false, persistent: false }, HudCommand::Hide),
    {
        if enabled {
            (HudFeedback { enabled: true, ..self }, HudCommand::Nothing)
        } else {
            (HudFeedback { enabled: false, persistent: false }, HudCommand::Hide)
        }
    }

    /// Shows an event, as `show_step` says.
    pub fn show_event(self, event: HudEvent) -> (result: (HudFeedback, HudCommand))
        ensures
            result == show_step(self, event),
    {
        let presentation = HudPresentation::from_event(event);
        if !self.enabled {
            return (self, HudCommand::Nothing);
        }
        if self.persistent && !presentation.persistent {
            return (self, HudCommand::Nothing);
        }
        (HudFeedback { persistent: presentation.persistent, ..self }, HudCommand::Present(presentation))
    }

    /// Ends the drag report.
    pub fn clear_dragging(self) -> (result: (HudFeedback, HudCommand))
        ensures
            result == (HudFeedback { persistent: false, ..self }, HudCommand::ClearDragging),
    {
        (HudFeedback { persistent: false, ..self }, HudCommand::ClearDragging)
    }

    /// Reflects a controller effect: a button press starts the drag report, a button release
    /// ends it, state changes are shown, moves and clicks show nothing.
    pub fn observe_effect(self, effect: CoreEffect) -> (result: (HudFeedback, HudCommand))
        ensures
            result == observe_step(self, effect),
    {
        match effect {
            CoreEffect::Pointer(PointerEffect::ButtonDown(button)) => self.show_event(HudEvent::Dragging(button)),
            CoreEffect::Pointer(PointerEffect::ButtonUp(_)) => self.clear_dragging(),
            CoreEffect::State(StateChange::Enabled(on)) => self.show_event(HudEvent::NumFlowEnabled(on)),
            CoreEffect::State(StateChange::Precision(on)) => self.show_event(HudEvent::Precision(on)),
            CoreEffect::State(StateChange::SelectedButton(button)) => self.show_event(
                HudEvent::ButtonSelected(button),
            ),
            _ => (self, HudCommand::Nothing),
        }
    }

    /// Reflects controller effects in order, as `observe_all` says; returns the commands.
    pub fn observe_effects(self, effects: &Vec<CoreEffect>) -> (result: (HudFeedback, Vec<HudCommand>))
        ensures
            (result.0, result.1@) == observe_all(self, effects@),
    {
        let mut state = self;
        let mut commands: Vec<HudCommand> = Vec::new();
        let mut i: usize = 0;
        while i < effects.len()
            invariant
                i <= effects@.len(),
                (state, commands@) == observe_all(self, effects@.take(i as int)),
            decreases effects@.len() - i,
        {
            let (next, command) = state.observe_effect(effects[i]);
            proof {
                assert(effects@.take(i as int + 1).drop_last() =~= effects@.take(i as int));
            }
            state = next;
            commands.push(command);
            i = i + 1;
        }
        assert(effects@.take(effects@.len() as int) =~= effects@);
        (state, commands)
    }

    /// Reflects the held button after state was resynchronised: a held button shows the drag
    /// report, no held button ends a showing report; nothing while feedback is off.
    pub fn sync_held_button(self, held: Option<MouseButton>) -> (result: (HudFeedback, HudCommand))
        ensures
            !self.enabled ==> result == (self, HudCommand::Nothing),
            self.enabled && held is Some ==> result == show_step(self, HudEvent::Dragging(held->0)),
            self.enabled && held is None && self.persistent ==> result == (
                HudFeedback { persistent: false, ..self },
                HudCommand::ClearDragging,
            ),
            self.enabled && held is None && !self.persistent ==> result == (self, HudCommand::Nothing),
    {
        if !self.enabled {
            return (self, HudCommand::Nothing);
        }
        match held {
            Some(button) => self.show_event(HudEvent::Dragging(button)),
            None => {
                if self.persistent {
                    self.clear_dragging()
                } else {
                    (self, HudCommand::Nothing)
                }
            },
        }
    }
}

/// While a drag report shows, no transient notice replaces it, and a drag report is only
/// ended by a button release, a held-button resynchronisation without a held button, or
/// switching feedback off.
pub proof fn lemma_drag_report_is_not_replaced(state: HudFeedback, event: HudEvent)
    requires
        state.enabled,
        state.persistent,
    ensures
        !presentation_of(event).persistent ==> show_step(state, event) == (state, HudCommand::Nothing),
        show_step(state, event).0.persistent,
{
}

/// Extended window style: tool window, kept out of the task switcher.
pub const WS_EX_TOOLWINDOW: u32 = 0x0000_0080;
/// Extended window style: never activated when shown.
pub const WS_EX_NOACTIVATE: u32 = 0x0800_0000;
/// Extended window style: promoted to the taskbar as an application window.
pub const WS_EX_APPWINDOW: u32 = 0x0004_0000;

/// Where the feedback window's top-left corner goes, in screen coordinates.
#[derive(Debug, Clone, Copy, PartialEq, Eq, Structural)]
pub struct HudPosition {
    pub x: i32,
    pub y: i32,
}

/// The work area of a monitor (the screen without taskbars), in screen coordinates.
#[derive(Debug, Clone, Copy, PartialEq, Eq, Structural)]
pub struct WorkArea {
    pub left: i32,
    pub top: i32,
    pub right: i32,
    pub bottom: i32,
}

/// A value clamped to the range of `i32`.
pub open spec fn clamp_i32(v: int) -> i32 {
    if v < i32::MIN {
        i32::MIN
    } else if v > i32::MAX {
        i32::MAX
    } else {
        v as i32
    }
}

fn saturating_add_i32(a: i32, b: i32) -> (sum: i32)
    ensures
        sum == clamp_i32(a + b),
{
    let wide = a as i64 + b as i64;
    if wide < i32::MIN as i64 {
        i32::MIN
    } else if wide > i32::MAX as i64 {
        i32::MAX
    } else {
        wide as i32
    }
}

fn saturating_sub_i32(a: i32, b: i32) -> (difference: i32)
    ensures
        difference == clamp_i32(a - b),
{
    let wide = a as i64 - b as i64;
    if wide < i32::MIN as i64 {
        i32::MIN
    } else if wide > i32::MAX as i64 {
        i32::MAX
    } else {
        wide as i32
    }
}

/// The larger of two values.
pub open spec fn max_i32(a: i32, b: i32) -> i32 {
    if a >= b {
        a
    } else {
        b
    }
}

/// The feedback window's position: a margin away from the bottom-right corner of the work
/// area, but never left of or above the margin at the top-left corner. Sums and differences
/// saturate at the ends of the `i32` range.
pub open spec fn hud_position_of(work: WorkArea, width: i32, height: i32, margin: i32) -> HudPosition {
    let left = clamp_i32(work.left + margin);
    let top = clamp_i32(work.top + margin);
    HudPosition {
        x: max_i32(clamp_i32(clamp_i32(work.right - margin) - width), left),
        y: max_i32(clamp_i32(clamp_i32(work.bottom - margin) - height), top),
    }
}

/// Returns the feedback window's position in a work area, as `hud_position_of` says.
pub fn bottom_right_hud_position(work: WorkArea, width: i32, height: i32, margin: i32) -> (position:
    HudPosition)
    ensures
        position == hud_position_of(work, width, height, margin),
{
    let left = saturating_add_i32(work.left, margin);
    let top = saturating_add_i32(work.top, margin);
    let x = saturating_sub_i32(saturating_sub_i32(work.right, margin), width);
    let y = saturating_sub_i32(saturating_sub_i32(work.bottom, margin), height);
    HudPosition {
        x: if x >= left {
            x
        } else {
            left
        },
        y: if y >= top {
            y
        } else {
            top
        },
    }
}

/// Returns the feedback window's position for a window size and margin in pixels; none when
/// a size does not fit the coordinate range.
pub fn hud_position_in(work: WorkArea, width: u32, height: u32, margin: u32) -> (position: Option<
    HudPosition,
>)
    ensures
        (width <= i32::MAX && height <= i32::MAX && margin <= i32::MAX) ==> position == Some(
            hud_position_of(work, width as i32, height as i32, margin as i32),
        ),
        !(width <= i32::MAX && height <= i32::MAX && margin <= i32::MAX) ==> position is None,
{
    if width > 0x7FFF_FFFF || height > 0x7FFF_FFFF || margin > 0x7FFF_FFFF {
        return None;
    }
    Some(bottom_right_hud_position(work, width as i32, height as i32, margin as i32))
}

/// Returns a window style flag as the signed value that window-long calls use.
pub fn style_flag(style: u32) -> (flag: i32)
    requires
        style <= i32::MAX,
    ensures
        flag == style,
{
    style as i32
}

/// Returns the extended style of the feedback window from its current style: a
/// non-activating tool window that is not an application window; other bits stay.
pub fn hud_extended_style(current_style: i32) -> (style: i32)
    ensures
        style == (current_style | (WS_EX_TOOLWINDOW as i32) | (WS_EX_NOACTIVATE as i32)) & !(
        WS_EX_APPWINDOW as i32),
{
    (current_style | style_flag(WS_EX_TOOLWINDOW) | style_flag(WS_EX_NOACTIVATE)) & !style_flag(
        WS_EX_APPWINDOW,
    )
}

/// The feedback window style always has the tool-window and no-activate bits, never the
/// application-window bit, and keeps every other bit of the current style.
pub proof fn lemma_hud_style_flags(current: i32)
    ensures
        ({
            let style = (current | 0x80i32 | 0x0800_0000i32) & !0x0004_0000i32;
            &&& style & 0x80i32 != 0
            &&& style & 0x0800_0000i32 != 0
            &&& style & 0x0004_0000i32 == 0
            &&& style & !(0x80i32 | 0x0800_0000i32 | 0x0004_0000i32) == current & !(0x80i32
                | 0x0800_0000i32 | 0x0004_0000i32)
        }),
{
    assert(((current | 0x80i32 | 0x0800_0000i32) & !0x0004_0000i32) & 0x80i32 != 0) by (bit_vector);
    assert(((current | 0x80i32 | 0x0800_0000i32) & !0x0004_0000i32) & 0x0800_0000i32 != 0)
        by (bit_vector);
    assert(((current | 0x80i32 | 0x0800_0000i32) & !0x0004_0000i32) & 0x0004_0000i32 == 0)
        by (bit_vector);
    assert(((current | 0x80i32 | 0x0800_0000i32) & !0x0004_0000i32) & !(0x80i32 | 0x0800_0000i32
        | 0x0004_0000i32) == current & !(0x80i32 | 0x0800_0000i32 | 0x0004_0000i32))
        by (bit_vector);
}

/// The feedback window always lies within the work area's top-left margin corner, and sits
/// exactly a margin away from the bottom-right corner whenever the work area has room for it
/// (no saturation involved).
pub proof fn lemma_hud_position_bounds(work: WorkArea, width: i32, height: i32, margin: i32)
    ensures
        hud_position_of(work, width, height, margin).x >= clamp_i32(work.left + margin),
        hud_position_of(work, width, height, margin).y >= clamp_i32(work.top + margin),
        (i32::MIN <= work.right - margin - width <= i32::MAX && i32::MIN <= work.right - margin
            <= i32::MAX && i32::MIN <= work.left + margin <= i32::MAX && work.right - margin - width
            >= work.left + margin) ==> hud_position_of(work, width, height, margin).x == work.right
            - margin - width,
{
}

} // verus!
