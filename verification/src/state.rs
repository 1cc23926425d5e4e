//! The controller state machine: what an action does to pointer-control state and which
//! effects it emits.

use vstd::prelude::*;

use crate::action::{ClickKind, CoreEffect, Direction, InputAction, MouseButton, PointerEffect, StateChange};

verus! {

/// The abstract state of the controller.
pub struct ControllerView {
    pub enabled: bool,
    pub precision: bool,
    pub selected_button: MouseButton,
    pub held_button: Option<MouseButton>,
}

/// A button is held (a drag is active) only while pointer control is enabled.
pub open spec fn controller_invariant(state: ControllerView) -> bool {
    state.held_button is Some ==> state.enabled
}

/// The state in which the controller starts: disabled, no precision, left button, nothing held.
pub open spec fn initial_controller() -> ControllerView {
    ControllerView {
        enabled: false,
        precision: false,
        selected_button: MouseButton::Left,
        held_button: None,
    }
}

/// Clicking is possible while enabled and no button is held.
pub open spec fn spec_can_click(state: ControllerView) -> bool {
    state.enabled && state.held_button is None
}

/// Releasing the held button, if any.
pub open spec fn release_step(state: ControllerView) -> (ControllerView, Seq<CoreEffect>) {
    match state.held_button {
        Some(button) => (
            ControllerView { held_button: None, ..state },
            seq![CoreEffect::Pointer(PointerEffect::ButtonUp(button))],
        ),
        None => (state, Seq::empty()),
    }
}

/// Stopping safely: the held button is released first, then control is disabled.
pub open spec fn shutdown_step(state: ControllerView) -> (ControllerView, Seq<CoreEffect>) {
    let released = release_step(state);
    if released.0.enabled {
        (
            ControllerView { enabled: false, ..released.0 },
            released.1.push(CoreEffect::State(StateChange::Enabled(false))),
        )
    } else {
        released
    }
}

/// Holding a button: only while enabled and while nothing is held yet.
pub open spec fn hold_step(state: ControllerView, button: MouseButton) -> (ControllerView, Seq<CoreEffect>) {
    if !state.enabled || state.held_button is Some {
        (state, Seq::empty())
    } else {
        (
            ControllerView { held_button: Some(button), ..state },
            seq![CoreEffect::Pointer(PointerEffect::ButtonDown(button))],
        )
    }
}

/// Selecting the button that clicks and holds act on.
pub open spec fn select_step(state: ControllerView, button: MouseButton) -> (ControllerView, Seq<CoreEffect>) {
    if state.selected_button == button {
        (state, Seq::empty())
    } else {
        (
            ControllerView { selected_button: button, ..state },
            seq![CoreEffect::State(StateChange::SelectedButton(button))],
        )
    }
}

/// Enabling or disabling pointer control; disabling is a safe shutdown.
pub open spec fn set_enabled_step(state: ControllerView, enabled: bool) -> (ControllerView, Seq<CoreEffect>) {
    if state.enabled == enabled {
        (state, Seq::empty())
    } else if !enabled {
        shutdown_step(state)
    } else {
        (
            ControllerView { enabled: true, ..state },
            seq![CoreEffect::State(StateChange::Enabled(true))],
        )
    }
}

/// Turning precision mode on or off.
pub open spec fn set_precision_step(state: ControllerView, precision: bool) -> (ControllerView, Seq<CoreEffect>) {
    if state.precision == precision {
        (state, Seq::empty())
    } else {
        (
            ControllerView { precision, ..state },
            seq![CoreEffect::State(StateChange::Precision(precision))],
        )
    }
}

/// What applying an action does to the controller, and the effects it emits.
pub open spec fn apply_step(state: ControllerView, action: InputAction) -> (ControllerView, Seq<CoreEffect>) {
    match action {
        InputAction::Move(direction) => if state.enabled {
            (state, seq![CoreEffect::Pointer(PointerEffect::Move(direction))])
        } else {
            (state, Seq::empty())
        },
        InputAction::Click => if spec_can_click(state) {
            (
                state,
                seq![
                    CoreEffect::Pointer(
                        PointerEffect::Click { button: state.selected_button, kind: ClickKind::Single },
                    ),
                ],
            )
        } else {
            (state, Seq::empty())
        },
        InputAction::DoubleClick => if spec_can_click(state) {
            (
                state,
                seq![
                    CoreEffect::Pointer(
                        PointerEffect::Click { button: state.selected_button, kind: ClickKind::Double },
                    ),
                ],
            )
        } else {
            (state, Seq::empty())
        },
        InputAction::Hold => hold_step(state, state.selected_button),
        InputAction::Release => release_step(state),
        InputAction::SelectButton(button) => select_step(state, button),
        InputAction::ToggleEnabled => set_enabled_step(state, !state.enabled),
        InputAction::SetEnabled(enabled) => set_enabled_step(state, enabled),
        InputAction::SetPrecision(precision) => set_precision_step(state, precision),
    }
}

/// Clicks, double clicks and holds act on the selected button: while control is on and no
/// button is held, a click emits exactly one single click of the selected button, a double
/// click exactly one double click of it, and a hold exactly one press of it, and the state
/// is left as it was except for the hold; otherwise a click or double click emits nothing.
pub proof fn lemma_clicks_use_the_selected_button(state: ControllerView)
    ensures
        state.enabled && state.held_button is None ==> {
            &&& apply_step(state, InputAction::Click) == (state, seq![
                CoreEffect::Pointer(PointerEffect::Click { button: state.selected_button, kind: ClickKind::Single }),
            ])
            &&& apply_step(state, InputAction::DoubleClick) == (state, seq![
                CoreEffect::Pointer(PointerEffect::Click { button: state.selected_button, kind: ClickKind::Double }),
            ])
            &&& apply_step(state, InputAction::Hold) == (ControllerView {
                held_button: Some(state.selected_button),
                ..state
            }, seq![CoreEffect::Pointer(PointerEffect::ButtonDown(state.selected_button))])
        },
        !(state.enabled && state.held_button is None) ==> {
            &&& apply_step(state, InputAction::Click) == (state, Seq::<CoreEffect>::empty())
            &&& apply_step(state, InputAction::DoubleClick) == (state, Seq::<CoreEffect>::empty())
        },
{
}

/// Selecting a button makes the next click, double click or hold act on that button: after
/// selecting `button` while control is on and nothing is held, a click clicks `button`, a
/// double click double clicks it and a hold presses it.
pub proof fn lemma_selected_button_is_clicked(state: ControllerView, button: MouseButton)
    requires
        state.enabled,
        state.held_button is None,
    ensures
        apply_step(apply_step(state, InputAction::SelectButton(button)).0, InputAction::Click).1
            == seq![CoreEffect::Pointer(PointerEffect::Click { button, kind: ClickKind::Single })],
        apply_step(apply_step(state, InputAction::SelectButton(button)).0, InputAction::DoubleClick).1
            == seq![CoreEffect::Pointer(PointerEffect::Click { button, kind: ClickKind::Double })],
        apply_step(apply_step(state, InputAction::SelectButton(button)).0, InputAction::Hold).1
            == seq![CoreEffect::Pointer(PointerEffect::ButtonDown(button))],
{
    lemma_clicks_use_the_selected_button(apply_step(state, InputAction::SelectButton(button)).0);
}

/// Every action keeps the controller invariant: a button is held only while enabled.
pub proof fn lemma_apply_preserves_invariant(state: ControllerView, action: InputAction)
    requires
        controller_invariant(state),
    ensures
        controller_invariant(apply_step(state, action).0),
        controller_invariant(shutdown_step(state).0),
{
}

/// A shutdown leaves the controller disabled with nothing held, keeps the selected button and
/// precision mode, reports the release before the disabled state, and repeating it changes
/// nothing and emits nothing.
pub proof fn lemma_shutdown_is_safe_and_idempotent(state: ControllerView)
    ensures
        ({
            let (stopped, effects) = shutdown_step(state);
            &&& !stopped.enabled
            &&& stopped.held_button is None
            &&& stopped.selected_button == state.selected_button
            &&& stopped.precision == state.precision
            &&& effects == (match state.held_button {
                Some(button) => seq![CoreEffect::Pointer(PointerEffect::ButtonUp(button))],
                None => Seq::<CoreEffect>::empty(),
            }) + (if state.enabled {
                seq![CoreEffect::State(StateChange::Enabled(false))]
            } else {
                Seq::<CoreEffect>::empty()
            })
            &&& shutdown_step(stopped) == (stopped, Seq::<CoreEffect>::empty())
        }),
{
    let released = release_step(state);
    assert(released.1 + Seq::<CoreEffect>::empty() =~= released.1);
    if released.0.enabled {
        assert(released.1.push(CoreEffect::State(StateChange::Enabled(false))) =~= released.1 + seq![
            CoreEffect::State(StateChange::Enabled(false)),
        ]);
    }
}

/// Holding while a button is already held emits no second press and changes nothing.
pub proof fn lemma_repeated_hold_emits_nothing(state: ControllerView)
    ensures
        ({
            let held = apply_step(state, InputAction::Hold).0;
            apply_step(held, InputAction::Hold) == (held, Seq::<CoreEffect>::empty())
        }),
{
}

/// While a drag is active, clicks are suppressed and movement still passes through.
pub proof fn lemma_drag_suppresses_clicks_not_moves(state: ControllerView, direction: Direction)
    requires
        controller_invariant(state),
        state.held_button is Some,
    ensures
        apply_step(state, InputAction::Click) == (state, Seq::<CoreEffect>::empty()),
        apply_step(state, InputAction::DoubleClick) == (state, Seq::<CoreEffect>::empty()),
        apply_step(state, InputAction::Move(direction)) == (state, seq![
            CoreEffect::Pointer(PointerEffect::Move(direction)),
        ]),
{
}

/// Changing the selected button never changes which button is held or whether control is
/// enabled.
pub proof fn lemma_selection_keeps_held_button(state: ControllerView, button: MouseButton)
    ensures
        apply_step(state, InputAction::SelectButton(button)).0.held_button == state.held_button,
        apply_step(state, InputAction::SelectButton(button)).0.enabled == state.enabled,
        apply_step(state, InputAction::SelectButton(button)).0.selected_button == button,
{
}

/// Toggling twice restores the enabled flag; toggling and precision mode are independent.
pub proof fn lemma_toggle_and_precision_independent(state: ControllerView, precision: bool)
    ensures
        ({
            let once = apply_step(state, InputAction::ToggleEnabled).0;
            let twice = apply_step(once, InputAction::ToggleEnabled).0;
            &&& once.enabled == !state.enabled
            &&& twice.enabled == state.enabled
            &&& once.precision == state.precision
            &&& twice.precision == state.precision
            &&& twice.selected_button == state.selected_button
        }),
        ({
            let changed = apply_step(state, InputAction::SetPrecision(precision)).0;
            &&& changed.precision == precision
            &&& changed.enabled == state.enabled
            &&& changed.held_button == state.held_button
            &&& changed.selected_button == state.selected_button
        }),
{
}

/// Presses and releases balance: a press is emitted only when nothing was held and leaves its
/// button held; a release is emitted only for the button that was held and leaves nothing held.
pub proof fn lemma_presses_and_releases_balance(state: ControllerView, action: InputAction, index: int)
    requires
        0 <= index < apply_step(state, action).1.len(),
    ensures
        ({
            let (after, effects) = apply_step(state, action);
            &&& effects[index] matches CoreEffect::Pointer(PointerEffect::ButtonDown(button)) ==> {
                &&& state.held_button is None
                &&& after.held_button == Some(button)
            }
            &&& effects[index] matches CoreEffect::Pointer(PointerEffect::ButtonUp(button)) ==> {
                &&& state.held_button == Some(button)
                &&& after.held_button is None
            }
        }),
{
}

/// The pointer-control state: enabled, precision mode, selected button and held button.
#[derive(Debug, Clone, Copy, PartialEq, Eq, Structural)]
pub struct ControllerState {
    enabled: bool,
    precision: bool,
    selected_button: MouseButton,
    held_button: Option<MouseButton>,
}

impl View for ControllerState {
    type V = ControllerView;

    closed spec fn view(&self) -> ControllerView {
        ControllerView {
            enabled: self.enabled,
            precision: self.precision,
            selected_button: self.selected_button,
            held_button: self.held_button,
        }
    }
}

impl Default for ControllerState {
    /// Returns the initial state: disabled, no precision, left button selected, nothing held.
    fn default() -> (state: Self)
        ensures
            state@ == initial_controller(),
    {
        ControllerState {
            enabled: false,
            precision: false,
            selected_button: MouseButton::Left,
            held_button: None,
        }
    }
}

impl ControllerState {
    #[verifier::type_invariant]
    closed spec fn held_only_while_enabled(self) -> bool {
        self.held_button is Some ==> self.enabled
    }

    /// Whether pointer control is enabled.
    pub fn is_enabled(&self) -> (enabled: bool)
        ensures
            enabled == self@.enabled,
    {
        self.enabled
    }

    /// Whether precision mode is on.
    pub fn is_precision_enabled(&self) -> (precision: bool)
        ensures
            precision == self@.precision,
    {
        self.precision
    }

    /// The button that clicks and holds act on.
    pub fn selected_button(&self) -> (button: MouseButton)
        ensures
            button == self@.selected_button,
    {
        self.selected_button
    }

    /// The button currently held down, if any. A button is held only while enabled.
    pub fn held_button(&self) -> (button: Option<MouseButton>)
        ensures
            button == self@.held_button,
            button is Some ==> self@.enabled,
    {
        proof {
            use_type_invariant(self);
        }
        self.held_button
    }

    /// Whether a drag is active, that is whether a button is held.
    pub fn is_dragging(&self) -> (dragging: bool)
        ensures
            dragging == self@.held_button is Some,
    {
        self.held_button.is_some()
    }

    /// Applies an action and returns the effects to dispatch, in order.
    pub fn apply(&mut self, action: InputAction) -> (effects: Vec<CoreEffect>)
        ensures
            (final(self)@, effects@) == apply_step(old(self)@, action),
            controller_invariant(final(self)@),
    {
        proof {
            use_type_invariant(&*self);
        }
        let effects = match action {
            InputAction::Move(direction) => {
                if self.enabled {
                    let mut effects = Vec::new();
                    effects.push(CoreEffect::Pointer(PointerEffect::Move(direction)));
                    effects
                } else {
                    Vec::new()
                }
            },
            InputAction::Click => {
                if self.can_click() {
                    let mut effects = Vec::new();
                    effects.push(
                        CoreEffect::Pointer(
                            PointerEffect::Click { button: self.selected_button, kind: ClickKind::Single },
                        ),
                    );
                    effects
                } else {
                    Vec::new()
                }
            },
            InputAction::DoubleClick => {
                if self.can_click() {
                    let mut effects = Vec::new();
                    effects.push(
                        CoreEffect::Pointer(
                            PointerEffect::Click { button: self.selected_button, kind: ClickKind::Double },
                        ),
                    );
                    effects
                } else {
                    Vec::new()
                }
            },
            InputAction::Hold => {
                let button = self.selected_button;
                self.hold_button(button)
            },
            InputAction::Release => self.release_held_button(),
            InputAction::SelectButton(button) => self.select_button(button),
            InputAction::ToggleEnabled => {
                let enabled = !self.enabled;
                self.set_enabled(enabled)
            },
            InputAction::SetEnabled(enabled) => self.set_enabled(enabled),
            InputAction::SetPrecision(precision) => self.set_precision(precision),
        };
        proof {
            use_type_invariant(&*self);
        }
        effects
    }

    /// Moves the controller into a safe stopped state: the held button, if any, is released
    /// before the disabled state is reported. Repeating it emits nothing more.
    pub fn shutdown(&mut self) -> (effects: Vec<CoreEffect>)
        ensures
            (final(self)@, effects@) == shutdown_step(old(self)@),
            !final(self)@.enabled,
            final(self)@.held_button is None,
    {
        let mut effects = self.release_held_button();
        if self.enabled {
            self.enabled = false;
            effects.push(CoreEffect::State(StateChange::Enabled(false)));
        }
        effects
    }

    fn can_click(&self) -> (can: bool)
        ensures
            can == spec_can_click(self@),
    {
        self.enabled && self.held_button.is_none()
    }

    /// Holds a specific button without changing the selected button. While any button is
    /// already held, or while disabled, nothing happens and no duplicate press is emitted.
    pub fn hold_button(&mut self, button: MouseButton) -> (effects: Vec<CoreEffect>)
        ensures
            (final(self)@, effects@) == hold_step(old(self)@, button),
    {
        if !self.enabled || self.held_button.is_some() {
            return Vec::new();
        }
        self.held_button = Some(button);
        let mut effects = Vec::new();
        effects.push(CoreEffect::Pointer(PointerEffect::ButtonDown(button)));
        effects
    }

    fn release_held_button(&mut self) -> (effects: Vec<CoreEffect>)
        ensures
            (final(self)@, effects@) == release_step(old(self)@),
    {
        match self.held_button {
            Some(button) => {
                self.held_button = None;
                let mut effects = Vec::new();
                effects.push(CoreEffect::Pointer(PointerEffect::ButtonUp(button)));
                effects
            },
            None => Vec::new(),
        }
    }

    fn select_button(&mut self, button: MouseButton) -> (effects: Vec<CoreEffect>)
        ensures
            (final(self)@, effects@) == select_step(old(self)@, button),
    {
        proof {
            use_type_invariant(&*self);
        }
        if self.selected_button == button {
            return Vec::new();
        }
        self.selected_button = button;
        let mut effects = Vec::new();
        effects.push(CoreEffect::State(StateChange::SelectedButton(button)));
        effects
    }

    fn set_enabled(&mut self, enabled: bool) -> (effects: Vec<CoreEffect>)
        ensures
            (final(self)@, effects@) == set_enabled_step(old(self)@, enabled),
    {
        if self.enabled == enabled {
            return Vec::new();
        }
        if !enabled {
            return self.shutdown();
        }
        self.enabled = true;
        let mut effects = Vec::new();
        effects.push(CoreEffect::State(StateChange::Enabled(true)));
        effects
    }

    fn set_precision(&mut self, precision: bool) -> (effects: Vec<CoreEffect>)
        ensures
            (final(self)@, effects@) == set_precision_step(old(self)@, precision),
    {
        proof {
            use_type_invariant(&*self);
        }
        if self.precision == precision {
            return Vec::new();
        }
        self.precision = precision;
        let mut effects = Vec::new();
        effects.push(CoreEffect::State(StateChange::Precision(precision)));
        effects
    }
}

} // verus!
