//! Decisions of the background runtime between keyboard events and the pointer backend: which
//! pointer work a NumPad event asks for, and the state the user interface is told about.

use vstd::prelude::*;

use crate::action::{ClickKind, CoreEffect, Direction, InputAction, MouseButton, PointerEffect};
use crate::bindings::{Bindings, NumpadKey};
use crate::motion::ActiveDirections;
use crate::keymap::KeyState;
use crate::normalize::NormalizedKeyEvent;
use crate::state::{ControllerState, ControllerView, apply_step, controller_invariant, shutdown_step};

verus! {

/// Modifiers of pointer motion.
#[derive(Debug, Clone, Copy, Default, PartialEq, Eq, Structural)]
pub struct MotionModifiers {
    pub precision: bool,
    pub boost: bool,
}

/// Returns the motion modifiers of the runtime: precision as set, never boosted.
pub fn motion_modifiers(precision: bool) -> (modifiers: MotionModifiers)
    ensures
        modifiers == (MotionModifiers { precision, boost: false }),
{
    MotionModifiers { precision, boost: false }
}

/// A platform pointer that performs pointer operations.
pub trait PointerBackend {
    type Error;

    /// Moves the pointer by a relative delta.
    fn move_relative(&mut self, dx: i32, dy: i32) -> Result<(), Self::Error>;

    /// Presses a button and keeps it held.
    fn button_down(&mut self, button: MouseButton) -> Result<(), Self::Error>;

    /// Releases a button held by the backend.
    fn button_up(&mut self, button: MouseButton) -> Result<(), Self::Error>;

    /// Emits one complete click.
    fn click(&mut self, button: MouseButton) -> Result<(), Self::Error>;

    /// Emits two complete clicks.
    fn double_click(&mut self, button: MouseButton) -> Result<(), Self::Error>;

    /// Releases every button the backend holds.
    fn release_all(&mut self) -> Result<(), Self::Error>;
}

/// The controller state the user interface is told about.
#[derive(Debug, Clone, Copy, PartialEq, Eq, Structural)]
pub struct RuntimeStateSnapshot {
    pub enabled: bool,
    pub selected_button: MouseButton,
    pub held_button: Option<MouseButton>,
    pub precision: bool,
}

/// What the runtime reports to the user interface.
#[derive(Debug, Clone, PartialEq, Eq)]
pub enum RuntimeEvent {
    Effects { state: RuntimeStateSnapshot, effects: Vec<CoreEffect> },
    Fault { state: RuntimeStateSnapshot, reason: String },
}

/// Why the background runtime failed.
#[derive(Debug, Clone, PartialEq, Eq)]
pub enum RuntimeError {
    Start(String),
    CommandChannelClosed,
    CommandQueueFull,
    WorkerPanicked,
}

/// A failure of the user interface.
#[derive(Debug, Clone, PartialEq, Eq)]
pub enum AppError {
    Ui(String),
}

/// The work that follows a key event, after the optional release sweep.
#[derive(Debug, Clone, Copy, PartialEq, Eq, Structural)]
pub enum KeyStep {
    /// Start moving in a direction.
    StartMotion(Direction),
    /// Stop moving in a direction.
    StopMotion(Direction),
    /// Report the effects of the release sweep and do nothing more.
    ReportRelease,
    /// Apply an action to the controller and report its effects.
    Apply(InputAction),
    Nothing,
}

/// What the runtime does with a normalized key event: first, when `release_tracked` holds,
/// release every button the pointer backend holds and clear the controller's hold; then the
/// step.
#[derive(Debug, Clone, Copy, PartialEq, Eq, Structural)]
pub struct KeyEventPlan {
    pub release_tracked: bool,
    pub step: KeyStep,
}

/// Whether a key releases the hold before anything else: 5, + and the decimal key.
pub open spec fn is_release_key(key: NumpadKey) -> bool {
    key == NumpadKey::Num5 || key == NumpadKey::Add || key == NumpadKey::Decimal
}

/// The plan for a key event. Moves start while pointer control is on and stop on release.
/// Other releases do nothing. 0 bound to hold latches the selected button. 5, + and the
/// decimal key first release every held button; the decimal key, and the others while a hold
/// was active, stop there. Actions that switch pointer control are ignored here because the
/// Num Lock mode decides it; every other action is applied.
pub open spec fn key_event_plan(enabled: bool, hold_active: bool, event: NormalizedKeyEvent) -> KeyEventPlan {
    match event.action {
        InputAction::Move(direction) => KeyEventPlan {
            release_tracked: false,
            step: match event.state {
                KeyState::Pressed => if enabled {
                    KeyStep::StartMotion(direction)
                } else {
                    KeyStep::Nothing
                },
                KeyState::Released => KeyStep::StopMotion(direction),
            },
        },
        _ => if event.state != KeyState::Pressed {
            KeyEventPlan { release_tracked: false, step: KeyStep::Nothing }
        } else if event.key == NumpadKey::Num0 && event.action == InputAction::Hold {
            KeyEventPlan { release_tracked: false, step: KeyStep::Apply(InputAction::Hold) }
        } else {
            let release = is_release_key(event.key);
            if release && (hold_active || event.key == NumpadKey::Decimal) {
                KeyEventPlan { release_tracked: true, step: KeyStep::ReportRelease }
            } else if event.action is ToggleEnabled || event.action is SetEnabled {
                KeyEventPlan { release_tracked: release, step: KeyStep::Nothing }
            } else {
                KeyEventPlan { release_tracked: release, step: KeyStep::Apply(event.action) }
            }
        },
    }
}

/// Plans a key event, as `key_event_plan` says.
pub fn plan_key_event(enabled: bool, hold_active: bool, event: NormalizedKeyEvent) -> (plan:
    KeyEventPlan)
    ensures
        plan == key_event_plan(enabled, hold_active, event),
{
    if let InputAction::Move(direction) = event.action {
        let step = match event.state {
            KeyState::Pressed => {
                if enabled {
                    KeyStep::StartMotion(direction)
                } else {
                    KeyStep::Nothing
                }
            },
            KeyState::Released => KeyStep::StopMotion(direction),
        };
        return KeyEventPlan { release_tracked: false, step };
    }
    if event.state != KeyState::Pressed {
        return KeyEventPlan { release_tracked: false, step: KeyStep::Nothing };
    }
    if event.key == NumpadKey::Num0 && event.action == InputAction::Hold {
        return KeyEventPlan { release_tracked: false, step: KeyStep::Apply(InputAction::Hold) };
    }
    let release = event.key == NumpadKey::Num5 || event.key == NumpadKey::Add || event.key
        == NumpadKey::Decimal;
    if release && (hold_active || event.key == NumpadKey::Decimal) {
        return KeyEventPlan { release_tracked: true, step: KeyStep::ReportRelease };
    }
    match event.action {
        InputAction::ToggleEnabled | InputAction::SetEnabled(_) => KeyEventPlan {
            release_tracked: release,
            step: KeyStep::Nothing,
        },
        action => KeyEventPlan { release_tracked: release, step: KeyStep::Apply(action) },
    }
}

/// How the runtime applies an action to the controller.
#[derive(Debug, Clone, Copy, PartialEq, Eq, Structural)]
pub enum ActionPlan {
    /// Latch the selected button: sweep the backend, press the button, then record the hold;
    /// nothing at all while pointer control is off or a hold is active.
    HoldSelected,
    /// Release every button the backend holds, then clear the controller's hold.
    ReleaseTracked,
    /// Stop motion, release every held button, then switch pointer control off.
    DisableAfterRelease,
    /// Apply the action to the controller and perform its pointer effects; motion stops if
    /// pointer control ends up off.
    Controller(InputAction),
}

/// Returns how an action is applied, given whether pointer control is on.
pub fn plan_action(enabled: bool, action: InputAction) -> (plan: ActionPlan)
    ensures
        action == InputAction::Hold ==> plan == ActionPlan::HoldSelected,
        action == InputAction::Release ==> plan == ActionPlan::ReleaseTracked,
        action == InputAction::SetEnabled(false) && enabled ==> plan == ActionPlan::DisableAfterRelease,
        action != InputAction::Hold && action != InputAction::Release && !(action
            == InputAction::SetEnabled(false) && enabled) ==> plan == ActionPlan::Controller(action),
{
    match action {
        InputAction::Hold => ActionPlan::HoldSelected,
        InputAction::Release => ActionPlan::ReleaseTracked,
        InputAction::SetEnabled(false) => {
            if enabled {
                ActionPlan::DisableAfterRelease
            } else {
                ActionPlan::Controller(action)
            }
        },
        _ => ActionPlan::Controller(action),
    }
}

/// Whether latching the selected button does anything: only while pointer control is on and
/// no hold is active, so repeated holds never press twice.
pub fn hold_allowed(enabled: bool, held_button: Option<MouseButton>) -> (allowed: bool)
    ensures
        allowed == (enabled && held_button is None),
{
    enabled && held_button.is_none()
}

/// A key that switches pointer control never does so through its binding, the decimal key
/// always releases, and a move key never touches held buttons.
pub proof fn lemma_key_plans_keep_mode_and_release(enabled: bool, hold_active: bool, event: NormalizedKeyEvent)
    ensures
        (event.action is ToggleEnabled || event.action is SetEnabled) ==> !(key_event_plan(
            enabled,
            hold_active,
            event,
        ).step is Apply),
        event.key == NumpadKey::Decimal && event.state == KeyState::Pressed && !(event.action is Move)
            ==> key_event_plan(enabled, hold_active, event) == (KeyEventPlan {
            release_tracked: true,
            step: KeyStep::ReportRelease,
        }),
        event.action is Move ==> !key_event_plan(enabled, hold_active, event).release_tracked,
{
}

/// Rebuilds a controller from the runtime's state snapshot, as the user interface does when
/// events were coalesced: control off, the snapshot's button and precision, then, if the
/// snapshot is enabled, control on and the snapshot's held button latched again while the
/// snapshot's selection is kept. The effects of the rebuild are discarded.
pub fn resync_controller(controller: &mut ControllerState, state: RuntimeStateSnapshot)
    ensures
        final(controller)@.enabled == state.enabled,
        final(controller)@.selected_button == state.selected_button,
        final(controller)@.precision == state.precision,
        final(controller)@.held_button == (if state.enabled {
            state.held_button
        } else {
            None
        }),
        controller_invariant(final(controller)@),
{
    let _ = controller.apply(InputAction::SetEnabled(false));
    let _ = controller.apply(InputAction::SelectButton(state.selected_button));
    let _ = controller.apply(InputAction::SetPrecision(state.precision));
    if state.enabled {
        let _ = controller.apply(InputAction::SetEnabled(true));
        if let Some(held_button) = state.held_button {
            let _ = controller.apply(InputAction::SelectButton(held_button));
            let _ = controller.apply(InputAction::Hold);
            let _ = controller.apply(InputAction::SelectButton(state.selected_button));
        }
    }
}

/// Whether a snapshot changes the active profile's stored button or precision.
pub fn snapshot_changes_profile(
    selected_button: MouseButton,
    precision_enabled: bool,
    state: RuntimeStateSnapshot,
) -> (changed: bool)
    ensures
        changed == (selected_button != state.selected_button || precision_enabled != state.precision),
{
    selected_button != state.selected_button || precision_enabled != state.precision
}

/// Whether pointer control is on in the secure runtime: only when the stored settings enable
/// it and Num Lock is off.
pub fn secure_enabled_for_num_lock(configured_enabled: bool, num_lock_on: bool) -> (enabled: bool)
    ensures
        enabled == (configured_enabled && !num_lock_on),
{
    configured_enabled && !num_lock_on
}

/// What follows an attempt to replay an intercepted Num Lock toggle to Windows.
#[derive(Debug, Clone, Copy, PartialEq, Eq, Structural)]
pub enum ReplayFollowUp {
    /// Windows has the toggle; go on.
    Continue,
    /// The normal runtime goes on with a warning: Windows' lock light may disagree.
    Warn,
    /// The secure runtime cannot tell which mode Windows is in and stops controlling the
    /// pointer: the fail-safe.
    FailSafe,
}

/// Decides what follows a replay of the Num Lock toggle: nothing when it reached Windows; a
/// warning in the normal runtime and the fail-safe in the secure one when it did not.
pub fn replay_follow_up(secure: bool, replayed: bool) -> (follow_up: ReplayFollowUp)
    ensures
        follow_up == (if replayed {
            ReplayFollowUp::Continue
        } else if secure {
            ReplayFollowUp::FailSafe
        } else {
            ReplayFollowUp::Warn
        }),
{
    if replayed {
        ReplayFollowUp::Continue
    } else if secure {
        ReplayFollowUp::FailSafe
    } else {
        ReplayFollowUp::Warn
    }
}

/// The controller state, held directions and reported effects after the runtime applies an
/// action, as `plan_action` routes it; pointer work succeeded.
pub open spec fn action_outcome(
    controller: ControllerView,
    directions: Set<Direction>,
    action: InputAction,
) -> (ControllerView, Set<Direction>, Seq<CoreEffect>) {
    if action == InputAction::Hold {
        if controller.enabled && controller.held_button is None {
            let (next, effects) = apply_step(controller, InputAction::Hold);
            (next, directions, effects)
        } else {
            (controller, directions, Seq::empty())
        }
    } else if action == InputAction::Release {
        let (next, effects) = apply_step(controller, InputAction::Release);
        (next, directions, effects)
    } else if action == InputAction::SetEnabled(false) && controller.enabled {
        let (released, release_effects) = apply_step(controller, InputAction::Release);
        let (next, effects) = apply_step(released, InputAction::SetEnabled(false));
        (next, Set::empty(), release_effects + effects)
    } else {
        let (next, effects) = apply_step(controller, action);
        (next, if next.enabled {
            directions
        } else {
            Set::empty()
        }, effects)
    }
}

/// The controller state and held directions when the pointer backend fails while the runtime
/// applies an action: a hold, a release and the release before switching off change nothing
/// in the controller (they commit only after the backend); switching off has stopped motion
/// first; any other action has already changed the controller when its effects fail.
pub open spec fn action_failure_state(
    controller: ControllerView,
    directions: Set<Direction>,
    action: InputAction,
) -> (ControllerView, Set<Direction>) {
    if action == InputAction::Hold || action == InputAction::Release {
        (controller, directions)
    } else if action == InputAction::SetEnabled(false) && controller.enabled {
        (controller, Set::empty())
    } else {
        let next = apply_step(controller, action).0;
        (next, if next.enabled {
            directions
        } else {
            Set::empty()
        })
    }
}

/// The controller state and held directions when the pointer backend fails while the runtime
/// handles a key event: a failing release sweep changes nothing; otherwise the planned action
/// failed, as `action_failure_state` says.
pub open spec fn key_failure_state(
    controller: ControllerView,
    directions: Set<Direction>,
    event: NormalizedKeyEvent,
) -> Set<(ControllerView, Set<Direction>)> {
    let plan = key_event_plan(controller.enabled, controller.held_button is Some, event);
    let released = if plan.release_tracked {
        apply_step(controller, InputAction::Release).0
    } else {
        controller
    };
    Set::empty().insert((controller, directions)).insert(
        match plan.step {
            KeyStep::Apply(action) => action_failure_state(released, directions, action),
            _ => (controller, directions),
        },
    )
}

/// The controller state, held directions and reported effects after the runtime handles a
/// normalized key event, as `key_event_plan` plans it; pointer work succeeded.
pub open spec fn key_outcome(
    controller: ControllerView,
    directions: Set<Direction>,
    event: NormalizedKeyEvent,
) -> (ControllerView, Set<Direction>, Seq<CoreEffect>) {
    let plan = key_event_plan(controller.enabled, controller.held_button is Some, event);
    let (released, release_effects) = if plan.release_tracked {
        apply_step(controller, InputAction::Release)
    } else {
        (controller, Seq::empty())
    };
    match plan.step {
        KeyStep::StartMotion(direction) => (released, directions.insert(direction), Seq::empty()),
        KeyStep::StopMotion(direction) => (released, directions.remove(direction), Seq::empty()),
        KeyStep::ReportRelease => (released, directions, release_effects),
        KeyStep::Apply(action) => action_outcome(released, directions, action),
        KeyStep::Nothing => (released, directions, Seq::empty()),
    }
}

/// Switching control through the runtime, as Num Lock does, leaves control exactly as asked
/// with motion stopped; switching it off also leaves no button held, and the release is
/// reported before control goes off.
pub proof fn lemma_control_switch_outcome(controller: ControllerView, enabled: bool)
    requires
        controller_invariant(controller),
    ensures
        action_outcome(controller, Set::empty(), InputAction::SetEnabled(enabled)).0.enabled == enabled,
        !enabled ==> action_outcome(controller, Set::empty(), InputAction::SetEnabled(enabled)).0.held_button is None,
        action_outcome(controller, Set::empty(), InputAction::SetEnabled(enabled)).1 == Set::<Direction>::empty(),
        !enabled && controller.enabled ==> action_outcome(
            controller,
            Set::empty(),
            InputAction::SetEnabled(enabled),
        ).2 == apply_step(controller, InputAction::Release).1 + apply_step(
            apply_step(controller, InputAction::Release).0,
            InputAction::SetEnabled(false),
        ).1,
{
}

/// What the runtime starts from: bindings, selected button and precision.
pub struct RuntimeSetup {
    pub bindings: Bindings,
    pub selected_button: MouseButton,
    pub precision: bool,
}

/// A request the runtime makes of the pointer backend.
#[derive(Debug, Clone, Copy, PartialEq, Eq, Structural)]
pub enum PointerCall {
    MoveRelative(i32, i32),
    ButtonDown(MouseButton),
    ButtonUp(MouseButton),
    Click(MouseButton),
    DoubleClick(MouseButton),
    ReleaseAll,
}

/// The backend request that performs a controller effect, if it asks for one; moves are left
/// to motion and state changes ask for none.
pub open spec fn effect_call(effect: CoreEffect) -> Option<PointerCall> {
    match effect {
        CoreEffect::Pointer(PointerEffect::Click { button, kind: ClickKind::Single }) => Some(
            PointerCall::Click(button),
        ),
        CoreEffect::Pointer(PointerEffect::Click { button, kind: ClickKind::Double }) => Some(
            PointerCall::DoubleClick(button),
        ),
        CoreEffect::Pointer(PointerEffect::ButtonDown(button)) => Some(PointerCall::ButtonDown(button)),
        CoreEffect::Pointer(PointerEffect::ButtonUp(button)) => Some(PointerCall::ButtonUp(button)),
        _ => None,
    }
}

/// The backend requests that perform a sequence of effects, in order.
pub open spec fn effect_calls(effects: Seq<CoreEffect>) -> Seq<PointerCall>
    decreases effects.len(),
{
    if effects.len() == 0 {
        Seq::empty()
    } else {
        let rest = effect_calls(effects.drop_last());
        match effect_call(effects.last()) {
            Some(call) => rest.push(call),
            None => rest,
        }
    }
}

/// Whether the request record went from `before` to `after` by running the planned requests
/// in order up to the first failure: `before` is kept, and what follows it is all of
/// `planned`, each succeeding, when `ok`; otherwise a prefix of `planned` whose last request
/// failed and whose others succeeded.
pub open spec fn ran(
    before: Seq<(PointerCall, bool)>,
    after: Seq<(PointerCall, bool)>,
    planned: Seq<PointerCall>,
    ok: bool,
) -> bool {
    &&& before.len() <= after.len()
    &&& after.subrange(0, before.len() as int) == before
    &&& after.len() - before.len() <= planned.len()
    &&& ok ==> after.len() - before.len() == planned.len()
    &&& !ok ==> after.len() > before.len()
    &&& forall|j: int|
        before.len() <= j < after.len() ==> #[trigger] after[j] == (planned[j - before.len()], ok
            || j < after.len() - 1)
}

/// Whether the request record went from `before` to `after` by running `planned` up to its
/// first failure, whatever the outcome, and then one release of every button, whatever the
/// outcome of those.
pub open spec fn released_after(
    before: Seq<(PointerCall, bool)>,
    after: Seq<(PointerCall, bool)>,
    planned: Seq<PointerCall>,
) -> bool {
    &&& after.len() > 0
    &&& after.last().0 == PointerCall::ReleaseAll
    &&& ran(before, after.drop_last(), planned, true) || ran(before, after.drop_last(), planned, false)
}

/// The backend requests of latching the selected button: a release sweep, then the press;
/// none while control is off or a hold is active.
pub open spec fn hold_calls(controller: ControllerView) -> Seq<PointerCall> {
    if controller.enabled && controller.held_button is None {
        seq![PointerCall::ReleaseAll, PointerCall::ButtonDown(controller.selected_button)]
    } else {
        Seq::empty()
    }
}

/// The backend requests of applying an action, as `plan_action` routes it.
pub open spec fn action_calls(controller: ControllerView, action: InputAction) -> Seq<PointerCall> {
    if action == InputAction::Hold {
        hold_calls(controller)
    } else if action == InputAction::Release || (action == InputAction::SetEnabled(false)
        && controller.enabled) {
        seq![PointerCall::ReleaseAll]
    } else {
        effect_calls(apply_step(controller, action).1)
    }
}

/// The backend requests of handling a normalized key event, as `key_event_plan` plans it:
/// the release sweep first when planned, then those of the planned action.
pub open spec fn key_calls(controller: ControllerView, event: NormalizedKeyEvent) -> Seq<PointerCall> {
    let plan = key_event_plan(controller.enabled, controller.held_button is Some, event);
    let released = if plan.release_tracked {
        apply_step(controller, InputAction::Release).0
    } else {
        controller
    };
    (if plan.release_tracked {
        seq![PointerCall::ReleaseAll]
    } else {
        Seq::empty()
    }) + match plan.step {
        KeyStep::Apply(action) => action_calls(released, action),
        _ => Seq::empty(),
    }
}

proof fn lemma_ran_nothing(before: Seq<(PointerCall, bool)>)
    ensures
        ran(before, before, Seq::empty(), true),
{
    assert(before.subrange(0, before.len() as int) =~= before);
}

proof fn lemma_ran_one(before: Seq<(PointerCall, bool)>, call: PointerCall, ok: bool)
    ensures
        ran(before, before.push((call, ok)), seq![call], ok),
{
    let after = before.push((call, ok));
    assert(after.subrange(0, before.len() as int) =~= before);
}

proof fn lemma_ran_then(
    a: Seq<(PointerCall, bool)>,
    b: Seq<(PointerCall, bool)>,
    c: Seq<(PointerCall, bool)>,
    first: Seq<PointerCall>,
    second: Seq<PointerCall>,
    ok: bool,
)
    requires
        ran(a, b, first, true),
        ran(b, c, second, ok),
    ensures
        ran(a, c, first + second, ok),
{
    assert forall|j: int| 0 <= j < a.len() implies c[j] == a[j] by {
        assert(c.subrange(0, b.len() as int)[j] == b[j]);
        assert(b.subrange(0, a.len() as int)[j] == a[j]);
    }
    assert(c.subrange(0, a.len() as int) =~= a);
    let planned = first + second;
    assert forall|j: int| a.len() <= j < c.len() implies #[trigger] c[j] == (planned[j - a.len()],
        ok || j < c.len() - 1) by {
        if j < b.len() {
            assert(c.subrange(0, b.len() as int)[j] == b[j]);
            assert(b[j] == (first[j - a.len()], true));
            if !ok {
                assert(c.len() > b.len());
            }
        } else {
            assert(c[j] == (second[j - b.len()], ok || j < c.len() - 1));
        }
    }
}

proof fn lemma_ran_stopped(
    a: Seq<(PointerCall, bool)>,
    b: Seq<(PointerCall, bool)>,
    first: Seq<PointerCall>,
    second: Seq<PointerCall>,
)
    requires
        ran(a, b, first, false),
    ensures
        ran(a, b, first + second, false),
{
    let planned = first + second;
    assert forall|j: int| a.len() <= j < b.len() implies #[trigger] b[j] == (planned[j - a.len()],
        false || j < b.len() - 1) by {
        assert(b[j] == (first[j - a.len()], false || j < b.len() - 1));
    }
}

proof fn lemma_effect_calls_append(s: Seq<CoreEffect>, t: Seq<CoreEffect>)
    ensures
        effect_calls(s + t) == effect_calls(s) + effect_calls(t),
    decreases t.len(),
{
    if t.len() == 0 {
        assert(s + t =~= s);
        assert(effect_calls(s) + effect_calls(t) =~= effect_calls(s));
    } else {
        lemma_effect_calls_append(s, t.drop_last());
        assert((s + t).drop_last() =~= s + t.drop_last());
        assert((s + t).last() == t.last());
        match effect_call(t.last()) {
            Some(call) => {
                assert(effect_calls(s) + effect_calls(t.drop_last()).push(call) =~= (effect_calls(
                    s,
                ) + effect_calls(t.drop_last())).push(call));
            },
            None => {},
        }
    }
}

/// The runtime between keyboard events and a pointer backend: the controller, the movement
/// directions held, the bindings, and the backend. Motion distances per tick are computed by
/// the caller from the held directions. It also records every request it made of the
/// backend, with whether the backend succeeded.
pub struct RuntimeMachine<B: PointerBackend> {
    controller: ControllerState,
    motion: ActiveDirections,
    bindings: Bindings,
    calls: Ghost<Seq<(PointerCall, bool)>>,
    pub pointer: B,
}

impl<B: PointerBackend> RuntimeMachine<B> {
    /// The controller's state.
    pub closed spec fn control(&self) -> ControllerView {
        self.controller@
    }

    /// The movement directions held.
    pub closed spec fn held(&self) -> Set<Direction> {
        self.motion@
    }

    /// The bindings in force.
    pub closed spec fn table(&self) -> Map<NumpadKey, InputAction> {
        self.bindings@
    }

    /// The requests made of the backend so far, in order, each with whether it succeeded.
    pub closed spec fn calls(&self) -> Seq<(PointerCall, bool)> {
        self.calls@
    }

    /// A machine with control off, the setup's button and precision, nothing held or moving.
    pub fn new(setup: RuntimeSetup, pointer: B) -> (machine: Self)
        ensures
            !machine.control().enabled,
            machine.control().selected_button == setup.selected_button,
            machine.control().precision == setup.precision,
            machine.control().held_button is None,
            machine.held() == Set::<Direction>::empty(),
            machine.table() == setup.bindings@,
            machine.calls() == Seq::<(PointerCall, bool)>::empty(),
    {
        let mut controller = ControllerState::default();
        let _ = controller.apply(InputAction::SelectButton(setup.selected_button));
        let _ = controller.apply(InputAction::SetPrecision(setup.precision));
        RuntimeMachine {
            controller,
            motion: ActiveDirections::new(),
            bindings: setup.bindings,
            calls: Ghost(Seq::empty()),
            pointer,
        }
    }

    /// The controller.
    pub fn controller(&self) -> (controller: &ControllerState)
        ensures
            controller@ == self.control(),
    {
        &self.controller
    }

    /// The movement directions held.
    pub fn directions(&self) -> (directions: &ActiveDirections)
        ensures
            directions@ == self.held(),
    {
        &self.motion
    }

    /// The bindings in force.
    pub fn bindings(&self) -> (bindings: &Bindings)
        ensures
            bindings@ == self.table(),
    {
        &self.bindings
    }

    /// Whether pointer control is on.
    pub fn enabled(&self) -> (enabled: bool)
        ensures
            enabled == self.control().enabled,
    {
        self.controller.is_enabled()
    }

    /// The state reported to the user interface.
    pub fn snapshot(&self) -> (snapshot: RuntimeStateSnapshot)
        ensures
            snapshot == (RuntimeStateSnapshot {
                enabled: self.control().enabled,
                selected_button: self.control().selected_button,
                held_button: self.control().held_button,
                precision: self.control().precision,
            }),
    {
        RuntimeStateSnapshot {
            enabled: self.controller.is_enabled(),
            selected_button: self.controller.selected_button(),
            held_button: self.controller.held_button(),
            precision: self.controller.is_precision_enabled(),
        }
    }

    /// Makes one request of the backend and records it with its outcome.
    fn perform(&mut self, call: PointerCall) -> (result: Result<(), B::Error>)
        ensures
            final(self).calls() == old(self).calls().push((call, result is Ok)),
            final(self).control() == old(self).control(),
            final(self).held() == old(self).held(),
            final(self).table() == old(self).table(),
    {
        let result = match call {
            PointerCall::MoveRelative(dx, dy) => self.pointer.move_relative(dx, dy),
            PointerCall::ButtonDown(button) => self.pointer.button_down(button),
            PointerCall::ButtonUp(button) => self.pointer.button_up(button),
            PointerCall::Click(button) => self.pointer.click(button),
            PointerCall::DoubleClick(button) => self.pointer.double_click(button),
            PointerCall::ReleaseAll => self.pointer.release_all(),
        };
        proof {
            self.calls@ = self.calls@.push((call, result is Ok));
        }
        result
    }

    /// Moves the pointer by a relative delta, as motion asks; the request is recorded.
    pub fn move_pointer(&mut self, dx: i32, dy: i32) -> (result: Result<(), B::Error>)
        ensures
            final(self).calls() == old(self).calls().push((PointerCall::MoveRelative(dx, dy), result is Ok)),
            final(self).control() == old(self).control(),
            final(self).held() == old(self).held(),
            final(self).table() == old(self).table(),
    {
        self.perform(PointerCall::MoveRelative(dx, dy))
    }

    /// Performs the pointer effects of controller effects, in order, stopping at the first
    /// failure; moves are left to motion.
    pub fn execute_effects(&mut self, effects: &Vec<CoreEffect>) -> (result: Result<(), B::Error>)
        ensures
            final(self).control() == old(self).control(),
            final(self).held() == old(self).held(),
            final(self).table() == old(self).table(),
            ran(old(self).calls(), final(self).calls(), effect_calls(effects@), result is Ok),
    {
        proof {
            lemma_ran_nothing(self.calls@);
            assert(effects@.take(0) =~= Seq::<CoreEffect>::empty());
        }
        let mut i: usize = 0;
        while i < effects.len()
            invariant
                i <= effects.len(),
                self.control() == old(self).control(),
                self.held() == old(self).held(),
                self.table() == old(self).table(),
                ran(old(self).calls(), self.calls(), effect_calls(effects@.take(i as int)), true),
            decreases effects@.len() - i,
        {
            let ghost before = self.calls();
            let effect = effects[i];
            proof {
                assert(effects@.take(i + 1).drop_last() =~= effects@.take(i as int));
                assert(effects@.take(i + 1).last() == effect);
            }
            let call = match effect {
                CoreEffect::Pointer(PointerEffect::Click { button, kind: ClickKind::Single }) => Some(
                    PointerCall::Click(button),
                ),
                CoreEffect::Pointer(PointerEffect::Click { button, kind: ClickKind::Double }) => Some(
                    PointerCall::DoubleClick(button),
                ),
                CoreEffect::Pointer(PointerEffect::ButtonDown(button)) => Some(
                    PointerCall::ButtonDown(button),
                ),
                CoreEffect::Pointer(PointerEffect::ButtonUp(button)) => Some(
                    PointerCall::ButtonUp(button),
                ),
                _ => None,
            };
            assert(call == effect_call(effect));
            if let Some(call) = call {
                let result = self.perform(call);
                proof {
                    lemma_ran_one(before, call, result is Ok);
                    lemma_ran_then(
                        old(self).calls(),
                        before,
                        self.calls(),
                        effect_calls(effects@.take(i as int)),
                        seq![call],
                        result is Ok,
                    );
                    assert(effect_calls(effects@.take(i as int)) + seq![call] =~= effect_calls(
                        effects@.take(i + 1),
                    ));
                }
                if result.is_err() {
                    proof {
                        let done = effects@.take(i + 1);
                        let rest = effects@.skip(i + 1);
                        lemma_ran_stopped(old(self).calls(), self.calls(), effect_calls(done), effect_calls(rest));
                        lemma_effect_calls_append(done, rest);
                        assert(done + rest =~= effects@);
                    }
                    return result;
                }
            }
            i = i + 1;
        }
        proof {
            assert(effects@.take(i as int) =~= effects@);
        }
        Ok(())
    }

    /// Releases every button the backend holds, then clears the controller's hold. The
    /// controller changes only once the backend released.
    pub fn release_tracked_buttons(&mut self) -> (result: Result<Vec<CoreEffect>, B::Error>)
        ensures
            final(self).held() == old(self).held(),
            final(self).table() == old(self).table(),
            result matches Ok(effects) ==> (final(self).control(), effects@) == apply_step(
                old(self).control(),
                InputAction::Release,
            ),
            result is Err ==> final(self).control() == old(self).control(),
            ran(old(self).calls(), final(self).calls(), seq![PointerCall::ReleaseAll], result is Ok),
    {
        let ghost before = self.calls();
        let swept = self.perform(PointerCall::ReleaseAll);
        proof {
            lemma_ran_one(before, PointerCall::ReleaseAll, swept is Ok);
        }
        swept?;
        Ok(self.controller.apply(InputAction::Release))
    }

    /// Latches the selected button: sweeps the backend, presses the button, then records the
    /// hold; nothing while control is off or a hold is active. The controller changes only once
    /// the backend pressed the button.
    pub fn hold_selected_button(&mut self) -> (result: Result<Vec<CoreEffect>, B::Error>)
        ensures
            final(self).held() == old(self).held(),
            final(self).table() == old(self).table(),
            result matches Ok(effects) ==> (final(self).control(), final(self).held(), effects@)
                == action_outcome(old(self).control(), old(self).held(), InputAction::Hold),
            result is Err ==> final(self).control() == old(self).control(),
            ran(old(self).calls(), final(self).calls(), hold_calls(old(self).control()), result is Ok),
    {
        let ghost before = self.calls();
        if !hold_allowed(self.controller.is_enabled(), self.controller.held_button()) {
            proof {
                lemma_ran_nothing(before);
            }
            return Ok(Vec::new());
        }
        let button = self.controller.selected_button();
        let swept = self.perform(PointerCall::ReleaseAll);
        let ghost middle = self.calls();
        proof {
            lemma_ran_one(before, PointerCall::ReleaseAll, swept is Ok);
            if swept is Err {
                lemma_ran_stopped(before, middle, seq![PointerCall::ReleaseAll], seq![PointerCall::ButtonDown(button)]);
                assert(seq![PointerCall::ReleaseAll] + seq![PointerCall::ButtonDown(button)]
                    =~= hold_calls(old(self).control()));
            }
        }
        swept?;
        let pressed = self.perform(PointerCall::ButtonDown(button));
        proof {
            lemma_ran_one(middle, PointerCall::ButtonDown(button), pressed is Ok);
            lemma_ran_then(
                before,
                middle,
                self.calls(),
                seq![PointerCall::ReleaseAll],
                seq![PointerCall::ButtonDown(button)],
                pressed is Ok,
            );
            assert(seq![PointerCall::ReleaseAll] + seq![PointerCall::ButtonDown(button)]
                =~= hold_calls(old(self).control()));
        }
        pressed?;
        Ok(self.controller.apply(InputAction::Hold))
    }

    /// Applies an action, as `action_outcome` says when the backend succeeds.
    pub fn apply_action(&mut self, action: InputAction) -> (result: Result<Vec<CoreEffect>, B::Error>)
        ensures
            final(self).table() == old(self).table(),
            result matches Ok(effects) ==> (final(self).control(), final(self).held(), effects@)
                == action_outcome(old(self).control(), old(self).held(), action),
            result is Err ==> (final(self).control(), final(self).held()) == action_failure_state(
                old(self).control(),
                old(self).held(),
                action,
            ),
            ran(old(self).calls(), final(self).calls(), action_calls(old(self).control(), action), result is Ok),
    {
        match plan_action(self.controller.is_enabled(), action) {
            ActionPlan::HoldSelected => self.hold_selected_button(),
            ActionPlan::ReleaseTracked => self.release_tracked_buttons(),
            ActionPlan::DisableAfterRelease => {
                self.motion.stop();
                let mut effects = self.release_tracked_buttons()?;
                let mut more = self.controller.apply(InputAction::SetEnabled(false));
                effects.append(&mut more);
                Ok(effects)
            },
            ActionPlan::Controller(action) => {
                let effects = self.controller.apply(action);
                if !self.controller.is_enabled() {
                    self.motion.stop();
                }
                self.execute_effects(&effects)?;
                Ok(effects)
            },
        }
    }

    /// Handles a normalized key event, as `key_outcome` says when the backend succeeds.
    pub fn handle_key_event(&mut self, event: NormalizedKeyEvent) -> (result: Result<
        Vec<CoreEffect>,
        B::Error,
    >)
        ensures
            final(self).table() == old(self).table(),
            result matches Ok(effects) ==> (final(self).control(), final(self).held(), effects@)
                == key_outcome(old(self).control(), old(self).held(), event),
            result is Err ==> key_failure_state(old(self).control(), old(self).held(), event).contains(
                (final(self).control(), final(self).held()),
            ),
            ran(old(self).calls(), final(self).calls(), key_calls(old(self).control(), event), result is Ok),
    {
        let ghost before = self.calls();
        let plan = plan_key_event(
            self.controller.is_enabled(),
            self.controller.held_button().is_some(),
            event,
        );
        let ghost sweep: Seq<PointerCall> = if plan.release_tracked {
            seq![PointerCall::ReleaseAll]
        } else {
            Seq::empty()
        };
        let ghost rest: Seq<PointerCall> = match plan.step {
            KeyStep::Apply(action) => action_calls(
                if plan.release_tracked {
                    apply_step(old(self).control(), InputAction::Release).0
                } else {
                    old(self).control()
                },
                action,
            ),
            _ => Seq::empty(),
        };
        assert(key_calls(old(self).control(), event) == sweep + rest);
        let release_effects = if plan.release_tracked {
            let swept = self.release_tracked_buttons();
            match swept {
                Ok(effects) => effects,
                Err(error) => {
                    proof {
                        lemma_ran_stopped(before, self.calls(), sweep, rest);
                    }
                    return Err(error);
                },
            }
        } else {
            proof {
                lemma_ran_nothing(before);
            }
            Vec::new()
        };
        let ghost middle = self.calls();
        proof {
            if !(plan.step is Apply) {
                lemma_ran_nothing(middle);
                lemma_ran_then(before, middle, middle, sweep, rest, true);
            }
        }
        match plan.step {
            KeyStep::StartMotion(direction) => {
                let _ = self.motion.press(direction);
                Ok(Vec::new())
            },
            KeyStep::StopMotion(direction) => {
                let _ = self.motion.release(direction);
                Ok(Vec::new())
            },
            KeyStep::ReportRelease => Ok(release_effects),
            KeyStep::Apply(action) => {
                let result = self.apply_action(action);
                proof {
                    lemma_ran_then(before, middle, self.calls(), sweep, rest, result is Ok);
                }
                result
            },
            KeyStep::Nothing => Ok(Vec::new()),
        }
    }

    /// Turns control on or off: motion stops first, and turning off releases every held
    /// button before control goes off.
    pub fn set_control_enabled(&mut self, enabled: bool) -> (result: Result<Vec<CoreEffect>, B::Error>)
        ensures
            final(self).table() == old(self).table(),
            result matches Ok(effects) ==> (final(self).control(), final(self).held(), effects@)
                == action_outcome(
                old(self).control(),
                Set::<Direction>::empty(),
                InputAction::SetEnabled(enabled),
            ),
            result is Err ==> (final(self).control(), final(self).held()) == action_failure_state(
                old(self).control(),
                Set::<Direction>::empty(),
                InputAction::SetEnabled(enabled),
            ),
            ran(
                old(self).calls(),
                final(self).calls(),
                action_calls(old(self).control(), InputAction::SetEnabled(enabled)),
                result is Ok,
            ),
    {
        self.motion.stop();
        self.apply_action(InputAction::SetEnabled(enabled))
    }

    /// Switches control to follow Num Lock: motion stops and control turns off while Num Lock
    /// is on, on while it is off.
    pub fn apply_num_lock_mode(&mut self, num_lock_on: bool) -> (result: Result<Vec<CoreEffect>, B::Error>)
        ensures
            final(self).table() == old(self).table(),
            result matches Ok(effects) ==> (final(self).control(), final(self).held(), effects@)
                == action_outcome(
                old(self).control(),
                Set::<Direction>::empty(),
                InputAction::SetEnabled(!num_lock_on),
            ),
            result is Err ==> (final(self).control(), final(self).held()) == action_failure_state(
                old(self).control(),
                Set::<Direction>::empty(),
                InputAction::SetEnabled(!num_lock_on),
            ),
            ran(
                old(self).calls(),
                final(self).calls(),
                action_calls(old(self).control(), InputAction::SetEnabled(!num_lock_on)),
                result is Ok,
            ),
    {
        self.set_control_enabled(!num_lock_on)
    }

    /// Takes new bindings; motion stops.
    pub fn set_bindings(&mut self, bindings: Bindings)
        ensures
            final(self).table() == bindings@,
            final(self).held() == Set::<Direction>::empty(),
            final(self).control() == old(self).control(),
    {
        self.motion.stop();
        self.bindings = bindings;
    }

    /// Takes a new setup: motion stops, the bindings are replaced, and the setup's button and
    /// precision are applied with their pointer effects.
    pub fn configure(&mut self, setup: RuntimeSetup) -> (result: Result<(), B::Error>)
        ensures
            final(self).table() == setup.bindings@,
            final(self).held() == Set::<Direction>::empty(),
            result is Ok ==> final(self).control() == apply_step(
                apply_step(old(self).control(), InputAction::SelectButton(setup.selected_button)).0,
                InputAction::SetPrecision(setup.precision),
            ).0,
            result is Err ==> final(self).control() == apply_step(
                old(self).control(),
                InputAction::SelectButton(setup.selected_button),
            ).0 || final(self).control() == apply_step(
                apply_step(old(self).control(), InputAction::SelectButton(setup.selected_button)).0,
                InputAction::SetPrecision(setup.precision),
            ).0,
            ran(
                old(self).calls(),
                final(self).calls(),
                effect_calls(
                    apply_step(old(self).control(), InputAction::SelectButton(setup.selected_button)).1,
                ) + effect_calls(
                    apply_step(
                        apply_step(old(self).control(), InputAction::SelectButton(setup.selected_button)).0,
                        InputAction::SetPrecision(setup.precision),
                    ).1,
                ),
                result is Ok,
            ),
    {
        let ghost before = self.calls();
        self.motion.stop();
        self.bindings = setup.bindings;
        let effects = self.controller.apply(InputAction::SelectButton(setup.selected_button));
        let ghost selected = self.control();
        let first = self.execute_effects(&effects);
        let ghost middle = self.calls();
        if first.is_err() {
            proof {
                lemma_ran_stopped(before, middle, effect_calls(effects@), effect_calls(
                    apply_step(selected, InputAction::SetPrecision(setup.precision)).1,
                ));
            }
            return first;
        }
        let more = self.controller.apply(InputAction::SetPrecision(setup.precision));
        let second = self.execute_effects(&more);
        proof {
            lemma_ran_then(before, middle, self.calls(), effect_calls(effects@), effect_calls(more@), second is Ok);
        }
        second
    }

    /// Stops for good: motion stops, the backend releases everything, then the held button is
    /// released and control turns off.
    pub fn shutdown(&mut self) -> (result: Result<Vec<CoreEffect>, B::Error>)
        ensures
            final(self).held() == Set::<Direction>::empty(),
            result matches Ok(effects) ==> {
                let (released, release_effects) = apply_step(old(self).control(), InputAction::Release);
                let (stopped, stop_effects) = shutdown_step(released);
                &&& final(self).control() == stopped
                &&& effects@ == release_effects + stop_effects
                &&& !final(self).control().enabled
                &&& final(self).control().held_button is None
            },
            result is Err ==> final(self).control() == old(self).control(),
            ran(old(self).calls(), final(self).calls(), seq![PointerCall::ReleaseAll], result is Ok),
    {
        let ghost before = self.calls();
        self.motion.stop();
        let swept = self.perform(PointerCall::ReleaseAll);
        proof {
            lemma_ran_one(before, PointerCall::ReleaseAll, swept is Ok);
        }
        swept?;
        let mut effects = self.controller.apply(InputAction::Release);
        let mut more = self.controller.shutdown();
        effects.append(&mut more);
        Ok(effects)
    }

    /// The fail-safe after a failure: motion stops, control turns off, the held button's
    /// release is sent, and the backend releases everything; backend failures are ignored.
    /// Returns the controller's effects.
    pub fn fail_safe(&mut self) -> (effects: Vec<CoreEffect>)
        ensures
            final(self).held() == Set::<Direction>::empty(),
            (final(self).control(), effects@) == shutdown_step(old(self).control()),
            !final(self).control().enabled,
            final(self).control().held_button is None,
            released_after(old(self).calls(), final(self).calls(), effect_calls(effects@)),
    {
        self.motion.stop();
        let effects = self.controller.shutdown();
        let sent = self.execute_effects(&effects);
        let ghost middle = self.calls();
        let swept = self.perform(PointerCall::ReleaseAll);
        proof {
            assert(self.calls().drop_last() =~= middle);
        }
        effects
    }
}

} // verus!
