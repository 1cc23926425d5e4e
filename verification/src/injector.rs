//! Fixed-step mouse injection: the mouse commands that carry out a pointer effect.

use vstd::prelude::*;

use crate::action::{ClickKind, Direction, MouseButton, PointerEffect, direction_vector};
use crate::win_pointer::{
    MOUSEEVENTF_LEFTDOWN, MOUSEEVENTF_LEFTUP, MOUSEEVENTF_MIDDLEDOWN, MOUSEEVENTF_MIDDLEUP,
    MOUSEEVENTF_MOVE, MOUSEEVENTF_RIGHTDOWN, MOUSEEVENTF_RIGHTUP, down_flag, up_flag,
};

verus! {

/// Step sizes of a movement, in pixels.
#[derive(Debug, Clone, Copy, PartialEq, Eq, Structural)]
pub struct PointerConfig {
    pub step_pixels: i32,
    pub precision_step_pixels: i32,
}

impl Default for PointerConfig {
    /// Twelve pixels per step, three in precision mode.
    fn default() -> (config: Self)
        ensures
            config == (PointerConfig { step_pixels: 12, precision_step_pixels: 3 }),
    {
        PointerConfig { step_pixels: 12, precision_step_pixels: 3 }
    }
}

/// Why an injection failed.
#[derive(Debug, Clone, PartialEq, Eq)]
pub enum InjectionError {
    /// Windows accepted fewer mouse events than were sent; `source` describes the OS error.
    PartialSend { sent: u32, requested: u32, source: String },
}

/// Checks that Windows accepted every mouse event of a batch.
pub fn check_sent(sent: u32, requested: u32, source: String) -> (result: Result<(), InjectionError>)
    ensures
        sent == requested ==> result is Ok,
        sent != requested ==> result == Err::<(), InjectionError>(
            InjectionError::PartialSend { sent, requested, source },
        ),
{
    if sent == requested {
        Ok(())
    } else {
        Err(InjectionError::PartialSend { sent, requested, source })
    }
}

/// One mouse command: a relative delta and the event flags.
#[derive(Debug, Clone, Copy, PartialEq, Eq, Structural)]
pub struct MouseCommand {
    pub dx: i32,
    pub dy: i32,
    pub flags: u32,
}

impl MouseCommand {
    /// A command that only presses or releases.
    pub fn stationary(flags: u32) -> (command: Self)
        ensures
            command == (MouseCommand { dx: 0, dy: 0, flags }),
    {
        MouseCommand { dx: 0, dy: 0, flags }
    }

    /// A relative move.
    pub fn movement(dx: i32, dy: i32) -> (command: Self)
        ensures
            command == (MouseCommand { dx, dy, flags: MOUSEEVENTF_MOVE }),
    {
        MouseCommand { dx, dy, flags: MOUSEEVENTF_MOVE }
    }
}

/// Returns the press and release flags of a button.
pub fn button_flags(button: MouseButton) -> (flags: (u32, u32))
    ensures
        flags == (down_flag(button), up_flag(button)),
{
    match button {
        MouseButton::Left => (MOUSEEVENTF_LEFTDOWN, MOUSEEVENTF_LEFTUP),
        MouseButton::Right => (MOUSEEVENTF_RIGHTDOWN, MOUSEEVENTF_RIGHTUP),
        MouseButton::Middle => (MOUSEEVENTF_MIDDLEDOWN, MOUSEEVENTF_MIDDLEUP),
    }
}

/// The step of a movement: the precision step in precision mode, the normal one otherwise.
pub open spec fn step_of(config: PointerConfig, precision: bool) -> i32 {
    if precision {
        config.precision_step_pixels
    } else {
        config.step_pixels
    }
}

/// Whether the move of an effect fits in the delta range (the step times a unit component).
pub open spec fn movement_fits(effect: PointerEffect, config: PointerConfig, precision: bool) -> bool {
    match effect {
        PointerEffect::Move(direction) => {
            let (x, y) = direction_vector(direction);
            let step = step_of(config, precision);
            &&& i32::MIN <= x * step <= i32::MAX
            &&& i32::MIN <= y * step <= i32::MAX
        },
        _ => true,
    }
}

/// The commands of a pointer effect: a move is one relative move of the chosen step along the
/// direction; a click is a press and a release, twice for a double click; a press or release
/// is one command.
pub open spec fn commands_of(effect: PointerEffect, config: PointerConfig, precision: bool) -> Seq<
    MouseCommand,
> {
    match effect {
        PointerEffect::Move(direction) => {
            let (x, y) = direction_vector(direction);
            let step = step_of(config, precision);
            seq![MouseCommand { dx: (x * step) as i32, dy: (y * step) as i32, flags: MOUSEEVENTF_MOVE }]
        },
        PointerEffect::Click { button, kind } => {
            let down = MouseCommand { dx: 0, dy: 0, flags: down_flag(button) };
            let up = MouseCommand { dx: 0, dy: 0, flags: up_flag(button) };
            match kind {
                ClickKind::Single => seq![down, up],
                ClickKind::Double => seq![down, up, down, up],
            }
        },
        PointerEffect::ButtonDown(button) => seq![MouseCommand { dx: 0, dy: 0, flags: down_flag(button) }],
        PointerEffect::ButtonUp(button) => seq![MouseCommand { dx: 0, dy: 0, flags: up_flag(button) }],
    }
}

fn scaled(component: i8, step: i32) -> (value: i32)
    requires
        -1 <= component <= 1,
        i32::MIN <= component * step <= i32::MAX,
    ensures
        value == component * step,
{
    if component == 0 {
        assert(component * step == 0) by (nonlinear_arith)
            requires
                component == 0,
        ;
        0
    } else if component == 1 {
        assert(component * step == step) by (nonlinear_arith)
            requires
                component == 1,
        ;
        step
    } else {
        assert(component * step == -step) by (nonlinear_arith)
            requires
                component == -1,
        ;
        -step
    }
}

/// Returns the commands of a pointer effect, as `commands_of` says.
pub fn commands_for(effect: PointerEffect, config: PointerConfig, precision: bool) -> (commands: Vec<
    MouseCommand,
>)
    requires
        movement_fits(effect, config, precision),
    ensures
        commands@ == commands_of(effect, config, precision),
{
    let mut commands: Vec<MouseCommand> = Vec::new();
    match effect {
        PointerEffect::Move(direction) => {
            let step = if precision {
                config.precision_step_pixels
            } else {
                config.step_pixels
            };
            let (x, y) = direction.unit_vector();
            proof {
                crate::action::lemma_direction_vectors_distinct(direction, direction);
            }
            commands.push(MouseCommand::movement(scaled(x, step), scaled(y, step)));
        },
        PointerEffect::Click { button, kind } => {
            let (down, up) = button_flags(button);
            commands.push(MouseCommand::stationary(down));
            commands.push(MouseCommand::stationary(up));
            if let ClickKind::Double = kind {
                commands.push(MouseCommand::stationary(down));
                commands.push(MouseCommand::stationary(up));
            }
        },
        PointerEffect::ButtonDown(button) => {
            let (down, _) = button_flags(button);
            commands.push(MouseCommand::stationary(down));
        },
        PointerEffect::ButtonUp(button) => {
            let (_, up) = button_flags(button);
            commands.push(MouseCommand::stationary(up));
        },
    }
    assert(commands@ =~= commands_of(effect, config, precision));
    commands
}

/// A mouse injector with fixed step sizes.
#[derive(Debug, Clone, Copy, Default)]
pub struct MouseInjector {
    config: PointerConfig,
}

impl View for MouseInjector {
    type V = PointerConfig;

    /// The step sizes of the injector.
    closed spec fn view(&self) -> PointerConfig {
        self.config
    }
}

impl MouseInjector {
    /// An injector with the given step sizes.
    pub fn new(config: PointerConfig) -> (injector: Self)
        ensures
            injector@ == config,
    {
        MouseInjector { config }
    }

    /// Returns the step sizes of this injector.
    pub fn config(&self) -> (config: PointerConfig)
        ensures
            config == self@,
    {
        self.config
    }

    /// Returns the batch of mouse commands that carries out an effect; sending the batch is
    /// left to the caller.
    pub fn apply(&self, effect: PointerEffect, precision: bool) -> (commands: Vec<MouseCommand>)
        requires
            movement_fits(effect, self@, precision),
        ensures
            commands@ == commands_of(effect, self@, precision),
    {
        commands_for(effect, self.config, precision)
    }
}

/// A double click is two complete click cycles, and every click cycle presses before it
/// releases the same button.
pub proof fn lemma_double_click_is_two_cycles(button: MouseButton, config: PointerConfig, precision: bool)
    ensures
        commands_of(PointerEffect::Click { button, kind: ClickKind::Double }, config, precision)
            == commands_of(PointerEffect::Click { button, kind: ClickKind::Single }, config, precision)
            + commands_of(PointerEffect::Click { button, kind: ClickKind::Single }, config, precision),
        commands_of(PointerEffect::Click { button, kind: ClickKind::Single }, config, precision)
            == commands_of(PointerEffect::ButtonDown(button), config, precision) + commands_of(
            PointerEffect::ButtonUp(button),
            config,
            precision,
        ),
{
    assert(commands_of(PointerEffect::Click { button, kind: ClickKind::Double }, config, precision)
        =~= commands_of(PointerEffect::Click { button, kind: ClickKind::Single }, config, precision)
        + commands_of(PointerEffect::Click { button, kind: ClickKind::Single }, config, precision));
    assert(commands_of(PointerEffect::Click { button, kind: ClickKind::Single }, config, precision)
        =~= commands_of(PointerEffect::ButtonDown(button), config, precision) + commands_of(
        PointerEffect::ButtonUp(button),
        config,
        precision,
    ));
}

} // verus!
