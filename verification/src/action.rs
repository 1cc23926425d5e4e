//! Actions a NumPad key can request and the effects the controller emits.

use vstd::prelude::*;

verus! {

/// One of the eight movement directions, in screen coordinates (y grows downwards).
#[derive(Debug, Clone, Copy, PartialEq, Eq, Hash, Structural)]
pub enum Direction {
    Up,
    Down,
    Left,
    Right,
    UpLeft,
    UpRight,
    DownLeft,
    DownRight,
}

/// The unit step of a direction: x to the right, y downwards.
pub open spec fn direction_vector(direction: Direction) -> (i8, i8) {
    match direction {
        Direction::Up => (0i8, -1i8),
        Direction::Down => (0i8, 1i8),
        Direction::Left => (-1i8, 0i8),
        Direction::Right => (1i8, 0i8),
        Direction::UpLeft => (-1i8, -1i8),
        Direction::UpRight => (1i8, -1i8),
        Direction::DownLeft => (-1i8, 1i8),
        Direction::DownRight => (1i8, 1i8),
    }
}

impl Direction {
    /// Every direction, in declaration order.
    pub const ALL: [Direction; 8] = [
        Direction::Up,
        Direction::Down,
        Direction::Left,
        Direction::Right,
        Direction::UpLeft,
        Direction::UpRight,
        Direction::DownLeft,
        Direction::DownRight,
    ];

    /// Returns the unit step of this direction in screen coordinates.
    pub fn unit_vector(self) -> (vector: (i8, i8))
        ensures
            vector == direction_vector(self),
    {
        match self {
            Direction::Up => (0, -1),
            Direction::Down => (0, 1),
            Direction::Left => (-1, 0),
            Direction::Right => (1, 0),
            Direction::UpLeft => (-1, -1),
            Direction::UpRight => (1, -1),
            Direction::DownLeft => (-1, 1),
            Direction::DownRight => (1, 1),
        }
    }
}

/// Distinct directions move the pointer along distinct, non-zero unit steps whose components
/// are each -1, 0 or 1.
pub proof fn lemma_direction_vectors_distinct(a: Direction, b: Direction)
    ensures
        a != b ==> direction_vector(a) != direction_vector(b),
        direction_vector(a) != (0i8, 0i8),
        -1 <= direction_vector(a).0 <= 1,
        -1 <= direction_vector(a).1 <= 1,
{
}

/// A physical mouse button.
#[derive(Debug, Clone, Copy, PartialEq, Eq, Hash, Structural)]
pub enum MouseButton {
    Left,
    Right,
    Middle,
}

/// Whether a click is single or double.
#[derive(Debug, Clone, Copy, PartialEq, Eq, Hash, Structural)]
pub enum ClickKind {
    Single,
    Double,
}

/// What a bound NumPad key asks the controller to do.
#[derive(Debug, Clone, Copy, PartialEq, Eq, Hash, Structural)]
pub enum InputAction {
    Move(Direction),
    Click,
    DoubleClick,
    Hold,
    Release,
    SelectButton(MouseButton),
    ToggleEnabled,
    SetEnabled(bool),
    SetPrecision(bool),
}

/// A pointer operation the controller asks a backend to perform.
#[derive(Debug, Clone, Copy, PartialEq, Eq, Hash, Structural)]
pub enum PointerEffect {
    Move(Direction),
    Click { button: MouseButton, kind: ClickKind },
    ButtonDown(MouseButton),
    ButtonUp(MouseButton),
}

/// A change of controller state that the user interface reports.
#[derive(Debug, Clone, Copy, PartialEq, Eq, Hash, Structural)]
pub enum StateChange {
    Enabled(bool),
    Precision(bool),
    SelectedButton(MouseButton),
}

/// An effect of applying an action to the controller.
#[derive(Debug, Clone, Copy, PartialEq, Eq, Hash, Structural)]
pub enum CoreEffect {
    Pointer(PointerEffect),
    State(StateChange),
}

} // verus!
