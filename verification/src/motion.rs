//! The set of movement directions held down and the net direction it moves the pointer in.
//! How far the pointer travels per tick is computed with floating point by the caller.

use vstd::prelude::*;

use crate::action::{Direction, direction_vector};

verus! {

/// The bit of a direction in the set of held directions.
pub open spec fn direction_bit(direction: Direction) -> u8 {
    match direction {
        Direction::Up => 1u8,
        Direction::Down => 2u8,
        Direction::Left => 4u8,
        Direction::Right => 8u8,
        Direction::UpLeft => 16u8,
        Direction::UpRight => 32u8,
        Direction::DownLeft => 64u8,
        Direction::DownRight => 128u8,
    }
}

fn bit(direction: Direction) -> (b: u8)
    ensures
        b == direction_bit(direction),
{
    match direction {
        Direction::Up => 1,
        Direction::Down => 2,
        Direction::Left => 4,
        Direction::Right => 8,
        Direction::UpLeft => 16,
        Direction::UpRight => 32,
        Direction::DownLeft => 64,
        Direction::DownRight => 128,
    }
}

/// Whether a value is one of the eight direction bits.
pub open spec fn is_direction_bit(m: u8) -> bool {
    m == 1 || m == 2 || m == 4 || m == 8 || m == 16 || m == 32 || m == 64 || m == 128
}

proof fn lemma_direction_bits(x: u8, m: u8, n: u8)
    requires
        is_direction_bit(m),
        is_direction_bit(n),
    ensures
        ((x | m) & n != 0) <==> (x & n != 0 || m == n),
        ((x & !m) & n != 0) <==> (x & n != 0 && m != n),
{
    assert(((x | m) & n != 0) <==> (x & n != 0 || m == n)) by (bit_vector)
        requires
            is_direction_bit(m),
            is_direction_bit(n),
    ;
    assert(((x & !m) & n != 0) <==> (x & n != 0 && m != n)) by (bit_vector)
        requires
            is_direction_bit(m),
            is_direction_bit(n),
    ;
}

proof fn lemma_empty_bits(x: u8)
    ensures
        x == 0 <==> (x & 1 == 0 && x & 2 == 0 && x & 4 == 0 && x & 8 == 0 && x & 16 == 0 && x & 32
            == 0 && x & 64 == 0 && x & 128 == 0),
{
    assert(x == 0 <==> (x & 1 == 0 && x & 2 == 0 && x & 4 == 0 && x & 8 == 0 && x & 16 == 0 && x
        & 32 == 0 && x & 64 == 0 && x & 128 == 0)) by (bit_vector);
}

/// The movement directions held down.
#[derive(Debug, Clone, Copy, PartialEq, Eq)]
pub struct ActiveDirections {
    bits: u8,
}

impl View for ActiveDirections {
    type V = Set<Direction>;

    closed spec fn view(&self) -> Set<Direction> {
        Set::new(|d: Direction| self.bits & direction_bit(d) != 0)
    }
}

/// One component of the unit step of a held direction, 0 when the direction is not held.
pub open spec fn held_component(held: Set<Direction>, d: Direction, y: bool) -> int {
    if held.contains(d) {
        if y {
            direction_vector(d).1 as int
        } else {
            direction_vector(d).0 as int
        }
    } else {
        0
    }
}

/// The sum of one component over the held directions.
pub open spec fn net_component(held: Set<Direction>, y: bool) -> int {
    held_component(held, Direction::Up, y) + held_component(held, Direction::Down, y)
        + held_component(held, Direction::Left, y) + held_component(held, Direction::Right, y)
        + held_component(held, Direction::UpLeft, y) + held_component(held, Direction::UpRight, y)
        + held_component(held, Direction::DownLeft, y) + held_component(held, Direction::DownRight, y)
}

impl ActiveDirections {
    /// No direction held.
    pub fn new() -> (directions: Self)
        ensures
            directions@ == Set::<Direction>::empty(),
    {
        let directions = ActiveDirections { bits: 0 };
        assert forall|d: Direction| !directions@.contains(d) by {
            assert(0u8 & direction_bit(d) == 0) by (bit_vector);
        }
        assert(directions@ =~= Set::<Direction>::empty());
        directions
    }

    /// Whether a direction is held.
    pub fn contains(&self, direction: Direction) -> (held: bool)
        ensures
            held == self@.contains(direction),
    {
        self.bits & bit(direction) != 0
    }

    /// Whether any direction is held.
    pub fn is_moving(&self) -> (moving: bool)
        ensures
            moving == (self@ != Set::<Direction>::empty()),
    {
        proof {
            lemma_empty_bits(self.bits);
            if self.bits != 0 {
                if self.bits & 1 != 0 {
                    assert(self@.contains(Direction::Up));
                } else if self.bits & 2 != 0 {
                    assert(self@.contains(Direction::Down));
                } else if self.bits & 4 != 0 {
                    assert(self@.contains(Direction::Left));
                } else if self.bits & 8 != 0 {
                    assert(self@.contains(Direction::Right));
                } else if self.bits & 16 != 0 {
                    assert(self@.contains(Direction::UpLeft));
                } else if self.bits & 32 != 0 {
                    assert(self@.contains(Direction::UpRight));
                } else if self.bits & 64 != 0 {
                    assert(self@.contains(Direction::DownLeft));
                } else {
                    assert(self@.contains(Direction::DownRight));
                }
            } else {
                assert forall|d: Direction| !self@.contains(d) by {
                    assert(0u8 & direction_bit(d) == 0) by (bit_vector);
                }
                assert(self@ =~= Set::<Direction>::empty());
            }
        }
        self.bits != 0
    }

    /// Holds a direction. Returns whether nothing was held before, in which case movement
    /// starts afresh.
    pub fn press(&mut self, direction: Direction) -> (started: bool)
        ensures
            final(self)@ == old(self)@.insert(direction),
            started == (old(self)@ == Set::<Direction>::empty()),
    {
        let started = !self.is_moving();
        let ghost before = self@;
        let ghost x = self.bits;
        let m = bit(direction);
        self.bits = self.bits | m;
        proof {
            assert forall|d: Direction| self@.contains(d) <==> before.insert(direction).contains(d) by {
                lemma_direction_bits(x, m, direction_bit(d));
            }
            assert(self@ =~= before.insert(direction));
        }
        started
    }

    /// Lets go of a direction. Returns whether nothing is held afterwards, in which case
    /// movement stops.
    pub fn release(&mut self, direction: Direction) -> (stopped: bool)
        ensures
            final(self)@ == old(self)@.remove(direction),
            stopped == (final(self)@ == Set::<Direction>::empty()),
    {
        let ghost before = self@;
        let ghost x = self.bits;
        let m = bit(direction);
        self.bits = self.bits & !m;
        proof {
            assert forall|d: Direction| self@.contains(d) <==> before.remove(direction).contains(d) by {
                lemma_direction_bits(x, m, direction_bit(d));
            }
            assert(self@ =~= before.remove(direction));
        }
        !self.is_moving()
    }

    /// Lets go of every direction.
    pub fn stop(&mut self)
        ensures
            final(self)@ == Set::<Direction>::empty(),
    {
        *self = ActiveDirections::new();
    }

    /// The sum of the unit steps of the held directions; opposite directions cancel.
    pub fn net_vector(&self) -> (vector: (i32, i32))
        ensures
            vector.0 == net_component(self@, false),
            vector.1 == net_component(self@, true),
    {
        let mut x: i32 = 0;
        let mut y: i32 = 0;
        let all = Direction::ALL;
        let mut i: usize = 0;
        while i < 8
            invariant
                i <= 8,
                all@ == seq![
                    Direction::Up,
                    Direction::Down,
                    Direction::Left,
                    Direction::Right,
                    Direction::UpLeft,
                    Direction::UpRight,
                    Direction::DownLeft,
                    Direction::DownRight,
                ],
                -(i as int) <= x <= i,
                -(i as int) <= y <= i,
                x == partial_sum(self@, i as int, false),
                y == partial_sum(self@, i as int, true),
            decreases 8 - i,
        {
            let direction = all[i];
            assert(direction == direction_at(i as int));
            if self.contains(direction) {
                let (dx, dy) = direction.unit_vector();
                proof {
                    crate::action::lemma_direction_vectors_distinct(direction, direction);
                }
                x = x + dx as i32;
                y = y + dy as i32;
            }
            i = i + 1;
        }
        proof {
            reveal_with_fuel(partial_sum, 9);
        }
        (x, y)
    }
}

/// The sum of one component over the first `n` directions in declaration order.
pub open spec fn partial_sum(held: Set<Direction>, n: int, y: bool) -> int
    decreases n,
{
    if n <= 0 {
        0
    } else {
        partial_sum(held, n - 1, y) + held_component(held, direction_at(n - 1), y)
    }
}

/// The direction at a position in declaration order.
pub open spec fn direction_at(i: int) -> Direction {
    if i == 0 {
        Direction::Up
    } else if i == 1 {
        Direction::Down
    } else if i == 2 {
        Direction::Left
    } else if i == 3 {
        Direction::Right
    } else if i == 4 {
        Direction::UpLeft
    } else if i == 5 {
        Direction::UpRight
    } else if i == 6 {
        Direction::DownLeft
    } else {
        Direction::DownRight
    }
}

/// Holding two opposite directions moves nowhere, and a single held direction moves along
/// its own unit step.
pub proof fn lemma_opposites_cancel(held: Set<Direction>, d: Direction)
    ensures
        held == set![Direction::Up, Direction::Down] ==> net_component(held, false) == 0
            && net_component(held, true) == 0,
        held == set![Direction::Left, Direction::Right] ==> net_component(held, false) == 0
            && net_component(held, true) == 0,
        held == set![d] ==> net_component(held, false) == direction_vector(d).0 && net_component(
            held,
            true,
        ) == direction_vector(d).1,
{
}

} // verus!
