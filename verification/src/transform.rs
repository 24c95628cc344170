//! The eight rotation states of the isometric camera and how it turns
//! between them.

use vstd::prelude::*;

verus! {

/// A direction in which the camera turns.
#[derive(Debug, Clone, Copy, PartialEq, Eq)]
pub enum Direction {
    Clockwise,
    AntiClockwise,
}

/// Which side of the map faces the top of the screen, in eighths of a turn.
#[derive(Debug, Clone, Copy, PartialEq, Eq)]
pub enum IsometricRotation {
    Top,
    TopLeft,
    Left,
    BottomLeft,
    Bottom,
    BottomRight,
    Right,
    TopRight,
}

/// How many eighths of a turn one step in `direction` moves, counted
/// clockwise.
pub open spec fn step(direction: Direction) -> int {
    match direction {
        Direction::Clockwise => 1,
        Direction::AntiClockwise => 7,
    }
}

impl IsometricRotation {
    /// The position of the rotation, in eighths of a turn clockwise from `Top`.
    pub open spec fn index(self) -> int {
        match self {
            IsometricRotation::Top => 0,
            IsometricRotation::TopLeft => 1,
            IsometricRotation::Left => 2,
            IsometricRotation::BottomLeft => 3,
            IsometricRotation::Bottom => 4,
            IsometricRotation::BottomRight => 5,
            IsometricRotation::Right => 6,
            IsometricRotation::TopRight => 7,
        }
    }

    /// The rotation at position `i`, taken modulo a full turn.
    pub open spec fn from_index(i: int) -> IsometricRotation {
        let i = i % 8;
        if i == 0 {
            IsometricRotation::Top
        } else if i == 1 {
            IsometricRotation::TopLeft
        } else if i == 2 {
            IsometricRotation::Left
        } else if i == 3 {
            IsometricRotation::BottomLeft
        } else if i == 4 {
            IsometricRotation::Bottom
        } else if i == 5 {
            IsometricRotation::BottomRight
        } else if i == 6 {
            IsometricRotation::Right
        } else {
            IsometricRotation::TopRight
        }
    }

    /// The rotation one step further in `direction`.
    pub open spec fn rotated(self, direction: Direction) -> IsometricRotation {
        IsometricRotation::from_index(self.index() + step(direction))
    }

    /// The rotation after `n` steps in `direction`.
    pub open spec fn turned(self, direction: Direction, n: nat) -> IsometricRotation
        decreases n,
    {
        if n == 0 {
            self
        } else {
            self.turned(direction, (n - 1) as nat).rotated(direction)
        }
    }

    /// Turns the camera one eighth of a turn in `direction`.
    pub fn rotate(&self, direction: &Direction) -> (res: IsometricRotation)
        ensures
            res == self.rotated(*direction),
    {
        match direction {
            Direction::Clockwise => match *self {
                IsometricRotation::Top => IsometricRotation::TopLeft,
                IsometricRotation::TopLeft => IsometricRotation::Left,
                IsometricRotation::Left => IsometricRotation::BottomLeft,
                IsometricRotation::BottomLeft => IsometricRotation::Bottom,
                IsometricRotation::Bottom => IsometricRotation::BottomRight,
                IsometricRotation::BottomRight => IsometricRotation::Right,
                IsometricRotation::Right => IsometricRotation::TopRight,
                IsometricRotation::TopRight => IsometricRotation::Top,
            },
            Direction::AntiClockwise => match *self {
                IsometricRotation::Top => IsometricRotation::TopRight,
                IsometricRotation::TopLeft => IsometricRotation::Top,
                IsometricRotation::Left => IsometricRotation::TopLeft,
                IsometricRotation::BottomLeft => IsometricRotation::Left,
                IsometricRotation::Bottom => IsometricRotation::BottomLeft,
                IsometricRotation::BottomRight => IsometricRotation::Bottom,
                IsometricRotation::Right => IsometricRotation::BottomRight,
                IsometricRotation::TopRight => IsometricRotation::Right,
            },
        }
    }
}

/// The opposite direction.
pub open spec fn opposite(direction: Direction) -> Direction {
    match direction {
        Direction::Clockwise => Direction::AntiClockwise,
        Direction::AntiClockwise => Direction::Clockwise,
    }
}

/// Turning one step and then one step back returns the camera to where it
/// was.
pub proof fn lemma_rotate_back(r: IsometricRotation, direction: Direction)
    ensures
        r.rotated(direction).rotated(opposite(direction)) == r,
{
}

/// Every rotation is reached by one step from exactly one rotation: turning
/// is a bijection of the eight states.
pub proof fn lemma_rotate_injective(a: IsometricRotation, b: IsometricRotation, direction: Direction)
    ensures
        a.rotated(direction) == b.rotated(direction) ==> a == b,
{
    lemma_rotate_back(a, direction);
    lemma_rotate_back(b, direction);
}

/// Eight steps in the same direction make a full turn.
pub proof fn lemma_full_turn(r: IsometricRotation, direction: Direction)
    ensures
        r.turned(direction, 8) == r,
{
    reveal_with_fuel(IsometricRotation::turned, 9);
}

} // verus!
