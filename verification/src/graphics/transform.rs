//! The four rotation states of the projection and how it turns between them.

use vstd::prelude::*;

verus! {

/// A direction in which the view turns.
#[derive(Debug, Clone, Copy, PartialEq, Eq)]
pub enum Direction {
    Clockwise,
    AntiClockwise,
}

/// Which corner of the map faces the top of the screen.
#[derive(Debug, Clone, Copy, PartialEq, Eq)]
pub enum IsometricRotation {
    TopLeftAtTop,
    TopRightAtTop,
    BottomLeftAtTop,
    BottomRightAtTop,
}

/// How many quarter turns one step in `direction` moves, counted clockwise.
pub open spec fn step(direction: Direction) -> int {
    match direction {
        Direction::Clockwise => 1,
        Direction::AntiClockwise => 3,
    }
}

impl IsometricRotation {
    /// The position of the rotation in quarter turns clockwise from
    /// `TopLeftAtTop`: the corner at the top moves from top left to bottom
    /// left, bottom right and top right.
    pub open spec fn index(self) -> int {
        match self {
            IsometricRotation::TopLeftAtTop => 0,
            IsometricRotation::BottomLeftAtTop => 1,
            IsometricRotation::BottomRightAtTop => 2,
            IsometricRotation::TopRightAtTop => 3,
        }
    }

    /// The rotation at position `i`, taken modulo a full turn.
    pub open spec fn from_index(i: int) -> IsometricRotation {
        let i = i % 4;
        if i == 0 {
            IsometricRotation::TopLeftAtTop
        } else if i == 1 {
            IsometricRotation::BottomLeftAtTop
        } else if i == 2 {
            IsometricRotation::BottomRightAtTop
        } else {
            IsometricRotation::TopRightAtTop
        }
    }

    /// The rotation one step further in `direction`.
    pub open spec fn rotated(self, direction: Direction) -> IsometricRotation {
        IsometricRotation::from_index(self.index() + step(direction))
    }

    /// The rotation after `n` steps in `direction`.
    pub open spec fn turned(self, direction: Direction, n: nat) -> IsometricRotation
        decreases n,
    {
        if n == 0 {
            self
        } else {
            self.turned(direction, (n - 1) as nat).rotated(direction)
        }
    }

    /// Turns the view a quarter turn in `direction`.
    pub fn rotate(&self, direction: &Direction) -> (res: IsometricRotation)
        ensures
            res == self.rotated(*direction),
    {
        match direction {
            Direction::Clockwise => match *self {
                IsometricRotation::TopLeftAtTop => IsometricRotation::BottomLeftAtTop,
                IsometricRotation::TopRightAtTop => IsometricRotation::TopLeftAtTop,
                IsometricRotation::BottomLeftAtTop => IsometricRotation::BottomRightAtTop,
                IsometricRotation::BottomRightAtTop => IsometricRotation::TopRightAtTop,
            },
            Direction::AntiClockwise => match *self {
                IsometricRotation::TopLeftAtTop => IsometricRotation::TopRightAtTop,
                IsometricRotation::TopRightAtTop => IsometricRotation::BottomRightAtTop,
                IsometricRotation::BottomLeftAtTop => IsometricRotation::TopLeftAtTop,
                IsometricRotation::BottomRightAtTop => IsometricRotation::BottomLeftAtTop,
            },
        }
    }
}

/// The opposite direction.
pub open spec fn opposite(direction: Direction) -> Direction {
    match direction {
        Direction::Clockwise => Direction::AntiClockwise,
        Direction::AntiClockwise => Direction::Clockwise,
    }
}

/// Turning one step and then one step back returns the view to where it was.
pub proof fn lemma_rotate_back(r: IsometricRotation, direction: Direction)
    ensures
        r.rotated(direction).rotated(opposite(direction)) == r,
{
}

/// Turning is a bijection of the four states.
pub proof fn lemma_rotate_injective(a: IsometricRotation, b: IsometricRotation, direction: Direction)
    ensures
        a.rotated(direction) == b.rotated(direction) ==> a == b,
{
    lemma_rotate_back(a, direction);
    lemma_rotate_back(b, direction);
}

/// Four steps in the same direction make a full turn.
pub proof fn lemma_full_turn(r: IsometricRotation, direction: Direction)
    ensures
        r.turned(direction, 4) == r,
{
    reveal_with_fuel(IsometricRotation::turned, 5);
}

} // verus!
