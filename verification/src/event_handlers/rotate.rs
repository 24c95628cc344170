//! Turning the view around the cursor with two keys.

use vstd::prelude::*;
use crate::transform::Direction;

verus! {

/// Turns the view around the last known cursor position when one of its
/// two keys is pressed. Keys are told apart by their key codes.
pub struct RotateHandler<C> {
    cursor_position: Option<C>,
    clockwise_key: u32,
    anticlockwise_key: u32,
}

/// The input a rotate handler reacts to.
#[derive(Debug, Clone, Copy, PartialEq, Eq)]
pub enum RotateInput<C> {
    /// The key with this code was pressed.
    KeyPressed(u32),
    /// The cursor moved to a point of the screen.
    CursorMoved(C),
    Ignored,
}

impl<C: Copy> RotateHandler<C> {
    pub closed spec fn cursor(&self) -> Option<C> {
        self.cursor_position
    }

    pub closed spec fn spec_clockwise_key(&self) -> u32 {
        self.clockwise_key
    }

    pub closed spec fn spec_anticlockwise_key(&self) -> u32 {
        self.anticlockwise_key
    }

    /// The direction that pressing `key` asks for; the clockwise key wins
    /// when both keys are the same.
    pub open spec fn direction_for(&self, key: u32) -> Option<Direction> {
        if key == self.spec_clockwise_key() {
            Some(Direction::Clockwise)
        } else if key == self.spec_anticlockwise_key() {
            Some(Direction::AntiClockwise)
        } else {
            None
        }
    }

    /// A handler with the given keys that has not seen the cursor yet.
    pub fn new(clockwise_key: u32, anticlockwise_key: u32) -> (h: RotateHandler<C>)
        ensures
            h.cursor() is None,
            h.spec_clockwise_key() == clockwise_key,
            h.spec_anticlockwise_key() == anticlockwise_key,
    {
        RotateHandler { cursor_position: None, clockwise_key, anticlockwise_key }
    }

    /// The rotation that pressing `key` asks for, centred on the cursor.
    pub fn handle_key(&self, key: u32) -> (res: Option<(C, Direction)>)
        ensures
            res == match (self.cursor(), self.direction_for(key)) {
                (Some(center), Some(direction)) => Some((center, direction)),
                _ => None,
            },
    {
        match self.cursor_position {
            Some(center) => {
                if key == self.clockwise_key {
                    Some((center, Direction::Clockwise))
                } else if key == self.anticlockwise_key {
                    Some((center, Direction::AntiClockwise))
                } else {
                    None
                }
            },
            None => None,
        }
    }

    /// Reacts to an input: a cursor move is remembered and a key press is
    /// answered as `handle_key` does.
    pub fn handle(&mut self, input: RotateInput<C>) -> (res: Option<(C, Direction)>)
        ensures
            final(self).spec_clockwise_key() == old(self).spec_clockwise_key(),
            final(self).spec_anticlockwise_key() == old(self).spec_anticlockwise_key(),
            final(self).cursor() == match input {
                RotateInput::CursorMoved(p) => Some(p),
                _ => old(self).cursor(),
            },
            res == match input {
                RotateInput::KeyPressed(key) => match (old(self).cursor(), old(self).direction_for(key)) {
                    (Some(center), Some(direction)) => Some((center, direction)),
                    _ => None,
                },
                _ => None,
            },
    {
        match input {
            RotateInput::KeyPressed(key) => self.handle_key(key),
            RotateInput::CursorMoved(position) => {
                self.cursor_position = Some(position);
                None
            },
            RotateInput::Ignored => None,
        }
    }
}

} // verus!
