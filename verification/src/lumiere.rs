//! The brightness demo: the held arrow keys turn the brightness up or down.

use vstd::prelude::*;

verus! {

/// Which way the brightness moves this frame.
#[derive(Debug, Clone, Copy, PartialEq, Eq, Structural)]
pub enum Direction {
    Up,
    Down,
    Still,
}

impl Default for Direction {
    fn default() -> (d: Self)
        ensures
            d == Direction::Still,
    {
        Direction::Still
    }
}

/// The direction chosen from the held arrow keys: Down when the down arrow
/// is held (it overrides the up arrow), else Up when the up arrow is held,
/// else Still.
pub open spec fn spec_from_arrow_keys(up: bool, down: bool) -> Direction {
    if down {
        Direction::Down
    } else if up {
        Direction::Up
    } else {
        Direction::Still
    }
}

impl Direction {
    /// The direction for this frame given whether the up and down arrows are
    /// held.
    pub fn from_arrow_keys(up: bool, down: bool) -> (d: Direction)
        ensures
            d == spec_from_arrow_keys(up, down),
    {
        let mut direction: Direction = Direction::Still;
        if up {
            direction = Direction::Up;
        }
        if down {
            direction = Direction::Down;
        }
        direction
    }
}

} // verus!
