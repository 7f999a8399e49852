//! The square demo: a movement command for the square.

use vstd::prelude::*;

verus! {

/// Where the square is asked to move.
#[derive(Debug, Clone, Copy, PartialEq, Eq, Structural)]
pub enum Movement {
    Up,
    Down,
    Left,
    Right,
    Still,
}

} // verus!
