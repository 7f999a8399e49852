//! The layered demo: the held arrow keys move a small square.

use vstd::prelude::*;

verus! {

/// A direction along one axis.
#[derive(Debug, Clone, Copy, PartialEq, Eq, Structural)]
pub enum Direction {
    Up,
    Down,
    Left,
    Right,
    Still,
}

impl Default for Direction {
    fn default() -> (d: Self)
        ensures
            d == Direction::Still,
    {
        Direction::Still
    }
}

/// The horizontal and vertical directions chosen from the held arrow keys:
/// Right overrides Left, Down overrides Up.
pub open spec fn spec_from_arrow_keys(left: bool, right: bool, up: bool, down: bool) -> (Direction, Direction) {
    let x = if right {
        Direction::Right
    } else if left {
        Direction::Left
    } else {
        Direction::Still
    };
    let y = if down {
        Direction::Down
    } else if up {
        Direction::Up
    } else {
        Direction::Still
    };
    (x, y)
}

/// The step, -1, 0 or 1, along x for the first direction and along y for the
/// second: Left and Down step back, Right and Up step forward, anything else
/// stays.
pub open spec fn spec_axis_steps(dir: (Direction, Direction)) -> (int, int) {
    let x: int = match dir.0 {
        Direction::Left => -1,
        Direction::Right => 1,
        _ => 0,
    };
    let y: int = match dir.1 {
        Direction::Down => -1,
        Direction::Up => 1,
        _ => 0,
    };
    (x, y)
}

impl Direction {
    /// The horizontal and vertical directions for this frame given which
    /// arrow keys are held.
    pub fn from_arrow_keys(left: bool, right: bool, up: bool, down: bool) -> (d: (Direction, Direction))
        ensures
            d == spec_from_arrow_keys(left, right, up, down),
            d.0 == (if right { Direction::Right } else if left { Direction::Left } else { Direction::Still }),
            d.1 == (if down { Direction::Down } else if up { Direction::Up } else { Direction::Still }),
    {
        let mut direction_x: Direction = Direction::Still;
        let mut direction_y: Direction = Direction::Still;
        if left {
            direction_x = Direction::Left;
        }
        if right {
            direction_x = Direction::Right;
        }
        if up {
            direction_y = Direction::Up;
        }
        if down {
            direction_y = Direction::Down;
        }
        (direction_x, direction_y)
    }
}

/// How many speed units the square moves along x and y for the given
/// pair of directions.
pub fn axis_steps(dir: (Direction, Direction)) -> (s: (i8, i8))
    ensures
        s.0 as int == spec_axis_steps(dir).0,
        s.1 as int == spec_axis_steps(dir).1,
{
    let dir_x: i8 = match dir.0 {
        Direction::Left => -1,
        Direction::Right => 1,
        _ => 0,
    };
    let dir_y: i8 = match dir.1 {
        Direction::Down => -1,
        Direction::Up => 1,
        _ => 0,
    };
    (dir_x, dir_y)
}

/// Each axis is decided by its own keys: the horizontal direction is Left,
/// Right or Still and depends only on the left and right arrows (Right over
/// Left, Still when neither is held), whatever the up and down arrows do;
/// the vertical direction is Up, Down or Still and depends only on the up
/// and down arrows (Down over Up, Still when neither is held).
pub proof fn lemma_axes_independent(
    left: bool,
    right: bool,
    up: bool,
    down: bool,
    other_left: bool,
    other_right: bool,
    other_up: bool,
    other_down: bool,
)
    ensures
        ({
            let d = spec_from_arrow_keys(left, right, up, down);
            &&& d.0 == spec_from_arrow_keys(left, right, other_up, other_down).0
            &&& d.1 == spec_from_arrow_keys(other_left, other_right, up, down).1
            &&& d.0 != Direction::Up && d.0 != Direction::Down
            &&& d.1 != Direction::Left && d.1 != Direction::Right
            &&& (d.0 == Direction::Still <==> !left && !right)
            &&& (d.1 == Direction::Still <==> !up && !down)
            &&& (d.0 == Direction::Right <==> right)
            &&& (d.1 == Direction::Down <==> down)
        }),
{
}

/// The square's step follows the held keys: right (over left) moves it
/// forward along x, left alone backward; down (over up) moves it backward
/// along y, up alone forward; with no arrow held it does not move.
pub proof fn lemma_keys_move_square(left: bool, right: bool, up: bool, down: bool)
    ensures
        ({
            let s = spec_axis_steps(spec_from_arrow_keys(left, right, up, down));
            &&& s.0 == (if right { 1int } else if left { -1int } else { 0int })
            &&& s.1 == (if down { -1int } else if up { 1int } else { 0int })
            &&& (!left && !right && !up && !down) ==> s == (0int, 0int)
        }),
{
}

} // verus!
