//! Grid helpers of the game shell: board cells in whole pixels, the
//! ten-pixel grid snap used for item placement, and the rule that forbids a
//! direct reversal of the travel direction.

use vstd::prelude::*;

verus! {

/// One grid cell of the board, in whole pixels.
pub struct Segment {
    pub x: i32,
    pub y: i32,
}

/// A travel direction on the board.
pub enum Direction {
    Up,
    Down,
    Left,
    Right,
}

/// The reversal of a travel direction.
pub open spec fn opposite(d: Direction) -> Direction {
    match d {
        Direction::Up => Direction::Down,
        Direction::Down => Direction::Up,
        Direction::Left => Direction::Right,
        Direction::Right => Direction::Left,
    }
}

/// A newly requested travel direction is accepted unless it directly
/// reverses the current one.
pub fn check_directions(dir1: &Direction, dir2: Direction) -> (r: bool)
    ensures
        r <==> dir2 != opposite(*dir1),
{
    if (matches!(dir1, Direction::Down) && matches!(dir2, Direction::Up))
        || (matches!(dir1, Direction::Up) && matches!(dir2, Direction::Down))
        || (matches!(dir1, Direction::Left) && matches!(dir2, Direction::Right))
        || (matches!(dir1, Direction::Right) && matches!(dir2, Direction::Left))
    {
        return false;
    }
    return true;
}

/// The value the grid snap produces: for a nonnegative coordinate, the
/// nearest multiple of ten, with a tie (a coordinate ending in five) going
/// down; for a negative coordinate, the next multiple of ten toward zero,
/// however far that is.
pub open spec fn round10_spec(n: int) -> int {
    if n >= 0 {
        if n % 10 > 5 {
            n - n % 10 + 10
        } else {
            n - n % 10
        }
    } else {
        n + ((-n) % 10)
    }
}

/// Snaps a pixel coordinate to the ten-pixel grid on which items are placed.
/// Coordinates within eight of `i32::MAX` are excluded: stepping up to the
/// next multiple of ten would overflow there.
pub fn round_to_nearest_10(n: i32) -> (r: i32)
    requires
        n <= i32::MAX - 8,
    ensures
        r == round10_spec(n as int),
{
    let a: i32 = (n / 10) * 10;
    let b: i32 = a + 10;
    if n - a > b - n {
        return b;
    }
    return a;
}

} // verus!
