//! Rules of the chain that are not geometry: the fixed segment count a chain
//! must be built with, and the resolution of pressed direction keys into a
//! desired heading for the chain's head.
//!
//! Headings here are measured in eighths of a turn, that is in units of pi/4
//! radians: right is 0, down is 2, left is 4, up is -2 (screen coordinates,
//! with y growing downward). A caller that needs radians multiplies by pi/4.

use vstd::prelude::*;

verus! {

/// The fixed number of body segments every chain is built with.
pub const REQUIRED_NODE_COUNT: usize = 10;

/// A chain is built from exactly one radial (segment half-width) per body
/// segment; a radial list of any other length must be rejected before
/// construction begins.
pub fn node_radials_valid(node_radials: &Vec<i16>) -> (ok: bool)
    ensures
        ok <==> node_radials@.len() == REQUIRED_NODE_COUNT,
{
    node_radials.len() == REQUIRED_NODE_COUNT
}

/// One frame of pressed direction keys.
#[derive(Debug)]
pub struct MoveCommand {
    pub up: bool,
    pub right: bool,
    pub down: bool,
    pub left: bool,
}

/// Horizontal steering intent: 1 for right, -1 for left, 0 when neither or
/// both of the two keys are pressed.
pub open spec fn x_intent(cmd: MoveCommand) -> int {
    if cmd.right && !cmd.left {
        1
    } else if cmd.left && !cmd.right {
        -1
    } else {
        0
    }
}

/// Vertical steering intent: 1 for down, -1 for up, 0 when neither or both
/// of the two keys are pressed.
pub open spec fn y_intent(cmd: MoveCommand) -> int {
    if cmd.down && !cmd.up {
        1
    } else if cmd.up && !cmd.down {
        -1
    } else {
        0
    }
}

/// The heading of a nonzero intent vector, in eighths of a turn.
pub open spec fn heading_eighths(dx: int, dy: int) -> int
    recommends
        dx != 0 || dy != 0,
{
    if dy == 0 {
        if dx == 1 {
            0
        } else {
            4
        }
    } else if dy == 1 {
        if dx == 1 {
            1
        } else if dx == 0 {
            2
        } else {
            3
        }
    } else {
        if dx == 1 {
            -1
        } else if dx == 0 {
            -2
        } else {
            -3
        }
    }
}

/// The desired heading for a key combination: `None` when the keys cancel
/// out (none pressed, or only opposite keys together), otherwise the heading
/// of the intent vector, in eighths of a turn.
pub open spec fn desire_heading_spec(cmd: MoveCommand) -> Option<i8> {
    if x_intent(cmd) == 0 && y_intent(cmd) == 0 {
        None
    } else {
        Some(heading_eighths(x_intent(cmd), y_intent(cmd)) as i8)
    }
}

/// Resolves one frame of pressed keys to the heading the head should steer
/// toward, in eighths of a turn.
pub fn get_desire_heading(cmd: MoveCommand) -> (r: Option<i8>)
    ensures
        r == desire_heading_spec(cmd),
{
    let xdir: Option<u8> = match (cmd.left, cmd.right) {
        (true, false) => Some(1),
        (false, true) => Some(0),
        _ => None,
    };

    let ydir: Option<i8> = match (cmd.up, cmd.down) {
        (true, false) => Some(-1),
        (false, true) => Some(1),
        _ => None,
    };

    let desire_heading: i8 = match (xdir, ydir) {
        (None, Some(y)) => y * 2,
        (Some(x), None) => (x as i8) * 4,
        (Some(x), Some(y)) => match (x, y) {
            (0, 1) => 1,
            (0, -1) => -1,
            (1, 1) => 3,
            (1, -1) => -3,
            _ => unreached(),
        },
        (None, None) => {
            return None;
        },
    };

    Some(desire_heading)
}

} // verus!
