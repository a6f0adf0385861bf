//! The floor-departure rule and the mapping from arena space to screen offsets.
use vstd::prelude::*;
use crate::config::{CANVAS_HEIGHT, PIISPIS_HEIGHT, PIISPIS_WIDTH};

verus! {

/// A particle centred at height `y` above the floor is inside the arena when
/// its lower edge is strictly above the floor. The horizontal coordinate is
/// not constrained.
pub open spec fn valid_height(y: int) -> bool {
    y - PIISPIS_HEIGHT / 2 > 0
}

/// Screen offset of the top edge for a particle centred at height `y`.
pub open spec fn top_of(y: int) -> int {
    CANVAS_HEIGHT - y - PIISPIS_HEIGHT / 2
}

/// Screen offset of the left edge for a particle centred at `x`.
pub open spec fn left_of(x: int) -> int {
    x - PIISPIS_WIDTH / 2
}

/// Whether the point `(x, y)` keeps a particle alive.
pub fn is_valid_position(x: i32, y: i32) -> (r: bool)
    ensures
        r == valid_height(y as int),
{
    let half_height: i32 = PIISPIS_HEIGHT / 2;
    y > half_height
}

/// Top and left screen offsets of a particle centred at `(x, y)`, with `y`
/// measured upward from the floor.
pub fn screen_offset(x: i32, y: i32) -> (r: (i32, i32))
    requires
        i32::MIN <= top_of(y as int) <= i32::MAX,
        i32::MIN <= left_of(x as int),
    ensures
        r.0 == top_of(y as int),
        r.1 == left_of(x as int),
{
    let top: i32 = (CANVAS_HEIGHT - PIISPIS_HEIGHT / 2) - y;
    let left: i32 = x - PIISPIS_WIDTH / 2;
    (top, left)
}

} // verus!
