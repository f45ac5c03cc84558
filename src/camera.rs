//! Where the camera looks: at the center of the level it is placed on.
use vstd::prelude::*;

use crate::grid::{cell_center, LEVEL_HEIGHT, LEVEL_WIDTH};

verus! {

/// World position that the camera moves towards when placed on `p`.
pub open spec fn level_target(p: LevelPosition) -> (int, int) {
    (p.x * LEVEL_WIDTH + LEVEL_WIDTH / 2, -(p.y * LEVEL_HEIGHT) - LEVEL_HEIGHT / 2)
}

/// Place of the camera in the grid of levels.
#[derive(Debug, Clone, Copy, PartialEq, Eq, Structural)]
pub struct LevelPosition {
    pub x: i32,
    pub y: i32,
}

impl LevelPosition {
    pub fn new(x: i32, y: i32) -> (r: LevelPosition)
        ensures
            r == (LevelPosition { x, y }),
    {
        LevelPosition { x, y }
    }

    /// World position of the upper left corner of the level.
    pub fn to_xy(&self) -> (r: (i64, i64))
        ensures
            r.0 == self.x * LEVEL_WIDTH,
            r.1 == -(self.y * LEVEL_HEIGHT),
    {
        (self.x as i64 * LEVEL_WIDTH, -(self.y as i64 * LEVEL_HEIGHT))
    }

    /// World position that the camera moves towards: the center of the
    /// level.
    pub fn target(&self) -> (r: (i64, i64))
        ensures
            (r.0 as int, r.1 as int) == level_target(*self),
    {
        (
            self.x as i64 * LEVEL_WIDTH + LEVEL_WIDTH / 2,
            -(self.y as i64 * LEVEL_HEIGHT) - LEVEL_HEIGHT / 2,
        )
    }
}

/// The camera's target for a level is the center of the grid cell with
/// the same coordinates.
pub proof fn lemma_target_is_cell_center(p: LevelPosition)
    ensures
        level_target(p) == cell_center(p.x as int, p.y as int),
{
}

} // verus!
