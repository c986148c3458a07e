//! What the user has chosen about the world.

use crate::world_map::AntColor;
use vstd::prelude::*;

verus! {

/// The choices that a world is made by.
#[derive(Clone, Copy, Debug, PartialEq, Eq, Structural)]
pub struct Settings {
    /// Cells in a row of the grid.
    pub world_width: isize,
    /// Rows of the grid.
    pub world_height: isize,
    /// How much of the world's height is dirt at the start, in hundredths.
    pub initial_dirt_percent: u8,
    /// Workers that the colony starts with, beside its queen.
    pub initial_ant_worker_count: isize,
    pub ant_color: AntColor,
    /// Milliseconds between two savings of the world.
    pub auto_save_interval_ms: isize,
    /// Whether food is handed out only around sunrise.
    pub is_breathwork_scheduled: bool,
}

impl Settings {
    /// A world can be made by these choices: it has at least one column, no negative
    /// counts, and no more dirt than there is height.
    pub open spec fn wf(self) -> bool {
        &&& 0 < self.world_width
        &&& 0 <= self.world_height < isize::MAX
        &&& self.initial_dirt_percent <= 100
        &&& 0 <= self.initial_ant_worker_count
    }

    /// The row on which the ants stand at the start: the height that is left above the
    /// dirt, rounded down to a whole row.
    pub open spec fn surface_level(self) -> int {
        self.world_height * (100 - self.initial_dirt_percent) / 100
    }

    /// Whether a world can be made by these choices.
    pub fn is_valid(&self) -> (valid: bool)
        ensures
            valid == self.wf(),
    {
        0 < self.world_width && 0 <= self.world_height && self.world_height < isize::MAX
            && self.initial_dirt_percent <= 100 && 0 <= self.initial_ant_worker_count
    }

    /// The row on which the ants stand at the start.
    pub fn initial_surface_level(&self) -> (level: isize)
        requires
            self.wf(),
        ensures
            level == self.surface_level(),
            0 <= level <= self.world_height,
    {
        let height: i128 = self.world_height as i128;
        let share: i128 = (100 - self.initial_dirt_percent) as i128;
        assert(0 <= height * share <= height * 100) by (nonlinear_arith)
            requires
                0 <= height,
                0 <= share <= 100,
        ;
        let above: i128 = height * share;
        (above / 100) as isize
    }
}

} // verus!
