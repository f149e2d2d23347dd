//! Where new enemies appear.
use crate::domain::value_objects::position::Position3D;
use crate::domain::WorldBoundaries;
use crate::infrastructure::traits::{drawable_range, drawn_from, RandomService};
use vstd::prelude::*;

verus! {

/// Service deciding where enemies spawn.
#[derive(Debug, Clone)]
pub struct SpawningService;

impl SpawningService {
    /// A new spawning service.
    pub fn new() -> (r: Self) {
        SpawningService
    }

    /// A random position inside the boundaries, at ground level: the position that
    /// `rng` draws from the boundaries' ranges, x first, at level 0.
    pub fn random_spawn_position<R: RandomService>(&self, boundaries: &WorldBoundaries, rng: &mut R) -> (r: Position3D)
        requires
            drawable_range(boundaries.min_x, boundaries.max_x),
            drawable_range(boundaries.min_y, boundaries.max_y),
        ensures
            old(rng).position_drawn(final(rng).generator_state(), boundaries.min_x, boundaries.max_x, boundaries.min_y, boundaries.max_y, 0, 0, r),
            drawn_from(r.x, boundaries.min_x, boundaries.max_x),
            drawn_from(r.y, boundaries.min_y, boundaries.max_y),
            r.z == 0,
    {
        rng.random_position_3d(boundaries.min_x, boundaries.max_x, boundaries.min_y, boundaries.max_y, 0, 0)
    }
}

impl Default for SpawningService {
    fn default() -> (r: Self) {
        Self::new()
    }
}

} // verus!
