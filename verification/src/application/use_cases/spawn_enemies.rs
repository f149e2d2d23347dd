//! Spawning enemies.
use crate::domain::SpawningService;
use vstd::prelude::*;

verus! {

/// Use case spawning enemies where the spawning service places them.
pub struct SpawnEnemiesUseCase {
    pub spawning_service: SpawningService,
}

impl SpawnEnemiesUseCase {
    /// The use case with its spawning service.
    pub fn new(spawning_service: SpawningService) -> (r: Self) {
        SpawnEnemiesUseCase { spawning_service }
    }
}

} // verus!
