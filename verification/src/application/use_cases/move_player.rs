//! Moving the player.
use crate::domain::CollisionService;
use vstd::prelude::*;

verus! {

/// Use case moving the player, checking collisions on the way.
pub struct MovePlayerUseCase {
    pub collision_service: CollisionService,
}

impl MovePlayerUseCase {
    /// The use case with its collision service.
    pub fn new(collision_service: CollisionService) -> (r: Self) {
        MovePlayerUseCase { collision_service }
    }
}

} // verus!
