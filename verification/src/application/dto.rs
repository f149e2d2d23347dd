//! Data passed into and out of the use cases.
use crate::domain::value_objects::position::Position3D;
use crate::domain::Score;
use vstd::prelude::*;

verus! {

/// Two entities that met.
#[derive(Debug, Clone)]
pub struct HandleCollisionInput {
    pub entity1_id: String,
    pub entity1_position: Position3D,
    pub entity2_id: String,
    pub entity2_position: Position3D,
}

/// What a meeting of entities changed.
#[derive(Debug, Clone)]
pub struct HandleCollisionOutput {
    pub collision_detected: bool,
    pub score_change: Option<u32>,
    pub entities_to_remove: Vec<String>,
}

/// Points to add to a session's score.
#[derive(Debug, Clone)]
pub struct UpdateScoreInput {
    pub session_id: String,
    pub points_to_add: u32,
}

/// A session's score before and after an update.
#[derive(Debug, Clone)]
pub struct UpdateScoreOutput {
    pub session_id: String,
    pub old_score: Score,
    pub new_score: Score,
}

} // verus!
