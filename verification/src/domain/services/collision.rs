//! Collisions between the player, enemies and the world's edges.
use crate::domain::constants::POINTS_PER_ENEMY;
use crate::domain::value_objects::position::Position3D;
use crate::domain::WorldBoundaries;
use vstd::prelude::*;

verus! {

/// Service deciding what collisions mean for the game.
#[derive(Debug, Clone)]
pub struct CollisionService;

/// Kinds of collision.
#[derive(Debug, Clone, Copy, PartialEq, Eq, Structural)]
pub enum CollisionType {
    PlayerEnemy,
    EnemyBoundary,
    PlayerBoundary,
}

/// Effects a collision has on the player.
#[derive(Debug, Clone, Copy, PartialEq, Eq, Structural)]
pub enum PlayerEffect {
    ScoreIncrease,
    TakeDamage,
    Heal,
    SpeedBoost,
}

/// What follows from a collision.
#[derive(Debug, Clone, PartialEq)]
pub struct CollisionResolution {
    pub collision_type: CollisionType,
    pub entities_to_remove: Vec<String>,
    pub score_change: Option<u32>,
    pub player_effects: Vec<PlayerEffect>,
}

impl CollisionService {
    /// A new collision service.
    pub fn new() -> (r: Self) {
        CollisionService
    }

    /// Whether a position lies outside the boundaries.
    pub fn check_boundary_collision(&self, position: &Position3D, boundaries: &WorldBoundaries) -> (r: bool)
        ensures
            r == !boundaries.spec_contains(*position),
    {
        !boundaries.contains(position)
    }

    /// A player running into an enemy: the enemy is removed and the player scores
    /// the points of one enemy.
    pub fn resolve_player_enemy_collision(&self, player_id: &str, enemy_id: &str) -> (r: CollisionResolution)
        ensures
            r.collision_type == CollisionType::PlayerEnemy,
            r.entities_to_remove@.len() == 1,
            r.entities_to_remove@[0]@ == enemy_id@,
            r.score_change == Some(POINTS_PER_ENEMY),
            r.player_effects@ == seq![PlayerEffect::ScoreIncrease],
    {
        let mut entities_to_remove: Vec<String> = Vec::new();
        entities_to_remove.push(String::from_str(enemy_id));
        let mut player_effects: Vec<PlayerEffect> = Vec::new();
        player_effects.push(PlayerEffect::ScoreIncrease);
        CollisionResolution {
            collision_type: CollisionType::PlayerEnemy,
            entities_to_remove,
            score_change: Some(POINTS_PER_ENEMY),
            player_effects,
        }
    }
}

impl Default for CollisionService {
    fn default() -> (r: Self) {
        Self::new()
    }
}

} // verus!
