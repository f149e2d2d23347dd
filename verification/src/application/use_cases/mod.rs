//! Use cases: single game operations.
pub mod handle_collision;
pub mod move_player;
pub mod spawn_enemies;
pub mod update_score;

pub use handle_collision::HandleEncounterUseCase;
pub use move_player::MovePlayerUseCase;
pub use spawn_enemies::SpawnEnemiesUseCase;
pub use update_score::UpdateScoreUseCase;
