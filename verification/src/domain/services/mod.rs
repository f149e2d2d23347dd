//! Domain services: rules that span several value objects or entities.
pub mod collision;
pub mod spawning;
pub mod visibility_service;

pub use collision::CollisionService;
pub use spawning::SpawningService;
pub mod font_service;
pub mod map_service;
pub mod tile_movement;
pub mod game_log_service;
pub mod resting_service;
pub mod audio_service;
pub mod tile_cache_service;
pub mod resource_rewards;
