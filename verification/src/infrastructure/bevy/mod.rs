//! Engine-side state of the game world: components attached to entities and
//! resources shared by systems.
pub mod components;
pub mod resources;

pub use components::{Position3DComponent, TerrainComponent};
pub use resources::{GameBoundariesResource, ScoreResource, WorldBoundariesResource};
