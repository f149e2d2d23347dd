//! Entities: the game objects with an identity that changes over time.
pub mod audio;
pub mod base;
pub mod enemy;
pub mod event;
pub mod game;
pub mod map;
pub mod player;
pub mod quest;
pub mod resource;

pub use base::{Base, BaseBuilding, BaseLevel};
pub use enemy::{EnemyId, EnemyType};
pub use event::{Event, EventType};
pub use game::GameSession;
pub use quest::{Quest, QuestObjective, QuestStatus};
pub use resource::Resource;

use crate::domain::value_objects::EntityId;
use vstd::prelude::*;

verus! {

/// An object with an identity and a version that grows with each change.
pub trait Entity {
    /// The identity of the entity.
    fn id(&self) -> &EntityId;

    /// Whether the entity's own rules hold.
    fn is_valid(&self) -> bool;

    /// Number of changes made to the entity, starting at 1.
    fn version(&self) -> u64;
}

/// An entity that can be stored under a type name.
pub trait Persistable: Entity {
    /// The name under which entities of this type are stored.
    fn entity_type() -> &'static str;
}

} // verus!
