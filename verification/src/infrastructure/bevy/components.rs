//! Components attached to entities of the game world.
use crate::domain::entities::base::{Base, BaseLevel};
use crate::domain::entities::player::Player;
use crate::domain::entities::quest::Quest;
use crate::domain::value_objects::Position3D;
use crate::domain::value_objects::terrain::TerrainType;
use crate::infrastructure::bevy::resources::level_number;
use vstd::prelude::*;

verus! {

/// A position in the world, with a flag telling whether its place on screen must be
/// worked out again.
#[derive(Debug, Clone, Copy)]
pub struct Position3DComponent {
    position: Position3D,
    dirty: bool,
}

impl Position3DComponent {
    /// The position held.
    pub closed spec fn spec_position(&self) -> Position3D {
        self.position
    }

    /// Whether the place on screen must be worked out again.
    pub closed spec fn spec_dirty(&self) -> bool {
        self.dirty
    }

    /// A component at `position`, whose place on screen is still to be worked out.
    pub closed spec fn at(position: Position3D) -> Self {
        Position3DComponent { position, dirty: true }
    }

    /// A component at `position`, whose place on screen is still to be worked out.
    pub fn new(position: Position3D) -> (r: Self)
        ensures
            r == Self::at(position),
            r.spec_position() == position,
            r.spec_dirty(),
    {
        Position3DComponent { position, dirty: true }
    }

    /// The position held.
    pub fn position(&self) -> (r: Position3D)
        ensures
            r == self.spec_position(),
    {
        self.position
    }

    /// Move to `position`; the place on screen must then be worked out again.
    pub fn set_position(&mut self, position: Position3D)
        ensures
            final(self).spec_position() == position,
            final(self).spec_dirty(),
    {
        self.position = position;
        self.dirty = true;
    }

    /// Record that the place on screen has been worked out.
    pub fn mark_screen_position_current(&mut self)
        ensures
            final(self).spec_position() == old(self).spec_position(),
            !final(self).spec_dirty(),
    {
        self.dirty = false;
    }

    /// Whether the place on screen must be worked out again.
    pub fn is_dirty(&self) -> (r: bool)
        ensures
            r == self.spec_dirty(),
    {
        self.dirty
    }
}

impl From<Position3D> for Position3DComponent {
    fn from(position: Position3D) -> (r: Self)
        ensures
            r.spec_position() == position,
            r.spec_dirty(),
    {
        Self::new(position)
    }
}

impl vstd::std_specs::convert::FromSpecImpl<Position3D> for Position3DComponent {
    open spec fn obeys_from_spec() -> bool {
        true
    }

    open spec fn from_spec(position: Position3D) -> Position3DComponent {
        Position3DComponent::at(position)
    }
}

/// Whether a terrain tile can be entered, and what entering it costs.
pub open spec fn tile_terms(t: TerrainType) -> (bool, u8) {
    match t {
        TerrainType::Plains => (true, 1u8),
        TerrainType::Forest => (true, 2u8),
        TerrainType::Mountains => (true, 3u8),
        TerrainType::Desert => (true, 2u8),
        TerrainType::Tundra => (true, 3u8),
        TerrainType::Volcanic => (true, 4u8),
        TerrainType::Anomaly => (true, 5u8),
        TerrainType::Ocean => (false, 0u8),
        TerrainType::Swamp => (true, 4u8),
        TerrainType::Constructed => (true, 2u8),
        TerrainType::Cave => (true, 3u8),
        TerrainType::Crystal => (true, 2u8),
    }
}

/// A terrain tile of the world.
#[derive(Debug, Clone)]
pub struct TerrainComponent {
    terrain_type: TerrainType,
    elevation: i32,
    is_passable: bool,
    movement_cost: u8,
}

impl TerrainComponent {
    /// The terrain of the tile.
    pub closed spec fn spec_terrain(&self) -> TerrainType {
        self.terrain_type
    }

    /// The elevation of the tile.
    pub closed spec fn spec_elevation(&self) -> i32 {
        self.elevation
    }

    /// Whether the tile can be entered.
    pub closed spec fn spec_passable(&self) -> bool {
        self.is_passable
    }

    /// What entering the tile costs.
    pub closed spec fn spec_cost(&self) -> u8 {
        self.movement_cost
    }

    /// A tile of `terrain_type` at `elevation`; ocean cannot be entered and costs
    /// nothing, the other terrains cost one to five.
    pub fn new(terrain_type: TerrainType, elevation: i32) -> (r: Self)
        ensures
            r.spec_terrain() == terrain_type,
            r.spec_elevation() == elevation,
            (r.spec_passable(), r.spec_cost()) == tile_terms(terrain_type),
    {
        let (is_passable, movement_cost) = match terrain_type {
            TerrainType::Plains => (true, 1),
            TerrainType::Forest => (true, 2),
            TerrainType::Mountains => (true, 3),
            TerrainType::Desert => (true, 2),
            TerrainType::Tundra => (true, 3),
            TerrainType::Volcanic => (true, 4),
            TerrainType::Anomaly => (true, 5),
            TerrainType::Ocean => (false, 0),
            TerrainType::Swamp => (true, 4),
            TerrainType::Constructed => (true, 2),
            TerrainType::Cave => (true, 3),
            TerrainType::Crystal => (true, 2),
        };
        TerrainComponent { terrain_type, elevation, is_passable, movement_cost }
    }

    /// The terrain of the tile.
    pub fn terrain_type(&self) -> (r: TerrainType)
        ensures
            r == self.spec_terrain(),
    {
        self.terrain_type
    }

    /// The elevation of the tile.
    pub fn elevation(&self) -> (r: i32)
        ensures
            r == self.spec_elevation(),
    {
        self.elevation
    }

    /// Whether the tile can be entered.
    pub fn is_passable(&self) -> (r: bool)
        ensures
            r == self.spec_passable(),
    {
        self.is_passable
    }

    /// What entering the tile costs.
    pub fn movement_cost(&self) -> (r: u8)
        ensures
            r == self.spec_cost(),
    {
        self.movement_cost
    }

    /// Open or close the tile, as terrain changes.
    pub fn set_passable(&mut self, passable: bool)
        ensures
            final(self).spec_passable() == passable,
            final(self).spec_terrain() == old(self).spec_terrain(),
            final(self).spec_elevation() == old(self).spec_elevation(),
            final(self).spec_cost() == old(self).spec_cost(),
    {
        self.is_passable = passable;
    }
}

/// Kinds of interaction that places and characters offer.
#[derive(Debug, Clone, Copy, PartialEq, Eq, Structural)]
pub enum InteractionType {
    /// Gather resources here.
    ResourceGathering,
    /// Hands out a quest.
    QuestGiver,
    /// Sets off a random event.
    EventTrigger,
    /// Shop or trading post.
    Shop,
    /// Examine or investigate.
    Examine,
    /// Combat encounter.
    Combat,
}

/// Marks interface elements.
#[derive(Debug, Clone)]
pub struct UIComponent;

/// Marks the invisible boundaries of the game area.
#[derive(Debug, Clone)]
pub struct BoundaryComponent;

/// Marks the main camera.
#[derive(Debug, Clone)]
pub struct MainCameraComponent;

/// Marks the score display.
#[derive(Debug, Clone)]
pub struct ScoreDisplayComponent;

/// The player, as a component of its entity.
#[derive(Debug, Clone)]
pub struct PlayerComponent {
    player: Player,
}

impl PlayerComponent {
    /// The wrapped player.
    pub closed spec fn spec_player(&self) -> Player {
        self.player
    }

    /// A component holding `player`.
    pub fn new(player: Player) -> (r: Self)
        ensures
            r.spec_player() == player,
    {
        PlayerComponent { player }
    }

    /// The player.
    pub fn player(&self) -> (r: &Player)
        ensures
            *r == self.spec_player(),
    {
        &self.player
    }

    /// The player, to change in place.
    pub fn player_mut(&mut self) -> (r: &mut Player)
        ensures
            *r == old(self).spec_player(),
            final(self).spec_player() == *final(r),
    {
        &mut self.player
    }

    /// Replace the player.
    pub fn update_player(&mut self, player: Player)
        ensures
            final(self).spec_player() == player,
    {
        self.player = player;
    }

    /// Where the player stands.
    pub fn position(&self) -> (r: Position3D)
        ensures
            r == self.spec_player().spec_position(),
    {
        *self.player.position()
    }

    /// The player's level.
    pub fn level(&self) -> (r: u32)
        ensures
            r == self.spec_player().spec_level(),
    {
        self.player.level()
    }

    /// Whether the player may move to `position`: no rule forbids any position.
    pub fn can_move_to(&self, position: Position3D) -> (r: bool)
        ensures
            r,
    {
        true
    }
}

/// The base, as a component of its entity.
#[derive(Debug, Clone)]
pub struct BaseComponent {
    base: Base,
}

impl BaseComponent {
    /// The wrapped base.
    pub closed spec fn spec_base(&self) -> Base {
        self.base
    }

    /// A component holding `base`.
    pub fn new(base: Base) -> (r: Self)
        ensures
            r.spec_base() == base,
    {
        BaseComponent { base }
    }

    /// The base.
    pub fn base(&self) -> (r: &Base)
        ensures
            *r == self.spec_base(),
    {
        &self.base
    }

    /// The base, to change in place.
    pub fn base_mut(&mut self) -> (r: &mut Base)
        ensures
            *r == old(self).spec_base(),
            final(self).spec_base() == *final(r),
    {
        &mut self.base
    }

    /// Replace the base.
    pub fn update_base(&mut self, base: Base)
        ensures
            final(self).spec_base() == base,
    {
        self.base = base;
    }

    /// Where the base stands.
    pub fn position(&self) -> (r: Position3D)
        ensures
            r == self.spec_base().spec_position(),
    {
        *self.base.position()
    }

    /// The number of the base's level, 1 to 5.
    pub fn level(&self) -> (r: u32)
        ensures
            r == level_number(self.spec_base().spec_level()),
    {
        match self.base.level() {
            BaseLevel::Level1 => 1,
            BaseLevel::Level2 => 2,
            BaseLevel::Level3 => 3,
            BaseLevel::Level4 => 4,
            BaseLevel::Level5 => 5,
        }
    }
}

/// A quest offered by an entity of the world: available until it is completed.
#[derive(Debug, Clone)]
pub struct QuestComponent {
    quest: Quest,
    is_available: bool,
    is_completed: bool,
}

impl QuestComponent {
    /// The wrapped quest.
    pub closed spec fn spec_quest(&self) -> Quest {
        self.quest
    }

    /// Whether the quest is offered and not completed.
    pub closed spec fn spec_available(&self) -> bool {
        self.is_available && !self.is_completed
    }

    /// Whether the quest was completed.
    pub closed spec fn spec_completed(&self) -> bool {
        self.is_completed
    }

    /// A component offering `quest`, available and not completed.
    pub fn new(quest: Quest) -> (r: Self)
        ensures
            r.spec_quest() == quest,
            r.spec_available(),
            !r.spec_completed(),
    {
        QuestComponent { quest, is_available: true, is_completed: false }
    }

    /// The quest.
    pub fn quest(&self) -> (r: &Quest)
        ensures
            *r == self.spec_quest(),
    {
        &self.quest
    }

    /// Whether the quest is offered and not completed.
    pub fn is_available(&self) -> (r: bool)
        ensures
            r == self.spec_available(),
    {
        self.is_available && !self.is_completed
    }

    /// Whether the quest was completed.
    pub fn is_completed(&self) -> (r: bool)
        ensures
            r == self.spec_completed(),
    {
        self.is_completed
    }

    /// Mark the quest completed; it is no longer available.
    pub fn complete(&mut self)
        ensures
            final(self).spec_quest() == old(self).spec_quest(),
            final(self).spec_completed(),
            !final(self).spec_available(),
    {
        self.is_completed = true;
        self.is_available = false;
    }
}

} // verus!
