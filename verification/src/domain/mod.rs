//! Domain layer: the rules of the game, free of any engine concern.
pub mod constants;
pub mod entities;
pub mod services;
pub mod value_objects;

pub use value_objects::dice::{DiceModifier, DiceResult, DiceRoll, DiceType};
pub use value_objects::position::{Position3D, TileCoordinate};
pub use value_objects::resources::{ResourceAmount, ResourceCollection, ResourceType};
pub use value_objects::terrain::TerrainType;
pub use value_objects::{EntityId, Experience, GameTime, PlayerStats, StatType};
pub use Position3D as Position;
pub use WorldBoundaries as GameBoundaries;

use crate::domain::constants::POINTS_PER_ENEMY;
use crate::text::{append_decimal, append_signed_decimal, decimal, decimal_string, signed_decimal};
use vstd::prelude::*;

verus! {

/// Domain-specific error types for the game rules.
#[derive(Debug, Clone, PartialEq)]
pub enum DomainError {
    PlayerError(String),
    InvalidPlayerStats(String),
    InsufficientPlayerLevel(u32),
    InvalidDiceRoll(String),
    DiceModifierError(String),
    InvalidDiceType(String),
    MapGenerationError(String),
    InvalidMapCoordinates(i32, i32, i32),
    TileNotAccessible(i32, i32, i32),
    MapBoundaryExceeded(String),
    InsufficientResources(String),
    InvalidResourceType(String),
    InvalidResourceAmount(i32),
    BaseUpgradeError(String),
    BuildingRequirementsNotMet(String),
    EventTriggerError(String),
    InvalidEventType(String),
    QuestError(String),
    QuestRequirementsNotMet(String),
    GameSessionError(String),
    InvalidGameState(String),
    ValidationError(String),
    ConfigurationError(String),
    ServiceError { service: String, reason: String },
    CollisionError(String),
    InvalidScore(String),
    EnemyError(String),
}

/// The version after one more change; the count wraps to zero past its largest value.
pub open spec fn next_version(v: u64) -> u64 {
    if v < u64::MAX { (v + 1) as u64 } else { 0 }
}

/// Common result type for domain operations.
pub type DomainResult<T> = Result<T, DomainError>;

/// "(x, y, z)" with signed decimal components.
pub open spec fn triple_text(x: i32, y: i32, z: i32) -> Seq<char> {
    seq!['('] + signed_decimal(x as int) + seq![',', ' '] + signed_decimal(y as int) + seq![',', ' ']
        + signed_decimal(z as int) + seq![')']
}

fn append_triple(s: &mut String, x: i32, y: i32, z: i32)
    ensures
        final(s)@ == old(s)@ + triple_text(x, y, z),
{
    proof {
        reveal_strlit("(");
        reveal_strlit(", ");
        reveal_strlit(")");
    }
    s.append("(");
    append_signed_decimal(s, x as i64);
    s.append(", ");
    append_signed_decimal(s, y as i64);
    s.append(", ");
    append_signed_decimal(s, z as i64);
    s.append(")");
    assert(final(s)@ =~= old(s)@ + triple_text(x, y, z));
}

impl DomainError {
    /// The human readable text of the error.
    pub open spec fn spec_message(&self) -> Seq<char> {
        match self {
            DomainError::PlayerError(m) => "Player error: "@ + m@,
            DomainError::InvalidPlayerStats(m) => "Invalid player stats: "@ + m@,
            DomainError::InsufficientPlayerLevel(l) => "Insufficient player level: "@ + decimal(*l as nat),
            DomainError::InvalidDiceRoll(m) => "Invalid dice roll: "@ + m@,
            DomainError::DiceModifierError(m) => "Dice modifier error: "@ + m@,
            DomainError::InvalidDiceType(m) => "Invalid dice type: "@ + m@,
            DomainError::MapGenerationError(m) => "Map generation error: "@ + m@,
            DomainError::InvalidMapCoordinates(x, y, z) => "Invalid map coordinates: "@ + triple_text(*x, *y, *z),
            DomainError::TileNotAccessible(x, y, z) => "Tile not accessible: "@ + triple_text(*x, *y, *z),
            DomainError::MapBoundaryExceeded(m) => "Map boundary exceeded: "@ + m@,
            DomainError::InsufficientResources(m) => "Insufficient resources: "@ + m@,
            DomainError::InvalidResourceType(m) => "Invalid resource type: "@ + m@,
            DomainError::InvalidResourceAmount(a) => "Invalid resource amount: "@ + signed_decimal(*a as int),
            DomainError::BaseUpgradeError(m) => "Base upgrade error: "@ + m@,
            DomainError::BuildingRequirementsNotMet(m) => "Building requirements not met: "@ + m@,
            DomainError::EventTriggerError(m) => "Event trigger error: "@ + m@,
            DomainError::InvalidEventType(m) => "Invalid event type: "@ + m@,
            DomainError::QuestError(m) => "Quest error: "@ + m@,
            DomainError::QuestRequirementsNotMet(m) => "Quest requirements not met: "@ + m@,
            DomainError::GameSessionError(m) => "Game session error: "@ + m@,
            DomainError::InvalidGameState(m) => "Invalid game state: "@ + m@,
            DomainError::ValidationError(m) => "Validation error: "@ + m@,
            DomainError::ConfigurationError(m) => "Configuration error: "@ + m@,
            DomainError::ServiceError { service, reason } => service@ + " service error: "@ + reason@,
            DomainError::CollisionError(m) => "Collision error: "@ + m@,
            DomainError::InvalidScore(m) => "Invalid score: "@ + m@,
            DomainError::EnemyError(m) => "Enemy error: "@ + m@,
        }
    }

    /// Renders the error as the text shown to the player.
    pub fn to_string(&self) -> (r: String)
        ensures
            r@ == self.spec_message(),
    {
        let r = match self {
            DomainError::PlayerError(m) => String::from_str("Player error: ").concat(m.as_str()),
            DomainError::InvalidPlayerStats(m) => String::from_str("Invalid player stats: ").concat(m.as_str()),
            DomainError::InsufficientPlayerLevel(l) => {
                let mut s = String::from_str("Insufficient player level: ");
                append_decimal(&mut s, *l as u64);
                s
            },
            DomainError::InvalidDiceRoll(m) => String::from_str("Invalid dice roll: ").concat(m.as_str()),
            DomainError::DiceModifierError(m) => String::from_str("Dice modifier error: ").concat(m.as_str()),
            DomainError::InvalidDiceType(m) => String::from_str("Invalid dice type: ").concat(m.as_str()),
            DomainError::MapGenerationError(m) => String::from_str("Map generation error: ").concat(m.as_str()),
            DomainError::InvalidMapCoordinates(x, y, z) => {
                let mut s = String::from_str("Invalid map coordinates: ");
                append_triple(&mut s, *x, *y, *z);
                s
            },
            DomainError::TileNotAccessible(x, y, z) => {
                let mut s = String::from_str("Tile not accessible: ");
                append_triple(&mut s, *x, *y, *z);
                s
            },
            DomainError::MapBoundaryExceeded(m) => String::from_str("Map boundary exceeded: ").concat(m.as_str()),
            DomainError::InsufficientResources(m) => String::from_str("Insufficient resources: ").concat(m.as_str()),
            DomainError::InvalidResourceType(m) => String::from_str("Invalid resource type: ").concat(m.as_str()),
            DomainError::InvalidResourceAmount(a) => {
                let mut s = String::from_str("Invalid resource amount: ");
                append_signed_decimal(&mut s, *a as i64);
                s
            },
            DomainError::BaseUpgradeError(m) => String::from_str("Base upgrade error: ").concat(m.as_str()),
            DomainError::BuildingRequirementsNotMet(m) => String::from_str("Building requirements not met: ").concat(m.as_str()),
            DomainError::EventTriggerError(m) => String::from_str("Event trigger error: ").concat(m.as_str()),
            DomainError::InvalidEventType(m) => String::from_str("Invalid event type: ").concat(m.as_str()),
            DomainError::QuestError(m) => String::from_str("Quest error: ").concat(m.as_str()),
            DomainError::QuestRequirementsNotMet(m) => String::from_str("Quest requirements not met: ").concat(m.as_str()),
            DomainError::GameSessionError(m) => String::from_str("Game session error: ").concat(m.as_str()),
            DomainError::InvalidGameState(m) => String::from_str("Invalid game state: ").concat(m.as_str()),
            DomainError::ValidationError(m) => String::from_str("Validation error: ").concat(m.as_str()),
            DomainError::ConfigurationError(m) => String::from_str("Configuration error: ").concat(m.as_str()),
            DomainError::ServiceError { service, reason } => {
                service.clone().concat(" service error: ").concat(reason.as_str())
            },
            DomainError::CollisionError(m) => String::from_str("Collision error: ").concat(m.as_str()),
            DomainError::InvalidScore(m) => String::from_str("Invalid score: ").concat(m.as_str()),
            DomainError::EnemyError(m) => String::from_str("Enemy error: ").concat(m.as_str()),
        };
        assert(r@ =~= self.spec_message());
        r
    }
}

/// Score of a session: a saturating counter of points.
#[derive(Debug, Clone, Copy, PartialEq, Eq, Structural)]
pub struct Score {
    value: u32,
}

/// Saturating sum in `u32`.
pub open spec fn saturating_sum(a: int, b: int) -> int {
    if a + b > u32::MAX { u32::MAX as int } else { a + b }
}

impl Score {
    /// The points held.
    pub closed spec fn points(&self) -> u32 {
        self.value
    }

    /// A zero score.
    pub fn zero() -> (r: Self)
        ensures
            r.points() == 0,
    {
        Score { value: 0 }
    }

    /// A score of any value.
    pub fn new(value: u32) -> (r: DomainResult<Self>)
        ensures
            r matches Ok(s) && s.points() == value,
    {
        Ok(Score { value })
    }

    /// Add points (saturating).
    pub fn add(&self, points: u32) -> (r: DomainResult<Self>)
        ensures
            r matches Ok(s) && s.points() == saturating_sum(self.points() as int, points as int),
    {
        Ok(Score { value: self.value.saturating_add(points) })
    }

    /// The score value.
    pub fn value(&self) -> (r: u32)
        ensures
            r == self.points(),
    {
        self.value
    }

    /// The score as decimal text.
    pub fn formatted(&self) -> (r: String)
        ensures
            r@ == decimal(self.points() as nat),
    {
        decimal_string(self.value as u64)
    }

    /// The score as decimal text.
    pub fn to_string(&self) -> (r: String)
        ensures
            r@ == decimal(self.points() as nat),
    {
        self.formatted()
    }

    /// Award one hundred points for a defeated enemy (saturating).
    pub fn add_enemy_points(&mut self) -> (r: DomainResult<()>)
        ensures
            r is Ok,
            final(self).points() == saturating_sum(old(self).points() as int, 100),
    {
        self.value = self.value.saturating_add(100);
        Ok(())
    }
}

impl Default for Score {
    fn default() -> (r: Self)
        ensures
            r.points() == 0,
    {
        Self::zero()
    }
}

/// Kinds of enemies.
#[derive(Debug, Clone, Copy, PartialEq, Eq, Structural)]
pub enum EnemyType {
    Basic,
    Fast,
    Heavy,
}

/// Collision rules between positions.
pub struct CollisionService;

impl CollisionService {
    /// A new collision service.
    pub fn new() -> (r: Self) {
        CollisionService
    }

    /// Points awarded when the player collides with an enemy.
    pub fn resolve_player_enemy_collision(&self, _player_pos: &Position3D, _enemy_pos: &Position3D) -> (r: DomainResult<Score>)
        ensures
            r matches Ok(s) && s.points() == POINTS_PER_ENEMY,
    {
        Score::new(POINTS_PER_ENEMY)
    }
}

/// Enemy spawning rules.
pub struct SpawningService;

impl SpawningService {
    /// A new spawning service.
    pub fn new() -> (r: Self) {
        SpawningService
    }

    /// Enemies spawn at the origin.
    pub fn calculate_spawn_position(&self, _boundaries: &WorldBoundaries) -> (r: DomainResult<Position3D>)
        ensures
            r matches Ok(p) && p.x == 0 && p.y == 0 && p.z == 0,
    {
        Ok(Position3D::new(0, 0, 0))
    }
}

/// Game world boundaries for 3D isometric space, inclusive on every axis.
#[derive(Debug, Clone, PartialEq, Eq, Structural)]
pub struct WorldBoundaries {
    pub min_x: i32,
    pub max_x: i32,
    pub min_y: i32,
    pub max_y: i32,
    pub min_z: i32,
    pub max_z: i32,
}

/// `v` clamped into [lo, hi].
pub open spec fn clamp_int(v: int, lo: int, hi: int) -> int {
    if v < lo { lo } else if v > hi { hi } else { v }
}

impl WorldBoundaries {
    /// Whether a position lies inside the boundaries.
    pub open spec fn spec_contains(&self, p: Position3D) -> bool {
        self.min_x <= p.x <= self.max_x && self.min_y <= p.y <= self.max_y && self.min_z <= p.z <= self.max_z
    }

    /// Whether every axis has its minimum at or below its maximum.
    pub open spec fn well_ordered(&self) -> bool {
        self.min_x <= self.max_x && self.min_y <= self.max_y && self.min_z <= self.max_z
    }

    /// Boundaries from their six limits.
    pub fn new(min_x: i32, max_x: i32, min_y: i32, max_y: i32, min_z: i32, max_z: i32) -> (r: Self)
        ensures
            r == (WorldBoundaries { min_x, max_x, min_y, max_y, min_z, max_z }),
    {
        WorldBoundaries { min_x, max_x, min_y, max_y, min_z, max_z }
    }

    /// Standard boundaries: x and y in [-50, 50], z in [0, 10].
    pub open spec fn standard_spec() -> WorldBoundaries {
        WorldBoundaries { min_x: -50i32, max_x: 50i32, min_y: -50i32, max_y: 50i32, min_z: 0i32, max_z: 10i32 }
    }

    /// Standard boundaries: x and y in [-50, 50], z in [0, 10].
    pub fn standard() -> (r: Self)
        ensures
            r == Self::standard_spec(),
    {
        Self::new(-50, 50, -50, 50, 0, 10)
    }

    /// Large boundaries: x and y in [-200, 200], z in [0, 20].
    pub fn large() -> (r: Self)
        ensures
            r == (WorldBoundaries { min_x: -200i32, max_x: 200i32, min_y: -200i32, max_y: 200i32, min_z: 0i32, max_z: 20i32 }),
    {
        Self::new(-200, 200, -200, 200, 0, 20)
    }

    /// Whether a position lies inside the boundaries.
    pub fn contains(&self, position: &Position3D) -> (r: bool)
        ensures
            r == self.spec_contains(*position),
    {
        position.x >= self.min_x && position.x <= self.max_x && position.y >= self.min_y && position.y <= self.max_y
            && position.z >= self.min_z && position.z <= self.max_z
    }

    /// The position clamped into the boundaries, axis by axis.
    pub fn clamp(&self, position: Position3D) -> (r: Position3D)
        requires
            self.well_ordered(),
        ensures
            r.x == clamp_int(position.x as int, self.min_x as int, self.max_x as int),
            r.y == clamp_int(position.y as int, self.min_y as int, self.max_y as int),
            r.z == clamp_int(position.z as int, self.min_z as int, self.max_z as int),
            self.spec_contains(r),
    {
        let x = if position.x < self.min_x { self.min_x } else if position.x > self.max_x { self.max_x } else { position.x };
        let y = if position.y < self.min_y { self.min_y } else if position.y > self.max_y { self.max_y } else { position.y };
        let z = if position.z < self.min_z { self.min_z } else if position.z > self.max_z { self.max_z } else { position.z };
        Position3D { x, y, z }
    }

    /// Number of tiles along each axis.
    pub fn size(&self) -> (r: (i32, i32, i32))
        requires
            i32::MIN <= self.max_x - self.min_x + 1 <= i32::MAX,
            i32::MIN <= self.max_y - self.min_y + 1 <= i32::MAX,
            i32::MIN <= self.max_z - self.min_z + 1 <= i32::MAX,
            i32::MIN <= self.max_x - self.min_x <= i32::MAX,
            i32::MIN <= self.max_y - self.min_y <= i32::MAX,
            i32::MIN <= self.max_z - self.min_z <= i32::MAX,
        ensures
            r.0 == self.max_x - self.min_x + 1,
            r.1 == self.max_y - self.min_y + 1,
            r.2 == self.max_z - self.min_z + 1,
    {
        (self.max_x - self.min_x + 1, self.max_y - self.min_y + 1, self.max_z - self.min_z + 1)
    }
}

/// Phases of a turn.
#[derive(Debug, Clone, Copy, PartialEq, Eq, Structural)]
pub enum GamePhase {
    PlayerTurn,
    Processing,
    EventPhase,
    EndTurn,
    Paused,
    GameOver,
}

impl Default for GamePhase {
    fn default() -> (r: Self)
        ensures
            r == GamePhase::PlayerTurn,
    {
        GamePhase::PlayerTurn
    }
}

/// Clamping into well-ordered boundaries lands inside them, and leaves a position that
/// is already inside where it is; so clamping a clamped position changes nothing.
pub proof fn clamping_lands_inside(b: WorldBoundaries, p: Position3D)
    requires
        b.well_ordered(),
    ensures
        b.spec_contains(Position3D {
            x: clamp_int(p.x as int, b.min_x as int, b.max_x as int) as i32,
            y: clamp_int(p.y as int, b.min_y as int, b.max_y as int) as i32,
            z: clamp_int(p.z as int, b.min_z as int, b.max_z as int) as i32,
        }),
        b.spec_contains(p) ==> clamp_int(p.x as int, b.min_x as int, b.max_x as int) == p.x
            && clamp_int(p.y as int, b.min_y as int, b.max_y as int) == p.y
            && clamp_int(p.z as int, b.min_z as int, b.max_z as int) == p.z,
        clamp_int(clamp_int(p.x as int, b.min_x as int, b.max_x as int), b.min_x as int, b.max_x as int)
            == clamp_int(p.x as int, b.min_x as int, b.max_x as int),
        clamp_int(clamp_int(p.y as int, b.min_y as int, b.max_y as int), b.min_y as int, b.max_y as int)
            == clamp_int(p.y as int, b.min_y as int, b.max_y as int),
        clamp_int(clamp_int(p.z as int, b.min_z as int, b.max_z as int), b.min_z as int, b.max_z as int)
            == clamp_int(p.z as int, b.min_z as int, b.max_z as int),
{
}

/// Adding points never lowers a score, and a score never passes `u32::MAX`.
pub proof fn points_only_accumulate(points: u32, added: u32)
    ensures
        points <= saturating_sum(points as int, added as int) <= u32::MAX,
        added > 0 && points < u32::MAX ==> points < saturating_sum(points as int, added as int),
{
}

} // verus!
