//! Core game constants and the small rules built directly on them.
use crate::domain::value_objects::dice::DiceType;
use crate::domain::value_objects::resources::ResourceType;
use vstd::prelude::*;

verus! {

/// Default movement dice type.
pub const MOVEMENT_DICE: DiceType = DiceType::D6;
/// Default action dice type.
pub const ACTION_DICE: DiceType = DiceType::D20;
/// Default resource gathering dice type.
pub const RESOURCE_DICE: DiceType = DiceType::D10;
/// Maximum modifier that can be applied to dice rolls.
pub const MAX_DICE_MODIFIER: i8 = 10;
/// Minimum modifier that can be applied to dice rolls.
pub const MIN_DICE_MODIFIER: i8 = -10;
/// Critical success threshold.
pub const CRITICAL_SUCCESS_THRESHOLD: u8 = 18;
/// Critical failure threshold.
pub const CRITICAL_FAILURE_THRESHOLD: u8 = 2;

/// Maximum player level achievable.
pub const MAX_PLAYER_LEVEL: u32 = 50;
/// Base experience requirement for level 2.
pub const BASE_EXPERIENCE_REQUIREMENT: u32 = 100;
/// Maximum stat value for any player stat.
pub const MAX_STAT_VALUE: u8 = 20;
/// Minimum stat value for any player stat.
pub const MIN_STAT_VALUE: u8 = 1;
/// Starting stat value for new characters.
pub const DEFAULT_STAT_VALUE: u8 = 10;
/// Stat points gained per level up.
pub const STAT_POINTS_PER_LEVEL: u8 = 2;

/// Base movement points per turn.
pub const BASE_MOVEMENT_POINTS: u8 = 3;
/// Base action points per turn.
pub const BASE_ACTION_POINTS: u8 = 2;
/// Maximum movement points a player can have.
pub const MAX_MOVEMENT_POINTS: u32 = 20;
/// Movement points regenerated per turn.
pub const MOVEMENT_REGEN_PER_TURN: u32 = 3;
/// Base movement cost for normal terrain.
pub const BASE_MOVEMENT_COST: u8 = 1;
/// Maximum distance for valid movement (Manhattan distance).
pub const MAX_MOVEMENT_DISTANCE: u32 = 1;

/// Map chunk size (tiles per chunk).
pub const MAP_CHUNK_SIZE: u32 = 16;
/// Maximum map exploration radius from spawn.
pub const MAX_EXPLORATION_RADIUS: u32 = 100;
/// Radius for fully visible tiles (no fog): the player's tile and the four adjacent ones.
pub const FULLY_VISIBLE_RADIUS: u32 = 1;
/// Radius for fogged tiles (visible with a fog overlay): the diamond of 25 tiles.
pub const FOGGED_VISIBLE_RADIUS: u32 = 3;
/// Extra radius of generated tiles beyond the visible area.
pub const TILE_GENERATION_BUFFER: u32 = 2;
/// Diamond-shaped fog of war (as opposed to circular).
pub const FOG_OF_WAR_DIAMOND_PATTERN: bool = true;

/// Number of player movement positions to keep in history.
pub const PLAYER_HISTORY_SIZE: usize = 10;
/// Radius around historical positions to keep tiles loaded.
pub const HISTORY_TILE_RADIUS: u32 = 1;
/// Maximum number of tiles to keep in memory.
pub const MAX_LOADED_TILES: usize = 200;
/// Tile cache size.
pub const TILE_CACHE_SIZE: usize = 500;
/// Distance threshold for unloading tiles from memory.
pub const TILE_UNLOAD_DISTANCE: u32 = 8;

/// Maximum tiles in the fully visible zone (player + 4 adjacent).
pub const MAX_FULLY_VISIBLE_TILES: usize = 5;
/// Maximum tiles in the fogged zone.
pub const MAX_FOGGED_VISIBLE_TILES: usize = 20;
/// Total maximum visible tiles.
pub const MAX_TOTAL_VISIBLE_TILES: usize = 25;

/// Starting amount of basic resources for new players.
pub const STARTING_METAL: u32 = 50;
pub const STARTING_ENERGY: u32 = 30;
pub const STARTING_FOOD: u32 = 40;
/// Maximum amount of any single resource type.
pub const MAX_RESOURCE_AMOUNT: u32 = 999_999;
/// Default storage capacity for new bases.
pub const BASE_STORAGE_CAPACITY: u32 = 1000;
/// Resource regeneration rates (units per minute).
pub const SLOW_REGEN_RATE: u32 = 1;
pub const MODERATE_REGEN_RATE: u32 = 3;
pub const FAST_REGEN_RATE: u32 = 5;
/// Resource gathering time in seconds.
pub const RESOURCE_GATHERING_TIME: u32 = 10;

/// Event check interval in seconds.
pub const EVENT_CHECK_INTERVAL: u32 = 30;
/// Event cooldown times (in game turns).
pub const EVENT_COOLDOWN_SHORT: u32 = 3;
pub const EVENT_COOLDOWN_MEDIUM: u32 = 10;
pub const EVENT_COOLDOWN_LONG: u32 = 30;
/// Maximum number of active events at once.
pub const MAX_ACTIVE_EVENTS: usize = 5;

/// Base health for new players.
pub const BASE_PLAYER_HEALTH: u32 = 100;
/// Maximum health a player can have.
pub const MAX_PLAYER_HEALTH: u32 = 500;
/// Base damage for unarmed combat.
pub const BASE_UNARMED_DAMAGE: u32 = 5;
/// Critical hit threshold (dice roll required).
pub const CRITICAL_HIT_THRESHOLD: u8 = 18;
/// Points awarded per enemy destroyed.
pub const POINTS_PER_ENEMY: u32 = 10;

/// Maximum number of buildings per base level.
pub const MAX_BUILDINGS_PER_LEVEL: u8 = 3;
/// Base upgrade time (in minutes).
pub const BASE_UPGRADE_TIME: u32 = 30;
/// Maximum building level.
pub const MAX_BUILDING_LEVEL: u8 = 10;

/// Seconds per game minute.
pub const SECONDS_PER_GAME_MINUTE: u32 = 60;
/// Maximum game session time (in minutes).
pub const MAX_SESSION_TIME: u32 = 480;

/// Danger level thresholds.
pub const LOW_DANGER_THRESHOLD: u8 = 3;
pub const MEDIUM_DANGER_THRESHOLD: u8 = 6;
pub const HIGH_DANGER_THRESHOLD: u8 = 8;

/// Experience needed to advance from `level` to `level + 1`.
///
/// The step starts at 100 points and each further step is the previous one
/// multiplied by 1.5 in single precision and truncated to an integer (saturating
/// at `u32::MAX`); the table holds those values exactly.
pub open spec fn level_step(level: int) -> int {
    if level <= 1 { 100 }
    else if level == 2 { 150 }
    else if level == 3 { 225 }
    else if level == 4 { 337 }
    else if level == 5 { 505 }
    else if level == 6 { 757 }
    else if level == 7 { 1135 }
    else if level == 8 { 1702 }
    else if level == 9 { 2553 }
    else if level == 10 { 3829 }
    else if level == 11 { 5743 }
    else if level == 12 { 8614 }
    else if level == 13 { 12921 }
    else if level == 14 { 19381 }
    else if level == 15 { 29071 }
    else if level == 16 { 43606 }
    else if level == 17 { 65409 }
    else if level == 18 { 98113 }
    else if level == 19 { 147169 }
    else if level == 20 { 220753 }
    else if level == 21 { 331129 }
    else if level == 22 { 496693 }
    else if level == 23 { 745039 }
    else if level == 24 { 1117558 }
    else if level == 25 { 1676337 }
    else if level == 26 { 2514505 }
    else if level == 27 { 3771757 }
    else if level == 28 { 5657635 }
    else if level == 29 { 8486452 }
    else if level == 30 { 12729678 }
    else if level == 31 { 19094516 }
    else if level == 32 { 28641774 }
    else if level == 33 { 42962660 }
    else if level == 34 { 64443992 }
    else if level == 35 { 96665984 }
    else if level == 36 { 144998976 }
    else if level == 37 { 217498464 }
    else if level == 38 { 326247680 }
    else if level == 39 { 489371520 }
    else if level == 40 { 734057280 }
    else if level == 41 { 1101085952 }
    else if level == 42 { 1651628928 }
    else if level == 43 { 2477443328 }
    else if level == 44 { 3716165120 }
    else { 4294967295 }
}

/// Total experience required to reach `level` from level 1.
pub open spec fn experience_total(level: int) -> int
    decreases level,
{
    if level <= 1 { 0 } else { experience_total(level - 1) + level_step(level - 1) }
}

/// The executable table of `level_step`.
pub fn level_step_points(level: u32) -> (r: u32)
    ensures
        r == level_step(level as int),
{
    if level <= 1 { 100 }
    else if level == 2 { 150 }
    else if level == 3 { 225 }
    else if level == 4 { 337 }
    else if level == 5 { 505 }
    else if level == 6 { 757 }
    else if level == 7 { 1135 }
    else if level == 8 { 1702 }
    else if level == 9 { 2553 }
    else if level == 10 { 3829 }
    else if level == 11 { 5743 }
    else if level == 12 { 8614 }
    else if level == 13 { 12921 }
    else if level == 14 { 19381 }
    else if level == 15 { 29071 }
    else if level == 16 { 43606 }
    else if level == 17 { 65409 }
    else if level == 18 { 98113 }
    else if level == 19 { 147169 }
    else if level == 20 { 220753 }
    else if level == 21 { 331129 }
    else if level == 22 { 496693 }
    else if level == 23 { 745039 }
    else if level == 24 { 1117558 }
    else if level == 25 { 1676337 }
    else if level == 26 { 2514505 }
    else if level == 27 { 3771757 }
    else if level == 28 { 5657635 }
    else if level == 29 { 8486452 }
    else if level == 30 { 12729678 }
    else if level == 31 { 19094516 }
    else if level == 32 { 28641774 }
    else if level == 33 { 42962660 }
    else if level == 34 { 64443992 }
    else if level == 35 { 96665984 }
    else if level == 36 { 144998976 }
    else if level == 37 { 217498464 }
    else if level == 38 { 326247680 }
    else if level == 39 { 489371520 }
    else if level == 40 { 734057280 }
    else if level == 41 { 1101085952 }
    else if level == 42 { 1651628928 }
    else if level == 43 { 2477443328 }
    else if level == 44 { 3716165120 }
    else { 4294967295 }
}

/// Steps grow with the level.
pub proof fn lemma_level_step_monotonic(a: int, b: int)
    requires
        a <= b,
    ensures
        level_step(a) <= level_step(b),
{
}

/// Totals grow with the level.
pub proof fn lemma_experience_total_monotonic(a: int, b: int)
    requires
        a <= b,
    ensures
        experience_total(a) <= experience_total(b),
    decreases b - a,
{
    if a < b {
        lemma_experience_total_monotonic(a, b - 1);
    }
}

/// The total for level 42 is the largest that fits in a `u32`.
pub proof fn lemma_experience_total_42()
    ensures
        experience_total(42) == 3303257654,
        experience_total(43) > u32::MAX,
{
    reveal_with_fuel(experience_total, 44);
}

/// Experience required for a level (levels up to 42; beyond, the sum leaves `u32`).
pub fn experience_for_level(level: u32) -> (r: u32)
    requires
        level <= 42,
    ensures
        r == experience_total(level as int),
{
    if level <= 1 {
        return 0;
    }
    let mut total: u32 = 0;
    let mut l: u32 = 2;
    while l <= level
        invariant
            2 <= l <= level + 1,
            level <= 42,
            total == experience_total(l - 1),
        decreases level + 1 - l,
    {
        proof {
            lemma_experience_total_monotonic(l as int, 42);
            lemma_experience_total_42();
        }
        total = total + level_step_points(l - 1);
        l = l + 1;
    }
    total
}

/// UI sorting priority of a resource type.
pub fn resource_display_priority(resource_type: ResourceType) -> (r: u8)
    ensures
        r == resource_type.display_priority(),
{
    match resource_type {
        ResourceType::Metal => 1,
        ResourceType::Energy => 2,
        ResourceType::Food => 3,
        ResourceType::Technology => 4,
        ResourceType::Alloys => 5,
        ResourceType::Data => 6,
        ResourceType::Organics => 7,
        ResourceType::ExoticMatter => 8,
    }
}

/// A natural maximum roll is a critical success.
pub fn is_critical_success(roll: u8, dice_type: DiceType) -> (r: bool)
    ensures
        r == (roll == dice_type.faces()),
{
    roll == dice_type.max_value()
}

/// A natural 1 is a critical failure.
pub fn is_critical_failure(roll: u8) -> (r: bool)
    ensures
        r == (roll == 1),
{
    roll == 1
}

} // verus!
