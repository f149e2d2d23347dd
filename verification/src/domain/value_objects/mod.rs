//! Value objects: immutable domain concepts with their validation rules.
pub mod dice;
pub mod position;
pub mod resources;
pub mod score;
pub mod terrain;

pub use dice::{DiceModifier, DiceResult, DiceRoll, DiceType};
pub use position::{Position3D, TileCoordinate};
pub use resources::{ResourceAmount, ResourceCollection, ResourceType};
pub use terrain::TerrainType;

use crate::domain::constants::{experience_total, level_step, level_step_points, lemma_experience_total_42, lemma_experience_total_monotonic, MAX_PLAYER_LEVEL};
use crate::domain::DomainError;
use crate::text::{append_decimal, decimal};
use crate::clock::utc_now_nanos;
use vstd::prelude::*;

verus! {

/// A clock reading of `millis` milliseconds in nanoseconds, kept modulo 2^64.
pub open spec fn nanos_of_millis(millis: u64) -> int {
    (millis as int * 1_000_000) % 0x1_0000_0000_0000_0000
}

/// The identifier of a clock reading in nanoseconds: the reading modulo 2^64, or 0
/// for no reading.
pub open spec fn id_of_nanos(nanos: Option<u128>) -> int {
    match nanos {
        Some(n) => (n % 0x1_0000_0000_0000_0000u128) as int,
        None => 0,
    }
}

/// Unique identifier for game entities.
#[derive(Debug, Clone, Copy, PartialEq, Eq, Hash, Structural)]
pub struct EntityId(pub u64);

impl EntityId {
    /// An identifier with a given value.
    pub fn new(id: u64) -> (r: Self)
        ensures
            r.0 == id,
    {
        EntityId(id)
    }

    /// An identifier derived from a millisecond timestamp: the timestamp in
    /// nanoseconds, kept modulo 2^64.
    pub fn from_timestamp_millis(millis: u64) -> (r: Self)
        ensures
            r.0 == (millis as int * 1_000_000) % 0x1_0000_0000_0000_0000,
    {
        EntityId(millis.wrapping_mul(1_000_000))
    }

    /// An identifier from a clock reading in nanoseconds since the epoch: the
    /// reading kept modulo 2^64, or 0 for a clock before the epoch.
    pub fn from_timestamp_nanos(nanos: Option<u128>) -> (r: Self)
        ensures
            r.0 == id_of_nanos(nanos),
    {
        match nanos {
            Some(n) => {
                let low = n % 0x1_0000_0000_0000_0000u128;
                EntityId(low as u64)
            },
            None => EntityId(0),
        }
    }

    /// A new unique identifier from the clock: the current time in nanoseconds (see
    /// `from_timestamp_nanos`), so that identifiers made one after the other differ
    /// as the clock advances. Which time it is, no contract states.
    pub fn generate() -> (r: Self)
        ensures
            exists|nanos: Option<u128>| r.0 == #[trigger] id_of_nanos(nanos),
    {
        let nanos = utc_now_nanos();
        let r = Self::from_timestamp_nanos(nanos);
        assert(r.0 == id_of_nanos(nanos));
        r
    }

    /// The raw identifier value.
    pub fn value(&self) -> (r: u64)
        ensures
            r == self.0,
    {
        self.0
    }
}

/// The level reached with `points` from `level` on: a step is taken while the points
/// cover the step of the current level and the maximum level is not reached.
pub open spec fn level_from(points: int, level: int) -> int
    decreases 50 - level,
{
    if level < 50 && points >= level_step(level) {
        level_from(points, level + 1)
    } else {
        level
    }
}

/// The level that a number of experience points gives.
pub open spec fn level_for_points(points: int) -> int {
    level_from(points, 1)
}

proof fn lemma_level_from_range(points: int, level: int)
    requires
        1 <= level <= 50,
    ensures
        level <= level_from(points, level) <= 50,
    decreases 50 - level,
{
    if level < 50 && points >= level_step(level) {
        lemma_level_from_range(points, level + 1);
    }
}

/// Player experience points and the level they give.
#[derive(Debug, Clone, Copy, PartialEq, Eq, Structural)]
pub struct Experience {
    points: u32,
    level: u32,
}

impl Experience {
    /// Experience points held.
    pub closed spec fn spec_points(&self) -> u32 {
        self.points
    }

    /// Level held.
    pub closed spec fn spec_level(&self) -> u32 {
        self.level
    }

    fn calculate_level(points: u32) -> (r: u32)
        ensures
            r == level_for_points(points as int),
            1 <= r <= 50,
    {
        let mut level: u32 = 1;
        let mut required = level_step_points(1);
        proof { lemma_level_from_range(points as int, 1); }
        while points >= required && level < MAX_PLAYER_LEVEL
            invariant
                1 <= level <= 50,
                required == level_step(level as int),
                level_from(points as int, level as int) == level_for_points(points as int),
            decreases 50 - level,
        {
            level = level + 1;
            required = level_step_points(level);
        }
        level
    }

    fn points_required_for_level(target_level: u32) -> (r: u32)
        requires
            target_level <= 42,
        ensures
            r == experience_total(target_level as int),
    {
        if target_level <= 1 {
            return 0;
        }
        let mut total: u32 = 0;
        let mut l: u32 = 2;
        while l <= target_level
            invariant
                2 <= l <= target_level + 1,
                target_level <= 42,
                total == experience_total(l - 1),
            decreases target_level + 1 - l,
        {
            proof {
                lemma_experience_total_monotonic(l as int, 42);
                lemma_experience_total_42();
            }
            total = total + level_step_points(l - 1);
            l = l + 1;
        }
        total
    }

    /// Experience with a number of points; the level follows from the points.
    pub fn new(points: u32) -> (r: Result<Self, DomainError>)
        ensures
            r matches Ok(e) && e.spec_points() == points && e.spec_level() == level_for_points(points as int),
    {
        let level = Self::calculate_level(points);
        Ok(Experience { points, level })
    }

    /// Experience at the start of a level; fails above the maximum level.
    pub fn for_level(level: u32) -> (r: Result<Self, DomainError>)
        requires
            level <= 42 || level > 50,
        ensures
            r is Ok <==> level <= 50,
            r matches Ok(e) ==> e.spec_level() == level && e.spec_points() == experience_total(level as int),
            r matches Err(e) ==> e is ValidationError,
    {
        if level > MAX_PLAYER_LEVEL {
            let mut msg = String::from_str("Level ");
            append_decimal(&mut msg, level as u64);
            msg.append(" exceeds maximum level 50");
            return Err(DomainError::ValidationError(msg));
        }
        let points = Self::points_required_for_level(level);
        Ok(Experience { points, level })
    }

    /// Current experience points.
    pub fn points(&self) -> (r: u32)
        ensures
            r == self.spec_points(),
    {
        self.points
    }

    /// Current level.
    pub fn level(&self) -> (r: u32)
        ensures
            r == self.spec_level(),
    {
        self.level
    }

    /// Add points (saturating) and recompute the level.
    pub fn add_points(&self, additional_points: u32) -> (r: Result<Self, DomainError>)
        ensures
            r matches Ok(e) && e.spec_points() == (if self.spec_points() + additional_points > u32::MAX {
                u32::MAX as int
            } else {
                self.spec_points() + additional_points
            }) && e.spec_level() == level_for_points(e.spec_points() as int),
    {
        let new_points = self.points.saturating_add(additional_points);
        Self::new(new_points)
    }

    /// Points still needed for the next level (zero at the maximum level).
    pub fn points_to_next_level(&self) -> (r: u32)
        requires
            self.spec_level() >= 50 || self.spec_level() + 1 <= 42,
        ensures
            r == (if self.spec_level() >= 50 {
                0
            } else if experience_total(self.spec_level() + 1) >= self.spec_points() {
                experience_total(self.spec_level() + 1) - self.spec_points()
            } else {
                0
            }),
    {
        if self.level >= MAX_PLAYER_LEVEL {
            return 0;
        }
        let next_level_points = Self::points_required_for_level(self.level + 1);
        next_level_points.saturating_sub(self.points)
    }

    /// Whether the points reach the total of the next level.
    pub fn can_level_up(&self) -> (r: bool)
        requires
            self.spec_level() >= 50 || self.spec_level() + 1 <= 42,
        ensures
            r == (self.spec_level() < 50 && self.spec_points() >= experience_total(self.spec_level() + 1)),
    {
        self.level < MAX_PLAYER_LEVEL && self.points >= Self::points_required_for_level(self.level + 1)
    }
}

/// Types of player statistics.
#[derive(Debug, Clone, Copy, PartialEq, Eq, Hash, Structural)]
pub enum StatType {
    Strength,
    Dexterity,
    Intelligence,
    Charisma,
    Luck,
    Endurance,
}

/// Player statistics that affect dice rolls and actions.
#[derive(Debug, Clone, Copy, PartialEq, Eq, Structural)]
pub struct PlayerStats {
    pub strength: u8,
    pub dexterity: u8,
    pub intelligence: u8,
    pub charisma: u8,
    pub luck: u8,
    pub endurance: u8,
}

/// Whether a stat value is within the allowed range 1 to 20.
pub open spec fn stat_in_range(v: u8) -> bool {
    1 <= v <= 20
}

/// Integer division by two, truncated toward zero.
pub open spec fn half_toward_zero(x: int) -> int {
    if x >= 0 { x / 2 } else { -((-x) / 2) }
}

/// The value of a stat read as a signed byte.
pub open spec fn signed_byte(v: u8) -> int {
    if v < 128 { v as int } else { v as int - 256 }
}

impl PlayerStats {
    /// The value of one stat.
    pub open spec fn stat(self, t: StatType) -> u8 {
        match t {
            StatType::Strength => self.strength,
            StatType::Dexterity => self.dexterity,
            StatType::Intelligence => self.intelligence,
            StatType::Charisma => self.charisma,
            StatType::Luck => self.luck,
            StatType::Endurance => self.endurance,
        }
    }

    /// Validated stats: each within 1 to 20.
    pub fn new(strength: u8, dexterity: u8, intelligence: u8, charisma: u8, luck: u8, endurance: u8) -> (r: Result<Self, DomainError>)
        ensures
            r is Ok <==> (stat_in_range(strength) && stat_in_range(dexterity) && stat_in_range(intelligence)
                && stat_in_range(charisma) && stat_in_range(luck) && stat_in_range(endurance)),
            r matches Ok(s) ==> s == (PlayerStats { strength, dexterity, intelligence, charisma, luck, endurance }),
            r matches Err(e) ==> e is InvalidPlayerStats,
    {
        if strength == 0 || strength > 20 || dexterity == 0 || dexterity > 20 || intelligence == 0 || intelligence > 20
            || charisma == 0 || charisma > 20 || luck == 0 || luck > 20 || endurance == 0 || endurance > 20 {
            return Err(DomainError::InvalidPlayerStats(String::from_str("All stats must be between 1 and 20")));
        }
        Ok(PlayerStats { strength, dexterity, intelligence, charisma, luck, endurance })
    }

    /// Starting stats: 10 everywhere.
    pub open spec fn starting_stats_spec() -> Self {
        PlayerStats { strength: 10, dexterity: 10, intelligence: 10, charisma: 10, luck: 10, endurance: 10 }
    }

    /// Starting stats: 10 everywhere.
    pub fn starting_stats() -> (r: Self)
        ensures
            r == (PlayerStats { strength: 10, dexterity: 10, intelligence: 10, charisma: 10, luck: 10, endurance: 10 }),
            r == Self::starting_stats_spec(),
    {
        PlayerStats { strength: 10, dexterity: 10, intelligence: 10, charisma: 10, luck: 10, endurance: 10 }
    }

    /// Dice modifier of a stat: (value - 10) / 2, truncated toward zero.
    pub fn get_modifier(&self, stat_type: StatType) -> (r: i8)
        requires
            !(128 <= self.stat(stat_type) <= 137),
        ensures
            r == half_toward_zero(signed_byte(self.stat(stat_type)) - 10),
    {
        let v = match stat_type {
            StatType::Strength => self.strength,
            StatType::Dexterity => self.dexterity,
            StatType::Intelligence => self.intelligence,
            StatType::Charisma => self.charisma,
            StatType::Luck => self.luck,
            StatType::Endurance => self.endurance,
        };
        let s: i16 = if v < 128 { v as i16 } else { v as i16 - 256 };
        let x: i16 = s - 10;
        let h: i16 = if x >= 0 { x / 2 } else { -((-x) / 2) };
        h as i8
    }

    /// Stats with one stat raised by a point; fails at 20 or more.
    pub fn increase_stat(&self, stat_type: StatType) -> (r: Result<Self, DomainError>)
        ensures
            r is Ok <==> self.stat(stat_type) < 20,
            r matches Ok(s) ==> s.stat(stat_type) == self.stat(stat_type) + 1
                && forall|t: StatType| t != stat_type ==> #[trigger] s.stat(t) == self.stat(t),
            r matches Err(e) ==> e is InvalidPlayerStats,
    {
        let mut new_stats = *self;
        let current = match stat_type {
            StatType::Strength => self.strength,
            StatType::Dexterity => self.dexterity,
            StatType::Intelligence => self.intelligence,
            StatType::Charisma => self.charisma,
            StatType::Luck => self.luck,
            StatType::Endurance => self.endurance,
        };
        if current >= 20 {
            return Err(DomainError::InvalidPlayerStats(String::from_str("Cannot increase stat above 20")));
        }
        match stat_type {
            StatType::Strength => new_stats.strength = current + 1,
            StatType::Dexterity => new_stats.dexterity = current + 1,
            StatType::Intelligence => new_stats.intelligence = current + 1,
            StatType::Charisma => new_stats.charisma = current + 1,
            StatType::Luck => new_stats.luck = current + 1,
            StatType::Endurance => new_stats.endurance = current + 1,
        }
        Ok(new_stats)
    }
}

/// Game time measured in seconds.
#[derive(Debug, Clone, Copy, PartialEq, Eq, PartialOrd, Ord, Structural)]
pub struct GameTime {
    seconds: u32,
}

/// Saturating sum in `u32`.
pub open spec fn sat_add(a: int, b: int) -> int {
    if a + b > u32::MAX { u32::MAX as int } else { a + b }
}

/// Saturating difference in `u32`.
pub open spec fn sat_sub(a: int, b: int) -> int {
    if a < b { 0 } else { a - b }
}

impl GameTime {
    /// Seconds held.
    pub closed spec fn secs(&self) -> u32 {
        self.seconds
    }

    /// Text of a duration: "1h 30m 45s", "2m 5s" or "7s".
    pub open spec fn spec_text(&self) -> Seq<char> {
        let s = self.secs();
        let h = s / 3600;
        let m = (s % 3600) / 60;
        let sec = s % 60;
        if h > 0 {
            decimal(h as nat) + "h "@ + decimal(m as nat) + "m "@ + decimal(sec as nat) + "s"@
        } else if m > 0 {
            decimal(m as nat) + "m "@ + decimal(sec as nat) + "s"@
        } else {
            decimal(sec as nat) + "s"@
        }
    }

    /// A time of a number of seconds.
    pub fn new(seconds: u32) -> (r: Self)
        ensures
            r.secs() == seconds,
    {
        GameTime { seconds }
    }

    /// A time of a number of minutes.
    pub fn from_minutes(minutes: u32) -> (r: Self)
        requires
            minutes * 60 <= u32::MAX,
        ensures
            r.secs() == minutes * 60,
    {
        GameTime { seconds: minutes * 60 }
    }

    /// A time of a number of hours.
    pub fn from_hours(hours: u32) -> (r: Self)
        requires
            hours * 3600 <= u32::MAX,
        ensures
            r.secs() == hours * 3600,
    {
        GameTime { seconds: hours * 3600 }
    }

    /// Seconds.
    pub fn seconds(&self) -> (r: u32)
        ensures
            r == self.secs(),
    {
        self.seconds
    }

    /// Whole minutes.
    pub fn minutes(&self) -> (r: u32)
        ensures
            r == self.secs() / 60,
    {
        self.seconds / 60
    }

    /// Whole hours.
    pub fn hours(&self) -> (r: u32)
        ensures
            r == self.secs() / 3600,
    {
        self.seconds / 3600
    }

    /// Sum of two times (saturating).
    pub fn add(&self, duration: GameTime) -> (r: Self)
        ensures
            r.secs() == sat_add(self.secs() as int, duration.secs() as int),
    {
        GameTime { seconds: self.seconds.saturating_add(duration.seconds) }
    }

    /// Difference of two times (floored at zero).
    pub fn subtract(&self, duration: GameTime) -> (r: Self)
        ensures
            r.secs() == sat_sub(self.secs() as int, duration.secs() as int),
    {
        GameTime { seconds: self.seconds.saturating_sub(duration.seconds) }
    }

    /// Whether this time is at or after `since`.
    pub fn has_elapsed(&self, since: GameTime) -> (r: bool)
        ensures
            r == (self.secs() >= since.secs()),
    {
        self.seconds >= since.seconds
    }

    /// Advance by seconds (saturating).
    pub fn advance_by_seconds(&self, seconds: u32) -> (r: Self)
        ensures
            r.secs() == sat_add(self.secs() as int, seconds as int),
    {
        GameTime { seconds: self.seconds.saturating_add(seconds) }
    }

    /// Advance by turns of one minute each (saturating).
    pub fn advance_by_turns(&self, turns: u32) -> (r: Self)
        requires
            turns * 60 <= u32::MAX,
        ensures
            r.secs() == sat_add(self.secs() as int, turns * 60),
    {
        GameTime { seconds: self.seconds.saturating_add(turns * 60) }
    }

    /// The start of the game.
    pub fn start_of_game() -> (r: Self)
        ensures
            r.secs() == 0,
    {
        Self::new(0)
    }

    /// The duration as shown to the player.
    pub fn to_string(&self) -> (r: String)
        ensures
            r@ == self.spec_text(),
    {
        let hours = self.seconds / 3600;
        let minutes = (self.seconds % 3600) / 60;
        let seconds = self.seconds % 60;
        let mut s = String::new();
        if hours > 0 {
            append_decimal(&mut s, hours as u64);
            s.append("h ");
            append_decimal(&mut s, minutes as u64);
            s.append("m ");
        } else if minutes > 0 {
            append_decimal(&mut s, minutes as u64);
            s.append("m ");
        }
        append_decimal(&mut s, seconds as u64);
        s.append("s");
        assert(s@ =~= self.spec_text());
        s
    }
}

impl Default for GameTime {
    fn default() -> (r: Self)
        ensures
            r.secs() == 0,
    {
        Self::new(0)
    }
}

} // verus!
