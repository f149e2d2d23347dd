//! State shared by all systems: the world's boundaries and the score.
use crate::domain::entities::base::{valid_short_name, Base, BaseLevel};
use crate::domain::entities::game::{valid_session_name, DifficultyLevel, GameSession};
use crate::domain::entities::player::{valid_player_name, Player};
use crate::domain::value_objects::{sat_add, EntityId, PlayerStats, Position3D};
use crate::domain::services::map_service::abs;
use crate::domain::{clamp_int, next_version, saturating_sum, DomainError, DomainResult, GamePhase, Score, WorldBoundaries};
use crate::domain::entities::map::{valid_map_name, WorldMap};
use crate::domain::services::map_service::{generated_over, in_chunk, MapService};
use crate::domain::value_objects::terrain::TerrainType;
use crate::domain::constants::{CRITICAL_FAILURE_THRESHOLD, CRITICAL_SUCCESS_THRESHOLD};
use crate::domain::value_objects::dice::DiceRoll;
use crate::domain::value_objects::resources::{sum_over_types, ResourceType};
use crate::domain::value_objects::GameTime;
use crate::text::{append_signed_decimal, decimal, lemma_ascii_utf8_len, lemma_decimal_shape, pow10, signed_decimal, utf8_len};
use vstd::prelude::*;

verus! {

/// The boundaries of the world.
#[derive(Debug, Clone)]
pub struct WorldBoundariesResource {
    pub boundaries: WorldBoundaries,
}

impl WorldBoundariesResource {
    /// A resource holding `boundaries`.
    pub fn new(boundaries: WorldBoundaries) -> (r: Self)
        ensures
            r.boundaries == boundaries,
    {
        WorldBoundariesResource { boundaries }
    }

    /// The standard boundaries.
    pub fn standard() -> (r: Self)
        ensures
            r.boundaries == (WorldBoundaries { min_x: -50i32, max_x: 50i32, min_y: -50i32, max_y: 50i32, min_z: 0i32, max_z: 10i32 }),
    {
        WorldBoundariesResource { boundaries: WorldBoundaries::standard() }
    }

    /// The large boundaries.
    pub fn large() -> (r: Self)
        ensures
            r.boundaries == (WorldBoundaries { min_x: -200i32, max_x: 200i32, min_y: -200i32, max_y: 200i32, min_z: 0i32, max_z: 20i32 }),
    {
        WorldBoundariesResource { boundaries: WorldBoundaries::large() }
    }

    /// Whether `position` lies inside the boundaries.
    pub fn contains(&self, position: &Position3D) -> (r: bool)
        ensures
            r == self.boundaries.spec_contains(*position),
    {
        self.boundaries.contains(position)
    }

    /// `position` clamped into the boundaries, axis by axis.
    pub fn clamp(&self, position: Position3D) -> (r: Position3D)
        requires
            self.boundaries.well_ordered(),
        ensures
            r.x == clamp_int(position.x as int, self.boundaries.min_x as int, self.boundaries.max_x as int),
            r.y == clamp_int(position.y as int, self.boundaries.min_y as int, self.boundaries.max_y as int),
            r.z == clamp_int(position.z as int, self.boundaries.min_z as int, self.boundaries.max_z as int),
            self.boundaries.spec_contains(r),
    {
        self.boundaries.clamp(position)
    }

    /// Number of tiles along each axis.
    pub fn size(&self) -> (r: (i32, i32, i32))
        requires
            i32::MIN <= self.boundaries.max_x - self.boundaries.min_x + 1 <= i32::MAX,
            i32::MIN <= self.boundaries.max_y - self.boundaries.min_y + 1 <= i32::MAX,
            i32::MIN <= self.boundaries.max_z - self.boundaries.min_z + 1 <= i32::MAX,
            i32::MIN <= self.boundaries.max_x - self.boundaries.min_x <= i32::MAX,
            i32::MIN <= self.boundaries.max_y - self.boundaries.min_y <= i32::MAX,
            i32::MIN <= self.boundaries.max_z - self.boundaries.min_z <= i32::MAX,
        ensures
            r.0 == self.boundaries.max_x - self.boundaries.min_x + 1,
            r.1 == self.boundaries.max_y - self.boundaries.min_y + 1,
            r.2 == self.boundaries.max_z - self.boundaries.min_z + 1,
    {
        self.boundaries.size()
    }
}

impl Default for WorldBoundariesResource {
    fn default() -> (r: Self)
        ensures
            r.boundaries == WorldBoundaries::standard_spec(),
    {
        Self::standard()
    }
}

/// The score of the running game.
#[derive(Debug, Clone)]
pub struct ScoreResource {
    pub score: Score,
}

impl ScoreResource {
    /// A resource holding `score`.
    pub fn new(score: Score) -> (r: Self)
        ensures
            r.score == score,
    {
        ScoreResource { score }
    }

    /// A resource holding a zero score.
    pub fn zero() -> (r: Self)
        ensures
            r.score.points() == 0,
    {
        ScoreResource { score: Score::zero() }
    }

    /// Replace the score.
    pub fn update_score(&mut self, new_score: Score)
        ensures
            final(self).score == new_score,
    {
        self.score = new_score;
    }

    /// Add points to the score (saturating).
    pub fn add_points(&mut self, points: u32) -> (r: DomainResult<()>)
        ensures
            r is Ok,
            final(self).score.points() == saturating_sum(old(self).score.points() as int, points as int),
    {
        let new_score = match self.score.add(points) {
            Ok(s) => s,
            Err(e) => return Err(e),
        };
        self.score = new_score;
        Ok(())
    }

    /// The points held.
    pub fn value(&self) -> (r: u32)
        ensures
            r == self.score.points(),
    {
        self.score.value()
    }

    /// The points as decimal text.
    pub fn formatted(&self) -> (r: String)
        ensures
            r@ == decimal(self.score.points() as nat),
    {
        self.score.formatted()
    }
}

impl Default for ScoreResource {
    fn default() -> (r: Self)
        ensures
            r.score.points() == 0,
    {
        Self::zero()
    }
}

/// The boundaries of the game area.
#[derive(Debug, Clone)]
pub struct GameBoundariesResource {
    pub boundaries: WorldBoundaries,
}

impl GameBoundariesResource {
    /// A resource holding `boundaries`.
    pub fn new(boundaries: WorldBoundaries) -> (r: Self)
        ensures
            r.boundaries == boundaries,
    {
        GameBoundariesResource { boundaries }
    }

    /// The standard boundaries.
    pub fn standard() -> (r: Self)
        ensures
            r.boundaries == WorldBoundaries::standard_spec(),
    {
        GameBoundariesResource { boundaries: WorldBoundaries::standard() }
    }

    /// Whether `position` lies inside the boundaries.
    pub fn contains(&self, position: &Position3D) -> (r: bool)
        ensures
            r == self.boundaries.spec_contains(*position),
    {
        self.boundaries.contains(position)
    }

    /// `position` clamped into the boundaries, axis by axis.
    pub fn clamp(&self, position: Position3D) -> (r: Position3D)
        requires
            self.boundaries.well_ordered(),
        ensures
            r.x == clamp_int(position.x as int, self.boundaries.min_x as int, self.boundaries.max_x as int),
            r.y == clamp_int(position.y as int, self.boundaries.min_y as int, self.boundaries.max_y as int),
            r.z == clamp_int(position.z as int, self.boundaries.min_z as int, self.boundaries.max_z as int),
            self.boundaries.spec_contains(r),
    {
        self.boundaries.clamp(position)
    }
}

impl Default for GameBoundariesResource {
    fn default() -> (r: Self)
        ensures
            r.boundaries == WorldBoundaries::standard_spec(),
    {
        Self::standard()
    }
}

/// The player of the running game, once created.
#[derive(Debug, Clone)]
pub struct PlayerResource {
    pub player: Option<Player>,
}

impl PlayerResource {
    /// No player yet.
    pub fn new() -> (r: Self)
        ensures
            r.player is None,
    {
        PlayerResource { player: None }
    }

    /// Create the player (with a fresh identity) and hold it; fails, changing
    /// nothing, for a name of other than 1 to 50 bytes.
    pub fn create_player(&mut self, _player_id: String, player_name: String, position: Position3D, stats: PlayerStats) -> (r: DomainResult<()>)
        ensures
            r is Ok <==> valid_player_name(player_name@),
            r is Err ==> (r matches Err(DomainError::PlayerError(_))) && final(self).player == old(self).player,
            r is Ok ==> (final(self).player matches Some(p) && p.spec_name() == player_name@ && p.spec_position() == position
                && p.spec_stats() == stats),
    {
        let entity_id = EntityId::generate();
        let player = match Player::new(entity_id, player_name, position, stats) {
            Ok(p) => p,
            Err(e) => return Err(e),
        };
        self.player = Some(player);
        Ok(())
    }

    /// The player, if created, to change in place.
    pub fn player_mut(&mut self) -> (r: Option<&mut Player>)
        ensures
            r is Some <==> old(self).player is Some,
            r matches Some(p) ==> *p == old(self).player->0 && final(self).player == Some(*final(p)),
            r is None ==> final(self).player is None,
    {
        match &mut self.player {
            Some(p) => Some(p),
            None => None,
        }
    }

    /// The player, if created.
    pub fn player(&self) -> (r: Option<&Player>)
        ensures
            r is Some <==> self.player is Some,
            r matches Some(p) ==> Some(*p) == self.player,
    {
        match &self.player {
            Some(p) => Some(p),
            None => None,
        }
    }

    /// Whether the player has been created.
    pub fn has_player(&self) -> (r: bool)
        ensures
            r == self.player is Some,
    {
        self.player.is_some()
    }

    /// Where the player is, if created.
    pub fn player_position(&self) -> (r: Option<Position3D>)
        ensures
            self.player matches Some(p) ==> r == Some(p.spec_position()),
            self.player is None ==> r is None,
    {
        match &self.player {
            Some(p) => Some(*p.position()),
            None => None,
        }
    }

    /// The player's level, if created.
    pub fn level(&self) -> (r: Option<u32>)
        ensures
            self.player matches Some(p) ==> r == Some(p.spec_level()),
            self.player is None ==> r is None,
    {
        match &self.player {
            Some(p) => Some(p.level()),
            None => None,
        }
    }

    /// Move the player to `new_position` at `movement_cost` points; fails when there is
    /// no player or the player cannot pay.
    pub fn move_player(&mut self, new_position: Position3D, movement_cost: u8) -> (r: DomainResult<()>)
        requires
            old(self).player matches Some(p) ==> p.spec_version() < u64::MAX
                && p.spec_exploration().spec_total_distance() < u32::MAX,
        ensures
            old(self).player is None ==> (r matches Err(DomainError::PlayerError(m)) && m@ == "No player exists"@)
                && final(self).player is None,
            old(self).player matches Some(p0) ==> (final(self).player matches Some(p1) && {
                &&& (r is Ok <==> p0.spec_movement_points() > 0 && !p0.spec_incapacitated()
                    && p0.spec_movement_points() >= movement_cost)
                &&& r is Err ==> (r matches Err(DomainError::PlayerError(_))) && p1 == p0
                &&& r is Ok ==> p1.spec_position() == new_position
                    && p1.spec_movement_points() == p0.spec_movement_points() - movement_cost
            }),
    {
        match &mut self.player {
            Some(player) => player.move_to(new_position, movement_cost),
            None => Err(DomainError::PlayerError(String::from_str("No player exists"))),
        }
    }

    /// The player, if created, to change in place.
    pub fn get_player_mut(&mut self) -> (r: Option<&mut Player>)
        ensures
            r is Some <==> old(self).player is Some,
            r matches Some(x) ==> *x == old(self).player->0 && final(self).player == Some(*final(x)),
            r is None ==> final(self).player is None,
    {
        match &mut self.player {
            Some(x) => Some(x),
            None => None,
        }
    }

    /// The player, if created.
    pub fn get_player(&self) -> (r: Option<&Player>)
        ensures
            r is Some <==> self.player is Some,
            r matches Some(p) ==> Some(*p) == self.player,
    {
        self.player()
    }

    /// Take movement points from the player (down to zero); fails when there is no player.
    pub fn subtract_movement_points(&mut self, points: u8) -> (r: DomainResult<()>)
        requires
            old(self).player matches Some(p) ==> p.spec_version() < u64::MAX,
        ensures
            old(self).player is None ==> (r matches Err(DomainError::PlayerError(m)) && m@ == "No player exists"@)
                && final(self).player is None,
            old(self).player matches Some(p0) ==> r is Ok && (final(self).player matches Some(p1)
                && p1.spec_movement_points() == (if p0.spec_movement_points() < points { 0 } else { p0.spec_movement_points() - points })
                && p1.same_character(&p0)),
    {
        match &mut self.player {
            Some(player) => {
                player.subtract_movement_points(points);
                Ok(())
            },
            None => Err(DomainError::PlayerError(String::from_str("No player exists"))),
        }
    }
}

impl Default for PlayerResource {
    fn default() -> (r: Self)
        ensures
            r.player is None,
    {
        Self::new()
    }
}

/// The player's base, once created.
#[derive(Debug, Clone)]
pub struct BaseResource {
    pub base: Option<Base>,
}

impl BaseResource {
    /// No base yet.
    pub fn new() -> (r: Self)
        ensures
            r.base is None,
    {
        BaseResource { base: None }
    }

    /// Create the base (with a fresh identity) and hold it; fails, changing nothing,
    /// for an invalid name.
    pub fn create_base(&mut self, base_name: String, position: Position3D) -> (r: DomainResult<()>)
        ensures
            r is Ok <==> valid_short_name(base_name@),
            r is Err ==> (r matches Err(DomainError::ValidationError(_))) && final(self).base == old(self).base,
            r is Ok ==> (final(self).base matches Some(b) && b.spec_name() == base_name@ && b.spec_position() == position
                && b.spec_level() == BaseLevel::Level1),
    {
        let base_id = EntityId::generate();
        let base = match Base::new(base_id, base_name, position) {
            Ok(b) => b,
            Err(e) => return Err(e),
        };
        self.base = Some(base);
        Ok(())
    }

    /// The base, if created, to change in place.
    pub fn base_mut(&mut self) -> (r: Option<&mut Base>)
        ensures
            r is Some <==> old(self).base is Some,
            r matches Some(x) ==> *x == old(self).base->0 && final(self).base == Some(*final(x)),
            r is None ==> final(self).base is None,
    {
        match &mut self.base {
            Some(x) => Some(x),
            None => None,
        }
    }

    /// The base, if created.
    pub fn base(&self) -> (r: Option<&Base>)
        ensures
            r is Some <==> self.base is Some,
            r matches Some(b) ==> Some(*b) == self.base,
    {
        match &self.base {
            Some(b) => Some(b),
            None => None,
        }
    }

    /// Whether the base has been created.
    pub fn has_base(&self) -> (r: bool)
        ensures
            r == self.base is Some,
    {
        self.base.is_some()
    }

    /// Where the base is, if created.
    pub fn base_position(&self) -> (r: Option<Position3D>)
        ensures
            self.base matches Some(b) ==> r == Some(b.spec_position()),
            self.base is None ==> r is None,
    {
        match &self.base {
            Some(b) => Some(*b.position()),
            None => None,
        }
    }

    /// The level of the base (1 to 5), if created.
    pub fn base_level(&self) -> (r: Option<u32>)
        ensures
            self.base matches Some(b) ==> r == Some(level_number(b.spec_level())),
            self.base is None ==> r is None,
    {
        match &self.base {
            Some(b) => Some(match b.level() {
                BaseLevel::Level1 => 1,
                BaseLevel::Level2 => 2,
                BaseLevel::Level3 => 3,
                BaseLevel::Level4 => 4,
                BaseLevel::Level5 => 5,
            }),
            None => None,
        }
    }

    /// Ask for an upgrade of the base: granted whenever a base exists, nothing changes.
    pub fn upgrade_base(&mut self) -> (r: DomainResult<bool>)
        ensures
            old(self).base is Some ==> r == Ok::<bool, DomainError>(true),
            old(self).base is None ==> (r matches Err(DomainError::BaseUpgradeError(m)) && m@ == "No base exists"@),
            final(self).base == old(self).base,
    {
        match &self.base {
            Some(_) => Ok(true),
            None => Err(DomainError::BaseUpgradeError(String::from_str("No base exists"))),
        }
    }
}

impl Default for BaseResource {
    fn default() -> (r: Self)
        ensures
            r.base is None,
    {
        Self::new()
    }
}

/// The number of a base level, 1 to 5.
pub open spec fn level_number(l: BaseLevel) -> u32 {
    match l {
        BaseLevel::Level1 => 1,
        BaseLevel::Level2 => 2,
        BaseLevel::Level3 => 3,
        BaseLevel::Level4 => 4,
        BaseLevel::Level5 => 5,
    }
}

/// The session of the running game, once created.
#[derive(Debug, Clone)]
pub struct GameSessionResource {
    pub session: Option<GameSession>,
}

impl GameSessionResource {
    /// No session yet.
    pub fn new() -> (r: Self)
        ensures
            r.session is None,
    {
        GameSessionResource { session: None }
    }

    /// Create a session named `session_id` at normal difficulty within the standard
    /// boundaries; fails, changing nothing, for a name of other than 1 to 100 bytes.
    pub fn create_session(&mut self, session_id: String) -> (r: DomainResult<()>)
        ensures
            r is Ok <==> valid_session_name(session_id@),
            r is Err ==> (r matches Err(DomainError::ValidationError(_))) && final(self).session == old(self).session,
            r is Ok ==> (final(self).session matches Some(s) && s.spec_name() == session_id@
                && s.spec_phase() == GamePhase::PlayerTurn && s.spec_turn() == 1
                && s.spec_difficulty() == DifficultyLevel::Normal && s.spec_boundaries() == WorldBoundaries::standard_spec()
                && s.spec_statistics().experience_earned == 0),
    {
        let player_id = EntityId::generate();
        let map_id = EntityId::generate();
        let session = match GameSession::new(session_id, player_id, map_id, DifficultyLevel::Normal, WorldBoundaries::standard()) {
            Ok(s) => s,
            Err(e) => return Err(e),
        };
        self.session = Some(session);
        Ok(())
    }

    /// The session, if created, to change in place.
    pub fn session_mut(&mut self) -> (r: Option<&mut GameSession>)
        ensures
            r is Some <==> old(self).session is Some,
            r matches Some(x) ==> *x == old(self).session->0 && final(self).session == Some(*final(x)),
            r is None ==> final(self).session is None,
    {
        match &mut self.session {
            Some(x) => Some(x),
            None => None,
        }
    }

    /// The session, if created.
    pub fn session(&self) -> (r: Option<&GameSession>)
        ensures
            r is Some <==> self.session is Some,
            r matches Some(s) ==> Some(*s) == self.session,
    {
        match &self.session {
            Some(s) => Some(s),
            None => None,
        }
    }

    /// Whether a session exists and its play goes on.
    pub fn has_active_session(&self) -> (r: bool)
        ensures
            r == (self.session matches Some(s) && s.spec_phase() != GamePhase::GameOver && s.spec_phase() != GamePhase::Paused),
    {
        match &self.session {
            Some(s) => s.is_active(),
            None => false,
        }
    }

    /// Start the session; fails when there is none or its game is over.
    pub fn start_session(&mut self) -> (r: DomainResult<()>)
        ensures
            old(self).session is None ==> (r matches Err(DomainError::GameSessionError(m)) && m@ == "No session exists"@)
                && final(self).session is None,
            old(self).session matches Some(s0) ==> (final(self).session matches Some(s1) && {
                &&& (r is Ok <==> s0.spec_phase() != GamePhase::GameOver)
                &&& r is Err ==> s1 == s0
                &&& r is Ok ==> s1.spec_phase() == GamePhase::PlayerTurn && s1.spec_version() == next_version(s0.spec_version())
            }),
    {
        match &mut self.session {
            Some(session) => session.start(),
            None => Err(DomainError::GameSessionError(String::from_str("No session exists"))),
        }
    }

    /// End the session and let it go; fails when there is none.
    pub fn end_session(&mut self) -> (r: DomainResult<()>)
        ensures
            old(self).session is None ==> (r matches Err(DomainError::GameSessionError(m)) && m@ == "No session exists"@),
            old(self).session is Some ==> r is Ok,
            final(self).session is None,
    {
        match &mut self.session {
            Some(session) => {
                let _ = session.end();
            },
            None => return Err(DomainError::GameSessionError(String::from_str("No session exists"))),
        }
        self.session = None;
        Ok(())
    }

    /// Experience earned in the session, or zero without one.
    pub fn experience_points(&self) -> (r: u32)
        ensures
            self.session matches Some(s) ==> r == s.spec_statistics().experience_earned,
            self.session is None ==> r == 0,
    {
        match &self.session {
            Some(s) => s.experience_points(),
            None => 0,
        }
    }

    /// Earn experience in the session (saturating); fails when there is none.
    pub fn add_experience(&mut self, points: u32) -> (r: DomainResult<()>)
        ensures
            old(self).session is None ==> (r matches Err(DomainError::GameSessionError(m)) && m@ == "No session exists"@)
                && final(self).session is None,
            old(self).session matches Some(s0) ==> r is Ok && (final(self).session matches Some(s1)
                && s1.spec_statistics().experience_earned == sat_add(s0.spec_statistics().experience_earned as int, points as int)
                && s1.spec_phase() == s0.spec_phase()),
    {
        match &mut self.session {
            Some(session) => session.add_experience(points),
            None => Err(DomainError::GameSessionError(String::from_str("No session exists"))),
        }
    }
}

impl Default for GameSessionResource {
    fn default() -> (r: Self)
        ensures
            r.session is None,
    {
        Self::new()
    }
}

/// `a / b` rounded toward zero.
pub open spec fn div_toward_zero(a: int, b: int) -> int {
    if a >= 0 { a / b } else { -((-a) / b) }
}

/// The name of the sector around `center`: its coordinates in hundreds of tiles.
pub open spec fn sector_name(center: Position3D) -> Seq<char> {
    "Sector "@ + signed_decimal(div_toward_zero(center.x as int, 100)) + "-"@
        + signed_decimal(div_toward_zero(center.y as int, 100))
}

/// The seed of the sector around `center`: x in the high half, y (sign-extended)
/// over it.
pub open spec fn sector_seed(center: Position3D) -> u64 {
    ((center.x as u64) << 32u64) | (center.y as u64)
}

proof fn lemma_signed_hundreds_shape(v: i32)
    ensures
        forall|i: int| 0 <= i < signed_decimal(div_toward_zero(v as int, 100)).len()
            ==> (#[trigger] signed_decimal(div_toward_zero(v as int, 100))[i]) as u32 <= 0x7F,
        signed_decimal(div_toward_zero(v as int, 100)).len() <= 9,
{
    let q = div_toward_zero(v as int, 100);
    assert(-21474837 < q < 21474837);
    assert(pow10(8) == 100_000_000) by { reveal_with_fuel(pow10, 9); }
    let n: nat = if q < 0 { (-q) as nat } else { q as nat };
    lemma_decimal_shape(n, 8);
    if q < 0 {
        let sd = signed_decimal(q);
        assert(sd == seq!['-'] + decimal(n));
        assert forall|i: int| 0 <= i < sd.len() implies (#[trigger] sd[i]) as u32 <= 0x7F by {
            if i > 0 {
                assert(sd[i] == decimal(n)[i - 1]);
            }
        }
    }
}

/// Sector names are valid map names.
proof fn lemma_sector_name_valid(center: Position3D)
    ensures
        valid_map_name(sector_name(center)),
{
    reveal_strlit("Sector ");
    reveal_strlit("-");
    lemma_signed_hundreds_shape(center.x);
    lemma_signed_hundreds_shape(center.y);
    let a = "Sector "@;
    let b = signed_decimal(div_toward_zero(center.x as int, 100));
    let c = "-"@;
    let d = signed_decimal(div_toward_zero(center.y as int, 100));
    let s = sector_name(center);
    assert(s == a + b + c + d);
    assert forall|i: int| 0 <= i < s.len() implies (#[trigger] s[i]) as u32 <= 0x7F by {
        if i < a.len() {
            assert(s[i] == a[i]);
        } else if i < a.len() + b.len() {
            assert(s[i] == b[i - a.len()]);
        } else if i < a.len() + b.len() + c.len() {
            assert(s[i] == c[i - a.len() - b.len()]);
        } else {
            assert(s[i] == d[i - a.len() - b.len() - c.len()]);
        }
    }
    lemma_ascii_utf8_len(s);
}

/// The world map of the running game, with the chunks loaded and the area in view.
#[derive(Debug)]
pub struct MapResource {
    pub current_map: Option<WorldMap>,
    /// The chunks loaded, each once.
    pub loaded_chunks: Vec<(i32, i32)>,
    /// The lowest and highest corners of the area in view.
    pub visible_area: (Position3D, Position3D),
}

impl MapResource {
    /// No map, no chunk loaded, the area in view at the origin.
    pub fn new() -> (r: Self)
        ensures
            r.current_map is None,
            r.loaded_chunks@.len() == 0,
            r.visible_area == (Position3D { x: 0, y: 0, z: 0 }, Position3D { x: 0, y: 0, z: 0 }),
    {
        MapResource {
            current_map: None,
            loaded_chunks: Vec::new(),
            visible_area: (Position3D::new(0, 0, 0), Position3D::new(0, 0, 0)),
        }
    }

    /// Hold `map`, with no chunk loaded.
    pub fn load_map(&mut self, map: WorldMap)
        ensures
            final(self).current_map == Some(map),
            final(self).loaded_chunks@.len() == 0,
            final(self).visible_area == old(self).visible_area,
    {
        self.current_map = Some(map);
        self.loaded_chunks.clear();
    }

    /// The map, if held.
    pub fn current_map(&self) -> (r: Option<&WorldMap>)
        ensures
            r is Some <==> self.current_map is Some,
            r matches Some(m) ==> Some(*m) == self.current_map,
    {
        self.current_map.as_ref()
    }

    /// The map, if held, to change in place.
    pub fn current_map_mut(&mut self) -> (r: Option<&mut WorldMap>)
        ensures
            old(self).current_map is None ==> r is None && final(self).current_map is None,
            old(self).current_map is Some ==> r is Some && *r.unwrap() == old(self).current_map.unwrap()
                && final(self).current_map == Some(*final(r.unwrap())),
            final(self).loaded_chunks == old(self).loaded_chunks,
            final(self).visible_area == old(self).visible_area,
    {
        self.current_map.as_mut()
    }

    /// Whether a map is held.
    pub fn has_map(&self) -> (r: bool)
        ensures
            r == self.current_map is Some,
    {
        self.current_map.is_some()
    }

    /// Set the area in view: `view_distance` around `center` on x and y, and from one
    /// level below to three above.
    pub fn update_visible_area(&mut self, center: Position3D, view_distance: i32)
        requires
            i32::MIN <= center.x - view_distance <= i32::MAX,
            i32::MIN <= center.x + view_distance <= i32::MAX,
            i32::MIN <= center.y - view_distance <= i32::MAX,
            i32::MIN <= center.y + view_distance <= i32::MAX,
            i32::MIN <= center.z - 1,
            center.z + 3 <= i32::MAX,
        ensures
            final(self).visible_area.0 == (Position3D { x: (center.x - view_distance) as i32, y: (center.y - view_distance) as i32, z: (center.z - 1) as i32 }),
            final(self).visible_area.1 == (Position3D { x: (center.x + view_distance) as i32, y: (center.y + view_distance) as i32, z: (center.z + 3) as i32 }),
            final(self).current_map == old(self).current_map,
            final(self).loaded_chunks == old(self).loaded_chunks,
    {
        self.visible_area = (
            Position3D::new(center.x - view_distance, center.y - view_distance, center.z - 1),
            Position3D::new(center.x + view_distance, center.y + view_distance, center.z + 3),
        );
    }

    /// Whether `position` lies in the area in view.
    pub fn is_visible(&self, position: Position3D) -> (r: bool)
        ensures
            r == (self.visible_area.0.x <= position.x <= self.visible_area.1.x
                && self.visible_area.0.y <= position.y <= self.visible_area.1.y
                && self.visible_area.0.z <= position.z <= self.visible_area.1.z),
    {
        let (min, max) = self.visible_area;
        position.x >= min.x && position.x <= max.x && position.y >= min.y && position.y <= max.y
            && position.z >= min.z && position.z <= max.z
    }

    /// Record that a chunk is loaded.
    pub fn mark_chunk_loaded(&mut self, chunk_x: i32, chunk_y: i32)
        ensures
            final(self).loaded_chunks@.to_set() == old(self).loaded_chunks@.to_set().insert((chunk_x, chunk_y)),
            final(self).current_map == old(self).current_map,
            final(self).visible_area == old(self).visible_area,
    {
        if !self.is_chunk_loaded(chunk_x, chunk_y) {
            let ghost before = self.loaded_chunks@;
            self.loaded_chunks.push((chunk_x, chunk_y));
            proof {
                assert(self.loaded_chunks@ == before.push((chunk_x, chunk_y)));
                assert(self.loaded_chunks@.to_set() =~= before.to_set().insert((chunk_x, chunk_y))) by {
                    assert forall|c: (i32, i32)| self.loaded_chunks@.contains(c) <==> (before.contains(c) || c == (chunk_x, chunk_y)) by {
                        if self.loaded_chunks@.contains(c) {
                            let k = choose|k: int| 0 <= k < self.loaded_chunks@.len() && self.loaded_chunks@[k] == c;
                            if k < before.len() {
                                assert(before[k] == c);
                            }
                        }
                        if before.contains(c) {
                            let k = choose|k: int| 0 <= k < before.len() && before[k] == c;
                            assert(self.loaded_chunks@[k] == c);
                        }
                        if c == (chunk_x, chunk_y) {
                            assert(self.loaded_chunks@[before.len() as int] == c);
                        }
                    }
                }
            }
        } else {
            assert(self.loaded_chunks@.to_set() =~= self.loaded_chunks@.to_set().insert((chunk_x, chunk_y)));
        }
    }

    /// Whether a chunk is loaded.
    pub fn is_chunk_loaded(&self, chunk_x: i32, chunk_y: i32) -> (r: bool)
        ensures
            r == self.loaded_chunks@.to_set().contains((chunk_x, chunk_y)),
    {
        let mut i: usize = 0;
        while i < self.loaded_chunks.len()
            invariant
                0 <= i <= self.loaded_chunks@.len(),
                forall|j: int| 0 <= j < i ==> self.loaded_chunks@[j] != (chunk_x, chunk_y),
            decreases self.loaded_chunks@.len() - i,
        {
            let (x, y) = self.loaded_chunks[i];
            if x == chunk_x && y == chunk_y {
                assert(self.loaded_chunks@[i as int] == (chunk_x, chunk_y));
                return true;
            }
            i = i + 1;
        }
        false
    }

    /// The terrain at a position: plains, whatever the position.
    pub fn terrain_at(&self, _position: Position3D) -> (r: Option<TerrainType>)
        ensures
            r == Some(TerrainType::Plains),
    {
        Some(TerrainType::Plains)
    }

    /// Create the map of the sector around `center_position`, its chunk of side 20
    /// generated; its name and seed come from the position.
    fn create_sector_map(center_position: Position3D) -> (r: WorldMap)
        requires
            abs(center_position.x as int) + abs(center_position.y as int) + 20 < i32::MAX,
        ensures
            r.spec_name() == sector_name(center_position),
            r.spec_seed() == sector_seed(center_position),
            generated_over(sector_seed(center_position), Map::empty(), Map::empty(),
                Set::new(|q: Position3D| in_chunk(center_position, 20, q)), r.tiles_view(), r.nodes_view()),
    {
        let x = center_position.x as i64;
        let y = center_position.y as i64;
        let bx: i64 = if x >= 0 { x / 100 } else { -((-x) / 100) };
        let by: i64 = if y >= 0 { y / 100 } else { -((-y) / 100) };
        let mut map_name = String::from_str("Sector ");
        append_signed_decimal(&mut map_name, bx);
        proof { reveal_strlit("-"); }
        map_name.append("-");
        append_signed_decimal(&mut map_name, by);
        proof {
            reveal_strlit("Sector ");
            assert(map_name@ =~= sector_name(center_position));
            lemma_sector_name_valid(center_position);
        }
        let seed = ((center_position.x as u64) << 32) | (center_position.y as u64);
        let mut new_map = WorldMap::new(EntityId::generate(), map_name, seed).unwrap();
        proof {
            assert(new_map.tiles_view() =~= Map::<crate::domain::value_objects::position::TileCoordinate, crate::domain::entities::map::MapTile>::empty());
            assert(new_map.nodes_view() =~= Map::<Position3D, crate::domain::entities::map::ResourceNode>::empty());
        }
        let map_service = MapService::new(seed);
        let _ = map_service.generate_chunk(&mut new_map, center_position, 20);
        new_map
    }

    /// The map held, created first as the map of the sector around `center_position`
    /// when none is held.
    pub fn get_or_create_map(&mut self, center_position: Position3D) -> (r: &WorldMap)
        requires
            abs(center_position.x as int) + abs(center_position.y as int) + 20 < i32::MAX,
        ensures
            old(self).current_map matches Some(m) ==> *r == m && final(self).current_map == old(self).current_map,
            old(self).current_map is None ==> final(self).current_map == Some(*r)
                && r.spec_name() == sector_name(center_position) && r.spec_seed() == sector_seed(center_position)
                && generated_over(sector_seed(center_position), Map::empty(), Map::empty(),
                    Set::new(|q: Position3D| in_chunk(center_position, 20, q)), r.tiles_view(), r.nodes_view()),
            final(self).loaded_chunks == old(self).loaded_chunks,
            final(self).visible_area == old(self).visible_area,
    {
        if self.current_map.is_none() {
            let new_map = Self::create_sector_map(center_position);
            self.current_map = Some(new_map);
        }
        self.current_map.as_ref().unwrap()
    }

    /// The map held, to change in place, created first as the map of the sector
    /// around `center_position` when none is held.
    pub fn get_or_create_map_mut(&mut self, center_position: Position3D) -> (r: &mut WorldMap)
        requires
            abs(center_position.x as int) + abs(center_position.y as int) + 20 < i32::MAX,
        ensures
            old(self).current_map matches Some(m) ==> *r == m,
            old(self).current_map is None ==> r.spec_name() == sector_name(center_position)
                && r.spec_seed() == sector_seed(center_position)
                && generated_over(sector_seed(center_position), Map::empty(), Map::empty(),
                    Set::new(|q: Position3D| in_chunk(center_position, 20, q)), r.tiles_view(), r.nodes_view()),
            final(self).current_map == Some(*final(r)),
            final(self).loaded_chunks == old(self).loaded_chunks,
            final(self).visible_area == old(self).visible_area,
    {
        if self.current_map.is_none() {
            let new_map = Self::create_sector_map(center_position);
            self.current_map = Some(new_map);
        }
        self.current_map.as_mut().unwrap()
    }
}

impl Default for MapResource {
    fn default() -> (r: Self)
        ensures
            r.current_map is None,
            r.loaded_chunks@.len() == 0,
    {
        Self::new()
    }
}

/// Counts of what happened in a game: quests, events, resources gathered by type,
/// dice rolls and their successes, tiles explored and experience gained.
#[derive(Debug, Clone, PartialEq)]
pub struct GameStatsResource {
    pub quests_completed: u32,
    pub events_triggered: u32,
    /// Units gathered, by the index of the resource type.
    pub resources_gathered: [i32; 8],
    pub dice_rolls_made: u32,
    pub successful_rolls: u32,
    pub critical_successes: u32,
    pub critical_failures: u32,
    pub tiles_explored: u32,
    pub experience_gained: u32,
}

/// Statistics with nothing counted.
pub open spec fn fresh_stats(s: GameStatsResource) -> bool {
    &&& s.quests_completed == 0
    &&& s.events_triggered == 0
    &&& s.dice_rolls_made == 0
    &&& s.successful_rolls == 0
    &&& s.critical_successes == 0
    &&& s.critical_failures == 0
    &&& s.tiles_explored == 0
    &&& s.experience_gained == 0
    &&& forall|t: ResourceType| #[trigger] s.gathered(t) == 0
}

impl GameStatsResource {
    /// Units gathered of a resource type (zero before any).
    pub open spec fn gathered(&self, t: ResourceType) -> i32 {
        self.resources_gathered@[t.index()]
    }

    /// Units gathered over all types.
    pub open spec fn spec_total_gathered(&self) -> int {
        sum_over_types(|t: ResourceType| self.gathered(t) as int, 8)
    }

    /// Whether the two hold the same counts, but maybe for the ones named by the
    /// flags.
    pub open spec fn same_except(&self, other: &Self, quests: bool, events: bool, resources: bool, rolls: bool, tiles: bool, experience: bool) -> bool {
        &&& !quests ==> self.quests_completed == other.quests_completed
        &&& !events ==> self.events_triggered == other.events_triggered
        &&& !resources ==> forall|t: ResourceType| #[trigger] self.gathered(t) == other.gathered(t)
        &&& !rolls ==> self.dice_rolls_made == other.dice_rolls_made && self.successful_rolls == other.successful_rolls
            && self.critical_successes == other.critical_successes && self.critical_failures == other.critical_failures
        &&& !tiles ==> self.tiles_explored == other.tiles_explored
        &&& !experience ==> self.experience_gained == other.experience_gained
    }

    /// Nothing counted.
    pub fn new() -> (r: Self)
        ensures
            fresh_stats(r),
    {
        GameStatsResource {
            quests_completed: 0,
            events_triggered: 0,
            resources_gathered: [0i32; 8],
            dice_rolls_made: 0,
            successful_rolls: 0,
            critical_successes: 0,
            critical_failures: 0,
            tiles_explored: 0,
            experience_gained: 0,
        }
    }

    /// Count a completed quest.
    pub fn record_quest_completion(&mut self)
        requires
            old(self).quests_completed < u32::MAX,
        ensures
            final(self).quests_completed == old(self).quests_completed + 1,
            final(self).same_except(&*old(self), true, false, false, false, false, false),
    {
        self.quests_completed = self.quests_completed + 1;
    }

    /// Count a triggered event.
    pub fn record_event_trigger(&mut self)
        requires
            old(self).events_triggered < u32::MAX,
        ensures
            final(self).events_triggered == old(self).events_triggered + 1,
            final(self).same_except(&*old(self), false, true, false, false, false, false),
    {
        self.events_triggered = self.events_triggered + 1;
    }

    /// Count `amount` units gathered of `resource_type` (the amount taken as an
    /// `i32`).
    pub fn record_resource_gather(&mut self, resource_type: ResourceType, amount: u32)
        requires
            i32::MIN <= old(self).gathered(resource_type) + (amount as i32) <= i32::MAX,
        ensures
            final(self).gathered(resource_type) == old(self).gathered(resource_type) + (amount as i32),
            forall|t: ResourceType| t != resource_type ==> #[trigger] final(self).gathered(t) == old(self).gathered(t),
            final(self).same_except(&*old(self), false, false, true, false, false, false),
    {
        let i = resource_type.to_index();
        let current = self.resources_gathered[i];
        self.resources_gathered.set(i, current + amount as i32);
        proof {
            assert forall|t: ResourceType| t != resource_type implies #[trigger] self.gathered(t) == old(self).gathered(t) by {
                assert(t.index() != resource_type.index());
            }
        }
    }

    /// Count a roll: a success at `success_threshold` or more, a critical success at
    /// the critical success threshold or more, otherwise a critical failure at the
    /// critical failure threshold or less.
    pub fn record_dice_roll(&mut self, dice_roll: &DiceRoll, success_threshold: u8)
        requires
            dice_roll.modifier.total_fits(),
            dice_roll.values().len() <= 255,
            old(self).dice_rolls_made < u32::MAX,
            dice_roll.spec_total() >= success_threshold ==> old(self).successful_rolls < u32::MAX,
            dice_roll.spec_total() >= CRITICAL_SUCCESS_THRESHOLD ==> old(self).critical_successes < u32::MAX,
            dice_roll.spec_total() <= CRITICAL_FAILURE_THRESHOLD ==> old(self).critical_failures < u32::MAX,
        ensures
            ({
                let total = dice_roll.spec_total();
                &&& final(self).dice_rolls_made == old(self).dice_rolls_made + 1
                &&& final(self).successful_rolls == old(self).successful_rolls + if total >= success_threshold { 1int } else { 0int }
                &&& final(self).critical_successes == old(self).critical_successes + if total >= CRITICAL_SUCCESS_THRESHOLD { 1int } else { 0int }
                &&& final(self).critical_failures == old(self).critical_failures
                    + if total < CRITICAL_SUCCESS_THRESHOLD && total <= CRITICAL_FAILURE_THRESHOLD { 1int } else { 0int }
            }),
            final(self).same_except(&*old(self), false, false, false, true, false, false),
    {
        self.dice_rolls_made = self.dice_rolls_made + 1;
        let total = dice_roll.total();
        if total >= success_threshold as i32 {
            self.successful_rolls = self.successful_rolls + 1;
        }
        if total >= CRITICAL_SUCCESS_THRESHOLD as i32 {
            self.critical_successes = self.critical_successes + 1;
        } else if total <= CRITICAL_FAILURE_THRESHOLD as i32 {
            self.critical_failures = self.critical_failures + 1;
        }
    }

    /// Count an explored tile.
    pub fn record_tile_explored(&mut self)
        requires
            old(self).tiles_explored < u32::MAX,
        ensures
            final(self).tiles_explored == old(self).tiles_explored + 1,
            final(self).same_except(&*old(self), false, false, false, false, true, false),
    {
        self.tiles_explored = self.tiles_explored + 1;
    }

    /// Count experience gained.
    pub fn record_experience_gain(&mut self, amount: u32)
        requires
            old(self).experience_gained + amount <= u32::MAX,
        ensures
            final(self).experience_gained == old(self).experience_gained + amount,
            final(self).same_except(&*old(self), false, false, false, false, false, true),
    {
        self.experience_gained = self.experience_gained + amount;
    }

    /// Forget everything counted.
    pub fn reset(&mut self)
        ensures
            fresh_stats(*final(self)),
    {
        *self = Self::new();
    }

    /// Units gathered over all types; the sum must fit an `i32`.
    pub fn total_resources_gathered(&self) -> (r: i32)
        requires
            i32::MIN <= self.spec_total_gathered() <= i32::MAX,
        ensures
            r == self.spec_total_gathered(),
    {
        let ghost f = |t: ResourceType| self.gathered(t) as int;
        let mut total: i64 = 0;
        let mut i: usize = 0;
        while i < 8
            invariant
                i <= 8,
                f == (|t: ResourceType| self.gathered(t) as int),
                total == sum_over_types(f, i as int),
                -(i as int) * 2147483648 <= total <= (i as int) * 2147483647,
            decreases 8 - i,
        {
            let t = ResourceType::from_index(i);
            total = total + self.resources_gathered[i] as i64;
            i = i + 1;
        }
        total as i32
    }

    /// Units gathered of `resource_type`.
    pub fn resources_gathered_for_type(&self, resource_type: ResourceType) -> (r: i32)
        ensures
            r == self.gathered(resource_type),
    {
        self.resources_gathered[resource_type.to_index()]
    }
}

impl Default for GameStatsResource {
    fn default() -> (r: Self)
        ensures
            fresh_stats(r),
    {
        Self::new()
    }
}

/// The turn and phase of a game and the game's clock.
#[derive(Debug, Clone, Copy, PartialEq)]
pub struct GameTurnState {
    pub game_time: GameTime,
    pub turn_number: u32,
    pub phase: GamePhase,
}

impl GameTurnState {
    /// The first turn, the player to play, the game's clock at zero.
    pub fn new() -> (r: Self)
        ensures
            r.turn_number == 1,
            r.phase == GamePhase::PlayerTurn,
            r.game_time.secs() == 0,
    {
        GameTurnState { game_time: GameTime::start_of_game(), turn_number: 1, phase: GamePhase::PlayerTurn }
    }

    /// Let `seconds` of play pass; the game's clock stands still while paused.
    pub fn advance(&mut self, seconds: u32)
        ensures
            final(self).turn_number == old(self).turn_number,
            final(self).phase == old(self).phase,
            old(self).phase == GamePhase::Paused ==> final(self).game_time == old(self).game_time,
            old(self).phase != GamePhase::Paused ==> final(self).game_time.secs() == sat_add(old(self).game_time.secs() as int, seconds as int),
    {
        if self.phase != GamePhase::Paused {
            self.game_time = self.game_time.advance_by_seconds(seconds);
        }
    }

    /// The next turn: the player plays, a turn's time passes.
    pub fn next_turn(&mut self)
        requires
            old(self).turn_number < u32::MAX,
        ensures
            final(self).turn_number == old(self).turn_number + 1,
            final(self).phase == GamePhase::PlayerTurn,
            final(self).game_time.secs() == sat_add(old(self).game_time.secs() as int, 60),
    {
        self.turn_number = self.turn_number + 1;
        self.phase = GamePhase::PlayerTurn;
        self.game_time = self.game_time.advance_by_turns(1);
    }

    /// Set the phase.
    pub fn set_phase(&mut self, phase: GamePhase)
        ensures
            *final(self) == (GameTurnState { phase, ..*old(self) }),
    {
        self.phase = phase;
    }

    /// Pause the game.
    pub fn pause(&mut self)
        ensures
            *final(self) == (GameTurnState { phase: GamePhase::Paused, ..*old(self) }),
    {
        self.phase = GamePhase::Paused;
    }

    /// Resume a paused game with the player to play; any other phase stays.
    pub fn resume(&mut self)
        ensures
            old(self).phase == GamePhase::Paused ==> *final(self) == (GameTurnState { phase: GamePhase::PlayerTurn, ..*old(self) }),
            old(self).phase != GamePhase::Paused ==> *final(self) == *old(self),
    {
        if self.phase == GamePhase::Paused {
            self.phase = GamePhase::PlayerTurn;
        }
    }

    /// Whether it is the player's turn.
    pub fn is_player_turn(&self) -> (r: bool)
        ensures
            r == (self.phase == GamePhase::PlayerTurn),
    {
        self.phase == GamePhase::PlayerTurn
    }
}

} // verus!
