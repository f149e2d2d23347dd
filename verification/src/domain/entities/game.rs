//! A game session: turns and their phases, time, difficulty and statistics.
use crate::clock::utc_now_millis;
use crate::domain::value_objects::{sat_add, EntityId, GameTime, Position3D};
use crate::domain::{clamp_int, next_version, DomainError, DomainResult, GamePhase, Score, WorldBoundaries};
use crate::text::{byte_len, utf8_len};
use vstd::prelude::*;

verus! {

/// Difficulty of a session.
#[derive(Debug, Clone, Copy, PartialEq, Eq, Structural)]
pub enum DifficultyLevel {
    Easy,
    Normal,
    Hard,
    Expert,
    Nightmare,
}

impl DifficultyLevel {
    /// Display name of the level.
    pub open spec fn spec_name(self) -> Seq<char> {
        match self {
            DifficultyLevel::Easy => "Easy"@,
            DifficultyLevel::Normal => "Normal"@,
            DifficultyLevel::Hard => "Hard"@,
            DifficultyLevel::Expert => "Expert"@,
            DifficultyLevel::Nightmare => "Nightmare"@,
        }
    }

    /// Display name of the level.
    pub fn to_string(&self) -> (r: String)
        ensures
            r@ == self.spec_name(),
    {
        let s = match self {
            DifficultyLevel::Easy => "Easy",
            DifficultyLevel::Normal => "Normal",
            DifficultyLevel::Hard => "Hard",
            DifficultyLevel::Expert => "Expert",
            DifficultyLevel::Nightmare => "Nightmare",
        };
        String::from_str(s)
    }
}

impl Default for DifficultyLevel {
    fn default() -> (r: Self)
        ensures
            r == DifficultyLevel::Normal,
    {
        DifficultyLevel::Normal
    }
}

/// Options of a session; the two multipliers are in percent (100 is normal).
#[derive(Debug, Clone, Copy, PartialEq, Eq, Structural)]
pub struct SessionSettings {
    pub auto_save_enabled: bool,
    pub auto_save_interval_minutes: u32,
    pub event_frequency_percent: u32,
    pub resource_regeneration_percent: u32,
    pub permadeath_enabled: bool,
    pub fog_of_war_enabled: bool,
}

impl Default for SessionSettings {
    fn default() -> (r: Self)
        ensures
            r == (SessionSettings {
                auto_save_enabled: true,
                auto_save_interval_minutes: 5,
                event_frequency_percent: 100,
                resource_regeneration_percent: 100,
                permadeath_enabled: false,
                fog_of_war_enabled: true,
            }),
    {
        SessionSettings {
            auto_save_enabled: true,
            auto_save_interval_minutes: 5,
            event_frequency_percent: 100,
            resource_regeneration_percent: 100,
            permadeath_enabled: false,
            fog_of_war_enabled: true,
        }
    }
}

/// Kinds of player action.
#[derive(Debug, Clone, Copy, PartialEq, Eq, Hash, Structural)]
pub enum ActionType {
    Move,
    GatherResources,
    BuildStructure,
    Rest,
    Explore,
    UseItem,
    Trade,
    Combat,
    Craft,
    Research,
}

/// Position of an action type in declaration order.
pub open spec fn action_index(a: ActionType) -> int {
    match a {
        ActionType::Move => 0,
        ActionType::GatherResources => 1,
        ActionType::BuildStructure => 2,
        ActionType::Rest => 3,
        ActionType::Explore => 4,
        ActionType::UseItem => 5,
        ActionType::Trade => 6,
        ActionType::Combat => 7,
        ActionType::Craft => 8,
        ActionType::Research => 9,
    }
}

fn action_position(a: ActionType) -> (r: usize)
    ensures
        r == action_index(a),
{
    match a {
        ActionType::Move => 0,
        ActionType::GatherResources => 1,
        ActionType::BuildStructure => 2,
        ActionType::Rest => 3,
        ActionType::Explore => 4,
        ActionType::UseItem => 5,
        ActionType::Trade => 6,
        ActionType::Combat => 7,
        ActionType::Craft => 8,
        ActionType::Research => 9,
    }
}

impl ActionType {
    /// Display name of the action.
    pub open spec fn spec_name(self) -> Seq<char> {
        match self {
            ActionType::Move => "Move"@,
            ActionType::GatherResources => "Gather Resources"@,
            ActionType::BuildStructure => "Build Structure"@,
            ActionType::Rest => "Rest"@,
            ActionType::Explore => "Explore"@,
            ActionType::UseItem => "Use Item"@,
            ActionType::Trade => "Trade"@,
            ActionType::Combat => "Combat"@,
            ActionType::Craft => "Craft"@,
            ActionType::Research => "Research"@,
        }
    }

    /// Display name of the action.
    pub fn to_string(&self) -> (r: String)
        ensures
            r@ == self.spec_name(),
    {
        let s = match self {
            ActionType::Move => "Move",
            ActionType::GatherResources => "Gather Resources",
            ActionType::BuildStructure => "Build Structure",
            ActionType::Rest => "Rest",
            ActionType::Explore => "Explore",
            ActionType::UseItem => "Use Item",
            ActionType::Trade => "Trade",
            ActionType::Combat => "Combat",
            ActionType::Craft => "Craft",
            ActionType::Research => "Research",
        };
        String::from_str(s)
    }
}

/// Sum of the first `n` counters.
pub open spec fn counter_sum(c: Seq<u32>, n: int) -> int
    decreases n,
{
    if n <= 0 { 0 } else { counter_sum(c, n - 1) + c[n - 1] }
}

/// What happened during a session.
#[derive(Debug, Clone, PartialEq, Eq)]
pub struct GameStatistics {
    pub actions_taken: [u32; 10],
    pub total_distance_traveled: u32,
    pub total_resources_gathered: u32,
    pub total_experience_gained: u32,
    pub experience_earned: u32,
    pub events_encountered: u32,
    pub quests_completed: u32,
    pub game_started_at: i64,
    pub game_ended_at: Option<i64>,
}

impl GameStatistics {
    /// How many actions of a kind were taken.
    pub closed spec fn actions(&self, a: ActionType) -> u32 {
        self.actions_taken@[action_index(a)]
    }

    /// The total number of actions taken.
    pub closed spec fn spec_total_actions(&self) -> int {
        counter_sum(self.actions_taken@, 10)
    }

    /// Statistics of a session starting now.
    pub fn new() -> (r: Self)
        ensures
            forall|a: ActionType| #[trigger] r.actions(a) == 0,
            r.spec_total_actions() == 0,
            r.total_distance_traveled == 0 && r.total_resources_gathered == 0 && r.total_experience_gained == 0
                && r.experience_earned == 0 && r.events_encountered == 0 && r.quests_completed == 0,
            r.game_ended_at is None,
    {
        let r = GameStatistics {
            actions_taken: [0u32; 10],
            total_distance_traveled: 0,
            total_resources_gathered: 0,
            total_experience_gained: 0,
            experience_earned: 0,
            events_encountered: 0,
            quests_completed: 0,
            game_started_at: utc_now_millis(),
            game_ended_at: None,
        };
        proof {
            reveal_with_fuel(counter_sum, 11);
        }
        r
    }

    /// Count one more action of a kind.
    pub fn record_action(&mut self, action_type: ActionType)
        requires
            old(self).actions(action_type) < u32::MAX,
        ensures
            final(self).actions(action_type) == old(self).actions(action_type) + 1,
            forall|a: ActionType| a != action_type ==> #[trigger] final(self).actions(a) == old(self).actions(a),
            final(self).spec_total_actions() == old(self).spec_total_actions() + 1,
    {
        let i = action_position(action_type);
        let current = self.actions_taken[i];
        self.actions_taken.set(i, current + 1);
        proof {
            lemma_counter_sum_update(old(self).actions_taken@, i as int, current as int + 1, 10);
            assert forall|a: ActionType| a != action_type implies #[trigger] self.actions(a) == old(self).actions(a) by {
                assert(action_index(a) != action_index(action_type));
            }
        }
    }

    /// How many actions of a kind were taken.
    pub fn actions_count(&self, action_type: ActionType) -> (r: u32)
        ensures
            r == self.actions(action_type),
    {
        self.actions_taken[action_position(action_type)]
    }

    /// The total number of actions taken.
    pub fn total_actions(&self) -> (r: u32)
        requires
            self.spec_total_actions() <= u32::MAX,
        ensures
            r == self.spec_total_actions(),
    {
        let mut total: u64 = 0;
        let mut i: usize = 0;
        while i < 10
            invariant
                0 <= i <= 10,
                total == counter_sum(self.actions_taken@, i as int),
                total <= u32::MAX * i,
            decreases 10 - i,
        {
            total = total + self.actions_taken[i] as u64;
            i = i + 1;
        }
        proof {
            lemma_counter_sum_monotone(self.actions_taken@, 10);
        }
        total as u32
    }

    /// Add travelled distance.
    pub fn add_distance(&mut self, distance: u32)
        requires
            old(self).total_distance_traveled + distance <= u32::MAX,
        ensures
            final(self).total_distance_traveled == old(self).total_distance_traveled + distance,
    {
        self.total_distance_traveled = self.total_distance_traveled + distance;
    }

    /// Add gathered resources.
    pub fn add_resources_gathered(&mut self, amount: u32)
        requires
            old(self).total_resources_gathered + amount <= u32::MAX,
        ensures
            final(self).total_resources_gathered == old(self).total_resources_gathered + amount,
    {
        self.total_resources_gathered = self.total_resources_gathered + amount;
    }

    /// Add gained experience.
    pub fn add_experience(&mut self, experience: u32)
        requires
            old(self).total_experience_gained + experience <= u32::MAX,
        ensures
            final(self).total_experience_gained == old(self).total_experience_gained + experience,
    {
        self.total_experience_gained = self.total_experience_gained + experience;
    }

    /// Count an event met.
    pub fn record_event(&mut self)
        requires
            old(self).events_encountered < u32::MAX,
        ensures
            final(self).events_encountered == old(self).events_encountered + 1,
    {
        self.events_encountered = self.events_encountered + 1;
    }

    /// Count a completed quest.
    pub fn record_quest_completion(&mut self)
        requires
            old(self).quests_completed < u32::MAX,
        ensures
            final(self).quests_completed == old(self).quests_completed + 1,
    {
        self.quests_completed = self.quests_completed + 1;
    }
}

impl Default for GameStatistics {
    fn default() -> (r: Self)
        ensures
            r.spec_total_actions() == 0,
    {
        Self::new()
    }
}

proof fn lemma_counter_sum_update(c: Seq<u32>, i: int, v: int, n: int)
    requires
        0 <= i < c.len(),
        n <= c.len(),
        0 <= v <= u32::MAX,
    ensures
        counter_sum(c.update(i, v as u32), n) == counter_sum(c, n) + (if i < n { v - c[i] } else { 0 }),
    decreases n,
{
    if n > 0 {
        lemma_counter_sum_update(c, i, v, n - 1);
    }
}

proof fn lemma_counter_sum_monotone(c: Seq<u32>, n: int)
    requires
        n <= c.len(),
    ensures
        forall|k: int| 0 <= k <= n ==> counter_sum(c, k) <= counter_sum(c, n),
    decreases n,
{
    if n > 0 {
        lemma_counter_sum_monotone(c, n - 1);
    }
}

/// The phase that follows a phase, or none when play is paused or over.
pub open spec fn next_phase(p: GamePhase) -> Option<GamePhase> {
    match p {
        GamePhase::PlayerTurn => Some(GamePhase::Processing),
        GamePhase::Processing => Some(GamePhase::EventPhase),
        GamePhase::EventPhase => Some(GamePhase::EndTurn),
        GamePhase::EndTurn => Some(GamePhase::PlayerTurn),
        GamePhase::Paused => None,
        GamePhase::GameOver => None,
    }
}

/// `v`, kept within the range of an `i64`.
pub open spec fn saturated_i64(v: int) -> i64 {
    if v > i64::MAX { i64::MAX } else if v < i64::MIN { i64::MIN } else { v as i64 }
}

/// A summary of a session for display.
#[derive(Debug, Clone, PartialEq)]
pub struct GameSessionSummary {
    pub session_name: String,
    pub turn_number: u32,
    pub current_phase: GamePhase,
    pub game_time: GameTime,
    pub difficulty_level: DifficultyLevel,
    pub total_actions: u32,
    pub session_duration: i64,
}

/// A game session.
#[derive(Debug, Clone, PartialEq)]
pub struct GameSession {
    id: EntityId,
    session_name: String,
    player_id: EntityId,
    map_id: EntityId,
    current_phase: GamePhase,
    turn_number: u32,
    game_time: GameTime,
    world_boundaries: WorldBoundaries,
    difficulty_level: DifficultyLevel,
    session_settings: SessionSettings,
    statistics: GameStatistics,
    created_at: i64,
    last_updated: i64,
    version: u64,
}

/// Whether a session name has from 1 to 100 bytes.
pub open spec fn valid_session_name(name: Seq<char>) -> bool {
    name.len() > 0 && utf8_len(name) <= 100
}

impl GameSession {
    /// The name of the session.
    pub closed spec fn spec_name(&self) -> Seq<char> { self.session_name@ }

    /// The identity of the session.
    pub closed spec fn spec_id(&self) -> EntityId { self.id }

    /// The player of the session.
    pub closed spec fn spec_player_id(&self) -> EntityId { self.player_id }

    /// The map of the session.
    pub closed spec fn spec_map_id(&self) -> EntityId { self.map_id }

    /// The current phase.
    pub closed spec fn spec_phase(&self) -> GamePhase { self.current_phase }

    /// The current turn, from 1.
    pub closed spec fn spec_turn(&self) -> u32 { self.turn_number }

    /// The game time elapsed.
    pub closed spec fn spec_game_time(&self) -> GameTime { self.game_time }

    /// The world's boundaries.
    pub closed spec fn spec_boundaries(&self) -> WorldBoundaries { self.world_boundaries }

    /// The difficulty.
    pub closed spec fn spec_difficulty(&self) -> DifficultyLevel { self.difficulty_level }

    /// The options.
    pub closed spec fn spec_settings(&self) -> SessionSettings { self.session_settings }

    /// The statistics.
    pub closed spec fn spec_statistics(&self) -> GameStatistics { self.statistics }

    /// Number of changes made to the session.
    pub closed spec fn spec_version(&self) -> u64 { self.version }

    /// When the session was created, in milliseconds since the epoch.
    pub closed spec fn spec_created_at(&self) -> i64 { self.created_at }

    /// Everything but the phase, turn, time, statistics and version agree.
    pub open spec fn same_setup(&self, other: &GameSession) -> bool {
        &&& self.spec_name() == other.spec_name()
        &&& self.spec_player_id() == other.spec_player_id()
        &&& self.spec_map_id() == other.spec_map_id()
        &&& self.spec_boundaries() == other.spec_boundaries()
        &&& self.spec_difficulty() == other.spec_difficulty()
        &&& self.spec_settings() == other.spec_settings()
    }

    /// A new session at the player's turn of turn 1, time zero; the name must have
    /// 1 to 100 bytes.
    pub fn new(session_name: String, player_id: EntityId, map_id: EntityId, difficulty_level: DifficultyLevel, world_boundaries: WorldBoundaries) -> (r: DomainResult<Self>)
        ensures
            r is Ok <==> valid_session_name(session_name@),
            r is Err ==> r matches Err(DomainError::ValidationError(_)),
            r matches Ok(s) ==> s.spec_name() == session_name@ && s.spec_player_id() == player_id && s.spec_map_id() == map_id
                && s.spec_phase() == GamePhase::PlayerTurn && s.spec_turn() == 1 && s.spec_game_time().secs() == 0
                && s.spec_boundaries() == world_boundaries && s.spec_difficulty() == difficulty_level
                && s.spec_statistics().spec_total_actions() == 0 && s.spec_statistics().experience_earned == 0
                && s.spec_version() == 1,
    {
        if session_name.as_str().is_empty() || byte_len(session_name.as_str()) > 100 {
            return Err(DomainError::ValidationError(String::from_str("Session name must be between 1 and 100 characters")));
        }
        let now = utc_now_millis();
        Ok(GameSession {
            id: EntityId::generate(),
            session_name,
            player_id,
            map_id,
            current_phase: GamePhase::PlayerTurn,
            turn_number: 1,
            game_time: GameTime::new(0),
            world_boundaries,
            difficulty_level,
            session_settings: SessionSettings::default(),
            statistics: GameStatistics::new(),
            created_at: now,
            last_updated: now,
            version: 1,
        })
    }

    /// The identity of the session.
    pub fn id(&self) -> (r: &EntityId)
        ensures
            *r == self.spec_id(),
    {
        &self.id
    }

    /// The name of the session.
    pub fn session_name(&self) -> (r: &str)
        ensures r@ == self.spec_name(),
    {
        self.session_name.as_str()
    }

    /// The player of the session.
    pub fn player_id(&self) -> (r: &EntityId)
        ensures *r == self.spec_player_id(),
    {
        &self.player_id
    }

    /// The map of the session.
    pub fn map_id(&self) -> (r: &EntityId)
        ensures *r == self.spec_map_id(),
    {
        &self.map_id
    }

    /// The current phase.
    pub fn current_phase(&self) -> (r: GamePhase)
        ensures r == self.spec_phase(),
    {
        self.current_phase
    }

    /// The current turn.
    pub fn turn_number(&self) -> (r: u32)
        ensures r == self.spec_turn(),
    {
        self.turn_number
    }

    /// The game time elapsed.
    pub fn game_time(&self) -> (r: GameTime)
        ensures r == self.spec_game_time(),
    {
        self.game_time
    }

    /// The world's boundaries.
    pub fn world_boundaries(&self) -> (r: &WorldBoundaries)
        ensures *r == self.spec_boundaries(),
    {
        &self.world_boundaries
    }

    /// The difficulty.
    pub fn difficulty_level(&self) -> (r: DifficultyLevel)
        ensures r == self.spec_difficulty(),
    {
        self.difficulty_level
    }

    /// The options.
    pub fn session_settings(&self) -> (r: &SessionSettings)
        ensures *r == self.spec_settings(),
    {
        &self.session_settings
    }

    /// The statistics.
    pub fn statistics(&self) -> (r: &GameStatistics)
        ensures *r == self.spec_statistics(),
    {
        &self.statistics
    }

    /// Start (or restart) play at the player's turn; fails once the game is over.
    pub fn start(&mut self) -> (r: DomainResult<()>)
        ensures
            r is Ok <==> old(self).spec_phase() != GamePhase::GameOver,
            r is Err ==> (r matches Err(DomainError::InvalidGameState(_))) && *final(self) == *old(self),
            r is Ok ==> final(self).spec_phase() == GamePhase::PlayerTurn && final(self).spec_turn() == old(self).spec_turn()
                && final(self).spec_version() == next_version(old(self).spec_version()) && final(self).same_setup(&*old(self))
                && final(self).spec_statistics() == old(self).spec_statistics(),
    {
        if self.current_phase == GamePhase::GameOver {
            return Err(DomainError::InvalidGameState(String::from_str("Cannot start game that is over")));
        }
        self.current_phase = GamePhase::PlayerTurn;
        self.update_timestamp();
        Ok(())
    }

    /// End the game.
    pub fn end(&mut self) -> (r: DomainResult<()>)
        ensures
            r is Ok,
            final(self).spec_phase() == GamePhase::GameOver,
            final(self).spec_statistics().game_ended_at is Some,
            final(self).spec_statistics().experience_earned == old(self).spec_statistics().experience_earned,
            final(self).spec_version() == next_version(old(self).spec_version()),
            final(self).same_setup(&*old(self)),
    {
        self.end_game()
    }

    /// Whether play goes on: not paused and not over.
    pub fn is_active(&self) -> (r: bool)
        ensures r == !(self.spec_phase() == GamePhase::GameOver || self.spec_phase() == GamePhase::Paused),
    {
        !(self.current_phase == GamePhase::GameOver || self.current_phase == GamePhase::Paused)
    }

    /// Experience earned in the session.
    pub fn experience_points(&self) -> (r: u32)
        ensures r == self.spec_statistics().experience_earned,
    {
        self.statistics.experience_earned
    }

    /// Earn experience (saturating).
    pub fn add_experience(&mut self, points: u32) -> (r: DomainResult<()>)
        ensures
            r is Ok,
            final(self).spec_statistics().experience_earned == sat_add(old(self).spec_statistics().experience_earned as int, points as int),
            final(self).spec_phase() == old(self).spec_phase(),
            final(self).spec_turn() == old(self).spec_turn(),
            final(self).spec_version() == next_version(old(self).spec_version()),
            final(self).same_setup(&*old(self)),
    {
        self.statistics.experience_earned = self.statistics.experience_earned.saturating_add(points);
        self.update_timestamp();
        Ok(())
    }

    /// The score of the session: the experience earned.
    pub fn score(&self) -> (r: Score)
        ensures r.points() == self.spec_statistics().experience_earned,
    {
        match Score::new(self.statistics.experience_earned) {
            Ok(s) => s,
            Err(_) => Score::zero(),
        }
    }

    /// Earn points, as experience.
    pub fn add_points(&mut self, points: u32) -> (r: DomainResult<()>)
        ensures
            r is Ok,
            final(self).spec_statistics().experience_earned == sat_add(old(self).spec_statistics().experience_earned as int, points as int),
            final(self).spec_phase() == old(self).spec_phase(),
            final(self).spec_version() == next_version(old(self).spec_version()),
    {
        self.add_experience(points)
    }

    /// Whether it is the player's turn.
    pub fn is_player_turn(&self) -> (r: bool)
        ensures r == (self.spec_phase() == GamePhase::PlayerTurn),
    {
        self.current_phase == GamePhase::PlayerTurn
    }

    /// Whether play is paused.
    pub fn is_paused(&self) -> (r: bool)
        ensures r == (self.spec_phase() == GamePhase::Paused),
    {
        self.current_phase == GamePhase::Paused
    }

    /// Whether the game is over.
    pub fn is_game_over(&self) -> (r: bool)
        ensures r == (self.spec_phase() == GamePhase::GameOver),
    {
        self.current_phase == GamePhase::GameOver
    }

    /// Move to the next phase of the turn; ending a turn starts the next one, a
    /// minute of game time later. Fails while paused or once the game is over.
    pub fn advance_phase(&mut self) -> (r: DomainResult<GamePhase>)
        requires
            old(self).spec_phase() == GamePhase::EndTurn ==> old(self).spec_turn() < u32::MAX,
        ensures
            r is Ok <==> next_phase(old(self).spec_phase()) is Some,
            r is Err ==> (r matches Err(DomainError::InvalidGameState(_))) && *final(self) == *old(self),
            r matches Ok(p) ==> Some(p) == next_phase(old(self).spec_phase()) && final(self).spec_phase() == p
                && final(self).spec_version() == next_version(old(self).spec_version())
                && final(self).same_setup(&*old(self))
                && final(self).spec_statistics() == old(self).spec_statistics(),
            r matches Ok(p) ==> (old(self).spec_phase() == GamePhase::EndTurn ==> final(self).spec_turn() == old(self).spec_turn() + 1
                && final(self).spec_game_time().secs() == sat_add(old(self).spec_game_time().secs() as int, 60)),
            r matches Ok(p) ==> (old(self).spec_phase() != GamePhase::EndTurn ==> final(self).spec_turn() == old(self).spec_turn()
                && final(self).spec_game_time() == old(self).spec_game_time()),
    {
        let next = match self.current_phase {
            GamePhase::PlayerTurn => GamePhase::Processing,
            GamePhase::Processing => GamePhase::EventPhase,
            GamePhase::EventPhase => GamePhase::EndTurn,
            GamePhase::EndTurn => {
                self.turn_number = self.turn_number + 1;
                self.game_time = self.game_time.add(GameTime::from_minutes(1));
                GamePhase::PlayerTurn
            },
            GamePhase::Paused => {
                return Err(DomainError::InvalidGameState(String::from_str("Cannot advance phase while paused")));
            },
            GamePhase::GameOver => {
                return Err(DomainError::InvalidGameState(String::from_str("Cannot advance phase when game is over")));
            },
        };
        self.current_phase = next;
        self.update_timestamp();
        Ok(next)
    }

    /// Pause play; fails once the game is over.
    pub fn pause(&mut self) -> (r: DomainResult<()>)
        ensures
            r is Ok <==> old(self).spec_phase() != GamePhase::GameOver,
            r is Err ==> (r matches Err(DomainError::InvalidGameState(_))) && *final(self) == *old(self),
            r is Ok ==> final(self).spec_phase() == GamePhase::Paused && final(self).spec_turn() == old(self).spec_turn()
                && final(self).spec_game_time() == old(self).spec_game_time()
                && final(self).spec_version() == next_version(old(self).spec_version()) && final(self).same_setup(&*old(self))
                && final(self).spec_statistics() == old(self).spec_statistics(),
    {
        if self.current_phase == GamePhase::GameOver {
            return Err(DomainError::InvalidGameState(String::from_str("Cannot pause game that is over")));
        }
        self.current_phase = GamePhase::Paused;
        self.update_timestamp();
        Ok(())
    }

    /// Resume paused play at the player's turn; fails when not paused.
    pub fn resume(&mut self) -> (r: DomainResult<()>)
        ensures
            r is Ok <==> old(self).spec_phase() == GamePhase::Paused,
            r is Err ==> (r matches Err(DomainError::InvalidGameState(_))) && *final(self) == *old(self),
            r is Ok ==> final(self).spec_phase() == GamePhase::PlayerTurn && final(self).spec_turn() == old(self).spec_turn()
                && final(self).spec_game_time() == old(self).spec_game_time()
                && final(self).spec_version() == next_version(old(self).spec_version()) && final(self).same_setup(&*old(self))
                && final(self).spec_statistics() == old(self).spec_statistics(),
    {
        if self.current_phase != GamePhase::Paused {
            return Err(DomainError::InvalidGameState(String::from_str("Game is not paused")));
        }
        self.current_phase = GamePhase::PlayerTurn;
        self.update_timestamp();
        Ok(())
    }

    /// End the game, recording when.
    pub fn end_game(&mut self) -> (r: DomainResult<()>)
        ensures
            r is Ok,
            final(self).spec_phase() == GamePhase::GameOver,
            final(self).spec_statistics().game_ended_at is Some,
            final(self).spec_statistics().experience_earned == old(self).spec_statistics().experience_earned,
            final(self).spec_turn() == old(self).spec_turn(),
            final(self).spec_version() == next_version(old(self).spec_version()),
            final(self).same_setup(&*old(self)),
    {
        self.current_phase = GamePhase::GameOver;
        self.statistics.game_ended_at = Some(utc_now_millis());
        self.update_timestamp();
        Ok(())
    }

    /// Replace the options.
    pub fn update_settings(&mut self, settings: SessionSettings) -> (r: DomainResult<()>)
        ensures
            r is Ok,
            final(self).spec_settings() == settings,
            final(self).spec_phase() == old(self).spec_phase(),
            final(self).spec_version() == next_version(old(self).spec_version()),
    {
        self.session_settings = settings;
        self.update_timestamp();
        Ok(())
    }

    /// Count an action.
    pub fn record_action(&mut self, action_type: ActionType)
        requires
            old(self).spec_statistics().actions(action_type) < u32::MAX,
        ensures
            final(self).spec_statistics().actions(action_type) == old(self).spec_statistics().actions(action_type) + 1,
            final(self).spec_statistics().spec_total_actions() == old(self).spec_statistics().spec_total_actions() + 1,
            final(self).spec_phase() == old(self).spec_phase(),
            final(self).spec_version() == next_version(old(self).spec_version()),
    {
        self.statistics.record_action(action_type);
        self.update_timestamp();
    }

    /// Let game time pass (saturating).
    pub fn add_game_time(&mut self, additional_time: GameTime)
        ensures
            final(self).spec_game_time().secs() == sat_add(old(self).spec_game_time().secs() as int, additional_time.secs() as int),
            final(self).spec_phase() == old(self).spec_phase(),
            final(self).spec_version() == next_version(old(self).spec_version()),
    {
        self.game_time = self.game_time.add(additional_time);
        self.update_timestamp();
    }

    /// Whether a position lies inside the world.
    pub fn is_position_valid(&self, position: &Position3D) -> (r: bool)
        ensures r == self.spec_boundaries().spec_contains(*position),
    {
        self.world_boundaries.contains(position)
    }

    /// A position clamped into the world.
    pub fn clamp_position(&self, position: Position3D) -> (r: Position3D)
        requires
            self.spec_boundaries().well_ordered(),
        ensures
            r.x == clamp_int(position.x as int, self.spec_boundaries().min_x as int, self.spec_boundaries().max_x as int),
            r.y == clamp_int(position.y as int, self.spec_boundaries().min_y as int, self.spec_boundaries().max_y as int),
            r.z == clamp_int(position.z as int, self.spec_boundaries().min_z as int, self.spec_boundaries().max_z as int),
            self.spec_boundaries().spec_contains(r),
    {
        self.world_boundaries.clamp(position)
    }

    /// Milliseconds since the session was created, by the clock (saturating): the
    /// time from the creation to some clock reading (which one, no contract states).
    pub fn session_duration(&self) -> (r: i64)
        ensures
            exists|now: i64| r == #[trigger] saturated_i64(now - self.spec_created_at()),
    {
        let now = utc_now_millis();
        let diff: i128 = now as i128 - self.created_at as i128;
        let r = if diff > i64::MAX as i128 {
            i64::MAX
        } else if diff < i64::MIN as i128 {
            i64::MIN
        } else {
            diff as i64
        };
        assert(r == saturated_i64(now - self.spec_created_at()));
        r
    }

    /// Number of changes made to the session.
    pub fn version(&self) -> (r: u64)
        ensures r == self.spec_version(),
    {
        self.version
    }

    fn update_timestamp(&mut self)
        ensures
            final(self).spec_version() == next_version(old(self).spec_version()),
            final(self).spec_phase() == old(self).spec_phase(),
            final(self).spec_turn() == old(self).spec_turn(),
            final(self).spec_game_time() == old(self).spec_game_time(),
            final(self).spec_statistics() == old(self).spec_statistics(),
            final(self).same_setup(&*old(self)),
            final(self).id == old(self).id,
            final(self).created_at == old(self).created_at,
    {
        self.last_updated = utc_now_millis();
        self.version = if self.version < u64::MAX { self.version + 1 } else { 0 };
    }

    /// A summary for display.
    pub fn summary(&self) -> (r: GameSessionSummary)
        requires
            self.spec_statistics().spec_total_actions() <= u32::MAX,
        ensures
            r.session_name@ == self.spec_name(),
            r.turn_number == self.spec_turn(),
            r.current_phase == self.spec_phase(),
            r.game_time == self.spec_game_time(),
            r.difficulty_level == self.spec_difficulty(),
            r.total_actions == self.spec_statistics().spec_total_actions(),
    {
        GameSessionSummary {
            session_name: self.session_name.clone(),
            turn_number: self.turn_number,
            current_phase: self.current_phase,
            game_time: self.game_time,
            difficulty_level: self.difficulty_level,
            total_actions: self.statistics.total_actions(),
            session_duration: self.session_duration(),
        }
    }
}

/// The phase reached after `n` advances, or none when an advance is refused on the way.
pub open spec fn after_phases(p: GamePhase, n: nat) -> Option<GamePhase>
    decreases n,
{
    if n == 0 {
        Some(p)
    } else {
        match next_phase(p) {
            Some(q) => after_phases(q, (n - 1) as nat),
            None => None,
        }
    }
}

/// The four phases of a turn follow one another in a cycle: from any of them, four
/// advances come back to it and fewer do not; a paused or finished game does not
/// advance at all.
pub proof fn turn_phases_cycle(p: GamePhase)
    ensures
        p != GamePhase::Paused && p != GamePhase::GameOver ==> {
            &&& after_phases(p, 4) == Some(p)
            &&& after_phases(p, 1) != Some(p)
            &&& after_phases(p, 2) != Some(p)
            &&& after_phases(p, 3) != Some(p)
            &&& after_phases(p, 1) is Some && after_phases(p, 2) is Some && after_phases(p, 3) is Some
        },
        p == GamePhase::Paused || p == GamePhase::GameOver ==> next_phase(p) is None,
{
    reveal_with_fuel(after_phases, 5);
}

} // verus!
