//! The running game sessions, by identifier.
use crate::table::{find_key, key_views, str_table, views_unique};
use crate::application::{ApplicationError, ApplicationResult};
use crate::domain::entities::game::{valid_session_name, DifficultyLevel, GameSession};
use crate::domain::entities::map::{lemma_entries_dom, lemma_entries_push, lemma_entries_remove, lemma_entries_update, lemma_entries_value};
use crate::domain::value_objects::{sat_add, EntityId};
use crate::domain::{next_version, DomainError, DomainResult, GamePhase, Score, WorldBoundaries};
use vstd::prelude::*;

verus! {

/// Whether `s` is a session just created under the name `name`: the player's turn of
/// turn 1 at time zero, normal difficulty, standard boundaries, nothing done yet.
pub open spec fn fresh_session(s: GameSession, name: Seq<char>) -> bool {
    &&& s.spec_name() == name
    &&& s.spec_phase() == GamePhase::PlayerTurn
    &&& s.spec_turn() == 1
    &&& s.spec_game_time().secs() == 0
    &&& s.spec_difficulty() == DifficultyLevel::Normal
    &&& s.spec_boundaries() == WorldBoundaries::standard_spec()
    &&& s.spec_statistics().spec_total_actions() == 0
    &&& s.spec_statistics().experience_earned == 0
    &&& s.spec_version() == 1
}

/// The running game sessions, by identifier.
pub struct GameSessionService {
    active_sessions: Vec<(String, GameSession)>,
}

proof fn lemma_unique_views(s: Seq<(String, GameSession)>)
    requires
        views_unique(s),
    ensures
        forall|a: int, b: int| 0 <= a < b < key_views(s).len() ==> (#[trigger] key_views(s)[a]).0 != (#[trigger] key_views(s)[b]).0,
{
    assert forall|a: int, b: int| 0 <= a < b < key_views(s).len() implies (#[trigger] key_views(s)[a]).0 != (#[trigger] key_views(s)[b]).0 by {
        assert(s[a].0@ != s[b].0@);
    }
}

impl GameSessionService {
    #[verifier::type_invariant]
    spec fn well_formed(&self) -> bool {
        views_unique(self.active_sessions@)
    }

    /// The sessions, each identifier once, in the order they were created.
    pub closed spec fn entries(&self) -> Seq<(String, GameSession)> {
        self.active_sessions@
    }

    /// The sessions by identifier.
    pub open spec fn sessions(&self) -> Map<Seq<char>, GameSession> {
        str_table(self.entries())
    }

    /// No session.
    pub fn new() -> (r: Self)
        ensures
            r.sessions() == Map::<Seq<char>, GameSession>::empty(),
    {
        let r = GameSessionService { active_sessions: Vec::new() };
        assert(key_views(r.active_sessions@) =~= Seq::<(Seq<char>, GameSession)>::empty());
        r
    }

    /// Where the session `id` is stored, if it exists.
    fn index_of(&self, id: &String) -> (r: Option<usize>)
        ensures
            r is Some <==> self.sessions().dom().contains(id@),
            r matches Some(i) ==> i < self.entries().len() && self.entries()[i as int].0@ == id@
                && self.entries()[i as int].1 == self.sessions()[id@],
    {
        proof {
            use_type_invariant(self);
            lemma_entries_dom(key_views(self.active_sessions@), id@);
            lemma_unique_views(self.active_sessions@);
        }
        let found = find_key(&self.active_sessions, id);
        proof {
            let kv = key_views(self.active_sessions@);
            match found {
                Some(i) => {
                    lemma_entries_value(kv, i as int);
                },
                None => {
                    if exists|j: int| 0 <= j < kv.len() && (#[trigger] kv[j]).0 == id@ {
                        let j = choose|j: int| 0 <= j < kv.len() && (#[trigger] kv[j]).0 == id@;
                        assert(self.active_sessions@[j].0@ != id@);
                    }
                },
            }
        }
        found
    }

    /// Create a session named `session_id`; fails for an identifier in use, and for a
    /// name of other than 1 to 100 bytes.
    pub fn create_session(&mut self, session_id: String) -> (r: ApplicationResult<String>)
        ensures
            old(self).sessions().dom().contains(session_id@) ==> (r matches Err(ApplicationError::InvalidSession(m))
                && m@ == "Session ID already exists"@) && final(self).sessions() == old(self).sessions(),
            !old(self).sessions().dom().contains(session_id@) && !valid_session_name(session_id@)
                ==> (r matches Err(ApplicationError::DomainError(DomainError::ValidationError(_))))
                && final(self).sessions() == old(self).sessions(),
            !old(self).sessions().dom().contains(session_id@) && valid_session_name(session_id@)
                ==> (r matches Ok(id) && id@ == session_id@)
                && final(self).sessions() == old(self).sessions().insert(session_id@, final(self).sessions()[session_id@])
                && fresh_session(final(self).sessions()[session_id@], session_id@),
    {
        if self.index_of(&session_id).is_some() {
            return Err(ApplicationError::InvalidSession(String::from_str("Session ID already exists")));
        }
        let session = match GameSession::new(session_id.clone(), EntityId::generate(), EntityId::generate(),
            DifficultyLevel::Normal, WorldBoundaries::standard()) {
            Ok(s) => s,
            Err(e) => return Err(ApplicationError::DomainError(e)),
        };
        proof {
            use_type_invariant(&*self);
        }
        let mut sessions: Vec<(String, GameSession)> = Vec::new();
        std::mem::swap(&mut sessions, &mut self.active_sessions);
        let ghost before = sessions@;
        let ghost kv = key_views(before);
        let ghost new_session = session;
        sessions.push((session_id.clone(), session));
        proof {
            assert(key_views(sessions@) =~= kv.push((session_id@, new_session)));
            lemma_entries_push(kv, (session_id@, new_session));
            lemma_entries_dom(kv, session_id@);
            assert forall|a: int, b: int| 0 <= a < b < sessions@.len() implies (#[trigger] sessions@[a]).0@ != (#[trigger] sessions@[b]).0@ by {
                if b < before.len() {
                    assert(before[a].0@ != before[b].0@);
                } else {
                    if before[a].0@ == session_id@ {
                        assert(kv[a].0 == session_id@);
                    }
                }
            }
        }
        self.active_sessions = sessions;
        Ok(session_id)
    }

    /// Apply `op` to the session stored at `i`; the session is replaced by the result
    /// whether or not the operation succeeds (a failed one leaves it as it was).
    fn apply(&mut self, i: usize, op: SessionOp) -> (r: (DomainResult<()>, Score))
        requires
            i < old(self).entries().len(),
        ensures
            ({
                let k = old(self).entries()[i as int].0@;
                let s0 = old(self).entries()[i as int].1;
                let s1 = final(self).sessions()[k];
                &&& final(self).sessions() == old(self).sessions().insert(k, s1)
                &&& r.1.points() == s1.spec_statistics().experience_earned
                &&& op_effect(op, s0, s1, r.0)
            }),
    {
        proof {
            use_type_invariant(&*self);
            lemma_unique_views(self.active_sessions@);
        }
        let mut sessions: Vec<(String, GameSession)> = Vec::new();
        std::mem::swap(&mut sessions, &mut self.active_sessions);
        let ghost before = sessions@;
        let (id, mut session) = sessions.remove(i);
        let result = match op {
            SessionOp::Start => session.start(),
            SessionOp::Pause => session.pause(),
            SessionOp::Resume => session.resume(),
            SessionOp::End => session.end(),
            SessionOp::AddPoints(points) => session.add_points(points),
        };
        let score = session.score();
        let ghost after = session;
        sessions.insert(i, (id, session));
        proof {
            let kv = key_views(before);
            assert(sessions@ =~= before.update(i as int, (before[i as int].0, after)));
            assert(key_views(sessions@) =~= kv.update(i as int, (kv[i as int].0, after)));
            lemma_entries_update(kv, i as int, after);
            assert forall|a: int, b: int| 0 <= a < b < sessions@.len() implies (#[trigger] sessions@[a]).0@ != (#[trigger] sessions@[b]).0@ by {
                assert(before[a].0@ != before[b].0@);
            }
        }
        self.active_sessions = sessions;
        (result, score)
    }

    /// Start the session `session_id`; fails when it does not exist or its game is over.
    pub fn start_session(&mut self, session_id: &str) -> (r: ApplicationResult<()>)
        ensures
            session_op_result(old(self).sessions(), final(self).sessions(), session_id@, SessionOp::Start, r),
    {
        let id = String::from_str(session_id);
        let i = match self.index_of(&id) {
            Some(i) => i,
            None => return Err(ApplicationError::InvalidSession(String::from_str("Session not found"))),
        };
        let (result, _) = self.apply(i, SessionOp::Start);
        match result {
            Ok(()) => Ok(()),
            Err(e) => Err(ApplicationError::DomainError(e)),
        }
    }

    /// Pause the session `session_id`; fails when it does not exist or its game is over.
    pub fn pause_session(&mut self, session_id: &str) -> (r: ApplicationResult<()>)
        ensures
            session_op_result(old(self).sessions(), final(self).sessions(), session_id@, SessionOp::Pause, r),
    {
        let id = String::from_str(session_id);
        let i = match self.index_of(&id) {
            Some(i) => i,
            None => return Err(ApplicationError::InvalidSession(String::from_str("Session not found"))),
        };
        let (result, _) = self.apply(i, SessionOp::Pause);
        match result {
            Ok(()) => Ok(()),
            Err(e) => Err(ApplicationError::DomainError(e)),
        }
    }

    /// Resume the paused session `session_id`; fails when it does not exist or is not paused.
    pub fn resume_session(&mut self, session_id: &str) -> (r: ApplicationResult<()>)
        ensures
            session_op_result(old(self).sessions(), final(self).sessions(), session_id@, SessionOp::Resume, r),
    {
        let id = String::from_str(session_id);
        let i = match self.index_of(&id) {
            Some(i) => i,
            None => return Err(ApplicationError::InvalidSession(String::from_str("Session not found"))),
        };
        let (result, _) = self.apply(i, SessionOp::Resume);
        match result {
            Ok(()) => Ok(()),
            Err(e) => Err(ApplicationError::DomainError(e)),
        }
    }

    /// End the session `session_id`; returns its final score.
    pub fn end_session(&mut self, session_id: &str) -> (r: ApplicationResult<Score>)
        ensures
            session_op_result(old(self).sessions(), final(self).sessions(), session_id@, SessionOp::End, unit_of(r)),
            r matches Ok(score) ==> score.points() == final(self).sessions()[session_id@].spec_statistics().experience_earned,
    {
        let id = String::from_str(session_id);
        let i = match self.index_of(&id) {
            Some(i) => i,
            None => return Err(ApplicationError::InvalidSession(String::from_str("Session not found"))),
        };
        let (result, score) = self.apply(i, SessionOp::End);
        match result {
            Ok(()) => Ok(score),
            Err(e) => Err(ApplicationError::DomainError(e)),
        }
    }

    /// Add points to the session `session_id`; returns its new score.
    pub fn update_session_score(&mut self, session_id: &str, points_to_add: u32) -> (r: ApplicationResult<Score>)
        ensures
            session_op_result(old(self).sessions(), final(self).sessions(), session_id@, SessionOp::AddPoints(points_to_add), unit_of(r)),
            r matches Ok(score) ==> score.points() == final(self).sessions()[session_id@].spec_statistics().experience_earned,
    {
        let id = String::from_str(session_id);
        let i = match self.index_of(&id) {
            Some(i) => i,
            None => return Err(ApplicationError::InvalidSession(String::from_str("Session not found"))),
        };
        let (result, score) = self.apply(i, SessionOp::AddPoints(points_to_add));
        match result {
            Ok(()) => Ok(score),
            Err(e) => Err(ApplicationError::DomainError(e)),
        }
    }

    /// The score of the session `session_id`.
    pub fn get_session_score(&self, session_id: &str) -> (r: ApplicationResult<Score>)
        ensures
            !self.sessions().dom().contains(session_id@) ==> (r matches Err(ApplicationError::InvalidSession(m))
                && m@ == "Session not found"@),
            self.sessions().dom().contains(session_id@) ==> (r matches Ok(score)
                && score.points() == self.sessions()[session_id@].spec_statistics().experience_earned),
    {
        let id = String::from_str(session_id);
        match self.index_of(&id) {
            Some(i) => Ok(self.active_sessions[i].1.score()),
            None => Err(ApplicationError::InvalidSession(String::from_str("Session not found"))),
        }
    }

    /// Whether the session `session_id` exists and its play goes on.
    pub fn is_session_active(&self, session_id: &str) -> (r: bool)
        ensures
            r == (self.sessions().dom().contains(session_id@)
                && self.sessions()[session_id@].spec_phase() != GamePhase::GameOver
                && self.sessions()[session_id@].spec_phase() != GamePhase::Paused),
    {
        let id = String::from_str(session_id);
        match self.index_of(&id) {
            Some(i) => self.active_sessions[i].1.is_active(),
            None => false,
        }
    }

    /// Drop the session `session_id`; fails when it does not exist.
    pub fn remove_session(&mut self, session_id: &str) -> (r: ApplicationResult<()>)
        ensures
            !old(self).sessions().dom().contains(session_id@) ==> (r matches Err(ApplicationError::InvalidSession(m))
                && m@ == "Session not found"@) && final(self).sessions() == old(self).sessions(),
            old(self).sessions().dom().contains(session_id@) ==> r is Ok
                && final(self).sessions() == old(self).sessions().remove(session_id@),
    {
        let id = String::from_str(session_id);
        let i = match self.index_of(&id) {
            Some(i) => i,
            None => return Err(ApplicationError::InvalidSession(String::from_str("Session not found"))),
        };
        proof {
            use_type_invariant(&*self);
            lemma_unique_views(self.active_sessions@);
        }
        let mut sessions: Vec<(String, GameSession)> = Vec::new();
        std::mem::swap(&mut sessions, &mut self.active_sessions);
        let ghost before = sessions@;
        sessions.remove(i);
        proof {
            let kv = key_views(before);
            assert(key_views(sessions@) =~= kv.remove(i as int));
            lemma_entries_remove(kv, i as int);
            assert forall|a: int, b: int| 0 <= a < b < sessions@.len() implies (#[trigger] sessions@[a]).0@ != (#[trigger] sessions@[b]).0@ by {
                let a0 = if a < i { a } else { a + 1 };
                let b0 = if b < i { b } else { b + 1 };
                assert(sessions@[a] == before[a0] && sessions@[b] == before[b0]);
                assert(before[a0].0@ != before[b0].0@);
            }
        }
        self.active_sessions = sessions;
        Ok(())
    }

    /// The identifiers of the sessions, each once, in the order they were created.
    pub fn get_active_sessions(&self) -> (r: Vec<String>)
        ensures
            forall|k: Seq<char>| (exists|j: int| 0 <= j < r@.len() && (#[trigger] r@[j])@ == k) <==> self.sessions().dom().contains(k),
            forall|a: int, b: int| 0 <= a < b < r@.len() ==> (#[trigger] r@[a])@ != (#[trigger] r@[b])@,
    {
        proof {
            use_type_invariant(self);
        }
        let mut ids: Vec<String> = Vec::new();
        let mut i: usize = 0;
        while i < self.active_sessions.len()
            invariant
                0 <= i <= self.active_sessions@.len(),
                views_unique(self.active_sessions@),
                ids@.len() == i,
                forall|j: int| 0 <= j < i ==> (#[trigger] ids@[j])@ == self.active_sessions@[j].0@,
            decreases self.active_sessions@.len() - i,
        {
            ids.push(self.active_sessions[i].0.clone());
            i = i + 1;
        }
        proof {
            let kv = key_views(self.active_sessions@);
            assert forall|k: Seq<char>| (exists|j: int| 0 <= j < ids@.len() && (#[trigger] ids@[j])@ == k) <==> self.sessions().dom().contains(k) by {
                lemma_entries_dom(kv, k);
                if exists|j: int| 0 <= j < ids@.len() && (#[trigger] ids@[j])@ == k {
                    let j = choose|j: int| 0 <= j < ids@.len() && (#[trigger] ids@[j])@ == k;
                    assert(kv[j].0 == k);
                }
                if self.sessions().dom().contains(k) {
                    let j = choose|j: int| 0 <= j < kv.len() && (#[trigger] kv[j]).0 == k;
                    assert(ids@[j]@ == k);
                }
            }
            assert forall|a: int, b: int| 0 <= a < b < ids@.len() implies (#[trigger] ids@[a])@ != (#[trigger] ids@[b])@ by {
                assert(self.active_sessions@[a].0@ != self.active_sessions@[b].0@);
            }
        }
        ids
    }
}

impl Default for GameSessionService {
    fn default() -> (r: Self)
        ensures
            r.sessions() == Map::<Seq<char>, GameSession>::empty(),
    {
        Self::new()
    }
}

/// Operations on a stored session.
#[derive(Clone, Copy)]
pub enum SessionOp {
    Start,
    Pause,
    Resume,
    End,
    AddPoints(u32),
}

/// What an operation does to a session `s0`, giving `s1` and the result `r`.
pub open spec fn op_effect(op: SessionOp, s0: GameSession, s1: GameSession, r: Result<(), DomainError>) -> bool {
    match op {
        SessionOp::Start => {
            &&& (r is Ok <==> s0.spec_phase() != GamePhase::GameOver)
            &&& r is Err ==> (r matches Err(DomainError::InvalidGameState(_))) && s1 == s0
            &&& r is Ok ==> s1.spec_phase() == GamePhase::PlayerTurn && s1.spec_turn() == s0.spec_turn()
                && s1.spec_version() == next_version(s0.spec_version()) && s1.same_setup(&s0)
                && s1.spec_statistics() == s0.spec_statistics()
        },
        SessionOp::Pause => {
            &&& (r is Ok <==> s0.spec_phase() != GamePhase::GameOver)
            &&& r is Err ==> (r matches Err(DomainError::InvalidGameState(_))) && s1 == s0
            &&& r is Ok ==> s1.spec_phase() == GamePhase::Paused && s1.spec_turn() == s0.spec_turn()
                && s1.spec_version() == next_version(s0.spec_version()) && s1.same_setup(&s0)
                && s1.spec_statistics() == s0.spec_statistics()
        },
        SessionOp::Resume => {
            &&& (r is Ok <==> s0.spec_phase() == GamePhase::Paused)
            &&& r is Err ==> (r matches Err(DomainError::InvalidGameState(_))) && s1 == s0
            &&& r is Ok ==> s1.spec_phase() == GamePhase::PlayerTurn && s1.spec_turn() == s0.spec_turn()
                && s1.spec_version() == next_version(s0.spec_version()) && s1.same_setup(&s0)
                && s1.spec_statistics() == s0.spec_statistics()
        },
        SessionOp::End => {
            &&& r is Ok
            &&& s1.spec_phase() == GamePhase::GameOver
            &&& s1.spec_statistics().game_ended_at is Some
            &&& s1.spec_statistics().experience_earned == s0.spec_statistics().experience_earned
            &&& s1.spec_version() == next_version(s0.spec_version())
            &&& s1.same_setup(&s0)
        },
        SessionOp::AddPoints(points) => {
            &&& r is Ok
            &&& s1.spec_statistics().experience_earned == sat_add(s0.spec_statistics().experience_earned as int, points as int)
            &&& s1.spec_phase() == s0.spec_phase()
            &&& s1.spec_version() == next_version(s0.spec_version())
        },
    }
}

/// The result without its value.
pub open spec fn unit_of<T>(r: ApplicationResult<T>) -> ApplicationResult<()> {
    match r {
        Ok(_) => Ok(()),
        Err(e) => Err(e),
    }
}

/// What an operation on the session `id` does to the sessions `m0`, giving `m1` and
/// the result `r`: a missing session is an error that changes nothing; otherwise the
/// session alone changes, as the operation says, and a failure of the operation is
/// passed on as a domain error.
pub open spec fn session_op_result(m0: Map<Seq<char>, GameSession>, m1: Map<Seq<char>, GameSession>, id: Seq<char>, op: SessionOp, r: ApplicationResult<()>) -> bool {
    &&& !m0.dom().contains(id) ==> (r matches Err(ApplicationError::InvalidSession(m)) && m@ == "Session not found"@) && m1 == m0
    &&& m0.dom().contains(id) ==> {
        &&& m1 == m0.insert(id, m1[id])
        &&& exists|dr: Result<(), DomainError>| #[trigger] op_effect(op, m0[id], m1[id], dr) && match dr {
            Ok(()) => r == Ok::<(), ApplicationError>(()),
            Err(e) => r == Err::<(), ApplicationError>(ApplicationError::DomainError(e)),
        }
    }
}

} // verus!
