//! Quests: objectives that guide exploration, with rewards.
use crate::clock::utc_now_millis;
use crate::domain::value_objects::resources::ResourceCollection;
use crate::domain::value_objects::{EntityId, Position3D};
use crate::domain::{DomainError, DomainResult};
use crate::text::{byte_len, utf8_len};
use vstd::prelude::*;

verus! {

/// Kinds of quest.
#[derive(Debug, Clone, Copy, PartialEq, Eq, Hash, Structural)]
pub enum QuestType {
    Main,
    Side,
    Daily,
    Exploration,
    Gathering,
    Construction,
    Combat,
}

impl QuestType {
    /// Display name of the quest type.
    pub open spec fn spec_name(self) -> Seq<char> {
        match self {
            QuestType::Main => "Main Quest"@,
            QuestType::Side => "Side Quest"@,
            QuestType::Daily => "Daily Quest"@,
            QuestType::Exploration => "Exploration Quest"@,
            QuestType::Gathering => "Gathering Quest"@,
            QuestType::Construction => "Construction Quest"@,
            QuestType::Combat => "Combat Quest"@,
        }
    }

    /// Display name of the quest type.
    pub fn to_string(&self) -> (r: String)
        ensures
            r@ == self.spec_name(),
    {
        let s = match self {
            QuestType::Main => "Main Quest",
            QuestType::Side => "Side Quest",
            QuestType::Daily => "Daily Quest",
            QuestType::Exploration => "Exploration Quest",
            QuestType::Gathering => "Gathering Quest",
            QuestType::Construction => "Construction Quest",
            QuestType::Combat => "Combat Quest",
        };
        String::from_str(s)
    }
}

/// Where a quest stands.
#[derive(Debug, Clone, Copy, PartialEq, Eq, Structural)]
pub enum QuestStatus {
    Available,
    Active,
    Completed,
    Failed,
    Abandoned,
}

impl QuestStatus {
    /// Display name of the status.
    pub open spec fn spec_name(self) -> Seq<char> {
        match self {
            QuestStatus::Available => "Available"@,
            QuestStatus::Active => "Active"@,
            QuestStatus::Completed => "Completed"@,
            QuestStatus::Failed => "Failed"@,
            QuestStatus::Abandoned => "Abandoned"@,
        }
    }

    /// Display name of the status.
    pub fn to_string(&self) -> (r: String)
        ensures
            r@ == self.spec_name(),
    {
        let s = match self {
            QuestStatus::Available => "Available",
            QuestStatus::Active => "Active",
            QuestStatus::Completed => "Completed",
            QuestStatus::Failed => "Failed",
            QuestStatus::Abandoned => "Abandoned",
        };
        String::from_str(s)
    }
}

/// What an objective asks of the player.
#[derive(Debug, Clone, PartialEq)]
pub enum ObjectiveType {
    VisitLocation(Vec<Position3D>),
    CollectResources(ResourceCollection),
    BuildStructures(u32),
    ExploreTiles(u32),
    Survive(u32),
    ReachLevel(u32),
    DefeatEnemies(u32),
}

/// One objective of a quest, with the progress made toward it.
#[derive(Debug, Clone, PartialEq)]
pub struct QuestObjective {
    pub id: EntityId,
    pub objective_type: ObjectiveType,
    pub description: String,
    pub target_amount: u32,
    pub current_progress: u32,
    pub completed_at: Option<i64>,
}

impl QuestObjective {
    /// Whether the progress has reached the target.
    pub open spec fn spec_is_completed(&self) -> bool {
        self.current_progress >= self.target_amount
    }

    /// A new objective with no progress.
    pub fn new(objective_type: ObjectiveType, description: String, target_amount: u32) -> (r: Self)
        ensures
            r.objective_type == objective_type,
            r.description@ == description@,
            r.target_amount == target_amount,
            r.current_progress == 0,
            r.completed_at is None,
    {
        QuestObjective {
            id: EntityId::generate(),
            objective_type,
            description,
            target_amount,
            current_progress: 0,
            completed_at: None,
        }
    }

    /// Whether the progress has reached the target.
    pub fn is_completed(&self) -> (r: bool)
        ensures
            r == self.spec_is_completed(),
    {
        self.current_progress >= self.target_amount
    }
}

/// What a quest gives when completed.
#[derive(Debug, Clone, PartialEq)]
pub struct QuestRewards {
    pub experience: u32,
    pub resources: ResourceCollection,
    pub unlocks: Vec<String>,
}

impl QuestRewards {
    /// Rewards from their parts.
    pub fn new(experience: u32, resources: ResourceCollection, unlocks: Vec<String>) -> (r: Self)
        ensures
            r.experience == experience,
            r.resources == resources,
            r.unlocks@ == unlocks@,
    {
        QuestRewards { experience, resources, unlocks }
    }

    /// Rewards of experience alone.
    pub fn experience_only(experience: u32) -> (r: Self)
        ensures
            r.experience == experience,
            forall|t| #[trigger] r.resources.amount(t) == 0,
            r.unlocks@.len() == 0,
    {
        QuestRewards { experience, resources: ResourceCollection::new(), unlocks: Vec::new() }
    }
}

/// Conditions to meet before a quest is offered.
#[derive(Debug, Clone, PartialEq)]
pub enum QuestPrerequisite {
    CompletedQuest(EntityId),
    MinimumLevel(u32),
    VisitedLocation(Position3D),
    HasResources(ResourceCollection),
}

/// Index of the first objective with the given identity, or -1.
pub open spec fn objective_index(s: Seq<QuestObjective>, id: EntityId) -> int
    decreases s.len(),
{
    if s.len() == 0 {
        -1
    } else if objective_index(s.drop_last(), id) != -1 {
        objective_index(s.drop_last(), id)
    } else if s.last().id == id {
        s.len() - 1
    } else {
        -1
    }
}

/// Whether every objective is completed.
pub open spec fn all_objectives_completed(s: Seq<QuestObjective>) -> bool {
    forall|i: int| 0 <= i < s.len() ==> (#[trigger] s[i]).spec_is_completed()
}

/// Whether `after` is `before` with progress `progress` reported on the objective at
/// index `k` (if any): its progress becomes the larger of the two, a completed
/// objective gets a completion time, and nothing else changes.
pub open spec fn progress_reported(before: Seq<QuestObjective>, after: Seq<QuestObjective>, k: int, progress: u32) -> bool {
    &&& after.len() == before.len()
    &&& forall|i: int| 0 <= i < before.len() && i != k ==> #[trigger] after[i] == before[i]
    &&& 0 <= k < before.len() ==> {
        let o = before[k];
        let n = after[k];
        &&& n.id == o.id
        &&& n.objective_type == o.objective_type
        &&& n.description@ == o.description@
        &&& n.target_amount == o.target_amount
        &&& n.current_progress == (if progress > o.current_progress { progress } else { o.current_progress })
        &&& (n.spec_is_completed() ==> n.completed_at is Some)
        &&& (!n.spec_is_completed() ==> n.completed_at == o.completed_at)
    }
}

/// A quest.
#[derive(Debug, Clone, PartialEq)]
pub struct Quest {
    id: EntityId,
    title: String,
    description: String,
    quest_type: QuestType,
    status: QuestStatus,
    objectives: Vec<QuestObjective>,
    rewards: QuestRewards,
    prerequisites: Vec<QuestPrerequisite>,
    created_at: i64,
    started_at: Option<i64>,
    completed_at: Option<i64>,
    version: u64,
}

/// Whether a title has from 1 to 100 bytes.
pub open spec fn valid_quest_title(title: Seq<char>) -> bool {
    title.len() > 0 && utf8_len(title) <= 100
}

/// Whether a description has from 1 to 500 bytes.
pub open spec fn valid_quest_description(description: Seq<char>) -> bool {
    description.len() > 0 && utf8_len(description) <= 500
}

impl Quest {
    /// The identity of the quest.
    pub closed spec fn spec_id(&self) -> EntityId {
        self.id
    }

    /// The title.
    pub closed spec fn spec_title(&self) -> Seq<char> {
        self.title@
    }

    /// The description.
    pub closed spec fn spec_description(&self) -> Seq<char> {
        self.description@
    }

    /// The kind of quest.
    pub closed spec fn spec_quest_type(&self) -> QuestType {
        self.quest_type
    }

    /// Where the quest stands.
    pub closed spec fn spec_status(&self) -> QuestStatus {
        self.status
    }

    /// The objectives with their progress.
    pub closed spec fn spec_objectives(&self) -> Seq<QuestObjective> {
        self.objectives@
    }

    /// The rewards.
    pub closed spec fn spec_rewards(&self) -> QuestRewards {
        self.rewards
    }

    /// When the quest was started, if it was.
    pub closed spec fn spec_started_at(&self) -> Option<i64> {
        self.started_at
    }

    /// When the quest was completed, if it was.
    pub closed spec fn spec_completed_at(&self) -> Option<i64> {
        self.completed_at
    }

    /// Number of changes made to the quest.
    pub closed spec fn spec_version(&self) -> u64 {
        self.version
    }

    /// A new available quest; the title must have 1 to 100 bytes, the description 1
    /// to 500, and there must be at least one objective.
    pub fn new(title: String, description: String, quest_type: QuestType, objectives: Vec<QuestObjective>, rewards: QuestRewards) -> (r: DomainResult<Self>)
        ensures
            r is Ok <==> valid_quest_title(title@) && valid_quest_description(description@) && objectives@.len() > 0,
            !valid_quest_title(title@) ==> r matches Err(DomainError::ValidationError(_)),
            valid_quest_title(title@) && !valid_quest_description(description@) ==> r matches Err(DomainError::ValidationError(_)),
            valid_quest_title(title@) && valid_quest_description(description@) && objectives@.len() == 0
                ==> r matches Err(DomainError::QuestError(_)),
            r matches Ok(q) ==> q.spec_title() == title@ && q.spec_description() == description@
                && q.spec_quest_type() == quest_type && q.spec_status() == QuestStatus::Available
                && q.spec_objectives() == objectives@ && q.spec_rewards() == rewards
                && q.spec_started_at() is None && q.spec_completed_at() is None && q.spec_version() == 1,
    {
        if title.as_str().is_empty() || byte_len(title.as_str()) > 100 {
            return Err(DomainError::ValidationError(String::from_str("Quest title must be between 1 and 100 characters")));
        }
        if description.as_str().is_empty() || byte_len(description.as_str()) > 500 {
            return Err(DomainError::ValidationError(String::from_str("Quest description must be between 1 and 500 characters")));
        }
        if objectives.len() == 0 {
            return Err(DomainError::QuestError(String::from_str("Quest must have at least one objective")));
        }
        Ok(Quest {
            id: EntityId::generate(),
            title,
            description,
            quest_type,
            status: QuestStatus::Available,
            objectives,
            rewards,
            prerequisites: Vec::new(),
            created_at: utc_now_millis(),
            started_at: None,
            completed_at: None,
            version: 1,
        })
    }

    /// The identity of the quest.
    pub fn id(&self) -> (r: &EntityId)
        ensures
            *r == self.spec_id(),
    {
        &self.id
    }

    /// The title.
    pub fn title(&self) -> (r: &str)
        ensures
            r@ == self.spec_title(),
    {
        self.title.as_str()
    }

    /// The description.
    pub fn description(&self) -> (r: &str)
        ensures
            r@ == self.spec_description(),
    {
        self.description.as_str()
    }

    /// The kind of quest.
    pub fn quest_type(&self) -> (r: QuestType)
        ensures
            r == self.spec_quest_type(),
    {
        self.quest_type
    }

    /// Where the quest stands.
    pub fn status(&self) -> (r: QuestStatus)
        ensures
            r == self.spec_status(),
    {
        self.status
    }

    /// The objectives with their progress.
    pub fn objectives(&self) -> (r: &[QuestObjective])
        ensures
            r@ == self.spec_objectives(),
    {
        self.objectives.as_slice()
    }

    /// The rewards.
    pub fn rewards(&self) -> (r: &QuestRewards)
        ensures
            *r == self.spec_rewards(),
    {
        &self.rewards
    }

    /// When the quest was started (milliseconds since the epoch), if it was.
    pub fn started_at(&self) -> (r: Option<i64>)
        ensures
            r == self.spec_started_at(),
    {
        self.started_at
    }

    /// Start an available quest.
    pub fn start(&mut self) -> (r: DomainResult<()>)
        requires
            old(self).spec_version() < u64::MAX,
        ensures
            r is Ok <==> old(self).spec_status() == QuestStatus::Available,
            r is Ok ==> quest_step(old(self).spec_status(), final(self).spec_status()),
            r is Err ==> (r matches Err(DomainError::QuestError(_))) && *final(self) == *old(self),
            r is Ok ==> final(self).spec_status() == QuestStatus::Active
                && final(self).spec_started_at() is Some
                && final(self).spec_version() == old(self).spec_version() + 1
                && final(self).spec_objectives() == old(self).spec_objectives()
                && final(self).spec_completed_at() == old(self).spec_completed_at(),
    {
        match self.status {
            QuestStatus::Available => {
                self.status = QuestStatus::Active;
                self.started_at = Some(utc_now_millis());
                self.version = self.version + 1;
                Ok(())
            },
            _ => Err(DomainError::QuestError(String::from_str("Quest can only be started if it's available"))),
        }
    }

    /// Report progress on an objective of an active quest: the objective keeps the
    /// larger progress, and the quest completes when every objective is completed.
    /// Returns whether the quest completed.
    pub fn update_objective_progress(&mut self, objective_id: &EntityId, progress: u32) -> (r: DomainResult<bool>)
        requires
            old(self).spec_version() < u64::MAX,
        ensures
            r is Ok <==> old(self).spec_status() == QuestStatus::Active,
            r is Ok ==> quest_step(old(self).spec_status(), final(self).spec_status()),
            r is Err ==> (r matches Err(DomainError::QuestError(_))) && *final(self) == *old(self),
            r is Ok ==> progress_reported(old(self).spec_objectives(), final(self).spec_objectives(),
                objective_index(old(self).spec_objectives(), *objective_id), progress)
                && final(self).spec_version() == old(self).spec_version() + 1
                && final(self).spec_started_at() == old(self).spec_started_at(),
            r matches Ok(done) ==> done == all_objectives_completed(final(self).spec_objectives())
                && (done ==> final(self).spec_status() == QuestStatus::Completed && final(self).spec_completed_at() is Some)
                && (!done ==> final(self).spec_status() == QuestStatus::Active && final(self).spec_completed_at() == old(self).spec_completed_at()),
    {
        if self.status != QuestStatus::Active {
            return Err(DomainError::QuestError(String::from_str("Quest must be active to update progress")));
        }
        let ghost before = self.objectives@;
        let mut i: usize = 0;
        while i < self.objectives.len()
            invariant
                0 <= i <= self.objectives@.len(),
                self.objectives@ == before,
                objective_index(before.take(i as int), *objective_id) == -1,
            ensures
                0 <= i <= before.len(),
                self.objectives@ == before,
                objective_index(before.take(i as int), *objective_id) == -1,
                i < before.len() ==> before[i as int].id == *objective_id,
            decreases self.objectives@.len() - i,
        {
            if self.objectives[i].id == *objective_id {
                break;
            }
            assert(before.take(i + 1).drop_last() =~= before.take(i as int));
            i = i + 1;
        }
        proof {
            lemma_objective_index_prefix(before, i as int, *objective_id);
        }
        if i < self.objectives.len() {
            let mut objective = self.objectives.remove(i);
            if progress > objective.current_progress {
                objective.current_progress = progress;
            }
            if objective.current_progress >= objective.target_amount {
                objective.completed_at = Some(utc_now_millis());
            }
            self.objectives.insert(i, objective);
        }
        let mut all_done = true;
        let mut j: usize = 0;
        while j < self.objectives.len()
            invariant
                0 <= j <= self.objectives@.len(),
                all_done == (forall|k: int| 0 <= k < j ==> (#[trigger] self.objectives@[k]).spec_is_completed()),
            decreases self.objectives@.len() - j,
        {
            if !self.objectives[j].is_completed() {
                all_done = false;
            }
            j = j + 1;
        }
        if all_done {
            self.status = QuestStatus::Completed;
            self.completed_at = Some(utc_now_millis());
        }
        self.version = self.version + 1;
        Ok(all_done)
    }

    /// Abandon an active quest.
    pub fn abandon(&mut self) -> (r: DomainResult<()>)
        requires
            old(self).spec_version() < u64::MAX,
        ensures
            r is Ok <==> old(self).spec_status() == QuestStatus::Active,
            r is Ok ==> quest_step(old(self).spec_status(), final(self).spec_status()),
            r is Err ==> (r matches Err(DomainError::QuestError(_))) && *final(self) == *old(self),
            r is Ok ==> final(self).spec_status() == QuestStatus::Abandoned
                && final(self).spec_version() == old(self).spec_version() + 1
                && final(self).spec_objectives() == old(self).spec_objectives(),
    {
        match self.status {
            QuestStatus::Active => {
                self.status = QuestStatus::Abandoned;
                self.version = self.version + 1;
                Ok(())
            },
            _ => Err(DomainError::QuestError(String::from_str("Only active quests can be abandoned"))),
        }
    }

    /// Whether the quest is completed.
    pub fn is_completed(&self) -> (r: bool)
        ensures
            r == (self.spec_status() == QuestStatus::Completed),
    {
        self.status == QuestStatus::Completed
    }

    /// Whether the quest is active.
    pub fn is_active(&self) -> (r: bool)
        ensures
            r == (self.spec_status() == QuestStatus::Active),
    {
        self.status == QuestStatus::Active
    }
}

/// The first match in a prefix with no match before position `i` is at `i` when the
/// objective there matches, and there is none at all when `i` is the end.
proof fn lemma_objective_index_prefix(s: Seq<QuestObjective>, i: int, id: EntityId)
    requires
        0 <= i <= s.len(),
        objective_index(s.take(i), id) == -1,
        i < s.len() ==> s[i].id == id,
    ensures
        objective_index(s, id) == (if i < s.len() { i } else { -1 }),
    decreases s.len() - i,
{
    if i == s.len() {
        assert(s.take(i) =~= s);
    } else {
        assert(s.take(i + 1).drop_last() =~= s.take(i));
        lemma_objective_index_extend(s, i + 1, id);
    }
}

/// Once a prefix has its first match at `m`, every longer prefix has it there too.
proof fn lemma_objective_index_extend(s: Seq<QuestObjective>, n: int, id: EntityId)
    requires
        0 <= n <= s.len(),
        objective_index(s.take(n), id) != -1,
    ensures
        objective_index(s, id) == objective_index(s.take(n), id),
    decreases s.len() - n,
{
    if n == s.len() {
        assert(s.take(n) =~= s);
    } else {
        assert(s.take(n + 1).drop_last() =~= s.take(n));
        lemma_objective_index_extend(s, n + 1, id);
    }
}

/// The changes of status that the operations of a quest make: an available quest
/// starts, an active quest completes (its progress reported in full) or is
/// abandoned, and nothing else.
pub open spec fn quest_step(from: QuestStatus, to: QuestStatus) -> bool {
    ||| from == QuestStatus::Available && to == QuestStatus::Active
    ||| from == QuestStatus::Active && (to == QuestStatus::Active || to == QuestStatus::Completed || to == QuestStatus::Abandoned)
}

/// A quest's status only moves forward: no operation leads back to an available or
/// active quest from a finished one (completed, failed or abandoned), so
/// `start`, `update_objective_progress` and `abandon` all fail on it.
pub proof fn finished_quests_stay_finished(from: QuestStatus, to: QuestStatus)
    requires
        from == QuestStatus::Completed || from == QuestStatus::Failed || from == QuestStatus::Abandoned,
    ensures
        !quest_step(from, to),
        from != QuestStatus::Available,
        from != QuestStatus::Active,
{
}

} // verus!
