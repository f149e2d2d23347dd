//! Encounters met while exploring, resolved with dice.
use crate::application::dto::{HandleCollisionInput, HandleCollisionOutput};
use crate::application::{ApplicationError, ApplicationResult};
use crate::domain::entities::event::{Event, EventType};
use crate::domain::value_objects::dice::{DiceRoll, DiceType};
use crate::domain::value_objects::position::Position3D;
use crate::domain::value_objects::resources::ResourceType;
use crate::domain::{DomainResult, Score};
use crate::text::lemma_utf8_len_bound;
use vstd::prelude::*;

verus! {

/// What an encounter turned out to be.
#[derive(Debug, Clone)]
pub enum EncounterOutcome {
    NoEncounter,
    ResourceFound { resource_type: ResourceType, amount: u32 },
    EventTriggered { event: Event },
    SafeExploration { experience_gained: u32 },
    DangerAvoided { experience_gained: u32 },
    DangerEncountered { damage_taken: u32, lesson_learned: String },
    RareDiscovery { treasure_found: String, experience_gained: u32 },
}

/// The score change an outcome brings: none without an encounter, the amount for
/// resources, 25 for an event, the experience for exploration, avoided danger and rare
/// finds, and nothing for danger met.
pub open spec fn outcome_score(o: EncounterOutcome) -> Option<u32> {
    match o {
        EncounterOutcome::NoEncounter => None,
        EncounterOutcome::ResourceFound { amount, .. } => Some(amount),
        EncounterOutcome::EventTriggered { .. } => Some(25u32),
        EncounterOutcome::SafeExploration { experience_gained } => Some(experience_gained),
        EncounterOutcome::DangerAvoided { experience_gained } => Some(experience_gained),
        EncounterOutcome::DangerEncountered { .. } => Some(0u32),
        EncounterOutcome::RareDiscovery { experience_gained, .. } => Some(experience_gained),
    }
}

/// Use case resolving an encounter at a position.
#[derive(Debug, Clone, Copy)]
pub struct HandleEncounterUseCase {}

impl HandleEncounterUseCase {
    /// A new use case.
    pub fn new() -> (r: Self) {
        HandleEncounterUseCase {}
    }

    /// Resolve the encounter at the first entity's position.
    pub fn execute(&self, input: HandleCollisionInput) -> (r: ApplicationResult<HandleCollisionOutput>)
        ensures
            r is Ok,
            r matches Ok(out) ==> out.collision_detected && out.score_change == Some(25u32)
                && out.entities_to_remove@.len() == 0,
    {
        let encounter_position = input.entity1_position;
        self.process_encounter(&encounter_position)
    }

    /// Resolve an encounter: the roll is fixed at 10, which triggers an exploration
    /// event worth 25 points.
    pub fn process_encounter(&self, position: &Position3D) -> (r: ApplicationResult<HandleCollisionOutput>)
        ensures
            r is Ok,
            r matches Ok(out) ==> out.collision_detected && out.score_change == Some(25u32)
                && out.entities_to_remove@.len() == 0,
    {
        let roll_result: u32 = 10;
        let outcome = if 1 <= roll_result && roll_result <= 5 {
            self.handle_resource_discovery(position)
        } else if 6 <= roll_result && roll_result <= 10 {
            self.handle_random_event(position)
        } else if 11 <= roll_result && roll_result <= 15 {
            self.handle_safe_exploration(position)
        } else if 16 <= roll_result && roll_result <= 19 {
            self.handle_dangerous_encounter(position)
        } else if roll_result == 20 {
            self.handle_rare_discovery(position)
        } else {
            Ok(EncounterOutcome::NoEncounter)
        };
        match outcome {
            Ok(o) => Ok(self.convert_outcome_to_output(o)),
            Err(e) => Err(ApplicationError::DomainError(e)),
        }
    }

    /// Resources found: metal, ten units plus the expected roll of a six-sided die.
    pub fn handle_resource_discovery(&self, _position: &Position3D) -> (r: DomainResult<EncounterOutcome>)
        ensures
            r matches Ok(EncounterOutcome::ResourceFound { resource_type, amount })
                && resource_type == ResourceType::Metal && amount == 13,
    {
        let resource_roll = match DiceRoll::simple(1, DiceType::D6) {
            Ok(roll) => roll,
            Err(e) => return Err(e),
        };
        let expected = resource_roll.total();
        Ok(EncounterOutcome::ResourceFound { resource_type: ResourceType::Metal, amount: 10 + expected as u32 })
    }

    /// An exploration event at the position.
    pub fn handle_random_event(&self, position: &Position3D) -> (r: DomainResult<EncounterOutcome>)
        ensures
            r matches Ok(EncounterOutcome::EventTriggered { event }) ==> event.spec_event_type() == EventType::ResourceDiscovery
                && event.spec_location() == Some(*position),
            r matches Ok(EncounterOutcome::EventTriggered { .. }),
    {
        proof {
            reveal_strlit("Exploration Discovery");
            reveal_strlit("You found something interesting during your exploration!");
            lemma_utf8_len_bound("Exploration Discovery"@);
            lemma_utf8_len_bound("You found something interesting during your exploration!"@);
        }
        let event = match Event::new(
            EventType::ResourceDiscovery,
            String::from_str("Exploration Discovery"),
            String::from_str("You found something interesting during your exploration!"),
            Some(*position),
        ) {
            Ok(e) => e,
            Err(e) => return Err(e),
        };
        Ok(EncounterOutcome::EventTriggered { event })
    }

    /// Safe exploration, worth five experience points.
    pub fn handle_safe_exploration(&self, _position: &Position3D) -> (r: DomainResult<EncounterOutcome>)
        ensures
            r matches Ok(EncounterOutcome::SafeExploration { experience_gained }) && experience_gained == 5,
    {
        Ok(EncounterOutcome::SafeExploration { experience_gained: 5 })
    }

    /// A danger met: the expected roll of a twenty-sided die (10) is below the
    /// difficulty of 15, so the danger is met, costing five points of damage.
    pub fn handle_dangerous_encounter(&self, _position: &Position3D) -> (r: DomainResult<EncounterOutcome>)
        ensures
            r matches Ok(EncounterOutcome::DangerEncountered { damage_taken, lesson_learned })
                && damage_taken == 5 && lesson_learned@ == "Always check your surroundings!"@,
    {
        let danger_roll = match DiceRoll::simple(1, DiceType::D20) {
            Ok(roll) => roll,
            Err(e) => return Err(e),
        };
        let difficulty: i32 = 15;
        if danger_roll.total() >= difficulty {
            Ok(EncounterOutcome::DangerAvoided { experience_gained: 10 })
        } else {
            Ok(EncounterOutcome::DangerEncountered {
                damage_taken: 5,
                lesson_learned: String::from_str("Always check your surroundings!"),
            })
        }
    }

    /// A rare find: an ancient artifact worth fifty experience points.
    pub fn handle_rare_discovery(&self, _position: &Position3D) -> (r: DomainResult<EncounterOutcome>)
        ensures
            r matches Ok(EncounterOutcome::RareDiscovery { treasure_found, experience_gained })
                && treasure_found@ == "Ancient Artifact"@ && experience_gained == 50,
    {
        Ok(EncounterOutcome::RareDiscovery { treasure_found: String::from_str("Ancient Artifact"), experience_gained: 50 })
    }

    /// The output an outcome gives: an encounter is detected unless there was none,
    /// the score changes by the outcome's points, and nothing is removed.
    pub fn convert_outcome_to_output(&self, outcome: EncounterOutcome) -> (r: HandleCollisionOutput)
        ensures
            r.collision_detected == !(outcome is NoEncounter),
            r.score_change == outcome_score(outcome),
            r.entities_to_remove@.len() == 0,
    {
        match outcome {
            EncounterOutcome::NoEncounter => HandleCollisionOutput {
                collision_detected: false,
                score_change: None,
                entities_to_remove: Vec::new(),
            },
            EncounterOutcome::ResourceFound { amount, .. } => {
                let score = match Score::new(amount) {
                    Ok(s) => s,
                    Err(_) => Score::default(),
                };
                HandleCollisionOutput {
                    collision_detected: true,
                    score_change: Some(score.value()),
                    entities_to_remove: Vec::new(),
                }
            },
            EncounterOutcome::EventTriggered { .. } => HandleCollisionOutput {
                collision_detected: true,
                score_change: Some(25),
                entities_to_remove: Vec::new(),
            },
            EncounterOutcome::SafeExploration { experience_gained } => HandleCollisionOutput {
                collision_detected: true,
                score_change: Some(experience_gained),
                entities_to_remove: Vec::new(),
            },
            EncounterOutcome::DangerAvoided { experience_gained } => HandleCollisionOutput {
                collision_detected: true,
                score_change: Some(experience_gained),
                entities_to_remove: Vec::new(),
            },
            EncounterOutcome::DangerEncountered { .. } => HandleCollisionOutput {
                collision_detected: true,
                score_change: Some(0),
                entities_to_remove: Vec::new(),
            },
            EncounterOutcome::RareDiscovery { experience_gained, .. } => HandleCollisionOutput {
                collision_detected: true,
                score_change: Some(experience_gained),
                entities_to_remove: Vec::new(),
            },
        }
    }
}

} // verus!
