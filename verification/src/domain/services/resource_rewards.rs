//! Rewards of events: the tier a dice roll reaches, the resources and experience an
//! event type is worth before scaling, which stats favour it, when a failure costs
//! resources, and how the outcome is told.
use crate::domain::entities::event::{EventOutcome, EventType, OutcomeType};
use crate::domain::value_objects::resources::{all_resource_types, ResourceCollection, ResourceType};
use crate::domain::value_objects::StatType;
use crate::domain::DomainResult;
use crate::text::{append_decimal, decimal};
use vstd::prelude::*;

verus! {

/// How well an event went, by the dice.
#[derive(Debug, Clone, Copy, PartialEq, Eq, Hash, Structural)]
pub enum RewardTier {
    CriticalFailure,
    Failure,
    Neutral,
    Success,
    GreatSuccess,
    CriticalSuccess,
}

/// The tier of a roll on the 1 to 20 scale: 1 to 3 (and 0) critical failure, 4 to 7
/// failure, 8 to 12 neutral, 13 to 16 success, 17 to 19 great success, 20 and above
/// critical success.
pub open spec fn reward_tier(roll: u8) -> RewardTier {
    if roll <= 3 {
        RewardTier::CriticalFailure
    } else if roll <= 7 {
        RewardTier::Failure
    } else if roll <= 12 {
        RewardTier::Neutral
    } else if roll <= 16 {
        RewardTier::Success
    } else if roll <= 19 {
        RewardTier::GreatSuccess
    } else {
        RewardTier::CriticalSuccess
    }
}

impl RewardTier {
    /// Whether the tier is a failure, critical or not.
    pub open spec fn spec_is_failure(self) -> bool {
        self is CriticalFailure || self is Failure
    }

    /// The kind of outcome the tier gives.
    pub open spec fn spec_outcome_type(self) -> OutcomeType {
        match self {
            RewardTier::CriticalFailure | RewardTier::Failure => OutcomeType::Failure,
            RewardTier::Neutral => OutcomeType::Neutral,
            _ => OutcomeType::Success,
        }
    }

    /// How the tier is told.
    pub open spec fn spec_summary(self) -> Seq<char> {
        match self {
            RewardTier::CriticalSuccess => "Incredible success!"@,
            RewardTier::GreatSuccess => "Great success!"@,
            RewardTier::Success => "Success!"@,
            RewardTier::Neutral => "Neutral outcome."@,
            RewardTier::Failure => "Minor setback."@,
            RewardTier::CriticalFailure => "Critical failure!"@,
        }
    }

    /// Whether the tier is a failure, critical or not.
    pub fn is_failure(&self) -> (r: bool)
        ensures
            r == self.spec_is_failure(),
    {
        matches!(self, RewardTier::CriticalFailure | RewardTier::Failure)
    }

    /// The kind of outcome the tier gives.
    pub fn outcome_type(&self) -> (r: OutcomeType)
        ensures
            r == self.spec_outcome_type(),
    {
        match self {
            RewardTier::CriticalFailure | RewardTier::Failure => OutcomeType::Failure,
            RewardTier::Neutral => OutcomeType::Neutral,
            _ => OutcomeType::Success,
        }
    }

    /// How the tier is told.
    pub fn summary(&self) -> (r: &'static str)
        ensures
            r@ == self.spec_summary(),
    {
        proof {
            reveal_strlit("Incredible success!");
            reveal_strlit("Great success!");
            reveal_strlit("Success!");
            reveal_strlit("Neutral outcome.");
            reveal_strlit("Minor setback.");
            reveal_strlit("Critical failure!");
        }
        match self {
            RewardTier::CriticalSuccess => "Incredible success!",
            RewardTier::GreatSuccess => "Great success!",
            RewardTier::Success => "Success!",
            RewardTier::Neutral => "Neutral outcome.",
            RewardTier::Failure => "Minor setback.",
            RewardTier::CriticalFailure => "Critical failure!",
        }
    }
}

/// The resources an event type yields before the tier, level, stats and chance are
/// applied; hazards, malfunctions and base events yield none.
pub open spec fn base_reward_amounts(e: EventType) -> Seq<(ResourceType, u32)> {
    match e {
        EventType::ResourceDiscovery => seq![(ResourceType::Metal, 8u32), (ResourceType::Energy, 5u32), (ResourceType::Technology, 2u32)],
        EventType::Trade => seq![
            (ResourceType::Metal, 4u32),
            (ResourceType::Energy, 6u32),
            (ResourceType::Food, 5u32),
            (ResourceType::Data, 3u32),
        ],
        EventType::Boon => seq![(ResourceType::Technology, 4u32), (ResourceType::ExoticMatter, 1u32), (ResourceType::Data, 5u32)],
        EventType::Mystery => seq![(ResourceType::Data, 8u32), (ResourceType::Technology, 3u32), (ResourceType::ExoticMatter, 1u32)],
        EventType::Combat => seq![(ResourceType::Metal, 3u32), (ResourceType::Organics, 4u32), (ResourceType::Alloys, 2u32)],
        EventType::Narrative => seq![(ResourceType::Data, 3u32), (ResourceType::Energy, 2u32)],
        _ => Seq::empty(),
    }
}

/// The units a reward table gives in all.
pub open spec fn table_total(t: Seq<(ResourceType, u32)>) -> int
    decreases t.len(),
{
    if t.len() == 0 { 0 } else { table_total(t.drop_last()) + t.last().1 }
}

/// Whether a reward table gives some of resource `r`.
pub open spec fn table_gives(t: Seq<(ResourceType, u32)>, r: ResourceType) -> bool {
    exists|i: int| 0 <= i < t.len() && (#[trigger] t[i]).0 == r && t[i].1 > 0
}

/// The base rewards of each event type: every table names a resource at most once,
/// each with a positive amount; discoveries give 15 units in all, trades 18, boons
/// 10, mysteries 12, combat 9 and narrative events 5, and the other events nothing.
/// Trades are the only events that give food, and the only ones that give four
/// kinds of resource.
pub proof fn base_reward_tables(e: EventType)
    ensures
        forall|i: int, j: int| 0 <= i < j < base_reward_amounts(e).len()
            ==> (#[trigger] base_reward_amounts(e)[i]).0 != (#[trigger] base_reward_amounts(e)[j]).0,
        forall|i: int| 0 <= i < base_reward_amounts(e).len() ==> (#[trigger] base_reward_amounts(e)[i]).1 > 0,
        table_total(base_reward_amounts(e)) == match e {
            EventType::ResourceDiscovery => 15int,
            EventType::Trade => 18,
            EventType::Boon => 10,
            EventType::Mystery => 12,
            EventType::Combat => 9,
            EventType::Narrative => 5,
            _ => 0,
        },
        table_gives(base_reward_amounts(e), ResourceType::Food) <==> e == EventType::Trade,
        base_reward_amounts(e).len() == 4 <==> e == EventType::Trade,
{
    reveal_with_fuel(table_total, 5);
    if e == EventType::Trade {
        assert(base_reward_amounts(e)[2].0 == ResourceType::Food);
    }
}

/// The experience an event type is worth before the tier, roll and level apply.
pub open spec fn base_experience(e: EventType) -> u32 {
    match e {
        EventType::Combat => 15,
        EventType::ResourceDiscovery => 10,
        EventType::Trade => 8,
        EventType::Mystery => 12,
        EventType::Hazard => 10,
        EventType::Boon => 8,
        EventType::Narrative => 5,
        _ => 5,
    }
}

/// The stats that favour an event type: the primary one, then the secondary one.
pub open spec fn reward_stats(e: EventType) -> (StatType, StatType) {
    match e {
        EventType::ResourceDiscovery => (StatType::Intelligence, StatType::Luck),
        EventType::Combat => (StatType::Strength, StatType::Dexterity),
        EventType::Trade => (StatType::Charisma, StatType::Intelligence),
        EventType::Boon => (StatType::Luck, StatType::Charisma),
        EventType::Mystery => (StatType::Intelligence, StatType::Luck),
        EventType::Narrative => (StatType::Charisma, StatType::Intelligence),
        _ => (StatType::Luck, StatType::Endurance),
    }
}

/// The parts of a resource summary for the first types of `types`: the amount and
/// icon of each type held.
pub open spec fn summary_parts(c: ResourceCollection, types: Seq<ResourceType>) -> Seq<Seq<char>>
    decreases types.len(),
{
    if types.len() == 0 {
        Seq::empty()
    } else {
        let rest = summary_parts(c, types.drop_last());
        let t = types.last();
        if c.amount(t) > 0 {
            rest.push(decimal(c.amount(t) as nat) + seq![t.spec_icon()])
        } else {
            rest
        }
    }
}

/// The parts joined with single spaces.
pub open spec fn joined(parts: Seq<Seq<char>>) -> Seq<char>
    decreases parts.len(),
{
    if parts.len() == 0 {
        Seq::empty()
    } else if parts.len() == 1 {
        parts[0]
    } else {
        joined(parts.drop_last()) + " "@ + parts.last()
    }
}

/// The summary of a collection: the amount and icon of each type held, in the order
/// of the types, or "Nothing".
pub open spec fn resource_summary(c: ResourceCollection) -> Seq<char> {
    let parts = summary_parts(c, all_resource_types());
    if parts.len() == 0 {
        "Nothing"@
    } else {
        joined(parts)
    }
}

/// Whether a collection holds any resource.
pub open spec fn holds_any(c: ResourceCollection) -> bool {
    exists|t: ResourceType| #[trigger] c.amount(t) > 0
}

/// How a rewarded event is told: the event, the tier, the experience, and what was
/// gained when anything was.
pub open spec fn outcome_description(e: EventType, tier: RewardTier, resources: ResourceCollection, experience: u32) -> Seq<char> {
    e.spec_name() + " "@ + tier.spec_summary() + " (+"@ + decimal(experience as nat) + " XP)"@ + if holds_any(resources) {
        " Gained: "@ + resource_summary(resources)
    } else {
        Seq::empty()
    }
}

/// How a costly failure is told, with the total value lost.
pub open spec fn penalty_description(e: EventType, tier: RewardTier, lost_value: nat) -> Seq<char> {
    match tier {
        RewardTier::CriticalFailure => "Catastrophic failure! Lost "@ + decimal(lost_value) + " resources due to "@ + e.spec_name(),
        RewardTier::Failure => "Setback encountered. Lost "@ + decimal(lost_value) + " resources from "@ + e.spec_name(),
        _ => "No significant losses"@,
    }
}

/// What an event gave: resources, experience, the tier reached and the outcome.
#[derive(Debug, Clone, PartialEq)]
pub struct EventRewardResult {
    pub resources: ResourceCollection,
    pub experience: u32,
    pub tier: RewardTier,
    pub outcome: EventOutcome,
}

/// The tables and rules of event rewards.
#[derive(Debug)]
pub struct ResourceRewardService {}

impl ResourceRewardService {
    /// The reward rules.
    pub fn new() -> (r: Self) {
        ResourceRewardService {}
    }

    /// The tier a roll reaches (see `reward_tier`); every roll has one.
    pub fn determine_reward_tier(&self, dice_roll: u8) -> (r: DomainResult<RewardTier>)
        ensures
            r == Ok::<RewardTier, crate::domain::DomainError>(reward_tier(dice_roll)),
    {
        let tier = if dice_roll <= 3 {
            RewardTier::CriticalFailure
        } else if dice_roll <= 7 {
            RewardTier::Failure
        } else if dice_roll <= 12 {
            RewardTier::Neutral
        } else if dice_roll <= 16 {
            RewardTier::Success
        } else if dice_roll <= 19 {
            RewardTier::GreatSuccess
        } else {
            RewardTier::CriticalSuccess
        };
        Ok(tier)
    }

    /// The resources `event_type` yields before scaling (see `base_reward_amounts`).
    pub fn base_reward_table(&self, event_type: EventType) -> (r: Vec<(ResourceType, u32)>)
        ensures
            r@ == base_reward_amounts(event_type),
    {
        let r = match event_type {
            EventType::ResourceDiscovery => vec![(ResourceType::Metal, 8u32), (ResourceType::Energy, 5u32), (ResourceType::Technology, 2u32)],
            EventType::Trade => vec![
                (ResourceType::Metal, 4u32),
                (ResourceType::Energy, 6u32),
                (ResourceType::Food, 5u32),
                (ResourceType::Data, 3u32),
            ],
            EventType::Boon => vec![(ResourceType::Technology, 4u32), (ResourceType::ExoticMatter, 1u32), (ResourceType::Data, 5u32)],
            EventType::Mystery => vec![(ResourceType::Data, 8u32), (ResourceType::Technology, 3u32), (ResourceType::ExoticMatter, 1u32)],
            EventType::Combat => vec![(ResourceType::Metal, 3u32), (ResourceType::Organics, 4u32), (ResourceType::Alloys, 2u32)],
            EventType::Narrative => vec![(ResourceType::Data, 3u32), (ResourceType::Energy, 2u32)],
            _ => Vec::new(),
        };
        assert(r@ =~= base_reward_amounts(event_type));
        r
    }

    /// The experience `event_type` is worth before scaling (see `base_experience`).
    pub fn base_experience(&self, event_type: EventType) -> (r: u32)
        ensures
            r == base_experience(event_type),
    {
        match event_type {
            EventType::Combat => 15,
            EventType::ResourceDiscovery => 10,
            EventType::Trade => 8,
            EventType::Mystery => 12,
            EventType::Hazard => 10,
            EventType::Boon => 8,
            EventType::Narrative => 5,
            _ => 5,
        }
    }

    /// The stats that favour `event_type` (see `reward_stats`).
    pub fn reward_stats(&self, event_type: EventType) -> (r: (StatType, StatType))
        ensures
            r == reward_stats(event_type),
    {
        match event_type {
            EventType::ResourceDiscovery => (StatType::Intelligence, StatType::Luck),
            EventType::Combat => (StatType::Strength, StatType::Dexterity),
            EventType::Trade => (StatType::Charisma, StatType::Intelligence),
            EventType::Boon => (StatType::Luck, StatType::Charisma),
            EventType::Mystery => (StatType::Intelligence, StatType::Luck),
            EventType::Narrative => (StatType::Charisma, StatType::Intelligence),
            _ => (StatType::Luck, StatType::Endurance),
        }
    }

    /// Whether an event of type `event_type` reaching `tier` costs resources: only a
    /// dangerous event that fails does.
    pub fn penalty_applies(&self, event_type: EventType, tier: RewardTier) -> (r: bool)
        ensures
            r == (event_type.spec_is_dangerous() && tier.spec_is_failure()),
    {
        event_type.is_dangerous() && tier.is_failure()
    }

    /// The summary of `resources` (see `resource_summary`).
    pub fn format_resource_summary(&self, resources: &ResourceCollection) -> (r: String)
        ensures
            r@ == resource_summary(*resources),
    {
        let types = ResourceType::all();
        let mut s = String::new();
        let mut count: usize = 0;
        let mut i: usize = 0;
        while i < types.len()
            invariant
                types@ == all_resource_types(),
                i <= types@.len(),
                count == summary_parts(*resources, types@.take(i as int)).len(),
                count <= i,
                s@ == joined(summary_parts(*resources, types@.take(i as int))),
            decreases types@.len() - i,
        {
            let t = types[i];
            let ghost before = summary_parts(*resources, types@.take(i as int));
            proof {
                assert(types@.take(i + 1).drop_last() =~= types@.take(i as int));
                assert(types@.take(i + 1).last() == t);
            }
            let amount = resources.get_amount(t);
            if amount > 0 {
                let ghost part = decimal(amount as nat) + seq![t.spec_icon()];
                if count > 0 {
                    proof { reveal_strlit(" "); }
                    s.append(" ");
                }
                append_decimal(&mut s, amount as u64);
                s.append(t.icon_str());
                proof {
                    let after = before.push(part);
                    assert(summary_parts(*resources, types@.take(i + 1)) == after);
                    if before.len() == 0 {
                        assert(joined(after) == part);
                        assert(s@ =~= part);
                    } else {
                        assert(after.drop_last() =~= before);
                        assert(joined(after) == joined(before) + " "@ + part);
                        assert(s@ =~= joined(before) + " "@ + part);
                    }
                }
                count = count + 1;
            }
            i = i + 1;
        }
        proof {
            assert(types@.take(i as int) =~= types@);
        }
        if count == 0 {
            proof { reveal_strlit("Nothing"); }
            String::from_str("Nothing")
        } else {
            s
        }
    }

    /// How a rewarded event is told (see `outcome_description`).
    pub fn generate_outcome_description(
        &self,
        event_type: EventType,
        tier: &RewardTier,
        resources: &ResourceCollection,
        experience: u32,
    ) -> (r: String)
        ensures
            r@ == outcome_description(event_type, *tier, *resources, experience),
    {
        let mut s = event_type.to_string();
        proof {
            reveal_strlit(" ");
            reveal_strlit(" (+");
            reveal_strlit(" XP)");
            reveal_strlit(" Gained: ");
        }
        s.append(" ");
        s.append(tier.summary());
        s.append(" (+");
        append_decimal(&mut s, experience as u64);
        s.append(" XP)");
        let ghost head = s@;
        if !resources.is_empty() {
            s.append(" Gained: ");
            let summary = self.format_resource_summary(resources);
            s.append(summary.as_str());
            proof {
                let t = choose|t: ResourceType| resources.amount(t) != 0;
                assert(resources.amount(t) > 0);
                assert(holds_any(*resources));
                assert(s@ =~= outcome_description(event_type, *tier, *resources, experience));
            }
        } else {
            proof {
                assert(!holds_any(*resources));
                assert(s@ =~= outcome_description(event_type, *tier, *resources, experience));
            }
        }
        s
    }

    /// How a costly failure is told, with the total value of `lost` (see
    /// `penalty_description`).
    pub fn describe_penalty(&self, event_type: EventType, tier: RewardTier, lost: &ResourceCollection) -> (r: String)
        requires
            lost.spec_total_value() <= u32::MAX,
        ensures
            r@ == penalty_description(event_type, tier, lost.spec_total_value() as nat),
    {
        let total = lost.total_value();
        match tier {
            RewardTier::CriticalFailure => {
                proof {
                    reveal_strlit("Catastrophic failure! Lost ");
                    reveal_strlit(" resources due to ");
                }
                let mut s = String::from_str("Catastrophic failure! Lost ");
                append_decimal(&mut s, total as u64);
                s.append(" resources due to ");
                let name = event_type.to_string();
                s.append(name.as_str());
                proof {
                    assert(s@ =~= penalty_description(event_type, tier, lost.spec_total_value() as nat));
                }
                s
            },
            RewardTier::Failure => {
                proof {
                    reveal_strlit("Setback encountered. Lost ");
                    reveal_strlit(" resources from ");
                }
                let mut s = String::from_str("Setback encountered. Lost ");
                append_decimal(&mut s, total as u64);
                s.append(" resources from ");
                let name = event_type.to_string();
                s.append(name.as_str());
                proof {
                    assert(s@ =~= penalty_description(event_type, tier, lost.spec_total_value() as nat));
                }
                s
            },
            _ => {
                proof { reveal_strlit("No significant losses"); }
                String::from_str("No significant losses")
            },
        }
    }

    /// The result of an event that changed nothing: no resources, the one point of
    /// experience for surviving, and a neutral outcome.
    pub fn no_impact(&self, tier: RewardTier) -> (r: EventRewardResult)
        ensures
            forall|t: ResourceType| #[trigger] r.resources.amount(t) == 0,
            r.experience == 1,
            r.tier == tier,
            r.outcome.outcome_type == OutcomeType::Neutral,
            r.outcome.resources_gained is None,
            r.outcome.resources_lost is None,
            r.outcome.description@ == "No significant impact"@,
    {
        proof { reveal_strlit("No significant impact"); }
        EventRewardResult {
            resources: ResourceCollection::new(),
            experience: 1,
            tier,
            outcome: EventOutcome::neutral(String::from_str("No significant impact")),
        }
    }
}

impl Default for ResourceRewardService {
    fn default() -> (r: Self) {
        Self::new()
    }
}

} // verus!
