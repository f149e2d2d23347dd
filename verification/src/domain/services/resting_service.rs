//! Resting through the night once the player is out of movement points.
use crate::clock::utc_now_millis;
use crate::domain::entities::player::{add_capped, Player};
use crate::domain::value_objects::dice::{DiceModifier, DiceRoll, DiceType};
use crate::domain::value_objects::position::Position3D;
use crate::domain::value_objects::resources::{ResourceCollection, ResourceType};
use crate::domain::DomainResult;
use crate::text::{append_decimal, decimal};
use vstd::prelude::*;

verus! {

/// What happens during the night.
#[derive(Debug, Clone, Copy, PartialEq, Eq, Hash, Structural)]
pub enum NightEventType {
    NightmareTerrors,
    NightEncounter,
    ColdNight,
    StrangeNoises,
    RestlessNight,
    PeacefulRest,
    PleasantDreams,
    LucidDream,
    PropheticVision,
}

impl NightEventType {
    /// Display name of the night event.
    pub open spec fn spec_name(self) -> Seq<char> {
        match self {
            NightEventType::NightmareTerrors => "Nightmare Terrors"@,
            NightEventType::NightEncounter => "Night Encounter"@,
            NightEventType::ColdNight => "Cold Night"@,
            NightEventType::StrangeNoises => "Strange Noises"@,
            NightEventType::RestlessNight => "Restless Night"@,
            NightEventType::PeacefulRest => "Peaceful Rest"@,
            NightEventType::PleasantDreams => "Pleasant Dreams"@,
            NightEventType::LucidDream => "Lucid Dream"@,
            NightEventType::PropheticVision => "Prophetic Vision"@,
        }
    }

    /// Display name of the night event.
    pub fn to_string(&self) -> (r: String)
        ensures
            r@ == self.spec_name(),
    {
        let s = match self {
            NightEventType::NightmareTerrors => "Nightmare Terrors",
            NightEventType::NightEncounter => "Night Encounter",
            NightEventType::ColdNight => "Cold Night",
            NightEventType::StrangeNoises => "Strange Noises",
            NightEventType::RestlessNight => "Restless Night",
            NightEventType::PeacefulRest => "Peaceful Rest",
            NightEventType::PleasantDreams => "Pleasant Dreams",
            NightEventType::LucidDream => "Lucid Dream",
            NightEventType::PropheticVision => "Prophetic Vision",
        };
        String::from_str(s)
    }
}

/// How well the player rested.
#[derive(Debug, Clone, Copy, PartialEq, Eq, Hash, Structural)]
pub enum RestOutcome {
    PoorRest,
    NormalRest,
    GoodRest,
    GreatRest,
    ExceptionalRest,
}

impl RestOutcome {
    /// Display name of the outcome.
    pub open spec fn spec_name(self) -> Seq<char> {
        match self {
            RestOutcome::PoorRest => "Poor Rest"@,
            RestOutcome::NormalRest => "Normal Rest"@,
            RestOutcome::GoodRest => "Good Rest"@,
            RestOutcome::GreatRest => "Great Rest"@,
            RestOutcome::ExceptionalRest => "Exceptional Rest"@,
        }
    }

    /// Display name of the outcome.
    pub fn to_string(&self) -> (r: String)
        ensures
            r@ == self.spec_name(),
    {
        let s = match self {
            RestOutcome::PoorRest => "Poor Rest",
            RestOutcome::NormalRest => "Normal Rest",
            RestOutcome::GoodRest => "Good Rest",
            RestOutcome::GreatRest => "Great Rest",
            RestOutcome::ExceptionalRest => "Exceptional Rest",
        };
        String::from_str(s)
    }
}

/// The night event of a roll of the night die.
pub open spec fn night_event_for(roll: u8) -> NightEventType {
    if 1 <= roll <= 2 { NightEventType::NightmareTerrors }
    else if 3 <= roll <= 4 { NightEventType::NightEncounter }
    else if 5 <= roll <= 6 { NightEventType::ColdNight }
    else if 7 <= roll <= 8 { NightEventType::StrangeNoises }
    else if 9 <= roll <= 12 { NightEventType::RestlessNight }
    else if 13 <= roll <= 16 { NightEventType::PeacefulRest }
    else if 17 <= roll <= 18 { NightEventType::PleasantDreams }
    else if roll == 19 { NightEventType::LucidDream }
    else if roll == 20 { NightEventType::PropheticVision }
    else { NightEventType::PeacefulRest }
}

/// The rest a night event gives: bad nights are poor, cold or noisy nights normal
/// when the roll is 15 or more, and good nights better.
pub open spec fn rest_outcome_for(roll: u8, e: NightEventType) -> RestOutcome {
    match e {
        NightEventType::NightmareTerrors | NightEventType::NightEncounter => RestOutcome::PoorRest,
        NightEventType::ColdNight | NightEventType::StrangeNoises => if roll >= 15 { RestOutcome::NormalRest } else { RestOutcome::PoorRest },
        NightEventType::RestlessNight => RestOutcome::PoorRest,
        NightEventType::PeacefulRest => RestOutcome::NormalRest,
        NightEventType::PleasantDreams => RestOutcome::GoodRest,
        NightEventType::LucidDream => RestOutcome::GreatRest,
        NightEventType::PropheticVision => RestOutcome::ExceptionalRest,
    }
}

/// Movement points given beyond the maximum after a rest.
pub open spec fn extra_movement(o: RestOutcome) -> u8 {
    match o {
        RestOutcome::PoorRest => 2,
        RestOutcome::NormalRest => 4,
        RestOutcome::GoodRest => 6,
        RestOutcome::GreatRest => 8,
        RestOutcome::ExceptionalRest => 12,
    }
}

/// Experience a rest gives.
pub open spec fn rest_experience(o: RestOutcome) -> u32 {
    match o {
        RestOutcome::PoorRest => 0,
        RestOutcome::NormalRest => 0,
        RestOutcome::GoodRest => 10,
        RestOutcome::GreatRest => 20,
        RestOutcome::ExceptionalRest => 50,
    }
}

/// Resources a rest gives, per type.
pub open spec fn rest_reward(o: RestOutcome, t: ResourceType) -> u32 {
    match o {
        RestOutcome::PoorRest => if t == ResourceType::Food { 2u32 } else { 0u32 },
        RestOutcome::NormalRest => if t == ResourceType::Food { 5u32 } else { 0u32 },
        RestOutcome::GoodRest => match t {
            ResourceType::Food => 10u32,
            ResourceType::Energy => 5u32,
            _ => 0u32,
        },
        RestOutcome::GreatRest => match t {
            ResourceType::Food => 15u32,
            ResourceType::Energy => 10u32,
            ResourceType::Data => 5u32,
            _ => 0u32,
        },
        RestOutcome::ExceptionalRest => match t {
            ResourceType::Food => 25u32,
            ResourceType::Energy => 20u32,
            ResourceType::Data => 15u32,
            ResourceType::Technology => 5u32,
            _ => 0u32,
        },
    }
}

/// The story of the night.
pub open spec fn night_story(e: NightEventType) -> Seq<char> {
    match e {
        NightEventType::NightmareTerrors => "Terrible nightmares plague your sleep, filled with visions of cosmic horrors."@,
        NightEventType::NightEncounter => "Strange creatures move in the darkness around your camp, but you remain hidden."@,
        NightEventType::ColdNight => "The night is harsh and cold, making it difficult to rest comfortably."@,
        NightEventType::StrangeNoises => "Mysterious sounds echo through the night - whispers, distant machinery, or something else entirely."@,
        NightEventType::RestlessNight => "You toss and turn, unable to find comfortable rest on the alien ground."@,
        NightEventType::PeacefulRest => "The night passes peacefully, allowing you to recover your strength."@,
        NightEventType::PleasantDreams => "Pleasant dreams of home and better times fill your sleep, refreshing your spirit."@,
        NightEventType::LucidDream => "A lucid dream grants you insights into the nature of this strange world."@,
        NightEventType::PropheticVision => "A prophetic vision reveals hidden knowledge about your destiny and this world's secrets."@,
    }
}

/// How the player wakes.
pub open spec fn waking_story(o: RestOutcome) -> Seq<char> {
    match o {
        RestOutcome::PoorRest => " Despite the difficulties, you manage to get minimal rest."@,
        RestOutcome::NormalRest => " You wake feeling adequately rested."@,
        RestOutcome::GoodRest => " You wake feeling refreshed and energized."@,
        RestOutcome::GreatRest => " You wake feeling exceptionally well-rested and ready for adventure."@,
        RestOutcome::ExceptionalRest => " You wake feeling like a new person, filled with energy and purpose."@,
    }
}

/// How good a rest is, from poor to exceptional.
pub open spec fn rest_rank(o: RestOutcome) -> int {
    match o {
        RestOutcome::PoorRest => 0,
        RestOutcome::NormalRest => 1,
        RestOutcome::GoodRest => 2,
        RestOutcome::GreatRest => 3,
        RestOutcome::ExceptionalRest => 4,
    }
}

/// How good a night is, in the order of the night die: from nightmares (rolls 1
/// and 2) to a prophetic vision (20).
pub open spec fn night_rank(e: NightEventType) -> int {
    match e {
        NightEventType::NightmareTerrors => 0,
        NightEventType::NightEncounter => 1,
        NightEventType::ColdNight => 2,
        NightEventType::StrangeNoises => 3,
        NightEventType::RestlessNight => 4,
        NightEventType::PeacefulRest => 5,
        NightEventType::PleasantDreams => 6,
        NightEventType::LucidDream => 7,
        NightEventType::PropheticVision => 8,
    }
}

/// The night die: rolls 1 and 2 bring nightmares, 3 and 4 an encounter, 5 and 6 a
/// cold night, 7 and 8 strange noises, 9 to 12 a restless night, 13 to 16 a
/// peaceful one, 17 and 18 pleasant dreams, 19 a lucid dream and 20 a prophetic
/// vision; and a higher roll never brings a worse night.
pub proof fn night_die_bands(r1: u8, r2: u8)
    requires
        1 <= r1 <= r2 <= 20,
    ensures
        night_event_for(r1) == NightEventType::NightmareTerrors <==> r1 <= 2,
        night_event_for(r1) == NightEventType::NightEncounter <==> 3 <= r1 <= 4,
        night_event_for(r1) == NightEventType::ColdNight <==> 5 <= r1 <= 6,
        night_event_for(r1) == NightEventType::StrangeNoises <==> 7 <= r1 <= 8,
        night_event_for(r1) == NightEventType::RestlessNight <==> 9 <= r1 <= 12,
        night_event_for(r1) == NightEventType::PeacefulRest <==> 13 <= r1 <= 16,
        night_event_for(r1) == NightEventType::PleasantDreams <==> 17 <= r1 <= 18,
        night_event_for(r1) == NightEventType::LucidDream <==> r1 == 19,
        night_event_for(r1) == NightEventType::PropheticVision <==> r1 == 20,
        night_rank(night_event_for(r1)) <= night_rank(night_event_for(r2)),
{
}

/// The good nights give ever better rests: from a peaceful night on, a better
/// night gives a strictly better rest, whatever the roll, and a peaceful night
/// gives a normal rest. A troubled night (before a peaceful one) never gives more
/// than a normal rest, and a poor one unless it is a cold or noisy night rolled
/// 15 or more.
pub proof fn better_nights_give_better_rests(roll: u8, e1: NightEventType, e2: NightEventType)
    ensures
        night_rank(NightEventType::PeacefulRest) <= night_rank(e1) < night_rank(e2)
            ==> rest_rank(rest_outcome_for(roll, e1)) < rest_rank(rest_outcome_for(roll, e2)),
        rest_outcome_for(roll, NightEventType::PeacefulRest) == RestOutcome::NormalRest,
        night_rank(e1) < night_rank(NightEventType::PeacefulRest) ==> rest_rank(rest_outcome_for(roll, e1)) <= 1,
        night_rank(e1) < night_rank(NightEventType::PeacefulRest) ==> (rest_outcome_for(roll, e1) == RestOutcome::NormalRest
            <==> ((e1 == NightEventType::ColdNight || e1 == NightEventType::StrangeNoises) && roll >= 15)),
{
}

/// A higher roll of the night die never gives a worse rest.
pub proof fn higher_night_rolls_rest_no_worse(r1: u8, r2: u8)
    requires
        1 <= r1 <= r2 <= 20,
    ensures
        rest_rank(rest_outcome_for(r1, night_event_for(r1))) <= rest_rank(rest_outcome_for(r2, night_event_for(r2))),
{
}

/// A better rest gives at least as much of every resource and as much experience,
/// and the movement points over the maximum grow with it.
pub proof fn better_rests_reward_more(o1: RestOutcome, o2: RestOutcome, t: ResourceType)
    requires
        rest_rank(o1) <= rest_rank(o2),
    ensures
        rest_reward(o1, t) <= rest_reward(o2, t),
        rest_experience(o1) <= rest_experience(o2),
        extra_movement(o1) <= extra_movement(o2),
{
}

/// What a rest of quality `o` gives the player `before`, making it `after`: the
/// rest's experience (the points saturate at the largest `u32`), and each resource's
/// reward added to the player's stock. When every stock stays within the limit of
/// one million units, every reward is added; otherwise each stock either gets its
/// reward or stays as it was (the collection's addition stops at the first stock
/// that would pass the limit). The player stays where it was.
pub open spec fn rest_applied(before: Player, after: Player, o: RestOutcome) -> bool {
    &&& after.spec_experience().spec_points() == (if before.spec_experience().spec_points() + rest_experience(o) > u32::MAX {
        u32::MAX as int
    } else {
        before.spec_experience().spec_points() + rest_experience(o)
    })
    &&& (forall|t: ResourceType| before.spec_resources().amount(t) + rest_reward(o, t) <= 1_000_000)
        ==> forall|t: ResourceType| #[trigger] after.spec_resources().amount(t) == before.spec_resources().amount(t) + rest_reward(o, t)
    &&& forall|t: ResourceType| #[trigger] after.spec_resources().amount(t) == before.spec_resources().amount(t)
        || after.spec_resources().amount(t) == before.spec_resources().amount(t) + rest_reward(o, t)
    &&& after.spec_position() == before.spec_position()
}

/// What a night of rest brought.
#[derive(Debug, Clone)]
pub struct RestCycleResult {
    pub night_event: NightEventType,
    pub rest_outcome: RestOutcome,
    pub resources_gained: ResourceCollection,
    pub movement_points_restored: u8,
    pub description: String,
    pub dice_roll: u8,
    pub rest_completed_at: i64,
}

/// Service running the night's rest.
#[derive(Debug, Clone, Copy)]
pub struct RestingService;

impl RestingService {
    /// A new resting service.
    pub fn new() -> (r: Self) {
        RestingService
    }

    /// Rest through the night: the night die decides the night event and the rest,
    /// the rest's rewards go to the player, and the player's movement points are
    /// restored with extra points for the rest's quality.
    pub fn process_rest_cycle(&self, player: &mut Player, current_position: Position3D) -> (r: DomainResult<RestCycleResult>)
        requires
            old(player).spec_version() < u64::MAX - 5,
        ensures
            r is Ok,
            r matches Ok(res) ==> {
                &&& res.dice_roll == 10
                &&& res.night_event == night_event_for(10)
                &&& res.rest_outcome == rest_outcome_for(10, res.night_event)
                &&& (forall|t: ResourceType| #[trigger] res.resources_gained.amount(t) == rest_reward(res.rest_outcome, t))
                &&& res.movement_points_restored == final(player).spec_movement_points()
                &&& final(player).spec_movement_points() == add_capped(final(player).spec_max_movement_points() as int,
                    extra_movement(res.rest_outcome) as int, final(player).spec_max_movement_points() as int)
                &&& final(player).spec_action_points() == final(player).spec_max_action_points()
                &&& rest_applied(*old(player), *final(player), res.rest_outcome)
                &&& res.description@ == night_story(res.night_event) + waking_story(res.rest_outcome) + " (Roll: "@
                    + decimal(10) + ")"@
            },
    {
        let night_dice = match DiceRoll::new(1, DiceType::D20, DiceModifier::none()) {
            Ok(d) => d,
            Err(e) => return Err(e),
        };
        let night_roll = night_dice.total() as u8;
        let night_event = match self.determine_night_event(night_roll, &current_position) {
            Ok(e) => e,
            Err(e) => return Err(e),
        };
        let rest_outcome = match self.determine_rest_outcome(night_roll, &night_event) {
            Ok(o) => o,
            Err(e) => return Err(e),
        };
        let resources_gained = match self.apply_rest_effects(player, &rest_outcome) {
            Ok(r) => r,
            Err(e) => return Err(e),
        };
        player.restore_points();
        let extra: u8 = match rest_outcome {
            RestOutcome::PoorRest => 2,
            RestOutcome::NormalRest => 4,
            RestOutcome::GoodRest => 6,
            RestOutcome::GreatRest => 8,
            RestOutcome::ExceptionalRest => 12,
        };
        player.add_movement_points(extra);
        let description = self.generate_rest_description(&night_event, &rest_outcome, night_roll);
        Ok(RestCycleResult {
            night_event,
            rest_outcome,
            resources_gained,
            movement_points_restored: player.movement_points(),
            description,
            dice_roll: night_roll,
            rest_completed_at: utc_now_millis(),
        })
    }

    /// The night event of a roll of the night die.
    pub fn determine_night_event(&self, roll: u8, _position: &Position3D) -> (r: DomainResult<NightEventType>)
        ensures
            r == Ok::<NightEventType, crate::domain::DomainError>(night_event_for(roll)),
    {
        if 1 <= roll && roll <= 2 { Ok(NightEventType::NightmareTerrors) }
        else if 3 <= roll && roll <= 4 { Ok(NightEventType::NightEncounter) }
        else if 5 <= roll && roll <= 6 { Ok(NightEventType::ColdNight) }
        else if 7 <= roll && roll <= 8 { Ok(NightEventType::StrangeNoises) }
        else if 9 <= roll && roll <= 12 { Ok(NightEventType::RestlessNight) }
        else if 13 <= roll && roll <= 16 { Ok(NightEventType::PeacefulRest) }
        else if 17 <= roll && roll <= 18 { Ok(NightEventType::PleasantDreams) }
        else if roll == 19 { Ok(NightEventType::LucidDream) }
        else if roll == 20 { Ok(NightEventType::PropheticVision) }
        else { Ok(NightEventType::PeacefulRest) }
    }

    /// The rest a night event gives.
    pub fn determine_rest_outcome(&self, roll: u8, night_event: &NightEventType) -> (r: DomainResult<RestOutcome>)
        ensures
            r == Ok::<RestOutcome, crate::domain::DomainError>(rest_outcome_for(roll, *night_event)),
    {
        match night_event {
            NightEventType::NightmareTerrors | NightEventType::NightEncounter => Ok(RestOutcome::PoorRest),
            NightEventType::ColdNight | NightEventType::StrangeNoises => {
                if roll >= 15 { Ok(RestOutcome::NormalRest) } else { Ok(RestOutcome::PoorRest) }
            },
            NightEventType::RestlessNight => Ok(RestOutcome::PoorRest),
            NightEventType::PeacefulRest => Ok(RestOutcome::NormalRest),
            NightEventType::PleasantDreams => Ok(RestOutcome::GoodRest),
            NightEventType::LucidDream => Ok(RestOutcome::GreatRest),
            NightEventType::PropheticVision => Ok(RestOutcome::ExceptionalRest),
        }
    }

    /// Give the player the rest's experience and resources (see `rest_applied`);
    /// returns the resources.
    pub fn apply_rest_effects(&self, player: &mut Player, outcome: &RestOutcome) -> (r: DomainResult<ResourceCollection>)
        requires
            old(player).spec_version() < u64::MAX - 3,
        ensures
            r matches Ok(res) ==> forall|t: ResourceType| #[trigger] res.amount(t) == rest_reward(*outcome, t),
            rest_applied(*old(player), *final(player), *outcome),
            final(player).spec_version() <= old(player).spec_version() + 3,
            r is Ok,
    {
        let mut resources = ResourceCollection::new();
        match outcome {
            RestOutcome::PoorRest => {
                resources.set_amount(ResourceType::Food, 2);
            },
            RestOutcome::NormalRest => {
                resources.set_amount(ResourceType::Food, 5);
            },
            RestOutcome::GoodRest => {
                resources.set_amount(ResourceType::Food, 10);
                resources.set_amount(ResourceType::Energy, 5);
                let _ = player.add_experience(10);
            },
            RestOutcome::GreatRest => {
                resources.set_amount(ResourceType::Food, 15);
                resources.set_amount(ResourceType::Energy, 10);
                resources.set_amount(ResourceType::Data, 5);
                let _ = player.add_experience(20);
            },
            RestOutcome::ExceptionalRest => {
                resources.set_amount(ResourceType::Food, 25);
                resources.set_amount(ResourceType::Energy, 20);
                resources.set_amount(ResourceType::Data, 15);
                resources.set_amount(ResourceType::Technology, 5);
                let _ = player.add_experience(50);
            },
        }
        assert forall|t: ResourceType| #[trigger] resources.amount(t) == rest_reward(*outcome, t) by {
            match t {
                ResourceType::Food => {},
                ResourceType::Energy => {},
                ResourceType::Data => {},
                ResourceType::Technology => {},
                _ => {},
            }
        }
        if !resources.is_empty() {
            player.add_resources(&resources);
        }
        Ok(resources)
    }

    /// The story of the night: the night event, how the player wakes, and the roll.
    pub fn generate_rest_description(&self, night_event: &NightEventType, outcome: &RestOutcome, roll: u8) -> (r: String)
        ensures
            r@ == night_story(*night_event) + waking_story(*outcome) + " (Roll: "@ + decimal(roll as nat) + ")"@,
    {
        let base = match night_event {
            NightEventType::NightmareTerrors => "Terrible nightmares plague your sleep, filled with visions of cosmic horrors.",
            NightEventType::NightEncounter => "Strange creatures move in the darkness around your camp, but you remain hidden.",
            NightEventType::ColdNight => "The night is harsh and cold, making it difficult to rest comfortably.",
            NightEventType::StrangeNoises => "Mysterious sounds echo through the night - whispers, distant machinery, or something else entirely.",
            NightEventType::RestlessNight => "You toss and turn, unable to find comfortable rest on the alien ground.",
            NightEventType::PeacefulRest => "The night passes peacefully, allowing you to recover your strength.",
            NightEventType::PleasantDreams => "Pleasant dreams of home and better times fill your sleep, refreshing your spirit.",
            NightEventType::LucidDream => "A lucid dream grants you insights into the nature of this strange world.",
            NightEventType::PropheticVision => "A prophetic vision reveals hidden knowledge about your destiny and this world's secrets.",
        };
        let modifier = match outcome {
            RestOutcome::PoorRest => " Despite the difficulties, you manage to get minimal rest.",
            RestOutcome::NormalRest => " You wake feeling adequately rested.",
            RestOutcome::GoodRest => " You wake feeling refreshed and energized.",
            RestOutcome::GreatRest => " You wake feeling exceptionally well-rested and ready for adventure.",
            RestOutcome::ExceptionalRest => " You wake feeling like a new person, filled with energy and purpose.",
        };
        let mut s = String::from_str(base);
        s.append(modifier);
        s.append(" (Roll: ");
        append_decimal(&mut s, roll as u64);
        s.append(")");
        s
    }
}

impl Default for RestingService {
    fn default() -> (r: Self) {
        Self::new()
    }
}

} // verus!
