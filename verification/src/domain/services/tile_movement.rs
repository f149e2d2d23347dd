//! Moving from tile to tile: each step is rolled for, and the roll decides what happens.
use crate::domain::entities::event::{valid_event_description, valid_event_title, Event, EventType};
use crate::domain::entities::player::Player;
use crate::domain::value_objects::dice::{DiceModifier, DiceRoll, DiceType};
use crate::domain::value_objects::position::Position3D;
use crate::domain::value_objects::terrain::TerrainType;
use crate::domain::{DomainError, DomainResult};
use crate::text::{append_decimal, append_signed_decimal, decimal, lemma_utf8_len_bound, signed_decimal};
use rand::Rng;
use vstd::prelude::*;

verus! {

/// A position of `0..n` drawn with `rand::thread_rng()` and `Rng::gen_range` (which
/// panics on an empty range, left out by `requires`). Which position comes is not
/// stated: it is random.
#[verifier::external_body]
fn random_index_below(n: usize) -> (r: usize)
    requires
        n > 0,
    ensures
        r < n,
{
    rand::thread_rng().gen_range(0..n)
}

/// How well a step went, by the final roll.
#[derive(Debug, Clone, Copy, PartialEq, Eq, Hash, Structural)]
pub enum EventCategory {
    CriticalFailure,
    Failure,
    Neutral,
    Success,
    GreatSuccess,
    CriticalSuccess,
}

/// The category of a final roll: 0 to 3 critical failure, 4 to 7 failure, 8 to 12
/// neutral, 13 to 16 success, 17 to 19 great success, 20 and above critical success.
pub open spec fn category_of(result: u8) -> EventCategory {
    if result <= 3 { EventCategory::CriticalFailure }
    else if result <= 7 { EventCategory::Failure }
    else if result <= 12 { EventCategory::Neutral }
    else if result <= 16 { EventCategory::Success }
    else if result <= 19 { EventCategory::GreatSuccess }
    else { EventCategory::CriticalSuccess }
}

fn category_for(result: u8) -> (r: EventCategory)
    ensures
        r == category_of(result),
{
    if result <= 3 { EventCategory::CriticalFailure }
    else if result <= 7 { EventCategory::Failure }
    else if result <= 12 { EventCategory::Neutral }
    else if result <= 16 { EventCategory::Success }
    else if result <= 19 { EventCategory::GreatSuccess }
    else { EventCategory::CriticalSuccess }
}

/// Name of a category.
pub open spec fn category_name(c: EventCategory) -> Seq<char> {
    match c {
        EventCategory::CriticalFailure => "Critical Failure"@,
        EventCategory::Failure => "Failure"@,
        EventCategory::Neutral => "Neutral"@,
        EventCategory::Success => "Success"@,
        EventCategory::GreatSuccess => "Great Success"@,
        EventCategory::CriticalSuccess => "Critical Success"@,
    }
}

/// A kind of event a step can trigger.
#[derive(Debug, Clone, PartialEq)]
pub struct EventTemplate {
    pub event_type: EventType,
    pub title: String,
    pub description: String,
}

/// A template as plain values: its type, title and description.
pub open spec fn template_view(t: EventTemplate) -> (EventType, Seq<char>, Seq<char>) {
    (t.event_type, t.title@, t.description@)
}

fn template(event_type: EventType, title: &str, description: &str) -> (r: EventTemplate)
    ensures
        r.event_type == event_type,
        r.title@ == title@,
        r.description@ == description@,
{
    EventTemplate { event_type, title: String::from_str(title), description: String::from_str(description) }
}

/// The modifier terrain gives a step's roll.
pub open spec fn terrain_roll_modifier(t: TerrainType) -> i8 {
    match t {
        TerrainType::Plains => 2i8,
        TerrainType::Forest => 0i8,
        TerrainType::Mountains => -2i8,
        TerrainType::Desert => -1i8,
        TerrainType::Tundra => -3i8,
        TerrainType::Swamp => -4i8,
        TerrainType::Ocean => -5i8,
        TerrainType::Volcanic => -4i8,
        TerrainType::Anomaly => -6i8,
        TerrainType::Constructed => 3i8,
        TerrainType::Cave => -3i8,
        TerrainType::Crystal => 1i8,
    }
}

fn terrain_modifier_of(t: TerrainType) -> (r: i8)
    ensures
        r == terrain_roll_modifier(t),
{
    match t {
        TerrainType::Plains => 2,
        TerrainType::Forest => 0,
        TerrainType::Mountains => -2,
        TerrainType::Desert => -1,
        TerrainType::Tundra => -3,
        TerrainType::Swamp => -4,
        TerrainType::Ocean => -5,
        TerrainType::Volcanic => -4,
        TerrainType::Anomaly => -6,
        TerrainType::Constructed => 3,
        TerrainType::Cave => -3,
        TerrainType::Crystal => 1,
    }
}

/// `i as i8`: the low byte of `i` read as a signed byte.
pub open spec fn low_byte_signed(i: int) -> int {
    let b = i % 256;
    if b < 128 { b } else { b - 256 }
}

/// Rust's `/` on integers: the quotient rounded toward zero.
pub open spec fn quot(a: int, b: int) -> int {
    if a >= 0 { a / b } else { -((-a) / b) }
}

/// "+n" for a non-negative number, "-n" for a negative one.
pub open spec fn plus_signed(i: int) -> Seq<char> {
    if i >= 0 { seq!['+'] + decimal(i as nat) } else { signed_decimal(i) }
}

fn append_plus_signed(s: &mut String, i: i8)
    ensures
        final(s)@ == old(s)@ + plus_signed(i as int),
{
    if i >= 0 {
        proof { reveal_strlit("+"); }
        s.append("+");
        append_decimal(s, i as u64);
        assert(final(s)@ =~= old(s)@ + plus_signed(i as int));
    } else {
        append_signed_decimal(s, i as i64);
    }
}

/// The dice of a step, with every modifier that went into the final result.
#[derive(Debug, Clone, PartialEq)]
pub struct MovementDiceResult {
    pub base_roll: u8,
    pub level_modifier: i8,
    pub terrain_modifier: i8,
    pub danger_modifier: i8,
    pub total_modifier: i8,
    pub final_result: u8,
    pub dice_roll: DiceRoll,
}

impl MovementDiceResult {
    /// "🎲 Rolled b + t = f (Base: b, Level: +l, Terrain: +t, Danger: -d)".
    pub open spec fn spec_description(&self) -> Seq<char> {
        "\u{1F3B2} Rolled "@ + decimal(self.base_roll as nat) + " + "@ + signed_decimal(self.total_modifier as int)
            + " = "@ + decimal(self.final_result as nat) + " (Base: "@ + decimal(self.base_roll as nat)
            + ", Level: "@ + plus_signed(self.level_modifier as int) + ", Terrain: "@
            + plus_signed(self.terrain_modifier as int) + ", Danger: "@ + plus_signed(self.danger_modifier as int) + ")"@
    }

    /// A line describing the roll and its modifiers.
    pub fn description(&self) -> (r: String)
        ensures
            r@ == self.spec_description(),
    {
        let mut s = String::from_str("\u{1F3B2} Rolled ");
        append_decimal(&mut s, self.base_roll as u64);
        s.append(" + ");
        append_signed_decimal(&mut s, self.total_modifier as i64);
        s.append(" = ");
        append_decimal(&mut s, self.final_result as u64);
        s.append(" (Base: ");
        append_decimal(&mut s, self.base_roll as u64);
        s.append(", Level: ");
        append_plus_signed(&mut s, self.level_modifier);
        s.append(", Terrain: ");
        append_plus_signed(&mut s, self.terrain_modifier);
        s.append(", Danger: ");
        append_plus_signed(&mut s, self.danger_modifier);
        s.append(")");
        assert(s@ =~= self.spec_description());
        s
    }

    /// The name of the outcome's category.
    pub fn outcome_category(&self) -> (r: &'static str)
        ensures
            r@ == category_name(category_of(self.final_result)),
    {
        match category_for(self.final_result) {
            EventCategory::CriticalFailure => "Critical Failure",
            EventCategory::Failure => "Failure",
            EventCategory::Neutral => "Neutral",
            EventCategory::Success => "Success",
            EventCategory::GreatSuccess => "Great Success",
            EventCategory::CriticalSuccess => "Critical Success",
        }
    }
}

/// The result of a step.
#[derive(Debug, Clone, PartialEq)]
pub struct MovementResult {
    pub success: bool,
    pub target_position: Position3D,
    pub movement_cost: u8,
    pub dice_result: MovementDiceResult,
    pub triggered_event: Option<Event>,
}

/// Whether two positions are adjacent: one step along one axis.
pub open spec fn adjacent(a: Position3D, b: Position3D) -> bool {
    crate::domain::value_objects::position::abs_int(b.x - a.x) + crate::domain::value_objects::position::abs_int(b.y - a.y)
        + crate::domain::value_objects::position::abs_int(b.z - a.z) == 1
}

/// The final result of a step's roll: the base roll plus the modifiers (computed on
/// signed bytes), at least 1.
pub open spec fn final_roll(base: int, total: int) -> int {
    let v = low_byte_signed(base + total);
    if v > 1 { v } else { 1 }
}

/// Service moving the player tile by tile.
#[derive(Debug)]
pub struct TileMovementService {
    event_templates: Vec<Vec<EventTemplate>>,
}

/// Position of a category in declaration order.
pub open spec fn category_index(c: EventCategory) -> int {
    match c {
        EventCategory::CriticalFailure => 0,
        EventCategory::Failure => 1,
        EventCategory::Neutral => 2,
        EventCategory::Success => 3,
        EventCategory::GreatSuccess => 4,
        EventCategory::CriticalSuccess => 5,
    }
}

fn category_position(c: EventCategory) -> (r: usize)
    ensures
        r == category_index(c),
{
    match c {
        EventCategory::CriticalFailure => 0,
        EventCategory::Failure => 1,
        EventCategory::Neutral => 2,
        EventCategory::Success => 3,
        EventCategory::GreatSuccess => 4,
        EventCategory::CriticalSuccess => 5,
    }
}

/// The standard event templates of each category, in category order: type,
/// title and description.
pub open spec fn standard_templates() -> Seq<Seq<(EventType, Seq<char>, Seq<char>)>> {
    seq![
        seq![
            (EventType::Hazard, "Equipment Malfunction"@, "Your equipment suffers a critical failure!"@),
            (EventType::Combat, "Ambush!"@, "Hostile entities emerge from the shadows!"@),
            (EventType::Hazard, "Environmental Hazard"@, "The ground gives way beneath your feet!"@),
        ],
        seq![
            (EventType::Hazard, "Minor Setback"@, "You encounter a minor obstacle that slows your progress."@),
            (EventType::Malfunction, "Equipment Strain"@, "Your equipment shows signs of wear and tear."@),
            (EventType::Combat, "Hostile Encounter"@, "You spot dangerous creatures in the area."@),
        ],
        seq![
            (EventType::Narrative, "Quiet Exploration"@, "You move through the area without incident."@),
            (EventType::Mystery, "Strange Phenomenon"@, "You notice something unusual but can't quite identify what."@),
        ],
        seq![
            (EventType::ResourceDiscovery, "Resource Cache"@, "You discover a small cache of useful resources."@),
            (EventType::Trade, "Friendly Encounter"@, "You encounter a friendly trader willing to deal."@),
            (EventType::Boon, "Favorable Conditions"@, "The environment provides unexpected advantages."@),
        ],
        seq![
            (EventType::ResourceDiscovery, "Rich Deposit"@, "You discover a rich vein of valuable resources!"@),
            (EventType::Boon, "Ancient Technology"@, "You find remnants of advanced technology!"@),
            (EventType::Mystery, "Hidden Knowledge"@, "You uncover secrets that expand your understanding."@),
        ],
        seq![
            (EventType::ResourceDiscovery, "Jackpot Discovery"@, "You strike it rich with an incredible resource find!"@),
            (EventType::Boon, "Legendary Artifact"@, "You discover a powerful artifact of ancient origin!"@),
            (EventType::Trade, "Exclusive Opportunity"@, "A rare trading opportunity presents itself!"@),
        ],
    ]
}

/// Every standard template makes a valid event: its title has 1 to 100 bytes and
/// its description 1 to 500.
proof fn lemma_standard_templates_valid()
    ensures
        forall|i: int, j: int| 0 <= i < standard_templates().len() && 0 <= j < standard_templates()[i].len()
            ==> valid_event_title((#[trigger] standard_templates()[i][j]).1) && valid_event_description(standard_templates()[i][j].2),
{
    reveal_strlit("Equipment Malfunction");
    reveal_strlit("Your equipment suffers a critical failure!");
    lemma_utf8_len_bound(standard_templates()[0][0].1);
    lemma_utf8_len_bound(standard_templates()[0][0].2);
    reveal_strlit("Ambush!");
    reveal_strlit("Hostile entities emerge from the shadows!");
    lemma_utf8_len_bound(standard_templates()[0][1].1);
    lemma_utf8_len_bound(standard_templates()[0][1].2);
    reveal_strlit("Environmental Hazard");
    reveal_strlit("The ground gives way beneath your feet!");
    lemma_utf8_len_bound(standard_templates()[0][2].1);
    lemma_utf8_len_bound(standard_templates()[0][2].2);
    reveal_strlit("Minor Setback");
    reveal_strlit("You encounter a minor obstacle that slows your progress.");
    lemma_utf8_len_bound(standard_templates()[1][0].1);
    lemma_utf8_len_bound(standard_templates()[1][0].2);
    reveal_strlit("Equipment Strain");
    reveal_strlit("Your equipment shows signs of wear and tear.");
    lemma_utf8_len_bound(standard_templates()[1][1].1);
    lemma_utf8_len_bound(standard_templates()[1][1].2);
    reveal_strlit("Hostile Encounter");
    reveal_strlit("You spot dangerous creatures in the area.");
    lemma_utf8_len_bound(standard_templates()[1][2].1);
    lemma_utf8_len_bound(standard_templates()[1][2].2);
    reveal_strlit("Quiet Exploration");
    reveal_strlit("You move through the area without incident.");
    lemma_utf8_len_bound(standard_templates()[2][0].1);
    lemma_utf8_len_bound(standard_templates()[2][0].2);
    reveal_strlit("Strange Phenomenon");
    reveal_strlit("You notice something unusual but can't quite identify what.");
    lemma_utf8_len_bound(standard_templates()[2][1].1);
    lemma_utf8_len_bound(standard_templates()[2][1].2);
    reveal_strlit("Resource Cache");
    reveal_strlit("You discover a small cache of useful resources.");
    lemma_utf8_len_bound(standard_templates()[3][0].1);
    lemma_utf8_len_bound(standard_templates()[3][0].2);
    reveal_strlit("Friendly Encounter");
    reveal_strlit("You encounter a friendly trader willing to deal.");
    lemma_utf8_len_bound(standard_templates()[3][1].1);
    lemma_utf8_len_bound(standard_templates()[3][1].2);
    reveal_strlit("Favorable Conditions");
    reveal_strlit("The environment provides unexpected advantages.");
    lemma_utf8_len_bound(standard_templates()[3][2].1);
    lemma_utf8_len_bound(standard_templates()[3][2].2);
    reveal_strlit("Rich Deposit");
    reveal_strlit("You discover a rich vein of valuable resources!");
    lemma_utf8_len_bound(standard_templates()[4][0].1);
    lemma_utf8_len_bound(standard_templates()[4][0].2);
    reveal_strlit("Ancient Technology");
    reveal_strlit("You find remnants of advanced technology!");
    lemma_utf8_len_bound(standard_templates()[4][1].1);
    lemma_utf8_len_bound(standard_templates()[4][1].2);
    reveal_strlit("Hidden Knowledge");
    reveal_strlit("You uncover secrets that expand your understanding.");
    lemma_utf8_len_bound(standard_templates()[4][2].1);
    lemma_utf8_len_bound(standard_templates()[4][2].2);
    reveal_strlit("Jackpot Discovery");
    reveal_strlit("You strike it rich with an incredible resource find!");
    lemma_utf8_len_bound(standard_templates()[5][0].1);
    lemma_utf8_len_bound(standard_templates()[5][0].2);
    reveal_strlit("Legendary Artifact");
    reveal_strlit("You discover a powerful artifact of ancient origin!");
    lemma_utf8_len_bound(standard_templates()[5][1].1);
    lemma_utf8_len_bound(standard_templates()[5][1].2);
    reveal_strlit("Exclusive Opportunity");
    reveal_strlit("A rare trading opportunity presents itself!");
    lemma_utf8_len_bound(standard_templates()[5][2].1);
    lemma_utf8_len_bound(standard_templates()[5][2].2);
    assert forall|i: int, j: int| 0 <= i < standard_templates().len() && 0 <= j < standard_templates()[i].len()
        implies valid_event_title((#[trigger] standard_templates()[i][j]).1) && valid_event_description(standard_templates()[i][j].2) by {
        if i == 0 && j == 0 {}
        if i == 0 && j == 1 {}
        if i == 0 && j == 2 {}
        if i == 1 && j == 0 {}
        if i == 1 && j == 1 {}
        if i == 1 && j == 2 {}
        if i == 2 && j == 0 {}
        if i == 2 && j == 1 {}
        if i == 3 && j == 0 {}
        if i == 3 && j == 1 {}
        if i == 3 && j == 2 {}
        if i == 4 && j == 0 {}
        if i == 4 && j == 1 {}
        if i == 4 && j == 2 {}
        if i == 5 && j == 0 {}
        if i == 5 && j == 1 {}
        if i == 5 && j == 2 {}
    }
}

/// The bands of final rolls: 0 to 3 are critical failures, 4 to 7 failures, 8 to 12
/// neutral, 13 to 16 successes, 17 to 19 great successes, and 20 or more critical
/// successes.
pub proof fn roll_category_bands(r: u8)
    ensures
        category_of(r) == EventCategory::CriticalFailure <==> r <= 3,
        category_of(r) == EventCategory::Failure <==> 4 <= r <= 7,
        category_of(r) == EventCategory::Neutral <==> 8 <= r <= 12,
        category_of(r) == EventCategory::Success <==> 13 <= r <= 16,
        category_of(r) == EventCategory::GreatSuccess <==> 17 <= r <= 19,
        category_of(r) == EventCategory::CriticalSuccess <==> 20 <= r,
{
}

/// A higher roll never falls in a worse category: categories rise with the roll
/// (in their declaration order, from critical failure to critical success).
pub proof fn roll_categories_rise_with_the_roll(r1: u8, r2: u8)
    requires
        r1 <= r2,
    ensures
        category_index(category_of(r1)) <= category_index(category_of(r2)),
{
}

/// A roll that beats the neutral band (13 or more) triggers an event of a
/// favourable type, and one below it (7 or less) an event of an unfavourable type:
/// the templates of the success categories hold resource discoveries, trades, boons
/// and mysteries, and those of the failure categories hazards, combat and
/// malfunctions.
pub proof fn movement_events_match_the_roll(d: MovementDiceResult, position: Position3D, e: Event)
    requires
        movement_event(d, position, Some(e)),
    ensures
        d.final_result >= 13 ==> (e.spec_event_type() == EventType::ResourceDiscovery || e.spec_event_type() == EventType::Trade
            || e.spec_event_type() == EventType::Boon || e.spec_event_type() == EventType::Mystery),
        d.final_result <= 7 ==> (e.spec_event_type() == EventType::Hazard || e.spec_event_type() == EventType::Combat
            || e.spec_event_type() == EventType::Malfunction),
{
    let c = category_of(d.final_result);
    let k = choose|k: int| 0 <= k < standard_templates()[category_index(c)].len()
        && #[trigger] standard_templates()[category_index(c)][k] == (e.spec_event_type(), e.spec_title(), e.spec_description());
    assert(standard_templates()[category_index(c)][k].0 == e.spec_event_type());
}

/// The dice of a step toward a tile of `terrain` (if known) at `danger_level`: the
/// expected roll of a twenty-sided die (10), a level modifier of a fifth of the
/// level (read as a signed byte, at most 5), the terrain's modifier, and minus half
/// the danger; the final result is their sum, at least 1.
pub open spec fn movement_roll(player_level: u32, terrain: Option<TerrainType>, danger_level: int, d: MovementDiceResult) -> bool {
    let level = if quot(low_byte_signed(player_level as int), 5) < 5 { quot(low_byte_signed(player_level as int), 5) } else { 5 };
    let terrain_mod = match terrain { Some(t) => terrain_roll_modifier(t) as int, None => 0int };
    &&& d.base_roll == 10
    &&& d.level_modifier == level
    &&& d.terrain_modifier == terrain_mod
    &&& d.danger_modifier == -quot(danger_level, 2)
    &&& d.total_modifier == level + terrain_mod - quot(danger_level, 2)
    &&& d.final_result == final_roll(10, d.total_modifier as int)
}

/// The event a step's roll `d` triggers at `position`: none for a neutral roll of 10
/// or more; otherwise a new, unresolved event at the position whose type, title and
/// description are those of one of the standard templates of the roll's category.
pub open spec fn movement_event(d: MovementDiceResult, position: Position3D, r: Option<Event>) -> bool {
    let c = category_of(d.final_result);
    if c == EventCategory::Neutral && d.final_result >= 10 {
        r is None
    } else {
        r matches Some(e) && e.spec_location() == Some(position) && e.spec_outcomes().len() == 0 && !e.spec_resolved()
            && exists|k: int| 0 <= k < standard_templates()[category_index(c)].len()
                && #[trigger] standard_templates()[category_index(c)][k] == (e.spec_event_type(), e.spec_title(), e.spec_description())
    }
}

impl TileMovementService {
    /// The event templates of each category, in category order.
    pub closed spec fn templates(&self) -> Seq<Seq<(EventType, Seq<char>, Seq<char>)>> {
        self.event_templates@.map_values(|v: Vec<EventTemplate>| v@.map_values(|t: EventTemplate| template_view(t)))
    }

    /// The service always holds the standard templates.
    #[verifier::type_invariant]
    spec fn holds_standard_templates(self) -> bool {
        self.templates() == standard_templates()
    }

    /// A service with the standard event templates (see `standard_templates`).
    pub fn new() -> (r: Self)
        ensures
            r.templates() == standard_templates(),
    {
        let mut event_templates: Vec<Vec<EventTemplate>> = Vec::new();
        event_templates.push(vec![
            template(EventType::Hazard, "Equipment Malfunction", "Your equipment suffers a critical failure!"),
            template(EventType::Combat, "Ambush!", "Hostile entities emerge from the shadows!"),
            template(EventType::Hazard, "Environmental Hazard", "The ground gives way beneath your feet!"),
        ]);
        event_templates.push(vec![
            template(EventType::Hazard, "Minor Setback", "You encounter a minor obstacle that slows your progress."),
            template(EventType::Malfunction, "Equipment Strain", "Your equipment shows signs of wear and tear."),
            template(EventType::Combat, "Hostile Encounter", "You spot dangerous creatures in the area."),
        ]);
        event_templates.push(vec![
            template(EventType::Narrative, "Quiet Exploration", "You move through the area without incident."),
            template(EventType::Mystery, "Strange Phenomenon", "You notice something unusual but can't quite identify what."),
        ]);
        event_templates.push(vec![
            template(EventType::ResourceDiscovery, "Resource Cache", "You discover a small cache of useful resources."),
            template(EventType::Trade, "Friendly Encounter", "You encounter a friendly trader willing to deal."),
            template(EventType::Boon, "Favorable Conditions", "The environment provides unexpected advantages."),
        ]);
        event_templates.push(vec![
            template(EventType::ResourceDiscovery, "Rich Deposit", "You discover a rich vein of valuable resources!"),
            template(EventType::Boon, "Ancient Technology", "You find remnants of advanced technology!"),
            template(EventType::Mystery, "Hidden Knowledge", "You uncover secrets that expand your understanding."),
        ]);
        event_templates.push(vec![
            template(EventType::ResourceDiscovery, "Jackpot Discovery", "You strike it rich with an incredible resource find!"),
            template(EventType::Boon, "Legendary Artifact", "You discover a powerful artifact of ancient origin!"),
            template(EventType::Trade, "Exclusive Opportunity", "A rare trading opportunity presents itself!"),
        ]);
        let ghost v = event_templates@.map_values(|v: Vec<EventTemplate>| v@.map_values(|t: EventTemplate| template_view(t)));
        proof {
            assert(v[0] =~= standard_templates()[0]);
            assert(v[1] =~= standard_templates()[1]);
            assert(v[2] =~= standard_templates()[2]);
            assert(v[3] =~= standard_templates()[3]);
            assert(v[4] =~= standard_templates()[4]);
            assert(v[5] =~= standard_templates()[5]);
            assert(v =~= standard_templates());
        }
        TileMovementService { event_templates }
    }

    /// Whether a step from `current` to `target` moves to an adjacent tile.
    pub fn is_valid_movement(&self, current: &Position3D, target: &Position3D) -> (r: bool)
        ensures
            r == adjacent(*current, *target),
    {
        let dx = target.x as i64 - current.x as i64;
        let dy = target.y as i64 - current.y as i64;
        let dz = target.z as i64 - current.z as i64;
        let adx = if dx < 0 { -dx } else { dx };
        let ady = if dy < 0 { -dy } else { dy };
        let adz = if dz < 0 { -dz } else { dz };
        adx + ady + adz == 1
    }

    /// The dice of a step toward a tile with the given terrain (if known) and danger
    /// level: the expected roll of a twenty-sided die (10), a level modifier of a fifth
    /// of the level (read as a signed byte, at most 5), the terrain's modifier, and
    /// minus half the danger.
    pub fn roll_movement_dice(&self, player_level: u32, terrain: Option<TerrainType>, danger_level: u8) -> (r: DomainResult<MovementDiceResult>)
        requires
            danger_level <= 127,
        ensures
            r matches Ok(d) ==> movement_roll(player_level, terrain, danger_level as int, d),
            r is Ok,
    {
        let base_dice = match DiceRoll::new(1, DiceType::D20, DiceModifier::none()) {
            Ok(d) => d,
            Err(e) => return Err(e),
        };
        let base_result = base_dice.total();
        let signed_level = player_level as i8;
        let fifth = signed_level / 5;
        let level_modifier: i8 = if fifth < 5 { fifth } else { 5 };
        let terrain_modifier: i8 = match terrain {
            Some(t) => terrain_modifier_of(t),
            None => 0,
        };
        let danger_modifier: i8 = -((danger_level as i8) / 2);
        let total_modifier: i8 = level_modifier + terrain_modifier + danger_modifier;
        let raised: i8 = (base_result as i8).wrapping_add(total_modifier);
        let final_result: u8 = if raised > 1 { raised as u8 } else { 1 };
        proof {
            assert(low_byte_signed(player_level as int) == signed_level) by (bit_vector)
                requires
                    signed_level == player_level as i8,
            ;
        }
        Ok(MovementDiceResult {
            base_roll: base_result as u8,
            level_modifier,
            terrain_modifier,
            danger_modifier,
            total_modifier,
            final_result,
            dice_roll: base_dice,
        })
    }

    /// The event a step's roll triggers: none for a neutral roll of 10 or more, else a
    /// random template of the roll's category, placed at the position (see
    /// `movement_event`). It always succeeds.
    pub fn generate_movement_event(&self, dice_result: &MovementDiceResult, position: &Position3D) -> (r: DomainResult<Option<Event>>)
        ensures
            r matches Ok(e) && movement_event(*dice_result, *position, e),
    {
        proof {
            use_type_invariant(self);
            lemma_standard_templates_valid();
        }
        let result = dice_result.final_result;
        let category = category_for(result);
        if category == EventCategory::Neutral && result >= 10 {
            return Ok(None);
        }
        let templates = &self.event_templates[category_position(category)];
        if templates.len() == 0 {
            return Ok(None);
        }
        let index = random_index_below(templates.len());
        let chosen = &templates[index];
        proof {
            assert(self.templates()[category_index(category)][index as int] == template_view(*chosen));
        }
        let event = match Event::new(chosen.event_type, chosen.title.clone(), chosen.description.clone(), Some(*position)) {
            Ok(e) => e,
            Err(e) => return Err(e),
        };
        proof {
            assert(self.templates()[category_index(category)][index as int] == template_view(*chosen));
        }
        Ok(Some(event))
    }

    /// Attempt a step of the player to an adjacent tile whose terrain is `target_terrain`
    /// (unknown tiles cannot be entered): the tile must be passable and the player must
    /// have the terrain's movement cost in points; then the step is rolled for and may
    /// trigger an event.
    pub fn attempt_movement(&self, player: &Player, target_position: Position3D, target_terrain: Option<TerrainType>, player_level: u32) -> (r: DomainResult<MovementResult>)
        ensures
            (adjacent(player.spec_position(), target_position) && (target_terrain matches Some(t) && t != TerrainType::Ocean
                && player.spec_movement_points() >= t.spec_movement_cost())) ==> r is Ok,
            r matches Ok(m) ==> movement_roll(player_level, target_terrain, target_terrain->0.spec_danger_level(), m.dice_result)
                && movement_event(m.dice_result, target_position, m.triggered_event),
            !adjacent(player.spec_position(), target_position) ==> r matches Err(DomainError::InvalidMapCoordinates(..)),
            adjacent(player.spec_position(), target_position) && !(target_terrain matches Some(t) && t != TerrainType::Ocean)
                ==> r matches Err(DomainError::TileNotAccessible(..)),
            r matches Ok(m) ==> adjacent(player.spec_position(), target_position)
                && (target_terrain matches Some(t) && t != TerrainType::Ocean
                    && m.movement_cost == t.spec_movement_cost()
                    && player.spec_movement_points() >= m.movement_cost)
                && m.success && m.target_position == target_position,
            (adjacent(player.spec_position(), target_position) && (target_terrain matches Some(t) && t != TerrainType::Ocean
                && player.spec_movement_points() < t.spec_movement_cost())) ==> r matches Err(DomainError::InsufficientResources(_)),
    {
        if !self.is_valid_movement(player.position(), &target_position) {
            return Err(DomainError::InvalidMapCoordinates(target_position.x, target_position.y, target_position.z));
        }
        let terrain = match target_terrain {
            Some(t) => t,
            None => return Err(DomainError::TileNotAccessible(target_position.x, target_position.y, target_position.z)),
        };
        if !terrain.is_passable() {
            return Err(DomainError::TileNotAccessible(target_position.x, target_position.y, target_position.z));
        }
        let movement_cost = terrain.movement_cost();
        if player.movement_points() < movement_cost {
            let mut msg = String::from_str("Not enough movement points. Need: ");
            append_decimal(&mut msg, movement_cost as u64);
            msg.append(", Have: ");
            append_decimal(&mut msg, player.movement_points() as u64);
            return Err(DomainError::InsufficientResources(msg));
        }
        let danger = terrain.danger_level();
        let dice_result = match self.roll_movement_dice(player_level, Some(terrain), danger) {
            Ok(d) => d,
            Err(e) => return Err(e),
        };
        let event = match self.generate_movement_event(&dice_result, &target_position) {
            Ok(e) => e,
            Err(e) => return Err(e),
        };
        Ok(MovementResult { success: true, target_position, movement_cost, dice_result, triggered_event: event })
    }
}

impl Default for TileMovementService {
    fn default() -> (r: Self)
        ensures
            r.templates() == standard_templates(),
    {
        Self::new()
    }
}

} // verus!
