//! The player character: position, stats, progression, equipment and effects.
use crate::clock::utc_now_millis;
use crate::domain::constants::{BASE_ACTION_POINTS, BASE_MOVEMENT_POINTS, MAX_PLAYER_LEVEL};
use crate::domain::value_objects::resources::{ResourceCollection, ResourceType};
use crate::domain::value_objects::{level_for_points, EntityId, Experience, GameTime, PlayerStats, Position3D, StatType};
use crate::domain::value_objects::{half_toward_zero, signed_byte};
use crate::domain::{DomainError, DomainResult};
use crate::text::{byte_len, utf8_len};
use vstd::prelude::*;

verus! {

/// Position of a stat in declaration order.
pub open spec fn stat_index(t: StatType) -> int {
    match t {
        StatType::Strength => 0,
        StatType::Dexterity => 1,
        StatType::Intelligence => 2,
        StatType::Charisma => 3,
        StatType::Luck => 4,
        StatType::Endurance => 5,
    }
}

fn stat_position(t: StatType) -> (r: usize)
    ensures
        r == stat_index(t),
{
    match t {
        StatType::Strength => 0,
        StatType::Dexterity => 1,
        StatType::Intelligence => 2,
        StatType::Charisma => 3,
        StatType::Luck => 4,
        StatType::Endurance => 5,
    }
}

/// A bonus or penalty per stat (zero where none is given).
#[derive(Debug, Clone, Copy, PartialEq, Eq)]
pub struct StatModifiers {
    values: [i8; 6],
}

impl StatModifiers {
    /// The modifier given to a stat.
    pub closed spec fn spec_get(&self, t: StatType) -> i8 {
        self.values@[stat_index(t)]
    }

    /// No modifiers.
    pub fn new() -> (r: Self)
        ensures
            forall|t: StatType| #[trigger] r.spec_get(t) == 0,
    {
        StatModifiers { values: [0i8; 6] }
    }

    /// Set the modifier of a stat.
    pub fn insert(&mut self, stat: StatType, value: i8)
        ensures
            final(self).spec_get(stat) == value,
            forall|t: StatType| t != stat ==> #[trigger] final(self).spec_get(t) == old(self).spec_get(t),
    {
        self.values.set(stat_position(stat), value);
    }

    /// The modifier given to a stat (zero if none).
    pub fn get(&self, stat: StatType) -> (r: i8)
        ensures
            r == self.spec_get(stat),
    {
        self.values[stat_position(stat)]
    }
}

/// Places where equipment is worn.
#[derive(Debug, Clone, Copy, PartialEq, Eq, Hash, Structural)]
pub enum EquipmentSlot {
    MainHand,
    OffHand,
    Head,
    Body,
    Legs,
    Feet,
    Accessory1,
    Accessory2,
}

/// Position of a slot in declaration order.
pub open spec fn slot_index(s: EquipmentSlot) -> int {
    match s {
        EquipmentSlot::MainHand => 0,
        EquipmentSlot::OffHand => 1,
        EquipmentSlot::Head => 2,
        EquipmentSlot::Body => 3,
        EquipmentSlot::Legs => 4,
        EquipmentSlot::Feet => 5,
        EquipmentSlot::Accessory1 => 6,
        EquipmentSlot::Accessory2 => 7,
    }
}

fn slot_position(s: EquipmentSlot) -> (r: usize)
    ensures
        r == slot_index(s),
{
    match s {
        EquipmentSlot::MainHand => 0,
        EquipmentSlot::OffHand => 1,
        EquipmentSlot::Head => 2,
        EquipmentSlot::Body => 3,
        EquipmentSlot::Legs => 4,
        EquipmentSlot::Feet => 5,
        EquipmentSlot::Accessory1 => 6,
        EquipmentSlot::Accessory2 => 7,
    }
}

impl EquipmentSlot {
    /// Display name of the slot.
    pub open spec fn spec_name(self) -> Seq<char> {
        match self {
            EquipmentSlot::MainHand => "Main Hand"@,
            EquipmentSlot::OffHand => "Off Hand"@,
            EquipmentSlot::Head => "Head"@,
            EquipmentSlot::Body => "Body"@,
            EquipmentSlot::Legs => "Legs"@,
            EquipmentSlot::Feet => "Feet"@,
            EquipmentSlot::Accessory1 => "Accessory 1"@,
            EquipmentSlot::Accessory2 => "Accessory 2"@,
        }
    }

    /// Display name of the slot.
    pub fn name(&self) -> (r: &'static str)
        ensures
            r@ == self.spec_name(),
    {
        match self {
            EquipmentSlot::MainHand => "Main Hand",
            EquipmentSlot::OffHand => "Off Hand",
            EquipmentSlot::Head => "Head",
            EquipmentSlot::Body => "Body",
            EquipmentSlot::Legs => "Legs",
            EquipmentSlot::Feet => "Feet",
            EquipmentSlot::Accessory1 => "Accessory 1",
            EquipmentSlot::Accessory2 => "Accessory 2",
        }
    }

    /// Display name of the slot.
    pub fn to_string(&self) -> (r: String)
        ensures
            r@ == self.spec_name(),
    {
        String::from_str(self.name())
    }
}

/// Kinds of equipment.
#[derive(Debug, Clone, Copy, PartialEq, Eq, Structural)]
pub enum EquipmentType {
    Weapon,
    Shield,
    Helmet,
    Armor,
    Pants,
    Boots,
    Ring,
    Amulet,
    Tool,
}

impl EquipmentType {
    /// The slots equipment of this type can be worn in, in order.
    pub open spec fn spec_valid_slots(self) -> Seq<EquipmentSlot> {
        match self {
            EquipmentType::Weapon => seq![EquipmentSlot::MainHand, EquipmentSlot::OffHand],
            EquipmentType::Shield => seq![EquipmentSlot::OffHand],
            EquipmentType::Helmet => seq![EquipmentSlot::Head],
            EquipmentType::Armor => seq![EquipmentSlot::Body],
            EquipmentType::Pants => seq![EquipmentSlot::Legs],
            EquipmentType::Boots => seq![EquipmentSlot::Feet],
            EquipmentType::Ring => seq![EquipmentSlot::Accessory1, EquipmentSlot::Accessory2],
            EquipmentType::Amulet => seq![EquipmentSlot::Accessory1, EquipmentSlot::Accessory2],
            EquipmentType::Tool => seq![EquipmentSlot::MainHand, EquipmentSlot::OffHand],
        }
    }

    /// The slots equipment of this type can be worn in, in order.
    pub fn valid_slots(&self) -> (r: Vec<EquipmentSlot>)
        ensures
            r@ == self.spec_valid_slots(),
    {
        let r = match self {
            EquipmentType::Weapon => vec![EquipmentSlot::MainHand, EquipmentSlot::OffHand],
            EquipmentType::Shield => vec![EquipmentSlot::OffHand],
            EquipmentType::Helmet => vec![EquipmentSlot::Head],
            EquipmentType::Armor => vec![EquipmentSlot::Body],
            EquipmentType::Pants => vec![EquipmentSlot::Legs],
            EquipmentType::Boots => vec![EquipmentSlot::Feet],
            EquipmentType::Ring => vec![EquipmentSlot::Accessory1, EquipmentSlot::Accessory2],
            EquipmentType::Amulet => vec![EquipmentSlot::Accessory1, EquipmentSlot::Accessory2],
            EquipmentType::Tool => vec![EquipmentSlot::MainHand, EquipmentSlot::OffHand],
        };
        assert(r@ =~= self.spec_valid_slots());
        r
    }
}

/// A piece of equipment.
#[derive(Debug, Clone, PartialEq)]
pub struct Equipment {
    pub name: String,
    pub equipment_type: EquipmentType,
    pub stat_modifiers: StatModifiers,
    pub carrying_capacity_bonus: u32,
    pub description: String,
}

impl Equipment {
    /// Equipment from its parts.
    pub fn new(name: String, equipment_type: EquipmentType, stat_modifiers: StatModifiers, carrying_capacity_bonus: u32, description: String) -> (r: Self)
        ensures
            r.name@ == name@,
            r.equipment_type == equipment_type,
            r.stat_modifiers == stat_modifiers,
            r.carrying_capacity_bonus == carrying_capacity_bonus,
            r.description@ == description@,
    {
        Equipment { name, equipment_type, stat_modifiers, carrying_capacity_bonus, description }
    }

    /// Whether the equipment can be worn in a slot.
    pub fn can_equip_in_slot(&self, slot: EquipmentSlot) -> (r: bool)
        ensures
            r == self.equipment_type.spec_valid_slots().contains(slot),
    {
        let slots = self.equipment_type.valid_slots();
        let mut i: usize = 0;
        while i < slots.len()
            invariant
                0 <= i <= slots@.len(),
                slots@ == self.equipment_type.spec_valid_slots(),
                forall|k: int| 0 <= k < i ==> slots@[k] != slot,
            decreases slots@.len() - i,
        {
            if slots[i] == slot {
                return true;
            }
            i = i + 1;
        }
        false
    }

    /// The modifier the equipment gives to a stat (zero if none).
    pub fn get_stat_modifier(&self, stat_type: StatType) -> (r: i8)
        ensures
            r == self.stat_modifiers.spec_get(stat_type),
    {
        self.stat_modifiers.get(stat_type)
    }
}

/// The modifier worn equipment gives a stat, summed over the first `n` slots.
pub open spec fn worn_modifier_sum(slots: Seq<Option<Equipment>>, stat: StatType, n: int) -> int
    decreases n,
{
    if n <= 0 {
        0
    } else {
        worn_modifier_sum(slots, stat, n - 1) + match slots[n - 1] {
            Some(e) => e.stat_modifiers.spec_get(stat) as int,
            None => 0,
        }
    }
}

/// The carrying capacity bonus of worn equipment, summed over the first `n` slots.
pub open spec fn worn_capacity_sum(slots: Seq<Option<Equipment>>, n: int) -> int
    decreases n,
{
    if n <= 0 {
        0
    } else {
        worn_capacity_sum(slots, n - 1) + match slots[n - 1] {
            Some(e) => e.carrying_capacity_bonus as int,
            None => 0,
        }
    }
}

/// Eight empty slots.
fn empty_slots() -> (r: Vec<Option<Equipment>>)
    ensures
        r@.len() == 8,
        forall|k: int| 0 <= k < 8 ==> (#[trigger] r@[k]) is None,
{
    let mut slots: Vec<Option<Equipment>> = Vec::new();
    let mut i: usize = 0;
    while i < 8
        invariant
            0 <= i <= 8,
            slots@.len() == i,
            forall|k: int| 0 <= k < i ==> (#[trigger] slots@[k]) is None,
        decreases 8 - i,
    {
        slots.push(None);
        i = i + 1;
    }
    slots
}

/// The equipment worn by the player, one item at most per slot.
#[derive(Debug, PartialEq)]
pub struct PlayerEquipment {
    slots: Vec<Option<Equipment>>,
}

impl Clone for PlayerEquipment {
    fn clone(&self) -> (r: Self)
        ensures
            r.worn().len() == 8,
    {
        proof { use_type_invariant(self); }
        PlayerEquipment { slots: self.slots.clone() }
    }
}

impl PlayerEquipment {
    #[verifier::type_invariant]
    spec fn one_entry_per_slot(self) -> bool {
        self.slots@.len() == 8
    }

    /// The item worn in each slot, in slot order.
    pub closed spec fn worn(&self) -> Seq<Option<Equipment>> {
        self.slots@
    }

    /// The item worn in a slot, if any.
    pub open spec fn equipped(&self, slot: EquipmentSlot) -> Option<Equipment> {
        self.worn()[slot_index(slot)]
    }

    /// The summed modifier that worn equipment gives a stat.
    pub open spec fn spec_stat_modifier(&self, stat: StatType) -> int {
        worn_modifier_sum(self.worn(), stat, 8)
    }

    /// The summed carrying capacity bonus of worn equipment.
    pub open spec fn spec_capacity_bonus(&self) -> int {
        worn_capacity_sum(self.worn(), 8)
    }

    /// Nothing worn.
    pub fn new() -> (r: Self)
        ensures
            r.worn().len() == 8,
            forall|s: EquipmentSlot| #[trigger] r.equipped(s) is None,
    {
        PlayerEquipment { slots: empty_slots() }
    }

    /// Wear an item in a slot, giving back what was worn there; fails, changing
    /// nothing, when the item does not fit the slot.
    pub fn equip(&mut self, slot: EquipmentSlot, item: Equipment) -> (r: DomainResult<Option<Equipment>>)
        ensures
            final(self).worn().len() == 8,
            r is Ok <==> item.equipment_type.spec_valid_slots().contains(slot),
            r is Err ==> (r matches Err(DomainError::PlayerError(_))) && final(self).worn() == old(self).worn(),
            r matches Ok(previous) ==> previous == old(self).equipped(slot)
                && final(self).worn() == old(self).worn().update(slot_index(slot), Some(item)),
            r is Ok ==> final(self).equipped(slot) == Some(item),
            forall|s: EquipmentSlot| s != slot ==> #[trigger] final(self).equipped(s) == old(self).equipped(s),
            r is Err ==> final(self).equipped(slot) == old(self).equipped(slot),
    {
        proof { use_type_invariant(&*self); }
        if !item.can_equip_in_slot(slot) {
            let mut msg = String::from_str("Cannot equip ");
            msg.append(item.name.as_str());
            msg.append(" in ");
            msg.append(slot.name());
            msg.append(" slot");
            return Err(DomainError::PlayerError(msg));
        }
        let i = slot_position(slot);
        let mut slots = empty_slots();
        std::mem::swap(&mut slots, &mut self.slots);
        let previous = slots.remove(i);
        slots.insert(i, Some(item));
        self.slots = slots;
        assert(self.slots@ =~= old(self).slots@.update(i as int, Some(item)));
        Ok(previous)
    }

    /// Take off what is worn in a slot.
    pub fn unequip(&mut self, slot: EquipmentSlot) -> (r: Option<Equipment>)
        ensures
            final(self).worn().len() == 8,
            r == old(self).equipped(slot),
            final(self).worn() == old(self).worn().update(slot_index(slot), None),
            final(self).equipped(slot) is None,
            forall|s: EquipmentSlot| s != slot ==> #[trigger] final(self).equipped(s) == old(self).equipped(s),
    {
        proof { use_type_invariant(&*self); }
        let i = slot_position(slot);
        let mut slots = empty_slots();
        std::mem::swap(&mut slots, &mut self.slots);
        let previous = slots.remove(i);
        slots.insert(i, None);
        self.slots = slots;
        assert(self.slots@ =~= old(self).slots@.update(i as int, None));
        previous
    }

    /// What is worn in a slot.
    pub fn get_equipped(&self, slot: EquipmentSlot) -> (r: Option<&Equipment>)
        ensures
            r is None <==> self.equipped(slot) is None,
            r matches Some(e) ==> self.equipped(slot) == Some(*e),
    {
        proof { use_type_invariant(self); }
        match &self.slots[slot_position(slot)] {
            Some(e) => Some(e),
            None => None,
        }
    }

    /// The summed modifier that worn equipment gives a stat.
    pub fn get_stat_modifier(&self, stat_type: StatType) -> (r: i8)
        requires
            i8::MIN <= self.spec_stat_modifier(stat_type) <= i8::MAX,
        ensures
            r == self.spec_stat_modifier(stat_type),
    {
        proof { use_type_invariant(self); }
        let mut total: i32 = 0;
        let mut i: usize = 0;
        while i < 8
            invariant
                0 <= i <= 8,
                self.slots@.len() == 8,
                total == worn_modifier_sum(self.slots@, stat_type, i as int),
                -128 * i <= total <= 127 * i,
            decreases 8 - i,
        {
            match &self.slots[i] {
                Some(item) => {
                    total = total + item.get_stat_modifier(stat_type) as i32;
                },
                None => {},
            }
            i = i + 1;
        }
        total as i8
    }

    /// The summed carrying capacity bonus of worn equipment.
    pub fn get_carrying_capacity_bonus(&self) -> (r: u32)
        requires
            self.spec_capacity_bonus() <= u32::MAX,
        ensures
            r == self.spec_capacity_bonus(),
    {
        proof { use_type_invariant(self); }
        let mut total: u64 = 0;
        let mut i: usize = 0;
        while i < 8
            invariant
                0 <= i <= 8,
                self.slots@.len() == 8,
                total == worn_capacity_sum(self.slots@, i as int),
                total <= u32::MAX * i,
            decreases 8 - i,
        {
            match &self.slots[i] {
                Some(item) => {
                    total = total + item.carrying_capacity_bonus as u64;
                },
                None => {},
            }
            i = i + 1;
        }
        total as u32
    }

    /// Whether something is worn in a slot.
    pub fn is_slot_equipped(&self, slot: EquipmentSlot) -> (r: bool)
        ensures
            r == (self.equipped(slot) is Some),
    {
        proof { use_type_invariant(self); }
        self.slots[slot_position(slot)].is_some()
    }
}

impl Default for PlayerEquipment {
    fn default() -> (r: Self)
        ensures
            r.worn().len() == 8,
            forall|s: EquipmentSlot| #[trigger] r.equipped(s) is None,
    {
        Self::new()
    }
}

/// Kinds of status effect.
#[derive(Debug, Clone, Copy, PartialEq, Eq, Hash, Structural)]
pub enum StatusEffectType {
    Blessed,
    Cursed,
    Poisoned,
    Energized,
    Exhausted,
    Protected,
    Vulnerable,
    Paralyzed,
    Stunned,
    Lucky,
    Unlucky,
}

/// A temporary effect on the player.
#[derive(Debug, Clone, PartialEq)]
pub struct StatusEffect {
    pub effect_type: StatusEffectType,
    pub duration: GameTime,
    pub applied_at: GameTime,
    pub stat_modifiers: StatModifiers,
    pub description: String,
}

impl StatusEffect {
    /// Whether the effect has run out at `current_time`.
    pub open spec fn spec_is_expired(&self, current_time: GameTime) -> bool {
        current_time.secs() >= self.applied_at.secs() + self.duration.secs()
    }

    /// Whether the effect keeps the player from acting.
    pub open spec fn spec_is_incapacitating(&self) -> bool {
        self.effect_type is Paralyzed || self.effect_type is Stunned
    }

    /// An effect from its parts.
    pub fn new(effect_type: StatusEffectType, duration: GameTime, applied_at: GameTime, stat_modifiers: StatModifiers, description: String) -> (r: Self)
        ensures
            r.effect_type == effect_type,
            r.duration == duration,
            r.applied_at == applied_at,
            r.stat_modifiers == stat_modifiers,
            r.description@ == description@,
    {
        StatusEffect { effect_type, duration, applied_at, stat_modifiers, description }
    }

    /// Whether the effect has run out at `current_time`.
    pub fn is_expired(&self, current_time: GameTime) -> (r: bool)
        ensures
            r == self.spec_is_expired(current_time),
    {
        current_time.seconds() as u64 >= self.applied_at.seconds() as u64 + self.duration.seconds() as u64
    }

    /// Whether the effect keeps the player from acting.
    pub fn is_incapacitating(&self) -> (r: bool)
        ensures
            r == self.spec_is_incapacitating(),
    {
        matches!(self.effect_type, StatusEffectType::Paralyzed | StatusEffectType::Stunned)
    }
}

/// The effects of `s` whose type differs from `t`, in order.
pub open spec fn effects_without_type(s: Seq<StatusEffect>, t: StatusEffectType) -> Seq<StatusEffect>
    decreases s.len(),
{
    if s.len() == 0 {
        s
    } else {
        let rest = effects_without_type(s.drop_first(), t);
        if s[0].effect_type != t { seq![s[0]] + rest } else { rest }
    }
}

/// The effects of `s` not expired at `time`, in order.
pub open spec fn unexpired_effects(s: Seq<StatusEffect>, time: GameTime) -> Seq<StatusEffect>
    decreases s.len(),
{
    if s.len() == 0 {
        s
    } else {
        let rest = unexpired_effects(s.drop_first(), time);
        if !s[0].spec_is_expired(time) { seq![s[0]] + rest } else { rest }
    }
}

/// Places the player has been, each once, in the order first visited, with the
/// time of the first visit.
#[derive(Debug, Clone, PartialEq)]
pub struct ExplorationData {
    visits: Vec<(Position3D, i64)>,
    total_distance: u32,
}

impl ExplorationData {
    /// The places visited, in the order first visited.
    pub closed spec fn visited(&self) -> Seq<Position3D> {
        self.visits@.map_values(|v: (Position3D, i64)| v.0)
    }

    /// The distance travelled.
    pub closed spec fn spec_total_distance(&self) -> u32 {
        self.total_distance
    }

    /// No place visited yet.
    pub fn new() -> (r: Self)
        ensures
            r.visited().len() == 0,
            r.spec_total_distance() == 0,
    {
        ExplorationData { visits: Vec::new(), total_distance: 0 }
    }

    /// Record a visit; a new place is added, and counts one step of distance unless
    /// it is the first place.
    pub fn visit_location(&mut self, position: Position3D)
        requires
            old(self).spec_total_distance() < u32::MAX,
        ensures
            old(self).visited().contains(position) ==> final(self).visited() == old(self).visited()
                && final(self).spec_total_distance() == old(self).spec_total_distance(),
            !old(self).visited().contains(position) ==> final(self).visited() == old(self).visited().push(position)
                && final(self).spec_total_distance() == old(self).spec_total_distance()
                    + (if old(self).visited().len() > 0 { 1int } else { 0int }),
    {
        if self.has_visited(&position) {
            return;
        }
        let now = utc_now_millis();
        self.visits.push((position, now));
        assert(self.visited() =~= old(self).visited().push(position));
        if self.visits.len() > 1 {
            self.total_distance = self.total_distance + 1;
        }
    }

    /// Whether a place has been visited.
    pub fn has_visited(&self, position: &Position3D) -> (r: bool)
        ensures
            r == self.visited().contains(*position),
    {
        let mut i: usize = 0;
        while i < self.visits.len()
            invariant
                0 <= i <= self.visits@.len(),
                forall|k: int| 0 <= k < i ==> self.visits@[k].0 != *position,
            decreases self.visits@.len() - i,
        {
            if self.visits[i].0 == *position {
                assert(self.visited()[i as int] == *position);
                return true;
            }
            i = i + 1;
        }
        assert(!self.visited().contains(*position)) by {
            if self.visited().contains(*position) {
                let k = choose|k: int| 0 <= k < self.visited().len() && self.visited()[k] == *position;
                assert(self.visits@[k].0 == *position);
            }
        }
        false
    }

    /// The distance travelled.
    pub fn total_distance(&self) -> (r: u32)
        ensures
            r == self.spec_total_distance(),
    {
        self.total_distance
    }

    /// Number of places visited.
    pub fn locations_visited(&self) -> (r: usize)
        ensures
            r == self.visited().len(),
    {
        self.visits.len()
    }

    /// When a place was first visited (milliseconds since the epoch), if it was.
    pub fn first_visit_time(&self, position: &Position3D) -> (r: Option<i64>)
        ensures
            r is Some <==> self.visited().contains(*position),
    {
        let mut i: usize = 0;
        while i < self.visits.len()
            invariant
                0 <= i <= self.visits@.len(),
                forall|k: int| 0 <= k < i ==> self.visits@[k].0 != *position,
            decreases self.visits@.len() - i,
        {
            if self.visits[i].0 == *position {
                assert(self.visited()[i as int] == *position);
                return Some(self.visits[i].1);
            }
            i = i + 1;
        }
        assert(!self.visited().contains(*position)) by {
            if self.visited().contains(*position) {
                let k = choose|k: int| 0 <= k < self.visited().len() && self.visited()[k] == *position;
                assert(self.visits@[k].0 == *position);
            }
        }
        None
    }
}

impl Default for ExplorationData {
    fn default() -> (r: Self)
        ensures
            r.visited().len() == 0,
            r.spec_total_distance() == 0,
    {
        Self::new()
    }
}

/// A summary of the player for display.
#[derive(Debug, Clone, PartialEq)]
pub struct PlayerSummary {
    pub name: String,
    pub level: u32,
    pub position: Position3D,
    pub movement_points: u8,
    pub action_points: u8,
    pub total_resources_value: u32,
    pub locations_visited: usize,
    pub is_overloaded: bool,
}

/// The player character.
#[derive(Debug, Clone, PartialEq)]
pub struct Player {
    id: EntityId,
    name: String,
    position: Position3D,
    stats: PlayerStats,
    experience: Experience,
    resources: ResourceCollection,
    movement_points: u8,
    action_points: u8,
    max_movement_points: u8,
    max_action_points: u8,
    equipment: PlayerEquipment,
    status_effects: Vec<StatusEffect>,
    exploration_data: ExplorationData,
    created_at: i64,
    last_updated: i64,
    version: u64,
}

/// Whether a player name has from 1 to 50 bytes.
pub open spec fn valid_player_name(name: Seq<char>) -> bool {
    name.len() > 0 && utf8_len(name) <= 50
}

/// Whether some effect of `s` keeps the player from acting.
pub open spec fn any_incapacitating(s: Seq<StatusEffect>) -> bool {
    exists|i: int| 0 <= i < s.len() && (#[trigger] s[i]).spec_is_incapacitating()
}

/// `a + b` capped at `cap`.
pub open spec fn add_capped(a: int, b: int, cap: int) -> int {
    let sum = if a + b > u8::MAX { u8::MAX as int } else { a + b };
    if sum < cap { sum } else { cap }
}

impl Player {
    /// The identity of the player.
    pub closed spec fn spec_id(&self) -> EntityId { self.id }

    /// When the player was created (milliseconds since the epoch, UTC).
    pub closed spec fn spec_created_at(&self) -> i64 { self.created_at }

    /// When the player last changed (milliseconds since the epoch, UTC).
    pub closed spec fn spec_last_updated(&self) -> i64 { self.last_updated }

    /// The name of the player.
    pub closed spec fn spec_name(&self) -> Seq<char> { self.name@ }

    /// Where the player stands.
    pub closed spec fn spec_position(&self) -> Position3D { self.position }

    /// The player's stats.
    pub closed spec fn spec_stats(&self) -> PlayerStats { self.stats }

    /// The player's experience.
    pub closed spec fn spec_experience(&self) -> Experience { self.experience }

    /// The resources the player carries.
    pub closed spec fn spec_resources(&self) -> ResourceCollection { self.resources }

    /// Movement points left this turn.
    pub closed spec fn spec_movement_points(&self) -> u8 { self.movement_points }

    /// Action points left this turn.
    pub closed spec fn spec_action_points(&self) -> u8 { self.action_points }

    /// Movement points at the start of a turn.
    pub closed spec fn spec_max_movement_points(&self) -> u8 { self.max_movement_points }

    /// Action points at the start of a turn.
    pub closed spec fn spec_max_action_points(&self) -> u8 { self.max_action_points }

    /// The equipment worn.
    pub closed spec fn spec_equipment(&self) -> PlayerEquipment { self.equipment }

    /// The status effects on the player, in the order applied.
    pub closed spec fn spec_status_effects(&self) -> Seq<StatusEffect> { self.status_effects@ }

    /// Where the player has been.
    pub closed spec fn spec_exploration(&self) -> ExplorationData { self.exploration_data }

    /// Number of changes made to the player.
    pub closed spec fn spec_version(&self) -> u64 { self.version }

    /// The player's level.
    pub open spec fn spec_level(&self) -> u32 { self.spec_experience().spec_level() }

    /// Whether an effect keeps the player from acting.
    pub open spec fn spec_incapacitated(&self) -> bool { any_incapacitating(self.spec_status_effects()) }

    /// Identity, name, position, stats, experience, resources, equipment, effects
    /// and exploration agree.
    pub open spec fn same_character(&self, other: &Player) -> bool {
        &&& self.spec_id() == other.spec_id()
        &&& self.spec_name() == other.spec_name()
        &&& self.spec_position() == other.spec_position()
        &&& self.spec_stats() == other.spec_stats()
        &&& self.spec_experience() == other.spec_experience()
        &&& self.spec_resources() == other.spec_resources()
        &&& self.spec_equipment() == other.spec_equipment()
        &&& self.spec_status_effects() == other.spec_status_effects()
        &&& self.spec_exploration() == other.spec_exploration()
    }

    /// The four point counters agree.
    pub open spec fn same_points(&self, other: &Player) -> bool {
        &&& self.spec_movement_points() == other.spec_movement_points()
        &&& self.spec_action_points() == other.spec_action_points()
        &&& self.spec_max_movement_points() == other.spec_max_movement_points()
        &&& self.spec_max_action_points() == other.spec_max_action_points()
    }

    /// A new player at level 1 with the starting resources and points, who has
    /// visited the starting position; the name must have 1 to 50 bytes.
    pub fn new(id: EntityId, name: String, starting_position: Position3D, starting_stats: PlayerStats) -> (r: DomainResult<Self>)
        ensures
            r is Ok <==> valid_player_name(name@),
            r is Err ==> r matches Err(DomainError::PlayerError(_)),
            r matches Ok(p) ==> {
                &&& p.spec_id() == id && p.spec_name() == name@ && p.spec_position() == starting_position
                &&& p.spec_stats() == starting_stats
                &&& p.spec_experience().spec_points() == 0 && p.spec_level() == level_for_points(0)
                &&& (forall|t: ResourceType| #[trigger] p.spec_resources().amount(t) == match t {
                    ResourceType::Metal => 50u32,
                    ResourceType::Energy => 30u32,
                    ResourceType::Food => 20u32,
                    ResourceType::Technology => 5u32,
                    _ => 0u32,
                })
                &&& p.spec_movement_points() == BASE_MOVEMENT_POINTS && p.spec_max_movement_points() == BASE_MOVEMENT_POINTS
                &&& p.spec_action_points() == BASE_ACTION_POINTS && p.spec_max_action_points() == BASE_ACTION_POINTS
                &&& (forall|s: EquipmentSlot| #[trigger] p.spec_equipment().equipped(s) is None)
                &&& p.spec_status_effects().len() == 0
                &&& p.spec_exploration().visited() == seq![starting_position]
                &&& p.spec_exploration().spec_total_distance() == 0
                &&& p.spec_version() == 1
            },
    {
        if name.as_str().is_empty() || byte_len(name.as_str()) > 50 {
            return Err(DomainError::PlayerError(String::from_str("Player name must be between 1 and 50 characters")));
        }
        let experience = match Experience::new(0) {
            Ok(e) => e,
            Err(e) => return Err(e),
        };
        let resources = ResourceCollection::starting_resources();
        let now = utc_now_millis();
        let mut exploration_data = ExplorationData::new();
        exploration_data.visit_location(starting_position);
        Ok(Player {
            id,
            name,
            position: starting_position,
            stats: starting_stats,
            experience,
            resources,
            movement_points: BASE_MOVEMENT_POINTS,
            action_points: BASE_ACTION_POINTS,
            max_movement_points: BASE_MOVEMENT_POINTS,
            max_action_points: BASE_ACTION_POINTS,
            equipment: PlayerEquipment::new(),
            status_effects: Vec::new(),
            exploration_data,
            created_at: now,
            last_updated: now,
            version: 1,
        })
    }

    /// A new player with a fresh identity and the starting stats.
    pub fn create_new_character(name: String, starting_position: Position3D) -> (r: DomainResult<Self>)
        ensures
            r is Ok <==> valid_player_name(name@),
            r matches Ok(p) ==> p.spec_name() == name@ && p.spec_position() == starting_position
                && p.spec_stats() == PlayerStats::starting_stats_spec()
                && p.spec_movement_points() == BASE_MOVEMENT_POINTS && p.spec_action_points() == BASE_ACTION_POINTS
                && p.spec_level() == level_for_points(0) && p.spec_status_effects().len() == 0
                && p.spec_exploration().visited() == seq![starting_position]
                && p.spec_exploration().spec_total_distance() == 0 && p.spec_version() == 1,
    {
        let id = EntityId::generate();
        let stats = PlayerStats::starting_stats();
        Self::new(id, name, starting_position, stats)
    }

    /// The identity of the player.
    pub fn id(&self) -> (r: &EntityId)
        ensures *r == self.spec_id(),
    {
        &self.id
    }

    /// The name of the player.
    pub fn name(&self) -> (r: &str)
        ensures r@ == self.spec_name(),
    {
        self.name.as_str()
    }

    /// Where the player stands.
    pub fn position(&self) -> (r: &Position3D)
        ensures *r == self.spec_position(),
    {
        &self.position
    }

    /// The player's stats.
    pub fn stats(&self) -> (r: &PlayerStats)
        ensures *r == self.spec_stats(),
    {
        &self.stats
    }

    /// The player's experience.
    pub fn experience(&self) -> (r: &Experience)
        ensures *r == self.spec_experience(),
    {
        &self.experience
    }

    /// The player's level.
    pub fn level(&self) -> (r: u32)
        ensures r == self.spec_level(),
    {
        self.experience.level()
    }

    /// The resources the player carries.
    pub fn resources(&self) -> (r: &ResourceCollection)
        ensures *r == self.spec_resources(),
    {
        &self.resources
    }

    /// The resources the player carries, to change in place; taking them counts as a
    /// change of the player.
    pub fn resources_mut(&mut self) -> (r: &mut ResourceCollection)
        requires
            old(self).spec_version() < u64::MAX,
        ensures
            *r == old(self).spec_resources(),
            final(self).spec_resources() == *final(r),
            final(self).spec_version() == old(self).spec_version() + 1,
            final(self).spec_id() == old(self).spec_id(),
            final(self).spec_name() == old(self).spec_name(),
            final(self).spec_position() == old(self).spec_position(),
            final(self).spec_stats() == old(self).spec_stats(),
            final(self).spec_experience() == old(self).spec_experience(),
            final(self).spec_equipment() == old(self).spec_equipment(),
            final(self).spec_status_effects() == old(self).spec_status_effects(),
            final(self).spec_exploration() == old(self).spec_exploration(),
            final(self).same_points(&*old(self)),
    {
        self.update_timestamp();
        &mut self.resources
    }

    /// Add resources to what the player carries (a failed addition, past the amount
    /// limit, keeps the types added before it); the change is recorded.
    pub fn add_resources(&mut self, resources: &ResourceCollection)
        requires
            old(self).spec_version() < u64::MAX,
        ensures
            (forall|t: ResourceType| #[trigger] resources.amount(t) > 0 ==> (resources.amount(t) <= 1_000_000
                && old(self).spec_resources().amount(t) + resources.amount(t) <= 1_000_000))
                ==> (forall|t: ResourceType| #[trigger] final(self).spec_resources().amount(t)
                    == old(self).spec_resources().amount(t) + resources.amount(t)),
            forall|t: ResourceType| #[trigger] final(self).spec_resources().amount(t) == old(self).spec_resources().amount(t)
                || final(self).spec_resources().amount(t) == old(self).spec_resources().amount(t) + resources.amount(t),
            final(self).spec_version() == old(self).spec_version() + 1,
            final(self).same_points(&*old(self)),
            final(self).spec_experience() == old(self).spec_experience(),
            final(self).spec_position() == old(self).spec_position(),
            final(self).spec_stats() == old(self).spec_stats(),
    {
        let _ = self.resources.add_collection(resources);
        self.update_timestamp();
    }

    /// Movement points left this turn.
    pub fn movement_points(&self) -> (r: u8)
        ensures r == self.spec_movement_points(),
    {
        self.movement_points
    }

    /// Action points left this turn.
    pub fn action_points(&self) -> (r: u8)
        ensures r == self.spec_action_points(),
    {
        self.action_points
    }

    /// Movement points at the start of a turn.
    pub fn max_movement_points(&self) -> (r: u8)
        ensures r == self.spec_max_movement_points(),
    {
        self.max_movement_points
    }

    /// Action points at the start of a turn.
    pub fn max_action_points(&self) -> (r: u8)
        ensures r == self.spec_max_action_points(),
    {
        self.max_action_points
    }

    /// Whether the player can move: movement points left and not incapacitated.
    pub fn can_move(&self) -> (r: bool)
        ensures r == (self.spec_movement_points() > 0 && !self.spec_incapacitated()),
    {
        self.movement_points > 0 && !self.is_incapacitated()
    }

    /// Whether the player can act: action points left and not incapacitated.
    pub fn can_act(&self) -> (r: bool)
        ensures r == (self.spec_action_points() > 0 && !self.spec_incapacitated()),
    {
        self.action_points > 0 && !self.is_incapacitated()
    }

    /// Move to a position for a cost in movement points; the position is recorded as
    /// visited. Fails, changing nothing, when the player cannot move or lacks points.
    pub fn move_to(&mut self, new_position: Position3D, movement_cost: u8) -> (r: DomainResult<()>)
        requires
            old(self).spec_version() < u64::MAX,
            old(self).spec_exploration().spec_total_distance() < u32::MAX,
        ensures
            r is Ok <==> old(self).spec_movement_points() > 0 && !old(self).spec_incapacitated()
                && old(self).spec_movement_points() >= movement_cost,
            r is Err ==> (r matches Err(DomainError::PlayerError(_))) && *final(self) == *old(self),
            r is Ok ==> {
                &&& final(self).spec_position() == new_position
                &&& final(self).spec_movement_points() == old(self).spec_movement_points() - movement_cost
                &&& final(self).spec_action_points() == old(self).spec_action_points()
                &&& final(self).spec_max_movement_points() == old(self).spec_max_movement_points()
                &&& final(self).spec_max_action_points() == old(self).spec_max_action_points()
                &&& final(self).spec_exploration().visited() == (if old(self).spec_exploration().visited().contains(new_position) {
                    old(self).spec_exploration().visited()
                } else {
                    old(self).spec_exploration().visited().push(new_position)
                })
                &&& final(self).spec_version() == old(self).spec_version() + 1
                &&& final(self).spec_experience() == old(self).spec_experience()
                &&& final(self).spec_status_effects() == old(self).spec_status_effects()
            },
    {
        if !self.can_move() {
            return Err(DomainError::PlayerError(String::from_str("Player cannot move")));
        }
        if self.movement_points < movement_cost {
            let mut msg = String::from_str("Insufficient movement points. Need ");
            crate::text::append_decimal(&mut msg, movement_cost as u64);
            msg.append(", have ");
            crate::text::append_decimal(&mut msg, self.movement_points as u64);
            return Err(DomainError::PlayerError(msg));
        }
        self.position = new_position;
        self.movement_points = self.movement_points - movement_cost;
        self.exploration_data.visit_location(new_position);
        self.update_timestamp();
        Ok(())
    }

    /// Spend action points; fails, changing nothing, when the player cannot act or
    /// lacks points.
    pub fn consume_action_points(&mut self, cost: u8) -> (r: DomainResult<()>)
        requires
            old(self).spec_version() < u64::MAX,
        ensures
            r is Ok <==> old(self).spec_action_points() > 0 && !old(self).spec_incapacitated()
                && old(self).spec_action_points() >= cost,
            r is Err ==> (r matches Err(DomainError::PlayerError(_))) && *final(self) == *old(self),
            r is Ok ==> final(self).spec_action_points() == old(self).spec_action_points() - cost
                && final(self).spec_movement_points() == old(self).spec_movement_points()
                && final(self).same_character(&*old(self))
                && final(self).spec_version() == old(self).spec_version() + 1,
    {
        if !self.can_act() {
            return Err(DomainError::PlayerError(String::from_str("Player cannot take actions")));
        }
        if self.action_points < cost {
            let mut msg = String::from_str("Insufficient action points. Need ");
            crate::text::append_decimal(&mut msg, cost as u64);
            msg.append(", have ");
            crate::text::append_decimal(&mut msg, self.action_points as u64);
            return Err(DomainError::PlayerError(msg));
        }
        self.action_points = self.action_points - cost;
        self.update_timestamp();
        Ok(())
    }

    /// Restore movement and action points to their maximums.
    pub fn restore_points(&mut self)
        requires
            old(self).spec_version() < u64::MAX,
        ensures
            final(self).spec_movement_points() == old(self).spec_max_movement_points(),
            final(self).spec_action_points() == old(self).spec_max_action_points(),
            final(self).spec_max_movement_points() == old(self).spec_max_movement_points(),
            final(self).spec_max_action_points() == old(self).spec_max_action_points(),
            final(self).same_character(&*old(self)),
            final(self).spec_version() == old(self).spec_version() + 1,
    {
        self.movement_points = self.max_movement_points;
        self.action_points = self.max_action_points;
        self.update_timestamp();
    }

    /// Add movement points, up to the maximum.
    pub fn add_movement_points(&mut self, points: u8)
        requires
            old(self).spec_version() < u64::MAX,
        ensures
            final(self).spec_movement_points() == add_capped(old(self).spec_movement_points() as int, points as int,
                old(self).spec_max_movement_points() as int),
            final(self).spec_action_points() == old(self).spec_action_points(),
            final(self).spec_max_movement_points() == old(self).spec_max_movement_points(),
            final(self).spec_max_action_points() == old(self).spec_max_action_points(),
            final(self).same_character(&*old(self)),
            final(self).spec_version() == old(self).spec_version() + 1,
    {
        let sum = self.movement_points.saturating_add(points);
        self.movement_points = if sum < self.max_movement_points { sum } else { self.max_movement_points };
        self.update_timestamp();
    }

    /// Add action points, up to the maximum.
    pub fn add_action_points(&mut self, points: u8)
        requires
            old(self).spec_version() < u64::MAX,
        ensures
            final(self).spec_action_points() == add_capped(old(self).spec_action_points() as int, points as int,
                old(self).spec_max_action_points() as int),
            final(self).spec_movement_points() == old(self).spec_movement_points(),
            final(self).spec_max_movement_points() == old(self).spec_max_movement_points(),
            final(self).spec_max_action_points() == old(self).spec_max_action_points(),
            final(self).same_character(&*old(self)),
            final(self).spec_version() == old(self).spec_version() + 1,
    {
        let sum = self.action_points.saturating_add(points);
        self.action_points = if sum < self.max_action_points { sum } else { self.max_action_points };
        self.update_timestamp();
    }

    /// Remove movement points, stopping at zero.
    pub fn subtract_movement_points(&mut self, points: u8)
        requires
            old(self).spec_version() < u64::MAX,
        ensures
            final(self).spec_movement_points() == (if old(self).spec_movement_points() < points { 0 } else {
                old(self).spec_movement_points() - points
            }),
            final(self).spec_action_points() == old(self).spec_action_points(),
            final(self).spec_max_movement_points() == old(self).spec_max_movement_points(),
            final(self).spec_max_action_points() == old(self).spec_max_action_points(),
            final(self).same_character(&*old(self)),
            final(self).spec_version() == old(self).spec_version() + 1,
    {
        self.movement_points = self.movement_points.saturating_sub(points);
        self.update_timestamp();
    }

    /// Remove action points, stopping at zero.
    pub fn subtract_action_points(&mut self, points: u8)
        requires
            old(self).spec_version() < u64::MAX,
        ensures
            final(self).spec_action_points() == (if old(self).spec_action_points() < points { 0 } else {
                old(self).spec_action_points() - points
            }),
            final(self).spec_movement_points() == old(self).spec_movement_points(),
            final(self).spec_max_movement_points() == old(self).spec_max_movement_points(),
            final(self).spec_max_action_points() == old(self).spec_max_action_points(),
            final(self).same_character(&*old(self)),
            final(self).spec_version() == old(self).spec_version() + 1,
    {
        self.action_points = self.action_points.saturating_sub(points);
        self.update_timestamp();
    }

    /// Gain experience (saturating); on reaching a higher level, the maximum movement
    /// points grow by one, the maximum action points by a tenth of the endurance (at
    /// least one), and the points are restored. Returns whether the level rose.
    pub fn add_experience(&mut self, points: u32) -> (r: DomainResult<bool>)
        requires
            old(self).spec_version() < u64::MAX - 1,
        ensures
            r is Ok,
            final(self).spec_experience().spec_points() == (if old(self).spec_experience().spec_points() + points > u32::MAX {
                u32::MAX as int
            } else {
                old(self).spec_experience().spec_points() + points
            }),
            final(self).spec_level() == level_for_points(final(self).spec_experience().spec_points() as int),
            r matches Ok(up) ==> up == (final(self).spec_level() > old(self).spec_level()),
            r matches Ok(up) ==> up ==> {
                let bonus = old(self).spec_stats().endurance / 10;
                &&& final(self).spec_max_movement_points() == add_capped(old(self).spec_max_movement_points() as int, 1, u8::MAX as int)
                &&& final(self).spec_max_action_points() == add_capped(old(self).spec_max_action_points() as int,
                    if bonus > 1 { bonus as int } else { 1 }, u8::MAX as int)
                &&& final(self).spec_movement_points() == final(self).spec_max_movement_points()
                &&& final(self).spec_action_points() == final(self).spec_max_action_points()
                &&& final(self).spec_version() == old(self).spec_version() + 2
            },
            r matches Ok(up) ==> !up ==> final(self).same_points(&*old(self))
                && final(self).spec_version() == old(self).spec_version() + 1,
            final(self).spec_stats() == old(self).spec_stats(),
            final(self).spec_position() == old(self).spec_position(),
            final(self).spec_resources() == old(self).spec_resources(),
            final(self).spec_status_effects() == old(self).spec_status_effects(),
    {
        let old_level = self.experience.level();
        self.experience = match self.experience.add_points(points) {
            Ok(e) => e,
            Err(e) => return Err(e),
        };
        let new_level = self.experience.level();
        self.update_timestamp();
        if new_level > old_level {
            self.handle_level_up();
            Ok(true)
        } else {
            Ok(false)
        }
    }

    fn handle_level_up(&mut self)
        requires
            old(self).spec_version() < u64::MAX,
        ensures
            final(self).spec_max_movement_points() == add_capped(old(self).spec_max_movement_points() as int, 1, u8::MAX as int),
            final(self).spec_max_action_points() == add_capped(old(self).spec_max_action_points() as int,
                if old(self).spec_stats().endurance / 10 > 1 { (old(self).spec_stats().endurance / 10) as int } else { 1 },
                u8::MAX as int),
            final(self).spec_movement_points() == final(self).spec_max_movement_points(),
            final(self).spec_action_points() == final(self).spec_max_action_points(),
            final(self).same_character(&*old(self)),
            final(self).spec_version() == old(self).spec_version() + 1,
    {
        let endurance_bonus = self.stats.endurance / 10;
        let bonus = if endurance_bonus > 1 { endurance_bonus } else { 1 };
        self.max_movement_points = self.max_movement_points.saturating_add(1);
        self.max_action_points = self.max_action_points.saturating_add(bonus);
        self.restore_points();
    }

    /// Raise a stat by one point; fails, changing nothing, at 20.
    pub fn increase_stat(&mut self, stat_type: StatType) -> (r: DomainResult<()>)
        requires
            old(self).spec_version() < u64::MAX,
        ensures
            r is Ok <==> old(self).spec_stats().stat(stat_type) < 20,
            r is Err ==> (r matches Err(DomainError::InvalidPlayerStats(_))) && *final(self) == *old(self),
            r is Ok ==> final(self).spec_stats().stat(stat_type) == old(self).spec_stats().stat(stat_type) + 1
                && (forall|t: StatType| t != stat_type ==> #[trigger] final(self).spec_stats().stat(t) == old(self).spec_stats().stat(t))
                && final(self).spec_version() == old(self).spec_version() + 1
                && final(self).same_points(&*old(self)),
    {
        self.stats = match self.stats.increase_stat(stat_type) {
            Ok(s) => s,
            Err(e) => return Err(e),
        };
        self.update_timestamp();
        Ok(())
    }

    /// The stat's dice modifier plus what the equipment gives it.
    pub fn get_stat_modifier(&self, stat_type: StatType) -> (r: i8)
        requires
            !(128 <= self.spec_stats().stat(stat_type) <= 137),
            i8::MIN <= self.spec_equipment().spec_stat_modifier(stat_type) <= i8::MAX,
            i8::MIN <= half_toward_zero(signed_byte(self.spec_stats().stat(stat_type)) - 10)
                + self.spec_equipment().spec_stat_modifier(stat_type) <= i8::MAX,
        ensures
            r == half_toward_zero(signed_byte(self.spec_stats().stat(stat_type)) - 10)
                + self.spec_equipment().spec_stat_modifier(stat_type),
    {
        let base_modifier = self.stats.get_modifier(stat_type);
        let equipment_modifier = self.equipment.get_stat_modifier(stat_type);
        base_modifier + equipment_modifier
    }

    /// Whether an effect keeps the player from acting.
    pub fn is_incapacitated(&self) -> (r: bool)
        ensures r == self.spec_incapacitated(),
    {
        let mut i: usize = 0;
        while i < self.status_effects.len()
            invariant
                0 <= i <= self.status_effects@.len(),
                forall|k: int| 0 <= k < i ==> !(#[trigger] self.status_effects@[k]).spec_is_incapacitating(),
            decreases self.status_effects@.len() - i,
        {
            if self.status_effects[i].is_incapacitating() {
                assert(self.status_effects@[i as int].spec_is_incapacitating());
                return true;
            }
            i = i + 1;
        }
        false
    }

    /// The status effects on the player, in the order applied.
    pub fn status_effects(&self) -> (r: &[StatusEffect])
        ensures r@ == self.spec_status_effects(),
    {
        self.status_effects.as_slice()
    }

    /// Apply an effect, replacing any effect of the same type.
    pub fn add_status_effect(&mut self, effect: StatusEffect)
        requires
            old(self).spec_version() < u64::MAX,
        ensures
            final(self).spec_status_effects() == effects_without_type(old(self).spec_status_effects(), effect.effect_type).push(effect),
            final(self).same_points(&*old(self)),
            final(self).spec_position() == old(self).spec_position(),
            final(self).spec_version() == old(self).spec_version() + 1,
    {
        let t = effect.effect_type;
        let mut remaining: Vec<StatusEffect> = Vec::new();
        std::mem::swap(&mut remaining, &mut self.status_effects);
        let ghost all = remaining@;
        let mut kept: Vec<StatusEffect> = Vec::new();
        while remaining.len() > 0
            invariant
                kept@ + effects_without_type(remaining@, t) == effects_without_type(all, t),
            decreases remaining@.len(),
        {
            let ghost before = remaining@;
            let e = remaining.remove(0);
            assert(before.drop_first() =~= remaining@);
            let ghost kb = kept@;
            if e.effect_type != t {
                kept.push(e);
                assert(kept@ + effects_without_type(remaining@, t) =~= kb + (seq![e] + effects_without_type(remaining@, t)));
            }
        }
        kept.push(effect);
        self.status_effects = kept;
        self.update_timestamp();
    }

    /// Drop the effects expired at `current_time`; a change is recorded when some
    /// effect was dropped.
    pub fn update_status_effects(&mut self, current_time: GameTime)
        requires
            old(self).spec_version() < u64::MAX,
        ensures
            final(self).spec_status_effects() == unexpired_effects(old(self).spec_status_effects(), current_time),
            final(self).same_points(&*old(self)),
            final(self).spec_position() == old(self).spec_position(),
            final(self).spec_version() == old(self).spec_version()
                + (if final(self).spec_status_effects().len() != old(self).spec_status_effects().len() { 1int } else { 0int }),
    {
        let initial_count = self.status_effects.len();
        let mut remaining: Vec<StatusEffect> = Vec::new();
        std::mem::swap(&mut remaining, &mut self.status_effects);
        let ghost all = remaining@;
        let mut kept: Vec<StatusEffect> = Vec::new();
        while remaining.len() > 0
            invariant
                kept@ + unexpired_effects(remaining@, current_time) == unexpired_effects(all, current_time),
            decreases remaining@.len(),
        {
            let ghost before = remaining@;
            let e = remaining.remove(0);
            assert(before.drop_first() =~= remaining@);
            let ghost kb = kept@;
            if !e.is_expired(current_time) {
                kept.push(e);
                assert(kept@ + unexpired_effects(remaining@, current_time) =~= kb + (seq![e] + unexpired_effects(remaining@, current_time)));
            }
        }
        assert(kept@ =~= unexpired_effects(all, current_time));
        self.status_effects = kept;
        if self.status_effects.len() != initial_count {
            self.update_timestamp();
        }
    }

    /// Where the player has been.
    pub fn exploration_data(&self) -> (r: &ExplorationData)
        ensures *r == self.spec_exploration(),
    {
        &self.exploration_data
    }

    /// Whether the player has been at a position.
    pub fn has_visited(&self, position: &Position3D) -> (r: bool)
        ensures r == self.spec_exploration().visited().contains(*position),
    {
        self.exploration_data.has_visited(position)
    }

    /// The distance travelled.
    pub fn total_distance_traveled(&self) -> (r: u32)
        ensures r == self.spec_exploration().spec_total_distance(),
    {
        self.exploration_data.total_distance()
    }

    /// Number of places visited.
    pub fn locations_visited_count(&self) -> (r: usize)
        ensures r == self.spec_exploration().visited().len(),
    {
        self.exploration_data.locations_visited()
    }

    /// The equipment worn.
    pub fn equipment(&self) -> (r: &PlayerEquipment)
        ensures *r == self.spec_equipment(),
    {
        &self.equipment
    }

    /// Wear an item in a slot, giving back what was worn there; fails, changing
    /// nothing, when the item does not fit.
    pub fn equip_item(&mut self, slot: EquipmentSlot, item: Equipment) -> (r: DomainResult<Option<Equipment>>)
        requires
            old(self).spec_version() < u64::MAX,
        ensures
            r is Ok <==> item.equipment_type.spec_valid_slots().contains(slot),
            r is Err ==> (r matches Err(DomainError::PlayerError(_))) && final(self).spec_equipment().worn() == old(self).spec_equipment().worn()
                && final(self).spec_version() == old(self).spec_version(),
            r matches Ok(previous) ==> previous == old(self).spec_equipment().equipped(slot)
                && final(self).spec_equipment().worn() == old(self).spec_equipment().worn().update(slot_index(slot), Some(item))
                && final(self).spec_version() == old(self).spec_version() + 1,
            final(self).same_points(&*old(self)),
    {
        let old_item = match self.equipment.equip(slot, item) {
            Ok(o) => o,
            Err(e) => return Err(e),
        };
        self.update_timestamp();
        Ok(old_item)
    }

    /// Take off what is worn in a slot; a change is recorded when something was worn.
    pub fn unequip_item(&mut self, slot: EquipmentSlot) -> (r: Option<Equipment>)
        requires
            old(self).spec_version() < u64::MAX,
        ensures
            r == old(self).spec_equipment().equipped(slot),
            final(self).spec_equipment().worn() == old(self).spec_equipment().worn().update(slot_index(slot), None),
            final(self).spec_version() == old(self).spec_version() + (if r is Some { 1int } else { 0int }),
            final(self).same_points(&*old(self)),
    {
        let item = self.equipment.unequip(slot);
        if item.is_some() {
            self.update_timestamp();
        }
        item
    }

    /// Whether the player has reached a level.
    pub fn meets_level_requirement(&self, required_level: u32) -> (r: bool)
        ensures r == (self.spec_level() >= required_level),
    {
        self.level() >= required_level
    }

    /// When the player was created (milliseconds since the epoch, UTC).
    pub fn created_at(&self) -> (r: i64)
        ensures
            r == self.spec_created_at(),
    {
        self.created_at
    }

    /// When the player last changed (milliseconds since the epoch, UTC).
    pub fn last_updated(&self) -> (r: i64)
        ensures
            r == self.spec_last_updated(),
    {
        self.last_updated
    }

    /// Number of changes made to the player.
    pub fn version(&self) -> (r: u64)
        ensures r == self.spec_version(),
    {
        self.version
    }

    fn update_timestamp(&mut self)
        requires
            old(self).spec_version() < u64::MAX,
        ensures
            final(self).spec_version() == old(self).spec_version() + 1,
            final(self).same_character(&*old(self)),
            final(self).same_points(&*old(self)),
            final(self).created_at == old(self).created_at,
    {
        self.last_updated = utc_now_millis();
        self.version = self.version + 1;
    }

    /// Units the player can carry: 100, ten per point of strength, and the
    /// equipment's bonus.
    pub open spec fn spec_carrying_capacity(&self) -> int {
        100 + self.spec_stats().strength * 10 + self.spec_equipment().spec_capacity_bonus()
    }

    /// Units the player can carry.
    pub fn carrying_capacity(&self) -> (r: u32)
        requires
            self.spec_carrying_capacity() <= u32::MAX,
        ensures
            r == self.spec_carrying_capacity(),
    {
        let base_capacity: u32 = 100;
        let strength_bonus = self.stats.strength as u32 * 10;
        let equipment_bonus = self.equipment.get_carrying_capacity_bonus();
        base_capacity + strength_bonus + equipment_bonus
    }

    /// Whether the player carries more units than the capacity.
    pub fn is_overloaded(&self) -> (r: bool)
        requires
            self.spec_carrying_capacity() <= u32::MAX,
            self.spec_resources().spec_storage() <= u32::MAX,
        ensures
            r == (self.spec_resources().spec_storage() > self.spec_carrying_capacity()),
    {
        self.resources.storage_requirement() > self.carrying_capacity()
    }

    /// A summary for display.
    pub fn summary(&self) -> (r: PlayerSummary)
        requires
            self.spec_carrying_capacity() <= u32::MAX,
            self.spec_resources().spec_storage() <= u32::MAX,
            self.spec_resources().spec_total_value() <= u32::MAX,
        ensures
            r.name@ == self.spec_name(),
            r.level == self.spec_level(),
            r.position == self.spec_position(),
            r.movement_points == self.spec_movement_points(),
            r.action_points == self.spec_action_points(),
            r.total_resources_value == self.spec_resources().spec_total_value(),
            r.locations_visited == self.spec_exploration().visited().len(),
            r.is_overloaded == (self.spec_resources().spec_storage() > self.spec_carrying_capacity()),
    {
        PlayerSummary {
            name: self.name.clone(),
            level: self.level(),
            position: self.position,
            movement_points: self.movement_points,
            action_points: self.action_points,
            total_resources_value: self.resources.total_value(),
            locations_visited: self.locations_visited_count(),
            is_overloaded: self.is_overloaded(),
        }
    }

    /// Whether the player's own rules hold: a name of 1 to 50 bytes, points within
    /// their maximums, and a level within the maximum level.
    pub fn is_valid(&self) -> (r: bool)
        ensures
            r == (valid_player_name(self.spec_name())
                && self.spec_movement_points() <= self.spec_max_movement_points()
                && self.spec_action_points() <= self.spec_max_action_points()
                && self.spec_level() <= MAX_PLAYER_LEVEL),
    {
        !self.name.as_str().is_empty() && byte_len(self.name.as_str()) <= 50
            && self.movement_points <= self.max_movement_points
            && self.action_points <= self.max_action_points
            && self.level() <= MAX_PLAYER_LEVEL
    }
}

} // verus!
