//! Resources: their types, amounts, collections and the nodes they are gathered from.
use crate::domain::DomainError;
use crate::text::{append_decimal, decimal};
use vstd::prelude::*;

verus! {

/// Largest amount a single resource quantity may hold.
pub const RESOURCE_AMOUNT_LIMIT: u32 = 1_000_000;

/// Types of resources available in the game.
#[derive(Debug, Clone, Copy, PartialEq, Eq, Hash, Structural)]
pub enum ResourceType {
    Metal,
    Energy,
    Food,
    Technology,
    ExoticMatter,
    Alloys,
    Data,
    Organics,
}

/// Every resource type, in declaration order.
pub open spec fn all_resource_types() -> Seq<ResourceType> {
    seq![
        ResourceType::Metal,
        ResourceType::Energy,
        ResourceType::Food,
        ResourceType::Technology,
        ResourceType::ExoticMatter,
        ResourceType::Alloys,
        ResourceType::Data,
        ResourceType::Organics,
    ]
}

impl ResourceType {
    /// Position of the type in declaration order.
    pub open spec fn index(self) -> int {
        match self {
            ResourceType::Metal => 0,
            ResourceType::Energy => 1,
            ResourceType::Food => 2,
            ResourceType::Technology => 3,
            ResourceType::ExoticMatter => 4,
            ResourceType::Alloys => 5,
            ResourceType::Data => 6,
            ResourceType::Organics => 7,
        }
    }

    /// Trading value per unit.
    pub open spec fn value(self) -> int {
        match self {
            ResourceType::Metal => 1,
            ResourceType::Energy => 2,
            ResourceType::Food => 1,
            ResourceType::Technology => 10,
            ResourceType::ExoticMatter => 50,
            ResourceType::Alloys => 5,
            ResourceType::Data => 3,
            ResourceType::Organics => 4,
        }
    }

    /// Rarity level, 1 to 10.
    pub open spec fn spec_rarity(self) -> int {
        match self {
            ResourceType::Metal => 2,
            ResourceType::Energy => 3,
            ResourceType::Food => 1,
            ResourceType::Technology => 6,
            ResourceType::ExoticMatter => 9,
            ResourceType::Alloys => 5,
            ResourceType::Data => 4,
            ResourceType::Organics => 3,
        }
    }

    /// Units gathered per successful roll.
    pub open spec fn gathering_rate(self) -> int {
        match self {
            ResourceType::Metal => 5,
            ResourceType::Energy => 3,
            ResourceType::Food => 4,
            ResourceType::Technology => 1,
            ResourceType::ExoticMatter => 1,
            ResourceType::Alloys => 2,
            ResourceType::Data => 2,
            ResourceType::Organics => 3,
        }
    }

    /// UI sorting priority.
    pub open spec fn display_priority(self) -> int {
        match self {
            ResourceType::Metal => 1,
            ResourceType::Energy => 2,
            ResourceType::Food => 3,
            ResourceType::Technology => 4,
            ResourceType::Alloys => 5,
            ResourceType::Data => 6,
            ResourceType::Organics => 7,
            ResourceType::ExoticMatter => 8,
        }
    }

    /// Basic resources are the common ones: metal, energy and food.
    pub open spec fn spec_is_basic(self) -> bool {
        self == ResourceType::Metal || self == ResourceType::Energy || self == ResourceType::Food
    }

    /// Display name.
    pub open spec fn spec_name(self) -> Seq<char> {
        match self {
            ResourceType::Metal => "Metal"@,
            ResourceType::Energy => "Energy"@,
            ResourceType::Food => "Food"@,
            ResourceType::Technology => "Technology"@,
            ResourceType::ExoticMatter => "Exotic Matter"@,
            ResourceType::Alloys => "Alloys"@,
            ResourceType::Data => "Data"@,
            ResourceType::Organics => "Organics"@,
        }
    }

    /// The type at a position of the declaration order.
    pub fn from_index(i: usize) -> (r: ResourceType)
        requires
            i < 8,
        ensures
            r.index() == i,
            r == all_resource_types()[i as int],
    {
        if i == 0 { ResourceType::Metal }
        else if i == 1 { ResourceType::Energy }
        else if i == 2 { ResourceType::Food }
        else if i == 3 { ResourceType::Technology }
        else if i == 4 { ResourceType::ExoticMatter }
        else if i == 5 { ResourceType::Alloys }
        else if i == 6 { ResourceType::Data }
        else { ResourceType::Organics }
    }

    /// Position of the type in declaration order.
    pub fn to_index(&self) -> (r: usize)
        ensures
            r == self.index(),
    {
        match self {
            ResourceType::Metal => 0,
            ResourceType::Energy => 1,
            ResourceType::Food => 2,
            ResourceType::Technology => 3,
            ResourceType::ExoticMatter => 4,
            ResourceType::Alloys => 5,
            ResourceType::Data => 6,
            ResourceType::Organics => 7,
        }
    }

    /// All resource types.
    pub fn all() -> (r: Vec<ResourceType>)
        ensures
            r@ == all_resource_types(),
    {
        vec![
            ResourceType::Metal,
            ResourceType::Energy,
            ResourceType::Food,
            ResourceType::Technology,
            ResourceType::ExoticMatter,
            ResourceType::Alloys,
            ResourceType::Data,
            ResourceType::Organics,
        ]
    }

    /// The common resource types.
    pub fn basic() -> (r: Vec<ResourceType>)
        ensures
            r@ == seq![ResourceType::Metal, ResourceType::Energy, ResourceType::Food],
    {
        vec![ResourceType::Metal, ResourceType::Energy, ResourceType::Food]
    }

    /// The rare or processed resource types.
    pub fn advanced() -> (r: Vec<ResourceType>)
        ensures
            r@ == seq![
                ResourceType::Technology,
                ResourceType::ExoticMatter,
                ResourceType::Alloys,
                ResourceType::Data,
                ResourceType::Organics,
            ],
    {
        vec![
            ResourceType::Technology,
            ResourceType::ExoticMatter,
            ResourceType::Alloys,
            ResourceType::Data,
            ResourceType::Organics,
        ]
    }

    /// Whether this is a basic resource.
    pub fn is_basic(&self) -> (r: bool)
        ensures
            r == self.spec_is_basic(),
    {
        match self {
            ResourceType::Metal | ResourceType::Energy | ResourceType::Food => true,
            _ => false,
        }
    }

    /// Whether this is an advanced resource.
    pub fn is_advanced(&self) -> (r: bool)
        ensures
            r == !self.spec_is_basic(),
    {
        !self.is_basic()
    }

    /// Trading value per unit.
    pub fn base_value(&self) -> (r: u32)
        ensures
            r == self.value(),
    {
        match self {
            ResourceType::Metal => 1,
            ResourceType::Energy => 2,
            ResourceType::Food => 1,
            ResourceType::Technology => 10,
            ResourceType::ExoticMatter => 50,
            ResourceType::Alloys => 5,
            ResourceType::Data => 3,
            ResourceType::Organics => 4,
        }
    }

    /// Rarity level (1-10, higher is rarer).
    pub fn rarity(&self) -> (r: u8)
        ensures
            r == self.spec_rarity(),
    {
        match self {
            ResourceType::Metal => 2,
            ResourceType::Energy => 3,
            ResourceType::Food => 1,
            ResourceType::Technology => 6,
            ResourceType::ExoticMatter => 9,
            ResourceType::Alloys => 5,
            ResourceType::Data => 4,
            ResourceType::Organics => 3,
        }
    }

    /// Typical gathering rate per successful dice roll.
    pub fn base_gathering_rate(&self) -> (r: u32)
        ensures
            r == self.gathering_rate(),
    {
        match self {
            ResourceType::Metal => 5,
            ResourceType::Energy => 3,
            ResourceType::Food => 4,
            ResourceType::Technology => 1,
            ResourceType::ExoticMatter => 1,
            ResourceType::Alloys => 2,
            ResourceType::Data => 2,
            ResourceType::Organics => 3,
        }
    }

    /// Description of the resource.
    pub fn description(&self) -> (r: &'static str)
        ensures
            r@ == match self {
                ResourceType::Metal => "Basic construction material obtained from mining operations"@,
                ResourceType::Energy => "Power cells and energy sources for base operations"@,
                ResourceType::Food => "Sustenance required for survival and population growth"@,
                ResourceType::Technology => "Advanced components and research materials"@,
                ResourceType::ExoticMatter => "Rare quantum materials with unique properties"@,
                ResourceType::Alloys => "Processed metals with enhanced properties"@,
                ResourceType::Data => "Information, blueprints, and digital assets"@,
                ResourceType::Organics => "Biological samples and living materials"@,
            },
    {
        match self {
            ResourceType::Metal => "Basic construction material obtained from mining operations",
            ResourceType::Energy => "Power cells and energy sources for base operations",
            ResourceType::Food => "Sustenance required for survival and population growth",
            ResourceType::Technology => "Advanced components and research materials",
            ResourceType::ExoticMatter => "Rare quantum materials with unique properties",
            ResourceType::Alloys => "Processed metals with enhanced properties",
            ResourceType::Data => "Information, blueprints, and digital assets",
            ResourceType::Organics => "Biological samples and living materials",
        }
    }

    /// Icon symbol for UI display.
    pub open spec fn spec_icon(self) -> char {
        match self {
            ResourceType::Metal => '⚒',
            ResourceType::Energy => '⚡',
            ResourceType::Food => '🍎',
            ResourceType::Technology => '🔬',
            ResourceType::ExoticMatter => '💎',
            ResourceType::Alloys => '🔩',
            ResourceType::Data => '💾',
            ResourceType::Organics => '🧬',
        }
    }

    /// The icon as text.
    pub fn icon_str(&self) -> (r: &'static str)
        ensures
            r@ == seq![self.spec_icon()],
    {
        match self {
            ResourceType::Metal => {
                proof { reveal_strlit("⚒"); }
                "⚒"
            },
            ResourceType::Energy => {
                proof { reveal_strlit("⚡"); }
                "⚡"
            },
            ResourceType::Food => {
                proof { reveal_strlit("🍎"); }
                "🍎"
            },
            ResourceType::Technology => {
                proof { reveal_strlit("🔬"); }
                "🔬"
            },
            ResourceType::ExoticMatter => {
                proof { reveal_strlit("💎"); }
                "💎"
            },
            ResourceType::Alloys => {
                proof { reveal_strlit("🔩"); }
                "🔩"
            },
            ResourceType::Data => {
                proof { reveal_strlit("💾"); }
                "💾"
            },
            ResourceType::Organics => {
                proof { reveal_strlit("🧬"); }
                "🧬"
            },
        }
    }

    /// Icon symbol for UI display.
    pub fn icon(&self) -> (r: char)
        ensures
            r == self.spec_icon(),
    {
        match self {
            ResourceType::Metal => '⚒',
            ResourceType::Energy => '⚡',
            ResourceType::Food => '🍎',
            ResourceType::Technology => '🔬',
            ResourceType::ExoticMatter => '💎',
            ResourceType::Alloys => '🔩',
            ResourceType::Data => '💾',
            ResourceType::Organics => '🧬',
        }
    }

    /// Display name of the resource type.
    pub fn to_string(&self) -> (r: String)
        ensures
            r@ == self.spec_name(),
    {
        match self {
            ResourceType::Metal => String::from_str("Metal"),
            ResourceType::Energy => String::from_str("Energy"),
            ResourceType::Food => String::from_str("Food"),
            ResourceType::Technology => String::from_str("Technology"),
            ResourceType::ExoticMatter => String::from_str("Exotic Matter"),
            ResourceType::Alloys => String::from_str("Alloys"),
            ResourceType::Data => String::from_str("Data"),
            ResourceType::Organics => String::from_str("Organics"),
        }
    }
}

/// A specific amount of a resource type.
#[derive(Debug, Clone, Copy, PartialEq, Eq, Structural)]
pub struct ResourceAmount {
    pub resource_type: ResourceType,
    pub amount: u32,
}

impl ResourceAmount {
    /// A validated amount: at most one million units.
    pub fn new(resource_type: ResourceType, amount: u32) -> (r: Result<Self, DomainError>)
        ensures
            r is Ok <==> amount <= RESOURCE_AMOUNT_LIMIT,
            r matches Ok(a) ==> a.resource_type == resource_type && a.amount == amount,
            r matches Err(e) ==> e == DomainError::InvalidResourceAmount(amount as i32),
    {
        if amount > RESOURCE_AMOUNT_LIMIT {
            return Err(DomainError::InvalidResourceAmount(amount as i32));
        }
        Ok(ResourceAmount { resource_type, amount })
    }

    /// A zero amount of a resource.
    pub fn zero(resource_type: ResourceType) -> (r: Self)
        ensures
            r.resource_type == resource_type && r.amount == 0,
    {
        ResourceAmount { resource_type, amount: 0 }
    }

    /// Whether the amount is zero.
    pub fn is_zero(&self) -> (r: bool)
        ensures
            r == (self.amount == 0),
    {
        self.amount == 0
    }

    /// Whether the amount is non-zero.
    pub fn is_positive(&self) -> (r: bool)
        ensures
            r == (self.amount > 0),
    {
        self.amount > 0
    }

    /// Sum with an amount of the same resource (saturating, then validated).
    pub fn add(&self, other: &ResourceAmount) -> (r: Result<Self, DomainError>)
        ensures
            r is Ok <==> (self.resource_type == other.resource_type && self.amount + other.amount <= RESOURCE_AMOUNT_LIMIT),
            r matches Ok(a) ==> a.resource_type == self.resource_type && a.amount == self.amount + other.amount,
            self.resource_type != other.resource_type ==> (r matches Err(e) && e is InvalidResourceType),
    {
        if self.resource_type != other.resource_type {
            return Err(DomainError::InvalidResourceType(String::from_str("Cannot add different resource types")));
        }
        let new_amount = self.amount.saturating_add(other.amount);
        Self::new(self.resource_type, new_amount)
    }

    /// Difference with an amount of the same resource, floored at zero.
    pub fn subtract(&self, other: &ResourceAmount) -> (r: Result<Self, DomainError>)
        ensures
            r is Ok <==> (self.resource_type == other.resource_type && (self.amount <= other.amount
                || self.amount - other.amount <= RESOURCE_AMOUNT_LIMIT)),
            r matches Ok(a) ==> a.resource_type == self.resource_type
                && a.amount == (if self.amount <= other.amount { 0 } else { self.amount - other.amount }),
            self.resource_type != other.resource_type ==> (r matches Err(e) && e is InvalidResourceType),
    {
        if self.resource_type != other.resource_type {
            return Err(DomainError::InvalidResourceType(String::from_str("Cannot subtract different resource types")));
        }
        let new_amount = self.amount.saturating_sub(other.amount);
        Self::new(self.resource_type, new_amount)
    }

    /// Amount multiplied by a factor (saturating, then validated).
    pub fn multiply(&self, factor: u32) -> (r: Result<Self, DomainError>)
        ensures
            r is Ok <==> self.amount * factor <= RESOURCE_AMOUNT_LIMIT,
            r matches Ok(a) ==> a.resource_type == self.resource_type && a.amount == self.amount * factor,
    {
        let new_amount = match self.amount.checked_mul(factor) {
            Some(v) => v,
            None => u32::MAX,
        };
        Self::new(self.resource_type, new_amount)
    }

    /// Total trade value of the amount.
    pub fn trade_value(&self) -> (r: u32)
        requires
            self.amount * self.resource_type.value() <= u32::MAX,
        ensures
            r == self.amount * self.resource_type.value(),
    {
        self.amount * self.resource_type.base_value()
    }

    /// Whether this amount covers a required amount of the same resource.
    pub fn can_afford(&self, required: &ResourceAmount) -> (r: bool)
        ensures
            r == (self.resource_type == required.resource_type && self.amount >= required.amount),
    {
        self.resource_type == required.resource_type && self.amount >= required.amount
    }
}

/// A collection holding at most one amount of each resource type.
#[derive(Debug, Clone, PartialEq, Eq)]
pub struct ResourceCollection {
    amounts: [u32; 8],
}

/// Sum of the amounts of type `t` in a list.
pub open spec fn sum_for_type(s: Seq<ResourceAmount>, t: ResourceType) -> int
    decreases s.len(),
{
    if s.len() == 0 {
        0
    } else {
        sum_for_type(s.drop_last(), t) + (if s.last().resource_type == t { s.last().amount as int } else { 0 })
    }
}

/// The amount that the last entry of type `t` in a cost table sets, or zero.
pub open spec fn last_cost_for_type(s: Seq<(ResourceType, u32)>, t: ResourceType) -> u32
    decreases s.len(),
{
    if s.len() == 0 {
        0
    } else if s.last().0 == t {
        s.last().1
    } else {
        last_cost_for_type(s.drop_last(), t)
    }
}

/// Sum over the first `n` types (declaration order) of `f(type)`.
pub open spec fn sum_over_types(f: spec_fn(ResourceType) -> int, n: int) -> int
    decreases n,
{
    if n <= 0 { 0 } else { sum_over_types(f, n - 1) + f(all_resource_types()[n - 1]) }
}

impl ResourceCollection {
    /// Amount held of a resource type (zero when absent).
    pub closed spec fn amount(&self, t: ResourceType) -> u32 {
        self.amounts@[t.index()]
    }

    /// Whether the two collections hold the same amount of every type.
    pub open spec fn same_amounts(&self, other: &ResourceCollection) -> bool {
        forall|t: ResourceType| #[trigger] self.amount(t) == other.amount(t)
    }

    /// Total trade value.
    pub open spec fn spec_total_value(&self) -> int {
        sum_over_types(|t: ResourceType| self.amount(t) * t.value(), 8)
    }

    /// Total number of units held.
    pub open spec fn spec_storage(&self) -> int {
        sum_over_types(|t: ResourceType| self.amount(t) as int, 8)
    }

    /// Whether every amount required by `cost` is held.
    pub open spec fn covers(&self, cost: &ResourceCollection) -> bool {
        forall|t: ResourceType| #[trigger] self.amount(t) >= cost.amount(t)
    }

    /// The types held in a positive amount, in declaration order.
    pub open spec fn held_types(&self) -> Seq<ResourceType> {
        all_resource_types().filter(|t: ResourceType| self.amount(t) > 0)
    }

    proof fn lemma_amount_index(&self, i: int)
        requires
            0 <= i < 8,
        ensures
            self.amount(all_resource_types()[i]) == self.amounts@[i],
    {
    }

    /// A new empty collection.
    pub fn new() -> (r: Self)
        ensures
            forall|t: ResourceType| #[trigger] r.amount(t) == 0,
    {
        ResourceCollection { amounts: [0u32; 8] }
    }

    /// A collection holding the sum of a list of amounts; fails when a running sum
    /// of one type exceeds one million units.
    pub fn from_amounts(amounts: Vec<ResourceAmount>) -> (r: Result<Self, DomainError>)
        ensures
            r is Ok <==> forall|t: ResourceType| #[trigger] sum_for_type(amounts@, t) <= RESOURCE_AMOUNT_LIMIT,
            r matches Ok(c) ==> forall|t: ResourceType| #[trigger] c.amount(t) == sum_for_type(amounts@, t),
    {
        let mut collection = Self::new();
        let mut i: usize = 0;
        while i < amounts.len()
            invariant
                0 <= i <= amounts@.len(),
                forall|t: ResourceType| #[trigger] collection.amount(t) == sum_for_type(amounts@.take(i as int), t),
                forall|t: ResourceType| #[trigger] sum_for_type(amounts@.take(i as int), t) <= RESOURCE_AMOUNT_LIMIT,
            decreases amounts@.len() - i,
        {
            let a = amounts[i];
            assert(amounts@.take(i + 1).drop_last() =~= amounts@.take(i as int));
            let ghost before = collection;
            let res = collection.add_amount(&a);
            if let Err(e) = res {
                proof {
                    lemma_sum_for_type_prefix(amounts@, i + 1, a.resource_type);
                }
                return Err(e);
            }
            assert forall|t: ResourceType| #[trigger] sum_for_type(amounts@.take(i + 1), t) <= RESOURCE_AMOUNT_LIMIT by {
                assert(collection.amount(t) == sum_for_type(amounts@.take(i + 1), t));
                if t != a.resource_type {
                    assert(collection.amount(t) == before.amount(t));
                }
            }
            i = i + 1;
        }
        assert(amounts@.take(i as int) =~= amounts@);
        Ok(collection)
    }

    /// The starting resources of a new base: 50 metal, 30 energy, 20 food, 5 technology.
    pub fn starting_resources() -> (r: Self)
        ensures
            forall|t: ResourceType| #[trigger] r.amount(t) == match t {
                ResourceType::Metal => 50u32,
                ResourceType::Energy => 30u32,
                ResourceType::Food => 20u32,
                ResourceType::Technology => 5u32,
                _ => 0u32,
            },
    {
        let mut collection = Self::new();
        collection.set_amount(ResourceType::Metal, 50);
        collection.set_amount(ResourceType::Energy, 30);
        collection.set_amount(ResourceType::Food, 20);
        collection.set_amount(ResourceType::Technology, 5);
        collection
    }

    /// Amount held of a resource type.
    pub fn get_amount(&self, resource_type: ResourceType) -> (r: u32)
        ensures
            r == self.amount(resource_type),
    {
        self.amounts[resource_type.to_index()]
    }

    /// Set the amount of a resource type; zero removes it.
    pub fn set_amount(&mut self, resource_type: ResourceType, amount: u32)
        ensures
            final(self).amount(resource_type) == amount,
            forall|t: ResourceType| t != resource_type ==> #[trigger] final(self).amount(t) == old(self).amount(t),
    {
        self.amounts.set(resource_type.to_index(), amount);
    }

    /// Add an amount; fails, changing nothing, when the new amount would exceed one million units.
    pub fn add_amount(&mut self, amount: &ResourceAmount) -> (r: Result<(), DomainError>)
        ensures
            r is Ok <==> old(self).amount(amount.resource_type) + amount.amount <= RESOURCE_AMOUNT_LIMIT,
            r is Ok ==> final(self).amount(amount.resource_type) == old(self).amount(amount.resource_type) + amount.amount,
            r is Err ==> final(self).amount(amount.resource_type) == old(self).amount(amount.resource_type),
            forall|t: ResourceType| t != amount.resource_type ==> #[trigger] final(self).amount(t) == old(self).amount(t),
            r matches Err(e) ==> e is InvalidResourceAmount,
    {
        let current = self.get_amount(amount.resource_type);
        let new_amount = current.saturating_add(amount.amount);
        if new_amount > RESOURCE_AMOUNT_LIMIT {
            return Err(DomainError::InvalidResourceAmount(new_amount as i32));
        }
        self.set_amount(amount.resource_type, new_amount);
        Ok(())
    }

    /// Remove an amount; fails, changing nothing, when less is held.
    pub fn remove_amount(&mut self, amount: &ResourceAmount) -> (r: Result<(), DomainError>)
        ensures
            r is Ok <==> old(self).amount(amount.resource_type) >= amount.amount,
            r is Ok ==> final(self).amount(amount.resource_type) == old(self).amount(amount.resource_type) - amount.amount,
            r is Err ==> final(self).amount(amount.resource_type) == old(self).amount(amount.resource_type),
            forall|t: ResourceType| t != amount.resource_type ==> #[trigger] final(self).amount(t) == old(self).amount(t),
            r matches Err(e) ==> (e matches DomainError::InsufficientResources(m) && m@ ==
                "Need "@ + decimal(amount.amount as nat) + " "@ + amount.resource_type.spec_name() + ", have "@
                    + decimal(old(self).amount(amount.resource_type) as nat)),
    {
        let current = self.get_amount(amount.resource_type);
        if current < amount.amount {
            let mut msg = String::from_str("Need ");
            append_decimal(&mut msg, amount.amount as u64);
            msg.append(" ");
            let name = amount.resource_type.to_string();
            msg.append(name.as_str());
            msg.append(", have ");
            append_decimal(&mut msg, current as u64);
            return Err(DomainError::InsufficientResources(msg));
        }
        self.set_amount(amount.resource_type, current - amount.amount);
        Ok(())
    }

    /// Whether every resource in `cost` is held in at least that amount.
    pub fn can_afford(&self, cost: &ResourceCollection) -> (r: bool)
        ensures
            r == self.covers(cost),
    {
        let mut i: usize = 0;
        while i < 8
            invariant
                0 <= i <= 8,
                forall|j: int| 0 <= j < i ==> self.amount(#[trigger] all_resource_types()[j]) >= cost.amount(all_resource_types()[j]),
            decreases 8 - i,
        {
            let t = ResourceType::from_index(i);
            if self.get_amount(t) < cost.get_amount(t) {
                return false;
            }
            i = i + 1;
        }
        assert forall|t: ResourceType| #[trigger] self.amount(t) >= cost.amount(t) by {
            assert(all_resource_types()[t.index()] == t);
        }
        true
    }

    /// Pay a cost. Fails, changing nothing, when the cost is not covered; fails too when
    /// an amount of the cost exceeds one million units, after paying part of it.
    pub fn pay_cost(&mut self, cost: &ResourceCollection) -> (r: Result<(), DomainError>)
        ensures
            r is Ok <==> (old(self).covers(cost) && forall|t: ResourceType| #[trigger] cost.amount(t) <= RESOURCE_AMOUNT_LIMIT),
            r is Ok ==> forall|t: ResourceType| #[trigger] final(self).amount(t) == old(self).amount(t) - cost.amount(t),
            !old(self).covers(cost) ==> final(self).same_amounts(&*old(self)),
            forall|t: ResourceType| #[trigger] final(self).amount(t) == old(self).amount(t)
                || final(self).amount(t) == old(self).amount(t) - cost.amount(t),
    {
        if !self.can_afford(cost) {
            return Err(DomainError::InsufficientResources(String::from_str("Cannot afford this cost")));
        }
        let ghost start = *self;
        let mut i: usize = 0;
        while i < 8
            invariant
                0 <= i <= 8,
                start.covers(cost),
                start == *old(self),
                forall|j: int| 0 <= j < i ==> #[trigger] cost.amount(all_resource_types()[j]) <= RESOURCE_AMOUNT_LIMIT,
                forall|j: int| 0 <= j < i ==> self.amount(#[trigger] all_resource_types()[j])
                    == start.amount(all_resource_types()[j]) - cost.amount(all_resource_types()[j]),
                forall|j: int| i <= j < 8 ==> self.amount(#[trigger] all_resource_types()[j])
                    == start.amount(all_resource_types()[j]),
            decreases 8 - i,
        {
            let t = ResourceType::from_index(i);
            let needed = cost.get_amount(t);
            if needed > 0 {
                let ra = ResourceAmount::new(t, needed);
                match ra {
                    Ok(a) => {
                        let res = self.remove_amount(&a);
                        assert(res is Ok);
                    },
                    Err(e) => {
                        proof {
                            assert forall|u: ResourceType| #[trigger] self.amount(u) == start.amount(u)
                                || self.amount(u) == start.amount(u) - cost.amount(u) by {
                                assert(all_resource_types()[u.index()] == u);
                            }
                            assert(!(forall|u: ResourceType| #[trigger] cost.amount(u) <= RESOURCE_AMOUNT_LIMIT)) by {
                                assert(cost.amount(t) > RESOURCE_AMOUNT_LIMIT);
                            }
                        }
                        return Err(e);
                    },
                }
            }
            i = i + 1;
        }
        proof {
            assert forall|t: ResourceType| #[trigger] self.amount(t) == start.amount(t) - cost.amount(t) by {
                assert(all_resource_types()[t.index()] == t);
            }
            assert forall|t: ResourceType| #[trigger] cost.amount(t) <= RESOURCE_AMOUNT_LIMIT by {
                assert(all_resource_types()[t.index()] == t);
            }
        }
        Ok(())
    }

    /// Add every resource of another collection. Fails when an amount of `other` exceeds
    /// one million units or a sum would; the types already added stay added.
    pub fn add_collection(&mut self, other: &ResourceCollection) -> (r: Result<(), DomainError>)
        ensures
            r is Ok <==> forall|t: ResourceType| #[trigger] other.amount(t) > 0 ==> (other.amount(t) <= RESOURCE_AMOUNT_LIMIT
                && old(self).amount(t) + other.amount(t) <= RESOURCE_AMOUNT_LIMIT),
            r is Ok ==> forall|t: ResourceType| #[trigger] final(self).amount(t) == old(self).amount(t) + other.amount(t),
            forall|t: ResourceType| #[trigger] final(self).amount(t) == old(self).amount(t)
                || final(self).amount(t) == old(self).amount(t) + other.amount(t),
    {
        let ghost start = *self;
        let mut i: usize = 0;
        while i < 8
            invariant
                0 <= i <= 8,
                start == *old(self),
                forall|j: int| 0 <= j < i ==> #[trigger] other.amount(all_resource_types()[j]) > 0 ==> (other.amount(all_resource_types()[j]) <= RESOURCE_AMOUNT_LIMIT
                    && start.amount(all_resource_types()[j]) + other.amount(all_resource_types()[j]) <= RESOURCE_AMOUNT_LIMIT),
                forall|j: int| 0 <= j < i ==> self.amount(#[trigger] all_resource_types()[j])
                    == start.amount(all_resource_types()[j]) + other.amount(all_resource_types()[j]),
                forall|j: int| i <= j < 8 ==> self.amount(#[trigger] all_resource_types()[j])
                    == start.amount(all_resource_types()[j]),
            decreases 8 - i,
        {
            let t = ResourceType::from_index(i);
            let extra = other.get_amount(t);
            if extra > 0 {
                let ra = ResourceAmount::new(t, extra);
                let failed = match ra {
                    Ok(a) => self.add_amount(&a),
                    Err(e) => Err(e),
                };
                if failed.is_err() {
                    proof {
                        assert forall|u: ResourceType| #[trigger] self.amount(u) == start.amount(u)
                            || self.amount(u) == start.amount(u) + other.amount(u) by {
                            assert(all_resource_types()[u.index()] == u);
                        }
                        assert(!(other.amount(t) > 0 ==> (other.amount(t) <= RESOURCE_AMOUNT_LIMIT
                            && start.amount(t) + other.amount(t) <= RESOURCE_AMOUNT_LIMIT)));
                    }
                    return failed;
                }
            }
            i = i + 1;
        }
        proof {
            assert forall|t: ResourceType| #[trigger] self.amount(t) == start.amount(t) + other.amount(t) by {
                assert(all_resource_types()[t.index()] == t);
            }
            assert forall|t: ResourceType| #[trigger] other.amount(t) > 0 ==> (other.amount(t) <= RESOURCE_AMOUNT_LIMIT
                && start.amount(t) + other.amount(t) <= RESOURCE_AMOUNT_LIMIT) by {
                assert(all_resource_types()[t.index()] == t);
            }
        }
        Ok(())
    }

    /// Total trade value of all resources.
    pub fn total_value(&self) -> (r: u32)
        requires
            self.spec_total_value() <= u32::MAX,
        ensures
            r == self.spec_total_value(),
    {
        let ghost f = |t: ResourceType| self.amount(t) * t.value();
        let mut total: u32 = 0;
        let mut i: usize = 0;
        while i < 8
            invariant
                0 <= i <= 8,
                f == (|t: ResourceType| self.amount(t) * t.value()),
                total == sum_over_types(f, i as int),
                sum_over_types(f, 8) <= u32::MAX,
            decreases 8 - i,
        {
            let t = ResourceType::from_index(i);
            proof {
                lemma_sum_over_types_monotone(f, i + 1, 8);
            }
            total = total + self.get_amount(t) * t.base_value();
            i = i + 1;
        }
        total
    }

    /// The types held in a positive amount, in declaration order.
    pub fn resource_types(&self) -> (r: Vec<ResourceType>)
        ensures
            r@ == self.held_types(),
    {
        let mut out: Vec<ResourceType> = Vec::new();
        let mut i: usize = 0;
        while i < 8
            invariant
                0 <= i <= 8,
                out@ == all_resource_types().take(i as int).filter(|t: ResourceType| self.amount(t) > 0),
            decreases 8 - i,
        {
            let t = ResourceType::from_index(i);
            proof {
                let p = |t: ResourceType| self.amount(t) > 0;
                reveal_with_fuel(Seq::filter, 1);
                assert(all_resource_types().take(i + 1).drop_last() =~= all_resource_types().take(i as int));
            }
            if self.get_amount(t) > 0 {
                out.push(t);
            }
            i = i + 1;
        }
        assert(all_resource_types().take(8) =~= all_resource_types());
        out
    }

    /// The held amounts, one per positive type, in declaration order.
    pub fn amounts(&self) -> (r: Vec<ResourceAmount>)
        requires
            forall|t: ResourceType| #[trigger] self.amount(t) <= RESOURCE_AMOUNT_LIMIT,
        ensures
            r@.len() == self.held_types().len(),
            forall|i: int| 0 <= i < r@.len() ==> (#[trigger] r@[i]).resource_type == self.held_types()[i]
                && r@[i].amount == self.amount(self.held_types()[i]),
    {
        let types = self.resource_types();
        let mut out: Vec<ResourceAmount> = Vec::new();
        let mut i: usize = 0;
        while i < types.len()
            invariant
                types@ == self.held_types(),
                forall|t: ResourceType| #[trigger] self.amount(t) <= RESOURCE_AMOUNT_LIMIT,
                0 <= i <= types@.len(),
                out@.len() == i,
                forall|j: int| 0 <= j < i ==> (#[trigger] out@[j]).resource_type == types@[j]
                    && out@[j].amount == self.amount(types@[j]),
            decreases types@.len() - i,
        {
            let t = types[i];
            let a = ResourceAmount::new(t, self.get_amount(t)).unwrap();
            out.push(a);
            i = i + 1;
        }
        out
    }

    /// Whether no resource is held.
    pub fn is_empty(&self) -> (r: bool)
        ensures
            r == forall|t: ResourceType| #[trigger] self.amount(t) == 0,
    {
        let types = self.resource_types();
        proof {
            if types@.len() == 0 {
                assert forall|t: ResourceType| #[trigger] self.amount(t) == 0 by {
                    if self.amount(t) > 0 {
                        let p = |u: ResourceType| self.amount(u) > 0;
                        assert(all_resource_types()[t.index()] == t);
                        all_resource_types().lemma_filter_contains(p, t.index());
                        assert(types@.contains(t));
                        assert(false);
                    }
                }
            } else {
                let p = |u: ResourceType| self.amount(u) > 0;
                all_resource_types().lemma_filter_pred(p, 0);
                assert(self.amount(types@[0]) > 0);
            }
        }
        types.len() == 0
    }

    /// Number of different types held.
    pub fn type_count(&self) -> (r: usize)
        ensures
            r == self.held_types().len(),
    {
        let types = self.resource_types();
        types.len()
    }

    /// A collection holding the listed costs; a later entry of a type replaces an earlier one.
    pub fn cost(costs: &[(ResourceType, u32)]) -> (r: Result<Self, DomainError>)
        ensures
            r matches Ok(c) && forall|t: ResourceType| #[trigger] c.amount(t) == last_cost_for_type(costs@, t),
    {
        let mut collection = Self::new();
        let mut i: usize = 0;
        while i < costs.len()
            invariant
                0 <= i <= costs@.len(),
                forall|t: ResourceType| #[trigger] collection.amount(t) == last_cost_for_type(costs@.take(i as int), t),
            decreases costs@.len() - i,
        {
            let (t, a) = costs[i];
            assert(costs@.take(i + 1).drop_last() =~= costs@.take(i as int));
            collection.set_amount(t, a);
            i = i + 1;
        }
        assert(costs@.take(i as int) =~= costs@);
        Ok(collection)
    }

    /// For each type, how much more than held the requirement asks for.
    pub fn missing_resources(&self, required: &ResourceCollection) -> (r: ResourceCollection)
        ensures
            forall|t: ResourceType| #[trigger] r.amount(t) == (if self.amount(t) < required.amount(t) {
                required.amount(t) - self.amount(t)
            } else {
                0
            }),
    {
        let mut missing = ResourceCollection::new();
        let mut i: usize = 0;
        while i < 8
            invariant
                0 <= i <= 8,
                forall|j: int| 0 <= j < i ==> missing.amount(#[trigger] all_resource_types()[j]) == (
                    if self.amount(all_resource_types()[j]) < required.amount(all_resource_types()[j]) {
                        required.amount(all_resource_types()[j]) - self.amount(all_resource_types()[j])
                    } else {
                        0
                    }),
                forall|j: int| i <= j < 8 ==> missing.amount(#[trigger] all_resource_types()[j]) == 0,
            decreases 8 - i,
        {
            let t = ResourceType::from_index(i);
            let available = self.get_amount(t);
            let needed = required.get_amount(t);
            if available < needed {
                missing.set_amount(t, needed - available);
            }
            i = i + 1;
        }
        proof {
            assert forall|t: ResourceType| #[trigger] missing.amount(t) == (if self.amount(t) < required.amount(t) {
                required.amount(t) - self.amount(t)
            } else {
                0
            }) by {
                assert(all_resource_types()[t.index()] == t);
            }
        }
        missing
    }

    /// Total number of units held.
    pub fn storage_requirement(&self) -> (r: u32)
        requires
            self.spec_storage() <= u32::MAX,
        ensures
            r == self.spec_storage(),
    {
        let ghost f = |t: ResourceType| self.amount(t) as int;
        let mut total: u32 = 0;
        let mut i: usize = 0;
        while i < 8
            invariant
                0 <= i <= 8,
                f == (|t: ResourceType| self.amount(t) as int),
                total == sum_over_types(f, i as int),
                sum_over_types(f, 8) <= u32::MAX,
            decreases 8 - i,
        {
            let t = ResourceType::from_index(i);
            proof {
                lemma_sum_over_types_monotone(f, i + 1, 8);
            }
            total = total + self.get_amount(t);
            i = i + 1;
        }
        total
    }
}

impl Default for ResourceCollection {
    fn default() -> (r: Self)
        ensures
            forall|t: ResourceType| #[trigger] r.amount(t) == 0,
    {
        Self::new()
    }
}

/// Sums of non-negative terms grow with the number of terms.
proof fn lemma_sum_over_types_monotone(f: spec_fn(ResourceType) -> int, a: int, b: int)
    requires
        0 <= a <= b <= 8,
        forall|t: ResourceType| #[trigger] f(t) >= 0,
    ensures
        sum_over_types(f, a) <= sum_over_types(f, b),
    decreases b - a,
{
    if a < b {
        lemma_sum_over_types_monotone(f, a, b - 1);
    }
}

/// A running sum of one type never exceeds the sum over a longer prefix.
proof fn lemma_sum_for_type_prefix(s: Seq<ResourceAmount>, n: int, t: ResourceType)
    requires
        0 <= n <= s.len(),
    ensures
        sum_for_type(s.take(n), t) <= sum_for_type(s, t),
    decreases s.len() - n,
{
    if n < s.len() {
        lemma_sum_for_type_prefix(s, n + 1, t);
        assert(s.take(n + 1).drop_last() =~= s.take(n));
    } else {
        assert(s.take(n) =~= s);
    }
}

/// Resource node properties for world generation.
#[derive(Debug, Clone, Copy, PartialEq, Eq, Structural)]
pub struct ResourceNodeProperties {
    pub resource_type: ResourceType,
    pub richness: ResourceRichness,
    pub accessibility: ResourceAccessibility,
    pub regeneration_rate: RegenerationRate,
}

impl ResourceNodeProperties {
    /// Node properties from their parts.
    pub fn new(resource_type: ResourceType, richness: ResourceRichness, accessibility: ResourceAccessibility, regeneration_rate: RegenerationRate) -> (r: Self)
        ensures
            r == (ResourceNodeProperties { resource_type, richness, accessibility, regeneration_rate }),
    {
        ResourceNodeProperties { resource_type, richness, accessibility, regeneration_rate }
    }

    /// A common metal node: average, easy, no regeneration.
    pub fn metal_common() -> (r: Self)
        ensures
            r == (ResourceNodeProperties {
                resource_type: ResourceType::Metal,
                richness: ResourceRichness::Average,
                accessibility: ResourceAccessibility::Easy,
                regeneration_rate: RegenerationRate::NoRegeneration,
            }),
    {
        Self::new(ResourceType::Metal, ResourceRichness::Average, ResourceAccessibility::Easy, RegenerationRate::NoRegeneration)
    }

    /// A rare exotic matter node: rich, dangerous, slow regeneration.
    pub fn exotic_rare() -> (r: Self)
        ensures
            r == (ResourceNodeProperties {
                resource_type: ResourceType::ExoticMatter,
                richness: ResourceRichness::Rich,
                accessibility: ResourceAccessibility::Dangerous,
                regeneration_rate: RegenerationRate::Slow,
            }),
    {
        Self::new(ResourceType::ExoticMatter, ResourceRichness::Rich, ResourceAccessibility::Dangerous, RegenerationRate::Slow)
    }

    /// Gathering difficulty: a base from accessibility plus half the rarity.
    pub fn gathering_difficulty(&self) -> (r: u8)
        ensures
            r == self.accessibility.base_difficulty() + self.resource_type.spec_rarity() / 2,
    {
        let base: u8 = match self.accessibility {
            ResourceAccessibility::Easy => 8,
            ResourceAccessibility::Moderate => 12,
            ResourceAccessibility::Hard => 15,
            ResourceAccessibility::Dangerous => 18,
        };
        base + (self.resource_type.rarity() / 2)
    }

    /// Potential yield: the gathering rate scaled by richness (half, once, twice,
    /// three times), truncated.
    pub fn potential_yield(&self) -> (r: u32)
        ensures
            r == match self.richness {
                ResourceRichness::Poor => self.resource_type.gathering_rate() / 2,
                ResourceRichness::Average => self.resource_type.gathering_rate(),
                ResourceRichness::Rich => 2 * self.resource_type.gathering_rate(),
                ResourceRichness::Abundant => 3 * self.resource_type.gathering_rate(),
            },
    {
        let base = self.resource_type.base_gathering_rate();
        match self.richness {
            ResourceRichness::Poor => base / 2,
            ResourceRichness::Average => base,
            ResourceRichness::Rich => 2 * base,
            ResourceRichness::Abundant => 3 * base,
        }
    }
}

/// How rich a resource node is.
#[derive(Debug, Clone, Copy, PartialEq, Eq, Structural)]
pub enum ResourceRichness {
    Poor,
    Average,
    Rich,
    Abundant,
}

/// How accessible a resource node is.
#[derive(Debug, Clone, Copy, PartialEq, Eq, Structural)]
pub enum ResourceAccessibility {
    Easy,
    Moderate,
    Hard,
    Dangerous,
}

impl ResourceAccessibility {
    /// Base gathering difficulty.
    pub open spec fn base_difficulty(self) -> int {
        match self {
            ResourceAccessibility::Easy => 8,
            ResourceAccessibility::Moderate => 12,
            ResourceAccessibility::Hard => 15,
            ResourceAccessibility::Dangerous => 18,
        }
    }
}

/// How fast resources regenerate.
#[derive(Debug, Clone, Copy, PartialEq, Eq, Structural)]
pub enum RegenerationRate {
    NoRegeneration,
    Slow,
    Moderate,
    Fast,
}

impl RegenerationRate {
    /// Minutes between regeneration ticks, if the node regenerates.
    pub fn regeneration_interval_minutes(&self) -> (r: Option<u32>)
        ensures
            r == match self {
                RegenerationRate::NoRegeneration => Option::<u32>::None,
                RegenerationRate::Slow => Some(60u32),
                RegenerationRate::Moderate => Some(30u32),
                RegenerationRate::Fast => Some(15u32),
            },
    {
        match self {
            RegenerationRate::NoRegeneration => None,
            RegenerationRate::Slow => Some(60),
            RegenerationRate::Moderate => Some(30),
            RegenerationRate::Fast => Some(15),
        }
    }

    /// Minutes between regeneration ticks, if the node regenerates.
    pub open spec fn spec_interval(self) -> Option<u32> {
        match self {
            RegenerationRate::NoRegeneration => None,
            RegenerationRate::Slow => Some(60u32),
            RegenerationRate::Moderate => Some(30u32),
            RegenerationRate::Fast => Some(15u32),
        }
    }

    /// Percent of a node's capacity restored per tick: 5, 10 or 20, and 0 without
    /// regeneration.
    pub open spec fn spec_percent(self) -> u32 {
        match self {
            RegenerationRate::NoRegeneration => 0,
            RegenerationRate::Slow => 5,
            RegenerationRate::Moderate => 10,
            RegenerationRate::Fast => 20,
        }
    }

    /// Percent of a node's capacity restored per tick.
    pub fn regeneration_percent(&self) -> (r: u32)
        ensures
            r == self.spec_percent(),
    {
        match self {
            RegenerationRate::NoRegeneration => 0,
            RegenerationRate::Slow => 5,
            RegenerationRate::Moderate => 10,
            RegenerationRate::Fast => 20,
        }
    }
}

/// What was added can be paid back, and paying it restores what was held before:
/// when `added` holds `before` plus `extra` of every type (what a successful
/// `add_collection` leaves), `added` covers `extra`, no amount of `extra` is over
/// the per-type limit (so `pay_cost` succeeds), and taking `extra` off again gives
/// `before`.
pub proof fn added_resources_can_be_paid_back(before: ResourceCollection, extra: ResourceCollection, added: ResourceCollection)
    requires
        forall|t: ResourceType| #[trigger] extra.amount(t) > 0 ==> (extra.amount(t) <= RESOURCE_AMOUNT_LIMIT
            && before.amount(t) + extra.amount(t) <= RESOURCE_AMOUNT_LIMIT),
        forall|t: ResourceType| #[trigger] added.amount(t) == before.amount(t) + extra.amount(t),
    ensures
        added.covers(&extra),
        forall|t: ResourceType| #[trigger] extra.amount(t) <= RESOURCE_AMOUNT_LIMIT,
        forall|t: ResourceType| #[trigger] added.amount(t) - extra.amount(t) == before.amount(t),
{
    assert forall|t: ResourceType| #[trigger] extra.amount(t) <= RESOURCE_AMOUNT_LIMIT by {
        if extra.amount(t) > 0 {
            assert(extra.amount(t) <= RESOURCE_AMOUNT_LIMIT);
        }
    }
    assert forall|t: ResourceType| #[trigger] added.amount(t) >= extra.amount(t) by {
        assert(added.amount(t) == before.amount(t) + extra.amount(t));
    }
}

} // verus!
