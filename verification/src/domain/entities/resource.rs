//! Resource instances found in the world, and stacks of them.
use crate::clock::utc_now_millis;
use crate::domain::value_objects::resources::ResourceType;
use crate::domain::value_objects::{EntityId, Position3D};
use crate::domain::{next_version, DomainError, DomainResult};
use vstd::multiset::Multiset;
use vstd::prelude::*;

verus! {

/// Quality of a resource, from poor to legendary.
#[derive(Debug, Clone, Copy, PartialEq, Eq, PartialOrd, Ord, Structural)]
pub enum ResourceQuality {
    Poor,
    Common,
    Uncommon,
    Rare,
    Epic,
    Legendary,
}

impl ResourceQuality {
    /// Rank of the quality: 0 for poor up to 5 for legendary. Value multipliers grow
    /// with the rank (0.5, 1, 1.5, 2.5, 4, 8).
    pub open spec fn rank(self) -> int {
        match self {
            ResourceQuality::Poor => 0,
            ResourceQuality::Common => 1,
            ResourceQuality::Uncommon => 2,
            ResourceQuality::Rare => 3,
            ResourceQuality::Epic => 4,
            ResourceQuality::Legendary => 5,
        }
    }

    /// Rank of the quality.
    pub fn rank_of(&self) -> (r: u8)
        ensures
            r == self.rank(),
    {
        match self {
            ResourceQuality::Poor => 0,
            ResourceQuality::Common => 1,
            ResourceQuality::Uncommon => 2,
            ResourceQuality::Rare => 3,
            ResourceQuality::Epic => 4,
            ResourceQuality::Legendary => 5,
        }
    }

    /// Every quality, from poor to legendary.
    pub fn all() -> (r: Vec<ResourceQuality>)
        ensures
            r@ == seq![ResourceQuality::Poor, ResourceQuality::Common, ResourceQuality::Uncommon,
                ResourceQuality::Rare, ResourceQuality::Epic, ResourceQuality::Legendary],
    {
        let r = vec![
            ResourceQuality::Poor,
            ResourceQuality::Common,
            ResourceQuality::Uncommon,
            ResourceQuality::Rare,
            ResourceQuality::Epic,
            ResourceQuality::Legendary,
        ];
        assert(r@ =~= seq![ResourceQuality::Poor, ResourceQuality::Common, ResourceQuality::Uncommon,
            ResourceQuality::Rare, ResourceQuality::Epic, ResourceQuality::Legendary]);
        r
    }

    /// Display colour of the quality (red, green, blue).
    pub fn color_code(&self) -> (r: (u8, u8, u8))
        ensures
            r == match self {
                ResourceQuality::Poor => (150u8, 150u8, 150u8),
                ResourceQuality::Common => (255u8, 255u8, 255u8),
                ResourceQuality::Uncommon => (30u8, 255u8, 30u8),
                ResourceQuality::Rare => (30u8, 100u8, 255u8),
                ResourceQuality::Epic => (160u8, 32u8, 240u8),
                ResourceQuality::Legendary => (255u8, 165u8, 0u8),
            },
    {
        match self {
            ResourceQuality::Poor => (150, 150, 150),
            ResourceQuality::Common => (255, 255, 255),
            ResourceQuality::Uncommon => (30, 255, 30),
            ResourceQuality::Rare => (30, 100, 255),
            ResourceQuality::Epic => (160, 32, 240),
            ResourceQuality::Legendary => (255, 165, 0),
        }
    }

    /// Display name of the quality.
    pub open spec fn spec_name(self) -> Seq<char> {
        match self {
            ResourceQuality::Poor => "Poor"@,
            ResourceQuality::Common => "Common"@,
            ResourceQuality::Uncommon => "Uncommon"@,
            ResourceQuality::Rare => "Rare"@,
            ResourceQuality::Epic => "Epic"@,
            ResourceQuality::Legendary => "Legendary"@,
        }
    }

    /// Display name of the quality.
    pub fn to_string(&self) -> (r: String)
        ensures
            r@ == self.spec_name(),
    {
        let s = match self {
            ResourceQuality::Poor => "Poor",
            ResourceQuality::Common => "Common",
            ResourceQuality::Uncommon => "Uncommon",
            ResourceQuality::Rare => "Rare",
            ResourceQuality::Epic => "Epic",
            ResourceQuality::Legendary => "Legendary",
        };
        String::from_str(s)
    }
}

impl Default for ResourceQuality {
    fn default() -> (r: Self)
        ensures
            r == ResourceQuality::Common,
    {
        ResourceQuality::Common
    }
}

/// The largest amount a resource can hold.
pub const MAX_RESOURCE_UNITS: u32 = 1_000_000;

/// A resource found in the world.
#[derive(Debug, Clone, PartialEq)]
pub struct Resource {
    id: EntityId,
    resource_type: ResourceType,
    amount: u32,
    quality: ResourceQuality,
    position: Option<Position3D>,
    discovered_at: i64,
    last_updated: i64,
    version: u64,
}

impl Resource {
    /// The type of the resource.
    pub closed spec fn spec_type(&self) -> ResourceType { self.resource_type }

    /// The identity of the resource.
    pub closed spec fn spec_id(&self) -> EntityId { self.id }

    /// When the resource was discovered (milliseconds since the epoch, UTC).
    pub closed spec fn spec_discovered_at(&self) -> i64 { self.discovered_at }

    /// Units held.
    pub closed spec fn spec_amount(&self) -> u32 { self.amount }

    /// Quality of the resource.
    pub closed spec fn spec_quality(&self) -> ResourceQuality { self.quality }

    /// Where the resource lies, if anywhere.
    pub closed spec fn spec_position(&self) -> Option<Position3D> { self.position }

    /// Number of changes made to the resource.
    pub closed spec fn spec_version(&self) -> u64 { self.version }

    /// Type, quality and position agree.
    pub open spec fn same_kind(&self, other: &Resource) -> bool {
        self.spec_type() == other.spec_type() && self.spec_quality() == other.spec_quality()
            && self.spec_position() == other.spec_position()
    }

    /// A resource of 1 to one million units, discovered now.
    pub fn new(resource_type: ResourceType, amount: u32, quality: ResourceQuality, position: Option<Position3D>) -> (r: DomainResult<Self>)
        ensures
            r is Ok <==> 0 < amount <= MAX_RESOURCE_UNITS,
            amount == 0 ==> r == Err::<Self, DomainError>(DomainError::InvalidResourceAmount(0)),
            amount > MAX_RESOURCE_UNITS ==> r == Err::<Self, DomainError>(DomainError::InvalidResourceAmount(amount as i32)),
            r matches Ok(res) ==> res.spec_type() == resource_type && res.spec_amount() == amount
                && res.spec_quality() == quality && res.spec_position() == position && res.spec_version() == 1,
    {
        if amount == 0 {
            return Err(DomainError::InvalidResourceAmount(0));
        }
        if amount > MAX_RESOURCE_UNITS {
            return Err(DomainError::InvalidResourceAmount(amount as i32));
        }
        let now = utc_now_millis();
        Ok(Resource {
            id: EntityId::generate(),
            resource_type,
            amount,
            quality,
            position,
            discovered_at: now,
            last_updated: now,
            version: 1,
        })
    }

    /// The identity of the resource.
    pub fn id(&self) -> (r: &EntityId)
        ensures
            *r == self.spec_id(),
    {
        &self.id
    }

    /// The type of the resource.
    pub fn resource_type(&self) -> (r: ResourceType)
        ensures r == self.spec_type(),
    {
        self.resource_type
    }

    /// Units held.
    pub fn amount(&self) -> (r: u32)
        ensures r == self.spec_amount(),
    {
        self.amount
    }

    /// Quality of the resource.
    pub fn quality(&self) -> (r: ResourceQuality)
        ensures r == self.spec_quality(),
    {
        self.quality
    }

    /// Where the resource lies, if anywhere.
    pub fn position(&self) -> (r: Option<&Position3D>)
        ensures
            r is None <==> self.spec_position() is None,
            r matches Some(p) ==> self.spec_position() == Some(*p),
    {
        match &self.position {
            Some(p) => Some(p),
            None => None,
        }
    }

    /// Move the resource.
    pub fn set_position(&mut self, position: Option<Position3D>)
        ensures
            final(self).spec_position() == position,
            final(self).spec_type() == old(self).spec_type(),
            final(self).spec_amount() == old(self).spec_amount(),
            final(self).spec_quality() == old(self).spec_quality(),
            final(self).spec_version() == next_version(old(self).spec_version()),
    {
        self.position = position;
        self.update_timestamp();
    }

    /// When the resource was discovered (milliseconds since the epoch, UTC).
    pub fn discovered_at(&self) -> (r: i64)
        ensures
            r == self.spec_discovered_at(),
    {
        self.discovered_at
    }

    /// Take up to `amount_to_consume` units; returns the units taken.
    pub fn consume(&mut self, amount_to_consume: u32) -> (r: DomainResult<u32>)
        ensures
            r matches Ok(taken) && taken == (if amount_to_consume < old(self).spec_amount() { amount_to_consume } else { old(self).spec_amount() }),
            final(self).spec_amount() == old(self).spec_amount() - (if amount_to_consume < old(self).spec_amount() { amount_to_consume } else { old(self).spec_amount() }),
            final(self).same_kind(&*old(self)),
            final(self).spec_version() == (if amount_to_consume == 0 { old(self).spec_version() } else { next_version(old(self).spec_version()) }),
    {
        if amount_to_consume == 0 {
            return Ok(0);
        }
        let consumed = if amount_to_consume < self.amount { amount_to_consume } else { self.amount };
        self.amount = self.amount - consumed;
        self.update_timestamp();
        Ok(consumed)
    }

    /// Add units; fails, changing nothing, past one million units.
    pub fn add(&mut self, amount_to_add: u32) -> (r: DomainResult<()>)
        ensures
            r is Ok <==> (amount_to_add == 0 || old(self).spec_amount() + amount_to_add <= MAX_RESOURCE_UNITS),
            r is Err ==> r == Err::<(), DomainError>(DomainError::InvalidResourceAmount(
                (if old(self).spec_amount() + amount_to_add > u32::MAX { u32::MAX as int } else { old(self).spec_amount() + amount_to_add }) as i32))
                && *final(self) == *old(self),
            r is Ok ==> final(self).spec_amount() == old(self).spec_amount() + amount_to_add
                && final(self).same_kind(&*old(self))
                && final(self).spec_version() == (if amount_to_add == 0 { old(self).spec_version() } else { next_version(old(self).spec_version()) }),
    {
        if amount_to_add == 0 {
            return Ok(());
        }
        let new_total = self.amount.saturating_add(amount_to_add);
        if new_total > MAX_RESOURCE_UNITS {
            return Err(DomainError::InvalidResourceAmount(new_total as i32));
        }
        self.amount = new_total;
        self.update_timestamp();
        Ok(())
    }

    /// Whether no units are left.
    pub fn is_depleted(&self) -> (r: bool)
        ensures r == (self.spec_amount() == 0),
    {
        self.amount == 0
    }

    /// Number of changes made to the resource.
    pub fn version(&self) -> (r: u64)
        ensures r == self.spec_version(),
    {
        self.version
    }

    fn update_timestamp(&mut self)
        ensures
            final(self).spec_version() == next_version(old(self).spec_version()),
            final(self).same_kind(&*old(self)),
            final(self).spec_amount() == old(self).spec_amount(),
    {
        self.last_updated = utc_now_millis();
        self.version = if self.version < u64::MAX { self.version + 1 } else { 0 };
    }

    /// Split `split_amount` units off into a new resource of the same kind; nothing
    /// is split off for zero, and it fails, changing nothing, unless some units stay.
    pub fn split(&mut self, split_amount: u32) -> (r: DomainResult<Option<Resource>>)
        requires
            old(self).spec_amount() <= MAX_RESOURCE_UNITS,
        ensures
            split_amount == 0 ==> r == Ok::<Option<Resource>, DomainError>(None) && *final(self) == *old(self),
            split_amount > 0 && split_amount >= old(self).spec_amount()
                ==> r == Err::<Option<Resource>, DomainError>(DomainError::InvalidResourceAmount(split_amount as i32)) && *final(self) == *old(self),
            0 < split_amount < old(self).spec_amount() ==> (r matches Ok(Some(part))
                && part.spec_amount() == split_amount && part.same_kind(&*old(self))
                && final(self).spec_amount() == old(self).spec_amount() - split_amount
                && final(self).same_kind(&*old(self))),
    {
        if split_amount == 0 {
            return Ok(None);
        }
        if split_amount >= self.amount {
            return Err(DomainError::InvalidResourceAmount(split_amount as i32));
        }
        let remaining = self.amount - split_amount;
        self.amount = remaining;
        self.update_timestamp();
        let new_resource = match Resource::new(self.resource_type, split_amount, self.quality, self.position) {
            Ok(r) => r,
            Err(e) => return Err(e),
        };
        Ok(Some(new_resource))
    }

    /// Merge another resource of the same type into this one, keeping the better
    /// quality; fails on another type, and past one million units (after taking the
    /// better quality).
    pub fn merge(&mut self, other: Resource) -> (r: DomainResult<()>)
        ensures
            old(self).spec_type() != other.spec_type() ==> (r matches Err(DomainError::InvalidResourceType(_))) && *final(self) == *old(self),
            old(self).spec_type() == other.spec_type() ==> {
                &&& (r is Ok <==> old(self).spec_amount() + other.spec_amount() <= MAX_RESOURCE_UNITS || other.spec_amount() == 0)
                &&& final(self).spec_quality() == (if other.spec_quality().rank() > old(self).spec_quality().rank() {
                    other.spec_quality()
                } else {
                    old(self).spec_quality()
                })
                &&& (r is Ok ==> final(self).spec_amount() == old(self).spec_amount() + other.spec_amount())
                &&& (r is Err ==> final(self).spec_amount() == old(self).spec_amount())
                &&& final(self).spec_type() == old(self).spec_type()
                &&& final(self).spec_position() == old(self).spec_position()
            },
    {
        if self.resource_type != other.resource_type {
            return Err(DomainError::InvalidResourceType(String::from_str("Cannot merge different resource types")));
        }
        if other.quality.rank_of() > self.quality.rank_of() {
            self.quality = other.quality;
        }
        self.add(other.amount)
    }
}

/// Total units of a sequence of resources.
pub open spec fn units(s: Seq<Resource>) -> int
    decreases s.len(),
{
    if s.len() == 0 { 0 } else { units(s.drop_last()) + s.last().spec_amount() }
}

/// Whether the resources are in order of quality, best first.
pub open spec fn best_first(s: Seq<Resource>) -> bool {
    forall|i: int, j: int| 0 <= i < j < s.len() ==> (#[trigger] s[i]).spec_quality().rank() >= (#[trigger] s[j]).spec_quality().rank()
}

/// Resources of several kinds held together.
#[derive(Debug, Clone, PartialEq)]
pub struct ResourceStack {
    resources: Vec<Resource>,
}

impl ResourceStack {
    /// The resources held, in order.
    pub closed spec fn contents(&self) -> Seq<Resource> {
        self.resources@
    }

    /// An empty stack.
    pub fn new() -> (r: Self)
        ensures
            r.contents().len() == 0,
    {
        ResourceStack { resources: Vec::new() }
    }

    /// A stack of one resource.
    pub fn from_resource(resource: Resource) -> (r: Self)
        ensures
            r.contents() == seq![resource],
    {
        let mut resources = Vec::new();
        resources.push(resource);
        assert(resources@ =~= seq![resource]);
        ResourceStack { resources }
    }

    /// Add a resource: it merges into the first resource of the same type and quality,
    /// or joins the stack when there is none.
    pub fn add_resource(&mut self, resource: Resource) -> (r: DomainResult<()>)
        ensures
            (forall|i: int| 0 <= i < old(self).contents().len() ==> !(#[trigger] old(self).contents()[i].spec_type() == resource.spec_type()
                && old(self).contents()[i].spec_quality() == resource.spec_quality()))
                ==> r is Ok && final(self).contents() == old(self).contents().push(resource),
            final(self).contents().len() <= old(self).contents().len() + 1,
            r is Ok ==> units(final(self).contents()) == units(old(self).contents()) + resource.spec_amount(),
    {
        let mut i: usize = 0;
        while i < self.resources.len()
            invariant
                0 <= i <= self.resources@.len(),
                self.resources@ == old(self).resources@,
                forall|k: int| 0 <= k < i ==> !(#[trigger] self.resources@[k].spec_type() == resource.spec_type()
                    && self.resources@[k].spec_quality() == resource.spec_quality()),
            decreases self.resources@.len() - i,
        {
            if self.resources[i].resource_type() == resource.resource_type() && self.resources[i].quality() == resource.quality() {
                let ghost before = self.resources@;
                assert(old(self).contents()[i as int].spec_type() == resource.spec_type()
                    && old(self).contents()[i as int].spec_quality() == resource.spec_quality());
                let mut existing = self.resources.remove(i);
                let merged = existing.merge(resource);
                self.resources.insert(i, existing);
                proof {
                    assert(self.resources@ =~= before.update(i as int, existing));
                    lemma_units_update(before, i as int, existing);
                }
                return merged;
            }
            i = i + 1;
        }
        let ghost before = self.resources@;
        self.resources.push(resource);
        proof {
            assert(self.resources@.drop_last() =~= before);
        }
        Ok(())
    }

    /// Total units held.
    pub fn total_amount(&self) -> (r: u32)
        requires
            units(self.contents()) <= u32::MAX,
        ensures
            r == units(self.contents()),
    {
        let mut total: u64 = 0;
        let mut i: usize = 0;
        while i < self.resources.len()
            invariant
                0 <= i <= self.resources@.len(),
                units(self.resources@) <= u32::MAX,
                total == units(self.resources@.take(i as int)),
            decreases self.resources@.len() - i,
        {
            proof {
                assert(self.resources@.take(i + 1).drop_last() =~= self.resources@.take(i as int));
                lemma_units_prefix(self.resources@, i + 1);
            }
            total = total + self.resources[i].amount() as u64;
            i = i + 1;
        }
        assert(self.resources@.take(i as int) =~= self.resources@);
        total as u32
    }

    /// The resources held, in order.
    pub fn resources(&self) -> (r: &[Resource])
        ensures
            r@ == self.contents(),
    {
        self.resources.as_slice()
    }

    /// Whether the stack holds no units.
    pub fn is_empty(&self) -> (r: bool)
        requires
            units(self.contents()) <= u32::MAX,
        ensures
            r == (self.contents().len() == 0 || units(self.contents()) == 0),
    {
        self.resources.len() == 0 || self.total_amount() == 0
    }

    /// Drop the depleted resources, keeping the order of the others.
    pub fn clean_depleted(&mut self)
        ensures
            final(self).contents() == old(self).contents().filter(|r: Resource| r.spec_amount() > 0),
            units(final(self).contents()) == units(old(self).contents()),
            forall|i: int| 0 <= i < final(self).contents().len() ==> (#[trigger] final(self).contents()[i]).spec_amount() > 0,
            best_first(old(self).contents()) ==> best_first(final(self).contents()),
    {
        let ghost pred = |r: Resource| r.spec_amount() > 0;
        let mut remaining: Vec<Resource> = Vec::new();
        std::mem::swap(&mut remaining, &mut self.resources);
        let ghost all = remaining@;
        let mut kept: Vec<Resource> = Vec::new();
        let ghost mut i: int = 0;
        while remaining.len() > 0
            invariant
                pred == (|r: Resource| r.spec_amount() > 0),
                0 <= i <= all.len(),
                remaining@ == all.skip(i),
                kept@ == all.take(i).filter(pred),
                units(kept@) == units(all.take(i)),
                forall|k: int| 0 <= k < kept@.len() ==> (#[trigger] kept@[k]).spec_amount() > 0,
                best_first(all) ==> best_first(kept@),
                best_first(all) ==> forall|k: int, j: int| 0 <= k < kept@.len() && i <= j < all.len()
                    ==> (#[trigger] kept@[k]).spec_quality().rank() >= (#[trigger] all[j]).spec_quality().rank(),
            decreases remaining@.len(),
        {
            let ghost k0 = kept@;
            let item = remaining.remove(0);
            proof {
                assert(item == all[i]);
                assert(all.take(i + 1) =~= all.take(i).push(all[i]));
                all.take(i).lemma_filter_push(all[i], pred);
                assert(all.take(i + 1).drop_last() =~= all.take(i));
                assert(remaining@ =~= all.skip(i + 1));
            }
            if !item.is_depleted() {
                kept.push(item);
                proof {
                    lemma_units_push(k0, item);
                }
            }
            proof {
                i = i + 1;
            }
        }
        proof {
            assert(all.take(i) =~= all);
        }
        self.resources = kept;
    }

    /// Take up to `amount_to_consume` units, best quality first (keeping the order of
    /// equal qualities), then drop the depleted resources; returns the units taken.
    pub fn consume(&mut self, amount_to_consume: u32) -> (r: u32)
        requires
            units(old(self).contents()) <= u32::MAX,
        ensures
            r == (if amount_to_consume < units(old(self).contents()) { amount_to_consume as int } else { units(old(self).contents()) }),
            units(final(self).contents()) == units(old(self).contents()) - r,
            best_first(final(self).contents()),
            forall|i: int| 0 <= i < final(self).contents().len() ==> (#[trigger] final(self).contents()[i]).spec_amount() > 0,
    {
        self.sort_best_first();
        let mut amount_left = amount_to_consume;
        let mut total_consumed: u32 = 0;
        let ghost start = self.resources@;
        let mut i: usize = 0;
        while i < self.resources.len() && amount_left > 0
            invariant
                0 <= i <= self.resources@.len(),
                self.resources@.len() == start.len(),
                best_first(start),
                forall|k: int| 0 <= k < self.resources@.len() ==> (#[trigger] self.resources@[k]).spec_quality() == start[k].spec_quality(),
                forall|k: int| i <= k < self.resources@.len() ==> #[trigger] self.resources@[k] == start[k],
                units(start) == units(old(self).contents()),
                units(start) <= u32::MAX,
                total_consumed + amount_left == amount_to_consume,
                units(self.resources@) == units(start) - total_consumed,
                total_consumed <= units(start.take(i as int)),
                amount_left > 0 ==> total_consumed == units(start.take(i as int)),
            decreases self.resources@.len() - i,
        {
            let ghost before = self.resources@;
            let mut resource = self.resources.remove(i);
            let taken = match resource.consume(amount_left) {
                Ok(t) => t,
                Err(_) => 0,
            };
            self.resources.insert(i, resource);
            proof {
                assert(resource == before[i as int] || true);
                assert(self.resources@ =~= before.update(i as int, resource));
                lemma_units_update(before, i as int, resource);
                assert(start.take(i + 1).drop_last() =~= start.take(i as int));
                lemma_units_prefix(start, i + 1);
            }
            total_consumed = total_consumed + taken;
            amount_left = amount_left - taken;
            i = i + 1;
        }
        proof {
            if amount_left > 0 {
                assert(start.take(i as int) =~= start);
            }
            lemma_units_prefix(start, i as int);
            assert forall|a: int, b: int| 0 <= a < b < self.resources@.len()
                implies (#[trigger] self.resources@[a]).spec_quality().rank() >= (#[trigger] self.resources@[b]).spec_quality().rank() by {
                assert(start[a].spec_quality().rank() >= start[b].spec_quality().rank());
            }
        }
        self.clean_depleted();
        total_consumed
    }

    /// Reorder the resources best quality first, keeping the order of equal qualities.
    fn sort_best_first(&mut self)
        ensures
            best_first(final(self).contents()),
            final(self).contents().len() == old(self).contents().len(),
            final(self).contents().to_multiset() == old(self).contents().to_multiset(),
            units(final(self).contents()) == units(old(self).contents()),
    {
        let mut remaining: Vec<Resource> = Vec::new();
        std::mem::swap(&mut remaining, &mut self.resources);
        let ghost whole = remaining@.to_multiset();
        let ghost total = units(remaining@);
        let ghost count = remaining@.len();
        let mut sorted: Vec<Resource> = Vec::new();
        proof {
            broadcast use vstd::multiset::group_multiset_axioms;
            vstd::seq_lib::to_multiset_len(sorted@);
            assert(sorted@.to_multiset() =~= Multiset::<Resource>::empty());
            assert(sorted@.to_multiset().add(remaining@.to_multiset()) =~= whole);
        }
        let mut rank: u8 = 6;
        while rank > 0
            invariant
                rank <= 6,
                best_first(sorted@),
                forall|k: int| 0 <= k < sorted@.len() ==> (#[trigger] sorted@[k]).spec_quality().rank() >= rank,
                forall|k: int| 0 <= k < remaining@.len() ==> (#[trigger] remaining@[k]).spec_quality().rank() < rank,
                sorted@.to_multiset().add(remaining@.to_multiset()) == whole,
                units(sorted@) + units(remaining@) == total,
                sorted@.len() + remaining@.len() == count,
            decreases rank,
        {
            rank = rank - 1;
            let mut rest: Vec<Resource> = Vec::new();
            proof {
                broadcast use vstd::multiset::group_multiset_axioms;
                vstd::seq_lib::to_multiset_len(rest@);
                assert(rest@.to_multiset() =~= Multiset::<Resource>::empty());
                assert(sorted@.to_multiset().add(rest@.to_multiset()).add(remaining@.to_multiset()) =~= whole);
            }
            while remaining.len() > 0
                invariant
                    best_first(sorted@),
                    forall|k: int| 0 <= k < sorted@.len() ==> (#[trigger] sorted@[k]).spec_quality().rank() >= rank,
                    forall|k: int| 0 <= k < remaining@.len() ==> (#[trigger] remaining@[k]).spec_quality().rank() <= rank,
                    forall|k: int| 0 <= k < rest@.len() ==> (#[trigger] rest@[k]).spec_quality().rank() < rank,
                    sorted@.to_multiset().add(rest@.to_multiset()).add(remaining@.to_multiset()) == whole,
                    units(sorted@) + units(rest@) + units(remaining@) == total,
                    sorted@.len() + rest@.len() + remaining@.len() == count,
                decreases remaining@.len(),
            {
                let ghost before = remaining@;
                let ghost sb = sorted@;
                let ghost rb = rest@;
                let item = remaining.remove(0);
                proof {
                    lemma_units_first(before);
                    assert(before.remove(0) =~= remaining@);
                    vstd::seq_lib::to_multiset_remove(before, 0);
                    vstd::seq_lib::to_multiset_contains(before, item);
                    assert(before.contains(item)) by { assert(before[0] == item); }
                    assert(before.drop_first() =~= remaining@);
                }
                if item.quality().rank_of() == rank {
                    sorted.push(item);
                    proof {
                        broadcast use vstd::multiset::group_multiset_axioms;
                        lemma_units_push(sb, item);
                        vstd::seq_lib::to_multiset_build(sb, item);
                        assert(sorted@.to_multiset().add(rest@.to_multiset()).add(remaining@.to_multiset()) =~= whole);
                    }
                } else {
                    rest.push(item);
                    proof {
                        broadcast use vstd::multiset::group_multiset_axioms;
                        lemma_units_push(rb, item);
                        vstd::seq_lib::to_multiset_build(rb, item);
                        assert(sorted@.to_multiset().add(rest@.to_multiset()).add(remaining@.to_multiset()) =~= whole);
                    }
                }
            }
            proof {
                broadcast use vstd::multiset::group_multiset_axioms;
                vstd::seq_lib::to_multiset_len(remaining@);
                assert(remaining@.to_multiset() =~= Multiset::<Resource>::empty());
                assert(units(remaining@) == 0);
            }
            remaining = rest;
            proof {
                broadcast use vstd::multiset::group_multiset_axioms;
                assert(sorted@.to_multiset().add(remaining@.to_multiset()) =~= whole);
            }
        }
        proof {
            broadcast use vstd::multiset::group_multiset_axioms;
            assert(remaining@.len() == 0);
            vstd::seq_lib::to_multiset_len(remaining@);
            assert(remaining@.to_multiset() =~= Multiset::<Resource>::empty());
            assert(units(remaining@) == 0);
            assert(sorted@.to_multiset() =~= whole);
        }
        self.resources = sorted;
    }
}

impl Default for ResourceStack {
    fn default() -> (r: Self)
        ensures
            r.contents().len() == 0,
    {
        Self::new()
    }
}

proof fn lemma_units_update(s: Seq<Resource>, i: int, r: Resource)
    requires
        0 <= i < s.len(),
    ensures
        units(s.update(i, r)) == units(s) - s[i].spec_amount() + r.spec_amount(),
    decreases s.len(),
{
    if i < s.len() - 1 {
        assert(s.update(i, r).drop_last() =~= s.drop_last().update(i, r));
        lemma_units_update(s.drop_last(), i, r);
    } else {
        assert(s.update(i, r).drop_last() =~= s.drop_last());
    }
}

proof fn lemma_units_prefix(s: Seq<Resource>, n: int)
    requires
        0 <= n <= s.len(),
    ensures
        units(s.take(n)) <= units(s),
    decreases s.len() - n,
{
    if n < s.len() {
        lemma_units_prefix(s, n + 1);
        assert(s.take(n + 1).drop_last() =~= s.take(n));
    } else {
        assert(s.take(n) =~= s);
    }
}

proof fn lemma_units_push(s: Seq<Resource>, r: Resource)
    ensures
        units(s.push(r)) == units(s) + r.spec_amount(),
{
    assert(s.push(r).drop_last() =~= s);
}

proof fn lemma_units_first(s: Seq<Resource>)
    requires
        s.len() > 0,
    ensures
        units(s) == s[0].spec_amount() + units(s.drop_first()),
    decreases s.len(),
{
    if s.len() > 1 {
        lemma_units_first(s.drop_last());
        assert(s.drop_last().drop_first() =~= s.drop_first().drop_last());
        assert(s.drop_last()[0] == s[0]);
        assert(s.drop_first().last() == s.last());
    } else {
        assert(s.drop_first() =~= Seq::<Resource>::empty());
        assert(s.drop_last() =~= Seq::<Resource>::empty());
    }
}

} // verus!
