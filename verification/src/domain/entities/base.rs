//! The player's home base, which grows with upgrades and buildings.
use crate::clock::utc_now_millis;
use crate::domain::value_objects::resources::{ResourceCollection, ResourceType};
use crate::domain::value_objects::{EntityId, Position3D};
use crate::domain::{DomainError, DomainResult};
use crate::text::{byte_len, utf8_len};
use vstd::prelude::*;

verus! {

/// Levels of a base.
#[derive(Debug, Clone, Copy, PartialEq, Eq, Structural)]
pub enum BaseLevel {
    Level1,
    Level2,
    Level3,
    Level4,
    Level5,
}

impl BaseLevel {
    /// Units of resources a base of this level can store.
    pub open spec fn spec_storage_capacity(self) -> u32 {
        match self {
            BaseLevel::Level1 => 1000,
            BaseLevel::Level2 => 2500,
            BaseLevel::Level3 => 5000,
            BaseLevel::Level4 => 10000,
            BaseLevel::Level5 => 25000,
        }
    }

    /// Units of resources a base of this level can store.
    pub fn storage_capacity(&self) -> (r: u32)
        ensures
            r == self.spec_storage_capacity(),
    {
        match self {
            BaseLevel::Level1 => 1000,
            BaseLevel::Level2 => 2500,
            BaseLevel::Level3 => 5000,
            BaseLevel::Level4 => 10000,
            BaseLevel::Level5 => 25000,
        }
    }
}

/// Kinds of building a base can hold.
#[derive(Debug, Clone, Copy, PartialEq, Eq, Structural)]
pub enum BuildingType {
    ResourceStorage,
    Workshop,
    Laboratory,
    PowerPlant,
    LivingQuarters,
    DefenseSystem,
}

impl BuildingType {
    /// What a building of this type costs, per resource type (zero where nothing is
    /// asked).
    pub open spec fn spec_cost(self, t: ResourceType) -> u32 {
        match self {
            BuildingType::ResourceStorage => match t {
                ResourceType::Metal => 50u32,
                ResourceType::Energy => 20u32,
                _ => 0u32,
            },
            BuildingType::Workshop => match t {
                ResourceType::Metal => 75u32,
                ResourceType::Technology => 10u32,
                _ => 0u32,
            },
            BuildingType::Laboratory => match t {
                ResourceType::Technology => 25u32,
                ResourceType::Energy => 50u32,
                _ => 0u32,
            },
            BuildingType::PowerPlant => match t {
                ResourceType::Metal => 100u32,
                ResourceType::Technology => 15u32,
                _ => 0u32,
            },
            BuildingType::LivingQuarters => match t {
                ResourceType::Metal => 40u32,
                ResourceType::Food => 30u32,
                _ => 0u32,
            },
            BuildingType::DefenseSystem => match t {
                ResourceType::Metal => 150u32,
                ResourceType::Technology => 30u32,
                ResourceType::Energy => 75u32,
                _ => 0u32,
            },
        }
    }

    /// The resources a building of this type costs.
    pub fn build_cost(&self) -> (r: ResourceCollection)
        ensures
            forall|t: ResourceType| #[trigger] r.amount(t) == self.spec_cost(t),
    {
        let mut cost = ResourceCollection::new();
        match self {
            BuildingType::ResourceStorage => {
                cost.set_amount(ResourceType::Metal, 50);
                cost.set_amount(ResourceType::Energy, 20);
            },
            BuildingType::Workshop => {
                cost.set_amount(ResourceType::Metal, 75);
                cost.set_amount(ResourceType::Technology, 10);
            },
            BuildingType::Laboratory => {
                cost.set_amount(ResourceType::Technology, 25);
                cost.set_amount(ResourceType::Energy, 50);
            },
            BuildingType::PowerPlant => {
                cost.set_amount(ResourceType::Metal, 100);
                cost.set_amount(ResourceType::Technology, 15);
            },
            BuildingType::LivingQuarters => {
                cost.set_amount(ResourceType::Metal, 40);
                cost.set_amount(ResourceType::Food, 30);
            },
            BuildingType::DefenseSystem => {
                cost.set_amount(ResourceType::Metal, 150);
                cost.set_amount(ResourceType::Technology, 30);
                cost.set_amount(ResourceType::Energy, 75);
            },
        }
        assert forall|t: ResourceType| #[trigger] cost.amount(t) == self.spec_cost(t) by {
            match t {
                ResourceType::Metal => {},
                ResourceType::Energy => {},
                ResourceType::Food => {},
                ResourceType::Technology => {},
                _ => {},
            }
        }
        cost
    }
}

/// A building inside a base.
#[derive(Debug)]
pub struct BaseBuilding {
    pub id: EntityId,
    pub building_type: BuildingType,
    pub name: String,
    pub level: u8,
    pub position_in_base: (i32, i32),
    pub constructed_at: i64,
}

impl Clone for BaseBuilding {
    fn clone(&self) -> (r: Self)
        ensures
            r.id == self.id && r.building_type == self.building_type && r.name@ == self.name@
                && r.level == self.level && r.position_in_base == self.position_in_base
                && r.constructed_at == self.constructed_at,
    {
        BaseBuilding {
            id: self.id,
            building_type: self.building_type,
            name: self.name.clone(),
            level: self.level,
            position_in_base: self.position_in_base,
            constructed_at: self.constructed_at,
        }
    }
}

impl BaseBuilding {
    /// A new level 1 building, constructed now.
    pub fn new(building_type: BuildingType, name: String, position_in_base: (i32, i32)) -> (r: Self)
        ensures
            r.building_type == building_type,
            r.name@ == name@,
            r.level == 1,
            r.position_in_base == position_in_base,
    {
        BaseBuilding {
            id: EntityId::generate(),
            building_type,
            name,
            level: 1,
            position_in_base,
            constructed_at: utc_now_millis(),
        }
    }
}

/// The player's base.
#[derive(Debug, Clone)]
pub struct Base {
    id: EntityId,
    name: String,
    position: Position3D,
    level: BaseLevel,
    buildings: Vec<BaseBuilding>,
    resources_stored: ResourceCollection,
    storage_capacity: u32,
    created_at: i64,
    last_updated: i64,
    version: u64,
}

/// Whether a name has from 1 to 50 bytes.
pub open spec fn valid_short_name(name: Seq<char>) -> bool {
    name.len() > 0 && utf8_len(name) <= 50
}

impl Base {
    /// The identity of the base.
    pub closed spec fn spec_id(&self) -> EntityId {
        self.id
    }

    /// The name of the base.
    pub closed spec fn spec_name(&self) -> Seq<char> {
        self.name@
    }

    /// Where the base stands.
    pub closed spec fn spec_position(&self) -> Position3D {
        self.position
    }

    /// The level of the base.
    pub closed spec fn spec_level(&self) -> BaseLevel {
        self.level
    }

    /// The buildings of the base.
    pub closed spec fn spec_buildings(&self) -> Seq<BaseBuilding> {
        self.buildings@
    }

    /// The resources stored in the base.
    pub closed spec fn spec_resources(&self) -> ResourceCollection {
        self.resources_stored
    }

    /// Units of resources the base can store.
    pub closed spec fn spec_storage_capacity(&self) -> u32 {
        self.storage_capacity
    }

    /// A new level 1 base with no buildings and nothing stored; the name must have 1
    /// to 50 bytes.
    pub fn new(id: EntityId, name: String, position: Position3D) -> (r: DomainResult<Self>)
        ensures
            r is Ok <==> valid_short_name(name@),
            r is Err ==> r matches Err(DomainError::ValidationError(_)),
            r matches Ok(b) ==> b.spec_id() == id && b.spec_name() == name@ && b.spec_position() == position
                && b.spec_level() == BaseLevel::Level1 && b.spec_buildings().len() == 0
                && (forall|t: ResourceType| #[trigger] b.spec_resources().amount(t) == 0)
                && b.spec_storage_capacity() == 1000,
    {
        if name.as_str().is_empty() || byte_len(name.as_str()) > 50 {
            return Err(DomainError::ValidationError(String::from_str("Base name must be between 1 and 50 characters")));
        }
        let now = utc_now_millis();
        Ok(Base {
            id,
            name,
            position,
            level: BaseLevel::Level1,
            buildings: Vec::new(),
            resources_stored: ResourceCollection::new(),
            storage_capacity: 1000,
            created_at: now,
            last_updated: now,
            version: 1,
        })
    }

    /// The identity of the base.
    pub fn id(&self) -> (r: &EntityId)
        ensures
            *r == self.spec_id(),
    {
        &self.id
    }

    /// The name of the base.
    pub fn name(&self) -> (r: &str)
        ensures
            r@ == self.spec_name(),
    {
        self.name.as_str()
    }

    /// Where the base stands.
    pub fn position(&self) -> (r: &Position3D)
        ensures
            *r == self.spec_position(),
    {
        &self.position
    }

    /// The level of the base.
    pub fn level(&self) -> (r: BaseLevel)
        ensures
            r == self.spec_level(),
    {
        self.level
    }

    /// The buildings of the base.
    pub fn buildings(&self) -> (r: &[BaseBuilding])
        ensures
            r@ == self.spec_buildings(),
    {
        self.buildings.as_slice()
    }

    /// The resources stored in the base.
    pub fn resources(&self) -> (r: &ResourceCollection)
        ensures
            *r == self.spec_resources(),
    {
        &self.resources_stored
    }

    /// Units of resources the base can store.
    pub fn storage_capacity(&self) -> (r: u32)
        ensures
            r == self.spec_storage_capacity(),
    {
        self.storage_capacity
    }
}

} // verus!
