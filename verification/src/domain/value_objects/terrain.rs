//! Terrain types, their gameplay properties, and elevation.
use crate::domain::value_objects::resources::{
    RegenerationRate, ResourceAccessibility, ResourceNodeProperties, ResourceRichness, ResourceType,
};
use crate::domain::DomainError;
use vstd::prelude::*;

verus! {

/// Different types of terrain that can exist in the world.
#[derive(Debug, Clone, Copy, PartialEq, Eq, Hash, Structural)]
pub enum TerrainType {
    Plains,
    Forest,
    Mountains,
    Desert,
    Tundra,
    Swamp,
    Ocean,
    Volcanic,
    Anomaly,
    Constructed,
    Cave,
    Crystal,
}

impl TerrainType {
    /// Movement cost modifier (higher is slower).
    pub open spec fn spec_movement_cost(self) -> int {
        match self {
            TerrainType::Plains => 1,
            TerrainType::Forest => 2,
            TerrainType::Mountains => 3,
            TerrainType::Desert => 2,
            TerrainType::Tundra => 3,
            TerrainType::Swamp => 4,
            TerrainType::Ocean => 5,
            TerrainType::Volcanic => 4,
            TerrainType::Anomaly => 3,
            TerrainType::Constructed => 1,
            TerrainType::Cave => 2,
            TerrainType::Crystal => 2,
        }
    }

    /// Danger level, 1 to 10.
    pub open spec fn spec_danger_level(self) -> int {
        match self {
            TerrainType::Plains => 1,
            TerrainType::Forest => 2,
            TerrainType::Mountains => 4,
            TerrainType::Desert => 3,
            TerrainType::Tundra => 5,
            TerrainType::Swamp => 4,
            TerrainType::Ocean => 7,
            TerrainType::Volcanic => 8,
            TerrainType::Anomaly => 10,
            TerrainType::Constructed => 1,
            TerrainType::Cave => 6,
            TerrainType::Crystal => 3,
        }
    }

    /// Primary resource types of the terrain.
    pub open spec fn spec_primary_resources(self) -> Seq<ResourceType> {
        match self {
            TerrainType::Plains => seq![ResourceType::Food, ResourceType::Organics],
            TerrainType::Forest => seq![ResourceType::Food, ResourceType::Organics, ResourceType::Data],
            TerrainType::Mountains => seq![ResourceType::Metal, ResourceType::Alloys],
            TerrainType::Desert => seq![ResourceType::Metal, ResourceType::Technology],
            TerrainType::Tundra => seq![ResourceType::Energy, ResourceType::Data],
            TerrainType::Swamp => seq![ResourceType::Organics, ResourceType::Energy],
            TerrainType::Ocean => seq![ResourceType::Energy, ResourceType::Organics],
            TerrainType::Volcanic => seq![ResourceType::ExoticMatter, ResourceType::Alloys],
            TerrainType::Anomaly => seq![ResourceType::ExoticMatter, ResourceType::Technology],
            TerrainType::Constructed => Seq::empty(),
            TerrainType::Cave => seq![ResourceType::Metal, ResourceType::ExoticMatter, ResourceType::Technology],
            TerrainType::Crystal => seq![ResourceType::Energy, ResourceType::Technology, ResourceType::ExoticMatter],
        }
    }

    /// Secondary (less common) resource types of the terrain.
    pub open spec fn spec_secondary_resources(self) -> Seq<ResourceType> {
        match self {
            TerrainType::Plains => seq![ResourceType::Metal],
            TerrainType::Forest => seq![ResourceType::Energy],
            TerrainType::Mountains => seq![ResourceType::ExoticMatter, ResourceType::Technology],
            TerrainType::Desert => seq![ResourceType::ExoticMatter],
            TerrainType::Tundra => seq![ResourceType::Metal],
            TerrainType::Swamp => seq![ResourceType::Data],
            TerrainType::Ocean => seq![ResourceType::Technology],
            TerrainType::Volcanic => seq![ResourceType::Energy],
            TerrainType::Anomaly => seq![ResourceType::Data],
            TerrainType::Constructed => Seq::empty(),
            TerrainType::Cave => seq![ResourceType::Energy, ResourceType::Organics],
            TerrainType::Crystal => seq![ResourceType::Data],
        }
    }

    /// Which terrains naturally occur next to each other: every pair but those that
    /// `incompatible_terrains` lists, in either order.
    pub open spec fn compatible(self, other: TerrainType) -> bool {
        !incompatible_terrains(self, other) && !incompatible_terrains(other, self)
    }

    /// Richness of a node of a resource on this terrain.
    pub open spec fn node_richness(self, is_primary: bool) -> ResourceRichness {
        if is_primary {
            let d = self.spec_danger_level();
            if 1 <= d <= 2 {
                ResourceRichness::Average
            } else if 3 <= d <= 5 {
                ResourceRichness::Rich
            } else if 6 <= d <= 10 {
                ResourceRichness::Abundant
            } else {
                ResourceRichness::Average
            }
        } else {
            ResourceRichness::Poor
        }
    }

    /// Accessibility of a node on this terrain, from danger and movement cost.
    pub open spec fn node_accessibility(self) -> ResourceAccessibility {
        let d = self.spec_danger_level();
        let m = self.spec_movement_cost();
        if 1 <= d <= 2 && 1 <= m <= 2 {
            ResourceAccessibility::Easy
        } else if 1 <= d <= 4 && 1 <= m <= 3 {
            ResourceAccessibility::Moderate
        } else if 1 <= d <= 6 || 1 <= m <= 4 {
            ResourceAccessibility::Hard
        } else {
            ResourceAccessibility::Dangerous
        }
    }

    /// Regeneration of a node of a resource on this terrain.
    pub open spec fn node_regeneration(self, t: ResourceType) -> RegenerationRate {
        if self == TerrainType::Plains || self == TerrainType::Forest {
            if t == ResourceType::Food || t == ResourceType::Organics { RegenerationRate::Fast } else { RegenerationRate::NoRegeneration }
        } else if self == TerrainType::Ocean || self == TerrainType::Swamp {
            if t == ResourceType::Organics || t == ResourceType::Energy { RegenerationRate::Moderate } else { RegenerationRate::Slow }
        } else if self == TerrainType::Crystal {
            if t == ResourceType::Energy { RegenerationRate::Slow } else { RegenerationRate::NoRegeneration }
        } else {
            RegenerationRate::NoRegeneration
        }
    }

    /// All terrain types.
    pub fn all() -> (r: Vec<TerrainType>)
        ensures
            r@ == seq![
                TerrainType::Plains, TerrainType::Forest, TerrainType::Mountains, TerrainType::Desert,
                TerrainType::Tundra, TerrainType::Swamp, TerrainType::Ocean, TerrainType::Volcanic,
                TerrainType::Anomaly, TerrainType::Constructed, TerrainType::Cave, TerrainType::Crystal,
            ],
    {
        vec![
            TerrainType::Plains, TerrainType::Forest, TerrainType::Mountains, TerrainType::Desert,
            TerrainType::Tundra, TerrainType::Swamp, TerrainType::Ocean, TerrainType::Volcanic,
            TerrainType::Anomaly, TerrainType::Constructed, TerrainType::Cave, TerrainType::Crystal,
        ]
    }

    /// Natural terrain types (without constructed and anomaly).
    pub fn natural() -> (r: Vec<TerrainType>)
        ensures
            r@ == seq![
                TerrainType::Plains, TerrainType::Forest, TerrainType::Mountains, TerrainType::Desert,
                TerrainType::Tundra, TerrainType::Swamp, TerrainType::Ocean, TerrainType::Volcanic,
                TerrainType::Cave, TerrainType::Crystal,
            ],
    {
        vec![
            TerrainType::Plains, TerrainType::Forest, TerrainType::Mountains, TerrainType::Desert,
            TerrainType::Tundra, TerrainType::Swamp, TerrainType::Ocean, TerrainType::Volcanic,
            TerrainType::Cave, TerrainType::Crystal,
        ]
    }

    /// Low-danger terrain types.
    pub fn safe() -> (r: Vec<TerrainType>)
        ensures
            r@ == seq![TerrainType::Plains, TerrainType::Forest, TerrainType::Desert, TerrainType::Constructed],
    {
        vec![TerrainType::Plains, TerrainType::Forest, TerrainType::Desert, TerrainType::Constructed]
    }

    /// Dangerous terrain types.
    pub fn dangerous() -> (r: Vec<TerrainType>)
        ensures
            r@ == seq![TerrainType::Volcanic, TerrainType::Anomaly, TerrainType::Ocean],
    {
        vec![TerrainType::Volcanic, TerrainType::Anomaly, TerrainType::Ocean]
    }

    /// Movement cost modifier.
    pub fn movement_cost(&self) -> (r: u8)
        ensures
            r == self.spec_movement_cost(),
    {
        match self {
            TerrainType::Plains => 1,
            TerrainType::Forest => 2,
            TerrainType::Mountains => 3,
            TerrainType::Desert => 2,
            TerrainType::Tundra => 3,
            TerrainType::Swamp => 4,
            TerrainType::Ocean => 5,
            TerrainType::Volcanic => 4,
            TerrainType::Anomaly => 3,
            TerrainType::Constructed => 1,
            TerrainType::Cave => 2,
            TerrainType::Crystal => 2,
        }
    }

    /// Danger level (1-10).
    pub fn danger_level(&self) -> (r: u8)
        ensures
            r == self.spec_danger_level(),
    {
        match self {
            TerrainType::Plains => 1,
            TerrainType::Forest => 2,
            TerrainType::Mountains => 4,
            TerrainType::Desert => 3,
            TerrainType::Tundra => 5,
            TerrainType::Swamp => 4,
            TerrainType::Ocean => 7,
            TerrainType::Volcanic => 8,
            TerrainType::Anomaly => 10,
            TerrainType::Constructed => 1,
            TerrainType::Cave => 6,
            TerrainType::Crystal => 3,
        }
    }

    /// Whether the terrain can be crossed without special equipment (all but ocean).
    pub fn is_passable(&self) -> (r: bool)
        ensures
            r == (*self != TerrainType::Ocean),
    {
        match self {
            TerrainType::Ocean => false,
            _ => true,
        }
    }

    /// Whether the terrain gives cover.
    pub fn provides_cover(&self) -> (r: bool)
        ensures
            r == (*self == TerrainType::Forest || *self == TerrainType::Mountains
                || *self == TerrainType::Cave || *self == TerrainType::Swamp),
    {
        match self {
            TerrainType::Forest | TerrainType::Mountains | TerrainType::Cave | TerrainType::Swamp => true,
            _ => false,
        }
    }

    /// Whether the terrain is underground.
    pub fn is_underground(&self) -> (r: bool)
        ensures
            r == (*self == TerrainType::Cave),
    {
        match self {
            TerrainType::Cave => true,
            _ => false,
        }
    }

    /// Whether the terrain is artificial.
    pub fn is_artificial(&self) -> (r: bool)
        ensures
            r == (*self == TerrainType::Constructed),
    {
        match self {
            TerrainType::Constructed => true,
            _ => false,
        }
    }

    /// Primary resource types this terrain can contain.
    pub fn primary_resources(&self) -> (r: Vec<ResourceType>)
        ensures
            r@ == self.spec_primary_resources(),
    {
        match self {
            TerrainType::Plains => vec![ResourceType::Food, ResourceType::Organics],
            TerrainType::Forest => vec![ResourceType::Food, ResourceType::Organics, ResourceType::Data],
            TerrainType::Mountains => vec![ResourceType::Metal, ResourceType::Alloys],
            TerrainType::Desert => vec![ResourceType::Metal, ResourceType::Technology],
            TerrainType::Tundra => vec![ResourceType::Energy, ResourceType::Data],
            TerrainType::Swamp => vec![ResourceType::Organics, ResourceType::Energy],
            TerrainType::Ocean => vec![ResourceType::Energy, ResourceType::Organics],
            TerrainType::Volcanic => vec![ResourceType::ExoticMatter, ResourceType::Alloys],
            TerrainType::Anomaly => vec![ResourceType::ExoticMatter, ResourceType::Technology],
            TerrainType::Constructed => Vec::new(),
            TerrainType::Cave => vec![ResourceType::Metal, ResourceType::ExoticMatter, ResourceType::Technology],
            TerrainType::Crystal => vec![ResourceType::Energy, ResourceType::Technology, ResourceType::ExoticMatter],
        }
    }

    /// Secondary resource types this terrain can contain.
    pub fn secondary_resources(&self) -> (r: Vec<ResourceType>)
        ensures
            r@ == self.spec_secondary_resources(),
    {
        match self {
            TerrainType::Plains => vec![ResourceType::Metal],
            TerrainType::Forest => vec![ResourceType::Energy],
            TerrainType::Mountains => vec![ResourceType::ExoticMatter, ResourceType::Technology],
            TerrainType::Desert => vec![ResourceType::ExoticMatter],
            TerrainType::Tundra => vec![ResourceType::Metal],
            TerrainType::Swamp => vec![ResourceType::Data],
            TerrainType::Ocean => vec![ResourceType::Technology],
            TerrainType::Volcanic => vec![ResourceType::Energy],
            TerrainType::Anomaly => vec![ResourceType::Data],
            TerrainType::Constructed => Vec::new(),
            TerrainType::Cave => vec![ResourceType::Energy, ResourceType::Organics],
            TerrainType::Crystal => vec![ResourceType::Data],
        }
    }

    /// Resource node properties for a resource on this terrain; `None` when the
    /// terrain holds neither primary nor secondary deposits of it.
    pub fn generate_resource_node(&self, resource_type: ResourceType) -> (r: Option<ResourceNodeProperties>)
        ensures
            r is Some <==> (self.spec_primary_resources().contains(resource_type)
                || self.spec_secondary_resources().contains(resource_type)),
            r matches Some(n) ==> n == (ResourceNodeProperties {
                resource_type,
                richness: self.node_richness(self.spec_primary_resources().contains(resource_type)),
                accessibility: self.node_accessibility(),
                regeneration_rate: self.node_regeneration(resource_type),
            }),
    {
        let primary = self.primary_resources();
        let secondary = self.secondary_resources();
        let is_primary = contains_type(&primary, resource_type);
        let is_secondary = contains_type(&secondary, resource_type);
        if !is_primary && !is_secondary {
            return None;
        }
        let danger = self.danger_level();
        let richness = if is_primary {
            if 1 <= danger && danger <= 2 {
                ResourceRichness::Average
            } else if 3 <= danger && danger <= 5 {
                ResourceRichness::Rich
            } else if 6 <= danger && danger <= 10 {
                ResourceRichness::Abundant
            } else {
                ResourceRichness::Average
            }
        } else {
            ResourceRichness::Poor
        };
        let cost = self.movement_cost();
        let accessibility = if 1 <= danger && danger <= 2 && 1 <= cost && cost <= 2 {
            ResourceAccessibility::Easy
        } else if 1 <= danger && danger <= 4 && 1 <= cost && cost <= 3 {
            ResourceAccessibility::Moderate
        } else if (1 <= danger && danger <= 6) || (1 <= cost && cost <= 4) {
            ResourceAccessibility::Hard
        } else {
            ResourceAccessibility::Dangerous
        };
        let regeneration_rate = match self {
            TerrainType::Plains | TerrainType::Forest => {
                if resource_type == ResourceType::Food || resource_type == ResourceType::Organics {
                    RegenerationRate::Fast
                } else {
                    RegenerationRate::NoRegeneration
                }
            },
            TerrainType::Ocean | TerrainType::Swamp => {
                if resource_type == ResourceType::Organics || resource_type == ResourceType::Energy {
                    RegenerationRate::Moderate
                } else {
                    RegenerationRate::Slow
                }
            },
            TerrainType::Crystal => {
                if resource_type == ResourceType::Energy {
                    RegenerationRate::Slow
                } else {
                    RegenerationRate::NoRegeneration
                }
            },
            _ => RegenerationRate::NoRegeneration,
        };
        Some(ResourceNodeProperties::new(resource_type, richness, accessibility, regeneration_rate))
    }

    /// Description of the terrain.
    pub fn description(&self) -> (r: &'static str)
        ensures
            r@ == match self {
                TerrainType::Plains => "Open grasslands with gentle rolling hills and scattered vegetation"@,
                TerrainType::Forest => "Dense woodlands with towering trees and rich biodiversity"@,
                TerrainType::Mountains => "Rocky peaks and steep cliffs rich in mineral deposits"@,
                TerrainType::Desert => "Vast sandy expanses with hidden treasures beneath"@,
                TerrainType::Tundra => "Frozen wastelands with harsh conditions and unique resources"@,
                TerrainType::Swamp => "Wetlands teeming with life and mysterious energies"@,
                TerrainType::Ocean => "Deep waters requiring special equipment to traverse"@,
                TerrainType::Volcanic => "Active volcanic regions with dangerous but valuable materials"@,
                TerrainType::Anomaly => "Corrupted landscapes with reality-bending properties"@,
                TerrainType::Constructed => "Artificial terrain created for bases and settlements"@,
                TerrainType::Cave => "Underground networks hiding rare resources and secrets"@,
                TerrainType::Crystal => "Crystalline formations that resonate with energy"@,
            },
    {
        match self {
            TerrainType::Plains => "Open grasslands with gentle rolling hills and scattered vegetation",
            TerrainType::Forest => "Dense woodlands with towering trees and rich biodiversity",
            TerrainType::Mountains => "Rocky peaks and steep cliffs rich in mineral deposits",
            TerrainType::Desert => "Vast sandy expanses with hidden treasures beneath",
            TerrainType::Tundra => "Frozen wastelands with harsh conditions and unique resources",
            TerrainType::Swamp => "Wetlands teeming with life and mysterious energies",
            TerrainType::Ocean => "Deep waters requiring special equipment to traverse",
            TerrainType::Volcanic => "Active volcanic regions with dangerous but valuable materials",
            TerrainType::Anomaly => "Corrupted landscapes with reality-bending properties",
            TerrainType::Constructed => "Artificial terrain created for bases and settlements",
            TerrainType::Cave => "Underground networks hiding rare resources and secrets",
            TerrainType::Crystal => "Crystalline formations that resonate with energy",
        }
    }

    /// Map color of the terrain, as (red, green, blue).
    pub fn color(&self) -> (r: (u8, u8, u8))
        ensures
            r == match self {
                TerrainType::Plains => (102u8, 153u8, 51u8),
                TerrainType::Forest => (34u8, 102u8, 34u8),
                TerrainType::Mountains => (102u8, 102u8, 102u8),
                TerrainType::Desert => (255u8, 204u8, 102u8),
                TerrainType::Tundra => (204u8, 255u8, 255u8),
                TerrainType::Swamp => (102u8, 153u8, 102u8),
                TerrainType::Ocean => (51u8, 102u8, 204u8),
                TerrainType::Volcanic => (204u8, 51u8, 51u8),
                TerrainType::Anomaly => (153u8, 51u8, 204u8),
                TerrainType::Constructed => (153u8, 153u8, 153u8),
                TerrainType::Cave => (51u8, 51u8, 51u8),
                TerrainType::Crystal => (204u8, 204u8, 255u8),
            },
    {
        match self {
            TerrainType::Plains => (102, 153, 51),
            TerrainType::Forest => (34, 102, 34),
            TerrainType::Mountains => (102, 102, 102),
            TerrainType::Desert => (255, 204, 102),
            TerrainType::Tundra => (204, 255, 255),
            TerrainType::Swamp => (102, 153, 102),
            TerrainType::Ocean => (51, 102, 204),
            TerrainType::Volcanic => (204, 51, 51),
            TerrainType::Anomaly => (153, 51, 204),
            TerrainType::Constructed => (153, 153, 153),
            TerrainType::Cave => (51, 51, 51),
            TerrainType::Crystal => (204, 204, 255),
        }
    }

    /// Icon of the terrain.
    pub fn icon(&self) -> (r: char)
        ensures
            r == match self {
                TerrainType::Plains => '🌾',
                TerrainType::Forest => '🌲',
                TerrainType::Mountains => '⛰',
                TerrainType::Desert => '🏜',
                TerrainType::Tundra => '🧊',
                TerrainType::Swamp => '🐸',
                TerrainType::Ocean => '🌊',
                TerrainType::Volcanic => '🌋',
                TerrainType::Anomaly => '👁',
                TerrainType::Constructed => '🏗',
                TerrainType::Cave => '🕳',
                TerrainType::Crystal => '💎',
            },
    {
        match self {
            TerrainType::Plains => '🌾',
            TerrainType::Forest => '🌲',
            TerrainType::Mountains => '⛰',
            TerrainType::Desert => '🏜',
            TerrainType::Tundra => '🧊',
            TerrainType::Swamp => '🐸',
            TerrainType::Ocean => '🌊',
            TerrainType::Volcanic => '🌋',
            TerrainType::Anomaly => '👁',
            TerrainType::Constructed => '🏗',
            TerrainType::Cave => '🕳',
            TerrainType::Crystal => '💎',
        }
    }

    /// Whether this terrain naturally occurs next to `other`.
    pub fn is_compatible_with(&self, other: &TerrainType) -> (r: bool)
        ensures
            r == self.compatible(*other),
    {
        let a = *self;
        let b = *other;
        if a == TerrainType::Plains || b == TerrainType::Plains {
            true
        } else if (a == TerrainType::Forest && b == TerrainType::Swamp) || (a == TerrainType::Swamp && b == TerrainType::Forest)
            || (a == TerrainType::Forest && b == TerrainType::Mountains) || (a == TerrainType::Mountains && b == TerrainType::Forest)
            || (a == TerrainType::Mountains && b == TerrainType::Desert) || (a == TerrainType::Desert && b == TerrainType::Mountains)
            || (a == TerrainType::Mountains && b == TerrainType::Tundra) || (a == TerrainType::Tundra && b == TerrainType::Mountains)
            || (a == TerrainType::Mountains && b == TerrainType::Cave) || (a == TerrainType::Cave && b == TerrainType::Mountains) {
            true
        } else if (a == TerrainType::Desert && b == TerrainType::Tundra) || (a == TerrainType::Tundra && b == TerrainType::Desert) {
            false
        } else if a == TerrainType::Ocean || b == TerrainType::Ocean {
            (a == TerrainType::Ocean && b == TerrainType::Ocean) || a == TerrainType::Constructed || b == TerrainType::Constructed
        } else if a == TerrainType::Anomaly || b == TerrainType::Anomaly {
            true
        } else if a == TerrainType::Volcanic || b == TerrainType::Volcanic {
            a == TerrainType::Mountains || b == TerrainType::Mountains || a == TerrainType::Desert || b == TerrainType::Desert
        } else if a == TerrainType::Constructed || b == TerrainType::Constructed {
            true
        } else if a == TerrainType::Cave && b == TerrainType::Cave {
            true
        } else if a == TerrainType::Crystal || b == TerrainType::Crystal {
            a == TerrainType::Mountains || b == TerrainType::Mountains || a == TerrainType::Cave || b == TerrainType::Cave
        } else {
            true
        }
    }
}

/// The pairs of terrains that do not occur next to each other, each pair listed
/// once: ocean meets only ocean, plains and built terrain; volcanic ground meets
/// only plains, mountains, desert and anomalies; crystal meets only plains,
/// mountains, caves, anomalies and built terrain; and desert does not meet tundra.
pub open spec fn incompatible_terrains(a: TerrainType, b: TerrainType) -> bool {
    ||| a == TerrainType::Forest && (b == TerrainType::Ocean || b == TerrainType::Volcanic || b == TerrainType::Crystal)
    ||| a == TerrainType::Mountains && b == TerrainType::Ocean
    ||| a == TerrainType::Desert && (b == TerrainType::Tundra || b == TerrainType::Ocean || b == TerrainType::Crystal)
    ||| a == TerrainType::Tundra && (b == TerrainType::Ocean || b == TerrainType::Volcanic || b == TerrainType::Crystal)
    ||| a == TerrainType::Swamp && (b == TerrainType::Ocean || b == TerrainType::Volcanic || b == TerrainType::Crystal)
    ||| a == TerrainType::Ocean && (b == TerrainType::Volcanic || b == TerrainType::Anomaly || b == TerrainType::Cave || b == TerrainType::Crystal)
    ||| a == TerrainType::Volcanic && (b == TerrainType::Volcanic || b == TerrainType::Constructed || b == TerrainType::Cave || b == TerrainType::Crystal)
    ||| a == TerrainType::Crystal && b == TerrainType::Crystal
}

/// Terrains that occur next to each other do so either way round.
pub proof fn terrain_compatibility_is_symmetric(a: TerrainType, b: TerrainType)
    ensures
        a.compatible(b) == b.compatible(a),
{
}

/// Whether a list of resource types contains `t`.
pub fn contains_type(v: &Vec<ResourceType>, t: ResourceType) -> (r: bool)
    ensures
        r == v@.contains(t),
{
    let mut i: usize = 0;
    while i < v.len()
        invariant
            0 <= i <= v@.len(),
            forall|j: int| 0 <= j < i ==> v@[j] != t,
        decreases v@.len() - i,
    {
        if v[i] == t {
            assert(v@[i as int] == t);
            return true;
        }
        i = i + 1;
    }
    false
}

/// Elevation information for terrain tiles.
#[derive(Debug, Clone, Copy, PartialEq, Eq, Structural)]
pub struct Elevation {
    pub height: i32,
}

/// Categories of elevation.
#[derive(Debug, Clone, Copy, PartialEq, Eq, Structural)]
pub enum ElevationCategory {
    DeepUnderwater,
    Underwater,
    SeaLevel,
    Lowlands,
    Hills,
    Mountains,
    HighMountains,
}

/// The elevation category of a height.
pub open spec fn category_of(h: int) -> ElevationCategory {
    if h < -20 {
        ElevationCategory::DeepUnderwater
    } else if h < 0 {
        ElevationCategory::Underwater
    } else if h == 0 {
        ElevationCategory::SeaLevel
    } else if h < 10 {
        ElevationCategory::Lowlands
    } else if h < 30 {
        ElevationCategory::Hills
    } else if h < 60 {
        ElevationCategory::Mountains
    } else {
        ElevationCategory::HighMountains
    }
}

impl Elevation {
    /// A validated elevation within [-100, 100].
    pub fn new(height: i32) -> (r: Result<Self, DomainError>)
        ensures
            r is Ok <==> -100 <= height <= 100,
            r matches Ok(e) ==> e.height == height,
            r matches Err(e) ==> e is ValidationError,
    {
        if height < -100 || height > 100 {
            return Err(DomainError::ValidationError(String::from_str("Elevation must be between -100 and 100")));
        }
        Ok(Elevation { height })
    }

    /// Sea level elevation.
    pub fn sea_level() -> (r: Self)
        ensures
            r.height == 0,
    {
        Elevation { height: 0 }
    }

    /// Whether this is above sea level.
    pub fn is_above_sea_level(&self) -> (r: bool)
        ensures
            r == (self.height > 0),
    {
        self.height > 0
    }

    /// Whether this is below sea level.
    pub fn is_below_sea_level(&self) -> (r: bool)
        ensures
            r == (self.height < 0),
    {
        self.height < 0
    }

    /// The elevation category.
    pub fn category(&self) -> (r: ElevationCategory)
        ensures
            r == category_of(self.height as int),
    {
        let h = self.height;
        if h < -20 {
            ElevationCategory::DeepUnderwater
        } else if h < 0 {
            ElevationCategory::Underwater
        } else if h == 0 {
            ElevationCategory::SeaLevel
        } else if h < 10 {
            ElevationCategory::Lowlands
        } else if h < 30 {
            ElevationCategory::Hills
        } else if h < 60 {
            ElevationCategory::Mountains
        } else {
            ElevationCategory::HighMountains
        }
    }
}

} // verus!
