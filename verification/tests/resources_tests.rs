use space_looter::domain::value_objects::resources::{
    RegenerationRate, ResourceAccessibility, ResourceAmount, ResourceCollection, ResourceNodeProperties, ResourceRichness,
    ResourceType,
};
use space_looter::domain::value_objects::terrain::{Elevation, ElevationCategory, TerrainType};
use space_looter::domain::DomainError;

#[test]
fn resource_type_properties() {
    assert_eq!(ResourceType::Metal.base_value(), 1);
    assert_eq!(ResourceType::ExoticMatter.base_value(), 50);
    assert!(ResourceType::Metal.is_basic());
    assert!(ResourceType::ExoticMatter.is_advanced());
    assert_eq!(ResourceType::ExoticMatter.rarity(), 9);
    assert_eq!(ResourceType::all().len(), 8);
    assert_eq!(ResourceType::basic().len() + ResourceType::advanced().len(), 8);
    assert_eq!(ResourceType::ExoticMatter.to_string(), "Exotic Matter");
}

#[test]
fn resource_amount_creation() {
    let amount = ResourceAmount::new(ResourceType::Metal, 100).unwrap();
    assert_eq!(amount.resource_type, ResourceType::Metal);
    assert_eq!(amount.amount, 100);
    assert!(!amount.is_zero());
    assert!(amount.is_positive());
    assert_eq!(ResourceAmount::new(ResourceType::Metal, 1_000_001), Err(DomainError::InvalidResourceAmount(1_000_001)));
}

#[test]
fn resource_amount_operations() {
    let amount1 = ResourceAmount::new(ResourceType::Metal, 50).unwrap();
    let amount2 = ResourceAmount::new(ResourceType::Metal, 30).unwrap();

    assert_eq!(amount1.add(&amount2).unwrap().amount, 80);
    assert_eq!(amount1.subtract(&amount2).unwrap().amount, 20);
    assert_eq!(amount2.subtract(&amount1).unwrap().amount, 0);
    assert_eq!(amount1.multiply(3).unwrap().amount, 150);
    assert!(amount1.multiply(u32::MAX).is_err());
    assert_eq!(ResourceAmount::new(ResourceType::Technology, 3).unwrap().trade_value(), 30);
}

#[test]
fn resource_amount_invalid_operations() {
    let metal = ResourceAmount::new(ResourceType::Metal, 50).unwrap();
    let energy = ResourceAmount::new(ResourceType::Energy, 30).unwrap();
    assert!(metal.add(&energy).is_err());
    assert!(metal.subtract(&energy).is_err());
    assert!(!metal.can_afford(&energy));
}

#[test]
fn resource_collection_basic_operations() {
    let mut collection = ResourceCollection::new();
    assert!(collection.is_empty());
    assert_eq!(collection.get_amount(ResourceType::Metal), 0);

    collection.set_amount(ResourceType::Metal, 100);
    assert_eq!(collection.get_amount(ResourceType::Metal), 100);
    assert!(!collection.is_empty());
    assert_eq!(collection.type_count(), 1);
    collection.set_amount(ResourceType::Metal, 0);
    assert!(collection.is_empty());
}

#[test]
fn resource_collection_cost_payment() {
    let mut collection = ResourceCollection::new();
    collection.set_amount(ResourceType::Metal, 100);
    collection.set_amount(ResourceType::Energy, 50);

    let cost = ResourceCollection::cost(&[(ResourceType::Metal, 30), (ResourceType::Energy, 20)]).unwrap();

    assert!(collection.can_afford(&cost));
    collection.pay_cost(&cost).unwrap();

    assert_eq!(collection.get_amount(ResourceType::Metal), 70);
    assert_eq!(collection.get_amount(ResourceType::Energy), 30);
}

#[test]
fn resource_collection_insufficient_funds() {
    let mut collection = ResourceCollection::new();
    collection.set_amount(ResourceType::Metal, 10);

    let cost = ResourceCollection::cost(&[(ResourceType::Metal, 50)]).unwrap();

    assert!(!collection.can_afford(&cost));
    assert!(collection.pay_cost(&cost).is_err());
    assert_eq!(collection.get_amount(ResourceType::Metal), 10);
}

#[test]
fn resource_collection_remove_and_add() {
    let mut collection = ResourceCollection::new();
    collection.add_amount(&ResourceAmount::new(ResourceType::Food, 40).unwrap()).unwrap();
    match collection.remove_amount(&ResourceAmount::new(ResourceType::Food, 50).unwrap()) {
        Err(DomainError::InsufficientResources(msg)) => assert_eq!(msg, "Need 50 Food, have 40"),
        _ => panic!("expected insufficient resources"),
    }
    collection.remove_amount(&ResourceAmount::new(ResourceType::Food, 15).unwrap()).unwrap();
    assert_eq!(collection.get_amount(ResourceType::Food), 25);
    collection.set_amount(ResourceType::Data, 999_999);
    assert!(collection.add_amount(&ResourceAmount::new(ResourceType::Data, 2).unwrap()).is_err());
    assert_eq!(collection.get_amount(ResourceType::Data), 999_999);
}

#[test]
fn resource_collection_from_amounts_and_merge() {
    let c = ResourceCollection::from_amounts(vec![
        ResourceAmount::new(ResourceType::Metal, 5).unwrap(),
        ResourceAmount::new(ResourceType::Metal, 7).unwrap(),
        ResourceAmount::new(ResourceType::Data, 1).unwrap(),
    ])
    .unwrap();
    assert_eq!(c.get_amount(ResourceType::Metal), 12);
    assert_eq!(c.resource_types(), vec![ResourceType::Metal, ResourceType::Data]);
    let mut other = ResourceCollection::new();
    other.set_amount(ResourceType::Metal, 3);
    other.add_collection(&c).unwrap();
    assert_eq!(other.get_amount(ResourceType::Metal), 15);
    assert_eq!(other.storage_requirement(), 16);
    assert_eq!(other.amounts().len(), 2);
}

#[test]
fn resource_collection_trade_value() {
    let mut collection = ResourceCollection::new();
    collection.set_amount(ResourceType::Metal, 10);
    collection.set_amount(ResourceType::Energy, 5);
    collection.set_amount(ResourceType::Technology, 2);
    assert_eq!(collection.total_value(), 40);
}

#[test]
fn resource_node_properties() {
    let node = ResourceNodeProperties::metal_common();
    assert_eq!(node.resource_type, ResourceType::Metal);
    assert_eq!(node.richness, ResourceRichness::Average);
    let difficulty = node.gathering_difficulty();
    assert!(difficulty >= 8);
    assert_eq!(difficulty, 9);
    let potential_yield = node.potential_yield();
    assert!(potential_yield > 0);
    assert_eq!(potential_yield, 5);
    let exotic = ResourceNodeProperties::exotic_rare();
    assert_eq!(exotic.gathering_difficulty(), 22);
    assert_eq!(exotic.potential_yield(), 2);
    assert_eq!(exotic.accessibility, ResourceAccessibility::Dangerous);
}

#[test]
fn regeneration_rate_properties() {
    assert_eq!(RegenerationRate::NoRegeneration.regeneration_interval_minutes(), None);
    assert_eq!(RegenerationRate::Slow.regeneration_interval_minutes(), Some(60));
    assert_eq!(RegenerationRate::Fast.regeneration_interval_minutes(), Some(15));
}

#[test]
fn starting_resources() {
    let collection = ResourceCollection::starting_resources();
    assert!(collection.get_amount(ResourceType::Metal) > 0);
    assert!(collection.get_amount(ResourceType::Energy) > 0);
    assert!(collection.get_amount(ResourceType::Food) > 0);
    assert!(collection.get_amount(ResourceType::Technology) > 0);
    assert_eq!(collection.get_amount(ResourceType::Food), 20);
}

#[test]
fn missing_resources_calculation() {
    let mut have = ResourceCollection::new();
    have.set_amount(ResourceType::Metal, 50);
    have.set_amount(ResourceType::Energy, 10);

    let need = ResourceCollection::cost(&[(ResourceType::Metal, 100), (ResourceType::Energy, 5), (ResourceType::Technology, 2)]).unwrap();

    let missing = have.missing_resources(&need);
    assert_eq!(missing.get_amount(ResourceType::Metal), 50);
    assert_eq!(missing.get_amount(ResourceType::Energy), 0);
    assert_eq!(missing.get_amount(ResourceType::Technology), 2);
}

#[test]
fn terrain_type_properties() {
    assert_eq!(TerrainType::Plains.movement_cost(), 1);
    assert_eq!(TerrainType::Mountains.movement_cost(), 3);
    assert_eq!(TerrainType::Anomaly.danger_level(), 10);
    assert!(TerrainType::Plains.is_passable());
    assert!(!TerrainType::Ocean.is_passable());
}

#[test]
fn terrain_resources() {
    let plains_resources = TerrainType::Plains.primary_resources();
    assert!(plains_resources.contains(&ResourceType::Food));
    assert!(plains_resources.contains(&ResourceType::Organics));
    let mountain_resources = TerrainType::Mountains.primary_resources();
    assert!(mountain_resources.contains(&ResourceType::Metal));
}

#[test]
fn terrain_resource_node_generation() {
    let node = TerrainType::Mountains.generate_resource_node(ResourceType::Metal);
    assert!(node.is_some());
    let node = node.unwrap();
    assert_eq!(node.resource_type, ResourceType::Metal);
    assert_eq!(node.richness, ResourceRichness::Rich);
    assert_eq!(node.accessibility, ResourceAccessibility::Moderate);

    let invalid_node = TerrainType::Plains.generate_resource_node(ResourceType::ExoticMatter);
    assert!(invalid_node.is_none());
    let secondary = TerrainType::Plains.generate_resource_node(ResourceType::Metal).unwrap();
    assert_eq!(secondary.richness, ResourceRichness::Poor);
    assert_eq!(secondary.accessibility, ResourceAccessibility::Easy);
    let swamp = TerrainType::Swamp.generate_resource_node(ResourceType::Energy).unwrap();
    assert_eq!(swamp.regeneration_rate, RegenerationRate::Moderate);
}

#[test]
fn terrain_compatibility() {
    assert!(TerrainType::Plains.is_compatible_with(&TerrainType::Forest));
    assert!(TerrainType::Mountains.is_compatible_with(&TerrainType::Cave));
    assert!(!TerrainType::Desert.is_compatible_with(&TerrainType::Tundra));
    assert!(!TerrainType::Ocean.is_compatible_with(&TerrainType::Desert));
    assert!(TerrainType::Ocean.is_compatible_with(&TerrainType::Constructed));
    assert!(!TerrainType::Volcanic.is_compatible_with(&TerrainType::Forest));
}

#[test]
fn terrain_properties() {
    assert!(TerrainType::Forest.provides_cover());
    assert!(!TerrainType::Plains.provides_cover());
    assert!(TerrainType::Cave.is_underground());
    assert!(TerrainType::Constructed.is_artificial());
    assert_eq!(TerrainType::all().len(), 12);
    assert_eq!(TerrainType::natural().len(), 10);
    assert_eq!(TerrainType::Ocean.color(), (51, 102, 204));
}

#[test]
fn elevation_creation() {
    let elevation = Elevation::new(25).unwrap();
    assert_eq!(elevation.height, 25);
    assert!(elevation.is_above_sea_level());
    assert_eq!(elevation.category(), ElevationCategory::Hills);
    assert!(Elevation::new(150).is_err());
}

#[test]
fn elevation_categories() {
    let deep = Elevation::new(-25).unwrap();
    assert_eq!(deep.category(), ElevationCategory::DeepUnderwater);

    let sea = Elevation::sea_level();
    assert_eq!(sea.category(), ElevationCategory::SeaLevel);
    assert!(!sea.is_above_sea_level());
    assert!(!sea.is_below_sea_level());

    let mountain = Elevation::new(45).unwrap();
    assert_eq!(mountain.category(), ElevationCategory::Mountains);
}
