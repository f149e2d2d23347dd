use space_looter::domain::entities::enemy::{EnemyId, EnemyType};
use space_looter::domain::entities::resource::{Resource, ResourceQuality, ResourceStack};
use space_looter::domain::value_objects::resources::ResourceType;
use space_looter::domain::value_objects::Position3D;
use space_looter::domain::DomainError;

#[test]
fn resource_creation() {
    let resource = Resource::new(
        ResourceType::Metal,
        100,
        ResourceQuality::Common,
        Some(Position3D::new(5, 5, 0)),
    )
    .unwrap();

    assert_eq!(resource.resource_type(), ResourceType::Metal);
    assert_eq!(resource.amount(), 100);
    assert_eq!(resource.quality(), ResourceQuality::Common);
    assert!(resource.position().is_some());
}

#[test]
fn resource_consumption() {
    let mut resource = Resource::new(ResourceType::Energy, 50, ResourceQuality::Common, None).unwrap();

    let consumed = resource.consume(20).unwrap();
    assert_eq!(consumed, 20);
    assert_eq!(resource.amount(), 30);

    let consumed = resource.consume(100).unwrap();
    assert_eq!(consumed, 30);
    assert!(resource.is_depleted());
}

#[test]
fn resource_splitting() {
    let mut resource = Resource::new(ResourceType::Food, 100, ResourceQuality::Rare, None).unwrap();

    let split_resource = resource.split(30).unwrap().unwrap();
    assert_eq!(resource.amount(), 70);
    assert_eq!(split_resource.amount(), 30);
    assert_eq!(split_resource.quality(), ResourceQuality::Rare);
}

#[test]
fn resource_merging() {
    let mut resource1 = Resource::new(ResourceType::Metal, 50, ResourceQuality::Common, None).unwrap();
    let resource2 = Resource::new(ResourceType::Metal, 30, ResourceQuality::Rare, None).unwrap();

    resource1.merge(resource2).unwrap();
    assert_eq!(resource1.amount(), 80);
    assert_eq!(resource1.quality(), ResourceQuality::Rare);
}

#[test]
fn resource_stack_operations() {
    let mut stack = ResourceStack::new();
    assert!(stack.is_empty());

    let resource1 = Resource::new(ResourceType::Metal, 50, ResourceQuality::Common, None).unwrap();
    let resource2 = Resource::new(ResourceType::Metal, 30, ResourceQuality::Common, None).unwrap();

    stack.add_resource(resource1).unwrap();
    stack.add_resource(resource2).unwrap();

    assert_eq!(stack.total_amount(), 80);
    assert_eq!(stack.resources().len(), 1);
}

#[test]
fn resource_stack_consumption() {
    let mut stack = ResourceStack::new();

    let common_resource = Resource::new(ResourceType::Energy, 50, ResourceQuality::Common, None).unwrap();
    let rare_resource = Resource::new(ResourceType::Energy, 30, ResourceQuality::Rare, None).unwrap();

    stack.add_resource(common_resource).unwrap();
    stack.add_resource(rare_resource).unwrap();

    let consumed = stack.consume(40);
    assert_eq!(consumed, 40);
    assert_eq!(stack.total_amount(), 40);
}

#[test]
fn invalid_resource_creation() {
    let result = Resource::new(ResourceType::Metal, 0, ResourceQuality::Common, None);
    assert!(result.is_err());

    let result = Resource::new(ResourceType::Metal, 2_000_000, ResourceQuality::Common, None);
    assert!(result.is_err());
}

#[test]
fn resource_merging_different_types() {
    let mut metal_resource = Resource::new(ResourceType::Metal, 50, ResourceQuality::Common, None).unwrap();
    let energy_resource = Resource::new(ResourceType::Energy, 30, ResourceQuality::Common, None).unwrap();

    let result = metal_resource.merge(energy_resource);
    assert!(result.is_err());
}

#[test]
fn stack_consumption_takes_the_best_quality_first() {
    let mut stack = ResourceStack::new();
    stack.add_resource(Resource::new(ResourceType::Energy, 50, ResourceQuality::Common, None).unwrap()).unwrap();
    stack.add_resource(Resource::new(ResourceType::Energy, 30, ResourceQuality::Rare, None).unwrap()).unwrap();
    stack.add_resource(Resource::new(ResourceType::Energy, 10, ResourceQuality::Poor, None).unwrap()).unwrap();

    assert_eq!(stack.consume(40), 40);
    let left = stack.resources();
    assert_eq!(left.len(), 2);
    assert_eq!(left[0].quality(), ResourceQuality::Common);
    assert_eq!(left[0].amount(), 40);
    assert_eq!(left[1].quality(), ResourceQuality::Poor);
    assert_eq!(left[1].amount(), 10);

    assert_eq!(stack.consume(1000), 50);
    assert!(stack.is_empty());
    assert_eq!(stack.resources().len(), 0);
}

#[test]
fn resource_amount_limits() {
    let mut resource = Resource::new(ResourceType::Metal, 999_999, ResourceQuality::Common, None).unwrap();
    assert_eq!(resource.add(1), Ok(()));
    assert_eq!(resource.amount(), 1_000_000);
    assert_eq!(resource.add(1), Err(DomainError::InvalidResourceAmount(1_000_001)));
    assert_eq!(resource.amount(), 1_000_000);
    assert_eq!(resource.add(0), Ok(()));
    assert_eq!(
        Resource::new(ResourceType::Metal, 2_000_000, ResourceQuality::Common, None).err(),
        Some(DomainError::InvalidResourceAmount(2_000_000))
    );
}

#[test]
fn resource_versions_count_changes() {
    let mut resource = Resource::new(ResourceType::Metal, 10, ResourceQuality::Common, None).unwrap();
    assert_eq!(resource.version(), 1);
    resource.consume(0).unwrap();
    assert_eq!(resource.version(), 1);
    resource.consume(3).unwrap();
    assert_eq!(resource.version(), 2);
    resource.set_position(Some(Position3D::new(1, 2, 3)));
    assert_eq!(resource.version(), 3);
    assert_eq!(resource.position(), Some(&Position3D::new(1, 2, 3)));
}

#[test]
fn split_edge_cases() {
    let mut resource = Resource::new(ResourceType::Food, 10, ResourceQuality::Epic, None).unwrap();
    assert!(resource.split(0).unwrap().is_none());
    assert_eq!(resource.split(10), Err(DomainError::InvalidResourceAmount(10)));
    assert_eq!(resource.amount(), 10);
}

#[test]
fn quality_names_colors_and_order() {
    assert_eq!(ResourceQuality::all().len(), 6);
    assert_eq!(ResourceQuality::Legendary.to_string(), "Legendary");
    assert_eq!(ResourceQuality::Poor.color_code(), (150, 150, 150));
    assert_eq!(ResourceQuality::default(), ResourceQuality::Common);
    assert_eq!(ResourceQuality::Epic.rank_of(), 4);
}

#[test]
fn enemy_ids_must_not_be_empty() {
    let id = EnemyId::new("enemy_1".to_string()).unwrap();
    assert_eq!(id.value(), "enemy_1");
    assert_eq!(
        EnemyId::new(String::new()),
        Err(DomainError::EnemyError("Enemy ID cannot be empty".to_string()))
    );
    assert_eq!(DomainError::EnemyError("x".to_string()).to_string(), "Enemy error: x");
    assert_eq!(EnemyType::Basic, EnemyType::Basic);
}
