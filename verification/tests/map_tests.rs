use space_looter::domain::entities::map::{MapTile, ResourceNode, WorldMap};
use space_looter::domain::services::map_service::MapService;
use space_looter::domain::value_objects::position::{Position3D, TileCoordinate};
use space_looter::domain::value_objects::resources::{
    RegenerationRate, ResourceAccessibility, ResourceNodeProperties, ResourceRichness, ResourceType,
};
use space_looter::domain::value_objects::terrain::{Elevation, TerrainType};
use space_looter::domain::value_objects::EntityId;
use space_looter::domain::DomainError;

fn create_test_map() -> WorldMap {
    WorldMap::new(EntityId::generate(), "Test".to_string(), 12345).unwrap()
}

#[test]
fn map_creation() {
    let id = EntityId::generate();
    let name = "Test Map".to_string();
    let seed = 12345;

    let map = WorldMap::new(id, name.clone(), seed).unwrap();
    assert_eq!(map.name(), &name);
    assert_eq!(map.seed(), seed);
    assert!(map.tiles().is_empty());
}

#[test]
fn map_tile_operations() {
    let mut map = WorldMap::new(EntityId::generate(), "Test".to_string(), 123).unwrap();

    let coord = TileCoordinate::new(0, 0, 0);
    let tile = MapTile::new(TerrainType::Plains, Elevation::sea_level(), false);

    map.set_tile(coord, tile.clone());

    let retrieved = map.get_tile(&coord);
    assert!(retrieved.is_some());
    assert_eq!(retrieved.unwrap().terrain_type, TerrainType::Plains);
}

#[test]
fn map_tile_exploration() {
    let mut tile = MapTile::new(TerrainType::Forest, Elevation::sea_level(), false);
    assert!(!tile.is_explored());

    tile.explore();
    assert!(tile.is_explored());
    assert!(tile.last_visited.is_some());
}

#[test]
fn resource_node_operations() {
    let props = ResourceNodeProperties::new(
        ResourceType::Metal,
        ResourceRichness::Average,
        ResourceAccessibility::Easy,
        RegenerationRate::NoRegeneration,
    );

    let mut node = ResourceNode::new(EntityId::generate(), props, 100, 100);

    assert_eq!(node.current_amount(), 100);
    assert!(!node.is_depleted());
    assert!(node.is_full());

    let harvested = node.harvest(30);
    assert_eq!(harvested, 30);
    assert_eq!(node.current_amount(), 70);
    assert_eq!(node.total_harvested(), 30);
}

#[test]
fn map_passability() {
    let mut map = WorldMap::new(EntityId::generate(), "Test".to_string(), 123).unwrap();

    let coord = TileCoordinate::new(0, 0, 0);
    let plains_tile = MapTile::new(TerrainType::Plains, Elevation::sea_level(), false);
    let ocean_tile = MapTile::new(TerrainType::Ocean, Elevation::sea_level(), false);

    map.set_tile(coord, plains_tile);
    assert!(map.is_passable(&Position3D::new(0, 0, 0)));

    map.set_tile(coord, ocean_tile);
    assert!(!map.is_passable(&Position3D::new(0, 0, 0)));
}

#[test]
fn map_chunk_generation() {
    let mut map = WorldMap::new(EntityId::generate(), "Test".to_string(), 123).unwrap();

    let center = Position3D::new(0, 0, 0);
    map.generate_chunk(center, 4).unwrap();

    assert!(!map.tiles().is_empty());
    assert!(!map.resource_nodes().is_empty());
}

#[test]
fn tiles_in_radius() {
    let mut map = WorldMap::new(EntityId::generate(), "Test".to_string(), 123).unwrap();

    for x in -2..=2 {
        for y in -2..=2 {
            let coord = TileCoordinate::new(x, y, 0);
            let tile = MapTile::new(TerrainType::Plains, Elevation::sea_level(), false);
            map.set_tile(coord, tile);
        }
    }

    let center = Position3D::new(0, 0, 0);
    let tiles = map.get_tiles_in_radius(&center, 1);
    assert_eq!(tiles.len(), 5);
}

#[test]
fn generate_tiles_around_player() {
    let service = MapService::new(12345);
    let mut map = create_test_map();
    let player_pos = Position3D::origin();

    let generated = service.generate_tiles_around_player(&mut map, player_pos).unwrap();
    assert!(!generated.is_empty());

    let player_coord = TileCoordinate::from(player_pos);
    assert!(map.get_tile(&player_coord).is_some());
}

#[test]
fn map_service_chunk_generation() {
    let service = MapService::new(12345);
    let mut map = create_test_map();
    let center = Position3D::origin();

    service.generate_chunk(&mut map, center, 4).unwrap();
    assert!(!map.tiles().is_empty());
}

#[test]
fn terrain_generation_is_mostly_passable() {
    let service = MapService::new(12345);
    let mut map = create_test_map();
    let center = Position3D::origin();

    service.generate_chunk(&mut map, center, 10).unwrap();

    let stats = service.get_generation_stats(&map, center, 5);
    let passable_percentage = stats.passable as f32 / stats.total_tiles as f32 * 100.0;
    assert!(passable_percentage >= 90.0);
}

#[test]
fn biome_stats_diversity() {
    let service = MapService::new(12345);
    let center = Position3D::origin();

    let biome_stats = service.get_biome_stats(center, 50);
    assert!(biome_stats.total_tiles > 0);
    let counts = [
        biome_stats.temperate,
        biome_stats.arid,
        biome_stats.cold,
        biome_stats.wetlands,
        biome_stats.underground,
        biome_stats.artificial,
    ];
    let non_zero = counts.iter().filter(|&&c| c > 0).count();
    let diversity_index = if non_zero <= 1 { 0.0 } else { (non_zero - 1) as f32 / 5.0 };
    assert!(diversity_index >= 0.0);
    assert!(diversity_index <= 1.0);
}

#[test]
fn terrain_diversity_improved() {
    let service = MapService::new(12345);
    let mut map = create_test_map();
    let center = Position3D::origin();

    service.generate_chunk(&mut map, center, 30).unwrap();

    let stats = service.get_generation_stats(&map, center, 15);
    let terrain_variety = [
        stats.plains,
        stats.forest,
        stats.desert,
        stats.mountains,
        stats.tundra,
        stats.swamp,
        stats.cave,
        stats.crystal,
        stats.constructed,
        stats.volcanic,
        stats.anomaly,
    ]
    .iter()
    .filter(|&&count| count > 0)
    .count();

    assert!(terrain_variety >= 3, "Should have at least 3 different terrain types");
}

#[test]
fn connectivity_validation() {
    let service = MapService::new(12345);
    let mut map = create_test_map();
    let center = Position3D::origin();

    service.generate_chunk(&mut map, center, 6).unwrap();

    let is_connected = service.validate_connectivity(&map, center, 3).unwrap();
    assert!(is_connected);
}

#[test]
fn resource_node_generation() {
    let service = MapService::new(12345);
    let mut map = create_test_map();
    let center = Position3D::origin();

    service.generate_chunk(&mut map, center, 10).unwrap();

    let stats = service.get_generation_stats(&map, center, 5);
    assert!(stats.resource_nodes > 0);
    let resource_density = stats.resource_nodes as f32 / stats.total_tiles as f32 * 100.0;
    assert!(resource_density < 30.0);
}

#[test]
fn map_names_are_checked() {
    assert_eq!(
        WorldMap::new(EntityId::new(1), String::new(), 1).err(),
        Some(DomainError::ValidationError("Map name must be between 1 and 100 characters".to_string()))
    );
    assert!(WorldMap::new(EntityId::new(1), "x".repeat(101), 1).is_err());
    assert!(WorldMap::new(EntityId::new(1), "x".repeat(100), 1).is_ok());
}

#[test]
fn unknown_tiles_are_costly_and_blocked() {
    let mut map = create_test_map();
    let p = Position3D::new(9, 9, 0);
    assert!(!map.is_passable(&p));
    assert_eq!(map.movement_cost(&p), 10);
    assert_eq!(map.danger_level(&p), 5);
    map.set_tile(TileCoordinate::new(9, 9, 0), MapTile::new(TerrainType::Mountains, Elevation::sea_level(), false));
    assert_eq!(map.movement_cost(&p), TerrainType::Mountains.movement_cost());
    assert_eq!(map.danger_level(&p), TerrainType::Mountains.danger_level());
    map.set_tile(TileCoordinate::new(9, 9, 0), MapTile::new(TerrainType::Plains, Elevation::sea_level(), true));
    assert_eq!(map.tiles().len(), 1);
}

#[test]
fn moving_far_unloads_distant_tiles() {
    let service = MapService::new(7);
    let mut map = create_test_map();
    service.generate_chunk(&mut map, Position3D::origin(), 4).unwrap();
    assert_eq!(map.tiles().len(), 25);
    map.update_player_position(Position3D::new(100, 100, 0));
    assert!(map.tiles().is_empty());

    let mut map = create_test_map();
    service.generate_chunk(&mut map, Position3D::origin(), 20).unwrap();
    map.update_player_position(Position3D::origin());
    for (coord, _) in map.tiles() {
        assert!(coord.x.abs() + coord.y.abs() <= 5);
    }
    assert_eq!(map.tiles().len(), 61);
}

#[test]
fn regeneration_after_the_interval() {
    let props = ResourceNodeProperties::new(
        ResourceType::Food,
        ResourceRichness::Average,
        ResourceAccessibility::Easy,
        RegenerationRate::Fast,
    );
    let mut node = ResourceNode::new(EntityId::new(3), props, 100, 500);
    assert_eq!(node.current_amount(), 100);
    assert_eq!(node.regenerate(0), 0);
    node.harvest(50);
    let harvested_at = node.last_harvested().unwrap();
    assert_eq!(node.regenerate(harvested_at + 14 * 60_000), 0);
    assert_eq!(node.regenerate(harvested_at + 15 * 60_000), 20);
    assert_eq!(node.current_amount(), 70);
    assert_eq!(node.regenerate(harvested_at + 60 * 60_000), 20);
    assert_eq!(node.regenerate(harvested_at + 60 * 60_000), 10);
    assert_eq!(node.current_amount(), 100);
}

#[test]
fn generated_tiles_come_back_in_order() {
    let service = MapService::new(99);
    let mut map = create_test_map();
    let first = service.generate_tiles_around_player(&mut map, Position3D::origin()).unwrap();
    assert_eq!(first.len(), 61);
    let again = service.generate_tiles_around_player(&mut map, Position3D::origin()).unwrap();
    assert!(again.is_empty());
    let moved = service.generate_tiles_around_player(&mut map, Position3D::new(1, 0, 0)).unwrap();
    assert_eq!(moved.len(), 11);
    for w in moved.windows(2) {
        assert!((w[0].x, w[0].y) < (w[1].x, w[1].y));
    }
}
