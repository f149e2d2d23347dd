use space_looter::domain::constants::TILE_CACHE_SIZE;
use space_looter::domain::entities::map::MapTile;
use space_looter::domain::services::tile_cache_service::TileCacheService;
use space_looter::domain::value_objects::position::{Position3D, TileCoordinate};
use space_looter::domain::value_objects::terrain::{Elevation, TerrainType};

fn create_test_tile(_coord: TileCoordinate, terrain_type: TerrainType) -> MapTile {
    MapTile { terrain_type, elevation: Elevation::sea_level(), is_explored: false, last_visited: None }
}

#[test]
fn test_cache_creation() {
    let cache = TileCacheService::new();
    assert_eq!(cache.cached_tile_count(), 0);
    assert_eq!(cache.player_history().len(), 0);
}

#[test]
fn test_player_position_tracking() {
    let mut cache = TileCacheService::with_history_size(3);
    cache.update_player_position(Position3D::new(0, 0, 0));
    cache.update_player_position(Position3D::new(1, 0, 0));
    cache.update_player_position(Position3D::new(2, 0, 0));
    assert_eq!(cache.player_history().len(), 3);
    cache.update_player_position(Position3D::new(3, 0, 0));
    assert_eq!(cache.player_history().len(), 3);
    assert_eq!(cache.player_history()[0], Position3D::new(1, 0, 0));
    assert_eq!(cache.player_history()[2], Position3D::new(3, 0, 0));
}

#[test]
fn test_tile_caching() {
    let mut cache = TileCacheService::new();
    let coord = TileCoordinate::new(5, 5, 0);
    let tile = create_test_tile(coord, TerrainType::Plains);
    cache.cache_tile(coord, tile.clone());
    assert!(cache.has_cached_tile(coord));
    assert_eq!(cache.get_cached_tile(coord).unwrap().terrain_type, TerrainType::Plains);
}

#[test]
fn test_tile_retrieval() {
    let mut cache = TileCacheService::new();
    let coord = TileCoordinate::new(3, 3, 0);
    let tile = create_test_tile(coord, TerrainType::Forest);
    cache.cache_tile(coord, tile.clone());
    let retrieved = cache.take_cached_tile(coord);
    assert!(retrieved.is_some());
    assert_eq!(retrieved.unwrap().terrain_type, TerrainType::Forest);
    assert!(!cache.has_cached_tile(coord));
}

#[test]
fn test_cache_size_limit() {
    let mut cache = TileCacheService::new();
    for i in 0..TILE_CACHE_SIZE + 10 {
        let coord = TileCoordinate::new(i as i32, 0, 0);
        let tile = create_test_tile(coord, TerrainType::Plains);
        cache.cache_tile(coord, tile);
    }
    assert!(cache.cached_tile_count() <= TILE_CACHE_SIZE);
}

#[test]
fn test_tiles_to_load() {
    let mut cache = TileCacheService::new();
    let cached_coord = TileCoordinate::new(1, 1, 0);
    let tile = create_test_tile(cached_coord, TerrainType::Plains);
    cache.cache_tile(cached_coord, tile);
    let required_coords = vec![TileCoordinate::new(0, 0, 0), cached_coord, TileCoordinate::new(2, 2, 0)];
    let to_load = cache.get_tiles_to_load(Position3D::new(0, 0, 0), &required_coords);
    assert_eq!(to_load.len(), 2);
    assert!(!to_load.contains(&cached_coord));
}

#[test]
fn test_cache_stats() {
    let mut cache = TileCacheService::new();
    cache.update_player_position(Position3D::new(0, 0, 0));
    let coord = TileCoordinate::new(1, 1, 0);
    let tile = create_test_tile(coord, TerrainType::Plains);
    cache.cache_tile(coord, tile);
    let stats = cache.get_cache_stats();
    assert_eq!(stats.cached_tiles, 1);
    assert_eq!(stats.player_history_length, 1);
    let cache_usage_percentage = stats.cached_tiles as f32 / stats.cache_capacity as f32 * 100.0;
    assert!(cache_usage_percentage > 0.0);
}

#[test]
fn test_distant_tile_cleanup() {
    let mut cache = TileCacheService::new();
    cache.update_player_position(Position3D::new(0, 0, 0));
    let nearby_coord = TileCoordinate::new(1, 1, 0);
    let distant_coord = TileCoordinate::new(50, 50, 0);
    cache.cache_tile(nearby_coord, create_test_tile(nearby_coord, TerrainType::Plains));
    cache.cache_tile(distant_coord, create_test_tile(distant_coord, TerrainType::Forest));
    assert_eq!(cache.cached_tile_count(), 2);
    cache.update_player_position(Position3D::new(2, 2, 0));
    assert!(cache.has_cached_tile(nearby_coord));
    assert!(!cache.has_cached_tile(distant_coord));
}

#[test]
fn full_cache_prefers_tiles_near_recent_positions() {
    let mut cache = TileCacheService::new();
    cache.update_player_position(Position3D::new(0, 0, 0));
    // Tiles within the unload distance of the origin, on several levels, fill the cache.
    let mut coords = Vec::new();
    for z in 0..4 {
        for x in -8i32..=8 {
            for y in -8i32..=8 {
                if x.abs() + y.abs() <= 8 && !(x == 0 && y == 0) {
                    coords.push(TileCoordinate::new(x, y, z));
                }
            }
        }
    }
    for c in coords.iter().take(TILE_CACHE_SIZE) {
        cache.cache_tile(*c, create_test_tile(*c, TerrainType::Plains));
    }
    assert_eq!(cache.cached_tile_count(), TILE_CACHE_SIZE);
    // A far tile is worth nothing: it is not admitted.
    let far = TileCoordinate::new(100, 100, 0);
    cache.cache_tile(far, create_test_tile(far, TerrainType::Desert));
    assert!(!cache.has_cached_tile(far));
    // The player's own tile is worth the most: it replaces a least important tile.
    let origin = TileCoordinate::new(0, 0, 0);
    cache.cache_tile(origin, create_test_tile(origin, TerrainType::Desert));
    assert!(cache.has_cached_tile(origin));
    assert_eq!(cache.cached_tile_count(), TILE_CACHE_SIZE);
}

#[test]
fn tiles_to_cache_are_beyond_the_unload_distance() {
    let cache = TileCacheService::new();
    let coords = vec![TileCoordinate::new(8, 0, 0), TileCoordinate::new(5, 4, 0), TileCoordinate::new(0, -9, 3)];
    let far = cache.get_tiles_to_cache(Position3D::new(0, 0, 0), &coords);
    assert_eq!(far, vec![TileCoordinate::new(5, 4, 0), TileCoordinate::new(0, -9, 3)]);
}

#[test]
fn no_history_size_keeps_every_tile() {
    let mut cache = TileCacheService::with_history_size(0);
    let far = TileCoordinate::new(90, 90, 0);
    cache.cache_tile(far, create_test_tile(far, TerrainType::Ocean));
    cache.update_player_position(Position3D::new(0, 0, 0));
    assert_eq!(cache.player_history().len(), 0);
    assert!(cache.has_cached_tile(far));
    cache.clear_cache();
    assert_eq!(cache.cached_tile_count(), 0);
}
