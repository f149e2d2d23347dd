use space_looter::domain::value_objects::position::{ChunkCoordinate, Direction, Position3D, TileCoordinate};

#[test]
fn position_3d_creation() {
    let pos = Position3D::new(5, -3, 2);
    assert_eq!(pos.x, 5);
    assert_eq!(pos.y, -3);
    assert_eq!(pos.z, 2);
}

#[test]
fn position_3d_ground_level() {
    let pos = Position3D::ground(10, 20);
    assert_eq!(pos, Position3D::new(10, 20, 0));
    assert!(pos.is_ground_level());
    assert!(!pos.is_elevated());
    assert!(!pos.is_underground());
}

#[test]
fn position_3d_manhattan_distances() {
    let pos1 = Position3D::new(0, 0, 0);
    let pos2 = Position3D::new(3, 4, 0);
    assert_eq!(pos1.manhattan_distance_2d(&pos2), 7);
    assert_eq!(pos1.manhattan_distance_3d(&Position3D::new(-3, 4, -2)), 9);
}

#[test]
fn position_3d_movement() {
    let pos = Position3D::origin();
    let north = pos.move_direction(Direction::North, 1);
    assert_eq!(north, Position3D::new(0, 1, 0));

    let up = pos.move_direction(Direction::Up, 2);
    assert_eq!(up, Position3D::new(0, 0, 2));
}

#[test]
fn position_3d_adjacent() {
    let pos = Position3D::origin();
    let adjacent = pos.adjacent_positions();
    assert_eq!(adjacent.len(), 6);
    assert!(adjacent.contains(&Position3D::new(0, 1, 0)));
    assert!(adjacent.contains(&Position3D::new(1, 0, 0)));
    assert!(adjacent.contains(&Position3D::new(0, 0, 1)));
}

#[test]
fn direction_properties() {
    assert_eq!(Direction::North.opposite(), Direction::South);
    assert!(Direction::North.is_horizontal());
    assert!(!Direction::North.is_vertical());
    assert!(Direction::Up.is_vertical());
    assert!(!Direction::Up.is_horizontal());
}

#[test]
fn direction_offset() {
    assert_eq!(Direction::North.offset(), (0, 1, 0));
    assert_eq!(Direction::East.offset(), (1, 0, 0));
    assert_eq!(Direction::Up.offset(), (0, 0, 1));
}

#[test]
fn direction_lists() {
    assert_eq!(Direction::horizontal().len(), 4);
    assert_eq!(Direction::all().len(), 6);
    for d in Direction::all() {
        assert_eq!(d.opposite().opposite(), d);
    }
}

#[test]
fn tile_coordinate_conversion() {
    let pos = Position3D::new(5, 10, 2);
    let tile = pos.to_tile_coordinate();
    assert_eq!(tile.x, 5);
    assert_eq!(tile.y, 10);
    assert_eq!(tile.z, 2);

    let back_to_pos = tile.to_position();
    assert_eq!(pos, back_to_pos);
}

#[test]
fn tile_coordinate_from_conversions() {
    let pos = Position3D::new(-4, 7, 1);
    let tile = TileCoordinate::from(pos);
    assert_eq!(tile, TileCoordinate::new(-4, 7, 1));
    assert_eq!(Position3D::from(tile), pos);
}

#[test]
fn chunk_coordinate_calculation() {
    let tile = TileCoordinate::new(17, 25, 3);
    let chunk = tile.to_chunk_coordinate(16);
    assert_eq!(chunk, ChunkCoordinate::new(1, 1, 0));

    let local = tile.local_in_chunk(16);
    assert_eq!(local, TileCoordinate::new(1, 9, 3));
}

#[test]
fn chunk_coordinate_negative_tiles() {
    let tile = TileCoordinate::new(-1, -17, 0);
    assert_eq!(tile.to_chunk_coordinate(16), ChunkCoordinate::new(-1, -2, 0));
    assert_eq!(tile.local_in_chunk(16), TileCoordinate::new(15, 15, 0));
    assert!(tile.same_chunk(&TileCoordinate::new(-16, -32, 15), 16));
    assert!(!tile.same_chunk(&TileCoordinate::new(0, -17, 0), 16));
}

#[test]
fn chunk_coordinate_tiles() {
    let chunk = ChunkCoordinate::new(0, 0, 0);
    let tiles = chunk.tile_coordinates(2);
    assert_eq!(tiles.len(), 8);
    assert!(tiles.contains(&TileCoordinate::new(0, 0, 0)));
    assert!(tiles.contains(&TileCoordinate::new(1, 1, 1)));
    assert_eq!(tiles[0], TileCoordinate::new(0, 0, 0));
    assert_eq!(tiles[1], TileCoordinate::new(0, 0, 1));
}

#[test]
fn chunk_coordinate_neighbours() {
    let chunk = ChunkCoordinate::new(1, 2, 3);
    let adj = chunk.adjacent_chunks();
    assert_eq!(adj.len(), 6);
    assert_eq!(adj[0], ChunkCoordinate::new(2, 2, 3));
    assert_eq!(adj[5], ChunkCoordinate::new(1, 2, 2));
    assert_eq!(chunk.manhattan_distance(&ChunkCoordinate::new(-1, 0, 3)), 4);
    assert_eq!(chunk.to_world_origin(16), Position3D::new(16, 32, 48));
}

#[test]
fn positions_within_distance() {
    let pos = Position3D::origin();
    let nearby = pos.positions_within_distance(1);
    assert_eq!(nearby.len(), 5);
    assert!(nearby.contains(&Position3D::new(0, 0, 0)));
    assert!(nearby.contains(&Position3D::new(1, 0, 0)));
    assert!(nearby.contains(&Position3D::new(0, 1, 0)));
    assert!(nearby.contains(&Position3D::new(-1, 0, 0)));
    assert!(nearby.contains(&Position3D::new(0, -1, 0)));
}

#[test]
fn positions_within_distance_ordering() {
    let nearby = Position3D::new(2, 3, 1).positions_within_distance(2);
    assert_eq!(nearby.len(), 13);
    assert_eq!(nearby[0], Position3D::new(0, 3, 1));
    assert_eq!(nearby[12], Position3D::new(4, 3, 1));
    assert!(Position3D::origin().positions_within_distance(0) == vec![Position3D::origin()]);
}

#[test]
fn position_elevation_checks() {
    let ground = Position3D::ground(5, 5);
    let elevated = Position3D::new(5, 5, 3);
    let underground = Position3D::new(5, 5, -2);

    assert!(ground.is_ground_level());
    assert!(elevated.is_elevated());
    assert!(underground.is_underground());

    assert_eq!(ground.above(), elevated.offset(0, 0, -2));
    assert_eq!(elevated.below(), ground.offset(0, 0, 2));
}

#[test]
fn diamond_and_chunk_sizes() {
    assert_eq!(Position3D::new(5, -5, 2).positions_within_distance(3).len(), 25);
    assert_eq!(Position3D::origin().positions_within_distance(4).len(), 41);
    assert_eq!(ChunkCoordinate::new(1, -1, 0).tile_coordinates(3).len(), 27);
    assert_eq!(ChunkCoordinate::new(0, 0, 0).tile_coordinates(0).len(), 0);
}
