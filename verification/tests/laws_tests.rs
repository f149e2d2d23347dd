use space_looter::domain::entities::game::{DifficultyLevel, GameSession};
use space_looter::domain::services::visibility_service::{VisibilityLevel, VisibilityService};
use space_looter::domain::value_objects::position::{Direction, Position3D, TileCoordinate};
use space_looter::domain::value_objects::resources::{ResourceCollection, ResourceType};
use space_looter::domain::value_objects::EntityId;
use space_looter::domain::{GamePhase, Score, WorldBoundaries};
use space_looter::infrastructure::random::WebRandomGenerator;
use space_looter::infrastructure::traits::RandomService;

#[test]
fn moving_back_the_opposite_way_returns_home() {
    let start = Position3D::new(3, -4, 2);
    for d in Direction::all() {
        assert_eq!(d.opposite().opposite(), d);
        assert_ne!(d.opposite(), d);
        let there = start.move_direction(d, 5);
        assert_eq!(there.move_direction(d.opposite(), 5), start);
    }
}

#[test]
fn chunk_origin_plus_local_gives_the_tile() {
    let tile = TileCoordinate::new(-7, 12, 0);
    let chunk = tile.to_chunk_coordinate(5);
    let local = tile.local_in_chunk(5);
    assert_eq!((chunk.x, chunk.y, chunk.z), (-2, 2, 0));
    assert_eq!((local.x, local.y, local.z), (3, 2, 0));
    let origin = chunk.to_world_origin(5);
    assert_eq!(origin.x + local.x, tile.x);
    assert_eq!(origin.y + local.y, tile.y);
    assert_eq!(origin.z + local.z, tile.z);
}

#[test]
fn clamping_twice_is_clamping_once() {
    let bounds = WorldBoundaries::standard();
    let p = Position3D::new(99, -3, -8);
    let once = bounds.clamp(p);
    assert!(bounds.contains(&once));
    assert_eq!(bounds.clamp(once), once);
    let inside = Position3D::new(1, 2, 3);
    assert_eq!(bounds.clamp(inside), inside);
}

#[test]
fn scores_only_accumulate() {
    let score = Score::new(10).unwrap();
    let more = score.add(5).unwrap();
    assert_eq!(more.value(), 15);
    let top = Score::new(u32::MAX).unwrap().add(1).unwrap();
    assert_eq!(top.value(), u32::MAX);
}

#[test]
fn added_resources_can_be_paid_back_exactly() {
    let mut held = ResourceCollection::starting_resources();
    let before = held.clone();
    let mut extra = ResourceCollection::new();
    extra.set_amount(ResourceType::Metal, 40);
    extra.set_amount(ResourceType::ExoticMatter, 3);
    held.add_collection(&extra).unwrap();
    assert!(held.can_afford(&extra));
    held.pay_cost(&extra).unwrap();
    for t in ResourceType::all() {
        assert_eq!(held.get_amount(t), before.get_amount(t));
    }
}

#[test]
fn four_advances_complete_a_turn() {
    let mut session = GameSession::new(
        "cycle".to_string(),
        EntityId::generate(),
        EntityId::generate(),
        DifficultyLevel::Normal,
        WorldBoundaries::standard(),
    )
    .unwrap();
    session.start().unwrap();
    let turn = session.turn_number();
    assert_eq!(session.advance_phase().unwrap(), GamePhase::Processing);
    assert_eq!(session.advance_phase().unwrap(), GamePhase::EventPhase);
    assert_eq!(session.advance_phase().unwrap(), GamePhase::EndTurn);
    assert_eq!(session.advance_phase().unwrap(), GamePhase::PlayerTurn);
    assert_eq!(session.turn_number(), turn + 1);
    session.pause().unwrap();
    assert!(session.advance_phase().is_err());
    session.end_game().unwrap();
    assert!(session.advance_phase().is_err());
    assert!(session.start().is_err());
}

#[test]
fn same_seed_gives_the_same_draws_however_grouped() {
    let mut a = WebRandomGenerator::new(4242);
    let mut b = WebRandomGenerator::new(4242);
    let first: Vec<i32> = (0..10).map(|_| a.random_range_i32(0, 1000)).collect();
    let mut second: Vec<i32> = (0..4).map(|_| b.random_range_i32(0, 1000)).collect();
    second.extend((0..6).map(|_| b.random_range_i32(0, 1000)));
    assert_eq!(first, second);
}

#[test]
fn full_sight_is_five_tiles() {
    let service = VisibilityService::new();
    let player = Position3D::new(5, 5, 0);
    let full = service.get_fully_visible_coordinates(player);
    assert_eq!(full.len(), 5);
    assert_eq!(service.get_fogged_visible_coordinates(player).len(), 20);
    assert_eq!(
        service.get_tile_visibility(player, TileCoordinate::new(6, 6, 0)),
        VisibilityLevel::Fogged
    );
    assert_eq!(
        service.get_tile_visibility(player, TileCoordinate::new(5, 5, 1)),
        VisibilityLevel::Hidden
    );
}
