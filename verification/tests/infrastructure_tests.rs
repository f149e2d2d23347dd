use space_looter::domain::services::font_service::FontPaths;
use space_looter::domain::value_objects::terrain::TerrainType;
use space_looter::domain::value_objects::Position3D;
use space_looter::domain::{Score, WorldBoundaries};
use space_looter::infrastructure::bevy::components::{InteractionType, Position3DComponent, TerrainComponent};
use space_looter::infrastructure::bevy::resources::{
    BaseResource, GameBoundariesResource, GameSessionResource, MapResource, PlayerResource, ScoreResource,
    WorldBoundariesResource,
};
use space_looter::domain::value_objects::PlayerStats;
use space_looter::domain::DomainError;
use space_looter::infrastructure::{InfrastructureError, WebConfig};

#[test]
fn position_3d_component_creation() {
    let pos = Position3D::new(5, 3, 1);
    let component = Position3DComponent::new(pos);
    assert_eq!(component.position(), pos);
    assert!(component.is_dirty());
}

#[test]
fn terrain_component_creation() {
    let terrain = TerrainComponent::new(TerrainType::Forest, 2);
    assert_eq!(terrain.terrain_type(), TerrainType::Forest);
    assert_eq!(terrain.elevation(), 2);
    assert!(terrain.is_passable());
    assert_eq!(terrain.movement_cost(), 2);
}

#[test]
fn terrain_water_not_passable() {
    let terrain = TerrainComponent::new(TerrainType::Ocean, 0);
    assert!(!terrain.is_passable());
    assert_eq!(terrain.movement_cost(), 0);
}

#[test]
fn world_boundaries_resource() {
    let resource = WorldBoundariesResource::standard();
    let center_pos = Position3D::new(0, 0, 0);
    let outside_pos = Position3D::new(1000, 1000, 1000);

    assert!(resource.contains(&center_pos));
    assert!(!resource.contains(&outside_pos));

    let clamped = resource.clamp(outside_pos);
    assert!(resource.contains(&clamped));
}

#[test]
fn infrastructure_error_display() {
    let error = InfrastructureError::BevyError("test error".to_string());
    assert_eq!(error.to_string(), "Bevy error: test error");
}

#[test]
fn font_service_font_paths_default() {
    let paths = FontPaths::default();
    assert_eq!(paths.ui_emoji, "fonts/FiraSans-Regular.ttf");
    assert_eq!(paths.ui_regular, "fonts/FiraSans-Regular.ttf");
}

#[test]
fn infrastructure_error_messages() {
    assert_eq!(InfrastructureError::RandomError("r".to_string()).to_string(), "Random error: r");
    assert_eq!(InfrastructureError::TimeError("t".to_string()).to_string(), "Time error: t");
    assert_eq!(InfrastructureError::WebError("w".to_string()).to_string(), "Web error: w");
    assert_eq!(
        InfrastructureError::ExternalServiceError("e".to_string()).to_string(),
        "External service error: e"
    );
    assert_eq!(
        InfrastructureError::CoordinateConversionError("c".to_string()).to_string(),
        "Coordinate conversion error: c"
    );
    assert_eq!(
        InfrastructureError::IsometricProjectionError("i".to_string()).to_string(),
        "Isometric projection error: i"
    );
}

#[test]
fn web_config_defaults() {
    let config = WebConfig::default();
    assert_eq!(config.canvas_id, "bevy");
    assert!(config.optimizations);
    assert_eq!(config.max_fps, Some(60));
    assert!(!config.touch_controls);
}

#[test]
fn position_component_tracks_screen_updates() {
    let mut component = Position3DComponent::from(Position3D::new(1, 1, 0));
    assert!(component.is_dirty());
    component.mark_screen_position_current();
    assert!(!component.is_dirty());
    component.set_position(Position3D::new(2, 2, 0));
    assert!(component.is_dirty());
    assert_eq!(component.position(), Position3D::new(2, 2, 0));
}

#[test]
fn terrain_component_costs_and_passability() {
    assert_eq!(TerrainComponent::new(TerrainType::Anomaly, 0).movement_cost(), 5);
    assert_eq!(TerrainComponent::new(TerrainType::Constructed, 0).movement_cost(), 2);
    let mut tile = TerrainComponent::new(TerrainType::Plains, 7);
    tile.set_passable(false);
    assert!(!tile.is_passable());
    assert_eq!(tile.movement_cost(), 1);
    assert_eq!(tile.elevation(), 7);
    assert_ne!(InteractionType::Shop, InteractionType::Combat);
}

#[test]
fn boundary_resources_clamp_and_measure() {
    let large = WorldBoundariesResource::large();
    assert_eq!(large.size(), (401, 401, 21));
    assert_eq!(large.clamp(Position3D::new(-500, 3, 50)), Position3D::new(-200, 3, 20));
    let game = GameBoundariesResource::default();
    assert_eq!(game.boundaries, WorldBoundaries::standard());
    assert_eq!(game.clamp(Position3D::new(60, -60, -1)), Position3D::new(50, -50, 0));
    assert!(!game.contains(&Position3D::new(0, 0, 11)));
}

#[test]
fn score_resource_accumulates() {
    let mut score = ScoreResource::default();
    assert_eq!(score.value(), 0);
    score.add_points(150).unwrap();
    assert_eq!(score.formatted(), "150");
    score.update_score(Score::new(u32::MAX - 1).unwrap());
    score.add_points(10).unwrap();
    assert_eq!(score.value(), u32::MAX);
}

#[test]
fn player_resource_creation() {
    let mut resource = PlayerResource::new();
    assert!(!resource.has_player());

    let pos = Position3D::new(0, 0, 0);
    let stats = PlayerStats::new(10, 10, 10, 10, 10, 10).unwrap();
    assert!(resource
        .create_player("test_player_id".to_string(), "Test Player".to_string(), pos, stats)
        .is_ok());
    assert!(resource.has_player());
    assert_eq!(resource.player_position(), Some(pos));
}

#[test]
fn base_resource_creation() {
    let mut resource = BaseResource::new();
    assert!(!resource.has_base());

    let pos = Position3D::new(5, 5, 0);
    assert!(resource.create_base("test_base".to_string(), pos).is_ok());
    assert!(resource.has_base());
    assert_eq!(resource.base_position(), Some(pos));
}

#[test]
fn game_session_resource_lifecycle() {
    let mut resource = GameSessionResource::new();

    assert!(!resource.has_active_session());

    assert!(resource.create_session("test_session".to_string()).is_ok());
    assert!(resource.start_session().is_ok());
    assert!(resource.has_active_session());

    assert!(resource.add_experience(100).is_ok());
    assert_eq!(resource.experience_points(), 100);

    assert!(resource.end_session().is_ok());
    assert!(!resource.has_active_session());
}

#[test]
fn resources_without_their_entity_refuse_work() {
    let mut players = PlayerResource::default();
    assert_eq!(
        players.move_player(Position3D::new(1, 0, 0), 1),
        Err(DomainError::PlayerError("No player exists".to_string()))
    );
    assert!(players.subtract_movement_points(1).is_err());
    assert_eq!(players.level(), None);
    let mut bases = BaseResource::default();
    assert_eq!(bases.upgrade_base(), Err(DomainError::BaseUpgradeError("No base exists".to_string())));
    assert_eq!(bases.base_level(), None);
    bases.create_base("home".to_string(), Position3D::new(0, 0, 0)).unwrap();
    assert_eq!(bases.base_level(), Some(1));
    assert_eq!(bases.upgrade_base(), Ok(true));
    let mut sessions = GameSessionResource::default();
    assert_eq!(sessions.experience_points(), 0);
    assert_eq!(
        sessions.end_session(),
        Err(DomainError::GameSessionError("No session exists".to_string()))
    );
}

#[test]
fn map_resource_functionality() {
    let mut map_resource = MapResource::new();
    assert!(!map_resource.has_map());

    let center = Position3D::new(10, 10, 0);
    map_resource.update_visible_area(center, 5);

    let visible_pos = Position3D::new(12, 12, 0);
    let invisible_pos = Position3D::new(20, 20, 0);

    assert!(map_resource.is_visible(visible_pos));
    assert!(!map_resource.is_visible(invisible_pos));

    assert!(!map_resource.is_chunk_loaded(0, 0));
    map_resource.mark_chunk_loaded(0, 0);
    assert!(map_resource.is_chunk_loaded(0, 0));
}

#[test]
fn sector_maps_are_named_and_seeded_by_position() {
    let mut map_resource = MapResource::default();
    let map = map_resource.get_or_create_map(Position3D::new(-250, 399, 0));
    assert_eq!(map.name(), "Sector -2-3");
    assert_eq!(map.seed(), ((-250i32 as u64) << 32) | (399i32 as u64));
    assert_eq!(map.tiles().len(), 21 * 21);
    assert!(map_resource.has_map());
    let again = map_resource.get_or_create_map(Position3D::new(0, 0, 0));
    assert_eq!(again.name(), "Sector -2-3");
    map_resource.mark_chunk_loaded(1, 2);
    map_resource.mark_chunk_loaded(1, 2);
    assert_eq!(map_resource.loaded_chunks.len(), 1);
    assert_eq!(map_resource.terrain_at(Position3D::new(5, 5, 5)), Some(TerrainType::Plains));
    let map = map_resource.get_or_create_map_mut(Position3D::new(0, 0, 0));
    map.update_player_position(Position3D::new(1000, 1000, 0));
    assert!(map_resource.current_map().unwrap().tiles().is_empty());
}
