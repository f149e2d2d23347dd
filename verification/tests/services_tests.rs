use space_looter::domain::services::collision::{CollisionService, CollisionType, PlayerEffect};
use space_looter::domain::services::font_service::{FontConfig, FontPaths, FontSize, FontType, FontWeight};
use space_looter::domain::services::spawning::SpawningService;
use space_looter::domain::services::visibility_service::{VisibilityLevel, VisibilityService};
use space_looter::domain::constants::POINTS_PER_ENEMY;
use space_looter::domain::value_objects::position::{Position3D, TileCoordinate};
use space_looter::domain::WorldBoundaries;
use space_looter::infrastructure::random::WebRandomGenerator;
use space_looter::infrastructure::traits::RandomService;

#[test]
fn mod_services_can_be_imported() {
    let _ = CollisionService::new();
    let _ = SpawningService::new();
    let _ = VisibilityService::new();
    let _ = space_looter::application::services::InputAction::MoveUp;
}

#[test]
fn collision_service_creation() {
    let service = CollisionService::new();
    let _ = service;
}

#[test]
fn boundary_collision_check() {
    let service = CollisionService::new();
    let boundaries = WorldBoundaries::standard();
    let inside_pos = Position3D::new(0, 0, 0);
    let outside_pos = Position3D::new(1000, 1000, 0);
    assert!(!service.check_boundary_collision(&inside_pos, &boundaries));
    assert!(service.check_boundary_collision(&outside_pos, &boundaries));
}

#[test]
fn collision_resolution() {
    let service = CollisionService::new();
    let resolution = service.resolve_player_enemy_collision("player1", "enemy1");
    assert_eq!(resolution.collision_type, CollisionType::PlayerEnemy);
    assert_eq!(resolution.entities_to_remove, vec!["enemy1"]);
    assert_eq!(resolution.score_change, Some(POINTS_PER_ENEMY));
    assert_eq!(resolution.player_effects, vec![PlayerEffect::ScoreIncrease]);
}

#[test]
fn font_config_creation() {
    let config = FontConfig::emoji(FontSize::Medium);
    assert_eq!(config.font_type, FontType::UiEmoji);
    assert_eq!(config.size, FontSize::Medium);
    assert_eq!(config.weight, FontWeight::Normal);
}

#[test]
fn font_config_default() {
    let config = FontConfig::default();
    assert_eq!(config.font_type, FontType::UiRegular);
    assert_eq!(config.size, FontSize::Regular);
    assert_eq!(config.weight, FontWeight::Normal);
}

#[test]
fn mod_font_paths_default() {
    let paths = FontPaths::default();
    assert_eq!(paths.ui_emoji, "fonts/FiraSans-Regular.ttf");
    assert_eq!(paths.ui_regular, "fonts/FiraSans-Regular.ttf");
    assert!(paths.ui_monospace.is_none());
    assert!(paths.ui_display.is_none());
}

#[test]
fn font_styles_pick_family_and_weight() {
    assert_eq!(FontConfig::display(FontSize::Large).weight, FontWeight::Bold);
    assert_eq!(FontConfig::display(FontSize::Large).font_type, FontType::UiDisplay);
    assert_eq!(FontConfig::monospace(FontSize::Small).font_type, FontType::UiMonospace);
    assert_eq!(FontConfig::regular(FontSize::Small).font_type, FontType::UiRegular);
}

#[test]
fn spawning_service_creation() {
    let service = SpawningService::new();
    let _ = service;
}

#[test]
fn random_spawn_position() {
    let service = SpawningService::new();
    let boundaries = WorldBoundaries::standard();
    let mut rng = WebRandomGenerator::default();
    let position = service.random_spawn_position(&boundaries, &mut rng);
    assert!(boundaries.contains(&position));
    assert_eq!(position.z, 0);
}

#[test]
fn test_diamond_pattern_visibility() {
    let service = VisibilityService::new();
    let player_pos = Position3D::new(0, 0, 0);
    assert_eq!(service.get_tile_visibility(player_pos, TileCoordinate::new(0, 0, 0)), VisibilityLevel::FullyVisible);
    assert_eq!(service.get_tile_visibility(player_pos, TileCoordinate::new(0, 1, 0)), VisibilityLevel::FullyVisible);
    assert_eq!(service.get_tile_visibility(player_pos, TileCoordinate::new(0, -1, 0)), VisibilityLevel::FullyVisible);
    assert_eq!(service.get_tile_visibility(player_pos, TileCoordinate::new(1, 0, 0)), VisibilityLevel::FullyVisible);
    assert_eq!(service.get_tile_visibility(player_pos, TileCoordinate::new(-1, 0, 0)), VisibilityLevel::FullyVisible);
    assert_eq!(service.get_tile_visibility(player_pos, TileCoordinate::new(1, 1, 0)), VisibilityLevel::Fogged);
    assert_eq!(service.get_tile_visibility(player_pos, TileCoordinate::new(-1, -1, 0)), VisibilityLevel::Fogged);
    assert_eq!(service.get_tile_visibility(player_pos, TileCoordinate::new(2, 0, 0)), VisibilityLevel::Fogged);
    assert_eq!(service.get_tile_visibility(player_pos, TileCoordinate::new(0, 2, 0)), VisibilityLevel::Fogged);
    assert_eq!(service.get_tile_visibility(player_pos, TileCoordinate::new(4, 0, 0)), VisibilityLevel::Hidden);
    assert_eq!(service.get_tile_visibility(player_pos, TileCoordinate::new(0, 4, 0)), VisibilityLevel::Hidden);
}

#[test]
fn test_get_fully_visible_coordinates() {
    let service = VisibilityService::new();
    let player_pos = Position3D::new(5, 5, 0);
    let fully_visible = service.get_fully_visible_coordinates(player_pos);
    assert_eq!(fully_visible.len(), 5);
    assert!(fully_visible.contains(&TileCoordinate::new(5, 5, 0)));
    assert!(fully_visible.contains(&TileCoordinate::new(5, 6, 0)));
    assert!(fully_visible.contains(&TileCoordinate::new(5, 4, 0)));
    assert!(fully_visible.contains(&TileCoordinate::new(6, 5, 0)));
    assert!(fully_visible.contains(&TileCoordinate::new(4, 5, 0)));
}

#[test]
fn test_get_fogged_visible_coordinates() {
    let service = VisibilityService::new();
    let player_pos = Position3D::new(0, 0, 0);
    let fogged_coords = service.get_fogged_visible_coordinates(player_pos);
    assert!(fogged_coords.contains(&TileCoordinate::new(1, 1, 0)));
    assert!(fogged_coords.contains(&TileCoordinate::new(-1, 1, 0)));
    assert!(fogged_coords.contains(&TileCoordinate::new(1, -1, 0)));
    assert!(fogged_coords.contains(&TileCoordinate::new(-1, -1, 0)));
    assert!(fogged_coords.contains(&TileCoordinate::new(2, 0, 0)));
    assert!(fogged_coords.contains(&TileCoordinate::new(0, 2, 0)));
    assert!(fogged_coords.contains(&TileCoordinate::new(-2, 0, 0)));
    assert!(fogged_coords.contains(&TileCoordinate::new(0, -2, 0)));
    assert!(!fogged_coords.contains(&TileCoordinate::new(0, 0, 0)));
    assert!(!fogged_coords.contains(&TileCoordinate::new(1, 0, 0)));
    assert!(!fogged_coords.contains(&TileCoordinate::new(-1, 0, 0)));
    assert!(!fogged_coords.contains(&TileCoordinate::new(0, 1, 0)));
    assert!(!fogged_coords.contains(&TileCoordinate::new(0, -1, 0)));
}

#[test]
fn test_different_z_levels() {
    let service = VisibilityService::new();
    let player_pos = Position3D::new(0, 0, 0);
    assert_eq!(service.get_tile_visibility(player_pos, TileCoordinate::new(0, 0, 1)), VisibilityLevel::Hidden);
    assert_eq!(service.get_tile_visibility(player_pos, TileCoordinate::new(0, 1, 1)), VisibilityLevel::Hidden);
}

#[test]
fn test_diamond_pattern_bounds() {
    let service = VisibilityService::new();
    let player_pos = Position3D::new(0, 0, 0);
    assert_eq!(service.get_tile_visibility(player_pos, TileCoordinate::new(3, 0, 0)), VisibilityLevel::Fogged);
    assert_eq!(service.get_tile_visibility(player_pos, TileCoordinate::new(0, 3, 0)), VisibilityLevel::Fogged);
    assert_eq!(service.get_tile_visibility(player_pos, TileCoordinate::new(2, 1, 0)), VisibilityLevel::Fogged);
    assert_eq!(service.get_tile_visibility(player_pos, TileCoordinate::new(4, 0, 0)), VisibilityLevel::Hidden);
    assert_eq!(service.get_tile_visibility(player_pos, TileCoordinate::new(3, 2, 0)), VisibilityLevel::Hidden);
}

#[test]
fn all_visible_tiles_split_into_full_then_fogged() {
    let service = VisibilityService::new();
    let player_pos = Position3D::new(2, -3, 1);
    let all = service.get_all_visible_coordinates(player_pos);
    assert_eq!(all.len(), 25);
    for t in &all[..5] {
        assert_eq!(service.get_tile_visibility(player_pos, *t), VisibilityLevel::FullyVisible);
    }
    for t in &all[5..] {
        assert_eq!(service.get_tile_visibility(player_pos, *t), VisibilityLevel::Fogged);
    }
    assert!(service.is_tile_visible(player_pos, TileCoordinate::new(2, 0, 1)));
    assert!(!service.is_tile_visible(player_pos, TileCoordinate::new(2, 1, 1)));
}

#[test]
fn spawn_position_is_the_generator_draw() {
    let service = SpawningService::new();
    let boundaries = WorldBoundaries::standard();
    let mut rng = WebRandomGenerator::new(42);
    let mut same = WebRandomGenerator::new(42);
    let position = service.random_spawn_position(&boundaries, &mut rng);
    let expected = same.random_position_3d(boundaries.min_x, boundaries.max_x, boundaries.min_y, boundaries.max_y, 0, 0);
    assert_eq!(position, expected);
}

#[test]
fn visible_lists_hold_each_tile_once() {
    let service = VisibilityService::new();
    let player_pos = Position3D::new(-7, 4, 2);
    let full = service.get_fully_visible_coordinates(player_pos);
    let fogged = service.get_fogged_visible_coordinates(player_pos);
    let all = service.get_all_visible_coordinates(player_pos);
    assert_eq!(full.len(), 5);
    assert_eq!(fogged.len(), 20);
    let mut joined = full.clone();
    joined.extend(fogged.iter().copied());
    assert_eq!(all, joined);
    for i in 0..all.len() {
        for j in (i + 1)..all.len() {
            assert_ne!(all[i], all[j]);
        }
    }
}
