use space_looter::domain::services::map_service::{BiomeStats, BiomeType, MapService};
use space_looter::domain::services::tile_movement::{MovementDiceResult, TileMovementService};
use space_looter::domain::entities::player::Player;
use space_looter::domain::value_objects::dice::{DiceModifier, DiceRoll, DiceType};
use space_looter::domain::value_objects::position::Position3D;
use space_looter::domain::value_objects::terrain::TerrainType;
use space_looter::domain::DomainError;

#[test]
fn map_service_creation() {
    let service = MapService::new(12345);
    assert_eq!(service.seed(), 12345);
}

#[test]
fn biome_generation_creates_zones() {
    let service = MapService::new(12345);
    let biome1 = service.determine_biome(Position3D::new(0, 0, 0));
    let biome2 = service.determine_biome(Position3D::new(1, 1, 0));
    let biome3 = service.determine_biome(Position3D::new(20, 20, 0));
    assert_eq!(biome1, biome2);
    let _different_biome = biome3;
}

#[test]
fn position_hashing_consistency() {
    let service = MapService::new(12345);
    let pos = Position3D::new(5, 10, 0);
    let hash1 = service.hash_position(pos);
    let hash2 = service.hash_position(pos);
    assert_eq!(hash1, hash2);
}

#[test]
fn different_seeds_produce_different_results() {
    let service1 = MapService::new(12345);
    let service2 = MapService::new(54321);
    let pos = Position3D::new(5, 5, 0);
    let _terrain1 = service1.generate_terrain_type(pos);
    let _terrain2 = service2.generate_terrain_type(pos);
    let hash1 = service1.hash_position(pos);
    let hash2 = service2.hash_position(pos);
    assert_ne!(hash1, hash2);
}

#[test]
fn position_hash_folds_the_coordinates() {
    let service = MapService::new(7);
    let expected = ((7u64 * 31 + 1) * 31 + 2) * 31 + 3;
    assert_eq!(service.hash_position(Position3D::new(1, 2, 3)), expected);
    let negative = MapService::new(0).hash_position(Position3D::new(0, 0, -1));
    assert_eq!(negative, u64::MAX);
    assert_eq!(service.hash_biome_coordinate(1, 1), (7u64 * 73 + 1) * 79 + 1);
}

#[test]
fn biome_zones_cover_sixteen_tiles() {
    let service = MapService::default();
    assert_eq!(service.seed(), 12345);
    let origin = service.determine_biome(Position3D::new(0, 0, 0));
    assert_eq!(service.determine_biome(Position3D::new(15, 15, 0)), origin);
    let negative = service.determine_biome(Position3D::new(-1, -1, 0));
    assert_eq!(service.determine_biome(Position3D::new(-16, -16, 0)), negative);
    let config = service.get_biome_config(BiomeType::Underground);
    assert_eq!(config.primary_terrain, TerrainType::Cave);
    assert_eq!(config.primary_weight + config.secondary_weight + config.rare_weight, 100);
}

#[test]
fn biome_stats_count_the_diamond() {
    let service = MapService::new(12345);
    let stats: BiomeStats = service.get_biome_stats(Position3D::origin(), 3);
    assert_eq!(stats.total_tiles, 25);
    assert_eq!(
        stats.temperate + stats.arid + stats.cold + stats.wetlands + stats.underground + stats.artificial,
        25
    );
}

#[test]
fn elevation_and_resource_placement() {
    let service = MapService::new(12345);
    let e = service.generate_elevation(Position3D::new(0, 0, 0));
    assert!(e.height >= 0 && e.height <= 2);
    let far = service.generate_elevation(Position3D::new(490, 490, 0));
    assert!(far.height >= 96 && far.height <= 100);
    assert!(!service.should_place_resource_node(&Position3D::new(1, 1, 0)));
}

#[test]
fn tile_movement_service_creation() {
    let service = TileMovementService::new();
    let _ = service;
}

#[test]
fn valid_movement_check() {
    let service = TileMovementService::new();
    let current = Position3D::new(0, 0, 0);
    assert!(service.is_valid_movement(&current, &Position3D::new(1, 0, 0)));
    assert!(service.is_valid_movement(&current, &Position3D::new(0, 1, 0)));
    assert!(service.is_valid_movement(&current, &Position3D::new(0, 0, 1)));
    assert!(service.is_valid_movement(&current, &Position3D::new(-1, 0, 0)));
    assert!(!service.is_valid_movement(&current, &Position3D::new(1, 1, 0)));
    assert!(!service.is_valid_movement(&current, &Position3D::new(2, 0, 0)));
}

#[test]
fn movement_dice_roll() {
    let service = TileMovementService::new();
    let result = service.roll_movement_dice(1, Some(TerrainType::Plains), TerrainType::Plains.danger_level()).unwrap();
    assert!(result.base_roll >= 1 && result.base_roll <= 20);
    assert!(result.final_result >= 1);
    assert_eq!(result.total_modifier, 2);
    assert_eq!(result.final_result, 12);
}

#[test]
fn movement_attempt_success() {
    let service = TileMovementService::new();
    let player = Player::create_new_character("Test Player".to_string(), Position3D::origin()).unwrap();
    let target = Position3D::new(1, 0, 0);
    let result = service.attempt_movement(&player, target, Some(TerrainType::Plains), 1);
    assert!(result.is_ok());
    let movement_result = result.unwrap();
    assert!(movement_result.success);
    assert_eq!(movement_result.target_position, target);
}

#[test]
fn movement_attempt_invalid_target() {
    let service = TileMovementService::new();
    let player = Player::create_new_character("Test Player".to_string(), Position3D::origin()).unwrap();
    let target = Position3D::new(2, 2, 0);
    let result = service.attempt_movement(&player, target, Some(TerrainType::Plains), 1);
    assert!(result.is_err());
    let water = service.attempt_movement(&player, Position3D::new(1, 0, 0), Some(TerrainType::Ocean), 1);
    assert!(matches!(water, Err(DomainError::TileNotAccessible(1, 0, 0))));
    let swamp = service.attempt_movement(&player, Position3D::new(1, 0, 0), Some(TerrainType::Swamp), 1);
    assert!(matches!(swamp, Err(DomainError::InsufficientResources(_))));
}

#[test]
fn dice_result_description() {
    let dice_roll = DiceRoll::new(1, DiceType::D20, DiceModifier::none()).unwrap();
    let result = MovementDiceResult {
        base_roll: 15,
        level_modifier: 2,
        terrain_modifier: 1,
        danger_modifier: -1,
        total_modifier: 2,
        final_result: 17,
        dice_roll,
    };
    let description = result.description();
    assert!(description.contains("\u{1F3B2}"));
    assert!(description.contains("15"));
    assert!(description.contains("17"));
    assert_eq!(
        description,
        "\u{1F3B2} Rolled 15 + 2 = 17 (Base: 15, Level: +2, Terrain: +1, Danger: -1)"
    );
}

#[test]
fn outcome_categories() {
    let dice_roll = DiceRoll::new(1, DiceType::D20, DiceModifier::none()).unwrap();
    let critical_failure = MovementDiceResult {
        base_roll: 1,
        level_modifier: 0,
        terrain_modifier: 0,
        danger_modifier: 0,
        total_modifier: 0,
        final_result: 1,
        dice_roll: dice_roll.clone(),
    };
    assert_eq!(critical_failure.outcome_category(), "Critical Failure");
    let critical_success = MovementDiceResult {
        base_roll: 20,
        level_modifier: 0,
        terrain_modifier: 0,
        danger_modifier: 0,
        total_modifier: 0,
        final_result: 20,
        dice_roll,
    };
    assert_eq!(critical_success.outcome_category(), "Critical Success");
}

fn rolled(final_result: u8) -> MovementDiceResult {
    MovementDiceResult {
        base_roll: 10,
        level_modifier: 0,
        terrain_modifier: 0,
        danger_modifier: 0,
        total_modifier: 0,
        final_result,
        dice_roll: DiceRoll::new(1, DiceType::D20, DiceModifier::none()).unwrap(),
    }
}

#[test]
fn movement_events_come_from_the_category_templates() {
    let service = TileMovementService::new();
    let here = Position3D::new(3, 4, 0);
    assert!(service.generate_movement_event(&rolled(10), &here).unwrap().is_none());
    let event = service.generate_movement_event(&rolled(2), &here).unwrap().unwrap();
    assert_eq!(event.location(), Some(&here));
    let critical = [
        ("Equipment Malfunction", "Your equipment suffers a critical failure!"),
        ("Ambush!", "Hostile entities emerge from the shadows!"),
        ("Environmental Hazard", "The ground gives way beneath your feet!"),
    ];
    assert!(critical.iter().any(|(t, d)| event.title() == *t && event.description() == *d));
    let neutral = service.generate_movement_event(&rolled(9), &here).unwrap().unwrap();
    assert!(neutral.title() == "Quiet Exploration" || neutral.title() == "Strange Phenomenon");
    let jackpot = service.generate_movement_event(&rolled(20), &here).unwrap().unwrap();
    assert!(["Jackpot Discovery", "Legendary Artifact", "Exclusive Opportunity"].contains(&jackpot.title()));
}
