use space_looter::domain::constants;
use space_looter::domain::value_objects::score::{format_score, Score};
use space_looter::domain::value_objects::{EntityId, Experience, GameTime, PlayerStats, StatType};
use space_looter::domain::DomainError;
use space_looter::domain::value_objects::dice::DiceType;
use space_looter::domain::value_objects::resources::ResourceType;

#[test]
fn entity_id_values() {
    assert_eq!(EntityId::new(42).value(), 42);
    assert_eq!(EntityId::from_timestamp_millis(3).value(), 3_000_000);
}

#[test]
fn experience_level_calculation() {
    let exp = Experience::new(0).unwrap();
    assert_eq!(exp.level(), 1);

    let exp = Experience::new(100).unwrap();
    assert_eq!(exp.level(), 2);
}

#[test]
fn experience_progression() {
    let exp = Experience::new(149).unwrap();
    assert_eq!(exp.level(), 2);
    let exp = Experience::new(150).unwrap();
    assert_eq!(exp.level(), 3);
    assert_eq!(Experience::new(u32::MAX).unwrap().level(), 50);
    let lvl3 = Experience::for_level(3).unwrap();
    assert_eq!(lvl3.points(), 250);
    assert!(Experience::for_level(51).is_err());
    let start = Experience::new(0).unwrap();
    assert_eq!(start.points_to_next_level(), 100);
    assert!(!start.can_level_up());
    let more = start.add_points(120).unwrap();
    assert_eq!(more.level(), 2);
    assert_eq!(more.points_to_next_level(), 130);
}

#[test]
fn player_stats_validation() {
    let stats = PlayerStats::new(10, 10, 10, 10, 10, 10);
    assert!(stats.is_ok());

    let invalid_stats = PlayerStats::new(0, 10, 10, 10, 10, 10);
    assert!(invalid_stats.is_err());

    let invalid_stats = PlayerStats::new(21, 10, 10, 10, 10, 10);
    assert!(invalid_stats.is_err());
}

#[test]
fn player_stats_modifiers() {
    let stats = PlayerStats::starting_stats();
    assert_eq!(stats.get_modifier(StatType::Strength), 0);

    let high_stats = PlayerStats::new(18, 6, 10, 10, 10, 10).unwrap();
    assert_eq!(high_stats.get_modifier(StatType::Strength), 4);
    assert_eq!(high_stats.get_modifier(StatType::Dexterity), -2);
    let odd = PlayerStats::new(10, 10, 10, 10, 10, 7).unwrap();
    assert_eq!(odd.get_modifier(StatType::Endurance), -1);
}

#[test]
fn player_stats_increase() {
    let stats = PlayerStats::starting_stats().increase_stat(StatType::Luck).unwrap();
    assert_eq!(stats.luck, 11);
    assert_eq!(stats.strength, 10);
    let maxed = PlayerStats::new(20, 10, 10, 10, 10, 10).unwrap();
    assert!(matches!(maxed.increase_stat(StatType::Strength), Err(DomainError::InvalidPlayerStats(_))));
}

#[test]
fn game_time_operations() {
    let time1 = GameTime::new(60);
    let time2 = GameTime::new(30);

    assert_eq!(time1.minutes(), 1);
    assert_eq!(time1.add(time2).seconds(), 90);
    assert_eq!(time1.subtract(time2).seconds(), 30);
    assert_eq!(time2.subtract(time1).seconds(), 0);
    assert_eq!(GameTime::new(u32::MAX).advance_by_seconds(5).seconds(), u32::MAX);
    assert_eq!(GameTime::start_of_game().advance_by_turns(3).seconds(), 180);
    assert!(time1.has_elapsed(time2));
}

#[test]
fn game_time_display() {
    let time = GameTime::from_hours(1).add(GameTime::from_minutes(30)).add(GameTime::new(45));
    assert_eq!(time.to_string(), "1h 30m 45s");
    assert_eq!(GameTime::new(125).to_string(), "2m 5s");
    assert_eq!(GameTime::new(7).to_string(), "7s");
}

#[test]
fn test_experience_calculation() {
    assert_eq!(constants::experience_for_level(1), 0);
    assert_eq!(constants::experience_for_level(2), constants::BASE_EXPERIENCE_REQUIREMENT);
    assert!(constants::experience_for_level(3) > constants::experience_for_level(2));
    assert_eq!(constants::experience_for_level(42), 3_303_257_654);
}

#[test]
fn test_critical_rolls() {
    assert!(constants::is_critical_success(20, DiceType::D20));
    assert!(!constants::is_critical_success(19, DiceType::D20));

    assert!(constants::is_critical_failure(1));
    assert!(!constants::is_critical_failure(2));
}

#[test]
fn test_resource_display_priority() {
    assert_eq!(constants::resource_display_priority(ResourceType::Metal), 1);
    assert!(constants::resource_display_priority(ResourceType::ExoticMatter) > constants::resource_display_priority(ResourceType::Metal));
}

#[test]
fn test_constants_validity() {
    assert!(constants::MAX_PLAYER_LEVEL > 1);
    assert!(constants::BASE_EXPERIENCE_REQUIREMENT > 0);
    assert!(constants::FOGGED_VISIBLE_RADIUS > constants::FULLY_VISIBLE_RADIUS);
    assert!(constants::TILE_GENERATION_BUFFER > 0);
    assert!(constants::MAX_MOVEMENT_POINTS >= constants::BASE_MOVEMENT_POINTS as u32);
    assert!(constants::BASE_MOVEMENT_COST > 0);
    assert!(constants::MAX_RESOURCE_AMOUNT > 0);
    assert!(constants::BASE_STORAGE_CAPACITY > 0);
}

#[test]
fn test_fog_of_war_calculations() {
    assert_eq!(constants::MAX_TOTAL_VISIBLE_TILES, constants::MAX_FULLY_VISIBLE_TILES + constants::MAX_FOGGED_VISIBLE_TILES);
    assert!(constants::MAX_FOGGED_VISIBLE_TILES > constants::MAX_FULLY_VISIBLE_TILES);
}

#[test]
fn new_score_valid_value() {
    let score = Score::new(1000).unwrap();
    assert_eq!(score.value(), 1000);
}

#[test]
fn new_score_max_value() {
    let score = Score::new(Score::MAX_SCORE).unwrap();
    assert_eq!(score.value(), Score::MAX_SCORE);
    assert!(score.is_max());
}

#[test]
fn new_score_invalid_value() {
    let result = Score::new(Score::MAX_SCORE + 1);
    assert!(result.is_err());
    if let Err(DomainError::InvalidScore(msg)) = result {
        assert!(msg.contains("exceeds maximum"));
    }
}

#[test]
fn score_zero() {
    let score = Score::zero();
    assert_eq!(score.value(), 0);
}

#[test]
fn score_add_points() {
    let score = Score::new(100).unwrap();
    let new_score = score.add(50).unwrap();
    assert_eq!(new_score.value(), 150);
}

#[test]
fn score_add_enemy_points() {
    let score = Score::zero();
    let new_score = score.add_enemy_points().unwrap();
    assert_eq!(new_score.value(), constants::POINTS_PER_ENEMY);
}

#[test]
fn score_add_overflow_protection() {
    let score = Score::new(Score::MAX_SCORE - 5).unwrap();
    let new_score = score.add(10).unwrap();
    assert_eq!(new_score.value(), Score::MAX_SCORE);
    assert!(new_score.is_max());
}

#[test]
fn score_comparison() {
    let score1 = Score::new(100).unwrap();
    let score2 = Score::new(200).unwrap();
    let score3 = Score::new(100).unwrap();

    assert!(score2.is_higher_than(&score1));
    assert!(!score1.is_higher_than(&score2));
    assert!(!score1.is_higher_than(&score3));
}

#[test]
fn score_ordering() {
    let score1 = Score::new(100).unwrap();
    let score2 = Score::new(200).unwrap();
    let score3 = Score::new(300).unwrap();

    assert!(score1 < score2);
    assert!(score2 < score3);
    assert!(score3 > score1);
}

#[test]
fn score_equality() {
    let score1 = Score::new(500).unwrap();
    let score2 = Score::new(500).unwrap();
    let score3 = Score::new(600).unwrap();

    assert_eq!(score1, score2);
    assert_ne!(score1, score3);
}

#[test]
fn score_formatting() {
    assert_eq!(format_score(0), "0");
    assert_eq!(format_score(123), "123");
    assert_eq!(format_score(1234), "1,234");
    assert_eq!(format_score(12345), "12,345");
    assert_eq!(format_score(123456), "123,456");
    assert_eq!(format_score(1234567), "1,234,567");
    assert_eq!(format_score(1000005), "1,000,005");
}

#[test]
fn score_display() {
    let score = Score::new(12345).unwrap();
    assert_eq!(score.to_string(), "12,345");
}

#[test]
fn score_from_u32() {
    let score = Score::from(1000);
    assert_eq!(score.value(), 1000);
    let max_score = Score::from(Score::MAX_SCORE + 1000);
    assert_eq!(max_score.value(), Score::MAX_SCORE);
}

#[test]
fn score_default() {
    let score = Score::default();
    assert_eq!(score.value(), 0);
}
