use space_looter::domain::services::game_log_service::{format_resource_collection, GameLogService, GameLogType};
use space_looter::domain::value_objects::position::Position3D;
use space_looter::domain::value_objects::resources::{ResourceCollection, ResourceType};

#[test]
fn test_service_creation() {
    let service = GameLogService::new();
    assert_eq!(service.message_count(), 0);
    assert!(service.get_recent_messages(10).is_empty());
}

#[test]
fn test_add_message() {
    let mut service = GameLogService::new();
    service.log_message("Test message".to_string(), GameLogType::System);
    assert_eq!(service.message_count(), 1);
    let messages = service.get_recent_messages(1);
    assert_eq!(messages[0].message, "Test message");
    assert_eq!(messages[0].log_type, GameLogType::System);
}

#[test]
fn test_message_limit() {
    let mut service = GameLogService::new();
    service.set_max_messages(3);
    for i in 0..5 {
        service.log_message(format!("Message {}", i), GameLogType::System);
    }
    assert_eq!(service.message_count(), 3);
    let messages = service.get_recent_messages(3);
    assert_eq!(messages[0].message, "Message 4");
    assert_eq!(messages[1].message, "Message 3");
    assert_eq!(messages[2].message, "Message 2");
}

#[test]
fn test_movement_logging() {
    let mut service = GameLogService::new();
    let from = Position3D::new(0, 0, 0);
    let to = Position3D::new(1, 0, 0);
    service.log_movement_attempt(from, to, true, Some(15));
    assert_eq!(service.message_count(), 1);
    let messages = service.get_recent_messages(1);
    assert!(messages[0].message.contains("Moved from (0, 0) to (1, 0)"));
    assert!(messages[0].message.contains("Roll: 15"));
    assert_eq!(messages[0].log_type, GameLogType::Movement);
}

#[test]
fn test_rest_logging() {
    let mut service = GameLogService::new();
    let mut resources = ResourceCollection::new();
    resources.set_amount(ResourceType::Food, 5);
    service.log_rest_event("Peaceful Rest", "Normal Rest", &resources, "A peaceful night under the stars", 12);
    assert_eq!(service.message_count(), 3);
    let messages = service.get_recent_messages(3);
    let message_texts: Vec<&str> = messages.iter().map(|m| m.message.as_str()).collect();
    assert!(message_texts.iter().any(|m| m.contains("Night Roll: 12")));
    assert!(message_texts.iter().any(|m| m.contains("Rest Quality: Normal Rest")));
    assert!(message_texts.iter().any(|m| m.contains("peaceful night")));
}

#[test]
fn test_resource_formatting() {
    let mut resources = ResourceCollection::new();
    resources.set_amount(ResourceType::Food, 10);
    resources.set_amount(ResourceType::Energy, 5);
    let formatted = format_resource_collection(&resources);
    assert!(formatted.contains("Food: 10"));
    assert!(formatted.contains("Energy: 5"));
    assert_eq!(formatted, "Food: 10, Energy: 5");
    assert_eq!(format_resource_collection(&ResourceCollection::new()), "None");
}

#[test]
fn log_messages_have_exact_text() {
    let mut service = GameLogService::new();
    service.log_movement_attempt(Position3D::new(2, -1, 0), Position3D::new(3, -1, 0), false, None);
    service.log_dice_roll(12, -3, 9, "Neutral");
    service.log_dice_roll(12, 0, 12, "Neutral");
    service.log_resource_change(ResourceType::Metal, -7, "a trap");
    service.log_insufficient_resources("move", 4, 1);
    let all = service.get_all_messages();
    assert_eq!(all[0].message, "Failed to move to (3, -1) - insufficient resources");
    assert_eq!(all[0].log_type, GameLogType::Warning);
    assert_eq!(all[1].message, "Rolled 12 -3 = 9 - Outcome: Neutral");
    assert_eq!(all[2].message, "Rolled 12 +0 = 12 - Outcome: Neutral");
    assert_eq!(all[3].message, "Lost 7 Metal from a trap");
    assert_eq!(all[4].message, "Cannot move: Need 4 movement points, have 1");
    service.clear_messages();
    assert_eq!(service.message_count(), 0);
}

use space_looter::domain::entities::player::Player;
use space_looter::domain::services::resting_service::{NightEventType, RestOutcome, RestingService};
use space_looter::domain::value_objects::{EntityId, PlayerStats};

#[test]
fn test_rest_cycle_creation() {
    let service = RestingService::new();
    let mut player = Player::new(EntityId::generate(), "Test Player".to_string(), Position3D::new(0, 0, 0), PlayerStats::starting_stats()).unwrap();
    player.subtract_movement_points(player.movement_points());
    assert_eq!(player.movement_points(), 0);
    let result = service.process_rest_cycle(&mut player, Position3D::new(0, 0, 0));
    assert!(result.is_ok());
    assert!(player.movement_points() > 0);
    let result = result.unwrap();
    assert_eq!(result.dice_roll, 10);
    assert_eq!(result.night_event, NightEventType::RestlessNight);
    assert_eq!(result.rest_outcome, RestOutcome::PoorRest);
    assert_eq!(result.resources_gained.get_amount(ResourceType::Food), 2);
    assert_eq!(player.resources().get_amount(ResourceType::Food), 22);
}

#[test]
fn test_night_event_determination() {
    let service = RestingService::new();
    let nightmare = service.determine_night_event(1, &Position3D::new(0, 0, 0)).unwrap();
    assert_eq!(nightmare, NightEventType::NightmareTerrors);
    let peaceful = service.determine_night_event(15, &Position3D::new(0, 0, 0)).unwrap();
    assert_eq!(peaceful, NightEventType::PeacefulRest);
    let vision = service.determine_night_event(20, &Position3D::new(0, 0, 0)).unwrap();
    assert_eq!(vision, NightEventType::PropheticVision);
}

#[test]
fn test_rest_outcomes() {
    let service = RestingService::new();
    let poor = service.determine_rest_outcome(1, &NightEventType::NightmareTerrors).unwrap();
    assert_eq!(poor, RestOutcome::PoorRest);
    let great = service.determine_rest_outcome(19, &NightEventType::LucidDream).unwrap();
    assert_eq!(great, RestOutcome::GreatRest);
    assert_eq!(service.determine_rest_outcome(15, &NightEventType::ColdNight).unwrap(), RestOutcome::NormalRest);
    assert_eq!(service.determine_rest_outcome(14, &NightEventType::ColdNight).unwrap(), RestOutcome::PoorRest);
}

#[test]
fn test_description_generation() {
    let service = RestingService::new();
    let description = service.generate_rest_description(&NightEventType::PeacefulRest, &RestOutcome::NormalRest, 15);
    assert!(description.contains("peaceful"));
    assert!(description.contains("Roll: 15"));
}

#[test]
fn exceptional_rest_rewards_the_player() {
    let service = RestingService::new();
    let mut player = Player::new(EntityId::new(7), "Sleeper".to_string(), Position3D::new(0, 0, 0), PlayerStats::starting_stats()).unwrap();
    let food = player.resources().get_amount(ResourceType::Food);
    let data = player.resources().get_amount(ResourceType::Data);
    let points = player.experience().points();
    let gained = service.apply_rest_effects(&mut player, &RestOutcome::ExceptionalRest).unwrap();
    assert_eq!(gained.get_amount(ResourceType::Technology), 5);
    assert_eq!(player.resources().get_amount(ResourceType::Food), food + 25);
    assert_eq!(player.resources().get_amount(ResourceType::Data), data + 15);
    assert_eq!(player.experience().points(), points + 50);
    let before = player.experience().points();
    service.apply_rest_effects(&mut player, &RestOutcome::NormalRest).unwrap();
    assert_eq!(player.experience().points(), before);
}
