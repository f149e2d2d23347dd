use space_looter::domain::entities::base::{Base, BaseBuilding, BaseLevel, BuildingType};
use space_looter::domain::entities::event::{Event, EventOutcome, EventType, OutcomeType};
use space_looter::domain::entities::player::{Equipment, EquipmentSlot, EquipmentType, Player, StatModifiers, StatusEffect, StatusEffectType};
use space_looter::domain::entities::quest::{ObjectiveType, Quest, QuestObjective, QuestRewards, QuestStatus, QuestType};
use space_looter::domain::entities::Entity;
use space_looter::domain::value_objects::resources::{ResourceCollection, ResourceType};
use space_looter::domain::value_objects::{EntityId, GameTime, PlayerStats, Position3D, StatType};

#[test]
fn entity_trait_is_object_safe() {
    fn _test_trait_object(_entity: &dyn Entity) {}
}

#[test]
fn entity_id_generation() {
    let id1 = EntityId::generate();
    let id2 = EntityId::generate();
    assert_ne!(id1, id2);
}

#[test]
fn entity_ids_from_clock_readings() {
    assert_eq!(EntityId::new(42).value(), 42);
    assert_eq!(EntityId::from_timestamp_nanos(Some(1_500)).value(), 1_500);
    assert_eq!(EntityId::from_timestamp_nanos(Some((1u128 << 64) + 7)).value(), 7);
    assert_eq!(EntityId::from_timestamp_nanos(None).value(), 0);
    assert!(EntityId::generate().value() > 0);
}

#[test]
fn building_costs() {
    let cost = BuildingType::Workshop.build_cost();
    assert!(cost.get_amount(ResourceType::Metal) > 0);
    assert!(cost.get_amount(ResourceType::Technology) > 0);
}

#[test]
fn building_costs_match_the_price_list() {
    let cost = BuildingType::DefenseSystem.build_cost();
    assert_eq!(cost.get_amount(ResourceType::Metal), 150);
    assert_eq!(cost.get_amount(ResourceType::Technology), 30);
    assert_eq!(cost.get_amount(ResourceType::Energy), 75);
    assert_eq!(cost.get_amount(ResourceType::Food), 0);
    assert_eq!(BaseLevel::Level3.storage_capacity(), 5000);
}

#[test]
fn base_creation() {
    let id = EntityId::generate();
    let name = "Test Base".to_string();
    let position = Position3D::origin();
    let base = Base::new(id, name.clone(), position).unwrap();
    assert_eq!(base.name(), &name);
    assert_eq!(base.position(), &position);
    assert_eq!(base.level(), BaseLevel::Level1);
    assert!(Base::new(id, String::new(), position).is_err());
}

#[test]
fn building_creation() {
    let building = BaseBuilding::new(BuildingType::Workshop, "Main Workshop".to_string(), (0, 0));
    assert_eq!(building.building_type, BuildingType::Workshop);
    assert_eq!(building.level, 1);
}

#[test]
fn event_creation() {
    let event = Event::new(
        EventType::ResourceDiscovery,
        "Found Resources".to_string(),
        "You discovered a cache of metal ore".to_string(),
        Some(Position3D::new(5, 5, 0)),
    )
    .unwrap();
    assert_eq!(event.event_type(), EventType::ResourceDiscovery);
    assert_eq!(event.title(), "Found Resources");
    assert!(!event.is_resolved());
}

#[test]
fn event_resolution() {
    let mut event = Event::new(EventType::Trade, "Trading Post".to_string(), "A merchant offers to trade".to_string(), None).unwrap();
    let outcome = EventOutcome::neutral("You declined the trade".to_string());
    event.resolve(outcome).unwrap();
    assert!(event.is_resolved());
    assert_eq!(event.outcomes().len(), 1);
    let another_outcome = EventOutcome::neutral("Another outcome".to_string());
    assert!(event.resolve(another_outcome).is_err());
}

#[test]
fn event_type_properties() {
    assert!(EventType::Combat.is_dangerous());
    assert!(!EventType::Combat.is_beneficial());
    assert!(EventType::Boon.is_beneficial());
    assert!(!EventType::Boon.is_dangerous());
    assert_eq!(EventType::all().len(), 9);
    assert_eq!(EventType::ResourceDiscovery.to_string(), "Resource Discovery");
}

#[test]
fn event_outcome_creation() {
    let mut resources = ResourceCollection::new();
    resources.set_amount(ResourceType::Metal, 50);
    let outcome = EventOutcome::success(resources, 25, "Successfully gathered resources".to_string());
    assert_eq!(outcome.outcome_type, OutcomeType::Success);
    assert_eq!(outcome.experience_gained, 25);
    assert!(outcome.resources_gained.is_some());
}

#[test]
fn invalid_event_creation() {
    let result = Event::new(EventType::Mystery, "".to_string(), "Description".to_string(), None);
    assert!(result.is_err());
    let result = Event::new(EventType::Mystery, "Title".to_string(), "".to_string(), None);
    assert!(result.is_err());
}

#[test]
fn event_without_duration_never_expires() {
    let event = Event::new(EventType::Hazard, "Storm".to_string(), "A dust storm".to_string(), None).unwrap();
    assert!(!event.is_expired(GameTime::new(u32::MAX)));
}

fn explore_objective(n: u32) -> QuestObjective {
    QuestObjective::new(ObjectiveType::ExploreTiles(n), format!("Explore {} tiles", n), n)
}

#[test]
fn quest_creation() {
    let objectives = vec![QuestObjective::new(ObjectiveType::ExploreTiles(10), "Explore 10 tiles".to_string(), 10)];
    let rewards = QuestRewards::experience_only(100);
    let quest = Quest::new("First Steps".to_string(), "Explore the world around you".to_string(), QuestType::Main, objectives, rewards).unwrap();
    assert_eq!(quest.title(), "First Steps");
    assert_eq!(quest.status(), QuestStatus::Available);
    assert_eq!(quest.objectives().len(), 1);
}

#[test]
fn quest_lifecycle() {
    let objectives = vec![QuestObjective::new(ObjectiveType::ExploreTiles(5), "Explore 5 tiles".to_string(), 5)];
    let rewards = QuestRewards::experience_only(50);
    let mut quest = Quest::new("Explorer".to_string(), "Start exploring".to_string(), QuestType::Side, objectives, rewards).unwrap();
    assert!(quest.start().is_ok());
    assert!(quest.is_active());
    assert!(quest.started_at().is_some());
    let obj_id = quest.objectives()[0].id;
    let completed = quest.update_objective_progress(&obj_id, 5).unwrap();
    assert!(completed);
    assert!(quest.is_completed());
}

#[test]
fn quest_objective_progress() {
    let mut objective = QuestObjective::new(ObjectiveType::ExploreTiles(10), "Explore tiles".to_string(), 10);
    assert!(!objective.is_completed());
    objective.current_progress = 5;
    assert!(!objective.is_completed());
    objective.current_progress = 10;
    assert!(objective.is_completed());
}

#[test]
fn invalid_quest_creation() {
    let objectives = vec![explore_objective(1)];
    let rewards = QuestRewards::experience_only(10);
    let result = Quest::new("".to_string(), "Description".to_string(), QuestType::Main, objectives.clone(), rewards.clone());
    assert!(result.is_err());
    let result = Quest::new("Title".to_string(), "Description".to_string(), QuestType::Main, Vec::new(), rewards);
    assert!(result.is_err());
}

#[test]
fn quest_abandonment() {
    let objectives = vec![explore_objective(1)];
    let rewards = QuestRewards::experience_only(10);
    let mut quest = Quest::new("Test Quest".to_string(), "Test Description".to_string(), QuestType::Side, objectives, rewards).unwrap();
    assert!(quest.abandon().is_err());
    quest.start().unwrap();
    assert!(quest.abandon().is_ok());
    assert_eq!(quest.status(), QuestStatus::Abandoned);
}

#[test]
fn quest_progress_keeps_the_larger_value_and_needs_every_objective() {
    let mut first = explore_objective(4);
    first.id = EntityId::new(1);
    let mut second = explore_objective(2);
    second.id = EntityId::new(2);
    let mut quest = Quest::new("Two Parts".to_string(), "Do both".to_string(), QuestType::Daily, vec![first, second], QuestRewards::experience_only(5)).unwrap();
    assert!(quest.update_objective_progress(&EntityId::new(1), 3).is_err());
    quest.start().unwrap();
    assert_eq!(quest.update_objective_progress(&EntityId::new(1), 4), Ok(false));
    assert_eq!(quest.update_objective_progress(&EntityId::new(1), 1), Ok(false));
    assert_eq!(quest.objectives()[0].current_progress, 4);
    assert!(quest.objectives()[0].completed_at.is_some());
    assert_eq!(quest.update_objective_progress(&EntityId::new(9), 100), Ok(false));
    assert_eq!(quest.update_objective_progress(&EntityId::new(2), 2), Ok(true));
    assert_eq!(quest.status(), QuestStatus::Completed);
    assert!(quest.start().is_err());
    assert!(quest.abandon().is_err());
}

#[test]
fn player_creation() {
    let id = EntityId::generate();
    let name = "Test Player".to_string();
    let position = Position3D::origin();
    let stats = PlayerStats::starting_stats();
    let player = Player::new(id, name.clone(), position, stats).unwrap();
    assert_eq!(player.name(), &name);
    assert_eq!(player.position(), &position);
    assert_eq!(player.level(), 1);
    assert!(player.can_move());
    assert!(player.can_act());
}

#[test]
fn player_movement() {
    let mut player = Player::create_new_character("Test".to_string(), Position3D::origin()).unwrap();
    let new_position = Position3D::new(1, 1, 0);
    let result = player.move_to(new_position, 1);
    assert!(result.is_ok());
    assert_eq!(player.position(), &new_position);
    assert_eq!(player.movement_points(), 2);
}

#[test]
fn player_movement_insufficient_points() {
    let mut player = Player::create_new_character("Test".to_string(), Position3D::origin()).unwrap();
    let new_position = Position3D::new(1, 1, 0);
    let result = player.move_to(new_position, 10);
    assert!(result.is_err());
    assert_eq!(player.position(), &Position3D::origin());
}

#[test]
fn player_experience_and_level_up() {
    let mut player = Player::create_new_character("Test".to_string(), Position3D::origin()).unwrap();
    assert_eq!(player.level(), 1);
    let leveled_up = player.add_experience(100).unwrap();
    assert!(leveled_up);
    assert_eq!(player.level(), 2);
}

#[test]
fn player_stat_modifiers() {
    let id = EntityId::generate();
    let stats = PlayerStats::new(15, 10, 10, 10, 10, 10).unwrap();
    let player = Player::new(id, "Test Player".to_string(), Position3D::origin(), stats).unwrap();
    let strength_modifier = player.get_stat_modifier(StatType::Strength);
    assert_eq!(strength_modifier, 2);
}

#[test]
fn player_equipment() {
    let mut player = Player::create_new_character("Test".to_string(), Position3D::origin()).unwrap();
    let mut stat_mods = StatModifiers::new();
    stat_mods.insert(StatType::Strength, 2);
    let sword = Equipment::new("Iron Sword".to_string(), EquipmentType::Weapon, stat_mods, 0, "A sturdy iron sword".to_string());
    let result = player.equip_item(EquipmentSlot::MainHand, sword);
    assert!(result.is_ok());
    assert!(player.equipment().is_slot_equipped(EquipmentSlot::MainHand));
    let str_mod = player.get_stat_modifier(StatType::Strength);
    assert!(str_mod > 0);
}

#[test]
fn equipment_only_fits_its_slots() {
    let mut player = Player::create_new_character("Test".to_string(), Position3D::origin()).unwrap();
    let helmet = Equipment::new("Cap".to_string(), EquipmentType::Helmet, StatModifiers::new(), 5, "A cap".to_string());
    assert!(player.equip_item(EquipmentSlot::Feet, helmet.clone()).is_err());
    assert_eq!(player.equip_item(EquipmentSlot::Head, helmet.clone()), Ok(None));
    assert_eq!(player.equip_item(EquipmentSlot::Head, helmet.clone()), Ok(Some(helmet.clone())));
    assert_eq!(player.equipment().get_carrying_capacity_bonus(), 5);
    assert_eq!(player.unequip_item(EquipmentSlot::Head), Some(helmet));
    assert_eq!(player.unequip_item(EquipmentSlot::Head), None);
    assert!(!player.equipment().is_slot_equipped(EquipmentSlot::Head));
}

#[test]
fn player_status_effects() {
    let mut player = Player::create_new_character("Test".to_string(), Position3D::origin()).unwrap();
    let effect = StatusEffect::new(StatusEffectType::Blessed, GameTime::from_minutes(5), GameTime::new(0), StatModifiers::new(), "Blessed by the gods".to_string());
    player.add_status_effect(effect);
    assert_eq!(player.status_effects().len(), 1);
}

#[test]
fn status_effects_replace_and_expire() {
    let mut player = Player::create_new_character("Test".to_string(), Position3D::origin()).unwrap();
    let stun = StatusEffect::new(StatusEffectType::Stunned, GameTime::new(10), GameTime::new(0), StatModifiers::new(), "Dazed".to_string());
    let stun_again = StatusEffect::new(StatusEffectType::Stunned, GameTime::new(100), GameTime::new(0), StatModifiers::new(), "Dazed again".to_string());
    player.add_status_effect(stun);
    assert!(!player.can_move());
    assert!(!player.can_act());
    player.add_status_effect(stun_again);
    assert_eq!(player.status_effects().len(), 1);
    assert_eq!(player.status_effects()[0].description, "Dazed again");
    player.update_status_effects(GameTime::new(50));
    assert_eq!(player.status_effects().len(), 1);
    player.update_status_effects(GameTime::new(100));
    assert_eq!(player.status_effects().len(), 0);
    assert!(player.can_move());
}

#[test]
fn player_exploration_tracking() {
    let mut player = Player::create_new_character("Test".to_string(), Position3D::origin()).unwrap();
    let pos1 = Position3D::new(1, 0, 0);
    let pos2 = Position3D::new(2, 0, 0);
    player.move_to(pos1, 1).unwrap();
    player.move_to(pos2, 1).unwrap();
    assert_eq!(player.locations_visited_count(), 3);
    assert!(player.has_visited(&Position3D::origin()));
    assert!(player.has_visited(&pos1));
    assert!(player.has_visited(&pos2));
    assert_eq!(player.total_distance_traveled(), 2);
}

#[test]
fn player_validation() {
    let player = Player::create_new_character("Test".to_string(), Position3D::origin()).unwrap();
    assert!(player.is_valid());
    let invalid_player = Player::create_new_character("".to_string(), Position3D::origin());
    assert!(invalid_player.is_err());
}

#[test]
fn player_carrying_capacity() {
    let stats = PlayerStats::new(20, 10, 10, 10, 10, 10).unwrap();
    let player = Player::new(EntityId::generate(), "Test Player".to_string(), Position3D::origin(), stats).unwrap();
    let capacity = player.carrying_capacity();
    assert!(capacity > 100);
    assert_eq!(capacity, 300);
    assert!(!player.is_overloaded());
}

#[test]
fn player_points_are_capped_and_restored() {
    let mut player = Player::create_new_character("Test".to_string(), Position3D::origin()).unwrap();
    player.subtract_movement_points(10);
    assert_eq!(player.movement_points(), 0);
    assert!(!player.can_move());
    player.add_movement_points(200);
    assert_eq!(player.movement_points(), 3);
    player.consume_action_points(2).unwrap();
    assert!(player.consume_action_points(1).is_err());
    player.restore_points();
    assert_eq!(player.action_points(), 2);
    let summary = player.summary();
    assert_eq!(summary.name, "Test");
    assert_eq!(summary.locations_visited, 1);
}

use space_looter::domain::entities::game::{ActionType, DifficultyLevel, GameSession, GameStatistics};
use space_looter::domain::{GamePhase, WorldBoundaries};

fn new_session(name: &str) -> GameSession {
    GameSession::new(name.to_string(), EntityId::generate(), EntityId::generate(), DifficultyLevel::Normal, WorldBoundaries::standard()).unwrap()
}

#[test]
fn game_session_creation() {
    let session = new_session("Test Session");
    assert_eq!(session.session_name(), "Test Session");
    assert_eq!(session.turn_number(), 1);
    assert!(session.is_player_turn());
    assert!(!session.is_paused());
    assert!(!session.is_game_over());
}

#[test]
fn game_phase_progression() {
    let mut session = new_session("Test");
    assert_eq!(session.current_phase(), GamePhase::PlayerTurn);
    let next = session.advance_phase().unwrap();
    assert_eq!(next, GamePhase::Processing);
    assert_eq!(session.current_phase(), GamePhase::Processing);
    session.advance_phase().unwrap();
    session.advance_phase().unwrap();
    let next = session.advance_phase().unwrap();
    assert_eq!(next, GamePhase::PlayerTurn);
    assert_eq!(session.turn_number(), 2);
}

#[test]
fn game_pause_resume() {
    let mut session = new_session("Test");
    session.pause().unwrap();
    assert!(session.is_paused());
    assert!(session.advance_phase().is_err());
    session.resume().unwrap();
    assert!(session.is_player_turn());
    assert!(!session.is_paused());
}

#[test]
fn game_statistics_recording() {
    let mut stats = GameStatistics::new();
    assert_eq!(stats.total_actions(), 0);
    stats.record_action(ActionType::Move);
    stats.record_action(ActionType::Move);
    stats.record_action(ActionType::GatherResources);
    assert_eq!(stats.total_actions(), 3);
    assert_eq!(stats.actions_count(ActionType::Move), 2);
    assert_eq!(stats.actions_count(ActionType::GatherResources), 1);
}

#[test]
fn world_boundaries_validation() {
    let session = new_session("Test");
    assert!(session.is_position_valid(&Position3D::new(0, 0, 0)));
    assert!(!session.is_position_valid(&Position3D::new(1000, 1000, 1000)));
    let clamped = session.clamp_position(Position3D::new(1000, 1000, 1000));
    assert!(session.is_position_valid(&clamped));
}

#[test]
fn invalid_session_creation() {
    let result = GameSession::new("".to_string(), EntityId::generate(), EntityId::generate(), DifficultyLevel::Normal, WorldBoundaries::standard());
    assert!(result.is_err());
}

#[test]
fn game_time_progression() {
    let mut session = new_session("Test");
    let initial_time = session.game_time();
    session.advance_phase().unwrap();
    session.advance_phase().unwrap();
    session.advance_phase().unwrap();
    session.advance_phase().unwrap();
    let new_time = session.game_time();
    assert!(new_time.seconds() > initial_time.seconds());
    assert_eq!(new_time.seconds(), 60);
}

#[test]
fn game_over_is_final() {
    let mut session = new_session("Test");
    session.add_points(40).unwrap();
    assert_eq!(session.score().value(), 40);
    session.end().unwrap();
    assert!(session.is_game_over());
    assert!(!session.is_active());
    assert!(session.advance_phase().is_err());
    assert!(session.pause().is_err());
    assert!(session.resume().is_err());
    assert!(session.start().is_err());
    assert_eq!(DifficultyLevel::Nightmare.to_string(), "Nightmare");
    assert_eq!(ActionType::GatherResources.to_string(), "Gather Resources");
}

#[test]
fn player_resources_change_in_place() {
    let mut player = Player::create_new_character("Carrier".to_string(), Position3D::origin()).unwrap();
    let version = player.version();
    let before = player.resources().get_amount(ResourceType::Metal);
    player.resources_mut().set_amount(ResourceType::Metal, before + 7);
    assert_eq!(player.resources().get_amount(ResourceType::Metal), before + 7);
    assert_eq!(player.version(), version + 1);
}
