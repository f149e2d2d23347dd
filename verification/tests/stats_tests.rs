use space_looter::domain::value_objects::dice::{DiceModifier, DiceRoll, DiceType};
use space_looter::domain::value_objects::resources::ResourceType;
use space_looter::domain::GamePhase;
use space_looter::infrastructure::bevy::resources::{GameStatsResource, GameTurnState};

#[test]
fn game_timer_resource_functionality() {
    let mut timer = GameTurnState::new();
    assert_eq!(timer.turn_number, 1);
    assert!(timer.is_player_turn());
    timer.advance(1);
    timer.next_turn();
    assert_eq!(timer.turn_number, 2);
    timer.pause();
    assert_eq!(timer.phase, GamePhase::Paused);
    timer.resume();
    assert_eq!(timer.phase, GamePhase::PlayerTurn);
}

#[test]
fn game_stats_resource_tracking() {
    let mut stats = GameStatsResource::new();
    stats.record_quest_completion();
    stats.record_resource_gather(ResourceType::Metal, 50);
    stats.record_experience_gain(100);
    assert_eq!(stats.quests_completed, 1);
    assert_eq!(stats.resources_gathered_for_type(ResourceType::Metal), 50);
    assert_eq!(stats.experience_gained, 100);

    let dice_roll = DiceRoll::new(1, DiceType::D20, DiceModifier::none()).unwrap();
    stats.record_dice_roll(&dice_roll, 10);
    assert_eq!(stats.dice_rolls_made, 1);
    assert_eq!(stats.successful_rolls, 1);
    let success_rate = (stats.successful_rolls as f32 / stats.dice_rolls_made as f32) * 100.0;
    assert_eq!(success_rate, 100.0);

    stats.reset();
    assert_eq!(stats.quests_completed, 0);
    assert_eq!(stats.total_resources_gathered(), 0);
}

#[test]
fn critical_rolls_are_counted() {
    let mut stats = GameStatsResource::default();
    let high = DiceRoll::rolled(1, DiceType::D20, DiceModifier::none(), vec![19]);
    let low = DiceRoll::rolled(1, DiceType::D20, DiceModifier::none(), vec![1]);
    stats.record_dice_roll(&high, 15);
    stats.record_dice_roll(&low, 15);
    assert_eq!(stats.dice_rolls_made, 2);
    assert_eq!(stats.successful_rolls, 1);
    assert_eq!(stats.critical_successes, 1);
    assert_eq!(stats.critical_failures, 1);
    stats.record_resource_gather(ResourceType::Energy, 7);
    stats.record_resource_gather(ResourceType::Metal, 3);
    stats.record_tile_explored();
    stats.record_event_trigger();
    assert_eq!(stats.total_resources_gathered(), 10);
    assert_eq!(stats.tiles_explored, 1);
    assert_eq!(stats.events_triggered, 1);
}

#[test]
fn paused_time_does_not_pass() {
    let mut timer = GameTurnState::new();
    timer.pause();
    timer.advance(30);
    assert_eq!(timer, {
        let mut t = GameTurnState::new();
        t.pause();
        t
    });
    timer.set_phase(GamePhase::EventPhase);
    timer.resume();
    assert_eq!(timer.phase, GamePhase::EventPhase);
}
