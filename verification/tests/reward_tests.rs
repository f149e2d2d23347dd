use space_looter::domain::entities::event::{EventType, OutcomeType};
use space_looter::domain::services::resource_rewards::{ResourceRewardService, RewardTier};
use space_looter::domain::value_objects::resources::{ResourceCollection, ResourceType};
use space_looter::domain::value_objects::StatType;

#[test]
fn test_reward_tier_determination() {
    let service = ResourceRewardService::new();
    assert_eq!(service.determine_reward_tier(1).unwrap(), RewardTier::CriticalFailure);
    assert_eq!(service.determine_reward_tier(5).unwrap(), RewardTier::Failure);
    assert_eq!(service.determine_reward_tier(10).unwrap(), RewardTier::Neutral);
    assert_eq!(service.determine_reward_tier(15).unwrap(), RewardTier::Success);
    assert_eq!(service.determine_reward_tier(18).unwrap(), RewardTier::GreatSuccess);
    assert_eq!(service.determine_reward_tier(20).unwrap(), RewardTier::CriticalSuccess);
}

#[test]
fn reward_tier_edges() {
    let service = ResourceRewardService::new();
    assert_eq!(service.determine_reward_tier(0).unwrap(), RewardTier::CriticalFailure);
    assert_eq!(service.determine_reward_tier(3).unwrap(), RewardTier::CriticalFailure);
    assert_eq!(service.determine_reward_tier(4).unwrap(), RewardTier::Failure);
    assert_eq!(service.determine_reward_tier(7).unwrap(), RewardTier::Failure);
    assert_eq!(service.determine_reward_tier(8).unwrap(), RewardTier::Neutral);
    assert_eq!(service.determine_reward_tier(12).unwrap(), RewardTier::Neutral);
    assert_eq!(service.determine_reward_tier(13).unwrap(), RewardTier::Success);
    assert_eq!(service.determine_reward_tier(16).unwrap(), RewardTier::Success);
    assert_eq!(service.determine_reward_tier(17).unwrap(), RewardTier::GreatSuccess);
    assert_eq!(service.determine_reward_tier(19).unwrap(), RewardTier::GreatSuccess);
    assert_eq!(service.determine_reward_tier(255).unwrap(), RewardTier::CriticalSuccess);
}

#[test]
fn base_tables_and_experience() {
    let service = ResourceRewardService::default();
    assert_eq!(
        service.base_reward_table(EventType::ResourceDiscovery),
        vec![(ResourceType::Metal, 8), (ResourceType::Energy, 5), (ResourceType::Technology, 2)]
    );
    assert!(service.base_reward_table(EventType::Hazard).is_empty());
    assert_eq!(service.base_experience(EventType::Combat), 15);
    assert_eq!(service.base_experience(EventType::BaseEvent), 5);
    assert_eq!(service.reward_stats(EventType::Trade), (StatType::Charisma, StatType::Intelligence));
    assert_eq!(service.reward_stats(EventType::Hazard), (StatType::Luck, StatType::Endurance));
}

#[test]
fn tiers_give_outcomes() {
    assert_eq!(RewardTier::Failure.outcome_type(), OutcomeType::Failure);
    assert_eq!(RewardTier::Neutral.outcome_type(), OutcomeType::Neutral);
    assert_eq!(RewardTier::GreatSuccess.outcome_type(), OutcomeType::Success);
    assert_eq!(RewardTier::CriticalSuccess.summary(), "Incredible success!");
}

#[test]
fn penalties_only_for_failed_dangerous_events() {
    let service = ResourceRewardService::new();
    assert!(service.penalty_applies(EventType::Combat, RewardTier::CriticalFailure));
    assert!(service.penalty_applies(EventType::Hazard, RewardTier::Failure));
    assert!(!service.penalty_applies(EventType::Combat, RewardTier::Neutral));
    assert!(!service.penalty_applies(EventType::Trade, RewardTier::CriticalFailure));
    let result = service.no_impact(RewardTier::Success);
    assert_eq!(result.experience, 1);
    assert_eq!(result.outcome.description, "No significant impact");
    assert_eq!(result.outcome.outcome_type, OutcomeType::Neutral);
}

#[test]
fn summaries_and_descriptions() {
    let service = ResourceRewardService::new();
    let empty = ResourceCollection::new();
    assert_eq!(service.format_resource_summary(&empty), "Nothing");
    let mut gained = ResourceCollection::new();
    gained.set_amount(ResourceType::Metal, 12);
    gained.set_amount(ResourceType::Technology, 3);
    assert_eq!(service.format_resource_summary(&gained), "12⚒ 3🔬");
    assert_eq!(
        service.generate_outcome_description(EventType::ResourceDiscovery, &RewardTier::Success, &gained, 14),
        "Resource Discovery Success! (+14 XP) Gained: 12⚒ 3🔬"
    );
    assert_eq!(
        service.generate_outcome_description(EventType::Hazard, &RewardTier::Neutral, &empty, 10),
        "Hazard Neutral outcome. (+10 XP)"
    );
    let mut lost = ResourceCollection::new();
    lost.set_amount(ResourceType::Metal, 15);
    let value = lost.total_value();
    assert_eq!(
        service.describe_penalty(EventType::Combat, RewardTier::CriticalFailure, &lost),
        format!("Catastrophic failure! Lost {} resources due to Combat", value)
    );
    assert_eq!(
        service.describe_penalty(EventType::Hazard, RewardTier::Failure, &lost),
        format!("Setback encountered. Lost {} resources from Hazard", value)
    );
    assert_eq!(service.describe_penalty(EventType::Hazard, RewardTier::Neutral, &lost), "No significant losses");
}
