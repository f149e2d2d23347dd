use space_looter::domain::value_objects::dice::{DiceModifier, DiceResult, DiceRoll, DiceType, SuccessLevel};
use space_looter::domain::DomainError;

#[test]
fn dice_type_properties() {
    assert_eq!(DiceType::D6.max_value(), 6);
    assert_eq!(DiceType::D20.max_value(), 20);
    assert_eq!(DiceType::D6.min_value(), 1);
    assert!(DiceType::D6.is_valid_value(3));
    assert!(!DiceType::D6.is_valid_value(7));
    assert!(!DiceType::D6.is_valid_value(0));
    assert_eq!(DiceType::D100.sides(), 100);
}

#[test]
fn dice_roll_creation() {
    let modifier = DiceModifier::none();
    let roll = DiceRoll::new(2, DiceType::D6, modifier).unwrap();
    assert_eq!(roll.count, 2);
    assert_eq!(roll.dice_type, DiceType::D6);
}

#[test]
fn dice_roll_invalid_count() {
    let modifier = DiceModifier::none();
    assert!(DiceRoll::new(0, DiceType::D6, modifier.clone()).is_err());
    assert!(DiceRoll::new(11, DiceType::D6, modifier).is_err());
}

#[test]
fn dice_roll_simple_creation() {
    let roll = DiceRoll::simple(1, DiceType::D20).unwrap();
    assert_eq!(roll.count, 1);
    assert_eq!(roll.dice_type, DiceType::D20);
    assert!(roll.modifier.is_zero());
}

#[test]
fn dice_roll_results() {
    let roll = DiceRoll::simple(1, DiceType::D6).unwrap();
    assert_eq!(roll.min_result(), 1);
    assert_eq!(roll.max_result(), 6);
    assert_eq!(roll.total(), 3);
    let roll = DiceRoll::new(3, DiceType::D8, DiceModifier::from_stat(-2).unwrap()).unwrap();
    assert_eq!(roll.min_result(), 1);
    assert_eq!(roll.max_result(), 22);
    assert_eq!(roll.total(), 11);
}

#[test]
fn dice_roll_from_rolls() {
    let roll = DiceRoll::from_rolls(DiceType::D6, vec![2, 5]).unwrap();
    assert_eq!(roll.count, 2);
    assert_eq!(roll.rolls(), vec![2, 5]);
    assert_eq!(roll.total(), 7);
    assert!(DiceRoll::from_rolls(DiceType::D6, vec![]).is_err());
    assert!(DiceRoll::from_rolls(DiceType::D6, vec![1; 11]).is_err());
}

#[test]
fn dice_roll_critical_values() {
    assert_eq!(DiceRoll::single(DiceType::D20).unwrap().critical_success_value(), Some(20));
    assert_eq!(DiceRoll::single(DiceType::D100).unwrap().critical_success_value(), Some(100));
    assert_eq!(DiceRoll::single(DiceType::D6).unwrap().critical_success_value(), None);
}

#[test]
fn dice_modifier_creation() {
    let modifier = DiceModifier::new(2, 1, -1, 0).unwrap();
    assert_eq!(modifier.total_modifier(), 2);
    assert!(!modifier.is_zero());
}

#[test]
fn dice_modifier_limits() {
    assert!(DiceModifier::new(11, 0, 0, 0).is_err());
    assert!(DiceModifier::new(10, 10, 5, 0).is_err());
}

#[test]
fn dice_modifier_errors_and_sums() {
    match DiceModifier::new(-11, 0, 0, 0) {
        Err(DomainError::DiceModifierError(msg)) => assert_eq!(msg, "Individual modifiers must be between -10 and +10"),
        _ => panic!("expected a modifier error"),
    }
    match DiceModifier::new(10, 10, 1, 0) {
        Err(DomainError::DiceModifierError(msg)) => assert_eq!(msg, "Total modifier must be between -20 and +20"),
        _ => panic!("expected a modifier error"),
    }
    let sum = DiceModifier::situational(3).unwrap().add(&DiceModifier::luck(-1).unwrap()).unwrap();
    assert_eq!(sum.total_modifier(), 2);
    assert!(DiceModifier::equipment(9).unwrap().add(&DiceModifier::equipment(2).unwrap()).is_err());
}

#[test]
fn dice_result_creation() {
    let roll = DiceRoll::simple(2, DiceType::D6).unwrap();
    let result = DiceResult::new(roll, vec![3, 5], false, false).unwrap();
    assert_eq!(result.total_raw, 8);
    assert_eq!(result.final_result, 8);
}

#[test]
fn dice_result_invalid_values() {
    let roll = DiceRoll::simple(2, DiceType::D6).unwrap();
    assert!(DiceResult::new(roll.clone(), vec![3], false, false).is_err());
    match DiceResult::new(roll, vec![3, 7], false, false) {
        Err(DomainError::InvalidDiceRoll(msg)) => assert_eq!(msg, "Invalid die result 7 for d6"),
        _ => panic!("expected an invalid roll"),
    }
}

#[test]
fn dice_result_with_modifier() {
    let modifier = DiceModifier::from_stat(2).unwrap();
    let roll = DiceRoll::new(1, DiceType::D20, modifier).unwrap();
    let result = DiceResult::new(roll, vec![15], false, false).unwrap();
    assert_eq!(result.total_raw, 15);
    assert_eq!(result.final_result, 17);
}

#[test]
fn success_level_classification() {
    let roll = DiceRoll::simple(1, DiceType::D20).unwrap();
    let result = DiceResult::new(roll, vec![15], false, false).unwrap();

    let level = result.success_level(10);
    assert_eq!(level, SuccessLevel::GoodSuccess);
    assert!(level.is_success());
    assert!(!level.is_critical());
}

#[test]
fn success_levels_follow_the_margin() {
    let roll = DiceRoll::simple(1, DiceType::D20).unwrap();
    let result = DiceResult::new(roll, vec![15], false, false).unwrap();
    assert_eq!(result.success_level(5), SuccessLevel::ExceptionalSuccess);
    assert_eq!(result.success_level(15), SuccessLevel::Success);
    assert_eq!(result.success_level(18), SuccessLevel::Failure);
    assert_eq!(result.success_level(20), SuccessLevel::Failure);
    assert_eq!(result.success_level(21), SuccessLevel::CriticalFailure);
    assert_eq!(result.margin(18), -3);
}

#[test]
fn critical_success_detection() {
    let roll = DiceRoll::simple(1, DiceType::D20).unwrap();
    let result = DiceResult::new(roll, vec![20], true, false).unwrap();

    let level = result.success_level(15);
    assert_eq!(level, SuccessLevel::CriticalSuccess);
    assert!(level.is_success());
    assert!(level.is_critical());
}

#[test]
fn dice_roll_display() {
    let roll = DiceRoll::simple(1, DiceType::D6).unwrap();
    assert_eq!(roll.to_string(), "d6");

    let modifier = DiceModifier::from_stat(3).unwrap();
    let roll_with_modifier = DiceRoll::new(1, DiceType::D20, modifier).unwrap();
    assert_eq!(roll_with_modifier.to_string(), "d20+3");

    let multiple_dice = DiceRoll::simple(3, DiceType::D6).unwrap();
    assert_eq!(multiple_dice.to_string(), "3d6");

    let negative = DiceRoll::new(2, DiceType::D8, DiceModifier::from_stat(-1).unwrap()).unwrap();
    assert_eq!(negative.to_string(), "2d8-1");
}

#[test]
fn dice_result_display() {
    let roll = DiceRoll::simple(1, DiceType::D6).unwrap();
    let result = DiceResult::new(roll, vec![4], false, false).unwrap();
    assert_eq!(result.to_string(), "4");

    let modifier = DiceModifier::from_stat(2).unwrap();
    let roll_with_modifier = DiceRoll::new(1, DiceType::D20, modifier).unwrap();
    let result_with_modifier = DiceResult::new(roll_with_modifier, vec![15], false, false).unwrap();
    assert_eq!(result_with_modifier.to_string(), "15+2=17");

    let two = DiceResult::new(DiceRoll::simple(2, DiceType::D6).unwrap(), vec![3, 5], false, false).unwrap();
    assert_eq!(two.to_string(), "[3, 5]=8");
}

#[test]
fn dice_result_description_text() {
    let roll = DiceRoll::simple(1, DiceType::D20).unwrap();
    let result = DiceResult::new(roll, vec![15], false, false).unwrap();
    assert_eq!(result.description(Some(10)), "15 (Good Success)");
    assert_eq!(result.description(None), "15");
}
