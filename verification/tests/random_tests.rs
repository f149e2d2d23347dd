use space_looter::domain::value_objects::dice::DiceType;
use space_looter::domain::value_objects::resources::ResourceType;
use space_looter::domain::value_objects::terrain::TerrainType;
use space_looter::domain::WorldBoundaries;
use space_looter::infrastructure::random::generator::{EncounterType, RandomNumberGenerator};
use space_looter::infrastructure::random::{NativeRandomGenerator, WebRandomGenerator};
use space_looter::infrastructure::traits::RandomService;

#[test]
fn generator_random_range_i32_generation() {
    let mut generator = RandomNumberGenerator::new();
    for _ in 0..100 {
        let val = generator.random_range_i32(5, 15);
        assert!(val >= 5 && val <= 15);
    }
}

#[test]
fn generator_random_position_3d_generation() {
    let mut generator = RandomNumberGenerator::new();
    let pos = generator.random_position_3d(-10, 10, -5, 5, 0, 3);
    assert!(pos.x >= -10 && pos.x <= 10);
    assert!(pos.y >= -5 && pos.y <= 5);
    assert!(pos.z >= 0 && pos.z <= 3);
}

#[test]
fn generator_dice_roll_generation() {
    let mut generator = RandomNumberGenerator::new();
    let roll = generator.roll_dice(DiceType::D6, 2);
    assert_eq!(roll.dice_type, DiceType::D6);
    assert_eq!(roll.rolls().len(), 2);
    for roll_val in &roll.rolls() {
        assert!(*roll_val >= 1 && *roll_val <= 6);
    }
}

#[test]
fn advantage_disadvantage_rolls() {
    let mut generator = RandomNumberGenerator::new();
    let _advantage_roll = generator.roll_with_advantage(DiceType::D20);
    let _disadvantage_roll = generator.roll_with_disadvantage(DiceType::D20);
}

#[test]
fn choose_from_slice() {
    let mut generator = RandomNumberGenerator::new();
    let items = vec!["apple", "banana", "cherry"];
    let chosen = generator.choose_from(&items);
    assert!(chosen.is_some());
    assert!(items.contains(&chosen.unwrap()));
    let empty: Vec<&str> = vec![];
    assert!(generator.choose_from(&empty).is_none());
}

#[test]
fn shuffle_vector() {
    let mut generator = RandomNumberGenerator::new();
    let mut items = vec![1, 2, 3, 4, 5];
    let original = items.clone();
    generator.shuffle(&mut items);
    assert_eq!(items.len(), original.len());
    for item in &original {
        assert!(items.contains(item));
    }
}

#[test]
fn resource_type_generation() {
    let mut generator = RandomNumberGenerator::new();
    let resource_type = generator.random_resource_type();
    match resource_type {
        ResourceType::Metal | ResourceType::Energy | ResourceType::Food | ResourceType::Technology => {}
        _ => panic!("Unexpected resource type"),
    }
}

#[test]
fn terrain_type_generation() {
    let mut generator = RandomNumberGenerator::new();
    let terrain_type = generator.random_terrain_type();
    match terrain_type {
        TerrainType::Plains
        | TerrainType::Forest
        | TerrainType::Mountains
        | TerrainType::Desert
        | TerrainType::Tundra
        | TerrainType::Volcanic
        | TerrainType::Anomaly
        | TerrainType::Ocean
        | TerrainType::Swamp
        | TerrainType::Constructed
        | TerrainType::Cave
        | TerrainType::Crystal => {}
    }
}

#[test]
fn generator_edge_cases_without_floats() {
    let mut generator = RandomNumberGenerator::new();
    assert_eq!(generator.random_range_i32(5, 5), 5);
    assert_eq!(generator.random_range_i32(10, 5), 10);
    let roll = generator.roll_dice(DiceType::D6, 0);
    assert_eq!(roll.rolls().len(), 0);
    assert_eq!(roll.total(), 0);
}

#[test]
fn seeded_generators_repeat_their_sequence() {
    let mut a = RandomNumberGenerator::with_seed(12345);
    let mut b = RandomNumberGenerator::with_seed(12345);
    for _ in 0..20 {
        assert_eq!(a.random_range_i32(-100, 100), b.random_range_i32(-100, 100));
    }
    // One step of the generator from 12345: 12345 * 1664525 + 1013904223.
    let mut c = RandomNumberGenerator::with_seed(12345);
    assert_eq!(c.next_u64(), 12345u64 * 1664525 + 1013904223);
    // The draw 0..=9 is that state modulo 10.
    let mut d = RandomNumberGenerator::with_seed(12345);
    let expected = ((12345u64 * 1664525 + 1013904223) % 10) as i32;
    assert_eq!(d.random_range_i32(0, 9), expected);
}

#[test]
fn world_and_nearby_positions_stay_in_range() {
    let mut generator = RandomNumberGenerator::with_seed(7);
    let boundaries = WorldBoundaries::standard();
    for _ in 0..50 {
        assert!(boundaries.contains(&generator.random_world_position(&boundaries)));
    }
    let center = space_looter::domain::value_objects::position::Position3D::new(10, -10, 0);
    for _ in 0..50 {
        let p = generator.random_position_around(center, 3);
        assert!(p.x >= 7 && p.x <= 13 && p.y >= -13 && p.y <= -7);
        assert!(p.z >= 0 && p.z <= 2);
    }
}

#[test]
fn advantage_keeps_the_better_die() {
    let mut a = RandomNumberGenerator::with_seed(99);
    let first = a.roll_dice(DiceType::D20, 1).rolls()[0];
    let second = a.roll_dice(DiceType::D20, 1).rolls()[0];
    let mut b = RandomNumberGenerator::with_seed(99);
    assert_eq!(b.roll_with_advantage(DiceType::D20).rolls()[0], first.max(second));
    let mut c = RandomNumberGenerator::with_seed(99);
    assert_eq!(c.roll_with_disadvantage(DiceType::D20).rolls()[0], first.min(second));
}

#[test]
fn encounter_types_are_distinct() {
    assert_ne!(EncounterType::ResourceNode, EncounterType::Danger);
}

#[test]
fn mod_random_range_i32_generation() {
    let mut generator = WebRandomGenerator::default_seed();
    let val = generator.random_range_i32(5, 15);
    assert!(val >= 5 && val <= 15);
}

#[test]
fn mod_random_position_3d_generation() {
    let mut generator = WebRandomGenerator::default_seed();
    let pos = generator.random_position_3d(-10, 10, -5, 5, 0, 3);
    assert!(pos.x >= -10 && pos.x <= 10);
    assert!(pos.y >= -5 && pos.y <= 5);
    assert!(pos.z >= 0 && pos.z <= 3);
}

#[test]
fn mod_dice_roll_generation() {
    let mut generator = WebRandomGenerator::default_seed();
    let roll = generator.roll_dice(DiceType::D6, 2);
    assert_eq!(roll.dice_type, DiceType::D6);
    assert_eq!(roll.rolls().len(), 2);
    for roll_val in &roll.rolls() {
        assert!(*roll_val >= 1 && *roll_val <= 6);
    }
}

#[test]
fn random_resource_type_generation() {
    let mut generator = WebRandomGenerator::default_seed();
    let resource = generator.random_resource_type();
    match resource {
        ResourceType::Metal
        | ResourceType::Energy
        | ResourceType::Food
        | ResourceType::Technology
        | ResourceType::ExoticMatter
        | ResourceType::Alloys
        | ResourceType::Data
        | ResourceType::Organics => {}
    }
}

#[test]
fn random_terrain_type_generation() {
    let mut generator = WebRandomGenerator::default_seed();
    let terrain = generator.random_terrain_type();
    match terrain {
        TerrainType::Plains
        | TerrainType::Forest
        | TerrainType::Mountains
        | TerrainType::Desert
        | TerrainType::Tundra
        | TerrainType::Volcanic
        | TerrainType::Anomaly
        | TerrainType::Ocean
        | TerrainType::Swamp
        | TerrainType::Constructed
        | TerrainType::Cave
        | TerrainType::Crystal => {}
    }
}

#[test]
fn edge_case_random_range_i32() {
    let mut generator = WebRandomGenerator::default_seed();
    let val = generator.random_range_i32(5, 5);
    assert_eq!(val, 5);
    let val = generator.random_range_i32(10, 5);
    assert_eq!(val, 10);
}

#[test]
fn zero_dice_count() {
    let mut generator = WebRandomGenerator::default_seed();
    let roll = generator.roll_dice(DiceType::D20, 0);
    assert_eq!(roll.rolls().len(), 0);
    assert_eq!(roll.total(), 0);
}

#[test]
fn web_generator_follows_the_same_sequence_as_the_game_generator() {
    let mut web = WebRandomGenerator::new(1234567890);
    let mut game = RandomNumberGenerator::with_seed(1234567890);
    for _ in 0..10 {
        assert_eq!(web.random_range_i32(1, 20), game.random_range_i32(1, 20));
    }
}

#[test]
fn native_generator_rolls_fair_dice() {
    let mut generator = NativeRandomGenerator::new(42);
    let roll = generator.roll_dice(DiceType::D20, 1);
    assert_eq!(roll.rolls().len(), 1);
    assert!(roll.rolls()[0] >= 1 && roll.rolls()[0] <= 20);
    for _ in 0..50 {
        let v = generator.random_range_i32(-3, 3);
        assert!(v >= -3 && v <= 3);
    }
    assert_eq!(generator.random_range_i32(4, 4), 4);
    let empty = generator.roll_dice(DiceType::D6, 0);
    assert_eq!(empty.rolls().len(), 0);
}

#[test]
fn native_generators_follow_their_seed() {
    let mut a = NativeRandomGenerator::new(2024);
    let mut b = NativeRandomGenerator::new(2024);
    for _ in 0..5 {
        assert_eq!(a.random_range_i32(-50, 50), b.random_range_i32(-50, 50));
    }
    let mut c = a.clone();
    assert_eq!(a.random_position_3d(0, 9, 0, 9, 0, 3), c.random_position_3d(0, 9, 0, 9, 0, 3));
    assert_eq!(a.roll_dice(DiceType::D6, 4).rolls(), c.roll_dice(DiceType::D6, 4).rolls());
    assert_eq!(a.random_terrain_type(), c.random_terrain_type());
    assert_eq!(a.random_range_i32(5, 5), 5);
}
