//! Services that the game rules ask of the platform.
use crate::domain::value_objects::dice::{DiceModifier, DiceRoll, DiceType};
use crate::domain::value_objects::position::Position3D;
use crate::domain::value_objects::resources::ResourceType;
use crate::domain::value_objects::terrain::TerrainType;
use vstd::prelude::*;

verus! {

/// Whether a range from `min` to `max` is one that the generators can draw from:
/// empty or reversed ranges are, and so are ranges narrower than the whole `i32` span.
pub open spec fn drawable_range(min: i32, max: i32) -> bool {
    min >= max || (max as int) - (min as int) < i32::MAX
}

/// What a draw from `min..=max` may return: `min` itself when the range is empty or
/// reversed, else a value of the range.
pub open spec fn drawn_from(r: i32, min: i32, max: i32) -> bool {
    if min >= max { r == min } else { min <= r <= max }
}

/// A roll of `count` dice of `dice_type` made by a generator: the right number of
/// values, each a face of the die, without modifier.
pub open spec fn fair_roll(r: DiceRoll, dice_type: DiceType, count: u8) -> bool {
    &&& r.count == count
    &&& r.dice_type == dice_type
    &&& r.modifier == DiceModifier::none_spec()
    &&& r.values().len() == count
    &&& forall|i: int| 0 <= i < count ==> 1 <= #[trigger] r.values()[i] <= dice_type.faces()
}

/// Random number generation for the game rules.
pub trait RandomService {
    /// The 64-bit state the generator draws from.
    spec fn generator_state(&self) -> u64;

    /// Whether a generator that stood at `self` drew the position `r` from the given
    /// ranges, leaving its state at `after`.
    spec fn position_drawn(&self, after: u64, min_x: i32, max_x: i32, min_y: i32, max_y: i32, min_z: i32, max_z: i32, r: Position3D) -> bool;

    /// A value drawn from `min..=max` (or `min` when `min >= max`).
    fn random_range_i32(&mut self, min: i32, max: i32) -> (r: i32)
        requires
            drawable_range(min, max),
        ensures
            drawn_from(r, min, max),
    ;

    /// A position with each coordinate drawn from its range.
    fn random_position_3d(&mut self, min_x: i32, max_x: i32, min_y: i32, max_y: i32, min_z: i32, max_z: i32) -> (r: Position3D)
        requires
            drawable_range(min_x, max_x),
            drawable_range(min_y, max_y),
            drawable_range(min_z, max_z),
        ensures
            drawn_from(r.x, min_x, max_x),
            drawn_from(r.y, min_y, max_y),
            drawn_from(r.z, min_z, max_z),
            old(self).position_drawn(final(self).generator_state(), min_x, max_x, min_y, max_y, min_z, max_z, r),
    ;

    /// Roll `count` dice; from 1 to 10 dice give a fair roll, no dice an empty roll.
    fn roll_dice(&mut self, dice_type: DiceType, count: u8) -> (r: DiceRoll)
        ensures
            1 <= count <= 10 ==> fair_roll(r, dice_type, count),
            count == 0 ==> r.count == 0 && r.dice_type == dice_type && r.modifier == DiceModifier::none_spec()
                && r.values().len() == 0,
            r.values().len() <= 10,
    ;

    /// A random resource type.
    fn random_resource_type(&mut self) -> ResourceType;

    /// A random terrain type.
    fn random_terrain_type(&mut self) -> TerrainType;
}

/// Saving and loading of game data, provided by the platform.
pub trait PersistenceService {
    /// Save serialized game data.
    fn save_game(&self, data: &str) -> Result<(), String>;

    /// Load previously saved game data.
    fn load_game(&self) -> Result<String, String>;

    /// Whether saved data exists.
    fn has_save_data(&self) -> bool;

    /// Delete saved data.
    fn delete_save_data(&self) -> Result<(), String>;
}

/// Mouse buttons the input layer reports.
#[derive(Debug, Clone, Copy, PartialEq, Eq, Structural)]
pub enum MouseButton {
    Left,
    Right,
    Middle,
}

} // verus!
