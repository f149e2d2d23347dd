//! Random number generators: a linear congruential generator that behaves the same
//! on every platform, and one backed by `fastrand`.
pub mod generator;

pub use generator::RandomNumberGenerator;

use crate::clock::utc_now_millis;
use crate::domain::value_objects::nanos_of_millis;
use crate::domain::value_objects::dice::{DiceModifier, DiceRoll, DiceType};
use crate::domain::value_objects::position::Position3D;
use crate::domain::value_objects::resources::ResourceType;
use crate::domain::value_objects::terrain::TerrainType;
use crate::infrastructure::traits::{drawable_range, drawn_from, fair_roll, RandomService};
use vstd::prelude::*;

verus! {

/// One step of the linear congruential generator (constants from Numerical Recipes),
/// computed modulo 2^64.
pub open spec fn lcg_next(s: u64) -> u64 {
    (((s as int * 1664525) % 0x1_0000_0000_0000_0000 + 1013904223) % 0x1_0000_0000_0000_0000) as u64
}

/// A draw from `min..=max` with generator state `s`: `min` and the same state for an
/// empty or reversed range, else the value picked after one step, with the new state.
pub open spec fn range_draw(s: u64, min: i32, max: i32) -> (i32, u64) {
    if min >= max { (min, s) } else { (pick(min, max, lcg_next(s)), lcg_next(s)) }
}

/// A position drawn with generator state `s`, x first, then y, then z; with the state
/// after the draws.
pub open spec fn position_draw(s: u64, min_x: i32, max_x: i32, min_y: i32, max_y: i32, min_z: i32, max_z: i32) -> (Position3D, u64) {
    let (x, s1) = range_draw(s, min_x, max_x);
    let (y, s2) = range_draw(s1, min_y, max_y);
    let (z, s3) = range_draw(s2, min_z, max_z);
    (Position3D { x, y, z }, s3)
}

/// The value of `min..=max` that a raw draw `v` selects: `min + v % (max - min + 1)`,
/// or `min` for an empty or reversed range.
pub open spec fn pick(min: i32, max: i32, v: u64) -> i32 {
    if min >= max {
        min
    } else {
        (min + (v as int) % ((max as int) - (min as int) + 1)) as i32
    }
}

/// The seed of a clock-seeded generator: the clock in nanoseconds, kept modulo 2^64,
/// or 0 for a clock before the epoch.
pub open spec fn clock_seed(millis: i64) -> u64 {
    if millis < 0 { 0 } else { ((millis as int * 1_000_000) % 0x1_0000_0000_0000_0000) as u64 }
}

/// Advance the generator state and return the new state.
pub(crate) fn lcg_step(state: &mut u64) -> (r: u64)
    ensures
        r == lcg_next(*old(state)),
        *final(state) == r,
{
    *state = state.wrapping_mul(1664525).wrapping_add(1013904223);
    *state
}

/// Draw from `min..=max`; the state advances only for a non-empty range.
pub(crate) fn lcg_range(state: &mut u64, min: i32, max: i32) -> (r: i32)
    requires
        drawable_range(min, max),
    ensures
        min >= max ==> r == min && *final(state) == *old(state),
        min < max ==> *final(state) == lcg_next(*old(state)) && r == pick(min, max, *final(state)),
        drawn_from(r, min, max),
{
    if min >= max {
        return min;
    }
    let range = (max - min + 1) as u64;
    let val = lcg_step(state) % range;
    min + val as i32
}

/// The state after `n` steps of the generator.
pub open spec fn lcg_iter(s: u64, n: nat) -> u64
    decreases n,
{
    if n == 0 { s } else { lcg_next(lcg_iter(s, (n - 1) as nat)) }
}

/// The values of `n` dice with `faces` faces rolled from state `s`.
pub open spec fn lcg_draws(s: u64, faces: int, n: nat) -> Seq<u8>
    decreases n,
{
    if n == 0 {
        Seq::empty()
    } else {
        lcg_draws(s, faces, (n - 1) as nat).push(pick(1, faces as i32, lcg_iter(s, n)) as u8)
    }
}

/// Roll `count` dice with the generator state; rolls outside 1 to 10 dice fall back
/// to the default roll.
pub(crate) fn lcg_roll(state: &mut u64, dice_type: DiceType, count: u8) -> (r: DiceRoll)
    ensures
        1 <= count <= 10 ==> fair_roll(r, dice_type, count),
        1 <= count <= 10 ==> r.values() == lcg_draws(*old(state), dice_type.faces(), count as nat),
        *final(state) == lcg_iter(*old(state), count as nat),
        count == 0 ==> r.count == 0 && r.dice_type == dice_type && r.modifier == DiceModifier::none_spec()
            && r.values().len() == 0,
        count > 10 ==> r.count == 1 && r.dice_type == DiceType::D6 && r.modifier == DiceModifier::none_spec()
            && r.values().len() == 0,
{
    if count == 0 {
        return DiceRoll::rolled(0, dice_type, DiceModifier::none(), Vec::new());
    }
    let ghost s0 = *state;
    let sides = dice_type.sides();
    let mut rolls: Vec<u8> = Vec::new();
    let mut i: u8 = 0;
    while i < count
        invariant
            i <= count,
            sides as int == dice_type.faces(),
            rolls@.len() == i,
            rolls@ == lcg_draws(s0, dice_type.faces(), i as nat),
            *state == lcg_iter(s0, i as nat),
            forall|k: int| 0 <= k < i ==> 1 <= #[trigger] rolls@[k] <= dice_type.faces(),
        decreases count - i,
    {
        let roll = lcg_range(state, 1, sides as i32);
        rolls.push(roll as u8);
        i = i + 1;
        assert(rolls@ =~= lcg_draws(s0, dice_type.faces(), i as nat));
    }
    match DiceRoll::from_rolls(dice_type, rolls) {
        Ok(roll) => roll,
        Err(_) => DiceRoll::default(),
    }
}

/// The terrain type at a position of a table of seven natural and built terrains.
pub open spec fn common_terrain(i: int) -> TerrainType {
    if i == 0 { TerrainType::Plains }
    else if i == 1 { TerrainType::Forest }
    else if i == 2 { TerrainType::Mountains }
    else if i == 3 { TerrainType::Desert }
    else if i == 4 { TerrainType::Ocean }
    else if i == 5 { TerrainType::Swamp }
    else { TerrainType::Constructed }
}

pub(crate) fn common_terrain_at(i: i32) -> (r: TerrainType)
    requires
        0 <= i < 7,
    ensures
        r == common_terrain(i as int),
{
    if i == 0 { TerrainType::Plains }
    else if i == 1 { TerrainType::Forest }
    else if i == 2 { TerrainType::Mountains }
    else if i == 3 { TerrainType::Desert }
    else if i == 4 { TerrainType::Ocean }
    else if i == 5 { TerrainType::Swamp }
    else { TerrainType::Constructed }
}

/// A deterministic generator whose state a web build can hold: the same seed gives
/// the same sequence on every platform.
#[derive(Debug)]
pub struct WebRandomGenerator {
    state: u64,
}

impl Clone for WebRandomGenerator {
    fn clone(&self) -> (r: Self)
        ensures
            r.seed_state() == self.seed_state(),
    {
        WebRandomGenerator { state: self.state }
    }
}

impl WebRandomGenerator {
    /// The current state of the generator.
    pub closed spec fn seed_state(&self) -> u64 {
        self.state
    }

    /// A generator seeded with `seed`.
    pub fn new(seed: u64) -> (r: Self)
        ensures
            r.seed_state() == seed,
    {
        WebRandomGenerator { state: seed }
    }

    /// A generator with the fixed seed 1234567890.
    pub fn default_seed() -> (r: Self)
        ensures
            r.seed_state() == 1234567890,
    {
        Self::new(1234567890)
    }

    /// A generator seeded from the clock: the current time in nanoseconds (from the
    /// millisecond clock), or 0 for a clock before the epoch. Which time it is, no
    /// contract states.
    pub fn time_seed() -> (r: Self)
        ensures
            exists|millis: u64| r.seed_state() == #[trigger] nanos_of_millis(millis),
    {
        let millis = utc_now_millis();
        let m: u64 = if millis < 0 { 0 } else { millis as u64 };
        let seed: u64 = m.wrapping_mul(1_000_000);
        assert(seed == nanos_of_millis(m));
        Self::new(seed)
    }

    /// Advance the generator and return its new raw 64-bit state.
    pub fn next_u64(&mut self) -> (r: u64)
        ensures
            r == lcg_next(old(self).seed_state()),
            final(self).seed_state() == r,
    {
        lcg_step(&mut self.state)
    }
}

impl RandomService for WebRandomGenerator {
    open spec fn generator_state(&self) -> u64 {
        self.seed_state()
    }

    open spec fn position_drawn(&self, after: u64, min_x: i32, max_x: i32, min_y: i32, max_y: i32, min_z: i32, max_z: i32, r: Position3D) -> bool {
        (r, after) == position_draw(self.seed_state(), min_x, max_x, min_y, max_y, min_z, max_z)
    }

    fn random_range_i32(&mut self, min: i32, max: i32) -> (r: i32)
        ensures
            min >= max ==> final(self).seed_state() == old(self).seed_state(),
            min < max ==> final(self).seed_state() == lcg_next(old(self).seed_state())
                && r == pick(min, max, final(self).seed_state()),
    {
        lcg_range(&mut self.state, min, max)
    }

    fn random_position_3d(&mut self, min_x: i32, max_x: i32, min_y: i32, max_y: i32, min_z: i32, max_z: i32) -> (r: Position3D)
        ensures
            (r, final(self).seed_state()) == position_draw(old(self).seed_state(), min_x, max_x, min_y, max_y, min_z, max_z),
    {
        let x = self.random_range_i32(min_x, max_x);
        let y = self.random_range_i32(min_y, max_y);
        let z = self.random_range_i32(min_z, max_z);
        Position3D::new(x, y, z)
    }

    fn roll_dice(&mut self, dice_type: DiceType, count: u8) -> (r: DiceRoll)
        ensures
            count > 10 ==> r.count == 1 && r.dice_type == DiceType::D6 && r.values().len() == 0,
            1 <= count <= 10 ==> r.values() == lcg_draws(old(self).seed_state(), dice_type.faces(), count as nat),
            final(self).seed_state() == lcg_iter(old(self).seed_state(), count as nat),
    {
        lcg_roll(&mut self.state, dice_type, count)
    }

    fn random_resource_type(&mut self) -> (r: ResourceType)
        ensures
            final(self).seed_state() == lcg_next(old(self).seed_state()),
            r.index() == pick(0, 7, final(self).seed_state()),
    {
        let index = self.random_range_i32(0, 7);
        ResourceType::from_index(index as usize)
    }

    fn random_terrain_type(&mut self) -> (r: TerrainType)
        ensures
            final(self).seed_state() == lcg_next(old(self).seed_state()),
            r == common_terrain(pick(0, 6, final(self).seed_state()) as int),
    {
        let index = self.random_range_i32(0, 6);
        common_terrain_at(index)
    }
}

impl Default for WebRandomGenerator {
    fn default() -> (r: Self) {
        Self::time_seed()
    }
}

/// What `fastrand` draws from `min..=max` with a generator whose state is `state`:
/// the value and the generator's state after the draw. `fastrand`'s generator is its
/// 64-bit state alone, and this draw is the same on every machine.
pub uninterp spec fn fastrand_i32_draw(state: u64, min: i32, max: i32) -> (i32, u64);

/// What `fastrand` draws from `min..=max` with a generator whose state is `state`:
/// the value and the generator's state after the draw.
pub uninterp spec fn fastrand_u8_draw(state: u64, min: u8, max: u8) -> (u8, u64);

/// `fastrand::Rng::i32` on `min..=max`, made by a generator built with
/// `Rng::with_seed(state)`, the state read back with `get_seed`. The value lies in
/// the range (the call panics on an empty range, which `requires` leaves out), and
/// value and state are the draw named by `fastrand_i32_draw`.
#[verifier::external_body]
fn seeded_i32(state: u64, min: i32, max: i32) -> (r: (i32, u64))
    requires
        min <= max,
    ensures
        min <= r.0 <= max,
        r == fastrand_i32_draw(state, min, max),
{
    let mut rng = fastrand::Rng::with_seed(state);
    let value = rng.i32(min..=max);
    (value, rng.get_seed())
}

/// `fastrand::Rng::u8` on `min..=max`, made as for `seeded_i32`. The value lies in
/// the range (the call panics on an empty range, which `requires` leaves out), and
/// value and state are the draw named by `fastrand_u8_draw`.
#[verifier::external_body]
fn seeded_u8(state: u64, min: u8, max: u8) -> (r: (u8, u64))
    requires
        min <= max,
    ensures
        min <= r.0 <= max,
        r == fastrand_u8_draw(state, min, max),
{
    let mut rng = fastrand::Rng::with_seed(state);
    let value = rng.u8(min..=max);
    (value, rng.get_seed())
}

/// `fastrand::Rng::usize` on `0..n`, made as for `seeded_i32`: a value below `n` (the
/// call panics when `n` is 0, which `requires` leaves out). Which value and state
/// come is not stated: `fastrand` draws a `usize` differently on 32- and 64-bit
/// machines.
#[verifier::external_body]
fn seeded_usize_below(state: u64, n: usize) -> (r: (usize, u64))
    requires
        0 < n,
    ensures
        r.0 < n,
{
    let mut rng = fastrand::Rng::with_seed(state);
    let value = rng.usize(0..n);
    (value, rng.get_seed())
}

/// A seed from `fastrand::Rng::new()`, which seeds a generator from the thread's
/// global generator, read with `get_seed`. Nothing is stated of it: it comes from
/// the system's entropy.
#[verifier::external_body]
fn entropy_seed() -> (r: u64) {
    fastrand::Rng::new().get_seed()
}

/// A native generator's draw from `min..=max` at state `s`: `min` itself, the state
/// unchanged, for an empty or reversed range; else `fastrand`'s draw.
pub open spec fn native_range_draw(s: u64, min: i32, max: i32) -> (i32, u64) {
    if min >= max { (min, s) } else { fastrand_i32_draw(s, min, max) }
}

/// A native generator's position drawn at state `s`, x first, then y, then z; with
/// the state after the draws.
pub open spec fn native_position_draw(s: u64, min_x: i32, max_x: i32, min_y: i32, max_y: i32, min_z: i32, max_z: i32) -> (Position3D, u64) {
    let (x, s1) = native_range_draw(s, min_x, max_x);
    let (y, s2) = native_range_draw(s1, min_y, max_y);
    let (z, s3) = native_range_draw(s2, min_z, max_z);
    (Position3D { x, y, z }, s3)
}

/// `n` faces of a die with `faces` sides rolled by a native generator at state `s`,
/// in order; with the state after the rolls.
pub open spec fn native_rolls(s: u64, faces: u8, n: nat) -> (Seq<u8>, u64)
    decreases n,
{
    if n == 0 {
        (Seq::empty(), s)
    } else {
        let (vs, s1) = native_rolls(s, faces, (n - 1) as nat);
        let (v, s2) = fastrand_u8_draw(s1, 1, faces);
        (vs.push(v), s2)
    }
}

/// Every terrain type, in the order a native generator draws them from.
pub open spec fn any_terrain(i: int) -> TerrainType {
    if i == 0 { TerrainType::Plains }
    else if i == 1 { TerrainType::Forest }
    else if i == 2 { TerrainType::Mountains }
    else if i == 3 { TerrainType::Desert }
    else if i == 4 { TerrainType::Tundra }
    else if i == 5 { TerrainType::Volcanic }
    else if i == 6 { TerrainType::Anomaly }
    else if i == 7 { TerrainType::Ocean }
    else if i == 8 { TerrainType::Swamp }
    else if i == 9 { TerrainType::Constructed }
    else if i == 10 { TerrainType::Cave }
    else { TerrainType::Crystal }
}

fn any_terrain_at(i: i32) -> (r: TerrainType)
    requires
        0 <= i < 12,
    ensures
        r == any_terrain(i as int),
{
    if i == 0 { TerrainType::Plains }
    else if i == 1 { TerrainType::Forest }
    else if i == 2 { TerrainType::Mountains }
    else if i == 3 { TerrainType::Desert }
    else if i == 4 { TerrainType::Tundra }
    else if i == 5 { TerrainType::Volcanic }
    else if i == 6 { TerrainType::Anomaly }
    else if i == 7 { TerrainType::Ocean }
    else if i == 8 { TerrainType::Swamp }
    else if i == 9 { TerrainType::Constructed }
    else if i == 10 { TerrainType::Cave }
    else { TerrainType::Crystal }
}

/// A generator backed by `fastrand`, for native builds: the 64-bit state of a
/// `fastrand` generator.
#[derive(Debug)]
pub struct NativeRandomGenerator {
    state: u64,
}

impl Clone for NativeRandomGenerator {
    /// A generator that continues from the same state.
    fn clone(&self) -> (r: Self)
        ensures
            r.seed_state() == self.seed_state(),
    {
        NativeRandomGenerator { state: self.state }
    }
}

impl NativeRandomGenerator {
    /// The current state of the generator.
    pub closed spec fn seed_state(&self) -> u64 {
        self.state
    }

    /// A generator seeded with `seed`.
    pub fn new(seed: u64) -> (r: Self)
        ensures
            r.seed_state() == seed,
    {
        NativeRandomGenerator { state: seed }
    }

    /// A generator seeded by the system.
    pub fn system_seed() -> (r: Self) {
        NativeRandomGenerator { state: entropy_seed() }
    }
}

impl RandomService for NativeRandomGenerator {
    open spec fn generator_state(&self) -> u64 {
        self.seed_state()
    }

    open spec fn position_drawn(&self, after: u64, min_x: i32, max_x: i32, min_y: i32, max_y: i32, min_z: i32, max_z: i32, r: Position3D) -> bool {
        (r, after) == native_position_draw(self.seed_state(), min_x, max_x, min_y, max_y, min_z, max_z)
    }

    fn random_range_i32(&mut self, min: i32, max: i32) -> (r: i32)
        ensures
            (r, final(self).seed_state()) == native_range_draw(old(self).seed_state(), min, max),
    {
        if min >= max {
            return min;
        }
        let (value, next) = seeded_i32(self.state, min, max);
        self.state = next;
        value
    }

    fn random_position_3d(&mut self, min_x: i32, max_x: i32, min_y: i32, max_y: i32, min_z: i32, max_z: i32) -> (r: Position3D) {
        let x = self.random_range_i32(min_x, max_x);
        let y = self.random_range_i32(min_y, max_y);
        let z = self.random_range_i32(min_z, max_z);
        Position3D::new(x, y, z)
    }

    fn roll_dice(&mut self, dice_type: DiceType, count: u8) -> (r: DiceRoll)
        ensures
            1 <= count <= 10 ==> r.values() == native_rolls(old(self).seed_state(), dice_type.faces() as u8, count as nat).0,
            count > 10 ==> r.count == 1 && r.dice_type == DiceType::D6 && r.values().len() == 0,
            final(self).seed_state() == native_rolls(old(self).seed_state(), dice_type.faces() as u8, count as nat).1,
    {
        if count == 0 {
            return DiceRoll::rolled(0, dice_type, DiceModifier::none(), Vec::new());
        }
        let ghost s0 = self.state;
        let sides = dice_type.sides();
        let mut rolls: Vec<u8> = Vec::new();
        let mut i: u8 = 0;
        while i < count
            invariant
                i <= count,
                sides as int == dice_type.faces(),
                rolls@.len() == i,
                forall|k: int| 0 <= k < i ==> 1 <= #[trigger] rolls@[k] <= dice_type.faces(),
                (rolls@, self.state) == native_rolls(s0, sides, i as nat),
            decreases count - i,
        {
            let (roll, next) = seeded_u8(self.state, 1, sides);
            self.state = next;
            rolls.push(roll);
            i = i + 1;
        }
        match DiceRoll::from_rolls(dice_type, rolls) {
            Ok(roll) => roll,
            Err(_) => DiceRoll::default(),
        }
    }

    fn random_resource_type(&mut self) -> (r: ResourceType) {
        let (index, next) = seeded_usize_below(self.state, 8);
        self.state = next;
        ResourceType::from_index(index)
    }

    fn random_terrain_type(&mut self) -> (r: TerrainType)
        ensures
            (r == any_terrain(native_range_draw(old(self).seed_state(), 0, 11).0 as int)),
            final(self).seed_state() == native_range_draw(old(self).seed_state(), 0, 11).1,
    {
        let index = self.random_range_i32(0, 11);
        any_terrain_at(index)
    }
}

impl Default for NativeRandomGenerator {
    fn default() -> (r: Self) {
        Self::system_seed()
    }
}

/// Drawing in two runs is drawing at once: the state after `m` steps and then `n` more
/// is the state after `m + n` steps, so a generator's sequence depends on its seed
/// alone and not on how the draws are grouped.
pub proof fn generator_steps_compose(s: u64, m: nat, n: nat)
    ensures
        lcg_iter(lcg_iter(s, m), n) == lcg_iter(s, m + n),
    decreases n,
{
    if n > 0 {
        generator_steps_compose(s, m, (n - 1) as nat);
        assert((m + n - 1) as nat == (m + (n - 1) as nat) as nat);
    }
}

} // verus!
