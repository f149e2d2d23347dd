//! The game's seeded random number generator.
use crate::clock::utc_now_millis;
use crate::domain::value_objects::nanos_of_millis;
use crate::domain::value_objects::dice::{sum_values, DiceModifier, DiceRoll, DiceType};
use crate::domain::value_objects::position::Position3D;
use crate::domain::value_objects::resources::ResourceType;
use crate::domain::value_objects::terrain::TerrainType;
use crate::domain::WorldBoundaries;
use crate::infrastructure::random::{position_draw, common_terrain, common_terrain_at, lcg_draws, lcg_iter, lcg_next, lcg_range, lcg_roll, lcg_step, pick};
use crate::infrastructure::traits::{drawable_range, drawn_from, fair_roll, RandomService};
use vstd::prelude::*;

verus! {

/// Random number generator for dice, positions and encounters, seeded once and then
/// deterministic.
#[derive(Debug)]
pub struct RandomNumberGenerator {
    state: u64,
}

/// Whether every axis of the boundaries can be drawn from.
pub open spec fn drawable_boundaries(b: WorldBoundaries) -> bool {
    drawable_range(b.min_x, b.max_x) && drawable_range(b.min_y, b.max_y) && drawable_range(b.min_z, b.max_z)
}

/// The larger of two integers.
pub open spec fn max_int(a: int, b: int) -> int {
    if a >= b { a } else { b }
}

/// The smaller of two integers.
pub open spec fn min_int(a: int, b: int) -> int {
    if a <= b { a } else { b }
}

/// The value of one die rolled from generator state `s`.
pub open spec fn single_draw(s: u64, dice_type: DiceType) -> u8 {
    pick(1, dice_type.faces() as i32, lcg_next(s)) as u8
}

/// The items after the Fisher-Yates passes from position `i` down to 1, each pass
/// drawing a position `j` from 0 to `i` with the generator and swapping the items
/// at `i` and `j`; with the generator's state after the draws.
pub open spec fn shuffle_passes<T>(items: Seq<T>, s: u64, i: int) -> (Seq<T>, u64)
    decreases i,
{
    if i < 1 {
        (items, s)
    } else {
        let s1 = lcg_next(s);
        let j = pick(0, i as i32, s1) as int;
        let next = if 0 <= j < i { items.update(i, items[j]).update(j, items[i]) } else { items };
        shuffle_passes(next, s1, i - 1)
    }
}

/// Swap two elements of a vector.
fn swap_items<T>(items: &mut Vec<T>, i: usize, j: usize)
    requires
        j < i < old(items)@.len(),
    ensures
        final(items)@ == old(items)@.update(i as int, old(items)@[j as int]).update(j as int, old(items)@[i as int]),
{
    let a = items.remove(i);
    let b = items.remove(j);
    items.insert(j, a);
    items.insert(i, b);
    assert(items@ =~= old(items)@.update(i as int, old(items)@[j as int]).update(j as int, old(items)@[i as int]));
}

impl RandomNumberGenerator {
    /// The current state of the generator.
    pub closed spec fn seed_state(&self) -> u64 {
        self.state
    }

    /// A generator seeded from the clock: the current time in nanoseconds (from the
    /// millisecond clock), or 0 for a clock before the epoch. Which time it is, no
    /// contract states.
    pub fn new() -> (r: Self)
        ensures
            exists|millis: u64| r.seed_state() == #[trigger] nanos_of_millis(millis),
    {
        let millis = utc_now_millis();
        let m: u64 = if millis < 0 { 0 } else { millis as u64 };
        let seed: u64 = m.wrapping_mul(1_000_000);
        assert(seed == nanos_of_millis(m));
        RandomNumberGenerator { state: seed }
    }

    /// A generator with a fixed seed, for reproducible sequences.
    pub fn with_seed(seed: u64) -> (r: Self)
        ensures
            r.seed_state() == seed,
    {
        RandomNumberGenerator { state: seed }
    }

    /// Advance the generator and return its new raw 64-bit state.
    pub fn next_u64(&mut self) -> (r: u64)
        ensures
            r == lcg_next(old(self).seed_state()),
            final(self).seed_state() == r,
    {
        lcg_step(&mut self.state)
    }
}

impl RandomService for RandomNumberGenerator {
    open spec fn generator_state(&self) -> u64 {
        self.seed_state()
    }

    open spec fn position_drawn(&self, after: u64, min_x: i32, max_x: i32, min_y: i32, max_y: i32, min_z: i32, max_z: i32, r: Position3D) -> bool {
        (r, after) == position_draw(self.seed_state(), min_x, max_x, min_y, max_y, min_z, max_z)
    }

    fn random_range_i32(&mut self, min: i32, max: i32) -> (r: i32)
        ensures
            min >= max ==> final(self).seed_state() == old(self).seed_state(),
            min < max ==> final(self).seed_state() == lcg_next(old(self).seed_state())
                && r == pick(min, max, final(self).seed_state()),
    {
        lcg_range(&mut self.state, min, max)
    }

    fn random_position_3d(&mut self, min_x: i32, max_x: i32, min_y: i32, max_y: i32, min_z: i32, max_z: i32) -> (r: Position3D)
        ensures
            (r, final(self).seed_state()) == position_draw(old(self).seed_state(), min_x, max_x, min_y, max_y, min_z, max_z),
    {
        let x = self.random_range_i32(min_x, max_x);
        let y = self.random_range_i32(min_y, max_y);
        let z = self.random_range_i32(min_z, max_z);
        Position3D::new(x, y, z)
    }

    fn roll_dice(&mut self, dice_type: DiceType, count: u8) -> (r: DiceRoll)
        ensures
            count == 0 ==> r.count == 0 && r.dice_type == dice_type && r.modifier == DiceModifier::none_spec() && r.values().len() == 0,
            1 <= count <= 10 ==> r.values() == lcg_draws(old(self).seed_state(), dice_type.faces(), count as nat),
            final(self).seed_state() == lcg_iter(old(self).seed_state(), count as nat),
            count > 10 ==> r.count == 1 && r.dice_type == DiceType::D6 && r.values().len() == 0,
    {
        lcg_roll(&mut self.state, dice_type, count)
    }

    fn random_resource_type(&mut self) -> (r: ResourceType)
        ensures
            final(self).seed_state() == lcg_next(old(self).seed_state()),
            r.index() == pick(0, 3, final(self).seed_state()),
            r.index() < 4,
    {
        let index = self.random_range_i32(0, 3);
        ResourceType::from_index(index as usize)
    }

    fn random_terrain_type(&mut self) -> (r: TerrainType)
        ensures
            final(self).seed_state() == lcg_next(old(self).seed_state()),
            r == common_terrain(pick(0, 6, final(self).seed_state()) as int),
    {
        let index = self.random_range_i32(0, 6);
        common_terrain_at(index)
    }
}

impl Clone for RandomNumberGenerator {
    fn clone(&self) -> (r: Self)
        ensures
            r.seed_state() == self.seed_state(),
    {
        Self::with_seed(self.state)
    }
}

impl Default for RandomNumberGenerator {
    fn default() -> (r: Self) {
        Self::new()
    }
}

impl RandomNumberGenerator {
    /// A position drawn inside the world boundaries.
    pub fn random_world_position(&mut self, boundaries: &WorldBoundaries) -> (r: Position3D)
        requires
            drawable_boundaries(*boundaries),
        ensures
            drawn_from(r.x, boundaries.min_x, boundaries.max_x),
            drawn_from(r.y, boundaries.min_y, boundaries.max_y),
            drawn_from(r.z, boundaries.min_z, boundaries.max_z),
            boundaries.well_ordered() ==> boundaries.spec_contains(r),
    {
        self.random_position_3d(
            boundaries.min_x,
            boundaries.max_x,
            boundaries.min_y,
            boundaries.max_y,
            boundaries.min_z,
            boundaries.max_z,
        )
    }

    /// A position within `radius` of the centre horizontally, and from one level
    /// below (never under ground) to two levels above.
    pub fn random_position_around(&mut self, center: Position3D, radius: i32) -> (r: Position3D)
        requires
            0 <= radius,
            i32::MIN <= center.x - radius && center.x + radius <= i32::MAX,
            i32::MIN <= center.y - radius && center.y + radius <= i32::MAX,
            i32::MIN < center.z && center.z + 2 <= i32::MAX,
            2 * radius < i32::MAX,
        ensures
            drawn_from(r.x, (center.x - radius) as i32, (center.x + radius) as i32),
            drawn_from(r.y, (center.y - radius) as i32, (center.y + radius) as i32),
            drawn_from(r.z, max_int(center.z - 1, 0) as i32, (center.z + 2) as i32),
    {
        let x = self.random_range_i32(center.x - radius, center.x + radius);
        let y = self.random_range_i32(center.y - radius, center.y + radius);
        let low_z = if center.z - 1 > 0 { center.z - 1 } else { 0 };
        let z = self.random_range_i32(low_z, center.z + 2);
        Position3D::new(x, y, z)
    }

    /// The better of two single-die rolls.
    pub fn roll_with_advantage(&mut self, dice_type: DiceType) -> (r: DiceRoll)
        ensures
            fair_roll(r, dice_type, 1),
            r.values()[0] == max_int(
                single_draw(old(self).seed_state(), dice_type) as int,
                single_draw(lcg_next(old(self).seed_state()), dice_type) as int,
            ),
            final(self).seed_state() == lcg_next(lcg_next(old(self).seed_state())),
    {
        let roll1 = self.roll_single(dice_type);
        let roll2 = self.roll_single(dice_type);
        if roll1.total() >= roll2.total() {
            roll1
        } else {
            roll2
        }
    }

    /// The worse of two single-die rolls.
    pub fn roll_with_disadvantage(&mut self, dice_type: DiceType) -> (r: DiceRoll)
        ensures
            fair_roll(r, dice_type, 1),
            r.values()[0] == min_int(
                single_draw(old(self).seed_state(), dice_type) as int,
                single_draw(lcg_next(old(self).seed_state()), dice_type) as int,
            ),
            final(self).seed_state() == lcg_next(lcg_next(old(self).seed_state())),
    {
        let roll1 = self.roll_single(dice_type);
        let roll2 = self.roll_single(dice_type);
        if roll1.total() <= roll2.total() {
            roll1
        } else {
            roll2
        }
    }

    /// One die, rolled.
    fn roll_single(&mut self, dice_type: DiceType) -> (r: DiceRoll)
        ensures
            fair_roll(r, dice_type, 1),
            r.values()[0] == single_draw(old(self).seed_state(), dice_type),
            r.spec_total() == r.values()[0],
            final(self).seed_state() == lcg_next(old(self).seed_state()),
    {
        let r = self.roll_dice(dice_type, 1);
        proof {
            reveal_with_fuel(lcg_iter, 2);
            reveal_with_fuel(lcg_draws, 2);
            reveal_with_fuel(sum_values, 2);
            assert(r.values().drop_last() =~= Seq::<u8>::empty());
        }
        r
    }

    /// A clone of a random item, or `None` for an empty slice.
    pub fn choose_from<T: Clone>(&mut self, items: &[T]) -> (r: Option<T>)
        requires
            items@.len() <= i32::MAX,
        ensures
            r is Some <==> items@.len() > 0,
            r matches Some(v) ==> cloned::<T>(items@[pick(0, (items@.len() - 1) as i32, final(self).seed_state()) as int], v),
            items@.len() > 1 ==> final(self).seed_state() == lcg_next(old(self).seed_state()),
            items@.len() <= 1 ==> final(self).seed_state() == old(self).seed_state(),
    {
        if items.len() == 0 {
            return None;
        }
        let index = self.random_range_i32(0, items.len() as i32 - 1);
        Some(items[index as usize].clone())
    }

    /// Shuffle the items in place (Fisher-Yates): the same items, in a new order.
    pub fn shuffle<T>(&mut self, items: &mut Vec<T>)
        requires
            old(items)@.len() <= i32::MAX,
        ensures
            final(items)@.to_multiset() == old(items)@.to_multiset(),
            final(items)@.len() == old(items)@.len(),
            old(items)@.len() < 2 ==> final(items)@ == old(items)@ && final(self).seed_state() == old(self).seed_state(),
            old(items)@.len() >= 2 ==> (final(items)@, final(self).seed_state())
                == shuffle_passes(old(items)@, old(self).seed_state(), old(items)@.len() - 1),
    {
        let n = items.len();
        if n < 2 {
            return;
        }
        let mut i: usize = n - 1;
        while i >= 1
            invariant
                1 <= n <= i32::MAX,
                i < n,
                items@.len() == n,
                items@.to_multiset() == old(items)@.to_multiset(),
                shuffle_passes(items@, self.seed_state(), i as int)
                    == shuffle_passes(old(items)@, old(self).seed_state(), n - 1),
            decreases i,
        {
            let ghost s0 = self.seed_state();
            let ghost before_pass = items@;
            let j = self.random_range_i32(0, i as i32);
            if (j as usize) < i {
                let ghost before = items@;
                swap_items(items, i, j as usize);
                proof {
                    broadcast use vstd::multiset::group_multiset_axioms;
                    let m = before.to_multiset();
                    let a = before[i as int];
                    let b = before[j as int];
                    let mid = before.update(i as int, b);
                    vstd::seq_lib::to_multiset_update(before, i as int, b);
                    vstd::seq_lib::to_multiset_update(mid, j as int, a);
                    vstd::seq_lib::to_multiset_contains(before, a);
                    assert(before.contains(a)) by {
                        assert(before[i as int] == a);
                    }
                    assert(m.insert(b).remove(a).insert(a).remove(b) =~= m);
                }
            }
            proof {
                let ii = i as int;
                let jj = pick(0, i as i32, lcg_next(s0)) as int;
                assert(jj == j as int);
                let next = if 0 <= jj < ii { before_pass.update(ii, before_pass[jj]).update(jj, before_pass[ii]) } else { before_pass };
                assert(items@ == next);
                assert(shuffle_passes(before_pass, s0, ii) == shuffle_passes(next, lcg_next(s0), ii - 1));
            }
            i = i - 1;
        }
        proof {
            assert(i == 0);
        }
    }
}

/// Kinds of encounter the player can meet.
#[derive(Debug, Clone, Copy, PartialEq, Eq, Structural)]
pub enum EncounterType {
    ResourceNode,
    RandomEvent,
    QuestGiver,
    Treasure,
    Danger,
}

} // verus!
