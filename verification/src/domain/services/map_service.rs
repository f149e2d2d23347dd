//! Procedural generation of the world: biomes, terrain and elevation from a seed.
use crate::domain::constants::{FOGGED_VISIBLE_RADIUS, MAP_CHUNK_SIZE, TILE_GENERATION_BUFFER};
use crate::domain::entities::map::{position_tile, tile_position, MapTile, ResourceNode, WorldMap};
use crate::domain::value_objects::position::{diamond_size, div_euclid_i32, in_diamond, pos_lt, pos_sorted, tile_lt, Position3D, TileCoordinate};
use crate::domain::value_objects::resources::{ResourceNodeProperties, ResourceType};
use crate::domain::value_objects::terrain::{Elevation, TerrainType};
use crate::domain::value_objects::EntityId;
use crate::domain::DomainResult;
use vstd::prelude::*;

verus! {

/// `h * m + v` computed modulo 2^64, as the wrapping operations of `u64` compute it.
pub open spec fn mix(h: u64, m: u64, v: u64) -> u64 {
    let p = ((h as nat * m as nat) % 0x1_0000_0000_0000_0000) as u64;
    if p + v > u64::MAX { (p + v - 0x1_0000_0000_0000_0000) as u64 } else { (p + v) as u64 }
}

/// The hash of a position under a seed: the seed folded with x, y and z (each
/// reinterpreted as a 64-bit word), multiplying by 31 before each addition, modulo 2^64.
pub open spec fn position_hash(seed: u64, p: Position3D) -> u64 {
    mix(mix(mix(seed, 31, p.x as u64), 31, p.y as u64), 31, p.z as u64)
}

/// The hash of a biome cell: the seed folded with the cell's x (by 73) and y (by 79).
pub open spec fn biome_cell_hash(seed: u64, bx: i32, by: i32) -> u64 {
    mix(mix(seed, 73, bx as u64), 79, by as u64)
}

/// Climate zones of the world, each 16 by 16 tiles.
#[derive(Debug, Clone, Copy, PartialEq, Eq, Structural)]
pub enum BiomeType {
    Temperate,
    Arid,
    Cold,
    Wetlands,
    Underground,
    Artificial,
}

/// The biome a cell hash selects: 36% temperate, 20% arid, 15% cold, 10% wetlands,
/// 10% underground, 9% artificial, by the hash modulo 100.
pub open spec fn biome_of_hash(h: u64) -> BiomeType {
    let r = h % 100;
    if r <= 35 { BiomeType::Temperate }
    else if r <= 55 { BiomeType::Arid }
    else if r <= 70 { BiomeType::Cold }
    else if r <= 80 { BiomeType::Wetlands }
    else if r <= 90 { BiomeType::Underground }
    else { BiomeType::Artificial }
}

/// The biome of a position: that of its 16 by 16 cell.
pub open spec fn biome_at(seed: u64, p: Position3D) -> BiomeType {
    biome_of_hash(biome_cell_hash(seed, (p.x as int / 16) as i32, (p.y as int / 16) as i32))
}

/// The terrains of a biome with their weights (out of 100).
#[derive(Debug, Clone, Copy, PartialEq, Eq, Structural)]
pub struct BiomeConfig {
    pub primary_terrain: TerrainType,
    pub secondary_terrain: TerrainType,
    pub rare_terrain: Option<TerrainType>,
    pub primary_weight: u32,
    pub secondary_weight: u32,
    pub rare_weight: u32,
}

/// The terrains and weights of each biome.
pub open spec fn biome_config(b: BiomeType) -> BiomeConfig {
    match b {
        BiomeType::Temperate => BiomeConfig { primary_terrain: TerrainType::Plains, secondary_terrain: TerrainType::Forest,
            rare_terrain: Some(TerrainType::Constructed), primary_weight: 60, secondary_weight: 35, rare_weight: 5 },
        BiomeType::Arid => BiomeConfig { primary_terrain: TerrainType::Desert, secondary_terrain: TerrainType::Plains,
            rare_terrain: Some(TerrainType::Volcanic), primary_weight: 70, secondary_weight: 25, rare_weight: 5 },
        BiomeType::Cold => BiomeConfig { primary_terrain: TerrainType::Tundra, secondary_terrain: TerrainType::Mountains,
            rare_terrain: Some(TerrainType::Crystal), primary_weight: 60, secondary_weight: 35, rare_weight: 5 },
        BiomeType::Wetlands => BiomeConfig { primary_terrain: TerrainType::Swamp, secondary_terrain: TerrainType::Plains,
            rare_terrain: Some(TerrainType::Ocean), primary_weight: 65, secondary_weight: 30, rare_weight: 5 },
        BiomeType::Underground => BiomeConfig { primary_terrain: TerrainType::Cave, secondary_terrain: TerrainType::Mountains,
            rare_terrain: Some(TerrainType::Crystal), primary_weight: 70, secondary_weight: 20, rare_weight: 10 },
        BiomeType::Artificial => BiomeConfig { primary_terrain: TerrainType::Constructed, secondary_terrain: TerrainType::Plains,
            rare_terrain: Some(TerrainType::Anomaly), primary_weight: 50, secondary_weight: 40, rare_weight: 10 },
    }
}

/// The terrain a roll selects in a biome: primary below its weight, secondary below
/// both weights, rare (or primary when there is none) above.
pub open spec fn terrain_for_roll(c: BiomeConfig, roll: int) -> TerrainType {
    if roll < c.primary_weight {
        c.primary_terrain
    } else if roll < c.primary_weight + c.secondary_weight {
        c.secondary_terrain
    } else {
        match c.rare_terrain {
            Some(t) => t,
            None => c.primary_terrain,
        }
    }
}

/// The terrain generated at a position: a roll of the position hash over the total
/// weight of its biome.
pub open spec fn terrain_at(seed: u64, p: Position3D) -> TerrainType {
    let c = biome_config(biome_at(seed, p));
    terrain_for_roll(c, position_hash(seed, p) as int % (c.primary_weight + c.secondary_weight + c.rare_weight))
}

/// The elevation generated at a position: a tenth of the distance from the origin,
/// varied by the hash modulo 5 less 2, never below sea level.
pub open spec fn elevation_at(seed: u64, p: Position3D) -> int {
    let base = (abs(p.x as int) + abs(p.y as int)) / 10;
    let variation = (position_hash(seed, p) % 5) as int - 2;
    if base + variation > 0 { base + variation } else { 0 }
}

/// Absolute value.
pub open spec fn abs(a: int) -> int {
    if a < 0 { -a } else { a }
}

/// Whether the height of a position and its elevation can be computed without overflow.
pub open spec fn safe_position(p: Position3D) -> bool {
    p.x != i32::MIN && p.y != i32::MIN && abs(p.x as int) + abs(p.y as int) <= i32::MAX
}

/// The tile generated at a position: its terrain and elevation, unexplored.
pub open spec fn generated_tile(seed: u64, p: Position3D) -> MapTile {
    MapTile {
        terrain_type: terrain_at(seed, p),
        elevation: Elevation { height: if elevation_at(seed, p) <= 100 { elevation_at(seed, p) as i32 } else { 0i32 } },
        is_explored: false,
        last_visited: None,
    }
}

/// The resource a node at a position would hold, chosen by the hash modulo 4.
pub open spec fn node_kind(seed: u64, p: Position3D) -> ResourceType {
    let h = position_hash(seed, p) % 4;
    if h == 0 {
        ResourceType::Metal
    } else if h == 1 {
        ResourceType::Energy
    } else if h == 2 {
        ResourceType::Food
    } else {
        ResourceType::Technology
    }
}

/// The properties of a node of resource `rt` on terrain `t`, when the terrain holds it.
pub open spec fn node_properties(t: TerrainType, rt: ResourceType) -> Option<ResourceNodeProperties> {
    if t.spec_primary_resources().contains(rt) || t.spec_secondary_resources().contains(rt) {
        Some(ResourceNodeProperties {
            resource_type: rt,
            richness: t.node_richness(t.spec_primary_resources().contains(rt)),
            accessibility: t.node_accessibility(),
            regeneration_rate: t.node_regeneration(rt),
        })
    } else {
        None
    }
}

/// The capacity of a node generated at a position: 50 to 149 units.
pub open spec fn node_capacity(seed: u64, p: Position3D) -> u32 {
    (50 + position_hash(seed, p) % 100) as u32
}

/// Whether generation places a node at a position: the sum of x and y is a multiple
/// of 7, the hash a multiple of 3, and the terrain holds the resource chosen.
pub open spec fn places_node(seed: u64, p: Position3D) -> bool {
    &&& (p.x + p.y) % 7 == 0
    &&& position_hash(seed, p) % 3 == 0
    &&& node_properties(terrain_at(seed, p), node_kind(seed, p)) is Some
}

/// Whether a node is as generation makes it at a position: full, never harvested.
pub open spec fn node_as_generated(n: ResourceNode, seed: u64, p: Position3D) -> bool {
    &&& Some(n.spec_properties()) == node_properties(terrain_at(seed, p), node_kind(seed, p))
    &&& n.spec_capacity() == node_capacity(seed, p)
    &&& n.spec_amount() == node_capacity(seed, p)
    &&& n.spec_last_harvested() is None
    &&& n.spec_total_harvested() == 0
}

/// Whether tiles `t1` and nodes `n1` are what generating over `region` makes of tiles
/// `t0` and nodes `n0`: every position of the region without a tile gets its
/// generated tile, and a generated node where generation places one; everything else
/// stays as it was.
#[verifier::opaque]
pub open spec fn generated_over(
    seed: u64,
    t0: Map<TileCoordinate, MapTile>,
    n0: Map<Position3D, ResourceNode>,
    region: Set<Position3D>,
    t1: Map<TileCoordinate, MapTile>,
    n1: Map<Position3D, ResourceNode>,
) -> bool {
    &&& forall|c: TileCoordinate| #[trigger] t1.dom().contains(c) <==> t0.dom().contains(c) || region.contains(tile_position(c))
    &&& forall|c: TileCoordinate| t0.dom().contains(c) ==> #[trigger] t1[c] == t0[c]
    &&& forall|c: TileCoordinate| !t0.dom().contains(c) && region.contains(tile_position(c))
        ==> #[trigger] t1[c] == generated_tile(seed, tile_position(c))
    &&& forall|p: Position3D| #[trigger] n1.dom().contains(p) <==> n0.dom().contains(p)
        || (region.contains(p) && !t0.dom().contains(position_tile(p)) && places_node(seed, p))
    &&& forall|p: Position3D| !(region.contains(p) && !t0.dom().contains(position_tile(p)) && places_node(seed, p))
        && n0.dom().contains(p) ==> #[trigger] n1[p] == n0[p]
    &&& forall|p: Position3D| region.contains(p) && !t0.dom().contains(position_tile(p)) && places_node(seed, p)
        ==> node_as_generated(#[trigger] n1[p], seed, p)
}

/// Number of positions of `s` whose tile is loaded and can be entered.
pub open spec fn passable_count(tiles: Map<TileCoordinate, MapTile>, s: Seq<Position3D>) -> int
    decreases s.len(),
{
    if s.len() == 0 {
        0
    } else {
        passable_count(tiles, s.drop_last()) + if tiles.dom().contains(position_tile(s.last()))
            && tiles[position_tile(s.last())].terrain_type != TerrainType::Ocean { 1int } else { 0int }
    }
}

/// Number of positions of `s` whose tile is loaded.
pub open spec fn loaded_count(tiles: Map<TileCoordinate, MapTile>, s: Seq<Position3D>) -> int
    decreases s.len(),
{
    if s.len() == 0 {
        0
    } else {
        loaded_count(tiles, s.drop_last()) + if tiles.dom().contains(position_tile(s.last())) { 1int } else { 0int }
    }
}

/// Number of positions of `s` whose tile is loaded with terrain `t`.
pub open spec fn terrain_count(tiles: Map<TileCoordinate, MapTile>, s: Seq<Position3D>, t: TerrainType) -> int
    decreases s.len(),
{
    if s.len() == 0 {
        0
    } else {
        terrain_count(tiles, s.drop_last(), t) + if tiles.dom().contains(position_tile(s.last()))
            && tiles[position_tile(s.last())].terrain_type == t { 1int } else { 0int }
    }
}

/// Number of positions of `s` holding a resource node.
pub open spec fn node_count(nodes: Map<Position3D, ResourceNode>, s: Seq<Position3D>) -> int
    decreases s.len(),
{
    if s.len() == 0 {
        0
    } else {
        node_count(nodes, s.drop_last()) + if nodes.dom().contains(s.last()) { 1int } else { 0int }
    }
}

/// Whether the statistics are the counts over the positions `s`.
pub open spec fn generation_counts(
    tiles: Map<TileCoordinate, MapTile>,
    nodes: Map<Position3D, ResourceNode>,
    s: Seq<Position3D>,
    st: GenerationStats,
) -> bool {
    &&& st.total_tiles == loaded_count(tiles, s)
    &&& st.passable == passable_count(tiles, s)
    &&& st.plains == terrain_count(tiles, s, TerrainType::Plains)
    &&& st.forest == terrain_count(tiles, s, TerrainType::Forest)
    &&& st.desert == terrain_count(tiles, s, TerrainType::Desert)
    &&& st.mountains == terrain_count(tiles, s, TerrainType::Mountains)
    &&& st.tundra == terrain_count(tiles, s, TerrainType::Tundra)
    &&& st.swamp == terrain_count(tiles, s, TerrainType::Swamp)
    &&& st.ocean == terrain_count(tiles, s, TerrainType::Ocean)
    &&& st.cave == terrain_count(tiles, s, TerrainType::Cave)
    &&& st.crystal == terrain_count(tiles, s, TerrainType::Crystal)
    &&& st.constructed == terrain_count(tiles, s, TerrainType::Constructed)
    &&& st.volcanic == terrain_count(tiles, s, TerrainType::Volcanic)
    &&& st.anomaly == terrain_count(tiles, s, TerrainType::Anomaly)
    &&& st.resource_nodes == node_count(nodes, s)
}

proof fn lemma_counts_bounded(tiles: Map<TileCoordinate, MapTile>, nodes: Map<Position3D, ResourceNode>, s: Seq<Position3D>)
    ensures
        0 <= loaded_count(tiles, s) <= s.len(),
        0 <= passable_count(tiles, s) <= loaded_count(tiles, s),
        0 <= node_count(nodes, s) <= s.len(),
        forall|t: TerrainType| 0 <= #[trigger] terrain_count(tiles, s, t) <= loaded_count(tiles, s),
    decreases s.len(),
{
    if s.len() > 0 {
        lemma_counts_bounded(tiles, nodes, s.drop_last());
        assert forall|t: TerrainType| 0 <= #[trigger] terrain_count(tiles, s, t) <= loaded_count(tiles, s) by {
            assert(0 <= terrain_count(tiles, s.drop_last(), t) <= loaded_count(tiles, s.drop_last()));
        }
    }
}

/// The tiles after generating over a region are those before and those of the region.
proof fn lemma_generated_dom(
    seed: u64,
    t0: Map<TileCoordinate, MapTile>,
    n0: Map<Position3D, ResourceNode>,
    region: Set<Position3D>,
    t1: Map<TileCoordinate, MapTile>,
    n1: Map<Position3D, ResourceNode>,
    c: TileCoordinate,
)
    requires
        generated_over(seed, t0, n0, region, t1, n1),
    ensures
        t1.dom().contains(c) <==> t0.dom().contains(c) || region.contains(tile_position(c)),
{
    reveal(generated_over);
}

/// Generating over no position changes nothing.
proof fn lemma_generation_none(seed: u64, t0: Map<TileCoordinate, MapTile>, n0: Map<Position3D, ResourceNode>)
    ensures
        generated_over(seed, t0, n0, Set::empty(), t0, n0),
{
    reveal(generated_over);
}

/// Visiting one more offset of a row adds its position to the visited part.
proof fn lemma_chunk_row_step(center: Position3D, lo: int, hi: int, x: int, y: int, pos: Position3D)
    requires
        lo <= x <= hi,
        lo <= y <= hi,
        pos.x == center.x + x,
        pos.y == center.y + y,
        pos.z == center.z,
    ensures
        !Set::new(|q: Position3D| chunk_prefix(center, lo, hi, x, y, q)).contains(pos),
        Set::new(|q: Position3D| chunk_prefix(center, lo, hi, x, y, q)).insert(pos)
            =~= Set::new(|q: Position3D| chunk_prefix(center, lo, hi, x, y + 1, q)),
{
}

/// The positions of a chunk have coordinates and heights that can be computed.
proof fn lemma_chunk_offsets_safe(center: Position3D, size: i32, lo: int, hi: int, x: int, y: int)
    requires
        lo == chunk_lo(size),
        hi == chunk_hi(size),
        lo <= x <= hi,
        lo <= y <= hi,
        size != i32::MIN,
        abs(center.x as int) + abs(center.y as int) + abs(size as int) < i32::MAX,
    ensures
        i32::MIN < center.x + x < i32::MAX,
        i32::MIN < center.y + y < i32::MAX,
        safe_position(Position3D { x: (center.x + x) as i32, y: (center.y + y) as i32, z: center.z }),
{
    assert(abs(x) <= abs(size as int) / 2 + 1);
    assert(abs(y) <= abs(size as int) / 2 + 1);
}

/// `v / 2` rounded toward zero.
pub open spec fn half_toward_zero(v: int) -> int {
    if v >= 0 { v / 2 } else { -((-v) / 2) }
}

/// The lowest offset of a chunk of side `size`: `(-size) / 2` rounded toward zero.
pub open spec fn chunk_lo(size: i32) -> int {
    half_toward_zero(-(size as int))
}

/// The highest offset of a chunk of side `size`: `size / 2` rounded toward zero.
pub open spec fn chunk_hi(size: i32) -> int {
    half_toward_zero(size as int)
}

/// Whether `q` lies in the chunk of side `size` around `center`.
pub open spec fn in_chunk(center: Position3D, size: i32, q: Position3D) -> bool {
    &&& q.z == center.z
    &&& chunk_lo(size) <= q.x - center.x <= chunk_hi(size)
    &&& chunk_lo(size) <= q.y - center.y <= chunk_hi(size)
}

/// Whether `q` lies in the part of the square `lo..=hi` around `center` visited before
/// offset `(x, y)`, row by row.
pub open spec fn chunk_prefix(center: Position3D, lo: int, hi: int, x: int, y: int, q: Position3D) -> bool {
    &&& q.z == center.z
    &&& lo <= q.x - center.x <= hi
    &&& lo <= q.y - center.y <= hi
    &&& (q.x - center.x < x || (q.x - center.x == x && q.y - center.y < y))
}

/// One position more: generating over a region and then at a position outside it is
/// generating over the region with the position added.
proof fn lemma_generation_step(
    seed: u64,
    t0: Map<TileCoordinate, MapTile>,
    n0: Map<Position3D, ResourceNode>,
    region: Set<Position3D>,
    t1: Map<TileCoordinate, MapTile>,
    n1: Map<Position3D, ResourceNode>,
    p: Position3D,
    t2: Map<TileCoordinate, MapTile>,
    n2: Map<Position3D, ResourceNode>,
)
    requires
        generated_over(seed, t0, n0, region, t1, n1),
        !region.contains(p),
        t1.dom().contains(position_tile(p)) ==> t2 == t1 && n2 == n1,
        !t1.dom().contains(position_tile(p)) ==> t2 == t1.insert(position_tile(p), generated_tile(seed, p)),
        !t1.dom().contains(position_tile(p)) && !places_node(seed, p) ==> n2 == n1,
        !t1.dom().contains(position_tile(p)) && places_node(seed, p) ==> exists|n: ResourceNode|
            node_as_generated(n, seed, p) && n2 == #[trigger] n1.insert(p, n),
    ensures
        generated_over(seed, t0, n0, region.insert(p), t2, n2),
{
    reveal(generated_over);
    assert(tile_position(position_tile(p)) == p);
    assert forall|c: TileCoordinate| tile_position(c) == p implies c == position_tile(p) by {}
    assert forall|q: Position3D| position_tile(q) == position_tile(p) implies q == p by {
        assert(tile_position(position_tile(q)) == q);
    }
}

/// Counts of terrain generated over an area.
#[derive(Debug, Clone, Copy, PartialEq, Eq, Default)]
pub struct GenerationStats {
    pub total_tiles: u32,
    pub passable: u32,
    pub plains: u32,
    pub forest: u32,
    pub desert: u32,
    pub mountains: u32,
    pub tundra: u32,
    pub swamp: u32,
    pub ocean: u32,
    pub cave: u32,
    pub crystal: u32,
    pub constructed: u32,
    pub volcanic: u32,
    pub anomaly: u32,
    pub resource_nodes: u32,
}

/// Counts of biomes over an area.
#[derive(Debug, Clone, Copy, PartialEq, Eq)]
pub struct BiomeStats {
    pub total_tiles: u32,
    pub temperate: u32,
    pub arid: u32,
    pub cold: u32,
    pub wetlands: u32,
    pub underground: u32,
    pub artificial: u32,
}

impl Default for BiomeStats {
    fn default() -> (r: Self)
        ensures
            r == (BiomeStats { total_tiles: 0, temperate: 0, arid: 0, cold: 0, wetlands: 0, underground: 0, artificial: 0 }),
    {
        BiomeStats { total_tiles: 0, temperate: 0, arid: 0, cold: 0, wetlands: 0, underground: 0, artificial: 0 }
    }
}

/// Number of positions of `s` in biome `b`.
pub open spec fn biome_count(seed: u64, s: Seq<Position3D>, b: BiomeType) -> int
    decreases s.len(),
{
    if s.len() == 0 {
        0
    } else {
        biome_count(seed, s.drop_last(), b) + if biome_at(seed, s.last()) == b { 1int } else { 0int }
    }
}

/// Whether the counts are those of the positions `s`.
pub open spec fn stats_count(seed: u64, stats: BiomeStats, s: Seq<Position3D>) -> bool {
    &&& stats.total_tiles == s.len()
    &&& stats.temperate == biome_count(seed, s, BiomeType::Temperate)
    &&& stats.arid == biome_count(seed, s, BiomeType::Arid)
    &&& stats.cold == biome_count(seed, s, BiomeType::Cold)
    &&& stats.wetlands == biome_count(seed, s, BiomeType::Wetlands)
    &&& stats.underground == biome_count(seed, s, BiomeType::Underground)
    &&& stats.artificial == biome_count(seed, s, BiomeType::Artificial)
}

/// Every position is in exactly one biome: the counts of the six biomes add up to
/// the number of positions.
proof fn lemma_biome_counts_partition(seed: u64, s: Seq<Position3D>)
    ensures
        biome_count(seed, s, BiomeType::Temperate) + biome_count(seed, s, BiomeType::Arid)
            + biome_count(seed, s, BiomeType::Cold) + biome_count(seed, s, BiomeType::Wetlands)
            + biome_count(seed, s, BiomeType::Underground) + biome_count(seed, s, BiomeType::Artificial) == s.len(),
    decreases s.len(),
{
    if s.len() > 0 {
        lemma_biome_counts_partition(seed, s.drop_last());
    }
}

proof fn lemma_biome_count_bounded(seed: u64, s: Seq<Position3D>, b: BiomeType)
    ensures
        0 <= biome_count(seed, s, b) <= s.len(),
    decreases s.len(),
{
    if s.len() > 0 {
        lemma_biome_count_bounded(seed, s.drop_last(), b);
    }
}

/// Map generation under a seed.
#[derive(Debug, Clone, Copy, PartialEq, Eq)]
pub struct MapService {
    seed: u64,
}

impl MapService {
    /// The seed of the generation.
    pub closed spec fn spec_seed(&self) -> u64 {
        self.seed
    }

    /// Generation under a seed.
    pub fn new(seed: u64) -> (r: Self)
        ensures
            r.spec_seed() == seed,
    {
        MapService { seed }
    }

    /// The seed of the generation.
    pub fn seed(&self) -> (r: u64)
        ensures
            r == self.spec_seed(),
    {
        self.seed
    }

    /// The hash of a position under the seed.
    pub fn hash_position(&self, position: Position3D) -> (r: u64)
        ensures
            r == position_hash(self.spec_seed(), position),
    {
        let mut hash = self.seed;
        hash = hash.wrapping_mul(31).wrapping_add(position.x as u64);
        hash = hash.wrapping_mul(31).wrapping_add(position.y as u64);
        hash = hash.wrapping_mul(31).wrapping_add(position.z as u64);
        hash
    }

    /// The hash of a biome cell under the seed.
    pub fn hash_biome_coordinate(&self, biome_x: i32, biome_y: i32) -> (r: u64)
        ensures
            r == biome_cell_hash(self.spec_seed(), biome_x, biome_y),
    {
        let mut hash = self.seed;
        hash = hash.wrapping_mul(73).wrapping_add(biome_x as u64);
        hash = hash.wrapping_mul(79).wrapping_add(biome_y as u64);
        hash
    }

    /// The biome of a position.
    pub fn determine_biome(&self, position: Position3D) -> (r: BiomeType)
        ensures
            r == biome_at(self.spec_seed(), position),
    {
        let biome_x = div_euclid_i32(position.x, MAP_CHUNK_SIZE as i32);
        let biome_y = div_euclid_i32(position.y, MAP_CHUNK_SIZE as i32);
        let biome_hash = self.hash_biome_coordinate(biome_x, biome_y);
        let r = biome_hash % 100;
        if r <= 35 {
            BiomeType::Temperate
        } else if r <= 55 {
            BiomeType::Arid
        } else if r <= 70 {
            BiomeType::Cold
        } else if r <= 80 {
            BiomeType::Wetlands
        } else if r <= 90 {
            BiomeType::Underground
        } else {
            BiomeType::Artificial
        }
    }

    /// The terrains and weights of a biome.
    pub fn get_biome_config(&self, biome: BiomeType) -> (r: BiomeConfig)
        ensures
            r == biome_config(biome),
    {
        match biome {
            BiomeType::Temperate => BiomeConfig { primary_terrain: TerrainType::Plains, secondary_terrain: TerrainType::Forest,
                rare_terrain: Some(TerrainType::Constructed), primary_weight: 60, secondary_weight: 35, rare_weight: 5 },
            BiomeType::Arid => BiomeConfig { primary_terrain: TerrainType::Desert, secondary_terrain: TerrainType::Plains,
                rare_terrain: Some(TerrainType::Volcanic), primary_weight: 70, secondary_weight: 25, rare_weight: 5 },
            BiomeType::Cold => BiomeConfig { primary_terrain: TerrainType::Tundra, secondary_terrain: TerrainType::Mountains,
                rare_terrain: Some(TerrainType::Crystal), primary_weight: 60, secondary_weight: 35, rare_weight: 5 },
            BiomeType::Wetlands => BiomeConfig { primary_terrain: TerrainType::Swamp, secondary_terrain: TerrainType::Plains,
                rare_terrain: Some(TerrainType::Ocean), primary_weight: 65, secondary_weight: 30, rare_weight: 5 },
            BiomeType::Underground => BiomeConfig { primary_terrain: TerrainType::Cave, secondary_terrain: TerrainType::Mountains,
                rare_terrain: Some(TerrainType::Crystal), primary_weight: 70, secondary_weight: 20, rare_weight: 10 },
            BiomeType::Artificial => BiomeConfig { primary_terrain: TerrainType::Constructed, secondary_terrain: TerrainType::Plains,
                rare_terrain: Some(TerrainType::Anomaly), primary_weight: 50, secondary_weight: 40, rare_weight: 10 },
        }
    }

    /// The terrain generated at a position.
    pub fn generate_terrain_type(&self, position: Position3D) -> (r: TerrainType)
        ensures
            r == terrain_at(self.spec_seed(), position),
    {
        let biome = self.determine_biome(position);
        let config = self.get_biome_config(biome);
        let hash = self.hash_position(position);
        let total_weight = config.primary_weight + config.secondary_weight + config.rare_weight;
        let roll = hash % (total_weight as u64);
        if roll < config.primary_weight as u64 {
            config.primary_terrain
        } else if roll < (config.primary_weight + config.secondary_weight) as u64 {
            config.secondary_terrain
        } else {
            match config.rare_terrain {
                Some(rare) => rare,
                None => config.primary_terrain,
            }
        }
    }

    /// The elevation generated at a position.
    pub fn generate_elevation(&self, position: Position3D) -> (r: Elevation)
        requires
            position.x != i32::MIN && position.y != i32::MIN,
            abs(position.x as int) + abs(position.y as int) <= i32::MAX,
        ensures
            elevation_at(self.spec_seed(), position) <= 100 ==> r.height == elevation_at(self.spec_seed(), position),
            elevation_at(self.spec_seed(), position) > 100 ==> r.height == 0,
    {
        let ax = if position.x < 0 { -position.x } else { position.x };
        let ay = if position.y < 0 { -position.y } else { position.y };
        let base_elevation = (ax + ay) / 10;
        let variation = (self.hash_position(position) % 5) as i32 - 2;
        let raised = base_elevation + variation;
        let final_elevation = if raised > 0 { raised } else { 0 };
        match Elevation::new(final_elevation) {
            Ok(e) => e,
            Err(_) => Elevation::sea_level(),
        }
    }

    /// Whether a resource node is placed at a position: the sum of x and y is a
    /// multiple of 7 and the hash a multiple of 3.
    pub fn should_place_resource_node(&self, position: &Position3D) -> (r: bool)
        requires
            i32::MIN <= position.x + position.y <= i32::MAX,
        ensures
            r == ((position.x + position.y) % 7 == 0 && position_hash(self.spec_seed(), *position) % 3 == 0),
    {
        let hash = self.hash_position(*position);
        (position.x + position.y) % 7 == 0 && hash % 3 == 0
    }

    /// The tile generated at a position.
    pub fn generate_single_tile(&self, position: Position3D) -> (r: DomainResult<MapTile>)
        requires
            safe_position(position),
        ensures
            r == Ok::<MapTile, crate::domain::DomainError>(generated_tile(self.spec_seed(), position)),
    {
        let terrain = self.generate_terrain_type(position);
        let elevation = self.generate_elevation(position);
        Ok(MapTile::new(terrain, elevation, false))
    }

    /// The node generated at a position, if its terrain holds the resource chosen there.
    pub fn generate_resource_node(&self, position: &Position3D) -> (r: DomainResult<Option<ResourceNode>>)
        ensures
            r matches Ok(o) && (o is Some <==> node_properties(terrain_at(self.spec_seed(), *position),
                node_kind(self.spec_seed(), *position)) is Some),
            r matches Ok(Some(n)) ==> node_as_generated(n, self.spec_seed(), *position),
    {
        let hash = self.hash_position(*position);
        let h = hash % 4;
        let resource_type = if h == 0 {
            ResourceType::Metal
        } else if h == 1 {
            ResourceType::Energy
        } else if h == 2 {
            ResourceType::Food
        } else {
            ResourceType::Technology
        };
        let terrain = self.generate_terrain_type(*position);
        match terrain.generate_resource_node(resource_type) {
            Some(node_props) => {
                let capacity = 50 + (hash % 100) as u32;
                let node = ResourceNode::new(EntityId::generate(), node_props, capacity, capacity);
                Ok(Some(node))
            },
            None => Ok(None),
        }
    }

    /// Generate the tile at `pos` when it is missing, with a node where generation
    /// places one.
    fn generate_at(&self, map: &mut WorldMap, pos: Position3D)
        requires
            safe_position(pos),
        ensures
            old(map).tiles_view().dom().contains(position_tile(pos)) ==> final(map).tiles_view() == old(map).tiles_view()
                && final(map).nodes_view() == old(map).nodes_view(),
            !old(map).tiles_view().dom().contains(position_tile(pos)) ==> final(map).tiles_view()
                == old(map).tiles_view().insert(position_tile(pos), generated_tile(self.spec_seed(), pos)),
            !old(map).tiles_view().dom().contains(position_tile(pos)) && !places_node(self.spec_seed(), pos)
                ==> final(map).nodes_view() == old(map).nodes_view(),
            !old(map).tiles_view().dom().contains(position_tile(pos)) && places_node(self.spec_seed(), pos)
                ==> exists|n: ResourceNode| node_as_generated(n, self.spec_seed(), pos)
                    && final(map).nodes_view() == #[trigger] old(map).nodes_view().insert(pos, n),
            final(map).spec_id() == old(map).spec_id(),
            final(map).spec_name() == old(map).spec_name(),
            final(map).spec_seed() == old(map).spec_seed(),
            final(map).history() == old(map).history(),
    {
        let coord = TileCoordinate::from(pos);
        if map.get_tile(&coord).is_none() {
            let tile = match self.generate_single_tile(pos) {
                Ok(t) => t,
                Err(_) => MapTile::new(TerrainType::Plains, Elevation::sea_level(), false),
            };
            map.set_tile(coord, tile);
            if self.should_place_resource_node(&pos) {
                match self.generate_resource_node(&pos) {
                    Ok(Some(node)) => {
                        map.add_resource_node(pos, node);
                        assert(node_as_generated(node, self.spec_seed(), pos));
                    },
                    _ => {},
                }
            }
        }
    }

    /// Fill the square of side `chunk_size` around `chunk_center` (offsets from
    /// `(-chunk_size) / 2` to `chunk_size / 2`, rounded toward zero) with generated
    /// tiles where tiles are missing, placing nodes where generation puts them.
    pub fn generate_chunk(&self, map: &mut WorldMap, chunk_center: Position3D, chunk_size: i32) -> (r: DomainResult<()>)
        requires
            chunk_size != i32::MIN,
            abs(chunk_center.x as int) + abs(chunk_center.y as int) + abs(chunk_size as int) < i32::MAX,
        ensures
            r is Ok,
            generated_over(self.spec_seed(), old(map).tiles_view(), old(map).nodes_view(),
                Set::new(|q: Position3D| in_chunk(chunk_center, chunk_size, q)), final(map).tiles_view(), final(map).nodes_view()),
            final(map).spec_id() == old(map).spec_id(),
            final(map).spec_name() == old(map).spec_name(),
            final(map).spec_seed() == old(map).spec_seed(),
            final(map).history() == old(map).history(),
    {
        let neg = -chunk_size;
        let lo: i32 = if neg >= 0 { neg / 2 } else { -((-neg) / 2) };
        let hi: i32 = if chunk_size >= 0 { chunk_size / 2 } else { -((-chunk_size) / 2) };
        let ghost t0 = map.tiles_view();
        let ghost n0 = map.nodes_view();
        proof {
            assert(Set::new(|q: Position3D| chunk_prefix(chunk_center, lo as int, hi as int, lo as int, lo as int, q)) =~= Set::<Position3D>::empty());
            lemma_generation_none(self.spec_seed(), t0, n0);
        }
        let mut x: i32 = lo;
        while x <= hi
            invariant
                lo == chunk_lo(chunk_size), hi == chunk_hi(chunk_size),
                abs(lo as int) <= abs(chunk_size as int), abs(hi as int) <= abs(chunk_size as int),
                abs(chunk_center.x as int) + abs(chunk_center.y as int) + abs(chunk_size as int) < i32::MAX,
                lo <= x <= hi + 1 || (x == lo && lo > hi),
                generated_over(self.spec_seed(), t0, n0,
                    Set::new(|q: Position3D| chunk_prefix(chunk_center, lo as int, hi as int, x as int, lo as int, q)),
                    map.tiles_view(), map.nodes_view()),
                map.spec_id() == old(map).spec_id(),
                map.spec_name() == old(map).spec_name(),
                map.spec_seed() == old(map).spec_seed(),
                map.history() == old(map).history(),
            decreases hi + 1 - x,
        {
            let mut y: i32 = lo;
            while y <= hi
                invariant
                    lo == chunk_lo(chunk_size), hi == chunk_hi(chunk_size),
                    abs(lo as int) <= abs(chunk_size as int), abs(hi as int) <= abs(chunk_size as int),
                    abs(chunk_center.x as int) + abs(chunk_center.y as int) + abs(chunk_size as int) < i32::MAX,
                    lo <= x <= hi,
                    lo <= y <= hi + 1,
                    generated_over(self.spec_seed(), t0, n0,
                        Set::new(|q: Position3D| chunk_prefix(chunk_center, lo as int, hi as int, x as int, y as int, q)),
                        map.tiles_view(), map.nodes_view()),
                    map.spec_id() == old(map).spec_id(),
                    map.spec_name() == old(map).spec_name(),
                    map.spec_seed() == old(map).spec_seed(),
                    map.history() == old(map).history(),
                decreases hi + 1 - y,
            {
                proof {
                    lemma_chunk_offsets_safe(chunk_center, chunk_size, lo as int, hi as int, x as int, y as int);
                }
                let pos = Position3D::new(chunk_center.x + x, chunk_center.y + y, chunk_center.z);
                let ghost t1 = map.tiles_view();
                let ghost n1 = map.nodes_view();
                let ghost region = Set::new(|q: Position3D| chunk_prefix(chunk_center, lo as int, hi as int, x as int, y as int, q));
                self.generate_at(map, pos);
                proof {
                    lemma_chunk_row_step(chunk_center, lo as int, hi as int, x as int, y as int, pos);
                    lemma_generation_step(self.spec_seed(), t0, n0, region, t1, n1, pos, map.tiles_view(), map.nodes_view());
                }
                y = y + 1;
            }
            proof {
                assert(Set::new(|q: Position3D| chunk_prefix(chunk_center, lo as int, hi as int, x as int, y as int, q))
                    =~= Set::new(|q: Position3D| chunk_prefix(chunk_center, lo as int, hi as int, x + 1, lo as int, q)));
            }
            x = x + 1;
        }
        proof {
            assert(Set::new(|q: Position3D| chunk_prefix(chunk_center, lo as int, hi as int, x as int, lo as int, q))
                =~= Set::new(|q: Position3D| in_chunk(chunk_center, chunk_size, q)));
        }
        Ok(())
    }

    /// Fill the area around the player, within the fogged sight plus the generation
    /// buffer, with generated tiles where tiles are missing (placing nodes where
    /// generation puts them); returns the coordinates generated, ordered by x and y.
    pub fn generate_tiles_around_player(&self, map: &mut WorldMap, player_position: Position3D) -> (r: DomainResult<Vec<TileCoordinate>>)
        requires
            abs(player_position.x as int) + abs(player_position.y as int) + 10 < i32::MAX,
        ensures
            r is Ok,
            generated_over(self.spec_seed(), old(map).tiles_view(), old(map).nodes_view(),
                Set::new(|q: Position3D| in_diamond(player_position, (FOGGED_VISIBLE_RADIUS + TILE_GENERATION_BUFFER) as int, q)),
                final(map).tiles_view(), final(map).nodes_view()),
            r matches Ok(v) ==> forall|c: TileCoordinate| v@.contains(c) <==> !old(map).tiles_view().dom().contains(c)
                && in_diamond(player_position, (FOGGED_VISIBLE_RADIUS + TILE_GENERATION_BUFFER) as int, tile_position(c)),
            r matches Ok(v) ==> forall|a: int, b: int| 0 <= a < b < v@.len() ==> tile_lt(#[trigger] v@[a], #[trigger] v@[b]),
            final(map).spec_id() == old(map).spec_id(),
            final(map).spec_name() == old(map).spec_name(),
            final(map).spec_seed() == old(map).spec_seed(),
            final(map).history() == old(map).history(),
    {
        let generation_radius = FOGGED_VISIBLE_RADIUS + TILE_GENERATION_BUFFER;
        let needed_positions = player_position.positions_within_distance(generation_radius);
        let ghost t0 = map.tiles_view();
        let ghost n0 = map.nodes_view();
        let ghost ps = needed_positions@;
        let mut generated_tiles: Vec<TileCoordinate> = Vec::new();
        let ghost mut idx: Seq<int> = Seq::empty();
        proof {
            assert(Set::new(|q: Position3D| exists|j: int| 0 <= j < 0 && ps[j] == q) =~= Set::<Position3D>::empty());
            lemma_generation_none(self.spec_seed(), t0, n0);
        }
        let mut i: usize = 0;
        while i < needed_positions.len()
            invariant
                ps == needed_positions@,
                0 <= i <= ps.len(),
                forall|p: Position3D| ps.contains(p) <==> in_diamond(player_position, 5, p),
                pos_sorted(ps),
                abs(player_position.x as int) + abs(player_position.y as int) + 10 < i32::MAX,
                generated_over(self.spec_seed(), t0, n0, Set::new(|q: Position3D| exists|j: int| 0 <= j < i && ps[j] == q),
                    map.tiles_view(), map.nodes_view()),
                idx.len() == generated_tiles@.len(),
                forall|k: int| 0 <= k < idx.len() ==> 0 <= #[trigger] idx[k] < i,
                forall|a: int, b: int| 0 <= a < b < idx.len() ==> #[trigger] idx[a] < #[trigger] idx[b],
                forall|k: int| 0 <= k < idx.len() ==> (#[trigger] generated_tiles@[k]) == position_tile(ps[idx[k]])
                    && !t0.dom().contains(generated_tiles@[k]),
                forall|j: int| 0 <= j < i && !t0.dom().contains(position_tile(#[trigger] ps[j]))
                    ==> exists|k: int| 0 <= k < generated_tiles@.len() && generated_tiles@[k] == position_tile(ps[j]),
                map.spec_id() == old(map).spec_id(),
                map.spec_name() == old(map).spec_name(),
                map.spec_seed() == old(map).spec_seed(),
                map.history() == old(map).history(),
            decreases ps.len() - i,
        {
            let pos = needed_positions[i];
            let ghost t1 = map.tiles_view();
            let ghost n1 = map.nodes_view();
            let ghost g0 = generated_tiles@;
            let ghost region = Set::new(|q: Position3D| exists|j: int| 0 <= j < i && ps[j] == q);
            proof {
                assert(ps.contains(pos));
                assert(!region.contains(pos)) by {
                    if region.contains(pos) {
                        let j = choose|j: int| 0 <= j < i && ps[j] == pos;
                        assert(pos_lt(ps[j], ps[i as int]));
                    }
                }
                lemma_generated_dom(self.spec_seed(), t0, n0, region, t1, n1, position_tile(pos));
                assert(tile_position(position_tile(pos)) == pos);
            }
            let coord = TileCoordinate::from(pos);
            let missing = map.get_tile(&coord).is_none();
            self.generate_at(map, pos);
            if missing {
                generated_tiles.push(coord);
                proof {
                    idx = idx.push(i as int);
                }
            }
            proof {
                lemma_generation_step(self.spec_seed(), t0, n0, region, t1, n1, pos, map.tiles_view(), map.nodes_view());
                assert(region.insert(pos) =~= Set::new(|q: Position3D| exists|j: int| 0 <= j < i + 1 && ps[j] == q));
                assert forall|j: int| 0 <= j < i + 1 && !t0.dom().contains(position_tile(#[trigger] ps[j]))
                    implies exists|k: int| 0 <= k < generated_tiles@.len() && generated_tiles@[k] == position_tile(ps[j]) by {
                    if j < i {
                        let k = choose|k: int| 0 <= k < g0.len() && g0[k] == position_tile(ps[j]);
                        assert(generated_tiles@[k] == g0[k]);
                    } else {
                        assert(generated_tiles@[generated_tiles@.len() - 1] == position_tile(ps[j]));
                    }
                }
            }
            i = i + 1;
        }
        proof {
            assert(Set::new(|q: Position3D| exists|j: int| 0 <= j < i && ps[j] == q)
                =~= Set::new(|q: Position3D| in_diamond(player_position, 5, q))) by {
                assert forall|q: Position3D| in_diamond(player_position, 5, q) implies exists|j: int| 0 <= j < i && ps[j] == q by {
                    assert(ps.contains(q));
                }
            }
            assert forall|c: TileCoordinate| generated_tiles@.contains(c) <==> !t0.dom().contains(c)
                && in_diamond(player_position, 5, tile_position(c)) by {
                if generated_tiles@.contains(c) {
                    let k = choose|k: int| 0 <= k < generated_tiles@.len() && generated_tiles@[k] == c;
                    assert(ps.contains(ps[idx[k]]));
                    assert(tile_position(c) == ps[idx[k]]);
                }
                if !t0.dom().contains(c) && in_diamond(player_position, 5, tile_position(c)) {
                    assert(ps.contains(tile_position(c)));
                    let j = choose|j: int| 0 <= j < ps.len() && ps[j] == tile_position(c);
                    assert(position_tile(ps[j]) == c);
                }
            }
            assert forall|a: int, b: int| 0 <= a < b < generated_tiles@.len() implies tile_lt(#[trigger] generated_tiles@[a], #[trigger] generated_tiles@[b]) by {
                assert(idx[a] < idx[b]);
                assert(pos_lt(ps[idx[a]], ps[idx[b]]));
            }
        }
        Ok(generated_tiles)
    }

    /// Whether at least 80% of the positions within `radius` of `center` can be
    /// entered (the ratio is compared exactly).
    pub fn validate_connectivity(&self, map: &WorldMap, center: Position3D, radius: u32) -> (r: DomainResult<bool>)
        requires
            i32::MIN <= center.x - radius && center.x + radius <= i32::MAX,
            i32::MIN <= center.y - radius && center.y + radius <= i32::MAX,
        ensures
            exists|s: Seq<Position3D>| pos_sorted(s) && (forall|p: Position3D| s.contains(p) <==> in_diamond(center, radius as int, p))
                && r == Ok::<bool, crate::domain::DomainError>(5 * #[trigger] passable_count(map.tiles_view(), s) >= 4 * s.len()),
    {
        let positions = center.positions_within_distance(radius);
        let mut passable: u64 = 0;
        let mut i: usize = 0;
        while i < positions.len()
            invariant
                0 <= i <= positions@.len(),
                passable == passable_count(map.tiles_view(), positions@.take(i as int)),
                passable <= i,
            decreases positions@.len() - i,
        {
            proof {
                assert(positions@.take(i + 1).drop_last() =~= positions@.take(i as int));
            }
            if map.is_passable(&positions[i]) {
                passable = passable + 1;
            }
            i = i + 1;
        }
        proof {
            assert(positions@.take(i as int) =~= positions@);
        }
        let total = positions.len() as u128;
        Ok(5 * (passable as u128) >= 4 * total)
    }

    /// Counts of the loaded tiles, by terrain, and of the resource nodes over the
    /// positions within `radius` of `area`.
    pub fn get_generation_stats(&self, map: &WorldMap, area: Position3D, radius: u32) -> (r: GenerationStats)
        requires
            i32::MIN <= area.x - radius && area.x + radius <= i32::MAX,
            i32::MIN <= area.y - radius && area.y + radius <= i32::MAX,
            (2 * radius + 1) * (2 * radius + 1) <= u32::MAX,
        ensures
            exists|s: Seq<Position3D>| pos_sorted(s) && (forall|p: Position3D| s.contains(p) <==> in_diamond(area, radius as int, p))
                && #[trigger] generation_counts(map.tiles_view(), map.nodes_view(), s, r),
    {
        let positions = area.positions_within_distance(radius);
        let ghost tiles = map.tiles_view();
        let ghost nodes = map.nodes_view();
        let mut stats = GenerationStats {
            total_tiles: 0, passable: 0, plains: 0, forest: 0, desert: 0, mountains: 0, tundra: 0, swamp: 0,
            ocean: 0, cave: 0, crystal: 0, constructed: 0, volcanic: 0, anomaly: 0, resource_nodes: 0,
        };
        let mut i: usize = 0;
        while i < positions.len()
            invariant
                0 <= i <= positions@.len(),
                positions@.len() <= u32::MAX,
                tiles == map.tiles_view(),
                nodes == map.nodes_view(),
                generation_counts(tiles, nodes, positions@.take(i as int), stats),
            decreases positions@.len() - i,
        {
            let pos = positions[i];
            proof {
                let t = positions@.take(i as int);
                lemma_counts_bounded(tiles, nodes, t);
                assert(positions@.take(i + 1).drop_last() =~= t);
                assert(positions@.take(i + 1).last() == pos);
            }
            let coord = TileCoordinate::from(pos);
            match map.get_tile(&coord) {
                Some(tile) => {
                    stats.total_tiles = stats.total_tiles + 1;
                    match tile.terrain_type {
                        TerrainType::Plains => stats.plains = stats.plains + 1,
                        TerrainType::Forest => stats.forest = stats.forest + 1,
                        TerrainType::Desert => stats.desert = stats.desert + 1,
                        TerrainType::Mountains => stats.mountains = stats.mountains + 1,
                        TerrainType::Tundra => stats.tundra = stats.tundra + 1,
                        TerrainType::Swamp => stats.swamp = stats.swamp + 1,
                        TerrainType::Ocean => stats.ocean = stats.ocean + 1,
                        TerrainType::Cave => stats.cave = stats.cave + 1,
                        TerrainType::Crystal => stats.crystal = stats.crystal + 1,
                        TerrainType::Constructed => stats.constructed = stats.constructed + 1,
                        TerrainType::Volcanic => stats.volcanic = stats.volcanic + 1,
                        TerrainType::Anomaly => stats.anomaly = stats.anomaly + 1,
                    }
                    if tile.terrain_type.is_passable() {
                        stats.passable = stats.passable + 1;
                    }
                },
                None => {},
            }
            if map.get_resource_node(&pos).is_some() {
                stats.resource_nodes = stats.resource_nodes + 1;
            }
            i = i + 1;
        }
        proof {
            assert(positions@.take(i as int) =~= positions@);
        }
        stats
    }

    /// Counts of biomes over the positions within `radius` of `area`.
    pub fn get_biome_stats(&self, area: Position3D, radius: u32) -> (r: BiomeStats)
        requires
            i32::MIN <= area.x - radius && area.x + radius <= i32::MAX,
            i32::MIN <= area.y - radius && area.y + radius <= i32::MAX,
            diamond_size(radius as int) <= u32::MAX,
        ensures
            exists|s: Seq<Position3D>| pos_sorted(s)
                && (forall|p: Position3D| s.contains(p) <==> crate::domain::value_objects::position::in_diamond(area, radius as int, p))
                && #[trigger] stats_count(self.spec_seed(), r, s),
            r.total_tiles == diamond_size(radius as int),
            r.temperate + r.arid + r.cold + r.wetlands + r.underground + r.artificial == r.total_tiles,
    {
        let positions = area.positions_within_distance(radius);
        let mut stats = BiomeStats::default();
        let mut i: usize = 0;
        while i < positions.len()
            invariant
                0 <= i <= positions@.len(),
                positions@.len() <= u32::MAX,
                stats_count(self.seed, stats, positions@.take(i as int)),
            decreases positions@.len() - i,
        {
            let pos = positions[i];
            let biome = self.determine_biome(pos);
            proof {
                let t = positions@.take(i as int);
                lemma_biome_count_bounded(self.seed, t, BiomeType::Temperate);
                lemma_biome_count_bounded(self.seed, t, BiomeType::Arid);
                lemma_biome_count_bounded(self.seed, t, BiomeType::Cold);
                lemma_biome_count_bounded(self.seed, t, BiomeType::Wetlands);
                lemma_biome_count_bounded(self.seed, t, BiomeType::Underground);
                lemma_biome_count_bounded(self.seed, t, BiomeType::Artificial);
                assert(positions@.take(i + 1).drop_last() =~= t);
            }
            stats.total_tiles = stats.total_tiles + 1;
            match biome {
                BiomeType::Temperate => stats.temperate = stats.temperate + 1,
                BiomeType::Arid => stats.arid = stats.arid + 1,
                BiomeType::Cold => stats.cold = stats.cold + 1,
                BiomeType::Wetlands => stats.wetlands = stats.wetlands + 1,
                BiomeType::Underground => stats.underground = stats.underground + 1,
                BiomeType::Artificial => stats.artificial = stats.artificial + 1,
            }
            i = i + 1;
        }
        assert(positions@.take(i as int) =~= positions@);
        assert(stats_count(self.spec_seed(), stats, positions@));
        proof {
            lemma_biome_counts_partition(self.seed, positions@);
        }
        stats
    }
}

impl Default for MapService {
    fn default() -> (r: Self)
        ensures
            r.spec_seed() == 12345,
    {
        Self::new(12345)
    }
}

/// The biome shares: of the hash of a cell modulo 100, 36 values give temperate
/// land (0 to 35), 20 arid (36 to 55), 15 cold (56 to 70), 10 wetlands (71 to 80),
/// 10 underground (81 to 90) and 9 artificial land (91 to 99).
pub proof fn biome_shares(h: u64)
    ensures
        biome_of_hash(h) == BiomeType::Temperate <==> h % 100 < 36,
        biome_of_hash(h) == BiomeType::Arid <==> 36 <= h % 100 < 56,
        biome_of_hash(h) == BiomeType::Cold <==> 56 <= h % 100 < 71,
        biome_of_hash(h) == BiomeType::Wetlands <==> 71 <= h % 100 < 81,
        biome_of_hash(h) == BiomeType::Underground <==> 81 <= h % 100 < 91,
        biome_of_hash(h) == BiomeType::Artificial <==> 91 <= h % 100,
{
}

/// The terrain of a position follows its biome's weights out of 100: with the
/// position's hash modulo 100 as the roll, the biome's primary terrain comes on the
/// first `primary_weight` rolls, its secondary terrain on the next
/// `secondary_weight` rolls, and its rare terrain on the rest. Every biome has a
/// rare terrain, and its three terrains differ, so each of them is generated on its
/// band of rolls and only there.
pub proof fn terrain_follows_the_biome_weights(seed: u64, p: Position3D)
    ensures
        ({
            let c = biome_config(biome_at(seed, p));
            let roll = position_hash(seed, p) % 100;
            &&& c.primary_weight + c.secondary_weight + c.rare_weight == 100
            &&& c.primary_terrain != c.secondary_terrain
            &&& c.rare_terrain is Some
            &&& c.rare_terrain->0 != c.primary_terrain && c.rare_terrain->0 != c.secondary_terrain
            &&& (terrain_at(seed, p) == c.primary_terrain <==> roll < c.primary_weight)
            &&& (terrain_at(seed, p) == c.secondary_terrain <==> c.primary_weight <= roll < c.primary_weight + c.secondary_weight)
            &&& (terrain_at(seed, p) == c.rare_terrain->0 <==> c.primary_weight + c.secondary_weight <= roll)
        }),
{
}

/// The biomes' terrains: temperate land is plains with forest (and rare built
/// ground), arid land desert with plains (rare volcanic), cold land tundra with
/// mountains (rare crystal), wetlands swamp with plains (rare ocean), underground
/// caves with mountains (rare crystal), and artificial land built ground with
/// plains (rare anomalies). The secondary terrain takes 35, 25, 35, 30, 20 and 40
/// rolls of 100 in that order, after the primary's 60, 70, 60, 65, 70 and 50.
pub proof fn biome_terrain_bands(seed: u64, p: Position3D)
    ensures
        ({
            let roll = position_hash(seed, p) % 100;
            let t = terrain_at(seed, p);
            match biome_at(seed, p) {
                BiomeType::Temperate => t == (if roll < 60 { TerrainType::Plains } else if roll < 95 { TerrainType::Forest } else { TerrainType::Constructed }),
                BiomeType::Arid => t == (if roll < 70 { TerrainType::Desert } else if roll < 95 { TerrainType::Plains } else { TerrainType::Volcanic }),
                BiomeType::Cold => t == (if roll < 60 { TerrainType::Tundra } else if roll < 95 { TerrainType::Mountains } else { TerrainType::Crystal }),
                BiomeType::Wetlands => t == (if roll < 65 { TerrainType::Swamp } else if roll < 95 { TerrainType::Plains } else { TerrainType::Ocean }),
                BiomeType::Underground => t == (if roll < 70 { TerrainType::Cave } else if roll < 90 { TerrainType::Mountains } else { TerrainType::Crystal }),
                BiomeType::Artificial => t == (if roll < 50 { TerrainType::Constructed } else if roll < 90 { TerrainType::Plains } else { TerrainType::Anomaly }),
            }
        }),
{
}

/// Generation only fills gaps: generating again over a region already generated
/// changes neither the tiles nor the resource nodes.
pub proof fn generating_twice_changes_nothing(
    seed: u64,
    t0: Map<TileCoordinate, MapTile>,
    n0: Map<Position3D, ResourceNode>,
    region: Set<Position3D>,
    t1: Map<TileCoordinate, MapTile>,
    n1: Map<Position3D, ResourceNode>,
    t2: Map<TileCoordinate, MapTile>,
    n2: Map<Position3D, ResourceNode>,
)
    requires
        generated_over(seed, t0, n0, region, t1, n1),
        generated_over(seed, t1, n1, region, t2, n2),
    ensures
        t2 == t1,
        n2 == n1,
{
    reveal(generated_over);
    assert forall|p: Position3D| region.contains(p) implies t1.dom().contains(position_tile(p)) by {
        assert(tile_position(position_tile(p)) == p);
    }
    assert(t2 =~= t1);
    assert(n2 =~= n1);
}

} // verus!
