//! The game world: its tiles and the resource nodes placed on them.
use crate::clock::utc_now_millis;
use crate::domain::constants::{FOGGED_VISIBLE_RADIUS, HISTORY_TILE_RADIUS, PLAYER_HISTORY_SIZE, TILE_GENERATION_BUFFER};
use crate::domain::value_objects::position::{in_diamond, tile_lt, Position3D, TileCoordinate};
use crate::domain::value_objects::resources::ResourceNodeProperties;
use crate::domain::value_objects::terrain::{Elevation, TerrainType};
use crate::domain::value_objects::EntityId;
use crate::domain::services::map_service::{abs, generated_over, in_chunk, MapService};
use crate::domain::{next_version, DomainError, DomainResult};
use crate::text::{byte_len, decimal, utf8_len};
use vstd::prelude::*;

verus! {

/// Radius around the player within which loaded tiles stay loaded: the fogged sight
/// plus the generation buffer, the area that generation fills around the player.
pub const VISIBLE_TILE_RADIUS: u32 = 5;

/// The map that a list of entries describes: a later entry for a key replaces an
/// earlier one.
pub open spec fn entries_map<K, V>(s: Seq<(K, V)>) -> Map<K, V>
    decreases s.len(),
{
    if s.len() == 0 {
        Map::empty()
    } else {
        entries_map(s.drop_last()).insert(s.last().0, s.last().1)
    }
}

pub(crate) proof fn lemma_entries_dom<K, V>(s: Seq<(K, V)>, k: K)
    ensures
        entries_map(s).dom().contains(k) <==> exists|i: int| 0 <= i < s.len() && (#[trigger] s[i]).0 == k,
    decreases s.len(),
{
    if s.len() > 0 {
        let t = s.drop_last();
        lemma_entries_dom(t, k);
        if entries_map(s).dom().contains(k) {
            if s.last().0 == k {
                assert(s[s.len() - 1].0 == k);
            } else {
                let i = choose|i: int| 0 <= i < t.len() && (#[trigger] t[i]).0 == k;
                assert(s[i] == t[i]);
            }
        }
        if exists|i: int| 0 <= i < s.len() && (#[trigger] s[i]).0 == k {
            let i = choose|i: int| 0 <= i < s.len() && (#[trigger] s[i]).0 == k;
            if i < s.len() - 1 {
                assert(t[i] == s[i]);
            }
        }
    }
}

pub(crate) proof fn lemma_entries_value<K, V>(s: Seq<(K, V)>, i: int)
    requires
        0 <= i < s.len(),
        forall|j: int| i < j < s.len() ==> (#[trigger] s[j]).0 != s[i].0,
    ensures
        entries_map(s).dom().contains(s[i].0),
        entries_map(s)[s[i].0] == s[i].1,
    decreases s.len(),
{
    if i < s.len() - 1 {
        let t = s.drop_last();
        assert(t[i] == s[i]);
        assert(s.last().0 != s[i].0) by {
            assert(s[s.len() - 1].0 != s[i].0);
        }
        lemma_entries_value(t, i);
    }
}

pub(crate) proof fn lemma_entries_update<K, V>(s: Seq<(K, V)>, i: int, v: V)
    requires
        0 <= i < s.len(),
        forall|j: int| i < j < s.len() ==> (#[trigger] s[j]).0 != s[i].0,
    ensures
        entries_map(s.update(i, (s[i].0, v))) =~= entries_map(s).insert(s[i].0, v),
    decreases s.len(),
{
    let k = s[i].0;
    let u = s.update(i, (k, v));
    let t = s.drop_last();
    if i == s.len() - 1 {
        assert(u.drop_last() =~= t);
    } else {
        assert(u.drop_last() =~= t.update(i, (k, v)));
        assert(t[i] == s[i]);
        lemma_entries_update(t, i, v);
        assert(s.last().0 != k) by {
            assert(s[s.len() - 1].0 != k);
        }
        assert(u.last() == s.last());
    }
}

pub(crate) proof fn lemma_entries_push<K, V>(s: Seq<(K, V)>, e: (K, V))
    ensures
        entries_map(s.push(e)) == entries_map(s).insert(e.0, e.1),
{
    assert(s.push(e).drop_last() =~= s);
}

pub(crate) proof fn lemma_entries_remove<K, V>(s: Seq<(K, V)>, i: int)
    requires
        0 <= i < s.len(),
        forall|a: int, b: int| 0 <= a < b < s.len() ==> (#[trigger] s[a]).0 != (#[trigger] s[b]).0,
    ensures
        entries_map(s.remove(i)) =~= entries_map(s).remove(s[i].0),
{
    let r = s.remove(i);
    assert forall|k: K| #[trigger] entries_map(r).dom().contains(k) <==> entries_map(s).remove(s[i].0).dom().contains(k) by {
        lemma_entries_dom(r, k);
        lemma_entries_dom(s, k);
        if entries_map(r).dom().contains(k) {
            let j = choose|j: int| 0 <= j < r.len() && (#[trigger] r[j]).0 == k;
            if j < i {
                assert(r[j] == s[j]);
            } else {
                assert(r[j] == s[j + 1]);
            }
        }
        if entries_map(s).remove(s[i].0).dom().contains(k) {
            let j = choose|j: int| 0 <= j < s.len() && (#[trigger] s[j]).0 == k;
            if j < i {
                assert(r[j] == s[j]);
            } else {
                assert(j != i);
                assert(r[j - 1] == s[j]);
            }
        }
    }
    assert forall|k: K| #[trigger] entries_map(r).dom().contains(k) implies entries_map(r)[k] == entries_map(s)[k] by {
        lemma_entries_dom(r, k);
        let j = choose|j: int| 0 <= j < r.len() && (#[trigger] r[j]).0 == k;
        let js = if j < i { j } else { j + 1 };
        assert(r[j] == s[js]);
        lemma_entries_value(r, j);
        lemma_entries_value(s, js);
    }
}

pub(crate) proof fn lemma_entries_filter<K, V>(s: Seq<(K, V)>, f: spec_fn((K, V)) -> bool, keep: spec_fn(K) -> bool)
    requires
        forall|e: (K, V)| #[trigger] f(e) == keep(e.0),
    ensures
        entries_map(s.filter(f)) =~= entries_map(s).restrict(Set::new(keep)),
    decreases s.len(),
{
    if s.len() > 0 {
        let t = s.drop_last();
        let e = s.last();
        assert(s =~= t.push(e));
        t.lemma_filter_push(e, f);
        lemma_entries_filter(t, f, keep);
        if keep(e.0) {
            lemma_entries_push(t.filter(f), e);
        }
    } else {
        assert(s.filter(f) =~= Seq::<(K, V)>::empty()) by {
            reveal(Seq::filter);
        }
    }
}

/// With each key once, the map has as many keys as there are entries.
pub(crate) proof fn lemma_entries_len<K, V>(s: Seq<(K, V)>)
    requires
        keys_unique(s),
    ensures
        entries_map(s).dom().finite(),
        entries_map(s).dom().len() == s.len(),
    decreases s.len(),
{
    if s.len() > 0 {
        let t = s.drop_last();
        assert(keys_unique(t)) by {
            assert forall|i: int, j: int| 0 <= i < j < t.len() implies (#[trigger] t[i]).0 != (#[trigger] t[j]).0 by {
                assert(s[i].0 != s[j].0);
            }
        }
        lemma_entries_len(t);
        lemma_entries_dom(t, s.last().0);
        if exists|i: int| 0 <= i < t.len() && (#[trigger] t[i]).0 == s.last().0 {
            let i = choose|i: int| 0 <= i < t.len() && (#[trigger] t[i]).0 == s.last().0;
            assert(s[i].0 != s[s.len() - 1].0);
        }
    } else {
        assert(entries_map(s).dom() =~= Set::<K>::empty());
    }
}

/// A tile of the world.
#[derive(Debug, Clone, Copy, PartialEq)]
pub struct MapTile {
    pub terrain_type: TerrainType,
    pub elevation: Elevation,
    pub is_explored: bool,
    /// When the tile was last visited (milliseconds since the epoch, UTC).
    pub last_visited: Option<i64>,
}

impl MapTile {
    /// A tile never visited.
    pub fn new(terrain_type: TerrainType, elevation: Elevation, is_explored: bool) -> (r: Self)
        ensures
            r == (MapTile { terrain_type, elevation, is_explored, last_visited: None }),
    {
        MapTile { terrain_type, elevation, is_explored, last_visited: None }
    }

    /// Mark the tile explored, visited now.
    pub fn explore(&mut self)
        ensures
            final(self).is_explored,
            final(self).last_visited is Some,
            final(self).terrain_type == old(self).terrain_type,
            final(self).elevation == old(self).elevation,
    {
        self.is_explored = true;
        self.last_visited = Some(utc_now_millis());
    }

    /// Whether the tile has been explored.
    pub fn is_explored(&self) -> (r: bool)
        ensures
            r == self.is_explored,
    {
        self.is_explored
    }
}

/// A place where a resource can be harvested, regenerating over time.
#[derive(Debug, Clone, Copy, PartialEq)]
pub struct ResourceNode {
    id: EntityId,
    properties: ResourceNodeProperties,
    max_capacity: u32,
    current_amount: u32,
    last_harvested: Option<i64>,
    total_harvested: u32,
    created_at: i64,
}

/// The units a node of `capacity` regenerates per tick at `percent` percent.
pub open spec fn regeneration_units(capacity: u32, percent: u32) -> int {
    capacity as int * percent as int / 100
}

/// Whole minutes from `from` to `to` (milliseconds), rounded toward zero.
pub open spec fn whole_minutes(from: i64, to: i64) -> int {
    let d = to as int - from as int;
    if d >= 0 { d / 60_000 } else { -((-d) / 60_000) }
}

impl ResourceNode {
    #[verifier::type_invariant]
    spec fn within_capacity(&self) -> bool {
        self.current_amount <= self.max_capacity
    }

    /// The identity of the node.
    pub closed spec fn spec_id(&self) -> EntityId { self.id }

    /// The properties of the node.
    pub closed spec fn spec_properties(&self) -> ResourceNodeProperties { self.properties }

    /// Units the node holds at most.
    pub closed spec fn spec_capacity(&self) -> u32 { self.max_capacity }

    /// Units available now.
    pub closed spec fn spec_amount(&self) -> u32 { self.current_amount }

    /// When the node was last harvested (milliseconds since the epoch, UTC).
    pub closed spec fn spec_last_harvested(&self) -> Option<i64> { self.last_harvested }

    /// Units harvested so far.
    pub closed spec fn spec_total_harvested(&self) -> u32 { self.total_harvested }

    /// A node holding `current_amount` units, at most its capacity, never harvested.
    pub fn new(id: EntityId, properties: ResourceNodeProperties, max_capacity: u32, current_amount: u32) -> (r: Self)
        ensures
            r.spec_id() == id,
            r.spec_properties() == properties,
            r.spec_capacity() == max_capacity,
            r.spec_amount() == (if current_amount < max_capacity { current_amount } else { max_capacity }),
            r.spec_last_harvested() is None,
            r.spec_total_harvested() == 0,
    {
        ResourceNode {
            id,
            properties,
            max_capacity,
            current_amount: if current_amount < max_capacity { current_amount } else { max_capacity },
            last_harvested: None,
            total_harvested: 0,
            created_at: utc_now_millis(),
        }
    }

    /// The identity of the node.
    pub fn id(&self) -> (r: &EntityId)
        ensures
            *r == self.spec_id(),
    {
        &self.id
    }

    /// The properties of the node.
    pub fn properties(&self) -> (r: &ResourceNodeProperties)
        ensures
            *r == self.spec_properties(),
    {
        &self.properties
    }

    /// Units available now.
    pub fn current_amount(&self) -> (r: u32)
        ensures
            r == self.spec_amount(),
            r <= self.spec_capacity(),
    {
        proof { use_type_invariant(self); }
        self.current_amount
    }

    /// Units the node holds at most.
    pub fn max_capacity(&self) -> (r: u32)
        ensures
            r == self.spec_capacity(),
    {
        self.max_capacity
    }

    /// Whether nothing is left.
    pub fn is_depleted(&self) -> (r: bool)
        ensures
            r == (self.spec_amount() == 0),
    {
        self.current_amount == 0
    }

    /// Whether the node is at capacity.
    pub fn is_full(&self) -> (r: bool)
        ensures
            r == (self.spec_amount() >= self.spec_capacity()),
    {
        self.current_amount >= self.max_capacity
    }

    /// Take up to `amount` units, recording the harvest; returns the units taken.
    pub fn harvest(&mut self, amount: u32) -> (r: u32)
        requires
            old(self).spec_total_harvested() + (if amount < old(self).spec_amount() { amount } else { old(self).spec_amount() }) <= u32::MAX,
        ensures
            r == (if amount < old(self).spec_amount() { amount } else { old(self).spec_amount() }),
            final(self).spec_amount() == old(self).spec_amount() - r,
            final(self).spec_total_harvested() == old(self).spec_total_harvested() + r,
            final(self).spec_last_harvested() is Some,
            final(self).spec_capacity() == old(self).spec_capacity(),
            final(self).spec_properties() == old(self).spec_properties(),
            final(self).spec_id() == old(self).spec_id(),
    {
        proof { use_type_invariant(&*self); }
        let harvested = if amount < self.current_amount { amount } else { self.current_amount };
        self.current_amount = self.current_amount - harvested;
        self.total_harvested = self.total_harvested + harvested;
        self.last_harvested = Some(utc_now_millis());
        harvested
    }

    /// Regenerate at `current_time` (milliseconds since the epoch, UTC): once the
    /// regeneration interval has passed since the last harvest, the node regains its
    /// regeneration percent of its capacity, up to the capacity. Returns the units
    /// regained. The whole minutes elapsed are taken as a `u32`, as the game counts
    /// them.
    pub fn regenerate(&mut self, current_time: i64) -> (r: u32)
        requires
            old(self).spec_amount() + regeneration_units(old(self).spec_capacity(), old(self).spec_properties().regeneration_rate.spec_percent()) <= u32::MAX,
        ensures
            ({
                let rate = old(self).spec_properties().regeneration_rate;
                let due = match (old(self).spec_last_harvested(), rate.spec_interval()) {
                    (Some(t), Some(interval)) => (whole_minutes(t, current_time) as i64) as u32 >= interval,
                    _ => false,
                };
                let grown = old(self).spec_amount() + regeneration_units(old(self).spec_capacity(), rate.spec_percent());
                let next = if grown < old(self).spec_capacity() { grown } else { old(self).spec_capacity() as int };
                &&& due ==> final(self).spec_amount() == next && r == next - old(self).spec_amount()
                &&& !due ==> final(self).spec_amount() == old(self).spec_amount() && r == 0
            }),
            final(self).spec_capacity() == old(self).spec_capacity(),
            final(self).spec_properties() == old(self).spec_properties(),
            final(self).spec_last_harvested() == old(self).spec_last_harvested(),
            final(self).spec_total_harvested() == old(self).spec_total_harvested(),
            final(self).spec_id() == old(self).spec_id(),
    {
        proof { use_type_invariant(&*self); }
        if let Some(last_harvested) = self.last_harvested {
            if let Some(interval) = self.properties.regeneration_rate.regeneration_interval_minutes() {
                let minutes: i64 = minutes_between(last_harvested, current_time);
                let minutes_elapsed = minutes as u32;
                if minutes_elapsed >= interval {
                    let percent = self.properties.regeneration_rate.regeneration_percent();
                    let regen_amount = ((self.max_capacity as u64 * percent as u64) / 100) as u32;
                    let old_amount = self.current_amount;
                    let grown = self.current_amount + regen_amount;
                    self.current_amount = if grown < self.max_capacity { grown } else { self.max_capacity };
                    return self.current_amount - old_amount;
                }
            }
        }
        0
    }

    /// Units harvested so far.
    pub fn total_harvested(&self) -> (r: u32)
        ensures
            r == self.spec_total_harvested(),
    {
        self.total_harvested
    }

    /// When the node was last harvested (milliseconds since the epoch, UTC).
    pub fn last_harvested(&self) -> (r: Option<i64>)
        ensures
            r == self.spec_last_harvested(),
    {
        self.last_harvested
    }
}

/// Whole minutes from `from` to `to`, rounded toward zero.
fn minutes_between(from: i64, to: i64) -> (r: i64)
    ensures
        r == whole_minutes(from, to),
{
    let d: i128 = to as i128 - from as i128;
    let m: i128 = if d >= 0 { d / 60_000 } else { -((-d) / 60_000) };
    assert(-0x1_0000_0000_0000_0000 <= d <= 0x1_0000_0000_0000_0000);
    assert(-0x4_0000_0000_0000 <= m <= 0x4_0000_0000_0000) by (nonlinear_arith)
        requires
            -0x1_0000_0000_0000_0000 <= d <= 0x1_0000_0000_0000_0000,
            m == if d >= 0 { d / 60_000 } else { -((-d) / 60_000) },
    ;
    m as i64
}


/// The world position of a tile coordinate.
pub open spec fn tile_position(c: TileCoordinate) -> Position3D {
    Position3D { x: c.x, y: c.y, z: c.z }
}

/// The tile coordinate of a world position.
pub open spec fn position_tile(p: Position3D) -> TileCoordinate {
    TileCoordinate { x: p.x, y: p.y, z: p.z }
}

/// No key occurs twice among the entries.
pub open spec fn keys_unique<K, V>(s: Seq<(K, V)>) -> bool {
    forall|i: int, j: int| 0 <= i < j < s.len() ==> (#[trigger] s[i]).0 != (#[trigger] s[j]).0
}

/// The recent positions after moving to `p`: the oldest is dropped past the limit.
pub open spec fn next_history(h: Seq<Position3D>, p: Position3D) -> Seq<Position3D> {
    if h.push(p).len() > PLAYER_HISTORY_SIZE { h.push(p).drop_first() } else { h.push(p) }
}

/// Whether a tile lies next to (within the history radius of) a recent position.
pub open spec fn near_history(h: Seq<Position3D>, c: TileCoordinate) -> bool {
    exists|i: int| 0 <= i < h.len() && in_diamond(#[trigger] h[i], HISTORY_TILE_RADIUS as int, tile_position(c))
}

/// Whether a tile stays loaded with the player at `p` and recent positions `h`.
pub open spec fn stays_loaded(p: Position3D, h: Seq<Position3D>, c: TileCoordinate) -> bool {
    in_diamond(p, VISIBLE_TILE_RADIUS as int, tile_position(c)) || near_history(h, c)
}

/// Whether a map name has from 1 to 100 bytes.
pub open spec fn valid_map_name(name: Seq<char>) -> bool {
    name.len() > 0 && utf8_len(name) <= 100
}

/// Whether tile `c` lies within `radius` of `center` on its level.
fn tile_within(center: &Position3D, radius: u32, c: &TileCoordinate) -> (r: bool)
    ensures
        r == in_diamond(*center, radius as int, tile_position(*c)),
{
    if c.z != center.z {
        return false;
    }
    let dx: i64 = c.x as i64 - center.x as i64;
    let dy: i64 = c.y as i64 - center.y as i64;
    let adx: i64 = if dx < 0 { -dx } else { dx };
    let ady: i64 = if dy < 0 { -dy } else { dy };
    adx + ady <= radius as i64
}

/// The game world.
#[derive(Debug, PartialEq)]
pub struct WorldMap {
    id: EntityId,
    name: String,
    seed: u64,
    tiles: Vec<(TileCoordinate, MapTile)>,
    resource_nodes: Vec<(Position3D, ResourceNode)>,
    created_at: i64,
    last_updated: i64,
    version: u64,
    player_history: Vec<Position3D>,
    cache_dir: String,
}

impl WorldMap {
    #[verifier::type_invariant]
    spec fn well_formed(&self) -> bool {
        &&& keys_unique(self.tiles@)
        &&& keys_unique(self.resource_nodes@)
        &&& self.player_history@.len() <= PLAYER_HISTORY_SIZE
    }

    /// The identity of the map.
    pub closed spec fn spec_id(&self) -> EntityId { self.id }

    /// The name of the map.
    pub closed spec fn spec_name(&self) -> Seq<char> { self.name@ }

    /// The generation seed of the map.
    pub closed spec fn spec_seed(&self) -> u64 { self.seed }

    /// The loaded tiles, in the order they were first set.
    pub closed spec fn tile_entries(&self) -> Seq<(TileCoordinate, MapTile)> { self.tiles@ }

    /// The loaded tiles by coordinate.
    pub open spec fn tiles_view(&self) -> Map<TileCoordinate, MapTile> { entries_map(self.tile_entries()) }

    /// The resource nodes, in the order they were first placed.
    pub closed spec fn node_entries(&self) -> Seq<(Position3D, ResourceNode)> { self.resource_nodes@ }

    /// The resource nodes by position.
    pub open spec fn nodes_view(&self) -> Map<Position3D, ResourceNode> { entries_map(self.node_entries()) }

    /// The player's recent positions, oldest first.
    pub closed spec fn history(&self) -> Seq<Position3D> { self.player_history@ }

    /// Number of changes made to the map.
    pub closed spec fn spec_version(&self) -> u64 { self.version }

    /// An empty map named `name` (1 to 100 bytes).
    pub fn new(id: EntityId, name: String, seed: u64) -> (r: DomainResult<Self>)
        ensures
            r is Ok <==> valid_map_name(name@),
            r matches Err(e) ==> e == DomainError::ValidationError(e->ValidationError_0)
                && e->ValidationError_0@ == "Map name must be between 1 and 100 characters"@,
            r matches Ok(m) ==> m.spec_id() == id && m.spec_name() == name@ && m.spec_seed() == seed
                && m.tile_entries().len() == 0 && m.node_entries().len() == 0 && m.history().len() == 0
                && m.spec_version() == 1,
    {
        let len = byte_len(name.as_str());
        if name.as_str().unicode_len() == 0 || len > 100 {
            return Err(DomainError::ValidationError(String::from_str("Map name must be between 1 and 100 characters")));
        }
        let now = utc_now_millis();
        let mut cache_dir = String::from_str("cache/maps/ID(");
        crate::text::append_decimal(&mut cache_dir, id.0);
        cache_dir.append(")");
        Ok(WorldMap {
            id,
            name,
            seed,
            tiles: Vec::new(),
            resource_nodes: Vec::new(),
            created_at: now,
            last_updated: now,
            version: 1,
            player_history: Vec::new(),
            cache_dir,
        })
    }

    /// The identity of the map.
    pub fn id(&self) -> (r: &EntityId)
        ensures
            *r == self.spec_id(),
    {
        &self.id
    }

    /// The name of the map.
    pub fn name(&self) -> (r: &str)
        ensures
            r@ == self.spec_name(),
    {
        self.name.as_str()
    }

    /// The generation seed of the map.
    pub fn seed(&self) -> (r: u64)
        ensures
            r == self.spec_seed(),
    {
        self.seed
    }

    fn last_tile_index(&self, c: &TileCoordinate) -> (r: Option<usize>)
        ensures
            r matches Some(i) ==> i < self.tile_entries().len() && self.tile_entries()[i as int].0 == *c
                && forall|j: int| i < j < self.tile_entries().len() ==> (#[trigger] self.tile_entries()[j]).0 != *c,
            r is None ==> forall|j: int| 0 <= j < self.tile_entries().len() ==> (#[trigger] self.tile_entries()[j]).0 != *c,
    {
        let mut i = self.tiles.len();
        while i > 0
            invariant
                i <= self.tiles@.len(),
                forall|j: int| i <= j < self.tiles@.len() ==> (#[trigger] self.tiles@[j]).0 != *c,
            decreases i,
        {
            let k = i - 1;
            if self.tiles[k].0 == *c {
                return Some(k);
            }
            i = k;
        }
        None
    }

    /// The tile at a coordinate, if loaded.
    pub fn get_tile(&self, coordinate: &TileCoordinate) -> (r: Option<&MapTile>)
        ensures
            r is Some <==> self.tiles_view().dom().contains(*coordinate),
            r matches Some(t) ==> *t == self.tiles_view()[*coordinate],
    {
        proof { lemma_entries_dom(self.tiles@, *coordinate); }
        match self.last_tile_index(coordinate) {
            Some(i) => {
                proof { lemma_entries_value(self.tiles@, i as int); }
                Some(&self.tiles[i].1)
            },
            None => None,
        }
    }

    /// Set the tile at a coordinate.
    pub fn set_tile(&mut self, coordinate: TileCoordinate, tile: MapTile)
        ensures
            final(self).tiles_view() == old(self).tiles_view().insert(coordinate, tile),
            final(self).nodes_view() == old(self).nodes_view(),
            final(self).node_entries() == old(self).node_entries(),
            final(self).history() == old(self).history(),
            final(self).spec_id() == old(self).spec_id(),
            final(self).spec_name() == old(self).spec_name(),
            final(self).spec_seed() == old(self).spec_seed(),
            final(self).spec_version() == next_version(old(self).spec_version()),
    {
        proof { use_type_invariant(&*self); }
        let found = self.last_tile_index(&coordinate);
        let mut tiles: Vec<(TileCoordinate, MapTile)> = Vec::new();
        std::mem::swap(&mut tiles, &mut self.tiles);
        let ghost before = tiles@;
        match found {
            Some(i) => {
                tiles.set(i, (coordinate, tile));
                proof {
                    lemma_entries_update(before, i as int, tile);
                    assert(tiles@ == before.update(i as int, (coordinate, tile)));
                    assert(keys_unique(tiles@)) by {
                        assert forall|a: int, b: int| 0 <= a < b < tiles@.len() implies (#[trigger] tiles@[a]).0 != (#[trigger] tiles@[b]).0 by {
                            if a != i as int && b != i as int {
                                assert(tiles@[a] == before[a] && tiles@[b] == before[b]);
                            } else if a == i as int {
                                assert(before[b].0 != before[a].0);
                            } else {
                                assert(before[a].0 != before[b].0);
                            }
                        }
                    }
                }
            },
            None => {
                tiles.push((coordinate, tile));
                proof {
                    lemma_entries_push(before, (coordinate, tile));
                    assert(keys_unique(tiles@)) by {
                        assert forall|a: int, b: int| 0 <= a < b < tiles@.len() implies (#[trigger] tiles@[a]).0 != (#[trigger] tiles@[b]).0 by {
                            if b < before.len() {
                                assert(tiles@[a] == before[a] && tiles@[b] == before[b]);
                            } else {
                                assert(tiles@[a] == before[a]);
                                assert(old(self).tile_entries()[a].0 != coordinate);
                            }
                        }
                    }
                }
            },
        }
        self.tiles = tiles;
        self.last_updated = utc_now_millis();
        self.version = if self.version < u64::MAX { self.version + 1 } else { 0 };
    }

    /// The loaded tiles, each coordinate once, in the order they were first set.
    pub fn tiles(&self) -> (r: &[(TileCoordinate, MapTile)])
        ensures
            r@ == self.tile_entries(),
            entries_map(r@) == self.tiles_view(),
            keys_unique(r@),
    {
        proof { use_type_invariant(self); }
        self.tiles.as_slice()
    }

    fn last_node_index(&self, p: &Position3D) -> (r: Option<usize>)
        ensures
            r matches Some(i) ==> i < self.node_entries().len() && self.node_entries()[i as int].0 == *p
                && forall|j: int| i < j < self.node_entries().len() ==> (#[trigger] self.node_entries()[j]).0 != *p,
            r is None ==> forall|j: int| 0 <= j < self.node_entries().len() ==> (#[trigger] self.node_entries()[j]).0 != *p,
    {
        let mut i = self.resource_nodes.len();
        while i > 0
            invariant
                i <= self.resource_nodes@.len(),
                forall|j: int| i <= j < self.resource_nodes@.len() ==> (#[trigger] self.resource_nodes@[j]).0 != *p,
            decreases i,
        {
            let k = i - 1;
            if self.resource_nodes[k].0 == *p {
                return Some(k);
            }
            i = k;
        }
        None
    }

    /// The resource node at a position, if any.
    pub fn get_resource_node(&self, position: &Position3D) -> (r: Option<&ResourceNode>)
        ensures
            r is Some <==> self.nodes_view().dom().contains(*position),
            r matches Some(n) ==> *n == self.nodes_view()[*position],
    {
        proof { lemma_entries_dom(self.resource_nodes@, *position); }
        match self.last_node_index(position) {
            Some(i) => {
                proof { lemma_entries_value(self.resource_nodes@, i as int); }
                Some(&self.resource_nodes[i].1)
            },
            None => None,
        }
    }

    /// Place a resource node at a position, replacing any there.
    pub fn add_resource_node(&mut self, position: Position3D, node: ResourceNode)
        ensures
            final(self).nodes_view() == old(self).nodes_view().insert(position, node),
            final(self).tiles_view() == old(self).tiles_view(),
            final(self).tile_entries() == old(self).tile_entries(),
            final(self).history() == old(self).history(),
            final(self).spec_id() == old(self).spec_id(),
            final(self).spec_name() == old(self).spec_name(),
            final(self).spec_seed() == old(self).spec_seed(),
            final(self).spec_version() == next_version(old(self).spec_version()),
    {
        proof { use_type_invariant(&*self); }
        let found = self.last_node_index(&position);
        let mut nodes: Vec<(Position3D, ResourceNode)> = Vec::new();
        std::mem::swap(&mut nodes, &mut self.resource_nodes);
        let ghost before = nodes@;
        match found {
            Some(i) => {
                nodes.set(i, (position, node));
                proof {
                    lemma_entries_update(before, i as int, node);
                    assert(nodes@ == before.update(i as int, (position, node)));
                    assert(keys_unique(nodes@)) by {
                        assert forall|a: int, b: int| 0 <= a < b < nodes@.len() implies (#[trigger] nodes@[a]).0 != (#[trigger] nodes@[b]).0 by {
                            if a != i as int && b != i as int {
                                assert(nodes@[a] == before[a] && nodes@[b] == before[b]);
                            } else if a == i as int {
                                assert(before[b].0 != before[a].0);
                            } else {
                                assert(before[a].0 != before[b].0);
                            }
                        }
                    }
                }
            },
            None => {
                nodes.push((position, node));
                proof {
                    lemma_entries_push(before, (position, node));
                    assert(keys_unique(nodes@)) by {
                        assert forall|a: int, b: int| 0 <= a < b < nodes@.len() implies (#[trigger] nodes@[a]).0 != (#[trigger] nodes@[b]).0 by {
                            if b < before.len() {
                                assert(nodes@[a] == before[a] && nodes@[b] == before[b]);
                            } else {
                                assert(nodes@[a] == before[a]);
                                assert(old(self).node_entries()[a].0 != position);
                            }
                        }
                    }
                }
            },
        }
        self.resource_nodes = nodes;
        self.last_updated = utc_now_millis();
        self.version = if self.version < u64::MAX { self.version + 1 } else { 0 };
    }

    /// The resource nodes, each position once, in the order they were first placed.
    pub fn resource_nodes(&self) -> (r: &[(Position3D, ResourceNode)])
        ensures
            r@ == self.node_entries(),
            entries_map(r@) == self.nodes_view(),
            keys_unique(r@),
    {
        proof { use_type_invariant(self); }
        self.resource_nodes.as_slice()
    }

    /// Whether tile `c` stays loaded with the player at `position` and recent positions `history`.
    fn stays_loaded_exec(position: &Position3D, history: &Vec<Position3D>, c: &TileCoordinate) -> (r: bool)
        ensures
            r == stays_loaded(*position, history@, *c),
    {
        if tile_within(position, VISIBLE_TILE_RADIUS, c) {
            return true;
        }
        let mut i: usize = 0;
        while i < history.len()
            invariant
                0 <= i <= history@.len(),
                forall|j: int| 0 <= j < i ==> !in_diamond(#[trigger] history@[j], HISTORY_TILE_RADIUS as int, tile_position(*c)),
            decreases history@.len() - i,
        {
            if tile_within(&history[i], HISTORY_TILE_RADIUS, c) {
                assert(in_diamond(history@[i as int], HISTORY_TILE_RADIUS as int, tile_position(*c)));
                return true;
            }
            i = i + 1;
        }
        false
    }

    /// Record that the player moved to `position` and unload the tiles far from the
    /// player: the ten most recent positions are kept, and a tile stays loaded within
    /// five steps of the player or next to a recent position.
    pub fn update_player_position(&mut self, position: Position3D)
        ensures
            final(self).history() == next_history(old(self).history(), position),
            final(self).tile_entries() == old(self).tile_entries().filter(
                |e: (TileCoordinate, MapTile)| stays_loaded(position, final(self).history(), e.0)),
            final(self).tiles_view() == old(self).tiles_view().restrict(
                Set::new(|c: TileCoordinate| stays_loaded(position, final(self).history(), c))),
            final(self).node_entries() == old(self).node_entries(),
            final(self).nodes_view() == old(self).nodes_view(),
            final(self).spec_id() == old(self).spec_id(),
            final(self).spec_name() == old(self).spec_name(),
            final(self).spec_seed() == old(self).spec_seed(),
            final(self).spec_version() == old(self).spec_version(),
    {
        proof { use_type_invariant(&*self); }
        let mut history: Vec<Position3D> = Vec::new();
        std::mem::swap(&mut history, &mut self.player_history);
        history.push(position);
        if history.len() > PLAYER_HISTORY_SIZE {
            history.remove(0);
            proof {
                assert(history@ =~= next_history(old(self).history(), position));
            }
        }
        let ghost h = history@;
        let ghost keep = |c: TileCoordinate| stays_loaded(position, h, c);
        let ghost f = |e: (TileCoordinate, MapTile)| stays_loaded(position, h, e.0);
        let mut remaining: Vec<(TileCoordinate, MapTile)> = Vec::new();
        std::mem::swap(&mut remaining, &mut self.tiles);
        let ghost all = remaining@;
        let mut kept: Vec<(TileCoordinate, MapTile)> = Vec::new();
        let ghost mut i: int = 0;
        while remaining.len() > 0
            invariant
                f == (|e: (TileCoordinate, MapTile)| stays_loaded(position, h, e.0)),
                history@ == h,
                keys_unique(all),
                0 <= i <= all.len(),
                remaining@ == all.skip(i),
                kept@ == all.take(i).filter(f),
                keys_unique(kept@),
                forall|k: int| 0 <= k < kept@.len() ==> exists|j: int| 0 <= j < i && #[trigger] kept@[k] == all[j],
            decreases remaining@.len(),
        {
            let ghost k0 = kept@;
            let entry = remaining.remove(0);
            proof {
                assert(entry == all[i]);
                assert(all.take(i + 1) =~= all.take(i).push(all[i]));
                all.take(i).lemma_filter_push(all[i], f);
                assert(remaining@ =~= all.skip(i + 1));
            }
            if Self::stays_loaded_exec(&position, &history, &entry.0) {
                kept.push(entry);
                proof {
                    assert forall|a: int, b: int| 0 <= a < b < kept@.len() implies (#[trigger] kept@[a]).0 != (#[trigger] kept@[b]).0 by {
                        if b < k0.len() {
                            assert(kept@[a] == k0[a] && kept@[b] == k0[b]);
                        } else {
                            assert(kept@[a] == k0[a]);
                            let j = choose|j: int| 0 <= j < i && #[trigger] k0[a] == all[j];
                            assert(all[j].0 != all[i].0);
                        }
                    }
                    assert forall|k: int| 0 <= k < kept@.len() implies exists|j: int| 0 <= j < i + 1 && #[trigger] kept@[k] == all[j] by {
                        if k < k0.len() {
                            assert(kept@[k] == k0[k]);
                            let j = choose|j: int| 0 <= j < i && #[trigger] k0[k] == all[j];
                            assert(kept@[k] == all[j]);
                        } else {
                            assert(kept@[k] == all[i]);
                        }
                    }
                }
            }
            proof {
                i = i + 1;
            }
        }
        proof {
            assert(all.take(i) =~= all);
            lemma_entries_filter(all, f, keep);
            assert(f =~= (|e: (TileCoordinate, MapTile)| stays_loaded(position, h, e.0)));
            assert(Set::new(keep) =~= Set::new(|c: TileCoordinate| stays_loaded(position, h, c)));
        }
        self.tiles = kept;
        self.player_history = history;
    }

    /// The loaded tiles within `radius` of `center` on its level, ordered by x and then y.
    pub fn get_tiles_in_radius(&self, center: &Position3D, radius: u32) -> (r: Vec<(TileCoordinate, &MapTile)>)
        requires
            i32::MIN <= center.x - radius && center.x + radius <= i32::MAX,
            i32::MIN <= center.y - radius && center.y + radius <= i32::MAX,
        ensures
            forall|k: int| 0 <= k < r@.len() ==> {
                &&& self.tiles_view().dom().contains((#[trigger] r@[k]).0)
                &&& *r@[k].1 == self.tiles_view()[r@[k].0]
                &&& in_diamond(*center, radius as int, tile_position(r@[k].0))
            },
            forall|c: TileCoordinate| self.tiles_view().dom().contains(c) && in_diamond(*center, radius as int, tile_position(c))
                ==> exists|k: int| 0 <= k < r@.len() && (#[trigger] r@[k]).0 == c,
            forall|a: int, b: int| 0 <= a < b < r@.len() ==> tile_lt((#[trigger] r@[a]).0, (#[trigger] r@[b]).0),
    {
        let positions = center.positions_within_distance(radius);
        let mut found: Vec<(TileCoordinate, &MapTile)> = Vec::new();
        let ghost mut idx: Seq<int> = Seq::empty();
        let mut i: usize = 0;
        while i < positions.len()
            invariant
                0 <= i <= positions@.len(),
                forall|p: Position3D| positions@.contains(p) <==> in_diamond(*center, radius as int, p),
                crate::domain::value_objects::position::pos_sorted(positions@),
                idx.len() == found@.len(),
                forall|k: int| 0 <= k < idx.len() ==> 0 <= #[trigger] idx[k] < i,
                forall|a: int, b: int| 0 <= a < b < idx.len() ==> #[trigger] idx[a] < #[trigger] idx[b],
                forall|k: int| 0 <= k < found@.len() ==> {
                    &&& (#[trigger] found@[k]).0 == position_tile(positions@[idx[k]])
                    &&& self.tiles_view().dom().contains(found@[k].0)
                    &&& *found@[k].1 == self.tiles_view()[found@[k].0]
                },
                forall|j: int| 0 <= j < i && self.tiles_view().dom().contains(position_tile(#[trigger] positions@[j]))
                    ==> exists|k: int| 0 <= k < found@.len() && (#[trigger] found@[k]).0 == position_tile(positions@[j]),
            decreases positions@.len() - i,
        {
            let ghost f0 = found@;
            let pos = positions[i];
            let coord = TileCoordinate::from(pos);
            match self.get_tile(&coord) {
                Some(tile) => {
                    found.push((coord, tile));
                    proof {
                        idx = idx.push(i as int);
                        assert(found@[found@.len() - 1].0 == position_tile(positions@[i as int]));
                    }
                },
                None => {},
            }
            proof {
                assert forall|j: int| 0 <= j < i + 1 && self.tiles_view().dom().contains(position_tile(#[trigger] positions@[j]))
                    implies exists|k: int| 0 <= k < found@.len() && (#[trigger] found@[k]).0 == position_tile(positions@[j]) by {
                    if j < i {
                        let k = choose|k: int| 0 <= k < f0.len() && (#[trigger] f0[k]).0 == position_tile(positions@[j]);
                        assert(found@[k] == f0[k]);
                    } else {
                        assert(found@[found@.len() - 1].0 == position_tile(positions@[j]));
                    }
                }
            }
            i = i + 1;
        }
        proof {
            assert forall|k: int| 0 <= k < found@.len() implies in_diamond(*center, radius as int, tile_position((#[trigger] found@[k]).0)) by {
                assert(positions@.contains(positions@[idx[k]]));
                assert(tile_position(found@[k].0) == positions@[idx[k]]);
            }
            assert forall|c: TileCoordinate| self.tiles_view().dom().contains(c) && in_diamond(*center, radius as int, tile_position(c))
                implies exists|k: int| 0 <= k < found@.len() && (#[trigger] found@[k]).0 == c by {
                assert(positions@.contains(tile_position(c)));
                let j = choose|j: int| 0 <= j < positions@.len() && positions@[j] == tile_position(c);
                assert(position_tile(positions@[j]) == c);
            }
            assert forall|a: int, b: int| 0 <= a < b < found@.len() implies tile_lt((#[trigger] found@[a]).0, (#[trigger] found@[b]).0) by {
                assert(idx[a] < idx[b]);
                assert(crate::domain::value_objects::position::pos_lt(positions@[idx[a]], positions@[idx[b]]));
            }
        }
        found
    }

    /// Fill the chunk of side `chunk_size` around `chunk_center` with tiles generated
    /// from the map's seed where tiles are missing, placing nodes where generation
    /// puts them.
    pub fn generate_chunk(&mut self, chunk_center: Position3D, chunk_size: i32) -> (r: DomainResult<()>)
        requires
            chunk_size != i32::MIN,
            abs(chunk_center.x as int) + abs(chunk_center.y as int) + abs(chunk_size as int) < i32::MAX,
        ensures
            r is Ok,
            generated_over(old(self).spec_seed(), old(self).tiles_view(), old(self).nodes_view(),
                Set::new(|q: Position3D| in_chunk(chunk_center, chunk_size, q)), final(self).tiles_view(), final(self).nodes_view()),
            final(self).spec_id() == old(self).spec_id(),
            final(self).spec_name() == old(self).spec_name(),
            final(self).spec_seed() == old(self).spec_seed(),
            final(self).history() == old(self).history(),
    {
        let map_service = MapService::new(self.seed);
        map_service.generate_chunk(self, chunk_center, chunk_size)
    }

    /// Whether a position can be entered: its tile is loaded and passable.
    pub fn is_passable(&self, position: &Position3D) -> (r: bool)
        ensures
            r == (self.tiles_view().dom().contains(position_tile(*position))
                && self.tiles_view()[position_tile(*position)].terrain_type != TerrainType::Ocean),
    {
        let coord = TileCoordinate::from(*position);
        match self.get_tile(&coord) {
            Some(tile) => tile.terrain_type.is_passable(),
            None => false,
        }
    }

    /// What entering a position costs: its terrain's cost, or 10 for an unloaded tile.
    pub fn movement_cost(&self, position: &Position3D) -> (r: u8)
        ensures
            self.tiles_view().dom().contains(position_tile(*position))
                ==> r == self.tiles_view()[position_tile(*position)].terrain_type.spec_movement_cost(),
            !self.tiles_view().dom().contains(position_tile(*position)) ==> r == 10,
    {
        let coord = TileCoordinate::from(*position);
        match self.get_tile(&coord) {
            Some(tile) => tile.terrain_type.movement_cost(),
            None => 10,
        }
    }

    /// The danger of a position: its terrain's danger, or 5 for an unloaded tile.
    pub fn danger_level(&self, position: &Position3D) -> (r: u8)
        ensures
            self.tiles_view().dom().contains(position_tile(*position))
                ==> r == self.tiles_view()[position_tile(*position)].terrain_type.spec_danger_level(),
            !self.tiles_view().dom().contains(position_tile(*position)) ==> r == 5,
    {
        let coord = TileCoordinate::from(*position);
        match self.get_tile(&coord) {
            Some(tile) => tile.terrain_type.danger_level(),
            None => 5,
        }
    }
}

/// A tile set at a coordinate is what is read there afterwards, and setting it leaves
/// every other coordinate as it was (`set_tile` inserts into the tiles that
/// `get_tile` reads).
pub proof fn set_tile_is_read_back(before: Map<TileCoordinate, MapTile>, c: TileCoordinate, t: MapTile, other: TileCoordinate)
    ensures
        before.insert(c, t).dom().contains(c),
        before.insert(c, t)[c] == t,
        other != c ==> (before.insert(c, t).dom().contains(other) <==> before.dom().contains(other)),
        other != c && before.dom().contains(other) ==> before.insert(c, t)[other] == before[other],
{
}

} // verus!
