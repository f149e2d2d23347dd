//! The tile cache: tiles taken out of the loaded world are kept for a while, so that
//! the player finds them again on returning, within a fixed capacity; the tiles
//! near the player's recent positions are the ones worth keeping.
use crate::domain::constants::{TILE_CACHE_SIZE, TILE_UNLOAD_DISTANCE};
use crate::domain::entities::map::{
    entries_map, keys_unique, lemma_entries_dom, lemma_entries_filter, lemma_entries_len, lemma_entries_push,
    lemma_entries_remove, lemma_entries_update, lemma_entries_value, MapTile,
};
use crate::domain::services::map_service::abs;
use crate::domain::value_objects::position::{Position3D, TileCoordinate};
use vstd::prelude::*;

verus! {

/// Positions the cache remembers unless told otherwise.
pub const DEFAULT_CACHE_HISTORY_SIZE: usize = 20;

/// Steps along x and y from a position to a tile (levels are not counted).
pub open spec fn tile_distance(p: Position3D, c: TileCoordinate) -> int {
    abs(p.x - c.x) + abs(p.y - c.y)
}

/// Whether a tile lies within the unload distance of some recent position.
pub open spec fn near_history(h: Seq<Position3D>, c: TileCoordinate) -> bool {
    exists|i: int| 0 <= i < h.len() && tile_distance(#[trigger] h[i], c) <= TILE_UNLOAD_DISTANCE
}

/// `v`, or the largest `u64` when it is larger.
pub open spec fn saturated(v: int) -> int {
    if v > u64::MAX { u64::MAX as int } else { v }
}

/// What one recent position adds to a tile's importance: `weight` (more for more
/// recent positions) times 100 on the tile itself, times the closeness within the
/// unload distance, and nothing beyond it.
pub open spec fn importance_term(weight: int, distance: int) -> int {
    if distance == 0 {
        weight * 100
    } else if distance <= TILE_UNLOAD_DISTANCE {
        weight * (TILE_UNLOAD_DISTANCE - distance + 1)
    } else {
        0
    }
}

/// The importance that the first `k` recent positions give tile `c`: the newest of
/// the `h.len()` positions weighs 1 and the oldest `h.len()`; sums are capped at
/// the largest `u64`.
pub open spec fn importance_prefix(h: Seq<Position3D>, c: TileCoordinate, k: int) -> int
    decreases k,
{
    if k <= 0 {
        0
    } else {
        saturated(importance_prefix(h, c, k - 1) + saturated(importance_term(h.len() - (k - 1), tile_distance(h[k - 1], c))))
    }
}

/// The importance of tile `c` given the recent positions `h` (higher is worth
/// keeping more).
pub open spec fn importance(h: Seq<Position3D>, c: TileCoordinate) -> int {
    importance_prefix(h, c, h.len() as int)
}

/// Whether `k` is a cached tile of least importance.
pub open spec fn least_important(h: Seq<Position3D>, m: Map<TileCoordinate, MapTile>, k: TileCoordinate) -> bool {
    &&& m.dom().contains(k)
    &&& forall|j: TileCoordinate| #[trigger] m.dom().contains(j) ==> importance(h, k) <= importance(h, j)
}

/// The recent positions after moving to `p`, `size` at most: the oldest is dropped.
pub open spec fn cache_history(h: Seq<Position3D>, p: Position3D, size: int) -> Seq<Position3D> {
    if h.push(p).len() > size { h.push(p).drop_first() } else { h.push(p) }
}

/// The tiles of the cache for recent positions `h`: with no position every tile stays,
/// otherwise the tiles near some recent position.
pub open spec fn kept_near(h: Seq<Position3D>, m: Map<TileCoordinate, MapTile>) -> Map<TileCoordinate, MapTile> {
    if h.len() == 0 {
        m
    } else {
        m.restrict(Set::new(|c: TileCoordinate| near_history(h, c)))
    }
}

/// What caching `tile` at `c` does to the cache `m`, with recent positions `h`: the
/// tile is admitted when there is room or when it is more important than some cached
/// tile; once admitted, when the cache holds one tile too many, a least important
/// tile leaves.
pub open spec fn cache_step(
    m: Map<TileCoordinate, MapTile>,
    h: Seq<Position3D>,
    c: TileCoordinate,
    tile: MapTile,
    after: Map<TileCoordinate, MapTile>,
) -> bool {
    let admitted = m.dom().len() < TILE_CACHE_SIZE || exists|k: TileCoordinate|
        m.dom().contains(k) && importance(h, c) > #[trigger] importance(h, k);
    let m1 = m.insert(c, tile);
    &&& !admitted ==> after == m
    &&& admitted && m1.dom().len() <= TILE_CACHE_SIZE ==> after == m1
    &&& admitted && m1.dom().len() > TILE_CACHE_SIZE ==> exists|k: TileCoordinate|
        #[trigger] least_important(h, m1, k) && after == m1.remove(k)
}

/// A tile cached while there is room is read back from the cache.
pub proof fn cached_tile_is_read_back(
    m: Map<TileCoordinate, MapTile>,
    h: Seq<Position3D>,
    c: TileCoordinate,
    tile: MapTile,
    after: Map<TileCoordinate, MapTile>,
)
    requires
        m.dom().finite(),
        m.dom().len() < TILE_CACHE_SIZE,
        cache_step(m, h, c, tile, after),
    ensures
        after.dom().contains(c),
        after[c] == tile,
{
    let m1 = m.insert(c, tile);
    if m.dom().contains(c) {
        assert(m1.dom() =~= m.dom());
    } else {
        assert(m1.dom() =~= m.dom().insert(c));
    }
    assert(m1.dom().len() <= TILE_CACHE_SIZE);
}

/// A cached tile within the unload distance of the position the player moves to stays
/// cached, as long as the cache remembers at least one position.
pub proof fn tiles_near_the_player_stay(
    m: Map<TileCoordinate, MapTile>,
    h: Seq<Position3D>,
    p: Position3D,
    size: int,
    c: TileCoordinate,
)
    requires
        size > 0,
        h.len() <= size,
        m.dom().contains(c),
        tile_distance(p, c) <= TILE_UNLOAD_DISTANCE,
    ensures
        kept_near(cache_history(h, p, size), m).dom().contains(c),
        kept_near(cache_history(h, p, size), m)[c] == m[c],
{
    let h2 = cache_history(h, p, size);
    assert(h2.len() > 0);
    assert(h2[h2.len() - 1] == p);
    assert(near_history(h2, c));
}

/// Counts of the cache, for monitoring. The share of the capacity in use is
/// `cached_tiles / cache_capacity`.
#[derive(Debug, Clone, Copy, PartialEq, Eq)]
pub struct CacheStats {
    pub cached_tiles: usize,
    pub cache_capacity: usize,
    pub player_history_length: usize,
}

/// The steps along x and y from `p` to `c`.
fn distance_exec(p: &Position3D, c: &TileCoordinate) -> (r: i64)
    ensures
        r == tile_distance(*p, *c),
        0 <= r,
{
    let dx: i64 = p.x as i64 - c.x as i64;
    let dy: i64 = p.y as i64 - c.y as i64;
    let adx: i64 = if dx < 0 { -dx } else { dx };
    let ady: i64 = if dy < 0 { -dy } else { dy };
    adx + ady
}

/// The importance of tile `c` given the recent positions `history` (see `importance`).
fn tile_importance(history: &Vec<Position3D>, c: &TileCoordinate) -> (r: u64)
    ensures
        r == importance(history@, *c),
{
    let n = history.len();
    let mut total: u64 = 0;
    let mut j: usize = 0;
    while j < n
        invariant
            n == history@.len(),
            j <= n,
            total == importance_prefix(history@, *c, j as int),
        decreases n - j,
    {
        let d = distance_exec(&history[j], c);
        let weight: u64 = (n - j) as u64;
        let term: u64 = if d == 0 {
            match weight.checked_mul(100) {
                Some(t) => t,
                None => u64::MAX,
            }
        } else if d <= TILE_UNLOAD_DISTANCE as i64 {
            let closeness: u64 = (TILE_UNLOAD_DISTANCE as i64 - d + 1) as u64;
            match weight.checked_mul(closeness) {
                Some(t) => t,
                None => u64::MAX,
            }
        } else {
            0
        };
        total = total.saturating_add(term);
        j = j + 1;
    }
    total
}

/// The position of a least important entry (the first of them).
fn least_important_index(tiles: &Vec<(TileCoordinate, MapTile)>, history: &Vec<Position3D>) -> (r: usize)
    requires
        tiles@.len() > 0,
    ensures
        r < tiles@.len(),
        forall|j: int| 0 <= j < tiles@.len() ==> importance(history@, tiles@[r as int].0) <= importance(history@, (#[trigger] tiles@[j]).0),
{
    let mut best: usize = 0;
    let mut best_importance = tile_importance(history, &tiles[0].0);
    let mut i: usize = 1;
    while i < tiles.len()
        invariant
            1 <= i <= tiles@.len(),
            best < i,
            best_importance == importance(history@, tiles@[best as int].0),
            forall|j: int| 0 <= j < i ==> best_importance <= importance(history@, (#[trigger] tiles@[j]).0),
        decreases tiles@.len() - i,
    {
        let v = tile_importance(history, &tiles[i].0);
        if v < best_importance {
            best = i;
            best_importance = v;
        }
        i = i + 1;
    }
    best
}

/// Tiles kept out of the loaded world, with the recent positions that decide which
/// are worth keeping.
#[derive(Debug)]
pub struct TileCacheService {
    tile_cache: Vec<(TileCoordinate, MapTile)>,
    player_history: Vec<Position3D>,
    history_size: usize,
}

impl TileCacheService {
    #[verifier::type_invariant]
    spec fn well_formed(&self) -> bool {
        &&& keys_unique(self.tile_cache@)
        &&& self.tile_cache@.len() <= TILE_CACHE_SIZE
        &&& self.player_history@.len() <= self.history_size
    }

    /// The cached tiles by coordinate.
    pub closed spec fn cache(&self) -> Map<TileCoordinate, MapTile> {
        entries_map(self.tile_cache@)
    }

    /// The recent positions, oldest first.
    pub closed spec fn history(&self) -> Seq<Position3D> {
        self.player_history@
    }

    /// How many recent positions are remembered.
    pub closed spec fn spec_history_size(&self) -> int {
        self.history_size as int
    }

    /// An empty cache that remembers the last 20 positions.
    pub fn new() -> (r: Self)
        ensures
            r.cache() == Map::<TileCoordinate, MapTile>::empty(),
            r.history() == Seq::<Position3D>::empty(),
            r.spec_history_size() == DEFAULT_CACHE_HISTORY_SIZE,
    {
        Self::with_history_size(DEFAULT_CACHE_HISTORY_SIZE)
    }

    /// An empty cache that remembers the last `history_size` positions.
    pub fn with_history_size(history_size: usize) -> (r: Self)
        ensures
            r.cache() == Map::<TileCoordinate, MapTile>::empty(),
            r.history() == Seq::<Position3D>::empty(),
            r.spec_history_size() == history_size,
    {
        TileCacheService { tile_cache: Vec::new(), player_history: Vec::new(), history_size }
    }

    /// The number of cached tiles.
    pub fn cached_tile_count(&self) -> (r: usize)
        ensures
            self.cache().dom().finite(),
            r == self.cache().dom().len(),
            r <= TILE_CACHE_SIZE,
    {
        proof {
            use_type_invariant(self);
            lemma_entries_len(self.tile_cache@);
        }
        self.tile_cache.len()
    }

    /// The counts of the cache.
    pub fn get_cache_stats(&self) -> (r: CacheStats)
        ensures
            self.cache().dom().finite(),
            r.cached_tiles == self.cache().dom().len(),
            r.cache_capacity == TILE_CACHE_SIZE,
            r.player_history_length == self.history().len(),
    {
        CacheStats {
            cached_tiles: self.cached_tile_count(),
            cache_capacity: TILE_CACHE_SIZE,
            player_history_length: self.player_history.len(),
        }
    }

    /// The recent positions, oldest first.
    pub fn player_history(&self) -> (r: &[Position3D])
        ensures
            r@ == self.history(),
    {
        self.player_history.as_slice()
    }

    /// The index of the entry for `c`, if cached.
    fn index_of(&self, c: &TileCoordinate) -> (r: Option<usize>)
        ensures
            r matches Some(i) ==> i < self.tile_cache@.len() && self.tile_cache@[i as int].0 == *c,
            r is None <==> !self.cache().dom().contains(*c),
    {
        proof { use_type_invariant(self); }
        let mut i: usize = 0;
        while i < self.tile_cache.len()
            invariant
                i <= self.tile_cache@.len(),
                forall|j: int| 0 <= j < i ==> (#[trigger] self.tile_cache@[j]).0 != *c,
            decreases self.tile_cache@.len() - i,
        {
            if self.tile_cache[i].0 == *c {
                proof { lemma_entries_dom(self.tile_cache@, *c); }
                return Some(i);
            }
            i = i + 1;
        }
        proof { lemma_entries_dom(self.tile_cache@, *c); }
        None
    }

    /// Whether some recent position lies within the unload distance of `c`.
    fn is_tile_near_player_history(&self, c: &TileCoordinate) -> (r: bool)
        ensures
            r == near_history(self.history(), *c),
    {
        let mut i: usize = 0;
        while i < self.player_history.len()
            invariant
                i <= self.player_history@.len(),
                forall|j: int| 0 <= j < i ==> tile_distance(#[trigger] self.player_history@[j], *c) > TILE_UNLOAD_DISTANCE,
            decreases self.player_history@.len() - i,
        {
            if distance_exec(&self.player_history[i], c) <= TILE_UNLOAD_DISTANCE as i64 {
                assert(tile_distance(self.player_history@[i as int], *c) <= TILE_UNLOAD_DISTANCE);
                return true;
            }
            i = i + 1;
        }
        false
    }

    /// Whether a new tile at `new_coord` earns a place: there is room, or it is more
    /// important than some cached tile.
    fn should_replace_cached_tile(&self, new_coord: &TileCoordinate) -> (r: bool)
        ensures
            self.cache().dom().finite(),
            r == (self.cache().dom().len() < TILE_CACHE_SIZE || exists|k: TileCoordinate|
                self.cache().dom().contains(k) && importance(self.history(), *new_coord) > #[trigger] importance(self.history(), k)),
    {
        proof {
            use_type_invariant(self);
            lemma_entries_len(self.tile_cache@);
        }
        if self.tile_cache.len() < TILE_CACHE_SIZE {
            return true;
        }
        let new_importance = tile_importance(&self.player_history, new_coord);
        let mut i: usize = 0;
        while i < self.tile_cache.len()
            invariant
                i <= self.tile_cache@.len(),
                new_importance == importance(self.history(), *new_coord),
                self.cache().dom().finite(),
                forall|j: int| 0 <= j < i ==> new_importance <= importance(self.history(), (#[trigger] self.tile_cache@[j]).0),
            decreases self.tile_cache@.len() - i,
        {
            if tile_importance(&self.player_history, &self.tile_cache[i].0) < new_importance {
                proof {
                    let k = self.tile_cache@[i as int].0;
                    lemma_entries_dom(self.tile_cache@, k);
                    assert(self.cache().dom().contains(k));
                }
                return true;
            }
            i = i + 1;
        }
        proof {
            assert forall|k: TileCoordinate| self.cache().dom().contains(k) implies
                !(importance(self.history(), *new_coord) > #[trigger] importance(self.history(), k)) by {
                lemma_entries_dom(self.tile_cache@, k);
                let j = choose|j: int| 0 <= j < self.tile_cache@.len() && (#[trigger] self.tile_cache@[j]).0 == k;
                assert(new_importance <= importance(self.history(), self.tile_cache@[j].0));
            }
        }
        false
    }

    /// Cache `tile` at `coordinate` when it earns a place (see
    /// `should_replace_cached_tile`); when the cache then holds one tile too many, a
    /// least important tile leaves.
    pub fn cache_tile(&mut self, coordinate: TileCoordinate, tile: MapTile)
        ensures
            final(self).history() == old(self).history(),
            final(self).spec_history_size() == old(self).spec_history_size(),
            final(self).cache().dom().finite(),
            final(self).cache().dom().len() <= TILE_CACHE_SIZE,
            old(self).cache().dom().finite(),
            cache_step(old(self).cache(), old(self).history(), coordinate, tile, final(self).cache()),
    {
        proof {
            use_type_invariant(&*self);
            lemma_entries_len(self.tile_cache@);
        }
        if !(self.tile_cache.len() < TILE_CACHE_SIZE || self.should_replace_cached_tile(&coordinate)) {
            return;
        }
        let found = self.index_of(&coordinate);
        let mut tiles: Vec<(TileCoordinate, MapTile)> = Vec::new();
        std::mem::swap(&mut tiles, &mut self.tile_cache);
        let ghost before = tiles@;
        match found {
            Some(i) => {
                proof {
                    assert forall|j: int| i < j < before.len() implies (#[trigger] before[j]).0 != before[i as int].0 by {
                        assert(before[i as int].0 != before[j].0);
                    }
                    lemma_entries_update(before, i as int, tile);
                }
                tiles.set(i, (coordinate, tile));
                proof {
                    assert(tiles@ =~= before.update(i as int, (before[i as int].0, tile)));
                    assert forall|a: int, b: int| 0 <= a < b < tiles@.len() implies (#[trigger] tiles@[a]).0 != (#[trigger] tiles@[b]).0 by {
                        assert(before[a].0 != before[b].0);
                    }
                }
            },
            None => {
                tiles.push((coordinate, tile));
                proof {
                    lemma_entries_push(before, (coordinate, tile));
                    lemma_entries_dom(before, coordinate);
                    assert forall|a: int, b: int| 0 <= a < b < tiles@.len() implies (#[trigger] tiles@[a]).0 != (#[trigger] tiles@[b]).0 by {
                        if b < before.len() {
                            assert(before[a].0 != before[b].0);
                        } else {
                            assert(tiles@[a] == before[a]);
                        }
                    }
                }
            },
        }
        let ghost m1 = entries_map(tiles@);
        proof {
            lemma_entries_len(tiles@);
        }
        if tiles.len() > TILE_CACHE_SIZE {
            let k = least_important_index(&tiles, &self.player_history);
            let ghost inserted = tiles@;
            let ghost key = inserted[k as int].0;
            proof {
                lemma_entries_remove(inserted, k as int);
                assert forall|j: TileCoordinate| #[trigger] m1.dom().contains(j) implies
                    importance(self.history(), key) <= importance(self.history(), j) by {
                    lemma_entries_dom(inserted, j);
                    let jj = choose|jj: int| 0 <= jj < inserted.len() && (#[trigger] inserted[jj]).0 == j;
                    assert(importance(self.history(), key) <= importance(self.history(), inserted[jj].0));
                }
                lemma_entries_dom(inserted, key);
                assert(least_important(self.history(), m1, key));
            }
            tiles.remove(k);
            proof {
                assert forall|a: int, b: int| 0 <= a < b < tiles@.len() implies (#[trigger] tiles@[a]).0 != (#[trigger] tiles@[b]).0 by {
                    let a0 = if a < k { a } else { a + 1 };
                    let b0 = if b < k { b } else { b + 1 };
                    assert(tiles@[a] == inserted[a0] && tiles@[b] == inserted[b0]);
                    assert(inserted[a0].0 != inserted[b0].0);
                }
                lemma_entries_len(tiles@);
            }
        }
        self.tile_cache = tiles;
    }

    /// Forget the cached tiles far from every recent position (nothing is forgotten
    /// while no position is known).
    fn cleanup_distant_tiles(&mut self)
        ensures
            final(self).cache() == kept_near(old(self).history(), old(self).cache()),
            final(self).history() == old(self).history(),
            final(self).spec_history_size() == old(self).spec_history_size(),
    {
        proof { use_type_invariant(&*self); }
        if self.player_history.len() == 0 {
            return;
        }
        let ghost h = self.player_history@;
        let ghost keep = |c: TileCoordinate| near_history(h, c);
        let ghost f = |e: (TileCoordinate, MapTile)| near_history(h, e.0);
        let mut remaining: Vec<(TileCoordinate, MapTile)> = Vec::new();
        std::mem::swap(&mut remaining, &mut self.tile_cache);
        let ghost all = remaining@;
        let mut kept: Vec<(TileCoordinate, MapTile)> = Vec::new();
        let ghost mut i: int = 0;
        while remaining.len() > 0
            invariant
                f == (|e: (TileCoordinate, MapTile)| near_history(h, e.0)),
                self.player_history@ == h,
                keys_unique(all),
                all.len() <= TILE_CACHE_SIZE,
                0 <= i <= all.len(),
                remaining@ == all.skip(i),
                kept@ == all.take(i).filter(f),
                kept@.len() <= i,
                keys_unique(kept@),
                forall|k: int| 0 <= k < kept@.len() ==> exists|j: int| 0 <= j < i && #[trigger] kept@[k] == all[j],
            decreases remaining@.len(),
        {
            let ghost k0 = kept@;
            let entry = remaining.remove(0);
            proof {
                assert(entry == all[i]);
                assert(all.take(i + 1) =~= all.take(i).push(all[i]));
                all.take(i).lemma_filter_push(all[i], f);
                assert(remaining@ =~= all.skip(i + 1));
            }
            if self.is_tile_near_player_history(&entry.0) {
                kept.push(entry);
                proof {
                    assert forall|a: int, b: int| 0 <= a < b < kept@.len() implies (#[trigger] kept@[a]).0 != (#[trigger] kept@[b]).0 by {
                        if b < k0.len() {
                            assert(kept@[a] == k0[a] && kept@[b] == k0[b]);
                        } else {
                            assert(kept@[a] == k0[a]);
                            let j = choose|j: int| 0 <= j < i && #[trigger] k0[a] == all[j];
                            assert(all[j].0 != all[i].0);
                        }
                    }
                    assert forall|k: int| 0 <= k < kept@.len() implies exists|j: int| 0 <= j < i + 1 && #[trigger] kept@[k] == all[j] by {
                        if k < k0.len() {
                            assert(kept@[k] == k0[k]);
                            let j = choose|j: int| 0 <= j < i && #[trigger] k0[k] == all[j];
                            assert(kept@[k] == all[j]);
                        } else {
                            assert(kept@[k] == all[i]);
                        }
                    }
                }
            }
            proof {
                i = i + 1;
            }
        }
        proof {
            assert(all.take(i) =~= all);
            lemma_entries_filter(all, f, keep);
            assert(f =~= (|e: (TileCoordinate, MapTile)| near_history(h, e.0)));
            assert(Set::new(keep) =~= Set::new(|c: TileCoordinate| near_history(h, c)));
        }
        self.tile_cache = kept;
    }

    /// Record that the player moved to `new_position` (the oldest recent position
    /// leaves past the history size), then forget the cached tiles far from every
    /// recent position.
    pub fn update_player_position(&mut self, new_position: Position3D)
        ensures
            final(self).history() == cache_history(old(self).history(), new_position, old(self).spec_history_size()),
            final(self).spec_history_size() == old(self).spec_history_size(),
            final(self).cache() == kept_near(final(self).history(), old(self).cache()),
    {
        proof { use_type_invariant(&*self); }
        let mut history: Vec<Position3D> = Vec::new();
        std::mem::swap(&mut history, &mut self.player_history);
        history.push(new_position);
        if history.len() > self.history_size {
            history.remove(0);
            proof {
                assert(history@ =~= cache_history(old(self).history(), new_position, old(self).spec_history_size()));
            }
        }
        self.player_history = history;
        self.cleanup_distant_tiles();
    }

    /// The tile cached at `coordinate`, if any.
    pub fn get_cached_tile(&self, coordinate: TileCoordinate) -> (r: Option<&MapTile>)
        ensures
            r is Some <==> self.cache().dom().contains(coordinate),
            r matches Some(t) ==> *t == self.cache()[coordinate],
    {
        proof { use_type_invariant(self); }
        match self.index_of(&coordinate) {
            Some(i) => {
                proof {
                    assert forall|j: int| i < j < self.tile_cache@.len() implies (#[trigger] self.tile_cache@[j]).0 != self.tile_cache@[i as int].0 by {
                        assert(self.tile_cache@[i as int].0 != self.tile_cache@[j].0);
                    }
                    lemma_entries_value(self.tile_cache@, i as int);
                }
                Some(&self.tile_cache[i].1)
            },
            None => None,
        }
    }

    /// Whether a tile is cached at `coordinate`.
    pub fn has_cached_tile(&self, coordinate: TileCoordinate) -> (r: bool)
        ensures
            r == self.cache().dom().contains(coordinate),
    {
        self.index_of(&coordinate).is_some()
    }

    /// Take the tile cached at `coordinate` out of the cache.
    pub fn take_cached_tile(&mut self, coordinate: TileCoordinate) -> (r: Option<MapTile>)
        ensures
            r is Some <==> old(self).cache().dom().contains(coordinate),
            r matches Some(t) ==> t == old(self).cache()[coordinate],
            final(self).cache() == old(self).cache().remove(coordinate),
            final(self).history() == old(self).history(),
            final(self).spec_history_size() == old(self).spec_history_size(),
    {
        proof { use_type_invariant(&*self); }
        match self.index_of(&coordinate) {
            Some(i) => {
                let mut tiles: Vec<(TileCoordinate, MapTile)> = Vec::new();
                std::mem::swap(&mut tiles, &mut self.tile_cache);
                let ghost before = tiles@;
                proof {
                    assert forall|j: int| i < j < before.len() implies (#[trigger] before[j]).0 != before[i as int].0 by {
                        assert(before[i as int].0 != before[j].0);
                    }
                    lemma_entries_value(before, i as int);
                    lemma_entries_remove(before, i as int);
                }
                let (_, tile) = tiles.remove(i);
                proof {
                    assert forall|a: int, b: int| 0 <= a < b < tiles@.len() implies (#[trigger] tiles@[a]).0 != (#[trigger] tiles@[b]).0 by {
                        let a0 = if a < i { a } else { a + 1 };
                        let b0 = if b < i { b } else { b + 1 };
                        assert(tiles@[a] == before[a0] && tiles@[b] == before[b0]);
                        assert(before[a0].0 != before[b0].0);
                    }
                }
                self.tile_cache = tiles;
                Some(tile)
            },
            None => {
                proof {
                    assert(old(self).cache().remove(coordinate) =~= old(self).cache());
                }
                None
            },
        }
    }

    /// Empty the cache; the recent positions stay.
    pub fn clear_cache(&mut self)
        ensures
            final(self).cache() == Map::<TileCoordinate, MapTile>::empty(),
            final(self).history() == old(self).history(),
            final(self).spec_history_size() == old(self).spec_history_size(),
    {
        proof { use_type_invariant(&*self); }
        self.tile_cache = Vec::new();
        proof {
            assert(entries_map(self.tile_cache@) =~= Map::<TileCoordinate, MapTile>::empty());
        }
    }

    /// Of `required_coords`, those not cached, in order: the tiles still to load.
    pub fn get_tiles_to_load(&self, player_pos: Position3D, required_coords: &[TileCoordinate]) -> (r: Vec<TileCoordinate>)
        ensures
            r@ == required_coords@.filter(|c: TileCoordinate| !self.cache().dom().contains(c)),
    {
        let ghost f = |c: TileCoordinate| !self.cache().dom().contains(c);
        let mut r: Vec<TileCoordinate> = Vec::new();
        let mut i: usize = 0;
        while i < required_coords.len()
            invariant
                i <= required_coords@.len(),
                f == (|c: TileCoordinate| !self.cache().dom().contains(c)),
                r@ == required_coords@.take(i as int).filter(f),
            decreases required_coords@.len() - i,
        {
            let c = required_coords[i];
            proof {
                assert(required_coords@.take(i + 1) =~= required_coords@.take(i as int).push(c));
                required_coords@.take(i as int).lemma_filter_push(c, f);
            }
            if !self.has_cached_tile(c) {
                r.push(c);
            }
            i = i + 1;
        }
        proof {
            assert(required_coords@.take(i as int) =~= required_coords@);
        }
        r
    }

    /// Of `current_coords`, those farther than the unload distance from `player_pos`,
    /// in order: the tiles to take out of the loaded world.
    pub fn get_tiles_to_cache(&self, player_pos: Position3D, current_coords: &[TileCoordinate]) -> (r: Vec<TileCoordinate>)
        ensures
            r@ == current_coords@.filter(|c: TileCoordinate| tile_distance(player_pos, c) > TILE_UNLOAD_DISTANCE),
    {
        let ghost f = |c: TileCoordinate| tile_distance(player_pos, c) > TILE_UNLOAD_DISTANCE;
        let mut r: Vec<TileCoordinate> = Vec::new();
        let mut i: usize = 0;
        while i < current_coords.len()
            invariant
                i <= current_coords@.len(),
                f == (|c: TileCoordinate| tile_distance(player_pos, c) > TILE_UNLOAD_DISTANCE),
                r@ == current_coords@.take(i as int).filter(f),
            decreases current_coords@.len() - i,
        {
            let c = current_coords[i];
            proof {
                assert(current_coords@.take(i + 1) =~= current_coords@.take(i as int).push(c));
                current_coords@.take(i as int).lemma_filter_push(c, f);
            }
            if distance_exec(&player_pos, &c) > TILE_UNLOAD_DISTANCE as i64 {
                r.push(c);
            }
            i = i + 1;
        }
        proof {
            assert(current_coords@.take(i as int) =~= current_coords@);
        }
        r
    }
}

impl Default for TileCacheService {
    /// An empty cache that remembers the last 20 positions.
    fn default() -> (r: Self)
        ensures
            r.cache() == Map::<TileCoordinate, MapTile>::empty(),
            r.history() == Seq::<Position3D>::empty(),
            r.spec_history_size() == DEFAULT_CACHE_HISTORY_SIZE,
    {
        Self::new()
    }
}

} // verus!
