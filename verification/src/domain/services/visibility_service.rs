//! Fog of war: which tiles the player sees, fully or through fog.
use crate::domain::constants::{FOGGED_VISIBLE_RADIUS, FULLY_VISIBLE_RADIUS};
use crate::domain::value_objects::position::{
    abs_i32, abs_int, lemma_diamond_size, manhattan_2d, ring_grid_count, ring_row_count, tile_lt, Position3D,
    TileCoordinate,
};
use vstd::prelude::*;

verus! {

/// Visibility level of a tile.
#[derive(Debug, Clone, Copy, PartialEq, Eq, Structural)]
pub enum VisibilityLevel {
    Hidden,
    Fogged,
    FullyVisible,
}

/// Manhattan distance in the plane between a player and a tile.
pub open spec fn plane_distance(p: Position3D, t: TileCoordinate) -> int {
    manhattan_2d(p.x as int, p.y as int, t.x as int, t.y as int)
}

/// Whether tile `t` is on the player's level with `inner < distance <= outer`.
pub open spec fn in_ring(p: Position3D, inner: int, outer: int, t: TileCoordinate) -> bool {
    t.z == p.z && inner < plane_distance(p, t) <= outer
}

/// The visibility of a tile: full within the inner diamond, fogged within the outer
/// diamond, hidden elsewhere and on other levels.
pub open spec fn visibility_of(p: Position3D, t: TileCoordinate) -> VisibilityLevel {
    if t.z == p.z && plane_distance(p, t) <= FULLY_VISIBLE_RADIUS {
        VisibilityLevel::FullyVisible
    } else if t.z == p.z && plane_distance(p, t) <= FOGGED_VISIBLE_RADIUS {
        VisibilityLevel::Fogged
    } else {
        VisibilityLevel::Hidden
    }
}

/// Whether the distance between a player and a tile can be computed without overflow.
pub open spec fn distance_computable(p: Position3D, t: TileCoordinate) -> bool {
    plane_distance(p, t) <= i32::MAX && abs_int(p.z - t.z) <= i32::MAX
}

/// Whether the whole outer diamond around the player has `i32` coordinates.
pub open spec fn diamond_in_range(p: Position3D) -> bool {
    i32::MIN <= p.x - FOGGED_VISIBLE_RADIUS && p.x + FOGGED_VISIBLE_RADIUS <= i32::MAX
        && i32::MIN <= p.y - FOGGED_VISIBLE_RADIUS && p.y + FOGGED_VISIBLE_RADIUS <= i32::MAX
}

/// Sequences of tiles strictly increasing in the lexicographic order.
pub open spec fn tiles_sorted(s: Seq<TileCoordinate>) -> bool {
    forall|i: int, j: int| 0 <= i < j < s.len() ==> tile_lt(#[trigger] s[i], #[trigger] s[j])
}

/// The tiles at visibility `level` from `p`, in increasing order (the only sorted
/// list of them, see `lemma_sorted_tiles_unique`).
pub open spec fn visible_list(p: Position3D, level: VisibilityLevel) -> Seq<TileCoordinate> {
    choose|s: Seq<TileCoordinate>| tiles_sorted(s) && forall|t: TileCoordinate| #[trigger] s.contains(t) <==> visibility_of(p, t) == level
}

/// Two sorted lists of the same tiles are the same list.
pub proof fn lemma_sorted_tiles_unique(s1: Seq<TileCoordinate>, s2: Seq<TileCoordinate>)
    requires
        tiles_sorted(s1),
        tiles_sorted(s2),
        forall|t: TileCoordinate| #[trigger] s1.contains(t) <==> s2.contains(t),
    ensures
        s1 == s2,
    decreases s1.len(),
{
    if s1.len() == 0 {
        if s2.len() > 0 {
            assert(s2.contains(s2[0]));
            assert(s1.contains(s2[0]));
        }
        assert(s1 =~= s2);
    } else {
        assert(s1.contains(s1[0]));
        assert(s2.contains(s1[0]));
        assert(s2.len() > 0);
        assert(s2.contains(s2[0]));
        assert(s1.contains(s2[0]));
        let a = s1[0];
        let b = s2[0];
        let j = choose|j: int| 0 <= j < s2.len() && s2[j] == a;
        let i = choose|i: int| 0 <= i < s1.len() && s1[i] == b;
        if j > 0 {
            assert(tile_lt(s2[0], s2[j]));
            if i > 0 {
                assert(tile_lt(s1[0], s1[i]));
            }
        }
        assert(a == b);
        let r1 = s1.drop_first();
        let r2 = s2.drop_first();
        assert forall|t: TileCoordinate| #[trigger] r1.contains(t) <==> r2.contains(t) by {
            if r1.contains(t) {
                let k = choose|k: int| 0 <= k < r1.len() && r1[k] == t;
                assert(s1[k + 1] == t);
                assert(tile_lt(s1[0], s1[k + 1]));
                assert(s1.contains(t));
                let k2 = choose|k2: int| 0 <= k2 < s2.len() && s2[k2] == t;
                assert(k2 != 0);
                assert(r2[k2 - 1] == t);
            }
            if r2.contains(t) {
                let k = choose|k: int| 0 <= k < r2.len() && r2[k] == t;
                assert(s2[k + 1] == t);
                assert(tile_lt(s2[0], s2[k + 1]));
                assert(s2.contains(t));
                assert(s1.contains(t));
                assert(t != s1[0]);
                let k1 = choose|k1: int| 0 <= k1 < s1.len() && s1[k1] == t;
                assert(k1 != 0);
                assert(r1[k1 - 1] == t);
            }
        }
        assert(tiles_sorted(r1)) by {
            assert forall|x: int, y: int| 0 <= x < y < r1.len() implies tile_lt(#[trigger] r1[x], #[trigger] r1[y]) by {
                assert(r1[x] == s1[x + 1] && r1[y] == s1[y + 1]);
            }
        }
        assert(tiles_sorted(r2)) by {
            assert forall|x: int, y: int| 0 <= x < y < r2.len() implies tile_lt(#[trigger] r2[x], #[trigger] r2[y]) by {
                assert(r2[x] == s2[x + 1] && r2[y] == s2[y + 1]);
            }
        }
        lemma_sorted_tiles_unique(r1, r2);
        assert(s1 =~= s2) by {
            assert forall|k: int| 0 <= k < s1.len() implies s1[k] == s2[k] by {
                if k > 0 {
                    assert(s1[k] == r1[k - 1]);
                    assert(s2[k] == r2[k - 1]);
                }
            }
        }
    }
}

/// A sorted list of the tiles at visibility `level` is `visible_list(p, level)`.
proof fn lemma_is_visible_list(p: Position3D, level: VisibilityLevel, s: Seq<TileCoordinate>)
    requires
        tiles_sorted(s),
        forall|t: TileCoordinate| #[trigger] s.contains(t) <==> visibility_of(p, t) == level,
    ensures
        s == visible_list(p, level),
{
    let c = visible_list(p, level);
    assert(tiles_sorted(c) && forall|t: TileCoordinate| #[trigger] c.contains(t) <==> visibility_of(p, t) == level);
    lemma_sorted_tiles_unique(s, c);
}

/// The first `n` tiles of `s` are fully visible and the rest fogged.
pub open spec fn fully_visible_prefix(p: Position3D, s: Seq<TileCoordinate>, n: int) -> bool {
    &&& 0 <= n <= s.len()
    &&& forall|i: int| 0 <= i < n ==> visibility_of(p, #[trigger] s[i]) == VisibilityLevel::FullyVisible
    &&& forall|i: int| n <= i < s.len() ==> visibility_of(p, #[trigger] s[i]) == VisibilityLevel::Fogged
}

/// Service for tile visibility and fog of war.
#[derive(Debug, Clone)]
pub struct VisibilityService;

impl VisibilityService {
    /// A new visibility service.
    pub fn new() -> (r: Self) {
        VisibilityService
    }

    /// Visibility level of a tile seen from the player's position.
    pub fn get_tile_visibility(&self, player_pos: Position3D, tile_coord: TileCoordinate) -> (r: VisibilityLevel)
        requires
            distance_computable(player_pos, tile_coord),
        ensures
            r == visibility_of(player_pos, tile_coord),
    {
        let dx = abs_i32(player_pos.x - tile_coord.x);
        let dy = abs_i32(player_pos.y - tile_coord.y);
        let dz = abs_i32(player_pos.z - tile_coord.z);
        if dz == 0 && dx + dy <= FULLY_VISIBLE_RADIUS as i32 {
            VisibilityLevel::FullyVisible
        } else if dz == 0 && dx + dy <= FOGGED_VISIBLE_RADIUS as i32 {
            VisibilityLevel::Fogged
        } else {
            VisibilityLevel::Hidden
        }
    }

    /// Whether a tile is visible at any level.
    pub fn is_tile_visible(&self, player_pos: Position3D, tile_coord: TileCoordinate) -> (r: bool)
        requires
            distance_computable(player_pos, tile_coord),
        ensures
            r == (visibility_of(player_pos, tile_coord) != VisibilityLevel::Hidden),
    {
        match self.get_tile_visibility(player_pos, tile_coord) {
            VisibilityLevel::Hidden => false,
            _ => true,
        }
    }

    /// All fully visible tiles, ordered by x then y.
    pub fn get_fully_visible_coordinates(&self, player_pos: Position3D) -> (r: Vec<TileCoordinate>)
        requires
            diamond_in_range(player_pos),
        ensures
            forall|t: TileCoordinate| r@.contains(t) <==> visibility_of(player_pos, t) == VisibilityLevel::FullyVisible,
            tiles_sorted(r@),
            r@ == visible_list(player_pos, VisibilityLevel::FullyVisible),
            r@.len() == 5,
    {
        let r = ring_tiles(player_pos, -1, FULLY_VISIBLE_RADIUS as i64);
        proof {
            lemma_is_visible_list(player_pos, VisibilityLevel::FullyVisible, r@);
            lemma_diamond_size(1);
        }
        r
    }

    /// All fogged tiles (visible through fog), ordered by x then y.
    pub fn get_fogged_visible_coordinates(&self, player_pos: Position3D) -> (r: Vec<TileCoordinate>)
        requires
            diamond_in_range(player_pos),
        ensures
            forall|t: TileCoordinate| r@.contains(t) <==> visibility_of(player_pos, t) == VisibilityLevel::Fogged,
            tiles_sorted(r@),
            r@ == visible_list(player_pos, VisibilityLevel::Fogged),
            r@.len() == 20,
    {
        let r = ring_tiles(player_pos, FULLY_VISIBLE_RADIUS as i64, FOGGED_VISIBLE_RADIUS as i64);
        proof {
            lemma_is_visible_list(player_pos, VisibilityLevel::Fogged, r@);
            assert(ring_grid_count(1, 3, 7) == 20) by {
                reveal_with_fuel(ring_grid_count, 8);
                reveal_with_fuel(ring_row_count, 8);
            }
        }
        r
    }

    /// The fully visible tiles followed by the fogged ones.
    pub fn get_all_visible_coordinates(&self, player_pos: Position3D) -> (r: Vec<TileCoordinate>)
        requires
            diamond_in_range(player_pos),
        ensures
            forall|t: TileCoordinate| r@.contains(t) <==> visibility_of(player_pos, t) != VisibilityLevel::Hidden,
            exists|n: int| #[trigger] fully_visible_prefix(player_pos, r@, n),
            r@ == visible_list(player_pos, VisibilityLevel::FullyVisible) + visible_list(player_pos, VisibilityLevel::Fogged),
            r@.no_duplicates(),
            r@.len() == 25,
    {
        let mut all_tiles = self.get_fully_visible_coordinates(player_pos);
        let fogged = self.get_fogged_visible_coordinates(player_pos);
        let ghost full = all_tiles@;
        let mut i: usize = 0;
        while i < fogged.len()
            invariant
                0 <= i <= fogged@.len(),
                all_tiles@ == full + fogged@.take(i as int),
            decreases fogged@.len() - i,
        {
            all_tiles.push(fogged[i]);
            assert(fogged@.take(i + 1) =~= fogged@.take(i as int).push(fogged@[i as int]));
            i = i + 1;
        }
        assert(fogged@.take(i as int) =~= fogged@);
        proof {
            assert forall|t: TileCoordinate| all_tiles@.contains(t) <==> visibility_of(player_pos, t) != VisibilityLevel::Hidden by {
                if all_tiles@.contains(t) {
                    let k = choose|k: int| 0 <= k < all_tiles@.len() && all_tiles@[k] == t;
                    if k < full.len() {
                        assert(full.contains(t));
                    } else {
                        assert(fogged@[k - full.len()] == t);
                        assert(fogged@.contains(t));
                    }
                }
                if visibility_of(player_pos, t) == VisibilityLevel::FullyVisible {
                    let k = choose|k: int| 0 <= k < full.len() && full[k] == t;
                    assert(all_tiles@[k] == t);
                } else if visibility_of(player_pos, t) == VisibilityLevel::Fogged {
                    let k = choose|k: int| 0 <= k < fogged@.len() && fogged@[k] == t;
                    assert(all_tiles@[full.len() + k] == t);
                }
            }
            let n = full.len() as int;
            assert forall|i: int| 0 <= i < n implies visibility_of(player_pos, #[trigger] all_tiles@[i]) == VisibilityLevel::FullyVisible by {
                assert(full.contains(full[i]));
            }
            assert forall|i: int| n <= i < all_tiles@.len() implies visibility_of(player_pos, #[trigger] all_tiles@[i]) == VisibilityLevel::Fogged by {
                assert(all_tiles@[i] == fogged@[i - n]);
                assert(fogged@.contains(fogged@[i - n]));
            }
            assert(fully_visible_prefix(player_pos, all_tiles@, n));
            assert(all_tiles@ =~= full + fogged@);
            assert forall|a: int, b: int| 0 <= a < b < all_tiles@.len() implies all_tiles@[a] != all_tiles@[b] by {
                if b < n {
                    assert(tile_lt(full[a], full[b]));
                } else if a >= n {
                    assert(tile_lt(fogged@[a - n], fogged@[b - n]));
                } else {
                    assert(visibility_of(player_pos, all_tiles@[a]) == VisibilityLevel::FullyVisible);
                    assert(visibility_of(player_pos, all_tiles@[b]) == VisibilityLevel::Fogged);
                }
            }
        }
        all_tiles
    }
}

impl Default for VisibilityService {
    fn default() -> (r: Self) {
        Self::new()
    }
}

/// The tiles on the player's level whose distance lies in `(inner, outer]`, ordered by x then y.
fn ring_tiles(center: Position3D, inner: i64, outer: i64) -> (r: Vec<TileCoordinate>)
    requires
        -1 <= inner,
        0 <= outer <= FOGGED_VISIBLE_RADIUS,
        diamond_in_range(center),
    ensures
        forall|t: TileCoordinate| r@.contains(t) <==> in_ring(center, inner as int, outer as int, t),
        tiles_sorted(r@),
        r@.len() == ring_grid_count(inner as int, outer as int, 2 * outer + 1),
{
    let mut tiles: Vec<TileCoordinate> = Vec::new();
    let dist = outer;
    let mut dx: i64 = -dist;
    while dx <= dist
        invariant
            -1 <= inner,
            0 <= dist <= FOGGED_VISIBLE_RADIUS,
            dist == outer,
            diamond_in_range(center),
            -dist <= dx <= dist + 1,
            tiles_sorted(tiles@),
            forall|i: int| 0 <= i < tiles@.len() ==> (#[trigger] tiles@[i]).x < center.x + dx,
            forall|t: TileCoordinate| tiles@.contains(t) <==> (in_ring(center, inner as int, outer as int, t) && t.x < center.x + dx),
            tiles@.len() == ring_grid_count(inner as int, dist as int, dx + dist),
        decreases dist + 1 - dx,
    {
        let mut dy: i64 = -dist;
        while dy <= dist
            invariant
                -1 <= inner,
                0 <= dist <= FOGGED_VISIBLE_RADIUS,
                dist == outer,
                diamond_in_range(center),
                -dist <= dx <= dist,
                -dist <= dy <= dist + 1,
                tiles_sorted(tiles@),
                forall|i: int| 0 <= i < tiles@.len() ==> (#[trigger] tiles@[i]).x < center.x + dx
                    || (tiles@[i].x == center.x + dx && tiles@[i].y < center.y + dy),
                forall|t: TileCoordinate| tiles@.contains(t) <==> (in_ring(center, inner as int, outer as int, t)
                    && (t.x < center.x + dx || (t.x == center.x + dx && t.y < center.y + dy))),
                tiles@.len() == ring_grid_count(inner as int, dist as int, dx + dist) + ring_row_count(inner as int, dist as int, dx as int, dy + dist),
            decreases dist + 1 - dy,
        {
            let adx = if dx < 0 { -dx } else { dx };
            let ady = if dy < 0 { -dy } else { dy };
            let t = TileCoordinate::new((center.x as i64 + dx) as i32, (center.y as i64 + dy) as i32, center.z);
            assert(plane_distance(center, t) == adx + ady);
            if inner < adx + ady && adx + ady <= dist {
                let ghost old_tiles = tiles@;
                tiles.push(t);
                assert forall|q: TileCoordinate| tiles@.contains(q) <==> (in_ring(center, inner as int, outer as int, q)
                    && (q.x < center.x + dx || (q.x == center.x + dx && q.y < center.y + dy + 1))) by {
                    if tiles@.contains(q) {
                        let k = choose|k: int| 0 <= k < tiles@.len() && tiles@[k] == q;
                        if k < old_tiles.len() {
                            assert(old_tiles.contains(q));
                        }
                    }
                    if in_ring(center, inner as int, outer as int, q)
                        && (q.x < center.x + dx || (q.x == center.x + dx && q.y < center.y + dy + 1)) {
                        if q == t {
                            assert(tiles@[old_tiles.len() as int] == q);
                        } else {
                            assert(old_tiles.contains(q));
                            let k = choose|k: int| 0 <= k < old_tiles.len() && old_tiles[k] == q;
                            assert(tiles@[k] == q);
                        }
                    }
                }
            } else {
                assert forall|q: TileCoordinate| tiles@.contains(q) <==> (in_ring(center, inner as int, outer as int, q)
                    && (q.x < center.x + dx || (q.x == center.x + dx && q.y < center.y + dy + 1))) by {
                    if in_ring(center, inner as int, outer as int, q) && q.x == center.x + dx && q.y == center.y + dy {
                        assert(q == t);
                        assert(false);
                    }
                }
            }
            dy = dy + 1;
        }
        dx = dx + 1;
    }
    tiles
}

/// Full sight covers the player's own tile and its four neighbours on the same level,
/// and nothing else; fogged sight reaches the tiles around them up to three steps away.
pub proof fn full_sight_is_the_player_tile_and_its_neighbours(p: Position3D, t: TileCoordinate)
    ensures
        visibility_of(p, t) == VisibilityLevel::FullyVisible <==> t.z == p.z && (
            (t.x == p.x && t.y == p.y)
            || (t.x == p.x + 1 && t.y == p.y) || (t.x == p.x - 1 && t.y == p.y)
            || (t.x == p.x && t.y == p.y + 1) || (t.x == p.x && t.y == p.y - 1)),
        visibility_of(p, t) == VisibilityLevel::Fogged <==> t.z == p.z && 1 < plane_distance(p, t) <= 3,
{
}

} // verus!
