//! Integer coordinates of the isometric world: world positions, tiles and chunks.
use vstd::prelude::*;

verus! {

/// Absolute value over mathematical integers.
pub open spec fn abs_int(a: int) -> int {
    if a < 0 { -a } else { a }
}

/// Absolute value of an `i32` that is not `i32::MIN`.
pub fn abs_i32(a: i32) -> (r: i32)
    requires
        a != i32::MIN,
    ensures
        r == abs_int(a as int),
{
    if a < 0 { -a } else { a }
}

/// Manhattan distance in the horizontal plane.
pub open spec fn manhattan_2d(ax: int, ay: int, bx: int, by: int) -> int {
    abs_int(ax - bx) + abs_int(ay - by)
}

/// How many offsets `(dx, dy)`, with `dy` among the first `n` values of
/// `-d..=d`, lie in the ring `inner < |dx| + |dy| <= d`.
pub open spec fn ring_row_count(inner: int, d: int, dx: int, n: int) -> int
    decreases n,
{
    if n <= 0 {
        0
    } else {
        ring_row_count(inner, d, dx, n - 1) + if inner < abs_int(dx) + abs_int(-d + n - 1) <= d { 1int } else { 0int }
    }
}

/// How many offsets `(dx, dy)`, with `dx` among the first `m` values of `-d..=d`
/// and `dy` in `-d..=d`, lie in the ring `inner < |dx| + |dy| <= d`.
pub open spec fn ring_grid_count(inner: int, d: int, m: int) -> int
    decreases m,
{
    if m <= 0 {
        0
    } else {
        ring_grid_count(inner, d, m - 1) + ring_row_count(inner, d, -d + m - 1, 2 * d + 1)
    }
}

/// The number of positions within Manhattan distance `d` of a point in the plane.
pub open spec fn diamond_size(d: int) -> int {
    2 * d * d + 2 * d + 1
}

/// A row of the diamond of radius `d` at offset `dx` holds, among its first `n`
/// places, those from `|dx|` to `2d - |dx|`.
proof fn lemma_diamond_row(d: int, dx: int, n: int)
    requires
        0 <= n <= 2 * d + 1,
        abs_int(dx) <= d,
    ensures
        ring_row_count(-1, d, dx, n) == {
            let a = abs_int(dx);
            if n - a <= 0 { 0 } else if n - a >= 2 * (d - a) + 1 { 2 * (d - a) + 1 } else { n - a }
        },
    decreases n,
{
    if n > 0 {
        lemma_diamond_row(d, dx, n - 1);
    }
}

/// The first `m` rows of the diamond of radius `d` hold `m²` places up to the middle
/// row, and `(d + 1)² + 2dk - k²` places `k` rows past it.
proof fn lemma_diamond_rows(d: int, m: int)
    requires
        0 <= d,
        0 <= m <= 2 * d + 1,
    ensures
        ring_grid_count(-1, d, m) == if m <= d + 1 {
            m * m
        } else {
            (d + 1) * (d + 1) + 2 * d * (m - d - 1) - (m - d - 1) * (m - d - 1)
        },
    decreases m,
{
    if m > 0 {
        lemma_diamond_rows(d, m - 1);
        lemma_diamond_row(d, -d + m - 1, 2 * d + 1);
        if m <= d + 1 {
            assert(m * m == (m - 1) * (m - 1) + 2 * m - 1) by (nonlinear_arith);
        } else {
            let k = m - d - 1;
            assert(k * k == (k - 1) * (k - 1) + 2 * k - 1) by (nonlinear_arith);
            assert(2 * d * k == 2 * d * (k - 1) + 2 * d) by (nonlinear_arith);
            if m == d + 2 {
                assert((k - 1) * (k - 1) == 0) by (nonlinear_arith) requires k == 1;
                assert(2 * d * (k - 1) == 0) by (nonlinear_arith) requires k == 1;
            }
        }
    }
}

/// The diamond of radius `d` holds `2d² + 2d + 1` positions.
pub proof fn lemma_diamond_size(d: int)
    requires
        0 <= d,
    ensures
        ring_grid_count(-1, d, 2 * d + 1) == diamond_size(d),
{
    lemma_diamond_rows(d, 2 * d + 1);
    assert((d + 1) * (d + 1) + 2 * d * d - d * d == 2 * d * d + 2 * d + 1) by (nonlinear_arith);
}

/// 3D position in world space using integer coordinates.
#[derive(Debug, Clone, Copy, PartialEq, Eq, Hash, Structural)]
pub struct Position3D {
    pub x: i32,
    pub y: i32,
    pub z: i32,
}

/// Strict lexicographic order on (x, y, z), used to describe generated lists.
pub open spec fn pos_lt(a: Position3D, b: Position3D) -> bool {
    a.x < b.x || (a.x == b.x && a.y < b.y) || (a.x == b.x && a.y == b.y && a.z < b.z)
}

/// A sequence that is strictly increasing in the lexicographic order.
pub open spec fn pos_sorted(s: Seq<Position3D>) -> bool {
    forall|i: int, j: int| 0 <= i < j < s.len() ==> pos_lt(#[trigger] s[i], #[trigger] s[j])
}

/// Horizontal neighbourhood of `c` within Manhattan distance `d`, on the level of `c`.
pub open spec fn in_diamond(c: Position3D, d: int, p: Position3D) -> bool {
    p.z == c.z && manhattan_2d(p.x as int, p.y as int, c.x as int, c.y as int) <= d
}

impl Position3D {
    /// Create a new 3D position.
    pub fn new(x: i32, y: i32, z: i32) -> (r: Self)
        ensures
            r.x == x && r.y == y && r.z == z,
    {
        Position3D { x, y, z }
    }

    /// Create a position at ground level (z = 0).
    pub fn ground(x: i32, y: i32) -> (r: Self)
        ensures
            r.x == x && r.y == y && r.z == 0,
    {
        Self::new(x, y, 0)
    }

    /// Origin position (0, 0, 0).
    pub fn origin() -> (r: Self)
        ensures
            r.x == 0 && r.y == 0 && r.z == 0,
    {
        Self::new(0, 0, 0)
    }

    /// Manhattan distance to another position, ignoring elevation.
    pub fn manhattan_distance_2d(&self, other: &Position3D) -> (r: u32)
        requires
            manhattan_2d(self.x as int, self.y as int, other.x as int, other.y as int) <= i32::MAX,
        ensures
            r as int == manhattan_2d(self.x as int, self.y as int, other.x as int, other.y as int),
    {
        let dx = abs_i32(self.x - other.x);
        let dy = abs_i32(self.y - other.y);
        (dx + dy) as u32
    }

    /// Manhattan distance including elevation.
    pub fn manhattan_distance_3d(&self, other: &Position3D) -> (r: u32)
        requires
            manhattan_2d(self.x as int, self.y as int, other.x as int, other.y as int)
                + abs_int(self.z - other.z) <= i32::MAX,
        ensures
            r as int == manhattan_2d(self.x as int, self.y as int, other.x as int, other.y as int)
                + abs_int(self.z - other.z),
    {
        let dx = abs_i32(self.x - other.x);
        let dy = abs_i32(self.y - other.y);
        let dz = abs_i32(self.z - other.z);
        (dx + dy + dz) as u32
    }

    /// Get x coordinate.
    pub fn x(&self) -> (r: i32)
        ensures
            r == self.x,
    {
        self.x
    }

    /// Get y coordinate.
    pub fn y(&self) -> (r: i32)
        ensures
            r == self.y,
    {
        self.y
    }

    /// Get z coordinate.
    pub fn z(&self) -> (r: i32)
        ensures
            r == self.z,
    {
        self.z
    }

    /// Move by an offset.
    pub fn offset(&self, dx: i32, dy: i32, dz: i32) -> (r: Self)
        requires
            i32::MIN <= self.x + dx <= i32::MAX,
            i32::MIN <= self.y + dy <= i32::MAX,
            i32::MIN <= self.z + dz <= i32::MAX,
        ensures
            r.x == self.x + dx && r.y == self.y + dy && r.z == self.z + dz,
    {
        Self::new(self.x + dx, self.y + dy, self.z + dz)
    }

    /// Move `distance` steps in a direction.
    pub fn move_direction(&self, direction: Direction, distance: i32) -> (r: Self)
        requires
            (direction == Direction::South || direction == Direction::West || direction == Direction::Down) ==> distance != i32::MIN,
            i32::MIN <= self.x + direction.dx() * distance <= i32::MAX,
            i32::MIN <= self.y + direction.dy() * distance <= i32::MAX,
            i32::MIN <= self.z + direction.dz() * distance <= i32::MAX,
        ensures
            r.x == self.x + direction.dx() * distance,
            r.y == self.y + direction.dy() * distance,
            r.z == self.z + direction.dz() * distance,
    {
        match direction {
            Direction::North => self.offset(0, distance, 0),
            Direction::South => self.offset(0, -distance, 0),
            Direction::East => self.offset(distance, 0, 0),
            Direction::West => self.offset(-distance, 0, 0),
            Direction::Up => self.offset(0, 0, distance),
            Direction::Down => self.offset(0, 0, -distance),
        }
    }

    /// The six neighbours, in the order North, South, East, West, Up, Down.
    pub fn adjacent_positions(&self) -> (r: Vec<Position3D>)
        requires
            i32::MIN < self.x < i32::MAX,
            i32::MIN < self.y < i32::MAX,
            i32::MIN < self.z < i32::MAX,
        ensures
            r@ == seq![
                Position3D { x: self.x, y: (self.y + 1) as i32, z: self.z },
                Position3D { x: self.x, y: (self.y - 1) as i32, z: self.z },
                Position3D { x: (self.x + 1) as i32, y: self.y, z: self.z },
                Position3D { x: (self.x - 1) as i32, y: self.y, z: self.z },
                Position3D { x: self.x, y: self.y, z: (self.z + 1) as i32 },
                Position3D { x: self.x, y: self.y, z: (self.z - 1) as i32 },
            ],
    {
        let mut v: Vec<Position3D> = Vec::new();
        v.push(self.move_direction(Direction::North, 1));
        v.push(self.move_direction(Direction::South, 1));
        v.push(self.move_direction(Direction::East, 1));
        v.push(self.move_direction(Direction::West, 1));
        v.push(self.move_direction(Direction::Up, 1));
        v.push(self.move_direction(Direction::Down, 1));
        v
    }

    /// All positions on this level within Manhattan distance `distance`,
    /// ordered by x and then by y.
    pub fn positions_within_distance(&self, distance: u32) -> (r: Vec<Position3D>)
        requires
            i32::MIN <= self.x - distance && self.x + distance <= i32::MAX,
            i32::MIN <= self.y - distance && self.y + distance <= i32::MAX,
        ensures
            forall|p: Position3D| r@.contains(p) <==> in_diamond(*self, distance as int, p),
            pos_sorted(r@),
            r@.len() == diamond_size(distance as int),
            r@.len() <= (2 * distance + 1) * (2 * distance + 1),
    {
        let mut positions: Vec<Position3D> = Vec::new();
        let dist = distance as i64;
        let mut dx: i64 = -dist;
        while dx <= dist
            invariant
                dist == distance,
                i32::MIN <= self.x - distance && self.x + distance <= i32::MAX,
                i32::MIN <= self.y - distance && self.y + distance <= i32::MAX,
                -dist <= dx <= dist + 1,
                pos_sorted(positions@),
                forall|i: int| 0 <= i < positions@.len() ==> (#[trigger] positions@[i]).x < self.x + dx,
                forall|p: Position3D| positions@.contains(p) <==> (in_diamond(*self, distance as int, p) && p.x < self.x + dx),
                positions@.len() <= (dx + dist) * (2 * dist + 1),
                positions@.len() == ring_grid_count(-1, dist as int, dx + dist),
            decreases dist + 1 - dx,
        {
            let mut dy: i64 = -dist;
            let ghost before = positions@;
            while dy <= dist
                invariant
                    dist == distance,
                    -dist <= dx <= dist,
                    -dist <= dy <= dist + 1,
                    i32::MIN <= self.x - distance && self.x + distance <= i32::MAX,
                    i32::MIN <= self.y - distance && self.y + distance <= i32::MAX,
                    pos_sorted(positions@),
                    forall|i: int| 0 <= i < positions@.len() ==> (#[trigger] positions@[i]).x < self.x + dx
                        || (positions@[i].x == self.x + dx && positions@[i].y < self.y + dy),
                    forall|p: Position3D| positions@.contains(p) <==> (in_diamond(*self, distance as int, p)
                        && (p.x < self.x + dx || (p.x == self.x + dx && p.y < self.y + dy))),
                    positions@.len() <= (dx + dist) * (2 * dist + 1) + (dy + dist),
                    positions@.len() == ring_grid_count(-1, dist as int, dx + dist) + ring_row_count(-1, dist as int, dx as int, dy + dist),
                decreases dist + 1 - dy,
            {
                let adx = if dx < 0 { -dx } else { dx };
                let ady = if dy < 0 { -dy } else { dy };
                if adx + ady <= dist {
                    let p = self.offset(dx as i32, dy as i32, 0);
                    let ghost old_pos = positions@;
                    positions.push(p);
                    assert forall|q: Position3D| positions@.contains(q) <==> (in_diamond(*self, distance as int, q)
                        && (q.x < self.x + dx || (q.x == self.x + dx && q.y < self.y + dy + 1))) by {
                        if positions@.contains(q) {
                            let k = choose|k: int| 0 <= k < positions@.len() && positions@[k] == q;
                            if k < old_pos.len() {
                                assert(old_pos.contains(q));
                            }
                        }
                        if in_diamond(*self, distance as int, q)
                            && (q.x < self.x + dx || (q.x == self.x + dx && q.y < self.y + dy + 1)) {
                            if q == p {
                                assert(positions@[old_pos.len() as int] == q);
                            } else {
                                assert(old_pos.contains(q));
                                let k = choose|k: int| 0 <= k < old_pos.len() && old_pos[k] == q;
                                assert(positions@[k] == q);
                            }
                        }
                    }
                } else {
                    assert forall|q: Position3D| positions@.contains(q) <==> (in_diamond(*self, distance as int, q)
                        && (q.x < self.x + dx || (q.x == self.x + dx && q.y < self.y + dy + 1))) by {
                        if in_diamond(*self, distance as int, q) && q.x == self.x + dx && q.y == self.y + dy {
                            assert(false);
                        }
                    }
                }
                dy = dy + 1;
            }
            assert((dx + dist) * (2 * dist + 1) + (2 * dist + 1) == (dx + 1 + dist) * (2 * dist + 1)) by (nonlinear_arith);
            dx = dx + 1;
        }
        assert((dist + 1 + dist) * (2 * dist + 1) == (2 * distance + 1) * (2 * distance + 1));
        proof {
            lemma_diamond_size(dist as int);
        }
        positions
    }

    /// Check if position is at ground level.
    pub fn is_ground_level(&self) -> (r: bool)
        ensures
            r == (self.z == 0),
    {
        self.z == 0
    }

    /// Check if position is above ground.
    pub fn is_elevated(&self) -> (r: bool)
        ensures
            r == (self.z > 0),
    {
        self.z > 0
    }

    /// Check if position is below ground.
    pub fn is_underground(&self) -> (r: bool)
        ensures
            r == (self.z < 0),
    {
        self.z < 0
    }

    /// The position directly below this one.
    pub fn below(&self) -> (r: Position3D)
        requires
            self.z > i32::MIN,
        ensures
            r.x == self.x && r.y == self.y && r.z == self.z - 1,
    {
        self.offset(0, 0, -1)
    }

    /// The position directly above this one.
    pub fn above(&self) -> (r: Position3D)
        requires
            self.z < i32::MAX,
        ensures
            r.x == self.x && r.y == self.y && r.z == self.z + 1,
    {
        self.offset(0, 0, 1)
    }

    /// Convert to a tile coordinate with the same components.
    pub fn to_tile_coordinate(&self) -> (r: TileCoordinate)
        ensures
            r.x == self.x && r.y == self.y && r.z == self.z,
    {
        TileCoordinate::new(self.x, self.y, self.z)
    }
}

impl Default for Position3D {
    fn default() -> (r: Self)
        ensures
            r.x == 0 && r.y == 0 && r.z == 0,
    {
        Self::origin()
    }
}

/// Cardinal and vertical directions for movement.
#[derive(Debug, Clone, Copy, PartialEq, Eq, Hash, Structural)]
pub enum Direction {
    North,
    South,
    East,
    West,
    Up,
    Down,
}

impl Direction {
    /// East-West component of the unit offset.
    pub open spec fn dx(self) -> int {
        match self {
            Direction::East => 1,
            Direction::West => -1,
            _ => 0,
        }
    }

    /// North-South component of the unit offset.
    pub open spec fn dy(self) -> int {
        match self {
            Direction::North => 1,
            Direction::South => -1,
            _ => 0,
        }
    }

    /// Vertical component of the unit offset.
    pub open spec fn dz(self) -> int {
        match self {
            Direction::Up => 1,
            Direction::Down => -1,
            _ => 0,
        }
    }

    /// The opposite direction.
    pub open spec fn spec_opposite(self) -> Direction {
        match self {
            Direction::North => Direction::South,
            Direction::South => Direction::North,
            Direction::East => Direction::West,
            Direction::West => Direction::East,
            Direction::Up => Direction::Down,
            Direction::Down => Direction::Up,
        }
    }

    /// All horizontal directions.
    pub fn horizontal() -> (r: Vec<Direction>)
        ensures
            r@ == seq![Direction::North, Direction::South, Direction::East, Direction::West],
    {
        vec![Direction::North, Direction::South, Direction::East, Direction::West]
    }

    /// All directions, horizontal ones first.
    pub fn all() -> (r: Vec<Direction>)
        ensures
            r@ == seq![
                Direction::North,
                Direction::South,
                Direction::East,
                Direction::West,
                Direction::Up,
                Direction::Down,
            ],
    {
        vec![
            Direction::North,
            Direction::South,
            Direction::East,
            Direction::West,
            Direction::Up,
            Direction::Down,
        ]
    }

    /// The opposite direction.
    pub fn opposite(&self) -> (r: Direction)
        ensures
            r == self.spec_opposite(),
            r.dx() == -self.dx() && r.dy() == -self.dy() && r.dz() == -self.dz(),
    {
        match self {
            Direction::North => Direction::South,
            Direction::South => Direction::North,
            Direction::East => Direction::West,
            Direction::West => Direction::East,
            Direction::Up => Direction::Down,
            Direction::Down => Direction::Up,
        }
    }

    /// Whether this is a horizontal direction.
    pub fn is_horizontal(&self) -> (r: bool)
        ensures
            r == (self.dz() == 0),
    {
        match self {
            Direction::Up | Direction::Down => false,
            _ => true,
        }
    }

    /// Whether this is a vertical direction.
    pub fn is_vertical(&self) -> (r: bool)
        ensures
            r == (self.dz() != 0),
    {
        match self {
            Direction::Up | Direction::Down => true,
            _ => false,
        }
    }

    /// Unit offset vector for this direction.
    pub fn offset(&self) -> (r: (i32, i32, i32))
        ensures
            r.0 == self.dx() && r.1 == self.dy() && r.2 == self.dz(),
    {
        match self {
            Direction::North => (0, 1, 0),
            Direction::South => (0, -1, 0),
            Direction::East => (1, 0, 0),
            Direction::West => (-1, 0, 0),
            Direction::Up => (0, 0, 1),
            Direction::Down => (0, 0, -1),
        }
    }
}

/// Tile coordinate that represents a discrete world position.
#[derive(Debug, Clone, Copy, PartialEq, Eq, Hash, Structural)]
pub struct TileCoordinate {
    pub x: i32,
    pub y: i32,
    pub z: i32,
}

/// Whether `c` divided by `size` cannot overflow.
pub open spec fn chunk_divisible(c: i32, size: i32) -> bool {
    size != 0 && !(c == i32::MIN && size == -1)
}

/// Euclidean quotient, as `i32::div_euclid` computes it.
pub fn div_euclid_i32(a: i32, b: i32) -> (r: i32)
    requires
        chunk_divisible(a, b),
    ensures
        r as int == a as int / b as int,
{
    assert(i32::MIN <= a as int / b as int <= i32::MAX) by (nonlinear_arith)
        requires
            b != 0,
            i32::MIN <= a <= i32::MAX,
            !(a == i32::MIN && b == -1),
    ;
    a.checked_div_euclid(b).unwrap()
}

/// Euclidean remainder, as `i32::rem_euclid` computes it.
pub fn rem_euclid_i32(a: i32, b: i32) -> (r: i32)
    requires
        chunk_divisible(a, b),
    ensures
        r as int == a as int % b as int,
{
    assert(0 <= (a as int) % (b as int) && (a as int) % (b as int) < abs_int(b as int)) by (nonlinear_arith)
        requires
            b != 0,
    ;
    a.checked_rem_euclid(b).unwrap()
}

impl TileCoordinate {
    /// Create a new tile coordinate.
    pub fn new(x: i32, y: i32, z: i32) -> (r: Self)
        ensures
            r.x == x && r.y == y && r.z == z,
    {
        TileCoordinate { x, y, z }
    }

    /// Origin tile (0, 0, 0).
    pub fn origin() -> (r: Self)
        ensures
            r.x == 0 && r.y == 0 && r.z == 0,
    {
        Self::new(0, 0, 0)
    }

    /// Convert to a world position with the same components.
    pub fn to_position(&self) -> (r: Position3D)
        ensures
            r.x == self.x && r.y == self.y && r.z == self.z,
    {
        Position3D::new(self.x, self.y, self.z)
    }

    /// The chunk this tile belongs to (Euclidean division by the chunk size).
    pub fn to_chunk_coordinate(&self, chunk_size: i32) -> (r: ChunkCoordinate)
        requires
            chunk_divisible(self.x, chunk_size),
            chunk_divisible(self.y, chunk_size),
            chunk_divisible(self.z, chunk_size),
        ensures
            r.x == self.x as int / chunk_size as int,
            r.y == self.y as int / chunk_size as int,
            r.z == self.z as int / chunk_size as int,
    {
        ChunkCoordinate::new(
            div_euclid_i32(self.x, chunk_size),
            div_euclid_i32(self.y, chunk_size),
            div_euclid_i32(self.z, chunk_size),
        )
    }

    /// Local coordinate within the chunk (Euclidean remainder by the chunk size).
    pub fn local_in_chunk(&self, chunk_size: i32) -> (r: TileCoordinate)
        requires
            chunk_divisible(self.x, chunk_size),
            chunk_divisible(self.y, chunk_size),
            chunk_divisible(self.z, chunk_size),
        ensures
            r.x == self.x as int % chunk_size as int,
            r.y == self.y as int % chunk_size as int,
            r.z == self.z as int % chunk_size as int,
    {
        TileCoordinate::new(
            rem_euclid_i32(self.x, chunk_size),
            rem_euclid_i32(self.y, chunk_size),
            rem_euclid_i32(self.z, chunk_size),
        )
    }

    /// Whether this tile is in the same chunk as another.
    pub fn same_chunk(&self, other: &TileCoordinate, chunk_size: i32) -> (r: bool)
        requires
            chunk_divisible(self.x, chunk_size),
            chunk_divisible(self.y, chunk_size),
            chunk_divisible(self.z, chunk_size),
            chunk_divisible(other.x, chunk_size),
            chunk_divisible(other.y, chunk_size),
            chunk_divisible(other.z, chunk_size),
        ensures
            r == (self.x as int / chunk_size as int == other.x as int / chunk_size as int
                && self.y as int / chunk_size as int == other.y as int / chunk_size as int
                && self.z as int / chunk_size as int == other.z as int / chunk_size as int),
    {
        let a = self.to_chunk_coordinate(chunk_size);
        let b = other.to_chunk_coordinate(chunk_size);
        a.x == b.x && a.y == b.y && a.z == b.z
    }
}

impl From<Position3D> for TileCoordinate {
    fn from(pos: Position3D) -> (r: Self) {
        TileCoordinate::new(pos.x, pos.y, pos.z)
    }
}

impl vstd::std_specs::convert::FromSpecImpl<Position3D> for TileCoordinate {
    open spec fn obeys_from_spec() -> bool {
        true
    }

    open spec fn from_spec(pos: Position3D) -> TileCoordinate {
        TileCoordinate { x: pos.x, y: pos.y, z: pos.z }
    }
}

impl From<TileCoordinate> for Position3D {
    fn from(tile: TileCoordinate) -> (r: Self) {
        Position3D::new(tile.x, tile.y, tile.z)
    }
}

impl vstd::std_specs::convert::FromSpecImpl<TileCoordinate> for Position3D {
    open spec fn obeys_from_spec() -> bool {
        true
    }

    open spec fn from_spec(tile: TileCoordinate) -> Position3D {
        Position3D { x: tile.x, y: tile.y, z: tile.z }
    }
}

/// Chunk coordinate for world partitioning and procedural generation.
#[derive(Debug, Clone, Copy, PartialEq, Eq, Hash, Structural)]
pub struct ChunkCoordinate {
    pub x: i32,
    pub y: i32,
    pub z: i32,
}

/// Strict lexicographic order on tile coordinates.
pub open spec fn tile_lt(a: TileCoordinate, b: TileCoordinate) -> bool {
    a.x < b.x || (a.x == b.x && a.y < b.y) || (a.x == b.x && a.y == b.y && a.z < b.z)
}

/// Whether tile `t` lies in the cube of side `size` whose lowest corner is `o`.
pub open spec fn in_cube(o: Position3D, size: int, t: TileCoordinate) -> bool {
    o.x <= t.x < o.x + size && o.y <= t.y < o.y + size && o.z <= t.z < o.z + size
}

impl ChunkCoordinate {
    /// Create a new chunk coordinate.
    pub fn new(x: i32, y: i32, z: i32) -> (r: Self)
        ensures
            r.x == x && r.y == y && r.z == z,
    {
        ChunkCoordinate { x, y, z }
    }

    /// Origin chunk (0, 0, 0).
    pub fn origin() -> (r: Self)
        ensures
            r.x == 0 && r.y == 0 && r.z == 0,
    {
        Self::new(0, 0, 0)
    }

    /// World position of the chunk's origin tile.
    pub fn to_world_origin(&self, chunk_size: i32) -> (r: Position3D)
        requires
            i32::MIN <= self.x * chunk_size <= i32::MAX,
            i32::MIN <= self.y * chunk_size <= i32::MAX,
            i32::MIN <= self.z * chunk_size <= i32::MAX,
        ensures
            r.x == self.x * chunk_size && r.y == self.y * chunk_size && r.z == self.z * chunk_size,
    {
        Position3D::new(self.x * chunk_size, self.y * chunk_size, self.z * chunk_size)
    }

    /// All tile coordinates of this chunk, ordered by x, then y, then z.
    pub fn tile_coordinates(&self, chunk_size: i32) -> (r: Vec<TileCoordinate>)
        requires
            i32::MIN <= self.x * chunk_size <= i32::MAX,
            i32::MIN <= self.y * chunk_size <= i32::MAX,
            i32::MIN <= self.z * chunk_size <= i32::MAX,
            chunk_size > 0 ==> self.x * chunk_size + chunk_size - 1 <= i32::MAX,
            chunk_size > 0 ==> self.y * chunk_size + chunk_size - 1 <= i32::MAX,
            chunk_size > 0 ==> self.z * chunk_size + chunk_size - 1 <= i32::MAX,
        ensures
            forall|t: TileCoordinate|
                r@.contains(t) <==> in_cube(
                    Position3D { x: (self.x * chunk_size) as i32, y: (self.y * chunk_size) as i32, z: (self.z * chunk_size) as i32 },
                    chunk_size as int,
                    t,
                ),
            forall|i: int, j: int| 0 <= i < j < r@.len() ==> tile_lt(#[trigger] r@[i], #[trigger] r@[j]),
            chunk_size > 0 ==> r@.len() == chunk_size * chunk_size * chunk_size,
            chunk_size <= 0 ==> r@.len() == 0,
    {
        let mut tiles: Vec<TileCoordinate> = Vec::new();
        let origin = self.to_world_origin(chunk_size);
        let ghost o = origin;
        let mut x: i32 = 0;
        while x < chunk_size
            invariant
                o == origin,
                0 <= x,
                chunk_size > 0 ==> x <= chunk_size,
                chunk_size > 0 ==> o.x + chunk_size - 1 <= i32::MAX,
                chunk_size > 0 ==> o.y + chunk_size - 1 <= i32::MAX,
                chunk_size > 0 ==> o.z + chunk_size - 1 <= i32::MAX,
                forall|i: int, j: int| 0 <= i < j < tiles@.len() ==> tile_lt(#[trigger] tiles@[i], #[trigger] tiles@[j]),
                forall|i: int| 0 <= i < tiles@.len() ==> (#[trigger] tiles@[i]).x < o.x + x,
                forall|t: TileCoordinate| tiles@.contains(t) <==> (in_cube(o, chunk_size as int, t) && t.x < o.x + x),
                tiles@.len() == x * chunk_size * chunk_size,
                chunk_size <= 0 ==> x == 0,
            decreases chunk_size - x,
        {
            let mut y: i32 = 0;
            while y < chunk_size
                invariant
                    o == origin,
                    0 <= x < chunk_size,
                    0 <= y <= chunk_size,
                    o.x + chunk_size - 1 <= i32::MAX,
                    o.y + chunk_size - 1 <= i32::MAX,
                    o.z + chunk_size - 1 <= i32::MAX,
                    forall|i: int, j: int| 0 <= i < j < tiles@.len() ==> tile_lt(#[trigger] tiles@[i], #[trigger] tiles@[j]),
                    forall|i: int| 0 <= i < tiles@.len() ==> (#[trigger] tiles@[i]).x < o.x + x
                        || (tiles@[i].x == o.x + x && tiles@[i].y < o.y + y),
                    forall|t: TileCoordinate| tiles@.contains(t) <==> (in_cube(o, chunk_size as int, t)
                        && (t.x < o.x + x || (t.x == o.x + x && t.y < o.y + y))),
                    tiles@.len() == x * chunk_size * chunk_size + y * chunk_size,
                decreases chunk_size - y,
            {
                let mut z: i32 = 0;
                while z < chunk_size
                    invariant
                        o == origin,
                        0 <= x < chunk_size,
                        0 <= y < chunk_size,
                        0 <= z <= chunk_size,
                        o.x + chunk_size - 1 <= i32::MAX,
                        o.y + chunk_size - 1 <= i32::MAX,
                        o.z + chunk_size - 1 <= i32::MAX,
                        forall|i: int, j: int| 0 <= i < j < tiles@.len() ==> tile_lt(#[trigger] tiles@[i], #[trigger] tiles@[j]),
                        forall|i: int| 0 <= i < tiles@.len() ==> (#[trigger] tiles@[i]).x < o.x + x
                            || (tiles@[i].x == o.x + x && tiles@[i].y < o.y + y)
                            || (tiles@[i].x == o.x + x && tiles@[i].y == o.y + y && tiles@[i].z < o.z + z),
                        forall|t: TileCoordinate| tiles@.contains(t) <==> (in_cube(o, chunk_size as int, t)
                            && (t.x < o.x + x || (t.x == o.x + x && t.y < o.y + y)
                                || (t.x == o.x + x && t.y == o.y + y && t.z < o.z + z))),
                        tiles@.len() == x * chunk_size * chunk_size + y * chunk_size + z,
                    decreases chunk_size - z,
                {
                    let t = TileCoordinate::new(origin.x + x, origin.y + y, origin.z + z);
                    let ghost old_tiles = tiles@;
                    tiles.push(t);
                    assert forall|q: TileCoordinate| tiles@.contains(q) <==> (in_cube(o, chunk_size as int, q)
                        && (q.x < o.x + x || (q.x == o.x + x && q.y < o.y + y)
                            || (q.x == o.x + x && q.y == o.y + y && q.z < o.z + z + 1))) by {
                        if tiles@.contains(q) {
                            let k = choose|k: int| 0 <= k < tiles@.len() && tiles@[k] == q;
                            if k < old_tiles.len() {
                                assert(old_tiles.contains(q));
                            }
                        }
                        if in_cube(o, chunk_size as int, q) && (q.x < o.x + x || (q.x == o.x + x && q.y < o.y + y)
                            || (q.x == o.x + x && q.y == o.y + y && q.z < o.z + z + 1)) {
                            if q == t {
                                assert(tiles@[old_tiles.len() as int] == q);
                            } else {
                                assert(old_tiles.contains(q));
                                let k = choose|k: int| 0 <= k < old_tiles.len() && old_tiles[k] == q;
                                assert(tiles@[k] == q);
                            }
                        }
                    }
                    z = z + 1;
                }
                assert((y + 1) * chunk_size == y * chunk_size + chunk_size) by (nonlinear_arith);
                y = y + 1;
            }
            assert((x + 1) * chunk_size * chunk_size == x * chunk_size * chunk_size + chunk_size * chunk_size) by (nonlinear_arith);
            x = x + 1;
        }
        assert(0 * chunk_size * chunk_size == 0) by (nonlinear_arith);
        tiles
    }

    /// The six neighbouring chunks: +x, -x, +y, -y, +z, -z.
    pub fn adjacent_chunks(&self) -> (r: Vec<ChunkCoordinate>)
        requires
            i32::MIN < self.x < i32::MAX,
            i32::MIN < self.y < i32::MAX,
            i32::MIN < self.z < i32::MAX,
        ensures
            r@ == seq![
                ChunkCoordinate { x: (self.x + 1) as i32, y: self.y, z: self.z },
                ChunkCoordinate { x: (self.x - 1) as i32, y: self.y, z: self.z },
                ChunkCoordinate { x: self.x, y: (self.y + 1) as i32, z: self.z },
                ChunkCoordinate { x: self.x, y: (self.y - 1) as i32, z: self.z },
                ChunkCoordinate { x: self.x, y: self.y, z: (self.z + 1) as i32 },
                ChunkCoordinate { x: self.x, y: self.y, z: (self.z - 1) as i32 },
            ],
    {
        vec![
            ChunkCoordinate::new(self.x + 1, self.y, self.z),
            ChunkCoordinate::new(self.x - 1, self.y, self.z),
            ChunkCoordinate::new(self.x, self.y + 1, self.z),
            ChunkCoordinate::new(self.x, self.y - 1, self.z),
            ChunkCoordinate::new(self.x, self.y, self.z + 1),
            ChunkCoordinate::new(self.x, self.y, self.z - 1),
        ]
    }

    /// Manhattan distance to another chunk.
    pub fn manhattan_distance(&self, other: &ChunkCoordinate) -> (r: u32)
        requires
            manhattan_2d(self.x as int, self.y as int, other.x as int, other.y as int)
                + abs_int(self.z - other.z) <= i32::MAX,
        ensures
            r as int == manhattan_2d(self.x as int, self.y as int, other.x as int, other.y as int)
                + abs_int(self.z - other.z),
    {
        let dx = abs_i32(self.x - other.x);
        let dy = abs_i32(self.y - other.y);
        let dz = abs_i32(self.z - other.z);
        (dx + dy + dz) as u32
    }
}

/// Turning around twice faces the original way, and each step of the opposite
/// direction undoes a step of the direction: a move of any distance followed by the
/// same move in the opposite direction ends where it began.
pub proof fn opposite_direction_undoes_moves(d: Direction, p: Position3D, distance: int)
    ensures
        d.spec_opposite().spec_opposite() == d,
        d.spec_opposite() != d,
        p.x + d.dx() * distance + d.spec_opposite().dx() * distance == p.x,
        p.y + d.dy() * distance + d.spec_opposite().dy() * distance == p.y,
        p.z + d.dz() * distance + d.spec_opposite().dz() * distance == p.z,
{
    assert(p.x + d.dx() * distance + d.spec_opposite().dx() * distance == p.x) by (nonlinear_arith)
        requires d.spec_opposite().dx() == -d.dx();
    assert(p.y + d.dy() * distance + d.spec_opposite().dy() * distance == p.y) by (nonlinear_arith)
        requires d.spec_opposite().dy() == -d.dy();
    assert(p.z + d.dz() * distance + d.spec_opposite().dz() * distance == p.z) by (nonlinear_arith)
        requires d.spec_opposite().dz() == -d.dz();
}

/// A tile coordinate is the origin of its chunk plus its local coordinate, and the
/// local coordinate lies inside the chunk: for a positive chunk size, the chunk
/// (`to_chunk_coordinate`) times the size plus the local coordinate (`local_in_chunk`)
/// gives the coordinate back, with the local coordinate in `0..size`.
pub proof fn chunk_and_local_rebuild_tile(c: i32, size: i32)
    requires
        size > 0,
    ensures
        ((c as int) / (size as int)) * (size as int) + (c as int) % (size as int) == c,
        0 <= (c as int) % (size as int) < size,
{
    vstd::arithmetic::div_mod::lemma_fundamental_div_mod(c as int, size as int);
    vstd::arithmetic::div_mod::lemma_mod_bound(c as int, size as int);
    vstd::arithmetic::mul::lemma_mul_is_commutative(c as int / size as int, size as int);
}

} // verus!
