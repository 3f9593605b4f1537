//! Tile kinds and the per-tile position component.
//!
//! A tile is one voxel of the grid: water, bare terrain, trees, or one of
//! the six structure kinds a player can build.  A [`TilePosition`] carries
//! the voxel coordinates together with a derived integer ordering key that
//! totally orders tiles back-to-front, bottom-to-top for rendering and
//! hit-testing.

use vstd::prelude::*;

verus! {

/// The structure kinds a player can build on top of the terrain.
#[derive(Clone, Copy, PartialEq, Eq, Structural, Debug)]
pub enum Structure {
    Housing,
    Sanctuary,
    Powerplant,
    Renewables,
    Farm,
    Fishery,
}

/// The closed set of tile kinds a voxel can hold.
#[derive(Clone, Copy, PartialEq, Eq, Structural, Debug)]
pub enum TileType {
    Water,
    Terrain,
    Trees,
    Structure(Structure),
}

impl TileType {
    /// True of the structure tiles; a column is civilized exactly when its
    /// top tile satisfies this.
    pub open spec fn spec_is_structure(self) -> bool {
        self matches TileType::Structure(_)
    }

    /// Executable twin of [`TileType::spec_is_structure`].
    pub fn is_structure(&self) -> (r: bool)
        ensures
            r == self.spec_is_structure(),
    {
        match self {
            TileType::Structure(_) => true,
            _ => false,
        }
    }
}

/// Largest grid extent the library accepts on any axis; keeps every derived
/// ordering key well inside `i32` and all index arithmetic inside `usize`.
pub const MAX_DIM: usize = 128;

/// The integer sort key derived from a voxel position and the grid
/// dimensions at the time the position was created: `x - y*h^2 + z*d^3`.
pub open spec fn ordering_key(x: int, y: int, z: int, h: int, d: int) -> int {
    x - y * h * h + z * d * d * d
}

/// Position component of a placed tile: grid coordinates plus the derived
/// rendering order key.  The key is a pure function of `(x, y, z)` and the
/// grid dimensions, recomputed whenever a new position is made, so it can
/// never go stale with respect to the coordinates it carries.
#[derive(Clone, Copy, PartialEq, Eq, Structural, Debug)]
pub struct TilePosition {
    pub x: usize,
    pub y: usize,
    pub z: usize,
    pub ordering: i32,
}

impl TilePosition {
    /// The position is internally consistent with some grid of dimensions
    /// `(w, h, d)`: coordinates in range and the key derived from them.
    pub open spec fn wf_for(self, w: int, h: int, d: int) -> bool {
        &&& self.x < w
        &&& self.y < h
        &&& self.z <= d
        &&& self.ordering == ordering_key(self.x as int, self.y as int, self.z as int, h, d)
    }

    pub fn new(x: usize, y: usize, z: usize, grid_dimensions: (usize, usize, usize)) -> (r:
        TilePosition)
        requires
            grid_dimensions.0 <= MAX_DIM,
            grid_dimensions.1 <= MAX_DIM,
            grid_dimensions.2 <= MAX_DIM,
            x < grid_dimensions.0,
            y < grid_dimensions.1,
            z <= grid_dimensions.2,
        ensures
            r.x == x,
            r.y == y,
            r.z == z,
            r.ordering == ordering_key(
                x as int,
                y as int,
                z as int,
                grid_dimensions.1 as int,
                grid_dimensions.2 as int,
            ),
            r.wf_for(grid_dimensions.0 as int, grid_dimensions.1 as int, grid_dimensions.2 as int),
    {
        let xi: i64 = x as i64;
        let yi: i64 = y as i64;
        let zi: i64 = z as i64;
        let h: i64 = grid_dimensions.1 as i64;
        let d: i64 = grid_dimensions.2 as i64;
        proof {
            assert(0 <= yi * h <= 128 * 128 && 0 <= (yi * h) * h <= 128 * 128 * 128)
                by (nonlinear_arith)
                requires
                    0 <= yi < h,
                    h <= 128,
            ;
            assert(0 <= zi * d <= 128 * 128 && 0 <= (zi * d) * d <= 128 * 128 * 128 && 0 <= ((zi
                * d) * d) * d <= 128 * 128 * 128 * 128) by (nonlinear_arith)
                requires
                    0 <= zi <= d,
                    0 <= d <= 128,
            ;
        }
        let ord: i64 = xi - yi * h * h + zi * d * d * d;
        TilePosition { x, y, z, ordering: ord as i32 }
    }

    pub fn x(&self) -> (r: usize)
        ensures
            r == self.x,
    {
        self.x
    }

    pub fn y(&self) -> (r: usize)
        ensures
            r == self.y,
    {
        self.y
    }

    pub fn z(&self) -> (r: usize)
        ensures
            r == self.z,
    {
        self.z
    }

    /// The rendering sort key; consumers draw tiles in ascending key order.
    pub fn ordering(&self) -> (r: i32)
        ensures
            r == self.ordering,
    {
        self.ordering
    }
}

/// The ordering key draws tiles back to front: any tile at a higher level
/// sorts after every tile at a lower level (provided the depth dominates the
/// horizontal extent, as it does for every grid this library builds); at
/// equal level a tile further back (larger `y`) sorts first, and at equal
/// level and row a tile further left (smaller `x`) sorts first.
pub proof fn lemma_ordering_back_to_front(
    x1: int,
    y1: int,
    z1: int,
    x2: int,
    y2: int,
    z2: int,
    w: int,
    h: int,
    d: int,
)
    requires
        0 <= x1 < w,
        0 <= y1 < h,
        0 <= z1 <= d,
        0 <= x2 < w,
        0 <= y2 < h,
        0 <= z2 <= d,
        (w - 1) + (h - 1) * h * h < d * d * d,
        w - 1 < h * h,
    ensures
        z1 < z2 ==> ordering_key(x1, y1, z1, h, d) < ordering_key(x2, y2, z2, h, d),
        z1 == z2 && y1 > y2 ==> ordering_key(x1, y1, z1, h, d) < ordering_key(x2, y2, z2, h, d),
        z1 == z2 && y1 == y2 && x1 < x2 ==> ordering_key(x1, y1, z1, h, d) < ordering_key(
            x2,
            y2,
            z2,
            h,
            d,
        ),
{
    assert(z1 < z2 ==> x1 - y1 * h * h + z1 * d * d * d < x2 - y2 * h * h + z2 * d * d * d)
        by (nonlinear_arith)
        requires
            0 <= x1 < w,
            0 <= y1 < h,
            0 <= x2 < w,
            0 <= y2 < h,
            0 <= z1,
            0 <= z2,
            (w - 1) + (h - 1) * h * h < d * d * d,
    ;
    assert(y1 > y2 ==> x1 - y1 * h * h + z1 * d * d * d < x2 - y2 * h * h + z1 * d * d * d)
        by (nonlinear_arith)
        requires
            0 <= x1 < w,
            0 <= x2 < w,
            0 <= y1 < h,
            0 <= y2 < h,
            w - 1 < h * h,
    ;
}

/// One placed tile as the rendering and persistence consumers see it: the
/// position component next to the tile kind.
#[derive(Clone, Copy, PartialEq, Eq, Structural, Debug)]
pub struct TileRecord {
    pub pos: TilePosition,
    pub tile: TileType,
}

} // verus!
