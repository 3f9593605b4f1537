//! The procedural map generator: one pass per new game.
//!
//! The generator is driven by a [`GenerateMap`] plan holding one raw terrain
//! height bound and one tree gate per column (derived by the caller from
//! layered coherent noise).  The pass fills every column with terrain up to
//! its clamped bound, floods the coastal fringe with water below the
//! shoreline threshold, grows a single tree on gated terrain tops, then
//! deterministically seeds the starting settlement — one fishery, up to
//! three houses and one power plant — on existing tree or bare-terrain tops
//! near the shoreline, and finally sets the starting sea level.

use vstd::prelude::*;

use crate::grid::Grid;
use crate::tile::{Structure, TileType};
use crate::time::{
    lemma_count_map_at_least_one, lemma_count_map_no_structures, lemma_count_map_update_at,
    lemma_count_stack_push, lemma_count_stack_update, spec_count_grid,
};

verus! {

/// Shallow-water threshold: columns whose terrain stays below this level
/// are filled with water up to it, forming the coastal fringe.
pub const WATER_LEVEL: usize = 4;

/// The starting sea level established after generation.
pub const START_SEA_LEVEL: usize = 3;

/// A raw terrain bound clamped to the valid band `[1, d - 1]`.
pub open spec fn spec_clamped(raw: int, d: int) -> int {
    if raw < 1 {
        1
    } else if raw > d - 1 {
        d - 1
    } else {
        raw
    }
}

/// An eligible fishery site: a column away from the grid's first row whose
/// shoreline-level voxel is free or holds a tree, directly atop terrain.
/// The seeding scan converts exactly the first such column it meets.
pub open spec fn spec_fishery_site(g: Grid, x: int, y: int) -> bool {
    &&& g.spec_in_bounds(x, y)
    &&& 1 <= y
    &&& g.spec_tile(x, y, WATER_LEVEL - 1) == Some(TileType::Terrain)
    &&& (g.spec_tile(x, y, WATER_LEVEL as int) == Some(TileType::Trees) || g.spec_tile(
        x,
        y,
        WATER_LEVEL as int,
    ) is None)
}

/// An eligible site for a seeded house or power plant: a column away from
/// the grid's first row, next to existing civilization, with a free or
/// tree-holding voxel directly atop terrain somewhere in the band
/// `[4, depth/2)`.  The seeding scans convert such sites until their quota
/// is met.
pub open spec fn spec_build_site(g: Grid, x: int, y: int, z: int) -> bool {
    &&& g.spec_in_bounds(x, y)
    &&& 1 <= y
    &&& WATER_LEVEL <= z < g.spec_depth() / 2
    &&& g.spec_tile(x, y, z - 1) == Some(TileType::Terrain)
    &&& g.spec_adjacent_civilized(x, y)
    &&& (g.spec_tile(x, y, z) == Some(TileType::Trees) || g.spec_tile(x, y, z) is None)
}

/// The generation plan: a raw terrain height bound and a tree gate for each
/// column, both indexed `[y][x]`.  The caller derives them from coherent
/// noise; the generator itself is deterministic in the plan.
pub struct GenerateMap {
    pub terrain_bounds: Vec<Vec<usize>>,
    pub tree_gates: Vec<Vec<bool>>,
}

impl GenerateMap {
    /// The plan covers a `w` by `h` grid.
    pub open spec fn wf_for(&self, w: int, h: int) -> bool {
        &&& self.terrain_bounds.len() == h
        &&& forall|y: int| 0 <= y < h ==> (#[trigger] self.terrain_bounds[y]).len() == w
        &&& self.tree_gates.len() == h
        &&& forall|y: int| 0 <= y < h ==> (#[trigger] self.tree_gates[y]).len() == w
    }

    /// The clamped terrain bound for one column.
    pub open spec fn spec_bound(&self, x: int, y: int, d: int) -> int {
        spec_clamped(self.terrain_bounds[y]@[x] as int, d)
    }

    /// What generation guarantees of one column, before and after structure
    /// seeding.  With `b` the clamped terrain bound: the column is dry,
    /// terrain fills it up to `b`; a low column is topped up with water to
    /// the shoreline threshold; a high column carries at most one extra tile
    /// above its terrain (a tree or a seeded structure, never terrain or
    /// water); a tree on top stands only on a gated column inside the band
    /// `[4, depth/2)`; the civilized flag agrees with the top tile.
    pub open spec fn column_generated(&self, g: Grid, x: int, y: int) -> bool {
        let d = g.spec_depth();
        let b = self.spec_bound(x, y, d);
        let col = g.spec_col(x, y);
        let ht = col.tiles.len() as int;
        &&& !col.flooded
        &&& 1 <= ht <= d
        &&& col.civilized == col.tiles@.last().spec_is_structure()
        &&& forall|z: int| 0 <= z < b ==> col.tiles[z] == TileType::Terrain
        &&& (b < WATER_LEVEL ==> ht == WATER_LEVEL && (forall|z: int|
            b <= z < WATER_LEVEL ==> col.tiles[z] == TileType::Water))
        &&& (b >= WATER_LEVEL ==> (ht == b || ht == b + 1))
        &&& (b >= WATER_LEVEL && ht == b + 1 ==> col.tiles[b] != TileType::Terrain && col.tiles[b]
            != TileType::Water)
        &&& (b >= WATER_LEVEL && ht == b + 1 && col.tiles[b] == TileType::Trees
            ==> self.tree_gates[y]@[x] && b < d / 2)
    }

    /// Every column satisfies [`GenerateMap::column_generated`].
    pub open spec fn generated(&self, g: Grid) -> bool {
        forall|x: int, y: int|
            g.spec_in_bounds(x, y) ==> #[trigger] self.column_generated(g, x, y)
    }

    /// Runs the whole generation pass on a fresh grid.
    ///
    /// Structure seeding is owed where sites exist: the fishery count is
    /// zero only when no fishery site is left, and the house and power-plant
    /// counts are zero only when no build site is left.
    pub fn run(&self, grid: &mut Grid)
        requires
            old(grid).wf(),
            old(grid).spec_depth() >= 5,
            self.wf_for(old(grid).spec_width(), old(grid).spec_height_dim()),
            forall|x: int, y: int|
                old(grid).spec_in_bounds(x, y) ==> (#[trigger] old(grid).spec_col(
                    x,
                    y,
                )).tiles.len() == 0 && !old(grid).spec_col(x, y).civilized && !old(grid).spec_col(
                    x,
                    y,
                ).flooded,
        ensures
            final(grid).wf(),
            final(grid).dimensions == old(grid).dimensions,
            final(grid).held_tile == old(grid).held_tile,
            final(grid).sea_level == START_SEA_LEVEL,
            self.generated(*final(grid)),
            spec_count_grid(*final(grid), Structure::Fishery) <= 1,
            spec_count_grid(*final(grid), Structure::Fishery) == 0 ==> forall|x: int, y: int|
                !(#[trigger] spec_fishery_site(*final(grid), x, y)),
            spec_count_grid(*final(grid), Structure::Housing) <= 3,
            spec_count_grid(*final(grid), Structure::Housing) == 0 ==> spec_count_grid(
                *final(grid),
                Structure::Powerplant,
            ) == 0,
            spec_count_grid(*final(grid), Structure::Powerplant) <= 1,
            spec_count_grid(*final(grid), Structure::Powerplant) == 0 ==> forall|
                x: int,
                y: int,
                z: int,
            |
                !(#[trigger] spec_build_site(*final(grid), x, y, z)),
            spec_count_grid(*final(grid), Structure::Sanctuary) == 0,
            spec_count_grid(*final(grid), Structure::Renewables) == 0,
            spec_count_grid(*final(grid), Structure::Farm) == 0,
    {
        let (w, h, d) = grid.dimensions();

        // Terrain, coastal water and trees, column by column.
        let mut y: usize = 0;
        while y < h
            invariant
                grid.wf(),
                grid.dimensions == (w, h, d),
                grid.held_tile == old(grid).held_tile,
                grid.sea_level == old(grid).sea_level,
                d >= 5,
                self.wf_for(w as int, h as int),
                y <= h,
                forall|xx: int, yy: int|
                    grid.spec_in_bounds(xx, yy) && yy < y ==> #[trigger] self.column_generated(
                        *grid,
                        xx,
                        yy,
                    ),
                forall|xx: int, yy: int|
                    grid.spec_in_bounds(xx, yy) && yy >= y ==> (#[trigger] grid.spec_col(
                        xx,
                        yy,
                    )).tiles.len() == 0 && !grid.spec_col(xx, yy).civilized && !grid.spec_col(
                        xx,
                        yy,
                    ).flooded,
                forall|xx: int, yy: int, z: int|
                    grid.spec_in_bounds(xx, yy) && 0 <= z < grid.spec_col(xx, yy).tiles@.len()
                        ==> !(#[trigger] grid.spec_col(xx, yy).tiles@[z]).spec_is_structure(),
            decreases h - y,
        {
            let mut x: usize = 0;
            while x < w
                invariant
                    grid.wf(),
                    grid.dimensions == (w, h, d),
                    grid.held_tile == old(grid).held_tile,
                    grid.sea_level == old(grid).sea_level,
                    d >= 5,
                    self.wf_for(w as int, h as int),
                    y < h,
                    x <= w,
                    forall|xx: int, yy: int|
                        grid.spec_in_bounds(xx, yy) && (yy < y || (yy == y && xx < x))
                            ==> #[trigger] self.column_generated(*grid, xx, yy),
                    forall|xx: int, yy: int|
                        grid.spec_in_bounds(xx, yy) && (yy > y || (yy == y && xx >= x)) ==> (
                        #[trigger] grid.spec_col(xx, yy)).tiles.len() == 0 && !grid.spec_col(
                            xx,
                            yy,
                        ).civilized && !grid.spec_col(xx, yy).flooded,
                    forall|xx: int, yy: int, z: int|
                    grid.spec_in_bounds(xx, yy) && 0 <= z < grid.spec_col(xx, yy).tiles@.len()
                        ==> !(#[trigger] grid.spec_col(xx, yy).tiles@[z]).spec_is_structure(),
            decreases w - x,
            {
                let raw = self.terrain_bounds[y][x];
                let mut b = raw;
                if b < 1 {
                    b = 1;
                }
                if b > d - 1 {
                    b = d - 1;
                }
                let mut tiles: Vec<TileType> = Vec::new();
                while tiles.len() < b
                    invariant
                        tiles@.len() <= b,
                        forall|i: int| 0 <= i < tiles@.len() ==> tiles@[i] == TileType::Terrain,
                    decreases b - tiles@.len(),
                {
                    tiles.push(TileType::Terrain);
                }
                if b < WATER_LEVEL {
                    while tiles.len() < WATER_LEVEL
                        invariant
                            b <= tiles@.len() <= WATER_LEVEL,
                            forall|i: int| 0 <= i < b ==> tiles@[i] == TileType::Terrain,
                            forall|i: int|
                                b <= i < tiles@.len() ==> tiles@[i] == TileType::Water,
                        decreases WATER_LEVEL - tiles@.len(),
                    {
                        tiles.push(TileType::Water);
                    }
                } else {
                    if self.tree_gates[y][x] && b < d / 2 {
                        tiles.push(TileType::Trees);
                    }
                }
                let ghost gprev = *grid;
                let col = grid.col_mut(x, y);
                col.tiles = tiles;
                proof {
                    assert forall|xx: int, yy: int|
                        grid.spec_in_bounds(xx, yy) && (yy < y || (yy == y && xx < x + 1))
                            implies #[trigger] self.column_generated(*grid, xx, yy) by {
                        if !(xx == x as int && yy == y as int) {
                            assert(grid.spec_col(xx, yy) == gprev.spec_col(xx, yy));
                            assert(self.column_generated(gprev, xx, yy));
                        }
                    }
                    assert forall|xx: int, yy: int, z: int|
                        grid.spec_in_bounds(xx, yy) && 0 <= z < grid.spec_col(
                            xx,
                            yy,
                        ).tiles@.len() implies !(#[trigger] grid.spec_col(
                        xx,
                        yy,
                    ).tiles@[z]).spec_is_structure() by {
                        if !(xx == x as int && yy == y as int) {
                            assert(grid.spec_col(xx, yy) == gprev.spec_col(xx, yy));
                            assert(!gprev.spec_col(xx, yy).tiles@[z].spec_is_structure());
                        }
                    }
                }
                x = x + 1;
            }
            y = y + 1;
        }

        proof {
            assert forall|k: Structure| spec_count_grid(*grid, k) == 0 by {
                assert forall|xx: int, yy: int, z: int|
                    0 <= yy < grid.map@.len() && 0 <= xx < grid.map@[yy]@.len() && 0 <= z
                        < grid.map@[yy]@[xx].tiles@.len() implies !(
                #[trigger] grid.map@[yy]@[xx].tiles@[z]).spec_is_structure() by {
                    assert(grid.spec_in_bounds(xx, yy));
                    assert(grid.spec_col(xx, yy) == grid.map@[yy]@[xx]);
                    assert(!grid.spec_col(xx, yy).tiles@[z].spec_is_structure());
                }
                lemma_count_map_no_structures(grid.map@, k);
            }
        }

        // Seed exactly one fishery on the first tree or bare-terrain top at
        // the shoreline level, scanning rows outward and columns from the
        // right.
        let mut found_fishery = false;
        let mut sy: usize = 1;
        while sy < h
            invariant
                grid.wf(),
                grid.dimensions == (w, h, d),
                grid.held_tile == old(grid).held_tile,
                grid.sea_level == old(grid).sea_level,
                d >= 5,
                self.wf_for(w as int, h as int),
                self.generated(*grid),
                spec_count_grid(*grid, Structure::Fishery) == (if found_fishery {
                    1int
                } else {
                    0int
                }),
                spec_count_grid(*grid, Structure::Housing) == 0,
                spec_count_grid(*grid, Structure::Powerplant) == 0,
                spec_count_grid(*grid, Structure::Sanctuary) == 0,
                spec_count_grid(*grid, Structure::Renewables) == 0,
                spec_count_grid(*grid, Structure::Farm) == 0,
                !found_fishery ==> forall|xx: int, yy: int|
                    0 <= xx < w && 1 <= yy < sy ==> !(#[trigger] spec_fishery_site(
                        *grid,
                        xx,
                        yy,
                    )),
            decreases h - sy,
        {
            if !found_fishery {
                let mut sx: usize = w;
                while sx > 0
                    invariant
                        grid.wf(),
                        grid.dimensions == (w, h, d),
                        grid.held_tile == old(grid).held_tile,
                        grid.sea_level == old(grid).sea_level,
                        d >= 5,
                        self.wf_for(w as int, h as int),
                        self.generated(*grid),
                        spec_count_grid(*grid, Structure::Fishery) == (if found_fishery {
                            1int
                        } else {
                            0int
                        }),
                        spec_count_grid(*grid, Structure::Housing) == 0,
                        spec_count_grid(*grid, Structure::Powerplant) == 0,
                        spec_count_grid(*grid, Structure::Sanctuary) == 0,
                        spec_count_grid(*grid, Structure::Renewables) == 0,
                        spec_count_grid(*grid, Structure::Farm) == 0,
                        sy < h,
                        sx <= w,
                        !found_fishery ==> forall|xx: int, yy: int|
                            0 <= xx < w && 1 <= yy < sy ==> !(#[trigger] spec_fishery_site(
                                *grid,
                                xx,
                                yy,
                            )),
                        !found_fishery ==> forall|xx: int|
                            sx <= xx < w ==> !(#[trigger] spec_fishery_site(
                                *grid,
                                xx,
                                sy as int,
                            )),
                    decreases sx,
                {
                    sx = sx - 1;
                    if !found_fishery {
                        let below = grid.tile(sx, sy, WATER_LEVEL - 1);
                        let at = grid.tile(sx, sy, WATER_LEVEL);
                        let base_ok = match below {
                            Some(TileType::Terrain) => true,
                            _ => false,
                        };
                        if base_ok {
                            match at {
                                Some(TileType::Trees) => {
                                    seed_replace(grid, self, sx, sy, WATER_LEVEL, Structure::Fishery);
                                    found_fishery = true;
                                },
                                None => {
                                    seed_place(grid, self, sx, sy, WATER_LEVEL, Structure::Fishery);
                                    found_fishery = true;
                                },
                                _ => {},
                            }
                        }
                    }
                }
            }
            sy = sy + 1;
        }

        // Seed up to three houses next to existing civilization, scanning
        // columns from the right.
        let mut houses: usize = 0;
        let mut hx: usize = w;
        while hx > 0
            invariant
                grid.wf(),
                grid.dimensions == (w, h, d),
                grid.held_tile == old(grid).held_tile,
                grid.sea_level == old(grid).sea_level,
                d >= 5,
                self.wf_for(w as int, h as int),
                self.generated(*grid),
                spec_count_grid(*grid, Structure::Fishery) <= 1,
                spec_count_grid(*grid, Structure::Housing) == houses as int,
                houses <= 3,
                spec_count_grid(*grid, Structure::Powerplant) == 0,
                spec_count_grid(*grid, Structure::Sanctuary) == 0,
                spec_count_grid(*grid, Structure::Renewables) == 0,
                spec_count_grid(*grid, Structure::Farm) == 0,
                spec_count_grid(*grid, Structure::Fishery) == 0 ==> houses == 0,
                spec_count_grid(*grid, Structure::Fishery) == 0 ==> forall|xx: int, yy: int|
                    0 <= xx < w && 1 <= yy < h ==> !(#[trigger] spec_fishery_site(
                        *grid,
                        xx,
                        yy,
                    )),
                houses == 0 ==> forall|xx: int, yy: int, zz: int|
                    hx <= xx ==> !(#[trigger] spec_build_site(*grid, xx, yy, zz)),
                hx <= w,
            decreases hx,
        {
            hx = hx - 1;
            let mut hy: usize = 1;
            while hy < h
                invariant
                    grid.wf(),
                    grid.dimensions == (w, h, d),
                    grid.held_tile == old(grid).held_tile,
                    grid.sea_level == old(grid).sea_level,
                    d >= 5,
                    self.wf_for(w as int, h as int),
                    self.generated(*grid),
                    spec_count_grid(*grid, Structure::Fishery) <= 1,
                    spec_count_grid(*grid, Structure::Housing) == houses as int,
                    houses <= 3,
                    spec_count_grid(*grid, Structure::Powerplant) == 0,
                    spec_count_grid(*grid, Structure::Sanctuary) == 0,
                    spec_count_grid(*grid, Structure::Renewables) == 0,
                    spec_count_grid(*grid, Structure::Farm) == 0,
                    spec_count_grid(*grid, Structure::Fishery) == 0 ==> houses == 0,
                    spec_count_grid(*grid, Structure::Fishery) == 0 ==> forall|xx: int, yy: int|
                        0 <= xx < w && 1 <= yy < h ==> !(#[trigger] spec_fishery_site(
                            *grid,
                            xx,
                            yy,
                        )),
                    houses == 0 ==> forall|xx: int, yy: int, zz: int|
                        xx > hx || (xx == hx && yy < hy) ==> !(#[trigger] spec_build_site(
                            *grid,
                            xx,
                            yy,
                            zz,
                        )),
                    hx < w,
                decreases h - hy,
            {
                let mut hz: usize = WATER_LEVEL;
                while hz < d / 2
                    invariant
                        grid.wf(),
                        grid.dimensions == (w, h, d),
                        grid.held_tile == old(grid).held_tile,
                        grid.sea_level == old(grid).sea_level,
                        d >= 5,
                        self.wf_for(w as int, h as int),
                        self.generated(*grid),
                        spec_count_grid(*grid, Structure::Fishery) <= 1,
                        spec_count_grid(*grid, Structure::Housing) == houses as int,
                        houses <= 3,
                        spec_count_grid(*grid, Structure::Powerplant) == 0,
                        spec_count_grid(*grid, Structure::Sanctuary) == 0,
                        spec_count_grid(*grid, Structure::Renewables) == 0,
                        spec_count_grid(*grid, Structure::Farm) == 0,
                        spec_count_grid(*grid, Structure::Fishery) == 0 ==> houses == 0,
                        spec_count_grid(*grid, Structure::Fishery) == 0 ==> forall|xx: int, yy: int|
                            0 <= xx < w && 1 <= yy < h ==> !(#[trigger] spec_fishery_site(
                                *grid,
                                xx,
                                yy,
                            )),
                        houses == 0 ==> forall|xx: int, yy: int, zz: int|
                            xx > hx || (xx == hx && yy < hy) || (xx == hx && yy == hy && zz < hz)
                                ==> !(#[trigger] spec_build_site(*grid, xx, yy, zz)),
                        hx < w,
                        hy < h,
                        WATER_LEVEL <= hz,
                    decreases d / 2 - hz,
                {
                    if houses <= 2 {
                        let below = grid.tile(hx, hy, hz - 1);
                        let base_ok = match below {
                            Some(TileType::Terrain) => true,
                            _ => false,
                        };
                        if base_ok && grid.is_civilizable(hx, hy) {
                            proof {
                                // Nothing can stand next to civilization on a
                                // grid with no structure at all, and without a
                                // fishery nothing else was seeded yet.
                                if spec_count_grid(*grid, Structure::Fishery) == 0 {
                                    lemma_adjacent_civilization_is_counted(
                                        *grid,
                                        self,
                                        hx as int,
                                        hy as int,
                                    );
                                }
                            }
                            let at = grid.tile(hx, hy, hz);
                            match at {
                                Some(TileType::Trees) => {
                                    seed_replace(grid, self, hx, hy, hz, Structure::Housing);
                                    houses = houses + 1;
                                },
                                None => {
                                    seed_place(grid, self, hx, hy, hz, Structure::Housing);
                                    houses = houses + 1;
                                },
                                _ => {},
                            }
                        }
                    }
                    hz = hz + 1;
                }
                hy = hy + 1;
            }
        }

        // Seed one power plant the same way, scanning rows first.
        let mut found_plant = false;
        let mut py: usize = 1;
        while py < h
            invariant
                grid.wf(),
                grid.dimensions == (w, h, d),
                grid.held_tile == old(grid).held_tile,
                grid.sea_level == old(grid).sea_level,
                d >= 5,
                self.wf_for(w as int, h as int),
                self.generated(*grid),
                spec_count_grid(*grid, Structure::Fishery) <= 1,
                spec_count_grid(*grid, Structure::Housing) <= 3,
                spec_count_grid(*grid, Structure::Powerplant) == (if found_plant {
                    1int
                } else {
                    0int
                }),
                spec_count_grid(*grid, Structure::Sanctuary) == 0,
                spec_count_grid(*grid, Structure::Renewables) == 0,
                spec_count_grid(*grid, Structure::Farm) == 0,
                spec_count_grid(*grid, Structure::Fishery) == 0 ==> !found_plant
                    && spec_count_grid(*grid, Structure::Housing) == 0,
                spec_count_grid(*grid, Structure::Fishery) == 0 ==> forall|xx: int, yy: int|
                    0 <= xx < w && 1 <= yy < h ==> !(#[trigger] spec_fishery_site(
                        *grid,
                        xx,
                        yy,
                    )),
                spec_count_grid(*grid, Structure::Housing) == 0 ==> !found_plant && forall|
                    xx: int,
                    yy: int,
                    zz: int,
                |
                    !(#[trigger] spec_build_site(*grid, xx, yy, zz)),
                !found_plant ==> forall|xx: int, yy: int, zz: int|
                    yy < py ==> !(#[trigger] spec_build_site(*grid, xx, yy, zz)),
                1 <= py,
            decreases h - py,
        {
            let mut px: usize = w;
            while px > 0
                invariant
                    grid.wf(),
                    grid.dimensions == (w, h, d),
                    grid.held_tile == old(grid).held_tile,
                    grid.sea_level == old(grid).sea_level,
                    d >= 5,
                    self.wf_for(w as int, h as int),
                    self.generated(*grid),
                    spec_count_grid(*grid, Structure::Fishery) <= 1,
                    spec_count_grid(*grid, Structure::Housing) <= 3,
                    spec_count_grid(*grid, Structure::Powerplant) == (if found_plant {
                        1int
                    } else {
                        0int
                    }),
                    spec_count_grid(*grid, Structure::Sanctuary) == 0,
                    spec_count_grid(*grid, Structure::Renewables) == 0,
                    spec_count_grid(*grid, Structure::Farm) == 0,
                    py < h,
                    px <= w,
                    spec_count_grid(*grid, Structure::Fishery) == 0 ==> !found_plant
                        && spec_count_grid(*grid, Structure::Housing) == 0,
                    spec_count_grid(*grid, Structure::Fishery) == 0 ==> forall|xx: int, yy: int|
                        0 <= xx < w && 1 <= yy < h ==> !(#[trigger] spec_fishery_site(
                            *grid,
                            xx,
                            yy,
                        )),
                    spec_count_grid(*grid, Structure::Housing) == 0 ==> !found_plant && forall|
                        xx: int,
                        yy: int,
                        zz: int,
                    |
                        !(#[trigger] spec_build_site(*grid, xx, yy, zz)),
                    !found_plant ==> forall|xx: int, yy: int, zz: int|
                        yy < py || (yy == py && px <= xx) ==> !(#[trigger] spec_build_site(
                            *grid,
                            xx,
                            yy,
                            zz,
                        )),
                    1 <= py,
                decreases px,
            {
                px = px - 1;
                let mut pz: usize = WATER_LEVEL;
                while pz < d / 2
                    invariant
                        grid.wf(),
                        grid.dimensions == (w, h, d),
                        grid.held_tile == old(grid).held_tile,
                        grid.sea_level == old(grid).sea_level,
                        d >= 5,
                        self.wf_for(w as int, h as int),
                        self.generated(*grid),
                        spec_count_grid(*grid, Structure::Fishery) <= 1,
                        spec_count_grid(*grid, Structure::Housing) <= 3,
                        spec_count_grid(*grid, Structure::Powerplant) == (if found_plant {
                            1int
                        } else {
                            0int
                        }),
                        spec_count_grid(*grid, Structure::Sanctuary) == 0,
                        spec_count_grid(*grid, Structure::Renewables) == 0,
                        spec_count_grid(*grid, Structure::Farm) == 0,
                        px < w,
                        py < h,
                        WATER_LEVEL <= pz,
                        spec_count_grid(*grid, Structure::Fishery) == 0 ==> !found_plant
                            && spec_count_grid(*grid, Structure::Housing) == 0,
                        spec_count_grid(*grid, Structure::Fishery) == 0 ==> forall|xx: int, yy: int|
                            0 <= xx < w && 1 <= yy < h ==> !(#[trigger] spec_fishery_site(
                                *grid,
                                xx,
                                yy,
                            )),
                        spec_count_grid(*grid, Structure::Housing) == 0 ==> !found_plant && forall|
                            xx: int,
                            yy: int,
                            zz: int,
                        |
                            !(#[trigger] spec_build_site(*grid, xx, yy, zz)),
                        !found_plant ==> forall|xx: int, yy: int, zz: int|
                            yy < py || (yy == py && xx > px) || (yy == py && xx == px && zz < pz)
                                ==> !(#[trigger] spec_build_site(*grid, xx, yy, zz)),
                        1 <= py,
                    decreases d / 2 - pz,
                {
                    if !found_plant {
                        let below = grid.tile(px, py, pz - 1);
                        let base_ok = match below {
                            Some(TileType::Terrain) => true,
                            _ => false,
                        };
                        if base_ok && grid.is_civilizable(px, py) {
                            proof {
                                if spec_count_grid(*grid, Structure::Fishery) == 0 {
                                    lemma_adjacent_civilization_is_counted(
                                        *grid,
                                        self,
                                        px as int,
                                        py as int,
                                    );
                                }
                            }
                            let at = grid.tile(px, py, pz);
                            match at {
                                Some(TileType::Trees) => {
                                    proof {
                                        // With no house seeded no site exists,
                                        // so this arm is unreachable then.
                                        if spec_count_grid(*grid, Structure::Housing) == 0 {
                                            assert(spec_build_site(
                                                *grid,
                                                px as int,
                                                py as int,
                                                pz as int,
                                            ));
                                        }
                                    }
                                    seed_replace(grid, self, px, py, pz, Structure::Powerplant);
                                    found_plant = true;
                                },
                                None => {
                                    proof {
                                        if spec_count_grid(*grid, Structure::Housing) == 0 {
                                            assert(spec_build_site(
                                                *grid,
                                                px as int,
                                                py as int,
                                                pz as int,
                                            ));
                                        }
                                    }
                                    seed_place(grid, self, px, py, pz, Structure::Powerplant);
                                    found_plant = true;
                                },
                                _ => {},
                            }
                        }
                    }
                    pz = pz + 1;
                }
            }
            py = py + 1;
        }

        // The session starts with the sea three levels up.
        let ghost gdone = *grid;
        grid.sea_level = START_SEA_LEVEL;
        proof {
            crate::grid::lemma_same_map(gdone, *grid);
            assert forall|xx: int, yy: int|
                grid.spec_in_bounds(xx, yy) implies #[trigger] self.column_generated(
                *grid,
                xx,
                yy,
            ) by {
                assert(grid.spec_col(xx, yy) == gdone.spec_col(xx, yy));
                assert(self.column_generated(gdone, xx, yy));
            }
            if spec_count_grid(*grid, Structure::Fishery) == 0 {
                assert forall|xx: int, yy: int| !(#[trigger] spec_fishery_site(
                    *grid,
                    xx,
                    yy,
                )) by {
                    if 0 <= xx < w && 1 <= yy < h {
                        assert(!spec_fishery_site(gdone, xx, yy));
                        assert(grid.spec_col(xx, yy) == gdone.spec_col(xx, yy));
                    }
                }
            }
            if spec_count_grid(*grid, Structure::Housing) == 0 {
                assert(spec_count_grid(gdone, Structure::Housing) == 0);
                assert(!found_plant);
            }
            if spec_count_grid(*grid, Structure::Powerplant) == 0 {
                assert(!found_plant);
                assert forall|xx: int, yy: int, zz: int| !(#[trigger] spec_build_site(
                    *grid,
                    xx,
                    yy,
                    zz,
                )) by {
                    if gdone.spec_in_bounds(xx, yy) {
                        assert(!spec_build_site(gdone, xx, yy, zz));
                        assert(grid.spec_col(xx, yy) == gdone.spec_col(xx, yy));
                        if 0 < xx {
                            assert(grid.spec_col(xx - 1, yy) == gdone.spec_col(xx - 1, yy));
                        }
                        if xx + 1 < w {
                            assert(grid.spec_col(xx + 1, yy) == gdone.spec_col(xx + 1, yy));
                        }
                        if 0 < yy {
                            assert(grid.spec_col(xx, yy - 1) == gdone.spec_col(xx, yy - 1));
                        }
                        if yy + 1 < h {
                            assert(grid.spec_col(xx, yy + 1) == gdone.spec_col(xx, yy + 1));
                        }
                    }
                }
            }
        }
    }
}

/// Converts the tree at `(x, y, z)` into a seeded structure in place,
/// preserving the generated-column shape of the whole grid.
fn seed_replace(grid: &mut Grid, plan: &GenerateMap, x: usize, y: usize, z: usize, s: Structure)
    requires
        old(grid).wf(),
        old(grid).spec_depth() >= 5,
        plan.wf_for(old(grid).spec_width(), old(grid).spec_height_dim()),
        plan.generated(*old(grid)),
        old(grid).spec_in_bounds(x as int, y as int),
        WATER_LEVEL <= z,
        old(grid).spec_tile(x as int, y as int, z as int) == Some(TileType::Trees),
    ensures
        final(grid).wf(),
        final(grid).dimensions == old(grid).dimensions,
        final(grid).held_tile == old(grid).held_tile,
        final(grid).sea_level == old(grid).sea_level,
        plan.generated(*final(grid)),
        forall|k: Structure|
            spec_count_grid(*final(grid), k) == spec_count_grid(*old(grid), k) + (if k == s {
                1int
            } else {
                0int
            }),
{
    proof {
        assert(plan.column_generated(*old(grid), x as int, y as int));
    }
    grid.replace_tile(x, y, z, TileType::Structure(s));
    proof {
        let d = grid.spec_depth();
        let b = plan.spec_bound(x as int, y as int, d);
        assert forall|xx: int, yy: int|
            grid.spec_in_bounds(xx, yy) implies #[trigger] plan.column_generated(
            *grid,
            xx,
            yy,
        ) by {
            if xx == x as int && yy == y as int {
                assert(plan.column_generated(*old(grid), xx, yy));
                assert(old(grid).spec_col(xx, yy).tiles[z as int] == TileType::Trees);
                assert(z as int == b);
            } else {
                assert(grid.spec_col(xx, yy) == old(grid).spec_col(xx, yy));
                assert(plan.column_generated(*old(grid), xx, yy));
            }
        }
        assert forall|yy: int|
            0 <= yy < old(grid).map@.len() implies (#[trigger] grid.map@[yy])@.len() == old(
            grid,
        ).map@[yy]@.len() by {}
        assert forall|xx: int, yy: int|
            0 <= yy < old(grid).map@.len() && 0 <= xx < old(grid).map@[yy]@.len() && !(xx
                == x as int && yy == y as int) implies (#[trigger] grid.map@[yy]@[xx]).tiles@
            == old(grid).map@[yy]@[xx].tiles@ by {
            assert(old(grid).spec_in_bounds(xx, yy));
            assert(grid.spec_col(xx, yy) == old(grid).spec_col(xx, yy));
        }
        assert forall|k: Structure|
            spec_count_grid(*grid, k) == spec_count_grid(*old(grid), k) + (if k == s {
                1int
            } else {
                0int
            }) by {
            lemma_count_map_update_at(old(grid).map@, grid.map@, x as int, y as int, k);
            lemma_count_stack_update(
                old(grid).spec_col(x as int, y as int).tiles@,
                z as int,
                TileType::Structure(s),
                k,
            );
        }
    }
}

/// Places a seeded structure on the bare terrain top at `(x, y, z)` (the
/// first unset voxel of its column), preserving the generated-column shape
/// of the whole grid.
fn seed_place(grid: &mut Grid, plan: &GenerateMap, x: usize, y: usize, z: usize, s: Structure)
    requires
        old(grid).wf(),
        old(grid).spec_depth() >= 5,
        plan.wf_for(old(grid).spec_width(), old(grid).spec_height_dim()),
        plan.generated(*old(grid)),
        old(grid).spec_in_bounds(x as int, y as int),
        WATER_LEVEL <= z,
        old(grid).spec_tile(x as int, y as int, z as int) is None,
        old(grid).spec_tile(x as int, y as int, z as int - 1) == Some(TileType::Terrain),
    ensures
        final(grid).wf(),
        final(grid).dimensions == old(grid).dimensions,
        final(grid).held_tile == old(grid).held_tile,
        final(grid).sea_level == old(grid).sea_level,
        plan.generated(*final(grid)),
        forall|k: Structure|
            spec_count_grid(*final(grid), k) == spec_count_grid(*old(grid), k) + (if k == s {
                1int
            } else {
                0int
            }),
{
    proof {
        assert(plan.column_generated(*old(grid), x as int, y as int));
    }
    grid.place(TileType::Structure(s), x, y);
    proof {
        let d = grid.spec_depth();
        let b = plan.spec_bound(x as int, y as int, d);
        assert forall|xx: int, yy: int|
            grid.spec_in_bounds(xx, yy) implies #[trigger] plan.column_generated(
            *grid,
            xx,
            yy,
        ) by {
            if xx == x as int && yy == y as int {
                assert(plan.column_generated(*old(grid), xx, yy));
                assert(old(grid).spec_height_at(xx, yy) == z as int);
                assert(z as int == b);
            } else {
                assert(grid.spec_col(xx, yy) == old(grid).spec_col(xx, yy));
                assert(plan.column_generated(*old(grid), xx, yy));
            }
        }
        assert forall|yy: int|
            0 <= yy < old(grid).map@.len() implies (#[trigger] grid.map@[yy])@.len() == old(
            grid,
        ).map@[yy]@.len() by {}
        assert forall|xx: int, yy: int|
            0 <= yy < old(grid).map@.len() && 0 <= xx < old(grid).map@[yy]@.len() && !(xx
                == x as int && yy == y as int) implies (#[trigger] grid.map@[yy]@[xx]).tiles@
            == old(grid).map@[yy]@[xx].tiles@ by {
            assert(old(grid).spec_in_bounds(xx, yy));
            assert(grid.spec_col(xx, yy) == old(grid).spec_col(xx, yy));
        }
        assert forall|k: Structure|
            spec_count_grid(*grid, k) == spec_count_grid(*old(grid), k) + (if k == s {
                1int
            } else {
                0int
            }) by {
            lemma_count_map_update_at(old(grid).map@, grid.map@, x as int, y as int, k);
            lemma_count_stack_push(
                old(grid).spec_col(x as int, y as int).tiles@,
                TileType::Structure(s),
                k,
            );
        }
    }
}

/// On a generated grid, a column can be adjacent to civilization only where
/// some structure stands, and a standing structure shows up in the census.
proof fn lemma_adjacent_civilization_is_counted(g: Grid, plan: &GenerateMap, x: int, y: int)
    requires
        g.wf(),
        plan.wf_for(g.spec_width(), g.spec_height_dim()),
        plan.generated(g),
        g.spec_adjacent_civilized(x, y),
    ensures
        exists|k: Structure| #[trigger] spec_count_grid(g, k) >= 1,
{
    let w = g.spec_width();
    let h = g.spec_height_dim();
    let (cx, cy): (int, int) = if x + 1 < w && g.spec_civilized(x + 1, y) {
        (x + 1, y)
    } else if 0 < x && g.spec_civilized(x - 1, y) {
        (x - 1, y)
    } else if y + 1 < h && g.spec_civilized(x, y + 1) {
        (x, y + 1)
    } else {
        (x, y - 1)
    };
    assert(g.spec_in_bounds(cx, cy) && g.spec_civilized(cx, cy));
    assert(plan.column_generated(g, cx, cy));
    let col = g.spec_col(cx, cy);
    let top = col.tiles.len() - 1;
    assert(col.tiles@.last().spec_is_structure());
    match col.tiles@[top as int] {
        TileType::Structure(k) => {
            assert(g.map@[cy]@.len() == w);
            assert(g.map@[cy]@[cx] == col);
            lemma_count_map_at_least_one(g.map@, cx, cy, top as int, k);
            assert(spec_count_grid(g, k) >= 1);
        },
        _ => {
            assert(false);
        },
    }
}

} // verus!
