//! The flood pass: invoked when the flood countdown lapses, it raises the
//! sea level by exactly one and converts the columns a region-growing
//! spread at the new sea-level plane marks to water.
//!
//! A column at the plane is floodable unless terrain blocks it there; the
//! spread seeds from the grid's first row and propagates 4-connectedly via
//! four sweep passes (rows downward then upward, each row scanned left to
//! right and right to left).  Flooding is monotonic: a flooded column never
//! becomes dry again, and terrain voxels are never overwritten.

use vstd::prelude::*;

use crate::grid::Grid;
use crate::tile::TileType;

verus! {

/// The mark buffer has one row of `w` flags for each of the `h` grid rows.
pub open spec fn marks_shape(m: Seq<Vec<bool>>, w: int, h: int) -> bool {
    &&& m.len() == h
    &&& forall|y: int| 0 <= y < h ==> (#[trigger] m[y])@.len() == w
}

/// Column `(x, y)` is marked to be flooded.
pub open spec fn marked(m: Seq<Vec<bool>>, x: int, y: int) -> bool {
    m[y]@[x]
}

/// Terrain at the new sea-level plane blocks the flood: such a column stays
/// dry as the flood's border.
pub open spec fn spec_blocked(g: Grid, x: int, y: int) -> bool {
    g.spec_tile(x, y, g.sea_level + 1) == Some(TileType::Terrain)
}

/// Some 4-orthogonal neighbor of `(x, y)` is already marked.
pub open spec fn spec_neighbor_marked(m: Seq<Vec<bool>>, x: int, y: int, w: int, h: int) -> bool {
    ||| 0 < y && marked(m, x, y - 1)
    ||| y + 1 < h && marked(m, x, y + 1)
    ||| 0 < x && marked(m, x - 1, y)
    ||| x + 1 < w && marked(m, x + 1, y)
}

/// Every mark sits on a column the flood may convert: in bounds and not
/// blocked by terrain at the plane.
pub open spec fn marks_sound(m: Seq<Vec<bool>>, g: Grid) -> bool {
    forall|x: int, y: int|
        g.spec_in_bounds(x, y) && #[trigger] marked(m, x, y) ==> !spec_blocked(g, x, y)
}

/// Every mark sits on a column the spread can actually reach: 4-connected
/// through unblocked columns to the grid's first row.
pub open spec fn marks_reached(m: Seq<Vec<bool>>, g: Grid) -> bool {
    forall|x: int, y: int|
        g.spec_in_bounds(x, y) && #[trigger] marked(m, x, y) ==> spec_flood_reached(g, x, y)
}

/// Two columns are 4-orthogonally adjacent.
pub open spec fn spec_cols_adjacent(ax: int, ay: int, bx: int, by: int) -> bool {
    ||| ax == bx && (ay == by + 1 || ay + 1 == by)
    ||| ay == by && (ax == bx + 1 || ax + 1 == bx)
}

/// A flood path: a chain of in-bounds columns, none blocked by terrain at
/// the plane, starting in the grid's first row, each step 4-adjacent to the
/// one before.
pub open spec fn spec_flood_path(g: Grid, p: Seq<(int, int)>) -> bool {
    &&& p.len() > 0
    &&& p[0].1 == 0
    &&& forall|i: int|
        0 <= i < p.len() ==> g.spec_in_bounds((#[trigger] p[i]).0, p[i].1) && !spec_blocked(
            g,
            p[i].0,
            p[i].1,
        )
    &&& forall|i: int|
        0 < i < p.len() ==> spec_cols_adjacent(
            (#[trigger] p[i]).0,
            p[i].1,
            p[i - 1].0,
            p[i - 1].1,
        )
}

/// The spread can reach column `(x, y)`: some chain of unblocked columns
/// connects it 4-orthogonally to the seed row.
pub open spec fn spec_flood_reached(g: Grid, x: int, y: int) -> bool {
    exists|p: Seq<(int, int)>| #[trigger] spec_flood_path(g, p) && p.last() == (x, y)
}

/// An unblocked seed-row column is reached by the one-column path.
proof fn lemma_seed_reached(g: Grid, x: int)
    requires
        g.spec_in_bounds(x, 0),
        !spec_blocked(g, x, 0),
    ensures
        spec_flood_reached(g, x, 0),
{
    let p = seq![(x, 0int)];
    assert(p[0] == (x, 0int));
    assert(spec_flood_path(g, p));
    assert(p.last() == (x, 0int));
}

/// Reach extends across one 4-adjacency step onto an unblocked column.
proof fn lemma_reached_step(g: Grid, nx: int, ny: int, x: int, y: int)
    requires
        spec_flood_reached(g, nx, ny),
        g.spec_in_bounds(x, y),
        !spec_blocked(g, x, y),
        spec_cols_adjacent(x, y, nx, ny),
    ensures
        spec_flood_reached(g, x, y),
{
    let p = choose|p: Seq<(int, int)>| spec_flood_path(g, p) && p.last() == (nx, ny);
    let q = p.push((x, y));
    assert(q[0] == p[0]);
    assert forall|i: int|
        0 <= i < q.len() implies g.spec_in_bounds((#[trigger] q[i]).0, q[i].1) && !spec_blocked(
        g,
        q[i].0,
        q[i].1,
    ) by {
        if i < p.len() {
            assert(q[i] == p[i]);
        } else {
            assert(q[i] == (x, y));
        }
    }
    assert forall|i: int|
        0 < i < q.len() implies spec_cols_adjacent(
        (#[trigger] q[i]).0,
        q[i].1,
        q[i - 1].0,
        q[i - 1].1,
    ) by {
        if i < p.len() {
            assert(q[i] == p[i]);
            assert(q[i - 1] == p[i - 1]);
        } else {
            assert(q[i] == (x, y));
            assert(q[i - 1] == p[p.len() - 1]);
            assert(p.last() == (nx, ny));
        }
    }
    assert(spec_flood_path(g, q));
    assert(q.last() == (x, y));
}

/// One step of the sweep: marks `(x, y)` when it is not yet marked, not
/// blocked by terrain at the new sea-level plane, and 4-adjacent to an
/// already marked column; otherwise leaves the marks unchanged.
pub fn flood_check_part(grid: &Grid, x: usize, y: usize, marks: &mut Vec<Vec<bool>>)
    requires
        grid.wf(),
        grid.spec_in_bounds(x as int, y as int),
        marks_shape(old(marks)@, grid.spec_width(), grid.spec_height_dim()),
        marks_sound(old(marks)@, *grid),
        marks_reached(old(marks)@, *grid),
    ensures
        marks_shape(final(marks)@, grid.spec_width(), grid.spec_height_dim()),
        marks_sound(final(marks)@, *grid),
        marks_reached(final(marks)@, *grid),
        forall|xx: int, yy: int|
            0 <= yy < grid.spec_height_dim() && 0 <= xx < grid.spec_width() && !(xx == x as int
                && yy == y as int) ==> #[trigger] marked(final(marks)@, xx, yy) == marked(
                old(marks)@,
                xx,
                yy,
            ),
        marked(final(marks)@, x as int, y as int) == (marked(old(marks)@, x as int, y as int) || (
        !spec_blocked(*grid, x as int, y as int) && spec_neighbor_marked(
            old(marks)@,
            x as int,
            y as int,
            grid.spec_width(),
            grid.spec_height_dim(),
        ))),
{
    let (w, h, _) = grid.dimensions();
    if marks[y][x] {
        return ;
    }
    let neighbor = (y > 0 && marks[y - 1][x]) || (y + 1 < h && marks[y + 1][x]) || (x > 0
        && marks[y][x - 1]) || (x + 1 < w && marks[y][x + 1]);
    if !neighbor {
        return ;
    }
    let plane = grid.sea_level + 1;
    let blocked = match grid.tile(x, y, plane) {
        Some(TileType::Terrain) => true,
        _ => false,
    };
    if !blocked {
        let ghost m0 = marks@;
        let row = row_mut(marks, y);
        let slot = &mut row[x];
        *slot = true;
        proof {
            assert forall|xx: int, yy: int|
                grid.spec_in_bounds(xx, yy) && #[trigger] marked(marks@, xx, yy) implies !spec_blocked(
                *grid,
                xx,
                yy,
            ) by {
                if !(xx == x as int && yy == y as int) {
                    assert(marked(marks@, xx, yy) == marked(m0, xx, yy));
                }
            }
            let xi = x as int;
            let yi = y as int;
            let wi = grid.spec_width();
            let hi = grid.spec_height_dim();
            assert forall|xx: int, yy: int|
                grid.spec_in_bounds(xx, yy) && #[trigger] marked(marks@, xx, yy)
                    implies spec_flood_reached(*grid, xx, yy) by {
                if xx == xi && yy == yi {
                    // The mark spread here from a reached neighbor.
                    if 0 < yi && marked(m0, xi, yi - 1) {
                        assert(grid.spec_in_bounds(xi, yi - 1));
                        lemma_reached_step(*grid, xi, yi - 1, xi, yi);
                    } else if yi + 1 < hi && marked(m0, xi, yi + 1) {
                        assert(grid.spec_in_bounds(xi, yi + 1));
                        lemma_reached_step(*grid, xi, yi + 1, xi, yi);
                    } else if 0 < xi && marked(m0, xi - 1, yi) {
                        assert(grid.spec_in_bounds(xi - 1, yi));
                        lemma_reached_step(*grid, xi - 1, yi, xi, yi);
                    } else {
                        assert(xi + 1 < wi && marked(m0, xi + 1, yi));
                        assert(grid.spec_in_bounds(xi + 1, yi));
                        lemma_reached_step(*grid, xi + 1, yi, xi, yi);
                    }
                } else {
                    assert(marked(marks@, xx, yy) == marked(m0, xx, yy));
                }
            }
        }
    }
}

/// Exclusive access to one row of the mark buffer.
fn row_mut(marks: &mut Vec<Vec<bool>>, y: usize) -> (r: &mut Vec<bool>)
    requires
        y < old(marks).len(),
    ensures
        *r == old(marks)@[y as int],
        final(marks)@ == old(marks)@.update(y as int, *final(r)),
{
    &mut marks[y]
}

/// The flood pass over the whole grid.
pub struct Flood;

impl Flood {
    /// Raises the sea level by exactly one and floods the columns the sweep
    /// spread marks at the new plane, unless the new plane would pass the
    /// depth ceiling, in which case the grid is left untouched.
    ///
    /// Flood monotonicity: the sea level never decreases, and a flooded
    /// column stays flooded.  Beyond that: flooding never civilizes a
    /// column, never lowers a column, never overwrites terrain; every
    /// unblocked seed-row column floods; a column floods only if the spread
    /// can reach it (4-connected through unblocked columns to the seed row);
    /// every newly flooded column takes the [`Grid::spec_col_after_flood`]
    /// shape — water over its whole stack up to the new plane, terrain
    /// preserved, civilization destroyed; and columns left dry are
    /// untouched.
    pub fn run(grid: &mut Grid)
        requires
            old(grid).wf(),
        ensures
            final(grid).wf(),
            final(grid).dimensions == old(grid).dimensions,
            final(grid).held_tile == old(grid).held_tile,
            old(grid).sea_level + 2 > old(grid).spec_depth() ==> *final(grid) == *old(grid),
            old(grid).sea_level + 2 <= old(grid).spec_depth() ==> final(grid).sea_level == old(grid).sea_level + 1,
            old(grid).sea_level <= final(grid).sea_level,
            forall|x: int, y: int|
                old(grid).spec_in_bounds(x, y) && old(grid).spec_flooded(x, y) ==> final(grid).spec_flooded(x, y),
            forall|x: int, y: int|
                old(grid).spec_in_bounds(x, y) && final(grid).spec_civilized(x, y) ==> old(grid).spec_civilized(x, y),
            forall|x: int, y: int|
                old(grid).spec_in_bounds(x, y) ==> old(grid).spec_height_at(x, y) <= final(grid).spec_height_at(x, y) <= old(grid).spec_depth(),
            forall|x: int, y: int|
                old(grid).spec_in_bounds(x, y) && !old(grid).spec_flooded(x, y) && final(grid).spec_flooded(x, y) ==> {
                    &&& final(grid).spec_height_at(x, y) >= old(grid).sea_level + 2
                    &&& final(grid).spec_tile(x, y, old(grid).sea_level + 1) == Some(
                        TileType::Water,
                    )
                    &&& !final(grid).spec_civilized(x, y)
                },
            forall|x: int, y: int|
                old(grid).spec_in_bounds(x, y) && !final(grid).spec_flooded(x, y) ==> final(grid).spec_col(x, y) == old(grid).spec_col(x, y),
            old(grid).sea_level + 2 <= old(grid).spec_depth() ==> forall|x: int|
                old(grid).spec_in_bounds(x, 0) && !spec_blocked(*old(grid), x, 0) ==> final(grid).spec_flooded(x, 0),
            forall|x: int, y: int|
                old(grid).spec_in_bounds(x, y) && !old(grid).spec_flooded(x, y) && final(grid).spec_flooded(x, y) ==> spec_flood_reached(*old(grid), x, y) && !spec_blocked(
                    *old(grid),
                    x,
                    y,
                ),
            forall|x: int, y: int|
                old(grid).spec_in_bounds(x, y) && !old(grid).spec_flooded(x, y) && final(grid).spec_flooded(x, y) ==> Grid::spec_col_after_flood(
                    old(grid).spec_col(x, y),
                    final(grid).spec_col(x, y),
                    old(grid).sea_level + 1,
                ),
            forall|x: int, y: int, z: int|
                old(grid).spec_tile(x, y, z) == Some(TileType::Terrain) ==> final(grid).spec_tile(
                    x,
                    y,
                    z,
                ) == Some(TileType::Terrain),
    {
        let (w, h, d) = grid.dimensions();
        if grid.sea_level + 2 > d {
            return ;
        }
        let plane = grid.sea_level + 1;

        // Empty mark buffer, one flag per column.
        let mut marks: Vec<Vec<bool>> = Vec::new();
        let mut yy: usize = 0;
        while yy < h
            invariant
                yy <= h,
                marks@.len() == yy,
                forall|y: int| 0 <= y < yy ==> (#[trigger] marks@[y])@.len() == w,
                forall|y: int, x: int|
                    0 <= y < yy && 0 <= x < w ==> !(#[trigger] marks@[y]@[x]),
            decreases h - yy,
        {
            let mut row: Vec<bool> = Vec::new();
            let mut xx: usize = 0;
            while xx < w
                invariant
                    xx <= w,
                    row@.len() == xx,
                    forall|x: int| 0 <= x < xx ==> !(#[trigger] row@[x]),
                decreases w - xx,
            {
                row.push(false);
                xx = xx + 1;
            }
            marks.push(row);
            yy = yy + 1;
        }

        // Seed: the first row floods wherever terrain does not block the
        // plane.
        if h > 0 {
            let mut x: usize = 0;
            while x < w
                invariant
                    grid.wf(),
                    grid.dimensions == (w, h, d),
                    0 < h,
                    plane == grid.sea_level + 1,
                    x <= w,
                    marks_shape(marks@, w as int, h as int),
                    marks_sound(marks@, *grid),
                    marks_reached(marks@, *grid),
                    forall|xx: int|
                        0 <= xx < x && !spec_blocked(*grid, xx, 0) ==> #[trigger] marked(
                            marks@,
                            xx,
                            0,
                        ),
                decreases w - x,
            {
                let blocked = match grid.tile(x, 0, plane) {
                    Some(TileType::Terrain) => true,
                    _ => false,
                };
                if !blocked {
                    let ghost m0 = marks@;
                    let row = row_mut(&mut marks, 0);
                    let slot = &mut row[x];
                    *slot = true;
                    proof {
                        assert forall|xx: int, yy: int|
                            grid.spec_in_bounds(xx, yy) && #[trigger] marked(marks@, xx, yy)
                                implies !spec_blocked(*grid, xx, yy) by {
                            if !(xx == x as int && yy == 0) {
                                assert(marked(marks@, xx, yy) == marked(m0, xx, yy));
                            }
                        }
                        assert forall|xx: int, yy: int|
                            grid.spec_in_bounds(xx, yy) && #[trigger] marked(marks@, xx, yy)
                                implies spec_flood_reached(*grid, xx, yy) by {
                            if xx == x as int && yy == 0 {
                                lemma_seed_reached(*grid, x as int);
                            } else {
                                assert(marked(marks@, xx, yy) == marked(m0, xx, yy));
                            }
                        }
                        assert forall|xx: int|
                            0 <= xx < x + 1 && !spec_blocked(*grid, xx, 0) implies marked(
                            marks@,
                            xx,
                            0,
                        ) by {
                            if xx != x as int {
                                assert(marked(marks@, xx, 0) == marked(m0, xx, 0));
                            }
                        }
                    }
                }
                x = x + 1;
            }
        }

        // Four sweep passes propagate the marks 4-connectedly.
        let mut y: usize = 1;
        while y < h
            invariant
                grid.wf(),
                grid.dimensions == (w, h, d),
                plane == grid.sea_level + 1,
                1 <= y <= h || h == 0,
                marks_shape(marks@, w as int, h as int),
                marks_sound(marks@, *grid),
                marks_reached(marks@, *grid),
                forall|xx: int|
                    grid.spec_in_bounds(xx, 0) && !spec_blocked(*grid, xx, 0) ==> #[trigger] marked(
                        marks@,
                        xx,
                        0,
                    ),
            decreases h - y,
        {
            let mut x: usize = 0;
            while x < w
                invariant
                    grid.wf(),
                    grid.dimensions == (w, h, d),
                    plane == grid.sea_level + 1,
                    y < h,
                    x <= w,
                    marks_shape(marks@, w as int, h as int),
                    marks_sound(marks@, *grid),
                    marks_reached(marks@, *grid),
                    forall|xx: int|
                        grid.spec_in_bounds(xx, 0) && !spec_blocked(*grid, xx, 0) ==> #[trigger] marked(
                            marks@,
                            xx,
                            0,
                        ),
                decreases w - x,
            {
                flood_check_part(grid, x, y, &mut marks);
                x = x + 1;
            }
            let mut x: usize = w;
            while x > 0
                invariant
                    grid.wf(),
                    grid.dimensions == (w, h, d),
                    plane == grid.sea_level + 1,
                    y < h,
                    x <= w,
                    marks_shape(marks@, w as int, h as int),
                    marks_sound(marks@, *grid),
                    marks_reached(marks@, *grid),
                    forall|xx: int|
                        grid.spec_in_bounds(xx, 0) && !spec_blocked(*grid, xx, 0) ==> #[trigger] marked(
                            marks@,
                            xx,
                            0,
                        ),
                decreases x,
            {
                x = x - 1;
                flood_check_part(grid, x, y, &mut marks);
            }
            y = y + 1;
        }
        let mut y: usize = h;
        while y > 1
            invariant
                grid.wf(),
                grid.dimensions == (w, h, d),
                plane == grid.sea_level + 1,
                y <= h,
                marks_shape(marks@, w as int, h as int),
                marks_sound(marks@, *grid),
                marks_reached(marks@, *grid),
                forall|xx: int|
                    grid.spec_in_bounds(xx, 0) && !spec_blocked(*grid, xx, 0) ==> #[trigger] marked(
                        marks@,
                        xx,
                        0,
                    ),
            decreases y,
        {
            y = y - 1;
            let mut x: usize = 0;
            while x < w
                invariant
                    grid.wf(),
                    grid.dimensions == (w, h, d),
                    plane == grid.sea_level + 1,
                    y < h,
                    x <= w,
                    marks_shape(marks@, w as int, h as int),
                    marks_sound(marks@, *grid),
                    marks_reached(marks@, *grid),
                    forall|xx: int|
                        grid.spec_in_bounds(xx, 0) && !spec_blocked(*grid, xx, 0) ==> #[trigger] marked(
                            marks@,
                            xx,
                            0,
                        ),
                decreases w - x,
            {
                flood_check_part(grid, x, y, &mut marks);
                x = x + 1;
            }
            let mut x: usize = w;
            while x > 0
                invariant
                    grid.wf(),
                    grid.dimensions == (w, h, d),
                    plane == grid.sea_level + 1,
                    y < h,
                    x <= w,
                    marks_shape(marks@, w as int, h as int),
                    marks_sound(marks@, *grid),
                    marks_reached(marks@, *grid),
                    forall|xx: int|
                        grid.spec_in_bounds(xx, 0) && !spec_blocked(*grid, xx, 0) ==> #[trigger] marked(
                            marks@,
                            xx,
                            0,
                        ),
                decreases x,
            {
                x = x - 1;
                flood_check_part(grid, x, y, &mut marks);
            }
        }

        // Apply the marks: convert every marked column.
        let ghost g0 = *grid;
        let mut y: usize = 0;
        while y < h
            invariant
                grid.wf(),
                g0.wf(),
                grid.dimensions == (w, h, d),
                g0.dimensions == (w, h, d),
                grid.sea_level == g0.sea_level,
                grid.held_tile == g0.held_tile,
                plane == g0.sea_level + 1,
                plane + 1 <= d,
                y <= h,
                marks_shape(marks@, w as int, h as int),
                marks_sound(marks@, g0),
                marks_reached(marks@, g0),
                forall|xx: int|
                    g0.spec_in_bounds(xx, 0) && !spec_blocked(g0, xx, 0) ==> #[trigger] marked(
                        marks@,
                        xx,
                        0,
                    ),
                forall|xx: int, yy: int|
                    g0.spec_in_bounds(xx, yy) && yy >= y ==> (#[trigger] grid.spec_col(xx, yy))
                        == g0.spec_col(xx, yy),
                forall|xx: int, yy: int|
                    g0.spec_in_bounds(xx, yy) && yy < y ==> (marked(marks@, xx, yy)
                        ==> Grid::spec_col_after_flood(
                        g0.spec_col(xx, yy),
                        #[trigger] grid.spec_col(xx, yy),
                        plane as int,
                    )) && (!marked(marks@, xx, yy) ==> grid.spec_col(xx, yy) == g0.spec_col(
                        xx,
                        yy,
                    )),
            decreases h - y,
        {
            let mut x: usize = 0;
            while x < w
                invariant
                    grid.wf(),
                    g0.wf(),
                    grid.dimensions == (w, h, d),
                    g0.dimensions == (w, h, d),
                    grid.sea_level == g0.sea_level,
                    grid.held_tile == g0.held_tile,
                    plane == g0.sea_level + 1,
                    plane + 1 <= d,
                    y < h,
                    x <= w,
                    marks_shape(marks@, w as int, h as int),
                    marks_sound(marks@, g0),
                    marks_reached(marks@, g0),
                    forall|xx: int|
                        g0.spec_in_bounds(xx, 0) && !spec_blocked(g0, xx, 0) ==> #[trigger] marked(
                            marks@,
                            xx,
                            0,
                        ),
                    forall|xx: int, yy: int|
                        g0.spec_in_bounds(xx, yy) && (yy > y || (yy == y && xx >= x)) ==> (
                        #[trigger] grid.spec_col(xx, yy)) == g0.spec_col(xx, yy),
                    forall|xx: int, yy: int|
                        g0.spec_in_bounds(xx, yy) && (yy < y || (yy == y && xx < x)) ==> (marked(
                            marks@,
                            xx,
                            yy,
                        ) ==> Grid::spec_col_after_flood(
                            g0.spec_col(xx, yy),
                            #[trigger] grid.spec_col(xx, yy),
                            plane as int,
                        )) && (!marked(marks@, xx, yy) ==> grid.spec_col(xx, yy) == g0.spec_col(
                            xx,
                            yy,
                        )),
                decreases w - x,
            {
                let is_marked = marks[y][x];
                if is_marked {
                    grid.flood_column(x, y, plane);
                }
                x = x + 1;
            }
            y = y + 1;
        }

        let ghost g1 = *grid;
        grid.sea_level = plane;
        proof {
            crate::grid::lemma_same_map(g1, *grid);
            assert(g0 == *old(grid));
            // Seed-row completeness: every unblocked first-row column was
            // marked, so its column took the flooded shape.
            assert forall|xx: int|
                old(grid).spec_in_bounds(xx, 0) && !spec_blocked(*old(grid), xx, 0)
                    implies grid.spec_flooded(xx, 0) by {
                assert(marked(marks@, xx, 0));
                assert(Grid::spec_col_after_flood(
                    g0.spec_col(xx, 0),
                    g1.spec_col(xx, 0),
                    plane as int,
                ));
                assert(grid.spec_col(xx, 0) == g1.spec_col(xx, 0));
            }
            // Soundness and per-column shape: a column floods only when it
            // was marked, and every mark is sound and reached.
            assert forall|xx: int, yy: int|
                old(grid).spec_in_bounds(xx, yy) && !old(grid).spec_flooded(xx, yy)
                    && grid.spec_flooded(xx, yy) implies spec_flood_reached(*old(grid), xx, yy)
                && !spec_blocked(*old(grid), xx, yy) && Grid::spec_col_after_flood(
                old(grid).spec_col(xx, yy),
                grid.spec_col(xx, yy),
                plane as int,
            ) by {
                assert(grid.spec_col(xx, yy) == g1.spec_col(xx, yy));
                if !marked(marks@, xx, yy) {
                    assert(g1.spec_col(xx, yy) == g0.spec_col(xx, yy));
                }
                assert(marked(marks@, xx, yy));
            }
        }
    }
}

} // verus!
