//! Flattening the grid into `(Position, Tile)` records.
//!
//! The rendering and persistence consumers see the world as a flat set of
//! tile records: one [`TileRecord`] per stored voxel, carrying the voxel's
//! position (with its derived ordering key) and its tile kind.  The record
//! list is recomputed on demand from the grid, so it can never go stale.

use vstd::prelude::*;

use crate::grid::{Grid, TileStack};
use crate::tile::{ordering_key, TilePosition, TileRecord, TileType};

verus! {

/// The record for the voxel at `(x, y, z)` holding `tile`, in a grid of
/// dimensions `dims`.
pub open spec fn spec_record(
    x: usize,
    y: usize,
    z: usize,
    tile: TileType,
    dims: (usize, usize, usize),
) -> TileRecord {
    TileRecord {
        pos: TilePosition {
            x,
            y,
            z,
            ordering: ordering_key(
                x as int,
                y as int,
                z as int,
                dims.1 as int,
                dims.2 as int,
            ) as i32,
        },
        tile,
    }
}

/// The records of one column stack, bottom voxel first.
pub open spec fn spec_stack_records(
    tiles: Seq<TileType>,
    x: usize,
    y: usize,
    dims: (usize, usize, usize),
) -> Seq<TileRecord>
    decreases tiles.len(),
{
    if tiles.len() == 0 {
        Seq::empty()
    } else {
        spec_stack_records(tiles.drop_last(), x, y, dims).push(
            spec_record(x, y, (tiles.len() - 1) as usize, tiles.last(), dims),
        )
    }
}

/// The records of one row of columns, leftmost column first.
pub open spec fn spec_row_records(
    row: Seq<TileStack>,
    y: usize,
    dims: (usize, usize, usize),
) -> Seq<TileRecord>
    decreases row.len(),
{
    if row.len() == 0 {
        Seq::empty()
    } else {
        spec_row_records(row.drop_last(), y, dims) + spec_stack_records(
            row.last().tiles@,
            (row.len() - 1) as usize,
            y,
            dims,
        )
    }
}

/// The records of the whole map, first row first.
pub open spec fn spec_grid_records(
    m: Seq<Vec<TileStack>>,
    dims: (usize, usize, usize),
) -> Seq<TileRecord>
    decreases m.len(),
{
    if m.len() == 0 {
        Seq::empty()
    } else {
        spec_grid_records(m.drop_last(), dims) + spec_row_records(
            m.last()@,
            (m.len() - 1) as usize,
            dims,
        )
    }
}

/// One record per stored voxel of the grid, with the position's ordering
/// key freshly derived from the voxel coordinates and the grid dimensions.
pub fn tile_records(grid: &Grid) -> (records: Vec<TileRecord>)
    requires
        grid.wf(),
    ensures
        records@ == spec_grid_records(grid.map@, grid.dimensions),
{
    let dims = grid.dimensions();
    let mut records: Vec<TileRecord> = Vec::new();
    let mut y: usize = 0;
    while y < grid.map.len()
        invariant
            grid.wf(),
            dims == grid.dimensions,
            y <= grid.map.len(),
            records@ == spec_grid_records(grid.map@.take(y as int), dims),
        decreases grid.map.len() - y,
    {
        let row = &grid.map[y];
        proof {
            assert forall|i: int|
                0 <= i < row@.len() implies (#[trigger] row@[i]).tiles.len()
                <= grid.dimensions.2 by {
                assert(grid.spec_in_bounds(i, y as int));
                assert(grid.spec_col(i, y as int) == row@[i]);
            }
        }
        let mut x: usize = 0;
        while x < row.len()
            invariant
                grid.wf(),
                dims == grid.dimensions,
                y < grid.map.len(),
                row == &grid.map@[y as int],
                row@.len() == grid.dimensions.0,
                forall|i: int|
                    0 <= i < row@.len() ==> (#[trigger] row@[i]).tiles.len() <= grid.dimensions.2,
                x <= row.len(),
                records@ == spec_grid_records(grid.map@.take(y as int), dims) + spec_row_records(
                    row@.take(x as int),
                    y,
                    dims,
                ),
            decreases row.len() - x,
        {
            let stack = &row[x];
            let mut z: usize = 0;
            while z < stack.tiles.len()
                invariant
                    dims.0 <= crate::tile::MAX_DIM,
                    dims.1 <= crate::tile::MAX_DIM,
                    dims.2 <= crate::tile::MAX_DIM,
                    x < dims.0,
                    y < dims.1,
                    stack.tiles.len() <= dims.2,
                    z <= stack.tiles.len(),
                    records@ == spec_grid_records(grid.map@.take(y as int), dims)
                        + spec_row_records(row@.take(x as int), y, dims) + spec_stack_records(
                        stack.tiles@.take(z as int),
                        x,
                        y,
                        dims,
                    ),
                decreases stack.tiles.len() - z,
            {
                let pos = TilePosition::new(x, y, z, dims);
                let tile = stack.tiles[z];
                records.push(TileRecord { pos, tile });
                proof {
                    assert(stack.tiles@.take(z + 1).drop_last() =~= stack.tiles@.take(z as int));
                    assert(stack.tiles@.take(z + 1).last() == stack.tiles@[z as int]);
                    assert(TileRecord { pos, tile } == spec_record(
                        x,
                        y,
                        z,
                        stack.tiles@[z as int],
                        dims,
                    ));
                }
                z = z + 1;
            }
            proof {
                assert(stack.tiles@.take(stack.tiles@.len() as int) =~= stack.tiles@);
                assert(row@.take(x + 1).drop_last() =~= row@.take(x as int));
                assert(row@.take(x + 1).last() == row@[x as int]);
                assert(row@[x as int] == *stack);
            }
            x = x + 1;
        }
        proof {
            assert(row@.take(row@.len() as int) =~= row@);
            assert(grid.map@.take(y + 1).drop_last() =~= grid.map@.take(y as int));
            assert(grid.map@.take(y + 1).last() == grid.map@[y as int]);
        }
        y = y + 1;
    }
    proof {
        assert(grid.map@.take(grid.map@.len() as int) =~= grid.map@);
    }
    records
}

} // verus!
