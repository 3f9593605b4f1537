//! Creating one tile entity: the placement mutation together with the
//! derived components a new tile carries (its position record, its drawable
//! and its tooltip text).

use vstd::prelude::*;

use crate::assets::DrawableHandle;
use crate::grid::Grid;
use crate::records::spec_record;
use crate::tile::{Structure, TilePosition, TileRecord, TileType};

verus! {

/// The drawable standing for each tile kind.
pub open spec fn spec_drawable_for(t: TileType) -> DrawableHandle {
    match t {
        TileType::Water => DrawableHandle::Tile,
        TileType::Terrain => DrawableHandle::TileSprite,
        TileType::Trees => DrawableHandle::Trees,
        TileType::Structure(Structure::Housing) => DrawableHandle::Housing,
        TileType::Structure(Structure::Sanctuary) => DrawableHandle::Sanctuary,
        TileType::Structure(Structure::Powerplant) => DrawableHandle::Powerplant,
        TileType::Structure(Structure::Renewables) => DrawableHandle::Renewables,
        TileType::Structure(Structure::Farm) => DrawableHandle::Farm,
        TileType::Structure(Structure::Fishery) => DrawableHandle::Fishery,
    }
}

/// Executable twin of [`spec_drawable_for`].
pub fn drawable_for(t: TileType) -> (r: DrawableHandle)
    ensures
        r == spec_drawable_for(t),
{
    match t {
        TileType::Water => DrawableHandle::Tile,
        TileType::Terrain => DrawableHandle::TileSprite,
        TileType::Trees => DrawableHandle::Trees,
        TileType::Structure(Structure::Housing) => DrawableHandle::Housing,
        TileType::Structure(Structure::Sanctuary) => DrawableHandle::Sanctuary,
        TileType::Structure(Structure::Powerplant) => DrawableHandle::Powerplant,
        TileType::Structure(Structure::Renewables) => DrawableHandle::Renewables,
        TileType::Structure(Structure::Farm) => DrawableHandle::Farm,
        TileType::Structure(Structure::Fishery) => DrawableHandle::Fishery,
    }
}

/// The tooltip text shown for each tile kind.
pub open spec fn spec_tooltip_for(t: TileType) -> Seq<char> {
    match t {
        TileType::Water => "Water"@,
        TileType::Terrain => "Terrain"@,
        TileType::Trees => "Trees"@,
        TileType::Structure(Structure::Housing) => "Housing"@,
        TileType::Structure(Structure::Sanctuary) => "Polar Bear Sanctuary"@,
        TileType::Structure(Structure::Powerplant) => "Powerplant"@,
        TileType::Structure(Structure::Renewables) => "Renewables"@,
        TileType::Structure(Structure::Farm) => "Farm"@,
        TileType::Structure(Structure::Fishery) => "Fishing Pier"@,
    }
}

/// Executable twin of [`spec_tooltip_for`].
pub fn tooltip_for(t: TileType) -> (r: &'static str)
    ensures
        r@ == spec_tooltip_for(t),
{
    match t {
        TileType::Water => "Water",
        TileType::Terrain => "Terrain",
        TileType::Trees => "Trees",
        TileType::Structure(Structure::Housing) => "Housing",
        TileType::Structure(Structure::Sanctuary) => "Polar Bear Sanctuary",
        TileType::Structure(Structure::Powerplant) => "Powerplant",
        TileType::Structure(Structure::Renewables) => "Renewables",
        TileType::Structure(Structure::Farm) => "Farm",
        TileType::Structure(Structure::Fishery) => "Fishing Pier",
    }
}

/// Places `tile_type` on top of column `(x, y)` and returns the record of
/// the newly created tile, positioned at the voxel it now occupies.
/// Returns `None`, leaving the grid untouched, when the column is out of
/// bounds or already at the depth ceiling.
pub fn create(grid: &mut Grid, tile_type: TileType, x: usize, y: usize) -> (r: Option<TileRecord>)
    requires
        old(grid).wf(),
    ensures
        final(grid).wf(),
        old(grid).same_outside_col(*final(grid), x as int, y as int),
        final(grid).held_tile == old(grid).held_tile,
        (r is Some) == (old(grid).spec_in_bounds(x as int, y as int) && old(grid).spec_height_at(
            x as int,
            y as int,
        ) < old(grid).spec_depth()),
        r is Some ==> {
            &&& r->Some_0 == spec_record(
                x,
                y,
                old(grid).spec_height_at(x as int, y as int) as usize,
                tile_type,
                old(grid).dimensions,
            )
            &&& final(grid).spec_col(x as int, y as int).tiles@ == old(grid).spec_col(
                x as int,
                y as int,
            ).tiles@.push(tile_type)
            &&& final(grid).spec_civilized(x as int, y as int) == tile_type.spec_is_structure()
            &&& final(grid).spec_flooded(x as int, y as int) == old(grid).spec_flooded(
                x as int,
                y as int,
            )
        },
        r is None ==> *final(grid) == *old(grid),
{
    let (w, h, d) = grid.dimensions();
    if x < w && y < h {
        let ht = grid.height(x, y);
        if ht < d {
            grid.place(tile_type, x, y);
            let pos = TilePosition::new(x, y, ht, (w, h, d));
            return Some(TileRecord { pos, tile: tile_type });
        }
    }
    None
}

} // verus!
