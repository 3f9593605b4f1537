//! The build menu's decision core: which tile each menu option builds, and
//! the shoreline test that gates the fishery option.
//!
//! Hit-testing, drawing and the menu's screen layout live with the front
//! end; the rules decided here are pure functions of the grid and the
//! option picked.

use vstd::prelude::*;

use crate::grid::Grid;
use crate::tile::{Structure, TileType};

verus! {

/// The seven build-menu options, in the order the menu lays them out.
#[derive(Clone, Copy, PartialEq, Eq, Structural, Debug)]
pub enum MenuOption {
    Housing,
    Powerplant,
    Fishery,
    Farm,
    Sanctuary,
    Terraform,
    Renewables,
}

/// Some voxel of column `(x, y)` holds water.
pub open spec fn spec_water_in_col(g: Grid, x: int, y: int) -> bool {
    exists|z: int| 0 <= z < g.spec_height_at(x, y) && g.spec_col(x, y).tiles[z] == TileType::Water
}

/// The column or one of its 4-orthogonal neighbors holds water somewhere:
/// the shoreline condition a fishery must meet.
pub open spec fn spec_on_shore(g: Grid, x: int, y: int) -> bool {
    &&& g.spec_in_bounds(x, y)
    &&& {
        ||| spec_water_in_col(g, x, y)
        ||| x + 1 < g.spec_width() && spec_water_in_col(g, x + 1, y)
        ||| 0 < x && spec_water_in_col(g, x - 1, y)
        ||| y + 1 < g.spec_height_dim() && spec_water_in_col(g, x, y + 1)
        ||| 0 < y && spec_water_in_col(g, x, y - 1)
    }
}

/// Scans one column for water.
fn col_has_water(grid: &Grid, x: usize, y: usize) -> (r: bool)
    requires
        grid.wf(),
        grid.spec_in_bounds(x as int, y as int),
    ensures
        r == spec_water_in_col(*grid, x as int, y as int),
{
    let mut z: usize = 0;
    let mut found = false;
    let height = grid.height(x, y);
    while z < height
        invariant
            grid.wf(),
            grid.spec_in_bounds(x as int, y as int),
            height == grid.spec_height_at(x as int, y as int),
            z <= height,
            found == exists|zz: int|
                0 <= zz < z && grid.spec_col(x as int, y as int).tiles[zz] == TileType::Water,
        decreases height - z,
    {
        match grid.tile(x, y, z) {
            Some(TileType::Water) => {
                found = true;
            },
            _ => {},
        }
        z = z + 1;
    }
    found
}

/// The shoreline test the menu runs before offering a fishery: true iff the
/// target column or a 4-orthogonal neighbor holds water anywhere in its
/// stack.  False for an out-of-bounds column.
pub fn is_shore(grid: &Grid, x: usize, y: usize) -> (r: bool)
    requires
        grid.wf(),
    ensures
        r == spec_on_shore(*grid, x as int, y as int),
{
    let (w, h, _) = grid.dimensions();
    if !(x < w && y < h) {
        return false;
    }
    if col_has_water(grid, x, y) {
        return true;
    }
    if x + 1 < w && col_has_water(grid, x + 1, y) {
        return true;
    }
    if x > 0 && col_has_water(grid, x - 1, y) {
        return true;
    }
    if y + 1 < h && col_has_water(grid, x, y + 1) {
        return true;
    }
    if y > 0 && col_has_water(grid, x, y - 1) {
        return true;
    }
    false
}

/// The tile a menu option builds: each structure option its structure, the
/// fishery only on a shore, and the terraform option the held tile (so it
/// picks up when nothing is held).
pub open spec fn spec_option_tile(
    option: MenuOption,
    on_shore: bool,
    held: Option<TileType>,
) -> Option<TileType> {
    match option {
        MenuOption::Housing => Some(TileType::Structure(Structure::Housing)),
        MenuOption::Powerplant => Some(TileType::Structure(Structure::Powerplant)),
        MenuOption::Fishery => if on_shore {
            Some(TileType::Structure(Structure::Fishery))
        } else {
            None
        },
        MenuOption::Farm => Some(TileType::Structure(Structure::Farm)),
        MenuOption::Sanctuary => Some(TileType::Structure(Structure::Sanctuary)),
        MenuOption::Terraform => held,
        MenuOption::Renewables => Some(TileType::Structure(Structure::Renewables)),
    }
}

/// Resolves one picked menu option to the tile to build (if any) and
/// whether the action moves the held tile (the terraform option picks up or
/// places instead of building).
pub fn option_tile(option: MenuOption, on_shore: bool, held: Option<TileType>) -> (r: (
    Option<TileType>,
    bool,
))
    ensures
        r.0 == spec_option_tile(option, on_shore, held),
        r.1 == (option == MenuOption::Terraform),
{
    match option {
        MenuOption::Housing => (Some(TileType::Structure(Structure::Housing)), false),
        MenuOption::Powerplant => (Some(TileType::Structure(Structure::Powerplant)), false),
        MenuOption::Fishery => {
            if on_shore {
                (Some(TileType::Structure(Structure::Fishery)), false)
            } else {
                (None, false)
            }
        },
        MenuOption::Farm => (Some(TileType::Structure(Structure::Farm)), false),
        MenuOption::Sanctuary => (Some(TileType::Structure(Structure::Sanctuary)), false),
        MenuOption::Terraform => (held, true),
        MenuOption::Renewables => (Some(TileType::Structure(Structure::Renewables)), false),
    }
}

} // verus!
