use ld42::grid::Grid;
use ld42::mapgen::GenerateMap;
use ld42::tile::{Structure, TileType};
use ld42::time::Census;

fn plan(bounds: Vec<Vec<usize>>, gates: Vec<Vec<bool>>) -> GenerateMap {
    GenerateMap { terrain_bounds: bounds, tree_gates: gates }
}

fn gradient_plan(w: usize, h: usize, gates_on: bool) -> GenerateMap {
    // Terrain trends higher toward the far edge, producing a shoreline.
    let bounds: Vec<Vec<usize>> = (0..h).map(|y| vec![y + 1; w]).collect();
    let gates: Vec<Vec<bool>> = (0..h).map(|_| vec![gates_on; w]).collect();
    plan(bounds, gates)
}

#[test]
fn generation_sets_starting_sea_level() {
    let mut g = Grid::new(8, 8, 16);
    gradient_plan(8, 8, true).run(&mut g);
    assert_eq!(g.sea_level, 3);
}

#[test]
fn low_columns_get_a_water_fringe() {
    let mut g = Grid::new(8, 8, 16);
    gradient_plan(8, 8, false).run(&mut g);
    // Row 0 has terrain bound 1: one terrain tile, water up to the
    // shoreline threshold.
    for x in 0..8 {
        assert_eq!(g.height(x, 0), 4);
        assert_eq!(g.tile(x, 0, 0), Some(TileType::Terrain));
        for z in 1..4 {
            assert_eq!(g.tile(x, 0, z), Some(TileType::Water));
        }
    }
}

#[test]
fn terrain_fills_to_the_clamped_bound() {
    let mut g = Grid::new(8, 8, 16);
    // Bounds of 0 clamp to 1; bounds past the ceiling clamp to depth - 1.
    let bounds: Vec<Vec<usize>> = vec![vec![0; 8], vec![99; 8]]
        .into_iter()
        .chain((2..8).map(|y| vec![y; 8]))
        .collect();
    let gates = (0..8).map(|_| vec![false; 8]).collect();
    plan(bounds, gates).run(&mut g);
    assert_eq!(g.tile(0, 0, 0), Some(TileType::Terrain));
    assert_eq!(g.height(0, 0), 4);
    assert_eq!(g.height(0, 1), 15);
    for z in 0..15 {
        assert_eq!(g.tile(0, 1, z), Some(TileType::Terrain));
    }
}

#[test]
fn heights_stay_within_the_ceiling() {
    let mut g = Grid::new(8, 8, 16);
    gradient_plan(8, 8, true).run(&mut g);
    for y in 0..8 {
        for x in 0..8 {
            let h = g.height(x, y);
            assert!(h >= 1);
            assert!(h <= 16);
        }
    }
}

#[test]
fn trees_grow_only_on_gated_terrain_tops() {
    let mut g = Grid::new(8, 8, 16);
    // One gated column with bound 5 (within the tree band 4..8), the rest
    // ungated.
    let bounds: Vec<Vec<usize>> = (0..8).map(|_| vec![5; 8]).collect();
    let mut gates: Vec<Vec<bool>> = (0..8).map(|_| vec![false; 8]).collect();
    gates[3][3] = true;
    plan(bounds, gates).run(&mut g);
    // With bound 5 everywhere there is no terrain at level 3 topped at 4, so
    // no structures are seeded and the gated tree survives.
    assert_eq!(g.tile(3, 3, 5), Some(TileType::Trees));
    assert_eq!(g.height(3, 3), 6);
    assert_eq!(g.height(2, 3), 5);
    assert_eq!(g.tile(2, 3, 5), None);
}

#[test]
fn seeds_one_fishery_on_a_shoreline_tree() {
    let mut g = Grid::new(8, 8, 16);
    // Terrain bound 4 everywhere with all gates on: every column carries a
    // tree at the shoreline level, and the scan converts exactly one into a
    // fishery, then grows houses and a power plant next to it.
    let bounds: Vec<Vec<usize>> = (0..8).map(|_| vec![4; 8]).collect();
    let gates: Vec<Vec<bool>> = (0..8).map(|_| vec![true; 8]).collect();
    plan(bounds, gates).run(&mut g);
    let c = Census::of_grid(&g);
    assert_eq!(c.fishery, 1);
    assert_eq!(c.housing, 3);
    assert_eq!(c.powerplant, 1);
    assert_eq!(c.sanctuary, 0);
    assert_eq!(c.renewables, 0);
    assert_eq!(c.farm, 0);
    // The fishery scan walks rows outward, columns from the right: the first
    // hit is (7, 1), converted in place from a tree.
    assert_eq!(g.tile(7, 1, 4), Some(TileType::Structure(Structure::Fishery)));
    assert_eq!(g.height(7, 1), 5);
}

#[test]
fn seeds_structures_on_bare_terrain_without_trees() {
    let mut g = Grid::new(8, 8, 16);
    let bounds: Vec<Vec<usize>> = (0..8).map(|_| vec![4; 8]).collect();
    let gates: Vec<Vec<bool>> = (0..8).map(|_| vec![false; 8]).collect();
    plan(bounds, gates).run(&mut g);
    let c = Census::of_grid(&g);
    assert_eq!(c.fishery, 1);
    assert_eq!(c.housing, 3);
    assert_eq!(c.powerplant, 1);
    // Placed on top of the bare terrain: the column grew by one.
    assert_eq!(g.height(7, 1), 5);
    assert_eq!(g.tile(7, 1, 4), Some(TileType::Structure(Structure::Fishery)));
}

#[test]
fn watery_map_seeds_nothing() {
    let mut g = Grid::new(8, 8, 16);
    // All terrain stays below the shoreline: no valid site anywhere.
    let bounds: Vec<Vec<usize>> = (0..8).map(|_| vec![1; 8]).collect();
    let gates: Vec<Vec<bool>> = (0..8).map(|_| vec![true; 8]).collect();
    plan(bounds, gates).run(&mut g);
    let c = Census::of_grid(&g);
    assert_eq!(c.fishery, 0);
    assert_eq!(c.housing, 0);
    assert_eq!(c.powerplant, 0);
}

#[test]
fn generated_map_is_dry_and_uncivilized_except_seeds() {
    let mut g = Grid::new(8, 8, 16);
    gradient_plan(8, 8, true).run(&mut g);
    let mut civilized = 0;
    for y in 0..8 {
        for x in 0..8 {
            assert!(!g.map[y][x].flooded);
            if g.map[y][x].civilized {
                civilized += 1;
                let top = g.height(x, y) - 1;
                assert!(matches!(g.tile(x, y, top), Some(TileType::Structure(_))));
            }
        }
    }
    let c = Census::of_grid(&g);
    assert_eq!(civilized, c.fishery + c.housing + c.powerplant);
    assert!(c.fishery <= 1);
    assert!(c.housing <= 3);
    assert!(c.powerplant <= 1);
}
