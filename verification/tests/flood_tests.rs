use ld42::flood::{flood_check_part, Flood};
use ld42::grid::Grid;
use ld42::tile::{Structure, TileType};

fn terrain_column(g: &mut Grid, x: usize, y: usize, height: usize) {
    for _ in 0..height {
        g.place(TileType::Terrain, x, y);
    }
}

#[test]
fn flood_raises_sea_level_and_drowns_low_settlements() {
    // A map at sea_level = 3: after one flood pass the sea stands at 4, and
    // every previously civilized column of height <= 4 reached by the spread
    // is uncivilized with water on top.
    let mut g = Grid::new(8, 8, 16);
    for y in 0..8 {
        for x in 0..8 {
            terrain_column(&mut g, x, y, 1);
        }
    }
    // Two low settlements (structure on three terrain tiles, height 4).
    for &(x, y) in [(2usize, 2usize), (5, 6)].iter() {
        terrain_column(&mut g, x, y, 2);
        g.place(TileType::Structure(Structure::Housing), x, y);
        assert_eq!(g.height(x, y), 4);
        assert!(g.is_civilizable(x.wrapping_sub(1), y));
    }
    // One tall terrain column blocking the plane: it stays dry.
    terrain_column(&mut g, 7, 7, 6);
    g.sea_level = 3;

    Flood::run(&mut g);

    assert_eq!(g.sea_level, 4);
    for &(x, y) in [(2usize, 2usize), (5, 6)].iter() {
        assert!(g.map[y][x].flooded);
        assert!(!g.map[y][x].civilized);
        let top = g.height(x, y) - 1;
        assert_eq!(g.tile(x, y, top), Some(TileType::Water));
        assert_eq!(g.tile(x, y, 3), Some(TileType::Water));
    }
    assert!(!g.map[7][7].flooded);
    assert_eq!(g.height(7, 7), 7);
    for z in 0..7 {
        assert_eq!(g.tile(7, 7, z), Some(TileType::Terrain));
    }
}

#[test]
fn flooding_is_monotonic_across_passes() {
    let mut g = Grid::new(8, 8, 16);
    for y in 0..8 {
        for x in 0..8 {
            terrain_column(&mut g, x, y, 1);
        }
    }
    g.sea_level = 3;
    Flood::run(&mut g);
    let flooded_after_one: Vec<(usize, usize)> = (0..8)
        .flat_map(|y| (0..8).map(move |x| (x, y)))
        .filter(|&(x, y)| g.map[y][x].flooded)
        .collect();
    assert_eq!(g.sea_level, 4);
    Flood::run(&mut g);
    assert_eq!(g.sea_level, 5);
    for (x, y) in flooded_after_one {
        assert!(g.map[y][x].flooded);
    }
}

#[test]
fn flood_is_a_no_op_at_the_depth_ceiling() {
    let mut g = Grid::new(8, 8, 16);
    terrain_column(&mut g, 1, 1, 3);
    g.sea_level = 15;
    Flood::run(&mut g);
    assert_eq!(g.sea_level, 15);
    assert!(!g.map[1][1].flooded);
    assert_eq!(g.height(1, 1), 3);
}

#[test]
fn flood_preserves_terrain_voxels() {
    let mut g = Grid::new(8, 8, 16);
    for y in 0..8 {
        for x in 0..8 {
            terrain_column(&mut g, x, y, 2);
        }
    }
    g.sea_level = 3;
    Flood::run(&mut g);
    for y in 0..8 {
        for x in 0..8 {
            assert_eq!(g.tile(x, y, 0), Some(TileType::Terrain));
            assert_eq!(g.tile(x, y, 1), Some(TileType::Terrain));
        }
    }
}

#[test]
fn flood_check_part_marks_only_next_to_marked() {
    let mut g = Grid::new(4, 4, 16);
    for y in 0..4 {
        for x in 0..4 {
            terrain_column(&mut g, x, y, 1);
        }
    }
    g.sea_level = 3;
    let mut marks: Vec<Vec<bool>> = vec![vec![false; 4]; 4];
    // Nothing marked yet: no spread.
    flood_check_part(&g, 1, 1, &mut marks);
    assert!(!marks[1][1]);
    // A marked neighbor spreads the flood.
    marks[0][1] = true;
    flood_check_part(&g, 1, 1, &mut marks);
    assert!(marks[1][1]);
}

#[test]
fn flood_check_part_respects_terrain_border() {
    let mut g = Grid::new(4, 4, 16);
    for y in 0..4 {
        for x in 0..4 {
            terrain_column(&mut g, x, y, 1);
        }
    }
    // Terrain reaching past the plane blocks (2, 2).
    terrain_column(&mut g, 2, 2, 6);
    g.sea_level = 3;
    let mut marks: Vec<Vec<bool>> = vec![vec![false; 4]; 4];
    marks[1][2] = true;
    flood_check_part(&g, 2, 2, &mut marks);
    assert!(!marks[2][2]);
}

#[test]
fn every_unblocked_seed_row_column_floods() {
    let mut g = Grid::new(8, 8, 16);
    for y in 0..8 {
        for x in 0..8 {
            terrain_column(&mut g, x, y, 2);
        }
    }
    // One seed-row column is blocked by tall terrain and stays dry.
    terrain_column(&mut g, 3, 0, 4);
    g.sea_level = 3;
    Flood::run(&mut g);
    for x in 0..8 {
        if x == 3 {
            assert!(!g.map[0][x].flooded);
        } else {
            assert!(g.map[0][x].flooded);
        }
    }
}

#[test]
fn unreached_enclave_stays_dry() {
    // A low column walled in by terrain taller than the new plane is never
    // reached by the spread, even though it is not blocked itself.
    let mut g = Grid::new(3, 3, 16);
    for y in 0..3 {
        for x in 0..3 {
            if x == 1 && y == 1 {
                terrain_column(&mut g, x, y, 1);
            } else {
                terrain_column(&mut g, x, y, 6);
            }
        }
    }
    g.sea_level = 3;
    Flood::run(&mut g);
    assert_eq!(g.sea_level, 4);
    for y in 0..3 {
        for x in 0..3 {
            assert!(!g.map[y][x].flooded);
        }
    }
    assert_eq!(g.height(1, 1), 1);
}
