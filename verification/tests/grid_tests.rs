use ld42::grid::{Grid, PickRejectionReason, PlaceRejectionReason};
use ld42::tile::{Structure, TilePosition, TileType};

fn housing() -> TileType {
    TileType::Structure(Structure::Housing)
}

#[test]
fn new_grid_dimensions_and_emptiness() {
    let g = Grid::new(8, 8, 16);
    assert_eq!(g.dimensions(), (8, 8, 16));
    assert_eq!(g.sea_level, 0);
    assert!(g.held_tile.is_none());
    for y in 0..8 {
        for x in 0..8 {
            assert_eq!(g.height(x, y), 0);
            assert_eq!(g.tile(x, y, 0), None);
        }
    }
}

#[test]
fn default_grid_is_eight_by_eight_by_sixteen() {
    let g = Grid::default();
    assert_eq!(g.dimensions(), (8, 8, 16));
}

#[test]
fn height_returns_sentinel_out_of_bounds() {
    let g = Grid::new(8, 8, 16);
    assert_eq!(g.height(8, 0), usize::MAX);
    assert_eq!(g.height(0, 99), usize::MAX);
}

#[test]
fn place_bumps_height_and_stores_tile() {
    let mut g = Grid::new(8, 8, 16);
    g.place(TileType::Terrain, 2, 3);
    assert_eq!(g.height(2, 3), 1);
    assert_eq!(g.tile(2, 3, 0), Some(TileType::Terrain));
    g.place(TileType::Trees, 2, 3);
    assert_eq!(g.height(2, 3), 2);
    assert_eq!(g.tile(2, 3, 1), Some(TileType::Trees));
}

#[test]
fn place_updates_civilized_flag_from_new_top() {
    let mut g = Grid::new(8, 8, 16);
    g.place(housing(), 1, 1);
    assert!(!g.is_civilizable(1, 1));
    assert!(g.is_civilizable(0, 1));
    assert!(g.is_civilizable(2, 1));
    assert!(g.is_civilizable(1, 0));
    assert!(g.is_civilizable(1, 2));
    assert!(!g.is_civilizable(3, 3));
    g.place(TileType::Terrain, 1, 1);
    assert!(!g.is_civilizable(0, 1));
}

#[test]
fn height_monotone_and_capped_at_depth() {
    let mut g = Grid::new(4, 4, 6);
    let mut last = 0;
    for _ in 0..10 {
        g.place(TileType::Terrain, 0, 0);
        let h = g.height(0, 0);
        assert!(h >= last);
        assert!(h <= 6);
        last = h;
    }
    assert_eq!(g.height(0, 0), 6);
}

#[test]
fn can_place_invalid_out_of_bounds() {
    let g = Grid::new(8, 8, 16);
    assert_eq!(
        g.can_place(99, 0, TileType::Water),
        Err(PlaceRejectionReason::Invalid)
    );
    assert_eq!(
        g.can_place(0, 8, TileType::Water),
        Err(PlaceRejectionReason::Invalid)
    );
}

#[test]
fn can_place_too_high_at_ceiling() {
    let mut g = Grid::new(8, 8, 4);
    for _ in 0..4 {
        g.place(TileType::Terrain, 5, 5);
    }
    assert_eq!(
        g.can_place(5, 5, TileType::Water),
        Err(PlaceRejectionReason::TooHigh)
    );
}

#[test]
fn can_place_flooded_allows_only_water() {
    let mut g = Grid::new(8, 8, 16);
    g.map[2][4].flooded = true;
    assert_eq!(g.can_place(4, 2, TileType::Water), Ok(()));
    assert_eq!(
        g.can_place(4, 2, housing()),
        Err(PlaceRejectionReason::Flooded)
    );
}

#[test]
fn can_place_occupied_on_civilized_column() {
    let mut g = Grid::new(8, 8, 16);
    g.place(housing(), 3, 3);
    assert_eq!(
        g.can_place(3, 3, housing()),
        Err(PlaceRejectionReason::Occupied)
    );
}

#[test]
fn can_place_too_far_without_civilized_neighbor() {
    let g = Grid::new(8, 8, 16);
    assert_eq!(
        g.can_place(4, 4, housing()),
        Err(PlaceRejectionReason::TooFar)
    );
}

#[test]
fn can_place_ok_next_to_civilization() {
    let mut g = Grid::new(8, 8, 16);
    g.place(housing(), 3, 3);
    assert_eq!(g.can_place(3, 4, housing()), Ok(()));
    assert_eq!(g.can_place(3, 2, housing()), Ok(()));
    assert_eq!(g.can_place(2, 3, housing()), Ok(()));
    assert_eq!(g.can_place(4, 3, housing()), Ok(()));
}

#[test]
fn adjacency_scenario_one_seeded_fishery() {
    // An 8x8x16 grid seeded with a single fishery at (fx, fy, 4): placement
    // is Ok next to it and TooFar everywhere else that is not the fishery's
    // own column.
    let (fx, fy) = (3usize, 2usize);
    let mut g = Grid::new(8, 8, 16);
    for _ in 0..4 {
        g.place(TileType::Terrain, fx, fy);
    }
    g.place(TileType::Structure(Structure::Fishery), fx, fy);
    assert_eq!(g.height(fx, fy), 5);
    assert_eq!(g.tile(fx, fy, 4), Some(TileType::Structure(Structure::Fishery)));

    assert_eq!(g.can_place(fx, fy + 1, housing()), Ok(()));
    assert_eq!(
        g.can_place(fx, fy + 5, housing()),
        Err(PlaceRejectionReason::TooFar)
    );
    for y in 0..8usize {
        for x in 0..8usize {
            let adjacent = (x == fx && (y + 1 == fy || y == fy + 1))
                || (y == fy && (x + 1 == fx || x == fx + 1));
            let r = g.can_place(x, y, housing());
            if x == fx && y == fy {
                assert_eq!(r, Err(PlaceRejectionReason::Occupied));
            } else if adjacent {
                assert_eq!(r, Ok(()));
            } else {
                assert_eq!(r, Err(PlaceRejectionReason::TooFar));
            }
        }
    }
}

#[test]
fn can_pick_occupied_while_holding() {
    let mut g = Grid::new(8, 8, 16);
    g.held_tile = Some(TileType::Trees);
    assert_eq!(g.can_pick(0, 0), Err(PickRejectionReason::Occupied));
}

#[test]
fn can_pick_invalid_out_of_bounds() {
    let g = Grid::new(8, 8, 16);
    assert_eq!(g.can_pick(8, 0), Err(PickRejectionReason::Invalid));
}

#[test]
fn can_pick_flooded() {
    let mut g = Grid::new(8, 8, 16);
    g.map[1][1].flooded = true;
    assert_eq!(g.can_pick(1, 1), Err(PickRejectionReason::Flooded));
}

#[test]
fn can_pick_too_far_without_civilized_neighbor() {
    let mut g = Grid::new(8, 8, 16);
    g.place(TileType::Terrain, 4, 4);
    assert_eq!(g.can_pick(4, 4), Err(PickRejectionReason::TooFar));
}

#[test]
fn can_pick_too_deep_on_empty_column() {
    let mut g = Grid::new(8, 8, 16);
    g.place(housing(), 3, 3);
    assert_eq!(g.can_pick(3, 4), Err(PickRejectionReason::TooDeep));
}

#[test]
fn can_pick_returns_top_tile() {
    let mut g = Grid::new(8, 8, 16);
    g.place(housing(), 3, 3);
    g.place(TileType::Terrain, 3, 4);
    g.place(TileType::Trees, 3, 4);
    assert_eq!(g.can_pick(3, 4), Ok(TileType::Trees));
}

#[test]
fn single_held_tile_protocol() {
    // Two consecutive successful pick-ups are impossible without an
    // intervening placement: the second is refused as Occupied.
    let mut g = Grid::new(8, 8, 16);
    g.place(housing(), 3, 3);
    g.place(TileType::Terrain, 3, 4);
    g.place(TileType::Trees, 3, 4);
    g.place(TileType::Terrain, 4, 3);

    assert_eq!(g.pick_up(3, 4), Ok(TileType::Trees));
    assert_eq!(g.held_tile, Some(TileType::Trees));
    assert_eq!(g.height(3, 4), 1);
    assert_eq!(g.pick_up(4, 3), Err(PickRejectionReason::Occupied));

    // Placing the held tile frees the buffer, and picking works again.
    assert_eq!(g.place_held(4, 3), Ok(()));
    assert_eq!(g.held_tile, None);
    assert_eq!(g.tile(4, 3, 1), Some(TileType::Trees));
    assert_eq!(g.pick_up(4, 3), Ok(TileType::Trees));
}

#[test]
fn place_held_with_empty_buffer_is_invalid() {
    let mut g = Grid::new(8, 8, 16);
    assert_eq!(g.place_held(0, 0), Err(PlaceRejectionReason::Invalid));
}

#[test]
fn remove_takes_exact_depth_and_shifts() {
    let mut g = Grid::new(8, 8, 16);
    g.place(TileType::Terrain, 2, 2);
    g.place(TileType::Water, 2, 2);
    g.place(TileType::Trees, 2, 2);
    assert_eq!(g.remove(2, 2, 1), Some(TileType::Water));
    assert_eq!(g.height(2, 2), 2);
    assert_eq!(g.tile(2, 2, 0), Some(TileType::Terrain));
    assert_eq!(g.tile(2, 2, 1), Some(TileType::Trees));
    assert_eq!(g.remove(2, 2, 5), None);
    assert_eq!(g.remove(9, 2, 0), None);
}

#[test]
fn lower_heightmap_drops_top() {
    let mut g = Grid::new(8, 8, 16);
    g.place(TileType::Terrain, 1, 1);
    g.place(TileType::Trees, 1, 1);
    g.lower_heightmap(1, 1);
    assert_eq!(g.height(1, 1), 1);
    assert_eq!(g.tile(1, 1, 0), Some(TileType::Terrain));
    g.lower_heightmap(1, 1);
    g.lower_heightmap(1, 1);
    assert_eq!(g.height(1, 1), 0);
}

#[test]
fn replace_tile_in_place_updates_civilization() {
    let mut g = Grid::new(8, 8, 16);
    g.place(TileType::Terrain, 2, 2);
    g.place(TileType::Trees, 2, 2);
    assert!(!g.is_civilizable(2, 3));
    g.replace_tile(2, 2, 1, housing());
    assert_eq!(g.tile(2, 2, 1), Some(housing()));
    assert!(g.is_civilizable(2, 3));
    g.replace_tile(2, 2, 0, TileType::Water);
    assert_eq!(g.tile(2, 2, 0), Some(TileType::Water));
    assert!(g.is_civilizable(2, 3));
}

#[test]
fn uncivilize_clears_flag() {
    let mut g = Grid::new(8, 8, 16);
    g.place(housing(), 2, 2);
    assert!(g.is_civilizable(2, 3));
    g.uncivilize(2, 2);
    assert!(!g.is_civilizable(2, 3));
}

#[test]
fn is_top_tile_matches_column_top() {
    let mut g = Grid::new(8, 8, 16);
    g.place(TileType::Terrain, 1, 2);
    g.place(TileType::Trees, 1, 2);
    let dims = g.dimensions();
    let top = TilePosition::new(1, 2, 1, dims);
    let below = TilePosition::new(1, 2, 0, dims);
    assert!(g.is_top_tile(&top));
    assert!(!g.is_top_tile(&below));
}

#[test]
fn rejection_texts_match_tooltips() {
    assert_eq!(
        PlaceRejectionReason::Invalid.text(),
        "something is horribly wrong"
    );
    assert_eq!(PlaceRejectionReason::Flooded.text(), "flooded");
    assert_eq!(PlaceRejectionReason::TooFar.text(), "too far from city");
    assert_eq!(PlaceRejectionReason::TooHigh.text(), "practically in space");
    assert_eq!(PlaceRejectionReason::NotShore.text(), "not a shore");
    assert_eq!(PlaceRejectionReason::Occupied.text(), "occupied");
    assert_eq!(
        PickRejectionReason::Invalid.text(),
        "something is horribly wrong"
    );
    assert_eq!(PickRejectionReason::Flooded.text(), "flooded");
    assert_eq!(PickRejectionReason::TooFar.text(), "too far from city");
    assert_eq!(PickRejectionReason::TooDeep.text(), "can't dig deeper");
    assert_eq!(PickRejectionReason::Occupied.text(), "can't pick up more");
}

#[test]
fn rejection_precedence_ceiling_beats_flooding() {
    // The decision order is fixed: a column at the ceiling answers TooHigh
    // even when it is also flooded, and an out-of-bounds column answers
    // Invalid before anything else.
    let mut g = Grid::new(8, 8, 2);
    g.place(TileType::Terrain, 1, 1);
    g.place(TileType::Terrain, 1, 1);
    g.map[1][1].flooded = true;
    assert_eq!(
        g.can_place(1, 1, TileType::Water),
        Err(PlaceRejectionReason::TooHigh)
    );
    g.held_tile = Some(TileType::Trees);
    assert_eq!(g.can_pick(9, 9), Err(PickRejectionReason::Occupied));
}
