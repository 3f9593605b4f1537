use ld42::assets::{DrawableHandle, SoundHandle};
use ld42::grid::Grid;
use ld42::input::{Command, InputExtra};
use ld42::records::tile_records;
use ld42::tile::{Structure, TilePosition, TileType};
use ld42::tile_generator::{create, drawable_for, tooltip_for};

#[test]
fn ordering_key_formula() {
    // ordering = x - y*h^2 + z*d^3 with (w, h, d) = (8, 8, 16).
    let p = TilePosition::new(1, 2, 3, (8, 8, 16));
    assert_eq!(p.x(), 1);
    assert_eq!(p.y(), 2);
    assert_eq!(p.z(), 3);
    assert_eq!(p.ordering(), 1 - 2 * 64 + 3 * 4096);
}

#[test]
fn ordering_sorts_back_to_front() {
    let dims = (8, 8, 16);
    // Higher level sorts after anything at a lower level.
    let low = TilePosition::new(7, 0, 3, dims);
    let high = TilePosition::new(0, 7, 4, dims);
    assert!(low.ordering() < high.ordering());
    // At the same level, the farther row sorts first.
    let back = TilePosition::new(7, 5, 2, dims);
    let front = TilePosition::new(0, 4, 2, dims);
    assert!(back.ordering() < front.ordering());
    // At the same level and row, left sorts before right.
    let left = TilePosition::new(2, 4, 2, dims);
    let right = TilePosition::new(3, 4, 2, dims);
    assert!(left.ordering() < right.ordering());
}

#[test]
fn tile_records_list_every_voxel_in_draw_order() {
    let mut g = Grid::new(2, 2, 8);
    g.place(TileType::Terrain, 0, 0);
    g.place(TileType::Trees, 0, 0);
    g.place(TileType::Water, 1, 0);
    g.place(TileType::Terrain, 0, 1);
    let records = tile_records(&g);
    assert_eq!(records.len(), 4);
    assert_eq!(records[0].pos.x(), 0);
    assert_eq!(records[0].pos.y(), 0);
    assert_eq!(records[0].pos.z(), 0);
    assert_eq!(records[0].tile, TileType::Terrain);
    assert_eq!(records[1].pos.z(), 1);
    assert_eq!(records[1].tile, TileType::Trees);
    assert_eq!(records[2].pos.x(), 1);
    assert_eq!(records[2].tile, TileType::Water);
    assert_eq!(records[3].pos.y(), 1);
    assert_eq!(records[3].tile, TileType::Terrain);
    for r in &records {
        let expected = TilePosition::new(r.pos.x(), r.pos.y(), r.pos.z(), g.dimensions());
        assert_eq!(r.pos, expected);
    }
}

#[test]
fn create_places_and_returns_the_new_record() {
    let mut g = Grid::new(8, 8, 16);
    g.place(TileType::Terrain, 2, 2);
    let r = create(&mut g, TileType::Trees, 2, 2).unwrap();
    assert_eq!(r.tile, TileType::Trees);
    assert_eq!((r.pos.x(), r.pos.y(), r.pos.z()), (2, 2, 1));
    assert_eq!(g.height(2, 2), 2);
    assert!(g.is_top_tile(&r.pos));
}

#[test]
fn create_refuses_out_of_bounds_and_ceiling() {
    let mut g = Grid::new(4, 4, 2);
    assert!(create(&mut g, TileType::Water, 9, 0).is_none());
    g.place(TileType::Terrain, 1, 1);
    g.place(TileType::Terrain, 1, 1);
    assert!(create(&mut g, TileType::Water, 1, 1).is_none());
    assert_eq!(g.height(1, 1), 2);
}

#[test]
fn drawables_for_tiles() {
    assert_eq!(drawable_for(TileType::Water), DrawableHandle::Tile);
    assert_eq!(drawable_for(TileType::Terrain), DrawableHandle::TileSprite);
    assert_eq!(drawable_for(TileType::Trees), DrawableHandle::Trees);
    assert_eq!(
        drawable_for(TileType::Structure(Structure::Housing)),
        DrawableHandle::Housing
    );
    assert_eq!(
        drawable_for(TileType::Structure(Structure::Fishery)),
        DrawableHandle::Fishery
    );
}

#[test]
fn tooltips_for_tiles() {
    assert_eq!(tooltip_for(TileType::Water), "Water");
    assert_eq!(tooltip_for(TileType::Terrain), "Terrain");
    assert_eq!(tooltip_for(TileType::Trees), "Trees");
    assert_eq!(
        tooltip_for(TileType::Structure(Structure::Sanctuary)),
        "Polar Bear Sanctuary"
    );
    assert_eq!(
        tooltip_for(TileType::Structure(Structure::Fishery)),
        "Fishing Pier"
    );
}

#[test]
fn command_vocabulary_round_trips_through_equality() {
    assert_eq!(Command::Click, Command::Click);
    assert_ne!(Command::Click, Command::ContextMenu);
    assert_ne!(Command::Quit, Command::ContextMenu);
    assert_eq!(InputExtra::XY(3, 4), InputExtra::XY(3, 4));
    assert_ne!(InputExtra::XY(3, 4), InputExtra::XY(4, 3));
    assert_ne!(InputExtra::Nothing, InputExtra::RepeatedKey(false));
    assert_ne!(SoundHandle::Waves, SoundHandle::WaveCrash);
    assert_ne!(DrawableHandle::Tile, DrawableHandle::TileSelector);
}
