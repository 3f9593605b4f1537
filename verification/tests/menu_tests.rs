use ld42::context_menu::{is_shore, option_tile, MenuOption};
use ld42::grid::Grid;
use ld42::tile::{Structure, TileType};

#[test]
fn shore_requires_nearby_water() {
    let mut g = Grid::new(8, 8, 16);
    for y in 0..8 {
        for x in 0..8 {
            g.place(TileType::Terrain, x, y);
        }
    }
    assert!(!is_shore(&g, 4, 4));
    g.place(TileType::Water, 4, 5);
    assert!(is_shore(&g, 4, 4));
    assert!(is_shore(&g, 4, 5));
    assert!(is_shore(&g, 3, 5));
    assert!(!is_shore(&g, 2, 2));
    assert!(!is_shore(&g, 9, 9));
}

#[test]
fn shore_sees_water_anywhere_in_the_stack() {
    let mut g = Grid::new(8, 8, 16);
    g.place(TileType::Water, 1, 1);
    g.place(TileType::Terrain, 1, 1);
    assert!(is_shore(&g, 1, 1));
    assert!(is_shore(&g, 2, 1));
}

#[test]
fn menu_options_build_their_structures() {
    assert_eq!(
        option_tile(MenuOption::Housing, false, None),
        (Some(TileType::Structure(Structure::Housing)), false)
    );
    assert_eq!(
        option_tile(MenuOption::Powerplant, false, None),
        (Some(TileType::Structure(Structure::Powerplant)), false)
    );
    assert_eq!(
        option_tile(MenuOption::Farm, false, None),
        (Some(TileType::Structure(Structure::Farm)), false)
    );
    assert_eq!(
        option_tile(MenuOption::Sanctuary, false, None),
        (Some(TileType::Structure(Structure::Sanctuary)), false)
    );
    assert_eq!(
        option_tile(MenuOption::Renewables, false, None),
        (Some(TileType::Structure(Structure::Renewables)), false)
    );
}

#[test]
fn fishery_option_needs_a_shore() {
    assert_eq!(option_tile(MenuOption::Fishery, false, None), (None, false));
    assert_eq!(
        option_tile(MenuOption::Fishery, true, None),
        (Some(TileType::Structure(Structure::Fishery)), false)
    );
}

#[test]
fn terraform_option_moves_the_held_tile() {
    assert_eq!(option_tile(MenuOption::Terraform, true, None), (None, true));
    assert_eq!(
        option_tile(MenuOption::Terraform, false, Some(TileType::Trees)),
        (Some(TileType::Trees), true)
    );
}
