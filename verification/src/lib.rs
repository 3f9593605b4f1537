//! Core simulation of a tile-based settlement on a voxel height-map grid:
//! the grid with its placement and pick-up rules, the procedural map
//! generator, the sea-level flood pass, and the per-turn economy.
//!
//! The library is organised around two session-scoped pieces of state, the
//! [`grid::Grid`] and the [`time::Time`] counters, mutated only by the
//! discrete passes in [`mapgen`], [`flood`] and [`time`].

pub mod assets;
pub mod context_menu;
pub mod flood;
pub mod grid;
pub mod input;
pub mod mapgen;
pub mod records;
pub mod tile;
pub mod tile_generator;
pub mod time;

pub use assets::{DrawableHandle, SoundHandle};
pub use context_menu::MenuOption;
pub use flood::Flood;
pub use grid::{Grid, PickRejectionReason, PlaceRejectionReason};
pub use input::{Command, InputExtra};
pub use mapgen::GenerateMap;
pub use records::tile_records;
pub use tile::{Structure, TilePosition, TileRecord, TileType};
pub use time::{AllThingsDoer, Census, Time};
