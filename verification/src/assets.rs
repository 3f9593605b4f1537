//! Handles naming the drawable meshes / sprites and the sound cues.
//!
//! The handles are the whole interface the core exposes to the asset layer:
//! which drawable stands for a tile kind is decided by
//! [`crate::tile_generator::drawable_for`], and the audio consumer triggers
//! a cue per handle.  Loading and playing the assets themselves is no
//! concern of the core.

use vstd::prelude::*;

verus! {

/// Names of the loadable drawables (meshes and sprite images).
#[derive(Clone, Copy, PartialEq, Eq, Structural, Hash, Debug)]
pub enum DrawableHandle {
    Circle,
    Box,
    Tile,
    TileSelector,
    TileSprite,
    Terraform,
    Trees,
    Housing,
    Sanctuary,
    Powerplant,
    Renewables,
    Farm,
    Fishery,
}

/// Names of the loadable sound cues.
#[derive(Clone, Copy, PartialEq, Eq, Structural, Hash, Debug)]
pub enum SoundHandle {
    Click,
    Construct,
    WaveCrash,
    Waves,
}

} // verus!
