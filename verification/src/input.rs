//! The command vocabulary the input layer hands to the core.
//!
//! Device bindings (which key or mouse button maps to which command) live
//! with the windowing layer; the core only sees the resolved [`Command`]
//! together with its [`InputExtra`] payload.

use vstd::prelude::*;

verus! {

/// Extra payload carried by a resolved command.
#[derive(Clone, Copy, PartialEq, Eq, Structural, Hash, Debug)]
pub enum InputExtra {
    Nothing,
    RepeatedKey(bool),
    XY(i32, i32),
}

/// The discrete commands a player can issue.
#[derive(Clone, Copy, PartialEq, Eq, Structural, Hash, Debug)]
pub enum Command {
    Click,
    ContextMenu,
    Quit,
}

} // verus!
