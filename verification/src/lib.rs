//! Scene flow and button feedback for a small 3D role-playing game.
//!
//! The game runs inside an entity-component engine. This library holds the
//! decisions that the game itself makes, stated and proved over plain values:
//! which material a button shows for the pointer's interaction with it, and
//! when the overworld hands control back to the main menu.
use vstd::prelude::*;

pub mod engine;
pub mod menu;
pub mod overworld;

verus! {

/// The scenes the game can be in; exactly one is active at a time.
#[derive(Debug, Clone, Copy, PartialEq, Eq, Hash, Structural)]
pub enum AppState {
    MainMenu,
    SettingsMenu,
    Overworld,
    Battle,
    Dialog,
}

} // verus!
