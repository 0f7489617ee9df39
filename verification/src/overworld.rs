//! Leaving the overworld.
use bevy_input::keyboard::KeyCode;
use bevy_input::Input;
use vstd::prelude::*;

use crate::engine::{just_pressed_keys, key_just_pressed};
use crate::AppState;

verus! {

/// The scene that the overworld asks for, given whether the escape key went
/// down in this frame: the main menu if it did, no change if it did not.
pub open spec fn escape_transition(escape_just_pressed: bool) -> Option<AppState> {
    if escape_just_pressed {
        Some(AppState::MainMenu)
    } else {
        None
    }
}

/// Decides the scene change from the state of the escape key alone.
pub fn transition_on_escape(escape_just_pressed: bool) -> (next: Option<AppState>)
    ensures
        next == escape_transition(escape_just_pressed),
{
    if escape_just_pressed {
        Some(AppState::MainMenu)
    } else {
        None
    }
}

/// Reads the keyboard of the current frame and decides whether the overworld
/// is left: `Some(AppState::MainMenu)` exactly when the escape key went down
/// in this frame, `None` otherwise. The caller queues the change with the
/// engine's scene state.
pub fn back_to_menu(input: &Input<KeyCode>) -> (next: Option<AppState>)
    ensures
        next == escape_transition(just_pressed_keys(*input).contains(KeyCode::Escape)),
{
    transition_on_escape(key_just_pressed(input, KeyCode::Escape))
}

} // verus!
