//! What the library takes from the game engine on trust.
//!
//! Nothing in this file is proved. Each item names the engine's type or
//! function that it stands for and says what is claimed of it.
use bevy_input::keyboard::KeyCode;
use bevy_input::Input;
use vstd::prelude::*;

verus! {

/// The engine's `bevy_input::Input<T>`: the inputs of one kind that are
/// held down, went down or came up in the current frame. Opaque here.
#[verifier::external_type_specification]
#[verifier::external_body]
#[verifier::reject_recursive_types(T)]
pub struct ExInput<T>(Input<T>);

/// The engine's `bevy_input::keyboard::KeyCode`, an enum without fields,
/// with its variants as the engine declares them.
#[verifier::external_type_specification]
pub struct ExKeyCode(KeyCode);

/// The keys that went down in the current frame: what the engine keeps in
/// the `just_pressed` set of an `Input<KeyCode>`.
pub uninterp spec fn just_pressed_keys(input: Input<KeyCode>) -> Set<KeyCode>;

/// Calls `Input::just_pressed`, which looks the key up in the `just_pressed`
/// set and changes nothing. Claimed: the answer is whether that set holds
/// the key.
#[verifier::external_body]
pub(crate) fn key_just_pressed(input: &Input<KeyCode>, key: KeyCode) -> (pressed: bool)
    ensures
        pressed == just_pressed_keys(*input).contains(key),
{
    input.just_pressed(key)
}

} // verus!
