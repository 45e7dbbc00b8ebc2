//! The engine's keyboard resource, as far as the movement rule reads it.

use bevy::input::keyboard::KeyCode;
use bevy::input::ButtonInput;
use std::hash::Hash;
use vstd::prelude::*;

verus! {

/// The engine's record of which buttons are down and which went down in the
/// current frame. Nothing inside it is visible here: contracts speak of its
/// contents through [`pressed_keys`] and [`just_pressed_keys`].
#[verifier::external_type_specification]
#[verifier::external_body]
#[verifier::reject_recursive_types(T)]
pub struct ExButtonInput<T: Copy + Eq + Hash + Send + Sync + 'static>(ButtonInput<T>);

/// The engine's physical key codes.
#[verifier::external_type_specification]
#[verifier::external_body]
pub struct ExKeyCode(KeyCode);

/// A key that the controls can be bound to. Each stands for the engine's key
/// code of the same name.
#[derive(Clone, Copy, Debug, PartialEq, Eq, Structural)]
pub enum Key {
    Space,
    Enter,
    ArrowRight,
    ArrowUp,
}

/// The bindable keys whose codes `input` holds among its pressed buttons. The
/// engine keeps a code there from a press until the matching release.
pub uninterp spec fn pressed_keys(input: ButtonInput<KeyCode>) -> Set<Key>;

/// The bindable keys whose codes `input` holds among its just pressed
/// buttons. The engine puts a code there when a press takes the key down and
/// empties the record before it reads the events of the next frame.
pub uninterp spec fn just_pressed_keys(input: ButtonInput<KeyCode>) -> Set<Key>;

/// What the movement rule can see of a keyboard in one frame.
pub struct Keys {
    /// The keys that are down.
    pub pressed: Set<Key>,
    /// The keys that went down in this frame.
    pub just_pressed: Set<Key>,
}

/// The keys of the frame that `input` records.
pub open spec fn keys_of(input: ButtonInput<KeyCode>) -> Keys {
    Keys { pressed: pressed_keys(input), just_pressed: just_pressed_keys(input) }
}

/// The keys of the frame, where the engine has a keyboard at all.
pub open spec fn keys_of_option(input: Option<&ButtonInput<KeyCode>>) -> Option<Keys> {
    match input {
        Some(input) => Some(keys_of(*input)),
        None => None,
    }
}

/// Calls `ButtonInput::pressed` with the key code that `key` stands for. The
/// engine answers whether that code is among its pressed buttons. The
/// contract is taken on trust: it says that the answer is the membership of
/// `key` in [`pressed_keys`].
#[verifier::external_body]
pub(crate) fn is_pressed(input: &ButtonInput<KeyCode>, key: Key) -> (held: bool)
    ensures
        held == pressed_keys(*input).contains(key),
{
    input.pressed(match key {
        Key::Space => KeyCode::Space,
        Key::Enter => KeyCode::Enter,
        Key::ArrowRight => KeyCode::ArrowRight,
        Key::ArrowUp => KeyCode::ArrowUp,
    })
}

/// Calls `ButtonInput::just_pressed` with the key code that `key` stands
/// for. The engine answers whether that code is among its just pressed
/// buttons. The contract is taken on trust: it says that the answer is the
/// membership of `key` in [`just_pressed_keys`].
#[verifier::external_body]
pub(crate) fn is_just_pressed(input: &ButtonInput<KeyCode>, key: Key) -> (struck: bool)
    ensures
        struck == just_pressed_keys(*input).contains(key),
{
    input.just_pressed(match key {
        Key::Space => KeyCode::Space,
        Key::Enter => KeyCode::Enter,
        Key::ArrowRight => KeyCode::ArrowRight,
        Key::ArrowUp => KeyCode::ArrowUp,
    })
}

} // verus!
