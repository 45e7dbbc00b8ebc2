//! The movement rule: from the keys of a frame to the player's displacement.

use crate::keyboard::{is_just_pressed, is_pressed, keys_of, keys_of_option, Key, Keys};
use bevy::input::keyboard::KeyCode;
use bevy::input::ButtonInput;
use vstd::prelude::*;

verus! {

/// How far one trigger moves the player along its axis.
pub const STEP: i32 = 16;

/// A displacement of the player within one frame.
#[derive(Clone, Copy, Debug, PartialEq, Eq, Structural)]
pub struct Offset {
    pub dx: i32,
    pub dy: i32,
}

/// Which key moves the player along which axis.
///
/// The horizontal key acts for as long as it is held: once in every frame in
/// which it is down. The vertical key acts on its edge: once, in the frame in
/// which it goes down.
#[derive(Clone, Copy, Debug)]
pub struct Controls {
    /// The key that is held to move sideways, if there is one.
    pub horizontal: Option<Key>,
    /// The key that is struck to move up.
    pub vertical: Key,
}

impl Controls {
    /// Controls with a vertical key only.
    pub fn vertical_only(vertical: Key) -> (controls: Controls)
        ensures
            controls.horizontal is None,
            controls.vertical == vertical,
    {
        Controls { horizontal: None, vertical }
    }

    /// Controls with a key for each axis.
    pub fn new(horizontal: Key, vertical: Key) -> (controls: Controls)
        ensures
            controls.horizontal == Some(horizontal),
            controls.vertical == vertical,
    {
        Controls { horizontal: Some(horizontal), vertical }
    }
}

/// The controls that [`respond_to_keyboard`] goes by: the space bar moves the
/// player up, nothing moves it sideways.
pub open spec fn space_bar() -> Controls {
    Controls { horizontal: None, vertical: Key::Space }
}

/// Which of the two axes is triggered in a frame.
#[derive(Clone, Copy, Debug, PartialEq, Eq, Structural)]
pub struct Triggers {
    /// The horizontal key is held.
    pub horizontal: bool,
    /// The vertical key went down in this frame.
    pub vertical: bool,
}

/// The triggers that `keys` set off under `controls`.
pub open spec fn triggers_of(controls: Controls, keys: Keys) -> Triggers {
    Triggers {
        horizontal: match controls.horizontal {
            Some(key) => keys.pressed.contains(key),
            None => false,
        },
        vertical: keys.just_pressed.contains(controls.vertical),
    }
}

/// The displacement that a frame's triggers ask for, where there is one: a
/// step along each triggered axis. Without a keyboard, or with no axis
/// triggered, the player is left alone.
pub open spec fn movement_of(triggers: Option<Triggers>) -> Option<Offset> {
    match triggers {
        Some(triggers) if triggers.horizontal || triggers.vertical => Some(
            Offset {
                dx: if triggers.horizontal { STEP } else { 0 },
                dy: if triggers.vertical { STEP } else { 0 },
            },
        ),
        _ => None,
    }
}

/// The displacement of the player in a frame with the keys `keys`, under
/// `controls`.
pub open spec fn response(controls: Controls, keys: Option<Keys>) -> Option<Offset> {
    movement_of(
        match keys {
            Some(keys) => Some(triggers_of(controls, keys)),
            None => None,
        },
    )
}

/// How far a response moves the player sideways.
pub open spec fn dx_of(step: Option<Offset>) -> int {
    match step {
        Some(offset) => offset.dx as int,
        None => 0,
    }
}

/// How far a response moves the player up.
pub open spec fn dy_of(step: Option<Offset>) -> int {
    match step {
        Some(offset) => offset.dy as int,
        None => 0,
    }
}

/// Decides the player's displacement from the triggers of a frame. `None`
/// stands for a frame in which the player is not touched at all.
pub fn movement(triggers: Option<Triggers>) -> (step: Option<Offset>)
    ensures
        step == movement_of(triggers),
{
    match triggers {
        Some(triggers) => {
            if triggers.horizontal || triggers.vertical {
                Some(
                    Offset {
                        dx: if triggers.horizontal { STEP } else { 0 },
                        dy: if triggers.vertical { STEP } else { 0 },
                    },
                )
            } else {
                None
            }
        },
        None => None,
    }
}

/// Reads off the engine's keyboard which axes are triggered under `controls`.
pub fn read_triggers(controls: &Controls, input: &ButtonInput<KeyCode>) -> (triggers: Triggers)
    ensures
        triggers == triggers_of(*controls, keys_of(*input)),
{
    let horizontal = match controls.horizontal {
        Some(key) => is_pressed(input, key),
        None => false,
    };
    let vertical = is_just_pressed(input, controls.vertical);
    Triggers { horizontal, vertical }
}

/// The per-frame action under `controls`: the displacement to add to the
/// player's position in this frame, or `None` where the player stays as it
/// is. `input` is the engine's keyboard resource, `None` where the engine
/// runs without one; the action then does nothing.
pub fn respond_with(
    controls: &Controls,
    input: Option<&ButtonInput<KeyCode>>,
) -> (step: Option<Offset>)
    ensures
        step == response(*controls, keys_of_option(input)),
        input is None ==> step is None,
{
    match input {
        Some(input) => movement(Some(read_triggers(controls, input))),
        None => movement(None),
    }
}

/// The per-frame action: in the frame in which the space bar goes down the
/// player moves up by one step. `input` is the engine's keyboard resource,
/// `None` where the engine runs without one; the action then does nothing.
pub fn respond_to_keyboard(input: Option<&ButtonInput<KeyCode>>) -> (step: Option<Offset>)
    ensures
        step == response(space_bar(), keys_of_option(input)),
        input is None ==> step is None,
{
    let controls = Controls::vertical_only(Key::Space);
    respond_with(&controls, input)
}

/// Without a keyboard the player is never moved, whatever the controls.
pub proof fn lemma_no_keyboard_no_movement(controls: Controls)
    ensures
        response(controls, None) is None,
{
}

/// The player is left alone in exactly the frames in which the horizontal
/// key is not held and the vertical key does not go down. A keyboard that
/// nobody touches is one such frame.
pub proof fn lemma_still_while_idle(controls: Controls, keys: Keys)
    ensures
        response(controls, Some(keys)) is None <==> !triggers_of(controls, keys).horizontal
            && !triggers_of(controls, keys).vertical,
        keys.pressed == Set::<Key>::empty() && keys.just_pressed == Set::<Key>::empty()
            ==> response(controls, Some(keys)) is None,
{
}

/// The player moves sideways in exactly the frames in which the horizontal
/// key is held, and then by one step; not before the key is pressed, and
/// never where no horizontal key is bound.
pub proof fn lemma_sideways_while_held(controls: Controls, keys: Keys)
    ensures
        dx_of(response(controls, Some(keys))) == if controls.horizontal matches Some(key)
            && keys.pressed.contains(key) {
            STEP as int
        } else {
            0
        },
{
}

/// The player moves up in exactly the frames in which the vertical key goes
/// down, and then by one step: holding the key on moves it no further.
pub proof fn lemma_up_on_edge(controls: Controls, keys: Keys)
    ensures
        dy_of(response(controls, Some(keys))) == if keys.just_pressed.contains(controls.vertical) {
            STEP as int
        } else {
            0
        },
{
}

/// The two axes do not disturb each other: what the vertical key does leaves
/// the sideways movement as it is, and the other way round.
pub proof fn lemma_axes_independent(controls: Controls, a: Keys, b: Keys)
    ensures
        a.pressed == b.pressed ==> dx_of(response(controls, Some(a))) == dx_of(
            response(controls, Some(b)),
        ),
        a.just_pressed == b.just_pressed ==> dy_of(response(controls, Some(a))) == dy_of(
            response(controls, Some(b)),
        ),
{
}

} // verus!
