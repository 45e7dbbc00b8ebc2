//! Player control for a sprite driven by a game engine's keyboard resource.
//!
//! The engine owns the entities, the frame loop and the keyboard state. This
//! library holds what the game itself decides: what is spawned at startup
//! ([`add_player`]) and how far the player moves in a frame, given the keys of
//! that frame ([`respond_to_keyboard`]). Lengths are whole world units; the
//! host turns them into the engine's own coordinates.

pub mod keyboard;
pub mod movement;
pub mod player;

pub use keyboard::Key;
pub use movement::{movement, respond_to_keyboard, respond_with, Controls, Offset, Triggers, STEP};
pub use player::{add_player, Placement, Player, PlayerBundle, Units3};
