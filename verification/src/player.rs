//! The player entity as it is spawned at startup.

use vstd::prelude::*;

verus! {

/// Marks the one entity that the keyboard moves. It carries no data.
#[derive(Clone, Copy, Debug, PartialEq, Eq, Structural)]
pub struct Player;

/// Three lengths in whole world units, one per axis.
#[derive(Clone, Copy, Debug, PartialEq, Eq, Structural)]
pub struct Units3 {
    pub x: i32,
    pub y: i32,
    pub z: i32,
}

/// Where an entity stands and how large it is drawn. The rotation is not
/// held here: the player is never turned.
#[derive(Clone, Copy, Debug, PartialEq, Eq, Structural)]
pub struct Placement {
    pub position: Units3,
    pub scale: Units3,
}

/// The components of the player entity.
#[derive(Clone, Copy, Debug, PartialEq, Eq, Structural)]
pub struct PlayerBundle {
    pub placement: Placement,
    pub player: Player,
}

/// Width of the player's sprite.
pub const PLAYER_WIDTH: i32 = 64;

/// Height of the player's sprite.
pub const PLAYER_HEIGHT: i32 = 32;

/// The origin of the world.
pub open spec fn origin() -> Units3 {
    Units3 { x: 0, y: 0, z: 0 }
}

/// The placement that the player starts with: at the origin, stretched to
/// the sprite's width and height and left alone in depth.
pub open spec fn initial_placement() -> Placement {
    Placement { position: origin(), scale: Units3 { x: PLAYER_WIDTH, y: PLAYER_HEIGHT, z: 1 } }
}

/// The startup action: the one entity to spawn, tagged as the player and
/// standing at the origin. The host hands the bundle to the engine once, at
/// startup; the action itself cannot fail.
pub fn add_player() -> (bundle: PlayerBundle)
    ensures
        bundle.placement == initial_placement(),
        bundle.player == Player,
{
    PlayerBundle {
        placement: Placement {
            position: Units3 { x: 0, y: 0, z: 0 },
            scale: Units3 { x: PLAYER_WIDTH, y: PLAYER_HEIGHT, z: 1 },
        },
        player: Player,
    }
}

} // verus!
