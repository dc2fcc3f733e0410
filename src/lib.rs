//! Population management for an arcade asteroid field: lineage ids, the
//! per-lineage fragment tally, the ring of spawn points, replenishment and
//! the destruction cascade, all as plain state owned by a play session.
use vstd::prelude::*;

pub mod kind;
pub mod lineage;
pub mod session;
pub mod spawner;
mod random;
pub mod stats;

verus! {

/// Width of the visible play field, in world units.
pub const VIEWPORT_WIDTH: u16 = 1280;

/// Height of the visible play field, in world units.
pub const VIEWPORT_HEIGHT: u16 = 720;

/// The phases of the game.
#[derive(Clone, Copy, Debug, PartialEq, Eq, Structural, Hash)]
pub enum GameState {
    Loading,
    Title,
    Playing,
    GameOver,
}

} // verus!
