//! A grid-based game of Snake: the rules of a tick, from the head's step to
//! the apple's relocation and the growth of the body, with their proofs.

use vstd::prelude::*;

pub mod component;
pub mod event;
pub mod game;
pub mod grid;
pub mod keyboard;
pub mod random;
pub mod resource;
pub mod snake;
pub mod snapshot;
pub mod system;

verus! {

/// Edge of a sprite's image, in pixels.
pub const SPRITE_SIZE: i32 = 8;

/// Edge of a cell of the field on screen.
pub const CELL_SIZE: i32 = SPRITE_SIZE * 4;

/// Number of cells after which a walk along a row is back where it began.
pub const FIELD_WIDTH: i32 = 24;

/// Number of cells after which a walk along a column is back where it began.
pub const FIELD_HEIGHT: i32 = 24;

/// Width of the window.
pub const VISIBLE_FIELD_WIDTH: i32 = CELL_SIZE * FIELD_WIDTH;

/// Height of the window.
pub const VISIBLE_FIELD_HEIGHT: i32 = CELL_SIZE * FIELD_HEIGHT;

/// Time between two ticks, in milliseconds.
pub const STEP_DURATION_MILLIS: u64 = 500;

} // verus!
