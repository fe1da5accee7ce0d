//! What one step of a tick tells the steps after it.

use vstd::prelude::*;

verus! {

/// The piece with this id has changed its direction.
#[derive(Clone, Copy, Debug, PartialEq, Eq, Structural)]
pub struct UpdateDirectionEvent(pub usize);

/// The snake has moved.
#[derive(Clone, Copy, Debug, PartialEq, Eq, Structural)]
pub struct StepEvent;

/// The head has reached the apple with this id.
#[derive(Clone, Copy, Debug, PartialEq, Eq, Structural)]
pub struct EatAppleEvent(pub usize);

/// The snake has grown by a segment.
#[derive(Clone, Copy, Debug, PartialEq, Eq, Structural)]
pub struct ElongateEvent;

/// No cell is left for the apple: the game is won.
#[derive(Clone, Copy, Debug, PartialEq, Eq, Structural)]
pub struct WinEvent;

} // verus!
