//! The data that the pieces of the game carry.

use vstd::prelude::*;

use crate::grid::GridPosition;

verus! {

/// The direction in which a piece of the snake moves at the next tick.
#[derive(Clone, Copy, Debug, PartialEq, Eq, Structural)]
pub enum MoveDirection {
    Up,
    Down,
    Left,
    Right,
}

impl Default for MoveDirection {
    fn default() -> (d: MoveDirection)
        ensures
            d == MoveDirection::Up,
    {
        MoveDirection::Up
    }
}

impl MoveDirection {
    /// The direction that points the other way.
    pub open spec fn reversed(self) -> MoveDirection {
        match self {
            MoveDirection::Up => MoveDirection::Down,
            MoveDirection::Down => MoveDirection::Up,
            MoveDirection::Left => MoveDirection::Right,
            MoveDirection::Right => MoveDirection::Left,
        }
    }

    /// The number of quarter turns, counter-clockwise from `Up`, by which a
    /// sprite that heads this way is rotated.
    pub open spec fn spec_quarter_turns(self) -> u8 {
        match self {
            MoveDirection::Up => 0,
            MoveDirection::Left => 1,
            MoveDirection::Down => 2,
            MoveDirection::Right => 3,
        }
    }

    /// Returns `true` if the direction is `Up`.
    #[must_use]
    pub fn is_up(&self) -> (b: bool)
        ensures
            b <==> *self == MoveDirection::Up,
    {
        matches!(self, MoveDirection::Up)
    }

    /// Returns `true` if the direction is `Down`.
    #[must_use]
    pub fn is_down(&self) -> (b: bool)
        ensures
            b <==> *self == MoveDirection::Down,
    {
        matches!(self, MoveDirection::Down)
    }

    /// Returns `true` if the direction is `Left`.
    #[must_use]
    pub fn is_left(&self) -> (b: bool)
        ensures
            b <==> *self == MoveDirection::Left,
    {
        matches!(self, MoveDirection::Left)
    }

    /// Returns `true` if the direction is `Right`.
    #[must_use]
    pub fn is_right(&self) -> (b: bool)
        ensures
            b <==> *self == MoveDirection::Right,
    {
        matches!(self, MoveDirection::Right)
    }

    /// The direction that points the other way.
    pub fn reverse(self) -> (r: MoveDirection)
        ensures
            r == self.reversed(),
    {
        match self {
            MoveDirection::Up => MoveDirection::Down,
            MoveDirection::Down => MoveDirection::Up,
            MoveDirection::Left => MoveDirection::Right,
            MoveDirection::Right => MoveDirection::Left,
        }
    }

    /// The rotation of a sprite that heads this way, in quarter turns
    /// counter-clockwise from `Up`.
    #[verifier::when_used_as_spec(spec_quarter_turns)]
    pub fn quarter_turns(self) -> (q: u8)
        ensures
            q == self.spec_quarter_turns(),
    {
        match self {
            MoveDirection::Up => 0,
            MoveDirection::Left => 1,
            MoveDirection::Down => 2,
            MoveDirection::Right => 3,
        }
    }
}

/// The direction in which the head moved at the previous tick, if it has
/// moved at all.
#[derive(Clone, Copy, Debug, PartialEq, Eq)]
pub struct PrevDirection(pub Option<MoveDirection>);

impl Default for PrevDirection {
    fn default() -> (p: PrevDirection)
        ensures
            p == PrevDirection(None),
    {
        PrevDirection(None)
    }
}

/// The id of the piece that a body segment follows.
#[derive(Clone, Copy, Debug, PartialEq, Eq, Structural)]
pub struct PrevId(pub usize);

/// What only the head carries.
#[derive(Clone, Copy, Debug, PartialEq, Eq)]
pub struct SnakeHead(pub PrevDirection);

/// The place of a body segment in the chain: the last one, or one before it.
#[derive(Clone, Copy, Debug, PartialEq, Eq, Structural)]
pub enum SnakeTail {
    Middle,
    End,
}

/// What tells the head from the body segments.
#[derive(Clone, Copy, Debug, PartialEq, Eq)]
pub enum PieceKind {
    Head(SnakeHead),
    Tail(SnakeTail, PrevId),
}

/// One piece of the snake: the head or a body segment.
#[derive(Clone, Copy, Debug, PartialEq, Eq)]
pub struct SnakePiece {
    /// The cell that the piece is on.
    pub position: GridPosition,
    /// The way the sprite of the piece is turned.
    pub rotation: MoveDirection,
    /// The way the piece moves at the next tick.
    pub direction: MoveDirection,
    pub kind: PieceKind,
}

impl SnakePiece {
    /// The id of the piece that this one follows; the head follows none.
    pub open spec fn prev(self) -> Option<int> {
        match self.kind {
            PieceKind::Head(_) => None,
            PieceKind::Tail(_, PrevId(id)) => Some(id as int),
        }
    }

    /// Whether a body segment is the last of the chain or one before it; the
    /// head is neither.
    pub open spec fn tail(self) -> Option<SnakeTail> {
        match self.kind {
            PieceKind::Head(_) => None,
            PieceKind::Tail(tail, _) => Some(tail),
        }
    }

    /// This piece, linked to the piece `prev` in place of the one that it
    /// followed; the head, which follows none, as it is.
    pub open spec fn relinked(self, prev: usize) -> SnakePiece {
        match self.kind {
            PieceKind::Head(_) => self,
            PieceKind::Tail(tail, _) => SnakePiece {
                kind: PieceKind::Tail(tail, PrevId(prev)),
                ..self
            },
        }
    }
}

/// The apple.
#[derive(Clone, Copy, Debug, PartialEq, Eq, Structural)]
pub struct Apple {
    /// The identity under which an event names the apple.
    pub id: usize,
    /// The cell that the apple is on.
    pub position: GridPosition,
}

} // verus!
