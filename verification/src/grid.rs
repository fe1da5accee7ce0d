//! Cells of the field and the step from a cell to its neighbour.

use vstd::prelude::*;

use crate::component::MoveDirection;
use crate::{CELL_SIZE, FIELD_HEIGHT, FIELD_WIDTH};

verus! {

/// A cell, counted from the middle of the field: `x` grows to the right and
/// `y` grows upwards.
#[derive(Clone, Copy, Debug, PartialEq, Eq, Structural)]
pub struct GridPosition {
    pub x: i32,
    pub y: i32,
}

/// The column next to `x` on the left; from the left edge, the one before the
/// right edge.
pub open spec fn column_left(x: int) -> int {
    if x - 1 < -(FIELD_WIDTH / 2) {
        FIELD_WIDTH / 2 - 1
    } else {
        x - 1
    }
}

/// The column next to `x` on the right; from the right edge, the one after the
/// left edge.
pub open spec fn column_right(x: int) -> int {
    if x + 1 > FIELD_WIDTH / 2 {
        -(FIELD_WIDTH / 2) + 1
    } else {
        x + 1
    }
}

/// The row above `y`; from the top edge, the one after the bottom edge.
pub open spec fn row_above(y: int) -> int {
    if y + 1 > FIELD_HEIGHT / 2 {
        -(FIELD_HEIGHT / 2) + 1
    } else {
        y + 1
    }
}

/// The row below `y`; from the bottom edge, the one before the top edge.
pub open spec fn row_below(y: int) -> int {
    if y - 1 < -(FIELD_HEIGHT / 2) {
        FIELD_HEIGHT / 2 - 1
    } else {
        y - 1
    }
}

impl GridPosition {
    /// The cell lies on the field, edges included.
    pub open spec fn in_field(self) -> bool {
        &&& -(FIELD_WIDTH / 2) <= self.x <= FIELD_WIDTH / 2
        &&& -(FIELD_HEIGHT / 2) <= self.y <= FIELD_HEIGHT / 2
    }

    /// The column of the cell, counted around the field: two cells that are
    /// `FIELD_WIDTH` steps apart have the same one.
    pub open spec fn spec_column(self) -> i32 {
        (self.x as int % FIELD_WIDTH as int) as i32
    }

    /// The row of the cell, counted around the field.
    pub open spec fn spec_row(self) -> i32 {
        (self.y as int % FIELD_HEIGHT as int) as i32
    }

    /// A step in `direction` from this cell leaves the field on that side, so
    /// that it comes back in on the other.
    pub open spec fn wraps(self, direction: MoveDirection) -> bool {
        match direction {
            MoveDirection::Left => self.x - 1 < -(FIELD_WIDTH / 2),
            MoveDirection::Right => self.x + 1 > FIELD_WIDTH / 2,
            MoveDirection::Up => self.y + 1 > FIELD_HEIGHT / 2,
            MoveDirection::Down => self.y - 1 < -(FIELD_HEIGHT / 2),
        }
    }

    /// The cell one step away in `direction`, around the field.
    pub open spec fn translated(self, direction: MoveDirection) -> GridPosition {
        match direction {
            MoveDirection::Left => GridPosition { x: column_left(self.x as int) as i32, y: self.y },
            MoveDirection::Right => GridPosition {
                x: column_right(self.x as int) as i32,
                y: self.y,
            },
            MoveDirection::Up => GridPosition { x: self.x, y: row_above(self.y as int) as i32 },
            MoveDirection::Down => GridPosition { x: self.x, y: row_below(self.y as int) as i32 },
        }
    }

    /// The cell in column `x` and row `y`.
    pub fn new(x: i32, y: i32) -> (p: GridPosition)
        ensures
            p == (GridPosition { x, y }),
    {
        GridPosition { x, y }
    }

    /// Where the middle of the cell is on screen, in pixels to the right of
    /// and above the middle of the window.
    pub fn pixels(self) -> (at: (i64, i64))
        ensures
            at.0 == self.x * CELL_SIZE,
            at.1 == self.y * CELL_SIZE,
    {
        (self.x as i64 * CELL_SIZE as i64, self.y as i64 * CELL_SIZE as i64)
    }

    /// The column of the cell, counted around the field, from 0.
    #[verifier::when_used_as_spec(spec_column)]
    pub fn column(self) -> (c: i32)
        ensures
            c == self.spec_column(),
            0 <= c < FIELD_WIDTH,
    {
        let r: i32 = self.x % FIELD_WIDTH;
        if r < 0 {
            r + FIELD_WIDTH
        } else {
            r
        }
    }

    /// The row of the cell, counted around the field, from 0.
    #[verifier::when_used_as_spec(spec_row)]
    pub fn row(self) -> (r: i32)
        ensures
            r == self.spec_row(),
            0 <= r < FIELD_HEIGHT,
    {
        let r: i32 = self.y % FIELD_HEIGHT;
        if r < 0 {
            r + FIELD_HEIGHT
        } else {
            r
        }
    }
}

/// Moves `position` one cell in `direction`. A step beyond an edge of the
/// field comes back in on the opposite side.
pub fn translate(position: &mut GridPosition, direction: MoveDirection)
    ensures
        *final(position) == old(position).translated(direction),
{
    match direction {
        MoveDirection::Left => {
            if position.x <= -(FIELD_WIDTH / 2) {
                position.x = FIELD_WIDTH / 2 - 1;
            } else {
                position.x = position.x - 1;
            }
        },
        MoveDirection::Right => {
            if position.x >= FIELD_WIDTH / 2 {
                position.x = -(FIELD_WIDTH / 2) + 1;
            } else {
                position.x = position.x + 1;
            }
        },
        MoveDirection::Up => {
            if position.y >= FIELD_HEIGHT / 2 {
                position.y = -(FIELD_HEIGHT / 2) + 1;
            } else {
                position.y = position.y + 1;
            }
        },
        MoveDirection::Down => {
            if position.y <= -(FIELD_HEIGHT / 2) {
                position.y = FIELD_HEIGHT / 2 - 1;
            } else {
                position.y = position.y - 1;
            }
        },
    }
}

/// A step never leaves the field, and it moves the cell by one column or one
/// row around the field.
pub proof fn lemma_translate_stays_in_field(p: GridPosition, d: MoveDirection)
    requires
        p.in_field(),
    ensures
        p.translated(d).in_field(),
        d == MoveDirection::Right ==> p.translated(d).spec_column() == (p.spec_column() + 1)
            % FIELD_WIDTH as int,
        d == MoveDirection::Left ==> p.translated(d).spec_column() == (p.spec_column() - 1)
            % FIELD_WIDTH as int,
        d == MoveDirection::Up ==> p.translated(d).spec_row() == (p.spec_row() + 1)
            % FIELD_HEIGHT as int,
        d == MoveDirection::Down ==> p.translated(d).spec_row() == (p.spec_row() - 1)
            % FIELD_HEIGHT as int,
        d == MoveDirection::Left || d == MoveDirection::Right ==> p.translated(d).y == p.y,
        d == MoveDirection::Up || d == MoveDirection::Down ==> p.translated(d).x == p.x,
{
}

/// A step and then a step the other way lead back to the same column and row
/// around the field, and to the very same cell unless the first step went
/// beyond an edge.
pub proof fn lemma_translate_there_and_back(p: GridPosition, d: MoveDirection)
    requires
        p.in_field(),
    ensures
        p.translated(d).translated(d.reversed()).in_field(),
        p.translated(d).translated(d.reversed()).spec_column() == p.spec_column(),
        p.translated(d).translated(d.reversed()).spec_row() == p.spec_row(),
        !p.wraps(d) ==> p.translated(d).translated(d.reversed()) == p,
{
}

/// The cell `steps` steps away from `p` in `direction`, around the field.
pub open spec fn translated_by(
    p: GridPosition,
    direction: MoveDirection,
    steps: nat,
) -> GridPosition
    decreases steps,
{
    if steps == 0 {
        p
    } else {
        translated_by(p, direction, (steps - 1) as nat).translated(direction)
    }
}

/// Steps in one direction count the columns, or the rows, around the field:
/// after `FIELD_WIDTH` steps along a row the column is the same again, and
/// so is the row after `FIELD_HEIGHT` steps along a column.
pub proof fn lemma_steps_go_around_the_field(p: GridPosition, d: MoveDirection, steps: nat)
    requires
        p.in_field(),
    ensures
        translated_by(p, d, steps).in_field(),
        d == MoveDirection::Right ==> translated_by(p, d, steps).spec_column() == (p.spec_column()
            + steps) % FIELD_WIDTH as int,
        d == MoveDirection::Left ==> translated_by(p, d, steps).spec_column() == (p.spec_column()
            - steps) % FIELD_WIDTH as int,
        d == MoveDirection::Up ==> translated_by(p, d, steps).spec_row() == (p.spec_row() + steps)
            % FIELD_HEIGHT as int,
        d == MoveDirection::Down ==> translated_by(p, d, steps).spec_row() == (p.spec_row()
            - steps) % FIELD_HEIGHT as int,
        d == MoveDirection::Left || d == MoveDirection::Right ==> translated_by(p, d, steps).y
            == p.y,
        d == MoveDirection::Up || d == MoveDirection::Down ==> translated_by(p, d, steps).x == p.x,
    decreases steps,
{
    if steps > 0 {
        let before = translated_by(p, d, (steps - 1) as nat);
        lemma_steps_go_around_the_field(p, d, (steps - 1) as nat);
        lemma_translate_stays_in_field(before, d);
        lemma_count_on(p.spec_column() + steps - 1, FIELD_WIDTH as int);
        lemma_count_on(p.spec_column() - steps, FIELD_WIDTH as int);
        lemma_count_on(p.spec_row() + steps - 1, FIELD_HEIGHT as int);
        lemma_count_on(p.spec_row() - steps, FIELD_HEIGHT as int);
    }
}

/// Counting one further around the field, along a row or a column.
proof fn lemma_count_on(a: int, n: int)
    requires
        n == FIELD_WIDTH || n == FIELD_HEIGHT,
    ensures
        (a % n + 1) % n == (a + 1) % n,
        ((a + 1) % n - 1) % n == a % n,
{
}

} // verus!
