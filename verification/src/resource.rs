//! What the game keeps beside its pieces.

use vstd::prelude::*;

use rand::rngs::ThreadRng;

use crate::grid::GridPosition;
use crate::random::choose_cell;
use crate::{FIELD_HEIGHT, FIELD_WIDTH};

verus! {

/// The place of a cell in the order in which the cells of the field are gone
/// through: column by column from the left, each column from the bottom.
pub open spec fn cell_index(p: GridPosition) -> int {
    (p.x + FIELD_WIDTH / 2) * (FIELD_HEIGHT + 1) + (p.y + FIELD_HEIGHT / 2)
}

/// A cell of the field that comes before another, column by column, has the
/// lesser index.
pub proof fn lemma_cell_index_grows(p: GridPosition, q: GridPosition)
    requires
        p.in_field(),
        q.in_field(),
        p.x < q.x || (p.x == q.x && p.y < q.y),
    ensures
        cell_index(p) < cell_index(q),
{
}

/// The cells of the field but those that the snake is on, to take one from
/// at random.
pub struct ExcludeSnakeDistribution {
    /// The cells that the snake is on.
    pub positions: Vec<GridPosition>,
}

impl Default for ExcludeSnakeDistribution {
    fn default() -> (distribution: ExcludeSnakeDistribution)
        ensures
            distribution.positions@ == Seq::<GridPosition>::empty(),
    {
        ExcludeSnakeDistribution { positions: Vec::new() }
    }
}

impl ExcludeSnakeDistribution {
    /// The cell `p` is on the field and the snake is not on it.
    pub open spec fn free(&self, p: GridPosition) -> bool {
        p.in_field() && !self.positions@.contains(p)
    }

    /// The snake is on every cell of the field.
    pub open spec fn covers_field(&self) -> bool {
        forall|p: GridPosition| p.in_field() ==> self.positions@.contains(p)
    }

    /// Whether the snake is on the cell `p`.
    pub fn is_excluded(&self, p: GridPosition) -> (excluded: bool)
        ensures
            excluded <==> self.positions@.contains(p),
    {
        let mut i: usize = 0;
        while i < self.positions.len()
            invariant
                i <= self.positions@.len(),
                forall|j: int| 0 <= j < i ==> self.positions@[j] != p,
            decreases self.positions@.len() - i,
        {
            if self.positions[i] == p {
                return true;
            }
            i = i + 1;
        }
        false
    }

    /// The free cells, column by column from the left, each column from the
    /// bottom.
    pub fn free_cells(&self) -> (cells: Vec<GridPosition>)
        ensures
            forall|p: GridPosition| #[trigger] cells@.contains(p) <==> self.free(p),
            forall|i: int, j: int|
                0 <= i < j < cells@.len() ==> cell_index(cells@[i]) < cell_index(cells@[j]),
    {
        let mut cells: Vec<GridPosition> = Vec::new();
        let mut x: i32 = -(FIELD_WIDTH / 2);
        while x <= FIELD_WIDTH / 2
            invariant
                -(FIELD_WIDTH / 2) <= x <= FIELD_WIDTH / 2 + 1,
                forall|p: GridPosition| #[trigger] cells@.contains(p) <==> self.free(p) && p.x < x,
                forall|i: int, j: int|
                    0 <= i < j < cells@.len() ==> cell_index(cells@[i]) < cell_index(cells@[j]),
            decreases FIELD_WIDTH / 2 + 1 - x,
        {
            let mut y: i32 = -(FIELD_HEIGHT / 2);
            while y <= FIELD_HEIGHT / 2
                invariant
                    -(FIELD_WIDTH / 2) <= x <= FIELD_WIDTH / 2,
                    -(FIELD_HEIGHT / 2) <= y <= FIELD_HEIGHT / 2 + 1,
                    forall|p: GridPosition| #[trigger]
                        cells@.contains(p) <==> self.free(p) && (p.x < x || (p.x == x && p.y < y)),
                    forall|i: int, j: int|
                        0 <= i < j < cells@.len() ==> cell_index(cells@[i]) < cell_index(
                            cells@[j],
                        ),
                decreases FIELD_HEIGHT / 2 + 1 - y,
            {
                let pos = GridPosition::new(x, y);
                if !self.is_excluded(pos) {
                    let ghost before = cells@;
                    cells.push(pos);
                    proof {
                        assert(cells@[before.len() as int] == pos);
                        // What the list holds now is what it held before, or
                        // the cell just added.
                        assert forall|p: GridPosition| cells@.contains(p) implies self.free(p) && (
                        p.x < x || (p.x == x && p.y < y + 1)) by {
                            let k = choose|k: int| 0 <= k < cells@.len() && cells@[k] == p;
                            if k < before.len() {
                                assert(before[k] == p);
                                assert(before.contains(p));
                            }
                        }
                        assert forall|p: GridPosition|
                            self.free(p) && (p.x < x || (p.x == x && p.y < y + 1))
                            implies cells@.contains(p) by {
                            if p != pos {
                                assert(before.contains(p));
                                let k = choose|k: int| 0 <= k < before.len() && before[k] == p;
                                assert(cells@[k] == p);
                            }
                        }
                        // The cell just added comes after all that came
                        // before it.
                        assert forall|i: int, j: int| 0 <= i < j < cells@.len() implies cell_index(
                            cells@[i],
                        ) < cell_index(cells@[j]) by {
                            assert(before[i] == cells@[i]);
                            if j == before.len() {
                                assert(before.contains(cells@[i]));
                                lemma_cell_index_grows(cells@[i], pos);
                            } else {
                                assert(before[j] == cells@[j]);
                            }
                        }
                    }
                }
                y = y + 1;
            }
            x = x + 1;
        }
        cells
    }

    /// One of the free cells, taken at random, or `None` where the snake
    /// is on every cell of the field.
    pub fn sample(&self, rng: &mut ThreadRng) -> (cell: Option<GridPosition>)
        ensures
            cell is None <==> self.covers_field(),
            cell matches Some(p) ==> self.free(p),
    {
        let cells = self.free_cells();
        proof {
            if cells@.len() > 0 {
                assert(cells@.contains(cells@[0]));
            } else {
                assert forall|p: GridPosition| p.in_field() implies self.positions@.contains(
                    p,
                ) by {
                    assert(!cells@.contains(p));
                }
            }
        }
        choose_cell(cells, rng)
    }
}

/// The images that the game shows.
#[derive(Clone, Copy, Debug, PartialEq, Eq, Structural)]
pub enum Sprite {
    Head,
    TailMiddle,
    TailTurn,
    TailEnd,
    Apple,
}

impl Sprite {
    /// Where the image is found among the assets.
    pub open spec fn spec_path(self) -> Seq<char> {
        match self {
            Sprite::Head => "sprites/snake-head.png"@,
            Sprite::TailMiddle => "sprites/snake-body.png"@,
            Sprite::TailTurn => "sprites/snake-body-turn.png"@,
            Sprite::TailEnd => "sprites/snake-end.png"@,
            Sprite::Apple => "sprites/apple.png"@,
        }
    }

    /// Where the image is found among the assets.
    pub fn path(self) -> (path: &'static str)
        ensures
            path@ == self.spec_path(),
    {
        match self {
            Sprite::Head => "sprites/snake-head.png",
            Sprite::TailMiddle => "sprites/snake-body.png",
            Sprite::TailTurn => "sprites/snake-body-turn.png",
            Sprite::TailEnd => "sprites/snake-end.png",
            Sprite::Apple => "sprites/apple.png",
        }
    }
}

/// The handles of the images, of whatever kind `H` the one who loads them
/// hands out; none is there until `load` has been called.
pub struct Sprites<H> {
    head: Option<H>,
    tail_middle: Option<H>,
    tail_turn: Option<H>,
    tail_end: Option<H>,
    apple: Option<H>,
}

impl<H> Default for Sprites<H> {
    fn default() -> (sprites: Sprites<H>)
        ensures
            forall|sprite: Sprite| (#[trigger] sprites.handle(sprite)) is None,
    {
        Sprites::new()
    }
}

impl<H> Sprites<H> {
    /// The handle of the image `sprite`, if it is there.
    pub closed spec fn handle(&self, sprite: Sprite) -> Option<H> {
        match sprite {
            Sprite::Head => self.head,
            Sprite::TailMiddle => self.tail_middle,
            Sprite::TailTurn => self.tail_turn,
            Sprite::TailEnd => self.tail_end,
            Sprite::Apple => self.apple,
        }
    }

    /// The handles of all the images are there.
    pub open spec fn complete(&self) -> bool {
        forall|sprite: Sprite| (#[trigger] self.handle(sprite)) is Some
    }

    /// No handle yet.
    pub fn new() -> (sprites: Sprites<H>)
        ensures
            forall|sprite: Sprite| (#[trigger] sprites.handle(sprite)) is None,
    {
        Sprites { head: None, tail_middle: None, tail_turn: None, tail_end: None, apple: None }
    }

    /// Takes the handles of the five images.
    pub fn load(&mut self, head: H, tail_middle: H, tail_turn: H, tail_end: H, apple: H)
        ensures
            final(self).handle(Sprite::Head) == Some(head),
            final(self).handle(Sprite::TailMiddle) == Some(tail_middle),
            final(self).handle(Sprite::TailTurn) == Some(tail_turn),
            final(self).handle(Sprite::TailEnd) == Some(tail_end),
            final(self).handle(Sprite::Apple) == Some(apple),
            final(self).complete(),
    {
        self.head = Some(head);
        self.tail_middle = Some(tail_middle);
        self.tail_turn = Some(tail_turn);
        self.tail_end = Some(tail_end);
        self.apple = Some(apple);
    }

    /// Whether the images can be shown: the handles are all there, and the
    /// one who loads the images says that the five are loaded.
    pub fn check_loaded(&self, group_loaded: bool) -> (loaded: bool)
        ensures
            loaded <==> self.complete() && group_loaded,
    {
        proof {
            assert(self.handle(Sprite::Head) == self.head);
            assert(self.handle(Sprite::TailMiddle) == self.tail_middle);
            assert(self.handle(Sprite::TailTurn) == self.tail_turn);
            assert(self.handle(Sprite::TailEnd) == self.tail_end);
            assert(self.handle(Sprite::Apple) == self.apple);
        }
        self.head.is_some() && self.tail_middle.is_some() && self.tail_turn.is_some()
            && self.tail_end.is_some() && self.apple.is_some() && group_loaded
    }
}

impl<H: Clone> Sprites<H> {
    /// A copy of the handle of the head's image.
    pub fn head(&self) -> (handle: H)
        requires
            self.handle(Sprite::Head) is Some,
        ensures
            cloned(self.handle(Sprite::Head).unwrap(), handle),
    {
        self.head.as_ref().unwrap().clone()
    }

    /// A copy of the handle of the image of a segment that goes straight.
    pub fn tail_middle(&self) -> (handle: H)
        requires
            self.handle(Sprite::TailMiddle) is Some,
        ensures
            cloned(self.handle(Sprite::TailMiddle).unwrap(), handle),
    {
        self.tail_middle.as_ref().unwrap().clone()
    }

    /// A copy of the handle of the image of a segment that turns.
    pub fn tail_turn(&self) -> (handle: H)
        requires
            self.handle(Sprite::TailTurn) is Some,
        ensures
            cloned(self.handle(Sprite::TailTurn).unwrap(), handle),
    {
        self.tail_turn.as_ref().unwrap().clone()
    }

    /// A copy of the handle of the image of the last segment.
    pub fn tail_end(&self) -> (handle: H)
        requires
            self.handle(Sprite::TailEnd) is Some,
        ensures
            cloned(self.handle(Sprite::TailEnd).unwrap(), handle),
    {
        self.tail_end.as_ref().unwrap().clone()
    }

    /// A copy of the handle of the apple's image.
    pub fn apple(&self) -> (handle: H)
        requires
            self.handle(Sprite::Apple) is Some,
        ensures
            cloned(self.handle(Sprite::Apple).unwrap(), handle),
    {
        self.apple.as_ref().unwrap().clone()
    }
}

} // verus!
