//! The snake: its pieces, each under a lasting id, and the chain that the
//! links between them form.

use vstd::prelude::*;

use crate::component::{
    MoveDirection, PieceKind, PrevDirection, PrevId, SnakeHead, SnakePiece, SnakeTail,
};
use crate::grid::GridPosition;

verus! {

/// The snake. A piece keeps the id that it got when it was made, which is
/// its place in `pieces()`; the head has id 0 and was made first.
pub struct Snake {
    pieces: Vec<SnakePiece>,
    /// The ids in the order of the chain; kept for the proofs alone.
    chain: Ghost<Seq<int>>,
    /// The place of each id in `chain`; kept for the proofs alone.
    rank: Ghost<Seq<int>>,
}

impl View for Snake {
    type V = Seq<SnakePiece>;

    /// The pieces, each at its id.
    closed spec fn view(&self) -> Seq<SnakePiece> {
        self.pieces@
    }
}

/// The piece that is reached from the piece `id` by following the links
/// `steps` times; a walk that reaches the head stays there.
pub open spec fn walk(pieces: Seq<SnakePiece>, id: int, steps: nat) -> int
    decreases steps,
{
    if steps == 0 {
        id
    } else {
        match pieces[id].prev() {
            Some(prev) => walk(pieces, prev, (steps - 1) as nat),
            None => id,
        }
    }
}

impl Snake {
    /// The ids of the pieces in the order of the chain: the head first, then
    /// the segment that follows it, and so on to the last segment.
    pub closed spec fn chain(&self) -> Seq<int> {
        self.chain@
    }

    /// For each id, the place of that piece in the chain.
    pub closed spec fn rank(&self) -> Seq<int> {
        self.rank@
    }

    /// The id of the head.
    pub open spec fn spec_head_id() -> usize {
        0
    }

    /// The snake is whole: it has a head, which is piece 0, and at least one
    /// body segment; `chain()` lists every piece once, each segment links to
    /// the piece listed before it, and the segment listed last is the only
    /// one marked as the end.
    pub open spec fn wf(&self) -> bool {
        let pieces = self@;
        let chain = self.chain();
        let rank = self.rank();
        let n = pieces.len() as int;
        &&& 2 <= n <= usize::MAX
        &&& chain.len() == n
        &&& rank.len() == n
        &&& chain[0] == 0
        &&& forall|k: int| 0 <= k < n ==> 0 <= #[trigger] chain[k] < n && rank[chain[k]] == k
        &&& forall|i: int| 0 <= i < n ==> 0 <= #[trigger] rank[i] < n && chain[rank[i]] == i
        &&& pieces[0].kind is Head
        &&& forall|i: int|
            1 <= i < n ==> (#[trigger] pieces[i]).prev() == Some(chain[rank[i] - 1])
        &&& forall|i: int|
            1 <= i < n ==> (#[trigger] pieces[i]).tail() == Some(
                if rank[i] == n - 1 {
                    SnakeTail::End
                } else {
                    SnakeTail::Middle
                },
            )
    }

    /// The pieces of the snake at the start of a game: the head in the middle
    /// of the field, one segment below it, both heading up.
    pub open spec fn initial_pieces() -> Seq<SnakePiece> {
        seq![
            SnakePiece {
                position: GridPosition { x: 0, y: 0 },
                rotation: MoveDirection::Up,
                direction: MoveDirection::Up,
                kind: PieceKind::Head(SnakeHead(PrevDirection(None))),
            },
            SnakePiece {
                position: GridPosition { x: 0, y: -1i32 },
                rotation: MoveDirection::Up,
                direction: MoveDirection::Up,
                kind: PieceKind::Tail(SnakeTail::End, PrevId(0)),
            },
        ]
    }

    /// The snake at the start of a game.
    pub fn new() -> (snake: Snake)
        ensures
            snake.wf(),
            snake@ == Snake::initial_pieces(),
            snake.chain() == seq![0int, 1int],
    {
        let head = SnakePiece {
            position: GridPosition { x: 0, y: 0 },
            rotation: MoveDirection::Up,
            direction: MoveDirection::Up,
            kind: PieceKind::Head(SnakeHead(PrevDirection(None))),
        };
        let end = SnakePiece {
            position: GridPosition { x: 0, y: -1 },
            rotation: MoveDirection::Up,
            direction: MoveDirection::Up,
            kind: PieceKind::Tail(SnakeTail::End, PrevId(0)),
        };
        let mut pieces: Vec<SnakePiece> = Vec::new();
        pieces.push(head);
        pieces.push(end);
        let ghost order = seq![0int, 1int];
        Snake { pieces, chain: Ghost(order), rank: Ghost(order) }
    }

    /// The number of pieces, the head included.
    pub fn len(&self) -> (n: usize)
        ensures
            n == self@.len(),
    {
        self.pieces.len()
    }

    /// The id of the head.
    #[verifier::when_used_as_spec(spec_head_id)]
    pub fn head_id() -> (id: usize)
        ensures
            id == 0,
    {
        0
    }

    /// The pieces, each at its id.
    pub fn pieces(&self) -> (pieces: &Vec<SnakePiece>)
        ensures
            pieces@ == self@,
    {
        &self.pieces
    }

    /// The piece with the given id.
    pub fn piece(&self, id: usize) -> (piece: SnakePiece)
        requires
            id < self@.len(),
        ensures
            piece == self@[id as int],
    {
        self.pieces[id]
    }

    /// The head.
    pub fn head(&self) -> (piece: SnakePiece)
        requires
            self.wf(),
        ensures
            piece == self@[0],
            piece.kind is Head,
    {
        self.pieces[0]
    }

    /// The id of the segment that follows the head.
    pub fn follower_of_head(&self) -> (id: usize)
        requires
            self.wf(),
        ensures
            id == self.chain()[1],
            1 <= id < self@.len(),
            self@[id as int].prev() == Some(0int),
    {
        let n = self.pieces.len();
        let mut i: usize = 1;
        proof {
            lemma_one_follower_of_head(self, self.chain()[1]);
        }
        loop
            invariant
                self.wf(),
                n == self@.len(),
                1 <= i <= self.chain()[1] < n,
            decreases n - i,
        {
            let piece = self.pieces[i];
            if let PieceKind::Tail(_, PrevId(prev)) = piece.kind {
                if prev == 0 {
                    proof {
                        lemma_one_follower_of_head(self, i as int);
                    }
                    return i;
                }
            }
            proof {
                lemma_one_follower_of_head(self, i as int);
            }
            i = i + 1;
        }
    }

    /// Puts the piece `id` on the cell `position`.
    pub fn set_position(&mut self, id: usize, position: GridPosition)
        requires
            old(self).wf(),
            id < old(self)@.len(),
        ensures
            final(self).wf(),
            final(self).chain() == old(self).chain(),
            final(self).rank() == old(self).rank(),
            final(self)@ == old(self)@.update(
                id as int,
                (SnakePiece { position, ..old(self)@[id as int] }),
            ),
    {
        let mut piece = self.pieces[id];
        piece.position = position;
        self.pieces.set(id, piece);
    }

    /// Lets the piece `id` move in `direction` from the next tick on.
    pub fn set_direction(&mut self, id: usize, direction: MoveDirection)
        requires
            old(self).wf(),
            id < old(self)@.len(),
        ensures
            final(self).wf(),
            final(self).chain() == old(self).chain(),
            final(self).rank() == old(self).rank(),
            final(self)@ == old(self)@.update(
                id as int,
                (SnakePiece { direction, ..old(self)@[id as int] }),
            ),
    {
        let mut piece = self.pieces[id];
        piece.direction = direction;
        self.pieces.set(id, piece);
    }

    /// Turns the sprite of the piece `id` to `rotation`.
    pub fn set_rotation(&mut self, id: usize, rotation: MoveDirection)
        requires
            old(self).wf(),
            id < old(self)@.len(),
        ensures
            final(self).wf(),
            final(self).chain() == old(self).chain(),
            final(self).rank() == old(self).rank(),
            final(self)@ == old(self)@.update(
                id as int,
                (SnakePiece { rotation, ..old(self)@[id as int] }),
            ),
    {
        let mut piece = self.pieces[id];
        piece.rotation = rotation;
        self.pieces.set(id, piece);
    }

    /// Records `prev_direction` as the direction in which the head moved last.
    pub fn set_prev_direction(&mut self, prev_direction: PrevDirection)
        requires
            old(self).wf(),
        ensures
            final(self).wf(),
            final(self).chain() == old(self).chain(),
            final(self).rank() == old(self).rank(),
            final(self)@ == old(self)@.update(
                0,
                (SnakePiece { kind: PieceKind::Head(SnakeHead(prev_direction)), ..old(self)@[0] }),
            ),
    {
        let mut piece = self.pieces[0];
        piece.kind = PieceKind::Head(SnakeHead(prev_direction));
        self.pieces.set(0, piece);
    }

    /// Makes a new segment on the head's cell, turned and heading as the head
    /// is, and puts it into the chain right behind the head: the new segment
    /// follows the head, and the segment that followed the head follows the
    /// new one. Returns the id of the new segment.
    pub fn insert_after_head(&mut self) -> (id: usize)
        requires
            old(self).wf(),
        ensures
            final(self).wf(),
            id == old(self)@.len(),
            final(self)@.len() == old(self)@.len() + 1,
            final(self).chain() == old(self).chain().insert(1, id as int),
            final(self)@[id as int] == (SnakePiece {
                kind: PieceKind::Tail(SnakeTail::Middle, PrevId(0)),
                ..old(self)@[0]
            }),
            final(self)@[old(self).chain()[1]] == old(self)@[old(self).chain()[1]].relinked(id),
            forall|i: int|
                0 <= i < old(self)@.len() && i != old(self).chain()[1] ==> final(self)@[i]
                    == old(self)@[i],
    {
        let id = self.pieces.len();
        let head = self.pieces[0];
        let follower = self.follower_of_head();
        let mut displaced = self.pieces[follower];
        if let PieceKind::Tail(tail, _) = displaced.kind {
            displaced.kind = PieceKind::Tail(tail, PrevId(id));
        }
        self.pieces.set(follower, displaced);
        self.pieces.push(
            SnakePiece {
                position: head.position,
                rotation: head.rotation,
                direction: head.direction,
                kind: PieceKind::Tail(SnakeTail::Middle, PrevId(0)),
            },
        );
        let ghost n = id as int;
        let ghost old_chain = self.chain@;
        let ghost old_rank = self.rank@;
        let ghost chain = Seq::new(
            (n + 1) as nat,
            |k: int|
                if k == 0 {
                    0
                } else if k == 1 {
                    n
                } else {
                    old_chain[k - 1]
                },
        );
        let ghost rank = Seq::new(
            (n + 1) as nat,
            |i: int|
                if i == 0 {
                    0
                } else if i == n {
                    1
                } else {
                    old_rank[i] + 1
                },
        );
        self.chain = Ghost(chain);
        self.rank = Ghost(rank);
        proof {
            assert(self.pieces.len() == n + 1);
            lemma_links_in_range(old(self), follower as int);
            // The new chain lists every piece once.
            assert forall|k: int| 0 <= k < n + 1 implies 0 <= #[trigger] chain[k] < n + 1
                && rank[chain[k]] == k by {
                if k >= 2 {
                    assert(old_rank[old_chain[k - 1]] == k - 1);
                }
            }
            assert forall|i: int| 0 <= i < n + 1 implies 0 <= #[trigger] rank[i] < n + 1
                && chain[rank[i]] == i by {
                if 0 < i < n {
                    assert(old_chain[old_rank[i]] == i);
                }
            }
            // Every segment links to the piece listed before it, and the
            // segment listed last is still the only end.
            assert forall|i: int| 1 <= i < n + 1 implies (#[trigger] self@[i]).prev() == Some(
                chain[rank[i] - 1],
            ) && self@[i].tail() == Some(
                if rank[i] == n {
                    SnakeTail::End
                } else {
                    SnakeTail::Middle
                },
            ) by {
                if i < n {
                    lemma_links_in_range(old(self), i);
                    lemma_one_follower_of_head(old(self), i);
                }
            }
        }
        id
    }
}

/// Every body segment follows a piece of the snake other than itself, the
/// one that is listed right before it in the chain.
pub proof fn lemma_links_in_range(snake: &Snake, id: int)
    requires
        snake.wf(),
        1 <= id < snake@.len(),
    ensures
        snake@[id].prev() matches Some(prev) && 0 <= prev < snake@.len() && prev != id,
        snake@[id].prev() == Some(snake.chain()[snake.rank()[id] - 1]),
        1 <= snake.rank()[id] < snake@.len(),
        snake.rank()[snake.chain()[snake.rank()[id] - 1]] == snake.rank()[id] - 1,
{
    let r = snake.rank()[id];
    // The head alone is listed first, so a segment is listed after another
    // piece, and that piece is another than the segment.
    assert(snake.chain()[r] == id);
    assert(snake.rank()[snake.chain()[0]] == 0);
    assert(snake.rank()[snake.chain()[r - 1]] == r - 1);
}

/// The head is the only piece that is a head.
pub proof fn lemma_one_head(snake: &Snake, id: int)
    requires
        snake.wf(),
        0 <= id < snake@.len(),
    ensures
        snake@[id].kind is Head <==> id == 0,
{
    if id > 0 {
        lemma_links_in_range(snake, id);
    }
}

/// One segment follows the head, and no other does.
pub proof fn lemma_one_follower_of_head(snake: &Snake, id: int)
    requires
        snake.wf(),
        0 <= id < snake@.len(),
    ensures
        snake@[id].prev() == Some(0int) <==> id == snake.chain()[1],
        1 <= snake.chain()[1] < snake@.len(),
        snake.rank()[snake.chain()[1]] == 1,
{
    assert(snake.rank()[snake.chain()[0]] == 0);
    assert(snake.rank()[snake.chain()[1]] == 1);
    if id > 0 {
        lemma_links_in_range(snake, id);
        // A segment that follows the head is listed right after it.
        assert(snake.chain()[snake.rank()[id]] == id);
    }
}

/// Each link leads one place nearer to the head in the chain.
pub proof fn lemma_walk_nears_head(snake: &Snake, id: int, steps: nat)
    requires
        snake.wf(),
        0 <= id < snake@.len(),
        steps <= snake.rank()[id],
    ensures
        0 <= walk(snake@, id, steps) < snake@.len(),
        snake.rank()[walk(snake@, id, steps)] == snake.rank()[id] - steps,
    decreases steps,
{
    if steps > 0 {
        assert(snake.rank()[snake.chain()[0]] == 0);
        lemma_links_in_range(snake, id);
        let prev = snake.chain()[snake.rank()[id] - 1];
        lemma_walk_nears_head(snake, prev, (steps - 1) as nat);
    }
}

/// The links form no cycle and end at the head: from any piece, as many
/// links as its place in the chain says lead to the head, and none of the
/// pieces on the way is the piece itself.
pub proof fn lemma_links_end_at_head(snake: &Snake, id: int)
    requires
        snake.wf(),
        0 <= id < snake@.len(),
    ensures
        walk(snake@, id, snake.rank()[id] as nat) == 0,
        forall|steps: nat|
            0 < steps <= snake.rank()[id] ==> #[trigger] walk(snake@, id, steps) != id,
{
    lemma_walk_nears_head(snake, id, snake.rank()[id] as nat);
    let head = walk(snake@, id, snake.rank()[id] as nat);
    // The piece that is listed first is the head.
    assert(snake.chain()[snake.rank()[head]] == head);
    assert forall|steps: nat| 0 < steps <= snake.rank()[id] implies #[trigger] walk(
        snake@,
        id,
        steps,
    ) != id by {
        lemma_walk_nears_head(snake, id, steps);
    }
}

} // verus!
