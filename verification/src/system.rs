//! The steps of a tick, each on the state that it reads and changes.

use vstd::prelude::*;

use bevy::input::keyboard::KeyCode;
use bevy::input::Input;

use crate::component::{
    Apple, MoveDirection, PieceKind, PrevDirection, PrevId, SnakeHead, SnakePiece, SnakeTail,
};
use crate::event::{EatAppleEvent, ElongateEvent, StepEvent, UpdateDirectionEvent, WinEvent};
use crate::grid::{translate, GridPosition};
use crate::keyboard::{arrow, arrow_of, just_pressed, just_pressed_keys};
use crate::resource::ExcludeSnakeDistribution;
use crate::snake::{lemma_links_in_range, Snake};
use crate::snapshot::{snapshot_entries, snapshot_index, snapshot_insert, snapshot_new};

verus! {

/// A piece after the snake has moved: the head is a cell further in its
/// direction and remembers that direction; a body segment is a cell further
/// in its own direction if the body advances at this tick.
pub open spec fn moved_piece(piece: SnakePiece, advance_body: bool) -> SnakePiece {
    match piece.kind {
        PieceKind::Head(_) => SnakePiece {
            position: piece.position.translated(piece.direction),
            kind: PieceKind::Head(SnakeHead(PrevDirection(Some(piece.direction)))),
            ..piece
        },
        PieceKind::Tail(_, _) => if advance_body {
            SnakePiece { position: piece.position.translated(piece.direction), ..piece }
        } else {
            piece
        },
    }
}

/// The pieces after the snake has moved.
pub open spec fn moved(pieces: Seq<SnakePiece>, advance_body: bool) -> Seq<SnakePiece> {
    Seq::new(pieces.len(), |i: int| moved_piece(pieces[i], advance_body))
}

/// The event that tells of the head's turn: one if the head moved before
/// and moves another way now, none else.
pub open spec fn head_turn(head: SnakePiece) -> Seq<UpdateDirectionEvent> {
    match head.kind {
        PieceKind::Head(SnakeHead(PrevDirection(Some(prev)))) => if prev != head.direction {
            seq![UpdateDirectionEvent(0)]
        } else {
            Seq::empty()
        },
        _ => Seq::empty(),
    }
}

/// Moves the head one cell in its direction, and each body segment one cell
/// in its own, around the field. The body stays where it is if the snake has
/// grown since it last moved: the new segment is on its cell already.
/// Tells of the step, and of the head's turn if it moves another way than
/// at the tick before.
pub fn move_snake(
    snake: &mut Snake,
    update_direction_ev: &mut Vec<UpdateDirectionEvent>,
    step_ev: &mut Vec<StepEvent>,
    elongate_ev: &mut Vec<ElongateEvent>,
)
    requires
        old(snake).wf(),
    ensures
        final(snake).wf(),
        final(snake).chain() == old(snake).chain(),
        final(snake)@ == moved(old(snake)@, old(elongate_ev)@.len() == 0),
        final(update_direction_ev)@ == old(update_direction_ev)@ + head_turn(old(snake)@[0]),
        final(step_ev)@ == old(step_ev)@.push(StepEvent),
        final(elongate_ev)@.len() == 0,
{
    let ghost before = snake@;
    let id = Snake::head_id();
    let head = snake.head();
    let direction = head.direction;
    let mut position = head.position;
    translate(&mut position, direction);
    snake.set_position(id, position);
    if let PieceKind::Head(SnakeHead(PrevDirection(Some(prev_direction)))) = head.kind {
        if prev_direction != direction {
            update_direction_ev.push(UpdateDirectionEvent(id));
            snake.set_prev_direction(PrevDirection(Some(direction)));
        }
    } else {
        snake.set_prev_direction(PrevDirection(Some(direction)));
    }

    if elongate_ev.is_empty() {
        let n = snake.len();
        let mut i: usize = 1;
        while i < n
            invariant
                snake.wf(),
                snake.chain() == old(snake).chain(),
                before == old(snake)@,
                old(snake).wf(),
                n == before.len(),
                snake@.len() == n,
                1 <= i <= n,
                snake@[0] == moved_piece(before[0], true),
                forall|j: int| 1 <= j < i ==> snake@[j] == moved_piece(before[j], true),
                forall|j: int| i <= j < n ==> snake@[j] == before[j],
            decreases n - i,
        {
            let piece = snake.piece(i);
            let mut position = piece.position;
            translate(&mut position, piece.direction);
            snake.set_position(i, position);
            i = i + 1;
        }
    } else {
        elongate_ev.clear();
    }
    step_ev.push(StepEvent);
}

/// The cells that the pieces are on, each at the id of its piece.
pub open spec fn positions_of(pieces: Seq<SnakePiece>) -> Seq<GridPosition> {
    Seq::new(pieces.len(), |i: int| pieces[i].position)
}

/// After a step, takes the cells that the snake is on now as those that the
/// apple must not be put on.
pub fn update_exclude_snake_distribution(
    step_ev: &Vec<StepEvent>,
    snake: &Snake,
    exclude_snake_distribution: &mut ExcludeSnakeDistribution,
)
    ensures
        final(exclude_snake_distribution).positions@ == if step_ev@.len() > 0 {
            positions_of(snake@)
        } else {
            old(exclude_snake_distribution).positions@
        },
{
    let mut k: usize = 0;
    while k < step_ev.len()
        invariant
            k <= step_ev@.len(),
            exclude_snake_distribution.positions@ == if k > 0 {
                positions_of(snake@)
            } else {
                old(exclude_snake_distribution).positions@
            },
        decreases step_ev@.len() - k,
    {
        let mut positions: Vec<GridPosition> = Vec::new();
        let n = snake.len();
        let mut i: usize = 0;
        while i < n
            invariant
                n == snake@.len(),
                i <= n,
                positions@.len() == i,
                forall|j: int| 0 <= j < i ==> positions@[j] == snake@[j].position,
            decreases n - i,
        {
            positions.push(snake.piece(i).position);
            i = i + 1;
        }
        exclude_snake_distribution.positions = positions;
        k = k + 1;
    }
}

/// The segment `i` of `pieces` follows a piece that heads another way than
/// the segment itself.
pub open spec fn lags(pieces: Seq<SnakePiece>, i: int) -> bool {
    pieces[i].prev() matches Some(prev) && pieces[prev].direction != pieces[i].direction
}

/// The piece `i` after the directions have been handed down the chain: a body
/// segment heads the way that the piece before it in the chain headed.
pub open spec fn propagated_piece(pieces: Seq<SnakePiece>, i: int) -> SnakePiece {
    match pieces[i].prev() {
        Some(prev) => SnakePiece { direction: pieces[prev].direction, ..pieces[i] },
        None => pieces[i],
    }
}

/// The pieces after the directions have been handed down the chain, each
/// segment taking the direction that its predecessor had before any was
/// handed down.
pub open spec fn propagated(pieces: Seq<SnakePiece>) -> Seq<SnakePiece> {
    Seq::new(pieces.len(), |i: int| propagated_piece(pieces, i))
}

/// The events that tell which of the first `n` pieces change direction when
/// the directions are handed down, by ascending id.
pub open spec fn tail_turns(pieces: Seq<SnakePiece>, n: nat) -> Seq<UpdateDirectionEvent>
    decreases n,
{
    if n == 0 {
        Seq::empty()
    } else {
        let i = (n - 1) as nat;
        if lags(pieces, i as int) {
            tail_turns(pieces, i).push(UpdateDirectionEvent(i as usize))
        } else {
            tail_turns(pieces, i)
        }
    }
}

/// Every id that the turns of the first `n` pieces name is below `n`.
pub proof fn lemma_tail_turns_in_range(pieces: Seq<SnakePiece>, n: nat)
    requires
        n <= usize::MAX,
    ensures
        forall|k: int|
            0 <= k < tail_turns(pieces, n).len() ==> (#[trigger] tail_turns(pieces, n)[k]).0 < n,
    decreases n,
{
    if n > 0 {
        let before = tail_turns(pieces, (n - 1) as nat);
        lemma_tail_turns_in_range(pieces, (n - 1) as nat);
        assert forall|k: int| 0 <= k < tail_turns(pieces, n).len() implies (#[trigger] tail_turns(
            pieces,
            n,
        )[k]).0 < n by {
            if k < before.len() {
                assert(tail_turns(pieces, n)[k] == before[k]);
            }
        }
    }
}

/// The turns of the first `n` pieces name the piece `id` if and only if it is
/// one of them and follows a piece that heads another way.
pub proof fn lemma_tail_turns_name_the_lagging(pieces: Seq<SnakePiece>, n: nat, id: usize)
    requires
        n <= usize::MAX,
    ensures
        tail_turns(pieces, n).contains(UpdateDirectionEvent(id)) <==> id < n && lags(
            pieces,
            id as int,
        ),
    decreases n,
{
    if n > 0 {
        let before = tail_turns(pieces, (n - 1) as nat);
        let turns = tail_turns(pieces, n);
        let event = UpdateDirectionEvent(id);
        lemma_tail_turns_name_the_lagging(pieces, (n - 1) as nat, id);
        lemma_tail_turns_in_range(pieces, (n - 1) as nat);
        if before.contains(event) {
            let k = choose|k: int| 0 <= k < before.len() && before[k] == event;
            assert(turns[k] == event);
        }
        if turns.contains(event) {
            let k = choose|k: int| 0 <= k < turns.len() && turns[k] == event;
            if k < before.len() {
                assert(before[k] == event);
            }
        }
        if id == n - 1 && lags(pieces, id as int) {
            assert(turns[before.len() as int] == event);
        }
    }
}

/// The record `entries` holds, under the id of the piece that the segment `j`
/// follows, the direction of that piece in `pieces`.
spec fn holds_predecessor(
    entries: Map<usize, MoveDirection>,
    pieces: Seq<SnakePiece>,
    j: int,
) -> bool {
    match pieces[j].prev() {
        Some(prev) => entries.dom().contains(prev as usize) && entries[prev as usize]
            == pieces[prev].direction,
        None => false,
    }
}

/// Hands the directions down the chain: each body segment takes the direction
/// that the piece before it had when this step began, and tells of it if
/// that is another than its own.
pub fn update_tail_direction(
    snake: &mut Snake,
    update_direction_ev: &mut Vec<UpdateDirectionEvent>,
)
    requires
        old(snake).wf(),
    ensures
        final(snake).wf(),
        final(snake).chain() == old(snake).chain(),
        final(snake)@ == propagated(old(snake)@),
        final(update_direction_ev)@ == old(update_direction_ev)@ + tail_turns(
            old(snake)@,
            old(snake)@.len(),
        ),
{
    let ghost before = snake@;
    let n = snake.len();
    let mut prev_directions = snapshot_new();
    let mut i: usize = 1;
    while i < n
        invariant
            snake.wf(),
            snake@ == before,
            n == before.len(),
            1 <= i <= n,
            forall|j: int|
                1 <= j < i ==> #[trigger] holds_predecessor(
                    snapshot_entries(prev_directions),
                    before,
                    j,
                ),
        decreases n - i,
    {
        proof {
            lemma_links_in_range(snake, i as int);
        }
        let ghost recorded = snapshot_entries(prev_directions);
        if let PieceKind::Tail(_, PrevId(prev_id)) = snake.piece(i).kind {
            snapshot_insert(&mut prev_directions, prev_id, snake.piece(prev_id).direction);
        }
        assert forall|j: int| 1 <= j < i + 1 implies #[trigger] holds_predecessor(
            snapshot_entries(prev_directions),
            before,
            j,
        ) by {
            if j < i {
                assert(holds_predecessor(recorded, before, j));
            }
        }
        i = i + 1;
    }
    assert(tail_turns(before, 1) =~= Seq::<UpdateDirectionEvent>::empty()) by {
        reveal_with_fuel(tail_turns, 2);
    }
    i = 1;
    while i < n
        invariant
            snake.wf(),
            old(snake).wf(),
            before == old(snake)@,
            snake.chain() == old(snake).chain(),
            n == before.len(),
            snake@.len() == n,
            1 <= i <= n,
            snake@[0] == before[0],
            forall|j: int| 1 <= j < i ==> snake@[j] == propagated_piece(before, j),
            forall|j: int| i <= j < n ==> snake@[j] == before[j],
            update_direction_ev@ == old(update_direction_ev)@ + tail_turns(before, i as nat),
            forall|j: int|
                1 <= j < n ==> #[trigger] holds_predecessor(
                    snapshot_entries(prev_directions),
                    before,
                    j,
                ),
        decreases n - i,
    {
        let piece = snake.piece(i);
        proof {
            lemma_links_in_range(old(snake), i as int);
            assert(holds_predecessor(snapshot_entries(prev_directions), before, i as int));
        }
        if let PieceKind::Tail(_, PrevId(prev_id)) = piece.kind {
            let prev_direction = snapshot_index(&prev_directions, prev_id);
            if piece.direction != prev_direction {
                snake.set_direction(i, prev_direction);
                update_direction_ev.push(UpdateDirectionEvent(i));
            }
        }
        assert(update_direction_ev@ =~= old(update_direction_ev)@ + tail_turns(
            before,
            (i + 1) as nat,
        ));
        i = i + 1;
    }
}

/// The direction of the head after the key `key` has been pressed: the way
/// of an arrow key, unless that is straight back; as before for another key.
pub open spec fn steered(direction: MoveDirection, key: KeyCode) -> MoveDirection {
    match arrow(key) {
        Some(pressed) => if pressed == direction.reversed() {
            direction
        } else {
            pressed
        },
        None => direction,
    }
}

/// The direction of the head after the keys `keys` have been pressed one
/// after the other.
pub open spec fn steered_by_all(direction: MoveDirection, keys: Seq<KeyCode>) -> MoveDirection
    decreases keys.len(),
{
    if keys.len() == 0 {
        direction
    } else {
        steered(steered_by_all(direction, keys.drop_last()), keys.last())
    }
}

/// The pieces with the head heading in `direction`.
pub open spec fn heading(pieces: Seq<SnakePiece>, direction: MoveDirection) -> Seq<SnakePiece> {
    pieces.update(0, SnakePiece { direction, ..pieces[0] })
}

/// Turns the head by the keys `keys`, taken in their order: an arrow key
/// turns the head its way unless that is straight back from where the head is
/// heading by then.
pub fn steer(keys: &Vec<KeyCode>, snake: &mut Snake)
    requires
        old(snake).wf(),
    ensures
        final(snake).wf(),
        final(snake).chain() == old(snake).chain(),
        final(snake)@ == heading(old(snake)@, steered_by_all(old(snake)@[0].direction, keys@)),
{
    let mut direction = snake.head().direction;
    let mut k: usize = 0;
    while k < keys.len()
        invariant
            k <= keys@.len(),
            direction == steered_by_all(old(snake)@[0].direction, keys@.take(k as int)),
        decreases keys@.len() - k,
    {
        assert(keys@.take(k + 1).drop_last() =~= keys@.take(k as int));
        if let Some(pressed) = arrow_of(keys[k]) {
            if pressed != direction.reverse() {
                direction = pressed;
            }
        }
        k = k + 1;
    }
    assert(keys@.take(keys@.len() as int) =~= keys@);
    snake.set_direction(Snake::head_id(), direction);
}

/// Turns the head by the keys that were pressed since the last frame, in the
/// order in which the keyboard hands them out.
pub fn control_snake(keyboard_input: &Input<KeyCode>, snake: &mut Snake)
    requires
        old(snake).wf(),
    ensures
        final(snake).wf(),
        final(snake).chain() == old(snake).chain(),
        exists|keys: Seq<KeyCode>|
            keys.to_set() == just_pressed_keys(*keyboard_input) && keys.no_duplicates()
                && final(snake)@ == heading(
                old(snake)@,
                #[trigger] steered_by_all(old(snake)@[0].direction, keys),
            ),
{
    let keys = just_pressed(keyboard_input);
    steer(&keys, snake);
}

/// The pieces after the sprite of each piece that an event names has been
/// turned the way the piece is heading.
pub open spec fn rotated(pieces: Seq<SnakePiece>, events: Seq<UpdateDirectionEvent>) -> Seq<
    SnakePiece,
> {
    Seq::new(
        pieces.len(),
        |i: int|
            if events.contains(UpdateDirectionEvent(i as usize)) {
                SnakePiece { rotation: pieces[i].direction, ..pieces[i] }
            } else {
                pieces[i]
            },
    )
}

/// Turns the sprite of each piece that has changed its direction the way the
/// piece is heading now.
pub fn rotate_snake_sprite(update_direction_ev: &Vec<UpdateDirectionEvent>, snake: &mut Snake)
    requires
        old(snake).wf(),
        forall|k: int|
            0 <= k < update_direction_ev@.len() ==> (#[trigger] update_direction_ev@[k]).0
                < old(snake)@.len(),
    ensures
        final(snake).wf(),
        final(snake).chain() == old(snake).chain(),
        final(snake)@ == rotated(old(snake)@, update_direction_ev@),
{
    let ghost before = snake@;
    let n = snake.len();
    let mut k: usize = 0;
    while k < update_direction_ev.len()
        invariant
            snake.wf(),
            snake.chain() == old(snake).chain(),
            before == old(snake)@,
            n == before.len(),
            k <= update_direction_ev@.len(),
            forall|k: int|
                0 <= k < update_direction_ev@.len() ==> (#[trigger] update_direction_ev@[k]).0 < n,
            snake@ == rotated(before, update_direction_ev@.take(k as int)),
        decreases update_direction_ev@.len() - k,
    {
        let UpdateDirectionEvent(id) = update_direction_ev[k];
        let direction = snake.piece(id).direction;
        snake.set_rotation(id, direction);
        proof {
            let done = update_direction_ev@.take(k as int);
            let next = update_direction_ev@.take(k + 1);
            // An event is among the first `k + 1` if and only if it is among
            // the first `k` or is the one just handled.
            assert forall|i: int| 0 <= i < n implies #[trigger] snake@[i] == rotated(
                before,
                next,
            )[i] by {
                let event = UpdateDirectionEvent(i as usize);
                if done.contains(event) {
                    let at = choose|at: int| 0 <= at < done.len() && done[at] == event;
                    assert(next[at] == event);
                }
                if next.contains(event) {
                    let at = choose|at: int| 0 <= at < next.len() && next[at] == event;
                    if at < k {
                        assert(done[at] == event);
                    }
                }
                if i == id {
                    assert(next[k as int] == event);
                }
            }
        }
        k = k + 1;
    }
    assert(update_direction_ev@.take(update_direction_ev@.len() as int) =~= update_direction_ev@);
}

/// The events that tell that the apple has been reached: one for each step,
/// if the head is on the apple's cell.
pub open spec fn eaten(steps: nat, head: GridPosition, apple: Apple) -> Seq<EatAppleEvent> {
    if head == apple.position {
        Seq::new(steps, |k: int| EatAppleEvent(apple.id))
    } else {
        Seq::empty()
    }
}

/// After a step, tells whether the head has reached the apple: whether it
/// is on the very cell of the apple.
pub fn eat_apple(
    step_ev: &Vec<StepEvent>,
    snake: &Snake,
    apple: &Apple,
    eat_apple_ev: &mut Vec<EatAppleEvent>,
)
    requires
        snake.wf(),
    ensures
        final(eat_apple_ev)@ == old(eat_apple_ev)@ + eaten(
            step_ev@.len(),
            snake@[0].position,
            *apple,
        ),
{
    let head = snake.head();
    let mut k: usize = 0;
    while k < step_ev.len()
        invariant
            k <= step_ev@.len(),
            head == snake@[0],
            eat_apple_ev@ == old(eat_apple_ev)@ + eaten(k as nat, head.position, *apple),
        decreases step_ev@.len() - k,
    {
        if head.position.x == apple.position.x && head.position.y == apple.position.y {
            eat_apple_ev.push(EatAppleEvent(apple.id));
        }
        assert(eat_apple_ev@ =~= old(eat_apple_ev)@ + eaten(
            (k + 1) as nat,
            head.position,
            *apple,
        ));
        k = k + 1;
    }
}

/// Puts the apple on the cell that was taken for it; where none was left to
/// take, tells that the game is won and leaves the apple where it is.
pub fn place_apple(sampled: Option<GridPosition>, apple: &mut Apple, win_ev: &mut Vec<WinEvent>)
    ensures
        sampled matches Some(position) ==> *final(apple) == (Apple { position, ..*old(apple) })
            && final(win_ev)@ == old(win_ev)@,
        sampled is None ==> *final(apple) == *old(apple) && final(win_ev)@ == old(win_ev)@.push(
            WinEvent,
        ),
{
    if let Some(position) = sampled {
        apple.position = position;
    } else {
        win_ev.push(WinEvent);
    }
}

/// For each time that the apple has been reached, puts it on a cell taken
/// at random from those that `distribution` leaves free, or tells that the
/// game is won where it leaves none.
pub fn move_eaten_apple(
    eat_apple_ev: &Vec<EatAppleEvent>,
    apple: &mut Apple,
    distribution: &ExcludeSnakeDistribution,
    win_ev: &mut Vec<WinEvent>,
)
    requires
        !distribution.covers_field() ==> forall|k: int|
            0 <= k < eat_apple_ev@.len() ==> (#[trigger] eat_apple_ev@[k]).0 == old(apple).id,
    ensures
        final(apple).id == old(apple).id,
        eat_apple_ev@.len() == 0 ==> *final(apple) == *old(apple) && final(win_ev)@ == old(
            win_ev)@,
        eat_apple_ev@.len() > 0 && distribution.covers_field() ==> *final(apple) == *old(apple)
            && final(win_ev)@ == old(win_ev)@ + Seq::new(eat_apple_ev@.len(), |k: int| WinEvent),
        eat_apple_ev@.len() > 0 && !distribution.covers_field() ==> distribution.free(
            final(apple).position,
        ) && final(win_ev)@ == old(win_ev)@,
{
    let mut rng = rand::thread_rng();
    let mut k: usize = 0;
    while k < eat_apple_ev.len()
        invariant
            k <= eat_apple_ev@.len(),
            apple.id == old(apple).id,
            k == 0 ==> *apple == *old(apple) && win_ev@ == old(win_ev)@,
            k > 0 && distribution.covers_field() ==> *apple == *old(apple) && win_ev@ == old(
                win_ev)@ + Seq::new(k as nat, |k: int| WinEvent),
            k > 0 && !distribution.covers_field() ==> distribution.free(apple.position) && win_ev@
                == old(win_ev)@,
        decreases eat_apple_ev@.len() - k,
    {
        let sampled = distribution.sample(&mut rng);
        place_apple(sampled, apple, win_ev);
        k = k + 1;
    }
}

/// The pieces after the snake has grown by one segment behind the head, where
/// `follower` is the id of the segment that followed the head until then.
pub open spec fn elongated_once(pieces: Seq<SnakePiece>, follower: int) -> Seq<SnakePiece> {
    pieces.update(follower, pieces[follower].relinked(pieces.len() as usize)).push(
        SnakePiece { kind: PieceKind::Tail(SnakeTail::Middle, PrevId(0)), ..pieces[0] },
    )
}

/// The pieces after the snake has grown `times` times behind the head.
pub open spec fn elongated(pieces: Seq<SnakePiece>, follower: int, times: nat) -> Seq<SnakePiece>
    decreases times,
{
    if times == 0 {
        pieces
    } else {
        elongated(elongated_once(pieces, follower), pieces.len() as int, (times - 1) as nat)
    }
}

/// The chain after the snake has grown `times` times behind the head.
pub open spec fn grown_chain(chain: Seq<int>, times: nat) -> Seq<int>
    decreases times,
{
    if times == 0 {
        chain
    } else {
        grown_chain(chain.insert(1, chain.len() as int), (times - 1) as nat)
    }
}

/// For each time that the apple has been reached, makes a new segment on the
/// head's cell, turned and heading as the head is, and puts it into the
/// chain between the head and the segment that followed the head. Tells
/// of each such growth, so that the body stays in place at the next move.
pub fn elongate_body(
    eat_apple_ev: &Vec<EatAppleEvent>,
    snake: &mut Snake,
    elongate_ev: &mut Vec<ElongateEvent>,
)
    requires
        old(snake).wf(),
    ensures
        final(snake).wf(),
        final(snake)@.len() == old(snake)@.len() + eat_apple_ev@.len(),
        final(snake)@ == elongated(old(snake)@, old(snake).chain()[1], eat_apple_ev@.len()),
        final(snake).chain() == grown_chain(old(snake).chain(), eat_apple_ev@.len()),
        final(elongate_ev)@ == old(elongate_ev)@ + Seq::new(
            eat_apple_ev@.len(),
            |k: int| ElongateEvent,
        ),
{
    let ghost times = eat_apple_ev@.len();
    let mut k: usize = 0;
    while k < eat_apple_ev.len()
        invariant
            snake.wf(),
            old(snake).wf(),
            times == eat_apple_ev@.len(),
            k <= times,
            snake@.len() == old(snake)@.len() + k,
            elongated(old(snake)@, old(snake).chain()[1], times) == elongated(
                snake@,
                snake.chain()[1],
                (times - k) as nat,
            ),
            grown_chain(old(snake).chain(), times) == grown_chain(
                snake.chain(),
                (times - k) as nat,
            ),
            elongate_ev@ == old(elongate_ev)@ + Seq::new(k as nat, |k: int| ElongateEvent),
        decreases times - k,
    {
        let ghost pieces = snake@;
        let ghost chain = snake.chain();
        snake.insert_after_head();
        elongate_ev.push(ElongateEvent);
        proof {
            assert(snake@ =~= elongated_once(pieces, chain[1]));
            assert(elongate_ev@ =~= old(elongate_ev)@ + Seq::new(
                (k + 1) as nat,
                |k: int| ElongateEvent,
            ));
        }
        k = k + 1;
    }
}

} // verus!
