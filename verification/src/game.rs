//! The game as a whole: how it starts, and what one tick does to it.

use vstd::prelude::*;

use bevy::input::keyboard::KeyCode;
use bevy::input::Input;

use crate::component::{Apple, SnakePiece};
use crate::event::{EatAppleEvent, ElongateEvent, StepEvent, UpdateDirectionEvent, WinEvent};
use crate::grid::GridPosition;
use crate::keyboard::just_pressed_keys;
use crate::resource::ExcludeSnakeDistribution;
use crate::snake::{lemma_links_in_range, Snake};
use crate::system::{
    control_snake, eat_apple, elongate_body, elongated, elongated_once, grown_chain, head_turn,
    heading, lemma_tail_turns_in_range, move_eaten_apple, move_snake, moved, positions_of,
    propagated, rotate_snake_sprite, rotated, steered_by_all, tail_turns,
    update_exclude_snake_distribution, update_tail_direction,
};

verus! {

/// How far the game has come on its way to being played.
#[derive(Clone, Copy, Debug, PartialEq, Eq, Hash, Structural)]
pub enum AppState {
    /// The images of the sprites are being loaded.
    LoadHandles,
    /// The images are there, and the pieces are being set up.
    Setup,
    /// The game is being played.
    Ready,
}

impl Default for AppState {
    fn default() -> (state: AppState)
        ensures
            state == AppState::LoadHandles,
    {
        AppState::LoadHandles
    }
}

impl AppState {
    /// The state after the images have been asked for: once they are all
    /// loaded, the setting up begins.
    pub open spec fn after_check(self, loaded: bool) -> AppState {
        if self == AppState::LoadHandles && loaded {
            AppState::Setup
        } else {
            self
        }
    }

    /// The state after the pieces have been set up: the game begins.
    pub open spec fn after_setup(self) -> AppState {
        if self == AppState::Setup {
            AppState::Ready
        } else {
            self
        }
    }

    /// Whether the snake moves, turns and eats in this state.
    pub fn runs_game(self) -> (runs: bool)
        ensures
            runs <==> self == AppState::Ready,
    {
        self == AppState::Ready
    }
}

/// While the images are being loaded, goes on to the setting up as soon as
/// all of them are there.
pub fn check_textures(state: AppState, loaded: bool) -> (next: AppState)
    ensures
        next == state.after_check(loaded),
{
    if state == AppState::LoadHandles && loaded {
        AppState::Setup
    } else {
        state
    }
}

/// The snake, the apple, and what is kept from one tick to the next.
pub struct World {
    pub snake: Snake,
    pub apple: Apple,
    /// The cells that the apple must not be put on.
    pub exclude_snake_distribution: ExcludeSnakeDistribution,
    /// The growth of the snake since it last moved.
    pub elongate_ev: Vec<ElongateEvent>,
}

/// What a tick has to tell.
pub struct TickEvents {
    pub update_direction: Vec<UpdateDirectionEvent>,
    pub step: Vec<StepEvent>,
    pub eat_apple: Vec<EatAppleEvent>,
    pub win: Vec<WinEvent>,
}

impl World {
    /// The snake is whole.
    pub open spec fn wf(&self) -> bool {
        self.snake.wf()
    }

    /// The pieces after the snake has moved.
    pub open spec fn after_move(&self) -> Seq<SnakePiece> {
        moved(self.snake@, self.elongate_ev@.len() == 0)
    }

    /// The turns that a tick tells of: that of the head, then those of the
    /// body segments.
    pub open spec fn turns(&self) -> Seq<UpdateDirectionEvent> {
        head_turn(self.snake@[0]) + tail_turns(self.after_move(), self.snake@.len())
    }

    /// The pieces after the snake has moved, the directions have been handed
    /// down the chain, and the sprites have been turned.
    pub open spec fn after_step(&self) -> Seq<SnakePiece> {
        rotated(propagated(self.after_move()), self.turns())
    }

    /// The head reaches the apple at this tick.
    pub open spec fn eats(&self) -> bool {
        self.after_step()[0].position == self.apple.position
    }

    /// A tick can lead from this world to the world `next` and tell `events`.
    ///
    /// The snake steps. The cells that it is on then are noted as those that
    /// the apple must not be put on. If the head has reached the apple, the
    /// snake grows by one segment behind the head, and the apple is on a free
    /// cell afterwards, whichever was taken for it; where no cell is free,
    /// the apple stays and the game is won.
    pub open spec fn ticks_to(&self, next: &World, events: &TickEvents) -> bool {
        &&& events.step@ == seq![StepEvent]
        &&& events.update_direction@ == self.turns()
        &&& events.eat_apple@ == if self.eats() {
            seq![EatAppleEvent(self.apple.id)]
        } else {
            Seq::empty()
        }
        &&& next.snake@ == if self.eats() {
            elongated_once(self.after_step(), self.snake.chain()[1])
        } else {
            self.after_step()
        }
        &&& next.snake.chain() == if self.eats() {
            self.snake.chain().insert(1, self.snake@.len() as int)
        } else {
            self.snake.chain()
        }
        &&& next.exclude_snake_distribution.positions@ == positions_of(self.after_step())
        &&& next.elongate_ev@ == if self.eats() {
            seq![ElongateEvent]
        } else {
            Seq::empty()
        }
        &&& next.apple.id == self.apple.id
        &&& if !self.eats() {
            next.apple == self.apple && events.win@ == Seq::<WinEvent>::empty()
        } else if next.exclude_snake_distribution.covers_field() {
            next.apple == self.apple && events.win@ == seq![WinEvent]
        } else {
            next.exclude_snake_distribution.free(next.apple.position) && events.win@
                == Seq::<WinEvent>::empty()
        }
    }

    /// Nothing differs between this world and the world `next`.
    pub open spec fn same_as(&self, next: &World) -> bool {
        &&& next.snake@ == self.snake@
        &&& next.snake.chain() == self.snake.chain()
        &&& next.apple == self.apple
        &&& next.exclude_snake_distribution.positions@ == self.exclude_snake_distribution.positions@
        &&& next.elongate_ev@ == self.elongate_ev@
    }
}

/// The game at its start: the snake in the middle of the field, the apple
/// under its head.
pub fn setup(state: AppState) -> (started: (World, AppState))
    ensures
        started.0.wf(),
        started.0.snake@ == Snake::initial_pieces(),
        started.0.snake.chain() == seq![0int, 1int],
        started.0.apple == (Apple { id: 0, position: GridPosition { x: 0, y: 0 } }),
        started.0.exclude_snake_distribution.positions@ == Seq::<GridPosition>::empty(),
        started.0.elongate_ev@ == Seq::<ElongateEvent>::empty(),
        started.1 == state.after_setup(),
{
    let world = World {
        snake: Snake::new(),
        apple: Apple { id: 0, position: GridPosition { x: 0, y: 0 } },
        exclude_snake_distribution: ExcludeSnakeDistribution { positions: Vec::new() },
        elongate_ev: Vec::new(),
    };
    let next = if state == AppState::Setup {
        AppState::Ready
    } else {
        state
    };
    (world, next)
}

/// One tick: the snake moves, the directions are handed down the chain, the
/// sprites are turned, the cells of the snake are noted, and if the head has
/// reached the apple, the apple is put elsewhere, or the game is won, and the
/// snake grows.
pub fn tick(world: &mut World) -> (events: TickEvents)
    requires
        old(world).wf(),
    ensures
        final(world).wf(),
        old(world).ticks_to(final(world), &events),
        final(world).snake@.len() >= old(world).snake@.len(),
{
    let mut update_direction: Vec<UpdateDirectionEvent> = Vec::new();
    let mut step: Vec<StepEvent> = Vec::new();
    let mut eat: Vec<EatAppleEvent> = Vec::new();
    let mut win: Vec<WinEvent> = Vec::new();
    let ghost n = world.snake@.len();

    move_snake(&mut world.snake, &mut update_direction, &mut step, &mut world.elongate_ev);
    update_tail_direction(&mut world.snake, &mut update_direction);
    assert(update_direction@ =~= old(world).turns());
    assert(step@ =~= seq![StepEvent]);
    proof {
        lemma_tail_turns_in_range(old(world).after_move(), n);
    }
    rotate_snake_sprite(&update_direction, &mut world.snake);
    update_exclude_snake_distribution(&step, &world.snake, &mut world.exclude_snake_distribution);
    eat_apple(&step, &world.snake, &world.apple, &mut eat);
    assert(eat@ =~= if old(world).eats() {
        seq![EatAppleEvent(old(world).apple.id)]
    } else {
        Seq::empty()
    });
    move_eaten_apple(&eat, &mut world.apple, &world.exclude_snake_distribution, &mut win);
    proof {
        if old(world).eats() && world.exclude_snake_distribution.covers_field() {
            assert(win@ =~= seq![WinEvent]);
        }
    }
    elongate_body(&eat, &mut world.snake, &mut world.elongate_ev);
    proof {
        reveal_with_fuel(elongated, 2);
        reveal_with_fuel(grown_chain, 2);
        if old(world).eats() {
            assert(world.elongate_ev@ =~= seq![ElongateEvent]);
        } else {
            assert(world.elongate_ev@ =~= Seq::<ElongateEvent>::empty());
        }
    }
    TickEvents { update_direction, step, eat_apple: eat, win }
}

/// A tick of the game if it is being played; nothing else.
pub fn fixed_update(state: AppState, world: &mut World) -> (events: Option<TickEvents>)
    requires
        old(world).wf(),
    ensures
        final(world).wf(),
        final(world).snake@.len() >= old(world).snake@.len(),
        match events {
            Some(events) => state == AppState::Ready && old(world).ticks_to(final(world), &events),
            None => state != AppState::Ready && old(world).same_as(final(world)),
        },
{
    if state.runs_game() {
        Some(tick(world))
    } else {
        None
    }
}

/// Between two ticks: turns the head by the keys that were pressed, if the
/// game is being played.
pub fn update(state: AppState, keyboard_input: &Input<KeyCode>, world: &mut World)
    requires
        old(world).wf(),
    ensures
        final(world).wf(),
        final(world).snake.chain() == old(world).snake.chain(),
        final(world).apple == old(world).apple,
        final(world).exclude_snake_distribution.positions@ == old(
            world).exclude_snake_distribution.positions@,
        final(world).elongate_ev@ == old(world).elongate_ev@,
        state != AppState::Ready ==> final(world).snake@ == old(world).snake@,
        state == AppState::Ready ==> exists|keys: Seq<KeyCode>|
            keys.to_set() == just_pressed_keys(*keyboard_input) && keys.no_duplicates()
                && final(world).snake@ == heading(
                old(world).snake@,
                #[trigger] steered_by_all(old(world).snake@[0].direction, keys),
            ),
{
    if state.runs_game() {
        control_snake(keyboard_input, &mut world.snake);
    }
}

/// At the end of a step every body segment heads the way that the piece
/// before it in the chain headed when the tick began, whatever way that
/// piece takes at this tick; the head heads as before. Nothing but the step
/// of a cell has moved a piece, and no piece has come or gone.
pub proof fn lemma_step_hands_directions_down(world: &World, id: int)
    requires
        world.wf(),
        0 <= id < world.snake@.len(),
    ensures
        world.after_step().len() == world.snake@.len(),
        world.after_step()[id].kind == world.after_move()[id].kind,
        world.after_step()[id].position == world.after_move()[id].position,
        world.snake@[id].prev() matches Some(prev) ==> world.after_step()[id].direction
            == world.snake@[prev].direction,
        id == 0 ==> world.after_step()[id].direction == world.snake@[id].direction,
{
    if id > 0 {
        lemma_links_in_range(&world.snake, id);
    }
}

/// After a tick at which the head has reached the apple, the snake is one
/// piece longer, and the apple is on none of the cells of the snake, unless
/// the snake was on every cell of the field; after any other tick the snake
/// is as long as before.
pub proof fn lemma_tick_grows_and_moves_apple(world: &World, next: &World, events: &TickEvents)
    requires
        world.wf(),
        world.ticks_to(next, events),
    ensures
        next.snake@.len() == world.snake@.len() + if world.eats() {
            1int
        } else {
            0int
        },
        world.eats() && !next.exclude_snake_distribution.covers_field() ==> forall|id: int|
            0 <= id < next.snake@.len() ==> (#[trigger] next.snake@[id]).position
                != next.apple.position,
{
    if world.eats() && !next.exclude_snake_distribution.covers_field() {
        let stepped = world.after_step();
        let positions = positions_of(stepped);
        assert forall|id: int| 0 <= id < next.snake@.len() implies (#[trigger] next.snake@[id])
            .position != next.apple.position by {
            // The new segment is on the head's cell; every other piece is
            // where it was when the cells of the snake were noted.
            let at = if id < stepped.len() {
                id
            } else {
                0
            };
            assert(next.snake@[id].position == stepped[at].position);
            assert(positions[at] == stepped[at].position);
            assert(positions.contains(next.snake@[id].position));
        }
    }
}

} // verus!
