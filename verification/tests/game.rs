use bevy::input::keyboard::KeyCode;
use bevy::input::Input;
use snake::component::{MoveDirection, PieceKind, PrevId, SnakeTail};
use snake::event::{EatAppleEvent, ElongateEvent, StepEvent, UpdateDirectionEvent, WinEvent};
use snake::game::{check_textures, fixed_update, setup, tick, update, AppState, World};
use snake::grid::GridPosition;
use snake::STEP_DURATION_MILLIS;

fn ready_world() -> World {
    let (world, state) = setup(AppState::Setup);
    assert_eq!(state, AppState::Ready);
    world
}

fn positions(world: &World) -> Vec<GridPosition> {
    world.snake.pieces().iter().map(|p| p.position).collect()
}

fn pressed(key: KeyCode) -> Input<KeyCode> {
    let mut input = Input::default();
    input.press(key);
    input
}

#[test]
fn step_takes_half_a_second() {
    assert_eq!(STEP_DURATION_MILLIS, 500);
}

#[test]
fn app_state_starts_with_loading() {
    assert_eq!(AppState::default(), AppState::LoadHandles);
    assert!(!AppState::LoadHandles.runs_game());
    assert!(!AppState::Setup.runs_game());
    assert!(AppState::Ready.runs_game());
}

#[test]
fn check_textures_goes_on_once_loaded() {
    assert_eq!(check_textures(AppState::LoadHandles, false), AppState::LoadHandles);
    assert_eq!(check_textures(AppState::LoadHandles, true), AppState::Setup);
    assert_eq!(check_textures(AppState::Setup, true), AppState::Setup);
    assert_eq!(check_textures(AppState::Ready, true), AppState::Ready);
    assert_eq!(check_textures(AppState::Ready, false), AppState::Ready);
}

#[test]
fn setup_makes_the_first_world() {
    let (world, state) = setup(AppState::Setup);
    assert_eq!(state, AppState::Ready);
    assert_eq!(world.snake.len(), 2);
    assert_eq!(positions(&world), vec![GridPosition::new(0, 0), GridPosition::new(0, -1)]);
    assert_eq!(world.snake.head().direction, MoveDirection::Up);
    assert_eq!(world.snake.piece(1).direction, MoveDirection::Up);
    assert!(matches!(world.snake.piece(1).kind, PieceKind::Tail(SnakeTail::End, PrevId(0))));
    assert_eq!(world.apple.position, GridPosition::new(0, 0));
    assert!(world.exclude_snake_distribution.positions.is_empty());
    assert!(world.elongate_ev.is_empty());
}

#[test]
fn setup_leaves_other_states_alone() {
    assert_eq!(setup(AppState::LoadHandles).1, AppState::LoadHandles);
    assert_eq!(setup(AppState::Ready).1, AppState::Ready);
}

#[test]
fn tick_moves_the_snake_one_cell() {
    let mut world = ready_world();
    let events = tick(&mut world);
    assert_eq!(positions(&world), vec![GridPosition::new(0, 1), GridPosition::new(0, 0)]);
    assert_eq!(events.step, vec![StepEvent]);
    assert!(events.update_direction.is_empty());
    assert!(events.eat_apple.is_empty());
    assert!(events.win.is_empty());
    assert_eq!(world.exclude_snake_distribution.positions, positions(&world));
    assert_eq!(world.apple.position, GridPosition::new(0, 0));
}

#[test]
fn head_moving_up_wraps_to_the_same_column_after_a_field_height() {
    let mut world = ready_world();
    world.apple.position = GridPosition::new(7, 7);
    assert_eq!(world.snake.head().position.row(), 0);
    for ticks in 1..=23 {
        tick(&mut world);
        assert_eq!(world.snake.head().position.column(), 0);
        assert_eq!(world.snake.head().position.row(), ticks);
        assert_eq!(world.snake.piece(1).position.row(), ticks - 1);
    }
    assert_eq!(world.snake.head().position.row(), 23);
    tick(&mut world);
    assert_eq!(world.snake.head().position.row(), 0);
    assert_eq!(world.snake.head().position.column(), 0);
    assert_eq!(world.snake.head().position, GridPosition::new(0, 0));
    assert_eq!(world.snake.piece(1).position, GridPosition::new(0, -1));
    assert_eq!(world.snake.len(), 2);
}

#[test]
fn head_moving_up_crosses_the_top_edge() {
    let mut world = ready_world();
    world.apple.position = GridPosition::new(7, 7);
    for _ in 0..12 {
        tick(&mut world);
    }
    assert_eq!(world.snake.head().position, GridPosition::new(0, 12));
    tick(&mut world);
    assert_eq!(world.snake.head().position, GridPosition::new(0, -11));
    assert_eq!(world.snake.piece(1).position, GridPosition::new(0, 12));
}

#[test]
fn reversal_pressed_before_the_next_move_is_rejected() {
    let mut world = ready_world();
    update(AppState::Ready, &pressed(KeyCode::Right), &mut world);
    tick(&mut world);
    assert_eq!(world.snake.head().direction, MoveDirection::Right);
    assert_eq!(world.snake.head().position, GridPosition::new(1, 0));
    update(AppState::Ready, &pressed(KeyCode::Left), &mut world);
    assert_eq!(world.snake.head().direction, MoveDirection::Right);
    tick(&mut world);
    assert_eq!(world.snake.head().position, GridPosition::new(2, 0));
}

#[test]
fn update_is_held_back_until_ready() {
    let mut world = ready_world();
    update(AppState::LoadHandles, &pressed(KeyCode::Right), &mut world);
    assert_eq!(world.snake.head().direction, MoveDirection::Up);
    update(AppState::Setup, &pressed(KeyCode::Right), &mut world);
    assert_eq!(world.snake.head().direction, MoveDirection::Up);
    update(AppState::Ready, &pressed(KeyCode::Right), &mut world);
    assert_eq!(world.snake.head().direction, MoveDirection::Right);
}

#[test]
fn fixed_update_is_held_back_until_ready() {
    let mut world = ready_world();
    assert!(fixed_update(AppState::LoadHandles, &mut world).is_none());
    assert!(fixed_update(AppState::Setup, &mut world).is_none());
    assert_eq!(positions(&world), vec![GridPosition::new(0, 0), GridPosition::new(0, -1)]);
    let events = fixed_update(AppState::Ready, &mut world).unwrap();
    assert_eq!(events.step, vec![StepEvent]);
    assert_eq!(positions(&world), vec![GridPosition::new(0, 1), GridPosition::new(0, 0)]);
}

#[test]
fn a_turn_runs_down_the_body_one_segment_a_tick() {
    let mut world = ready_world();
    world.apple.position = GridPosition::new(0, 2);
    tick(&mut world);
    let events = tick(&mut world);
    assert_eq!(events.eat_apple.len(), 1);
    world.apple.position = GridPosition::new(9, 9);
    // Chain: 0 <- 2 <- 1, all heading up.
    update(AppState::Ready, &pressed(KeyCode::Right), &mut world);
    let events = tick(&mut world);
    // The head turns; the segment behind it takes the direction that the head
    // had when the tick began, which is the new one already.
    assert_eq!(events.update_direction, vec![UpdateDirectionEvent(0), UpdateDirectionEvent(2)]);
    assert_eq!(world.snake.piece(0).direction, MoveDirection::Right);
    assert_eq!(world.snake.piece(2).direction, MoveDirection::Right);
    assert_eq!(world.snake.piece(1).direction, MoveDirection::Up);
    assert_eq!(world.snake.piece(0).rotation, MoveDirection::Right);
    assert_eq!(world.snake.piece(2).rotation, MoveDirection::Right);
    assert_eq!(world.snake.piece(1).rotation, MoveDirection::Up);
    let events = tick(&mut world);
    assert_eq!(events.update_direction, vec![UpdateDirectionEvent(1)]);
    assert_eq!(world.snake.piece(1).direction, MoveDirection::Right);
    assert_eq!(world.snake.piece(1).rotation, MoveDirection::Right);
    let events = tick(&mut world);
    assert!(events.update_direction.is_empty());
}

#[test]
fn eating_the_apple_grows_the_snake_by_one_and_moves_the_apple() {
    let mut world = ready_world();
    world.apple.position = GridPosition::new(0, 2);
    world.apple.id = 9;
    let events = tick(&mut world);
    assert!(events.eat_apple.is_empty());
    assert_eq!(world.snake.len(), 2);
    assert!(world.elongate_ev.is_empty());
    let events = tick(&mut world);
    assert_eq!(events.eat_apple, vec![EatAppleEvent(9)]);
    assert!(events.win.is_empty());
    assert_eq!(world.snake.len(), 3);
    assert_eq!(world.elongate_ev, vec![ElongateEvent]);
    assert_eq!(
        positions(&world),
        vec![GridPosition::new(0, 2), GridPosition::new(0, 1), GridPosition::new(0, 2)]
    );
    assert!(matches!(world.snake.piece(2).kind, PieceKind::Tail(SnakeTail::Middle, PrevId(0))));
    assert!(matches!(world.snake.piece(1).kind, PieceKind::Tail(SnakeTail::End, PrevId(2))));
    assert_eq!(world.apple.id, 9);
    for position in positions(&world) {
        assert_ne!(world.apple.position, position);
    }
    assert!((-12..=12).contains(&world.apple.position.x));
    assert!((-12..=12).contains(&world.apple.position.y));
}

#[test]
fn the_body_waits_one_tick_after_growth() {
    let mut world = ready_world();
    world.apple.position = GridPosition::new(0, 1);
    let events = tick(&mut world);
    assert_eq!(events.eat_apple.len(), 1);
    world.apple.position = GridPosition::new(9, 9);
    assert_eq!(
        positions(&world),
        vec![GridPosition::new(0, 1), GridPosition::new(0, 0), GridPosition::new(0, 1)]
    );
    tick(&mut world);
    assert_eq!(
        positions(&world),
        vec![GridPosition::new(0, 2), GridPosition::new(0, 0), GridPosition::new(0, 1)]
    );
    assert!(world.elongate_ev.is_empty());
    tick(&mut world);
    assert_eq!(
        positions(&world),
        vec![GridPosition::new(0, 3), GridPosition::new(0, 1), GridPosition::new(0, 2)]
    );
}

#[test]
fn the_number_of_pieces_never_falls() {
    let mut world = ready_world();
    let mut last = world.snake.len();
    let keys = [KeyCode::Right, KeyCode::Up, KeyCode::Left, KeyCode::Down];
    for round in 0..400 {
        if round % 5 == 0 {
            update(AppState::Ready, &pressed(keys[(round / 5) % 4]), &mut world);
        }
        let head = world.snake.head();
        if round % 3 == 0 {
            let mut ahead = head.position;
            snake::grid::translate(&mut ahead, head.direction);
            world.apple.position = ahead;
        }
        let events = tick(&mut world);
        let now = world.snake.len();
        assert!(now >= last);
        assert_eq!(now, last + events.eat_apple.len());
        last = now;
    }
    assert!(last > 2);
}

#[test]
fn the_apple_never_lands_on_the_snake() {
    let mut world = ready_world();
    for _ in 0..150 {
        let head = world.snake.head();
        let mut ahead = head.position;
        snake::grid::translate(&mut ahead, head.direction);
        world.apple.position = ahead;
        let events = tick(&mut world);
        assert_eq!(events.eat_apple.len(), 1);
        assert!(events.win.is_empty());
        for position in positions(&world) {
            assert_ne!(world.apple.position, position);
        }
    }
    assert_eq!(world.snake.len(), 152);
}

#[test]
fn a_snake_on_every_cell_wins_and_the_apple_stays() {
    let mut world = ready_world();
    // The snake grows at every tick along a path over the whole field: up
    // the first column, down the next one, and so on. Its body never
    // advances, so every cell that the head has been on stays taken.
    world.snake.set_position(0, GridPosition::new(-12, -12));
    world.snake.set_position(1, GridPosition::new(-12, -12));
    world.elongate_ev.push(ElongateEvent);
    let mut ticks = 0;
    loop {
        ticks += 1;
        assert!(ticks <= 624);
        let head = world.snake.head();
        let turn = match head.direction {
            MoveDirection::Up if head.position.y == 12 => Some(KeyCode::Right),
            MoveDirection::Down if head.position.y == -12 => Some(KeyCode::Right),
            MoveDirection::Right if head.position.y == 12 => Some(KeyCode::Down),
            MoveDirection::Right => Some(KeyCode::Up),
            _ => None,
        };
        if let Some(key) = turn {
            update(AppState::Ready, &pressed(key), &mut world);
        }
        let head = world.snake.head();
        let mut ahead = head.position;
        snake::grid::translate(&mut ahead, head.direction);
        world.apple.position = ahead;
        let events = tick(&mut world);
        assert_eq!(events.eat_apple.len(), 1);
        if events.win.is_empty() {
            for position in positions(&world) {
                assert_ne!(world.apple.position, position);
            }
        } else {
            assert_eq!(events.win, vec![WinEvent]);
            assert_eq!(world.apple.position, ahead);
            break;
        }
    }
    assert_eq!(ticks, 624);
    assert_eq!(world.snake.head().position, GridPosition::new(12, 12));
    assert_eq!(world.snake.len(), 626);
    let mut cells = positions(&world);
    cells.sort_by_key(|p| (p.x, p.y));
    cells.dedup();
    assert_eq!(cells.len(), 625);
}
