use snake::component::MoveDirection;
use snake::grid::{translate, GridPosition};
use snake::{CELL_SIZE, FIELD_HEIGHT, FIELD_WIDTH, VISIBLE_FIELD_HEIGHT, VISIBLE_FIELD_WIDTH};

const DIRECTIONS: [MoveDirection; 4] =
    [MoveDirection::Up, MoveDirection::Down, MoveDirection::Left, MoveDirection::Right];

fn step(p: GridPosition, d: MoveDirection) -> GridPosition {
    let mut q = p;
    translate(&mut q, d);
    q
}

#[test]
fn window_is_as_wide_and_high_as_the_field() {
    assert_eq!(FIELD_WIDTH, 24);
    assert_eq!(FIELD_HEIGHT, 24);
    assert_eq!(CELL_SIZE, 32);
    assert_eq!(VISIBLE_FIELD_WIDTH, CELL_SIZE * FIELD_WIDTH);
    assert_eq!(VISIBLE_FIELD_HEIGHT, CELL_SIZE * FIELD_HEIGHT);
}

#[test]
fn translate_steps_one_cell() {
    let p = GridPosition::new(3, -4);
    assert_eq!(step(p, MoveDirection::Up), GridPosition::new(3, -3));
    assert_eq!(step(p, MoveDirection::Down), GridPosition::new(3, -5));
    assert_eq!(step(p, MoveDirection::Left), GridPosition::new(2, -4));
    assert_eq!(step(p, MoveDirection::Right), GridPosition::new(4, -4));
}

#[test]
fn translate_reaches_both_edges() {
    assert_eq!(step(GridPosition::new(11, 0), MoveDirection::Right), GridPosition::new(12, 0));
    assert_eq!(step(GridPosition::new(-11, 0), MoveDirection::Left), GridPosition::new(-12, 0));
    assert_eq!(step(GridPosition::new(0, 11), MoveDirection::Up), GridPosition::new(0, 12));
    assert_eq!(step(GridPosition::new(0, -11), MoveDirection::Down), GridPosition::new(0, -12));
}

#[test]
fn translate_wraps_at_the_right_edge() {
    assert_eq!(step(GridPosition::new(12, 5), MoveDirection::Right), GridPosition::new(-11, 5));
}

#[test]
fn translate_wraps_at_the_left_edge() {
    assert_eq!(step(GridPosition::new(-12, 5), MoveDirection::Left), GridPosition::new(11, 5));
}

#[test]
fn translate_wraps_at_the_top_edge() {
    assert_eq!(step(GridPosition::new(-7, 12), MoveDirection::Up), GridPosition::new(-7, -11));
}

#[test]
fn translate_wraps_at_the_bottom_edge() {
    assert_eq!(step(GridPosition::new(-7, -12), MoveDirection::Down), GridPosition::new(-7, 11));
}

#[test]
fn translate_never_leaves_the_field() {
    for x in -12..=12 {
        for y in -12..=12 {
            for d in DIRECTIONS {
                let q = step(GridPosition::new(x, y), d);
                assert!((-12..=12).contains(&q.x), "{:?}", q);
                assert!((-12..=12).contains(&q.y), "{:?}", q);
            }
        }
    }
}

#[test]
fn translate_there_and_back_keeps_column_and_row() {
    for x in -12..=12 {
        for y in -12..=12 {
            for d in DIRECTIONS {
                let p = GridPosition::new(x, y);
                let back = step(step(p, d), d.reverse());
                assert_eq!(back.column(), p.column());
                assert_eq!(back.row(), p.row());
            }
        }
    }
}

#[test]
fn translate_there_and_back_is_the_same_cell_away_from_the_seam() {
    for x in -11..=11 {
        for y in -11..=11 {
            for d in DIRECTIONS {
                let p = GridPosition::new(x, y);
                assert_eq!(step(step(p, d), d.reverse()), p);
            }
        }
    }
    assert_eq!(
        step(step(GridPosition::new(12, 0), MoveDirection::Left), MoveDirection::Right),
        GridPosition::new(12, 0)
    );
}

#[test]
fn translate_there_and_back_over_the_seam_lands_on_the_same_column() {
    let p = GridPosition::new(12, 3);
    let back = step(step(p, MoveDirection::Right), MoveDirection::Left);
    assert_eq!(back, GridPosition::new(-12, 3));
    assert_eq!(back.column(), p.column());
}

#[test]
fn field_width_steps_lead_back() {
    for d in DIRECTIONS {
        let start = GridPosition::new(4, -9);
        let mut p = start;
        for _ in 0..24 {
            translate(&mut p, d);
        }
        assert_eq!(p, start);
    }
}

#[test]
fn column_and_row_count_around_the_field() {
    assert_eq!(GridPosition::new(0, 0).column(), 0);
    assert_eq!(GridPosition::new(0, 0).row(), 0);
    assert_eq!(GridPosition::new(5, 7).column(), 5);
    assert_eq!(GridPosition::new(5, 7).row(), 7);
    assert_eq!(GridPosition::new(-1, -1).column(), 23);
    assert_eq!(GridPosition::new(-1, -1).row(), 23);
    assert_eq!(GridPosition::new(12, -12).column(), 12);
    assert_eq!(GridPosition::new(12, -12).row(), 12);
    assert_eq!(GridPosition::new(-11, 0).column(), 13);
}

#[test]
fn pixels_are_cells_times_cell_size() {
    assert_eq!(GridPosition::new(0, 0).pixels(), (0, 0));
    assert_eq!(GridPosition::new(3, -2).pixels(), (96, -64));
    assert_eq!(GridPosition::new(-12, 12).pixels(), (-384, 384));
    assert_eq!(GridPosition::new(i32::MAX, i32::MIN).pixels(), (68719476704, -68719476736));
}

#[test]
fn translate_of_a_cell_off_the_field_does_not_overflow() {
    assert_eq!(step(GridPosition::new(i32::MAX, 0), MoveDirection::Right), GridPosition::new(-11, 0));
    assert_eq!(step(GridPosition::new(i32::MIN, 0), MoveDirection::Left), GridPosition::new(11, 0));
    assert_eq!(step(GridPosition::new(0, i32::MAX), MoveDirection::Up), GridPosition::new(0, -11));
    assert_eq!(step(GridPosition::new(0, i32::MIN), MoveDirection::Down), GridPosition::new(0, 11));
}
