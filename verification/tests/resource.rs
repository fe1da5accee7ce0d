use snake::grid::GridPosition;
use snake::resource::{ExcludeSnakeDistribution, Sprite, Sprites};

fn whole_field() -> Vec<GridPosition> {
    let mut cells = Vec::new();
    for x in -12..=12 {
        for y in -12..=12 {
            cells.push(GridPosition::new(x, y));
        }
    }
    cells
}

#[test]
fn default_distribution_excludes_nothing() {
    let distribution = ExcludeSnakeDistribution::default();
    assert!(distribution.positions.is_empty());
    assert_eq!(distribution.free_cells(), whole_field());
}

#[test]
fn free_cells_are_all_cells_of_the_field_in_order() {
    let distribution = ExcludeSnakeDistribution { positions: Vec::new() };
    let cells = distribution.free_cells();
    assert_eq!(cells.len(), 625);
    assert_eq!(cells[0], GridPosition::new(-12, -12));
    assert_eq!(cells[1], GridPosition::new(-12, -11));
    assert_eq!(cells[25], GridPosition::new(-11, -12));
    assert_eq!(cells[624], GridPosition::new(12, 12));
}

#[test]
fn free_cells_leave_out_the_snake() {
    let excluded = vec![
        GridPosition::new(0, 0),
        GridPosition::new(0, -1),
        GridPosition::new(0, 0),
        GridPosition::new(40, 40),
    ];
    let distribution = ExcludeSnakeDistribution { positions: excluded.clone() };
    let cells = distribution.free_cells();
    assert_eq!(cells.len(), 623);
    for cell in &cells {
        assert!(!excluded.contains(cell));
    }
    let mut expected = whole_field();
    expected.retain(|p| !excluded.contains(p));
    assert_eq!(cells, expected);
}

#[test]
fn is_excluded_tells_the_cells_of_the_snake() {
    let distribution = ExcludeSnakeDistribution {
        positions: vec![GridPosition::new(1, 2), GridPosition::new(-3, 4)],
    };
    assert!(distribution.is_excluded(GridPosition::new(1, 2)));
    assert!(distribution.is_excluded(GridPosition::new(-3, 4)));
    assert!(!distribution.is_excluded(GridPosition::new(2, 1)));
    assert!(!distribution.is_excluded(GridPosition::new(1, 4)));
}

#[test]
fn sample_gives_a_free_cell() {
    let excluded = vec![GridPosition::new(0, 0), GridPosition::new(0, -1)];
    let distribution = ExcludeSnakeDistribution { positions: excluded.clone() };
    let mut rng = rand::thread_rng();
    for _ in 0..500 {
        let cell = distribution.sample(&mut rng).unwrap();
        assert!(!excluded.contains(&cell));
        assert!((-12..=12).contains(&cell.x));
        assert!((-12..=12).contains(&cell.y));
    }
}

#[test]
fn sample_reaches_more_than_one_cell() {
    let distribution = ExcludeSnakeDistribution::default();
    let mut rng = rand::thread_rng();
    let first = distribution.sample(&mut rng).unwrap();
    let differs = (0..200).any(|_| distribution.sample(&mut rng).unwrap() != first);
    assert!(differs);
}

#[test]
fn sample_gives_the_only_free_cell() {
    for free in [GridPosition::new(12, 12), GridPosition::new(-12, -12), GridPosition::new(3, -8)] {
        let mut cells = whole_field();
        cells.retain(|p| *p != free);
        let distribution = ExcludeSnakeDistribution { positions: cells };
        let mut rng = rand::thread_rng();
        assert_eq!(distribution.sample(&mut rng), Some(free));
    }
}

#[test]
fn sample_on_a_full_field_gives_none() {
    let distribution = ExcludeSnakeDistribution { positions: whole_field() };
    let mut rng = rand::thread_rng();
    assert_eq!(distribution.sample(&mut rng), None);
    assert!(distribution.free_cells().is_empty());
}

#[test]
fn sprite_paths() {
    assert_eq!(Sprite::Head.path(), "sprites/snake-head.png");
    assert_eq!(Sprite::TailMiddle.path(), "sprites/snake-body.png");
    assert_eq!(Sprite::TailTurn.path(), "sprites/snake-body-turn.png");
    assert_eq!(Sprite::TailEnd.path(), "sprites/snake-end.png");
    assert_eq!(Sprite::Apple.path(), "sprites/apple.png");
}

#[test]
fn sprites_are_not_loaded_before_load() {
    let sprites: Sprites<String> = Sprites::new();
    assert!(!sprites.check_loaded(true));
    assert!(!sprites.check_loaded(false));
}

#[test]
fn sprites_hand_out_what_was_loaded() {
    let mut sprites: Sprites<String> = Sprites::new();
    sprites.load(
        "head".to_string(),
        "middle".to_string(),
        "turn".to_string(),
        "end".to_string(),
        "apple".to_string(),
    );
    assert_eq!(sprites.head(), "head");
    assert_eq!(sprites.tail_middle(), "middle");
    assert_eq!(sprites.tail_turn(), "turn");
    assert_eq!(sprites.tail_end(), "end");
    assert_eq!(sprites.apple(), "apple");
    assert!(sprites.check_loaded(true));
    assert!(!sprites.check_loaded(false));
}
