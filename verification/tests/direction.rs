use snake::component::{MoveDirection, PrevDirection};

#[test]
fn default_direction_is_up() {
    assert_eq!(MoveDirection::default(), MoveDirection::Up);
    assert!(PrevDirection::default().0.is_none());
}

#[test]
fn is_up_only_for_up() {
    assert!(MoveDirection::Up.is_up());
    assert!(!MoveDirection::Down.is_up());
    assert!(!MoveDirection::Left.is_up());
    assert!(!MoveDirection::Right.is_up());
}

#[test]
fn is_down_only_for_down() {
    assert!(MoveDirection::Down.is_down());
    assert!(!MoveDirection::Up.is_down());
    assert!(!MoveDirection::Left.is_down());
    assert!(!MoveDirection::Right.is_down());
}

#[test]
fn is_left_only_for_left() {
    assert!(MoveDirection::Left.is_left());
    assert!(!MoveDirection::Up.is_left());
    assert!(!MoveDirection::Down.is_left());
    assert!(!MoveDirection::Right.is_left());
}

#[test]
fn is_right_only_for_right() {
    assert!(MoveDirection::Right.is_right());
    assert!(!MoveDirection::Up.is_right());
    assert!(!MoveDirection::Down.is_right());
    assert!(!MoveDirection::Left.is_right());
}

#[test]
fn reverse_points_the_other_way() {
    assert_eq!(MoveDirection::Up.reverse(), MoveDirection::Down);
    assert_eq!(MoveDirection::Down.reverse(), MoveDirection::Up);
    assert_eq!(MoveDirection::Left.reverse(), MoveDirection::Right);
    assert_eq!(MoveDirection::Right.reverse(), MoveDirection::Left);
}

#[test]
fn reverse_twice_is_the_same_direction() {
    for d in [MoveDirection::Up, MoveDirection::Down, MoveDirection::Left, MoveDirection::Right] {
        assert_eq!(d.reverse().reverse(), d);
    }
}

#[test]
fn quarter_turns_count_counter_clockwise_from_up() {
    assert_eq!(MoveDirection::Up.quarter_turns(), 0);
    assert_eq!(MoveDirection::Left.quarter_turns(), 1);
    assert_eq!(MoveDirection::Down.quarter_turns(), 2);
    assert_eq!(MoveDirection::Right.quarter_turns(), 3);
}

#[test]
fn quarter_turns_give_the_angle_of_the_sprite() {
    let quarter = std::f32::consts::FRAC_PI_2;
    assert_eq!(quarter * f32::from(MoveDirection::Up.quarter_turns()), 0.0);
    assert_eq!(quarter * f32::from(MoveDirection::Left.quarter_turns()), std::f32::consts::FRAC_PI_2);
    assert_eq!(quarter * f32::from(MoveDirection::Down.quarter_turns()), std::f32::consts::PI);
    assert_eq!(
        quarter * f32::from(MoveDirection::Right.quarter_turns()),
        std::f32::consts::FRAC_PI_2 * 3.0
    );
}
