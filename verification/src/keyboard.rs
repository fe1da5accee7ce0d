//! The keys that steer the snake.

use vstd::prelude::*;

use bevy::input::keyboard::KeyCode;
use bevy::input::Input;
use std::hash::Hash;

use crate::component::MoveDirection;

verus! {

/// `KeyCode` of `bevy`: the keys of a keyboard, an enum without fields, which
/// is read as it is declared.
#[verifier::external_type_specification]
pub struct ExKeyCode(KeyCode);

/// `Input` of `bevy`: which of the inputs `T` are held down, and which were
/// pressed or released since the last frame. Nothing is known of what it
/// holds but under the name `just_pressed_keys`.
#[verifier::external_type_specification]
#[verifier::external_body]
#[verifier::reject_recursive_types(T)]
pub struct ExInput<T: Copy + Eq + Hash + Send + Sync + 'static>(Input<T>);

/// The keys that `input` holds as pressed since the last frame.
pub uninterp spec fn just_pressed_keys(input: Input<KeyCode>) -> Set<KeyCode>;

/// `Input::get_just_pressed`, gathered into a vector: the keys pressed since
/// the last frame, each once, in whatever order the set that holds them
/// hands them out.
#[verifier::external_body]
pub(crate) fn just_pressed(input: &Input<KeyCode>) -> (keys: Vec<KeyCode>)
    ensures
        keys@.to_set() == just_pressed_keys(*input),
        keys@.no_duplicates(),
{
    input.get_just_pressed().copied().collect()
}

/// The direction of an arrow key; none for any other key.
pub open spec fn arrow(key: KeyCode) -> Option<MoveDirection> {
    match key {
        KeyCode::Up => Some(MoveDirection::Up),
        KeyCode::Down => Some(MoveDirection::Down),
        KeyCode::Left => Some(MoveDirection::Left),
        KeyCode::Right => Some(MoveDirection::Right),
        _ => None,
    }
}

/// The direction of an arrow key; none for any other key.
pub fn arrow_of(key: KeyCode) -> (d: Option<MoveDirection>)
    ensures
        d == arrow(key),
{
    match key {
        KeyCode::Up => Some(MoveDirection::Up),
        KeyCode::Down => Some(MoveDirection::Down),
        KeyCode::Left => Some(MoveDirection::Left),
        KeyCode::Right => Some(MoveDirection::Right),
        _ => None,
    }
}

} // verus!
