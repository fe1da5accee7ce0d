//! Directions looked up by the id of a piece.

use vstd::prelude::*;

use bevy::utils::HashMap;

use crate::component::MoveDirection;

verus! {

/// A record of directions, each under the id of the piece that had it, kept
/// in a `HashMap` of `bevy::utils`. Nothing is known of what it holds but
/// under the name `snapshot_entries`.
#[verifier::external_body]
pub struct DirectionSnapshot {
    directions: HashMap<usize, MoveDirection>,
}

/// What a snapshot holds: the ids that were recorded, each with the direction
/// recorded last under it.
pub uninterp spec fn snapshot_entries(snapshot: DirectionSnapshot) -> Map<usize, MoveDirection>;

/// `HashMap::default` of `bevy::utils`: the new map holds nothing.
#[verifier::external_body]
pub(crate) fn snapshot_new() -> (snapshot: DirectionSnapshot)
    ensures
        snapshot_entries(snapshot) == (Map::<usize, MoveDirection>::empty()),
{
    DirectionSnapshot { directions: HashMap::default() }
}

/// `HashMap::insert`: afterwards the map holds `direction` under `id`, in
/// place of what it held under `id` before, and everything else as before.
#[verifier::external_body]
pub(crate) fn snapshot_insert(snapshot: &mut DirectionSnapshot, id: usize, direction: MoveDirection)
    ensures
        snapshot_entries(*final(snapshot)) == snapshot_entries(*old(snapshot)).insert(
            id,
            direction,
        ),
{
    snapshot.directions.insert(id, direction);
}

/// Indexing of a `HashMap` by a key: the value held under `id`. It panics
/// on a key that the map does not hold, so such a key is not admitted.
#[verifier::external_body]
pub(crate) fn snapshot_index(snapshot: &DirectionSnapshot, id: usize) -> (direction: MoveDirection)
    requires
        snapshot_entries(*snapshot).dom().contains(id),
    ensures
        direction == snapshot_entries(*snapshot)[id],
{
    snapshot.directions[&id]
}

} // verus!
