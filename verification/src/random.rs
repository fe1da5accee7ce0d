//! The source of chance.

use vstd::prelude::*;

use rand::rngs::ThreadRng;
use rand::seq::IteratorRandom;

use crate::grid::GridPosition;

verus! {

/// The handle of `rand` on the random number generator of the running
/// thread. Nothing is known of what it holds.
#[verifier::external_type_specification]
#[verifier::external_body]
pub struct ExThreadRng(ThreadRng);

/// `rand::thread_rng`: the handle on the generator of the running thread.
/// Nothing is claimed of it.
pub assume_specification[ rand::thread_rng ]() -> (rng: ThreadRng);

/// `IteratorRandom::choose` of `rand`, on the items of `cells`: one of them,
/// whichever the generator picks, and `None` if and only if there is none.
#[verifier::external_body]
pub(crate) fn choose_cell(cells: Vec<GridPosition>, rng: &mut ThreadRng) -> (chosen: Option<
    GridPosition,
>)
    ensures
        chosen is None <==> cells@.len() == 0,
        chosen matches Some(p) ==> cells@.contains(p),
{
    cells.into_iter().choose(rng)
}

} // verus!
