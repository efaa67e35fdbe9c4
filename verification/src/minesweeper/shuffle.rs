//! Random order for the cells of a board.

use rand::seq::SliceRandom;
use vstd::prelude::*;

verus! {

/// Shuffles `positions` in place with `rand`'s `SliceRandom::shuffle`,
/// drawing from the generator that `rand::thread_rng` hands out.
///
/// Trusted, not proved: the shuffle only swaps entries, so afterwards
/// the vector holds the same coordinates, each as often as before.
/// Nothing is claimed about the order they end up in. `thread_rng`
/// panics if the operating system cannot seed it; nothing passed in
/// here has a say in that.
#[verifier::external_body]
pub(crate) fn shuffle(positions: &mut Vec<(u16, u16)>)
    ensures
        final(positions)@.to_multiset() == old(positions)@.to_multiset(),
{
    let mut rng = rand::thread_rng();
    positions.shuffle(&mut rng);
}

} // verus!
