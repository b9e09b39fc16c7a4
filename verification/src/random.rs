//! Random choices. What comes back depends on chance; the contracts state
//! only the range, and a [`DrawLog`] records every draw it hands out, so
//! that a contract can say how the draws were used.

use rand::Rng;
use vstd::prelude::*;

verus! {

/// Calls `rand::thread_rng().gen_range(0..n)`, which panics on an empty
/// range and otherwise returns a number below `n`.
#[verifier::external_body]
pub(crate) fn random_below(n: usize) -> (r: usize)
    requires
        n > 0,
    ensures
        r < n,
{
    rand::thread_rng().gen_range(0..n)
}

/// A source of random draws that keeps, as ghost state, the list of every
/// draw it has handed out, in order. Only [`DrawLog::draw_below`] adds to it.
pub struct DrawLog {
    history: Ghost<Seq<nat>>,
}

impl DrawLog {
    /// The draws handed out so far, in order.
    pub closed spec fn draws(&self) -> Seq<nat> {
        self.history@
    }

    /// A source that has handed out nothing yet.
    pub fn new() -> (r: Self)
        ensures
            r.draws() == Seq::<nat>::empty(),
    {
        DrawLog { history: Ghost(Seq::empty()) }
    }

    /// A random number below `n`, recorded as the next draw.
    pub fn draw_below(&mut self, n: usize) -> (r: usize)
        requires
            n > 0,
        ensures
            r < n,
            final(self).draws() == old(self).draws().push(r as nat),
    {
        let r = random_below(n);
        self.history = Ghost(self.history@.push(r as nat));
        r
    }
}

} // verus!
