//! Judging the result of a simulation that was run to its end.

use vstd::prelude::*;

verus! {

/// The number of agents above which a run is taken to have gridlocked.
pub const GRIDLOCK_AGENTS: usize = 500;

/// Whether so many agents were left at the end of a run that gridlock is
/// likely, which the baker warns of.
pub fn gridlock_likely(agents_left: usize) -> (warn: bool)
    ensures
        warn == (agents_left > 500),
{
    agents_left > GRIDLOCK_AGENTS
}

} // verus!
