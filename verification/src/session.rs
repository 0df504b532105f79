//! Single-release tracking for native session handles.

use vstd::prelude::*;

verus! {

/// Tracks whether the native teardown of one session has been requested.
///
/// The owner of a native session handle keeps one guard beside it and asks
/// the guard before every teardown attempt: the guard answers `true` exactly
/// once, on the first attempt, so the native release runs at most once
/// however often the owner is dropped or closed.
#[derive(Debug)]
pub struct SessionGuard {
    released: bool,
}

impl SessionGuard {
    /// Whether the teardown request has already been handed out.
    pub closed spec fn spec_released(&self) -> bool {
        self.released
    }

    /// A guard for a freshly created session, which has not been torn down.
    pub fn new() -> (r: SessionGuard)
        ensures
            !r.spec_released(),
    {
        SessionGuard { released: false }
    }

    /// Asks whether the native teardown must run now. Answers `true` on the
    /// first call and `false` on every later one.
    pub fn release(&mut self) -> (do_teardown: bool)
        ensures
            final(self).spec_released(),
            do_teardown == !old(self).spec_released(),
    {
        let first = !self.released;
        self.released = true;
        first
    }
}

/// How many teardown requests a run of release calls hands out, starting
/// from a guard in the given state.
pub open spec fn spec_teardowns(initially_released: bool, releases: nat) -> nat
    decreases releases,
{
    if releases == 0 {
        0
    } else {
        (if initially_released {
            0nat
        } else {
            1nat
        }) + spec_teardowns(true, (releases - 1) as nat)
    }
}

/// Law: however many times a session's guard is released, it hands out at
/// most one teardown request — and exactly one when the session was created
/// fresh and released at least once.
pub proof fn lemma_teardown_at_most_once(initially_released: bool, releases: nat)
    ensures
        spec_teardowns(initially_released, releases) <= 1,
        initially_released ==> spec_teardowns(initially_released, releases) == 0,
        !initially_released && releases > 0 ==> spec_teardowns(initially_released, releases) == 1,
    decreases releases,
{
    if releases > 0 {
        lemma_teardown_at_most_once(true, (releases - 1) as nat);
    }
}

} // verus!
