//! The bound on pipes that run at once where both ends are dialled.

use vstd::prelude::*;

verus! {

/// The largest number of pipes that run at once.
pub const MAX_PIPES: usize = 32;

/// A counter of running pipes that never passes `MAX_PIPES`.
pub struct Permits {
    active: usize,
}

/// The count after a request for a permit: one more, unless all are out.
pub open spec fn after_acquire(active: nat) -> nat {
    if active < MAX_PIPES {
        active + 1
    } else {
        active
    }
}

/// The count after a pipe has ended: one less, unless none was out.
pub open spec fn after_release(active: nat) -> nat {
    if active > 0 {
        (active - 1) as nat
    } else {
        active
    }
}

/// The count after a sequence of requests (`true`) and endings (`false`),
/// starting with no pipe.
pub open spec fn active_after(events: Seq<bool>) -> nat
    decreases events.len(),
{
    if events.len() == 0 {
        0
    } else if events.last() {
        after_acquire(active_after(events.drop_last()))
    } else {
        after_release(active_after(events.drop_last()))
    }
}

/// Whatever is asked of the counter, and in whatever order, the number of
/// running pipes never passes `MAX_PIPES`.
pub proof fn lemma_never_over_limit(events: Seq<bool>)
    ensures
        active_after(events) <= MAX_PIPES,
    decreases events.len(),
{
    if events.len() > 0 {
        lemma_never_over_limit(events.drop_last());
    }
}

impl Permits {
    #[verifier::type_invariant]
    spec fn bounded(&self) -> bool {
        self.active <= MAX_PIPES
    }

    /// The number of pipes that hold a permit.
    pub closed spec fn in_use(&self) -> nat {
        self.active as nat
    }

    /// A counter with no pipe running.
    pub fn new() -> (permits: Self)
        ensures
            permits.in_use() == 0,
    {
        Permits { active: 0 }
    }

    /// The number of pipes that hold a permit: never more than `MAX_PIPES`.
    pub fn active(&self) -> (count: usize)
        ensures
            count == self.in_use(),
            count <= MAX_PIPES,
    {
        proof {
            use_type_invariant(self);
        }
        self.active
    }

    /// Asks for a permit. It is granted exactly when fewer than `MAX_PIPES`
    /// pipes run; the pipe that gets it counts as running from then on.
    pub fn try_acquire(&mut self) -> (granted: bool)
        ensures
            granted == (old(self).in_use() < MAX_PIPES),
            final(self).in_use() == after_acquire(old(self).in_use()),
    {
        if self.active < MAX_PIPES {
            self.active = self.active + 1;
            true
        } else {
            false
        }
    }

    /// Gives back the permit of a pipe that has ended.
    pub fn release(&mut self)
        requires
            old(self).in_use() > 0,
        ensures
            final(self).in_use() == old(self).in_use() - 1,
    {
        proof {
            use_type_invariant(&*self);
        }
        self.active = self.active - 1;
    }
}

} // verus!
