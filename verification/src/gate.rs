//! A counting permit pool bounding how many upstream fetches may be in
//! flight at once.

use vstd::prelude::*;

verus! {

/// A pool of `capacity` permits, created once per job. A fetch may only
/// start while it holds a permit, so at any moment the number of fetches in
/// flight is the number of permits handed out, and [`ConcurrencyGate::wf`]
/// bounds that number by the pool's capacity.
///
/// This type does the permit accounting; the suspension of a task that
/// finds no free permit is the caller's concern ([`ConcurrencyGate::acquire`]
/// may only be called once a permit is free, and
/// [`ConcurrencyGate::try_acquire`] reports whether one was).
#[derive(Debug)]
pub struct ConcurrencyGate {
    capacity: usize,
    available: usize,
}

impl ConcurrencyGate {
    /// The fixed number of permits the pool was created with.
    pub closed spec fn capacity(&self) -> int {
        self.capacity as int
    }

    /// How many permits are currently free.
    pub closed spec fn available(&self) -> int {
        self.available as int
    }

    /// How many permits are currently handed out.
    pub open spec fn in_flight(&self) -> int {
        self.capacity() - self.available()
    }

    /// Well-formedness: no more permits are free than exist.
    pub open spec fn wf(&self) -> bool {
        0 <= self.available() <= self.capacity()
    }

    /// A fresh pool with every permit free.
    pub fn new(capacity: usize) -> (g: Self)
        ensures
            g.wf(),
            g.capacity() == capacity,
            g.available() == capacity,
    {
        ConcurrencyGate { capacity, available: capacity }
    }

    /// Takes a permit; the caller must have made sure one is free (a
    /// suspending caller re-checks after every release).
    pub fn acquire(&mut self)
        requires
            old(self).wf(),
            old(self).available() > 0,
        ensures
            final(self).wf(),
            final(self).capacity() == old(self).capacity(),
            final(self).available() == old(self).available() - 1,
    {
        self.available = self.available - 1;
    }

    /// Takes a permit if one is free and reports whether it did.
    pub fn try_acquire(&mut self) -> (taken: bool)
        requires
            old(self).wf(),
        ensures
            final(self).wf(),
            final(self).capacity() == old(self).capacity(),
            taken == (old(self).available() > 0),
            taken ==> final(self).available() == old(self).available() - 1,
            !taken ==> final(self).available() == old(self).available(),
    {
        if self.available > 0 {
            self.available = self.available - 1;
            true
        } else {
            false
        }
    }

    /// Returns a permit. Every exit path of the work a permit guards must
    /// release it, success or failure alike.
    pub fn release(&mut self)
        requires
            old(self).wf(),
            old(self).in_flight() > 0,
        ensures
            final(self).wf(),
            final(self).capacity() == old(self).capacity(),
            final(self).available() == old(self).available() + 1,
    {
        self.available = self.available + 1;
    }
}

/// However the permit pool has been used, the number of fetches in flight
/// never exceeds the pool's capacity.
pub proof fn lemma_in_flight_bounded(g: &ConcurrencyGate)
    requires
        g.wf(),
    ensures
        0 <= g.in_flight() <= g.capacity(),
{
}

} // verus!
