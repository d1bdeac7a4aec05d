//! Admission control: the pool of permits that bounds the number of
//! connections handled at once.

use vstd::prelude::*;

verus! {

/// The number of permits in the pool of a generation, unless it is made
/// with another.
pub const MAX_CONNECTIONS: usize = 250;

/// What a pool is in contracts: its fixed size, and how many of its
/// permits are out.
pub struct AdmissionView {
    pub capacity: nat,
    pub outstanding: nat,
}

impl AdmissionView {
    /// No more permits are out than the pool has.
    pub open spec fn wf(self) -> bool {
        self.outstanding <= self.capacity
    }

    /// The permits that can still be taken.
    pub open spec fn available(self) -> nat {
        (self.capacity - self.outstanding) as nat
    }

    /// Whether every permit is back.
    pub open spec fn is_full(self) -> bool {
        self.outstanding == 0
    }

    /// The pool after one permit was asked for: one more is out if one
    /// was left, else nothing changes.
    pub open spec fn acquire(self) -> AdmissionView {
        if self.outstanding < self.capacity {
            AdmissionView { outstanding: self.outstanding + 1, ..self }
        } else {
            self
        }
    }

    /// The pool after `permits` permits were given back, or after all
    /// that were out were given back if those were fewer.
    pub open spec fn release(self, permits: nat) -> AdmissionView {
        if permits <= self.outstanding {
            AdmissionView { outstanding: (self.outstanding - permits) as nat, ..self }
        } else {
            AdmissionView { outstanding: 0, ..self }
        }
    }
}

/// A pool of permits of fixed size. A connection holds one permit from
/// the moment it is admitted until its handler ends.
#[derive(Debug, PartialEq, Eq)]
pub struct Admission {
    capacity: usize,
    outstanding: usize,
}

impl View for Admission {
    type V = AdmissionView;

    closed spec fn view(&self) -> AdmissionView {
        AdmissionView { capacity: self.capacity as nat, outstanding: self.outstanding as nat }
    }
}

impl Admission {
    #[verifier::type_invariant]
    spec fn bounded(self) -> bool {
        self.outstanding <= self.capacity
    }

    /// A pool of `capacity` permits, all of them in.
    pub fn new(capacity: usize) -> (pool: Admission)
        ensures
            pool@ == (AdmissionView { capacity: capacity as nat, outstanding: 0 }),
    {
        Admission { capacity, outstanding: 0 }
    }

    /// The size of the pool.
    pub fn capacity(&self) -> (n: usize)
        ensures
            n == self@.capacity,
    {
        self.capacity
    }

    /// The number of permits that are out. It is never more than the size
    /// of the pool.
    pub fn outstanding(&self) -> (n: usize)
        ensures
            n == self@.outstanding,
            self@.wf(),
    {
        proof {
            use_type_invariant(self);
        }
        self.outstanding
    }

    /// The number of permits that can still be taken.
    pub fn available(&self) -> (n: usize)
        ensures
            n == self@.available(),
            self@.wf(),
    {
        proof {
            use_type_invariant(self);
        }
        self.capacity - self.outstanding
    }

    /// Takes one permit if one is left and says whether it did. Where it
    /// says no, the caller has to wait until a permit comes back.
    pub fn try_acquire(&mut self) -> (taken: bool)
        ensures
            taken == (old(self)@.outstanding < old(self)@.capacity),
            final(self)@ == old(self)@.acquire(),
            final(self)@.wf(),
    {
        proof {
            use_type_invariant(&*self);
        }
        if self.outstanding < self.capacity {
            self.outstanding = self.outstanding + 1;
            true
        } else {
            false
        }
    }

    /// Gives `permits` permits back and returns how many the pool took:
    /// all of them, or as many as were out if those were fewer.
    pub fn release(&mut self, permits: usize) -> (taken: usize)
        ensures
            final(self)@ == old(self)@.release(permits as nat),
            taken == old(self)@.outstanding - final(self)@.outstanding,
            final(self)@.wf(),
    {
        proof {
            use_type_invariant(&*self);
        }
        if permits <= self.outstanding {
            self.outstanding = self.outstanding - permits;
            permits
        } else {
            let out: usize = self.outstanding;
            self.outstanding = 0;
            out
        }
    }
}

impl Default for Admission {
    /// The pool of a generation: `MAX_CONNECTIONS` permits.
    fn default() -> (pool: Admission)
        ensures
            pool@ == (AdmissionView { capacity: MAX_CONNECTIONS as nat, outstanding: 0 }),
    {
        Admission::new(MAX_CONNECTIONS)
    }
}

} // verus!
