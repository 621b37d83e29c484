use vstd::prelude::*;

verus! {

/// A bounded counting resource limiter. `current` tokens are available at
/// any moment and the count never leaves `[0, max]`. Acquiring consumes
/// tokens when enough are available; releasing returns tokens, clamped at
/// `max` (excess credit is discarded, not carried over).
pub struct TokenBucket {
    current: usize,
    max: usize,
}

impl TokenBucket {
    /// Tokens currently available.
    pub closed spec fn spec_current(self) -> nat {
        self.current as nat
    }

    /// The bucket's capacity, fixed at construction.
    pub closed spec fn spec_max(self) -> nat {
        self.max as nat
    }

    /// The bucket never holds more tokens than its capacity.
    pub open spec fn wf(self) -> bool {
        self.spec_current() <= self.spec_max()
    }

    /// How a bucket looks after `amount` tokens were released into `prev`:
    /// the capacity is unchanged and the count grew by `amount`, clamped at
    /// that capacity.
    pub open spec fn released_by(self, prev: Self, amount: nat) -> bool {
        &&& self.spec_max() == prev.spec_max()
        &&& self.spec_current() == if prev.spec_current() + amount >= prev.spec_max() {
            prev.spec_max()
        } else {
            prev.spec_current() + amount
        }
    }

    /// A fresh bucket starts full: `current == max == size`.
    pub fn new(size: usize) -> (bucket: Self)
        ensures
            bucket.wf(),
            bucket.spec_current() == size as nat,
            bucket.spec_max() == size as nat,
    {
        Self { current: size, max: size }
    }

    /// Consume `amount` tokens if that many are available, reporting whether
    /// the acquisition succeeded. On failure the bucket is left unchanged.
    pub fn acquire(&mut self, amount: usize) -> (ok: bool)
        requires
            old(self).wf(),
        ensures
            final(self).wf(),
            final(self).spec_max() == old(self).spec_max(),
            ok == (amount as nat <= old(self).spec_current()),
            ok ==> final(self).spec_current() == old(self).spec_current() - amount as nat,
            !ok ==> *final(self) == *old(self),
    {
        if self.current >= amount {
            self.current = self.current - amount;
            return true;
        }
        false
    }

    /// Admissions are mutually exclusive while the bucket is too small to
    /// fund two of them: once one acquisition of `amount` has succeeded, a
    /// second acquisition of `amount` must fail until a release intervenes.
    pub proof fn lemma_single_admission(prev: Self, next: Self, amount: nat)
        requires
            prev.wf(),
            prev.spec_max() < 2 * amount,
            amount <= prev.spec_current(),
            next.spec_max() == prev.spec_max(),
            next.spec_current() == prev.spec_current() - amount,
        ensures
            next.spec_current() < amount,
    {
    }

    /// Return `amount` tokens to the bucket, clamped at `max`: the new count
    /// is `min(current + amount, max)`. Releasing when already full is a
    /// no-op.
    pub fn release(&mut self, amount: usize)
        requires
            old(self).wf(),
        ensures
            final(self).wf(),
            final(self).released_by(*old(self), amount as nat),
            old(self).spec_current() == old(self).spec_max() ==> *final(self) == *old(self),
    {
        if amount >= self.max - self.current {
            self.current = self.max;
        } else {
            self.current = self.current + amount;
        }
    }
}

} // verus!
