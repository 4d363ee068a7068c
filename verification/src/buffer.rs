//! Fixed-capacity rolling history buffer with FIFO eviction.

use vstd::prelude::*;

verus! {

/// A fixed-length sliding window over samples: index 0 is the oldest sample,
/// the last index the newest.  The length is chosen at construction and never
/// changes; every push evicts the oldest element and appends the new one.
pub struct RollingBuffer<T> {
    items: Vec<T>,
}

impl<T> View for RollingBuffer<T> {
    type V = Seq<T>;

    closed spec fn view(&self) -> Seq<T> {
        self.items@
    }
}

impl<T: Copy> RollingBuffer<T> {
    /// A buffer of exactly `capacity` slots, each holding `default`.
    pub fn new(capacity: usize, default: T) -> (b: Self)
        ensures
            b@.len() == capacity,
            forall|i: int| 0 <= i < capacity ==> b@[i] == default,
    {
        let mut items: Vec<T> = Vec::new();
        let mut n: usize = 0;
        while n < capacity
            invariant
                n <= capacity,
                items@.len() == n,
                forall|i: int| 0 <= i < n ==> items@[i] == default,
            decreases capacity - n,
        {
            items.push(default);
            n = n + 1;
        }
        RollingBuffer { items }
    }

    /// Evicts the oldest sample and appends `v` as the newest; the length is
    /// unchanged, the remaining samples keep their chronological order.
    pub fn push(&mut self, v: T)
        requires
            old(self)@.len() >= 1,
        ensures
            final(self)@.len() == old(self)@.len(),
            final(self)@ == old(self)@.subrange(1, old(self)@.len() as int).push(v),
            final(self)@[final(self)@.len() - 1] == v,
            forall|i: int| 0 <= i < final(self)@.len() - 1 ==> final(self)@[i] == old(self)@[i + 1],
    {
        let ghost pre = self.items@;
        self.items.remove(0);
        self.items.push(v);
        proof {
            assert(self.items@ =~= pre.subrange(1, pre.len() as int).push(v));
        }
    }

    /// The number of slots, fixed for the buffer's lifetime.
    pub fn len(&self) -> (n: usize)
        ensures
            n == self@.len(),
    {
        self.items.len()
    }

    /// The sample at `i`; 0 is the oldest, `len() - 1` the newest.
    pub fn get(&self, i: usize) -> (v: T)
        requires
            i < self@.len(),
        ensures
            v == self@[i as int],
    {
        self.items[i]
    }

    /// The contents oldest-to-newest, length always equal to the capacity.
    pub fn as_slice(&self) -> (s: &[T])
        ensures
            s@ == self@,
    {
        self.items.as_slice()
    }

    /// The contents oldest-to-newest as a fresh vector.
    pub fn to_vec(&self) -> (v: Vec<T>)
        ensures
            v@ == self@,
    {
        let mut v: Vec<T> = Vec::new();
        let mut n: usize = 0;
        while n < self.items.len()
            invariant
                n <= self.items@.len(),
                v@ == self.items@.subrange(0, n as int),
            decreases self.items@.len() - n,
        {
            v.push(self.items[n]);
            proof {
                assert(v@ =~= self.items@.subrange(0, n + 1));
            }
            n = n + 1;
        }
        proof {
            assert(v@ =~= self.items@);
        }
        v
    }
}

} // verus!
