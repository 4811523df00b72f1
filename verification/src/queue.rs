//! Bounded sample queue: a fixed-capacity FIFO ring of interleaved samples
//! decoupling the decode thread from the playback callback. The producer
//! must never overwrite unread slots (it waits for room instead); the
//! consumer never blocks (an empty queue reports emptiness). Capacity is
//! fixed at construction and does not grow.

use vstd::prelude::*;

verus! {

/// A fixed-capacity FIFO queue of samples over a ring of storage slots.
///
/// The abstract value (the view `@`) is the sequence of unread samples,
/// oldest first. `push_many` appends to it; `pop_one` removes its head.
pub struct SampleQueue<T> {
    storage: Vec<T>,
    head: usize,
    len: usize,
}

impl<T> View for SampleQueue<T> {
    type V = Seq<T>;

    /// The unread samples, oldest first.
    closed spec fn view(&self) -> Seq<T> {
        Seq::new(self.len as nat, |i: int| self.storage@[self.slot_at(i)])
    }
}

impl<T> SampleQueue<T> {
    /// Storage index that holds the `i`-th unread sample: the ring wraps
    /// once past the end of the storage.
    closed spec fn slot_at(self, i: int) -> int {
        if self.head + i < self.storage@.len() {
            self.head + i
        } else {
            self.head + i - self.storage@.len()
        }
    }

    /// Well-formedness of the ring bookkeeping: constructors establish it
    /// and every method preserves it.
    pub closed spec fn inv(self) -> bool {
        &&& self.len <= self.storage@.len()
        &&& (self.head < self.storage@.len() || self.head == 0)
    }

    /// The fixed number of slots, chosen at construction.
    pub closed spec fn spec_capacity(self) -> nat {
        self.storage@.len()
    }

    /// Free slots still available to the producer.
    pub open spec fn spec_remaining(self) -> nat {
        (self.spec_capacity() - self@.len()) as nat
    }
}

impl<T: Copy> SampleQueue<T> {
    /// Creates an empty queue of exactly `capacity` slots; every slot is
    /// pre-filled with `fill`, which never becomes visible to the consumer.
    pub fn new(capacity: usize, fill: T) -> (q: Self)
        ensures
            q.inv(),
            q@ == Seq::<T>::empty(),
            q.spec_capacity() == capacity,
    {
        let mut storage: Vec<T> = Vec::new();
        let mut i: usize = 0;
        while i < capacity
            invariant
                i <= capacity,
                storage@.len() == i,
            decreases capacity - i,
        {
            storage.push(fill);
            i = i + 1;
        }
        let q = SampleQueue { storage, head: 0, len: 0 };
        proof {
            assert(q@ =~= Seq::<T>::empty());
        }
        q
    }

    /// The fixed capacity.
    pub fn capacity(&self) -> (c: usize)
        ensures
            c == self.spec_capacity(),
    {
        self.storage.len()
    }

    /// Number of unread samples.
    pub fn len(&self) -> (n: usize)
        requires
            self.inv(),
        ensures
            n == self@.len(),
    {
        self.len
    }

    /// Observable free-space count: exactly capacity minus the unread
    /// samples, so it never reports more room than truly exists.
    pub fn remaining_capacity(&self) -> (n: usize)
        requires
            self.inv(),
        ensures
            n == self.spec_remaining(),
    {
        self.storage.len() - self.len
    }

    /// Whether the producer may push `n` samples without overwriting
    /// unread ones.
    pub fn has_room(&self, n: usize) -> (r: bool)
        requires
            self.inv(),
        ensures
            r <==> n <= self.spec_remaining(),
    {
        n <= self.remaining_capacity()
    }

    /// Appends one sample at the write position.
    fn push_one(&mut self, x: T)
        requires
            old(self).inv(),
            old(self)@.len() < old(self).spec_capacity(),
        ensures
            final(self).inv(),
            final(self)@ == old(self)@.push(x),
            final(self).spec_capacity() == old(self).spec_capacity(),
    {
        let ghost prev = *self;
        let cap = self.storage.len();
        let avail = cap - self.head;
        let idx = if self.len < avail {
            self.head + self.len
        } else {
            self.len - avail
        };
        self.storage.set(idx, x);
        self.len = self.len + 1;
        proof {
            assert forall|i: int| 0 <= i < self@.len() implies self@[i] == prev@.push(x)[i] by {
                assert(self.slot_at(i) == prev.slot_at(i));
            }
            assert(self@ =~= prev@.push(x));
        }
    }

    /// Inserts the given samples, in order; defined only when they all fit
    /// in the remaining free capacity, so no unread sample is overwritten.
    /// The samples become visible to the consumer after the oldest already
    /// queued ones.
    pub fn push_many(&mut self, samples: &[T])
        requires
            old(self).inv(),
            samples@.len() <= old(self).spec_remaining(),
        ensures
            final(self).inv(),
            final(self)@ == old(self)@ + samples@,
            final(self).spec_capacity() == old(self).spec_capacity(),
    {
        let ghost prev = *self;
        let mut i: usize = 0;
        while i < samples.len()
            invariant
                i <= samples@.len(),
                samples@.len() <= prev.spec_remaining(),
                self.inv(),
                self@ == prev@ + samples@.subrange(0, i as int),
                self.spec_capacity() == prev.spec_capacity(),
            decreases samples@.len() - i,
        {
            let x = samples[i];
            self.push_one(x);
            i = i + 1;
            proof {
                assert(self@ =~= prev@ + samples@.subrange(0, i as int));
            }
        }
        proof {
            assert(samples@.subrange(0, samples@.len() as int) =~= samples@);
        }
    }

    /// Removes and returns the oldest unread sample; on an empty queue it
    /// signals emptiness and changes nothing. Never blocks.
    pub fn pop_one(&mut self) -> (r: Option<T>)
        requires
            old(self).inv(),
        ensures
            final(self).inv(),
            old(self)@.len() == 0 ==> r is None && *final(self) == *old(self),
            old(self)@.len() > 0 ==> r == Some(old(self)@[0]) && final(self)@ == old(self)@.drop_first(),
            final(self).spec_capacity() == old(self).spec_capacity(),
    {
        let ghost prev = *self;
        if self.len == 0 {
            None
        } else {
            let cap = self.storage.len();
            let x = self.storage[self.head];
            self.head = if self.head + 1 == cap {
                0
            } else {
                self.head + 1
            };
            self.len = self.len - 1;
            proof {
                assert forall|i: int| 0 <= i < self@.len() implies self@[i] == prev@.drop_first()[i] by {
                    assert(self.slot_at(i) == prev.slot_at(i + 1));
                }
                assert(self@ =~= prev@.drop_first());
            }
            Some(x)
        }
    }
}

} // verus!
