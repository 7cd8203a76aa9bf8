//! The bounded history of readings behind the waveform display.
use std::collections::VecDeque;
use vstd::prelude::*;
use vstd::std_specs::iter::IteratorSpec;

verus! {

/// The newest `cap` items of `history` (all of them if there are fewer).
pub open spec fn newest<T>(history: Seq<T>, cap: nat) -> Seq<T> {
    if history.len() <= cap {
        history
    } else {
        history.skip(history.len() - cap)
    }
}

/// A first-in, first-out buffer that keeps the newest `capacity` items:
/// pushing onto a full buffer drops the oldest item.
pub struct RingBuffer<T> {
    data: VecDeque<T>,
    capacity: usize,
}

impl<T> View for RingBuffer<T> {
    type V = Seq<T>;

    /// The buffered items, oldest first.
    closed spec fn view(&self) -> Seq<T> {
        self.data@
    }
}

impl<T> RingBuffer<T> {
    /// The capacity the buffer was made with.
    pub closed spec fn cap(&self) -> nat {
        self.capacity as nat
    }

    /// The buffer never holds more than its capacity, unless that
    /// capacity is zero.
    pub closed spec fn wf(&self) -> bool {
        self.capacity > 0 ==> self.data@.len() <= self.capacity
    }

    /// An empty buffer that keeps at most `capacity` items.
    pub fn new(capacity: usize) -> (r: Self)
        ensures
            r.wf(),
            r@ == Seq::<T>::empty(),
            r.cap() == capacity,
    {
        Self { data: VecDeque::with_capacity(capacity), capacity }
    }

    /// Appends `value`, first dropping the oldest item when the buffer is
    /// full. (A buffer of capacity zero is never full and keeps everything.)
    pub fn push(&mut self, value: T)
        requires
            old(self).wf(),
        ensures
            final(self).wf(),
            final(self).cap() == old(self).cap(),
            final(self)@ == if old(self)@.len() == old(self).cap() && old(self)@.len() > 0 {
                old(self)@.drop_first().push(value)
            } else {
                old(self)@.push(value)
            },
    {
        if self.data.len() == self.capacity {
            self.data.pop_front();
        }
        self.data.push_back(value);
    }

    /// The buffered items, oldest first.
    pub fn iter(&self) -> (r: std::collections::vec_deque::Iter<'_, T>)
        ensures
            r.remaining() == self@.as_ref(),
    {
        self.data.iter()
    }

    /// The number of buffered items.
    pub fn len(&self) -> (r: usize)
        ensures
            r == self@.len(),
    {
        self.data.len()
    }

    /// Whether nothing is buffered.
    pub fn is_empty(&self) -> (r: bool)
        ensures
            r == (self@.len() == 0),
    {
        self.data.len() == 0
    }

    /// The capacity the buffer was made with.
    pub fn capacity(&self) -> (r: usize)
        ensures
            r == self.cap(),
    {
        self.capacity
    }
}

/// A buffer of positive capacity that holds the newest items of a history
/// holds, after one more push, the newest items of the longer history.
pub proof fn law_ring_buffer_keeps_newest<T>(history: Seq<T>, cap: nat, value: T)
    requires
        cap > 0,
    ensures
        ({
            let held = newest(history, cap);
            let after = if held.len() == cap && held.len() > 0 {
                held.drop_first().push(value)
            } else {
                held.push(value)
            };
            after == newest(history.push(value), cap)
        }),
{
    let held = newest(history, cap);
    if history.len() >= cap {
        assert(held.drop_first().push(value) =~= newest(history.push(value), cap));
    } else {
        assert(held.push(value) =~= newest(history.push(value), cap));
    }
}

} // verus!
