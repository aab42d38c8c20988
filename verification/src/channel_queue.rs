//! A bounded queue of samples for one channel, between the capture side and
//! the output side.

use std::collections::VecDeque;
use vstd::prelude::*;
use crate::sample::{keep_last, lemma_keep_last_step, Sample};

verus! {

/// A first-in, first-out queue that holds at most `capacity` samples. A push
/// onto a full queue drops the oldest sample, so the producer never waits.
pub struct ChannelQueue {
    items: VecDeque<Sample>,
    capacity: usize,
}

impl View for ChannelQueue {
    type V = Seq<Sample>;

    /// The queued samples, oldest first.
    closed spec fn view(&self) -> Seq<Sample> {
        self.items@
    }
}

impl ChannelQueue {
    /// The most samples the queue holds.
    pub closed spec fn spec_capacity(&self) -> nat {
        self.capacity as nat
    }

    /// The queue holds no more than its capacity.
    pub closed spec fn wf(&self) -> bool {
        self.items@.len() <= self.capacity
    }

    /// A well-formed queue holds no more than its capacity.
    pub proof fn lemma_len_bounded(&self)
        requires
            self.wf(),
        ensures
            self@.len() <= self.spec_capacity(),
    {
    }

    /// An empty queue for at most `capacity` samples.
    pub fn new(capacity: usize) -> (queue: ChannelQueue)
        ensures
            queue.wf(),
            queue.spec_capacity() == capacity,
            queue@ == Seq::<Sample>::empty(),
    {
        ChannelQueue { items: VecDeque::new(), capacity }
    }

    /// The most samples the queue holds.
    pub fn capacity(&self) -> (n: usize)
        ensures
            n == self.spec_capacity(),
    {
        self.capacity
    }

    /// The number of queued samples.
    pub fn len(&self) -> (n: usize)
        ensures
            n == self@.len(),
    {
        self.items.len()
    }

    /// Whether nothing is queued.
    pub fn is_empty(&self) -> (empty: bool)
        ensures
            empty <==> self@.len() == 0,
    {
        self.items.len() == 0
    }

    /// Queues `sample` as the newest. A full queue first drops its oldest
    /// sample; a queue of capacity zero keeps nothing.
    pub fn push(&mut self, sample: Sample)
        requires
            old(self).wf(),
        ensures
            final(self).wf(),
            final(self).spec_capacity() == old(self).spec_capacity(),
            final(self)@ == keep_last(old(self)@.push(sample), old(self).spec_capacity()),
    {
        if self.capacity == 0 {
            assert(self@ == Seq::<Sample>::empty());
            assert(keep_last(self@.push(sample), 0) == Seq::<Sample>::empty());
            return ;
        }
        if self.items.len() == self.capacity {
            let _ = self.items.pop_front();
        }
        self.items.push_back(sample);
    }

    /// Removes and returns everything queued, oldest first. Never waits:
    /// an empty queue gives an empty vector.
    pub fn drain_available(&mut self) -> (out: Vec<Sample>)
        requires
            old(self).wf(),
        ensures
            final(self).wf(),
            final(self).spec_capacity() == old(self).spec_capacity(),
            out@ == old(self)@,
            final(self)@ == Seq::<Sample>::empty(),
    {
        let mut out: Vec<Sample> = Vec::with_capacity(self.items.len());
        while self.items.len() > 0
            invariant
                self.wf(),
                self.spec_capacity() == old(self).spec_capacity(),
                out@ + self@ == old(self)@,
            decreases self@.len(),
        {
            let front = self.items.pop_front();
            match front {
                Some(sample) => {
                    out.push(sample);
                },
                None => {},
            }
        }
        assert(self@ == Seq::<Sample>::empty());
        assert(out@ + self@ == out@);
        out
    }

    /// Drops everything queued.
    pub fn clear(&mut self)
        requires
            old(self).wf(),
        ensures
            final(self).wf(),
            final(self).spec_capacity() == old(self).spec_capacity(),
            final(self)@ == Seq::<Sample>::empty(),
    {
        self.items.clear();
    }
}

/// What a queue that holds `queued` has after `pushed` was pushed onto it,
/// sample by sample.
pub open spec fn after_pushes(queued: Seq<Sample>, capacity: nat, pushed: Seq<Sample>) -> Seq<
    Sample,
>
    decreases pushed.len(),
{
    if pushed.len() == 0 {
        queued
    } else {
        keep_last(after_pushes(queued, capacity, pushed.drop_last()).push(pushed.last()), capacity)
    }
}

/// Pushes keep the most recent samples: of what was queued and what was
/// pushed, the last `capacity` stay, in order. Once as many were pushed as
/// the queue holds, it holds exactly the last `capacity` of those pushed.
pub proof fn lemma_pushes_keep_most_recent(queued: Seq<Sample>, capacity: nat, pushed: Seq<Sample>)
    requires
        queued.len() <= capacity,
    ensures
        after_pushes(queued, capacity, pushed) == keep_last(queued + pushed, capacity),
        pushed.len() >= capacity ==> after_pushes(queued, capacity, pushed) == pushed.subrange(
            pushed.len() - capacity,
            pushed.len() as int,
        ),
    decreases pushed.len(),
{
    if pushed.len() == 0 {
        assert(queued + pushed == queued);
    } else {
        let front = pushed.drop_last();
        lemma_pushes_keep_most_recent(queued, capacity, front);
        lemma_keep_last_step(queued + front, pushed.last(), capacity);
        assert((queued + front).push(pushed.last()) == queued + pushed);
    }
    if pushed.len() >= capacity {
        assert(keep_last(queued + pushed, capacity) =~= pushed.subrange(
            pushed.len() - capacity,
            pushed.len() as int,
        ));
    }
}

} // verus!
