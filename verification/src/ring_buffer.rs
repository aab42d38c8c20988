//! A store of fixed capacity that keeps the most recent samples written to it.

use vstd::prelude::*;
use crate::error::BufferError;
use crate::sample::{
    append_range, keep_last, lemma_keep_last_concat, lemma_keep_last_step, silence, Sample,
    SILENCE,
};

verus! {

/// A circular store of `capacity` slots. Once every slot has been written,
/// each further sample takes the place of the oldest one.
pub struct RingBuffer {
    storage: Vec<Sample>,
    write_cursor: usize,
    filled_count: usize,
}

impl View for RingBuffer {
    type V = Seq<Sample>;

    /// The samples that can still be read, oldest first.
    closed spec fn view(&self) -> Seq<Sample> {
        if self.filled_count < self.storage@.len() {
            self.storage@.subrange(0, self.filled_count as int)
        } else {
            self.storage@.subrange(self.write_cursor as int, self.storage@.len() as int)
                + self.storage@.subrange(0, self.write_cursor as int)
        }
    }
}

impl RingBuffer {
    /// The number of slots.
    pub closed spec fn spec_capacity(&self) -> nat {
        self.storage@.len()
    }

    /// The cursor is a slot, and until the store is full it stands right
    /// behind the samples written so far.
    pub closed spec fn wf(&self) -> bool {
        &&& self.storage@.len() > 0
        &&& self.write_cursor < self.storage@.len()
        &&& self.filled_count <= self.storage@.len()
        &&& self.filled_count < self.storage@.len() ==> self.write_cursor == self.filled_count
    }

    /// A well-formed store never holds more than its capacity.
    pub proof fn lemma_len_bounded(&self)
        requires
            self.wf(),
        ensures
            self@.len() <= self.spec_capacity(),
            self.spec_capacity() > 0,
    {
    }

    /// An empty store of `capacity` silent slots; none where `capacity` is zero.
    pub fn new(capacity: usize) -> (made: Result<RingBuffer, BufferError>)
        ensures
            capacity == 0 <==> made is Err,
            made is Err ==> made == Err::<RingBuffer, BufferError>(BufferError::ZeroCapacity),
            made is Ok ==> {
                &&& made->Ok_0.wf()
                &&& made->Ok_0.spec_capacity() == capacity
                &&& made->Ok_0@ == Seq::<Sample>::empty()
            },
    {
        if capacity == 0 {
            Err(BufferError::ZeroCapacity)
        } else {
            Ok(RingBuffer::with_slots(capacity))
        }
    }

    /// An empty store of `capacity` silent slots.
    pub(crate) fn with_slots(capacity: usize) -> (made: RingBuffer)
        requires
            capacity > 0,
        ensures
            made.wf(),
            made.spec_capacity() == capacity,
            made@ == Seq::<Sample>::empty(),
    {
        let mut storage: Vec<Sample> = Vec::with_capacity(capacity);
        let mut i: usize = 0;
        while i < capacity
            invariant
                i <= capacity,
                storage@.len() == i,
            decreases capacity - i,
        {
            storage.push(SILENCE);
            i = i + 1;
        }
        RingBuffer { storage, write_cursor: 0, filled_count: 0 }
    }

    /// The number of slots.
    pub fn capacity(&self) -> (n: usize)
        ensures
            n == self.spec_capacity(),
    {
        self.storage.len()
    }

    /// The number of samples that can be read back.
    pub fn len(&self) -> (n: usize)
        requires
            self.wf(),
        ensures
            n == self@.len(),
    {
        self.filled_count
    }

    /// Whether every slot has been written.
    pub fn is_full(&self) -> (full: bool)
        requires
            self.wf(),
        ensures
            full <==> self@.len() == self.spec_capacity(),
    {
        self.filled_count == self.storage.len()
    }

    /// Writes one sample, over the oldest one where the store is full.
    pub fn write_one(&mut self, sample: Sample)
        requires
            old(self).wf(),
        ensures
            final(self).wf(),
            final(self).spec_capacity() == old(self).spec_capacity(),
            final(self)@ == keep_last(old(self)@.push(sample), old(self).spec_capacity()),
    {
        let capacity = self.storage.len();
        let at = self.write_cursor;
        self.storage[at] = sample;
        if self.filled_count < capacity {
            self.filled_count = self.filled_count + 1;
        }
        self.write_cursor = if at + 1 == capacity { 0 } else { at + 1 };
    }

    /// Writes `samples` in order. Nothing is allocated and nothing grows:
    /// of what was held and what is written, the last `capacity` samples stay.
    pub fn write(&mut self, samples: &[Sample])
        requires
            old(self).wf(),
        ensures
            final(self).wf(),
            final(self).spec_capacity() == old(self).spec_capacity(),
            final(self)@ == keep_last(old(self)@ + samples@, old(self).spec_capacity()),
            samples@.len() == 0 ==> final(self)@ == old(self)@,
    {
        let mut i: usize = 0;
        while i < samples.len()
            invariant
                i <= samples@.len(),
                self.wf(),
                self.spec_capacity() == old(self).spec_capacity(),
                old(self)@.len() <= old(self).spec_capacity(),
                self@ == keep_last(
                    old(self)@ + samples@.subrange(0, i as int),
                    old(self).spec_capacity(),
                ),
            decreases samples@.len() - i,
        {
            proof {
                lemma_keep_last_step(
                    old(self)@ + samples@.subrange(0, i as int),
                    samples@[i as int],
                    old(self).spec_capacity(),
                );
                assert((old(self)@ + samples@.subrange(0, i as int)).push(samples@[i as int])
                    == old(self)@ + samples@.subrange(0, i + 1));
            }
            self.write_one(samples[i]);
            i = i + 1;
        }
        proof {
            assert(samples@.subrange(0, i as int) == samples@);
            if samples@.len() == 0 {
                assert(old(self)@ + samples@ == old(self)@);
            }
        }
    }

    /// The samples held, oldest first. With `include_partial`, a store that is
    /// not yet full is padded with silence behind them, up to its capacity.
    pub fn snapshot(&self, include_partial: bool) -> (out: Vec<Sample>)
        requires
            self.wf(),
        ensures
            out@ == if include_partial {
                self@ + silence((self.spec_capacity() - self@.len()) as nat)
            } else {
                self@
            },
    {
        let capacity = self.storage.len();
        let mut out: Vec<Sample> = Vec::with_capacity(capacity);
        if self.filled_count < capacity {
            append_range(&mut out, &self.storage, 0, self.filled_count);
            if include_partial {
                let mut i: usize = self.filled_count;
                while i < capacity
                    invariant
                        self.filled_count <= i <= capacity,
                        out@ == self@ + silence((i - self.filled_count) as nat),
                    decreases capacity - i,
                {
                    out.push(SILENCE);
                    i = i + 1;
                }
            }
        } else {
            append_range(&mut out, &self.storage, self.write_cursor, capacity);
            append_range(&mut out, &self.storage, 0, self.write_cursor);
            assert(silence(0) == Seq::<Sample>::empty());
        }
        out
    }
}

/// All the samples of several writes, in the order written.
pub open spec fn concat_all(writes: Seq<Seq<Sample>>) -> Seq<Sample>
    decreases writes.len(),
{
    if writes.len() == 0 {
        Seq::<Sample>::empty()
    } else {
        concat_all(writes.drop_last()) + writes.last()
    }
}

/// What a store of `capacity` slots holds after the writes in `writes`, made
/// one after another on an empty store.
pub open spec fn after_writes(capacity: nat, writes: Seq<Seq<Sample>>) -> Seq<Sample>
    decreases writes.len(),
{
    if writes.len() == 0 {
        Seq::<Sample>::empty()
    } else {
        keep_last(after_writes(capacity, writes.drop_last()) + writes.last(), capacity)
    }
}

/// However the samples are split into writes, a store that started empty
/// holds the most recent of them, in the order written: all of them while
/// they fit, and else the last `capacity`.
pub proof fn lemma_writes_keep_most_recent(capacity: nat, writes: Seq<Seq<Sample>>)
    ensures
        after_writes(capacity, writes) == keep_last(concat_all(writes), capacity),
        after_writes(capacity, writes).len() == if concat_all(writes).len() <= capacity {
            concat_all(writes).len()
        } else {
            capacity
        },
    decreases writes.len(),
{
    if writes.len() > 0 {
        lemma_writes_keep_most_recent(capacity, writes.drop_last());
        lemma_keep_last_concat(concat_all(writes.drop_last()), writes.last(), capacity);
    }
}

/// A write of no samples leaves what the store holds as it is.
pub proof fn lemma_empty_write_changes_nothing(held: Seq<Sample>, capacity: nat)
    requires
        held.len() <= capacity,
    ensures
        keep_last(held + Seq::<Sample>::empty(), capacity) == held,
{
    assert(held + Seq::<Sample>::empty() == held);
}

} // verus!
