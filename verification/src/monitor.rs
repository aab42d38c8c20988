//! The monitoring path: captured samples are relayed through one bounded
//! queue per channel to the output side, which gathers them into working
//! buffers and hands them on block by block, in step across the channels.

use vstd::arithmetic::div_mod::{lemma_fundamental_div_mod, lemma_fundamental_div_mod_converse};
use vstd::prelude::*;
use crate::channel_queue::ChannelQueue;
use crate::sample::{append_range, keep_last, lemma_keep_last_step, Sample};

verus! {

/// The samples of channel `c` in `data`, where the samples of `channels`
/// channels are interleaved: those at the indices that leave `c` when divided
/// by `channels`, in order.
pub open spec fn channel_samples(data: Seq<Sample>, channels: nat, c: nat) -> Seq<Sample>
    decreases data.len(),
{
    if data.len() == 0 {
        Seq::<Sample>::empty()
    } else {
        let before = channel_samples(data.drop_last(), channels, c);
        if channels > 0 && (data.len() - 1) % (channels as int) == c {
            before.push(data.last())
        } else {
            before
        }
    }
}

/// The number of samples of channel `c` among `len` interleaved samples.
pub open spec fn channel_len(len: nat, channels: nat, c: nat) -> nat {
    ((len + channels - 1 - c) / (channels as int)) as nat
}

/// Sample `k` of channel `c` is the sample of frame `k` at place `c`:
/// `channel_samples` picks, of `data`, the samples at `c`, `channels + c`,
/// `2 * channels + c` and so on, as far as `data` goes.
pub proof fn lemma_channel_samples_by_frame(data: Seq<Sample>, channels: nat, c: nat)
    requires
        c < channels,
    ensures
        channel_samples(data, channels, c).len() == channel_len(data.len(), channels, c),
        channel_len(data.len(), channels, c) > 0 ==> (channel_len(data.len(), channels, c) - 1)
            * channels + c < data.len(),
        forall|k: int|
            0 <= k < channel_len(data.len(), channels, c) ==> (#[trigger] channel_samples(
                data,
                channels,
                c,
            )[k]) == data[k * channels + c],
    decreases data.len(),
{
    let ch = channels as int;
    if data.len() == 0 {
        lemma_fundamental_div_mod_converse(ch - 1 - c, ch, 0, ch - 1 - c);
    } else {
        let front = data.drop_last();
        lemma_channel_samples_by_frame(front, channels, c);
        let last = data.len() - 1;
        let q = last / ch;
        let r = last % ch;
        lemma_fundamental_div_mod(last, ch);
        assert(ch * q == q * ch) by (nonlinear_arith);
        assert((q + 1) * ch == q * ch + ch) by (nonlinear_arith);
        if r == c {
            lemma_fundamental_div_mod_converse(last + ch - 1 - c, ch, q, ch - 1);
            lemma_fundamental_div_mod_converse(last + ch - c, ch, q + 1, 0);
        } else if r > c {
            lemma_fundamental_div_mod_converse(last + ch - 1 - c, ch, q + 1, r - c - 1);
            lemma_fundamental_div_mod_converse(last + ch - c, ch, q + 1, r - c);
        } else {
            lemma_fundamental_div_mod_converse(last + ch - 1 - c, ch, q, r + ch - 1 - c);
            lemma_fundamental_div_mod_converse(last + ch - c, ch, q, r + ch - c);
        }
        assert forall|k: int| 0 <= k < channel_len(data.len(), channels, c) implies (
        #[trigger] channel_samples(data, channels, c)[k]) == data[k * channels + c] by {
            if k < channel_len(front.len(), channels, c) {
                assert(channel_samples(front, channels, c)[k] == front[k * channels + c]);
                let top = channel_len(front.len(), channels, c) - 1;
                assert(k * ch <= top * ch) by (nonlinear_arith)
                    requires
                        k <= top,
                        ch > 0,
                ;
            }
        }
    }
}

/// The length of the shortest row; zero where there is no row.
pub open spec fn min_len(rows: Seq<Seq<Sample>>) -> nat
    decreases rows.len(),
{
    if rows.len() == 0 {
        0
    } else if rows.len() == 1 {
        rows[0].len()
    } else {
        let before = min_len(rows.drop_last());
        if rows.last().len() < before {
            rows.last().len()
        } else {
            before
        }
    }
}

/// The contents of each of several buffers.
pub open spec fn channel_views(buffers: Seq<Vec<Sample>>) -> Seq<Seq<Sample>> {
    Seq::new(buffers.len(), |c: int| buffers[c]@)
}

/// `min_len` is a lower bound of every row's length, and some row attains it.
pub proof fn lemma_min_len_least(rows: Seq<Seq<Sample>>)
    ensures
        forall|c: int| 0 <= c < rows.len() ==> min_len(rows) <= (#[trigger] rows[c]).len(),
        rows.len() > 0 ==> exists|c: int|
            0 <= c < rows.len() && (#[trigger] rows[c]).len() == min_len(rows),
    decreases rows.len(),
{
    if rows.len() > 1 {
        let front = rows.drop_last();
        lemma_min_len_least(front);
        assert forall|c: int| 0 <= c < rows.len() implies min_len(rows) <= (
        #[trigger] rows[c]).len() by {
            if c < front.len() {
                assert(front[c] == rows[c]);
            }
        }
        let w = choose|c: int|
            0 <= c < front.len() && (#[trigger] front[c]).len() == min_len(front);
        assert(front[w] == rows[w]);
        if rows.last().len() < min_len(front) {
            assert(rows[rows.len() - 1].len() == min_len(rows));
        } else {
            assert(rows[w].len() == min_len(rows));
        }
    } else if rows.len() == 1 {
        assert(rows[0].len() == min_len(rows));
    }
}

/// What the monitoring path holds, as mathematics.
pub struct MonitorState {
    /// The most samples each queue holds.
    pub capacity: nat,
    /// The queue of each channel, oldest sample first.
    pub queued: Seq<Seq<Sample>>,
    /// The working buffer of each channel: gathered but not yet handed on.
    pub working: Seq<Seq<Sample>>,
}

impl MonitorState {
    /// Empty queues and working buffers for `channels` channels.
    pub open spec fn fresh(channels: nat, capacity: nat) -> MonitorState {
        MonitorState {
            capacity,
            queued: Seq::new(channels, |c: int| Seq::<Sample>::empty()),
            working: Seq::new(channels, |c: int| Seq::<Sample>::empty()),
        }
    }

    /// One working buffer per queue, and no queue over its capacity.
    pub open spec fn valid(self) -> bool {
        &&& self.queued.len() == self.working.len()
        &&& forall|c: int|
            0 <= c < self.queued.len() ==> (#[trigger] self.queued[c]).len() <= self.capacity
    }

    /// The state after the interleaved samples `data` were relayed: each
    /// queue took its channel's samples and kept the most recent.
    pub open spec fn distribute(self, data: Seq<Sample>) -> MonitorState {
        MonitorState {
            queued: Seq::new(
                self.queued.len(),
                |c: int|
                    keep_last(
                        self.queued[c] + channel_samples(data, self.queued.len(), c as nat),
                        self.capacity,
                    ),
            ),
            ..self
        }
    }

    /// The state with every queue emptied.
    pub open spec fn cleared(self) -> MonitorState {
        MonitorState {
            queued: Seq::new(self.queued.len(), |c: int| Seq::<Sample>::empty()),
            ..self
        }
    }

    /// Each working buffer with its queue's samples behind it.
    pub open spec fn gathered(self) -> Seq<Seq<Sample>> {
        Seq::new(self.working.len(), |c: int| self.working[c] + self.queued[c])
    }

    /// Whether the next block goes through the converter: one is active,
    /// and every channel has a full chunk for it.
    pub open spec fn converts(self, required_chunk: Option<usize>) -> bool {
        required_chunk is Some && min_len(self.gathered()) >= required_chunk->0
    }

    /// The number of samples that the next block takes from every channel:
    /// one chunk for the converter, and else what the shortest channel has.
    pub open spec fn block_frames(self, required_chunk: Option<usize>) -> nat {
        if self.converts(required_chunk) {
            required_chunk->0 as nat
        } else {
            min_len(self.gathered())
        }
    }

    /// The next block: the oldest `block_frames` samples of each channel.
    pub open spec fn block(self, required_chunk: Option<usize>) -> Seq<Seq<Sample>> {
        Seq::new(
            self.working.len(),
            |c: int| self.gathered()[c].take(self.block_frames(required_chunk) as int),
        )
    }

    /// The state after the next block was taken: the queues are empty, and
    /// each working buffer keeps what lies behind the block.
    pub open spec fn after_block(self, required_chunk: Option<usize>) -> MonitorState {
        MonitorState {
            capacity: self.capacity,
            queued: Seq::new(self.queued.len(), |c: int| Seq::<Sample>::empty()),
            working: Seq::new(
                self.working.len(),
                |c: int| self.gathered()[c].skip(self.block_frames(required_chunk) as int),
            ),
        }
    }
}

/// What the output side does with the block it took.
pub enum BlockPlan {
    /// Feed `input`, one full chunk per channel, to the converter.
    Convert { input: Vec<Vec<Sample>> },
    /// Play `block` as it is.
    PassThrough { block: Vec<Vec<Sample>> },
}

impl BlockPlan {
    /// The samples of the block, channel by channel.
    pub open spec fn samples(&self) -> Seq<Seq<Sample>> {
        match self {
            BlockPlan::Convert { input } => channel_views(input@),
            BlockPlan::PassThrough { block } => channel_views(block@),
        }
    }
}

/// The queues and working buffers of the monitoring path.
pub struct Monitor {
    queues: Vec<ChannelQueue>,
    working: Vec<Vec<Sample>>,
    capacity: usize,
}

impl View for Monitor {
    type V = MonitorState;

    closed spec fn view(&self) -> MonitorState {
        MonitorState {
            capacity: self.capacity as nat,
            queued: Seq::new(self.queues@.len(), |c: int| self.queues@[c]@),
            working: channel_views(self.working@),
        }
    }
}

impl Monitor {
    pub closed spec fn wf(&self) -> bool {
        &&& self.queues@.len() == self.working@.len()
        &&& forall|c: int|
            0 <= c < self.queues@.len() ==> {
                &&& (#[trigger] self.queues@[c]).wf()
                &&& self.queues@[c].spec_capacity() == self.capacity
            }
    }

    /// The state of a well-formed monitor is valid.
    pub proof fn lemma_wf_valid(&self)
        requires
            self.wf(),
        ensures
            self@.valid(),
    {
        assert forall|c: int| 0 <= c < self@.queued.len() implies (#[trigger] self@.queued[c]).len()
            <= self@.capacity by {
            self.queues@[c].lemma_len_bounded();
        }
    }

    /// Empty queues of `capacity` samples each, and empty working buffers,
    /// for `channels` channels.
    pub fn new(channels: usize, capacity: usize) -> (monitor: Monitor)
        ensures
            monitor.wf(),
            monitor@ == MonitorState::fresh(channels as nat, capacity as nat),
    {
        let mut queues: Vec<ChannelQueue> = Vec::new();
        let mut working: Vec<Vec<Sample>> = Vec::new();
        let mut c: usize = 0;
        while c < channels
            invariant
                c <= channels,
                queues@.len() == c,
                working@.len() == c,
                forall|k: int|
                    0 <= k < c ==> {
                        &&& (#[trigger] queues@[k]).wf()
                        &&& queues@[k].spec_capacity() == capacity
                        &&& queues@[k]@ == Seq::<Sample>::empty()
                    },
                forall|k: int| 0 <= k < c ==> (#[trigger] working@[k])@ == Seq::<Sample>::empty(),
            decreases channels - c,
        {
            queues.push(ChannelQueue::new(capacity));
            working.push(Vec::new());
            c = c + 1;
        }
        let monitor = Monitor { queues, working, capacity };
        assert(monitor@.queued =~= MonitorState::fresh(channels as nat, capacity as nat).queued);
        assert(monitor@.working =~= MonitorState::fresh(channels as nat, capacity as nat).working);
        monitor
    }

    /// The number of channels.
    pub fn channels(&self) -> (n: usize)
        ensures
            n == self@.queued.len(),
    {
        self.queues.len()
    }

    /// The most samples each queue holds.
    pub fn capacity(&self) -> (n: usize)
        ensures
            n == self@.capacity,
    {
        self.capacity
    }

    /// Relays captured samples, interleaved over the channels, to the
    /// queues: the sample at index `i` goes to channel `i % channels`. A
    /// full queue drops its oldest sample for each one that arrives. With no
    /// channel there is no queue, and nothing is kept.
    pub fn distribute(&mut self, data: &[Sample])
        requires
            old(self).wf(),
        ensures
            final(self).wf(),
            final(self)@ == old(self)@.distribute(data@),
    {
        let channels = self.queues.len();
        if channels == 0 {
            assert(self@.queued =~= self@.distribute(data@).queued);
            return ;
        }
        let mut i: usize = 0;
        proof {
            assert forall|c: int| 0 <= c < channels implies (#[trigger] self.queues@[c])@
                == keep_last(
                self.queues@[c]@ + channel_samples(data@.take(0), channels as nat, c as nat),
                self.capacity as nat,
            ) by {
                self.queues@[c].lemma_len_bounded();
                assert(self.queues@[c]@ + Seq::<Sample>::empty() == self.queues@[c]@);
            }
        }
        while i < data.len()
            invariant
                i <= data@.len(),
                channels > 0,
                self.wf(),
                self.queues@.len() == channels,
                self.capacity == old(self).capacity,
                self.working == old(self).working,
                forall|c: int|
                    0 <= c < channels ==> (#[trigger] self.queues@[c])@ == keep_last(
                        old(self).queues@[c]@ + channel_samples(
                            data@.take(i as int),
                            channels as nat,
                            c as nat,
                        ),
                        old(self).capacity as nat,
                    ),
            decreases data@.len() - i,
        {
            let target = i % channels;
            let ghost before = self.queues@;
            self.queues[target].push(data[i]);
            proof {
                let grown = data@.take(i + 1);
                assert(grown.drop_last() == data@.take(i as int));
                assert(grown.last() == data@[i as int]);
                assert forall|c: int| 0 <= c < channels implies (#[trigger] self.queues@[c])@
                    == keep_last(
                    old(self).queues@[c]@ + channel_samples(grown, channels as nat, c as nat),
                    old(self).capacity as nat,
                ) by {
                    let had = old(self).queues@[c]@ + channel_samples(
                        data@.take(i as int),
                        channels as nat,
                        c as nat,
                    );
                    if c == target {
                        lemma_keep_last_step(had, data@[i as int], old(self).capacity as nat);
                        assert(had.push(data@[i as int]) == old(self).queues@[c]@
                            + channel_samples(grown, channels as nat, c as nat));
                    } else {
                        assert(self.queues@[c] == before[c]);
                    }
                }
            }
            i = i + 1;
        }
        proof {
            assert(data@.take(i as int) == data@);
            assert(self@.queued =~= old(self)@.distribute(data@).queued);
        }
    }

    /// Empties every queue; the working buffers stay.
    pub fn clear_queues(&mut self)
        requires
            old(self).wf(),
        ensures
            final(self).wf(),
            final(self)@ == old(self)@.cleared(),
    {
        let channels = self.queues.len();
        let mut c: usize = 0;
        while c < channels
            invariant
                c <= channels,
                self.wf(),
                self.queues@.len() == channels,
                self.capacity == old(self).capacity,
                self.working == old(self).working,
                forall|k: int|
                    0 <= k < c ==> (#[trigger] self.queues@[k])@ == Seq::<Sample>::empty(),
            decreases channels - c,
        {
            let ghost before = self.queues@;
            self.queues[c].clear();
            assert forall|k: int| 0 <= k < c + 1 implies (#[trigger] self.queues@[k])@ == Seq::<
                Sample,
            >::empty() by {
                if k < c {
                    assert(self.queues@[k] == before[k]);
                }
            }
            c = c + 1;
        }
        assert(self@.queued =~= old(self)@.cleared().queued);
    }

    /// Moves what the queues hold behind the working buffers.
    fn gather(&mut self)
        requires
            old(self).wf(),
        ensures
            final(self).wf(),
            final(self)@.capacity == old(self)@.capacity,
            final(self)@.queued == old(self)@.cleared().queued,
            final(self)@.working == old(self)@.gathered(),
    {
        let channels = self.queues.len();
        let mut c: usize = 0;
        while c < channels
            invariant
                c <= channels,
                self.wf(),
                self.queues@.len() == channels,
                old(self).queues@.len() == channels,
                old(self).working@.len() == channels,
                self.capacity == old(self).capacity,
                forall|k: int|
                    0 <= k < c ==> {
                        &&& (#[trigger] self.queues@[k])@ == Seq::<Sample>::empty()
                        &&& self.working@[k]@ == old(self).working@[k]@ + old(self).queues@[k]@
                    },
                forall|k: int|
                    c <= k < channels ==> {
                        &&& (#[trigger] self.queues@[k]) == old(self).queues@[k]
                        &&& self.working@[k] == old(self).working@[k]
                    },
            decreases channels - c,
        {
            let ghost queues_before = self.queues@;
            let ghost working_before = self.working@;
            let drained = self.queues[c].drain_available();
            append_range(&mut self.working[c], &drained, 0, drained.len());
            proof {
                assert(drained@.subrange(0, drained@.len() as int) == drained@);
                assert forall|k: int| 0 <= k < c + 1 implies {
                    &&& (#[trigger] self.queues@[k])@ == Seq::<Sample>::empty()
                    &&& self.working@[k]@ == old(self).working@[k]@ + old(self).queues@[k]@
                } by {
                    if k < c {
                        assert(self.queues@[k] == queues_before[k]);
                        assert(self.working@[k] == working_before[k]);
                    }
                }
                assert forall|k: int| c + 1 <= k < channels implies {
                    &&& (#[trigger] self.queues@[k]) == old(self).queues@[k]
                    &&& self.working@[k] == old(self).working@[k]
                } by {
                    assert(self.queues@[k] == queues_before[k]);
                    assert(self.working@[k] == working_before[k]);
                }
            }
            c = c + 1;
        }
        proof {
            assert(self@.queued =~= old(self)@.cleared().queued);
            assert forall|k: int| 0 <= k < channels implies (#[trigger] self@.working[k])
                == old(self)@.gathered()[k] by {
                assert(self.queues@[k]@ == Seq::<Sample>::empty());
            }
            assert(self@.working =~= old(self)@.gathered());
        }
    }

    /// The length of the shortest working buffer.
    fn shortest(&self) -> (m: usize)
        ensures
            m == min_len(self@.working),
    {
        let channels = self.working.len();
        if channels == 0 {
            return 0;
        }
        let mut m: usize = self.working[0].len();
        let mut c: usize = 1;
        assert(self@.working.take(1).len() == 1);
        while c < channels
            invariant
                1 <= c <= channels,
                channels == self.working@.len(),
                m == min_len(self@.working.take(c as int)),
            decreases channels - c,
        {
            assert(self@.working.take(c + 1).drop_last() == self@.working.take(c as int));
            let n = self.working[c].len();
            if n < m {
                m = n;
            }
            c = c + 1;
        }
        assert(self@.working.take(channels as int) == self@.working);
        m
    }

    /// Takes the next block for the output side. The queues are emptied
    /// into the working buffers. With a converter that asks for
    /// `required_chunk` samples, and at least that many in every channel, the
    /// block is exactly one chunk per channel, to be converted. Otherwise
    /// (no converter, or too little for a chunk) it is what every channel
    /// has, up to the length of the shortest, to be played as it is. What
    /// is handed out leaves the working buffers; what lies behind it stays
    /// for the next block.
    pub fn begin_block(&mut self, required_chunk: Option<usize>) -> (plan: BlockPlan)
        requires
            old(self).wf(),
        ensures
            final(self).wf(),
            final(self)@ == old(self)@.after_block(required_chunk),
            plan is Convert <==> old(self)@.converts(required_chunk),
            plan.samples() == old(self)@.block(required_chunk),
    {
        self.gather();
        let available = self.shortest();
        let convert = match required_chunk {
            Some(chunk) => available >= chunk,
            None => false,
        };
        let frames = match required_chunk {
            Some(chunk) => if available >= chunk { chunk } else { available },
            None => available,
        };
        let ghost gathered = old(self)@.gathered();
        proof {
            lemma_min_len_least(gathered);
            assert(frames == old(self)@.block_frames(required_chunk));
        }
        let channels = self.working.len();
        let mut taken: Vec<Vec<Sample>> = Vec::with_capacity(channels);
        let mut c: usize = 0;
        while c < channels
            invariant
                c <= channels,
                self.wf(),
                self.working@.len() == channels,
                gathered.len() == channels,
                self.capacity == old(self).capacity,
                self@.queued == old(self)@.cleared().queued,
                taken@.len() == c,
                forall|k: int| 0 <= k < channels ==> frames <= (#[trigger] gathered[k]).len(),
                forall|k: int|
                    0 <= k < c ==> {
                        &&& (#[trigger] taken@[k])@ == gathered[k].take(frames as int)
                        &&& self.working@[k]@ == gathered[k].skip(frames as int)
                    },
                forall|k: int| c <= k < channels ==> (#[trigger] self.working@[k])@ == gathered[k],
            decreases channels - c,
        {
            let ghost working_before = self.working@;
            let length = self.working[c].len();
            let mut head: Vec<Sample> = Vec::with_capacity(frames);
            append_range(&mut head, &self.working[c], 0, frames);
            let mut rest: Vec<Sample> = Vec::with_capacity(length - frames);
            append_range(&mut rest, &self.working[c], frames, length);
            self.working[c] = rest;
            taken.push(head);
            proof {
                assert forall|k: int| 0 <= k < c + 1 implies {
                    &&& (#[trigger] taken@[k])@ == gathered[k].take(frames as int)
                    &&& self.working@[k]@ == gathered[k].skip(frames as int)
                } by {
                    if k < c {
                        assert(self.working@[k] == working_before[k]);
                    }
                }
                assert forall|k: int| c + 1 <= k < channels implies (#[trigger] self.working@[k])@
                    == gathered[k] by {
                    assert(self.working@[k] == working_before[k]);
                }
            }
            c = c + 1;
        }
        proof {
            assert forall|k: int| 0 <= k < channels implies (#[trigger] self@.working[k])
                == gathered[k].skip(frames as int) by {
                assert(taken@[k]@ == gathered[k].take(frames as int));
            }
            assert(self@.working =~= old(self)@.after_block(required_chunk).working);
            assert(self@.queued =~= old(self)@.after_block(required_chunk).queued);
            assert(channel_views(taken@) =~= old(self)@.block(required_chunk));
        }
        if convert {
            BlockPlan::Convert { input: taken }
        } else {
            BlockPlan::PassThrough { block: taken }
        }
    }
}

/// Conversion goes chunk by chunk. With a converter that asks for `chunk`
/// samples: where some channel has fewer, the block is not converted; where
/// every channel has at least as many, it is, and it takes exactly `chunk`
/// samples from every channel and leaves the rest in place.
pub proof fn lemma_chunk_alignment(state: MonitorState, chunk: usize)
    requires
        state.valid(),
        state.working.len() > 0,
    ensures
        (exists|c: int|
            0 <= c < state.working.len() && (#[trigger] state.gathered()[c]).len() < chunk)
            ==> !state.converts(Some(chunk)),
        (forall|c: int|
            0 <= c < state.working.len() ==> (#[trigger] state.gathered()[c]).len() >= chunk)
            ==> {
            &&& state.converts(Some(chunk))
            &&& forall|c: int|
                0 <= c < state.working.len() ==> {
                    &&& (#[trigger] state.block(Some(chunk))[c]).len() == chunk
                    &&& state.block(Some(chunk))[c] + state.after_block(Some(chunk)).working[c]
                        == state.gathered()[c]
                }
        },
{
    let rows = state.gathered();
    lemma_min_len_least(rows);
    if forall|c: int| 0 <= c < state.working.len() ==> (#[trigger] rows[c]).len() >= chunk {
        let w = choose|c: int| 0 <= c < rows.len() && (#[trigger] rows[c]).len() == min_len(rows);
        assert(rows[w].len() >= chunk);
        assert(state.converts(Some(chunk)));
        assert forall|c: int| 0 <= c < state.working.len() implies {
            &&& (#[trigger] state.block(Some(chunk))[c]).len() == chunk
            &&& state.block(Some(chunk))[c] + state.after_block(Some(chunk)).working[c]
                == state.gathered()[c]
        } by {
            assert(rows[c].len() >= chunk);
            assert(rows[c].take(chunk as int) + rows[c].skip(chunk as int) =~= rows[c]);
        }
    }
}

/// Without a converter, or with too little for a chunk, the block is what
/// every channel has, up to the length of the shortest, and is not converted.
pub proof fn lemma_pass_through(state: MonitorState, required_chunk: Option<usize>)
    requires
        state.valid(),
        required_chunk is None || min_len(state.gathered()) < required_chunk->0,
    ensures
        !state.converts(required_chunk),
        state.block_frames(required_chunk) == min_len(state.gathered()),
{
}

} // verus!
