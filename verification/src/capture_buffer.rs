//! The capture buffer: a rolling window that an operator can freeze into a
//! recording which then grows with everything captured afterwards.

use vstd::prelude::*;
use crate::error::BufferError;
use crate::ring_buffer::RingBuffer;
use crate::sample::{append_slice, keep_last, Sample};

verus! {

/// Whether a capture buffer still discards old samples.
#[derive(Clone, Copy, Debug, PartialEq, Eq, Structural)]
pub enum Mode {
    /// Only the most recent samples are kept.
    Rolling,
    /// Every sample is kept, behind the window as it was when frozen.
    Frozen,
}

/// What a capture buffer holds, as mathematics.
pub struct CaptureState {
    /// The size of the rolling window.
    pub capacity: nat,
    pub mode: Mode,
    /// The rolling window, oldest sample first.
    pub window: Seq<Sample>,
    /// The recording; empty until the buffer is frozen.
    pub log: Seq<Sample>,
}

impl CaptureState {
    /// A fresh buffer: rolling, with nothing captured.
    pub open spec fn fresh(capacity: nat) -> CaptureState {
        CaptureState {
            capacity,
            mode: Mode::Rolling,
            window: Seq::<Sample>::empty(),
            log: Seq::<Sample>::empty(),
        }
    }

    /// The state after `samples` were captured.
    pub open spec fn add_samples(self, samples: Seq<Sample>) -> CaptureState {
        match self.mode {
            Mode::Rolling => CaptureState {
                window: keep_last(self.window + samples, self.capacity),
                ..self
            },
            Mode::Frozen => CaptureState { log: self.log + samples, ..self },
        }
    }

    /// The state after a freeze: the window becomes the start of the recording.
    /// A frozen buffer is left as it is.
    pub open spec fn begin_freeze(self) -> CaptureState {
        match self.mode {
            Mode::Rolling => CaptureState { mode: Mode::Frozen, log: self.window, ..self },
            Mode::Frozen => self,
        }
    }

    /// The state after the recording was handed out.
    pub open spec fn drained(self) -> CaptureState {
        match self.mode {
            Mode::Rolling => self,
            Mode::Frozen => CaptureState { log: Seq::<Sample>::empty(), ..self },
        }
    }

    /// What a plot of the buffer shows.
    pub open spec fn samples_for_plot(self) -> Seq<Sample> {
        match self.mode {
            Mode::Rolling => self.window,
            Mode::Frozen => self.log,
        }
    }

    /// The window fits its capacity, and a rolling buffer has no recording.
    pub open spec fn valid(self) -> bool {
        &&& self.capacity > 0
        &&& self.window.len() <= self.capacity
        &&& self.mode == Mode::Rolling ==> self.log.len() == 0
    }
}

/// A rolling window of recent samples with a one-way switch to an
/// append-only recording. The recording is bounded only by memory: it grows
/// for as long as the buffer stays frozen and samples arrive.
pub struct CaptureBuffer {
    ring: RingBuffer,
    mode: Mode,
    frozen_log: Vec<Sample>,
}

impl View for CaptureBuffer {
    type V = CaptureState;

    closed spec fn view(&self) -> CaptureState {
        CaptureState {
            capacity: self.ring.spec_capacity(),
            mode: self.mode,
            window: self.ring@,
            log: self.frozen_log@,
        }
    }
}

impl CaptureBuffer {
    pub closed spec fn wf(&self) -> bool {
        &&& self.ring.wf()
        &&& self.mode == Mode::Rolling ==> self.frozen_log@.len() == 0
    }

    /// The state of a well-formed buffer is valid.
    pub proof fn lemma_wf_valid(&self)
        requires
            self.wf(),
        ensures
            self@.valid(),
    {
        self.ring.lemma_len_bounded();
    }

    /// A rolling buffer with a window of `capacity` samples; none where
    /// `capacity` is zero.
    pub fn new(capacity: usize) -> (made: Result<CaptureBuffer, BufferError>)
        ensures
            capacity == 0 <==> made is Err,
            made is Err ==> made == Err::<CaptureBuffer, BufferError>(BufferError::ZeroCapacity),
            made is Ok ==> made->Ok_0.wf() && made->Ok_0@ == CaptureState::fresh(capacity as nat),
    {
        if capacity == 0 {
            Err(BufferError::ZeroCapacity)
        } else {
            Ok(CaptureBuffer::rolling(capacity))
        }
    }

    /// A rolling buffer with a window of `capacity` samples.
    pub(crate) fn rolling(capacity: usize) -> (made: CaptureBuffer)
        requires
            capacity > 0,
        ensures
            made.wf(),
            made@ == CaptureState::fresh(capacity as nat),
    {
        CaptureBuffer {
            ring: RingBuffer::with_slots(capacity),
            mode: Mode::Rolling,
            frozen_log: Vec::new(),
        }
    }

    /// The mode the buffer is in.
    pub fn mode(&self) -> (mode: Mode)
        ensures
            mode == self@.mode,
    {
        self.mode
    }

    /// Whether the buffer has been frozen.
    pub fn is_frozen(&self) -> (frozen: bool)
        ensures
            frozen <==> self@.mode == Mode::Frozen,
    {
        match self.mode {
            Mode::Rolling => false,
            Mode::Frozen => true,
        }
    }

    /// The size of the rolling window.
    pub fn capacity(&self) -> (n: usize)
        ensures
            n == self@.capacity,
    {
        self.ring.capacity()
    }

    /// The number of samples that a plot or a recording would hold now.
    pub fn len(&self) -> (n: usize)
        requires
            self.wf(),
        ensures
            n == self@.samples_for_plot().len(),
    {
        match self.mode {
            Mode::Rolling => self.ring.len(),
            Mode::Frozen => self.frozen_log.len(),
        }
    }

    /// Takes captured samples: into the window while rolling, behind the
    /// recording once frozen.
    pub fn add_samples(&mut self, samples: &[Sample])
        requires
            old(self).wf(),
        ensures
            final(self).wf(),
            final(self)@ == old(self)@.add_samples(samples@),
    {
        match self.mode {
            Mode::Rolling => {
                self.ring.write(samples);
            },
            Mode::Frozen => {
                append_slice(&mut self.frozen_log, samples);
            },
        }
    }

    /// Freezes the buffer: the window, oldest sample first, becomes the start
    /// of the recording. A buffer that is frozen already reports
    /// `AlreadyFrozen` and is left untouched, so the window is copied once.
    pub fn begin_freeze(&mut self) -> (done: Result<(), BufferError>)
        requires
            old(self).wf(),
        ensures
            final(self).wf(),
            final(self)@ == old(self)@.begin_freeze(),
            old(self)@.mode == Mode::Rolling <==> done is Ok,
            done is Err ==> done == Err::<(), BufferError>(BufferError::AlreadyFrozen),
    {
        match self.mode {
            Mode::Rolling => {
                self.frozen_log = self.ring.snapshot(false);
                self.mode = Mode::Frozen;
                Ok(())
            },
            Mode::Frozen => Err(BufferError::AlreadyFrozen),
        }
    }

    /// The samples to plot: the window while rolling, the whole recording
    /// once frozen.
    pub fn samples_for_plot(&self) -> (out: Vec<Sample>)
        requires
            self.wf(),
        ensures
            out@ == self@.samples_for_plot(),
    {
        match self.mode {
            Mode::Rolling => self.ring.snapshot(false),
            Mode::Frozen => {
                let mut out: Vec<Sample> = Vec::with_capacity(self.frozen_log.len());
                append_slice(&mut out, self.frozen_log.as_slice());
                out
            },
        }
    }

    /// Hands out the recording and forgets it. A buffer that was never frozen
    /// reports `NotFrozen` and is left untouched.
    pub fn drain_for_persistence(&mut self) -> (out: Result<Vec<Sample>, BufferError>)
        requires
            old(self).wf(),
        ensures
            final(self).wf(),
            final(self)@ == old(self)@.drained(),
            old(self)@.mode == Mode::Frozen <==> out is Ok,
            out is Ok ==> out->Ok_0@ == old(self)@.log,
            out is Err ==> out == Err::<Vec<Sample>, BufferError>(BufferError::NotFrozen),
    {
        match self.mode {
            Mode::Rolling => Err(BufferError::NotFrozen),
            Mode::Frozen => Ok(self.take_log()),
        }
    }

    /// Hands out the recording, which is empty while rolling, and forgets it.
    pub(crate) fn take_log(&mut self) -> (out: Vec<Sample>)
        requires
            old(self).wf(),
        ensures
            final(self).wf(),
            final(self)@ == old(self)@.drained(),
            out@ == old(self)@.log,
    {
        let mut taken: Vec<Sample> = Vec::new();
        taken.append(&mut self.frozen_log);
        taken
    }
}

/// After a freeze the recording is the window as it was, oldest sample
/// first, followed by everything captured since, in order.
pub proof fn lemma_freeze_keeps_window_then_appends(state: CaptureState, later: Seq<Sample>)
    requires
        state.valid(),
        state.mode == Mode::Rolling,
    ensures
        state.begin_freeze().add_samples(later).log == state.window + later,
        state.begin_freeze().add_samples(later).mode == Mode::Frozen,
        state.begin_freeze().add_samples(later).drained().log == Seq::<Sample>::empty(),
{
}

/// While frozen, two captures one after the other leave what one capture of
/// both would.
pub proof fn lemma_frozen_captures_concatenate(
    state: CaptureState,
    first: Seq<Sample>,
    second: Seq<Sample>,
)
    requires
        state.mode == Mode::Frozen,
    ensures
        state.add_samples(first).add_samples(second) == state.add_samples(first + second),
{
    assert(state.log + first + second == state.log + (first + second));
}

/// A second freeze changes nothing: the window is copied once.
pub proof fn lemma_freeze_twice_is_freeze_once(state: CaptureState)
    ensures
        state.begin_freeze().begin_freeze() == state.begin_freeze(),
{
}

/// A capture of no samples changes nothing, in either mode.
pub proof fn lemma_empty_capture_changes_nothing(state: CaptureState)
    requires
        state.valid(),
    ensures
        state.add_samples(Seq::<Sample>::empty()) == state,
{
    assert(state.window + Seq::<Sample>::empty() == state.window);
    assert(state.log + Seq::<Sample>::empty() == state.log);
}

} // verus!
