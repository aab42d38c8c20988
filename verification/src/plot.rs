//! Thinning samples out for the waveform plot.

use vstd::prelude::*;
use crate::sample::Sample;

verus! {

/// Every how many samples the plot shows one.
pub const PLOT_STEP: usize = 10;

/// The number of points plotted of `len` samples.
pub open spec fn plotted_len(len: nat) -> nat {
    (len + PLOT_STEP - 1) as nat / (PLOT_STEP as nat)
}

/// The points plotted of `samples`: every `PLOT_STEP`-th sample from the
/// first on, each with its index.
pub open spec fn plotted(samples: Seq<Sample>) -> Seq<(usize, Sample)> {
    Seq::new(
        plotted_len(samples.len()),
        |k: int| ((k * PLOT_STEP) as usize, samples[k * PLOT_STEP]),
    )
}

/// The points to plot of `samples`.
pub fn plot_points(samples: &[Sample]) -> (points: Vec<(usize, Sample)>)
    ensures
        points@ == plotted(samples@),
{
    let len = samples.len();
    let mut points: Vec<(usize, Sample)> = Vec::new();
    let mut i: usize = 0;
    while i < len
        invariant
            len == samples@.len(),
            i < len ==> i % PLOT_STEP == 0 && points@.len() == i / PLOT_STEP,
            i >= len ==> points@.len() == plotted_len(len as nat),
            forall|k: int|
                0 <= k < points@.len() ==> (#[trigger] points@[k]) == (
                    (k * PLOT_STEP) as usize,
                    samples@[k * PLOT_STEP],
                ),
        decreases len - i,
    {
        points.push((i, samples[i]));
        if len - i <= PLOT_STEP {
            i = len;
        } else {
            i = i + PLOT_STEP;
        }
    }
    assert(points@ =~= plotted(samples@));
    points
}

} // verus!
