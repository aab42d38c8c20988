//! Sample-rate conversion as the monitoring path sees it: whether a
//! converter is needed, how it is set up, and what becomes of a block once
//! the converter has answered.

use vstd::prelude::*;
use crate::monitor::channel_views;
use crate::sample::{silence, silent_block, Sample};

verus! {

/// The number of samples per channel that the converter takes at a time.
pub const CHUNK_FRAMES: usize = 4096;

/// The length of the converter's interpolation filter.
pub const SINC_LENGTH: usize = 256;

/// The number of intermediate points the converter interpolates between.
pub const OVERSAMPLING_FACTOR: usize = 256;

/// The filter's cutoff, in hundredths of the lower of the two Nyquist rates.
pub const CUTOFF_PERCENT: u32 = 95;

/// How far the ratio may later be moved from the one set, as a factor.
pub const MAX_RELATIVE_RATIO: u32 = 2;

/// How a converter is to be set up. The conversion ratio is
/// `output_rate / input_rate`.
#[derive(Clone, Copy, Debug, PartialEq, Eq, Structural)]
pub struct ConversionSettings {
    pub input_rate: u32,
    pub output_rate: u32,
    pub channels: usize,
    pub chunk_frames: usize,
    pub sinc_length: usize,
    pub oversampling_factor: usize,
    pub cutoff_percent: u32,
    pub max_relative_ratio: u32,
}

/// The settings of the converter between two rates for `channels` channels.
pub open spec fn settings_for(input_rate: u32, output_rate: u32, channels: usize)
    -> ConversionSettings {
    ConversionSettings {
        input_rate,
        output_rate,
        channels,
        chunk_frames: CHUNK_FRAMES,
        sinc_length: SINC_LENGTH,
        oversampling_factor: OVERSAMPLING_FACTOR,
        cutoff_percent: CUTOFF_PERCENT,
        max_relative_ratio: MAX_RELATIVE_RATIO,
    }
}

/// The converter that monitoring needs: one where the two rates differ, and
/// none where they are equal, in which case samples pass through untouched.
pub fn conversion_settings(input_rate: u32, output_rate: u32, channels: usize) -> (settings:
    Option<ConversionSettings>)
    ensures
        settings == if input_rate != output_rate {
            Some(settings_for(input_rate, output_rate, channels))
        } else {
            None
        },
{
    if input_rate != output_rate {
        Some(
            ConversionSettings {
                input_rate,
                output_rate,
                channels,
                chunk_frames: CHUNK_FRAMES,
                sinc_length: SINC_LENGTH,
                oversampling_factor: OVERSAMPLING_FACTOR,
                cutoff_percent: CUTOFF_PERCENT,
                max_relative_ratio: MAX_RELATIVE_RATIO,
            },
        )
    } else {
        None
    }
}

/// What the converter made of one chunk.
pub enum Conversion {
    /// The converted samples, channel by channel.
    Converted(Vec<Vec<Sample>>),
    /// The converter failed, where it would have given `expected_frames`
    /// samples per channel.
    Failed { expected_frames: usize },
}

/// `channels` channels of `frames` silent samples each.
pub open spec fn silent_channels(channels: nat, frames: nat) -> Seq<Seq<Sample>> {
    Seq::new(channels, |c: int| silence(frames))
}

/// The block to play after a conversion.
pub open spec fn converted_samples(outcome: Conversion, channels: nat) -> Seq<Seq<Sample>> {
    match outcome {
        Conversion::Converted(block) => channel_views(block@),
        Conversion::Failed { expected_frames } => silent_channels(channels, expected_frames as nat),
    }
}

/// The block to play after a conversion: what the converter gave, or, where
/// it failed, silence of the length it was expected to give, for each of the
/// `channels` input channels. A failure thus costs one block of sound and
/// never reaches the audio thread.
pub fn converted_block(outcome: Conversion, channels: usize) -> (block: Vec<Vec<Sample>>)
    ensures
        channel_views(block@) == converted_samples(outcome, channels as nat),
{
    match outcome {
        Conversion::Converted(block) => block,
        Conversion::Failed { expected_frames } => {
            let mut block: Vec<Vec<Sample>> = Vec::with_capacity(channels);
            let mut c: usize = 0;
            while c < channels
                invariant
                    c <= channels,
                    block@.len() == c,
                    channel_views(block@) == silent_channels(c as nat, expected_frames as nat),
                decreases channels - c,
            {
                let ghost before = block@;
                block.push(silent_block(expected_frames));
                assert(channel_views(block@) =~= silent_channels(
                    (c + 1) as nat,
                    expected_frames as nat,
                )) by {
                    assert forall|k: int| 0 <= k < c + 1 implies (#[trigger] block@[k])@
                        == silence(expected_frames as nat) by {
                        if k < c {
                            assert(block@[k] == before[k]);
                            assert(channel_views(before)[k] == before[k]@);
                        }
                    }
                }
                c = c + 1;
            }
            block
        },
    }
}

} // verus!
