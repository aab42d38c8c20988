//! Filling the output device's buffer from a block of per-channel samples.

use vstd::arithmetic::div_mod::{lemma_fundamental_div_mod, lemma_fundamental_div_mod_converse};
use vstd::prelude::*;
use crate::monitor::{channel_len, channel_samples, channel_views, lemma_channel_samples_by_frame};
use crate::sample::{Sample, SILENCE};

verus! {

/// The sample at position `i` of an output buffer of `out_len` samples for
/// `out_channels` interleaved channels, filled from `block`: position `i`
/// belongs to frame `i / out_channels` and channel `i % out_channels`, and
/// takes that channel's sample of that frame where `block` has one. Every
/// other position is silent: a channel that `block` lacks, a frame behind
/// the end of its channel, and what lies behind the last whole frame.
pub open spec fn frame_sample(
    block: Seq<Seq<Sample>>,
    out_len: nat,
    out_channels: nat,
    i: int,
) -> Sample {
    if out_channels == 0 {
        SILENCE
    } else {
        let frame = i / (out_channels as int);
        let channel = i % (out_channels as int);
        if frame < out_len / out_channels && channel < block.len() && frame
            < block[channel].len() {
            block[channel][frame]
        } else {
            SILENCE
        }
    }
}

/// An output buffer of `out_len` samples filled from `block`.
pub open spec fn rendered(block: Seq<Seq<Sample>>, out_len: nat, out_channels: nat) -> Seq<
    Sample,
> {
    Seq::new(out_len, |i: int| frame_sample(block, out_len, out_channels, i))
}

/// Renders `block` into an output buffer of `out_len` samples for
/// `out_channels` interleaved channels. The number of output channels need
/// not be that of the block; samples of the block behind the last frame of
/// the buffer are dropped.
pub fn render_frames(block: &Vec<Vec<Sample>>, out_len: usize, out_channels: usize) -> (out: Vec<
    Sample,
>)
    ensures
        out@ == rendered(channel_views(block@), out_len as nat, out_channels as nat),
{
    let mut out: Vec<Sample> = Vec::with_capacity(out_len);
    let frames: usize = if out_channels == 0 {
        0
    } else {
        out_len / out_channels
    };
    let mut i: usize = 0;
    while i < out_len
        invariant
            i <= out_len,
            out_channels > 0 ==> frames == out_len / out_channels,
            out@ == rendered(channel_views(block@), out_len as nat, out_channels as nat).take(
                i as int,
            ),
        decreases out_len - i,
    {
        let mut value: Sample = SILENCE;
        if out_channels > 0 {
            let frame = i / out_channels;
            let channel = i % out_channels;
            if frame < frames && channel < block.len() {
                if frame < block[channel].len() {
                    value = block[channel][frame];
                }
            }
        }
        out.push(value);
        i = i + 1;
    }
    out
}

/// Whole frames come out as they went in: where `data` holds whole frames of
/// `channels` interleaved channels, splitting it by channel and rendering
/// the channels into a buffer of the same size and channel count gives
/// `data` back.
pub proof fn lemma_split_then_render_is_identity(data: Seq<Sample>, channels: nat)
    requires
        channels > 0,
        data.len() % channels == 0,
    ensures
        rendered(
            Seq::new(channels, |c: int| channel_samples(data, channels, c as nat)),
            data.len(),
            channels,
        ) == data,
{
    let ch = channels as int;
    let frames = data.len() as int / ch;
    let block = Seq::new(channels, |c: int| channel_samples(data, channels, c as nat));
    lemma_fundamental_div_mod(data.len() as int, ch);
    assert(ch * frames == frames * ch) by (nonlinear_arith);
    assert forall|i: int| 0 <= i < data.len() implies frame_sample(
        block,
        data.len(),
        channels,
        i,
    ) == data[i] by {
        let frame = i / ch;
        let channel = i % ch;
        lemma_fundamental_div_mod(i, ch);
        assert(ch * frame == frame * ch) by (nonlinear_arith);
        assert(frame < frames) by (nonlinear_arith)
            requires
                frame * ch + channel < frames * ch,
                0 <= channel,
                ch > 0,
        ;
        lemma_channel_samples_by_frame(data, channels, channel as nat);
        lemma_fundamental_div_mod_converse(
            data.len() + ch - 1 - channel,
            ch,
            frames,
            ch - 1 - channel,
        );
        assert(channel_len(data.len(), channels, channel as nat) == frames);
        assert(block[channel] == channel_samples(data, channels, channel as nat));
        assert(channel_samples(data, channels, channel as nat)[frame] == data[frame * channels
            + channel]);
    }
    assert(rendered(block, data.len(), channels) =~= data);
}

} // verus!
