//! Samples and the sequence operations the buffers are specified with.

use vstd::prelude::*;

verus! {

/// One amplitude value, held as the bit pattern of a 32-bit IEEE-754 number.
/// Samples of several channels are interleaved in the order of capture.
pub type Sample = u32;

/// The bit pattern of the amplitude zero.
pub const SILENCE: Sample = 0;

/// The last `n` elements of `s`, or all of `s` where it has fewer.
pub open spec fn keep_last(s: Seq<Sample>, n: nat) -> Seq<Sample> {
    if s.len() <= n {
        s
    } else {
        s.subrange(s.len() - n, s.len() as int)
    }
}

/// Keeping the last `n` after each sample is the same as keeping the last `n` once.
pub proof fn lemma_keep_last_step(s: Seq<Sample>, x: Sample, n: nat)
    ensures
        keep_last(keep_last(s, n).push(x), n) == keep_last(s.push(x), n),
{
}

/// Keeping the last `n` of what was kept and what came after is the same as
/// keeping the last `n` of everything.
pub proof fn lemma_keep_last_concat(s: Seq<Sample>, t: Seq<Sample>, n: nat)
    ensures
        keep_last(keep_last(s, n) + t, n) == keep_last(s + t, n),
{
    assert(keep_last(keep_last(s, n) + t, n) =~= keep_last(s + t, n));
}

/// `keep_last` gives the shorter of the sequence's length and `n`.
pub proof fn lemma_keep_last_len(s: Seq<Sample>, n: nat)
    ensures
        keep_last(s, n).len() == if s.len() <= n {
            s.len()
        } else {
            n
        },
{
}

/// `n` samples of silence.
pub open spec fn silence(n: nat) -> Seq<Sample> {
    Seq::new(n, |i: int| SILENCE)
}

/// A vector of `n` silent samples.
pub fn silent_block(n: usize) -> (block: Vec<Sample>)
    ensures
        block@ == silence(n as nat),
{
    let mut block: Vec<Sample> = Vec::new();
    let mut i: usize = 0;
    while i < n
        invariant
            i <= n,
            block@ == silence(i as nat),
        decreases n - i,
    {
        block.push(SILENCE);
        i = i + 1;
    }
    block
}

/// Appends `src[from..to]` to `out`.
pub(crate) fn append_range(out: &mut Vec<Sample>, src: &Vec<Sample>, from: usize, to: usize)
    requires
        from <= to <= src@.len(),
    ensures
        final(out)@ == old(out)@ + src@.subrange(from as int, to as int),
{
    let mut i: usize = from;
    while i < to
        invariant
            from <= i <= to <= src@.len(),
            out@ == old(out)@ + src@.subrange(from as int, i as int),
        decreases to - i,
    {
        out.push(src[i]);
        i = i + 1;
    }
}

/// Appends `src` to `out`.
pub(crate) fn append_slice(out: &mut Vec<Sample>, src: &[Sample])
    ensures
        final(out)@ == old(out)@ + src@,
{
    let mut i: usize = 0;
    while i < src.len()
        invariant
            i <= src@.len(),
            out@ == old(out)@ + src@.subrange(0, i as int),
        decreases src@.len() - i,
    {
        out.push(src[i]);
        i = i + 1;
    }
    assert(src@.subrange(0, i as int) == src@);
}

} // verus!
