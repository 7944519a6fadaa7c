//! The two sample-dropping transforms: taking the first channel of every
//! frame, and nearest-neighbour decimation to the target rate.

use vstd::prelude::*;

verus! {

/// The rate, in samples per second, that batches are reduced to.
pub const TARGET_RATE: usize = 16000;

/// How many of `n` positions are multiples of `stride`: `n / stride`,
/// rounded up.
pub open spec fn strided_len(n: nat, stride: nat) -> nat {
    ((n + stride - 1) / (stride as int)) as nat
}

/// The items of `s` at positions `0, stride, 2 * stride, ...`.
pub open spec fn every_nth(s: Seq<i16>, stride: nat) -> Seq<i16> {
    Seq::new(strided_len(s.len(), stride), |i: int| s[i * stride])
}

/// `count` is `n / stride` rounded up exactly when it is the least number of
/// strides that reach `n`.
pub proof fn lemma_strided_len(n: nat, stride: nat, count: nat)
    requires
        stride > 0,
    ensures
        count == strided_len(n, stride) <==> (count * stride >= n && (count > 0 ==> (count - 1)
            * stride < n)),
{
    let q = strided_len(n, stride) as int;
    let m = n + stride - 1;
    let d = stride as int;
    vstd::arithmetic::div_mod::lemma_fundamental_div_mod(m, d);
    vstd::arithmetic::div_mod::lemma_mod_bound(m, d);
    assert(m == d * q + m % d);
    assert(q >= 0) by {
        vstd::arithmetic::div_mod::lemma_div_pos_is_pos(m, d);
    }
    assert(q * d >= n && (q > 0 ==> (q - 1) * d < n)) by (nonlinear_arith)
        requires
            m == d * q + m % d,
            0 <= m % d < d,
            m == n + d - 1,
            d > 0,
    ;
    let c = count as int;
    if c * d >= n && (c > 0 ==> (c - 1) * d < n) {
        assert(c == q) by (nonlinear_arith)
            requires
                c * d >= n,
                c > 0 ==> (c - 1) * d < n,
                q * d >= n,
                q > 0 ==> (q - 1) * d < n,
                c >= 0,
                q >= 0,
                d > 0,
                n >= 0,
        ;
    }
}

/// The first `count` items of `every_nth`.
spec fn strided_prefix(s: Seq<i16>, stride: nat, count: nat) -> Seq<i16> {
    Seq::new(count, |i: int| s[i * stride])
}

/// Keeps the samples at positions `0, stride, 2 * stride, ...` and drops the
/// rest.
pub fn keep_every(samples: &[i16], stride: usize) -> (kept: Vec<i16>)
    requires
        stride > 0,
    ensures
        kept@ == every_nth(samples@, stride as nat),
{
    let n = samples.len();
    let mut kept: Vec<i16> = Vec::new();
    if n == 0 {
        proof {
            lemma_strided_len(0, stride as nat, 0);
        }
        return kept;
    }
    let mut i: usize = 0;
    assert(kept.len() * stride == 0) by (nonlinear_arith)
        requires
            kept.len() == 0,
    ;
    loop
        invariant_except_break
            i < n,
            i == kept.len() * stride,
        invariant
            n == samples.len(),
            stride > 0,
            kept@ == strided_prefix(samples@, stride as nat, kept.len() as nat),
        ensures
            kept.len() > 0,
            (kept.len() - 1) * stride < n <= kept.len() * stride,
        decreases n - i,
    {
        let ghost count = kept.len() as int;
        kept.push(samples[i]);
        assert((count + 1) * stride == count * stride + stride) by (nonlinear_arith);
        assert(kept@ == strided_prefix(samples@, stride as nat, kept.len() as nat));
        if stride >= n - i {
            break ;
        }
        i += stride;
    }
    proof {
        lemma_strided_len(n as nat, stride as nat, kept.len() as nat);
    }
    kept
}

/// Reduces interleaved frames of `channel_count` samples to one channel by
/// keeping the first sample of every frame. A single channel passes
/// through.
pub fn downmix(samples: &[i16], channel_count: u16) -> (mono: Vec<i16>)
    requires
        channel_count > 0,
    ensures
        mono@ == every_nth(samples@, channel_count as nat),
        channel_count == 1 ==> mono@ == samples@,
{
    proof {
        lemma_stride_one(samples@);
    }
    keep_every(samples, channel_count as usize)
}

/// The whole number of captured samples per target-rate sample.
pub fn decimation_ratio(sample_rate: usize) -> (ratio: usize)
    ensures
        ratio == sample_rate / TARGET_RATE,
        ratio > 0 <==> sample_rate >= TARGET_RATE,
{
    sample_rate / TARGET_RATE
}

/// Keeps every `ratio`-th sample, starting with the first. A ratio of one
/// keeps them all.
pub fn decimate(samples: &[i16], ratio: usize) -> (kept: Vec<i16>)
    requires
        ratio > 0,
    ensures
        kept@ == every_nth(samples@, ratio as nat),
        ratio == 1 ==> kept@ == samples@,
{
    proof {
        lemma_stride_one(samples@);
    }
    keep_every(samples, ratio)
}

/// A stride of one keeps everything.
pub proof fn lemma_stride_one(samples: Seq<i16>)
    ensures
        every_nth(samples, 1) == samples,
{
    assert(every_nth(samples, 1) =~= samples);
}

/// Downmixing `frames` whole frames of `channel_count` samples each yields
/// exactly `frames` samples, each the first sample of its frame.
pub proof fn lemma_downmix_whole_frames(samples: Seq<i16>, channel_count: nat, frames: nat)
    requires
        channel_count > 0,
        samples.len() == channel_count * frames,
    ensures
        every_nth(samples, channel_count).len() == frames,
        forall|f: int|
            0 <= f < frames ==> #[trigger] every_nth(samples, channel_count)[f] == samples[f
                * channel_count],
{
    lemma_strided_len(samples.len(), channel_count, frames);
    assert(frames * channel_count >= samples.len() && (frames > 0 ==> (frames - 1) * channel_count
        < samples.len())) by (nonlinear_arith)
        requires
            channel_count > 0,
            samples.len() == channel_count * frames,
    ;
}

/// Decimating `n` samples by `ratio` yields `n / ratio` rounded up samples:
/// the least count whose strides reach `n`. They are the samples at
/// positions `0, ratio, 2 * ratio, ...`, each of them inside the input.
pub proof fn lemma_decimate_positions(samples: Seq<i16>, ratio: nat)
    requires
        ratio > 0,
    ensures
        every_nth(samples, ratio).len() * ratio >= samples.len(),
        every_nth(samples, ratio).len() > 0 ==> (every_nth(samples, ratio).len() - 1) * ratio
            < samples.len(),
        forall|i: int|
            0 <= i < every_nth(samples, ratio).len() ==> 0 <= i * ratio < samples.len()
                && #[trigger] every_nth(samples, ratio)[i] == samples[i * ratio],
{
    let count = every_nth(samples, ratio).len();
    lemma_strided_len(samples.len(), ratio, count);
    assert forall|i: int| 0 <= i < count implies 0 <= #[trigger] (i * ratio) < samples.len() by {
        assert(0 <= i * ratio <= (count - 1) * ratio) by (nonlinear_arith)
            requires
                0 <= i <= count - 1,
                ratio > 0,
        ;
    }
}

} // verus!
