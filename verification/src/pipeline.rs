//! The consumer side: when a batch is due, and what a drained batch becomes
//! before it is sent.

use crate::coletor::CaptureFormat;
use crate::resample::{decimate, decimation_ratio, downmix, every_nth, TARGET_RATE};
use crate::sample_ring::SampleRing;
use vstd::prelude::*;

verus! {

/// Where the wait for the next batch stands.
#[derive(Clone, Copy, Debug, PartialEq, Eq, Structural)]
pub enum WaitState {
    /// No batch has been released yet: only a full threshold releases the
    /// first one.
    Priming,
    /// Waiting for a new batch, with nothing buffered when last looked.
    Idle,
    /// Waiting for a new batch; the ring first held something at
    /// `since_ms`.
    Timing { since_ms: u64 },
}

/// The occupancy from which a batch is due: the samples that
/// `min_batch_ms` milliseconds come to at `sample_rate`, rounded down, and
/// no more than a `usize` holds.
pub open spec fn threshold_of(sample_rate: usize, min_batch_ms: u32) -> usize {
    if sample_rate * min_batch_ms / 1000 <= usize::MAX {
        (sample_rate * min_batch_ms / 1000) as usize
    } else {
        usize::MAX
    }
}

/// The time for which the ring has held something, as far as the polls have
/// shown; zero where the clock reads earlier than the start.
pub open spec fn waited(since_ms: u64, now_ms: u64) -> nat {
    if now_ms >= since_ms {
        (now_ms - since_ms) as nat
    } else {
        0
    }
}

/// One look at the ring: where the wait stands afterwards, and whether the
/// batch is to be drained now. A batch is due once the occupancy has reached the
/// threshold; after the first batch it is also due once a ring that is not
/// empty has stayed under the threshold for more than `stall_ms`.
pub open spec fn wait_step(
    wait: WaitState,
    threshold: usize,
    stall_ms: u64,
    occupancy: nat,
    now_ms: u64,
) -> (WaitState, bool) {
    if occupancy >= threshold {
        (WaitState::Idle, true)
    } else {
        match wait {
            WaitState::Priming => (WaitState::Priming, false),
            WaitState::Idle => if occupancy == 0 {
                (WaitState::Idle, false)
            } else {
                (WaitState::Timing { since_ms: now_ms }, false)
            },
            WaitState::Timing { since_ms } => if occupancy == 0 {
                (WaitState::Idle, false)
            } else if waited(since_ms, now_ms) > stall_ms {
                (WaitState::Idle, true)
            } else {
                (WaitState::Timing { since_ms }, false)
            },
        }
    }
}

/// What a drained batch becomes: the first channel of every frame, and of
/// those every `ratio`-th sample.
pub open spec fn batch_of(raw: Seq<i16>, channel_count: u16, ratio: usize) -> Seq<i16> {
    every_nth(every_nth(raw, channel_count as nat), ratio as nat)
}

/// The batching policy of one capture session.
pub struct Pipeline {
    format: CaptureFormat,
    min_batch_ms: u32,
    wait: WaitState,
}

impl Pipeline {
    #[verifier::type_invariant]
    spec fn inv(self) -> bool {
        self.format.rate() >= TARGET_RATE
    }

    /// The capture format.
    pub closed spec fn format(&self) -> CaptureFormat {
        self.format
    }

    /// The minimum batch length, in milliseconds; also the stall timeout.
    pub closed spec fn min_batch(&self) -> u32 {
        self.min_batch_ms
    }

    /// Where the wait for the next batch stands.
    pub closed spec fn wait(&self) -> WaitState {
        self.wait
    }

    /// The occupancy from which a batch is due.
    pub open spec fn threshold(&self) -> usize {
        threshold_of(self.format().rate(), self.min_batch())
    }

    /// The captured samples per sample sent.
    pub open spec fn ratio(&self) -> usize {
        (self.format().rate() / TARGET_RATE) as usize
    }

    /// The policy for `format` with batches of at least `min_batch_ms`
    /// milliseconds. No batch has been released yet.
    pub fn new(format: CaptureFormat, min_batch_ms: u32) -> (pipeline: Self)
        requires
            format.rate() >= TARGET_RATE,
        ensures
            pipeline.format() == format,
            pipeline.min_batch() == min_batch_ms,
            pipeline.wait() == WaitState::Priming,
    {
        Pipeline { format, min_batch_ms, wait: WaitState::Priming }
    }

    /// The occupancy from which a batch is due.
    pub fn batch_threshold(&self) -> (threshold: usize)
        ensures
            threshold == self.threshold(),
    {
        let rate = self.format.sample_rate() as u128;
        let millis = self.min_batch_ms as u128;
        assert(rate * millis <= 0xffff_ffff_ffff_ffff * 0xffff_ffff) by (nonlinear_arith)
            requires
                0 <= rate <= 0xffff_ffff_ffff_ffff,
                0 <= millis <= 0xffff_ffff,
        ;
        let samples: u128 = rate * millis / 1000;
        if samples > usize::MAX as u128 {
            usize::MAX
        } else {
            samples as usize
        }
    }

    /// Whether a batch is due, given what the ring holds now and what the
    /// clock reads.
    pub fn poll(&mut self, occupancy: usize, now_ms: u64) -> (due: bool)
        ensures
            final(self).format() == old(self).format(),
            final(self).min_batch() == old(self).min_batch(),
            (final(self).wait(), due) == wait_step(
                old(self).wait(),
                old(self).threshold(),
                old(self).min_batch() as u64,
                occupancy as nat,
                now_ms,
            ),
            occupancy >= old(self).threshold() ==> due,
            due ==> occupancy >= old(self).threshold() || occupancy > 0,
    {
        proof {
            use_type_invariant(&*self);
        }
        let threshold = self.batch_threshold();
        let stall_ms = self.min_batch_ms as u64;
        let (next, due) = if occupancy >= threshold {
            (WaitState::Idle, true)
        } else {
            match self.wait {
                WaitState::Priming => (WaitState::Priming, false),
                WaitState::Idle => {
                    if occupancy == 0 {
                        (WaitState::Idle, false)
                    } else {
                        (WaitState::Timing { since_ms: now_ms }, false)
                    }
                },
                WaitState::Timing { since_ms } => {
                    if occupancy == 0 {
                        (WaitState::Idle, false)
                    } else if now_ms >= since_ms && now_ms - since_ms > stall_ms {
                        (WaitState::Idle, true)
                    } else {
                        (WaitState::Timing { since_ms }, false)
                    }
                },
            }
        };
        self.wait = next;
        due
    }

    /// Reduces a drained batch to mono at the target rate: the first channel
    /// of every frame, then every `ratio`-th sample.
    pub fn transform(&self, raw: &[i16]) -> (batch: Vec<i16>)
        ensures
            batch@ == batch_of(raw@, self.format().channels(), self.ratio()),
    {
        proof {
            use_type_invariant(self);
        }
        let mono = downmix(raw, self.format.channel_count());
        let ratio = decimation_ratio(self.format.sample_rate());
        decimate(mono.as_slice(), ratio)
    }

    /// One turn of the consumer loop. Where no batch is due the ring is left
    /// alone and nothing is returned; where one is due the ring is drained
    /// whole and the reduced batch is returned for sending.
    pub fn step(&mut self, ring: &mut SampleRing, now_ms: u64) -> (batch: Option<Vec<i16>>)
        ensures
            final(self).format() == old(self).format(),
            final(self).min_batch() == old(self).min_batch(),
            final(ring).capacity() == old(ring).capacity(),
            (final(self).wait(), batch is Some) == wait_step(
                old(self).wait(),
                old(self).threshold(),
                old(self).min_batch() as u64,
                old(ring)@.len(),
                now_ms,
            ),
            batch matches Some(samples) ==> samples@ == batch_of(
                old(ring)@,
                old(self).format().channels(),
                old(self).ratio(),
            ) && final(ring)@ == Seq::<i16>::empty(),
            batch is None ==> final(ring)@ == old(ring)@,
    {
        let occupancy = ring.occupancy();
        if self.poll(occupancy, now_ms) {
            let raw = ring.drain_all();
            Some(self.transform(raw.as_slice()))
        } else {
            None
        }
    }
}

/// Every sample of a reduced batch is a captured one: the `i`-th is the first
/// sample of frame `i * ratio` of what was drained, which lies inside it.
pub proof fn lemma_batch_positions(raw: Seq<i16>, channel_count: u16, ratio: usize, i: int)
    requires
        channel_count > 0,
        ratio > 0,
        0 <= i < batch_of(raw, channel_count, ratio).len(),
    ensures
        0 <= i * ratio * channel_count < raw.len(),
        batch_of(raw, channel_count, ratio)[i] == raw[i * ratio * channel_count],
{
    let mono = every_nth(raw, channel_count as nat);
    let batch = every_nth(mono, ratio as nat);
    crate::resample::lemma_decimate_positions(mono, ratio as nat);
    crate::resample::lemma_decimate_positions(raw, channel_count as nat);
    let j = i * ratio;
    assert(batch[i] == mono[j]);
    assert(mono[j] == raw[j * channel_count]);
}

} // verus!
