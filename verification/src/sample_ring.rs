//! Fixed-capacity ring of samples with overwrite-oldest eviction, backed by
//! `ringbuf::HeapRb`.

use crate::recent::keep_last;
use ringbuf::traits::{Consumer, Observer, RingBuffer};
use ringbuf::HeapRb;
use vstd::prelude::*;

verus! {

/// The outside ring buffer. Verus sees nothing inside it: what it holds is
/// spoken of through `ring_contents` and `ring_capacity` alone.
#[verifier::external_body]
pub struct RingStore {
    rb: HeapRb<i16>,
}

/// The samples that a ring currently holds, oldest first.
pub uninterp spec fn ring_contents(rb: RingStore) -> Seq<i16>;

/// The capacity that a ring was created with.
pub uninterp spec fn ring_capacity(rb: RingStore) -> nat;

/// What an overwriting push leaves in a ring of capacity `cap`.
pub open spec fn pushed(contents: Seq<i16>, cap: nat, sample: i16) -> Seq<i16> {
    if contents.len() < cap {
        contents.push(sample)
    } else {
        contents.drop_first().push(sample)
    }
}

/// What a run of overwriting pushes, in order, leaves in a ring.
pub open spec fn pushed_all(contents: Seq<i16>, cap: nat, samples: Seq<i16>) -> Seq<i16>
    decreases samples.len(),
{
    if samples.len() == 0 {
        contents
    } else {
        pushed(pushed_all(contents, cap, samples.drop_last()), cap, samples.last())
    }
}

/// `HeapRb::new`: an empty ring with exactly the requested capacity. The
/// outside function panics on a zero capacity and on a byte size that the
/// allocator cannot be asked for, so both are excluded.
#[verifier::external_body]
fn rb_new(capacity: usize) -> (rb: RingStore)
    requires
        0 < capacity,
        2 * capacity <= isize::MAX,
    ensures
        ring_contents(rb) == Seq::<i16>::empty(),
        ring_capacity(rb) == capacity,
{
    RingStore { rb: HeapRb::<i16>::new(capacity) }
}

/// `Observer::occupied_len`: the number of samples held.
#[verifier::external_body]
fn rb_occupied_len(rb: &RingStore) -> (n: usize)
    ensures
        n == ring_contents(*rb).len(),
{
    rb.rb.occupied_len()
}

/// `RingBuffer::push_overwrite`: appends the sample; a full ring first gives
/// up its oldest sample, which is returned.
#[verifier::external_body]
fn rb_push_overwrite(rb: &mut RingStore, sample: i16) -> (evicted: Option<i16>)
    ensures
        ring_capacity(*final(rb)) == ring_capacity(*old(rb)),
        ring_contents(*final(rb)) == pushed(ring_contents(*old(rb)), ring_capacity(*old(rb)), sample),
        evicted == if ring_contents(*old(rb)).len() == ring_capacity(*old(rb)) {
            Some(ring_contents(*old(rb))[0])
        } else {
            None::<i16>
        },
    no_unwind
{
    rb.rb.push_overwrite(sample)
}

/// `Consumer::try_pop`: removes and returns the oldest sample, if any.
#[verifier::external_body]
fn rb_try_pop(rb: &mut RingStore) -> (popped: Option<i16>)
    ensures
        ring_capacity(*final(rb)) == ring_capacity(*old(rb)),
        ring_contents(*old(rb)).len() == 0 ==> popped is None && ring_contents(*final(rb))
            == ring_contents(*old(rb)),
        ring_contents(*old(rb)).len() > 0 ==> popped == Some(ring_contents(*old(rb))[0])
            && ring_contents(*final(rb)) == ring_contents(*old(rb)).drop_first(),
    no_unwind
{
    rb.rb.try_pop()
}

/// The hand-off between capture and processing: a FIFO of samples with a
/// fixed capacity, in which a push to a full ring evicts the oldest sample.
pub struct SampleRing {
    rb: RingStore,
}

impl SampleRing {
    #[verifier::type_invariant]
    spec fn inv(self) -> bool {
        &&& 0 < ring_capacity(self.rb) <= usize::MAX
        &&& ring_contents(self.rb).len() <= ring_capacity(self.rb)
    }

    /// The samples held, oldest first.
    pub closed spec fn view(&self) -> Seq<i16> {
        ring_contents(self.rb)
    }

    /// The fixed capacity, in samples.
    pub closed spec fn capacity(&self) -> nat {
        ring_capacity(self.rb)
    }

    /// An empty ring for `capacity` samples.
    pub fn new(capacity: usize) -> (ring: Self)
        requires
            0 < capacity,
            2 * capacity <= isize::MAX,
        ensures
            ring@ == Seq::<i16>::empty(),
            ring.capacity() == capacity,
    {
        SampleRing { rb: rb_new(capacity) }
    }

    /// The number of samples held: never more than the capacity.
    pub fn occupancy(&self) -> (n: usize)
        ensures
            n == self@.len(),
            n <= self.capacity(),
    {
        proof {
            use_type_invariant(self);
        }
        rb_occupied_len(&self.rb)
    }

    /// Appends `sample`; a full ring gives up its oldest sample for it.
    pub fn push(&mut self, sample: i16)
        ensures
            final(self).capacity() == old(self).capacity(),
            final(self)@ == pushed(old(self)@, old(self).capacity(), sample),
    {
        proof {
            use_type_invariant(&*self);
        }
        let _ = rb_push_overwrite(&mut self.rb, sample);
    }

    /// Pushes every sample of `samples`, in order.
    pub fn push_all(&mut self, samples: &[i16])
        ensures
            final(self).capacity() == old(self).capacity(),
            final(self)@ == pushed_all(old(self)@, old(self).capacity(), samples@),
            final(self)@ == keep_last(old(self)@ + samples@, old(self).capacity()),
    {
        proof {
            use_type_invariant(&*self);
        }
        let mut i: usize = 0;
        while i < samples.len()
            invariant
                i <= samples.len(),
                self.capacity() == old(self).capacity(),
                self@ == pushed_all(old(self)@, old(self).capacity(), samples@.take(i as int)),
            decreases samples.len() - i,
        {
            proof {
                assert(samples@.take(i + 1).drop_last() == samples@.take(i as int));
            }
            self.push(samples[i]);
            i += 1;
        }
        proof {
            assert(samples@.take(i as int) == samples@);
            lemma_push_storm(old(self)@, old(self).capacity(), samples@);
        }
    }

    /// Removes every sample held and returns them, oldest first.
    pub fn drain_all(&mut self) -> (samples: Vec<i16>)
        ensures
            samples@ == old(self)@,
            final(self)@ == Seq::<i16>::empty(),
            final(self).capacity() == old(self).capacity(),
    {
        let mut samples: Vec<i16> = Vec::new();
        loop
            invariant
                self.capacity() == old(self).capacity(),
                samples@ + self@ == old(self)@,
            ensures
                self.capacity() == old(self).capacity(),
                samples@ == old(self)@,
                self@ == Seq::<i16>::empty(),
            decreases self@.len(),
        {
            proof {
                use_type_invariant(&*self);
            }
            match rb_try_pop(&mut self.rb) {
                Some(sample) => {
                    proof {
                        let before = samples@ + seq![sample] + self@;
                        assert(samples@.push(sample) + self@ == before);
                    }
                    samples.push(sample);
                },
                None => {
                    proof {
                        assert(samples@ + self@ == samples@);
                    }
                    break ;
                },
            }
        }
        samples
    }
}

/// A ring never holds more than its capacity, and after any run of pushes it
/// holds the most recent samples, in the order in which they were pushed:
/// the last `cap` of what it held followed by what was pushed.
pub proof fn lemma_push_storm(contents: Seq<i16>, cap: nat, samples: Seq<i16>)
    requires
        0 < cap,
        contents.len() <= cap,
    ensures
        pushed_all(contents, cap, samples).len() <= cap,
        pushed_all(contents, cap, samples) == keep_last(contents + samples, cap),
    decreases samples.len(),
{
    if samples.len() == 0 {
        assert(contents + samples == contents);
    } else {
        let front = samples.drop_last();
        lemma_push_storm(contents, cap, front);
        assert(contents + samples == (contents + front).push(samples.last()));
    }
}

/// Starting from an empty ring, as a drain leaves it, pushing no more
/// samples than the capacity and draining again gives back exactly what was
/// pushed, in push order.
pub proof fn lemma_drain_returns_pushes(cap: nat, samples: Seq<i16>)
    requires
        0 < cap,
        samples.len() <= cap,
    ensures
        pushed_all(Seq::<i16>::empty(), cap, samples) == samples,
{
    lemma_push_storm(Seq::<i16>::empty(), cap, samples);
    assert(Seq::<i16>::empty() + samples == samples);
}

} // verus!
