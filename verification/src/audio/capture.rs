//! Capture: how the input stream and its buffers are sized, and the bridge
//! that turns the ring buffer's contents into chunks.
//!
//! The ring buffer is shared between the audio driver's callback, which
//! pushes, and the bridge, which pops. The bridge sees it through the
//! consumer half alone, so everything stated here holds whatever the
//! callback pushes in the meantime.

use super::format::{max_ring_capacity, AudioFormat, CHUNK_MILLIS, RING_MILLIS};
use ringbuf::traits::{Consumer, Observer, Producer, Split};
use ringbuf::{HeapCons, HeapProd, HeapRb};
use vstd::prelude::*;

verus! {

/// The producer half of the ring buffer: the side of the audio driver's
/// callback. It holds a `ringbuf::HeapProd<u32>`.
#[verifier::external_body]
pub struct SampleSource {
    inner: HeapProd<u32>,
}

/// The consumer half of the ring buffer: the side of the bridge. It holds a
/// `ringbuf::HeapCons<u32>`.
#[verifier::external_body]
pub struct SampleQueue {
    inner: HeapCons<u32>,
}

/// The samples that a consumer half has seen in its ring buffer and not yet
/// popped, oldest first. The producer may have pushed more since the consumer
/// last looked; those are not part of it until the consumer looks again.
pub uninterp spec fn ring_queued(queue: &SampleQueue) -> Seq<u32>;

/// The samples that a producer half has pushed into its ring buffer and not
/// yet seen popped, oldest first. The consumer may have popped more since the
/// producer last looked; those stay part of it until the producer looks
/// again.
pub uninterp spec fn ring_pending(source: &SampleSource) -> Seq<u32>;

/// The number of samples that the ring buffer of a producer half was made
/// for.
pub uninterp spec fn ring_capacity(source: &SampleSource) -> nat;

/// What one push makes of the pending samples: the oldest of them that were
/// seen popped in the meantime are gone, the others stay in their order, and
/// the sample follows them.
pub open spec fn appended(before: Seq<u32>, after: Seq<u32>, sample: u32) -> bool {
    &&& 0 < after.len() <= before.len() + 1
    &&& after.last() == sample
    &&& after.drop_last() == before.skip(before.len() + 1 - after.len())
}

/// `ringbuf::HeapRb::new` followed by `ringbuf::traits::Split::split`: a
/// ring buffer of the given capacity, split into its two halves. Nothing has
/// been pushed yet: the consumer sees nothing queued, the producer has
/// nothing pending. `new` panics on a capacity of zero, and on one whose
/// storage would exceed half the address space.
#[verifier::external_body]
fn ring_open(capacity: usize) -> (halves: (SampleSource, SampleQueue))
    requires
        0 < capacity <= max_ring_capacity(),
    ensures
        ring_capacity(&halves.0) == capacity,
        ring_pending(&halves.0) == Seq::<u32>::empty(),
        ring_queued(&halves.1) == Seq::<u32>::empty(),
{
    let (producer, consumer) = HeapRb::<u32>::new(capacity).split();
    (SampleSource { inner: producer }, SampleQueue { inner: consumer })
}

/// `ringbuf::traits::Producer::try_push` on a producer half. While fewer
/// samples are pending than the ring buffer holds, it writes the sample
/// behind them. Where as many are pending as the ring buffer holds, it first
/// looks at the ring buffer again: the samples that were popped in the
/// meantime, the oldest ones, are pending no longer, and the sample is
/// written behind the others; if none was popped, nothing changes and the
/// push fails. The capacity stays what it is.
#[verifier::external_body]
fn ring_push(source: &mut SampleSource, sample: u32) -> (pushed: bool)
    ensures
        ring_capacity(final(source)) == ring_capacity(old(source)),
        ring_pending(old(source)).len() < ring_capacity(old(source)) ==> pushed && ring_pending(
            final(source),
        ) == ring_pending(old(source)).push(sample),
        pushed ==> appended(ring_pending(old(source)), ring_pending(final(source)), sample),
        !pushed ==> ring_pending(final(source)) == ring_pending(old(source)) && ring_pending(
            final(source),
        ).len() == ring_capacity(final(source)),
{
    source.inner.try_push(sample).is_ok()
}

/// `ringbuf::traits::Observer::occupied_len` on a consumer half: it looks at
/// the ring buffer again, so what was seen before is still queued, in the
/// same order, possibly followed by more; the result is the number of
/// samples queued now.
#[verifier::external_body]
fn ring_occupied(queue: &mut SampleQueue) -> (n: usize)
    ensures
        n == ring_queued(final(queue)).len(),
        ring_queued(old(queue)).is_prefix_of(ring_queued(final(queue))),
{
    queue.inner.occupied_len()
}

/// `ringbuf::traits::Consumer::pop_slice` on a consumer half: it looks at
/// the ring buffer again and moves the oldest queued samples into the front
/// of `buf`, as many as fit or, if fewer are queued, all of them. It returns
/// their number and leaves the rest of `buf` as it was.
#[verifier::external_body]
fn ring_pop(queue: &mut SampleQueue, buf: &mut Vec<u32>) -> (n: usize)
    ensures
        n <= old(buf).len(),
        final(buf).len() == old(buf).len(),
        final(buf)@.skip(n as int) == old(buf)@.skip(n as int),
        ring_queued(old(queue)).is_prefix_of(
            final(buf)@.take(n as int) + ring_queued(final(queue)),
        ),
        n < old(buf).len() ==> ring_queued(final(queue)).len() == 0,
{
    queue.inner.pop_slice(buf.as_mut_slice())
}

/// What the input stream is opened with and how its buffers are sized.
#[derive(Clone, Copy, Debug, PartialEq, Eq, Structural)]
pub struct CapturePlan {
    /// Samples per second asked of the device.
    pub sample_rate: u32,
    /// Channels asked of the device.
    pub channels: u16,
    /// Capacity of the ring buffer, in samples: sixty seconds of audio.
    pub ring_capacity: usize,
    /// Samples in one chunk: half a second of audio.
    pub chunk_size: usize,
}

impl CapturePlan {
    /// Whether the ring buffer of the plan can be made: its capacity is not
    /// zero and can be allocated, and a chunk fits into it.
    pub open spec fn spec_can_ring(&self) -> bool {
        0 < self.ring_capacity <= max_ring_capacity() && self.chunk_size <= self.ring_capacity
    }

    /// Whether the ring buffer of the plan can be made.
    #[verifier::when_used_as_spec(spec_can_ring)]
    pub fn can_ring(&self) -> (yes: bool)
        ensures
            yes == self.spec_can_ring(),
    {
        self.ring_capacity > 0 && self.ring_capacity <= usize::MAX / 8 && self.chunk_size
            <= self.ring_capacity
    }
}

pub struct AudioCapture;

impl AudioCapture {
    /// Whether a ring buffer can be made for the format: it must hold at
    /// least one sample, and it must be possible to allocate it.
    pub open spec fn can_plan(format: AudioFormat) -> bool {
        0 < format.spec_samples_for_duration(RING_MILLIS) <= max_ring_capacity()
    }

    /// The plan for a format.
    pub open spec fn spec_plan(format: AudioFormat) -> CapturePlan {
        CapturePlan {
            sample_rate: format.sample_rate,
            channels: format.channels,
            ring_capacity: format.spec_samples_for_duration(RING_MILLIS) as usize,
            chunk_size: format.spec_samples_for_duration(CHUNK_MILLIS) as usize,
        }
    }

    /// Sizes the capture for a format, or says that no ring buffer can be
    /// made for it.
    pub fn plan(format: AudioFormat) -> (plan: Option<CapturePlan>)
        ensures
            plan is Some <==> Self::can_plan(format),
            plan is Some ==> plan->Some_0 == Self::spec_plan(format),
            plan is Some ==> plan->Some_0.can_ring(),
    {
        let ring: u64 = (format.sample_rate as u64) * 60;
        assert(ring == format.spec_samples_for_duration(RING_MILLIS)) by {
            assert((format.sample_rate as int * 60_000) / 1000 == format.sample_rate as int * 60);
        }
        if ring == 0 || ring > (usize::MAX / 8) as u64 {
            return None;
        }
        assert(format.spec_samples_for_duration(CHUNK_MILLIS) <= format.spec_samples_for_duration(
            RING_MILLIS,
        ));
        Some(
            CapturePlan {
                sample_rate: format.sample_rate,
                channels: format.channels,
                ring_capacity: format.samples_for_duration(RING_MILLIS),
                chunk_size: format.samples_for_duration(CHUNK_MILLIS),
            },
        )
    }

    /// Makes the ring buffer of a plan and splits it: the producer half is
    /// for the audio driver's callback, the consumer half for the bridge.
    pub fn ring(plan: &CapturePlan) -> (halves: (CallbackFeed, Bridge))
        requires
            plan.can_ring(),
        ensures
            halves.0.capacity() == plan.ring_capacity,
            halves.0.pending() == Seq::<u32>::empty(),
            halves.0.vacant() == plan.ring_capacity,
            halves.1.queued() == Seq::<u32>::empty(),
            halves.1.taken() == Seq::<u32>::empty(),
            halves.1.chunk_size() == plan.chunk_size,
            halves.1.is_open(),
    {
        let (source, queue) = ring_open(plan.ring_capacity);
        (
            CallbackFeed { source },
            Bridge { queue, chunk_size: plan.chunk_size, open: true, taken: Ghost(Seq::empty()) },
        )
    }
}

/// The producer side of the ring buffer, for the audio driver's callback:
/// it never blocks and never allocates.
pub struct CallbackFeed {
    source: SampleSource,
}

impl CallbackFeed {
    /// The samples pushed and not yet seen popped, oldest first.
    pub closed spec fn pending(&self) -> Seq<u32> {
        ring_pending(&self.source)
    }

    /// The number of samples that the ring buffer holds at most.
    pub closed spec fn capacity(&self) -> nat {
        ring_capacity(&self.source)
    }

    /// The free places seen in the ring buffer and not yet filled: what the
    /// pending samples leave of the capacity.
    pub open spec fn vacant(&self) -> nat {
        if self.pending().len() <= self.capacity() {
            (self.capacity() - self.pending().len()) as nat
        } else {
            0
        }
    }

    /// Pushes one sample, unless the ring buffer is full: then the sample is
    /// dropped, and that is not reported further.
    ///
    /// While a free place has been seen, the sample is written behind the
    /// pending ones and nothing else changes. Otherwise the ring buffer is
    /// looked at again: if samples were popped in the meantime, they are
    /// pending no longer and the sample is written behind the others; if
    /// none was, the sample is dropped and the pending samples stay as they
    /// are.
    pub fn push(&mut self, sample: u32) -> (pushed: bool)
        ensures
            final(self).capacity() == old(self).capacity(),
            old(self).vacant() > 0 ==> pushed,
            old(self).vacant() > 0 ==> final(self).pending() == old(self).pending().push(sample),
            pushed ==> appended(old(self).pending(), final(self).pending(), sample),
            pushed ==> final(self).vacant() + 1 >= old(self).vacant(),
            !pushed ==> final(self).pending() == old(self).pending(),
            !pushed ==> final(self).vacant() == 0,
    {
        ring_push(&mut self.source, sample)
    }

    /// Pushes the samples of one callback, in order, up to the first that
    /// finds the ring buffer full; that one and those behind it are dropped.
    /// Returns how many were pushed. Where as many free places had been seen
    /// as there are samples, all of them are pushed: the pending samples are
    /// then the old ones followed by the samples.
    pub fn push_all(&mut self, samples: &[u32]) -> (pushed: usize)
        ensures
            final(self).capacity() == old(self).capacity(),
            pushed <= samples@.len(),
            old(self).vacant() >= samples@.len() ==> pushed == samples@.len(),
            old(self).vacant() >= samples@.len() ==> final(self).pending() == old(self).pending()
                + samples@,
            pushed < samples@.len() ==> final(self).vacant() == 0,
            final(self).vacant() + pushed >= old(self).vacant(),
            final(self).pending().len() > 0 && pushed > 0 ==> final(self).pending().last()
                == samples@[pushed - 1],
    {
        let mut i: usize = 0;
        while i < samples.len()
            invariant
                i <= samples@.len(),
                self.capacity() == old(self).capacity(),
                self.vacant() + i >= old(self).vacant(),
                old(self).vacant() >= samples@.len() ==> self.pending() == old(self).pending()
                    + samples@.take(i as int),
                i > 0 ==> self.pending().len() > 0 && self.pending().last() == samples@[i - 1],
            decreases samples@.len() - i,
        {
            let ghost before = self.pending();
            if !self.push(samples[i]) {
                return i;
            }
            proof {
                if old(self).vacant() >= samples@.len() {
                    assert(before.push(samples@[i as int]) =~= old(self).pending() + samples@.take(
                        i + 1,
                    ));
                }
            }
            i += 1;
        }
        assert(samples@.take(i as int) =~= samples@);
        i
    }

    /// Pushes the samples of one callback where the driver hands them over
    /// in a form of its own: `bits_of` gives the bit pattern of each. The
    /// samples are pushed in order, up to the first that finds the ring
    /// buffer full; that one and those behind it are dropped. Returns how
    /// many were pushed. Where as many free places had been seen as there
    /// are samples, all of them are pushed: the pending samples are then the
    /// old ones followed by the bit patterns of the samples.
    pub fn push_each<T, F: Fn(&T) -> u32>(&mut self, samples: &[T], bits_of: F) -> (pushed: usize)
        requires
            forall|i: int| 0 <= i < samples@.len() ==> call_requires(bits_of, (&samples@[i],)),
        ensures
            final(self).capacity() == old(self).capacity(),
            pushed <= samples@.len(),
            old(self).vacant() >= samples@.len() ==> pushed == samples@.len(),
            old(self).vacant() >= samples@.len() ==> final(self).pending().len() == old(
                self,
            ).pending().len() + samples@.len(),
            old(self).vacant() >= samples@.len() ==> final(self).pending().take(
                old(self).pending().len() as int,
            ) == old(self).pending(),
            old(self).vacant() >= samples@.len() ==> forall|i: int|
                0 <= i < samples@.len() ==> call_ensures(
                    bits_of,
                    (&samples@[i],),
                    #[trigger] final(self).pending()[old(self).pending().len() + i],
                ),
            pushed < samples@.len() ==> final(self).vacant() == 0,
            final(self).vacant() + pushed >= old(self).vacant(),
    {
        let mut i: usize = 0;
        while i < samples.len()
            invariant
                i <= samples@.len(),
                forall|k: int| 0 <= k < samples@.len() ==> call_requires(bits_of, (&samples@[k],)),
                self.capacity() == old(self).capacity(),
                self.vacant() + i >= old(self).vacant(),
                old(self).vacant() >= samples@.len() ==> self.pending().len() == old(
                    self,
                ).pending().len() + i,
                old(self).vacant() >= samples@.len() ==> self.pending().take(
                    old(self).pending().len() as int,
                ) == old(self).pending(),
                old(self).vacant() >= samples@.len() ==> forall|k: int|
                    0 <= k < i ==> call_ensures(
                        bits_of,
                        (&samples@[k],),
                        #[trigger] self.pending()[old(self).pending().len() + k],
                    ),
            decreases samples@.len() - i,
        {
            let ghost before = self.pending();
            let bits: u32 = bits_of(&samples[i]);
            if !self.push(bits) {
                return i;
            }
            proof {
                if old(self).vacant() >= samples@.len() {
                    let start = old(self).pending().len() as int;
                    assert(self.pending() == before.push(bits));
                    assert(self.pending().take(start) =~= before.take(start));
                    assert forall|k: int| 0 <= k < i + 1 implies call_ensures(
                        bits_of,
                        (&samples@[k],),
                        #[trigger] self.pending()[start + k],
                    ) by {
                        if k < i {
                            assert(self.pending()[start + k] == before[start + k]);
                        }
                    }
                }
            }
            i += 1;
        }
        i
    }
}

/// The consumer side of the ring buffer: it cuts what is queued into chunks
/// of a fixed size, until the channel it feeds is closed.
pub struct Bridge {
    queue: SampleQueue,
    chunk_size: usize,
    open: bool,
    taken: Ghost<Seq<u32>>,
}

impl Bridge {
    /// The samples seen in the ring buffer and not yet popped.
    pub closed spec fn queued(&self) -> Seq<u32> {
        ring_queued(&self.queue)
    }

    /// Every sample handed out in a chunk so far, in order.
    pub closed spec fn taken(&self) -> Seq<u32> {
        self.taken@
    }

    /// The stream of samples as the bridge has seen it so far: what it has
    /// handed out, followed by what it has seen queued. The stream only
    /// grows, and only at its end.
    pub open spec fn stream(&self) -> Seq<u32> {
        self.taken() + self.queued()
    }

    /// Samples per chunk.
    pub closed spec fn chunk_size(&self) -> usize {
        self.chunk_size
    }

    /// Whether the channel to the recorder was still open at the last send.
    pub closed spec fn is_open(&self) -> bool {
        self.open
    }

    /// Whether the bridge goes on. A closed bridge is to be dropped.
    pub fn open(&self) -> (open: bool)
        ensures
            open == self.is_open(),
    {
        self.open
    }

    /// Whether a chunk is cut on a wake: the bridge must be open, and the
    /// look at the ring buffer must have found at least a chunk's worth of
    /// samples.
    pub fn due(open: bool, available: usize, chunk_size: usize) -> (due: bool)
        ensures
            due == (open && available >= chunk_size),
    {
        open && available >= chunk_size
    }

    /// The buffer that is handed to the pop: one place for each sample of a
    /// chunk, each holding silence.
    pub fn buffer(chunk_size: usize) -> (buf: Vec<u32>)
        ensures
            buf@.len() == chunk_size,
            forall|i: int| 0 <= i < chunk_size ==> buf@[i] == 0,
    {
        let mut buf: Vec<u32> = Vec::with_capacity(chunk_size);
        let mut i: usize = 0;
        while i < chunk_size
            invariant
                i <= chunk_size,
                buf@.len() == i,
                forall|k: int| 0 <= k < i ==> buf@[k] == 0,
            decreases chunk_size - i,
        {
            buf.push(0);
            i += 1;
        }
        buf
    }

    /// The chunk that is made of the buffer once `n` samples were popped
    /// into it: those samples, and nothing behind them.
    pub fn cut(buf: Vec<u32>, n: usize) -> (chunk: Vec<u32>)
        requires
            n <= buf@.len(),
        ensures
            chunk@ == buf@.take(n as int),
    {
        let mut chunk = buf;
        chunk.truncate(n);
        assert(chunk@ =~= buf@.take(n as int));
        chunk
    }

    /// One wake of the bridge. It looks at the ring buffer; if a chunk is
    /// due, it pops into a buffer of the chunk's size and cuts the chunk at
    /// what was popped; otherwise it pops nothing.
    ///
    /// What the look finds depends on what the callback has pushed, so the
    /// contract speaks of what the bridge has seen by the end of the call. A
    /// chunk is handed out exactly if the bridge is open and has by then seen
    /// a chunk's worth behind what it had handed out before. The chunk is
    /// the piece of the stream that follows what was handed out before:
    /// chunks neither overlap nor leave a gap, and the stream itself only
    /// grows at its end. A closed bridge pops nothing.
    pub fn poll(&mut self) -> (chunk: Option<Vec<u32>>)
        ensures
            final(self).chunk_size() == old(self).chunk_size(),
            final(self).is_open() == old(self).is_open(),
            old(self).stream().is_prefix_of(final(self).stream()),
            !old(self).is_open() ==> chunk is None && final(self).queued() == old(self).queued(),
            old(self).is_open() && old(self).queued().len() >= old(self).chunk_size() ==> chunk
                is Some,
            chunk is Some <==> old(self).is_open() && final(self).stream().len() >= old(
                self,
            ).taken().len() + old(self).chunk_size(),
            chunk is Some ==> chunk->Some_0@.len() == old(self).chunk_size(),
            chunk is Some ==> final(self).taken() == old(self).taken() + chunk->Some_0@,
            chunk is None ==> final(self).taken() == old(self).taken(),
            old(self).is_open() && chunk is None ==> final(self).queued().len() < old(
                self,
            ).chunk_size(),
    {
        if !self.open {
            return None;
        }
        let ghost handed = self.taken@;
        let ghost before = ring_queued(&self.queue);
        let available: usize = ring_occupied(&mut self.queue);
        let ghost seen = ring_queued(&self.queue);
        if Self::due(self.open, available, self.chunk_size) {
            let mut buf: Vec<u32> = Self::buffer(self.chunk_size);
            let n: usize = ring_pop(&mut self.queue, &mut buf);
            let ghost popped = buf@.take(n as int);
            let chunk: Vec<u32> = Self::cut(buf, n);
            proof {
                let rest = ring_queued(&self.queue);
                assert(seen.is_prefix_of(popped + rest));
                if n < self.chunk_size {
                    assert(rest.len() == 0);
                    assert((popped + rest).len() == n);
                }
                assert(chunk@.len() == self.chunk_size);
                self.taken = Ghost(handed + chunk@);
                assert((handed + before).is_prefix_of((handed + chunk@) + rest)) by {
                    assert forall|i: int| 0 <= i < (handed + before).len() implies (handed
                        + before)[i] == ((handed + chunk@) + rest)[i] by {
                        if i >= handed.len() {
                            assert(before[i - handed.len()] == seen[i - handed.len()]);
                            assert(seen[i - handed.len()] == (chunk@ + rest)[i - handed.len()]);
                        }
                    }
                }
            }
            Some(chunk)
        } else {
            proof {
                assert((handed + before).is_prefix_of(handed + seen)) by {
                    assert forall|i: int| 0 <= i < (handed + before).len() implies (handed
                        + before)[i] == (handed + seen)[i] by {
                        if i >= handed.len() {
                            assert(before[i - handed.len()] == seen[i - handed.len()]);
                        }
                    }
                }
            }
            None
        }
    }

    /// The outcome of handing a chunk to the channel: once a send has
    /// failed, the receiver is gone and the bridge is closed for good.
    pub fn delivered(&mut self, accepted: bool)
        ensures
            final(self).is_open() == (old(self).is_open() && accepted),
            final(self).chunk_size() == old(self).chunk_size(),
            final(self).queued() == old(self).queued(),
            final(self).taken() == old(self).taken(),
    {
        if !accepted {
            self.open = false;
        }
    }
}

} // verus!
