use vstd::prelude::*;

verus! {

use crate::audio_processor::AudioProcessor;
use crate::audio_processor::normalized;
use ringbuf::traits::Consumer;
use ringbuf::traits::Producer;
use ringbuf::traits::Split;

/// The producing half of the sample queue, owned by the audio capture
/// thread.  (Verus refuses to declare ringbuf's producer type itself — its
/// generics carry the crate's own trait bounds — so the half is held
/// opaquely here.)
#[verifier::external_body]
pub struct SampleProd {
    inner: ringbuf::HeapProd<u32>,
}

/// The consuming half of the sample queue, owned by the render tick.
#[verifier::external_body]
pub struct SampleCons {
    inner: ringbuf::HeapCons<u32>,
}

/// How many samples one render tick drains from the queue at most.
pub const DRAIN_CHUNK: usize = 1024;

/// Relies on ringbuf's `HeapRb::new` and `Split::split`: a bounded
/// single-producer/single-consumer queue of the given capacity, split into
/// its two ends.  The queue carries audio samples as single-precision bit
/// patterns.  The two ends are handed to different threads, so no contract
/// here speaks of the contents both see: each operation states only what
/// holds of every interleaving.
#[verifier::external_body]
pub fn new_sample_queue(capacity: usize) -> (r: (SampleProd, SampleCons))
    requires
        capacity > 0,
{
    let (prod, cons) = ringbuf::HeapRb::<u32>::new(capacity).split();
    (SampleProd { inner: prod }, SampleCons { inner: cons })
}

/// Relies on ringbuf's `Producer::try_push`: appends one sample unless the
/// queue is full, and reports whether it was taken.  Wait-free, so the
/// audio callback may call it without blocking.
#[verifier::external_body]
pub fn push_sample(prod: &mut SampleProd, sample: u32) -> (accepted: bool)
{
    prod.inner.try_push(sample).is_ok()
}

/// Relies on ringbuf's `Consumer::pop_slice`: moves up to `buf.len()`
/// samples, oldest first, into the front of `buf` and returns how many
/// arrived; the rest of `buf` is left as it was.
#[verifier::external_body]
pub fn pop_samples(cons: &mut SampleCons, buf: &mut Vec<u32>) -> (count: usize)
    ensures
        count <= old(buf)@.len(),
        final(buf)@.len() == old(buf)@.len(),
        forall|i: int| count <= i < final(buf)@.len() ==> final(buf)@[i] == old(buf)@[i],
{
    cons.inner.pop_slice(buf.as_mut_slice())
}

/// One render tick's worth of queue draining: pops up to `DRAIN_CHUNK`
/// samples into a zero-filled chunk and rolls the whole chunk into the
/// spectrum window, exactly as the renderer consumes capture data.
/// Returns the chunk together with how many samples the queue delivered:
/// every slot past that count is still the zero sample (the underrun
/// zero-fill), and whatever arrived, the window keeps its fixed size.
pub fn drain_into(engine: &mut AudioProcessor, cons: &mut SampleCons) -> (r: (Vec<u32>, usize))
    ensures
        r.0@.len() == DRAIN_CHUNK,
        r.1 <= DRAIN_CHUNK,
        forall|i: int| r.1 <= i < DRAIN_CHUNK ==> r.0@[i] == 0u32,
        final(engine).buffer@ =~= normalized(
            old(engine).buffer@ + r.0@,
            old(engine).buffer_size as nat,
        ),
        final(engine).buffer@.len() == old(engine).buffer_size,
        final(engine).buffer_size == old(engine).buffer_size,
        final(engine).decay_state == old(engine).decay_state,
{
    let mut chunk: Vec<u32> = Vec::new();
    let mut i: usize = 0;
    while i < DRAIN_CHUNK
        invariant
            chunk@.len() == i,
            0 <= i <= DRAIN_CHUNK,
            forall|k: int| 0 <= k < i ==> chunk@[k] == 0u32,
        decreases DRAIN_CHUNK - i,
    {
        chunk.push(0);
        i = i + 1;
    }
    let count = pop_samples(cons, &mut chunk);
    engine.add_samples(&chunk);
    (chunk, count)
}

} // verus!
