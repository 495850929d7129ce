//! Bounded, non-blocking single-producer/single-consumer channels.
//!
//! These are the only bridges between the control context and the audio
//! callback context. Every operation returns at once: an enqueue on a full
//! channel fails instead of waiting, and a dequeue on an empty channel
//! returns nothing instead of waiting.
//!
//! The two endpoints share one ring buffer that the other side may be
//! mutating from another thread at any moment, so no contract here can
//! describe the queue's contents as a function of one endpoint alone; the
//! verified callers are therefore proved correct for every value a dequeue
//! may hand back.
use vstd::prelude::*;

verus! {

/// The producing end of a bounded single-producer/single-consumer channel.
#[verifier::external_body]
#[verifier::reject_recursive_types(T)]
pub struct Sender<T> {
    inner: ringbuf::HeapProducer<T>,
}

/// The consuming end of a bounded single-producer/single-consumer channel.
#[verifier::external_body]
#[verifier::reject_recursive_types(T)]
pub struct Receiver<T> {
    inner: ringbuf::HeapConsumer<T>,
}

/// Relies on ringbuf's `SharedRb::new` and `SharedRb::split`: one lock-free
/// ring buffer of exactly `capacity` slots, handed out as its two endpoints.
/// `SharedRb::new` panics on a zero capacity, so that input is excluded.
#[verifier::external_body]
pub fn channel<T>(capacity: usize) -> (Sender<T>, Receiver<T>)
    requires
        capacity >= 1,
{
    let (p, c) = ringbuf::HeapRb::new(capacity).split();
    (Sender { inner: p }, Receiver { inner: c })
}

/// Relies on ringbuf's `Producer::push`: it never blocks, and on a full ring
/// it returns the rejected item back unchanged without altering the ring.
#[verifier::external_body]
pub fn send<T>(s: &mut Sender<T>, item: T) -> (r: Result<(), T>)
    ensures
        r matches Err(rejected) ==> rejected == item,
{
    s.inner.push(item)
}

/// Relies on ringbuf's `Consumer::pop`: it never blocks, and returns nothing
/// when the ring is empty. What item arrives depends on the producer thread,
/// so nothing more can be promised of the result.
#[verifier::external_body]
pub fn recv<T>(r: &mut Receiver<T>) -> Option<T> {
    r.inner.pop()
}

} // verus!
