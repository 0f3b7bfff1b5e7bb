//! The queue between acquisition and batching.
//!
//! The queue is bounded. A push never waits: into a full queue it drops the
//! oldest sample, so that what is delivered is fresh rather than complete.
//! The samples that stay keep the order in which they came.

use crate::double::DoubleBits;
use ringbuffer::{AllocRingBuffer, RingBuffer};
use vstd::prelude::*;

verus! {

/// Acceleration with gravity removed, and the time of the measurement in
/// milliseconds since the Unix epoch.
#[derive(Debug, Clone, Copy, PartialEq, Eq)]
pub struct MotionSample {
    pub accel_linear: [DoubleBits; 3],
    pub t_ms: DoubleBits,
}

/// `ringbuffer::AllocRingBuffer`, a ring buffer of fixed capacity on the
/// heap.
#[verifier::external_type_specification]
#[verifier::external_body]
#[verifier::reject_recursive_types(T)]
pub struct ExAllocRingBuffer<T>(AllocRingBuffer<T>);

/// The samples that a ring buffer holds, oldest first.
pub uninterp spec fn ring_contents(ring: AllocRingBuffer<MotionSample>) -> Seq<MotionSample>;

/// The capacity that a ring buffer was made with.
pub uninterp spec fn ring_capacity(ring: AllocRingBuffer<MotionSample>) -> nat;

/// The largest capacity that a queue can be made with: above it the
/// buffer's storage could exceed what one allocation may hold.
pub const MAX_QUEUE_CAPACITY: usize = 0x200_0000;

/// `AllocRingBuffer::new`: an empty buffer of the given capacity. It
/// panics on a capacity of zero, and on one whose storage no allocation
/// can hold.
#[verifier::external_body]
fn ring_new(capacity: usize) -> (ring: AllocRingBuffer<MotionSample>)
    requires
        0 < capacity <= MAX_QUEUE_CAPACITY,
    ensures
        ring_contents(ring) == Seq::<MotionSample>::empty(),
        ring_capacity(ring) == capacity,
{
    AllocRingBuffer::new(capacity)
}

/// `RingBuffer::enqueue`: adds the item behind the newest. A buffer that
/// is full first gives up its oldest item and returns it.
#[verifier::external_body]
fn ring_enqueue(ring: &mut AllocRingBuffer<MotionSample>, item: MotionSample) -> (dropped: Option<
    MotionSample,
>)
    requires
        ring_contents(*old(ring)).len() <= ring_capacity(*old(ring)),
    ensures
        ring_capacity(*final(ring)) == ring_capacity(*old(ring)),
        ring_contents(*final(ring)) == pushed(
            ring_contents(*old(ring)),
            ring_capacity(*old(ring)),
            item,
        ),
        dropped == if ring_contents(*old(ring)).len() < ring_capacity(*old(ring)) {
            None
        } else {
            Some(ring_contents(*old(ring)).first())
        },
    no_unwind
{
    ring.enqueue(item)
}

/// `RingBuffer::dequeue`: takes the oldest item out, `None` from an empty
/// buffer.
#[verifier::external_body]
fn ring_dequeue(ring: &mut AllocRingBuffer<MotionSample>) -> (item: Option<MotionSample>)
    ensures
        ring_capacity(*final(ring)) == ring_capacity(*old(ring)),
        ring_contents(*old(ring)).len() == 0 ==> item is None && ring_contents(*final(ring))
            == ring_contents(*old(ring)),
        ring_contents(*old(ring)).len() > 0 ==> item == Some(ring_contents(*old(ring)).first())
            && ring_contents(*final(ring)) == ring_contents(*old(ring)).drop_first(),
    no_unwind
{
    ring.dequeue()
}

/// The queue after a push: the item behind the others, without the oldest
/// where the queue was full.
pub open spec fn pushed<T>(queue: Seq<T>, capacity: nat, item: T) -> Seq<T> {
    if queue.len() < capacity {
        queue.push(item)
    } else {
        queue.drop_first().push(item)
    }
}

/// The queue after the pushes of `items`, one after the other.
pub open spec fn pushed_all<T>(queue: Seq<T>, capacity: nat, items: Seq<T>) -> Seq<T>
    decreases items.len(),
{
    if items.len() == 0 {
        queue
    } else {
        pushed(pushed_all(queue, capacity, items.drop_last()), capacity, items.last())
    }
}

/// The last `n` of `items`, all of them where there are fewer.
pub open spec fn latest<T>(items: Seq<T>, n: nat) -> Seq<T> {
    if items.len() <= n {
        items
    } else {
        items.subrange(items.len() - n, items.len() as int)
    }
}

/// A bounded queue of samples that drops the oldest when it is full.
pub struct SampleQueue {
    ring: AllocRingBuffer<MotionSample>,
}

impl View for SampleQueue {
    type V = Seq<MotionSample>;

    closed spec fn view(&self) -> Seq<MotionSample> {
        ring_contents(self.ring)
    }
}

impl SampleQueue {
    /// The number of samples that the queue can hold.
    pub closed spec fn capacity(&self) -> nat {
        ring_capacity(self.ring)
    }

    /// The queue holds no more than its capacity, which is not zero.
    #[verifier::type_invariant]
    pub closed spec fn well_formed(&self) -> bool {
        0 < ring_capacity(self.ring) && ring_contents(self.ring).len() <= ring_capacity(self.ring)
    }

    /// An empty queue for `cap` samples.
    pub fn new(cap: usize) -> (queue: SampleQueue)
        requires
            0 < cap <= MAX_QUEUE_CAPACITY,
        ensures
            queue@ == Seq::<MotionSample>::empty(),
            queue.capacity() == cap,
    {
        SampleQueue { ring: ring_new(cap) }
    }

    /// Adds a sample. A full queue drops its oldest sample for it.
    pub fn push_drop_old(&mut self, item: MotionSample)
        ensures
            final(self)@ == pushed(old(self)@, old(self).capacity(), item),
            final(self).capacity() == old(self).capacity(),
            final(self)@.len() <= final(self).capacity(),
    {
        proof {
            use_type_invariant(&*self);
        }
        let _ = ring_enqueue(&mut self.ring, item);
    }

    /// Takes the oldest sample out. `None` says that the queue is empty
    /// and the consumer has to wait for the next push.
    pub fn pop(&mut self) -> (item: Option<MotionSample>)
        ensures
            final(self).capacity() == old(self).capacity(),
            old(self)@.len() == 0 ==> item is None && final(self)@ == old(self)@,
            old(self)@.len() > 0 ==> item == Some(old(self)@.first()) && final(self)@ == old(self)@.drop_first(),
    {
        proof {
            use_type_invariant(&*self);
        }
        ring_dequeue(&mut self.ring)
    }
}

/// A queue never holds more than its capacity.
pub proof fn lemma_pushed_all_bounded<T>(queue: Seq<T>, capacity: nat, items: Seq<T>)
    requires
        0 < capacity,
        queue.len() <= capacity,
    ensures
        pushed_all(queue, capacity, items).len() <= capacity,
    decreases items.len(),
{
    if items.len() > 0 {
        lemma_pushed_all_bounded(queue, capacity, items.drop_last());
    }
}

/// After any number of pushes the queue holds the latest of what it held
/// and what was pushed, as many as fit, in the order of arrival.
pub proof fn lemma_pushed_all_keeps_latest<T>(queue: Seq<T>, capacity: nat, items: Seq<T>)
    requires
        0 < capacity,
        queue.len() <= capacity,
    ensures
        pushed_all(queue, capacity, items) == latest(queue + items, capacity),
    decreases items.len(),
{
    if items.len() == 0 {
        assert(queue + items == queue);
    } else {
        let head = items.drop_last();
        lemma_pushed_all_keeps_latest(queue, capacity, head);
        let before = latest(queue + head, capacity);
        assert(queue + items == (queue + head).push(items.last()));
        assert(pushed(before, capacity, items.last()) == latest(queue + items, capacity));
    }
}

/// Pushing more items than an empty queue can hold leaves exactly the last
/// `capacity` of them, in the order of arrival.
pub proof fn lemma_overflow_keeps_last(capacity: nat, items: Seq<MotionSample>)
    requires
        0 < capacity,
        items.len() >= capacity,
    ensures
        pushed_all(Seq::<MotionSample>::empty(), capacity, items) == items.subrange(
            items.len() - capacity,
            items.len() as int,
        ),
{
    lemma_pushed_all_keeps_latest(Seq::<MotionSample>::empty(), capacity, items);
    assert(Seq::<MotionSample>::empty() + items == items);
    assert(items.subrange(0, items.len() as int) == items);
}

} // verus!
