//! The lock-free ring buffer between the capture thread and the playback
//! thread.
//!
//! Samples travel as the bit patterns of their floating-point values, so
//! silence is zero. The two halves work at the same time, each on a thread of
//! its own; how much room or how many samples one of them finds depends on
//! what the other has done by then.
use ringbuf::traits::{Consumer, Producer, Split};
use ringbuf::{HeapCons, HeapProd, HeapRb};
use vstd::prelude::*;

verus! {

/// The half of a ring buffer that samples go into.
#[verifier::external_body]
pub struct RingProducer {
    half: HeapProd<u32>,
}

/// The half of a ring buffer that samples come out of.
#[verifier::external_body]
pub struct RingConsumer {
    half: HeapCons<u32>,
}

/// How many samples the ring of this half holds at most.
pub uninterp spec fn producer_capacity(half: RingProducer) -> nat;

/// How many samples the ring of this half holds at most.
pub uninterp spec fn consumer_capacity(half: RingConsumer) -> nat;

/// All samples that pass into the ring of this half in the course of its
/// life, in order.
pub uninterp spec fn producer_stream(half: RingProducer) -> Seq<u32>;

/// All samples that pass into the ring of this half in the course of its
/// life, in order.
pub uninterp spec fn consumer_stream(half: RingConsumer) -> Seq<u32>;

/// The samples that have gone in through this half so far.
pub uninterp spec fn sent(half: RingProducer) -> Seq<u32>;

/// The samples that have come out of this half so far.
pub uninterp spec fn received(half: RingConsumer) -> Seq<u32>;

/// How many samples this half had seen leave the ring when it last looked.
pub uninterp spec fn freed(half: RingProducer) -> nat;

/// How many samples this half had seen go into the ring when it last looked.
pub uninterp spec fn seen(half: RingConsumer) -> nat;

/// The lesser of two numbers.
pub open spec fn lesser(a: int, b: int) -> int {
    if a <= b {
        a
    } else {
        b
    }
}

/// Calls `HeapRb::new` and `split`. Claimed of them: both halves belong to one
/// empty ring of exactly the given capacity. `HeapRb::new` panics on a
/// capacity of zero and on one that no allocation can have.
#[verifier::external_body]
pub(crate) fn new_ring(capacity: usize) -> (halves: (RingProducer, RingConsumer))
    requires
        capacity >= 1,
        4 * capacity <= isize::MAX,
    ensures
        producer_capacity(halves.0) == capacity,
        consumer_capacity(halves.1) == capacity,
        producer_stream(halves.0) == consumer_stream(halves.1),
        sent(halves.0) == Seq::<u32>::empty(),
        received(halves.1) == Seq::<u32>::empty(),
{
    let (producer, consumer) = HeapRb::<u32>::new(capacity).split();
    (RingProducer { half: producer }, RingConsumer { half: consumer })
}

/// Calls `Producer::push_slice`. Claimed of it: it looks how many samples have
/// left the ring, appends as many of the samples as there is room for then,
/// first ones first, and tells how many they are. How many the other thread
/// has taken out by then is left unsaid.
#[verifier::external_body]
pub(crate) fn push_slice(half: &mut RingProducer, samples: &[u32]) -> (count: usize)
    ensures
        freed(*final(half)) <= sent(*old(half)).len(),
        sent(*old(half)).len() - freed(*final(half)) <= producer_capacity(*old(half)),
        count == lesser(
            samples@.len() as int,
            producer_capacity(*old(half)) - (sent(*old(half)).len() - freed(*final(half))),
        ),
        producer_capacity(*final(half)) == producer_capacity(*old(half)),
        producer_stream(*final(half)) == producer_stream(*old(half)),
        sent(*final(half)) == sent(*old(half)) + samples@.take(count as int),
        sent(*final(half)).is_prefix_of(producer_stream(*final(half))),
{
    half.half.push_slice(samples)
}

/// Calls `Consumer::pop_slice`. Claimed of it: it looks how many samples have
/// gone into the ring, moves as many of those that are next in line as fit to
/// the front of the slice, tells how many they are, and leaves the rest of the
/// slice as it was. How many the other thread has put in by then is left
/// unsaid.
#[verifier::external_body]
pub(crate) fn pop_slice(half: &mut RingConsumer, out: &mut [u32]) -> (count: usize)
    ensures
        received(*old(half)).len() <= seen(*final(half)),
        seen(*final(half)) - received(*old(half)).len() <= consumer_capacity(*old(half)),
        count == lesser(
            old(out)@.len() as int,
            seen(*final(half)) - received(*old(half)).len(),
        ),
        final(out)@.len() == old(out)@.len(),
        final(out)@.skip(count as int) == old(out)@.skip(count as int),
        consumer_capacity(*final(half)) == consumer_capacity(*old(half)),
        consumer_stream(*final(half)) == consumer_stream(*old(half)),
        received(*final(half)) == received(*old(half)) + final(out)@.take(count as int),
        received(*final(half)).is_prefix_of(consumer_stream(*final(half))),
{
    half.half.pop_slice(out)
}

/// The two halves belong to one ring, and each has a record that agrees with
/// what passes through it.
pub open spec fn paired(producer: RingProducer, consumer: RingConsumer) -> bool {
    &&& producer_stream(producer) == consumer_stream(consumer)
    &&& sent(producer).is_prefix_of(producer_stream(producer))
    &&& received(consumer).is_prefix_of(consumer_stream(consumer))
}

/// First in, first out: what the one half has given out is, sample by sample
/// and in order, what the other half has taken in.
pub proof fn law_first_in_first_out(producer: RingProducer, consumer: RingConsumer)
    requires
        paired(producer, consumer),
    ensures
        forall|i: int|
            0 <= i < sent(producer).len() && i < received(consumer).len() ==> sent(producer)[i]
                == received(consumer)[i],
        received(consumer).len() <= sent(producer).len() ==> received(consumer).is_prefix_of(
            sent(producer),
        ),
{
    let stream = producer_stream(producer);
    assert forall|i: int|
        0 <= i < sent(producer).len() && i < received(consumer).len() implies sent(producer)[i]
        == received(consumer)[i] by {
        assert(sent(producer)[i] == stream[i]);
        assert(received(consumer)[i] == stream[i]);
    }
}

/// The lesser of two numbers is one of them and exceeds neither.
pub proof fn law_lesser(a: int, b: int)
    ensures
        lesser(a, b) == a || lesser(a, b) == b,
        lesser(a, b) <= a,
        lesser(a, b) <= b,
{
}

/// Two halves are paired only where they share one stream, and what each has
/// handled so far is how that stream begins.
pub proof fn law_paired_halves_share_a_stream(producer: RingProducer, consumer: RingConsumer)
    requires
        paired(producer, consumer),
    ensures
        producer_stream(producer) == consumer_stream(consumer),
        sent(producer) == producer_stream(producer).take(sent(producer).len() as int),
        received(consumer) == producer_stream(producer).take(received(consumer).len() as int),
{
    assert(sent(producer) =~= producer_stream(producer).take(sent(producer).len() as int));
    assert(received(consumer) =~= producer_stream(producer).take(
        received(consumer).len() as int,
    ));
}

} // verus!
