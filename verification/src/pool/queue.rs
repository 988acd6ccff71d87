//! Trusted boundary around `crossbeam_queue::ArrayQueue`, holding idle
//! builders for the lock-free pools.
//!
//! The queue is opaque to the verifier, so its state is named:
//! `queue_view` is the sequence of items from front to back, each item
//! standing as the pair of its builder's bytes and readiness, and
//! `queue_cap` is the fixed capacity the queue was created with.  The
//! wrappers state, over those names, what each call does when the queue is
//! held exclusively; that is how the verified pools use it.  Under shared
//! access the queue itself stays safe (it is a multi-producer,
//! multi-consumer structure) but no contract here speaks for interleavings.

use vstd::prelude::*;

use crate::fbb::builder_bytes;
use crate::fbb::builder_ready;
use crate::fbb::RawBuilder;

verus! {

#[verifier::external_type_specification]
#[verifier::external_body]
#[verifier::reject_recursive_types(T)]
pub struct ExArrayQueue<T>(crossbeam_queue::ArrayQueue<T>);

/// The items in the queue from front to back, each as the pair of its
/// builder's bytes and readiness.
pub uninterp spec fn queue_view(q: crossbeam_queue::ArrayQueue<RawBuilder>) -> Seq<(Seq<u8>, bool)>;

/// The fixed capacity the queue was created with.
pub uninterp spec fn queue_cap(q: crossbeam_queue::ArrayQueue<RawBuilder>) -> nat;

/// `ArrayQueue::new` panics when the capacity is zero, and needs the next
/// power of two above it to exist; capacities up to this bound are safe.
pub const MAX_QUEUE_CAPACITY: usize = 0x1000_0000;

/// Relies on `crossbeam_queue::ArrayQueue::new`: a new queue is empty and
/// remembers its capacity.
#[verifier::external_body]
pub(crate) fn queue_new(cap: usize) -> (q: crossbeam_queue::ArrayQueue<RawBuilder>)
    requires
        1 <= cap <= MAX_QUEUE_CAPACITY,
    ensures
        queue_view(q) == Seq::<(Seq<u8>, bool)>::empty(),
        queue_cap(q) == cap,
{
    crossbeam_queue::ArrayQueue::new(cap)
}

/// Relies on `crossbeam_queue::ArrayQueue::push_mut`: under exclusive
/// access, the item is appended at the back if the queue is not full, and
/// handed back unchanged otherwise.
#[verifier::external_body]
pub(crate) fn queue_push(q: &mut crossbeam_queue::ArrayQueue<RawBuilder>, b: RawBuilder) -> (r:
    Result<(), RawBuilder>)
    ensures
        queue_cap(*final(q)) == queue_cap(*old(q)),
        queue_view(*old(q)).len() < queue_cap(*old(q)) ==> r is Ok && queue_view(*final(q))
            == queue_view(*old(q)).push((builder_bytes(b), builder_ready(b))),
        queue_view(*old(q)).len() >= queue_cap(*old(q)) ==> (r matches Err(v) && v == b
            && queue_view(*final(q)) == queue_view(*old(q))),
{
    q.push_mut(b)
}

/// Relies on `crossbeam_queue::ArrayQueue::pop_mut`: under exclusive
/// access, the front item comes out if there is one, and `None` leaves the
/// queue as it was.
#[verifier::external_body]
pub(crate) fn queue_pop(q: &mut crossbeam_queue::ArrayQueue<RawBuilder>) -> (r: Option<RawBuilder>)
    ensures
        queue_cap(*final(q)) == queue_cap(*old(q)),
        queue_view(*old(q)).len() == 0 ==> r is None && queue_view(*final(q)) == queue_view(
            *old(q),
        ),
        queue_view(*old(q)).len() > 0 ==> (r matches Some(b) && builder_bytes(b) == queue_view(
            *old(q),
        )[0].0 && builder_ready(b) == queue_view(*old(q))[0].1 && queue_view(*final(q))
            == queue_view(*old(q)).drop_first()),
{
    q.pop_mut()
}

/// Relies on `crossbeam_queue::ArrayQueue::len`: the number of items in the
/// queue, exact under exclusive access.
#[verifier::external_body]
pub(crate) fn queue_len(q: &crossbeam_queue::ArrayQueue<RawBuilder>) -> (n: usize)
    ensures
        n == queue_view(*q).len(),
{
    q.len()
}

} // verus!
