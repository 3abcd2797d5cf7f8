//! The evaluator's FIFO queues, held in crossbeam's segmented queue.
//! Each queue is reached through exclusive access only, so the contents
//! named below change only through the wrappers.

use vstd::prelude::*;
use crossbeam::queue::SegQueue;
use crate::batch::Batch;
use crate::evaluator::QueueEvents;
use crate::events::Event;

verus! {

#[verifier::external_type_specification]
#[verifier::external_body]
#[verifier::reject_recursive_types(T)]
pub struct ExSegQueue<T>(SegQueue<T>);

/// The events a queue holds, oldest first.
pub uninterp spec fn queued_events(q: SegQueue<Event>) -> Seq<Event>;

/// The batches a queue holds, oldest first.
pub uninterp spec fn queued_batches(q: SegQueue<Batch>) -> Seq<Batch>;

/// The outbound events a queue holds, oldest first.
pub uninterp spec fn queued_outbound(q: SegQueue<QueueEvents>) -> Seq<QueueEvents>;

/// Relies on SegQueue::new: a new queue holds nothing.
#[verifier::external_body]
pub(crate) fn new_event_queue() -> (r: SegQueue<Event>)
    ensures
        queued_events(r) == Seq::<Event>::empty(),
{
    SegQueue::new()
}

/// Relies on SegQueue::push_mut: the element goes to the back.
#[verifier::external_body]
pub(crate) fn push_event(q: &mut SegQueue<Event>, e: Event)
    ensures
        queued_events(*final(q)) == queued_events(*old(q)).push(e),
{
    q.push_mut(e)
}

/// Relies on SegQueue::pop_mut: the front element leaves; nothing when empty.
#[verifier::external_body]
pub(crate) fn pop_event(q: &mut SegQueue<Event>) -> (r: Option<Event>)
    ensures
        queued_events(*old(q)).len() == 0 ==> r is None && queued_events(*final(q)) == queued_events(*old(q)),
        queued_events(*old(q)).len() > 0 ==> r == Some(queued_events(*old(q))[0]) && queued_events(*final(q))
            == queued_events(*old(q)).drop_first(),
{
    q.pop_mut()
}

/// Relies on SegQueue::len: the number of elements held.
#[verifier::external_body]
pub(crate) fn event_count(q: &SegQueue<Event>) -> (r: usize)
    ensures
        r == queued_events(*q).len(),
{
    q.len()
}

/// Relies on SegQueue::new: a new queue holds nothing.
#[verifier::external_body]
pub(crate) fn new_batch_queue() -> (r: SegQueue<Batch>)
    ensures
        queued_batches(r) == Seq::<Batch>::empty(),
{
    SegQueue::new()
}

/// Relies on SegQueue::push_mut: the element goes to the back.
#[verifier::external_body]
pub(crate) fn push_batch(q: &mut SegQueue<Batch>, b: Batch)
    ensures
        queued_batches(*final(q)) == queued_batches(*old(q)).push(b),
{
    q.push_mut(b)
}

/// Relies on SegQueue::pop_mut: the front element leaves; nothing when empty.
#[verifier::external_body]
pub(crate) fn pop_batch(q: &mut SegQueue<Batch>) -> (r: Option<Batch>)
    ensures
        queued_batches(*old(q)).len() == 0 ==> r is None && queued_batches(*final(q)) == queued_batches(*old(q)),
        queued_batches(*old(q)).len() > 0 ==> r == Some(queued_batches(*old(q))[0]) && queued_batches(*final(q))
            == queued_batches(*old(q)).drop_first(),
{
    q.pop_mut()
}

/// Relies on SegQueue::len: the number of elements held.
#[verifier::external_body]
pub(crate) fn batch_count(q: &SegQueue<Batch>) -> (r: usize)
    ensures
        r == queued_batches(*q).len(),
{
    q.len()
}

/// Relies on SegQueue::new: a new queue holds nothing.
#[verifier::external_body]
pub(crate) fn new_outbound_queue() -> (r: SegQueue<QueueEvents>)
    ensures
        queued_outbound(r) == Seq::<QueueEvents>::empty(),
{
    SegQueue::new()
}

/// Relies on SegQueue::push_mut: the element goes to the back.
#[verifier::external_body]
pub(crate) fn push_outbound(q: &mut SegQueue<QueueEvents>, e: QueueEvents)
    ensures
        queued_outbound(*final(q)) == queued_outbound(*old(q)).push(e),
{
    q.push_mut(e)
}

/// Relies on SegQueue::pop_mut: the front element leaves; nothing when empty.
#[verifier::external_body]
pub(crate) fn pop_outbound(q: &mut SegQueue<QueueEvents>) -> (r: Option<QueueEvents>)
    ensures
        queued_outbound(*old(q)).len() == 0 ==> r is None && queued_outbound(*final(q)) == queued_outbound(*old(q)),
        queued_outbound(*old(q)).len() > 0 ==> r == Some(queued_outbound(*old(q))[0]) && queued_outbound(*final(q))
            == queued_outbound(*old(q)).drop_first(),
{
    q.pop_mut()
}

/// Relies on SegQueue::len: the number of elements held.
#[verifier::external_body]
pub(crate) fn outbound_count(q: &SegQueue<QueueEvents>) -> (r: usize)
    ensures
        r == queued_outbound(*q).len(),
{
    q.len()
}

} // verus!
