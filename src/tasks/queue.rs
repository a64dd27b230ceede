use vstd::prelude::*;
use crossbeam::queue::ArrayQueue;

verus! {

#[verifier::external_type_specification]
#[verifier::external_body]
#[verifier::reject_recursive_types(T)]
pub struct ExArrayQueue<T>(ArrayQueue<T>);

/// The identifiers held by a bounded queue, front first.
pub uninterp spec fn queued_ids(q: ArrayQueue<u64>) -> Seq<u64>;

/// The capacity a bounded queue was created with.
pub uninterp spec fn queue_bound(q: ArrayQueue<u64>) -> nat;

/// Relies on crossbeam's `ArrayQueue::new`: an empty queue holding at most
/// `cap` items; it panics on a zero capacity.
#[verifier::external_body]
pub(crate) fn id_queue_new(cap: usize) -> (r: ArrayQueue<u64>)
    requires
        0 < cap <= 0x7fff_ffff,
    ensures
        queued_ids(r) == Seq::<u64>::empty(),
        queue_bound(r) == cap,
{
    ArrayQueue::new(cap)
}

/// Relies on crossbeam's `ArrayQueue::push_mut`: appends at the back, or
/// hands the value back when the queue is full.
#[verifier::external_body]
pub(crate) fn id_queue_push(q: &mut ArrayQueue<u64>, id: u64) -> (r: Result<(), u64>)
    ensures
        queue_bound(*final(q)) == queue_bound(*old(q)),
        queued_ids(*old(q)).len() < queue_bound(*old(q)) ==> r is Ok && queued_ids(*final(q))
            == queued_ids(*old(q)).push(id),
        queued_ids(*old(q)).len() >= queue_bound(*old(q)) ==> r is Err && r->Err_0 == id
            && queued_ids(*final(q)) == queued_ids(*old(q)),
{
    q.push_mut(id)
}

/// Relies on crossbeam's `ArrayQueue::pop_mut`: removes the front item, or
/// returns `None` when the queue is empty.
#[verifier::external_body]
pub(crate) fn id_queue_pop(q: &mut ArrayQueue<u64>) -> (r: Option<u64>)
    ensures
        queue_bound(*final(q)) == queue_bound(*old(q)),
        queued_ids(*old(q)).len() == 0 ==> r is None && queued_ids(*final(q)) == queued_ids(
            *old(q),
        ),
        queued_ids(*old(q)).len() > 0 ==> r == Some(queued_ids(*old(q))[0]) && queued_ids(
            *final(q),
        ) == queued_ids(*old(q)).drop_first(),
{
    q.pop_mut()
}

/// Relies on crossbeam's `ArrayQueue::len`: the number of queued items.
#[verifier::external_body]
pub(crate) fn id_queue_len(q: &ArrayQueue<u64>) -> (r: usize)
    ensures
        r == queued_ids(*q).len(),
{
    q.len()
}

/// Relies on crossbeam's `ArrayQueue::capacity`: the bound given at creation.
#[verifier::external_body]
pub(crate) fn id_queue_capacity(q: &ArrayQueue<u64>) -> (r: usize)
    ensures
        r == queue_bound(*q),
{
    q.capacity()
}

/// The bytes held by a bounded queue, front first.
pub uninterp spec fn queued_bytes(q: ArrayQueue<u8>) -> Seq<u8>;

/// The capacity a bounded byte queue was created with.
pub uninterp spec fn byte_queue_bound(q: ArrayQueue<u8>) -> nat;

/// Relies on crossbeam's `ArrayQueue::new`: an empty queue holding at most
/// `cap` items; it panics on a zero capacity.
#[verifier::external_body]
pub(crate) fn byte_queue_new(cap: usize) -> (r: ArrayQueue<u8>)
    requires
        0 < cap <= 0x7fff_ffff,
    ensures
        queued_bytes(r) == Seq::<u8>::empty(),
        byte_queue_bound(r) == cap,
{
    ArrayQueue::new(cap)
}

/// Relies on crossbeam's `ArrayQueue::push_mut`: appends at the back, or
/// hands the value back when the queue is full.
#[verifier::external_body]
pub(crate) fn byte_queue_push(q: &mut ArrayQueue<u8>, b: u8) -> (r: Result<(), u8>)
    ensures
        byte_queue_bound(*final(q)) == byte_queue_bound(*old(q)),
        queued_bytes(*old(q)).len() < byte_queue_bound(*old(q)) ==> r is Ok && queued_bytes(
            *final(q),
        ) == queued_bytes(*old(q)).push(b),
        queued_bytes(*old(q)).len() >= byte_queue_bound(*old(q)) ==> r is Err && r->Err_0 == b
            && queued_bytes(*final(q)) == queued_bytes(*old(q)),
{
    q.push_mut(b)
}

/// Relies on crossbeam's `ArrayQueue::pop_mut`: removes the front item, or
/// returns `None` when the queue is empty.
#[verifier::external_body]
pub(crate) fn byte_queue_pop(q: &mut ArrayQueue<u8>) -> (r: Option<u8>)
    ensures
        byte_queue_bound(*final(q)) == byte_queue_bound(*old(q)),
        queued_bytes(*old(q)).len() == 0 ==> r is None && queued_bytes(*final(q)) == queued_bytes(
            *old(q),
        ),
        queued_bytes(*old(q)).len() > 0 ==> r == Some(queued_bytes(*old(q))[0]) && queued_bytes(
            *final(q),
        ) == queued_bytes(*old(q)).drop_first(),
{
    q.pop_mut()
}

} // verus!
