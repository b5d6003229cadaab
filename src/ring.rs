//! The fixed-capacity ring buffers of the `ringbuffer` crate that hold each
//! store's records, with what this library relies on of them.
use vstd::prelude::*;
use ringbuffer::{AllocRingBuffer, RingBuffer};
use crate::record::{Alert, Build};
use crate::history::newest_key;

verus! {

#[verifier::external_type_specification]
#[verifier::external_body]
#[verifier::reject_recursive_types(T)]
pub struct ExAllocRingBuffer<T>(AllocRingBuffer<T>);

/// The builds in a ring, from the one enqueued longest ago to the newest.
pub uninterp spec fn build_ring_items(r: AllocRingBuffer<Build>) -> Seq<Build>;

/// The capacity a ring of builds was made with.
pub uninterp spec fn build_ring_capacity(r: AllocRingBuffer<Build>) -> nat;

/// The alerts in a ring, from the one enqueued longest ago to the newest.
pub uninterp spec fn alert_ring_items(r: AllocRingBuffer<Alert>) -> Seq<Alert>;

/// The capacity a ring of alerts was made with.
pub uninterp spec fn alert_ring_capacity(r: AllocRingBuffer<Alert>) -> nat;

/// The contents after enqueuing `x`: when full, the oldest element leaves.
pub open spec fn ring_after_enqueue<T>(items: Seq<T>, capacity: nat, x: T) -> Seq<T> {
    if items.len() < capacity {
        items.push(x)
    } else {
        items.drop_first().push(x)
    }
}

/// Relies on `AllocRingBuffer::new`: an empty ring of exactly `capacity`
/// elements (it panics on zero).
#[verifier::external_body]
pub(crate) fn new_build_ring(capacity: usize) -> (r: AllocRingBuffer<Build>)
    requires
        capacity > 0,
    ensures
        build_ring_items(r) == Seq::<Build>::empty(),
        build_ring_capacity(r) == capacity,
{
    AllocRingBuffer::new(capacity)
}

/// Relies on `RingBuffer::enqueue` of `AllocRingBuffer`: appends at the back,
/// first dropping the front element when the ring is full.
#[verifier::external_body]
pub(crate) fn enqueue_build(rb: &mut AllocRingBuffer<Build>, x: Build)
    requires
        build_ring_items(*old(rb)).len() <= build_ring_capacity(*old(rb)),
        build_ring_capacity(*old(rb)) > 0,
    ensures
        build_ring_capacity(*final(rb)) == build_ring_capacity(*old(rb)),
        build_ring_items(*final(rb)) == ring_after_enqueue(
            build_ring_items(*old(rb)),
            build_ring_capacity(*old(rb)),
            x,
        ),
{
    let _ = rb.enqueue(x);
}

/// Relies on `RingBuffer::clear` of `AllocRingBuffer`: empties the ring and
/// keeps its capacity.
#[verifier::external_body]
pub(crate) fn clear_build_ring(rb: &mut AllocRingBuffer<Build>)
    ensures
        build_ring_capacity(*final(rb)) == build_ring_capacity(*old(rb)),
        build_ring_items(*final(rb)) == Seq::<Build>::empty(),
{
    rb.clear();
}

/// Relies on `RingBuffer::to_vec`: clones of the elements, oldest first (the
/// derived `Clone` of a record copies every field).
#[verifier::external_body]
pub(crate) fn build_ring_to_vec(rb: &AllocRingBuffer<Build>) -> (v: Vec<Build>)
    ensures
        v@ == build_ring_items(*rb),
{
    rb.to_vec()
}

/// Relies on `RingBuffer::back`: the most recently enqueued element, whose id
/// is handed back.
#[verifier::external_body]
pub(crate) fn newest_build_id(rb: &AllocRingBuffer<Build>) -> (r: Option<i64>)
    ensures
        r == newest_key(build_ring_items(*rb)),
{
    rb.back().map(|b| b.id)
}

/// Relies on `AllocRingBuffer::new`: an empty ring of exactly `capacity`
/// elements (it panics on zero).
#[verifier::external_body]
pub(crate) fn new_alert_ring(capacity: usize) -> (r: AllocRingBuffer<Alert>)
    requires
        capacity > 0,
    ensures
        alert_ring_items(r) == Seq::<Alert>::empty(),
        alert_ring_capacity(r) == capacity,
{
    AllocRingBuffer::new(capacity)
}

/// Relies on `RingBuffer::enqueue` of `AllocRingBuffer`: appends at the back,
/// first dropping the front element when the ring is full.
#[verifier::external_body]
pub(crate) fn enqueue_alert(rb: &mut AllocRingBuffer<Alert>, x: Alert)
    requires
        alert_ring_items(*old(rb)).len() <= alert_ring_capacity(*old(rb)),
        alert_ring_capacity(*old(rb)) > 0,
    ensures
        alert_ring_capacity(*final(rb)) == alert_ring_capacity(*old(rb)),
        alert_ring_items(*final(rb)) == ring_after_enqueue(
            alert_ring_items(*old(rb)),
            alert_ring_capacity(*old(rb)),
            x,
        ),
{
    let _ = rb.enqueue(x);
}

/// Relies on `RingBuffer::clear` of `AllocRingBuffer`: empties the ring and
/// keeps its capacity.
#[verifier::external_body]
pub(crate) fn clear_alert_ring(rb: &mut AllocRingBuffer<Alert>)
    ensures
        alert_ring_capacity(*final(rb)) == alert_ring_capacity(*old(rb)),
        alert_ring_items(*final(rb)) == Seq::<Alert>::empty(),
{
    rb.clear();
}

/// Relies on `RingBuffer::to_vec`: clones of the elements, oldest first (the
/// derived `Clone` of a record copies every field).
#[verifier::external_body]
pub(crate) fn alert_ring_to_vec(rb: &AllocRingBuffer<Alert>) -> (v: Vec<Alert>)
    ensures
        v@ == alert_ring_items(*rb),
{
    rb.to_vec()
}

/// Relies on `RingBuffer::back`: the most recently enqueued element, whose
/// creation time is handed back.
#[verifier::external_body]
pub(crate) fn newest_alert_time(rb: &AllocRingBuffer<Alert>) -> (r: Option<i64>)
    ensures
        r == newest_key(alert_ring_items(*rb)),
{
    rb.back().map(|a| a.ctime)
}

} // verus!
