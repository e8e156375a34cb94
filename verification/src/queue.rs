//! The bounded packet queue.
//!
//! The queue itself is `crossbeam_queue::ArrayQueue`, a fixed-capacity ring
//! buffer. Verus does not look inside it: this module declares the type,
//! names what a queue holds and how many packets it was made for, and states
//! in the contracts of three small functions what the ring buffer does to
//! those. Nothing here is proved; the engine is proved against it.
use vstd::prelude::*;
use crossbeam_queue::ArrayQueue;
use crate::packet::PacketView;
use crate::packet::UdpPacket;

verus! {

/// Declares `crossbeam_queue::ArrayQueue` to Verus as a type whose inside
/// it does not see.
#[verifier::external_type_specification]
#[verifier::external_body]
#[verifier::reject_recursive_types(T)]
pub struct ExArrayQueue<T>(ArrayQueue<T>);

/// The packets that wait in a queue, oldest first.
pub uninterp spec fn queued(queue: ArrayQueue<UdpPacket>) -> Seq<PacketView>;

/// The number of packets that a queue was made to hold.
pub uninterp spec fn queue_limit(queue: ArrayQueue<UdpPacket>) -> nat;

/// The largest capacity that this crate asks of a queue.
pub const QUEUE_CAPACITY_BOUND: usize = 0xffff;

/// Calls `ArrayQueue::new`, which allocates `capacity` slots and starts with
/// head and tail at the same place. The contract claims that the new queue
/// holds nothing and has `capacity` as its limit. `ArrayQueue::new` panics
/// on a capacity of zero and allocates the whole buffer at once, so the
/// capacity must be positive and modest.
#[verifier::external_body]
pub(crate) fn queue_new(capacity: usize) -> (queue: ArrayQueue<UdpPacket>)
    requires
        0 < capacity <= QUEUE_CAPACITY_BOUND,
    ensures
        queued(queue) == Seq::<PacketView>::empty(),
        queue_limit(queue) == capacity,
{
    ArrayQueue::new(capacity)
}

/// Calls `ArrayQueue::push`. With the queue borrowed exclusively no other
/// thread can touch it, and the contract claims what the ring buffer then
/// does: a queue that holds fewer packets than its limit takes the packet
/// at its tail and the call returns `true`; a full queue is left as it was,
/// the packet is dropped and the call returns `false`.
#[verifier::external_body]
pub(crate) fn queue_push(queue: &mut ArrayQueue<UdpPacket>, packet: UdpPacket) -> (accepted: bool)
    ensures
        queue_limit(*final(queue)) == queue_limit(*old(queue)),
        accepted == (queued(*old(queue)).len() < queue_limit(*old(queue))),
        accepted ==> queued(*final(queue)) == queued(*old(queue)).push(packet@),
        !accepted ==> queued(*final(queue)) == queued(*old(queue)),
{
    match queue.push(packet) {
        Ok(()) => true,
        Err(_) => false,
    }
}

/// Calls `ArrayQueue::pop`. With the queue borrowed exclusively, the
/// contract claims that a queue which holds a packet gives up its oldest
/// one and keeps the rest in order, and that an empty queue yields `None`
/// and stays empty.
#[verifier::external_body]
pub(crate) fn queue_pop(queue: &mut ArrayQueue<UdpPacket>) -> (packet: Option<UdpPacket>)
    ensures
        queue_limit(*final(queue)) == queue_limit(*old(queue)),
        packet.is_some() == (queued(*old(queue)).len() > 0),
        packet matches Some(p) ==> p@ == queued(*old(queue)).first()
            && queued(*final(queue)) == queued(*old(queue)).drop_first(),
        packet.is_none() ==> queued(*final(queue)) == queued(*old(queue)),
{
    match queue.pop() {
        Ok(packet) => Some(packet),
        Err(_) => None,
    }
}

} // verus!
