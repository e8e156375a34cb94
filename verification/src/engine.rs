//! The engine: two bounded queues, a stop flag and a lifecycle.
//!
//! The engine holds no socket and starts no thread. The host binds the
//! socket, runs the loop thread and keeps time; at each point where the
//! loop has something to decide it asks the engine, and does what it is
//! told. Every method takes the engine exclusively, so a host that shares
//! one engine between its control threads and its loop thread guards it
//! with a lock that it holds for the length of one call and never across a
//! socket call or a sleep.
use vstd::prelude::*;
use crossbeam_queue::ArrayQueue;
use crate::address::PeerAddress;
use crate::model::ActionView;
use crate::model::Delivery;
use crate::model::IterationReport;
use crate::model::LoopModel;
use crate::model::LoopState;
use crate::model::StartError;
use crate::model::pause_for;
use crate::packet::PacketView;
use crate::packet::UdpPacket;
use crate::packet::copy_bytes;
use crate::queue::queue_limit;
use crate::queue::queue_new;
use crate::queue::queue_pop;
use crate::queue::queue_push;
use crate::queue::queued;
use crate::LOOP_GRACE_DURATION_MS;
use crate::MAX_PACKET_SIZE;
use crate::MAX_PENDING_RX;
use crate::MAX_PENDING_TX;

verus! {

/// What the loop thread does first in an iteration.
#[derive(Debug)]
pub enum LoopAction {
    /// The stop flag is set: leave the loop.
    Halt,
    /// Send this packet to its peer, whether or not the socket takes it,
    /// then read the socket.
    Send(UdpPacket),
    /// Nothing waits to be sent: read the socket.
    ReceiveOnly,
}

impl View for LoopAction {
    type V = ActionView;

    open spec fn view(&self) -> ActionView {
        match self {
            LoopAction::Halt => ActionView::Halt,
            LoopAction::Send(packet) => ActionView::Send(packet@),
            LoopAction::ReceiveOnly => ActionView::ReceiveOnly,
        }
    }
}

/// What a datagram handed to the engine is to the contracts.
pub open spec fn datagram_view(datagram: Option<(PeerAddress, &[u8])>) -> Option<
    (PeerAddress, Seq<u8>),
> {
    match datagram {
        Some((peer, bytes)) => Some((peer, bytes@)),
        None => None,
    }
}

/// What an optional packet is to the contracts.
pub open spec fn packet_view(packet: Option<UdpPacket>) -> Option<PacketView> {
    match packet {
        Some(p) => Some(p@),
        None => None,
    }
}

/// The relay engine.
pub struct UdpLoop {
    stop_flag: bool,
    pending_tx: ArrayQueue<UdpPacket>,
    pending_rx: ArrayQueue<UdpPacket>,
    state: LoopState,
}

impl View for UdpLoop {
    type V = LoopModel;

    closed spec fn view(&self) -> LoopModel {
        LoopModel {
            state: self.state,
            stop_flag: self.stop_flag,
            outbound: queued(self.pending_tx),
            inbound: queued(self.pending_rx),
        }
    }
}

impl Default for UdpLoop {
    /// An idle engine with both queues empty.
    fn default() -> (engine: Self)
        ensures
            engine.wf(),
            engine@ == LoopModel::initial(),
    {
        UdpLoop {
            stop_flag: false,
            pending_tx: queue_new(MAX_PENDING_TX),
            pending_rx: queue_new(MAX_PENDING_RX),
            state: LoopState::Idle,
        }
    }
}

impl UdpLoop {
    /// Whether this engine is sound: its model is, and its queues were made
    /// for `MAX_PENDING_TX` and `MAX_PENDING_RX` packets. `new` makes a
    /// sound engine and every method keeps it sound.
    pub open spec fn wf(&self) -> bool {
        &&& self@.wf()
        &&& self.queues_sized()
    }

    /// Whether the outbound queue was made for `MAX_PENDING_TX` packets and
    /// the inbound queue for `MAX_PENDING_RX`.
    pub closed spec fn queues_sized(&self) -> bool {
        &&& queue_limit(self.pending_tx) == MAX_PENDING_TX
        &&& queue_limit(self.pending_rx) == MAX_PENDING_RX
    }

    /// An idle engine with both queues empty. Nothing is bound and no
    /// thread runs.
    pub fn new() -> (engine: Self)
        ensures
            engine.wf(),
            engine@ == LoopModel::initial(),
    {
        Default::default()
    }

    /// Takes the oldest packet out of the inbound queue, if there is one.
    /// Such a packet came from the socket, so its payload is at most
    /// `MAX_PACKET_SIZE` bytes long.
    pub fn try_receive(&mut self) -> (packet: Option<UdpPacket>)
        requires
            old(self).wf(),
        ensures
            final(self).wf(),
            final(self)@ == old(self)@.try_receive(),
            packet_view(packet) == old(self)@.received(),
            packet matches Some(p) ==> p@.data.len() <= MAX_PACKET_SIZE,
    {
        let packet = queue_pop(&mut self.pending_rx);
        proof {
            let before = old(self)@.inbound;
            let after = self@.inbound;
            if before.len() > 0 {
                assert forall|i: int| 0 <= i < after.len() implies (#[trigger] after[i]).data.len()
                    <= MAX_PACKET_SIZE by {
                    assert(after[i] == before[i + 1]);
                }
            }
        }
        packet
    }

    /// Puts a packet at the tail of the outbound queue and returns `true`,
    /// or drops it and returns `false` when `MAX_PENDING_TX` packets wait
    /// already. The state of the engine plays no part: packets handed in
    /// before a start wait for it, and those handed in after a stop stay in
    /// the queue.
    pub fn transmit(&mut self, packet: UdpPacket) -> (accepted: bool)
        requires
            old(self).wf(),
        ensures
            final(self).wf(),
            accepted == old(self)@.accepts_transmit(),
            final(self)@ == old(self)@.transmit(packet@),
    {
        queue_push(&mut self.pending_tx, packet)
    }

    /// Whether a start would go ahead. The host asks this before it binds a
    /// socket, so that a declined start binds nothing.
    pub fn can_start(&self) -> (idle: bool)
        requires
            self.wf(),
        ensures
            idle == self@.can_start(),
    {
        self.state == LoopState::Idle
    }

    /// Starts the engine, given whether the host has bound its socket.
    ///
    /// An engine that is running, or that was stopped, declines with
    /// `Ok(false)` and stays as it is: a stopped engine is not started
    /// again. An idle engine with a bound socket starts running and answers
    /// `Ok(true)`; the host then spawns the loop thread. Without a socket
    /// the start fails with `BindFailed` and the engine stays idle.
    pub fn start(&mut self, socket_bound: bool) -> (started: Result<bool, StartError>)
        requires
            old(self).wf(),
        ensures
            final(self).wf(),
            started == old(self)@.start_result(socket_bound),
            final(self)@ == old(self)@.start(socket_bound),
    {
        if self.state != LoopState::Idle {
            return Ok(false);
        }
        if !socket_bound {
            return Err(StartError::BindFailed);
        }
        self.state = LoopState::Running;
        Ok(true)
    }

    /// Stops a running engine: sets the stop flag, moves to the stopped
    /// state and returns `true`; the host then joins the loop thread, which
    /// leaves its loop at the top of its next iteration. Any other engine
    /// returns `false` and stays as it is. The queues keep what they hold.
    pub fn stop(&mut self) -> (stopped: bool)
        requires
            old(self).wf(),
        ensures
            final(self).wf(),
            stopped == old(self)@.stop_result(),
            final(self)@ == old(self)@.stop(),
    {
        if self.state != LoopState::Running {
            return false;
        }
        self.stop_flag = true;
        self.state = LoopState::Stopped;
        true
    }

    /// The top of an iteration of the loop thread. With the stop flag set
    /// the answer is `Halt` and nothing changes. Otherwise the oldest
    /// outbound packet leaves its queue to be sent, or, if none waits, the
    /// thread goes straight to reading the socket.
    pub fn next_action(&mut self) -> (action: LoopAction)
        requires
            old(self).wf(),
        ensures
            final(self).wf(),
            action@ == old(self)@.action(),
            final(self)@ == old(self)@.next_action(),
    {
        if self.stop_flag {
            return LoopAction::Halt;
        }
        match queue_pop(&mut self.pending_tx) {
            Some(packet) => LoopAction::Send(packet),
            None => LoopAction::ReceiveOnly,
        }
    }

    /// Hands in a datagram that the socket yielded. One longer than
    /// `MAX_PACKET_SIZE` is dropped. Any other becomes a packet at the tail
    /// of the inbound queue, or is dropped when `MAX_PENDING_RX` packets
    /// wait there already.
    pub fn deliver(&mut self, peer: PeerAddress, bytes: &[u8]) -> (verdict: Delivery)
        requires
            old(self).wf(),
        ensures
            final(self).wf(),
            verdict == old(self)@.delivery(bytes@),
            final(self)@ == old(self)@.deliver(peer, bytes@),
    {
        if bytes.len() > MAX_PACKET_SIZE {
            return Delivery::DroppedOversized;
        }
        let packet = UdpPacket { peer, data: copy_bytes(bytes) };
        let ghost before = self@.inbound;
        let queued_now = queue_push(&mut self.pending_rx, packet);
        if queued_now {
            proof {
                let after = self@.inbound;
                assert forall|i: int| 0 <= i < after.len() implies (#[trigger] after[i]).data.len()
                    <= MAX_PACKET_SIZE by {
                    if i < before.len() {
                        assert(after[i] == before[i]);
                    }
                }
            }
            Delivery::Queued
        } else {
            Delivery::DroppedFull
        }
    }

    /// How long the loop rests after an iteration: the grace interval when
    /// it neither sent a packet nor got a datagram, no time otherwise.
    pub fn pause_after(sent: bool, received: bool) -> (pause_ms: Option<u64>)
        ensures
            pause_ms == pause_for(sent, received),
    {
        if !sent && !received {
            Some(LOOP_GRACE_DURATION_MS)
        } else {
            None
        }
    }

    /// The end of an iteration of the loop thread: `sent` says whether a
    /// packet was handed to the socket in this iteration, `datagram` is
    /// what the socket yielded, if anything. The datagram is delivered, and
    /// the report says what became of it and whether to rest.
    pub fn finish_iteration(&mut self, sent: bool, datagram: Option<(PeerAddress, &[u8])>) -> (report:
        IterationReport)
        requires
            old(self).wf(),
        ensures
            final(self).wf(),
            report == old(self)@.iteration_report(sent, datagram_view(datagram)),
            final(self)@ == old(self)@.finish_iteration(datagram_view(datagram)),
    {
        match datagram {
            Some((peer, bytes)) => {
                let delivery = self.deliver(peer, bytes);
                IterationReport { delivery, pause_ms: Self::pause_after(sent, true) }
            },
            None => IterationReport {
                delivery: Delivery::Nothing,
                pause_ms: Self::pause_after(sent, false),
            },
        }
    }
}

} // verus!
