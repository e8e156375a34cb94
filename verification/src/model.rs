//! The engine as mathematics.
//!
//! `LoopModel` is what an engine is to the contracts: its lifecycle state,
//! its stop flag and the two queues as sequences. Each operation of the
//! engine is a function on models here, and the executable engine promises
//! to follow them.
use vstd::prelude::*;
use crate::address::PeerAddress;
use crate::packet::PacketView;
use crate::LOOP_GRACE_DURATION_MS;
use crate::MAX_PACKET_SIZE;
use crate::MAX_PENDING_RX;
use crate::MAX_PENDING_TX;

verus! {

/// Where an engine is in its life.
#[derive(Clone, Copy, Debug, PartialEq, Eq, Structural)]
pub enum LoopState {
    /// Never started: no socket, no loop thread.
    Idle,
    /// Started: the loop thread polls the queues and the socket.
    Running,
    /// Stopped for good: the stop flag is set and the loop thread is joined.
    Stopped,
}

/// Why a start did not go through.
#[derive(Clone, Copy, Debug, PartialEq, Eq, Structural)]
pub enum StartError {
    /// The socket could not be bound, so the engine cannot run.
    BindFailed,
}

/// What became of the datagram that the socket yielded in one iteration.
#[derive(Clone, Copy, Debug, PartialEq, Eq, Structural)]
pub enum Delivery {
    /// The socket had nothing.
    Nothing,
    /// The datagram waits in the inbound queue.
    Queued,
    /// The inbound queue was full; the datagram is gone.
    DroppedFull,
    /// The datagram was longer than `MAX_PACKET_SIZE`; it is gone, and the
    /// host should say so in its diagnostics.
    DroppedOversized,
}

/// What the loop thread is told at the end of an iteration.
#[derive(Clone, Copy, Debug, PartialEq, Eq, Structural)]
pub struct IterationReport {
    /// What became of the datagram, if the socket had one.
    pub delivery: Delivery,
    /// How many milliseconds to rest before the next iteration, if any.
    pub pause_ms: Option<u64>,
}

/// The first thing that the loop thread asks in an iteration, as the
/// contracts see the answer.
pub enum ActionView {
    /// The stop flag is set: leave the loop.
    Halt,
    /// Send this packet, then read the socket.
    Send(PacketView),
    /// Nothing waits to be sent: read the socket.
    ReceiveOnly,
}

/// The state of an engine.
pub struct LoopModel {
    pub state: LoopState,
    pub stop_flag: bool,
    /// Packets waiting to be sent, oldest first.
    pub outbound: Seq<PacketView>,
    /// Packets waiting to be collected, oldest first.
    pub inbound: Seq<PacketView>,
}

/// How long the loop rests after an iteration: the grace interval when
/// nothing was sent and nothing arrived, no time at all otherwise.
pub open spec fn pause_for(sent: bool, received: bool) -> Option<u64> {
    if !sent && !received {
        Some(LOOP_GRACE_DURATION_MS)
    } else {
        None
    }
}

impl LoopModel {
    /// An engine as `new` makes it.
    pub open spec fn initial() -> LoopModel {
        LoopModel {
            state: LoopState::Idle,
            stop_flag: false,
            outbound: Seq::empty(),
            inbound: Seq::empty(),
        }
    }

    /// What holds of every engine: neither queue is over its capacity, the
    /// stop flag is set exactly in the stopped state, and no packet in the
    /// inbound queue is longer than `MAX_PACKET_SIZE`.
    pub open spec fn wf(self) -> bool {
        &&& self.outbound.len() <= MAX_PENDING_TX
        &&& self.inbound.len() <= MAX_PENDING_RX
        &&& self.stop_flag == (self.state == LoopState::Stopped)
        &&& forall|i: int|
            0 <= i < self.inbound.len() ==> (#[trigger] self.inbound[i]).data.len()
                <= MAX_PACKET_SIZE
    }

    /// Whether `transmit` takes a packet in this state.
    pub open spec fn accepts_transmit(self) -> bool {
        self.outbound.len() < MAX_PENDING_TX
    }

    /// The state after `transmit`: the packet at the tail of the outbound
    /// queue if there was room, no change if there was none.
    pub open spec fn transmit(self, packet: PacketView) -> LoopModel {
        if self.accepts_transmit() {
            LoopModel { outbound: self.outbound.push(packet), ..self }
        } else {
            self
        }
    }

    /// What `try_receive` returns: the oldest inbound packet, if any.
    pub open spec fn received(self) -> Option<PacketView> {
        if self.inbound.len() > 0 {
            Some(self.inbound.first())
        } else {
            None
        }
    }

    /// The state after `try_receive`: the inbound queue without its oldest
    /// packet.
    pub open spec fn try_receive(self) -> LoopModel {
        if self.inbound.len() > 0 {
            LoopModel { inbound: self.inbound.drop_first(), ..self }
        } else {
            self
        }
    }

    /// Whether a start would go ahead: only a never-started engine starts.
    pub open spec fn can_start(self) -> bool {
        self.state == LoopState::Idle
    }

    /// What `start` returns. A running or stopped engine declines with
    /// `Ok(false)`, whatever became of the socket; an idle one answers
    /// `Ok(true)` with a bound socket and fails without one.
    pub open spec fn start_result(self, socket_bound: bool) -> Result<bool, StartError> {
        if !self.can_start() {
            Ok(false)
        } else if socket_bound {
            Ok(true)
        } else {
            Err(StartError::BindFailed)
        }
    }

    /// The state after `start`: running if the start went through, unchanged
    /// otherwise.
    pub open spec fn start(self, socket_bound: bool) -> LoopModel {
        if self.can_start() && socket_bound {
            LoopModel { state: LoopState::Running, ..self }
        } else {
            self
        }
    }

    /// What `stop` returns: whether the engine was running.
    pub open spec fn stop_result(self) -> bool {
        self.state == LoopState::Running
    }

    /// The state after `stop`: a running engine is stopped and its stop flag
    /// set; the queues stay as they are. Any other engine is unchanged.
    pub open spec fn stop(self) -> LoopModel {
        if self.state == LoopState::Running {
            LoopModel { state: LoopState::Stopped, stop_flag: true, ..self }
        } else {
            self
        }
    }

    /// What the loop thread is told at the top of an iteration.
    pub open spec fn action(self) -> ActionView {
        if self.stop_flag {
            ActionView::Halt
        } else if self.outbound.len() > 0 {
            ActionView::Send(self.outbound.first())
        } else {
            ActionView::ReceiveOnly
        }
    }

    /// The state after the top of an iteration: unless the stop flag is
    /// set, the oldest outbound packet has left its queue.
    pub open spec fn next_action(self) -> LoopModel {
        if !self.stop_flag && self.outbound.len() > 0 {
            LoopModel { outbound: self.outbound.drop_first(), ..self }
        } else {
            self
        }
    }

    /// What becomes of a datagram of `data` bytes: too long and it is
    /// dropped, else it is queued if the inbound queue has room.
    pub open spec fn delivery(self, data: Seq<u8>) -> Delivery {
        if data.len() > MAX_PACKET_SIZE {
            Delivery::DroppedOversized
        } else if self.inbound.len() < MAX_PENDING_RX {
            Delivery::Queued
        } else {
            Delivery::DroppedFull
        }
    }

    /// The state after a datagram from `peer` was handed in: at the tail of
    /// the inbound queue if it was queued, no change if it was dropped.
    pub open spec fn deliver(self, peer: PeerAddress, data: Seq<u8>) -> LoopModel {
        if self.delivery(data) == Delivery::Queued {
            LoopModel { inbound: self.inbound.push(PacketView { peer, data }), ..self }
        } else {
            self
        }
    }

    /// What the loop thread is told at the end of an iteration in which it
    /// did or did not send, and the socket yielded `datagram` or nothing.
    pub open spec fn iteration_report(
        self,
        sent: bool,
        datagram: Option<(PeerAddress, Seq<u8>)>,
    ) -> IterationReport {
        match datagram {
            Some((peer, data)) => IterationReport {
                delivery: self.delivery(data),
                pause_ms: pause_for(sent, true),
            },
            None => IterationReport { delivery: Delivery::Nothing, pause_ms: pause_for(sent, false) },
        }
    }

    /// The state after the end of an iteration.
    pub open spec fn finish_iteration(self, datagram: Option<(PeerAddress, Seq<u8>)>) -> LoopModel {
        match datagram {
            Some((peer, data)) => self.deliver(peer, data),
            None => self,
        }
    }
}

} // verus!
