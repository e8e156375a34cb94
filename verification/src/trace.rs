//! Runs of calls, and what holds of every one of them.
//!
//! A `Call` is one use of the engine by a control thread or by the loop
//! thread. The theorems here speak of the model, and so of every engine,
//! since each method of the engine follows the model.
use vstd::prelude::*;
use crate::address::PeerAddress;
use crate::model::ActionView;
use crate::model::LoopModel;
use crate::model::LoopState;
use crate::model::StartError;
use crate::packet::PacketView;
use crate::MAX_PACKET_SIZE;
use crate::MAX_PENDING_TX;

verus! {

/// One call on an engine.
pub enum Call {
    /// `transmit` of this packet.
    Transmit(PacketView),
    /// `try_receive`.
    TryReceive,
    /// `start`, with or without a bound socket.
    Start(bool),
    /// `stop`.
    Stop,
    /// `next_action`, the top of a loop iteration.
    NextAction,
    /// `deliver` of a datagram from this peer, the end of a loop iteration
    /// in which the socket yielded one.
    Deliver(PeerAddress, Seq<u8>),
}

/// How many of `calls` are transmits.
pub open spec fn transmits(calls: Seq<Call>) -> nat
    decreases calls.len(),
{
    if calls.len() == 0 {
        0
    } else {
        transmits(calls.drop_last()) + if calls.last() is Transmit {
            1nat
        } else {
            0nat
        }
    }
}

/// The calls that transmit `packets` one after the other.
pub open spec fn transmit_calls(packets: Seq<PacketView>) -> Seq<Call> {
    Seq::new(packets.len(), |i: int| Call::Transmit(packets[i]))
}

impl LoopModel {
    /// The state after one call.
    pub open spec fn apply(self, call: Call) -> LoopModel {
        match call {
            Call::Transmit(packet) => self.transmit(packet),
            Call::TryReceive => self.try_receive(),
            Call::Start(socket_bound) => self.start(socket_bound),
            Call::Stop => self.stop(),
            Call::NextAction => self.next_action(),
            Call::Deliver(peer, data) => self.deliver(peer, data),
        }
    }

    /// The state after a run of calls, made in order.
    pub open spec fn run(self, calls: Seq<Call>) -> LoopModel
        decreases calls.len(),
    {
        if calls.len() == 0 {
            self
        } else {
            self.run(calls.drop_last()).apply(calls.last())
        }
    }
}

/// Every call keeps a sound engine sound.
pub proof fn lemma_call_keeps_wf(m: LoopModel, call: Call)
    requires
        m.wf(),
    ensures
        m.apply(call).wf(),
{
    let after = m.apply(call);
    match call {
        Call::TryReceive => {
            assert forall|i: int| 0 <= i < after.inbound.len() implies (
            #[trigger] after.inbound[i]).data.len() <= MAX_PACKET_SIZE by {
                assert(after.inbound[i] == m.inbound[i + 1]);
            }
        },
        Call::Deliver(peer, data) => {
            assert forall|i: int| 0 <= i < after.inbound.len() implies (
            #[trigger] after.inbound[i]).data.len() <= MAX_PACKET_SIZE by {
                if i < m.inbound.len() {
                    assert(after.inbound[i] == m.inbound[i]);
                }
            }
        },
        _ => {},
    }
}

/// Every run of calls keeps a sound engine sound: whatever the control
/// threads and the loop thread do, and in whatever order, no queue goes
/// over its capacity, the stop flag goes with the stopped state, and no
/// inbound packet is longer than `MAX_PACKET_SIZE`.
pub proof fn lemma_run_keeps_wf(m: LoopModel, calls: Seq<Call>)
    requires
        m.wf(),
    ensures
        m.run(calls).wf(),
    decreases calls.len(),
{
    if calls.len() > 0 {
        lemma_run_keeps_wf(m, calls.drop_last());
        lemma_call_keeps_wf(m.run(calls.drop_last()), calls.last());
    }
}

/// A packet that `try_receive` yields, after any run of calls on a new
/// engine, has a payload of at most `MAX_PACKET_SIZE` bytes.
pub proof fn lemma_received_payload_bounded(calls: Seq<Call>)
    ensures
        LoopModel::initial().run(calls).received() matches Some(packet) ==> packet.data.len()
            <= MAX_PACKET_SIZE,
{
    lemma_run_keeps_wf(LoopModel::initial(), calls);
}

/// A run of calls adds at most its transmits to the outbound queue.
pub proof fn lemma_outbound_grows_by_transmits(m: LoopModel, calls: Seq<Call>)
    ensures
        m.run(calls).outbound.len() <= m.outbound.len() + transmits(calls),
    decreases calls.len(),
{
    if calls.len() > 0 {
        lemma_outbound_grows_by_transmits(m, calls.drop_last());
    }
}

/// While fewer than `MAX_PENDING_TX` packets have been handed in since the
/// outbound queue was empty, the next `transmit` is accepted: in whatever
/// state the engine is, and whatever else was called in between.
pub proof fn lemma_transmit_accepted_within_capacity(m: LoopModel, calls: Seq<Call>)
    requires
        m.outbound.len() == 0,
        transmits(calls) < MAX_PENDING_TX,
    ensures
        m.run(calls).accepts_transmit(),
{
    lemma_outbound_grows_by_transmits(m, calls);
}

/// Transmits alone, at most `MAX_PENDING_TX` of them into an empty
/// outbound queue, are all accepted and wait in the order they were made.
pub proof fn lemma_transmits_queue_in_order(m: LoopModel, packets: Seq<PacketView>)
    requires
        m.outbound.len() == 0,
        packets.len() <= MAX_PENDING_TX,
    ensures
        m.run(transmit_calls(packets)).outbound == packets,
        m.run(transmit_calls(packets)) == (LoopModel { outbound: packets, ..m }),
        forall|k: int|
            0 <= k < packets.len() ==> (#[trigger] m.run(
                transmit_calls(packets.take(k)),
            )).accepts_transmit(),
    decreases packets.len(),
{
    let calls = transmit_calls(packets);
    if packets.len() == 0 {
        assert(m.outbound =~= packets);
    } else {
        let shorter = packets.drop_last();
        lemma_transmits_queue_in_order(m, shorter);
        assert(calls.drop_last() =~= transmit_calls(shorter));
        assert(shorter.push(packets.last()) =~= packets);
        assert forall|k: int| 0 <= k < packets.len() implies (#[trigger] m.run(
            transmit_calls(packets.take(k)),
        )).accepts_transmit() by {
            if k < shorter.len() {
                assert(packets.take(k) =~= shorter.take(k));
            } else {
                assert(packets.take(k) =~= shorter);
            }
        }
    }
}

/// Once `MAX_PENDING_TX` transmits have gone into an empty outbound queue
/// with nothing taken out in between, one more is rejected and changes
/// nothing.
pub proof fn lemma_transmit_rejected_when_full(
    m: LoopModel,
    packets: Seq<PacketView>,
    extra: PacketView,
)
    requires
        m.outbound.len() == 0,
        packets.len() == MAX_PENDING_TX,
    ensures
        !m.run(transmit_calls(packets)).accepts_transmit(),
        m.run(transmit_calls(packets)).transmit(extra) == m.run(transmit_calls(packets)),
{
    lemma_transmits_queue_in_order(m, packets);
}

/// Of two starts in a row only the first goes through: an idle engine with
/// a bound socket answers `Ok(true)`, and then declines every further
/// start, asks for no second socket, and stays as it is.
pub proof fn lemma_second_start_declined(m: LoopModel, socket_bound: bool)
    requires
        m.state == LoopState::Idle,
    ensures
        m.start_result(true) == Ok::<bool, StartError>(true),
        !m.start(true).can_start(),
        m.start(true).start_result(socket_bound) == Ok::<bool, StartError>(false),
        m.start(true).start(socket_bound) == m.start(true),
{
}

/// A start without a socket fails and leaves the engine idle, so that a
/// later start may still go through.
pub proof fn lemma_failed_start_leaves_idle(m: LoopModel)
    requires
        m.state == LoopState::Idle,
    ensures
        m.start_result(false) == Err::<bool, StartError>(StartError::BindFailed),
        m.start(false) == m,
{
}

/// Stopping an engine that was never started returns `false` and changes
/// nothing, whatever was transmitted or collected before.
pub proof fn lemma_stop_before_start_declined(calls: Seq<Call>)
    requires
        forall|i: int| 0 <= i < calls.len() ==> !(#[trigger] calls[i] is Start),
    ensures
        LoopModel::initial().run(calls).state == LoopState::Idle,
        !LoopModel::initial().run(calls).stop_result(),
        LoopModel::initial().run(calls).stop() == LoopModel::initial().run(calls),
    decreases calls.len(),
{
    if calls.len() > 0 {
        let shorter = calls.drop_last();
        assert forall|i: int| 0 <= i < shorter.len() implies !(#[trigger] shorter[i] is Start) by {
            assert(shorter[i] == calls[i]);
        }
        lemma_stop_before_start_declined(shorter);
    }
}

/// Of two stops in a row only the first goes through: a running engine
/// answers `true`, and then `false` with nothing changed. The queues are
/// the same before and after.
pub proof fn lemma_second_stop_declined(m: LoopModel)
    requires
        m.state == LoopState::Running,
    ensures
        m.stop_result(),
        !m.stop().stop_result(),
        m.stop().stop() == m.stop(),
        m.stop().outbound == m.outbound,
        m.stop().inbound == m.inbound,
{
}

/// A stopped engine stays stopped, whatever is called on it, and its loop
/// is told to halt.
pub proof fn lemma_stopped_is_final(m: LoopModel, calls: Seq<Call>)
    requires
        m.wf(),
        m.state == LoopState::Stopped,
    ensures
        m.run(calls).state == LoopState::Stopped,
        m.run(calls).action() == ActionView::Halt,
    decreases calls.len(),
{
    if calls.len() > 0 {
        lemma_stopped_is_final(m, calls.drop_last());
    }
    lemma_run_keeps_wf(m, calls);
}

} // verus!
