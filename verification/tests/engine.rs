use udp_loop::address::IpAddress;
use udp_loop::address::PeerAddress;
use udp_loop::engine::LoopAction;
use udp_loop::engine::UdpLoop;
use udp_loop::model::Delivery;
use udp_loop::model::StartError;
use udp_loop::packet::UdpPacket;
use udp_loop::LOOP_GRACE_DURATION_MS;
use udp_loop::MAX_PACKET_SIZE;
use udp_loop::MAX_PENDING_RX;
use udp_loop::MAX_PENDING_TX;

const LOCALHOST: IpAddress = IpAddress::V4(0x7f00_0001);

fn packet_to(port: u16, payload: &[u8]) -> UdpPacket {
    let mut packet = UdpPacket::new(LOCALHOST, port);
    packet.set_data(payload);
    packet
}

/// Runs one iteration of engine `from`, whose socket is bound to
/// `from_port`, carrying what it sends straight to engine `to`.
fn relay_once(from: &mut UdpLoop, from_port: u16, to: &mut UdpLoop) -> bool {
    match from.next_action() {
        LoopAction::Halt => false,
        LoopAction::ReceiveOnly => false,
        LoopAction::Send(packet) => {
            let source = PeerAddress::new(LOCALHOST, from_port);
            to.deliver(source, &packet.data);
            true
        }
    }
}

#[test]
fn constants_have_their_documented_values() {
    assert_eq!(MAX_PACKET_SIZE, 1460);
    assert_eq!(MAX_PENDING_TX, 128);
    assert_eq!(MAX_PENDING_RX, 128);
    assert_eq!(LOOP_GRACE_DURATION_MS, 1);
}

#[test]
fn new_packet_has_peer_and_no_payload() {
    let packet = UdpPacket::new(LOCALHOST, 9002);
    assert_eq!(packet.peer.ip, LOCALHOST);
    assert_eq!(packet.peer.port, 9002);
    assert_eq!(packet.peer.flowinfo, 0);
    assert_eq!(packet.peer.scope_id, 0);
    assert!(packet.get_data().is_empty());
}

#[test]
fn new_packet_for_ipv6_peer() {
    let packet = UdpPacket::new(IpAddress::V6(1), 53);
    assert_eq!(packet.peer, PeerAddress { ip: IpAddress::V6(1), port: 53, flowinfo: 0, scope_id: 0 });
}

#[test]
fn set_data_replaces_payload_and_keeps_peer() {
    let mut packet = UdpPacket::new(LOCALHOST, 7);
    packet.set_data(b"ping");
    assert_eq!(packet.get_data(), b"ping".to_vec());
    packet.set_data(&[1, 2]);
    assert_eq!(packet.get_data(), vec![1u8, 2]);
    assert_eq!(packet.peer, PeerAddress::new(LOCALHOST, 7));
}

#[test]
fn get_data_is_a_copy() {
    let mut packet = packet_to(7, b"abc");
    let mut copy = packet.get_data();
    copy.push(b'd');
    assert_eq!(packet.get_data(), b"abc".to_vec());
    packet.set_data(b"");
    assert_eq!(copy, b"abcd".to_vec());
}

#[test]
fn clone_keeps_peer_and_payload() {
    let packet = packet_to(9001, b"payload");
    let copy = packet.clone();
    assert_eq!(copy.peer, packet.peer);
    assert_eq!(copy.data, packet.data);
}

#[test]
fn new_engine_is_idle_and_empty() {
    let mut engine = UdpLoop::new();
    assert!(engine.can_start());
    assert!(engine.try_receive().is_none());
    assert!(matches!(engine.next_action(), LoopAction::ReceiveOnly));
}

#[test]
fn default_engine_is_like_new() {
    let mut engine = UdpLoop::default();
    assert!(engine.can_start());
    assert!(engine.try_receive().is_none());
    assert!(!engine.stop());
}

#[test]
fn transmit_accepts_128_and_rejects_the_129th() {
    let mut engine = UdpLoop::new();
    for i in 0..128u16 {
        assert!(engine.transmit(packet_to(i, &[i as u8])), "call {}", i);
    }
    assert!(!engine.transmit(packet_to(128, b"x")));
    assert!(!engine.transmit(packet_to(129, b"y")));
}

#[test]
fn transmit_fills_up_while_running_too() {
    let mut engine = UdpLoop::new();
    assert_eq!(engine.start(true), Ok(true));
    for i in 0..128u16 {
        assert!(engine.transmit(packet_to(i, b"")));
    }
    assert!(!engine.transmit(packet_to(128, b"")));
}

#[test]
fn transmit_accepted_again_after_a_drain() {
    let mut engine = UdpLoop::new();
    for i in 0..128u16 {
        assert!(engine.transmit(packet_to(i, b"")));
    }
    assert!(!engine.transmit(packet_to(500, b"")));
    assert!(matches!(engine.next_action(), LoopAction::Send(_)));
    assert!(engine.transmit(packet_to(501, b"")));
    assert!(!engine.transmit(packet_to(502, b"")));
}

#[test]
fn outbound_packets_leave_oldest_first() {
    let mut engine = UdpLoop::new();
    for i in 0..5u16 {
        assert!(engine.transmit(packet_to(1000 + i, &[i as u8, 0xaa])));
    }
    for i in 0..5u16 {
        match engine.next_action() {
            LoopAction::Send(packet) => {
                assert_eq!(packet.peer, PeerAddress::new(LOCALHOST, 1000 + i));
                assert_eq!(packet.data, vec![i as u8, 0xaa]);
            }
            other => panic!("expected a packet to send, got {:?}", other),
        }
    }
    assert!(matches!(engine.next_action(), LoopAction::ReceiveOnly));
}

#[test]
fn outbound_queue_wraps_around_in_order() {
    let mut engine = UdpLoop::new();
    let mut next_in: u16 = 0;
    let mut next_out: u16 = 0;
    for _ in 0..3 {
        while engine.transmit(packet_to(next_in, &next_in.to_be_bytes())) {
            next_in += 1;
        }
        for _ in 0..100 {
            match engine.next_action() {
                LoopAction::Send(packet) => {
                    assert_eq!(packet.peer.port, next_out);
                    assert_eq!(packet.data, next_out.to_be_bytes().to_vec());
                    next_out += 1;
                }
                other => panic!("expected a packet to send, got {:?}", other),
            }
        }
    }
    assert_eq!(next_in, 328);
    assert_eq!(next_out, 300);
}

#[test]
fn packets_queued_before_start_are_sent_after_it() {
    let mut engine = UdpLoop::new();
    assert!(engine.transmit(packet_to(9002, b"early")));
    assert_eq!(engine.start(true), Ok(true));
    match engine.next_action() {
        LoopAction::Send(packet) => assert_eq!(packet.data, b"early".to_vec()),
        other => panic!("expected a packet to send, got {:?}", other),
    }
}

#[test]
fn start_twice_returns_true_then_false() {
    let mut engine = UdpLoop::new();
    assert!(engine.can_start());
    assert_eq!(engine.start(true), Ok(true));
    assert!(!engine.can_start());
    assert_eq!(engine.start(true), Ok(false));
    assert_eq!(engine.start(false), Ok(false));
}

#[test]
fn start_without_socket_fails_and_stays_idle() {
    let mut engine = UdpLoop::new();
    assert_eq!(engine.start(false), Err(StartError::BindFailed));
    assert!(engine.can_start());
    assert!(!engine.stop());
    assert_eq!(engine.start(true), Ok(true));
}

#[test]
fn stop_on_never_started_engine_returns_false() {
    let mut engine = UdpLoop::new();
    assert!(!engine.stop());
    assert!(engine.can_start());
    assert!(matches!(engine.next_action(), LoopAction::ReceiveOnly));
}

#[test]
fn stop_twice_returns_true_then_false() {
    let mut engine = UdpLoop::new();
    assert_eq!(engine.start(true), Ok(true));
    assert!(engine.stop());
    assert!(!engine.stop());
}

#[test]
fn stopped_engine_does_not_start_again() {
    let mut engine = UdpLoop::new();
    assert_eq!(engine.start(true), Ok(true));
    assert!(engine.stop());
    assert!(!engine.can_start());
    assert_eq!(engine.start(true), Ok(false));
    assert!(!engine.stop());
    assert!(matches!(engine.next_action(), LoopAction::Halt));
}

#[test]
fn stop_halts_the_loop_and_keeps_the_queues() {
    let mut engine = UdpLoop::new();
    assert_eq!(engine.start(true), Ok(true));
    assert!(engine.transmit(packet_to(9002, b"unsent")));
    assert_eq!(engine.deliver(PeerAddress::new(LOCALHOST, 9002), b"unread"), Delivery::Queued);
    assert!(engine.stop());
    assert!(matches!(engine.next_action(), LoopAction::Halt));
    assert!(matches!(engine.next_action(), LoopAction::Halt));
    let unread = engine.try_receive().expect("the inbound packet outlives the stop");
    assert_eq!(unread.data, b"unread".to_vec());
    assert!(engine.transmit(packet_to(9002, b"late")));
    for _ in 0..126 {
        assert!(engine.transmit(packet_to(9002, b"")));
    }
    assert!(!engine.transmit(packet_to(9002, b"one too many")));
}

#[test]
fn deliver_queues_a_datagram_with_its_peer() {
    let mut engine = UdpLoop::new();
    let peer = PeerAddress { ip: IpAddress::V6(0xfe80 << 112 | 1), port: 4000, flowinfo: 3, scope_id: 2 };
    assert_eq!(engine.deliver(peer, b"hello"), Delivery::Queued);
    let packet = engine.try_receive().expect("one packet waits");
    assert_eq!(packet.peer, peer);
    assert_eq!(packet.data, b"hello".to_vec());
    assert!(engine.try_receive().is_none());
}

#[test]
fn deliver_takes_exactly_1460_bytes_intact() {
    let mut engine = UdpLoop::new();
    let payload: Vec<u8> = (0..1460u32).map(|i| (i % 251) as u8).collect();
    assert_eq!(engine.deliver(PeerAddress::new(LOCALHOST, 9001), &payload), Delivery::Queued);
    let packet = engine.try_receive().expect("one packet waits");
    assert_eq!(packet.data.len(), 1460);
    assert_eq!(packet.data, payload);
}

#[test]
fn deliver_drops_an_oversized_datagram() {
    let mut engine = UdpLoop::new();
    let payload = vec![7u8; 1461];
    assert_eq!(engine.deliver(PeerAddress::new(LOCALHOST, 9001), &payload), Delivery::DroppedOversized);
    assert!(engine.try_receive().is_none());
    assert_eq!(engine.deliver(PeerAddress::new(LOCALHOST, 9001), &vec![7u8; 65507]), Delivery::DroppedOversized);
    assert!(engine.try_receive().is_none());
}

#[test]
fn deliver_takes_an_empty_datagram() {
    let mut engine = UdpLoop::new();
    assert_eq!(engine.deliver(PeerAddress::new(LOCALHOST, 9001), b""), Delivery::Queued);
    let packet = engine.try_receive().expect("one packet waits");
    assert!(packet.data.is_empty());
}

#[test]
fn deliver_drops_when_inbound_queue_is_full() {
    let mut engine = UdpLoop::new();
    let peer = PeerAddress::new(LOCALHOST, 9001);
    for i in 0..128u8 {
        assert_eq!(engine.deliver(peer, &[i]), Delivery::Queued);
    }
    assert_eq!(engine.deliver(peer, &[200]), Delivery::DroppedFull);
    for i in 0..128u8 {
        let packet = engine.try_receive().expect("a packet waits");
        assert_eq!(packet.data, vec![i]);
    }
    assert!(engine.try_receive().is_none());
    assert_eq!(engine.deliver(peer, &[201]), Delivery::Queued);
}

#[test]
fn oversized_is_reported_even_when_the_queue_is_full() {
    let mut engine = UdpLoop::new();
    let peer = PeerAddress::new(LOCALHOST, 9001);
    for _ in 0..128 {
        assert_eq!(engine.deliver(peer, b"x"), Delivery::Queued);
    }
    assert_eq!(engine.deliver(peer, &vec![0u8; 2000]), Delivery::DroppedOversized);
}

#[test]
fn received_packets_never_exceed_the_size_bound() {
    let mut engine = UdpLoop::new();
    let peer = PeerAddress::new(LOCALHOST, 9001);
    for len in [0usize, 1, 1459, 1460, 1461, 1462, 3000, 100] {
        engine.deliver(peer, &vec![1u8; len]);
    }
    let mut lengths = Vec::new();
    while let Some(packet) = engine.try_receive() {
        assert!(packet.data.len() <= MAX_PACKET_SIZE);
        lengths.push(packet.data.len());
    }
    assert_eq!(lengths, vec![0, 1, 1459, 1460, 100]);
}

#[test]
fn pause_only_when_nothing_was_sent_or_received() {
    assert_eq!(UdpLoop::pause_after(false, false), Some(1));
    assert_eq!(UdpLoop::pause_after(true, false), None);
    assert_eq!(UdpLoop::pause_after(false, true), None);
    assert_eq!(UdpLoop::pause_after(true, true), None);
}

#[test]
fn finish_iteration_reports_delivery_and_pause() {
    let mut engine = UdpLoop::new();
    let peer = PeerAddress::new(LOCALHOST, 9001);

    let idle = engine.finish_iteration(false, None);
    assert_eq!(idle.delivery, Delivery::Nothing);
    assert_eq!(idle.pause_ms, Some(LOOP_GRACE_DURATION_MS));

    let sent_only = engine.finish_iteration(true, None);
    assert_eq!(sent_only.delivery, Delivery::Nothing);
    assert_eq!(sent_only.pause_ms, None);

    let got = engine.finish_iteration(false, Some((peer, &b"data"[..])));
    assert_eq!(got.delivery, Delivery::Queued);
    assert_eq!(got.pause_ms, None);

    let oversized = engine.finish_iteration(false, Some((peer, &vec![0u8; 1461][..])));
    assert_eq!(oversized.delivery, Delivery::DroppedOversized);
    assert_eq!(oversized.pause_ms, None);

    let packet = engine.try_receive().expect("the datagram was queued");
    assert_eq!(packet.data, b"data".to_vec());
    assert!(engine.try_receive().is_none());
}

#[test]
fn finish_iteration_reports_a_full_inbound_queue() {
    let mut engine = UdpLoop::new();
    let peer = PeerAddress::new(LOCALHOST, 9001);
    for _ in 0..128 {
        assert_eq!(engine.finish_iteration(true, Some((peer, &b"x"[..]))).delivery, Delivery::Queued);
    }
    let report = engine.finish_iteration(false, Some((peer, &b"x"[..])));
    assert_eq!(report.delivery, Delivery::DroppedFull);
    assert_eq!(report.pause_ms, None);
}

#[test]
fn ping_travels_between_two_engines_and_back() {
    let mut a = UdpLoop::new();
    let mut b = UdpLoop::new();
    assert_eq!(a.start(true), Ok(true));
    assert_eq!(b.start(true), Ok(true));

    assert!(a.transmit(packet_to(9002, b"ping")));
    assert!(relay_once(&mut a, 9001, &mut b));
    let ping = b.try_receive().expect("the ping reaches engine B");
    assert_eq!(ping.data, b"ping".to_vec());
    assert_eq!(ping.peer.port, 9001);
    assert_eq!(ping.peer.ip, LOCALHOST);

    let mut reply = UdpPacket::new(ping.peer.ip, ping.peer.port);
    reply.set_data(b"pong");
    assert!(b.transmit(reply));
    assert!(relay_once(&mut b, 9002, &mut a));
    let pong = a.try_receive().expect("the reply reaches engine A");
    assert_eq!(pong.data, b"pong".to_vec());
    assert_eq!(pong.peer.port, 9002);

    assert!(!relay_once(&mut a, 9001, &mut b));
    assert!(a.stop());
    assert!(b.stop());
}

#[test]
fn full_size_payload_crosses_and_oversized_does_not() {
    let mut a = UdpLoop::new();
    let mut b = UdpLoop::new();
    assert_eq!(a.start(true), Ok(true));
    assert_eq!(b.start(true), Ok(true));

    let exact: Vec<u8> = (0..1460u32).map(|i| (i * 7 % 256) as u8).collect();
    assert!(a.transmit(packet_to(9002, &exact)));
    assert!(a.transmit(packet_to(9002, &vec![9u8; 1461])));
    assert!(relay_once(&mut a, 9001, &mut b));
    assert!(relay_once(&mut a, 9001, &mut b));

    let received = b.try_receive().expect("the full-size packet reaches engine B");
    assert_eq!(received.data, exact);
    assert!(b.try_receive().is_none());
}
