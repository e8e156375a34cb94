//! The packet: a peer endpoint and a payload.
use vstd::prelude::*;
use crate::address::IpAddress;
use crate::address::PeerAddress;

verus! {

/// What a packet is to the contracts: its peer and its payload as a
/// sequence of bytes.
pub struct PacketView {
    pub peer: PeerAddress,
    pub data: Seq<u8>,
}

/// One datagram: the remote endpoint and the payload bytes.
///
/// The engine never looks into the payload. A packet built from a socket
/// read holds at most `MAX_PACKET_SIZE` bytes; one handed in for sending may
/// hold any number, and the socket layer decides whether it can go out.
#[derive(Debug)]
pub struct UdpPacket {
    pub peer: PeerAddress,
    pub data: Vec<u8>,
}

impl View for UdpPacket {
    type V = PacketView;

    open spec fn view(&self) -> PacketView {
        PacketView { peer: self.peer, data: self.data@ }
    }
}

impl Clone for UdpPacket {
    /// A copy with the same peer and the same payload.
    fn clone(&self) -> (copy: Self)
        ensures
            copy@ == self@,
    {
        UdpPacket { peer: self.peer, data: self.data.clone() }
    }
}

impl UdpPacket {
    /// A packet for the endpoint `peer_ip_address:peer_port`, with an empty
    /// payload.
    pub fn new(peer_ip_address: IpAddress, peer_port: u16) -> (packet: Self)
        ensures
            packet@.peer == PeerAddress::of(peer_ip_address, peer_port),
            packet@.data == Seq::<u8>::empty(),
    {
        UdpPacket { peer: PeerAddress::new(peer_ip_address, peer_port), data: Vec::new() }
    }

    /// A copy of the payload.
    pub fn get_data(&self) -> (bytes: Vec<u8>)
        ensures
            bytes@ == self@.data,
    {
        self.data.clone()
    }

    /// Replaces the payload with a copy of `raw_bytes`; the peer stays.
    pub fn set_data(&mut self, raw_bytes: &[u8])
        ensures
            final(self)@.data == raw_bytes@,
            final(self)@.peer == old(self)@.peer,
    {
        self.data = copy_bytes(raw_bytes);
    }
}

/// A fresh vector holding the bytes of `bytes`, in order.
pub(crate) fn copy_bytes(bytes: &[u8]) -> (copy: Vec<u8>)
    ensures
        copy@ == bytes@,
{
    let mut copy: Vec<u8> = Vec::with_capacity(bytes.len());
    let mut i: usize = 0;
    while i < bytes.len()
        invariant
            i <= bytes.len(),
            copy@ == bytes@.take(i as int),
        decreases bytes.len() - i,
    {
        copy.push(bytes[i]);
        i += 1;
    }
    copy
}

} // verus!
