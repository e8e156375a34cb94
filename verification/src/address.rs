//! Network endpoints as plain values.
use vstd::prelude::*;

verus! {

/// An IP address, held as the integer that its bytes spell in network order.
#[derive(Clone, Copy, Debug, PartialEq, Eq, Structural)]
pub enum IpAddress {
    /// An IPv4 address: `127.0.0.1` is `V4(0x7f00_0001)`.
    V4(u32),
    /// An IPv6 address: `::1` is `V6(1)`.
    V6(u128),
}

/// The remote endpoint of a packet: where an outbound packet goes, or where
/// an inbound one came from.
#[derive(Clone, Copy, Debug, PartialEq, Eq, Structural)]
pub struct PeerAddress {
    pub ip: IpAddress,
    pub port: u16,
    /// The flow label of an IPv6 endpoint; zero on an IPv4 one.
    pub flowinfo: u32,
    /// The scope of an IPv6 endpoint; zero on an IPv4 one.
    pub scope_id: u32,
}

impl PeerAddress {
    /// The endpoint that pairs `ip` with `port`, without flow label or scope.
    pub open spec fn of(ip: IpAddress, port: u16) -> PeerAddress {
        PeerAddress { ip, port, flowinfo: 0, scope_id: 0 }
    }

    /// Pairs an IP address with a port; flow label and scope are zero.
    pub fn new(ip: IpAddress, port: u16) -> (peer: PeerAddress)
        ensures
            peer == PeerAddress::of(ip, port),
    {
        PeerAddress { ip, port, flowinfo: 0, scope_id: 0 }
    }
}

} // verus!
