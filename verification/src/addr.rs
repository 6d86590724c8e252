//! Addresses as plain values: IP addresses as integers, socket addresses,
//! and endpoints that are either concrete or named by a host.

use vstd::prelude::*;

verus! {

/// An IP address, held as the integer its octets spell in network order.
#[derive(Clone, Copy, Debug, PartialEq, Eq, Hash, Structural)]
pub enum IpAddress {
    V4(u32),
    V6(u128),
}

/// The integer of the IPv4 address `a.b.c.d`.
pub open spec fn v4_bits(a: u8, b: u8, c: u8, d: u8) -> int {
    a * 0x100_0000 + b * 0x1_0000 + c * 0x100 + d
}

impl IpAddress {
    /// The IPv4 address `a.b.c.d`.
    pub fn v4(a: u8, b: u8, c: u8, d: u8) -> (r: IpAddress)
        ensures
            r == IpAddress::V4(v4_bits(a, b, c, d) as u32),
            v4_bits(a, b, c, d) <= u32::MAX,
    {
        IpAddress::V4(a as u32 * 0x100_0000 + b as u32 * 0x1_0000 + c as u32 * 0x100 + d as u32)
    }
}

/// An IP address and a port.
#[derive(Clone, Copy, Debug, PartialEq, Eq, Hash, Structural)]
pub struct SocketAddress {
    pub ip: IpAddress,
    pub port: u16,
}

impl SocketAddress {
    pub fn new(ip: IpAddress, port: u16) -> (r: SocketAddress)
        ensures
            r == (SocketAddress { ip, port }),
    {
        SocketAddress { ip, port }
    }

    /// The address `0.0.0.0:0`.
    pub fn any_ipv4() -> (r: SocketAddress)
        ensures
            r == (SocketAddress { ip: IpAddress::V4(0), port: 0 }),
    {
        SocketAddress { ip: IpAddress::V4(0), port: 0 }
    }
}

/// An endpoint of a flow: a concrete socket address, or a host name with a
/// port. Never both.
#[derive(Clone, Debug, PartialEq, Eq)]
pub enum SocksAddr {
    Ip(SocketAddress),
    Domain(String, u16),
}

/// What a `SocksAddr` stands for.
pub enum SocksAddrView {
    Ip(SocketAddress),
    Domain(Seq<char>, u16),
}

impl View for SocksAddr {
    type V = SocksAddrView;

    open spec fn view(&self) -> SocksAddrView {
        match *self {
            SocksAddr::Ip(addr) => SocksAddrView::Ip(addr),
            SocksAddr::Domain(host, port) => SocksAddrView::Domain(host@, port),
        }
    }
}

impl SocksAddr {
    /// The concrete endpoint `0.0.0.0:0`.
    pub fn any_ipv4() -> (r: SocksAddr)
        ensures
            r@ == SocksAddrView::Ip(SocketAddress { ip: IpAddress::V4(0), port: 0 }),
    {
        SocksAddr::Ip(SocketAddress::any_ipv4())
    }

    /// Whether the endpoint is named by host.
    pub fn is_domain(&self) -> (r: bool)
        ensures
            r == (self@ is Domain),
    {
        match self {
            SocksAddr::Ip(_) => false,
            SocksAddr::Domain(_, _) => true,
        }
    }

    /// The socket address of a concrete endpoint.
    pub fn must_into_socket_addr(self) -> (r: SocketAddress)
        requires
            self@ is Ip,
        ensures
            self@ == SocksAddrView::Ip(r),
    {
        match self {
            SocksAddr::Ip(addr) => addr,
            SocksAddr::Domain(_, _) => vstd::pervasive::unreached(),
        }
    }
}

} // verus!
