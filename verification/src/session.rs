//! The identity of one proxied flow.

use vstd::prelude::*;
use crate::addr::{IpAddress, SocketAddress, SocksAddr, SocksAddrView};

verus! {

/// Transport of a proxied flow.
#[derive(Clone, Copy, Debug, PartialEq, Eq, Structural)]
pub enum Network {
    Tcp,
    Udp,
}

/// One logical proxied flow: its transport, where it comes from and where
/// it goes.
#[derive(Clone, Debug, PartialEq, Eq)]
pub struct Session {
    pub network: Network,
    pub source: SocketAddress,
    pub destination: SocksAddr,
}

/// What a `Session` stands for.
pub struct SessionView {
    pub network: Network,
    pub source: SocketAddress,
    pub destination: SocksAddrView,
}

impl View for Session {
    type V = SessionView;

    open spec fn view(&self) -> SessionView {
        SessionView {
            network: self.network,
            source: self.source,
            destination: self.destination@,
        }
    }
}

impl SessionView {
    /// The session that nothing has been said about: TCP, from `0.0.0.0:0`
    /// to `0.0.0.0:0`.
    pub open spec fn unset() -> SessionView {
        SessionView {
            network: Network::Tcp,
            source: SocketAddress { ip: IpAddress::V4(0), port: 0 },
            destination: SocksAddrView::Ip(SocketAddress { ip: IpAddress::V4(0), port: 0 }),
        }
    }
}

impl Default for Session {
    fn default() -> (r: Session)
        ensures
            r@ == SessionView::unset(),
    {
        Session {
            network: Network::Tcp,
            source: SocketAddress::any_ipv4(),
            destination: SocksAddr::any_ipv4(),
        }
    }
}

} // verus!
