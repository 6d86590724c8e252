//! The address plan: a network in CIDR notation, its mask, and the first of
//! its host addresses, which the interface is given.

use vstd::prelude::*;
use crate::addr::IpAddress;
use crate::error::{ConfigError, ConfigFault};

verus! {

/// `ipnet::AddrParseError`, which says no more than that a text is no
/// network. It is handed on inside `ConfigError::Network`.
#[verifier::external_type_specification]
#[verifier::external_body]
pub struct ExAddrParseError(ipnet::AddrParseError);

/// An address with the length of its network prefix, as written in CIDR
/// notation. The address need not be the network's own.
#[derive(Clone, Copy, Debug, PartialEq, Eq, Structural)]
#[allow(inconsistent_fields)]
pub enum Cidr {
    V4 { addr: u32, prefix_len: u8 },
    V6 { addr: u128, prefix_len: u8 },
}

/// The host bits of an IPv4 network with a prefix of `prefix_len` bits.
pub open spec fn v4_hostmask(prefix_len: u8) -> u32 {
    if prefix_len >= 32 {
        0
    } else {
        0xffff_ffffu32 >> (prefix_len as u32)
    }
}

/// The host bits of an IPv6 network with a prefix of `prefix_len` bits.
pub open spec fn v6_hostmask(prefix_len: u8) -> u128 {
    if prefix_len >= 128 {
        0
    } else {
        0xffff_ffff_ffff_ffff_ffff_ffff_ffff_ffffu128 >> (prefix_len as u128)
    }
}

impl Cidr {
    /// The prefix is no longer than an address.
    pub open spec fn wf(self) -> bool {
        match self {
            Cidr::V4 { prefix_len, .. } => prefix_len <= 32,
            Cidr::V6 { prefix_len, .. } => prefix_len <= 128,
        }
    }

    /// The mask: ones over the prefix, zeros over the host bits.
    pub open spec fn spec_netmask(self) -> IpAddress {
        match self {
            Cidr::V4 { prefix_len, .. } => IpAddress::V4(!v4_hostmask(prefix_len)),
            Cidr::V6 { prefix_len, .. } => IpAddress::V6(!v6_hostmask(prefix_len)),
        }
    }

    /// The host addresses, as the lowest and the highest of them; there is
    /// none where the first exceeds the second. The lowest address of a
    /// network has the host bits cleared, the highest has them set. An
    /// IPv4 network with a prefix under 31 bits keeps these two for
    /// itself; every other network hands out all of its addresses.
    pub open spec fn spec_hosts(self) -> (int, int) {
        match self {
            Cidr::V4 { addr, prefix_len } => {
                let lo = addr & !v4_hostmask(prefix_len);
                let hi = addr | v4_hostmask(prefix_len);
                if prefix_len < 31 {
                    (lo + 1, hi - 1)
                } else {
                    (lo as int, hi as int)
                }
            },
            Cidr::V6 { addr, prefix_len } => (
                (addr & !v6_hostmask(prefix_len)) as int,
                (addr | v6_hostmask(prefix_len)) as int,
            ),
        }
    }

    /// How many host addresses there are.
    pub open spec fn spec_host_count(self) -> nat {
        let (lo, hi) = self.spec_hosts();
        if lo <= hi {
            (hi - lo + 1) as nat
        } else {
            0
        }
    }

    /// The lowest host address, `None` where there is no host address.
    pub open spec fn spec_first_host(self) -> Option<IpAddress> {
        let (lo, hi) = self.spec_hosts();
        if lo <= hi {
            match self {
                Cidr::V4 { .. } => Some(IpAddress::V4(lo as u32)),
                Cidr::V6 { .. } => Some(IpAddress::V6(lo as u128)),
            }
        } else {
            None
        }
    }

    /// Whether `ip` lies in the network.
    pub open spec fn spec_contains(self, ip: IpAddress) -> bool {
        match (self, ip) {
            (Cidr::V4 { addr, prefix_len }, IpAddress::V4(a)) => a & !v4_hostmask(prefix_len)
                == addr & !v4_hostmask(prefix_len),
            (Cidr::V6 { addr, prefix_len }, IpAddress::V6(a)) => a & !v6_hostmask(prefix_len)
                == addr & !v6_hostmask(prefix_len),
            _ => false,
        }
    }

    /// The mask of the network.
    pub fn netmask(&self) -> (r: IpAddress)
        ensures
            r == self.spec_netmask(),
    {
        match *self {
            Cidr::V4 { prefix_len, .. } => IpAddress::V4(!hostmask_v4(prefix_len)),
            Cidr::V6 { prefix_len, .. } => IpAddress::V6(!hostmask_v6(prefix_len)),
        }
    }

    /// The lowest host address of the network, `None` where it has none.
    pub fn first_host(&self) -> (r: Option<IpAddress>)
        ensures
            r == self.spec_first_host(),
    {
        match *self {
            Cidr::V4 { addr, prefix_len } => {
                let mask = hostmask_v4(prefix_len);
                let network = addr & !mask;
                let broadcast = addr | mask;
                if prefix_len < 31 {
                    assert(network <= 0xffff_fffcu32 && broadcast >= 3 && network + 1 <= broadcast
                        - 1) by (bit_vector)
                        requires
                            prefix_len < 31,
                            mask == 0xffff_ffffu32 >> (prefix_len as u32),
                            network == addr & !mask,
                            broadcast == addr | mask,
                    ;
                    Some(IpAddress::V4(network + 1))
                } else if network <= broadcast {
                    Some(IpAddress::V4(network))
                } else {
                    None
                }
            },
            Cidr::V6 { addr, prefix_len } => {
                let mask = hostmask_v6(prefix_len);
                let network = addr & !mask;
                let broadcast = addr | mask;
                if network <= broadcast {
                    Some(IpAddress::V6(network))
                } else {
                    None
                }
            },
        }
    }
}

fn hostmask_v4(prefix_len: u8) -> (r: u32)
    ensures
        r == v4_hostmask(prefix_len),
{
    if prefix_len >= 32 {
        0
    } else {
        0xffff_ffffu32 >> (prefix_len as u32)
    }
}

fn hostmask_v6(prefix_len: u8) -> (r: u128)
    ensures
        r == v6_hostmask(prefix_len),
{
    if prefix_len >= 128 {
        0
    } else {
        0xffff_ffff_ffff_ffff_ffff_ffff_ffff_ffffu128 >> (prefix_len as u128)
    }
}

/// The network that `input` spells in CIDR notation as the `ipnet` crate
/// reads it, `None` where it spells none.
pub uninterp spec fn cidr_parse(input: Seq<char>) -> Option<Cidr>;

/// `ipnet::IpNet`'s `from_str`, with the address and the prefix length
/// taken from the network it returns. The contract claims that these are a
/// function of the input, and that the prefix is no longer than an
/// address, which `Ipv4Net::new` and `Ipv6Net::new` see to.
#[verifier::external_body]
fn parse_cidr(input: &str) -> (r: Result<Cidr, ipnet::AddrParseError>)
    ensures
        match r {
            Ok(net) => cidr_parse(input@) == Some(net) && net.wf(),
            Err(_) => cidr_parse(input@) is None,
        },
{
    match input.parse::<ipnet::IpNet>() {
        Ok(ipnet::IpNet::V4(n)) => Ok(Cidr::V4 { addr: n.addr().into(), prefix_len: n.prefix_len() }),
        Ok(ipnet::IpNet::V6(n)) => Ok(Cidr::V6 { addr: n.addr().into(), prefix_len: n.prefix_len() }),
        Err(e) => Err(e),
    }
}

/// The address and the mask that the interface is given.
#[derive(Clone, Copy, Debug, PartialEq, Eq, Structural)]
pub struct InterfaceAddress {
    pub address: IpAddress,
    pub netmask: IpAddress,
}

/// The interface address under the network `net`, written as `written`:
/// the first host address with the network's mask, or the fault that the
/// network has no host address.
pub open spec fn interface_of(written: Seq<char>, net: Cidr) -> Result<
    InterfaceAddress,
    ConfigFault,
> {
    match net.spec_first_host() {
        Some(address) => Ok(InterfaceAddress { address, netmask: net.spec_netmask() }),
        None => Err(ConfigFault::NoHostAddress(written)),
    }
}

/// The interface address under the network that `written` spells, or the
/// fault in it.
pub open spec fn interface_of_text(written: Seq<char>) -> Result<InterfaceAddress, ConfigFault> {
    match cidr_parse(written) {
        None => Err(ConfigFault::Network),
        Some(net) => interface_of(written, net),
    }
}

/// An interface address or an error, as what they stand for.
pub open spec fn interface_result_view(r: Result<InterfaceAddress, ConfigError>) -> Result<
    InterfaceAddress,
    ConfigFault,
> {
    match r {
        Ok(a) => Ok(a),
        Err(e) => Err(e@),
    }
}

/// Derives the interface address from the network `net`, which was
/// written as `written`: the first host address of the network and the
/// network's mask. A network without a host address is an error; with
/// host addresses counted as `spec_hosts` counts them there is no such
/// network (`lemma_first_host_exists`), so the error is never seen.
pub fn interface_address(written: &str, net: Cidr) -> (r: Result<InterfaceAddress, ConfigError>)
    ensures
        interface_result_view(r) == interface_of(written@, net),
        net.spec_host_count() >= 1 ==> r == Ok::<InterfaceAddress, ConfigError>(
            InterfaceAddress {
                address: net.spec_first_host().unwrap(),
                netmask: net.spec_netmask(),
            },
        ),
        net.spec_host_count() == 0 ==> r is Err,
{
    match net.first_host() {
        Some(address) => Ok(InterfaceAddress { address, netmask: net.netmask() }),
        None => Err(ConfigError::NoHostAddress(written.to_owned())),
    }
}

/// Reads a network in CIDR notation and derives the interface address
/// from it.
pub fn parse_network(written: &str) -> (r: Result<InterfaceAddress, ConfigError>)
    ensures
        interface_result_view(r) == interface_of_text(written@),
{
    match parse_cidr(written) {
        Ok(net) => interface_address(written, net),
        Err(e) => Err(ConfigError::Network(e)),
    }
}

/// Every network has a host address: with hosts counted as `spec_hosts`
/// counts them, the lowest never exceeds the highest.
pub proof fn lemma_first_host_exists(net: Cidr)
    ensures
        net.spec_host_count() >= 1,
        net.spec_first_host() is Some,
{
    match net {
        Cidr::V4 { addr, prefix_len } => {
            let mask = v4_hostmask(prefix_len);
            if prefix_len < 31 {
                assert((addr & !mask) + 1 <= (addr | mask) - 1) by (bit_vector)
                    requires
                        prefix_len < 31,
                        mask == 0xffff_ffffu32 >> (prefix_len as u32),
                ;
            } else {
                assert((addr & !mask) <= (addr | mask)) by (bit_vector);
            }
        },
        Cidr::V6 { addr, prefix_len } => {
            let mask = v6_hostmask(prefix_len);
            assert((addr & !mask) <= (addr | mask)) by (bit_vector);
        },
    }
}

/// The first host address lies in the network it is the first host of.
pub proof fn lemma_first_host_in_network(net: Cidr)
    ensures
        net.spec_contains(net.spec_first_host().unwrap()),
{
    lemma_first_host_exists(net);
    match net {
        Cidr::V4 { addr, prefix_len } => {
            let mask = v4_hostmask(prefix_len);
            if prefix_len < 31 {
                assert({
                    &&& (addr & !mask) + 1 <= 0xffff_ffff
                    &&& (((addr & !mask) + 1) as u32) & !mask == addr & !mask
                }) by (bit_vector)
                    requires
                        prefix_len < 31,
                        mask == 0xffff_ffffu32 >> (prefix_len as u32),
                ;
            } else {
                assert((addr & !mask) & !mask == addr & !mask) by (bit_vector);
            }
        },
        Cidr::V6 { addr, prefix_len } => {
            let mask = v6_hostmask(prefix_len);
            assert((addr & !mask) & !mask == addr & !mask) by (bit_vector);
        },
    }
}

} // verus!
