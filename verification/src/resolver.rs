//! The resolver as the adapters see it: four questions, asked and never
//! answered here. `ResolverModel` is the table behind the answers, for
//! stating what the adapters do with them.

use vstd::prelude::*;
use crate::addr::IpAddress;

verus! {

/// The answers that a resolver gives, as a value: whether it hands out
/// synthetic addresses at all, which addresses are synthetic, the host
/// name behind a synthetic address, and the synthetic address of a host
/// name.
pub struct ResolverModel {
    pub fake_ip_enabled: bool,
    pub fake_ips: Set<IpAddress>,
    pub reverse: Map<IpAddress, Seq<char>>,
    pub forward: Map<Seq<char>, IpAddress>,
}

impl ResolverModel {
    /// Whether `ip` stands for a host name.
    pub open spec fn is_fake_ip(self, ip: IpAddress) -> bool {
        self.fake_ips.contains(ip)
    }

    /// The host name that `ip` stands for.
    pub open spec fn reverse_lookup(self, ip: IpAddress) -> Option<Seq<char>> {
        if self.reverse.contains_key(ip) {
            Some(self.reverse[ip])
        } else {
            None
        }
    }

    /// The synthetic address that stands for `host`.
    pub open spec fn lookup_fake_ip(self, host: Seq<char>) -> Option<IpAddress> {
        if self.forward.contains_key(host) {
            Some(self.forward[host])
        } else {
            None
        }
    }

    /// Whether a connection to `ip` is a connection to a host name.
    pub open spec fn translates(self, ip: IpAddress) -> bool {
        self.fake_ip_enabled && self.is_fake_ip(ip)
    }
}

} // verus!
