//! From the configuration to what is to be opened and started.

use vstd::prelude::*;
use crate::addr::IpAddress;
use crate::device::{device_of_id, parse_device_id, TunDevice, TunDeviceView};
use crate::error::{ConfigError, ConfigFault};
use crate::network::{interface_of_text, parse_network};

verus! {

/// Connections that the stack keeps waiting for the TCP adapter.
pub const TCP_BACKLOG: usize = 512;

/// Datagrams that the stack keeps waiting for the UDP adapter.
pub const UDP_BACKLOG: usize = 256;

/// The network of an interface whose configuration names none.
pub const DEFAULT_NETWORK: &'static str = "198.18.0.0/16";

/// The part of the configuration that the tunnel reads.
#[derive(Clone, Debug, PartialEq, Eq)]
pub struct TunConfig {
    /// Whether the tunnel runs at all.
    pub enable: bool,
    /// `fd://<n>` or `dev://<name>`.
    pub device_id: String,
    /// The network of the interface, in CIDR notation.
    pub network: Option<String>,
}

/// What a `TunConfig` stands for.
pub struct TunConfigView {
    pub enable: bool,
    pub device_id: Seq<char>,
    pub network: Option<Seq<char>>,
}

impl View for TunConfig {
    type V = TunConfigView;

    open spec fn view(&self) -> TunConfigView {
        TunConfigView {
            enable: self.enable,
            device_id: self.device_id@,
            network: match self.network {
                Some(n) => Some(n@),
                None => None,
            },
        }
    }
}

impl TunConfigView {
    /// The network as written, or the default where none is written.
    pub open spec fn network_text(self) -> Seq<char> {
        match self.network {
            Some(n) => n,
            None => DEFAULT_NETWORK@,
        }
    }
}

/// What is to be opened and started: the interface, which is brought up
/// with `address` and `netmask`, and the network stack with its two
/// backlogs.
#[derive(Clone, Debug, PartialEq, Eq)]
pub struct TunPlan {
    pub device: TunDevice,
    pub address: IpAddress,
    pub netmask: IpAddress,
    pub tcp_backlog: usize,
    pub udp_backlog: usize,
}

/// What a `TunPlan` stands for.
pub struct TunPlanView {
    pub device: TunDeviceView,
    pub address: IpAddress,
    pub netmask: IpAddress,
    pub tcp_backlog: usize,
    pub udp_backlog: usize,
}

impl View for TunPlan {
    type V = TunPlanView;

    open spec fn view(&self) -> TunPlanView {
        TunPlanView {
            device: self.device@,
            address: self.address,
            netmask: self.netmask,
            tcp_backlog: self.tcp_backlog,
            udp_backlog: self.udp_backlog,
        }
    }
}

/// What a configuration asks for: nothing where the tunnel is switched
/// off; else the plan, or the first fault met, the device identifier being
/// read before the network.
pub open spec fn plan_of(cfg: TunConfigView) -> Result<Option<TunPlanView>, ConfigFault> {
    if !cfg.enable {
        Ok(None)
    } else {
        match device_of_id(cfg.device_id) {
            Err(fault) => Err(fault),
            Ok(device) => match interface_of_text(cfg.network_text()) {
                Err(fault) => Err(fault),
                Ok(interface) => Ok(
                    Some(
                        TunPlanView {
                            device,
                            address: interface.address,
                            netmask: interface.netmask,
                            tcp_backlog: TCP_BACKLOG,
                            udp_backlog: UDP_BACKLOG,
                        },
                    ),
                ),
            },
        }
    }
}

/// A plan, nothing, or an error, as what they stand for.
pub open spec fn plan_result_view(r: Result<Option<TunPlan>, ConfigError>) -> Result<
    Option<TunPlanView>,
    ConfigFault,
> {
    match r {
        Ok(Some(plan)) => Ok(Some(plan@)),
        Ok(None) => Ok(None),
        Err(e) => Err(e@),
    }
}

/// Decides what a configuration starts. A tunnel that is switched off
/// starts nothing, which is no error. Otherwise the device identifier and
/// the network are read, and either the plan is returned or the error in
/// the configuration, before anything is opened.
pub fn get_runner(cfg: TunConfig) -> (r: Result<Option<TunPlan>, ConfigError>)
    ensures
        plan_result_view(r) == plan_of(cfg@),
        !cfg.enable ==> r matches Ok(None),
{
    if !cfg.enable {
        return Ok(None);
    }
    let device = match parse_device_id(cfg.device_id.as_str()) {
        Ok(device) => device,
        Err(e) => {
            return Err(e);
        },
    };
    let parsed = match &cfg.network {
        Some(written) => parse_network(written.as_str()),
        None => parse_network(DEFAULT_NETWORK),
    };
    match parsed {
        Ok(interface) => Ok(
            Some(
                TunPlan {
                    device,
                    address: interface.address,
                    netmask: interface.netmask,
                    tcp_backlog: TCP_BACKLOG,
                    udp_backlog: UDP_BACKLOG,
                },
            ),
        ),
        Err(e) => Err(e),
    }
}

} // verus!
