//! Decision logic of a TUN inbound: device configuration, frame relaying,
//! and the reconstruction of proxy sessions from accepted flows.

pub mod addr;
pub mod config;
pub mod device;
pub mod error;
pub mod lifecycle;
pub mod network;
pub mod pump;
pub mod resolver;
pub mod session;
pub mod tcp;
pub mod udp;
