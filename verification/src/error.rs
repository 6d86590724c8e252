//! Why a configuration is turned down.

use vstd::prelude::*;

verus! {

/// A configuration that cannot be used. Nothing has been opened or started
/// when one of these is returned.
#[derive(Debug, PartialEq, Eq)]
pub enum ConfigError {
    /// The device identifier is not a URL; the parser's reason is inside.
    DeviceUrl(url::ParseError),
    /// The scheme of the device identifier is neither `fd` nor `dev`.
    /// Carries the identifier.
    UnknownScheme(String),
    /// The device identifier has no host part. Carries the identifier.
    MissingHost(String),
    /// The host part of an `fd` identifier is not a descriptor number.
    /// Carries the identifier.
    InvalidFd(String),
    /// The network is not in CIDR notation; the parser's error is inside.
    Network(ipnet::AddrParseError),
    /// The network holds no host address. Carries the network as written.
    NoHostAddress(String),
}

/// What a `ConfigError` says, with texts as sequences of characters and
/// without the outside parsers' own errors.
pub enum ConfigFault {
    DeviceUrl,
    UnknownScheme(Seq<char>),
    MissingHost(Seq<char>),
    InvalidFd(Seq<char>),
    Network,
    NoHostAddress(Seq<char>),
}

impl View for ConfigError {
    type V = ConfigFault;

    open spec fn view(&self) -> ConfigFault {
        match *self {
            ConfigError::DeviceUrl(_) => ConfigFault::DeviceUrl,
            ConfigError::UnknownScheme(id) => ConfigFault::UnknownScheme(id@),
            ConfigError::MissingHost(id) => ConfigFault::MissingHost(id@),
            ConfigError::InvalidFd(id) => ConfigFault::InvalidFd(id@),
            ConfigError::Network(_) => ConfigFault::Network,
            ConfigError::NoHostAddress(net) => ConfigFault::NoHostAddress(net@),
        }
    }
}

} // verus!
