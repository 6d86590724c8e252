use tun_inbound::addr::IpAddress;
use tun_inbound::config::{get_runner, TunConfig, TunPlan, DEFAULT_NETWORK, TCP_BACKLOG, UDP_BACKLOG};
use tun_inbound::device::{parse_device_id, parse_fd, select_device, DeviceUrl, TunDevice};
use tun_inbound::error::ConfigError;
use tun_inbound::network::{interface_address, parse_network, Cidr, InterfaceAddress};

fn config(enable: bool, device_id: &str, network: Option<&str>) -> TunConfig {
    TunConfig {
        enable,
        device_id: device_id.to_string(),
        network: network.map(|n| n.to_string()),
    }
}

#[test]
fn fd_identifier_selects_the_descriptor() {
    assert_eq!(parse_device_id("fd://3"), Ok(TunDevice::Fd(3)));
    assert_eq!(parse_device_id("fd://0"), Ok(TunDevice::Fd(0)));
    assert_eq!(parse_device_id("fd://2147483647"), Ok(TunDevice::Fd(i32::MAX)));
}

#[test]
fn dev_identifier_selects_the_name() {
    assert_eq!(parse_device_id("dev://utun4"), Ok(TunDevice::Name("utun4".to_string())));
    assert_eq!(parse_device_id("dev://tun0"), Ok(TunDevice::Name("tun0".to_string())));
}

#[test]
fn other_schemes_are_refused() {
    assert_eq!(
        parse_device_id("tap://tap0"),
        Err(ConfigError::UnknownScheme("tap://tap0".to_string()))
    );
    assert_eq!(
        parse_device_id("http://example.com"),
        Err(ConfigError::UnknownScheme("http://example.com".to_string()))
    );
}

#[test]
fn identifier_that_is_no_url_is_refused() {
    assert_eq!(
        parse_device_id("utun4"),
        Err(ConfigError::DeviceUrl(url::ParseError::RelativeUrlWithoutBase))
    );
    assert!(matches!(parse_device_id(""), Err(ConfigError::DeviceUrl(_))));
}

#[test]
fn identifier_without_host_is_refused() {
    assert_eq!(parse_device_id("fd:3"), Err(ConfigError::MissingHost("fd:3".to_string())));
    assert_eq!(parse_device_id("dev:tun0"), Err(ConfigError::MissingHost("dev:tun0".to_string())));
}

#[test]
fn dev_identifier_with_empty_host() {
    assert_eq!(parse_device_id("dev://"), Err(ConfigError::MissingHost("dev://".to_string())));
}

#[test]
fn scheme_is_read_without_regard_to_case() {
    assert_eq!(parse_device_id("FD://4"), Ok(TunDevice::Fd(4)));
    assert_eq!(parse_device_id("Dev://Utun4"), Ok(TunDevice::Name("Utun4".to_string())));
}

#[test]
fn descriptor_that_is_no_number_is_refused() {
    assert_eq!(parse_device_id("fd://abc"), Err(ConfigError::InvalidFd("fd://abc".to_string())));
    assert_eq!(parse_device_id("fd://-3"), Err(ConfigError::InvalidFd("fd://-3".to_string())));
    assert_eq!(
        parse_device_id("fd://2147483648"),
        Err(ConfigError::InvalidFd("fd://2147483648".to_string()))
    );
}

#[test]
fn parse_fd_reads_decimal_digits() {
    assert_eq!(parse_fd("0"), Some(0));
    assert_eq!(parse_fd("7"), Some(7));
    assert_eq!(parse_fd("007"), Some(7));
    assert_eq!(parse_fd("+12"), Some(12));
    assert_eq!(parse_fd("2147483647"), Some(2147483647));
    assert_eq!(parse_fd("2147483648"), None);
    assert_eq!(parse_fd("99999999999999999999999999"), None);
    assert_eq!(parse_fd(""), None);
    assert_eq!(parse_fd("+"), None);
    assert_eq!(parse_fd("-1"), None);
    assert_eq!(parse_fd("1a"), None);
    assert_eq!(parse_fd("١٢"), None);
}

#[test]
fn every_descriptor_is_read_back_from_its_digits() {
    for fd in [0, 1, 9, 10, 11, 99, 100, 4096, 65535, 1_000_000_007, i32::MAX - 1, i32::MAX] {
        assert_eq!(parse_fd(&fd.to_string()), Some(fd));
        assert_eq!(parse_device_id(&format!("fd://{}", fd)), Ok(TunDevice::Fd(fd)));
    }
}

#[test]
fn select_device_looks_at_the_scheme_first() {
    let url = DeviceUrl { scheme: "tap".to_string(), host: None };
    assert_eq!(select_device("tap:x", url), Err(ConfigError::UnknownScheme("tap:x".to_string())));
    let url = DeviceUrl { scheme: "fd".to_string(), host: Some("9".to_string()) };
    assert_eq!(select_device("fd://9", url), Ok(TunDevice::Fd(9)));
    let url = DeviceUrl { scheme: "dev".to_string(), host: Some("".to_string()) };
    assert_eq!(select_device("dev://", url), Ok(TunDevice::Name("".to_string())));
}

#[test]
fn default_network_gives_first_host_and_mask() {
    assert_eq!(
        parse_network(DEFAULT_NETWORK),
        Ok(InterfaceAddress {
            address: IpAddress::v4(198, 18, 0, 1),
            netmask: IpAddress::v4(255, 255, 0, 0),
        })
    );
}

#[test]
fn network_that_is_no_cidr_is_refused() {
    assert!(matches!(parse_network("198.18.0.0"), Err(ConfigError::Network(_))));
    assert!(matches!(parse_network("198.18.0.0/33"), Err(ConfigError::Network(_))));
    assert!(matches!(parse_network("not a network"), Err(ConfigError::Network(_))));
}

#[test]
fn first_host_agrees_with_ipnet() {
    for text in [
        "198.18.0.0/16",
        "10.0.0.0/30",
        "10.0.0.0/31",
        "10.0.0.7/32",
        "172.16.123.123/16",
        "0.0.0.0/0",
        "255.255.255.255/1",
        "192.168.1.77/24",
        "fd00::/126",
        "fd00:1234:5678::/24",
        "::/0",
        "ffff:ffff:ffff:ffff:ffff:ffff:ffff:ffff/128",
    ] {
        let (address, netmask) = match text.parse::<ipnet::IpNet>().unwrap() {
            ipnet::IpNet::V4(net) => (
                IpAddress::V4(u32::from(net.hosts().nth(0).unwrap())),
                IpAddress::V4(u32::from(net.netmask())),
            ),
            ipnet::IpNet::V6(net) => (
                IpAddress::V6(u128::from(net.hosts().nth(0).unwrap())),
                IpAddress::V6(u128::from(net.netmask())),
            ),
        };
        assert_eq!(parse_network(text), Ok(InterfaceAddress { address, netmask }), "{}", text);
    }
}

#[test]
fn interface_address_of_a_given_network() {
    let net = Cidr::V4 { addr: 0x0a00_0000, prefix_len: 30 };
    assert_eq!(
        interface_address("10.0.0.0/30", net),
        Ok(InterfaceAddress {
            address: IpAddress::v4(10, 0, 0, 1),
            netmask: IpAddress::v4(255, 255, 255, 252),
        })
    );
    let net = Cidr::V4 { addr: 0x0a00_0007, prefix_len: 32 };
    assert_eq!(net.first_host(), Some(IpAddress::v4(10, 0, 0, 7)));
    assert_eq!(net.netmask(), IpAddress::v4(255, 255, 255, 255));
    let net = Cidr::V4 { addr: 0x0a00_0007, prefix_len: 0 };
    assert_eq!(net.first_host(), Some(IpAddress::v4(0, 0, 0, 1)));
    assert_eq!(net.netmask(), IpAddress::v4(0, 0, 0, 0));
}

#[test]
fn disabled_configuration_yields_nothing() {
    assert_eq!(get_runner(config(false, "fd://3", None)), Ok(None));
    assert_eq!(get_runner(config(false, "nonsense", Some("nonsense"))), Ok(None));
}

#[test]
fn enabled_configuration_yields_the_plan() {
    assert_eq!(
        get_runner(config(true, "dev://utun4", None)),
        Ok(Some(TunPlan {
            device: TunDevice::Name("utun4".to_string()),
            address: IpAddress::v4(198, 18, 0, 1),
            netmask: IpAddress::v4(255, 255, 0, 0),
            tcp_backlog: 512,
            udp_backlog: 256,
        }))
    );
    assert_eq!(TCP_BACKLOG, 512);
    assert_eq!(UDP_BACKLOG, 256);
    assert_eq!(
        get_runner(config(true, "fd://5", Some("10.10.0.0/24"))),
        Ok(Some(TunPlan {
            device: TunDevice::Fd(5),
            address: IpAddress::v4(10, 10, 0, 1),
            netmask: IpAddress::v4(255, 255, 255, 0),
            tcp_backlog: 512,
            udp_backlog: 256,
        }))
    );
}

#[test]
fn ipv6_network_gives_its_lowest_address() {
    assert_eq!(
        get_runner(config(true, "dev://tun0", Some("fd00:1234::5/64"))),
        Ok(Some(TunPlan {
            device: TunDevice::Name("tun0".to_string()),
            address: IpAddress::V6(0xfd00_1234_0000_0000_0000_0000_0000_0000),
            netmask: IpAddress::V6(0xffff_ffff_ffff_ffff_0000_0000_0000_0000),
            tcp_backlog: 512,
            udp_backlog: 256,
        }))
    );
}

#[test]
fn network_address_need_not_be_the_lowest() {
    assert_eq!(
        parse_network("192.168.1.77/24"),
        Ok(InterfaceAddress {
            address: IpAddress::v4(192, 168, 1, 1),
            netmask: IpAddress::v4(255, 255, 255, 0),
        })
    );
    assert_eq!(
        parse_network("10.0.0.9/31"),
        Ok(InterfaceAddress {
            address: IpAddress::v4(10, 0, 0, 8),
            netmask: IpAddress::v4(255, 255, 255, 254),
        })
    );
}

#[test]
fn device_fault_comes_before_network_fault() {
    assert_eq!(
        get_runner(config(true, "tap://x", Some("nonsense"))),
        Err(ConfigError::UnknownScheme("tap://x".to_string()))
    );
    assert!(matches!(
        get_runner(config(true, "dev://tun0", Some("nonsense"))),
        Err(ConfigError::Network(_))
    ));
}
