use tun_inbound::addr::{IpAddress, SocketAddress, SocksAddr};
use tun_inbound::session::{Network, Session};
use tun_inbound::tcp::{InboundStream, ResolverReply};

fn endpoint(a: u8, b: u8, c: u8, d: u8, port: u16) -> SocketAddress {
    SocketAddress::new(IpAddress::v4(a, b, c, d), port)
}

fn accepted_session(local: SocketAddress, remote: SocketAddress) -> Session {
    Session { network: Network::Tcp, source: local, destination: SocksAddr::Ip(remote) }
}

#[test]
fn accepted_connection_asks_whether_translation_is_on() {
    let local = endpoint(10, 0, 0, 2, 5000);
    let remote = endpoint(1, 1, 1, 1, 443);
    assert_eq!(
        InboundStream::accept(local, remote),
        InboundStream::AskEnabled { session: accepted_session(local, remote), remote }
    );
}

#[test]
fn translation_off_dispatches_unchanged() {
    let local = endpoint(10, 0, 0, 2, 5000);
    let remote = endpoint(198, 18, 0, 5, 80);
    let state = InboundStream::accept(local, remote).advance(ResolverReply::Enabled(false));
    assert_eq!(state, InboundStream::Dispatch { session: accepted_session(local, remote) });
    assert!(state.is_settled());
}

#[test]
fn concrete_destination_is_dispatched_unchanged() {
    let local = endpoint(10, 0, 0, 2, 5000);
    let remote = endpoint(93, 184, 216, 34, 443);
    let state = InboundStream::accept(local, remote).advance(ResolverReply::Enabled(true));
    assert_eq!(
        state,
        InboundStream::AskSynthetic { session: accepted_session(local, remote), remote }
    );
    assert!(!state.is_settled());
    let state = state.advance(ResolverReply::Synthetic(false));
    assert_eq!(state, InboundStream::Dispatch { session: accepted_session(local, remote) });
}

#[test]
fn synthetic_destination_is_dispatched_by_host_name() {
    let local = endpoint(10, 0, 0, 2, 5000);
    let remote = endpoint(198, 18, 0, 5, 80);
    let state = InboundStream::accept(local, remote)
        .advance(ResolverReply::Enabled(true))
        .advance(ResolverReply::Synthetic(true));
    assert_eq!(
        state,
        InboundStream::AskHostname { session: accepted_session(local, remote), remote }
    );
    let state = state.advance(ResolverReply::Hostname(Some("example.com".to_string())));
    assert_eq!(
        state,
        InboundStream::Dispatch {
            session: Session {
                network: Network::Tcp,
                source: local,
                destination: SocksAddr::Domain("example.com".to_string(), 80),
            },
        }
    );
    assert!(state.is_settled());
}

#[test]
fn synthetic_destination_without_host_name_is_abandoned() {
    let local = endpoint(10, 0, 0, 2, 5000);
    let remote = endpoint(198, 18, 0, 9, 8080);
    let state = InboundStream::accept(local, remote)
        .advance(ResolverReply::Enabled(true))
        .advance(ResolverReply::Synthetic(true))
        .advance(ResolverReply::Hostname(None));
    assert_eq!(state, InboundStream::Abandon);
    assert!(state.is_settled());
}

#[test]
fn abandoning_one_connection_leaves_the_next_alone() {
    let local = endpoint(10, 0, 0, 2, 5000);
    let lost = InboundStream::accept(local, endpoint(198, 18, 0, 9, 80))
        .advance(ResolverReply::Enabled(true))
        .advance(ResolverReply::Synthetic(true))
        .advance(ResolverReply::Hostname(None));
    assert_eq!(lost, InboundStream::Abandon);
    let remote = endpoint(198, 18, 0, 5, 80);
    let kept = InboundStream::accept(local, remote)
        .advance(ResolverReply::Enabled(true))
        .advance(ResolverReply::Synthetic(true))
        .advance(ResolverReply::Hostname(Some("example.com".to_string())));
    assert_eq!(
        kept,
        InboundStream::Dispatch {
            session: Session {
                network: Network::Tcp,
                source: local,
                destination: SocksAddr::Domain("example.com".to_string(), 80),
            },
        }
    );
}

#[test]
fn reply_to_another_question_changes_nothing() {
    let local = endpoint(10, 0, 0, 2, 5000);
    let remote = endpoint(198, 18, 0, 5, 80);
    let start = InboundStream::accept(local, remote);
    assert_eq!(start.clone().advance(ResolverReply::Synthetic(true)), start);
    assert_eq!(start.clone().advance(ResolverReply::Hostname(None)), start);
    let asking = start.advance(ResolverReply::Enabled(true));
    assert_eq!(asking.clone().advance(ResolverReply::Enabled(false)), asking);
    assert_eq!(
        asking.clone().advance(ResolverReply::Hostname(Some("example.com".to_string()))),
        asking
    );
}

#[test]
fn settled_connection_stays_settled() {
    let local = endpoint(10, 0, 0, 2, 5000);
    let remote = endpoint(198, 18, 0, 5, 80);
    let done = InboundStream::accept(local, remote).advance(ResolverReply::Enabled(false));
    assert_eq!(done.clone().advance(ResolverReply::Enabled(true)), done);
    assert_eq!(done.clone().advance(ResolverReply::Synthetic(true)), done);
    assert_eq!(done.clone().advance(ResolverReply::Hostname(None)), done);
    assert_eq!(InboundStream::Abandon.advance(ResolverReply::Enabled(false)), InboundStream::Abandon);
}

#[test]
fn ipv6_remote_keeps_its_port_under_the_host_name() {
    let local = SocketAddress::new(IpAddress::V6(1), 40000);
    let remote = SocketAddress::new(IpAddress::V6(0xfd00_0000_0000_0000_0000_0000_0000_0005), 8443);
    let state = InboundStream::accept(local, remote)
        .advance(ResolverReply::Enabled(true))
        .advance(ResolverReply::Synthetic(true))
        .advance(ResolverReply::Hostname(Some("v6.example".to_string())));
    assert_eq!(
        state,
        InboundStream::Dispatch {
            session: Session {
                network: Network::Tcp,
                source: local,
                destination: SocksAddr::Domain("v6.example".to_string(), 8443),
            },
        }
    );
}
