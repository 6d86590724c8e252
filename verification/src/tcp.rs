//! The TCP session adapter: from a connection that the stack accepted to
//! the session that the dispatcher is handed, or to giving the connection
//! up. Each connection has a state of its own and shares none.

use vstd::prelude::*;
use crate::addr::{SocketAddress, SocksAddr, SocksAddrView};
use crate::resolver::ResolverModel;
use crate::session::{Network, Session, SessionView};

verus! {

/// What is to be done next for one accepted connection. The first three
/// states each put one question to the resolver; the last two end the
/// adapter's part.
#[derive(Clone, Debug, PartialEq, Eq)]
pub enum InboundStream {
    /// Ask whether the resolver hands out synthetic addresses.
    AskEnabled { session: Session, remote: SocketAddress },
    /// Ask whether the remote address is synthetic.
    AskSynthetic { session: Session, remote: SocketAddress },
    /// Ask for the host name behind the remote address.
    AskHostname { session: Session, remote: SocketAddress },
    /// Hand the session and the stream to the dispatcher.
    Dispatch { session: Session },
    /// Give the connection up: nothing is dispatched.
    Abandon,
}

/// What an `InboundStream` stands for.
pub enum InboundStreamView {
    AskEnabled { session: SessionView, remote: SocketAddress },
    AskSynthetic { session: SessionView, remote: SocketAddress },
    AskHostname { session: SessionView, remote: SocketAddress },
    Dispatch { session: SessionView },
    Abandon,
}

impl View for InboundStream {
    type V = InboundStreamView;

    open spec fn view(&self) -> InboundStreamView {
        match *self {
            InboundStream::AskEnabled { session, remote } => InboundStreamView::AskEnabled {
                session: session@,
                remote,
            },
            InboundStream::AskSynthetic { session, remote } => InboundStreamView::AskSynthetic {
                session: session@,
                remote,
            },
            InboundStream::AskHostname { session, remote } => InboundStreamView::AskHostname {
                session: session@,
                remote,
            },
            InboundStream::Dispatch { session } => InboundStreamView::Dispatch { session: session@ },
            InboundStream::Abandon => InboundStreamView::Abandon,
        }
    }
}

/// An answer of the resolver.
#[derive(Clone, Debug, PartialEq, Eq)]
pub enum ResolverReply {
    /// Whether the resolver hands out synthetic addresses.
    Enabled(bool),
    /// Whether the remote address is synthetic.
    Synthetic(bool),
    /// The host name behind the remote address, if the resolver knows one.
    Hostname(Option<String>),
}

/// What a `ResolverReply` stands for.
pub enum ResolverReplyView {
    Enabled(bool),
    Synthetic(bool),
    Hostname(Option<Seq<char>>),
}

impl View for ResolverReply {
    type V = ResolverReplyView;

    open spec fn view(&self) -> ResolverReplyView {
        match *self {
            ResolverReply::Enabled(b) => ResolverReplyView::Enabled(b),
            ResolverReply::Synthetic(b) => ResolverReplyView::Synthetic(b),
            ResolverReply::Hostname(Some(host)) => ResolverReplyView::Hostname(Some(host@)),
            ResolverReply::Hostname(None) => ResolverReplyView::Hostname(None),
        }
    }
}

/// The session of a connection as the stack reports it: TCP, from the
/// local endpoint to the remote endpoint, which is concrete.
pub open spec fn accepted_session(local: SocketAddress, remote: SocketAddress) -> SessionView {
    SessionView { network: Network::Tcp, source: local, destination: SocksAddrView::Ip(remote) }
}

impl InboundStreamView {
    /// The state of a connection that was just accepted.
    pub open spec fn accepted(local: SocketAddress, remote: SocketAddress) -> InboundStreamView {
        InboundStreamView::AskEnabled { session: accepted_session(local, remote), remote }
    }

    /// The state after `reply`. A reply to the question that is open moves
    /// the connection on: towards the dispatcher where translation is off,
    /// the address is not synthetic, or the host name is known (which
    /// then takes the place of the address, the port staying); to being
    /// given up where a synthetic address has no host name. Any other
    /// reply leaves the state as it is.
    pub open spec fn advance(self, reply: ResolverReplyView) -> InboundStreamView {
        match (self, reply) {
            (
                InboundStreamView::AskEnabled { session, remote },
                ResolverReplyView::Enabled(enabled),
            ) => if enabled {
                InboundStreamView::AskSynthetic { session, remote }
            } else {
                InboundStreamView::Dispatch { session }
            },
            (
                InboundStreamView::AskSynthetic { session, remote },
                ResolverReplyView::Synthetic(synthetic),
            ) => if synthetic {
                InboundStreamView::AskHostname { session, remote }
            } else {
                InboundStreamView::Dispatch { session }
            },
            (
                InboundStreamView::AskHostname { session, remote },
                ResolverReplyView::Hostname(hostname),
            ) => match hostname {
                Some(host) => InboundStreamView::Dispatch {
                    session: SessionView {
                        destination: SocksAddrView::Domain(host, remote.port),
                        ..session
                    },
                },
                None => InboundStreamView::Abandon,
            },
            _ => self,
        }
    }

    /// Nothing is left to ask.
    pub open spec fn is_settled(self) -> bool {
        self is Dispatch || self is Abandon
    }

    /// The resolver's answer to the question that is open. Where none is
    /// open the answer is of no account: no reply moves a settled state.
    pub open spec fn answer(self, resolver: ResolverModel) -> ResolverReplyView {
        match self {
            InboundStreamView::AskEnabled { .. } => ResolverReplyView::Enabled(
                resolver.fake_ip_enabled,
            ),
            InboundStreamView::AskSynthetic { remote, .. } => ResolverReplyView::Synthetic(
                resolver.is_fake_ip(remote.ip),
            ),
            InboundStreamView::AskHostname { remote, .. } => ResolverReplyView::Hostname(
                resolver.reverse_lookup(remote.ip),
            ),
            _ => ResolverReplyView::Hostname(None),
        }
    }

    /// The state after the open question was put to `resolver`.
    pub open spec fn ask(self, resolver: ResolverModel) -> InboundStreamView {
        self.advance(self.answer(resolver))
    }
}

/// Where a connection from `local` to `remote` ends when each question is
/// put to `resolver` in turn. There are three questions at most.
pub open spec fn settle(
    local: SocketAddress,
    remote: SocketAddress,
    resolver: ResolverModel,
) -> InboundStreamView {
    InboundStreamView::accepted(local, remote).ask(resolver).ask(resolver).ask(resolver)
}

impl InboundStream {
    /// Takes up a connection that the stack accepted, with its session as
    /// the stack reports it.
    pub fn accept(local: SocketAddress, remote: SocketAddress) -> (r: InboundStream)
        ensures
            r@ == InboundStreamView::accepted(local, remote),
    {
        InboundStream::AskEnabled {
            session: Session {
                network: Network::Tcp,
                source: local,
                destination: SocksAddr::Ip(remote),
            },
            remote,
        }
    }

    /// Moves the connection on by one answer of the resolver.
    pub fn advance(self, reply: ResolverReply) -> (r: InboundStream)
        ensures
            r@ == self@.advance(reply@),
    {
        match (self, reply) {
            (InboundStream::AskEnabled { session, remote }, ResolverReply::Enabled(enabled)) => {
                if enabled {
                    InboundStream::AskSynthetic { session, remote }
                } else {
                    InboundStream::Dispatch { session }
                }
            },
            (
                InboundStream::AskSynthetic { session, remote },
                ResolverReply::Synthetic(synthetic),
            ) => {
                if synthetic {
                    InboundStream::AskHostname { session, remote }
                } else {
                    InboundStream::Dispatch { session }
                }
            },
            (
                InboundStream::AskHostname { session, remote },
                ResolverReply::Hostname(hostname),
            ) => {
                match hostname {
                    Some(host) => InboundStream::Dispatch {
                        session: Session {
                            network: session.network,
                            source: session.source,
                            destination: SocksAddr::Domain(host, remote.port),
                        },
                    },
                    None => InboundStream::Abandon,
                }
            },
            (state, _) => state,
        }
    }

    /// Whether nothing is left to ask.
    pub fn is_settled(&self) -> (r: bool)
        ensures
            r == self@.is_settled(),
    {
        match self {
            InboundStream::Dispatch { .. } => true,
            InboundStream::Abandon => true,
            _ => false,
        }
    }
}

/// A connection whose remote address the resolver does not translate is
/// dispatched with the session as the stack reported it: the destination
/// is the remote endpoint, unchanged.
pub proof fn lemma_concrete_destination_unchanged(
    local: SocketAddress,
    remote: SocketAddress,
    resolver: ResolverModel,
)
    requires
        !resolver.translates(remote.ip),
    ensures
        settle(local, remote, resolver) == (InboundStreamView::Dispatch {
            session: accepted_session(local, remote),
        }),
{
}

/// A connection to a synthetic address is dispatched to the host name
/// that the address stands for, with the port it was made to; where the
/// resolver knows no host name for the address, it is given up.
pub proof fn lemma_synthetic_destination_resolved(
    local: SocketAddress,
    remote: SocketAddress,
    resolver: ResolverModel,
)
    requires
        resolver.translates(remote.ip),
    ensures
        settle(local, remote, resolver) == match resolver.reverse_lookup(remote.ip) {
            Some(host) => InboundStreamView::Dispatch {
                session: SessionView {
                    network: Network::Tcp,
                    source: local,
                    destination: SocksAddrView::Domain(host, remote.port),
                },
            },
            None => InboundStreamView::Abandon,
        },
{
}

/// Every connection ends in exactly one of two ways, and stays there:
/// once dispatched or given up, no reply changes the state.
pub proof fn lemma_settles_once(
    local: SocketAddress,
    remote: SocketAddress,
    resolver: ResolverModel,
    reply: ResolverReplyView,
)
    ensures
        settle(local, remote, resolver).is_settled(),
        settle(local, remote, resolver).advance(reply) == settle(local, remote, resolver),
{
}

/// No session goes to the dispatcher with a synthetic address for its
/// destination.
pub proof fn lemma_no_synthetic_destination_dispatched(
    local: SocketAddress,
    remote: SocketAddress,
    resolver: ResolverModel,
)
    ensures
        settle(local, remote, resolver) matches InboundStreamView::Dispatch { session } ==> (
        session.destination matches SocksAddrView::Ip(addr) ==> !resolver.translates(addr.ip)),
{
}

} // verus!
