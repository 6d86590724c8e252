//! The UDP session adapter: the stack's one UDP socket on one side, the
//! dispatcher's datagram channel on the other. Packets from the
//! dispatcher may name their source by host; the stack knows addresses
//! only, so the resolver's synthetic address takes the host's place.
//! Datagrams from the stack are handed to the dispatcher as they are.

use vstd::prelude::*;
use crate::addr::{IpAddress, SocketAddress, SocksAddr, SocksAddrView};
use crate::resolver::ResolverModel;
use crate::session::{Network, Session, SessionView};
use crate::tcp::{settle, InboundStreamView};

verus! {

/// How many packets each of the two channels between the adapter and the
/// dispatcher holds. A sender that finds its channel full waits.
pub const DATAGRAM_CHANNEL_CAPACITY: usize = 32;

/// A datagram between the adapter and the dispatcher.
#[derive(Clone, Debug, PartialEq, Eq)]
pub struct UdpPacket {
    pub data: Vec<u8>,
    pub src_addr: SocksAddr,
    pub dst_addr: SocksAddr,
}

/// What a `UdpPacket` stands for.
pub struct UdpPacketView {
    pub data: Seq<u8>,
    pub src_addr: SocksAddrView,
    pub dst_addr: SocksAddrView,
}

impl View for UdpPacket {
    type V = UdpPacketView;

    open spec fn view(&self) -> UdpPacketView {
        UdpPacketView { data: self.data@, src_addr: self.src_addr@, dst_addr: self.dst_addr@ }
    }
}

/// A datagram between the adapter and the stack: both ends are concrete.
#[derive(Clone, Debug, PartialEq, Eq)]
pub struct StackDatagram {
    pub data: Vec<u8>,
    pub src_addr: SocketAddress,
    pub dst_addr: SocketAddress,
}

/// What a `StackDatagram` stands for.
pub struct StackDatagramView {
    pub data: Seq<u8>,
    pub src_addr: SocketAddress,
    pub dst_addr: SocketAddress,
}

impl View for StackDatagram {
    type V = StackDatagramView;

    open spec fn view(&self) -> StackDatagramView {
        StackDatagramView { data: self.data@, src_addr: self.src_addr, dst_addr: self.dst_addr }
    }
}

/// What is to be done next with one packet from the dispatcher.
#[derive(Clone, Debug, PartialEq, Eq)]
pub enum Outbound {
    /// Ask the resolver for the synthetic address of `host`.
    AskFakeIp { host: String, port: u16, data: Vec<u8>, dst_addr: SocksAddr },
    /// Write the datagram to the stack.
    Send(StackDatagram),
    /// Drop the packet and go on with the next.
    Drop,
    /// Leave the loop: the dispatcher has closed its end of the channel.
    Stop,
}

/// What an `Outbound` stands for.
pub enum OutboundView {
    AskFakeIp { host: Seq<char>, port: u16, data: Seq<u8>, dst_addr: SocksAddrView },
    Send(StackDatagramView),
    Drop,
    Stop,
}

impl View for Outbound {
    type V = OutboundView;

    open spec fn view(&self) -> OutboundView {
        match *self {
            Outbound::AskFakeIp { host, port, data, dst_addr } => OutboundView::AskFakeIp {
                host: host@,
                port,
                data: data@,
                dst_addr: dst_addr@,
            },
            Outbound::Send(datagram) => OutboundView::Send(datagram@),
            Outbound::Drop => OutboundView::Drop,
            Outbound::Stop => OutboundView::Stop,
        }
    }
}

/// What the channel from the dispatcher gave, as what it stands for: a
/// packet, or nothing where the dispatcher has closed its end.
pub open spec fn received_view(received: Option<UdpPacket>) -> Option<UdpPacketView> {
    match received {
        Some(packet) => Some(packet@),
        None => None,
    }
}

/// What is done first with what the channel from the dispatcher gave.
pub open spec fn spec_begin(received: Option<UdpPacketView>) -> OutboundView {
    match received {
        Some(packet) => packet.begin(),
        None => OutboundView::Stop,
    }
}

impl UdpPacketView {
    /// The packet can be taken up: where its source is concrete it is
    /// written at once, and then its destination has to be concrete too.
    pub open spec fn admissible(self) -> bool {
        self.src_addr is Ip ==> self.dst_addr is Ip
    }

    /// What is done first with the packet: a concrete source leaves
    /// nothing to ask, a source named by host is looked up. (A packet
    /// that is not admissible is not taken up at all.)
    pub open spec fn begin(self) -> OutboundView
        recommends
            self.admissible(),
    {
        match self.src_addr {
            SocksAddrView::Ip(src_addr) => match self.dst_addr {
                SocksAddrView::Ip(dst_addr) => OutboundView::Send(
                    StackDatagramView { data: self.data, src_addr, dst_addr },
                ),
                SocksAddrView::Domain(_, _) => OutboundView::Drop,
            },
            SocksAddrView::Domain(host, port) => OutboundView::AskFakeIp {
                host,
                port,
                data: self.data,
                dst_addr: self.dst_addr,
            },
        }
    }

    /// What becomes of the packet when what is asked is put to
    /// `resolver`.
    pub open spec fn to_stack(self, resolver: ResolverModel) -> OutboundView {
        let first = self.begin();
        first.resolved(first.answer(resolver))
    }
}

impl OutboundView {
    /// The answer can be taken: where it gives an address the datagram
    /// is written, and then its destination has to be concrete.
    pub open spec fn admits(self, fake_ip: Option<IpAddress>) -> bool {
        self matches OutboundView::AskFakeIp { dst_addr, .. } ==> (fake_ip is Some
            ==> dst_addr is Ip)
    }

    /// What is done after the resolver's answer: with a synthetic address
    /// the datagram goes to the stack, that address and the packet's own
    /// port being its source; without one the packet is dropped. Where
    /// nothing was asked the answer changes nothing.
    pub open spec fn resolved(self, fake_ip: Option<IpAddress>) -> OutboundView
        recommends
            self.admits(fake_ip),
    {
        match self {
            OutboundView::AskFakeIp { port, data, dst_addr, .. } => match (fake_ip, dst_addr) {
                (Some(ip), SocksAddrView::Ip(dst_addr)) => OutboundView::Send(
                    StackDatagramView { data, src_addr: SocketAddress { ip, port }, dst_addr },
                ),
                _ => OutboundView::Drop,
            },
            _ => self,
        }
    }

    /// The resolver's answer to what is asked; none where nothing is.
    pub open spec fn answer(self, resolver: ResolverModel) -> Option<IpAddress> {
        match self {
            OutboundView::AskFakeIp { host, .. } => resolver.lookup_fake_ip(host),
            _ => None,
        }
    }
}

impl UdpPacket {
    /// Whether the packet can be taken up.
    pub fn is_admissible(&self) -> (r: bool)
        ensures
            r == self@.admissible(),
    {
        self.src_addr.is_domain() || !self.dst_addr.is_domain()
    }
}

impl Outbound {
    /// Whether the resolver's answer can be taken.
    pub fn admits(&self, fake_ip: &Option<IpAddress>) -> (r: bool)
        ensures
            r == self@.admits(*fake_ip),
    {
        match self {
            Outbound::AskFakeIp { dst_addr, .. } => fake_ip.is_none() || !dst_addr.is_domain(),
            _ => true,
        }
    }

    /// Takes up what the channel from the dispatcher gave.
    pub fn begin(received: Option<UdpPacket>) -> (r: Outbound)
        requires
            received matches Some(packet) ==> packet@.admissible(),
        ensures
            r@ == spec_begin(received_view(received)),
    {
        match received {
            Some(packet) => match packet.src_addr {
                SocksAddr::Ip(src_addr) => Outbound::Send(
                    StackDatagram {
                        data: packet.data,
                        src_addr,
                        dst_addr: packet.dst_addr.must_into_socket_addr(),
                    },
                ),
                SocksAddr::Domain(host, port) => Outbound::AskFakeIp {
                    host,
                    port,
                    data: packet.data,
                    dst_addr: packet.dst_addr,
                },
            },
            None => Outbound::Stop,
        }
    }

    /// Goes on with the resolver's answer.
    pub fn resolved(self, fake_ip: Option<IpAddress>) -> (r: Outbound)
        requires
            self@.admits(fake_ip),
        ensures
            r@ == self@.resolved(fake_ip),
    {
        match self {
            Outbound::AskFakeIp { host, port, data, dst_addr } => match fake_ip {
                Some(ip) => Outbound::Send(
                    StackDatagram {
                        data,
                        src_addr: SocketAddress { ip, port },
                        dst_addr: dst_addr.must_into_socket_addr(),
                    },
                ),
                None => Outbound::Drop,
            },
            state => state,
        }
    }
}

/// The packet that the dispatcher is given for a datagram from the stack:
/// the same bytes, between the same two concrete endpoints.
pub open spec fn spec_from_stack(datagram: StackDatagramView) -> UdpPacketView {
    UdpPacketView {
        data: datagram.data,
        src_addr: SocksAddrView::Ip(datagram.src_addr),
        dst_addr: SocksAddrView::Ip(datagram.dst_addr),
    }
}

/// Wraps a datagram from the stack for the dispatcher.
pub fn from_stack(datagram: StackDatagram) -> (r: UdpPacket)
    ensures
        r@ == spec_from_stack(datagram@),
{
    UdpPacket {
        data: datagram.data,
        src_addr: SocksAddr::Ip(datagram.src_addr),
        dst_addr: SocksAddr::Ip(datagram.dst_addr),
    }
}

/// The one session that stands for all the flows through the socket:
/// UDP, with source and destination left unset, for each packet carries
/// its own.
pub open spec fn spec_udp_session() -> SessionView {
    SessionView { network: Network::Udp, ..SessionView::unset() }
}

/// The session under which the adapter's channel is dispatched.
pub fn udp_session() -> (r: Session)
    ensures
        r@ == spec_udp_session(),
{
    let unset = Session::default();
    Session { network: Network::Udp, source: unset.source, destination: unset.destination }
}

/// What the stack's socket gave when it was read.
#[derive(Clone, Debug, PartialEq, Eq)]
pub enum DatagramRead {
    Datagram(StackDatagram),
    /// An error in place of a datagram.
    Failed,
}

/// What a `DatagramRead` stands for.
pub enum DatagramReadView {
    Datagram(StackDatagramView),
    Failed,
}

impl View for DatagramRead {
    type V = DatagramReadView;

    open spec fn view(&self) -> DatagramReadView {
        match *self {
            DatagramRead::Datagram(datagram) => DatagramReadView::Datagram(datagram@),
            DatagramRead::Failed => DatagramReadView::Failed,
        }
    }
}

/// What the loop towards the dispatcher does next.
#[derive(Clone, Debug, PartialEq, Eq)]
pub enum Inbound {
    /// Put the packet on the channel to the dispatcher.
    Forward(UdpPacket),
    /// Leave the loop.
    Stop,
}

/// What an `Inbound` stands for.
pub enum InboundView {
    Forward(UdpPacketView),
    Stop,
}

impl View for Inbound {
    type V = InboundView;

    open spec fn view(&self) -> InboundView {
        match *self {
            Inbound::Forward(packet) => InboundView::Forward(packet@),
            Inbound::Stop => InboundView::Stop,
        }
    }
}

/// A datagram is wrapped and forwarded; an error ends the loop.
pub open spec fn spec_on_datagram(read: DatagramReadView) -> InboundView {
    match read {
        DatagramReadView::Datagram(datagram) => InboundView::Forward(spec_from_stack(datagram)),
        DatagramReadView::Failed => InboundView::Stop,
    }
}

/// Decides what the loop towards the dispatcher does with what the
/// stack's socket gave.
pub fn on_datagram(read: DatagramRead) -> (r: Inbound)
    ensures
        r@ == spec_on_datagram(read@),
{
    match read {
        DatagramRead::Datagram(datagram) => Inbound::Forward(from_stack(datagram)),
        DatagramRead::Failed => Inbound::Stop,
    }
}

/// One round of the loop towards the dispatcher: what the socket gave,
/// and whether the channel took the packet (of no account where there
/// was none).
pub struct InboundRound {
    pub read: DatagramReadView,
    pub taken: bool,
}

/// The packets that the dispatcher gets over the rounds `rounds`, in the
/// order in which it gets them. A packet that the channel did not take is
/// lost, and the loop goes on with the next datagram; rounds after the
/// one that ends the loop do not take place.
pub open spec fn forwarded(rounds: Seq<InboundRound>) -> Seq<UdpPacketView>
    decreases rounds.len(),
{
    if rounds.len() == 0 {
        Seq::empty()
    } else {
        match spec_on_datagram(rounds[0].read) {
            InboundView::Stop => Seq::empty(),
            InboundView::Forward(packet) => if rounds[0].taken {
                seq![packet] + forwarded(rounds.drop_first())
            } else {
                forwarded(rounds.drop_first())
            },
        }
    }
}

/// The rounds in which the datagrams `datagrams` are received one after
/// the other and the channel takes every packet.
pub open spec fn all_taken(datagrams: Seq<StackDatagramView>) -> Seq<InboundRound> {
    Seq::new(
        datagrams.len(),
        |i: int| InboundRound { read: DatagramReadView::Datagram(datagrams[i]), taken: true },
    )
}

/// As long as the channel takes what it is given, the dispatcher gets one
/// packet for each datagram of the stack, in the stack's order: the loop
/// itself drops nothing and puts nothing out of its place.
pub proof fn lemma_datagrams_forwarded_in_order(datagrams: Seq<StackDatagramView>)
    ensures
        forwarded(all_taken(datagrams)) == datagrams.map_values(
            |d: StackDatagramView| spec_from_stack(d),
        ),
    decreases datagrams.len(),
{
    let rounds = all_taken(datagrams);
    let packets = datagrams.map_values(|d: StackDatagramView| spec_from_stack(d));
    if datagrams.len() > 0 {
        assert(rounds.drop_first() =~= all_taken(datagrams.drop_first()));
        lemma_datagrams_forwarded_in_order(datagrams.drop_first());
        assert(seq![spec_from_stack(datagrams[0])] + datagrams.drop_first().map_values(
            |d: StackDatagramView| spec_from_stack(d),
        ) =~= packets);
    } else {
        assert(forwarded(rounds) =~= packets);
    }
}

/// One round of the loop towards the stack: what the channel gave, and
/// whether the stack took the datagram (of no account where there was
/// none to write).
pub struct OutboundRound {
    pub received: Option<UdpPacketView>,
    pub taken: bool,
}

/// Where what the channel gave ends when what is asked is put to
/// `resolver`.
pub open spec fn spec_outbound(
    received: Option<UdpPacketView>,
    resolver: ResolverModel,
) -> OutboundView {
    match received {
        Some(packet) => packet.to_stack(resolver),
        None => OutboundView::Stop,
    }
}

/// The datagrams that the stack gets over the rounds `rounds`, in the
/// order in which it gets them. A packet whose source has no synthetic
/// address is dropped, one that the stack did not take is lost, and
/// either way the loop goes on with the next packet; rounds after the
/// channel was found closed do not take place.
pub open spec fn sent(rounds: Seq<OutboundRound>, resolver: ResolverModel) -> Seq<StackDatagramView>
    decreases rounds.len(),
{
    if rounds.len() == 0 {
        Seq::empty()
    } else {
        match spec_outbound(rounds[0].received, resolver) {
            OutboundView::Stop => Seq::empty(),
            OutboundView::Send(datagram) => if rounds[0].taken {
                seq![datagram] + sent(rounds.drop_first(), resolver)
            } else {
                sent(rounds.drop_first(), resolver)
            },
            _ => sent(rounds.drop_first(), resolver),
        }
    }
}

/// The packets between concrete endpoints that carry the datagrams
/// `datagrams`, received one after the other and each taken by the stack.
pub open spec fn all_sent(datagrams: Seq<StackDatagramView>) -> Seq<OutboundRound> {
    Seq::new(
        datagrams.len(),
        |i: int| OutboundRound { received: Some(spec_from_stack(datagrams[i])), taken: true },
    )
}

/// As long as the stack takes what it is given, packets between concrete
/// endpoints reach it one for one, in the dispatcher's order and
/// unchanged, whatever the resolver holds.
pub proof fn lemma_packets_sent_in_order(datagrams: Seq<StackDatagramView>, resolver: ResolverModel)
    ensures
        sent(all_sent(datagrams), resolver) == datagrams,
    decreases datagrams.len(),
{
    let rounds = all_sent(datagrams);
    if datagrams.len() > 0 {
        assert(rounds.drop_first() =~= all_sent(datagrams.drop_first()));
        lemma_packets_sent_in_order(datagrams.drop_first(), resolver);
        assert(seq![datagrams[0]] + datagrams.drop_first() =~= datagrams);
    } else {
        assert(sent(rounds, resolver) =~= datagrams);
    }
}

/// A packet with a concrete source goes to the stack as it is. A packet
/// whose source is named by host goes to the stack from the synthetic
/// address that the resolver has for the host, the port staying; where
/// the resolver has none, the packet is dropped.
pub proof fn lemma_outbound_source(packet: UdpPacketView, resolver: ResolverModel)
    requires
        packet.dst_addr is Ip,
    ensures
        packet.to_stack(resolver) == match packet.src_addr {
            SocksAddrView::Ip(src_addr) => OutboundView::Send(
                StackDatagramView { data: packet.data, src_addr, dst_addr: packet.dst_addr->Ip_0 },
            ),
            SocksAddrView::Domain(host, port) => match resolver.lookup_fake_ip(host) {
                Some(ip) => OutboundView::Send(
                    StackDatagramView {
                        data: packet.data,
                        src_addr: SocketAddress { ip, port },
                        dst_addr: packet.dst_addr->Ip_0,
                    },
                ),
                None => OutboundView::Drop,
            },
        },
{
}

/// Through the synthetic address and back: where the resolver has the
/// synthetic address `ip` for a host name and takes `ip` for that host
/// name again, a packet from the host goes to the stack from `ip`, and a
/// connection that the stack then accepts to that address is dispatched
/// to the host name, with the same port.
pub proof fn lemma_fake_ip_round_trip(
    resolver: ResolverModel,
    host: Seq<char>,
    ip: IpAddress,
    port: u16,
    data: Seq<u8>,
    peer: SocketAddress,
)
    requires
        resolver.lookup_fake_ip(host) == Some(ip),
        resolver.translates(ip),
        resolver.reverse_lookup(ip) == Some(host),
    ensures
        (UdpPacketView {
            data,
            src_addr: SocksAddrView::Domain(host, port),
            dst_addr: SocksAddrView::Ip(peer),
        }).to_stack(resolver) == OutboundView::Send(
            StackDatagramView { data, src_addr: SocketAddress { ip, port }, dst_addr: peer },
        ),
        settle(peer, SocketAddress { ip, port }, resolver) == (InboundStreamView::Dispatch {
            session: SessionView {
                network: Network::Tcp,
                source: peer,
                destination: SocksAddrView::Domain(host, port),
            },
        }),
{
}

} // verus!
