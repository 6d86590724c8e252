//! The frame pump: one forwarding loop for each direction between the
//! interface and the stack. A loop reads a frame, writes it, and goes on
//! until its source ends or either side fails. The two loops share nothing.

use vstd::prelude::*;

verus! {

/// `tun::TunPacket`, a frame as the interface takes and gives it. What
/// is known of one is the bytes it holds, `packet_bytes`.
#[verifier::external_type_specification]
#[verifier::external_body]
pub struct ExTunPacket(tun::TunPacket);

/// The bytes that a packet of the interface holds.
pub uninterp spec fn packet_bytes(packet: tun::TunPacket) -> Seq<u8>;

/// `tun::TunPacket::new` makes a packet that holds the bytes it is given.
/// It reads the first of them for the IP version, so there has to be one.
pub assume_specification[ tun::TunPacket::new ](bytes: Vec<u8>) -> (r: tun::TunPacket)
    requires
        bytes@.len() > 0,
    ensures
        packet_bytes(r) == bytes@,
;

/// `tun::TunPacket::into_bytes`, the buffer it returns turned into a
/// vector: the bytes that the packet holds.
#[verifier::external_body]
fn packet_into_bytes(packet: tun::TunPacket) -> (r: Vec<u8>)
    ensures
        r@ == packet_bytes(packet),
{
    packet.into_bytes().into()
}

/// Whether a loop goes round again.
#[derive(Clone, Copy, Debug, PartialEq, Eq, Structural)]
pub enum Flow {
    Continue,
    Stop,
}

/// What a source gave when it was read, whichever side it is.
pub enum FrameRead {
    /// One whole frame, these bytes.
    Frame(Seq<u8>),
    /// An error in place of a frame.
    Failed,
    /// The end of the stream.
    Ended,
}

/// What a loop does with what it read, whichever side it writes to.
pub enum PumpStep {
    /// Write these bytes to the other side, as one frame.
    Write(Seq<u8>),
    /// Leave the loop.
    Stop,
}

/// What the stack gave when it was read.
#[derive(Clone, Debug, PartialEq, Eq)]
pub enum StackRead {
    Frame(Vec<u8>),
    Failed,
    Ended,
}

impl View for StackRead {
    type V = FrameRead;

    open spec fn view(&self) -> FrameRead {
        match *self {
            StackRead::Frame(bytes) => FrameRead::Frame(bytes@),
            StackRead::Failed => FrameRead::Failed,
            StackRead::Ended => FrameRead::Ended,
        }
    }
}

/// What the interface gave when it was read.
#[derive(Debug)]
pub enum DeviceRead {
    Packet(tun::TunPacket),
    Failed,
    Ended,
}

impl View for DeviceRead {
    type V = FrameRead;

    open spec fn view(&self) -> FrameRead {
        match *self {
            DeviceRead::Packet(packet) => FrameRead::Frame(packet_bytes(packet)),
            DeviceRead::Failed => FrameRead::Failed,
            DeviceRead::Ended => FrameRead::Ended,
        }
    }
}

/// What the loop towards the interface does next.
#[derive(Debug)]
pub enum DeviceStep {
    /// Write the packet to the interface.
    Write(tun::TunPacket),
    /// Leave the loop.
    Stop,
}

impl View for DeviceStep {
    type V = PumpStep;

    open spec fn view(&self) -> PumpStep {
        match *self {
            DeviceStep::Write(packet) => PumpStep::Write(packet_bytes(packet)),
            DeviceStep::Stop => PumpStep::Stop,
        }
    }
}

/// What the loop towards the stack does next.
#[derive(Clone, Debug, PartialEq, Eq)]
pub enum StackStep {
    /// Write the bytes to the stack.
    Write(Vec<u8>),
    /// Leave the loop.
    Stop,
}

impl View for StackStep {
    type V = PumpStep;

    open spec fn view(&self) -> PumpStep {
        match *self {
            StackStep::Write(bytes) => PumpStep::Write(bytes@),
            StackStep::Stop => PumpStep::Stop,
        }
    }
}

/// A frame is written on as it was read; an error or the end of the
/// stream stops the loop.
pub open spec fn spec_on_read(read: FrameRead) -> PumpStep {
    match read {
        FrameRead::Frame(bytes) => PumpStep::Write(bytes),
        FrameRead::Failed => PumpStep::Stop,
        FrameRead::Ended => PumpStep::Stop,
    }
}

/// After a write that went through the loop reads on; a failed write
/// stops it.
pub open spec fn spec_on_write(written: bool) -> Flow {
    if written {
        Flow::Continue
    } else {
        Flow::Stop
    }
}

/// Whether the interface can carry what the stack gave: a frame has to
/// hold a byte at least, for the IP version is read from its first one.
pub open spec fn carriable(read: FrameRead) -> bool {
    read matches FrameRead::Frame(bytes) ==> bytes.len() > 0
}

impl StackRead {
    /// Whether the interface can carry this.
    pub fn is_carriable(&self) -> (r: bool)
        ensures
            r == carriable(self@),
    {
        match self {
            StackRead::Frame(bytes) => bytes.len() > 0,
            _ => true,
        }
    }
}

/// Decides what the loop towards the interface does with what the stack
/// gave: a frame is wrapped as a packet of the interface, byte for byte.
pub fn on_stack_read(read: StackRead) -> (r: DeviceStep)
    requires
        carriable(read@),
    ensures
        r@ == spec_on_read(read@),
{
    match read {
        StackRead::Frame(bytes) => DeviceStep::Write(tun::TunPacket::new(bytes)),
        StackRead::Failed => DeviceStep::Stop,
        StackRead::Ended => DeviceStep::Stop,
    }
}

/// Decides what the loop towards the stack does with what the interface
/// gave: the bytes of a packet are handed on as they are.
pub fn on_device_read(read: DeviceRead) -> (r: StackStep)
    ensures
        r@ == spec_on_read(read@),
{
    match read {
        DeviceRead::Packet(packet) => StackStep::Write(packet_into_bytes(packet)),
        DeviceRead::Failed => StackStep::Stop,
        DeviceRead::Ended => StackStep::Stop,
    }
}

/// Decides whether a loop goes on after a write.
pub fn on_write(written: bool) -> (r: Flow)
    ensures
        r == spec_on_write(written),
{
    if written {
        Flow::Continue
    } else {
        Flow::Stop
    }
}

/// One round of a loop: what the source gave, and whether the write went
/// through (of no account where nothing was written).
pub struct Round {
    pub read: FrameRead,
    pub written: bool,
}

/// The frames that reach the other side over the rounds `rounds`, in the
/// order in which they reach it. Rounds after the one that stops the loop
/// do not take place.
pub open spec fn delivered(rounds: Seq<Round>) -> Seq<Seq<u8>>
    decreases rounds.len(),
{
    if rounds.len() == 0 {
        Seq::empty()
    } else {
        match spec_on_read(rounds[0].read) {
            PumpStep::Stop => Seq::empty(),
            PumpStep::Write(frame) => match spec_on_write(rounds[0].written) {
                Flow::Stop => Seq::empty(),
                Flow::Continue => seq![frame] + delivered(rounds.drop_first()),
            },
        }
    }
}

/// The frames that the source holds over the rounds `rounds`, in its
/// order.
pub open spec fn submitted(rounds: Seq<Round>) -> Seq<Seq<u8>>
    decreases rounds.len(),
{
    if rounds.len() == 0 {
        Seq::empty()
    } else {
        match rounds[0].read {
            FrameRead::Frame(frame) => seq![frame] + submitted(rounds.drop_first()),
            _ => submitted(rounds.drop_first()),
        }
    }
}

/// The rounds in which the frames `frames` are read one after the other
/// and every write goes through.
pub open spec fn undisturbed(frames: Seq<Seq<u8>>) -> Seq<Round> {
    Seq::new(frames.len(), |i: int| Round { read: FrameRead::Frame(frames[i]), written: true })
}

/// Frames arrive in the order in which they were submitted, each byte for
/// byte as it was: as long as nothing fails, what reaches the other side
/// is the sequence that was read, however long it is.
pub proof fn lemma_frames_arrive_in_order(frames: Seq<Seq<u8>>)
    ensures
        delivered(undisturbed(frames)) == frames,
    decreases frames.len(),
{
    let rounds = undisturbed(frames);
    if frames.len() > 0 {
        assert(rounds.drop_first() =~= undisturbed(frames.drop_first()));
        lemma_frames_arrive_in_order(frames.drop_first());
        assert(seq![frames[0]] + frames.drop_first() =~= frames);
    } else {
        assert(delivered(rounds) =~= frames);
    }
}

/// Whatever happens, what reaches the other side is a beginning of what
/// was submitted: no frame twice, none out of its place, none in part,
/// and none left out before the last that arrived.
pub proof fn lemma_delivered_is_prefix_of_submitted(rounds: Seq<Round>)
    ensures
        delivered(rounds).is_prefix_of(submitted(rounds)),
    decreases rounds.len(),
{
    if rounds.len() > 0 {
        lemma_delivered_is_prefix_of_submitted(rounds.drop_first());
        let rest_d = delivered(rounds.drop_first());
        let rest_s = submitted(rounds.drop_first());
        match rounds[0].read {
            FrameRead::Frame(frame) => {
                if rounds[0].written {
                    assert((seq![frame] + rest_s).subrange(0, (seq![frame] + rest_d).len() as int)
                        =~= seq![frame] + rest_d);
                }
            },
            _ => {},
        }
    }
}

} // verus!
