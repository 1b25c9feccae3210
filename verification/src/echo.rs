//! The echo session of the serial port: it waits for the host to open the
//! port, then hands every packet that it reads back to the host, until the
//! host closes the port again. The session decides; the caller talks to the
//! transport and reports what came of it.

use vstd::prelude::*;
use vstd::slice::slice_subrange;

verus! {

/// The largest packet of the port, in bytes. The packet buffer has this size.
pub const MAX_PACKET_SIZE: usize = 64;

/// What the transport reports when a transfer fails.
#[derive(Clone, Copy, PartialEq, Eq, Debug, Structural)]
pub enum TransportError {
    /// More bytes arrived than the buffer holds.
    BufferOverflow,
    /// The endpoint is disabled: the host has closed the port.
    Disabled,
}

/// The signal that the host has closed the port.
#[derive(Clone, Copy, PartialEq, Eq, Debug, Structural)]
pub struct Disconnected;

impl Disconnected {
    /// Reads a transport error as the signal that the port was closed. Only a
    /// disabled endpoint is one. A buffer overflow breaks the protocol and
    /// cannot be recovered from: it is no input of this function, and the
    /// caller stops the firmware on it.
    pub fn from(val: TransportError) -> (signal: Disconnected)
        requires
            val == TransportError::Disabled,
        ensures
            signal == Disconnected,
    {
        Disconnected
    }
}

/// The transfer that a connected session waits for.
#[derive(Clone, Copy, PartialEq, Eq, Debug, Structural)]
pub enum Transfer {
    /// A packet from the host.
    Read,
    /// The echo of the packet read last, `len` bytes long.
    Write { len: usize },
}

/// Where the session stands.
#[derive(Clone, Copy, PartialEq, Eq, Debug, Structural)]
pub enum SessionState {
    /// The port is closed.
    WaitingForConnection,
    /// The port is open, and the transfer is under way.
    Connected(Transfer),
    /// The transport has broken the protocol. Nothing leads out of this
    /// state.
    Faulted,
}

/// What the transport has done for the session.
#[derive(Clone, Copy, PartialEq, Eq, Debug, Structural)]
pub enum Event {
    /// The host has opened the port.
    Opened,
    /// A packet of `len` bytes was read into the buffer.
    PacketRead { len: usize },
    /// The echo was sent in full.
    PacketWritten,
    /// The transfer failed.
    Failed(TransportError),
}

/// What the caller is to ask of the transport next. Each but `Abort` is a
/// point at which the session gives the processor up until the transport is
/// done.
#[derive(Clone, Copy, PartialEq, Eq, Debug, Structural)]
pub enum Command {
    /// Wait until the host opens the port.
    WaitConnection,
    /// Read one packet into the buffer.
    ReadPacket,
    /// Write the first `len` bytes of the buffer back to the host.
    WritePacket { len: usize },
    /// Stop the firmware: the fault cannot be recovered from.
    Abort,
}

impl SessionState {
    /// A transfer of a well-formed state echoes no more than one packet
    /// holds.
    pub open spec fn wf(self) -> bool {
        self matches SessionState::Connected(Transfer::Write { len }) ==> len <= MAX_PACKET_SIZE
    }

    /// The port is open.
    pub open spec fn is_connected(self) -> bool {
        self is Connected
    }

    /// The state that a failed transfer leads to: back to waiting where the
    /// error is a disconnect, and to the fault state where it is not. The
    /// fault state stands for the firmware that was stopped.
    pub open spec fn failed(error: TransportError) -> SessionState {
        if error == TransportError::Disabled {
            SessionState::WaitingForConnection
        } else {
            SessionState::Faulted
        }
    }

    /// The state after `event`. An event that does not answer what the
    /// session waits for changes nothing. A packet longer than the buffer
    /// cannot have been read: it is a fault. So is a buffer overflow, which
    /// `Session::resume` leaves to its caller.
    pub open spec fn on(self, event: Event) -> SessionState {
        match (self, event) {
            (SessionState::WaitingForConnection, Event::Opened) => SessionState::Connected(
                Transfer::Read,
            ),
            (SessionState::Connected(Transfer::Read), Event::PacketRead { len }) => if len
                <= MAX_PACKET_SIZE {
                SessionState::Connected(Transfer::Write { len })
            } else {
                SessionState::Faulted
            },
            (SessionState::Connected(Transfer::Write { .. }), Event::PacketWritten) => {
                SessionState::Connected(Transfer::Read)
            },
            (SessionState::Connected(_), Event::Failed(error)) => SessionState::failed(error),
            _ => self,
        }
    }

    /// What the session waits for in this state.
    pub open spec fn command(self) -> Command {
        match self {
            SessionState::WaitingForConnection => Command::WaitConnection,
            SessionState::Connected(Transfer::Read) => Command::ReadPacket,
            SessionState::Connected(Transfer::Write { len }) => Command::WritePacket { len },
            SessionState::Faulted => Command::Abort,
        }
    }
}

impl Command {
    /// Whether `event` is an answer to the command: what the transport
    /// reports when it is done with it.
    pub open spec fn answered_by(self, event: Event) -> bool {
        match self {
            Command::WaitConnection => event is Opened,
            Command::ReadPacket => event is PacketRead || event is Failed,
            Command::WritePacket { .. } => event is PacketWritten || event is Failed,
            Command::Abort => false,
        }
    }
}

/// What a read of `packet` leaves in the buffer: the packet at the front, and
/// behind it what was there before.
pub open spec fn buffer_after_read(buffer: Seq<u8>, packet: Seq<u8>) -> Seq<u8> {
    packet + buffer.skip(packet.len() as int)
}

/// A well-formed state stays well formed.
pub proof fn lemma_on_wf(state: SessionState, event: Event)
    requires
        state.wf(),
    ensures
        state.on(event).wf(),
{
}

/// The session moves on when, and only when, the transport answers what the
/// session waits for.
pub proof fn lemma_moves_on_answer(state: SessionState, event: Event)
    ensures
        state.on(event) != state <==> state.command().answered_by(event),
{
}

/// Data never opens or closes a connection: a packet that was read, if it
/// fits the buffer, and an echo that was written leave a connected session
/// connected and a waiting session waiting.
pub proof fn lemma_data_keeps_connection(state: SessionState, event: Event)
    requires
        event is PacketWritten || (event matches Event::PacketRead { len } && len
            <= MAX_PACKET_SIZE),
    ensures
        state.on(event).is_connected() == state.is_connected(),
{
}

/// What the host gets back is what it has sent, byte for byte: after a read
/// of `packet` the session asks for a write of as many bytes as the packet
/// has, those bytes of the buffer are the packet, whatever the buffer held
/// before, and after the write the session reads again.
pub proof fn lemma_echo_round_trip(buffer: Seq<u8>, packet: Seq<u8>)
    requires
        packet.len() <= buffer.len(),
        buffer.len() == MAX_PACKET_SIZE,
    ensures
        SessionState::Connected(Transfer::Read).on(Event::PacketRead { len: packet.len() as usize })
            == SessionState::Connected(Transfer::Write { len: packet.len() as usize }),
        SessionState::Connected(Transfer::Write { len: packet.len() as usize }).command()
            == (Command::WritePacket { len: packet.len() as usize }),
        buffer_after_read(buffer, packet).take(packet.len() as int) == packet,
        SessionState::Connected(Transfer::Write { len: packet.len() as usize }).on(
            Event::PacketWritten,
        ) == SessionState::Connected(Transfer::Read),
{
    assert(buffer_after_read(buffer, packet).take(packet.len() as int) =~= packet);
}

/// A disconnect is no end: from whatever transfer a connected session waits
/// for, a disabled endpoint leads back to waiting for a connection, and the
/// next time the host opens the port the session is connected and reads.
pub proof fn lemma_reconnect(transfer: Transfer)
    ensures
        SessionState::Connected(transfer).on(Event::Failed(TransportError::Disabled))
            == SessionState::WaitingForConnection,
        SessionState::WaitingForConnection.command() == Command::WaitConnection,
        SessionState::WaitingForConnection.on(Event::Opened) == SessionState::Connected(
            Transfer::Read,
        ),
{
}

/// A fault is the end and never a disconnect: a buffer overflow, and a read
/// that reports more bytes than the buffer holds, lead a connected session to
/// the fault state and not back to waiting. In the fault state the one
/// command is to stop the firmware, and no event leads on.
pub proof fn lemma_fault_is_final(transfer: Transfer, len: usize, event: Event)
    requires
        len > MAX_PACKET_SIZE,
    ensures
        SessionState::Connected(transfer).on(Event::Failed(TransportError::BufferOverflow))
            == SessionState::Faulted,
        SessionState::Connected(Transfer::Read).on(Event::PacketRead { len })
            == SessionState::Faulted,
        SessionState::Faulted.command() == Command::Abort,
        SessionState::Faulted.on(event) == SessionState::Faulted,
{
}

/// The echo session. Its view is its state.
#[derive(Debug)]
pub struct Session {
    state: SessionState,
}

impl View for Session {
    type V = SessionState;

    closed spec fn view(&self) -> SessionState {
        self.state
    }
}

impl Session {
    #[verifier::type_invariant]
    spec fn inv(self) -> bool {
        self.state.wf()
    }

    /// A session that waits for the host to open the port.
    pub fn new() -> (session: Session)
        ensures
            session@ == SessionState::WaitingForConnection,
    {
        Session { state: SessionState::WaitingForConnection }
    }

    /// Where the session stands.
    pub fn state(&self) -> (state: SessionState)
        ensures
            state == self@,
            state.wf(),
    {
        proof {
            use_type_invariant(self);
        }
        self.state
    }

    /// Whether the port is open.
    pub fn is_connected(&self) -> (connected: bool)
        ensures
            connected == self@.is_connected(),
    {
        match self.state {
            SessionState::Connected(_) => true,
            _ => false,
        }
    }

    /// What the session waits for.
    pub fn command(&self) -> (command: Command)
        ensures
            command == self@.command(),
            (command matches Command::WritePacket { len } ==> len <= MAX_PACKET_SIZE),
    {
        proof {
            use_type_invariant(self);
        }
        match self.state {
            SessionState::WaitingForConnection => Command::WaitConnection,
            SessionState::Connected(Transfer::Read) => Command::ReadPacket,
            SessionState::Connected(Transfer::Write { len }) => Command::WritePacket { len },
            SessionState::Faulted => Command::Abort,
        }
    }

    /// Takes what the transport has done and says what to ask of it next. A
    /// buffer overflow is no event for the session: the caller stops the
    /// firmware on it and does not come here.
    pub fn resume(&mut self, event: Event) -> (command: Command)
        requires
            event != Event::Failed(TransportError::BufferOverflow),
        ensures
            final(self)@ == old(self)@.on(event),
            command == final(self)@.command(),
            (command matches Command::WritePacket { len } ==> len <= MAX_PACKET_SIZE),
    {
        proof {
            use_type_invariant(&*self);
        }
        let state = self.state;
        match event {
            Event::Opened => {
                if let SessionState::WaitingForConnection = state {
                    self.state = SessionState::Connected(Transfer::Read);
                }
            },
            Event::PacketRead { len } => {
                if let SessionState::Connected(Transfer::Read) = state {
                    if len <= MAX_PACKET_SIZE {
                        self.state = SessionState::Connected(Transfer::Write { len });
                    } else {
                        self.state = SessionState::Faulted;
                    }
                }
            },
            Event::PacketWritten => {
                if let SessionState::Connected(Transfer::Write { .. }) = state {
                    self.state = SessionState::Connected(Transfer::Read);
                }
            },
            Event::Failed(error) => {
                match error {
                    TransportError::Disabled => {
                        if let SessionState::Connected(_) = state {
                            let _signal = Disconnected::from(error);
                            self.state = SessionState::WaitingForConnection;
                        }
                    },
                    TransportError::BufferOverflow => {
                        assert(false);
                    },
                }
            },
        }
        self.command()
    }
}

/// The bytes to echo: the first `len` bytes of the buffer, or `None` where the
/// buffer holds fewer.
pub fn payload(buffer: &[u8], len: usize) -> (data: Option<&[u8]>)
    ensures
        data.is_some() <==> len <= buffer@.len(),
        data matches Some(bytes) ==> bytes@ == buffer@.take(len as int),
{
    if len <= buffer.len() {
        Some(slice_subrange(buffer, 0, len))
    } else {
        None
    }
}

} // verus!
