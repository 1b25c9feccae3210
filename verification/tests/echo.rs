use firmware_core::echo::{
    payload, Command, Disconnected, Event, Session, SessionState, Transfer, TransportError,
    MAX_PACKET_SIZE,
};

fn connected() -> Session {
    let mut session = Session::new();
    assert_eq!(session.resume(Event::Opened), Command::ReadPacket);
    session
}

fn echo_once(session: &mut Session, buffer: &mut [u8; 64], packet: &[u8]) -> Vec<u8> {
    buffer[..packet.len()].copy_from_slice(packet);
    let command = session.resume(Event::PacketRead { len: packet.len() });
    assert_eq!(command, Command::WritePacket { len: packet.len() });
    let len = match command {
        Command::WritePacket { len } => len,
        _ => unreachable!(),
    };
    let sent = payload(&buffer[..], len).unwrap().to_vec();
    assert_eq!(session.resume(Event::PacketWritten), Command::ReadPacket);
    sent
}

#[test]
fn packet_size_is_64() {
    assert_eq!(MAX_PACKET_SIZE, 64);
}

#[test]
fn session_starts_waiting_for_connection() {
    let session = Session::new();
    assert_eq!(session.state(), SessionState::WaitingForConnection);
    assert_eq!(session.command(), Command::WaitConnection);
    assert!(!session.is_connected());
}

#[test]
fn opening_the_port_connects() {
    let session = connected();
    assert_eq!(session.state(), SessionState::Connected(Transfer::Read));
    assert!(session.is_connected());
    assert_eq!(session.command(), Command::ReadPacket);
}

#[test]
fn echo_returns_the_packet_byte_for_byte() {
    let mut session = connected();
    let mut buffer = [0u8; 64];
    let packet = b"hello, host";
    assert_eq!(echo_once(&mut session, &mut buffer, packet), packet.to_vec());
}

#[test]
fn echo_of_a_short_packet_after_a_long_one_holds_no_stale_bytes() {
    let mut session = connected();
    let mut buffer = [0u8; 64];
    let long: Vec<u8> = (0..64u8).collect();
    assert_eq!(echo_once(&mut session, &mut buffer, &long), long);
    let short = [0xAAu8, 0xBB, 0xCC];
    assert_eq!(echo_once(&mut session, &mut buffer, &short), short.to_vec());
}

#[test]
fn echo_of_the_empty_and_of_the_largest_packet() {
    let mut session = connected();
    let mut buffer = [0x55u8; 64];
    assert_eq!(echo_once(&mut session, &mut buffer, &[]), Vec::<u8>::new());
    let full = [0x11u8; 64];
    assert_eq!(echo_once(&mut session, &mut buffer, &full), full.to_vec());
}

#[test]
fn write_is_pending_until_it_is_done() {
    let mut session = connected();
    session.resume(Event::PacketRead { len: 7 });
    assert_eq!(
        session.state(),
        SessionState::Connected(Transfer::Write { len: 7 })
    );
    assert_eq!(session.command(), Command::WritePacket { len: 7 });
    assert!(session.is_connected());
}

#[test]
fn disconnect_leads_back_to_waiting_and_a_new_connection_is_accepted() {
    let mut session = connected();
    let command = session.resume(Event::Failed(TransportError::Disabled));
    assert_eq!(command, Command::WaitConnection);
    assert_eq!(session.state(), SessionState::WaitingForConnection);
    assert!(!session.is_connected());
    assert_eq!(session.resume(Event::Opened), Command::ReadPacket);
    assert!(session.is_connected());
    let mut buffer = [0u8; 64];
    assert_eq!(echo_once(&mut session, &mut buffer, b"again"), b"again".to_vec());
}

#[test]
fn disconnect_while_the_echo_is_written() {
    let mut session = connected();
    session.resume(Event::PacketRead { len: 3 });
    assert_eq!(
        session.resume(Event::Failed(TransportError::Disabled)),
        Command::WaitConnection
    );
    assert_eq!(session.state(), SessionState::WaitingForConnection);
}

#[test]
fn a_packet_longer_than_the_buffer_is_a_fault() {
    let mut session = connected();
    assert_eq!(
        session.resume(Event::PacketRead { len: 64 }),
        Command::WritePacket { len: 64 }
    );
    let mut session = connected();
    assert_eq!(session.resume(Event::PacketRead { len: 65 }), Command::Abort);
    assert_eq!(session.state(), SessionState::Faulted);
    assert_eq!(session.command(), Command::Abort);
    assert!(!session.is_connected());
}

#[test]
fn nothing_leads_out_of_a_fault() {
    let mut session = connected();
    session.resume(Event::PacketRead { len: usize::MAX });
    for event in [
        Event::Opened,
        Event::PacketRead { len: 1 },
        Event::PacketWritten,
        Event::Failed(TransportError::Disabled),
    ] {
        assert_eq!(session.resume(event), Command::Abort);
        assert_eq!(session.state(), SessionState::Faulted);
    }
}

#[test]
fn events_that_answer_nothing_are_ignored() {
    let mut session = Session::new();
    for event in [
        Event::PacketRead { len: 1 },
        Event::PacketWritten,
        Event::Failed(TransportError::Disabled),
    ] {
        assert_eq!(session.resume(event), Command::WaitConnection);
        assert_eq!(session.state(), SessionState::WaitingForConnection);
    }
    let mut session = connected();
    assert_eq!(session.resume(Event::Opened), Command::ReadPacket);
    assert_eq!(session.resume(Event::PacketWritten), Command::ReadPacket);
    session.resume(Event::PacketRead { len: 2 });
    assert_eq!(
        session.resume(Event::PacketRead { len: 9 }),
        Command::WritePacket { len: 2 }
    );
    assert_eq!(
        session.resume(Event::Opened),
        Command::WritePacket { len: 2 }
    );
}

#[test]
fn only_a_disabled_endpoint_is_a_disconnect() {
    assert_eq!(Disconnected::from(TransportError::Disabled), Disconnected);
    assert_ne!(TransportError::BufferOverflow, TransportError::Disabled);
}

#[test]
fn payload_is_the_front_of_the_buffer() {
    let buffer = [1u8, 2, 3, 4, 5];
    assert_eq!(payload(&buffer, 0), Some(&buffer[..0]));
    assert_eq!(payload(&buffer, 3), Some(&[1u8, 2, 3][..]));
    assert_eq!(payload(&buffer, 5), Some(&buffer[..]));
    assert_eq!(payload(&buffer, 6), None);
}
