use voc::error::Operation;
use voc::session::{EPHEMERAL_PORT_MAX, EPHEMERAL_PORT_MIN, HANDSHAKE_RETRY_PAUSE};
use voc::transport::LOOPBACK_HOST;
use voc::{
    CompressedFrame, ConnectionState, HandshakeStep, ListenAction, NetworkConfig, NetworkError,
    NetworkPacket, PacketOutcome, PacketType, PeerAddr, ReceiveStep, SimulatedTransport,
    UdpNetworkManager,
};

const PEER: PeerAddr = PeerAddr { host: 0xffff_c0a8_0164, port: 9001 };
const OTHER: PeerAddr = PeerAddr { host: 0xffff_c0a8_0165, port: 9001 };
const PEER_SESSION: u32 = 777;

fn manager() -> UdpNetworkManager {
    UdpNetworkManager::with_ids(NetworkConfig::test_config(), 11, 22)
}

fn connected() -> UdpNetworkManager {
    let mut m = manager();
    m.begin_connect(PEER, 1000);
    let hello = NetworkPacket::new_control(PacketType::Handshake, 5, PEER_SESSION, 1000);
    assert!(matches!(m.handshake_step(Ok((hello, PEER)), 1010), HandshakeStep::Established));
    m
}

fn peer_audio(sequence: u64) -> NetworkPacket {
    NetworkPacket::new_audio(CompressedFrame::new(vec![sequence as u8], 960, 0, sequence), 5, PEER_SESSION, 0)
}

#[test]
fn test_connection_state() {
    let addr = PEER;

    let connecting = ConnectionState::Connecting { target_addr: addr, started_at: 0, attempt_count: 1 };
    assert!(connecting.is_connecting());
    assert!(!connecting.is_connected());
    assert_eq!(connecting.peer_addr(), Some(addr));

    let connected = ConnectionState::Connected {
        peer_addr: addr,
        session_id: 42,
        connected_at: 0,
        last_heartbeat: 0,
    };
    assert!(connected.is_connected());
    assert!(!connected.is_connecting());
    assert_eq!(connected.session_id(), Some(42));
    assert_eq!(ConnectionState::Disconnected.peer_addr(), None);
    assert_eq!(connecting.session_id(), None);
}

#[test]
fn test_manager_creation() {
    let config = NetworkConfig::test_config();
    let manager = UdpNetworkManager::new(config).unwrap();

    assert!(!manager.connection_state().is_connected());
    assert_eq!(manager.network_stats().packets_sent, 0);
    assert!(manager.sender_id >= 1);
    assert!(manager.session_id >= 1);
}

#[test]
fn test_random_identifiers_vary() {
    let config = NetworkConfig::test_config();
    let first = UdpNetworkManager::new(config).unwrap();
    let mut differs = false;
    for _ in 0..64 {
        let next = UdpNetworkManager::new(config).unwrap();
        if next.session_id != first.session_id || next.sender_id != first.sender_id {
            differs = true;
        }
    }
    assert!(differs);
}

#[test]
fn test_local_port_range() {
    let first = UdpNetworkManager::choose_local_port();
    let mut differs = false;
    for _ in 0..64 {
        let port = UdpNetworkManager::choose_local_port();
        assert!((EPHEMERAL_PORT_MIN..=EPHEMERAL_PORT_MAX).contains(&port));
        if port != first {
            differs = true;
        }
    }
    assert!(differs);
}

#[test]
fn test_audio_needs_connection() {
    let mut m = manager();
    let frame = CompressedFrame::new(vec![1], 960, 0, 0);
    assert!(matches!(
        m.send_audio(frame.clone(), 0),
        Err(NetworkError::InvalidState { operation: Operation::SendAudio })
    ));
    assert!(matches!(
        m.begin_receive(),
        Err(NetworkError::InvalidState { operation: Operation::ReceiveAudio })
    ));
    m.begin_connect(PEER, 0);
    assert!(matches!(
        m.send_audio(frame, 0),
        Err(NetworkError::InvalidState { operation: Operation::SendAudio })
    ));
    assert!(matches!(
        m.begin_receive(),
        Err(NetworkError::InvalidState { operation: Operation::ReceiveAudio })
    ));
    assert_eq!(m.sequence_counter, 0);
}

#[test]
fn test_connect_handshake() {
    let mut m = manager();
    let handshake = m.begin_connect(PEER, 1000);
    assert_eq!(handshake.packet_type, PacketType::Handshake);
    assert_eq!((handshake.sender_id, handshake.session_id), (11, 22));
    assert!(handshake.verify_checksum());
    assert!(matches!(
        m.connection_state(),
        ConnectionState::Connecting { target_addr, started_at: 1000, attempt_count: 1 } if target_addr == PEER
    ));
    let stray = NetworkPacket::new_control(PacketType::Handshake, 9, 9, 0);
    assert!(matches!(
        m.handshake_step(Ok((stray, OTHER)), 1001),
        HandshakeStep::KeepWaiting { pause_ms: 0 }
    ));
    let beat = NetworkPacket::new_heartbeat(5, PEER_SESSION, 0);
    assert!(matches!(
        m.handshake_step(Ok((beat, PEER)), 1001),
        HandshakeStep::KeepWaiting { pause_ms: 0 }
    ));
    assert!(matches!(
        m.handshake_step(Err(NetworkError::Timeout), 1002),
        HandshakeStep::KeepWaiting { pause_ms: HANDSHAKE_RETRY_PAUSE }
    ));
    assert!(m.check_handshake_deadline(2000).is_ok());
    assert!(matches!(
        m.check_handshake_deadline(2001),
        Err(NetworkError::ConnectionTimeout { addr, timeout_ms: 1000 }) if addr == PEER
    ));
    let hello = NetworkPacket::new_control(PacketType::Handshake, 5, PEER_SESSION, 0);
    assert!(matches!(m.handshake_step(Ok((hello, PEER)), 1500), HandshakeStep::Established));
    assert!(matches!(
        m.connection_state(),
        ConnectionState::Connected { peer_addr, session_id: PEER_SESSION, connected_at: 1500, last_heartbeat: 1500 }
            if peer_addr == PEER
    ));
    assert!(m.heartbeat_running);
    assert!(matches!(
        m.check_handshake_deadline(1500),
        Err(NetworkError::InvalidState { operation: Operation::Connect })
    ));
}

#[test]
fn test_handshake_failure_passes_through() {
    let mut m = manager();
    m.begin_connect(PEER, 0);
    let step = m.handshake_step(Err(NetworkError::IoError { reason: "gone".to_string() }), 1);
    assert!(matches!(step, HandshakeStep::Failed { error: NetworkError::IoError { .. } }));
    assert!(m.connection_state().is_connecting());
    let mut idle = manager();
    let step = idle.handshake_step(Err(NetworkError::Timeout), 1);
    assert!(matches!(
        step,
        HandshakeStep::Failed { error: NetworkError::InvalidState { operation: Operation::Connect } }
    ));
}

#[test]
fn test_send_audio_numbers_frames() {
    let mut m = connected();
    for want in 1..=3u64 {
        let frame = CompressedFrame::new(vec![1, 2], 960, 5, 99);
        let (packet, target) = m.send_audio(frame, 2000).unwrap();
        assert_eq!(target, PEER);
        assert_eq!(packet.packet_type, PacketType::Audio);
        assert_eq!(packet.compressed_frame.sequence_number, want);
        assert_eq!((packet.sender_id, packet.session_id), (11, 22));
        assert_eq!(packet.send_timestamp, 2000);
        assert!(packet.verify_checksum());
        m.record_sent();
    }
    assert_eq!(m.network_stats().packets_sent, 3);
}

#[test]
fn test_receive_in_order() {
    let mut m = connected();
    assert!(matches!(m.begin_receive(), Ok(None)));
    assert!(matches!(m.receive_step(Ok((peer_audio(2), PEER)), 1100), ReceiveStep::Deliver { ref frame } if frame.sequence_number == 2));
    assert_eq!(m.network_stats().packets_lost, 1);
    assert!(matches!(m.receive_step(Ok((peer_audio(2), PEER)), 1100), ReceiveStep::Continue));
    assert!(matches!(m.receive_step(Ok((peer_audio(3), OTHER)), 1100), ReceiveStep::Continue));
    let foreign = NetworkPacket::new_audio(CompressedFrame::new(vec![1], 960, 0, 3), 5, 1, 0);
    assert!(matches!(m.receive_step(Ok((foreign, PEER)), 1100), ReceiveStep::Continue));
    let last = NetworkPacket::new_audio(CompressedFrame::new(vec![1], 960, 0, u64::MAX), 5, PEER_SESSION, 0);
    assert!(matches!(m.receive_step(Ok((last, PEER)), 1100), ReceiveStep::Continue));
    assert!(matches!(m.receive_step(Ok((peer_audio(3), PEER)), 1100), ReceiveStep::Deliver { ref frame } if frame.sequence_number == 3));
    assert_eq!(m.network_stats().packets_received, 2);
}

#[test]
fn test_receive_control_packets() {
    let mut m = connected();
    let beat = NetworkPacket::new_heartbeat(5, PEER_SESSION, 0);
    assert!(matches!(m.receive_step(Ok((beat, PEER)), 1400), ReceiveStep::Continue));
    assert!(matches!(m.connection_state(), ConnectionState::Connected { last_heartbeat: 1400, .. }));
    let hello = NetworkPacket::new_control(PacketType::Handshake, 5, 1, 0);
    match m.receive_step(Ok((hello, PEER)), 1401) {
        ReceiveStep::Reply { packet, target } => {
            assert_eq!(target, PEER);
            assert_eq!(packet.packet_type, PacketType::Handshake);
            assert_eq!((packet.sender_id, packet.session_id), (11, 22));
        }
        other => panic!("unexpected step {:?}", other),
    }
    assert!(matches!(
        m.receive_step(Err(NetworkError::IoError { reason: "x".to_string() }), 1402),
        ReceiveStep::Fail { error: NetworkError::IoError { .. } }
    ));
    assert!(m.connection_state().is_connected());
    let bye = NetworkPacket::new_control(PacketType::Disconnect, 5, PEER_SESSION, 0);
    assert!(matches!(
        m.receive_step(Ok((bye, PEER)), 1403),
        ReceiveStep::Fail { error: NetworkError::PeerDisconnected { addr } } if addr == PEER
    ));
    assert!(matches!(m.connection_state(), ConnectionState::Disconnected));
    assert!(!m.heartbeat_running);
}

#[test]
fn test_heartbeat_timeout() {
    let mut m = connected();
    assert!(!m.check_heartbeat_timeout(1010 + 500));
    assert!(m.check_heartbeat_timeout(1010 + 501));
    assert!(matches!(m.receive_step(Err(NetworkError::Timeout), 1510), ReceiveStep::Continue));
    assert!(m.connection_state().is_connected());
    assert!(matches!(
        m.receive_step(Err(NetworkError::Timeout), 1511),
        ReceiveStep::Fail { error: NetworkError::PeerDisconnected { addr } } if addr == PEER
    ));
    assert!(matches!(m.connection_state(), ConnectionState::Disconnected));
    assert!(matches!(
        m.begin_receive(),
        Err(NetworkError::InvalidState { operation: Operation::ReceiveAudio })
    ));
    let plan = m.begin_reconnect(1600).unwrap();
    assert_eq!(plan.peer, PEER);
    assert_eq!(plan.delay_ms, 100);
    assert!(plan.farewell.is_none());
    assert_eq!(m.network_stats().reconnection_count, 1);
    m.begin_connect(plan.peer, 1700);
    let hello = NetworkPacket::new_control(PacketType::Handshake, 5, PEER_SESSION + 1, 0);
    assert!(matches!(m.handshake_step(Ok((hello, PEER)), 1710), HandshakeStep::Established));
    assert_eq!(m.connection_state().session_id(), Some(PEER_SESSION + 1));
}

#[test]
fn test_heartbeat_tick() {
    let mut m = manager();
    assert!(m.heartbeat_tick(0).is_none());
    let mut m2 = connected();
    let (beat, target) = m2.heartbeat_tick(1200).unwrap();
    assert_eq!(target, PEER);
    assert_eq!(beat.packet_type, PacketType::Heartbeat);
    assert_eq!((beat.sender_id, beat.session_id), (11, 22));
    m2.stop_heartbeat();
    assert!(m2.heartbeat_tick(1200).is_none());
    m2.start_heartbeat();
    assert!(m2.heartbeat_tick(1200).is_some());
    m.update_last_heartbeat(5);
    assert!(matches!(m.connection_state(), ConnectionState::Disconnected));
}

#[test]
fn test_disconnect_and_reconnect() {
    let mut m = connected();
    let (bye, target) = m.disconnect(3000).unwrap();
    assert_eq!(target, PEER);
    assert_eq!(bye.packet_type, PacketType::Disconnect);
    assert!(bye.verify_checksum());
    assert!(matches!(m.connection_state(), ConnectionState::Disconnected));
    assert!(m.disconnect(3001).is_none());
    let mut fresh = manager();
    assert!(matches!(
        fresh.begin_reconnect(0),
        Err(NetworkError::InvalidState { operation: Operation::Reconnect })
    ));
    let mut live = connected();
    let plan = live.begin_reconnect(4000).unwrap();
    assert!(plan.farewell.is_some());
    assert_eq!(plan.peer, PEER);
    assert!(matches!(live.connection_state(), ConnectionState::Disconnected));
}

#[test]
fn test_listen_accepts_and_serves() {
    let mut m = manager();
    let beat = NetworkPacket::new_heartbeat(5, PEER_SESSION, 0);
    assert!(matches!(m.listen_step(Ok((beat, PEER)), 10), ListenAction::Ignore));
    assert!(matches!(m.listen_step(Err(NetworkError::Timeout), 10), ListenAction::Ignore));
    let hello = NetworkPacket::new_control(PacketType::Handshake, 5, PEER_SESSION, 0);
    match m.listen_step(Ok((hello, PEER)), 20) {
        ListenAction::Accept { reply, target, peer_session } => {
            assert_eq!(target, PEER);
            assert_eq!(peer_session, PEER_SESSION);
            assert_eq!(reply.packet_type, PacketType::Handshake);
            assert!(m.connection_state().is_connecting());
            assert!(!m.accept_peer(OTHER, peer_session, 21));
            assert!(m.accept_peer(target, peer_session, 21));
        }
        other => panic!("unexpected action {:?}", other),
    }
    assert_eq!(m.connection_state().session_id(), Some(PEER_SESSION));
    assert!(!m.accept_peer(PEER, 1, 22));

    assert!(matches!(m.listen_step(Ok((peer_audio(2), PEER)), 30), ListenAction::Deliver { ref packets } if packets.len() == 1));
    assert!(matches!(m.listen_step(Ok((peer_audio(2), PEER)), 30), ListenAction::Ignore));
    assert!(matches!(m.listen_step(Ok((peer_audio(9), OTHER)), 30), ListenAction::Ignore));
    let again = NetworkPacket::new_control(PacketType::Handshake, 5, PEER_SESSION, 0);
    assert!(matches!(m.listen_step(Ok((again, PEER)), 31), ListenAction::Reply { target, .. } if target == PEER));
    assert!(matches!(m.listen_step(Err(NetworkError::Timeout), 521), ListenAction::Ignore));
    assert!(matches!(m.listen_step(Err(NetworkError::Timeout), 522), ListenAction::PeerLost));
    assert!(matches!(m.connection_state(), ConnectionState::Disconnected));
    assert!(matches!(
        m.listen_step(Err(NetworkError::IoError { reason: "x".to_string() }), 600),
        ListenAction::Fail { error: NetworkError::IoError { .. } }
    ));
}

#[test]
fn test_listen_peer_leaves() {
    let mut m = connected();
    let bye = NetworkPacket::new_control(PacketType::Disconnect, 5, PEER_SESSION, 0);
    assert!(matches!(m.listen_step(Ok((bye, PEER)), 1100), ListenAction::PeerLost));
    assert!(matches!(m.connection_state(), ConnectionState::Disconnected));
}

#[test]
fn test_handle_received_packet_outcomes() {
    let mut m = connected();
    assert!(matches!(
        m.handle_received_packet(peer_audio(1), PEER, 0),
        PacketOutcome::Buffered { accepted: true }
    ));
    assert!(matches!(
        m.handle_received_packet(peer_audio(1), PEER, 0),
        PacketOutcome::Buffered { accepted: false }
    ));
    let beat = NetworkPacket::new_heartbeat(5, PEER_SESSION, 0);
    assert!(matches!(m.handle_received_packet(beat, PEER, 0), PacketOutcome::HeartbeatSeen));
    let stale = NetworkPacket::new_heartbeat(5, 1, 0);
    assert!(matches!(m.handle_received_packet(stale, PEER, 0), PacketOutcome::Discarded));
    let bye = NetworkPacket::new_control(PacketType::Disconnect, 5, PEER_SESSION, 0);
    assert!(matches!(m.handle_received_packet(bye, PEER, 0), PacketOutcome::PeerLeft));
    let packet = m.create_disconnect_packet(3);
    assert_eq!(packet.packet_type, PacketType::Disconnect);
    m.set_connection_state(ConnectionState::Error {
        last_error: "x".to_string(),
        failed_at: 1,
        can_retry: true,
    });
    assert!(!m.connection_state().is_connected());
}

#[test]
fn test_error_recoverable() {
    let timeout_error = NetworkError::ConnectionTimeout { addr: PEER, timeout_ms: 5000 };
    assert!(timeout_error.is_recoverable());

    let bind_error = NetworkError::BindError { port: 9001, reason: "denied".to_string() };
    assert!(!bind_error.is_recoverable());
}

#[test]
fn test_error_requires_reconnection() {
    let disconnected = NetworkError::PeerDisconnected { addr: PEER };
    assert!(disconnected.requires_reconnection());

    let buffer_overflow = NetworkError::BufferOverflow { capacity: 100 };
    assert!(!buffer_overflow.requires_reconnection());
}

#[test]
fn test_helper_functions() {
    let error = NetworkError::bind_failed(8080, "test".to_string());

    match error {
        NetworkError::BindError { port, reason } => {
            assert_eq!(port, 8080);
            assert!(reason.contains("test"));
        }
        _ => panic!("Wrong error type"),
    }
}

#[test]
fn test_error_types() {
    let bind_error = NetworkError::bind_failed(9001, "test".to_string());

    match bind_error {
        NetworkError::BindError { port, .. } => assert_eq!(port, 9001),
        _ => panic!("Wrong error type"),
    }

    let timeout_error = NetworkError::ConnectionTimeout { addr: PEER, timeout_ms: 5000 };

    assert!(timeout_error.is_recoverable());
    assert!(timeout_error.requires_reconnection());
}

#[test]
fn test_error_classes() {
    let recoverable = [
        NetworkError::connection_timeout(PEER, 1),
        NetworkError::BufferOverflow { capacity: 1 },
        NetworkError::BufferUnderflow,
        NetworkError::PacketTooOld { sequence: 1, age_ms: 1 },
        NetworkError::corrupted_packet(PEER),
    ];
    assert!(recoverable.iter().all(|e| e.is_recoverable()));
    let fatal = [
        NetworkError::bind_failed(1, String::new()),
        NetworkError::ConfigError { reason: String::new() },
        NetworkError::InitializationError { reason: String::new() },
        NetworkError::InvalidState { operation: Operation::Bind },
        NetworkError::Timeout,
        NetworkError::packet_too_large(1401, 1400),
        NetworkError::InvalidPacketFormat { addr: PEER },
        NetworkError::InvalidAddress { addr: String::new() },
        NetworkError::IoError { reason: String::new() },
        NetworkError::PeerDisconnected { addr: PEER },
        NetworkError::PeerUnreachable { addr: PEER, reason: String::new() },
        NetworkError::InvalidSessionId { received: 1, expected: 2 },
    ];
    assert!(fatal.iter().all(|e| !e.is_recoverable()));
    assert!(!NetworkError::PeerUnreachable { addr: PEER, reason: String::new() }.requires_reconnection());
    let reconnect = [
        NetworkError::PeerDisconnected { addr: PEER },
        NetworkError::InvalidSessionId { received: 1, expected: 2 },
        NetworkError::connection_timeout(PEER, 1),
    ];
    assert!(reconnect.iter().all(|e| e.requires_reconnection()));
    assert!(!NetworkError::Timeout.requires_reconnection());
    assert!(!NetworkError::corrupted_packet(PEER).requires_reconnection());
}

#[test]
fn test_simulated_loopback_with_loss() {
    fastrand::seed(7);
    let own = PeerAddr { host: LOOPBACK_HOST, port: 9001 };
    let config = NetworkConfig { receive_buffer_size: 600, ..NetworkConfig::test_config() };
    let mut transport = SimulatedTransport::new(config).unwrap();
    transport.set_simulation_params(20, 0);
    transport.bind(9001).unwrap();
    let mut m = UdpNetworkManager::with_ids(config, 11, 22);
    let hello = m.begin_connect(own, 0);
    transport.send_packet(&hello, own, false, false).unwrap();
    let step = m.handshake_step(transport.receive_packet(), 1);
    assert!(matches!(step, HandshakeStep::Established));
    assert_eq!(m.connection_state().session_id(), Some(22));

    for _ in 0..500 {
        let frame = CompressedFrame::new(vec![1, 2, 3], 960, 0, 0);
        let (packet, target) = m.send_audio(frame, 2).unwrap();
        let lost = fastrand::f32() < 0.10;
        transport.send_packet(&packet, target, false, lost).unwrap();
        m.record_sent();
    }
    assert_eq!(m.network_stats().packets_sent, 500);
    assert_eq!(transport.stats().packets_sent + transport.stats().packets_lost, 501);

    let mut yielded: Vec<u64> = Vec::new();
    loop {
        match m.receive_step(transport.receive_packet(), 3) {
            ReceiveStep::Deliver { frame } => yielded.push(frame.sequence_number),
            ReceiveStep::Continue => break,
            other => panic!("unexpected step {:?}", other),
        }
    }
    let received = transport.stats().packets_received - 1;
    assert!((425..=475).contains(&received), "received {}", received);
    assert_eq!(yielded.len() as u64, received);
    assert!(yielded.windows(2).all(|w| w[0] < w[1]));
    let lost = m.network_stats().packets_lost;
    assert!((25..=75).contains(&lost), "lost {}", lost);
    assert_eq!(lost + received, *yielded.last().unwrap());
}
