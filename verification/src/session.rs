//! The session manager: the connection state machine, with handshake,
//! heartbeat and disconnect, and the dispatch of what comes in.
//!
//! The manager decides; it neither sends nor waits. Each function takes
//! what happened (a packet, a timeout, a failure, the time) and says what
//! is to be done next. Whoever owns the transport runs the loop.

use vstd::prelude::*;
use crate::error::{NetworkError, Operation};
use crate::frame::{CompressedFrame, FrameView, elapsed_ms};
use crate::jitter::{JitterBuffer, JitterView, seq_of};
use crate::net_config::{NetworkConfig, NetworkStats, bump, bumped};
use crate::packet::{NetworkPacket, PacketType, PacketView, audio_view, control_view};
use crate::state::{ConnectionState, PeerAddr};
use crate::transport::clamp_ms;

verus! {

/// Lowest local port a connecting side binds to.
pub const EPHEMERAL_PORT_MIN: u16 = 10000;

/// Highest local port a connecting side binds to.
pub const EPHEMERAL_PORT_MAX: u16 = 60000;

/// Pause after a receive that timed out during a handshake, in
/// milliseconds.
pub const HANDSHAKE_RETRY_PAUSE: u64 = 100;

/// A random `u32` from `fastrand::u32`, called with the inclusive range
/// from `low` to `high`. The generator panics on an empty range, which the
/// precondition rules out, and otherwise returns a number of the range.
/// Nothing else is claimed of the number.
#[verifier::external_body]
fn random_u32_between(low: u32, high: u32) -> (r: u32)
    requires
        low <= high,
    ensures
        low <= r <= high,
{
    fastrand::u32(low..=high)
}

/// A random `u16` from `fastrand::u16`, called with the inclusive range
/// from `low` to `high`. The generator panics on an empty range, which the
/// precondition rules out, and otherwise returns a number of the range.
/// Nothing else is claimed of the number.
#[verifier::external_body]
fn random_u16_between(low: u16, high: u16) -> (r: u16)
    requires
        low <= high,
    ensures
        low <= r <= high,
{
    fastrand::u16(low..=high)
}

/// What one event means for a handshake under way.
#[derive(Debug)]
pub enum HandshakeStep {
    /// The peer answered: the session is up.
    Established,
    /// Nothing decisive: receive again, after this pause.
    KeepWaiting { pause_ms: u64 },
    /// The handshake is over, without success.
    Failed { error: NetworkError },
}

/// What a packet from the peer led to.
#[derive(Debug)]
pub enum PacketOutcome {
    /// An audio packet went to the jitter buffer, which took it or not.
    Buffered { accepted: bool },
    /// A heartbeat was noted.
    HeartbeatSeen,
    /// A handshake asks for this answer.
    Reply { packet: NetworkPacket, target: PeerAddr },
    /// The peer closed the session.
    PeerLeft,
    /// The packet was of another session, or could not be buffered.
    Discarded,
}

/// What a listening manager wants done after an event.
#[derive(Debug)]
pub enum ListenAction {
    /// Nothing: receive again.
    Ignore,
    /// A peer asks for a session: send `reply` to it, then confirm with
    /// [`UdpNetworkManager::accept_peer`].
    Accept { reply: NetworkPacket, target: PeerAddr, peer_session: u32 },
    /// Send this answer.
    Reply { packet: NetworkPacket, target: PeerAddr },
    /// Hand these packets' frames on, in this order.
    Deliver { packets: Vec<NetworkPacket> },
    /// The session ended; listening goes on.
    PeerLost,
    /// Listening cannot go on.
    Fail { error: NetworkError },
}

/// What a receiving manager wants done after an event.
#[derive(Debug)]
pub enum ReceiveStep {
    /// This is the next frame.
    Deliver { frame: CompressedFrame },
    /// Send this answer, then receive again.
    Reply { packet: NetworkPacket, target: PeerAddr },
    /// Receive again.
    Continue,
    /// Receiving failed.
    Fail { error: NetworkError },
}

/// What is to be done to reconnect.
#[derive(Debug)]
pub struct ReconnectPlan {
    /// A farewell to send first, without regard to whether it arrives.
    pub farewell: Option<(NetworkPacket, PeerAddr)>,
    /// How long to pause then, in milliseconds.
    pub delay_ms: u64,
    /// Whom to connect to after that.
    pub peer: PeerAddr,
}

/// The session manager of one endpoint.
pub struct UdpNetworkManager {
    pub config: NetworkConfig,
    pub connection_state: ConnectionState,
    /// Identifies this call. Chosen once, at random.
    pub session_id: u32,
    /// Identifies this process. Chosen once, at random.
    pub sender_id: u32,
    /// Sequence number of the last audio packet made.
    pub sequence_counter: u64,
    /// Whether heartbeats are to be sent.
    pub heartbeat_running: bool,
    /// The peer of the last session that was set up or tried.
    pub last_peer: Option<PeerAddr>,
    pub receive_buffer: JitterBuffer,
    pub stats: NetworkStats,
}

impl UdpNetworkManager {
    /// The invariant of the manager: that of its jitter buffer.
    pub open spec fn wf(&self) -> bool {
        self.receive_buffer.wf()
    }

    /// Whether a session is up.
    pub open spec fn connected(&self) -> bool {
        self.connection_state is Connected
    }

    /// The manager with its session ended: disconnected, and no heartbeat
    /// running.
    pub open spec fn ended(self) -> Self {
        UdpNetworkManager {
            connection_state: ConnectionState::Disconnected,
            heartbeat_running: false,
            ..self
        }
    }

    /// This endpoint's handshake packet as made at `now`.
    pub open spec fn handshake_view(&self, now: u64) -> PacketView {
        control_view(PacketType::Handshake, self.sender_id, self.session_id, now)
    }

    /// This endpoint's farewell packet as made at `now`.
    pub open spec fn farewell_view(&self, now: u64) -> PacketView {
        control_view(PacketType::Disconnect, self.sender_id, self.session_id, now)
    }

    /// Whether the peer has been silent for longer than the heartbeat
    /// timeout at `now`.
    pub open spec fn heartbeat_overdue(&self, now: u64) -> bool {
        match self.connection_state {
            ConnectionState::Connected { last_heartbeat, .. } => elapsed_ms(last_heartbeat, now)
                > self.config.heartbeat_timeout,
            _ => false,
        }
    }

    /// Whether `p` is to be thrown away unseen: it comes on a session that
    /// is up, is no handshake, and names another session than the one the
    /// peer opened.
    pub open spec fn foreign(&self, p: PacketView) -> bool {
        match self.connection_state {
            ConnectionState::Connected { session_id, .. } => p.packet_type
                != PacketType::Handshake && p.session_id != session_id,
            _ => false,
        }
    }

    /// Whether a packet that came from `source` is looked at: it comes
    /// from the peer of the session that is up or being set up, and is
    /// not of another session.
    pub open spec fn heeds(&self, source: PeerAddr, p: PacketView) -> bool {
        Some(source) == self.connection_state.spec_peer_addr() && !self.foreign(p)
    }

    /// A manager with the given identifiers: disconnected, nothing sent,
    /// nothing buffered.
    pub fn with_ids(config: NetworkConfig, sender_id: u32, session_id: u32) -> (manager: Self)
        ensures
            manager.wf(),
            manager.config == config,
            manager.connection_state == ConnectionState::Disconnected,
            manager.session_id == session_id,
            manager.sender_id == sender_id,
            manager.sequence_counter == 0,
            !manager.heartbeat_running,
            manager.last_peer is None,
            manager.receive_buffer@ == (JitterView {
                buffered: Seq::<PacketView>::empty(),
                max_size: config.receive_buffer_size as nat,
                expected: 1,
                lost: 0,
            }),
            manager.stats == NetworkStats::zeroed(0),
    {
        UdpNetworkManager {
            config,
            connection_state: ConnectionState::Disconnected,
            session_id,
            sender_id,
            sequence_counter: 0,
            heartbeat_running: false,
            last_peer: None,
            receive_buffer: JitterBuffer::new(config.receive_buffer_size),
            stats: NetworkStats::new(0),
        }
    }

    /// A manager with identifiers drawn at random, neither of them zero.
    pub fn new(config: NetworkConfig) -> (manager: Result<Self, NetworkError>)
        ensures
            manager is Ok,
            manager->Ok_0.wf(),
            manager->Ok_0.config == config,
            manager->Ok_0.connection_state == ConnectionState::Disconnected,
            manager->Ok_0.session_id >= 1,
            manager->Ok_0.sender_id >= 1,
            manager->Ok_0.sequence_counter == 0,
            !manager->Ok_0.heartbeat_running,
            manager->Ok_0.last_peer is None,
            manager->Ok_0.receive_buffer@ == (JitterView {
                buffered: Seq::<PacketView>::empty(),
                max_size: config.receive_buffer_size as nat,
                expected: 1,
                lost: 0,
            }),
            manager->Ok_0.stats == NetworkStats::zeroed(0),
    {
        let session_id = random_u32_between(1, u32::MAX);
        let sender_id = random_u32_between(1, u32::MAX);
        Ok(Self::with_ids(config, sender_id, session_id))
    }

    /// A local port for a connecting side, drawn at random.
    pub fn choose_local_port() -> (port: u16)
        ensures
            EPHEMERAL_PORT_MIN <= port <= EPHEMERAL_PORT_MAX,
    {
        random_u16_between(EPHEMERAL_PORT_MIN, EPHEMERAL_PORT_MAX)
    }

    /// This endpoint's handshake packet.
    pub fn create_handshake_packet(&self, now: u64) -> (packet: NetworkPacket)
        ensures
            packet@ == self.handshake_view(now),
    {
        NetworkPacket::new_control(PacketType::Handshake, self.sender_id, self.session_id, now)
    }

    /// This endpoint's farewell packet.
    pub fn create_disconnect_packet(&self, now: u64) -> (packet: NetworkPacket)
        ensures
            packet@ == self.farewell_view(now),
    {
        NetworkPacket::new_control(PacketType::Disconnect, self.sender_id, self.session_id, now)
    }

    /// Puts the manager into `new_state`.
    pub fn set_connection_state(&mut self, new_state: ConnectionState)
        ensures
            *final(self) == (UdpNetworkManager { connection_state: new_state, ..*old(self) }),
    {
        self.connection_state = new_state;
    }

    /// Heartbeats are to be sent from now on. Does nothing when they are
    /// already.
    pub fn start_heartbeat(&mut self)
        ensures
            *final(self) == (UdpNetworkManager { heartbeat_running: true, ..*old(self) }),
    {
        self.heartbeat_running = true;
    }

    /// No heartbeats are to be sent from now on.
    pub fn stop_heartbeat(&mut self)
        ensures
            *final(self) == (UdpNetworkManager { heartbeat_running: false, ..*old(self) }),
    {
        self.heartbeat_running = false;
    }

    /// Notes at `now` that the peer is alive. Outside a session nothing
    /// changes.
    pub fn update_last_heartbeat(&mut self, now: u64)
        ensures
            *final(self) == (UdpNetworkManager {
                connection_state: old(self).connection_state.refreshed(now),
                ..*old(self)
            }),
    {
        match &self.connection_state {
            ConnectionState::Connected { peer_addr, session_id, connected_at, .. } => {
                self.connection_state = ConnectionState::Connected {
                    peer_addr: *peer_addr,
                    session_id: *session_id,
                    connected_at: *connected_at,
                    last_heartbeat: now,
                };
            },
            _ => {},
        }
    }

    /// Whether a session is up and the peer has been silent for longer
    /// than the heartbeat timeout.
    pub fn check_heartbeat_timeout(&self, now: u64) -> (overdue: bool)
        ensures
            overdue == self.heartbeat_overdue(now),
    {
        match &self.connection_state {
            ConnectionState::Connected { last_heartbeat, .. } => now.saturating_sub(
                *last_heartbeat,
            ) > self.config.heartbeat_timeout,
            _ => false,
        }
    }

    /// The heartbeat to send at a tick of the heartbeat timer, and where
    /// to: only while a session is up and heartbeats are running.
    pub fn heartbeat_tick(&self, now: u64) -> (beat: Option<(NetworkPacket, PeerAddr)>)
        ensures
            beat is Some <==> self.connected() && self.heartbeat_running,
            beat is Some ==> (beat->0).0@ == control_view(
                PacketType::Heartbeat,
                self.sender_id,
                self.session_id,
                now,
            ) && Some((beat->0).1) == self.connection_state.spec_peer_addr(),
    {
        if !self.heartbeat_running {
            return None;
        }
        match &self.connection_state {
            ConnectionState::Connected { peer_addr, .. } => Some(
                (NetworkPacket::new_heartbeat(self.sender_id, self.session_id, now), *peer_addr),
            ),
            _ => None,
        }
    }

    /// Starts connecting to `peer_addr` at `now`, once a socket is bound:
    /// the state becomes `Connecting`, first attempt, and the result is
    /// the handshake to send.
    pub fn begin_connect(&mut self, peer_addr: PeerAddr, now: u64) -> (handshake: NetworkPacket)
        ensures
            *final(self) == (UdpNetworkManager {
                connection_state: ConnectionState::Connecting {
                    target_addr: peer_addr,
                    started_at: now,
                    attempt_count: 1,
                },
                last_peer: Some(peer_addr),
                ..*old(self)
            }),
            handshake@ == old(self).handshake_view(now),
    {
        self.connection_state = ConnectionState::Connecting {
            target_addr: peer_addr,
            started_at: now,
            attempt_count: 1,
        };
        self.last_peer = Some(peer_addr);
        self.create_handshake_packet(now)
    }

    /// Whether a handshake under way may go on at `now`. It may not once
    /// more than the connection timeout has passed since it began; and
    /// there is none to go on with outside `Connecting`.
    pub fn check_handshake_deadline(&self, now: u64) -> (go_on: Result<(), NetworkError>)
        ensures
            match self.connection_state {
                ConnectionState::Connecting { target_addr, started_at, .. } => if elapsed_ms(
                    started_at,
                    now,
                ) > self.config.connection_timeout {
                    go_on == Err::<(), NetworkError>(
                        NetworkError::ConnectionTimeout {
                            addr: target_addr,
                            timeout_ms: clamp_ms(self.config.connection_timeout),
                        },
                    )
                } else {
                    go_on is Ok
                },
                _ => go_on == Err::<(), NetworkError>(
                    NetworkError::InvalidState { operation: Operation::Connect },
                ),
            },
    {
        match &self.connection_state {
            ConnectionState::Connecting { target_addr, started_at, .. } => {
                if now.saturating_sub(*started_at) > self.config.connection_timeout {
                    let timeout_ms: u32 = if self.config.connection_timeout > u32::MAX as u64 {
                        u32::MAX
                    } else {
                        self.config.connection_timeout as u32
                    };
                    Err(NetworkError::connection_timeout(*target_addr, timeout_ms))
                } else {
                    Ok(())
                }
            },
            _ => Err(NetworkError::InvalidState { operation: Operation::Connect }),
        }
    }

    /// Takes what a receive gave during a handshake. A handshake packet
    /// from the peer being connected to brings the session up, under the
    /// session identifier the peer names, and starts the heartbeat.
    /// Any other packet is passed over. A receive that timed out asks for a
    /// short pause; any other failure ends the handshake.
    pub fn handshake_step(
        &mut self,
        event: Result<(NetworkPacket, PeerAddr), NetworkError>,
        now: u64,
    ) -> (step: HandshakeStep)
        ensures
            match old(self).connection_state {
                ConnectionState::Connecting { target_addr, .. } => match event {
                    Ok((packet, source)) => if source == target_addr && packet@.packet_type
                        == PacketType::Handshake {
                        &&& step is Established
                        &&& *final(self) == (UdpNetworkManager {
                            connection_state: ConnectionState::Connected {
                                peer_addr: target_addr,
                                session_id: packet@.session_id,
                                connected_at: now,
                                last_heartbeat: now,
                            },
                            heartbeat_running: true,
                            ..*old(self)
                        })
                    } else {
                        &&& step == (HandshakeStep::KeepWaiting { pause_ms: 0 })
                        &&& *final(self) == *old(self)
                    },
                    Err(error) => {
                        &&& *final(self) == *old(self)
                        &&& if error is Timeout {
                            step == (HandshakeStep::KeepWaiting { pause_ms: HANDSHAKE_RETRY_PAUSE })
                        } else {
                            step == (HandshakeStep::Failed { error })
                        }
                    },
                },
                _ => {
                    &&& *final(self) == *old(self)
                    &&& step == (HandshakeStep::Failed {
                        error: NetworkError::InvalidState { operation: Operation::Connect },
                    })
                },
            },
    {
        let target_addr = match &self.connection_state {
            ConnectionState::Connecting { target_addr, .. } => *target_addr,
            _ => {
                return HandshakeStep::Failed {
                    error: NetworkError::InvalidState { operation: Operation::Connect },
                };
            },
        };
        match event {
            Ok((packet, source)) => {
                if source == target_addr && packet.packet_type == PacketType::Handshake {
                    self.connection_state = ConnectionState::Connected {
                        peer_addr: target_addr,
                        session_id: packet.session_id,
                        connected_at: now,
                        last_heartbeat: now,
                    };
                    self.heartbeat_running = true;
                    HandshakeStep::Established
                } else {
                    HandshakeStep::KeepWaiting { pause_ms: 0 }
                }
            },
            Err(NetworkError::Timeout) => HandshakeStep::KeepWaiting {
                pause_ms: HANDSHAKE_RETRY_PAUSE,
            },
            Err(error) => HandshakeStep::Failed { error },
        }
    }

    /// Confirms, once the answer to a peer's handshake has gone out, that
    /// the session with it is up: from `Connecting` to that peer the state
    /// becomes `Connected` under the session identifier the peer named,
    /// and the heartbeat starts. In any other state nothing changes.
    pub fn accept_peer(&mut self, peer_addr: PeerAddr, peer_session: u32, now: u64) -> (accepted:
        bool)
        ensures
            accepted == (old(self).connection_state matches ConnectionState::Connecting {
                target_addr,
                ..
            } && target_addr == peer_addr),
            accepted ==> *final(self) == (UdpNetworkManager {
                connection_state: ConnectionState::Connected {
                    peer_addr,
                    session_id: peer_session,
                    connected_at: now,
                    last_heartbeat: now,
                },
                heartbeat_running: true,
                ..*old(self)
            }),
            !accepted ==> *final(self) == *old(self),
    {
        let waiting = match &self.connection_state {
            ConnectionState::Connecting { target_addr, .. } => *target_addr == peer_addr,
            _ => false,
        };
        if waiting {
            self.connection_state = ConnectionState::Connected {
                peer_addr,
                session_id: peer_session,
                connected_at: now,
                last_heartbeat: now,
            };
            self.heartbeat_running = true;
        }
        waiting
    }

    /// Everything but the jitter buffer.
    pub open spec fn rest(&self) -> (
        NetworkConfig,
        ConnectionState,
        u32,
        u32,
        u64,
        bool,
        Option<PeerAddr>,
        NetworkStats,
    ) {
        (
            self.config,
            self.connection_state,
            self.session_id,
            self.sender_id,
            self.sequence_counter,
            self.heartbeat_running,
            self.last_peer,
            self.stats,
        )
    }

    /// Deals with a packet that came from `source`, by its type. A packet
    /// of another session than the one that is up is thrown away, unless
    /// it is a handshake. Audio goes to the jitter buffer; a heartbeat
    /// renews the peer's lease; a handshake is answered; a disconnect
    /// ends the session and the heartbeat.
    pub fn handle_received_packet(&mut self, packet: NetworkPacket, source: PeerAddr, now: u64) -> (outcome:
        PacketOutcome)
        requires
            old(self).wf(),
        ensures
            final(self).wf(),
            if old(self).foreign(packet@) {
                &&& outcome is Discarded
                &&& *final(self) == *old(self)
            } else {
                match packet@.packet_type {
                    PacketType::Audio => if seq_of(packet@) == u64::MAX {
                        &&& outcome is Discarded
                        &&& *final(self) == *old(self)
                    } else {
                        &&& outcome == (PacketOutcome::Buffered {
                            accepted: old(self).receive_buffer@.accepts(packet@),
                        })
                        &&& final(self).receive_buffer@ == old(self).receive_buffer@.after_push(
                            packet@,
                        )
                        &&& final(self).rest() == old(self).rest()
                    },
                    PacketType::Heartbeat => {
                        &&& outcome is HeartbeatSeen
                        &&& *final(self) == (UdpNetworkManager {
                            connection_state: old(self).connection_state.refreshed(now),
                            ..*old(self)
                        })
                    },
                    PacketType::Handshake => {
                        &&& outcome matches PacketOutcome::Reply { packet: reply, target }
                        &&& reply@ == old(self).handshake_view(now)
                        &&& target == source
                        &&& *final(self) == *old(self)
                    },
                    PacketType::Disconnect => {
                        &&& outcome is PeerLeft
                        &&& *final(self) == old(self).ended()
                    },
                }
            },
    {
        let foreign = match &self.connection_state {
            ConnectionState::Connected { session_id, .. } => packet.packet_type
                != PacketType::Handshake && packet.session_id != *session_id,
            _ => false,
        };
        if foreign {
            return PacketOutcome::Discarded;
        }
        match packet.packet_type {
            PacketType::Audio => {
                if packet.compressed_frame.sequence_number == u64::MAX {
                    return PacketOutcome::Discarded;
                }
                let accepted = self.receive_buffer.push_packet(packet);
                PacketOutcome::Buffered { accepted }
            },
            PacketType::Heartbeat => {
                self.update_last_heartbeat(now);
                PacketOutcome::HeartbeatSeen
            },
            PacketType::Handshake => {
                let reply = self.create_handshake_packet(now);
                PacketOutcome::Reply { packet: reply, target: source }
            },
            PacketType::Disconnect => {
                self.connection_state = ConnectionState::Disconnected;
                self.heartbeat_running = false;
                PacketOutcome::PeerLeft
            },
        }
    }

    /// Makes the next audio packet from `frame`, to be sent to the peer
    /// the second part of the result names. Outside a session this fails
    /// with `InvalidState` and changes nothing. In one, the frame gets the
    /// next sequence number and goes out under this endpoint's
    /// identifiers.
    pub fn send_audio(&mut self, frame: CompressedFrame, now: u64) -> (result: Result<
        (NetworkPacket, PeerAddr),
        NetworkError,
    >)
        requires
            old(self).sequence_counter < u64::MAX,
        ensures
            !old(self).connected() ==> result is Err && result->Err_0 == (
            NetworkError::InvalidState { operation: Operation::SendAudio }) && *final(self)
                == *old(self),
            old(self).connected() ==> result is Ok && result->Ok_0.0@ == audio_view(
                FrameView { sequence_number: (old(self).sequence_counter + 1) as u64, ..frame@ },
                old(self).sender_id,
                old(self).session_id,
                now,
            ) && Some(result->Ok_0.1) == old(self).connection_state.spec_peer_addr() && *final(self) == (UdpNetworkManager {
                sequence_counter: (old(self).sequence_counter + 1) as u64,
                ..*old(self)
            }),
    {
        let peer_addr = match &self.connection_state {
            ConnectionState::Connected { peer_addr, .. } => *peer_addr,
            _ => {
                return Err(NetworkError::InvalidState { operation: Operation::SendAudio });
            },
        };
        self.sequence_counter = self.sequence_counter + 1;
        let mut frame_with_sequence = frame;
        frame_with_sequence.sequence_number = self.sequence_counter;
        let packet = NetworkPacket::new_audio(
            frame_with_sequence,
            self.sender_id,
            self.session_id,
            now,
        );
        Ok((packet, peer_addr))
    }

    /// Counts an audio packet that the transport has sent.
    pub fn record_sent(&mut self)
        ensures
            *final(self) == (UdpNetworkManager {
                stats: NetworkStats {
                    packets_sent: bumped(old(self).stats.packets_sent),
                    ..old(self).stats
                },
                ..*old(self)
            }),
    {
        self.stats.packets_sent = bump(self.stats.packets_sent);
    }

    /// The first step of receiving a frame. Outside a session this fails
    /// with `InvalidState` and changes nothing. In one, the jitter buffer
    /// is asked first: what it hands on is the frame; with nothing
    /// waiting the answer is `None`, and the transport is to be asked.
    pub fn begin_receive(&mut self) -> (result: Result<Option<CompressedFrame>, NetworkError>)
        requires
            old(self).wf(),
        ensures
            final(self).wf(),
            !old(self).connected() ==> result is Err && result->Err_0 == (
            NetworkError::InvalidState { operation: Operation::ReceiveAudio }) && *final(self)
                == *old(self),
            old(self).connected() ==> result is Ok && final(self).receive_buffer@ == old(self).receive_buffer@.after_pop() && (result->Ok_0 is Some <==> old(self).receive_buffer@.popped() is Some) && (result->Ok_0 is Some ==> result->Ok_0->0@
                == old(self).receive_buffer@.popped()->0.frame),
            old(self).connected() ==> final(self).rest() == (if result->Ok_0 is Some {
                UdpNetworkManager {
                    stats: NetworkStats {
                        packets_received: bumped(old(self).stats.packets_received),
                        ..old(self).stats
                    },
                    ..*old(self)
                }
            } else {
                *old(self)
            }).rest(),
    {
        if !self.connection_state.is_connected() {
            return Err(NetworkError::InvalidState { operation: Operation::ReceiveAudio });
        }
        match self.receive_buffer.pop_packet() {
            Some(packet) => {
                self.stats.packets_received = bump(self.stats.packets_received);
                Ok(Some(packet.compressed_frame))
            },
            None => Ok(None),
        }
    }

    /// Takes what a receive gave while a frame is waited for.
    ///
    /// A packet from anyone but the peer is passed over. One from the peer
    /// is dealt with as [`Self::handle_received_packet`] says; after
    /// audio the jitter buffer is asked for the next frame in order; a
    /// disconnect fails the receive with `PeerDisconnected`. A receive
    /// that timed out fails in the same way, and ends the session, when
    /// the peer's heartbeat is overdue, and otherwise asks to go on. Any
    /// other failure fails the receive.
    pub fn receive_step(
        &mut self,
        event: Result<(NetworkPacket, PeerAddr), NetworkError>,
        now: u64,
    ) -> (step: ReceiveStep)
        requires
            old(self).wf(),
        ensures
            final(self).wf(),
            match event {
                Ok((packet, source)) => if !old(self).heeds(source, packet@) {
                    &&& step is Continue
                    &&& *final(self) == *old(self)
                } else {
                    match packet@.packet_type {
                        PacketType::Audio => if seq_of(packet@) == u64::MAX {
                            &&& step is Continue
                            &&& *final(self) == *old(self)
                        } else {
                            let pushed = old(self).receive_buffer@.after_push(packet@);
                            &&& final(self).receive_buffer@ == pushed.after_pop()
                            &&& match pushed.popped() {
                                Some(next) => {
                                    &&& step matches ReceiveStep::Deliver { frame }
                                    &&& frame@ == next.frame
                                    &&& final(self).rest() == (UdpNetworkManager {
                                        stats: NetworkStats {
                                            packets_received: bumped(
                                                old(self).stats.packets_received,
                                            ),
                                            ..old(self).stats
                                        },
                                        ..*old(self)
                                    }).rest()
                                },
                                None => {
                                    &&& step is Continue
                                    &&& final(self).rest() == old(self).rest()
                                },
                            }
                        },
                        PacketType::Heartbeat => {
                            &&& step is Continue
                            &&& *final(self) == (UdpNetworkManager {
                                connection_state: old(self).connection_state.refreshed(now),
                                ..*old(self)
                            })
                        },
                        PacketType::Handshake => {
                            &&& step matches ReceiveStep::Reply { packet: reply, target }
                            &&& reply@ == old(self).handshake_view(now)
                            &&& target == source
                            &&& *final(self) == *old(self)
                        },
                        PacketType::Disconnect => {
                            &&& step == (ReceiveStep::Fail {
                                error: NetworkError::PeerDisconnected { addr: source },
                            })
                            &&& *final(self) == old(self).ended()
                        },
                    }
                },
                Err(error) => if error is Timeout {
                    if old(self).heartbeat_overdue(now) {
                        &&& step matches ReceiveStep::Fail { error: failure }
                        &&& failure matches NetworkError::PeerDisconnected { addr }
                        &&& Some(addr) == old(self).connection_state.spec_peer_addr()
                        &&& *final(self) == old(self).ended()
                    } else {
                        &&& step is Continue
                        &&& *final(self) == *old(self)
                    }
                } else {
                    &&& step == (ReceiveStep::Fail { error })
                    &&& *final(self) == *old(self)
                },
            },
    {
        match event {
            Ok((packet, source)) => {
                let from_peer = match self.connection_state.peer_addr() {
                    Some(peer) => peer == source,
                    None => false,
                };
                if !from_peer {
                    return ReceiveStep::Continue;
                }
                match self.handle_received_packet(packet, source, now) {
                    PacketOutcome::Buffered { .. } => {
                        match self.receive_buffer.pop_packet() {
                            Some(next) => {
                                self.stats.packets_received = bump(self.stats.packets_received);
                                ReceiveStep::Deliver { frame: next.compressed_frame }
                            },
                            None => ReceiveStep::Continue,
                        }
                    },
                    PacketOutcome::Reply { packet, target } => ReceiveStep::Reply {
                        packet,
                        target,
                    },
                    PacketOutcome::PeerLeft => ReceiveStep::Fail {
                        error: NetworkError::PeerDisconnected { addr: source },
                    },
                    PacketOutcome::HeartbeatSeen => ReceiveStep::Continue,
                    PacketOutcome::Discarded => ReceiveStep::Continue,
                }
            },
            Err(NetworkError::Timeout) => {
                if self.check_heartbeat_timeout(now) {
                    let addr = match self.connection_state.peer_addr() {
                        Some(peer) => peer,
                        None => PeerAddr { host: 0, port: 0 },
                    };
                    self.connection_state = ConnectionState::Disconnected;
                    self.heartbeat_running = false;
                    ReceiveStep::Fail { error: NetworkError::PeerDisconnected { addr } }
                } else {
                    ReceiveStep::Continue
                }
            },
            Err(error) => ReceiveStep::Fail { error },
        }
    }

    /// Takes what a receive gave while listening.
    ///
    /// With no session up, a handshake from anyone begins one: the state
    /// becomes `Connecting` to its sender, and the answer is to be sent
    /// and the peer then accepted. Anything else is passed over.
    ///
    /// With a session up, a packet from anyone but the peer is passed
    /// over, and one from the peer is dealt with as
    /// [`Self::handle_received_packet`] says; after audio, all that the
    /// jitter buffer can hand on is delivered. A receive that timed out
    /// ends the session when the peer's heartbeat is overdue.
    ///
    /// A failure other than a timeout ends the listening.
    pub fn listen_step(
        &mut self,
        event: Result<(NetworkPacket, PeerAddr), NetworkError>,
        now: u64,
    ) -> (action: ListenAction)
        requires
            old(self).wf(),
        ensures
            final(self).wf(),
            match event {
                Ok((packet, source)) => if !old(self).connected() {
                    if packet@.packet_type == PacketType::Handshake {
                        &&& action matches ListenAction::Accept { reply, target, peer_session }
                        &&& reply@ == old(self).handshake_view(now)
                        &&& target == source
                        &&& peer_session == packet@.session_id
                        &&& *final(self) == (UdpNetworkManager {
                            connection_state: ConnectionState::Connecting {
                                target_addr: source,
                                started_at: now,
                                attempt_count: 1,
                            },
                            last_peer: Some(source),
                            ..*old(self)
                        })
                    } else {
                        &&& action is Ignore
                        &&& *final(self) == *old(self)
                    }
                } else if !old(self).heeds(source, packet@) {
                    &&& action is Ignore
                    &&& *final(self) == *old(self)
                } else {
                    match packet@.packet_type {
                        PacketType::Audio => if seq_of(packet@) == u64::MAX {
                            &&& action is Ignore
                            &&& *final(self) == *old(self)
                        } else {
                            let pushed = old(self).receive_buffer@.after_push(packet@);
                            &&& final(self).rest() == old(self).rest()
                            &&& if old(self).receive_buffer@.accepts(packet@) {
                                &&& action matches ListenAction::Deliver { packets }
                                &&& packets@.map_values(|p: NetworkPacket| p@) == pushed.buffered
                                &&& final(self).receive_buffer@ == pushed.after_drain()
                            } else {
                                &&& action is Ignore
                                &&& final(self).receive_buffer@ == old(self).receive_buffer@
                            }
                        },
                        PacketType::Heartbeat => {
                            &&& action is Ignore
                            &&& *final(self) == (UdpNetworkManager {
                                connection_state: old(self).connection_state.refreshed(now),
                                ..*old(self)
                            })
                        },
                        PacketType::Handshake => {
                            &&& action matches ListenAction::Reply { packet: reply, target }
                            &&& reply@ == old(self).handshake_view(now)
                            &&& target == source
                            &&& *final(self) == *old(self)
                        },
                        PacketType::Disconnect => {
                            &&& action is PeerLost
                            &&& *final(self) == old(self).ended()
                        },
                    }
                },
                Err(error) => if error is Timeout {
                    if old(self).heartbeat_overdue(now) {
                        &&& action is PeerLost
                        &&& *final(self) == old(self).ended()
                    } else {
                        &&& action is Ignore
                        &&& *final(self) == *old(self)
                    }
                } else {
                    &&& action == (ListenAction::Fail { error })
                    &&& *final(self) == *old(self)
                },
            },
    {
        match event {
            Ok((packet, source)) => {
                if !self.connection_state.is_connected() {
                    if packet.packet_type == PacketType::Handshake {
                        self.connection_state = ConnectionState::Connecting {
                            target_addr: source,
                            started_at: now,
                            attempt_count: 1,
                        };
                        self.last_peer = Some(source);
                        let reply = self.create_handshake_packet(now);
                        return ListenAction::Accept {
                            reply,
                            target: source,
                            peer_session: packet.session_id,
                        };
                    }
                    return ListenAction::Ignore;
                }
                let from_peer = match self.connection_state.peer_addr() {
                    Some(peer) => peer == source,
                    None => false,
                };
                if !from_peer {
                    return ListenAction::Ignore;
                }
                match self.handle_received_packet(packet, source, now) {
                    PacketOutcome::Buffered { accepted } => {
                        if accepted {
                            let packets = self.receive_buffer.drain();
                            ListenAction::Deliver { packets }
                        } else {
                            ListenAction::Ignore
                        }
                    },
                    PacketOutcome::Reply { packet, target } => ListenAction::Reply {
                        packet,
                        target,
                    },
                    PacketOutcome::PeerLeft => ListenAction::PeerLost,
                    PacketOutcome::HeartbeatSeen => ListenAction::Ignore,
                    PacketOutcome::Discarded => ListenAction::Ignore,
                }
            },
            Err(NetworkError::Timeout) => {
                if self.check_heartbeat_timeout(now) {
                    self.connection_state = ConnectionState::Disconnected;
                    self.heartbeat_running = false;
                    ListenAction::PeerLost
                } else {
                    ListenAction::Ignore
                }
            },
            Err(error) => ListenAction::Fail { error },
        }
    }

    /// Ends the session, if there is one, and the heartbeat. The result
    /// is the farewell to send to the peer, without regard to whether it
    /// arrives; there is none when no session was up. Safe in any state.
    pub fn disconnect(&mut self, now: u64) -> (farewell: Option<(NetworkPacket, PeerAddr)>)
        ensures
            *final(self) == old(self).ended(),
            farewell is Some <==> old(self).connected(),
            farewell is Some ==> (farewell->0).0@ == old(self).farewell_view(now) && Some((farewell->0).1) == old(self).connection_state.spec_peer_addr(),
    {
        let farewell = match &self.connection_state {
            ConnectionState::Connected { peer_addr, .. } => Some(
                (self.create_disconnect_packet(now), *peer_addr),
            ),
            _ => None,
        };
        self.heartbeat_running = false;
        self.connection_state = ConnectionState::Disconnected;
        farewell
    }

    /// Begins a reconnect to the peer of the last session. With no such
    /// peer this fails with `InvalidState` and changes nothing. Otherwise
    /// the session is ended as by [`Self::disconnect`], the reconnect
    /// counted, and the plan says what to send, how long to pause, and
    /// whom to connect to.
    pub fn begin_reconnect(&mut self, now: u64) -> (plan: Result<ReconnectPlan, NetworkError>)
        ensures
            old(self).last_peer is None ==> plan is Err && plan->Err_0 == (
            NetworkError::InvalidState { operation: Operation::Reconnect }) && *final(self)
                == *old(self),
            old(self).last_peer is Some ==> plan is Ok && plan->Ok_0.peer == old(self).last_peer->0 && plan->Ok_0.delay_ms == old(self).config.retry_delay && (
            plan->Ok_0.farewell is Some <==> old(self).connected()) && (plan->Ok_0.farewell
                is Some ==> (plan->Ok_0.farewell->0).0@ == old(self).farewell_view(now) && Some((plan->Ok_0.farewell->0).1) == old(self).connection_state.spec_peer_addr())
                && *final(self) == (UdpNetworkManager {
                connection_state: ConnectionState::Disconnected,
                heartbeat_running: false,
                stats: NetworkStats {
                    reconnection_count: if old(self).stats.reconnection_count < u32::MAX {
                        (old(self).stats.reconnection_count + 1) as u32
                    } else {
                        u32::MAX
                    },
                    ..old(self).stats
                },
                ..*old(self)
            }),
    {
        let peer = match self.last_peer {
            Some(peer) => peer,
            None => {
                return Err(NetworkError::InvalidState { operation: Operation::Reconnect });
            },
        };
        let farewell = self.disconnect(now);
        if self.stats.reconnection_count < u32::MAX {
            self.stats.reconnection_count = self.stats.reconnection_count + 1;
        }
        Ok(ReconnectPlan { farewell, delay_ms: self.config.retry_delay, peer })
    }

    /// The present connection state.
    pub fn connection_state(&self) -> (state: ConnectionState)
        ensures
            state == self.connection_state,
    {
        self.connection_state.clone()
    }

    /// The counters, with the losses the jitter buffer has seen.
    pub fn network_stats(&self) -> (stats: NetworkStats)
        ensures
            stats == (NetworkStats { packets_lost: self.receive_buffer@.lost, ..self.stats }),
    {
        let mut stats = self.stats;
        stats.packets_lost = self.receive_buffer.lost_packets();
        stats
    }
}

} // verus!
