//! The transport's side of sending and receiving: what goes on the wire,
//! what is let in from it, and the state kept around a socket. The socket
//! itself is the caller's; its outcomes come in as plain values.

use std::collections::VecDeque;
use vstd::prelude::*;
use crate::error::{NetworkError, Operation};
use crate::frame::elapsed_ms;
use crate::net_config::{NetworkConfig, NetworkStats, bump, bumped};
use crate::packet::{
    CURRENT_PROTOCOL_VERSION,
    MAX_PACKET_SIZE,
    NetworkPacket,
    PacketView,
    checksum_of,
    checksum_valid,
};
use crate::state::PeerAddr;
use crate::wire::{WIRE_OVERHEAD, decoded, deserialize, serialize, wire_bytes};

verus! {

/// How an attempt to send one datagram ended.
#[derive(Debug)]
pub enum SendOutcome {
    /// The socket took this many bytes.
    Sent { bytes_sent: usize },
    /// The socket refused.
    Failed { reason: String },
    /// The time allowed ran out.
    TimedOut,
}

/// How an attempt to receive one datagram ended.
#[derive(Debug)]
pub enum RecvOutcome {
    /// A datagram came in.
    Datagram { bytes: Vec<u8>, source: PeerAddr },
    /// The socket refused.
    Failed { reason: String },
    /// The time allowed ran out.
    TimedOut,
}

/// Reason given when the socket took only part of a datagram.
pub const INCOMPLETE_SEND: &'static str = "incomplete send";

/// The wildcard IPv4 host, in IPv4-mapped form.
pub const ANY_HOST: u128 = 0xffff_0000_0000;

/// The IPv4 loopback host, in IPv4-mapped form.
pub const LOOPBACK_HOST: u128 = 0xffff_7f00_0001;

/// `p` as it leaves at `now`: stamped, and with the checksum its contents
/// call for.
pub open spec fn sealed(p: PacketView, now: u64) -> PacketView {
    PacketView { send_timestamp: now, checksum: checksum_of(p), ..p }
}

/// The verdict on a datagram that came from `source` at `received_at`,
/// judged at `now`. In this order: bytes that are no packet, or a packet
/// of another version, are of invalid format; a checksum that does not
/// match is corruption; a packet that has waited longer than `max_age`
/// since it arrived is too old.
pub open spec fn judged(
    bytes: Seq<u8>,
    source: PeerAddr,
    received_at: u64,
    now: u64,
    max_age: u64,
) -> Result<PacketView, NetworkError> {
    match decoded(bytes, received_at) {
        None => Err(NetworkError::InvalidPacketFormat { addr: source }),
        Some(p) => if p.protocol_version != CURRENT_PROTOCOL_VERSION {
            Err(NetworkError::InvalidPacketFormat { addr: source })
        } else if !checksum_valid(p) {
            Err(NetworkError::CorruptedPacket { addr: source })
        } else if elapsed_ms(received_at, now) > max_age {
            Err(
                NetworkError::PacketTooOld {
                    sequence: p.frame.sequence_number,
                    age_ms: elapsed_ms(received_at, now),
                },
            )
        } else {
            Ok(p)
        },
    }
}

/// Whether the verdict a function returned is the one [`judged`] gives.
pub open spec fn verdict_matches(
    got: Result<NetworkPacket, NetworkError>,
    want: Result<PacketView, NetworkError>,
) -> bool {
    match (got, want) {
        (Ok(p), Ok(v)) => p@ == v,
        (Err(e), Err(f)) => e == f,
        _ => false,
    }
}

/// `timeout` in whole milliseconds as far as 32 bits hold it.
pub open spec fn clamp_ms(timeout: u64) -> u32 {
    if timeout > u32::MAX {
        u32::MAX
    } else {
        timeout as u32
    }
}

fn clamp_to_u32(timeout: u64) -> (ms: u32)
    ensures
        ms == clamp_ms(timeout),
{
    if timeout > u32::MAX as u64 {
        u32::MAX
    } else {
        timeout as u32
    }
}

/// State of a UDP transport around the caller's socket.
#[derive(Debug)]
pub struct UdpTransport {
    pub config: NetworkConfig,
    /// Whether a socket is bound.
    pub bound: bool,
    /// The address the socket is bound to, where known.
    pub local_addr: Option<PeerAddr>,
    pub active: bool,
    pub stats: NetworkStats,
}

impl UdpTransport {
    /// A transport that is not bound yet.
    pub fn new(config: NetworkConfig) -> (transport: Result<Self, NetworkError>)
        ensures
            transport is Ok,
            transport->Ok_0 == (UdpTransport {
                config,
                bound: false,
                local_addr: None,
                active: false,
                stats: NetworkStats::zeroed(0),
            }),
    {
        Ok(
            UdpTransport {
                config,
                bound: false,
                local_addr: None,
                active: false,
                stats: NetworkStats::new(0),
            },
        )
    }

    /// The first half of binding: the address to bind a socket to, or a
    /// refusal when one is bound already.
    pub fn prepare_bind(&self, local_port: u16) -> (target: Result<PeerAddr, NetworkError>)
        ensures
            self.bound ==> target == Err::<PeerAddr, NetworkError>(
                NetworkError::InvalidState { operation: Operation::Bind },
            ),
            !self.bound ==> target == Ok::<PeerAddr, NetworkError>(
                PeerAddr { host: ANY_HOST, port: local_port },
            ),
    {
        if self.bound {
            Err(NetworkError::InvalidState { operation: Operation::Bind })
        } else {
            Ok(PeerAddr { host: ANY_HOST, port: local_port })
        }
    }

    /// The second half of binding, once the socket is there: `local_addr`
    /// is the address the operating system reports for it, if it does.
    pub fn complete_bind(&mut self, local_addr: Option<PeerAddr>)
        ensures
            *final(self) == (UdpTransport { bound: true, active: true, local_addr, ..*old(self) }),
    {
        self.local_addr = local_addr;
        self.bound = true;
        self.active = true;
    }

    /// Turns a failure to open the socket into the transport's error.
    pub fn bind_failed(&self, local_port: u16, reason: String) -> (e: NetworkError)
        ensures
            e == (NetworkError::BindError { port: local_port, reason }),
    {
        NetworkError::bind_failed(local_port, reason)
    }

    /// Makes a packet ready to leave at `now`: stamps it, gives it the
    /// checksum its contents call for, and writes it out. A packet whose
    /// serialised form is longer than one datagram is refused.
    pub fn serialize_packet(&self, packet: &mut NetworkPacket, now: u64) -> (bytes: Result<
        Vec<u8>,
        NetworkError,
    >)
        ensures
            final(packet)@ == sealed(old(packet)@, now),
            WIRE_OVERHEAD + old(packet)@.frame.data.len() <= MAX_PACKET_SIZE ==> bytes is Ok
                && bytes->Ok_0@ == wire_bytes(sealed(old(packet)@, now)),
            WIRE_OVERHEAD + old(packet)@.frame.data.len() > MAX_PACKET_SIZE ==> bytes == Err::<
                Vec<u8>,
                NetworkError,
            >(
                NetworkError::PacketTooLarge {
                    size: (WIRE_OVERHEAD + old(packet)@.frame.data.len()) as usize,
                    max: MAX_PACKET_SIZE,
                },
            ),
    {
        packet.send_timestamp = now;
        let sum = packet.calculate_checksum();
        packet.checksum = sum;
        let bytes = serialize(packet);
        if bytes.len() > MAX_PACKET_SIZE {
            return Err(NetworkError::packet_too_large(bytes.len(), MAX_PACKET_SIZE));
        }
        Ok(bytes)
    }

    /// Judges a datagram: see [`judged`].
    pub fn deserialize_packet(
        &self,
        data: &[u8],
        source_addr: PeerAddr,
        received_at: u64,
        now: u64,
    ) -> (verdict: Result<NetworkPacket, NetworkError>)
        ensures
            verdict_matches(
                verdict,
                judged(data@, source_addr, received_at, now, self.config.max_packet_age),
            ),
    {
        let packet = match deserialize(data, received_at) {
            Some(p) => p,
            None => {
                return Err(NetworkError::InvalidPacketFormat { addr: source_addr });
            },
        };
        if packet.protocol_version != CURRENT_PROTOCOL_VERSION {
            return Err(NetworkError::InvalidPacketFormat { addr: source_addr });
        }
        if !packet.verify_checksum() {
            return Err(NetworkError::corrupted_packet(source_addr));
        }
        if packet.is_stale(now, self.config.max_packet_age) {
            return Err(
                NetworkError::PacketTooOld {
                    sequence: packet.compressed_frame.sequence_number,
                    age_ms: packet.age(now),
                },
            );
        }
        Ok(packet)
    }

    /// The first half of sending: the bytes to hand to the socket. Fails
    /// with `InvalidState` when no socket is bound, and as
    /// [`Self::serialize_packet`] does.
    pub fn prepare_send(&self, packet: &NetworkPacket, now: u64) -> (bytes: Result<
        Vec<u8>,
        NetworkError,
    >)
        ensures
            !self.bound ==> bytes == Err::<Vec<u8>, NetworkError>(
                NetworkError::InvalidState { operation: Operation::SendPacket },
            ),
            self.bound && WIRE_OVERHEAD + packet@.frame.data.len() <= MAX_PACKET_SIZE ==> bytes
                is Ok && bytes->Ok_0@ == wire_bytes(sealed(packet@, now)),
            self.bound && WIRE_OVERHEAD + packet@.frame.data.len() > MAX_PACKET_SIZE ==> bytes
                == Err::<Vec<u8>, NetworkError>(
                NetworkError::PacketTooLarge {
                    size: (WIRE_OVERHEAD + packet@.frame.data.len()) as usize,
                    max: MAX_PACKET_SIZE,
                },
            ),
    {
        if !self.bound {
            return Err(NetworkError::InvalidState { operation: Operation::SendPacket });
        }
        let mut packet_to_send = packet.clone();
        self.serialize_packet(&mut packet_to_send, now)
    }

    /// The second half of sending: what the attempt comes to. A datagram
    /// taken whole counts as sent; where it was taken in part, or refused,
    /// the peer is unreachable; a timeout is a connection timeout towards
    /// `target_addr`.
    pub fn complete_send(
        &mut self,
        outcome: SendOutcome,
        expected_len: usize,
        target_addr: PeerAddr,
        now: u64,
    ) -> (result: Result<(), NetworkError>)
        ensures
            final(self).config == old(self).config,
            final(self).bound == old(self).bound,
            final(self).local_addr == old(self).local_addr,
            final(self).active == old(self).active,
            match outcome {
                SendOutcome::Sent { bytes_sent } => if bytes_sent == expected_len {
                    &&& result is Ok
                    &&& final(self).stats == (NetworkStats {
                        packets_sent: bumped(old(self).stats.packets_sent),
                        last_updated: now,
                        ..old(self).stats
                    })
                } else {
                    &&& result matches Err(NetworkError::PeerUnreachable { addr, reason })
                    &&& addr == target_addr
                    &&& reason@ == INCOMPLETE_SEND@
                    &&& final(self).stats == old(self).stats
                },
                SendOutcome::Failed { reason } => {
                    &&& result == Err::<(), NetworkError>(
                        NetworkError::PeerUnreachable { addr: target_addr, reason },
                    )
                    &&& final(self).stats == old(self).stats
                },
                SendOutcome::TimedOut => {
                    &&& result == Err::<(), NetworkError>(
                        NetworkError::ConnectionTimeout {
                            addr: target_addr,
                            timeout_ms: clamp_ms(old(self).config.connection_timeout),
                        },
                    )
                    &&& final(self).stats == old(self).stats
                },
            },
    {
        match outcome {
            SendOutcome::Sent { bytes_sent } => {
                if bytes_sent != expected_len {
                    return Err(
                        NetworkError::PeerUnreachable {
                            addr: target_addr,
                            reason: INCOMPLETE_SEND.to_owned(),
                        },
                    );
                }
                self.stats.packets_sent = bump(self.stats.packets_sent);
                self.stats.last_updated = now;
                Ok(())
            },
            SendOutcome::Failed { reason } => Err(
                NetworkError::PeerUnreachable { addr: target_addr, reason },
            ),
            SendOutcome::TimedOut => Err(
                NetworkError::ConnectionTimeout {
                    addr: target_addr,
                    timeout_ms: clamp_to_u32(self.config.connection_timeout),
                },
            ),
        }
    }

    /// The first half of receiving: refused with `InvalidState` when no
    /// socket is bound.
    pub fn prepare_receive(&self) -> (ready: Result<(), NetworkError>)
        ensures
            self.bound ==> ready is Ok,
            !self.bound ==> ready == Err::<(), NetworkError>(
                NetworkError::InvalidState { operation: Operation::ReceivePacket },
            ),
    {
        if self.bound {
            Ok(())
        } else {
            Err(NetworkError::InvalidState { operation: Operation::ReceivePacket })
        }
    }

    /// The second half of receiving: what the attempt comes to. A datagram
    /// is judged as [`judged`] says; one let in counts as received, one
    /// refused for its checksum as corrupted, one refused for its age as
    /// rejected. A refusal of the socket is an I/O error, a timeout a
    /// timeout.
    pub fn complete_receive(&mut self, outcome: RecvOutcome, received_at: u64, now: u64) -> (result:
        Result<(NetworkPacket, PeerAddr), NetworkError>)
        ensures
            final(self).config == old(self).config,
            final(self).bound == old(self).bound,
            final(self).local_addr == old(self).local_addr,
            final(self).active == old(self).active,
            match outcome {
                RecvOutcome::Datagram { bytes, source } => match judged(
                    bytes@,
                    source,
                    received_at,
                    now,
                    old(self).config.max_packet_age,
                ) {
                    Ok(v) => {
                        &&& result is Ok
                        &&& result->Ok_0.0@ == v
                        &&& result->Ok_0.1 == source
                        &&& final(self).stats == (NetworkStats {
                            packets_received: bumped(old(self).stats.packets_received),
                            last_updated: now,
                            ..old(self).stats
                        })
                    },
                    Err(e) => {
                        &&& result is Err
                        &&& result->Err_0 == e
                        &&& final(self).stats == (NetworkStats {
                            packets_corrupted: if e is CorruptedPacket {
                                bumped(old(self).stats.packets_corrupted)
                            } else {
                                old(self).stats.packets_corrupted
                            },
                            packets_rejected: if e is PacketTooOld {
                                bumped(old(self).stats.packets_rejected)
                            } else {
                                old(self).stats.packets_rejected
                            },
                            ..old(self).stats
                        })
                    },
                },
                RecvOutcome::Failed { reason } => {
                    &&& result is Err
                    &&& result->Err_0 == (NetworkError::IoError { reason })
                    &&& final(self).stats == old(self).stats
                },
                RecvOutcome::TimedOut => {
                    &&& result is Err
                    &&& result->Err_0 == NetworkError::Timeout
                    &&& final(self).stats == old(self).stats
                },
            },
    {
        match outcome {
            RecvOutcome::Datagram { bytes, source } => {
                match self.deserialize_packet(bytes.as_slice(), source, received_at, now) {
                    Ok(packet) => {
                        self.stats.packets_received = bump(self.stats.packets_received);
                        self.stats.last_updated = now;
                        Ok((packet, source))
                    },
                    Err(e) => {
                        match e {
                            NetworkError::CorruptedPacket { .. } => {
                                self.stats.packets_corrupted = bump(self.stats.packets_corrupted);
                            },
                            NetworkError::PacketTooOld { .. } => {
                                self.stats.packets_rejected = bump(self.stats.packets_rejected);
                            },
                            _ => {},
                        }
                        Err(e)
                    },
                }
            },
            RecvOutcome::Failed { reason } => Err(NetworkError::IoError { reason }),
            RecvOutcome::TimedOut => Err(NetworkError::Timeout),
        }
    }

    /// Forgets the socket and sets the counters back to zero.
    pub fn shutdown(&mut self, now: u64) -> (result: Result<(), NetworkError>)
        ensures
            result is Ok,
            *final(self) == (UdpTransport {
                config: old(self).config,
                bound: false,
                local_addr: None,
                active: false,
                stats: NetworkStats::zeroed(now),
            }),
    {
        self.bound = false;
        self.local_addr = None;
        self.active = false;
        self.stats.reset(now);
        Ok(())
    }

    /// The transport's counters.
    pub fn stats(&self) -> (stats: NetworkStats)
        ensures
            stats == self.stats,
    {
        self.stats
    }

    /// The address the transport is bound to, where known.
    pub fn local_addr(&self) -> (addr: Option<PeerAddr>)
        ensures
            addr == self.local_addr,
    {
        self.local_addr
    }

    /// Whether the transport is up: marked active and bound.
    pub fn is_active(&self) -> (yes: bool)
        ensures
            yes == (self.active && self.bound),
    {
        self.active && self.bound
    }
}

/// A packet with its checksum turned into one that cannot match.
pub open spec fn corrupted(p: PacketView) -> PacketView {
    PacketView { checksum: !p.checksum, ..p }
}

/// A transport for trials that needs no network: what is sent comes back
/// to the sender, first in, first out. Whether a given packet is lost or
/// corrupted is the caller's roll of the dice.
pub struct SimulatedTransport {
    pub config: NetworkConfig,
    pub latency_ms: u32,
    pub jitter_ms: u32,
    /// What was sent and has not been received yet.
    pub receive_queue: VecDeque<(NetworkPacket, PeerAddr)>,
    pub stats: NetworkStats,
    pub active: bool,
    pub local_addr: Option<PeerAddr>,
}

impl SimulatedTransport {
    /// The packets on their way back, oldest first, each with the address
    /// it was sent to.
    pub open spec fn queued(&self) -> Seq<(PacketView, PeerAddr)> {
        self.receive_queue@.map_values(|e: (NetworkPacket, PeerAddr)| (e.0@, e.1))
    }

    /// A transport that is not active yet, with nothing under way.
    pub fn new(config: NetworkConfig) -> (transport: Result<Self, NetworkError>)
        ensures
            transport is Ok,
            transport->Ok_0.config == config,
            transport->Ok_0.latency_ms == 0,
            transport->Ok_0.jitter_ms == 0,
            transport->Ok_0.queued() == Seq::<(PacketView, PeerAddr)>::empty(),
            transport->Ok_0.stats == NetworkStats::zeroed(0),
            !transport->Ok_0.active,
            transport->Ok_0.local_addr is None,
    {
        let transport = SimulatedTransport {
            config,
            latency_ms: 0,
            jitter_ms: 0,
            receive_queue: VecDeque::new(),
            stats: NetworkStats::new(0),
            active: false,
            local_addr: None,
        };
        assert(transport.queued() =~= Seq::<(PacketView, PeerAddr)>::empty());
        Ok(transport)
    }

    /// Sets the delay the transport stands for and its variation.
    pub fn set_simulation_params(&mut self, latency_ms: u32, jitter_ms: u32)
        ensures
            final(self).latency_ms == latency_ms,
            final(self).jitter_ms == jitter_ms,
            final(self).config == old(self).config,
            final(self).queued() == old(self).queued(),
            final(self).stats == old(self).stats,
            final(self).active == old(self).active,
            final(self).local_addr == old(self).local_addr,
    {
        self.latency_ms = latency_ms;
        self.jitter_ms = jitter_ms;
    }

    /// Binds to the loopback host. Always succeeds.
    pub fn bind(&mut self, local_port: u16) -> (result: Result<(), NetworkError>)
        ensures
            result is Ok,
            final(self).active,
            final(self).local_addr == Some(PeerAddr { host: LOOPBACK_HOST, port: local_port }),
            final(self).config == old(self).config,
            final(self).queued() == old(self).queued(),
            final(self).stats == old(self).stats,
    {
        self.local_addr = Some(PeerAddr { host: LOOPBACK_HOST, port: local_port });
        self.active = true;
        Ok(())
    }

    /// Sends a packet to oneself. A packet rolled `lost` is counted as
    /// lost and goes nowhere; any other is queued and counted as sent,
    /// with its checksum spoilt where it was rolled `corrupt`.
    pub fn send_packet(
        &mut self,
        packet: &NetworkPacket,
        target_addr: PeerAddr,
        corrupt: bool,
        lost: bool,
    ) -> (result: Result<(), NetworkError>)
        ensures
            final(self).config == old(self).config,
            final(self).active == old(self).active,
            final(self).local_addr == old(self).local_addr,
            !old(self).active ==> result == Err::<(), NetworkError>(
                NetworkError::InvalidState { operation: Operation::SendPacket },
            ) && final(self).queued() == old(self).queued() && final(self).stats == old(self).stats,
            old(self).active ==> result is Ok,
            old(self).active && lost ==> final(self).queued() == old(self).queued() && final(self).stats == (NetworkStats {
                packets_lost: bumped(old(self).stats.packets_lost),
                ..old(self).stats
            }),
            old(self).active && !lost ==> final(self).queued() == old(self).queued().push(
                (
                    if corrupt {
                        corrupted(packet@)
                    } else {
                        packet@
                    },
                    target_addr,
                ),
            ) && final(self).stats == (NetworkStats {
                packets_sent: bumped(old(self).stats.packets_sent),
                ..old(self).stats
            }),
    {
        if !self.active {
            return Err(NetworkError::InvalidState { operation: Operation::SendPacket });
        }
        let mut packet_copy = packet.clone();
        if corrupt {
            packet_copy.checksum = !packet_copy.checksum;
        }
        if lost {
            self.stats.packets_lost = bump(self.stats.packets_lost);
            return Ok(());
        }
        let ghost entry = (packet_copy@, target_addr);
        self.receive_queue.push_back((packet_copy, target_addr));
        assert(self.queued() =~= old(self).queued().push(entry));
        self.stats.packets_sent = bump(self.stats.packets_sent);
        Ok(())
    }

    /// Takes the oldest packet under way. With none under way the result
    /// is a timeout; an inactive transport refuses.
    pub fn receive_packet(&mut self) -> (result: Result<(NetworkPacket, PeerAddr), NetworkError>)
        ensures
            final(self).config == old(self).config,
            final(self).active == old(self).active,
            final(self).local_addr == old(self).local_addr,
            !old(self).active ==> result is Err && result->Err_0 == (NetworkError::InvalidState {
                operation: Operation::ReceivePacket,
            }) && final(self).queued() == old(self).queued() && final(self).stats == old(self).stats,
            old(self).active && old(self).queued().len() == 0 ==> result is Err && result->Err_0
                == NetworkError::Timeout && final(self).queued() == old(self).queued() && final(self).stats == old(self).stats,
            old(self).active && old(self).queued().len() > 0 ==> result is Ok && (
            result->Ok_0.0@,
            result->Ok_0.1,
        ) == old(self).queued()[0] && final(self).queued() == old(self).queued().drop_first()
                && final(self).stats == (NetworkStats {
                packets_received: bumped(old(self).stats.packets_received),
                ..old(self).stats
            }),
    {
        if !self.active {
            return Err(NetworkError::InvalidState { operation: Operation::ReceivePacket });
        }
        match self.receive_queue.pop_front() {
            Some((packet, addr)) => {
                assert(self.queued() =~= old(self).queued().drop_first());
                self.stats.packets_received = bump(self.stats.packets_received);
                Ok((packet, addr))
            },
            None => Err(NetworkError::Timeout),
        }
    }

    /// Stops the transport, drops what is under way and sets the counters
    /// back to zero.
    pub fn shutdown(&mut self, now: u64) -> (result: Result<(), NetworkError>)
        ensures
            result is Ok,
            !final(self).active,
            final(self).queued() == Seq::<(PacketView, PeerAddr)>::empty(),
            final(self).stats == NetworkStats::zeroed(now),
            final(self).config == old(self).config,
            final(self).local_addr == old(self).local_addr,
    {
        self.active = false;
        self.receive_queue.clear();
        assert(self.queued() =~= Seq::<(PacketView, PeerAddr)>::empty());
        self.stats.reset(now);
        Ok(())
    }

    /// The transport's counters.
    pub fn stats(&self) -> (stats: NetworkStats)
        ensures
            stats == self.stats,
    {
        self.stats
    }

    /// The address the transport is bound to, where known.
    pub fn local_addr(&self) -> (addr: Option<PeerAddr>)
        ensures
            addr == self.local_addr,
    {
        self.local_addr
    }

    /// Whether the transport is up.
    pub fn is_active(&self) -> (yes: bool)
        ensures
            yes == self.active,
    {
        self.active
    }

    /// Number of packets under way.
    pub fn pending(&self) -> (n: usize)
        ensures
            n == self.queued().len(),
    {
        self.receive_queue.len()
    }
}

/// A packet whose checksum was spoilt never passes for intact.
pub proof fn law_corruption_shows(p: PacketView)
    requires
        checksum_valid(p),
    ensures
        !checksum_valid(corrupted(p)),
{
    let c = p.checksum;
    assert(!c != c) by (bit_vector);
}

} // verus!
