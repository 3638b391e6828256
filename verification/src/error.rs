//! What can go wrong on the network side, and how each failure is to be
//! treated.

use vstd::prelude::*;
use crate::state::PeerAddr;

verus! {

/// The operation that was refused for the state it was tried in.
#[derive(Clone, Copy, Debug, PartialEq, Eq, Structural)]
pub enum Operation {
    Bind,
    Connect,
    SendPacket,
    ReceivePacket,
    SendAudio,
    ReceiveAudio,
    Reconnect,
}

/// Every failure of the network side.
#[derive(Debug)]
#[allow(inconsistent_fields)]
pub enum NetworkError {
    /// The socket could not be bound.
    BindError { port: u16, reason: String },
    /// No handshake answer, or no room to send, within the time allowed.
    ConnectionTimeout { addr: PeerAddr, timeout_ms: u32 },
    /// The peer closed the session or fell silent.
    PeerDisconnected { addr: PeerAddr },
    /// A datagram to the peer could not be handed to the network.
    PeerUnreachable { addr: PeerAddr, reason: String },
    /// A packet's checksum did not match its contents.
    CorruptedPacket { addr: PeerAddr },
    /// A packet would not fit in one datagram.
    PacketTooLarge { size: usize, max: usize },
    /// A datagram was no packet, or one of another protocol version.
    InvalidPacketFormat { addr: PeerAddr },
    /// A packet belonged to another session.
    InvalidSessionId { received: u32, expected: u32 },
    /// A packet had waited too long.
    PacketTooOld { sequence: u64, age_ms: u64 },
    /// A buffer had no room.
    BufferOverflow { capacity: usize },
    /// A buffer had nothing to give.
    BufferUnderflow,
    /// Nothing arrived within the time allowed.
    Timeout,
    /// An address could not be read.
    InvalidAddress { addr: String },
    /// The operating system refused an operation.
    IoError { reason: String },
    /// A component could not be set up.
    InitializationError { reason: String },
    /// The operation does not fit the present state.
    InvalidState { operation: Operation },
    /// The configuration is not usable.
    ConfigError { reason: String },
}

impl NetworkError {
    /// The failure to bind `port`, for the reason given.
    pub fn bind_failed(port: u16, reason: String) -> (e: Self)
        ensures
            e == (NetworkError::BindError { port, reason }),
    {
        NetworkError::BindError { port, reason }
    }

    /// The timeout towards `addr` after `timeout_ms` milliseconds.
    pub fn connection_timeout(addr: PeerAddr, timeout_ms: u32) -> (e: Self)
        ensures
            e == (NetworkError::ConnectionTimeout { addr, timeout_ms }),
    {
        NetworkError::ConnectionTimeout { addr, timeout_ms }
    }

    /// The corruption of a packet from `addr`.
    pub fn corrupted_packet(addr: PeerAddr) -> (e: Self)
        ensures
            e == (NetworkError::CorruptedPacket { addr }),
    {
        NetworkError::CorruptedPacket { addr }
    }

    /// The refusal of a packet of `size` bytes where `max` are allowed.
    pub fn packet_too_large(size: usize, max: usize) -> (e: Self)
        ensures
            e == (NetworkError::PacketTooLarge { size, max }),
    {
        NetworkError::PacketTooLarge { size, max }
    }

    /// Failures after which the same operation is worth trying again.
    pub open spec fn spec_is_recoverable(&self) -> bool {
        *self is ConnectionTimeout || *self is BufferOverflow || *self is BufferUnderflow
            || *self is PacketTooOld || *self is CorruptedPacket
    }

    /// Failures that end the session, so that only a new one helps.
    pub open spec fn spec_requires_reconnection(&self) -> bool {
        *self is PeerDisconnected || *self is InvalidSessionId || *self is ConnectionTimeout
    }

    /// Whether the same operation is worth trying again.
    #[verifier::when_used_as_spec(spec_is_recoverable)]
    pub fn is_recoverable(&self) -> (yes: bool)
        ensures
            yes == self.spec_is_recoverable(),
    {
        match self {
            NetworkError::ConnectionTimeout { .. } => true,
            NetworkError::BufferOverflow { .. } => true,
            NetworkError::BufferUnderflow => true,
            NetworkError::PacketTooOld { .. } => true,
            NetworkError::CorruptedPacket { .. } => true,
            _ => false,
        }
    }

    /// Whether only a new session helps.
    #[verifier::when_used_as_spec(spec_requires_reconnection)]
    pub fn requires_reconnection(&self) -> (yes: bool)
        ensures
            yes == self.spec_requires_reconnection(),
    {
        match self {
            NetworkError::PeerDisconnected { .. } => true,
            NetworkError::InvalidSessionId { .. } => true,
            NetworkError::ConnectionTimeout { .. } => true,
            _ => false,
        }
    }
}

} // verus!
