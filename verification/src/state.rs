//! Peer addresses and the connection state of a session.

use vstd::prelude::*;

verus! {

/// Address of a peer: an IP host and a UDP port. An IPv4 host is held in
/// its IPv4-mapped IPv6 form, so that one integer names any host.
#[derive(Clone, Copy, Debug, PartialEq, Eq, Structural)]
pub struct PeerAddr {
    pub host: u128,
    pub port: u16,
}

/// Where a session stands. Only `Connected` lets audio through.
#[derive(Debug)]
pub enum ConnectionState {
    /// No session. The state before the first and after the last.
    Disconnected,
    /// A handshake is under way.
    Connecting { target_addr: PeerAddr, started_at: u64, attempt_count: u32 },
    /// A session is up.
    Connected { peer_addr: PeerAddr, session_id: u32, connected_at: u64, last_heartbeat: u64 },
    /// The last attempt failed.
    Error { last_error: String, failed_at: u64, can_retry: bool },
}

impl Clone for ConnectionState {
    fn clone(&self) -> (out: Self)
        ensures
            out == *self,
    {
        match self {
            ConnectionState::Disconnected => ConnectionState::Disconnected,
            ConnectionState::Connecting { target_addr, started_at, attempt_count } => {
                ConnectionState::Connecting {
                    target_addr: *target_addr,
                    started_at: *started_at,
                    attempt_count: *attempt_count,
                }
            },
            ConnectionState::Connected { peer_addr, session_id, connected_at, last_heartbeat } => {
                ConnectionState::Connected {
                    peer_addr: *peer_addr,
                    session_id: *session_id,
                    connected_at: *connected_at,
                    last_heartbeat: *last_heartbeat,
                }
            },
            ConnectionState::Error { last_error, failed_at, can_retry } => {
                ConnectionState::Error {
                    last_error: last_error.clone(),
                    failed_at: *failed_at,
                    can_retry: *can_retry,
                }
            },
        }
    }
}

impl ConnectionState {
    /// The peer of a session that is up or being set up.
    pub open spec fn spec_peer_addr(&self) -> Option<PeerAddr> {
        match self {
            ConnectionState::Connected { peer_addr, .. } => Some(*peer_addr),
            ConnectionState::Connecting { target_addr, .. } => Some(*target_addr),
            _ => None,
        }
    }

    /// The session identifier of a session that is up.
    pub open spec fn spec_session_id(&self) -> Option<u32> {
        match self {
            ConnectionState::Connected { session_id, .. } => Some(*session_id),
            _ => None,
        }
    }

    /// The state after the peer showed at `now` that it is alive: in a
    /// session the time of the last heartbeat is `now`; outside one
    /// nothing changes.
    pub open spec fn refreshed(self, now: u64) -> ConnectionState {
        match self {
            ConnectionState::Connected { peer_addr, session_id, connected_at, .. } => {
                ConnectionState::Connected {
                    peer_addr,
                    session_id,
                    connected_at,
                    last_heartbeat: now,
                }
            },
            other => other,
        }
    }

    /// Whether a session is up.
    pub fn is_connected(&self) -> (yes: bool)
        ensures
            yes == (*self is Connected),
    {
        match self {
            ConnectionState::Connected { .. } => true,
            _ => false,
        }
    }

    /// Whether a handshake is under way.
    pub fn is_connecting(&self) -> (yes: bool)
        ensures
            yes == (*self is Connecting),
    {
        match self {
            ConnectionState::Connecting { .. } => true,
            _ => false,
        }
    }

    /// The peer of a session that is up or being set up.
    #[verifier::when_used_as_spec(spec_peer_addr)]
    pub fn peer_addr(&self) -> (addr: Option<PeerAddr>)
        ensures
            addr == self.spec_peer_addr(),
    {
        match self {
            ConnectionState::Connected { peer_addr, .. } => Some(*peer_addr),
            ConnectionState::Connecting { target_addr, .. } => Some(*target_addr),
            _ => None,
        }
    }

    /// The session identifier of a session that is up.
    #[verifier::when_used_as_spec(spec_session_id)]
    pub fn session_id(&self) -> (id: Option<u32>)
        ensures
            id == self.spec_session_id(),
    {
        match self {
            ConnectionState::Connected { session_id, .. } => Some(*session_id),
            _ => None,
        }
    }
}

} // verus!
