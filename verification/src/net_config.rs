//! Network settings, counters, and the grades of connection quality.

use vstd::prelude::*;

verus! {

/// Settings of the network side. All times are in milliseconds.
#[derive(Clone, Copy, Debug, PartialEq, Eq, Structural)]
pub struct NetworkConfig {
    /// Port to listen on.
    pub local_port: u16,
    /// Size asked of the operating system for the socket's buffers, in bytes.
    pub socket_buffer_size: usize,
    /// Packets the jitter buffer holds at most.
    pub receive_buffer_size: usize,
    /// Time allowed for a handshake and for each send or receive.
    pub connection_timeout: u64,
    /// Time between two heartbeats.
    pub heartbeat_interval: u64,
    /// Silence after which the peer counts as gone.
    pub heartbeat_timeout: u64,
    /// Age beyond which a packet is refused.
    pub max_packet_age: u64,
    /// Attempts to reconnect before giving up.
    pub max_retry_attempts: u32,
    /// Pause before an attempt to reconnect.
    pub retry_delay: u64,
}

/// The settings used where nothing else is asked for.
pub open spec fn default_network_config() -> NetworkConfig {
    NetworkConfig {
        local_port: 9001,
        socket_buffer_size: 65536,
        receive_buffer_size: 100,
        connection_timeout: 5000,
        heartbeat_interval: 1000,
        heartbeat_timeout: 5000,
        max_packet_age: 100,
        max_retry_attempts: 5,
        retry_delay: 2000,
    }
}

impl Default for NetworkConfig {
    fn default() -> (config: Self)
        ensures
            config == default_network_config(),
    {
        NetworkConfig {
            local_port: 9001,
            socket_buffer_size: 65536,
            receive_buffer_size: 100,
            connection_timeout: 5000,
            heartbeat_interval: 1000,
            heartbeat_timeout: 5000,
            max_packet_age: 100,
            max_retry_attempts: 5,
            retry_delay: 2000,
        }
    }
}

impl NetworkConfig {
    /// Settings for a local network: short timeouts, packets refused
    /// after 50 ms.
    pub fn lan_optimized() -> (config: Self)
        ensures
            config == (NetworkConfig {
                heartbeat_interval: 500,
                heartbeat_timeout: 2000,
                max_packet_age: 50,
                connection_timeout: 2000,
                ..default_network_config()
            }),
    {
        let base = NetworkConfig::default();
        NetworkConfig {
            heartbeat_interval: 500,
            heartbeat_timeout: 2000,
            max_packet_age: 50,
            connection_timeout: 2000,
            ..base
        }
    }

    /// Settings for a wide-area network: long timeouts, packets refused
    /// after 200 ms.
    pub fn wan_optimized() -> (config: Self)
        ensures
            config == (NetworkConfig {
                heartbeat_interval: 2000,
                heartbeat_timeout: 10000,
                max_packet_age: 200,
                connection_timeout: 10000,
                ..default_network_config()
            }),
    {
        let base = NetworkConfig::default();
        NetworkConfig {
            heartbeat_interval: 2000,
            heartbeat_timeout: 10000,
            max_packet_age: 200,
            connection_timeout: 10000,
            ..base
        }
    }

    /// Settings for trials: everything under a second, two attempts to
    /// reconnect.
    pub fn test_config() -> (config: Self)
        ensures
            config == (NetworkConfig {
                heartbeat_interval: 100,
                heartbeat_timeout: 500,
                max_packet_age: 50,
                connection_timeout: 1000,
                max_retry_attempts: 2,
                retry_delay: 100,
                ..default_network_config()
            }),
    {
        let base = NetworkConfig::default();
        NetworkConfig {
            heartbeat_interval: 100,
            heartbeat_timeout: 500,
            max_packet_age: 50,
            connection_timeout: 1000,
            max_retry_attempts: 2,
            retry_delay: 100,
            ..base
        }
    }
}

/// One more than `x`, or `x` where it is the largest there is.
pub open spec fn bumped(x: u64) -> u64 {
    if x < u64::MAX {
        (x + 1) as u64
    } else {
        x
    }
}

/// Advances a counter by one. A counter at the top stays there, so that
/// no counter ever goes down.
pub fn bump(x: u64) -> (y: u64)
    ensures
        y == bumped(x),
        y >= x,
{
    if x < u64::MAX {
        x + 1
    } else {
        x
    }
}

/// Counters of the network side.
#[derive(Clone, Copy, Debug, PartialEq, Eq, Structural)]
pub struct NetworkStats {
    pub packets_sent: u64,
    pub packets_received: u64,
    /// Packets known to be missing.
    pub packets_lost: u64,
    /// Packets refused for their checksum.
    pub packets_corrupted: u64,
    /// Packets refused for their age.
    pub packets_rejected: u64,
    pub reconnection_count: u32,
    pub connection_uptime_ms: u64,
    /// Time of the last change, in milliseconds.
    pub last_updated: u64,
}

impl NetworkStats {
    /// All counters at zero, last changed at `now`.
    pub open spec fn zeroed(now: u64) -> NetworkStats {
        NetworkStats {
            packets_sent: 0,
            packets_received: 0,
            packets_lost: 0,
            packets_corrupted: 0,
            packets_rejected: 0,
            reconnection_count: 0,
            connection_uptime_ms: 0,
            last_updated: now,
        }
    }

    /// Counters that start at zero, last changed at `now`.
    pub fn new(now: u64) -> (stats: Self)
        ensures
            stats == Self::zeroed(now),
    {
        NetworkStats {
            packets_sent: 0,
            packets_received: 0,
            packets_lost: 0,
            packets_corrupted: 0,
            packets_rejected: 0,
            reconnection_count: 0,
            connection_uptime_ms: 0,
            last_updated: now,
        }
    }

    /// Sets every counter back to zero.
    pub fn reset(&mut self, now: u64)
        ensures
            *final(self) == Self::zeroed(now),
    {
        *self = NetworkStats::new(now);
    }
}

/// Grade of a connection, best first.
#[derive(Clone, Copy, Debug, PartialEq, Eq, Structural)]
pub enum ConnectionQuality {
    Excellent,
    Good,
    Fair,
    Poor,
}

impl ConnectionQuality {
    /// The grade in words.
    pub open spec fn spec_description(self) -> Seq<char> {
        match self {
            ConnectionQuality::Excellent => "Excellente"@,
            ConnectionQuality::Good => "Bonne"@,
            ConnectionQuality::Fair => "Moyenne"@,
            ConnectionQuality::Poor => "Mauvaise"@,
        }
    }

    /// The colour a display may show the grade in.
    pub open spec fn spec_color(self) -> Seq<char> {
        match self {
            ConnectionQuality::Excellent => "green"@,
            ConnectionQuality::Good => "lightgreen"@,
            ConnectionQuality::Fair => "orange"@,
            ConnectionQuality::Poor => "red"@,
        }
    }

    /// The grade in words.
    pub fn description(&self) -> (text: &'static str)
        ensures
            text@ == self.spec_description(),
    {
        match self {
            ConnectionQuality::Excellent => "Excellente",
            ConnectionQuality::Good => "Bonne",
            ConnectionQuality::Fair => "Moyenne",
            ConnectionQuality::Poor => "Mauvaise",
        }
    }

    /// The colour a display may show the grade in.
    pub fn color(&self) -> (text: &'static str)
        ensures
            text@ == self.spec_color(),
    {
        match self {
            ConnectionQuality::Excellent => "green",
            ConnectionQuality::Good => "lightgreen",
            ConnectionQuality::Fair => "orange",
            ConnectionQuality::Poor => "red",
        }
    }
}

} // verus!
