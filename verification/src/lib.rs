//! Verified core of a peer-to-peer voice link: frames and packets, the wire
//! format and its checksum, the jitter buffer, the transport and session
//! state machines, and the bounded queues on the audio side.
//!
//! Time never comes from a clock in here. Every function that needs the
//! current time takes it as a `u64` count of milliseconds on a monotonic
//! clock of the caller's choosing.

pub mod audio;
pub mod audio_config;
pub mod capture;
pub mod codec;
pub mod error;
pub mod frame;
pub mod jitter;
pub mod net_config;
pub mod packet;
pub mod playback;
pub mod sample_frames;
pub mod session;
pub mod state;
pub mod transport;
pub mod wire;

pub use audio::{AudioError, AudioFrame, AudioFrameView, AudioStats, LoopVerdict, SampleBits};
pub use audio_config::{AudioConfig, ConfigFault};
pub use capture::{CaptureQueue, CaptureView};
pub use codec::FrameCodec;
pub use error::{NetworkError, Operation};
pub use frame::{CompressedFrame, FrameView};
pub use jitter::{JitterBuffer, JitterView};
pub use net_config::{ConnectionQuality, NetworkConfig, NetworkStats};
pub use packet::{NetworkPacket, PacketType, PacketView};
pub use playback::{PlaybackQueue, PlaybackView};
pub use sample_frames::{create_test_audio_frame, create_test_frame};
pub use session::{
    HandshakeStep, ListenAction, PacketOutcome, ReceiveStep, ReconnectPlan, UdpNetworkManager,
};
pub use state::{ConnectionState, PeerAddr};
pub use transport::{RecvOutcome, SendOutcome, SimulatedTransport, UdpTransport};
