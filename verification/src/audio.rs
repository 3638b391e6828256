//! Raw audio frames, the failures of the audio side, and its counters.
//!
//! A sample is a 32-bit float between -1 and +1. This crate only moves
//! samples about, so it carries each as the 32 bits of its IEEE 754
//! encoding: zero bits are the sample 0.0, silence.

use vstd::prelude::*;
use crate::audio_config::ConfigFault;
use crate::net_config::{bump, bumped};

verus! {

/// The bits of one sample.
pub type SampleBits = u32;

/// The bits of the silent sample.
pub const SILENCE: SampleBits = 0;

/// Mathematical value of an [`AudioFrame`].
pub struct AudioFrameView {
    pub samples: Seq<SampleBits>,
    pub timestamp: u64,
    pub sequence_number: u64,
}

/// A slice of raw audio of fixed duration.
#[derive(Debug)]
pub struct AudioFrame {
    /// The samples in order, interleaved when there are two channels.
    pub samples: Vec<SampleBits>,
    /// Time of creation, in milliseconds.
    pub timestamp: u64,
    pub sequence_number: u64,
}

impl View for AudioFrame {
    type V = AudioFrameView;

    open spec fn view(&self) -> AudioFrameView {
        AudioFrameView {
            samples: self.samples@,
            timestamp: self.timestamp,
            sequence_number: self.sequence_number,
        }
    }
}

impl Clone for AudioFrame {
    fn clone(&self) -> (out: Self)
        ensures
            out@ == self@,
    {
        let mut samples: Vec<SampleBits> = Vec::with_capacity(self.samples.len());
        let mut i: usize = 0;
        while i < self.samples.len()
            invariant
                i <= self.samples.len(),
                samples@ == self.samples@.subrange(0, i as int),
            decreases self.samples.len() - i,
        {
            samples.push(self.samples[i]);
            i += 1;
        }
        assert(self.samples@.subrange(0, self.samples.len() as int) == self.samples@);
        AudioFrame { samples, timestamp: self.timestamp, sequence_number: self.sequence_number }
    }
}

impl AudioFrame {
    /// A frame of these samples, made at `now`.
    pub fn new(samples: Vec<SampleBits>, sequence_number: u64, now: u64) -> (frame: Self)
        ensures
            frame.samples == samples,
            frame.timestamp == now,
            frame.sequence_number == sequence_number,
    {
        AudioFrame { samples, timestamp: now, sequence_number }
    }

    /// A frame of `sample_count` silent samples, made at `now`.
    pub fn silence(sample_count: usize, sequence_number: u64, now: u64) -> (frame: Self)
        ensures
            frame@ == (AudioFrameView {
                samples: Seq::new(sample_count as nat, |i: int| SILENCE),
                timestamp: now,
                sequence_number,
            }),
    {
        let mut samples: Vec<SampleBits> = Vec::with_capacity(sample_count);
        let mut i: usize = 0;
        while i < sample_count
            invariant
                i <= sample_count,
                samples@ == Seq::new(i as nat, |i: int| SILENCE),
            decreases sample_count - i,
        {
            samples.push(SILENCE);
            i += 1;
            assert(samples@ =~= Seq::new(i as nat, |i: int| SILENCE));
        }
        AudioFrame { samples, timestamp: now, sequence_number }
    }
}

/// Every failure of the audio side.
#[derive(Debug)]
#[allow(inconsistent_fields)]
pub enum AudioError {
    /// There is no device to capture from or play to.
    NoDeviceFound,
    /// The device does not take the settings.
    ConfigError { reason: String },
    /// A setting is out of range.
    InvalidConfig { fault: ConfigFault },
    /// The device's stream failed.
    StreamError { reason: String },
    /// The codec failed.
    OpusError { reason: String },
    /// A frame had another number of samples than it must have.
    FrameSizeMismatch { actual: usize, expected: usize },
    /// The playback queue was full: its oldest frame was dropped.
    BufferOverflow,
    /// There was nothing to play.
    BufferUnderrun,
    /// An operation took too long.
    Timeout,
    /// The capturing side has closed.
    DeviceDisconnected,
    /// A component could not be set up.
    InitializationError { reason: String },
}

/// Counters of the audio side.
#[derive(Clone, Copy, Debug, PartialEq, Eq, Structural)]
pub struct AudioStats {
    pub frames_captured: u64,
    pub frames_played: u64,
    pub frames_lost: u64,
    pub buffer_overflows: u64,
    pub buffer_underruns: u64,
}

/// What a loop over frames does after one frame.
#[derive(Clone, Copy, Debug, PartialEq, Eq, Structural)]
pub enum LoopVerdict {
    GoOn,
    Stop,
}

impl AudioStats {
    /// All counters at zero.
    pub open spec fn zeroed() -> AudioStats {
        AudioStats {
            frames_captured: 0,
            frames_played: 0,
            frames_lost: 0,
            buffer_overflows: 0,
            buffer_underruns: 0,
        }
    }

    /// Counters that start at zero.
    pub fn new() -> (stats: Self)
        ensures
            stats == Self::zeroed(),
    {
        AudioStats {
            frames_captured: 0,
            frames_played: 0,
            frames_lost: 0,
            buffer_overflows: 0,
            buffer_underruns: 0,
        }
    }

    /// Sets every counter back to zero.
    pub fn reset(&mut self)
        ensures
            *final(self) == Self::zeroed(),
    {
        *self = AudioStats::new();
    }

    /// Counts a frame that came from the capture.
    pub fn record_captured(&mut self)
        ensures
            *final(self) == (AudioStats {
                frames_captured: bumped(old(self).frames_captured),
                ..*old(self)
            }),
    {
        self.frames_captured = bump(self.frames_captured);
    }

    /// Counts a frame that went to the playback.
    pub fn record_played(&mut self)
        ensures
            *final(self) == (AudioStats {
                frames_played: bumped(old(self).frames_played),
                ..*old(self)
            }),
    {
        self.frames_played = bump(self.frames_played);
    }

    /// Takes the outcome of one frame's trip through a loopback run. A
    /// frame that went through lets the run go on; so does an overflow of
    /// the playback queue, which is counted. Any other failure stops the
    /// run, and the frame is dropped.
    pub fn after_frame(&mut self, outcome: &Result<(), AudioError>) -> (verdict: LoopVerdict)
        ensures
            match *outcome {
                Ok(_) => verdict == LoopVerdict::GoOn && *final(self) == *old(self),
                Err(AudioError::BufferOverflow) => verdict == LoopVerdict::GoOn && *final(self)
                    == (AudioStats {
                    buffer_overflows: bumped(old(self).buffer_overflows),
                    ..*old(self)
                }),
                Err(_) => verdict == LoopVerdict::Stop && *final(self) == *old(self),
            },
    {
        match outcome {
            Ok(_) => LoopVerdict::GoOn,
            Err(AudioError::BufferOverflow) => {
                self.buffer_overflows = bump(self.buffer_overflows);
                LoopVerdict::GoOn
            },
            Err(_) => LoopVerdict::Stop,
        }
    }
}

} // verus!
