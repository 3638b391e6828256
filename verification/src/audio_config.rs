//! Audio settings and what can be computed from them.

use vstd::prelude::*;

verus! {

/// Settings of the audio side.
#[derive(Clone, Copy, Debug, PartialEq, Eq, Structural)]
pub struct AudioConfig {
    /// Samples per second and channel.
    pub sample_rate: u32,
    /// 1 for mono, 2 for stereo.
    pub channels: u16,
    /// Length of one frame in milliseconds.
    pub frame_duration_ms: u16,
    /// Target bit rate of the codec, in bits per second.
    pub opus_bitrate: u32,
    /// Effort of the encoder, 0 to 10.
    pub opus_complexity: u32,
    /// Frames the playback queue holds at most.
    pub receive_buffer_size: usize,
}

/// The first setting found out of range, with its value.
#[derive(Clone, Copy, Debug, PartialEq, Eq, Structural)]
#[allow(inconsistent_fields)]
pub enum ConfigFault {
    SampleRate { value: u32 },
    Channels { value: u16 },
    FrameDuration { value: u16 },
    Bitrate { value: u32 },
    Complexity { value: u32 },
}

/// The settings used where nothing else is asked for.
pub open spec fn default_audio_config() -> AudioConfig {
    AudioConfig {
        sample_rate: 48000,
        channels: 1,
        frame_duration_ms: 20,
        opus_bitrate: 32000,
        opus_complexity: 5,
        receive_buffer_size: 3,
    }
}

impl Default for AudioConfig {
    fn default() -> (config: Self)
        ensures
            config == default_audio_config(),
    {
        AudioConfig {
            sample_rate: 48000,
            channels: 1,
            frame_duration_ms: 20,
            opus_bitrate: 32000,
            opus_complexity: 5,
            receive_buffer_size: 3,
        }
    }
}

impl AudioConfig {
    /// Samples of one channel in one frame: the sample rate times the
    /// frame's length in seconds, rounded down.
    pub open spec fn spec_samples_per_frame(&self) -> int {
        self.sample_rate as int * self.frame_duration_ms as int / 1000
    }

    /// Samples of all channels in one frame.
    pub open spec fn spec_frame_len(&self) -> int {
        self.spec_samples_per_frame() * self.channels as int
    }

    /// The first setting out of range, in the order sample rate,
    /// channels, frame length, bit rate, complexity.
    pub open spec fn fault(&self) -> Option<ConfigFault> {
        if self.sample_rate < 8000 || self.sample_rate > 48000 {
            Some(ConfigFault::SampleRate { value: self.sample_rate })
        } else if self.channels == 0 || self.channels > 2 {
            Some(ConfigFault::Channels { value: self.channels })
        } else if self.frame_duration_ms < 10 || self.frame_duration_ms > 60 {
            Some(ConfigFault::FrameDuration { value: self.frame_duration_ms })
        } else if self.opus_bitrate < 6000 || self.opus_bitrate > 128000 {
            Some(ConfigFault::Bitrate { value: self.opus_bitrate })
        } else if self.opus_complexity > 10 {
            Some(ConfigFault::Complexity { value: self.opus_complexity })
        } else {
            None
        }
    }

    /// Samples of one channel in one frame.
    pub fn samples_per_frame(&self) -> (n: usize)
        requires
            self.spec_samples_per_frame() <= usize::MAX,
        ensures
            n == self.spec_samples_per_frame(),
    {
        let rate: u64 = self.sample_rate as u64;
        let duration: u64 = self.frame_duration_ms as u64;
        assert(rate * duration <= 0xffff_ffff * 0xffff) by (nonlinear_arith)
            requires
                rate <= 0xffff_ffff,
                duration <= 0xffff,
        ;
        let product: u64 = rate * duration;
        (product / 1000) as usize
    }

    /// Samples of all channels in one frame.
    pub fn frame_len(&self) -> (n: usize)
        requires
            self.spec_frame_len() <= usize::MAX,
        ensures
            n == self.spec_frame_len(),
    {
        let rate: u64 = self.sample_rate as u64;
        let duration: u64 = self.frame_duration_ms as u64;
        assert(rate * duration <= 0xffff_ffff * 0xffff) by (nonlinear_arith)
            requires
                rate <= 0xffff_ffff,
                duration <= 0xffff,
        ;
        let product: u64 = rate * duration;
        let per_channel: u64 = product / 1000;
        assert(per_channel * (self.channels as u64) <= usize::MAX) by (nonlinear_arith)
            requires
                per_channel == self.spec_samples_per_frame(),
                self.spec_samples_per_frame() * (self.channels as int) <= usize::MAX,
        ;
        (per_channel * (self.channels as u64)) as usize
    }

    /// Bytes of one raw frame, at four bytes a sample.
    pub fn frame_size_bytes(&self) -> (n: usize)
        requires
            self.spec_frame_len() * 4 <= usize::MAX,
        ensures
            n == self.spec_frame_len() * 4,
    {
        self.frame_len() * 4
    }

    /// Upper bound on the bytes of one compressed frame.
    pub fn max_compressed_frame_size(&self) -> (n: usize)
        ensures
            n == 4000,
    {
        4000
    }

    /// Least time from capture to playback: one frame, and one more for
    /// each place in the playback queue.
    pub fn theoretical_latency_ms(&self) -> (ms: u32)
        requires
            self.frame_duration_ms as int * (1 + self.receive_buffer_size as int) <= u32::MAX,
        ensures
            ms == self.frame_duration_ms as int * (1 + self.receive_buffer_size as int),
    {
        if self.frame_duration_ms == 0 {
            return 0;
        }
        assert(1 + self.receive_buffer_size as int <= u32::MAX) by (nonlinear_arith)
            requires
                self.frame_duration_ms >= 1,
                self.frame_duration_ms as int * (1 + self.receive_buffer_size as int) <= u32::MAX,
        ;
        let frames: u64 = 1 + self.receive_buffer_size as u64;
        assert((self.frame_duration_ms as u64) * frames <= u32::MAX) by (nonlinear_arith)
            requires
                frames == 1 + self.receive_buffer_size as int,
                self.frame_duration_ms as int * (1 + self.receive_buffer_size as int) <= u32::MAX,
        ;
        ((self.frame_duration_ms as u64) * frames) as u32
    }

    /// Accepts the settings when each is in range: the sample rate from
    /// 8000 to 48000, one or two channels, frames of 10 to 60 ms, a bit
    /// rate from 6000 to 128000, a complexity of at most 10.
    pub fn validate(&self) -> (verdict: Result<(), ConfigFault>)
        ensures
            verdict is Ok <==> self.fault() is None,
            verdict is Err ==> Some(verdict->Err_0) == self.fault(),
    {
        if self.sample_rate < 8000 || self.sample_rate > 48000 {
            return Err(ConfigFault::SampleRate { value: self.sample_rate });
        }
        if self.channels == 0 || self.channels > 2 {
            return Err(ConfigFault::Channels { value: self.channels });
        }
        if self.frame_duration_ms < 10 || self.frame_duration_ms > 60 {
            return Err(ConfigFault::FrameDuration { value: self.frame_duration_ms });
        }
        if self.opus_bitrate < 6000 || self.opus_bitrate > 128000 {
            return Err(ConfigFault::Bitrate { value: self.opus_bitrate });
        }
        if self.opus_complexity > 10 {
            return Err(ConfigFault::Complexity { value: self.opus_complexity });
        }
        Ok(())
    }

    /// Settings for low latency: short frames, a short queue, less effort.
    pub fn low_latency() -> (config: Self)
        ensures
            config == (AudioConfig {
                frame_duration_ms: 10,
                receive_buffer_size: 2,
                opus_complexity: 3,
                ..default_audio_config()
            }),
    {
        let base = AudioConfig::default();
        AudioConfig { frame_duration_ms: 10, receive_buffer_size: 2, opus_complexity: 3, ..base }
    }

    /// Settings for quality: a higher bit rate, more effort, a longer
    /// queue.
    pub fn high_quality() -> (config: Self)
        ensures
            config == (AudioConfig {
                opus_bitrate: 64000,
                opus_complexity: 8,
                receive_buffer_size: 5,
                ..default_audio_config()
            }),
    {
        let base = AudioConfig::default();
        AudioConfig { opus_bitrate: 64000, opus_complexity: 8, receive_buffer_size: 5, ..base }
    }
}

/// In settings that pass validation a frame has at most 5760 samples, so
/// that every size computed from them fits the machine.
pub proof fn lemma_valid_config_is_small(config: AudioConfig)
    requires
        config.fault() is None,
    ensures
        80 <= config.spec_samples_per_frame() <= 2880,
        80 <= config.spec_frame_len() <= 5760,
{
    let product = config.sample_rate as int * config.frame_duration_ms as int;
    assert(80000 <= product <= 2880000) by (nonlinear_arith)
        requires
            product == config.sample_rate as int * config.frame_duration_ms as int,
            8000 <= config.sample_rate <= 48000,
            10 <= config.frame_duration_ms <= 60,
    ;
    assert(config.spec_samples_per_frame() * config.channels as int <= 5760) by (nonlinear_arith)
        requires
            config.spec_samples_per_frame() <= 2880,
            config.spec_samples_per_frame() >= 80,
            1 <= config.channels <= 2,
    ;
    assert(config.spec_samples_per_frame() * config.channels as int >= 80) by (nonlinear_arith)
        requires
            config.spec_samples_per_frame() >= 80,
            1 <= config.channels <= 2,
    ;
}

} // verus!
