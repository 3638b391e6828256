//! The frame of rules around a codec: what it may be given, and what is
//! made of what it gives back. The codec itself is the caller's.

use vstd::prelude::*;
use crate::audio::{AudioError, AudioFrame, AudioFrameView, SampleBits};
use crate::audio_config::{AudioConfig, lemma_valid_config_is_small};
use crate::frame::{CompressedFrame, FrameView};

verus! {

/// The rules of a codec set up for one configuration.
#[derive(Clone, Copy, Debug)]
pub struct FrameCodec {
    pub config: AudioConfig,
}

/// The compressed frame made of codec output `data` for the raw frame
/// `frame`.
pub open spec fn encoded_frame(frame: AudioFrameView, data: Seq<u8>) -> FrameView {
    FrameView {
        data,
        original_sample_count: frame.samples.len() as usize,
        timestamp: frame.timestamp,
        sequence_number: frame.sequence_number,
    }
}

/// The raw frame made at `now` of decoder output `samples` for
/// `compressed`, where the decoder gave as many samples as the frame had
/// before it was encoded; none otherwise.
pub open spec fn decoded_frame(compressed: FrameView, samples: Seq<SampleBits>, now: u64) -> Option<
    AudioFrameView,
> {
    if samples.len() == compressed.original_sample_count {
        Some(
            AudioFrameView {
                samples,
                timestamp: now,
                sequence_number: compressed.sequence_number,
            },
        )
    } else {
        None
    }
}

impl FrameCodec {
    /// Whether the configuration passed validation.
    pub open spec fn wf(&self) -> bool {
        self.config.fault() is None
    }

    /// Sets the rules up for a configuration, which must be valid.
    pub fn new(config: AudioConfig) -> (codec: Result<Self, AudioError>)
        ensures
            config.fault() is None ==> codec is Ok && codec->Ok_0.config == config
                && codec->Ok_0.wf(),
            config.fault() is Some ==> codec is Err && codec->Err_0 == (AudioError::InvalidConfig {
                fault: config.fault()->0,
            }),
    {
        match config.validate() {
            Ok(_) => Ok(FrameCodec { config }),
            Err(fault) => Err(AudioError::InvalidConfig { fault }),
        }
    }

    /// The number of samples every frame to encode must have.
    pub fn expected_samples(&self) -> (n: usize)
        requires
            self.wf(),
        ensures
            n == self.config.spec_frame_len(),
    {
        proof {
            lemma_valid_config_is_small(self.config);
        }
        self.config.frame_len()
    }

    /// Lets through the frames that may be encoded: those with exactly
    /// the configured number of samples.
    pub fn check_frame(&self, frame: &AudioFrame) -> (verdict: Result<(), AudioError>)
        requires
            self.wf(),
        ensures
            frame@.samples.len() == self.config.spec_frame_len() ==> verdict is Ok,
            frame@.samples.len() != self.config.spec_frame_len() ==> verdict is Err
                && verdict->Err_0 == (AudioError::FrameSizeMismatch {
                actual: frame@.samples.len() as usize,
                expected: self.config.spec_frame_len() as usize,
            }),
    {
        let expected = self.expected_samples();
        if frame.samples.len() != expected {
            return Err(AudioError::FrameSizeMismatch { actual: frame.samples.len(), expected });
        }
        Ok(())
    }

    /// Makes the compressed frame of what the encoder gave for `frame`.
    pub fn finish_encode(&self, frame: &AudioFrame, data: Vec<u8>) -> (compressed: CompressedFrame)
        ensures
            compressed@ == encoded_frame(frame@, data@),
    {
        CompressedFrame::new(data, frame.samples.len(), frame.timestamp, frame.sequence_number)
    }

    /// Makes the raw frame of what the decoder gave for `compressed`, at
    /// `now`. The decoder must have given as many samples as the frame
    /// had before it was encoded.
    pub fn finish_decode(
        &self,
        compressed: &CompressedFrame,
        samples: Vec<SampleBits>,
        now: u64,
    ) -> (frame: Result<AudioFrame, AudioError>)
        ensures
            frame is Ok <==> decoded_frame(compressed@, samples@, now) is Some,
            frame is Ok ==> Some(frame->Ok_0@) == decoded_frame(compressed@, samples@, now),
            frame is Err ==> frame->Err_0 == (AudioError::FrameSizeMismatch {
                actual: samples@.len() as usize,
                expected: compressed@.original_sample_count,
            }),
    {
        if samples.len() != compressed.original_sample_count {
            return Err(
                AudioError::FrameSizeMismatch {
                    actual: samples.len(),
                    expected: compressed.original_sample_count,
                },
            );
        }
        Ok(AudioFrame::new(samples, compressed.sequence_number, now))
    }
}

/// A frame that went through encoding and decoding has as many samples
/// as before, and its sequence number: whatever the encoder made of it,
/// and whatever the decoder gave back, what is let through is of the old
/// length.
pub proof fn law_round_trip_keeps_length(
    frame: AudioFrameView,
    data: Seq<u8>,
    samples: Seq<SampleBits>,
    now: u64,
)
    requires
        frame.samples.len() <= usize::MAX,
        decoded_frame(encoded_frame(frame, data), samples, now) is Some,
    ensures
        decoded_frame(encoded_frame(frame, data), samples, now)->0.samples.len()
            == frame.samples.len(),
        decoded_frame(encoded_frame(frame, data), samples, now)->0.sequence_number
            == frame.sequence_number,
{
}

} // verus!
