//! The capturing side between the device's callback and the encoder:
//! samples are gathered into frames, and frames wait in a bounded queue.

use std::collections::VecDeque;
use vstd::prelude::*;
use crate::audio::{AudioError, AudioFrame, AudioFrameView, SampleBits};
use crate::audio_config::{AudioConfig, lemma_valid_config_is_small};
use crate::net_config::{bump, bumped};

verus! {

/// Frames the capture queue holds at most.
pub const CAPTURE_QUEUE_CAPACITY: usize = 10;

/// Mathematical value of a [`CaptureQueue`].
pub struct CaptureView {
    /// Samples a frame is made of.
    pub frame_len: nat,
    /// Samples gathered for the next frame.
    pub pending: Seq<SampleBits>,
    /// Frames waiting for the encoder, oldest first.
    pub queue: Seq<AudioFrameView>,
    /// Sequence number of the next frame.
    pub next_sequence: u64,
    /// Frames dropped because the queue was full.
    pub drops: u64,
    /// Whether the producing side has closed.
    pub closed: bool,
    pub recording: bool,
}

impl CaptureView {
    /// Samples at which a frame is cut: the frame length, and one where
    /// that is zero.
    pub open spec fn cut(self) -> nat {
        if self.frame_len == 0 {
            1
        } else {
            self.frame_len
        }
    }

    /// What holds of every capture queue: fewer samples are pending than
    /// make a frame, every waiting frame is of full length, and the queue
    /// is within its capacity.
    pub open spec fn wf(self) -> bool {
        &&& self.pending.len() < self.cut()
        &&& self.queue.len() <= CAPTURE_QUEUE_CAPACITY
        &&& forall|i: int|
            0 <= i < self.queue.len() ==> (#[trigger] self.queue[i]).samples.len() == self.cut()
    }

    /// The queue after one sample has come in at `now`. When the sample
    /// completes a frame, the frame takes the next sequence number and
    /// joins the queue, or, with the queue full, is dropped and counted.
    pub open spec fn fed_one(self, sample: SampleBits, now: u64) -> CaptureView {
        let pending = self.pending.push(sample);
        if pending.len() >= self.frame_len {
            let frame = AudioFrameView {
                samples: pending,
                timestamp: now,
                sequence_number: self.next_sequence,
            };
            if self.queue.len() >= CAPTURE_QUEUE_CAPACITY {
                CaptureView {
                    pending: Seq::empty(),
                    next_sequence: bumped(self.next_sequence),
                    drops: bumped(self.drops),
                    ..self
                }
            } else {
                CaptureView {
                    pending: Seq::empty(),
                    queue: self.queue.push(frame),
                    next_sequence: bumped(self.next_sequence),
                    ..self
                }
            }
        } else {
            CaptureView { pending, ..self }
        }
    }

    /// The queue after a batch of samples has come in at `now`.
    pub open spec fn fed(self, data: Seq<SampleBits>, now: u64) -> CaptureView
        decreases data.len(),
    {
        if data.len() == 0 {
            self
        } else {
            self.fed(data.drop_last(), now).fed_one(data.last(), now)
        }
    }
}

/// One sample leaves a well-formed queue well-formed.
pub proof fn lemma_fed_one_keeps_wf(v: CaptureView, sample: SampleBits, now: u64)
    requires
        v.wf(),
    ensures
        v.fed_one(sample, now).wf(),
        v.fed_one(sample, now).frame_len == v.frame_len,
{
    let after = v.fed_one(sample, now);
    let pending = v.pending.push(sample);
    if pending.len() >= v.frame_len && v.queue.len() < CAPTURE_QUEUE_CAPACITY {
        assert forall|i: int| 0 <= i < after.queue.len() implies (#[trigger] after.queue[i]).samples.len()
            == after.cut() by {
            if i < v.queue.len() {
                assert(after.queue[i] == v.queue[i]);
            }
        }
    }
}

/// Every frame the capture hands out has exactly as many samples as a
/// frame is made of, whatever was fed to it, and in whatever batches.
pub proof fn law_fed_keeps_wf(v: CaptureView, data: Seq<SampleBits>, now: u64)
    requires
        v.wf(),
    ensures
        v.fed(data, now).wf(),
        v.fed(data, now).frame_len == v.frame_len,
    decreases data.len(),
{
    if data.len() > 0 {
        law_fed_keeps_wf(v, data.drop_last(), now);
        lemma_fed_one_keeps_wf(v.fed(data.drop_last(), now), data.last(), now);
    }
}

/// Every frame captured under a configuration in range has the sample
/// rate times the frame's length in seconds, times the channels,
/// samples.
pub proof fn law_captured_frame_length(
    config: AudioConfig,
    v: CaptureView,
    data: Seq<SampleBits>,
    now: u64,
    i: int,
)
    requires
        config.fault() is None,
        v.wf(),
        v.frame_len == config.spec_frame_len(),
        0 <= i < v.fed(data, now).queue.len(),
    ensures
        v.fed(data, now).queue[i].samples.len() == config.sample_rate as int
            * config.frame_duration_ms as int / 1000 * config.channels as int,
{
    law_fed_keeps_wf(v, data, now);
    lemma_valid_config_is_small(config);
}

/// When a sample completes a frame while the queue is full, that frame is
/// dropped: the waiting frames stay as they are, the drop is counted, and
/// the sequence number is used up.
pub proof fn law_full_queue_drops_newest(v: CaptureView, sample: SampleBits, now: u64)
    requires
        v.wf(),
        v.queue.len() == CAPTURE_QUEUE_CAPACITY,
        v.pending.len() + 1 >= v.frame_len,
    ensures
        v.fed_one(sample, now).queue == v.queue,
        v.fed_one(sample, now).drops == bumped(v.drops),
        v.fed_one(sample, now).next_sequence == bumped(v.next_sequence),
        v.fed_one(sample, now).pending.len() == 0,
{
}

/// The capturing side's accumulator and queue.
pub struct CaptureQueue {
    frame_len: usize,
    scratch: Vec<SampleBits>,
    queue: VecDeque<AudioFrame>,
    next_sequence: u64,
    capture_drops: u64,
    closed: bool,
    recording: bool,
}

impl View for CaptureQueue {
    type V = CaptureView;

    closed spec fn view(&self) -> CaptureView {
        CaptureView {
            frame_len: self.frame_len as nat,
            pending: self.scratch@,
            queue: self.queue@.map_values(|f: AudioFrame| f@),
            next_sequence: self.next_sequence,
            drops: self.capture_drops,
            closed: self.closed,
            recording: self.recording,
        }
    }
}

impl CaptureQueue {
    /// The invariant of the capture queue.
    pub open spec fn wf(&self) -> bool {
        self@.wf()
    }

    /// An idle capture for frames of `frame_len` samples: nothing
    /// pending, nothing waiting, the first frame to be number 0.
    pub fn new(frame_len: usize) -> (capture: Self)
        ensures
            capture.wf(),
            capture@ == (CaptureView {
                frame_len: frame_len as nat,
                pending: Seq::<SampleBits>::empty(),
                queue: Seq::<AudioFrameView>::empty(),
                next_sequence: 0,
                drops: 0,
                closed: false,
                recording: false,
            }),
    {
        let capture = CaptureQueue {
            frame_len,
            scratch: Vec::new(),
            queue: VecDeque::new(),
            next_sequence: 0,
            capture_drops: 0,
            closed: false,
            recording: false,
        };
        assert(capture@.queue =~= Seq::<AudioFrameView>::empty());
        capture
    }

    /// An idle capture for the frames of a configuration: each of the
    /// sample rate times the frame's length in seconds, times the
    /// channels, samples. A configuration out of range is refused.
    pub fn for_config(config: &AudioConfig) -> (capture: Result<Self, AudioError>)
        ensures
            config.fault() is None ==> capture is Ok && capture->Ok_0.wf() && capture->Ok_0@ == (
            CaptureView {
                frame_len: config.spec_frame_len() as nat,
                pending: Seq::<SampleBits>::empty(),
                queue: Seq::<AudioFrameView>::empty(),
                next_sequence: 0,
                drops: 0,
                closed: false,
                recording: false,
            }),
            config.fault() is Some ==> capture is Err && capture->Err_0 == (
            AudioError::InvalidConfig { fault: config.fault()->0 }),
    {
        match config.validate() {
            Ok(_) => {
                proof {
                    lemma_valid_config_is_small(*config);
                }
                Ok(Self::new(config.frame_len()))
            },
            Err(fault) => Err(AudioError::InvalidConfig { fault }),
        }
    }

    /// Marks the capture as recording. The result says whether the device
    /// is to be started now: it is not when the capture records already.
    pub fn start(&mut self) -> (start_device: bool)
        ensures
            start_device == !old(self)@.recording,
            final(self)@ == (CaptureView { recording: true, ..old(self)@ }),
    {
        let start_device = !self.recording;
        self.recording = true;
        start_device
    }

    /// Marks the capture as stopped. The result says whether the device
    /// is to be released now: it is not when the capture is stopped
    /// already.
    pub fn stop(&mut self) -> (release_device: bool)
        ensures
            release_device == old(self)@.recording,
            final(self)@ == (CaptureView { recording: false, ..old(self)@ }),
    {
        let release_device = self.recording;
        self.recording = false;
        release_device
    }

    /// Whether the capture is marked as recording.
    pub fn is_recording(&self) -> (yes: bool)
        ensures
            yes == self@.recording,
    {
        self.recording
    }

    /// Frames dropped so far because the queue was full.
    pub fn capture_drops(&self) -> (n: u64)
        ensures
            n == self@.drops,
    {
        self.capture_drops
    }

    /// Frames waiting for the encoder.
    pub fn queued(&self) -> (n: usize)
        ensures
            n == self@.queue.len(),
    {
        self.queue.len()
    }

    /// Closes the producing side: no more samples will come.
    pub fn close(&mut self)
        ensures
            final(self)@ == (CaptureView { closed: true, ..old(self)@ }),
    {
        self.closed = true;
    }

    /// Takes in one sample at `now`.
    fn feed_one(&mut self, sample: SampleBits, now: u64)
        requires
            old(self).wf(),
        ensures
            final(self).wf(),
            final(self)@ == old(self)@.fed_one(sample, now),
    {
        proof {
            lemma_fed_one_keeps_wf(self@, sample, now);
        }
        self.scratch.push(sample);
        if self.scratch.len() >= self.frame_len {
            let sequence = self.next_sequence;
            self.next_sequence = bump(self.next_sequence);
            let mut samples: Vec<SampleBits> = Vec::new();
            std::mem::swap(&mut self.scratch, &mut samples);
            let frame = AudioFrame::new(samples, sequence, now);
            if self.queue.len() >= CAPTURE_QUEUE_CAPACITY {
                self.capture_drops = bump(self.capture_drops);
            } else {
                let ghost fv = frame@;
                self.queue.push_back(frame);
                assert(self@.queue =~= old(self)@.queue.push(fv));
            }
        }
    }

    /// Takes in a batch of samples from the device's callback at `now`.
    /// Never waits: a frame that finds the queue full is dropped.
    pub fn feed(&mut self, data: &[SampleBits], now: u64)
        requires
            old(self).wf(),
        ensures
            final(self).wf(),
            final(self)@ == old(self)@.fed(data@, now),
    {
        let mut i: usize = 0;
        while i < data.len()
            invariant
                i <= data.len(),
                self.wf(),
                self@ == old(self)@.fed(data@.subrange(0, i as int), now),
            decreases data.len() - i,
        {
            self.feed_one(data[i], now);
            i += 1;
            assert(data@.subrange(0, i as int).drop_last() =~= data@.subrange(0, i - 1));
        }
        assert(data@.subrange(0, data.len() as int) =~= data@);
    }

    /// The next frame for the encoder: the oldest one waiting. With none
    /// waiting the answer is `None` while samples may still come, and a
    /// `DeviceDisconnected` failure once the producing side has closed.
    pub fn next_frame(&mut self) -> (result: Result<Option<AudioFrame>, AudioError>)
        requires
            old(self).wf(),
        ensures
            final(self).wf(),
            result is Ok && result->Ok_0 is Some ==> result->Ok_0->0@.samples.len() == old(self)@.cut(),
            old(self)@.queue.len() > 0 ==> result is Ok && result->Ok_0 is Some && result->Ok_0->0@
                == old(self)@.queue[0] && final(self)@ == (CaptureView {
                queue: old(self)@.queue.drop_first(),
                ..old(self)@
            }),
            old(self)@.queue.len() == 0 && !old(self)@.closed ==> result is Ok && result->Ok_0
                is None && final(self)@ == old(self)@,
            old(self)@.queue.len() == 0 && old(self)@.closed ==> result is Err && result->Err_0
                == AudioError::DeviceDisconnected && final(self)@ == old(self)@,
    {
        match self.queue.pop_front() {
            Some(frame) => {
                assert(frame@ == old(self)@.queue[0]);
                assert(self@.queue =~= old(self)@.queue.drop_first());
                assert forall|i: int| 0 <= i < self@.queue.len() implies (
                #[trigger] self@.queue[i]).samples.len() == self@.cut() by {
                    assert(self@.queue[i] == old(self)@.queue[i + 1]);
                }
                Ok(Some(frame))
            },
            None => {
                assert(self@.queue =~= old(self)@.queue);
                if self.closed {
                    Err(AudioError::DeviceDisconnected)
                } else {
                    Ok(None)
                }
            },
        }
    }
}

} // verus!
