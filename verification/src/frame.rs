//! Compressed audio frames as they travel between codec and network.

use vstd::prelude::*;

verus! {

/// Mathematical value of a [`CompressedFrame`].
pub struct FrameView {
    pub data: Seq<u8>,
    pub original_sample_count: usize,
    pub timestamp: u64,
    pub sequence_number: u64,
}

/// Codec output together with what is needed to rebuild a raw frame of the
/// same length.
#[derive(Debug)]
pub struct CompressedFrame {
    /// Codec payload, opaque to everything but the codec.
    pub data: Vec<u8>,
    /// Number of samples of the raw frame this was encoded from.
    pub original_sample_count: usize,
    /// Creation time of the raw frame, in milliseconds.
    pub timestamp: u64,
    /// Sequence number of the raw frame.
    pub sequence_number: u64,
}

impl View for CompressedFrame {
    type V = FrameView;

    open spec fn view(&self) -> FrameView {
        FrameView {
            data: self.data@,
            original_sample_count: self.original_sample_count,
            timestamp: self.timestamp,
            sequence_number: self.sequence_number,
        }
    }
}

/// Milliseconds from `since` to `now`, zero when `now` is not later.
pub open spec fn elapsed_ms(since: u64, now: u64) -> u64 {
    if now >= since {
        (now - since) as u64
    } else {
        0
    }
}

/// Copies a byte vector element by element.
pub fn copy_bytes(src: &Vec<u8>) -> (out: Vec<u8>)
    ensures
        out@ == src@,
{
    let mut out: Vec<u8> = Vec::with_capacity(src.len());
    let mut i: usize = 0;
    while i < src.len()
        invariant
            i <= src.len(),
            out@ == src@.subrange(0, i as int),
        decreases src.len() - i,
    {
        out.push(src[i]);
        i += 1;
    }
    assert(src@.subrange(0, src.len() as int) == src@);
    out
}

impl Clone for CompressedFrame {
    fn clone(&self) -> (out: Self)
        ensures
            out@ == self@,
    {
        CompressedFrame {
            data: copy_bytes(&self.data),
            original_sample_count: self.original_sample_count,
            timestamp: self.timestamp,
            sequence_number: self.sequence_number,
        }
    }
}

impl CompressedFrame {
    /// Builds a frame from its four parts.
    pub fn new(
        data: Vec<u8>,
        original_sample_count: usize,
        timestamp: u64,
        sequence_number: u64,
    ) -> (frame: Self)
        ensures
            frame.data == data,
            frame.original_sample_count == original_sample_count,
            frame.timestamp == timestamp,
            frame.sequence_number == sequence_number,
    {
        CompressedFrame { data, original_sample_count, timestamp, sequence_number }
    }

    /// The frame with no payload that control packets carry.
    pub fn empty(timestamp: u64) -> (frame: Self)
        ensures
            frame@ == (FrameView {
                data: Seq::<u8>::empty(),
                original_sample_count: 0,
                timestamp,
                sequence_number: 0,
            }),
    {
        CompressedFrame {
            data: Vec::new(),
            original_sample_count: 0,
            timestamp,
            sequence_number: 0,
        }
    }

    /// Time since the frame was created, as seen at `now`.
    pub fn age(&self, now: u64) -> (ms: u64)
        ensures
            ms == elapsed_ms(self.timestamp, now),
    {
        now.saturating_sub(self.timestamp)
    }

    /// Whether the frame is older than `max_age_ms` at `now`.
    pub fn is_stale(&self, now: u64, max_age_ms: u32) -> (stale: bool)
        ensures
            stale == (elapsed_ms(self.timestamp, now) > max_age_ms),
    {
        self.age(now) > max_age_ms as u64
    }
}

} // verus!
