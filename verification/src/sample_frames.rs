//! Compressed frames with made-up payloads, for trying the network side
//! without a codec.

use vstd::prelude::*;
use crate::frame::{CompressedFrame, FrameView};

verus! {

/// Payload bytes of a frame from [`create_test_audio_frame`].
pub const TEST_AUDIO_FRAME_LEN: usize = 180;

/// Payload bytes of a frame from [`create_test_frame`].
pub const TEST_FRAME_LEN: usize = 200;

/// Samples that the made-up frames claim to stand for: 20 ms at 48 kHz.
pub const TEST_SAMPLE_COUNT: usize = 960;

/// Byte `i` of the payload for `sequence`: a marker first, the low byte
/// of the sequence number second, then a pattern of both.
pub open spec fn test_audio_byte(sequence: u32, i: int) -> u8 {
    if i == 0 {
        0xF8
    } else if i == 1 {
        (sequence % 256) as u8
    } else {
        ((sequence * 73 + i * 31) % 256) as u8
    }
}

/// Byte `i` of the plain pattern for `sequence`.
pub open spec fn test_byte(sequence: u32, i: int) -> u8 {
    (((sequence * 31) % 0x1_0000_0000 + i) % 256) as u8
}

/// A frame that looks like codec output for voice: 180 bytes that
/// depend on `sequence`, standing for 960 samples.
pub fn create_test_audio_frame(sequence: u32, now: u64) -> (frame: CompressedFrame)
    requires
        sequence * 73 + (TEST_AUDIO_FRAME_LEN - 1) * 31 <= u32::MAX,
    ensures
        frame@ == (FrameView {
            data: Seq::new(TEST_AUDIO_FRAME_LEN as nat, |i: int| test_audio_byte(sequence, i)),
            original_sample_count: TEST_SAMPLE_COUNT,
            timestamp: now,
            sequence_number: sequence as u64,
        }),
{
    let mut data: Vec<u8> = Vec::with_capacity(TEST_AUDIO_FRAME_LEN);
    let mut i: usize = 0;
    while i < TEST_AUDIO_FRAME_LEN
        invariant
            i <= TEST_AUDIO_FRAME_LEN,
            data@.len() == i,
            forall|k: int| 0 <= k < i ==> #[trigger] data@[k] == test_audio_byte(sequence, k),
        decreases TEST_AUDIO_FRAME_LEN - i,
    {
        let byte: u8 = if i == 0 {
            0xF8
        } else if i == 1 {
            (sequence % 256) as u8
        } else {
            (((sequence as u64) * 73 + (i as u64) * 31) % 256) as u8
        };
        data.push(byte);
        i += 1;
    }
    assert(data@ =~= Seq::new(TEST_AUDIO_FRAME_LEN as nat, |i: int| test_audio_byte(sequence, i)));
    CompressedFrame::new(data, TEST_SAMPLE_COUNT, now, sequence as u64)
}

/// A frame with a plain pattern: 200 bytes that depend on `sequence`,
/// standing for 960 samples.
pub fn create_test_frame(sequence: u32, now: u64) -> (frame: CompressedFrame)
    requires
        (sequence * 31) % 0x1_0000_0000 + (TEST_FRAME_LEN - 1) <= u32::MAX,
    ensures
        frame@ == (FrameView {
            data: Seq::new(TEST_FRAME_LEN as nat, |i: int| test_byte(sequence, i)),
            original_sample_count: TEST_SAMPLE_COUNT,
            timestamp: now,
            sequence_number: sequence as u64,
        }),
{
    let base: u64 = ((sequence as u64) * 31) % 0x1_0000_0000;
    let mut data: Vec<u8> = Vec::with_capacity(TEST_FRAME_LEN);
    let mut i: usize = 0;
    while i < TEST_FRAME_LEN
        invariant
            i <= TEST_FRAME_LEN,
            base == (sequence * 31) % 0x1_0000_0000,
            data@.len() == i,
            forall|k: int| 0 <= k < i ==> #[trigger] data@[k] == test_byte(sequence, k),
        decreases TEST_FRAME_LEN - i,
    {
        data.push(((base + i as u64) % 256) as u8);
        i += 1;
    }
    assert(data@ =~= Seq::new(TEST_FRAME_LEN as nat, |i: int| test_byte(sequence, i)));
    CompressedFrame::new(data, TEST_SAMPLE_COUNT, now, sequence as u64)
}

} // verus!
