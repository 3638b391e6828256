use voc::capture::CAPTURE_QUEUE_CAPACITY;
use voc::{
    AudioConfig, AudioError, AudioFrame, AudioStats, CaptureQueue, CompressedFrame, ConfigFault,
    FrameCodec, LoopVerdict, PlaybackQueue,
};

fn bits(samples: &[f32]) -> Vec<u32> {
    samples.iter().map(|s| s.to_bits()).collect()
}

#[test]
fn traits_test_audio_frame_creation() {
    let frame = AudioFrame::new(bits(&[0.0, 0.1, -0.1]), 1, 0);
    assert_eq!(frame.samples.len(), 3);
    assert_eq!(frame.sequence_number, 1);
}

#[test]
fn types_test_audio_frame_creation() {
    let samples = bits(&[0.1, -0.2, 0.3, 0.0]);
    let frame = AudioFrame::new(samples.clone(), 42, 17);

    assert_eq!(frame.samples, samples);
    assert_eq!(frame.sequence_number, 42);
    assert_eq!(frame.timestamp, 17);
}

#[test]
fn test_silence_frame() {
    let frame = AudioFrame::silence(960, 7, 3);
    assert_eq!(frame.samples.len(), 960);
    assert!(frame.samples.iter().all(|b| f32::from_bits(*b) == 0.0));
    assert_eq!(frame.sequence_number, 7);
    assert_eq!(frame.clone().samples, frame.samples);
}

#[test]
fn test_opus_invalid_frame_size() {
    let config = AudioConfig::default();
    let codec = FrameCodec::new(config).expect("codec");

    let bad_frame = AudioFrame::new(bits(&[0.0; 100]), 1, 0);

    match codec.check_frame(&bad_frame) {
        Err(AudioError::FrameSizeMismatch { actual: 100, expected: 960 }) => {}
        Ok(_) => panic!("a frame of the wrong size went through"),
        Err(e) => panic!("unexpected error: {:?}", e),
    }
}

#[test]
fn test_codec_rules() {
    let bad = AudioConfig { channels: 3, ..AudioConfig::default() };
    assert!(matches!(
        FrameCodec::new(bad),
        Err(AudioError::InvalidConfig { fault: ConfigFault::Channels { value: 3 } })
    ));
    let stereo = AudioConfig { channels: 2, ..AudioConfig::default() };
    let codec = FrameCodec::new(stereo).unwrap();
    assert_eq!(codec.expected_samples(), 1920);
    let frame = AudioFrame::silence(1920, 42, 5);
    assert!(codec.check_frame(&frame).is_ok());
    let compressed = codec.finish_encode(&frame, vec![1, 2, 3]);
    assert_eq!(compressed.data, vec![1, 2, 3]);
    assert_eq!(compressed.original_sample_count, 1920);
    assert_eq!(compressed.sequence_number, 42);
    assert_eq!(compressed.timestamp, 5);
    let decoded = codec.finish_decode(&compressed, vec![0; 1920], 9).unwrap();
    assert_eq!(decoded.samples.len(), frame.samples.len());
    assert_eq!(decoded.sequence_number, 42);
    assert_eq!(decoded.timestamp, 9);
    let short = codec.finish_decode(&compressed, vec![0; 1919], 9);
    assert!(matches!(
        short,
        Err(AudioError::FrameSizeMismatch { actual: 1919, expected: 1920 })
    ));
    let odd = CompressedFrame::new(vec![], 3, 0, 8);
    assert_eq!(codec.finish_decode(&odd, vec![1, 2, 3], 0).unwrap().sequence_number, 8);
}

#[test]
fn test_capture_frames_have_full_length() {
    let mut capture = CaptureQueue::new(4);
    assert!(!capture.is_recording());
    assert!(capture.start());
    assert!(!capture.start());
    assert!(capture.is_recording());
    capture.feed(&[1, 2, 3], 10);
    assert!(matches!(capture.next_frame(), Ok(None)));
    capture.feed(&[4, 5, 6, 7, 8, 9], 11);
    assert_eq!(capture.queued(), 2);
    let first = capture.next_frame().unwrap().unwrap();
    assert_eq!(first.samples, vec![1, 2, 3, 4]);
    assert_eq!(first.sequence_number, 0);
    assert_eq!(first.timestamp, 11);
    let second = capture.next_frame().unwrap().unwrap();
    assert_eq!(second.samples, vec![5, 6, 7, 8]);
    assert_eq!(second.sequence_number, 1);
    assert!(matches!(capture.next_frame(), Ok(None)));
    assert!(capture.stop());
    assert!(!capture.stop());
    capture.close();
    assert!(matches!(capture.next_frame(), Err(AudioError::DeviceDisconnected)));
}

#[test]
fn test_capture_queue_full_drops_newest() {
    let mut capture = CaptureQueue::new(2);
    for i in 0..(CAPTURE_QUEUE_CAPACITY as u32 + 2) {
        capture.feed(&[i, i], 0);
    }
    assert_eq!(capture.queued(), CAPTURE_QUEUE_CAPACITY);
    assert_eq!(capture.capture_drops(), 2);
    for want in 0..CAPTURE_QUEUE_CAPACITY as u64 {
        let frame = capture.next_frame().unwrap().unwrap();
        assert_eq!(frame.sequence_number, want);
        assert_eq!(frame.samples, vec![want as u32, want as u32]);
    }
    capture.feed(&[77, 78], 0);
    let frame = capture.next_frame().unwrap().unwrap();
    assert_eq!(frame.sequence_number, 12);
    assert_eq!(frame.samples, vec![77, 78]);
    capture.feed(&[1], 0);
    capture.close();
    assert!(matches!(capture.next_frame(), Err(AudioError::DeviceDisconnected)));
}

#[test]
fn test_capture_default_frame_length() {
    let config = AudioConfig::default();
    let mut capture = CaptureQueue::new(config.frame_len());
    let samples = vec![0u32; 48000 / 10];
    capture.feed(&samples, 0);
    assert_eq!(capture.queued(), 5);
    while let Ok(Some(frame)) = capture.next_frame() {
        assert_eq!(frame.samples.len(), 960);
    }
}

#[test]
fn test_playback_buffer() {
    let config = AudioConfig::default();
    let mut playback = PlaybackQueue::new(config.receive_buffer_size);
    assert_eq!(playback.buffer_level(), 0);

    for i in 0..3 {
        let frame = AudioFrame::silence(config.samples_per_frame(), i, 0);
        if playback.play_frame(frame).is_ok() {
            assert_eq!(playback.buffer_level(), (i + 1) as usize);
        }
    }
    assert_eq!(playback.buffer_level(), 3);

    if playback.flush_buffer().is_ok() {
        assert_eq!(playback.buffer_level(), 0);
    }
}

#[test]
fn test_playback_buffer_overflow() {
    let config = AudioConfig::default();
    let mut playback = PlaybackQueue::new(config.receive_buffer_size);
    for i in 0..config.receive_buffer_size {
        let frame = AudioFrame::silence(config.samples_per_frame(), i as u64, 0);
        let result = playback.play_frame(frame);
        assert!(result.is_ok());
    }

    let overflow_frame = AudioFrame::new(vec![5; 960], 999, 0);
    let result = playback.play_frame(overflow_frame);
    assert!(matches!(result, Err(AudioError::BufferOverflow)));
    assert_eq!(playback.buffer_level(), 3);
    let first = playback.fill_output(960 * 2);
    assert!(first.iter().all(|s| *s == 0));
    let second = playback.fill_output(960);
    assert!(second.iter().all(|s| *s == 5));
    assert_eq!(playback.get_stats(), (3, 0));
}

#[test]
fn test_playback_fill_and_underrun() {
    let mut playback = PlaybackQueue::new(3);
    assert!(playback.start());
    assert!(!playback.start());
    assert!(playback.is_playing());
    playback.play_frame(AudioFrame::new(vec![1, 2, 3], 0, 0)).unwrap();
    playback.play_frame(AudioFrame::new(vec![4, 5, 6], 1, 0)).unwrap();
    assert_eq!(playback.fill_output(2), vec![1, 2]);
    assert_eq!(playback.get_stats(), (1, 0));
    assert_eq!(playback.fill_output(2), vec![3, 4]);
    assert_eq!(playback.get_stats(), (2, 0));
    assert_eq!(playback.buffer_level(), 0);
    assert_eq!(playback.fill_output(4), vec![5, 6, 0, 0]);
    assert_eq!(playback.get_stats(), (2, 1));
    assert_eq!(playback.fill_output(2), vec![0, 0]);
    assert_eq!(playback.get_stats(), (2, 2));
    assert_eq!(playback.fill_output(0), Vec::<u32>::new());
    assert_eq!(playback.get_stats(), (2, 2));
    assert!(playback.stop());
    assert!(!playback.stop());
}

#[test]
fn test_audio_stats() {
    let mut stats = AudioStats::new();
    stats.record_captured();
    stats.record_played();
    stats.record_played();
    assert_eq!((stats.frames_captured, stats.frames_played), (1, 2));
    assert_eq!(stats.after_frame(&Ok(())), LoopVerdict::GoOn);
    assert_eq!(stats.after_frame(&Err(AudioError::BufferOverflow)), LoopVerdict::GoOn);
    assert_eq!(stats.buffer_overflows, 1);
    assert_eq!(stats.after_frame(&Err(AudioError::Timeout)), LoopVerdict::Stop);
    assert_eq!(stats.after_frame(&Err(AudioError::DeviceDisconnected)), LoopVerdict::Stop);
    assert_eq!(stats.buffer_overflows, 1);
    stats.frames_captured = u64::MAX;
    stats.record_captured();
    assert_eq!(stats.frames_captured, u64::MAX);
    stats.reset();
    assert_eq!(stats, AudioStats::new());
}
