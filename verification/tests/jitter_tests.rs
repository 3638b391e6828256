use voc::{CompressedFrame, JitterBuffer, NetworkPacket};

fn audio(sequence: u64) -> NetworkPacket {
    let frame = CompressedFrame::new(vec![sequence as u8], 960, 0, sequence);
    NetworkPacket::new_audio(frame, 123, 456, 0)
}

fn pop_seq(buffer: &mut JitterBuffer) -> Option<u64> {
    buffer.pop_packet().map(|p| p.compressed_frame.sequence_number)
}

#[test]
fn test_jitter_buffer() {
    let mut buffer = JitterBuffer::new(10);

    let frame1 = CompressedFrame::new(vec![1], 960, 0, 1);
    let packet1 = NetworkPacket::new_audio(frame1, 123, 456, 0);

    assert!(buffer.push_packet(packet1.clone()));

    let received = buffer.pop_packet().unwrap();
    assert_eq!(received.compressed_frame.sequence_number, 1);

    let frame_old = CompressedFrame::new(vec![0], 960, 0, 1);
    let packet_old = NetworkPacket::new_audio(frame_old, 123, 456, 0);
    assert!(!buffer.push_packet(packet_old));
}

#[test]
fn test_jitter_buffer_out_of_order() {
    let mut buffer = JitterBuffer::new(10);

    let frame3 = CompressedFrame::new(vec![3], 960, 0, 3);
    let packet3 = NetworkPacket::new_audio(frame3, 123, 456, 0);
    assert!(buffer.push_packet(packet3));

    let frame1 = CompressedFrame::new(vec![1], 960, 0, 1);
    let packet1 = NetworkPacket::new_audio(frame1, 123, 456, 0);
    assert!(buffer.push_packet(packet1));

    let received = buffer.pop_packet().unwrap();
    assert_eq!(received.compressed_frame.sequence_number, 1);

    let received = buffer.pop_packet().unwrap();
    assert_eq!(received.compressed_frame.sequence_number, 3);
    assert_eq!(buffer.lost_packets(), 1);
}

#[test]
fn test_jitter_reorder_absorption() {
    let mut buffer = JitterBuffer::new(10);
    for s in [3u64, 1, 2, 5, 4] {
        assert!(buffer.push_packet(audio(s)));
    }
    for want in 1u64..=5 {
        assert_eq!(pop_seq(&mut buffer), Some(want));
    }
    assert_eq!(pop_seq(&mut buffer), None);
    assert_eq!(buffer.lost_packets(), 0);
    assert_eq!(buffer.expected_sequence(), 6);
}

#[test]
fn test_jitter_gap_detection() {
    let mut buffer = JitterBuffer::new(10);
    for s in [1u64, 2, 4, 5] {
        assert!(buffer.push_packet(audio(s)));
    }
    assert_eq!(pop_seq(&mut buffer), Some(1));
    assert_eq!(pop_seq(&mut buffer), Some(2));
    assert_eq!(buffer.lost_packets(), 0);
    assert_eq!(pop_seq(&mut buffer), Some(4));
    assert_eq!(buffer.lost_packets(), 1);
    assert_eq!(pop_seq(&mut buffer), Some(5));
    assert_eq!(buffer.lost_packets(), 1);
    assert_eq!(pop_seq(&mut buffer), None);
}

#[test]
fn test_jitter_wide_gap_counts_every_slot() {
    let mut buffer = JitterBuffer::new(10);
    assert!(buffer.push_packet(audio(1_000_000)));
    assert_eq!(pop_seq(&mut buffer), Some(1_000_000));
    assert_eq!(buffer.lost_packets(), 999_999);
    assert_eq!(buffer.expected_sequence(), 1_000_001);
}

#[test]
fn test_jitter_duplicate_refused() {
    let mut buffer = JitterBuffer::new(10);
    assert!(buffer.push_packet(audio(2)));
    assert!(buffer.push_packet(audio(4)));
    assert!(!buffer.push_packet(audio(2)));
    assert_eq!(buffer.len(), 2);
    assert_eq!(buffer.expected_sequence(), 1);
    assert_eq!(pop_seq(&mut buffer), Some(2));
    assert_eq!(pop_seq(&mut buffer), Some(4));
}

#[test]
fn test_jitter_full_evicts_lowest() {
    let mut buffer = JitterBuffer::new(3);
    for s in [5u64, 6, 7] {
        assert!(buffer.push_packet(audio(s)));
    }
    assert!(buffer.push_packet(audio(9)));
    assert_eq!(buffer.len(), 3);
    assert_eq!(pop_seq(&mut buffer), Some(6));
    assert_eq!(buffer.lost_packets(), 5);
    assert_eq!(pop_seq(&mut buffer), Some(7));
    assert_eq!(pop_seq(&mut buffer), Some(9));
    assert_eq!(buffer.lost_packets(), 6);
}

#[test]
fn test_jitter_counts_balance() {
    let mut buffer = JitterBuffer::new(4);
    let pushes = [3u64, 1, 1, 8, 9, 10, 11, 2, 12];
    let mut accepted = 0u64;
    for s in pushes {
        if buffer.push_packet(audio(s)) {
            accepted += 1;
        }
    }
    let mut yielded = Vec::new();
    while let Some(s) = pop_seq(&mut buffer) {
        yielded.push(s);
    }
    assert!(yielded.windows(2).all(|w| w[0] < w[1]));
    let evicted = accepted - yielded.len() as u64 - buffer.len() as u64;
    assert_eq!(accepted, 8);
    assert_eq!(evicted, 4);
    assert_eq!(
        buffer.expected_sequence() - 1,
        yielded.len() as u64 + buffer.lost_packets()
    );
}

#[test]
fn test_jitter_drain_and_clear() {
    let mut buffer = JitterBuffer::new(10);
    for s in [4u64, 2, 7] {
        assert!(buffer.push_packet(audio(s)));
    }
    let out = buffer.drain();
    let seqs: Vec<u64> = out.iter().map(|p| p.compressed_frame.sequence_number).collect();
    assert_eq!(seqs, vec![2, 4, 7]);
    assert_eq!(buffer.lost_packets(), 4);
    assert_eq!(buffer.expected_sequence(), 8);
    assert_eq!(buffer.len(), 0);
    assert!(buffer.push_packet(audio(9)));
    buffer.clear();
    assert_eq!(buffer.len(), 0);
    assert_eq!(buffer.max_size(), 10);
}
