use voc::packet::{HEADER_ESTIMATE, MAX_PACKET_SIZE};
use voc::sample_frames::{create_test_audio_frame, create_test_frame};
use voc::wire::{deserialize, serialize, WIRE_OVERHEAD};
use voc::{CompressedFrame, NetworkPacket, PacketType};

#[test]
fn voc_client_test_audio_frame_creation() {
    let frame = create_test_audio_frame(42, 0);
    assert_eq!(frame.data.len(), 180);
    assert_eq!(frame.original_sample_count, 960);
    assert_eq!(frame.sequence_number, 42);
    assert_eq!(frame.data[0], 0xF8);
    assert_eq!(frame.data[1], 42);
}

#[test]
fn test_different_sequences() {
    let frame1 = create_test_audio_frame(0, 0);
    let frame2 = create_test_audio_frame(1, 0);
    assert_ne!(frame1.data, frame2.data);
    assert_ne!(frame1.sequence_number, frame2.sequence_number);
}

#[test]
fn test_audio_frame_pattern_bytes() {
    let frame = create_test_audio_frame(42, 5);
    assert_eq!(&frame.data[2..5], &[56u8, 87, 118][..]);
    assert_eq!(frame.timestamp, 5);
    let frame = create_test_audio_frame(1, 5);
    assert_eq!(&frame.data[..5], &[0xF8u8, 1, 135, 166, 197][..]);
}

#[test]
fn test_plain_frame_pattern_bytes() {
    let frame = create_test_frame(7, 9);
    assert_eq!(frame.data.len(), 200);
    assert_eq!(&frame.data[..3], &[217u8, 218, 219][..]);
    assert_eq!(frame.original_sample_count, 960);
    assert_eq!(frame.sequence_number, 7);
    assert_eq!(frame.timestamp, 9);
}

#[test]
fn test_compressed_frame_creation() {
    let compressed = CompressedFrame::new(vec![1, 2, 3], 960, 0, 42);
    assert_eq!(compressed.data.len(), 3);
    assert_eq!(compressed.original_sample_count, 960);
    assert_eq!(compressed.sequence_number, 42);
}

#[test]
fn test_compressed_frame_age() {
    let compressed = CompressedFrame::new(vec![1, 2, 3], 960, 1000, 42);
    assert_eq!(compressed.age(1250), 250);
    assert_eq!(compressed.age(900), 0);
    assert!(!compressed.is_stale(1250, 250));
    assert!(compressed.is_stale(1251, 250));
}

#[test]
fn test_network_packet_creation() {
    let frame = CompressedFrame::new(vec![1, 2, 3, 4], 960, 0, 42);
    let packet = NetworkPacket::new_audio(frame.clone(), 123, 456, 0);

    assert_eq!(packet.protocol_version, NetworkPacket::CURRENT_PROTOCOL_VERSION);
    assert_eq!(packet.packet_type, PacketType::Audio);
    assert_eq!(packet.sender_id, 123);
    assert_eq!(packet.session_id, 456);
    assert_eq!(packet.compressed_frame.data, frame.data);
}

#[test]
fn test_checksum_verification() {
    let frame = CompressedFrame::new(vec![1, 2, 3, 4], 960, 0, 42);
    let packet = NetworkPacket::new_audio(frame, 123, 456, 0);

    assert!(packet.verify_checksum());

    let mut corrupted = packet.clone();
    corrupted.compressed_frame.data[0] = 99;
    assert!(!corrupted.verify_checksum());
}

#[test]
fn test_checksum_exact_value() {
    let frame = CompressedFrame::new(vec![1, 2, 3, 4], 960, 0, 42);
    let packet = NetworkPacket::new_audio(frame, 123, 456, 0);
    assert_eq!(packet.checksum, 0x0403_0058);
    assert_eq!(packet.calculate_checksum(), 0x0403_0058);
}

#[test]
fn test_checksum_pads_last_chunk() {
    let frame = CompressedFrame::new(vec![1, 2, 3, 4, 5, 6], 2, 0, 3);
    let packet = NetworkPacket::new_audio(frame, 5, 6, 0);
    assert_eq!(packet.checksum, 0x0403_0406);
}

#[test]
fn test_heartbeat_packet() {
    let packet = NetworkPacket::new_heartbeat(7, 9, 11);
    assert_eq!(packet.packet_type, PacketType::Heartbeat);
    assert_eq!(packet.sender_id, 7);
    assert_eq!(packet.session_id, 9);
    assert!(packet.compressed_frame.data.is_empty());
    assert_eq!(packet.send_timestamp, 11);
    assert_eq!(packet.checksum, 1 ^ 2 ^ 7 ^ 9);
    assert!(packet.verify_checksum());
}

#[test]
fn test_packet_type_codes() {
    assert_eq!(PacketType::Audio.code(), 1);
    assert_eq!(PacketType::Heartbeat.code(), 2);
    assert_eq!(PacketType::Handshake.code(), 3);
    assert_eq!(PacketType::Disconnect.code(), 4);
    assert_eq!(PacketType::from_code(3), Some(PacketType::Handshake));
    assert_eq!(PacketType::from_code(0), None);
    assert_eq!(PacketType::from_code(5), None);
}

#[test]
fn test_packet_age() {
    let frame = CompressedFrame::new(vec![1, 2, 3], 960, 5000, 1);
    let packet = NetworkPacket::new_audio(frame, 123, 456, 5000);

    assert!(packet.age(5000) < 10);
    assert!(!packet.is_stale(5000, 1000));

    let old_packet = {
        let mut p = packet.clone();
        p.send_timestamp = 5000 - 2000;
        p
    };
    assert!(old_packet.is_stale(5000, 1000));
    assert_eq!(old_packet.age(5000), 2000);
}

#[test]
fn test_estimated_size() {
    let frame = CompressedFrame::new(vec![0; 100], 960, 0, 1);
    let packet = NetworkPacket::new_audio(frame, 1, 2, 0);
    assert_eq!(packet.estimated_size(), 132);
    assert!(!packet.is_too_large());
    let big = NetworkPacket::new_audio(
        CompressedFrame::new(vec![0; MAX_PACKET_SIZE - HEADER_ESTIMATE + 1], 960, 0, 1),
        1,
        2,
        0,
    );
    assert!(big.is_too_large());
    let edge = NetworkPacket::new_audio(
        CompressedFrame::new(vec![0; MAX_PACKET_SIZE - HEADER_ESTIMATE], 960, 0, 1),
        1,
        2,
        0,
    );
    assert!(!edge.is_too_large());
}

#[test]
fn test_wire_layout() {
    let frame = CompressedFrame::new(vec![0xAA, 0xBB], 960, 0, 0x0102_0304_0506_0708);
    let packet = NetworkPacket::new_audio(frame, 0x1122_3344, 0x5566_7788, 0);
    let bytes = serialize(&packet);
    assert_eq!(bytes.len(), WIRE_OVERHEAD + 2);
    assert_eq!(bytes[0], 1);
    assert_eq!(bytes[1], 1);
    assert_eq!(&bytes[2..6], &[0x44u8, 0x33, 0x22, 0x11][..]);
    assert_eq!(&bytes[6..10], &[0x88u8, 0x77, 0x66, 0x55][..]);
    assert_eq!(&bytes[10..18], &[2u8, 0, 0, 0, 0, 0, 0, 0][..]);
    assert_eq!(&bytes[18..20], &[0xAAu8, 0xBB][..]);
    assert_eq!(&bytes[20..28], &[0xC0u8, 0x03, 0, 0, 0, 0, 0, 0][..]);
    assert_eq!(&bytes[28..36], &[8u8, 7, 6, 5, 4, 3, 2, 1][..]);
    assert_eq!(&bytes[36..40], &packet.checksum.to_le_bytes()[..]);
}

#[test]
fn test_wire_round_trip() {
    let frame = create_test_audio_frame(42, 10);
    let packet = NetworkPacket::new_audio(frame, 123, 456, 10);
    let bytes = serialize(&packet);
    let back = deserialize(&bytes, 77).unwrap();
    assert_eq!(back.protocol_version, packet.protocol_version);
    assert_eq!(back.packet_type, packet.packet_type);
    assert_eq!(back.sender_id, packet.sender_id);
    assert_eq!(back.session_id, packet.session_id);
    assert_eq!(back.compressed_frame.data, packet.compressed_frame.data);
    assert_eq!(back.compressed_frame.original_sample_count, 960);
    assert_eq!(back.compressed_frame.sequence_number, 42);
    assert_eq!(back.checksum, packet.checksum);
    assert_eq!(back.send_timestamp, 77);
    assert!(back.verify_checksum());
    assert_eq!(back.calculate_checksum(), packet.checksum);
}

#[test]
fn test_wire_rejects_malformed() {
    assert!(deserialize(b"invalid packet data", 0).is_none());
    let packet = NetworkPacket::new_heartbeat(1, 2, 0);
    let bytes = serialize(&packet);
    assert_eq!(bytes.len(), WIRE_OVERHEAD);
    assert!(deserialize(&bytes, 0).is_some());
    assert!(deserialize(&bytes[..bytes.len() - 1], 0).is_none());
    let mut longer = bytes.clone();
    longer.push(0);
    assert!(deserialize(&longer, 0).is_none());
    let mut bad_type = bytes.clone();
    bad_type[1] = 9;
    assert!(deserialize(&bad_type, 0).is_none());
    let mut bad_len = bytes.clone();
    bad_len[10] = 1;
    assert!(deserialize(&bad_len, 0).is_none());
}

#[test]
fn test_wire_mutation_detected() {
    let frame = CompressedFrame::new(vec![9, 8, 7, 6, 5], 960, 0, 3);
    let packet = NetworkPacket::new_audio(frame, 1, 2, 0);
    let mut bytes = serialize(&packet);
    bytes[19] ^= 0x40;
    let back = deserialize(&bytes, 0).unwrap();
    assert!(!back.verify_checksum());
}
