//! The wire format of a packet: every field in order, integers
//! little-endian, the payload behind an eight-byte length. The send time
//! is not part of it.

use vstd::prelude::*;
use crate::frame::{CompressedFrame, FrameView};
use crate::packet::{NetworkPacket, PacketType, PacketView, checksum_of, checksum_valid};

verus! {

/// Bytes of a serialised packet besides its payload.
pub const WIRE_OVERHEAD: usize = 38;

/// The four bytes of `x`, lowest first.
pub open spec fn le32(x: u32) -> Seq<u8> {
    seq![
        (x & 0xff) as u8,
        ((x >> 8) & 0xff) as u8,
        ((x >> 16) & 0xff) as u8,
        ((x >> 24) & 0xff) as u8,
    ]
}

/// The eight bytes of `x`, lowest first.
pub open spec fn le64(x: u64) -> Seq<u8> {
    seq![
        (x & 0xff) as u8,
        ((x >> 8) & 0xff) as u8,
        ((x >> 16) & 0xff) as u8,
        ((x >> 24) & 0xff) as u8,
        ((x >> 32) & 0xff) as u8,
        ((x >> 40) & 0xff) as u8,
        ((x >> 48) & 0xff) as u8,
        ((x >> 56) & 0xff) as u8,
    ]
}

/// The number whose little-endian bytes are these four.
pub open spec fn word32(b0: u8, b1: u8, b2: u8, b3: u8) -> u32 {
    (b0 as u32) | ((b1 as u32) << 8) | ((b2 as u32) << 16) | ((b3 as u32) << 24)
}

/// The number whose little-endian bytes are these eight.
pub open spec fn word64(b0: u8, b1: u8, b2: u8, b3: u8, b4: u8, b5: u8, b6: u8, b7: u8) -> u64 {
    (b0 as u64) | ((b1 as u64) << 8) | ((b2 as u64) << 16) | ((b3 as u64) << 24) | ((b4 as u64)
        << 32) | ((b5 as u64) << 40) | ((b6 as u64) << 48) | ((b7 as u64) << 56)
}

/// The little-endian `u32` at offset `at` of `bytes`.
pub open spec fn le32_at(bytes: Seq<u8>, at: int) -> u32 {
    word32(bytes[at], bytes[at + 1], bytes[at + 2], bytes[at + 3])
}

/// The little-endian `u64` at offset `at` of `bytes`.
pub open spec fn le64_at(bytes: Seq<u8>, at: int) -> u64 {
    word64(
        bytes[at],
        bytes[at + 1],
        bytes[at + 2],
        bytes[at + 3],
        bytes[at + 4],
        bytes[at + 5],
        bytes[at + 6],
        bytes[at + 7],
    )
}

/// The serialised form of a packet.
pub open spec fn wire_bytes(p: PacketView) -> Seq<u8> {
    seq![p.protocol_version, p.packet_type.spec_code()] + le32(p.sender_id) + le32(p.session_id)
        + le64(p.frame.data.len() as u64) + p.frame.data + le64(p.frame.original_sample_count as u64)
        + le64(p.frame.sequence_number) + le32(p.checksum)
}

/// The packet that `bytes` is the serialised form of, if there is one. Both
/// of its times are `stamp`, the time of arrival.
pub open spec fn decoded(bytes: Seq<u8>, stamp: u64) -> Option<PacketView> {
    if bytes.len() < WIRE_OVERHEAD {
        None
    } else {
        let len = le64_at(bytes, 10);
        let count = le64_at(bytes, 18 + len);
        if len != bytes.len() - WIRE_OVERHEAD {
            None
        } else if PacketType::spec_from_code(bytes[1]) is None {
            None
        } else if count > usize::MAX {
            None
        } else {
            Some(
                PacketView {
                    protocol_version: bytes[0],
                    packet_type: PacketType::spec_from_code(bytes[1])->0,
                    sender_id: le32_at(bytes, 2),
                    session_id: le32_at(bytes, 6),
                    frame: FrameView {
                        data: bytes.subrange(18, 18 + len),
                        original_sample_count: count as usize,
                        timestamp: stamp,
                        sequence_number: le64_at(bytes, 26 + len),
                    },
                    send_timestamp: stamp,
                    checksum: le32_at(bytes, 34 + len),
                },
            )
        }
    }
}

/// `p` with both of its times set to `stamp`.
pub open spec fn restamped(p: PacketView, stamp: u64) -> PacketView {
    PacketView {
        send_timestamp: stamp,
        frame: FrameView { timestamp: stamp, ..p.frame },
        ..p
    }
}

/// Four little-endian bytes of a number put together give the number.
pub proof fn lemma_word32_of_le32(x: u32)
    ensures
        le32(x).len() == 4,
        word32(le32(x)[0], le32(x)[1], le32(x)[2], le32(x)[3]) == x,
{
    assert(word32(
        (x & 0xff) as u8,
        ((x >> 8) & 0xff) as u8,
        ((x >> 16) & 0xff) as u8,
        ((x >> 24) & 0xff) as u8,
    ) == x) by (bit_vector);
}

/// Eight little-endian bytes of a number put together give the number.
pub proof fn lemma_word64_of_le64(x: u64)
    ensures
        le64(x).len() == 8,
        word64(
            le64(x)[0],
            le64(x)[1],
            le64(x)[2],
            le64(x)[3],
            le64(x)[4],
            le64(x)[5],
            le64(x)[6],
            le64(x)[7],
        ) == x,
{
    assert(word64(
        (x & 0xff) as u8,
        ((x >> 8) & 0xff) as u8,
        ((x >> 16) & 0xff) as u8,
        ((x >> 24) & 0xff) as u8,
        ((x >> 32) & 0xff) as u8,
        ((x >> 40) & 0xff) as u8,
        ((x >> 48) & 0xff) as u8,
        ((x >> 56) & 0xff) as u8,
    ) == x) by (bit_vector);
}

/// The little-endian bytes of four bytes put together are those bytes.
pub proof fn lemma_le32_of_word32(b0: u8, b1: u8, b2: u8, b3: u8)
    ensures
        le32(word32(b0, b1, b2, b3)) == seq![b0, b1, b2, b3],
{
    let x = word32(b0, b1, b2, b3);
    assert((x & 0xff) as u8 == b0 && ((x >> 8) & 0xff) as u8 == b1 && ((x >> 16) & 0xff) as u8
        == b2 && ((x >> 24) & 0xff) as u8 == b3) by (bit_vector)
        requires
            x == (b0 as u32) | ((b1 as u32) << 8) | ((b2 as u32) << 16) | ((b3 as u32) << 24),
    ;
}

/// The little-endian bytes of eight bytes put together are those bytes.
pub proof fn lemma_le64_of_word64(b0: u8, b1: u8, b2: u8, b3: u8, b4: u8, b5: u8, b6: u8, b7: u8)
    ensures
        le64(word64(b0, b1, b2, b3, b4, b5, b6, b7)) == seq![b0, b1, b2, b3, b4, b5, b6, b7],
{
    let x = word64(b0, b1, b2, b3, b4, b5, b6, b7);
    assert((x & 0xff) as u8 == b0 && ((x >> 8) & 0xff) as u8 == b1 && ((x >> 16) & 0xff) as u8
        == b2 && ((x >> 24) & 0xff) as u8 == b3 && ((x >> 32) & 0xff) as u8 == b4 && ((x >> 40)
        & 0xff) as u8 == b5 && ((x >> 48) & 0xff) as u8 == b6 && ((x >> 56) & 0xff) as u8 == b7)
        by (bit_vector)
        requires
            x == (b0 as u64) | ((b1 as u64) << 8) | ((b2 as u64) << 16) | ((b3 as u64) << 24) | ((
            b4 as u64) << 32) | ((b5 as u64) << 40) | ((b6 as u64) << 48) | ((b7 as u64) << 56),
    ;
}

/// Deserialising a serialised packet gives the packet back, but for its
/// times, which become the time of arrival.
pub proof fn law_wire_round_trip(p: PacketView, stamp: u64)
    ensures
        wire_bytes(p).len() == WIRE_OVERHEAD + p.frame.data.len(),
        p.frame.data.len() <= u64::MAX ==> decoded(wire_bytes(p), stamp) == Some(
            restamped(p, stamp),
        ),
{
    let bytes = wire_bytes(p);
    let n = p.frame.data.len() as int;
    lemma_word32_of_le32(p.sender_id);
    lemma_word32_of_le32(p.session_id);
    lemma_word32_of_le32(p.checksum);
    lemma_word64_of_le64(p.frame.data.len() as u64);
    lemma_word64_of_le64(p.frame.original_sample_count as u64);
    lemma_word64_of_le64(p.frame.sequence_number);
    assert(bytes.len() == WIRE_OVERHEAD + n);
    if n <= u64::MAX {
        assert(le32_at(bytes, 2) == p.sender_id);
        assert(le32_at(bytes, 6) == p.session_id);
        assert(le64_at(bytes, 10) == n);
        assert(bytes.subrange(18, 18 + n) == p.frame.data);
        assert(le64_at(bytes, 18 + n) == p.frame.original_sample_count as u64);
        assert(le64_at(bytes, 26 + n) == p.frame.sequence_number);
        assert(le32_at(bytes, 34 + n) == p.checksum);
        assert(bytes[1] == p.packet_type.spec_code());
        assert(PacketType::spec_from_code(p.packet_type.spec_code()) == Some(p.packet_type));
    }
}

/// Whatever deserialises to a packet is that packet's serialised form.
pub proof fn law_decoded_is_serialised(bytes: Seq<u8>, stamp: u64)
    requires
        decoded(bytes, stamp) is Some,
    ensures
        wire_bytes(decoded(bytes, stamp)->0) == bytes,
{
    let p = decoded(bytes, stamp)->0;
    let n = le64_at(bytes, 10) as int;
    lemma_le32_of_word32(bytes[2], bytes[3], bytes[4], bytes[5]);
    lemma_le32_of_word32(bytes[6], bytes[7], bytes[8], bytes[9]);
    lemma_le64_of_word64(
        bytes[10],
        bytes[11],
        bytes[12],
        bytes[13],
        bytes[14],
        bytes[15],
        bytes[16],
        bytes[17],
    );
    lemma_le64_of_word64(
        bytes[18 + n],
        bytes[19 + n],
        bytes[20 + n],
        bytes[21 + n],
        bytes[22 + n],
        bytes[23 + n],
        bytes[24 + n],
        bytes[25 + n],
    );
    lemma_le64_of_word64(
        bytes[26 + n],
        bytes[27 + n],
        bytes[28 + n],
        bytes[29 + n],
        bytes[30 + n],
        bytes[31 + n],
        bytes[32 + n],
        bytes[33 + n],
    );
    lemma_le32_of_word32(bytes[34 + n], bytes[35 + n], bytes[36 + n], bytes[37 + n]);
    assert(p.frame.data.len() == n);
    assert(p.frame.original_sample_count as u64 == le64_at(bytes, 18 + n));
    assert(wire_bytes(p) =~= bytes);
}

/// A packet whose checksum was right when it was serialised has a right
/// checksum when it is read back.
pub proof fn law_checksum_survives_wire(p: PacketView, stamp: u64)
    requires
        p.frame.data.len() <= u64::MAX,
    ensures
        decoded(wire_bytes(p), stamp) is Some,
        decoded(wire_bytes(p), stamp)->0.checksum == p.checksum,
        checksum_of(decoded(wire_bytes(p), stamp)->0) == checksum_of(p),
        checksum_valid(decoded(wire_bytes(p), stamp)->0) == checksum_valid(p),
{
    law_wire_round_trip(p, stamp);
}

fn push_u32(out: &mut Vec<u8>, x: u32)
    ensures
        final(out)@ == old(out)@ + le32(x),
{
    out.push((x & 0xff) as u8);
    out.push(((x >> 8) & 0xff) as u8);
    out.push(((x >> 16) & 0xff) as u8);
    out.push(((x >> 24) & 0xff) as u8);
    assert(out@ =~= old(out)@ + le32(x));
}

fn push_u64(out: &mut Vec<u8>, x: u64)
    ensures
        final(out)@ == old(out)@ + le64(x),
{
    out.push((x & 0xff) as u8);
    out.push(((x >> 8) & 0xff) as u8);
    out.push(((x >> 16) & 0xff) as u8);
    out.push(((x >> 24) & 0xff) as u8);
    out.push(((x >> 32) & 0xff) as u8);
    out.push(((x >> 40) & 0xff) as u8);
    out.push(((x >> 48) & 0xff) as u8);
    out.push(((x >> 56) & 0xff) as u8);
    assert(out@ =~= old(out)@ + le64(x));
}

fn read_u32(bytes: &[u8], at: usize) -> (x: u32)
    requires
        at + 4 <= bytes@.len(),
    ensures
        x == le32_at(bytes@, at as int),
{
    (bytes[at] as u32) | ((bytes[at + 1] as u32) << 8) | ((bytes[at + 2] as u32) << 16) | ((
    bytes[at + 3] as u32) << 24)
}

fn read_u64(bytes: &[u8], at: usize) -> (x: u64)
    requires
        at + 8 <= bytes@.len(),
    ensures
        x == le64_at(bytes@, at as int),
{
    (bytes[at] as u64) | ((bytes[at + 1] as u64) << 8) | ((bytes[at + 2] as u64) << 16) | ((
    bytes[at + 3] as u64) << 24) | ((bytes[at + 4] as u64) << 32) | ((bytes[at + 5] as u64) << 40)
        | ((bytes[at + 6] as u64) << 48) | ((bytes[at + 7] as u64) << 56)
}

/// Writes a packet out in wire format, as it stands: the checksum is the
/// stored one.
pub fn serialize(packet: &NetworkPacket) -> (out: Vec<u8>)
    ensures
        out@ == wire_bytes(packet@),
        out@.len() == WIRE_OVERHEAD + packet@.frame.data.len(),
{
    let mut out: Vec<u8> = Vec::new();
    out.push(packet.protocol_version);
    out.push(packet.packet_type.code());
    push_u32(&mut out, packet.sender_id);
    push_u32(&mut out, packet.session_id);
    push_u64(&mut out, packet.compressed_frame.data.len() as u64);
    assert(out@ =~= seq![packet@.protocol_version, packet@.packet_type.spec_code()] + le32(
        packet@.sender_id,
    ) + le32(packet@.session_id) + le64(packet@.frame.data.len() as u64));
    let ghost head = out@;
    let mut i: usize = 0;
    while i < packet.compressed_frame.data.len()
        invariant
            i <= packet.compressed_frame.data.len(),
            out@ == head + packet.compressed_frame.data@.subrange(0, i as int),
        decreases packet.compressed_frame.data.len() - i,
    {
        out.push(packet.compressed_frame.data[i]);
        i += 1;
        assert(out@ =~= head + packet.compressed_frame.data@.subrange(0, i as int));
    }
    assert(packet.compressed_frame.data@.subrange(0, i as int) == packet.compressed_frame.data@);
    push_u64(&mut out, packet.compressed_frame.original_sample_count as u64);
    push_u64(&mut out, packet.compressed_frame.sequence_number);
    push_u32(&mut out, packet.checksum);
    proof {
        law_wire_round_trip(packet@, 0);
    }
    out
}

/// Reads a packet from wire format. Both of its times are set to
/// `received_at`. Fails exactly on bytes that are no packet's serialised
/// form; neither the version nor the checksum is judged here.
pub fn deserialize(bytes: &[u8], received_at: u64) -> (packet: Option<NetworkPacket>)
    ensures
        packet is Some <==> decoded(bytes@, received_at) is Some,
        packet is Some ==> packet->0@ == decoded(bytes@, received_at)->0,
        packet is Some ==> wire_bytes(packet->0@) == bytes@,
{
    let total: usize = bytes.len();
    if total < WIRE_OVERHEAD {
        return None;
    }
    let len: u64 = read_u64(bytes, 10);
    if len != (total - WIRE_OVERHEAD) as u64 {
        return None;
    }
    let n: usize = total - WIRE_OVERHEAD;
    let packet_type = match PacketType::from_code(bytes[1]) {
        Some(t) => t,
        None => {
            return None;
        },
    };
    let count: u64 = read_u64(bytes, 18 + n);
    if count > usize::MAX as u64 {
        return None;
    }
    let mut data: Vec<u8> = Vec::with_capacity(n);
    let mut i: usize = 0;
    while i < n
        invariant
            i <= n,
            total == bytes@.len(),
            n + WIRE_OVERHEAD == total,
            data@ == bytes@.subrange(18, 18 + i),
        decreases n - i,
    {
        data.push(bytes[18 + i]);
        i += 1;
        assert(data@ =~= bytes@.subrange(18, 18 + i));
    }
    let packet = NetworkPacket {
        protocol_version: bytes[0],
        packet_type,
        sender_id: read_u32(bytes, 2),
        session_id: read_u32(bytes, 6),
        compressed_frame: CompressedFrame {
            data,
            original_sample_count: count as usize,
            timestamp: received_at,
            sequence_number: read_u64(bytes, 26 + n),
        },
        send_timestamp: received_at,
        checksum: read_u32(bytes, 34 + n),
    };
    proof {
        law_decoded_is_serialised(bytes@, received_at);
    }
    Some(packet)
}

} // verus!
