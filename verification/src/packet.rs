//! The unit that crosses the network, and its checksum.

use vstd::prelude::*;
use crate::frame::{CompressedFrame, FrameView, elapsed_ms};

verus! {

/// What a packet is for.
#[derive(Clone, Copy, Debug, PartialEq, Eq, Structural)]
pub enum PacketType {
    /// Carries one compressed audio frame.
    Audio,
    /// Keep-alive.
    Heartbeat,
    /// Opens a session.
    Handshake,
    /// Closes a session.
    Disconnect,
}

impl PacketType {
    /// The byte that stands for the type on the wire and in the checksum.
    pub open spec fn spec_code(self) -> u8 {
        match self {
            PacketType::Audio => 1,
            PacketType::Heartbeat => 2,
            PacketType::Handshake => 3,
            PacketType::Disconnect => 4,
        }
    }

    /// The type a wire byte stands for, if any.
    pub open spec fn spec_from_code(code: u8) -> Option<PacketType> {
        if code == 1 {
            Some(PacketType::Audio)
        } else if code == 2 {
            Some(PacketType::Heartbeat)
        } else if code == 3 {
            Some(PacketType::Handshake)
        } else if code == 4 {
            Some(PacketType::Disconnect)
        } else {
            None
        }
    }

    /// The byte that stands for the type on the wire and in the checksum.
    #[verifier::when_used_as_spec(spec_code)]
    pub fn code(self) -> (c: u8)
        ensures
            c == self.spec_code(),
            1 <= c <= 4,
    {
        match self {
            PacketType::Audio => 1,
            PacketType::Heartbeat => 2,
            PacketType::Handshake => 3,
            PacketType::Disconnect => 4,
        }
    }

    /// The type a wire byte stands for, if any.
    pub fn from_code(code: u8) -> (t: Option<PacketType>)
        ensures
            t == Self::spec_from_code(code),
            t is Some <==> 1 <= code <= 4,
            t is Some ==> t->0.spec_code() == code,
    {
        if code == 1 {
            Some(PacketType::Audio)
        } else if code == 2 {
            Some(PacketType::Heartbeat)
        } else if code == 3 {
            Some(PacketType::Handshake)
        } else if code == 4 {
            Some(PacketType::Disconnect)
        } else {
            None
        }
    }
}

/// Mathematical value of a [`NetworkPacket`].
pub struct PacketView {
    pub protocol_version: u8,
    pub packet_type: PacketType,
    pub sender_id: u32,
    pub session_id: u32,
    pub frame: FrameView,
    pub send_timestamp: u64,
    pub checksum: u32,
}

/// One datagram's worth of protocol data.
#[derive(Debug)]
pub struct NetworkPacket {
    pub protocol_version: u8,
    pub packet_type: PacketType,
    /// Identifies the sending process.
    pub sender_id: u32,
    /// Identifies the call.
    pub session_id: u32,
    /// Payload; empty for everything but audio.
    pub compressed_frame: CompressedFrame,
    /// Local time of sending or of arrival, in milliseconds. Never sent.
    pub send_timestamp: u64,
    pub checksum: u32,
}

impl View for NetworkPacket {
    type V = PacketView;

    open spec fn view(&self) -> PacketView {
        PacketView {
            protocol_version: self.protocol_version,
            packet_type: self.packet_type,
            sender_id: self.sender_id,
            session_id: self.session_id,
            frame: self.compressed_frame@,
            send_timestamp: self.send_timestamp,
            checksum: self.checksum,
        }
    }
}

/// Byte `i` of `data`, or zero past its end.
pub open spec fn padded_byte(data: Seq<u8>, i: int) -> u8 {
    if 0 <= i < data.len() {
        data[i]
    } else {
        0
    }
}

/// The little-endian word made of the four bytes from `start`, padded with
/// zeros past the end of `data`.
pub open spec fn chunk_word(data: Seq<u8>, start: int) -> u32 {
    (padded_byte(data, start) as u32) | ((padded_byte(data, start + 1) as u32) << 8) | ((
    padded_byte(data, start + 2) as u32) << 16) | ((padded_byte(data, start + 3) as u32) << 24)
}

/// XOR of the first `chunks` four-byte words of `data`.
pub open spec fn fold_words(data: Seq<u8>, chunks: nat) -> u32
    decreases chunks,
{
    if chunks == 0 {
        0
    } else {
        fold_words(data, (chunks - 1) as nat) ^ chunk_word(data, 4 * (chunks - 1))
    }
}

/// Number of four-byte words needed to cover `len` bytes.
pub open spec fn word_count(len: nat) -> nat {
    ((len + 3) / 4) as nat
}

/// XOR of all of `data`, taken as little-endian words, the last one padded.
pub open spec fn fold_data(data: Seq<u8>) -> u32 {
    fold_words(data, word_count(data.len()))
}

/// The checksum that belongs to a packet with these contents. The stored
/// checksum and the send time take no part in it.
pub open spec fn checksum_of(p: PacketView) -> u32 {
    (p.protocol_version as u32) ^ (p.packet_type.spec_code() as u32) ^ p.sender_id ^ p.session_id
        ^ ((p.frame.sequence_number & 0xffff_ffff) as u32) ^ ((p.frame.original_sample_count
        & 0xffff_ffff) as u32) ^ fold_data(p.frame.data)
}

/// Whether a packet's stored checksum is the one its contents call for.
pub open spec fn checksum_valid(p: PacketView) -> bool {
    p.checksum == checksum_of(p)
}

/// The control packet of the given type from the given sender, stamped
/// `now`: no payload, and the checksum its contents call for.
pub open spec fn control_view(packet_type: PacketType, sender_id: u32, session_id: u32, now: u64) -> PacketView {
    let blank = PacketView {
        protocol_version: CURRENT_PROTOCOL_VERSION,
        packet_type,
        sender_id,
        session_id,
        frame: FrameView {
            data: Seq::<u8>::empty(),
            original_sample_count: 0,
            timestamp: now,
            sequence_number: 0,
        },
        send_timestamp: now,
        checksum: 0,
    };
    PacketView { checksum: checksum_of(blank), ..blank }
}

/// The audio packet around `frame` from the given sender, stamped `now`,
/// with the checksum its contents call for.
pub open spec fn audio_view(frame: FrameView, sender_id: u32, session_id: u32, now: u64) -> PacketView {
    let blank = PacketView {
        protocol_version: CURRENT_PROTOCOL_VERSION,
        packet_type: PacketType::Audio,
        sender_id,
        session_id,
        frame,
        send_timestamp: now,
        checksum: 0,
    };
    PacketView { checksum: checksum_of(blank), ..blank }
}

/// XOR of a payload, word by word.
pub fn fold_payload(data: &Vec<u8>) -> (acc: u32)
    ensures
        acc == fold_data(data@),
{
    let n: usize = data.len();
    let chunks: usize = n / 4 + (if n % 4 == 0 { 0 } else { 1 });
    assert(chunks == word_count(n as nat));
    let mut acc: u32 = 0;
    let mut k: usize = 0;
    while k < chunks
        invariant
            k <= chunks,
            n == data.len(),
            chunks == word_count(n as nat),
            acc == fold_words(data@, k as nat),
        decreases chunks - k,
    {
        let start: usize = 4 * k;
        let b0: u8 = if start < n { data[start] } else { 0 };
        let b1: u8 = if start + 1 < n { data[start + 1] } else { 0 };
        let b2: u8 = if start + 2 < n { data[start + 2] } else { 0 };
        let b3: u8 = if start + 3 < n { data[start + 3] } else { 0 };
        let word: u32 = (b0 as u32) | ((b1 as u32) << 8) | ((b2 as u32) << 16) | ((b3 as u32)
            << 24);
        assert(word == chunk_word(data@, start as int));
        acc = acc ^ word;
        k += 1;
    }
    acc
}

impl Clone for NetworkPacket {
    fn clone(&self) -> (out: Self)
        ensures
            out@ == self@,
    {
        NetworkPacket {
            protocol_version: self.protocol_version,
            packet_type: self.packet_type,
            sender_id: self.sender_id,
            session_id: self.session_id,
            compressed_frame: self.compressed_frame.clone(),
            send_timestamp: self.send_timestamp,
            checksum: self.checksum,
        }
    }
}

/// The only protocol version there is.
pub const CURRENT_PROTOCOL_VERSION: u8 = 1;

/// Largest datagram the transport will send.
pub const MAX_PACKET_SIZE: usize = 1400;

/// Bytes the size estimate allows for everything but the payload.
pub const HEADER_ESTIMATE: usize = 32;

impl NetworkPacket {
    /// The only protocol version there is.
    pub const CURRENT_PROTOCOL_VERSION: u8 = CURRENT_PROTOCOL_VERSION;

    /// Largest datagram the transport will send.
    pub const MAX_PACKET_SIZE: usize = MAX_PACKET_SIZE;

    /// A packet of the given type with a correct checksum, stamped `now`.
    pub fn new_control(packet_type: PacketType, sender_id: u32, session_id: u32, now: u64) -> (packet:
        Self)
        ensures
            packet@ == control_view(packet_type, sender_id, session_id, now),
            checksum_valid(packet@),
    {
        let mut packet = NetworkPacket {
            protocol_version: CURRENT_PROTOCOL_VERSION,
            packet_type,
            sender_id,
            session_id,
            compressed_frame: CompressedFrame::empty(now),
            send_timestamp: now,
            checksum: 0,
        };
        let sum = packet.calculate_checksum();
        packet.checksum = sum;
        packet
    }

    /// An audio packet around `compressed_frame` with a correct checksum,
    /// stamped `now`.
    pub fn new_audio(compressed_frame: CompressedFrame, sender_id: u32, session_id: u32, now: u64) -> (packet:
        Self)
        ensures
            packet@ == audio_view(compressed_frame@, sender_id, session_id, now),
            checksum_valid(packet@),
    {
        let mut packet = NetworkPacket {
            protocol_version: CURRENT_PROTOCOL_VERSION,
            packet_type: PacketType::Audio,
            sender_id,
            session_id,
            compressed_frame,
            send_timestamp: now,
            checksum: 0,
        };
        let sum = packet.calculate_checksum();
        packet.checksum = sum;
        packet
    }

    /// A keep-alive packet with a correct checksum, stamped `now`.
    pub fn new_heartbeat(sender_id: u32, session_id: u32, now: u64) -> (packet: Self)
        ensures
            packet@ == control_view(PacketType::Heartbeat, sender_id, session_id, now),
            checksum_valid(packet@),
    {
        Self::new_control(PacketType::Heartbeat, sender_id, session_id, now)
    }

    /// The checksum the packet's present contents call for.
    pub fn calculate_checksum(&self) -> (sum: u32)
        ensures
            sum == checksum_of(self@),
    {
        let mut sum: u32 = self.protocol_version as u32;
        sum = sum ^ (self.packet_type.code() as u32);
        sum = sum ^ self.sender_id;
        sum = sum ^ self.session_id;
        sum = sum ^ ((self.compressed_frame.sequence_number & 0xffff_ffff) as u32);
        sum = sum ^ ((self.compressed_frame.original_sample_count & 0xffff_ffff) as u32);
        sum = sum ^ fold_payload(&self.compressed_frame.data);
        sum
    }

    /// Whether the stored checksum matches the contents.
    pub fn verify_checksum(&self) -> (ok: bool)
        ensures
            ok == checksum_valid(self@),
    {
        self.checksum == self.calculate_checksum()
    }

    /// Size estimate that avoids serialising: a fixed header allowance
    /// plus the payload.
    pub fn estimated_size(&self) -> (size: usize)
        requires
            self.compressed_frame.data@.len() <= usize::MAX - HEADER_ESTIMATE,
        ensures
            size == HEADER_ESTIMATE + self@.frame.data.len(),
    {
        HEADER_ESTIMATE + self.compressed_frame.data.len()
    }

    /// Whether the estimate exceeds the largest datagram.
    pub fn is_too_large(&self) -> (too_large: bool)
        ensures
            too_large == (HEADER_ESTIMATE + self@.frame.data.len() > MAX_PACKET_SIZE),
    {
        self.compressed_frame.data.len() > MAX_PACKET_SIZE - HEADER_ESTIMATE
    }

    /// Time since the packet was stamped, as seen at `now`.
    pub fn age(&self, now: u64) -> (ms: u64)
        ensures
            ms == elapsed_ms(self@.send_timestamp, now),
    {
        now.saturating_sub(self.send_timestamp)
    }

    /// Whether the packet is older than `max_age` milliseconds at `now`.
    pub fn is_stale(&self, now: u64, max_age: u64) -> (stale: bool)
        ensures
            stale == (elapsed_ms(self@.send_timestamp, now) > max_age),
    {
        self.age(now) > max_age
    }
}

/// Word `k` of a payload.
pub open spec fn word_at(data: Seq<u8>, k: int) -> u32 {
    chunk_word(data, 4 * k)
}

/// Two payloads of one length that differ in byte `j` alone differ in
/// the word that holds it, and in no other.
proof fn lemma_one_word_differs(d1: Seq<u8>, d2: Seq<u8>, j: int)
    requires
        d1.len() == d2.len(),
        0 <= j < d1.len(),
        d1[j] != d2[j],
        forall|i: int| 0 <= i < d1.len() && i != j ==> d1[i] == d2[i],
    ensures
        word_at(d1, j / 4) != word_at(d2, j / 4),
        forall|k: int| 0 <= k && k != j / 4 ==> #[trigger] word_at(d1, k) == word_at(d2, k),
{
    let start = 4 * (j / 4);
    let a0 = padded_byte(d1, start);
    let a1 = padded_byte(d1, start + 1);
    let a2 = padded_byte(d1, start + 2);
    let a3 = padded_byte(d1, start + 3);
    let b0 = padded_byte(d2, start);
    let b1 = padded_byte(d2, start + 1);
    let b2 = padded_byte(d2, start + 2);
    let b3 = padded_byte(d2, start + 3);
    assert(a0 != b0 || a1 != b1 || a2 != b2 || a3 != b3);
    assert((a0 != b0 || a1 != b1 || a2 != b2 || a3 != b3) ==> ((a0 as u32) | ((a1 as u32) << 8) | ((
    a2 as u32) << 16) | ((a3 as u32) << 24)) != ((b0 as u32) | ((b1 as u32) << 8) | ((b2 as u32)
        << 16) | ((b3 as u32) << 24))) by (bit_vector);
    assert forall|k: int| 0 <= k && k != j / 4 implies #[trigger] word_at(d1, k) == word_at(
        d2,
        k,
    ) by {
        assert(padded_byte(d1, 4 * k) == padded_byte(d2, 4 * k));
        assert(padded_byte(d1, 4 * k + 1) == padded_byte(d2, 4 * k + 1));
        assert(padded_byte(d1, 4 * k + 2) == padded_byte(d2, 4 * k + 2));
        assert(padded_byte(d1, 4 * k + 3) == padded_byte(d2, 4 * k + 3));
    }
}

/// Where two payloads agree in every word but word `c`, the folds of
/// their first `m` words differ by what those two words differ by.
proof fn lemma_fold_differs_by_word(d1: Seq<u8>, d2: Seq<u8>, c: nat, m: nat)
    requires
        forall|k: int| 0 <= k && k != c ==> #[trigger] word_at(d1, k) == word_at(d2, k),
    ensures
        fold_words(d1, m) ^ fold_words(d2, m) == (if m > c {
            word_at(d1, c as int) ^ word_at(d2, c as int)
        } else {
            0
        }),
    decreases m,
{
    if m == 0 {
        assert(0u32 ^ 0u32 == 0u32) by (bit_vector);
    } else {
        lemma_fold_differs_by_word(d1, d2, c, (m - 1) as nat);
        let f1 = fold_words(d1, (m - 1) as nat);
        let f2 = fold_words(d2, (m - 1) as nat);
        let w1 = word_at(d1, m - 1);
        let w2 = word_at(d2, m - 1);
        if m - 1 == c {
            assert(f1 ^ f2 == 0 ==> (f1 ^ w1) ^ (f2 ^ w2) == w1 ^ w2) by (bit_vector);
        } else {
            assert(w1 == w2);
            assert((f1 ^ w1) ^ (f2 ^ w1) == f1 ^ f2) by (bit_vector);
        }
    }
}

/// A change to one byte of the payload never goes unseen: of a packet
/// with a right checksum and the same packet with one payload byte
/// changed, the second has a wrong one.
pub proof fn law_payload_byte_change_detected(p: PacketView, q: PacketView, j: int)
    requires
        checksum_valid(p),
        q == (PacketView { frame: FrameView { data: q.frame.data, ..p.frame }, ..p }),
        q.frame.data.len() == p.frame.data.len(),
        0 <= j < p.frame.data.len(),
        q.frame.data[j] != p.frame.data[j],
        forall|i: int| 0 <= i < p.frame.data.len() && i != j ==> q.frame.data[i] == p.frame.data[i],
    ensures
        !checksum_valid(q),
{
    let d1 = p.frame.data;
    let d2 = q.frame.data;
    let c = (j / 4) as nat;
    let m = word_count(d1.len());
    lemma_one_word_differs(d1, d2, j);
    lemma_fold_differs_by_word(d1, d2, c, m);
    let f1 = fold_data(d1);
    let f2 = fold_data(d2);
    let w1 = word_at(d1, c as int);
    let w2 = word_at(d2, c as int);
    assert(m > c);
    assert(f1 ^ f2 == w1 ^ w2);
    let h = (p.protocol_version as u32) ^ (p.packet_type.spec_code() as u32) ^ p.sender_id
        ^ p.session_id ^ ((p.frame.sequence_number & 0xffff_ffff) as u32) ^ ((
    p.frame.original_sample_count & 0xffff_ffff) as u32);
    assert(w1 != w2 && f1 ^ f2 == w1 ^ w2 ==> h ^ f1 != h ^ f2) by (bit_vector);
}

/// A change to the sender or to the session identifier alone never goes
/// unseen.
pub proof fn law_identifier_change_detected(p: PacketView, q: PacketView)
    requires
        checksum_valid(p),
        q == (PacketView { sender_id: q.sender_id, ..p }) || q == (PacketView {
            session_id: q.session_id,
            ..p
        }),
        q != p,
    ensures
        !checksum_valid(q),
{
    let v = p.protocol_version as u32;
    let t = p.packet_type.spec_code() as u32;
    let n = (p.frame.sequence_number & 0xffff_ffff) as u32;
    let k = (p.frame.original_sample_count & 0xffff_ffff) as u32;
    let f = fold_data(p.frame.data);
    let s1 = p.sender_id;
    let s2 = q.sender_id;
    let e1 = p.session_id;
    let e2 = q.session_id;
    assert(s1 != s2 ==> (v ^ t ^ s1 ^ e1 ^ n ^ k ^ f) != (v ^ t ^ s2 ^ e1 ^ n ^ k ^ f))
        by (bit_vector);
    assert(e1 != e2 ==> (v ^ t ^ s1 ^ e1 ^ n ^ k ^ f) != (v ^ t ^ s1 ^ e2 ^ n ^ k ^ f))
        by (bit_vector);
}

} // verus!
