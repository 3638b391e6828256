//! The jitter buffer: packets wait here, ordered by sequence number, until
//! they can be handed on in order.

use std::collections::BTreeMap;
use vstd::prelude::*;
use crate::packet::{NetworkPacket, PacketView};

verus! {

/// Mathematical value of a [`JitterBuffer`].
pub struct JitterView {
    /// The waiting packets, lowest sequence number first.
    pub buffered: Seq<PacketView>,
    pub max_size: nat,
    /// The sequence number the next packet handed on should have.
    pub expected: u64,
    /// Sequence numbers skipped because a later packet was waiting.
    pub lost: u64,
}

/// The sequence number a packet carries.
pub open spec fn seq_of(p: PacketView) -> u64 {
    p.frame.sequence_number
}

/// Whether some waiting packet has sequence number `x`.
pub open spec fn holds(s: Seq<PacketView>, x: u64) -> bool {
    exists|i: int| 0 <= i < s.len() && seq_of(#[trigger] s[i]) == x
}

/// Strictly increasing sequence numbers.
pub open spec fn ascending(s: Seq<PacketView>) -> bool {
    forall|i: int, j: int| 0 <= i < j < s.len() ==> seq_of(#[trigger] s[i]) < seq_of(#[trigger] s[j])
}

/// How many of the packets have a sequence number below `x`.
pub open spec fn rank(s: Seq<PacketView>, x: u64) -> int
    decreases s.len(),
{
    if s.len() == 0 {
        0
    } else {
        rank(s.drop_last(), x) + if seq_of(s.last()) < x {
            1int
        } else {
            0int
        }
    }
}

impl JitterView {
    /// What holds of every buffer: the packets wait in ascending order,
    /// none is behind the expected one, none carries the last sequence
    /// number there is, and the count of losses is behind the pointer.
    pub open spec fn wf(self) -> bool {
        &&& ascending(self.buffered)
        &&& forall|i: int|
            0 <= i < self.buffered.len() ==> self.expected <= seq_of(#[trigger] self.buffered[i])
                < u64::MAX
        &&& self.lost < self.expected
        &&& self.buffered.len() <= self.max_size || self.buffered.len() <= 1
    }

    /// Whether a push of `p` is taken: it is neither behind the expected
    /// sequence number nor already waiting.
    pub open spec fn accepts(self, p: PacketView) -> bool {
        seq_of(p) >= self.expected && !holds(self.buffered, seq_of(p))
    }

    /// Whether a push that is taken pushes the lowest waiting packet out.
    pub open spec fn evicts(self, p: PacketView) -> bool {
        self.accepts(p) && self.buffered.len() >= self.max_size && self.buffered.len() > 0
    }

    /// The waiting packets that a push that is taken leaves in place.
    pub open spec fn kept(self, p: PacketView) -> Seq<PacketView> {
        if self.evicts(p) {
            self.buffered.drop_first()
        } else {
            self.buffered
        }
    }

    /// The buffer after a push of `p`.
    pub open spec fn after_push(self, p: PacketView) -> JitterView {
        if self.accepts(p) {
            JitterView {
                buffered: self.kept(p).insert(rank(self.kept(p), seq_of(p)), p),
                ..self
            }
        } else {
            self
        }
    }

    /// The packet a pop hands on: the lowest one waiting.
    pub open spec fn popped(self) -> Option<PacketView> {
        if self.buffered.len() > 0 {
            Some(self.buffered[0])
        } else {
            None
        }
    }

    /// The buffer after a pop: the lowest packet is gone, the sequence
    /// numbers between the expected one and it are counted as lost, and
    /// the pointer stands behind it.
    pub open spec fn after_pop(self) -> JitterView {
        if self.buffered.len() > 0 {
            JitterView {
                buffered: self.buffered.drop_first(),
                max_size: self.max_size,
                expected: (seq_of(self.buffered[0]) + 1) as u64,
                lost: (self.lost + (seq_of(self.buffered[0]) - self.expected)) as u64,
            }
        } else {
            self
        }
    }

    /// The buffer after pops until none is left waiting: empty, with the
    /// pointer behind the highest packet that waited and every sequence
    /// number passed over on the way counted as lost.
    pub open spec fn after_drain(self) -> JitterView {
        if self.buffered.len() > 0 {
            JitterView {
                buffered: Seq::empty(),
                max_size: self.max_size,
                expected: (seq_of(self.buffered.last()) + 1) as u64,
                lost: (self.lost + (seq_of(self.buffered.last()) + 1 - self.expected)
                    - self.buffered.len()) as u64,
            }
        } else {
            self
        }
    }
}

/// In an ascending sequence the rank of `x` is the place where the
/// sequence numbers reach it.
pub proof fn lemma_rank_is_place(s: Seq<PacketView>, x: u64, k: int)
    requires
        ascending(s),
        0 <= k <= s.len(),
        forall|i: int| 0 <= i < k ==> seq_of(#[trigger] s[i]) < x,
        forall|i: int| k <= i < s.len() ==> seq_of(#[trigger] s[i]) >= x,
    ensures
        rank(s, x) == k,
    decreases s.len(),
{
    if s.len() > 0 {
        let t = s.drop_last();
        if k == s.len() {
            lemma_rank_is_place(t, x, k - 1);
        } else {
            lemma_rank_is_place(t, x, k);
        }
    }
}

/// The rank of `x` in an ascending sequence parts it: below the rank the
/// sequence numbers are under `x`, from the rank on they are not.
pub proof fn lemma_rank_parts(s: Seq<PacketView>, x: u64)
    requires
        ascending(s),
    ensures
        0 <= rank(s, x) <= s.len(),
        forall|i: int| 0 <= i < rank(s, x) ==> seq_of(#[trigger] s[i]) < x,
        forall|i: int| rank(s, x) <= i < s.len() ==> seq_of(#[trigger] s[i]) >= x,
    decreases s.len(),
{
    if s.len() > 0 {
        let t = s.drop_last();
        assert(ascending(t));
        if seq_of(s.last()) < x {
            assert forall|i: int| 0 <= i < t.len() implies seq_of(#[trigger] t[i]) < x by {
                assert(seq_of(s[i]) < seq_of(s[s.len() - 1]));
            }
            lemma_rank_is_place(t, x, t.len() as int);
        } else {
            lemma_rank_parts(t, x);
            assert forall|i: int| rank(s, x) <= i < s.len() implies seq_of(#[trigger] s[i])
                >= x by {
                if i < t.len() {
                    assert(s[i] == t[i]);
                }
            }
        }
        assert forall|i: int| 0 <= i < rank(s, x) implies seq_of(#[trigger] s[i]) < x by {
            if i < t.len() {
                assert(s[i] == t[i]);
            }
        }
    }
}

/// Dropping the lowest packet of a well-formed buffer's contents keeps
/// them ascending and within bounds.
proof fn lemma_tail(s: Seq<PacketView>, low: u64)
    requires
        ascending(s),
        s.len() > 0,
        forall|i: int| 0 <= i < s.len() ==> low <= seq_of(#[trigger] s[i]) < u64::MAX,
    ensures
        ascending(s.drop_first()),
        forall|i: int|
            0 <= i < s.drop_first().len() ==> seq_of(s[0]) < seq_of(#[trigger] s.drop_first()[i])
                < u64::MAX,
{
    let t = s.drop_first();
    assert forall|i: int, j: int| 0 <= i < j < t.len() implies seq_of(#[trigger] t[i]) < seq_of(
        #[trigger] t[j],
    ) by {
        assert(t[i] == s[i + 1]);
        assert(t[j] == s[j + 1]);
    }
    assert forall|i: int| 0 <= i < t.len() implies seq_of(s[0]) < seq_of(#[trigger] t[i])
        < u64::MAX by {
        assert(t[i] == s[i + 1]);
    }
}

/// Putting a packet at its rank keeps an ascending sequence ascending.
proof fn lemma_insert_ascending(s: Seq<PacketView>, p: PacketView, low: u64)
    requires
        ascending(s),
        !holds(s, seq_of(p)),
        low <= seq_of(p) < u64::MAX,
        forall|i: int| 0 <= i < s.len() ==> low <= seq_of(#[trigger] s[i]) < u64::MAX,
    ensures
        ascending(s.insert(rank(s, seq_of(p)), p)),
        forall|i: int|
            0 <= i < s.len() + 1 ==> low <= seq_of(
                #[trigger] s.insert(rank(s, seq_of(p)), p)[i],
            ) < u64::MAX,
{
    let x = seq_of(p);
    let k = rank(s, x);
    lemma_rank_parts(s, x);
    let t = s.insert(k, p);
    assert forall|i: int| k <= i < s.len() implies seq_of(#[trigger] s[i]) > x by {
        if seq_of(s[i]) == x {
            assert(holds(s, x));
        }
    }
    assert forall|i: int| 0 <= i < t.len() implies low <= seq_of(#[trigger] t[i]) < u64::MAX by {
        if i < k {
            assert(t[i] == s[i]);
        } else if i > k {
            assert(t[i] == s[i - 1]);
        }
    }
    assert forall|i: int, j: int| 0 <= i < j < t.len() implies seq_of(#[trigger] t[i]) < seq_of(
        #[trigger] t[j],
    ) by {
        if j < k {
            assert(t[i] == s[i] && t[j] == s[j]);
        } else if j == k {
            assert(t[i] == s[i]);
        } else if i < k {
            assert(t[i] == s[i] && t[j] == s[j - 1]);
        } else if i == k {
            assert(t[j] == s[j - 1]);
        } else {
            assert(t[i] == s[i - 1] && t[j] == s[j - 1]);
        }
    }
}

/// A push leaves a well-formed buffer well-formed.
pub proof fn lemma_push_keeps_wf(v: JitterView, p: PacketView)
    requires
        v.wf(),
        seq_of(p) < u64::MAX,
    ensures
        v.after_push(p).wf(),
{
    if v.accepts(p) {
        let kept = v.kept(p);
        if v.evicts(p) {
            lemma_tail(v.buffered, v.expected);
            assert(v.expected <= seq_of(v.buffered[0]));
        }
        assert forall|i: int| 0 <= i < kept.len() implies v.expected <= seq_of(
            #[trigger] kept[i],
        ) < u64::MAX by {}
        assert(!holds(kept, seq_of(p))) by {
            if holds(kept, seq_of(p)) {
                let i = choose|i: int| 0 <= i < kept.len() && seq_of(#[trigger] kept[i]) == seq_of(p);
                if v.evicts(p) {
                    assert(kept[i] == v.buffered[i + 1]);
                } else {
                    assert(kept[i] == v.buffered[i]);
                }
                assert(holds(v.buffered, seq_of(p)));
            }
        }
        lemma_insert_ascending(kept, p, v.expected);
        lemma_rank_parts(kept, seq_of(p));
        let after = v.after_push(p);
        assert(after.buffered.len() == kept.len() + 1);
        assert(after.lost < after.expected);
    }
}

/// A pop leaves a well-formed buffer well-formed.
pub proof fn lemma_pop_keeps_wf(v: JitterView)
    requires
        v.wf(),
    ensures
        v.after_pop().wf(),
{
    if v.buffered.len() > 0 {
        lemma_tail(v.buffered, v.expected);
    }
}

/// Pushing a packet whose sequence number already waits is refused and
/// changes nothing.
pub proof fn law_duplicate_refused(v: JitterView, p: PacketView)
    requires
        holds(v.buffered, seq_of(p)),
    ensures
        !v.accepts(p),
        v.after_push(p) == v,
{
}

/// Pushing a packet behind the expected sequence number is refused and
/// changes nothing.
pub proof fn law_stale_refused(v: JitterView, p: PacketView)
    requires
        seq_of(p) < v.expected,
    ensures
        !v.accepts(p),
        v.after_push(p) == v,
{
}

/// What a pop hands on is not behind the pointer, and the pointer then
/// stands right behind it: two pops in a row hand on packets with strictly
/// increasing sequence numbers, whatever is pushed in between.
pub proof fn law_pop_moves_pointer(v: JitterView)
    requires
        v.wf(),
        v.popped() is Some,
    ensures
        v.expected <= seq_of(v.popped()->0),
        v.after_pop().expected == seq_of(v.popped()->0) + 1,
        v.after_pop().lost - v.lost == seq_of(v.popped()->0) - v.expected,
{
}

/// The first rule of a pop: a packet with the expected sequence number is
/// handed on, nothing is counted as lost, and the pointer moves by one.
pub proof fn law_pop_serves_expected(v: JitterView)
    requires
        v.wf(),
        holds(v.buffered, v.expected),
    ensures
        v.popped() is Some,
        seq_of(v.popped()->0) == v.expected,
        v.after_pop().expected == v.expected + 1,
        v.after_pop().lost == v.lost,
{
    let i = choose|i: int| 0 <= i < v.buffered.len() && seq_of(#[trigger] v.buffered[i]) == v.expected;
    if i > 0 {
        assert(seq_of(v.buffered[0]) < seq_of(v.buffered[i]));
    }
}

/// The second rule of a pop: where the expected packet is missing and a
/// later one waits, the pop does what it would do with the expected
/// sequence number counted as lost and the pointer moved by one. And
/// the third: from an empty buffer nothing comes, and nothing changes.
pub proof fn law_pop_skips_missing(v: JitterView)
    requires
        v.wf(),
        !holds(v.buffered, v.expected),
    ensures
        v.buffered.len() == 0 ==> v.popped() is None && v.after_pop() == v,
        v.buffered.len() > 0 ==> ({
            let skipped = JitterView {
                expected: (v.expected + 1) as u64,
                lost: (v.lost + 1) as u64,
                ..v
            };
            &&& skipped.wf()
            &&& v.popped() == skipped.popped()
            &&& v.after_pop() == skipped.after_pop()
        }),
{
    if v.buffered.len() > 0 {
        assert forall|i: int| 0 <= i < v.buffered.len() implies v.expected < seq_of(
            #[trigger] v.buffered[i],
        ) by {
            if seq_of(v.buffered[i]) == v.expected {
                assert(holds(v.buffered, v.expected));
            }
        }
        assert(v.expected < seq_of(v.buffered[0]));
    }
}

/// One operation on a jitter buffer.
pub enum JitterOp {
    Push(PacketView),
    Pop,
}

/// The buffer after one operation.
pub open spec fn step(v: JitterView, op: JitterOp) -> JitterView {
    match op {
        JitterOp::Push(p) => v.after_push(p),
        JitterOp::Pop => v.after_pop(),
    }
}

/// The buffer after a run of operations.
pub open spec fn run(v: JitterView, ops: Seq<JitterOp>) -> JitterView
    decreases ops.len(),
{
    if ops.len() == 0 {
        v
    } else {
        step(run(v, ops.drop_last()), ops.last())
    }
}

/// The packets that the pops of a run hand on, in order.
pub open spec fn yielded(v: JitterView, ops: Seq<JitterOp>) -> Seq<PacketView>
    decreases ops.len(),
{
    if ops.len() == 0 {
        Seq::empty()
    } else {
        let before = run(v, ops.drop_last());
        let sofar = yielded(v, ops.drop_last());
        match ops.last() {
            JitterOp::Pop => if before.popped() is Some {
                sofar.push(before.popped()->0)
            } else {
                sofar
            },
            JitterOp::Push(_) => sofar,
        }
    }
}

/// How many pushes of a run are taken.
pub open spec fn accepted_count(v: JitterView, ops: Seq<JitterOp>) -> nat
    decreases ops.len(),
{
    if ops.len() == 0 {
        0
    } else {
        let before = run(v, ops.drop_last());
        let sofar = accepted_count(v, ops.drop_last());
        match ops.last() {
            JitterOp::Push(p) => if before.accepts(p) {
                sofar + 1
            } else {
                sofar
            },
            JitterOp::Pop => sofar,
        }
    }
}

/// How many waiting packets the pushes of a run push out.
pub open spec fn evicted_count(v: JitterView, ops: Seq<JitterOp>) -> nat
    decreases ops.len(),
{
    if ops.len() == 0 {
        0
    } else {
        let before = run(v, ops.drop_last());
        let sofar = evicted_count(v, ops.drop_last());
        match ops.last() {
            JitterOp::Push(p) => if before.evicts(p) {
                sofar + 1
            } else {
                sofar
            },
            JitterOp::Pop => sofar,
        }
    }
}

/// Whether no push of the run carries the last sequence number there is.
pub open spec fn pushes_in_range(ops: Seq<JitterOp>) -> bool {
    forall|i: int|
        0 <= i < ops.len() ==> (#[trigger] ops[i] matches JitterOp::Push(p) ==> seq_of(p)
            < u64::MAX)
}

/// Over any run of pushes and pops on a well-formed buffer:
/// the buffer stays well-formed; the packets handed on have strictly
/// increasing sequence numbers, none behind the pointer at the start and
/// all behind the pointer at the end; every packet taken in was handed
/// on, pushed out, or still waits; and the pointer moved by one for every
/// packet handed on and every sequence number counted as lost.
pub proof fn law_run(v: JitterView, ops: Seq<JitterOp>)
    requires
        v.wf(),
        pushes_in_range(ops),
    ensures
        run(v, ops).wf(),
        ascending(yielded(v, ops)),
        forall|i: int|
            0 <= i < yielded(v, ops).len() ==> v.expected <= seq_of(#[trigger] yielded(v, ops)[i])
                < run(v, ops).expected,
        v.expected <= run(v, ops).expected,
        v.buffered.len() + accepted_count(v, ops) == yielded(v, ops).len() + evicted_count(v, ops)
            + run(v, ops).buffered.len(),
        run(v, ops).expected - v.expected == yielded(v, ops).len() + (run(v, ops).lost - v.lost),
    decreases ops.len(),
{
    if ops.len() > 0 {
        let prefix = ops.drop_last();
        assert(pushes_in_range(prefix)) by {
            assert forall|i: int| 0 <= i < prefix.len() implies (#[trigger] prefix[i] matches JitterOp::Push(
                p,
            ) ==> seq_of(p) < u64::MAX) by {
                assert(prefix[i] == ops[i]);
            }
        }
        law_run(v, prefix);
        let before = run(v, prefix);
        let sofar = yielded(v, prefix);
        match ops.last() {
            JitterOp::Push(p) => {
                assert(ops[ops.len() - 1] == ops.last());
                lemma_push_keeps_wf(before, p);
                if before.accepts(p) {
                    lemma_rank_parts(before.kept(p), seq_of(p));
                    if before.evicts(p) {
                        lemma_tail(before.buffered, before.expected);
                    }
                }
            },
            JitterOp::Pop => {
                lemma_pop_keeps_wf(before);
                if before.popped() is Some {
                    let m = before.popped()->0;
                    let now = sofar.push(m);
                    assert(before.expected <= seq_of(before.buffered[0]));
                    assert forall|i: int, j: int| 0 <= i < j < now.len() implies seq_of(
                        #[trigger] now[i],
                    ) < seq_of(#[trigger] now[j]) by {
                        assert(now[i] == sofar[i]);
                        if j < sofar.len() {
                            assert(now[j] == sofar[j]);
                        }
                    }
                    assert forall|i: int| 0 <= i < now.len() implies v.expected <= seq_of(
                        #[trigger] now[i],
                    ) < run(v, ops).expected by {
                        if i < sofar.len() {
                            assert(now[i] == sofar[i]);
                        }
                    }
                }
            },
        }
    }
}

/// Whether a map holds exactly the packets of `s`, each under its
/// sequence number.
pub open spec fn linked_to(m: Map<u64, NetworkPacket>, s: Seq<PacketView>) -> bool {
    &&& m.dom().finite()
    &&& m.len() == s.len()
    &&& forall|i: int|
        0 <= i < s.len() ==> m.contains_key(seq_of(#[trigger] s[i])) && m[seq_of(s[i])]@ == s[i]
    &&& forall|k: u64| #[trigger] m.contains_key(k) ==> holds(s, k)
}

/// The lowest key of a map is the sequence number of the first of the
/// packets it holds in ascending order.
proof fn lemma_link_first(m: Map<u64, NetworkPacket>, s: Seq<PacketView>, key: u64)
    requires
        linked_to(m, s),
        ascending(s),
        m.contains_key(key),
        forall|other: u64| m.contains_key(other) ==> key <= other,
    ensures
        s.len() > 0,
        seq_of(s[0]) == key,
        m[key]@ == s[0],
{
    assert(holds(s, key));
    let i = choose|i: int| 0 <= i < s.len() && seq_of(#[trigger] s[i]) == key;
    assert(m.contains_key(seq_of(s[0])));
    if i > 0 {
        assert(seq_of(s[0]) < seq_of(s[i]));
    }
}

/// Taking the first packet out of both keeps map and sequence linked.
proof fn lemma_link_drop_first(m: Map<u64, NetworkPacket>, s: Seq<PacketView>)
    requires
        linked_to(m, s),
        ascending(s),
        s.len() > 0,
    ensures
        linked_to(m.remove(seq_of(s[0])), s.drop_first()),
{
    let key = seq_of(s[0]);
    let m2 = m.remove(key);
    let t = s.drop_first();
    assert(m.contains_key(key));
    assert forall|i: int| 0 <= i < t.len() implies m2.contains_key(seq_of(#[trigger] t[i]))
        && m2[seq_of(t[i])]@ == t[i] by {
        assert(t[i] == s[i + 1]);
        assert(seq_of(s[0]) < seq_of(s[i + 1]));
    }
    assert forall|k: u64| #[trigger] m2.contains_key(k) implies holds(t, k) by {
        assert(m.contains_key(k));
        let i = choose|i: int| 0 <= i < s.len() && seq_of(#[trigger] s[i]) == k;
        assert(i > 0);
        assert(t[i - 1] == s[i]);
    }
}

/// Putting a packet with a new sequence number into both keeps map and
/// sequence linked.
proof fn lemma_link_insert(
    m: Map<u64, NetworkPacket>,
    s: Seq<PacketView>,
    packet: NetworkPacket,
    k: int,
)
    requires
        linked_to(m, s),
        !holds(s, seq_of(packet@)),
        0 <= k <= s.len(),
    ensures
        linked_to(m.insert(seq_of(packet@), packet), s.insert(k, packet@)),
{
    let key = seq_of(packet@);
    let m2 = m.insert(key, packet);
    let t = s.insert(k, packet@);
    assert(!m.contains_key(key));
    assert forall|i: int| 0 <= i < t.len() implies m2.contains_key(seq_of(#[trigger] t[i]))
        && m2[seq_of(t[i])]@ == t[i] by {
        if i < k {
            assert(t[i] == s[i]);
            assert(m.contains_key(seq_of(s[i])));
        } else if i > k {
            assert(t[i] == s[i - 1]);
            assert(m.contains_key(seq_of(s[i - 1])));
        }
    }
    assert forall|j: u64| #[trigger] m2.contains_key(j) implies holds(t, j) by {
        if j == key {
            assert(seq_of(t[k]) == j);
        } else {
            assert(m.contains_key(j));
            let i = choose|i: int| 0 <= i < s.len() && seq_of(#[trigger] s[i]) == j;
            if i < k {
                assert(t[i] == s[i]);
            } else {
                assert(t[i + 1] == s[i]);
            }
        }
    }
}

/// Takes the entry with the lowest key out of a map, with
/// `BTreeMap::pop_first`. That method removes and returns the first
/// element of the map, whose key is the least key that was in it, and
/// returns nothing when the map is empty. The contract says this over the
/// map's view: the entry was in the map under the least of its keys, and
/// the map afterwards is the old one without that key.
#[verifier::external_body]
fn take_first(map: &mut BTreeMap<u64, NetworkPacket>) -> (first: Option<(u64, NetworkPacket)>)
    ensures
        match first {
            Some((key, packet)) => {
                &&& old(map)@.contains_key(key)
                &&& old(map)@[key] == packet
                &&& forall|other: u64| old(map)@.contains_key(other) ==> key <= other
                &&& final(map)@ == old(map)@.remove(key)
            },
            None => old(map)@.len() == 0 && final(map)@ == old(map)@,
        },
{
    map.pop_first()
}

/// Reordering and gap-detecting queue between the network and the decoder.
pub struct JitterBuffer {
    /// The waiting packets by sequence number.
    packets: BTreeMap<u64, NetworkPacket>,
    max_size: usize,
    expected_sequence: u64,
    lost_packets: u64,
    /// The waiting packets in the order of their sequence numbers.
    order: Ghost<Seq<PacketView>>,
}

impl View for JitterBuffer {
    type V = JitterView;

    closed spec fn view(&self) -> JitterView {
        JitterView {
            buffered: self.order@,
            max_size: self.max_size as nat,
            expected: self.expected_sequence,
            lost: self.lost_packets,
        }
    }
}

impl JitterBuffer {
    /// Whether the map holds what the view says waits.
    pub closed spec fn linked(&self) -> bool {
        linked_to(self.packets@, self.order@)
    }

    /// The invariant of the buffer.
    pub open spec fn wf(&self) -> bool {
        self@.wf() && self.linked()
    }

    /// An empty buffer for at most `max_size` packets that expects
    /// sequence number 1.
    pub fn new(max_size: usize) -> (buffer: Self)
        ensures
            buffer.wf(),
            buffer@ == (JitterView {
                buffered: Seq::<PacketView>::empty(),
                max_size: max_size as nat,
                expected: 1,
                lost: 0,
            }),
    {
        JitterBuffer {
            packets: BTreeMap::new(),
            max_size,
            expected_sequence: 1,
            lost_packets: 0,
            order: Ghost(Seq::empty()),
        }
    }

    /// Number of packets waiting.
    pub fn len(&self) -> (n: usize)
        requires
            self.wf(),
        ensures
            n == self@.buffered.len(),
    {
        self.packets.len()
    }

    /// The sequence number the next packet handed on should have.
    pub fn expected_sequence(&self) -> (x: u64)
        ensures
            x == self@.expected,
    {
        self.expected_sequence
    }

    /// Sequence numbers given up so far.
    pub fn lost_packets(&self) -> (n: u64)
        ensures
            n == self@.lost,
    {
        self.lost_packets
    }

    /// The largest number of packets that wait at once.
    pub fn max_size(&self) -> (n: usize)
        ensures
            n == self@.max_size,
    {
        self.max_size
    }

    /// Drops every waiting packet. The pointer and the count stay.
    pub fn clear(&mut self)
        requires
            old(self).wf(),
        ensures
            final(self).wf(),
            final(self)@ == (JitterView { buffered: Seq::<PacketView>::empty(), ..old(self)@ }),
    {
        self.packets.clear();
        self.order = Ghost(Seq::empty());
    }

    /// Takes a packet in, unless it is behind the expected sequence
    /// number or one with its sequence number already waits. When the
    /// buffer is full the lowest waiting packet makes room.
    ///
    /// The last sequence number there is cannot be buffered: the pointer
    /// could not move past it.
    pub fn push_packet(&mut self, packet: NetworkPacket) -> (accepted: bool)
        requires
            old(self).wf(),
            packet@.frame.sequence_number < u64::MAX,
        ensures
            final(self).wf(),
            accepted == old(self)@.accepts(packet@),
            final(self)@ == old(self)@.after_push(packet@),
    {
        let sequence: u64 = packet.compressed_frame.sequence_number;
        let ghost before = self@;
        let ghost pv = packet@;
        if sequence < self.expected_sequence {
            return false;
        }
        if self.packets.contains_key(&sequence) {
            return false;
        }
        proof {
            if holds(before.buffered, sequence) {
                let i = choose|i: int|
                    0 <= i < before.buffered.len() && seq_of(#[trigger] before.buffered[i])
                        == sequence;
                assert(self.packets@.contains_key(seq_of(before.buffered[i])));
            }
            lemma_push_keeps_wf(before, pv);
        }
        if self.packets.len() >= self.max_size {
            let ghost map = self.packets@;
            match take_first(&mut self.packets) {
                Some((key, _)) => {
                    proof {
                        lemma_link_first(map, before.buffered, key);
                        lemma_link_drop_first(map, before.buffered);
                    }
                    self.order = Ghost(before.buffered.drop_first());
                },
                None => {},
            }
        }
        let ghost kept = before.kept(pv);
        assert(self.order@ == kept);
        proof {
            if before.evicts(pv) {
                lemma_tail(before.buffered, before.expected);
            }
            if holds(kept, sequence) {
                let i = choose|i: int| 0 <= i < kept.len() && seq_of(#[trigger] kept[i]) == sequence;
                assert(self.packets@.contains_key(seq_of(kept[i])));
                assert(before.evicts(pv));
            }
            lemma_rank_parts(kept, sequence);
            lemma_link_insert(self.packets@, kept, packet, rank(kept, sequence));
        }
        self.packets.insert(sequence, packet);
        self.order = Ghost(kept.insert(rank(kept, sequence), pv));
        true
    }

    /// Hands on the lowest waiting packet, if any waits. The sequence
    /// numbers from the expected one up to it are counted as lost, and
    /// the pointer moves behind it.
    pub fn pop_packet(&mut self) -> (packet: Option<NetworkPacket>)
        requires
            old(self).wf(),
        ensures
            final(self).wf(),
            final(self)@ == old(self)@.after_pop(),
            packet is Some <==> old(self)@.popped() is Some,
            packet is Some ==> packet->0@ == old(self)@.popped()->0,
    {
        let ghost before = self@;
        let ghost map = self.packets@;
        match take_first(&mut self.packets) {
            Some((sequence, packet)) => {
                proof {
                    lemma_link_first(map, before.buffered, sequence);
                    lemma_link_drop_first(map, before.buffered);
                    lemma_pop_keeps_wf(before);
                }
                self.order = Ghost(before.buffered.drop_first());
                self.lost_packets = self.lost_packets + (sequence - self.expected_sequence);
                self.expected_sequence = sequence + 1;
                Some(packet)
            },
            None => None,
        }
    }

    /// Pops until nothing waits, and returns what the pops handed on, in
    /// order.
    pub fn drain(&mut self) -> (out: Vec<NetworkPacket>)
        requires
            old(self).wf(),
        ensures
            final(self).wf(),
            final(self)@ == old(self)@.after_drain(),
            out@.map_values(|p: NetworkPacket| p@) == old(self)@.buffered,
    {
        let ghost start = self@;
        let mut out: Vec<NetworkPacket> = Vec::new();
        while self.packets.len() > 0
            invariant
                self.wf(),
                out@.len() + self@.buffered.len() == start.buffered.len(),
                out@.map_values(|p: NetworkPacket| p@) =~= start.buffered.subrange(
                    0,
                    out@.len() as int,
                ),
                self@.buffered =~= start.buffered.subrange(
                    out@.len() as int,
                    start.buffered.len() as int,
                ),
                self@.max_size == start.max_size,
                out@.len() == 0 ==> self@ == start,
                out@.len() > 0 ==> self@.expected == seq_of(start.buffered[out@.len() - 1]) + 1
                    && self@.lost - start.lost == self@.expected - start.expected - out@.len(),
            decreases self@.buffered.len(),
        {
            let ghost before = self@;
            let ghost done = out@.len() as int;
            assert(before.buffered[0] == start.buffered[done]);
            match self.pop_packet() {
                Some(p) => {
                    out.push(p);
                    assert(self@.buffered =~= start.buffered.subrange(
                        done + 1,
                        start.buffered.len() as int,
                    ));
                    assert(out@.map_values(|p: NetworkPacket| p@) =~= start.buffered.subrange(
                        0,
                        done + 1,
                    ));
                },
                None => {},
            }
        }
        assert(self@.buffered =~= Seq::<PacketView>::empty());
        assert(out@.map_values(|p: NetworkPacket| p@) =~= start.buffered);
        out
    }
}

} // verus!
