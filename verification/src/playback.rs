//! The playing side between the decoder and the device's callback: frames
//! wait in a bounded queue, and the callback draws samples from them.

use std::collections::VecDeque;
use vstd::prelude::*;
use crate::audio::{AudioError, AudioFrame, AudioFrameView, SILENCE, SampleBits};
use crate::net_config::{bump, bumped};

verus! {

/// Mathematical value of a [`PlaybackQueue`].
pub struct PlaybackView {
    /// Frames the queue holds at most.
    pub capacity: nat,
    /// Frames waiting to be played, oldest first.
    pub frames: Seq<AudioFrameView>,
    /// Samples already drawn from frames and not yet played.
    pub cursor: Seq<SampleBits>,
    /// Frames the callback has drawn.
    pub frames_played: u64,
    /// Times the callback found too little to play.
    pub underruns: u64,
    pub playing: bool,
}

/// `x` advanced by `k`, stopping at the largest value there is.
pub open spec fn advanced(x: u64, k: nat) -> u64 {
    if x + k > u64::MAX {
        u64::MAX
    } else {
        (x + k) as u64
    }
}

/// How many frames the callback draws to have `wanted` samples at hand:
/// as few as will do, and all of them where they do not suffice.
pub open spec fn frames_drawn(cursor: Seq<SampleBits>, frames: Seq<AudioFrameView>, wanted: nat) -> nat
    decreases frames.len(),
{
    if cursor.len() >= wanted || frames.len() == 0 {
        0
    } else {
        1 + frames_drawn(cursor + frames[0].samples, frames.drop_first(), wanted)
    }
}

/// The samples at hand once the callback has drawn its frames.
pub open spec fn samples_at_hand(
    cursor: Seq<SampleBits>,
    frames: Seq<AudioFrameView>,
    wanted: nat,
) -> Seq<SampleBits>
    decreases frames.len(),
{
    if cursor.len() >= wanted || frames.len() == 0 {
        cursor
    } else {
        samples_at_hand(cursor + frames[0].samples, frames.drop_first(), wanted)
    }
}

/// The first `wanted` of `samples`, with silence where they run out.
pub open spec fn padded(samples: Seq<SampleBits>, wanted: nat) -> Seq<SampleBits> {
    Seq::new(
        wanted,
        |i: int|
            if i < samples.len() {
                samples[i]
            } else {
                SILENCE
            },
    )
}

/// What is left of `samples` behind the first `wanted`.
pub open spec fn left_over(samples: Seq<SampleBits>, wanted: nat) -> Seq<SampleBits> {
    if samples.len() > wanted {
        samples.subrange(wanted as int, samples.len() as int)
    } else {
        Seq::empty()
    }
}

impl PlaybackView {
    /// The queue after `frame` was handed in: with room, it joins the
    /// queue; without, the oldest frame goes and it joins all the same.
    pub open spec fn played(self, frame: AudioFrameView) -> PlaybackView {
        if self.frames.len() >= self.capacity {
            PlaybackView {
                frames: (if self.frames.len() > 0 {
                    self.frames.drop_first()
                } else {
                    self.frames
                }).push(frame),
                ..self
            }
        } else {
            PlaybackView { frames: self.frames.push(frame), ..self }
        }
    }

    /// The samples the callback gets when it asks for `wanted`.
    pub open spec fn output(self, wanted: nat) -> Seq<SampleBits> {
        padded(samples_at_hand(self.cursor, self.frames, wanted), wanted)
    }

    /// The queue after the callback asked for `wanted` samples. An
    /// underrun is counted when the queue ran dry before there were
    /// enough.
    pub open spec fn filled(self, wanted: nat) -> PlaybackView {
        let drawn = frames_drawn(self.cursor, self.frames, wanted);
        let at_hand = samples_at_hand(self.cursor, self.frames, wanted);
        PlaybackView {
            capacity: self.capacity,
            frames: self.frames.subrange(drawn as int, self.frames.len() as int),
            cursor: left_over(at_hand, wanted),
            frames_played: advanced(self.frames_played, drawn),
            underruns: if at_hand.len() < wanted {
                bumped(self.underruns)
            } else {
                self.underruns
            },
            playing: self.playing,
        }
    }
}

/// The callback never draws more frames than wait, and an underrun is
/// only counted when it has drawn them all.
pub proof fn law_underrun_means_dry(
    cursor: Seq<SampleBits>,
    frames: Seq<AudioFrameView>,
    wanted: nat,
)
    ensures
        frames_drawn(cursor, frames, wanted) <= frames.len(),
        samples_at_hand(cursor, frames, wanted).len() < wanted ==> frames_drawn(
            cursor,
            frames,
            wanted,
        ) == frames.len(),
    decreases frames.len(),
{
    if !(cursor.len() >= wanted || frames.len() == 0) {
        law_underrun_means_dry(cursor + frames[0].samples, frames.drop_first(), wanted);
    }
}

/// The playing side's queue and sample cursor.
pub struct PlaybackQueue {
    capacity: usize,
    frames: VecDeque<AudioFrame>,
    cursor: VecDeque<SampleBits>,
    frames_played: u64,
    underruns: u64,
    playing: bool,
}

impl View for PlaybackQueue {
    type V = PlaybackView;

    closed spec fn view(&self) -> PlaybackView {
        PlaybackView {
            capacity: self.capacity as nat,
            frames: self.frames@.map_values(|f: AudioFrame| f@),
            cursor: self.cursor@,
            frames_played: self.frames_played,
            underruns: self.underruns,
            playing: self.playing,
        }
    }
}

impl PlaybackQueue {
    /// An idle, empty queue for at most `capacity` frames.
    pub fn new(capacity: usize) -> (queue: Self)
        ensures
            queue@ == (PlaybackView {
                capacity: capacity as nat,
                frames: Seq::<AudioFrameView>::empty(),
                cursor: Seq::<SampleBits>::empty(),
                frames_played: 0,
                underruns: 0,
                playing: false,
            }),
    {
        let queue = PlaybackQueue {
            capacity,
            frames: VecDeque::new(),
            cursor: VecDeque::new(),
            frames_played: 0,
            underruns: 0,
            playing: false,
        };
        assert(queue@.frames =~= Seq::<AudioFrameView>::empty());
        queue
    }

    /// Marks the queue as playing. The result says whether the device is
    /// to be started now: it is not when the queue plays already.
    pub fn start(&mut self) -> (start_device: bool)
        ensures
            start_device == !old(self)@.playing,
            final(self)@ == (PlaybackView { playing: true, ..old(self)@ }),
    {
        let start_device = !self.playing;
        self.playing = true;
        start_device
    }

    /// Marks the queue as stopped. The result says whether the device is
    /// to be released now: it is not when the queue is stopped already.
    pub fn stop(&mut self) -> (release_device: bool)
        ensures
            release_device == old(self)@.playing,
            final(self)@ == (PlaybackView { playing: false, ..old(self)@ }),
    {
        let release_device = self.playing;
        self.playing = false;
        release_device
    }

    /// Whether the queue is marked as playing.
    pub fn is_playing(&self) -> (yes: bool)
        ensures
            yes == self@.playing,
    {
        self.playing
    }

    /// Frames waiting to be played.
    pub fn buffer_level(&self) -> (n: usize)
        ensures
            n == self@.frames.len(),
    {
        self.frames.len()
    }

    /// Frames drawn and underruns counted so far.
    pub fn get_stats(&self) -> (stats: (u64, u64))
        ensures
            stats == (self@.frames_played, self@.underruns),
    {
        (self.frames_played, self.underruns)
    }

    /// Hands a frame in. A full queue drops its oldest frame to take the
    /// new one, and reports the overflow, which the caller may note and
    /// pass over.
    pub fn play_frame(&mut self, frame: AudioFrame) -> (result: Result<(), AudioError>)
        ensures
            final(self)@ == old(self)@.played(frame@),
            old(self)@.frames.len() < old(self)@.capacity ==> result is Ok,
            old(self)@.frames.len() >= old(self)@.capacity ==> result is Err && result->Err_0
                == AudioError::BufferOverflow,
    {
        let ghost fv = frame@;
        if self.frames.len() >= self.capacity {
            let dropped = self.frames.pop_front();
            self.frames.push_back(frame);
            assert(self@.frames =~= (if old(self)@.frames.len() > 0 {
                old(self)@.frames.drop_first()
            } else {
                old(self)@.frames
            }).push(fv));
            return Err(AudioError::BufferOverflow);
        }
        self.frames.push_back(frame);
        assert(self@.frames =~= old(self)@.frames.push(fv));
        Ok(())
    }

    /// Drops every waiting frame.
    pub fn flush_buffer(&mut self) -> (result: Result<(), AudioError>)
        ensures
            result is Ok,
            final(self)@ == (PlaybackView { frames: Seq::<AudioFrameView>::empty(), ..old(self)@ }),
    {
        self.frames.clear();
        assert(self@.frames =~= Seq::<AudioFrameView>::empty());
        Ok(())
    }

    /// Gives the device's callback the `wanted` samples it asks for.
    /// Frames are drawn from the queue until there are enough samples at
    /// hand; where the queue runs dry first, the rest is silence and an
    /// underrun is counted. Never waits.
    pub fn fill_output(&mut self, wanted: usize) -> (output: Vec<SampleBits>)
        ensures
            output@ == old(self)@.output(wanted as nat),
            final(self)@ == old(self)@.filled(wanted as nat),
    {
        let ghost start = self@;
        let ghost want = wanted as nat;
        let ghost mut drawn: nat = 0;
        let mut dry = false;
        while self.cursor.len() < wanted && !dry
            invariant
                want == wanted as nat,
                self@.capacity == start.capacity,
                self@.playing == start.playing,
                drawn <= start.frames.len(),
                self@.frames =~= start.frames.subrange(drawn as int, start.frames.len() as int),
                drawn + frames_drawn(self@.cursor, self@.frames, want) == frames_drawn(
                    start.cursor,
                    start.frames,
                    want,
                ),
                samples_at_hand(self@.cursor, self@.frames, want) == samples_at_hand(
                    start.cursor,
                    start.frames,
                    want,
                ),
                self@.frames_played == advanced(start.frames_played, drawn),
                dry ==> self@.frames.len() == 0 && self@.cursor.len() < want && self@.underruns
                    == bumped(start.underruns),
                !dry ==> self@.underruns == start.underruns,
            decreases self@.frames.len() + (if dry { 0int } else { 1int }),
        {
            let ghost before = self@;
            assert(before.cursor.len() < want);
            match self.frames.pop_front() {
                Some(frame) => {
                    assert(before.frames.len() > 0);
                    assert(frame@ == before.frames[0]);
                    assert(self@.frames =~= before.frames.drop_first());
                    assert(frames_drawn(before.cursor, before.frames, want) == 1 + frames_drawn(
                        before.cursor + before.frames[0].samples,
                        before.frames.drop_first(),
                        want,
                    ));
                    assert(samples_at_hand(before.cursor, before.frames, want) == samples_at_hand(
                        before.cursor + before.frames[0].samples,
                        before.frames.drop_first(),
                        want,
                    ));
                    let mut j: usize = 0;
                    while j < frame.samples.len()
                        invariant
                            j <= frame.samples.len(),
                            before.frames.len() > 0,
                            self@.frames == before.frames.drop_first(),
                            self@.cursor =~= before.cursor + frame@.samples.subrange(0, j as int),
                            self@.capacity == before.capacity,
                            self@.frames_played == before.frames_played,
                            self@.underruns == before.underruns,
                            self@.playing == before.playing,
                        decreases frame.samples.len() - j,
                    {
                        self.cursor.push_back(frame.samples[j]);
                        j += 1;
                    }
                    assert(frame@.samples.subrange(0, j as int) =~= frame@.samples);
                    self.frames_played = bump(self.frames_played);
                    proof {
                        drawn = drawn + 1;
                        assert(self@.frames =~= start.frames.subrange(
                            drawn as int,
                            start.frames.len() as int,
                        ));
                    }
                },
                None => {
                    assert(self@.frames =~= before.frames);
                    assert(before.frames.len() == 0);
                    self.underruns = bump(self.underruns);
                    dry = true;
                },
            }
        }
        let ghost at_hand = self@.cursor;
        assert(at_hand == samples_at_hand(start.cursor, start.frames, want));
        assert(drawn == frames_drawn(start.cursor, start.frames, want));
        let ghost mid = self@;
        let mut output: Vec<SampleBits> = Vec::with_capacity(wanted);
        let mut i: usize = 0;
        while i < wanted
            invariant
                i <= wanted,
                output@.len() == i,
                forall|k: int|
                    0 <= k < i ==> #[trigger] output@[k] == (if k < at_hand.len() {
                        at_hand[k]
                    } else {
                        SILENCE
                    }),
                self@.cursor =~= (if i < at_hand.len() {
                    at_hand.subrange(i as int, at_hand.len() as int)
                } else {
                    Seq::<SampleBits>::empty()
                }),
                self@.frames == mid.frames,
                self@.capacity == mid.capacity,
                self@.frames_played == mid.frames_played,
                self@.underruns == mid.underruns,
                self@.playing == mid.playing,
            decreases wanted - i,
        {
            let sample = match self.cursor.pop_front() {
                Some(s) => s,
                None => SILENCE,
            };
            output.push(sample);
            i += 1;
        }
        assert(output@ =~= padded(at_hand, want));
        assert(self@.cursor =~= left_over(at_hand, want));
        output
    }
}

/// A frame handed to a full queue pushes the oldest out and is itself
/// the newest in the queue.
pub proof fn law_overflow_drops_oldest(v: PlaybackView, frame: AudioFrameView)
    requires
        v.frames.len() >= v.capacity,
        v.frames.len() > 0,
    ensures
        v.played(frame).frames.len() == v.frames.len(),
        v.played(frame).frames.last() == frame,
        forall|i: int|
            0 <= i < v.frames.len() - 1 ==> v.played(frame).frames[i] == v.frames[i + 1],
{
}

} // verus!
