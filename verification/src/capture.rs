//! The capture side: classifying frames as voiced or silent and
//! accumulating the samples of the utterance in progress.
//!
//! A frame's energy is its mean squared amplitude. It reaches this crate as
//! an unsigned level: callers map energies to levels so that a larger
//! energy gives a larger level. A frame without samples has no energy and is
//! never voiced.

use vstd::prelude::*;

verus! {

/// Classifies frames by comparing their energy level with a threshold.
#[derive(Clone, Copy, Debug, PartialEq, Eq, Structural)]
pub struct ActivityDetector {
    pub silence_threshold: u32,
}

impl ActivityDetector {
    /// A frame is voiced where it has samples and its energy exceeds the
    /// threshold.
    pub open spec fn voiced(self, frame_len: nat, energy: u32) -> bool {
        frame_len > 0 && energy > self.silence_threshold
    }

    /// A detector that takes energies above `silence_threshold` for voice.
    pub fn new(silence_threshold: u32) -> (detector: ActivityDetector)
        ensures
            detector.silence_threshold == silence_threshold,
    {
        ActivityDetector { silence_threshold }
    }

    /// Whether a frame of `frame_len` samples with the given energy is voiced.
    pub fn is_voiced(&self, frame_len: usize, energy: u32) -> (voiced: bool)
        ensures
            voiced == self.voiced(frame_len as nat, energy),
    {
        frame_len > 0 && energy > self.silence_threshold
    }
}

/// What an utterance buffer holds, as mathematical values.
pub struct UtteranceView<T> {
    /// Every sample captured since the last reset, oldest first.
    pub samples: Seq<T>,
    /// Whether a voiced frame arrived since the last reset.
    pub has_voice: bool,
    /// When the latest voiced frame arrived.
    pub last_voice_at: u64,
}

impl<T> UtteranceView<T> {
    /// Voice has been heard only if samples have been captured.
    pub open spec fn wf(self) -> bool {
        self.has_voice ==> self.samples.len() > 0
    }

    /// The state of a buffer created at `now`.
    pub open spec fn fresh(now: u64) -> Self {
        UtteranceView { samples: Seq::empty(), has_voice: false, last_voice_at: now }
    }

    /// The state after one more frame, captured at `now`.
    pub open spec fn after_frame(
        self,
        detector: ActivityDetector,
        frame: Seq<T>,
        energy: u32,
        now: u64,
    ) -> Self {
        if detector.voiced(frame.len(), energy) {
            UtteranceView { samples: self.samples + frame, has_voice: true, last_voice_at: now }
        } else {
            UtteranceView { samples: self.samples + frame, ..self }
        }
    }

    /// The state after the utterance has been taken out.
    pub open spec fn after_take(self) -> Self {
        UtteranceView { samples: Seq::empty(), has_voice: false, ..self }
    }

    /// The time without voice at `now`; zero where `now` lies before the
    /// latest voiced frame.
    pub open spec fn silence(self, now: u64) -> int {
        if now >= self.last_voice_at {
            now - self.last_voice_at
        } else {
            0
        }
    }

    /// Whether the utterance has ended at `now`: voice was heard, and more
    /// than `silence_duration` has passed since.
    pub open spec fn ended(self, now: u64, silence_duration: u64) -> bool {
        self.has_voice && self.silence(now) > silence_duration
    }
}

/// One captured frame, as mathematical values.
pub struct FrameView<T> {
    pub samples: Seq<T>,
    pub energy: u32,
    /// When the frame was captured.
    pub at: u64,
}

impl<T> UtteranceView<T> {
    /// The state after a run of frames, taken in from first to last.
    pub open spec fn after_frames(self, detector: ActivityDetector, frames: Seq<FrameView<T>>) -> Self
        decreases frames.len(),
    {
        if frames.len() == 0 {
            self
        } else {
            let frame = frames.last();
            self.after_frames(detector, frames.drop_last()).after_frame(
                detector,
                frame.samples,
                frame.energy,
                frame.at,
            )
        }
    }
}

/// Whether the frames before index `end` are all silent.
pub open spec fn silent_before<T>(detector: ActivityDetector, frames: Seq<FrameView<T>>, end: int) -> bool {
    forall|i: int|
        0 <= i < end && i < frames.len() ==> !detector.voiced(
            (#[trigger] frames[i]).samples.len(),
            frames[i].energy,
        )
}

/// Frames whose energy does not exceed the threshold are silent.
pub proof fn lemma_low_energy_is_silent<T>(detector: ActivityDetector, frames: Seq<FrameView<T>>)
    requires
        forall|i: int| 0 <= i < frames.len() ==> (#[trigger] frames[i]).energy <= detector.silence_threshold,
    ensures
        silent_before(detector, frames, frames.len() as int),
{
}

/// Silent frames change neither the voice flag nor the time of the latest
/// voice; they only add their samples.
pub proof fn lemma_silent_frames_keep_voice<T>(
    view: UtteranceView<T>,
    detector: ActivityDetector,
    frames: Seq<FrameView<T>>,
)
    requires
        silent_before(detector, frames, frames.len() as int),
    ensures
        view.after_frames(detector, frames).has_voice == view.has_voice,
        view.after_frames(detector, frames).last_voice_at == view.last_voice_at,
        view.after_frames(detector, frames).samples.len() >= view.samples.len(),
    decreases frames.len(),
{
    if frames.len() > 0 {
        let shorter = frames.drop_last();
        assert forall|i: int| 0 <= i < shorter.len() implies !detector.voiced(
            (#[trigger] shorter[i]).samples.len(),
            shorter[i].energy,
        ) by {
            assert(shorter[i] == frames[i]);
        }
        lemma_silent_frames_keep_voice(view, detector, shorter);
        let last = frames[frames.len() - 1];
        assert(!detector.voiced(last.samples.len(), last.energy));
    }
}

/// While no frame's energy exceeds the threshold, a buffer without voice
/// stays without voice, and its utterance never ends: after any number of
/// the frames, at any time and for any silence duration.
pub proof fn lemma_silence_never_ends<T>(
    view: UtteranceView<T>,
    detector: ActivityDetector,
    frames: Seq<FrameView<T>>,
    count: int,
    now: u64,
    silence_duration: u64,
)
    requires
        !view.has_voice,
        forall|i: int| 0 <= i < frames.len() ==> (#[trigger] frames[i]).energy <= detector.silence_threshold,
        0 <= count <= frames.len(),
    ensures
        !view.after_frames(detector, frames.take(count)).has_voice,
        !view.after_frames(detector, frames.take(count)).ended(now, silence_duration),
{
    let taken = frames.take(count);
    assert forall|i: int| 0 <= i < taken.len() implies (#[trigger] taken[i]).energy
        <= detector.silence_threshold by {
        assert(taken[i] == frames[i]);
    }
    lemma_low_energy_is_silent(detector, taken);
    lemma_silent_frames_keep_voice(view, detector, taken);
}

/// Once a voiced frame has been taken in, the voice flag stays set through
/// whatever frames follow, voiced or silent.
pub proof fn lemma_voice_stays<T>(
    view: UtteranceView<T>,
    detector: ActivityDetector,
    frames: Seq<FrameView<T>>,
)
    requires
        view.has_voice,
    ensures
        view.after_frames(detector, frames).has_voice,
    decreases frames.len(),
{
    if frames.len() > 0 {
        lemma_voice_stays(view, detector, frames.drop_last());
    }
}

/// The first voiced frame of a run sets the voice flag and the time of the
/// latest voice: before it the flag is clear, right after it the flag is set
/// and the time is that of the frame, and after any number of further frames
/// the flag is still set.
pub proof fn lemma_first_voice_is_kept<T>(
    view: UtteranceView<T>,
    detector: ActivityDetector,
    frames: Seq<FrameView<T>>,
    first: int,
    count: int,
)
    requires
        !view.has_voice,
        0 <= first < count <= frames.len(),
        detector.voiced(frames[first].samples.len(), frames[first].energy),
        silent_before(detector, frames, first),
    ensures
        !view.after_frames(detector, frames.take(first)).has_voice,
        view.after_frames(detector, frames.take(first + 1)).has_voice,
        view.after_frames(detector, frames.take(first + 1)).last_voice_at == frames[first].at,
        view.after_frames(detector, frames.take(count)).has_voice,
{
    let before = frames.take(first);
    assert forall|i: int| 0 <= i < before.len() implies !detector.voiced(
        (#[trigger] before[i]).samples.len(),
        before[i].energy,
    ) by {
        assert(before[i] == frames[i]);
    }
    lemma_silent_frames_keep_voice(view, detector, before);
    let through = frames.take(first + 1);
    assert(through.drop_last() =~= before);
    assert(through.last() == frames[first]);
    lemma_frames_in_two_runs(view, detector, through, frames.subrange(first + 1, count));
    assert(through + frames.subrange(first + 1, count) =~= frames.take(count));
    lemma_voice_stays(
        view.after_frames(detector, through),
        detector,
        frames.subrange(first + 1, count),
    );
}

/// Taking in two runs of frames one after the other is taking in their
/// concatenation.
pub proof fn lemma_frames_in_two_runs<T>(
    view: UtteranceView<T>,
    detector: ActivityDetector,
    head: Seq<FrameView<T>>,
    tail: Seq<FrameView<T>>,
)
    ensures
        view.after_frames(detector, head + tail) == view.after_frames(detector, head).after_frames(
            detector,
            tail,
        ),
    decreases tail.len(),
{
    if tail.len() == 0 {
        assert(head + tail =~= head);
    } else {
        lemma_frames_in_two_runs(view, detector, head, tail.drop_last());
        assert((head + tail).drop_last() =~= head + tail.drop_last());
        assert((head + tail).last() == tail.last());
    }
}

/// With voice heard and polls at most `poll_period` apart, the poll that
/// first finds the utterance ended comes after the silence duration has
/// passed since the latest voice, and no more than one poll period later.
/// Unless the poll before it fell exactly on the end of the silence
/// duration, it comes less than one poll period later.
pub proof fn lemma_end_is_found_within_a_poll<T>(
    view: UtteranceView<T>,
    silence_duration: u64,
    poll_period: u64,
    previous_poll: u64,
    poll: u64,
)
    requires
        view.has_voice,
        previous_poll <= poll,
        poll - previous_poll <= poll_period,
        !view.ended(previous_poll, silence_duration),
        view.ended(poll, silence_duration),
    ensures
        view.last_voice_at + silence_duration < poll,
        poll <= view.last_voice_at + silence_duration + poll_period,
        previous_poll != view.last_voice_at + silence_duration ==> poll < view.last_voice_at
            + silence_duration + poll_period,
{
}

/// An utterance ends once: after it has been taken out, no poll finds an
/// ended utterance until a voiced frame arrives.
pub proof fn lemma_taken_utterance_has_ended_for_good<T>(
    view: UtteranceView<T>,
    detector: ActivityDetector,
    frames: Seq<FrameView<T>>,
    now: u64,
    silence_duration: u64,
)
    requires
        silent_before(detector, frames, frames.len() as int),
    ensures
        view.after_take().samples.len() == 0,
        !view.after_take().has_voice,
        !view.after_take().after_frames(detector, frames).ended(now, silence_duration),
{
    lemma_silent_frames_keep_voice(view.after_take(), detector, frames);
}

/// A fresh buffer is well formed, and taking in a frame or taking out the
/// utterance keeps a buffer well formed.
pub proof fn lemma_wf_is_kept<T>(
    view: UtteranceView<T>,
    detector: ActivityDetector,
    frame: Seq<T>,
    energy: u32,
    now: u64,
)
    requires
        view.wf(),
    ensures
        UtteranceView::<T>::fresh(now).wf(),
        view.after_frame(detector, frame, energy, now).wf(),
        view.after_take().wf(),
{
}

/// The samples of the utterance in progress, with the voice flag and the
/// time of the latest voiced frame. Every buffer that `new` made and these
/// methods changed is well formed.
pub struct UtteranceBuffer<T> {
    samples: Vec<T>,
    has_voice: bool,
    last_voice_at: u64,
}

impl<T> View for UtteranceBuffer<T> {
    type V = UtteranceView<T>;

    closed spec fn view(&self) -> UtteranceView<T> {
        UtteranceView {
            samples: self.samples@,
            has_voice: self.has_voice,
            last_voice_at: self.last_voice_at,
        }
    }
}

impl<T: Copy> UtteranceBuffer<T> {
    /// An empty buffer; `now` stands for the latest voiced frame until one
    /// arrives.
    pub fn new(now: u64) -> (buffer: Self)
        ensures
            buffer@ == UtteranceView::<T>::fresh(now),
    {
        UtteranceBuffer { samples: Vec::new(), has_voice: false, last_voice_at: now }
    }

    /// Whether a voiced frame arrived since the last reset.
    pub fn has_voice(&self) -> (voice: bool)
        ensures
            voice == self@.has_voice,
    {
        self.has_voice
    }

    /// When the latest voiced frame arrived.
    pub fn last_voice_at(&self) -> (at: u64)
        ensures
            at == self@.last_voice_at,
    {
        self.last_voice_at
    }

    /// The number of samples held.
    pub fn len(&self) -> (count: usize)
        ensures
            count == self@.samples.len(),
    {
        self.samples.len()
    }

    /// Takes in one frame captured at `now`. Its samples are appended
    /// whether it is voiced or not; a voiced frame sets the voice flag and
    /// the time of the latest voice.
    pub fn push_frame(&mut self, detector: &ActivityDetector, frame: &[T], energy: u32, now: u64)
        ensures
            final(self)@ == old(self)@.after_frame(*detector, frame@, energy, now),
    {
        let mut index: usize = 0;
        while index < frame.len()
            invariant
                index <= frame.len(),
                self.samples@ == old(self).samples@ + frame@.take(index as int),
                self.has_voice == old(self).has_voice,
                self.last_voice_at == old(self).last_voice_at,
            decreases frame.len() - index,
        {
            self.samples.push(frame[index]);
            index += 1;
            assert(frame@.take(index as int) =~= frame@.take(index - 1).push(frame@[index - 1]));
        }
        assert(frame@.take(index as int) =~= frame@);
        if detector.is_voiced(frame.len(), energy) {
            self.last_voice_at = now;
            self.has_voice = true;
        }
    }

    /// Whether the utterance has ended at `now`.
    pub fn utterance_ended(&self, now: u64, silence_duration: u64) -> (ended: bool)
        ensures
            ended == self@.ended(now, silence_duration),
    {
        self.has_voice && now >= self.last_voice_at && now - self.last_voice_at > silence_duration
    }

    /// Hands out the samples and clears the buffer and the voice flag in
    /// one step.
    pub fn take(&mut self) -> (samples: Vec<T>)
        ensures
            samples@ == old(self)@.samples,
            final(self)@ == old(self)@.after_take(),
    {
        self.has_voice = false;
        let mut samples: Vec<T> = Vec::new();
        std::mem::swap(&mut samples, &mut self.samples);
        samples
    }
}

} // verus!
