//! Voice-activity detection over 30 ms frames of 16-bit audio at 16 kHz,
//! by the WebRTC detector.

use vstd::prelude::*;
use crate::detector::{rate_for_hz, sample_rate_from_hz, vad_is_voice_segment, vad_new_with_rate, vad_set_mode, RawDetector};
pub use crate::detector::DetectorMode;

verus! {

/// Samples per detection frame: 30 ms at 16 kHz.
pub const FRAME_SIZE: usize = 480;

/// Number of frames that say "voice".
pub open spec fn voiced_count(decisions: Seq<Result<bool, ()>>) -> nat
    decreases decisions.len(),
{
    if decisions.len() == 0 {
        0
    } else {
        voiced_count(decisions.drop_last()) + (if decisions.last() == Ok::<bool, ()>(true) {
            1nat
        } else {
            0nat
        })
    }
}

/// There are never more voiced frames than frames.
proof fn lemma_voiced_at_most(decisions: Seq<Result<bool, ()>>)
    ensures
        voiced_count(decisions) <= decisions.len(),
    decreases decisions.len(),
{
    if decisions.len() > 0 {
        lemma_voiced_at_most(decisions.drop_last());
    }
}

/// The voiced count is the number of frames judged `Ok(true)`: every such
/// frame counts once, wherever it stands, and no other frame counts.
pub proof fn lemma_voiced_count_counts_each_voice(decisions: Seq<Result<bool, ()>>)
    ensures
        voiced_count(decisions) == decisions.filter(|d: Result<bool, ()>| d == Ok::<bool, ()>(true)).len(),
    decreases decisions.len(),
{
    let f = |d: Result<bool, ()>| d == Ok::<bool, ()>(true);
    if decisions.len() == 0 {
        assert(decisions.filter(f) =~= Seq::<Result<bool, ()>>::empty());
    } else {
        let rest = decisions.drop_last();
        lemma_voiced_count_counts_each_voice(rest);
        rest.lemma_filter_push(decisions.last(), f);
        assert(rest.push(decisions.last()) =~= decisions);
    }
}

/// Adding one more frame adds one to the count exactly when the detector
/// said "voice" for it, whatever came before.
pub proof fn lemma_voiced_count_push(decisions: Seq<Result<bool, ()>>, d: Result<bool, ()>)
    ensures
        voiced_count(decisions.push(d)) == voiced_count(decisions) + (if d == Ok::<bool, ()>(true) {
            1int
        } else {
            0int
        }),
{
    let f = |x: Result<bool, ()>| x == Ok::<bool, ()>(true);
    lemma_voiced_count_counts_each_voice(decisions);
    lemma_voiced_count_counts_each_voice(decisions.push(d));
    decisions.lemma_filter_push(d, f);
}

/// The number of frames for which the detector said "voice" (a frame it
/// could not judge counts as silence).
pub fn count_voiced(decisions: &[Result<bool, ()>]) -> (r: usize)
    ensures
        r == voiced_count(decisions@),
        r <= decisions@.len(),
{
    let n = decisions.len();
    let mut count: usize = 0;
    let mut i: usize = 0;
    while i < n
        invariant
            n == decisions@.len(),
            i <= n,
            count == voiced_count(decisions@.take(i as int)),
            count <= i,
        decreases n - i,
    {
        proof {
            assert(decisions@.take(i + 1).drop_last() =~= decisions@.take(i as int));
        }
        match decisions[i] {
            Ok(true) => {
                count = count + 1;
            },
            _ => {},
        }
        i = i + 1;
    }
    proof {
        assert(decisions@.take(n as int) =~= decisions@);
        lemma_voiced_at_most(decisions@);
    }
    count
}

/// How much of some audio the detector judged to be speech.
pub struct SpeechTally {
    pub speech_frames: usize,
    pub total_frames: usize,
}

/// The `i`-th whole frame of `samples`.
pub open spec fn frame_of(samples: Seq<i16>, i: int) -> Seq<i16> {
    samples.subrange(FRAME_SIZE * i, FRAME_SIZE * i + FRAME_SIZE)
}

/// The frames handed to a detector, each with the decision it gave.
pub open spec fn judged_frames(samples: Seq<i16>, decisions: Seq<Result<bool, ()>>) -> Seq<(Seq<i16>, Result<bool, ()>)> {
    Seq::new(decisions.len(), |i: int| (frame_of(samples, i), decisions[i]))
}

/// The decisions in a record of judged frames.
pub open spec fn decisions_in(judged: Seq<(Seq<i16>, Result<bool, ()>)>) -> Seq<Result<bool, ()>> {
    judged.map_values(|p: (Seq<i16>, Result<bool, ()>)| p.1)
}

/// The record of judged frames pairs the `i`-th whole frame of the samples,
/// which is the 480 samples from sample `480 * i` on, with the `i`-th
/// decision; and reading the decisions back out of such a record gives each
/// frame's decision, in order.
pub proof fn lemma_judged_frames_pair_frames_with_decisions(
    samples: Seq<i16>,
    decisions: Seq<Result<bool, ()>>,
    i: int,
    j: int,
)
    requires
        0 <= i < decisions.len(),
        decisions.len() <= samples.len() / (FRAME_SIZE as nat),
        0 <= j < FRAME_SIZE,
    ensures
        judged_frames(samples, decisions).len() == decisions.len(),
        judged_frames(samples, decisions)[i].1 == decisions[i],
        judged_frames(samples, decisions)[i].0.len() == FRAME_SIZE,
        judged_frames(samples, decisions)[i].0[j] == samples[480 * i + j],
        decisions_in(judged_frames(samples, decisions)) == decisions,
{
    assert(480 * i + 480 <= samples.len()) by (nonlinear_arith)
        requires
            0 <= i < decisions.len(),
            decisions.len() <= samples.len() / 480,
    ;
    assert(decisions_in(judged_frames(samples, decisions)) =~= decisions);
}

/// A voice-activity detector for 16 kHz audio, with the rate it was created
/// for, the mode it was last set to, and every frame it has judged.
pub struct VadDetector {
    raw: RawDetector,
    rate_hz: i32,
}

impl VadDetector {
    /// The sample rate, in Hz, that the detector was created for.
    pub closed spec fn sample_rate(&self) -> int {
        self.rate_hz as int
    }

    /// The rate value the detector was created with.
    pub closed spec fn created_with(&self) -> webrtc_vad::SampleRate {
        self.raw.rate()
    }

    /// The mode the detector was last set to.
    pub closed spec fn mode(&self) -> DetectorMode {
        self.raw.mode()
    }

    /// Every frame handed to the detector so far, in order, with its decision.
    pub closed spec fn judged(&self) -> Seq<(Seq<i16>, Result<bool, ()>)> {
        self.raw.log()
    }

    /// A detector for 16 kHz audio in the default (quality) mode, that has
    /// judged nothing yet.
    pub fn new() -> (r: Self)
        ensures
            r.sample_rate() == crate::config::SAMPLE_RATE,
            r.created_with() == rate_for_hz(16000),
            r.mode() == DetectorMode::Quality,
            r.judged() == Seq::<(Seq<i16>, Result<bool, ()>)>::empty(),
    {
        let hz: i32 = 16000;
        let rate = match sample_rate_from_hz(hz) {
            Ok(rate) => rate,
            Err(_) => vstd::pervasive::unreached(),
        };
        VadDetector { raw: vad_new_with_rate(rate), rate_hz: hz }
    }

    /// Changes how aggressively the detector rejects frames.
    pub fn set_mode(&mut self, mode: DetectorMode)
        ensures
            final(self).mode() == mode,
            final(self).sample_rate() == old(self).sample_rate(),
            final(self).created_with() == old(self).created_with(),
            final(self).judged() == old(self).judged(),
    {
        vad_set_mode(&mut self.raw, mode);
    }

    /// The detector's decision for each whole frame of `samples`, in order;
    /// samples after the last whole frame are not looked at. Every frame has
    /// a length the detector accepts at 16 kHz, so for a detector made by
    /// [`VadDetector::new`] each decision is `Ok`.
    pub fn frame_decisions(&mut self, samples: &[i16]) -> (r: Vec<Result<bool, ()>>)
        ensures
            r@.len() == samples@.len() / (FRAME_SIZE as nat),
            old(self).created_with() == rate_for_hz(16000) ==> forall|i: int|
                0 <= i < r@.len() ==> #[trigger] r@[i] is Ok,
            final(self).judged() == old(self).judged() + judged_frames(samples@, r@),
            final(self).mode() == old(self).mode(),
            final(self).sample_rate() == old(self).sample_rate(),
            final(self).created_with() == old(self).created_with(),
    {
        let total = samples.len() / FRAME_SIZE;
        let mut out: Vec<Result<bool, ()>> = Vec::new();
        let mut i: usize = 0;
        while i < total
            invariant
                total == samples@.len() / (FRAME_SIZE as nat),
                i <= total,
                out@.len() == i,
                self.raw.log() == old(self).raw.log() + judged_frames(samples@, out@),
                self.raw.mode() == old(self).raw.mode(),
                self.raw.rate() == old(self).raw.rate(),
                self.rate_hz == old(self).rate_hz,
                old(self).raw.rate() == rate_for_hz(16000) ==> forall|k: int|
                    0 <= k < out@.len() ==> #[trigger] out@[k] is Ok,
            decreases total - i,
        {
            let len = samples.len();
            assert(i * 480 + 480 <= len) by (nonlinear_arith)
                requires
                    i < total,
                    total == len / 480,
            ;
            let start = i * FRAME_SIZE;
            let frame = &samples[start..start + FRAME_SIZE];
            let d = vad_is_voice_segment(&mut self.raw, frame);
            let ghost before = out@;
            out.push(d);
            proof {
                assert(frame@ == frame_of(samples@, i as int));
                assert(judged_frames(samples@, out@) =~= judged_frames(samples@, before).push(
                    (frame@, d),
                ));
                assert(self.raw.log() =~= old(self).raw.log() + judged_frames(samples@, out@));
            }
            i = i + 1;
        }
        out
    }

    /// Counts the frames of `samples` and those the detector judged to be
    /// speech.
    pub fn tally_speech(&mut self, samples: &[i16]) -> (r: SpeechTally)
        ensures
            r.total_frames == samples@.len() / (FRAME_SIZE as nat),
            final(self).judged().len() == old(self).judged().len() + r.total_frames,
            final(self).judged().take(old(self).judged().len() as int) == old(self).judged(),
            forall|i: int|
                0 <= i < r.total_frames ==> (#[trigger] final(self).judged()[old(self).judged().len()
                    + i]).0 == frame_of(samples@, i),
            r.speech_frames == voiced_count(
                decisions_in(final(self).judged().skip(old(self).judged().len() as int)),
            ),
            r.speech_frames <= r.total_frames,
            final(self).mode() == old(self).mode(),
            final(self).sample_rate() == old(self).sample_rate(),
            final(self).created_with() == old(self).created_with(),
    {
        let decisions = self.frame_decisions(samples);
        let speech = count_voiced(decisions.as_slice());
        proof {
            let o = old(self).judged();
            let j = self.judged();
            let added = judged_frames(samples@, decisions@);
            assert(j.take(o.len() as int) =~= o);
            assert(j.skip(o.len() as int) =~= added);
            assert(decisions_in(added) =~= decisions@);
            assert forall|i: int| 0 <= i < decisions@.len() implies (#[trigger] j[o.len() + i]).0
                == frame_of(samples@, i) by {
                assert(j[o.len() + i] == added[i]);
            }
        }
        SpeechTally { speech_frames: speech, total_frames: decisions.len() }
    }

    /// Judges `samples` when they hold at least one whole frame; audio shorter
    /// than a frame is not handed to the detector and gets no tally.
    pub fn judge_speech(&mut self, samples: &[i16]) -> (r: Option<SpeechTally>)
        ensures
            r is None <==> samples@.len() < FRAME_SIZE,
            r is None ==> final(self).judged() == old(self).judged(),
            r matches Some(t) ==> {
                &&& t.total_frames == samples@.len() / (FRAME_SIZE as nat)
                &&& t.total_frames >= 1
                &&& final(self).judged().len() == old(self).judged().len() + t.total_frames
                &&& final(self).judged().take(old(self).judged().len() as int) == old(self).judged()
                &&& forall|i: int|
                    0 <= i < t.total_frames ==> (#[trigger] final(self).judged()[old(
                        self,
                    ).judged().len() + i]).0 == frame_of(samples@, i)
                &&& t.speech_frames == voiced_count(
                    decisions_in(final(self).judged().skip(old(self).judged().len() as int)),
                )
                &&& t.speech_frames <= t.total_frames
            },
            final(self).mode() == old(self).mode(),
            final(self).sample_rate() == old(self).sample_rate(),
            final(self).created_with() == old(self).created_with(),
    {
        if samples.len() < FRAME_SIZE {
            return None;
        }
        Some(self.tally_speech(samples))
    }
}

} // verus!
