//! The WebRTC voice-activity detector, with a record of how it was set up
//! and of every frame it has judged. Only the calls in this file change a
//! detector or its record.

use vstd::prelude::*;
use webrtc_vad::{SampleRate, Vad, VadMode};

verus! {

#[verifier::external_type_specification]
#[verifier::external_body]
pub struct ExVad(Vad);

#[verifier::external_type_specification]
#[verifier::external_body]
pub struct ExSampleRate(SampleRate);

/// The rate that `SampleRate::try_from` gives for a number of Hz.
pub uninterp spec fn rate_for_hz(hz: i32) -> SampleRate;

/// `SampleRate::try_from`: succeeds exactly for 8000, 16000, 32000 and
/// 48000 Hz, the rates the detector accepts, with the rate for `hz`.
#[verifier::external_body]
pub(crate) fn sample_rate_from_hz(hz: i32) -> (r: Result<SampleRate, &'static str>)
    ensures
        r is Ok <==> (hz == 8000 || hz == 16000 || hz == 32000 || hz == 48000),
        r matches Ok(rate) ==> rate == rate_for_hz(hz),
{
    <SampleRate as std::convert::TryFrom<i32>>::try_from(hz)
}

/// How aggressively a detector rejects frames, from least to most.
#[derive(Clone, Copy, Debug, PartialEq, Eq, Structural)]
pub enum DetectorMode {
    Quality,
    LowBitrate,
    Aggressive,
    VeryAggressive,
}

/// A WebRTC detector with the rate it was created with, the mode it was last
/// set to, and every frame handed to it with the answer it gave.
pub struct RawDetector {
    vad: Vad,
    rate: Ghost<SampleRate>,
    mode: Ghost<DetectorMode>,
    log: Ghost<Seq<(Seq<i16>, Result<bool, ()>)>>,
}

impl RawDetector {
    /// The rate the detector was created with.
    pub closed spec fn rate(&self) -> SampleRate {
        self.rate@
    }

    /// The mode the detector was last set to.
    pub closed spec fn mode(&self) -> DetectorMode {
        self.mode@
    }

    /// Every frame handed to the detector, in order, with its answer.
    pub closed spec fn log(&self) -> Seq<(Seq<i16>, Result<bool, ()>)> {
        self.log@
    }
}

/// `Vad::new_with_rate`: a detector for audio at `rate`, in the default
/// (quality) mode, that has judged nothing yet.
#[verifier::external_body]
pub(crate) fn vad_new_with_rate(rate: SampleRate) -> (r: RawDetector)
    ensures
        r.rate() == rate,
        r.mode() == DetectorMode::Quality,
        r.log() == Seq::<(Seq<i16>, Result<bool, ()>)>::empty(),
{
    let asked = Ghost(rate);
    RawDetector {
        vad: Vad::new_with_rate(rate),
        rate: asked,
        mode: Ghost(DetectorMode::Quality),
        log: Ghost(Seq::empty()),
    }
}

/// `Vad::set_mode` with the `VadMode` of the same name: changes how
/// aggressively the detector rejects frames.
#[verifier::external_body]
pub(crate) fn vad_set_mode(d: &mut RawDetector, mode: DetectorMode)
    ensures
        final(d).mode() == mode,
        final(d).rate() == old(d).rate(),
        final(d).log() == old(d).log(),
{
    let m = match mode {
        DetectorMode::Quality => VadMode::Quality,
        DetectorMode::LowBitrate => VadMode::LowBitrate,
        DetectorMode::Aggressive => VadMode::Aggressive,
        DetectorMode::VeryAggressive => VadMode::VeryAggressive,
    };
    d.vad.set_mode(m);
    d.mode = Ghost(mode);
}

/// Whether a detector created with `rate` accepts frames of `len` samples:
/// frames of 10, 20 or 30 ms at that rate.
pub open spec fn accepts_frame(rate: SampleRate, len: nat) -> bool {
    ||| rate == rate_for_hz(8000) && (len == 80 || len == 160 || len == 240)
    ||| rate == rate_for_hz(16000) && (len == 160 || len == 320 || len == 480)
    ||| rate == rate_for_hz(32000) && (len == 320 || len == 640 || len == 960)
    ||| rate == rate_for_hz(48000) && (len == 480 || len == 960 || len == 1440)
}

/// `Vad::is_voice_segment`: the detector's answer for one frame, `Err`
/// exactly for a frame length it does not support at its rate; the frame and
/// the answer join the record. Whether a supported frame holds voice depends
/// on the detector's adaptive state, so nothing more is stated of the answer.
/// The frame must not be empty (the call reads its first sample).
#[verifier::external_body]
pub(crate) fn vad_is_voice_segment(d: &mut RawDetector, frame: &[i16]) -> (r: Result<bool, ()>)
    requires
        frame@.len() > 0,
    ensures
        r is Ok <==> accepts_frame(old(d).rate(), frame@.len()),
        final(d).log() == old(d).log().push((frame@, r)),
        final(d).rate() == old(d).rate(),
        final(d).mode() == old(d).mode(),
{
    let r = d.vad.is_voice_segment(frame);
    d.log = Ghost(d.log@.push((frame@, r)));
    r
}

} // verus!
