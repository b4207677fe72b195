use rachaels_transcriber::status::{
    check_transcription_start, transcription_finished, FinishedStatus, StartCheck,
};
use rachaels_transcriber::vad::{count_voiced, DetectorMode, VadDetector, FRAME_SIZE};

#[test]
fn count_voiced_counts_only_ok_true() {
    assert_eq!(count_voiced(&[]), 0);
    assert_eq!(count_voiced(&[Ok(true), Ok(false), Err(()), Ok(true)]), 2);
}

#[test]
fn silence_has_no_speech_frames() {
    let mut vad = VadDetector::new();
    let silence = vec![0i16; FRAME_SIZE * 3 + 100];
    let tally = vad.tally_speech(&silence);
    assert_eq!(tally.total_frames, 3);
    assert_eq!(tally.speech_frames, 0);
}

#[test]
fn too_short_audio_has_no_frames() {
    let mut vad = VadDetector::new();
    let tally = vad.tally_speech(&[0i16; 479]);
    assert_eq!(tally.total_frames, 0);
    assert_eq!(tally.speech_frames, 0);
    assert!(vad.frame_decisions(&[]).is_empty());
}

#[test]
fn frame_decisions_of_valid_frames_are_judged() {
    let mut vad = VadDetector::new();
    let decisions = vad.frame_decisions(&vec![0i16; FRAME_SIZE * 2]);
    assert_eq!(decisions, vec![Ok(false), Ok(false)]);
}

fn done_text(s: FinishedStatus) -> Result<String, String> {
    match s {
        FinishedStatus::Done(t) => Ok(t),
        FinishedStatus::Error(t) => Err(t),
    }
}

#[test]
fn finished_transcription_statuses() {
    assert_eq!(done_text(transcription_finished(Ok("hi there".to_string()), false)), Ok("hi there".to_string()));
    assert_eq!(done_text(transcription_finished(Ok(String::new()), false)), Ok(String::new()));
    assert_eq!(
        done_text(transcription_finished(Ok(String::new()), true)),
        Ok("\u{23f9} Transcription cancelled.".to_string())
    );
    assert_eq!(
        done_text(transcription_finished(Ok("part".to_string()), true)),
        Ok("\u{23F9} Cancelled \u{2014} partial transcript:\n\npart".to_string())
    );
    assert_eq!(
        done_text(transcription_finished(Err("boom".to_string()), true)),
        Ok("\u{23f9} Transcription cancelled.".to_string())
    );
    assert_eq!(
        done_text(transcription_finished(Err("boom".to_string()), false)),
        Err("Transcription failed: boom".to_string())
    );
}

#[test]
fn start_checks_in_order() {
    assert!(matches!(check_transcription_start(false, false, false, "Fast"), StartCheck::NothingChosen));
    match check_transcription_start(true, false, false, "Fast") {
        StartCheck::Refused(m) => assert_eq!(m, "File does not exist"),
        _ => panic!("expected a refusal"),
    }
    match check_transcription_start(true, true, false, "Accurate") {
        StartCheck::Refused(m) => {
            assert_eq!(m, "Model 'Accurate' not downloaded. Please download it first.")
        }
        _ => panic!("expected a refusal"),
    }
    assert!(matches!(check_transcription_start(true, true, true, "Accurate"), StartCheck::Ready));
}

#[test]
fn detector_modes_can_be_changed() {
    let mut vad = VadDetector::new();
    for mode in [DetectorMode::LowBitrate, DetectorMode::Aggressive, DetectorMode::VeryAggressive, DetectorMode::Quality] {
        vad.set_mode(mode);
        let tally = vad.tally_speech(&vec![0i16; FRAME_SIZE * 2]);
        assert_eq!(tally.total_frames, 2);
        assert_eq!(tally.speech_frames, 0);
    }
}

#[test]
fn judge_speech_skips_audio_shorter_than_a_frame() {
    let mut vad = VadDetector::new();
    assert!(vad.judge_speech(&[0i16; 479]).is_none());
    let t = vad.judge_speech(&[0i16; 480]).unwrap();
    assert_eq!((t.speech_frames, t.total_frames), (0, 1));
}
