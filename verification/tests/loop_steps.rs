use rachaels_transcriber::decoding::{
    append_samples, decode_step, first_audio_track, source_format, DecodeAction, DecodeEvent,
};
use rachaels_transcriber::desktop_config::{models_dir_from, persistent_base_from, project_identity};
use rachaels_transcriber::download_models::{download_step, DownloadAction, DownloadEvent, DownloadTracker};
use rachaels_transcriber::recording::{poll_step, window_raw_len, PollAction, PollEvent, RecordPoll, WINDOW_SECONDS};
use rachaels_transcriber::setup::{setup_step, SetupDialog, SetupEvent, SetupStatus};
use rachaels_transcriber::status::{transcribe_reply, TranscribeReply, TranscribeStage};

#[test]
fn existing_model_file_is_returned() {
    let mut t = DownloadTracker::new(0);
    assert!(matches!(download_step(&mut t, DownloadEvent::DestExists(true)), DownloadAction::ReturnExisting));
    assert!(matches!(download_step(&mut t, DownloadEvent::DestExists(false)), DownloadAction::Fetch));
    assert_eq!(t.downloaded, 0);
}

#[test]
fn kept_blocks_are_counted_and_reported() {
    let mut t = DownloadTracker::new(1000);
    let a = download_step(&mut t, DownloadEvent::Chunk { len: 300, cancelled: false });
    assert!(matches!(a, DownloadAction::Write { downloaded: 300, total: 1000 }));
    let b = download_step(&mut t, DownloadEvent::Chunk { len: 200, cancelled: false });
    assert!(matches!(b, DownloadAction::Write { downloaded: 500, total: 1000 }));
    assert_eq!(t.downloaded, 500);
    assert_eq!(t.total, 1000);
}

#[test]
fn cancel_removes_temp_file_and_keeps_count() {
    let mut t = DownloadTracker::new(1000);
    download_step(&mut t, DownloadEvent::Chunk { len: 100, cancelled: false });
    let a = download_step(&mut t, DownloadEvent::Chunk { len: 50, cancelled: true });
    assert!(matches!(a, DownloadAction::RemoveTempAndFail));
    assert_eq!(t.downloaded, 100);
}

#[test]
fn end_of_stream_renames_temp_file() {
    let mut t = DownloadTracker::new(10);
    assert!(matches!(download_step(&mut t, DownloadEvent::StreamEnded), DownloadAction::RenameTempToDest));
    assert_eq!(t.downloaded, 0);
}

#[test]
fn poll_stops_or_waits_for_a_whole_window() {
    let mut p = RecordPoll { consumed: 0, window: 64000 };
    assert!(matches!(poll_step(&mut p, PollEvent::Tick { cancelled: true, captured: 100000 }), PollAction::Stop));
    assert!(matches!(poll_step(&mut p, PollEvent::Tick { cancelled: false, captured: 63999 }), PollAction::Sleep));
    assert_eq!(p.consumed, 0);
}

#[test]
fn windows_are_read_once_in_order() {
    let mut p = RecordPoll { consumed: 0, window: 100 };
    let a = poll_step(&mut p, PollEvent::Tick { cancelled: false, captured: 250 });
    assert!(matches!(a, PollAction::ReadWindow { start: 0, len: 100 }));
    let b = poll_step(&mut p, PollEvent::Tick { cancelled: false, captured: 250 });
    assert!(matches!(b, PollAction::ReadWindow { start: 100, len: 100 }));
    let c = poll_step(&mut p, PollEvent::Tick { cancelled: false, captured: 250 });
    assert!(matches!(c, PollAction::Sleep));
    assert_eq!(p.consumed, 200);
    assert_eq!(p.window, 100);
}

#[test]
fn windows_are_transcribed_only_with_speech() {
    let mut p = RecordPoll { consumed: 0, window: 10 };
    assert!(matches!(poll_step(&mut p, PollEvent::WindowRead { vad_enabled: true }), PollAction::JudgeSpeech));
    assert!(matches!(poll_step(&mut p, PollEvent::WindowRead { vad_enabled: false }), PollAction::Transcribe));
    assert!(matches!(poll_step(&mut p, PollEvent::SpeechJudged(true)), PollAction::Transcribe));
    assert!(matches!(poll_step(&mut p, PollEvent::SpeechJudged(false)), PollAction::Skip));
    assert_eq!(p.consumed, 0);
}

#[test]
fn window_length_at_device_rate() {
    assert_eq!(window_raw_len(16000, 1, 4), Some(64000));
    assert_eq!(window_raw_len(48000, 2, WINDOW_SECONDS), Some(384000));
    assert_eq!(window_raw_len(0, 2, 4), Some(0));
}

#[test]
fn setup_dialog_shows_progress_then_done() {
    let mut d = SetupDialog::new(vec!["Accurate", "Fast"]);
    assert!(d.is_open());
    assert!(d.should_start());
    setup_step(&mut d, SetupEvent::LabelStarted("Accurate".to_string()));
    assert!(matches!(&d.status, SetupStatus::Downloading { label, downloaded: 0, total: 0 } if label == "Accurate"));
    assert!(!d.should_start());
    setup_step(&mut d, SetupEvent::Progress { label: "Accurate".to_string(), downloaded: 5, total: 10 });
    assert!(matches!(&d.status, SetupStatus::Downloading { downloaded: 5, total: 10, .. }));
    setup_step(&mut d, SetupEvent::Retry { missing: vec![] });
    assert!(matches!(&d.status, SetupStatus::Downloading { .. }));
    setup_step(&mut d, SetupEvent::AllFinished);
    assert!(matches!(&d.status, SetupStatus::Done(m) if m == "Models downloaded"));
    assert!(d.is_open());
    setup_step(&mut d, SetupEvent::Continue);
    assert!(!d.is_open());
}

#[test]
fn setup_dialog_failure_and_retry() {
    let mut d = SetupDialog::new(vec!["Fast"]);
    setup_step(&mut d, SetupEvent::LabelStarted("Fast".to_string()));
    setup_step(&mut d, SetupEvent::LabelFailed("timed out".to_string()));
    assert!(matches!(&d.status, SetupStatus::Error(m) if m == "Download failed: timed out"));
    setup_step(&mut d, SetupEvent::Continue);
    assert!(d.is_open());
    setup_step(&mut d, SetupEvent::Retry { missing: vec!["Accurate", "Fast"] });
    assert!(matches!(d.status, SetupStatus::Idle));
    assert_eq!(d.pending, vec!["Accurate", "Fast"]);
    assert!(d.should_start());
}

#[test]
fn file_command_replies() {
    assert!(matches!(transcribe_reply(TranscribeStage::FileChecked(false)), TranscribeReply::Refuse(m) if m == "file not found"));
    assert!(matches!(transcribe_reply(TranscribeStage::FileChecked(true)), TranscribeReply::Continue));
    assert!(matches!(
        transcribe_reply(TranscribeStage::ModelChecked(false)),
        TranscribeReply::Fail(m) if m == "Model not found. Please download it first."
    ));
    assert!(matches!(
        transcribe_reply(TranscribeStage::EngineLoaded(Err("bad file".to_string()))),
        TranscribeReply::Fail(m) if m == "Failed to load model: bad file"
    ));
    assert!(matches!(
        transcribe_reply(TranscribeStage::AudioDecoded(Err("no track".to_string()))),
        TranscribeReply::Fail(m) if m == "Failed to decode audio: no track"
    ));
    assert!(matches!(transcribe_reply(TranscribeStage::AudioDecoded(Ok(()))), TranscribeReply::Continue));
    assert!(matches!(
        transcribe_reply(TranscribeStage::Transcribed(Err("oom".to_string()))),
        TranscribeReply::Fail(m) if m == "Transcription failed: oom"
    ));
    assert!(matches!(
        transcribe_reply(TranscribeStage::Transcribed(Ok("hello".to_string()))),
        TranscribeReply::Done(t) if t == "hello"
    ));
}

#[test]
fn desktop_models_dir_from_platform_answer() {
    assert_eq!(models_dir_from(Some("/home/u/.local/share/RachaelsTranscriber".to_string())),
        "/home/u/.local/share/RachaelsTranscriber/models");
    assert_eq!(models_dir_from(None), "./models");
    assert_eq!(persistent_base_from(None), ".");
    assert_eq!(persistent_base_from(Some("/data".to_string())), "/data");
}

#[test]
fn platform_identity_of_the_application() {
    assert_eq!(project_identity(), ("com", "rachaels", "RachaelsTranscriber"));
}

#[test]
fn format_defaults_to_16khz_mono() {
    assert_eq!(source_format(None, None), (16000, 1));
    assert_eq!(source_format(Some(44100), Some(2)), (44100, 2));
    assert_eq!(source_format(Some(48000), None), (48000, 1));
}

#[test]
fn first_track_with_a_codec_is_decoded() {
    assert_eq!(first_audio_track(&[true, false, false]), Some(1));
    assert_eq!(first_audio_track(&[false]), Some(0));
    assert_eq!(first_audio_track(&[true, true]), None);
    assert_eq!(first_audio_track(&[]), None);
}

#[test]
fn decoding_keeps_to_its_track() {
    assert!(matches!(decode_step(3, DecodeEvent::Packet { track_id: 3 }), DecodeAction::DecodePacket));
    assert!(matches!(decode_step(3, DecodeEvent::Packet { track_id: 4 }), DecodeAction::NextPacket));
    assert!(matches!(decode_step(3, DecodeEvent::EndOfStream), DecodeAction::Finish));
    assert!(matches!(decode_step(3, DecodeEvent::ResetRequired), DecodeAction::NextPacket));
    assert!(matches!(decode_step(3, DecodeEvent::ReadFailed), DecodeAction::FailRead));
    assert!(matches!(decode_step(3, DecodeEvent::Decoded), DecodeAction::AppendSamples));
    assert!(matches!(
        decode_step(3, DecodeEvent::DecodeFailed { recoverable: true }),
        DecodeAction::NextPacket
    ));
    assert!(matches!(
        decode_step(3, DecodeEvent::DecodeFailed { recoverable: false }),
        DecodeAction::FailDecode
    ));
}

#[test]
fn decoded_blocks_are_appended_in_order() {
    let mut all = vec![0.5f32];
    append_samples(&mut all, &[0.25, -0.25]);
    append_samples(&mut all, &[]);
    append_samples(&mut all, &[1.0]);
    assert_eq!(all, vec![0.5, 0.25, -0.25, 1.0]);
}
