//! What the desktop window and the file-transcription command report around
//! a file transcription: whether one can start, what each stage leads to,
//! and the status it ends in.

use vstd::prelude::*;

verus! {

/// Reported when a transcription was cancelled before any text came out.
pub const CANCELLED_MESSAGE: &'static str = "\u{23f9} Transcription cancelled.";

/// Put before the partial text of a cancelled transcription.
pub const PARTIAL_PREFIX: &'static str = "\u{23f9} Cancelled \u{2014} partial transcript:\n\n";

/// Put before the reason a transcription failed.
pub const FAILED_PREFIX: &'static str = "Transcription failed: ";

/// Reported when the chosen audio file is gone.
pub const FILE_MISSING_MESSAGE: &'static str = "File does not exist";

/// The status a finished transcription leaves.
pub enum FinishedStatus {
    Done(String),
    Error(String),
}

/// The text shown when a transcription ends: the transcript; when it was
/// cancelled, the partial transcript under a notice (or the notice alone);
/// when it failed, the reason, unless it was cancelled anyway.
pub open spec fn finished_view(result: Result<Seq<char>, Seq<char>>, cancelled: bool) -> (bool, Seq<char>) {
    match result {
        Ok(text) => if !cancelled {
            (true, text)
        } else if text.len() == 0 {
            (true, CANCELLED_MESSAGE@)
        } else {
            (true, PARTIAL_PREFIX@ + text)
        },
        Err(e) => if cancelled {
            (true, CANCELLED_MESSAGE@)
        } else {
            (false, FAILED_PREFIX@ + e)
        },
    }
}

/// The status a file transcription ends in, from its result (the transcript,
/// or why it failed) and whether it was cancelled.
pub fn transcription_finished(result: Result<String, String>, cancelled: bool) -> (r: FinishedStatus)
    ensures
        finished_view(
            match result {
                Ok(t) => Ok(t@),
                Err(e) => Err(e@),
            },
            cancelled,
        ) == (match r {
            FinishedStatus::Done(t) => (true, t@),
            FinishedStatus::Error(t) => (false, t@),
        }),
{
    match result {
        Ok(text) => {
            if !cancelled {
                FinishedStatus::Done(text)
            } else if text.as_str().unicode_len() == 0 {
                FinishedStatus::Done(String::from_str(CANCELLED_MESSAGE))
            } else {
                FinishedStatus::Done(String::from_str(PARTIAL_PREFIX).concat(text.as_str()))
            }
        },
        Err(e) => {
            if cancelled {
                FinishedStatus::Done(String::from_str(CANCELLED_MESSAGE))
            } else {
                FinishedStatus::Error(String::from_str(FAILED_PREFIX).concat(e.as_str()))
            }
        },
    }
}

/// Whether a file transcription can start.
pub enum StartCheck {
    /// No file has been chosen: nothing happens.
    NothingChosen,
    /// The transcription cannot start, for the reason given.
    Refused(String),
    /// Everything needed is there.
    Ready,
}

/// The refusal for a model that is not downloaded.
pub open spec fn model_missing_message(label: Seq<char>) -> Seq<char> {
    "Model '"@ + label + "' not downloaded. Please download it first."@
}

/// Whether a file transcription with the model `label` can start, given
/// whether a file was chosen, whether it exists, and whether the model is
/// downloaded (checked in that order).
pub fn check_transcription_start(
    file_chosen: bool,
    file_exists: bool,
    model_downloaded: bool,
    label: &str,
) -> (r: StartCheck)
    ensures
        !file_chosen ==> r is NothingChosen,
        file_chosen && !file_exists ==> (r matches StartCheck::Refused(m) && m@ == FILE_MISSING_MESSAGE@),
        file_chosen && file_exists && !model_downloaded ==> (r matches StartCheck::Refused(m) && m@
            == model_missing_message(label@)),
        file_chosen && file_exists && model_downloaded ==> r is Ready,
{
    if !file_chosen {
        return StartCheck::NothingChosen;
    }
    if !file_exists {
        return StartCheck::Refused(String::from_str(FILE_MISSING_MESSAGE));
    }
    if !model_downloaded {
        let msg = String::from_str("Model '").concat(label).concat(
            "' not downloaded. Please download it first.",
        );
        return StartCheck::Refused(msg);
    }
    StartCheck::Ready
}

/// The file-transcription command's answer when the file is not there.
pub const FILE_NOT_FOUND: &'static str = "file not found";

/// Sent when the chosen model has not been downloaded.
pub const MODEL_NOT_FOUND: &'static str = "Model not found. Please download it first.";

/// Put before the reason a model could not be loaded.
pub const LOAD_FAILED_PREFIX: &'static str = "Failed to load model: ";

/// Put before the reason an audio file could not be decoded.
pub const DECODE_FAILED_PREFIX: &'static str = "Failed to decode audio: ";

/// A stage of the file-transcription command, with its outcome.
pub enum TranscribeStage {
    /// Whether the audio file exists (checked before anything starts).
    FileChecked(bool),
    /// Whether the chosen model's file exists.
    ModelChecked(bool),
    /// Loading the model, or why it failed.
    EngineLoaded(Result<(), String>),
    /// Decoding the audio, or why it failed.
    AudioDecoded(Result<(), String>),
    /// The transcript, or why transcription failed.
    Transcribed(Result<String, String>),
}

/// What the command does after a stage.
pub enum TranscribeReply {
    /// Refuse the command at once with this error.
    Refuse(String),
    /// Go on with the next stage.
    Continue,
    /// Stop and send this error.
    Fail(String),
    /// Send the transcript.
    Done(String),
}

/// What the command does after a stage, as text: `(0, m)` refuses with `m`,
/// `(1, _)` goes on, `(2, m)` fails with `m`, `(3, t)` sends the transcript.
pub open spec fn reply_view(stage: TranscribeStage) -> (int, Seq<char>) {
    match stage {
        TranscribeStage::FileChecked(exists) => if exists {
            (1, Seq::empty())
        } else {
            (0, FILE_NOT_FOUND@)
        },
        TranscribeStage::ModelChecked(exists) => if exists {
            (1, Seq::empty())
        } else {
            (2, MODEL_NOT_FOUND@)
        },
        TranscribeStage::EngineLoaded(r) => match r {
            Ok(_) => (1, Seq::empty()),
            Err(e) => (2, LOAD_FAILED_PREFIX@ + e@),
        },
        TranscribeStage::AudioDecoded(r) => match r {
            Ok(_) => (1, Seq::empty()),
            Err(e) => (2, DECODE_FAILED_PREFIX@ + e@),
        },
        TranscribeStage::Transcribed(r) => match r {
            Ok(t) => (3, t@),
            Err(e) => (2, FAILED_PREFIX@ + e@),
        },
    }
}

/// The text of a message made of a prefix and a reason.
fn prefixed(prefix: &str, reason: &str) -> (r: String)
    ensures
        r@ == prefix@ + reason@,
{
    let mut m = String::from_str(prefix);
    m.append(reason);
    m
}

/// What the file-transcription command does after a stage: a missing file
/// refuses the command; a missing model, or a failure to load, decode or
/// transcribe, stops it with a message; a transcript is sent; anything else
/// goes on.
pub fn transcribe_reply(stage: TranscribeStage) -> (r: TranscribeReply)
    ensures
        reply_view(stage) == (match r {
            TranscribeReply::Refuse(m) => (0int, m@),
            TranscribeReply::Continue => (1int, Seq::<char>::empty()),
            TranscribeReply::Fail(m) => (2int, m@),
            TranscribeReply::Done(t) => (3int, t@),
        }),
{
    match stage {
        TranscribeStage::FileChecked(exists) => {
            if exists {
                TranscribeReply::Continue
            } else {
                TranscribeReply::Refuse(String::from_str(FILE_NOT_FOUND))
            }
        },
        TranscribeStage::ModelChecked(exists) => {
            if exists {
                TranscribeReply::Continue
            } else {
                TranscribeReply::Fail(String::from_str(MODEL_NOT_FOUND))
            }
        },
        TranscribeStage::EngineLoaded(r) => match r {
            Ok(_) => TranscribeReply::Continue,
            Err(e) => TranscribeReply::Fail(prefixed(LOAD_FAILED_PREFIX, e.as_str())),
        },
        TranscribeStage::AudioDecoded(r) => match r {
            Ok(_) => TranscribeReply::Continue,
            Err(e) => TranscribeReply::Fail(prefixed(DECODE_FAILED_PREFIX, e.as_str())),
        },
        TranscribeStage::Transcribed(r) => match r {
            Ok(t) => TranscribeReply::Done(t),
            Err(e) => TranscribeReply::Fail(prefixed(FAILED_PREFIX, e.as_str())),
        },
    }
}

/// The command goes on exactly after a stage that succeeded (the file and
/// the model are there, the model loaded, the audio decoded); only a missing
/// file refuses the command at once; each failure stops it with its own
/// message ending in the reason; and a finished transcription sends its
/// transcript unchanged.
pub proof fn lemma_command_goes_on_after_success(
    exists: bool,
    outcome: Result<(), String>,
    transcript: Result<String, String>,
)
    ensures
        (reply_view(TranscribeStage::FileChecked(exists)).0 == 1) == exists,
        (reply_view(TranscribeStage::ModelChecked(exists)).0 == 1) == exists,
        (reply_view(TranscribeStage::EngineLoaded(outcome)).0 == 1) == (outcome is Ok),
        (reply_view(TranscribeStage::AudioDecoded(outcome)).0 == 1) == (outcome is Ok),
        reply_view(TranscribeStage::Transcribed(transcript)).0 != 1,
        !exists ==> reply_view(TranscribeStage::FileChecked(exists)) == (0int, FILE_NOT_FOUND@),
        !exists ==> reply_view(TranscribeStage::ModelChecked(exists)) == (2int, MODEL_NOT_FOUND@),
        outcome matches Err(e) ==> reply_view(TranscribeStage::EngineLoaded(outcome)) == (
        2int,
        LOAD_FAILED_PREFIX@ + e@,
        ),
        outcome matches Err(e) ==> reply_view(TranscribeStage::AudioDecoded(outcome)) == (
        2int,
        DECODE_FAILED_PREFIX@ + e@,
        ),
        transcript matches Ok(t) ==> reply_view(TranscribeStage::Transcribed(transcript)) == (3int, t@),
        transcript matches Err(e) ==> reply_view(TranscribeStage::Transcribed(transcript)) == (
        2int,
        FAILED_PREFIX@ + e@,
        ),
{
}

/// A transcription that was not cancelled ends with exactly its transcript,
/// or as an error with the reason at the end; a cancelled one is never an
/// error, and shows either the cancel notice alone or the notice followed by
/// the whole partial transcript.
pub proof fn lemma_finished_outcomes(result: Result<Seq<char>, Seq<char>>, cancelled: bool)
    ensures
        !cancelled ==> (result matches Ok(t) ==> finished_view(result, cancelled) == (true, t)),
        !cancelled ==> (result matches Err(e) ==> finished_view(result, cancelled) == (
        false,
        FAILED_PREFIX@ + e,
        )),
        cancelled ==> finished_view(result, cancelled).0,
        cancelled ==> (finished_view(result, cancelled).1 == CANCELLED_MESSAGE@ || (result matches Ok(t)
            && t.len() > 0 && finished_view(result, cancelled).1 == PARTIAL_PREFIX@ + t)),
        cancelled && (result matches Ok(t) && t.len() > 0) ==> finished_view(result, cancelled).1.len()
            > PARTIAL_PREFIX@.len(),
{
    match result {
        Ok(t) => {
            if cancelled && t.len() > 0 {
                assert((PARTIAL_PREFIX@ + t).len() == PARTIAL_PREFIX@.len() + t.len());
            }
        },
        Err(_) => {},
    }
}

} // verus!
