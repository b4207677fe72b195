//! The two recognition models: their names, files, sources and sizes, where
//! they are stored, which of them are missing, and the byte count of a
//! download in progress.

use vstd::prelude::*;
use crate::config::{MODEL_ACCURATE, MODEL_FAST};
use crate::platform::{path_exists, Presence};
use crate::text::{join_path, joined_path, str_eq};

verus! {

/// Label of the accurate model.
pub const LABEL_ACCURATE: &'static str = "Accurate";

/// Label of the fast model.
pub const LABEL_FAST: &'static str = "Fast";

/// Where a model comes from and how large it is.
pub struct ModelInfo {
    pub name: &'static str,
    pub url: &'static str,
    pub size_mb: u64,
}

/// Source of the accurate model's file.
pub const ACCURATE_URL: &'static str = "https://huggingface.co/ggerganov/whisper.cpp/resolve/main/ggml-small.en.bin";

/// Source of the fast model's file.
pub const FAST_URL: &'static str = "https://huggingface.co/ggerganov/whisper.cpp/resolve/main/ggml-base.en.bin";

/// The accurate model (small.en, about 465 MB).
pub open spec fn accurate_info() -> ModelInfo {
    ModelInfo { name: LABEL_ACCURATE, url: ACCURATE_URL, size_mb: 465 }
}

/// The fast model (base.en, about 141 MB).
pub open spec fn fast_info() -> ModelInfo {
    ModelInfo { name: LABEL_FAST, url: FAST_URL, size_mb: 141 }
}

/// The accurate model (small.en, about 465 MB).
pub fn accurate_model() -> (r: ModelInfo)
    ensures
        r == accurate_info(),
{
    ModelInfo { name: LABEL_ACCURATE, url: ACCURATE_URL, size_mb: 465 }
}

/// The fast model (base.en, about 141 MB).
pub fn fast_model() -> (r: ModelInfo)
    ensures
        r == fast_info(),
{
    ModelInfo { name: LABEL_FAST, url: FAST_URL, size_mb: 141 }
}

/// The model file for a label: the accurate model's for `Accurate`, the fast
/// model's for anything else.
pub open spec fn filename_for(label: Seq<char>) -> Seq<char> {
    if label == LABEL_ACCURATE@ {
        MODEL_ACCURATE@
    } else {
        MODEL_FAST@
    }
}

/// The model file for a label: the accurate model's for `Accurate`, the fast
/// model's for anything else.
pub fn model_filename(label: &str) -> (r: &'static str)
    ensures
        r@ == filename_for(label@),
{
    if str_eq(label, LABEL_ACCURATE) {
        MODEL_ACCURATE
    } else {
        MODEL_FAST
    }
}

/// Where the model for a label is stored inside the models directory.
pub fn model_path(models_dir: &str, label: &str) -> (r: String)
    ensures
        r@ == joined_path(models_dir@, filename_for(label@)),
{
    join_path(models_dir, model_filename(label))
}

/// Whether the model for a label has been downloaded, that is whether its
/// file exists, with the presence check of [`model_path`] that answers it.
pub fn is_model_downloaded(models_dir: &str, label: &str) -> (r: (bool, Presence))
    ensures
        r.1.asked() == joined_path(models_dir@, filename_for(label@)),
        r.0 == r.1.present(),
{
    let p = model_presence(models_dir, label);
    (p.is_present(), p)
}

/// Looks whether the model file for a label exists (see [`model_path`]).
pub fn model_presence(models_dir: &str, label: &str) -> (r: Presence)
    ensures
        r.asked() == joined_path(models_dir@, filename_for(label@)),
{
    let path = model_path(models_dir, label);
    path_exists(path.as_str())
}

/// The labels of the missing models, the accurate one first.
pub open spec fn missing_labels(accurate_present: bool, fast_present: bool) -> Seq<&'static str> {
    (if accurate_present {
        Seq::<&'static str>::empty()
    } else {
        seq![LABEL_ACCURATE]
    }) + (if fast_present {
        Seq::<&'static str>::empty()
    } else {
        seq![LABEL_FAST]
    })
}

/// The labels of the models that are not present, the accurate one first.
pub fn missing_models(accurate_present: bool, fast_present: bool) -> (r: Vec<&'static str>)
    ensures
        r@ == missing_labels(accurate_present, fast_present),
{
    let mut missing: Vec<&'static str> = Vec::new();
    if !accurate_present {
        missing.push(LABEL_ACCURATE);
    }
    if !fast_present {
        missing.push(LABEL_FAST);
    }
    proof {
        assert(missing@ =~= missing_labels(accurate_present, fast_present));
    }
    missing
}

/// The labels of the models whose files are not in the models directory,
/// the accurate one first, with the presence checks of the accurate and the
/// fast model's files that the list comes from.
pub fn check_missing_models(models_dir: &str) -> (r: (Vec<&'static str>, Presence, Presence))
    ensures
        r.1.asked() == joined_path(models_dir@, filename_for(LABEL_ACCURATE@)),
        r.2.asked() == joined_path(models_dir@, filename_for(LABEL_FAST@)),
        r.0@ == missing_labels(r.1.present(), r.2.present()),
{
    let accurate = model_presence(models_dir, LABEL_ACCURATE);
    let fast = model_presence(models_dir, LABEL_FAST);
    let missing = missing_models(accurate.is_present(), fast.is_present());
    (missing, accurate, fast)
}

/// What is known of the model with a label: `Accurate` and `Fast` only.
pub fn model_info(label: &str) -> (r: Option<ModelInfo>)
    ensures
        r == (if label@ == LABEL_ACCURATE@ {
            Some(accurate_info())
        } else if label@ == LABEL_FAST@ {
            Some(fast_info())
        } else {
            None::<ModelInfo>
        }),
{
    if str_eq(label, LABEL_ACCURATE) {
        Some(accurate_model())
    } else if str_eq(label, LABEL_FAST) {
        Some(fast_model())
    } else {
        None
    }
}

/// The name under which a model's file is written while it downloads: its
/// file name with the extension `tmp` in place of `bin`.
pub open spec fn temp_filename_for(label: Seq<char>) -> Seq<char> {
    if label == LABEL_ACCURATE@ {
        "ggml-small.en.tmp"@
    } else {
        "ggml-base.en.tmp"@
    }
}

/// Where the model for a label is written while it downloads.
pub fn temp_path(models_dir: &str, label: &str) -> (r: String)
    ensures
        r@ == joined_path(models_dir@, temp_filename_for(label@)),
{
    if str_eq(label, LABEL_ACCURATE) {
        join_path(models_dir, "ggml-small.en.tmp")
    } else {
        join_path(models_dir, "ggml-base.en.tmp")
    }
}

/// The size to report for a download: the length the server announced, or
/// else the model's nominal size in bytes.
pub fn download_total_size(content_length: Option<u64>, size_mb: u64) -> (r: u64)
    requires
        size_mb * 1048576 <= u64::MAX,
    ensures
        r == (match content_length {
            Some(n) => n as int,
            None => size_mb * 1048576,
        }),
{
    match content_length {
        Some(n) => n,
        None => size_mb * 1024 * 1024,
    }
}

/// The byte count of a download in progress.
pub struct DownloadTracker {
    pub downloaded: u64,
    pub total: u64,
}

impl DownloadTracker {
    /// Nothing downloaded yet out of `total` bytes.
    pub fn new(total: u64) -> (r: Self)
        ensures
            r.downloaded == 0,
            r.total == total,
    {
        DownloadTracker { downloaded: 0, total }
    }

    /// Counts a received block of `len` bytes and returns the bytes
    /// downloaded so far.
    pub fn record_chunk(&mut self, len: usize) -> (r: u64)
        requires
            old(self).downloaded + len <= u64::MAX,
        ensures
            final(self).downloaded == old(self).downloaded + len,
            final(self).total == old(self).total,
            r == final(self).downloaded,
    {
        self.downloaded = self.downloaded + len as u64;
        self.downloaded
    }
}

/// What happens next in downloading a model file.
pub enum DownloadEvent {
    /// Whether the model file is already in place, checked before anything
    /// is fetched.
    DestExists(bool),
    /// A block of `len` bytes has arrived; `cancelled` tells whether the
    /// caller asked to stop.
    Chunk { len: usize, cancelled: bool },
    /// The server has sent everything.
    StreamEnded,
}

/// What the downloader does in answer to an event.
pub enum DownloadAction {
    /// The model file is there already: return it, fetch nothing.
    ReturnExisting,
    /// The model file is missing: fetch it into the temporary file.
    Fetch,
    /// Append the block to the temporary file and report the bytes so far.
    Write { downloaded: u64, total: u64 },
    /// Remove the temporary file and fail: the download was cancelled.
    RemoveTempAndFail,
    /// Move the temporary file onto the model file: the download is complete.
    RenameTempToDest,
}

/// The action that answers `event` when `downloaded` of `total` bytes have
/// arrived so far.
pub open spec fn download_reaction(downloaded: u64, total: u64, event: DownloadEvent) -> DownloadAction {
    match event {
        DownloadEvent::DestExists(true) => DownloadAction::ReturnExisting,
        DownloadEvent::DestExists(false) => DownloadAction::Fetch,
        DownloadEvent::Chunk { len, cancelled } => if cancelled {
            DownloadAction::RemoveTempAndFail
        } else {
            DownloadAction::Write { downloaded: (downloaded + len) as u64, total }
        },
        DownloadEvent::StreamEnded => DownloadAction::RenameTempToDest,
    }
}

/// One step of downloading a model: decides what to do with `event` and
/// counts the bytes of each block that is kept.
pub fn download_step(state: &mut DownloadTracker, event: DownloadEvent) -> (r: DownloadAction)
    requires
        event matches DownloadEvent::Chunk { len, cancelled } ==> (cancelled || old(state).downloaded
            + len <= u64::MAX),
    ensures
        r == download_reaction(old(state).downloaded, old(state).total, event),
        final(state).total == old(state).total,
        final(state).downloaded == (match event {
            DownloadEvent::Chunk { len, cancelled } => if cancelled {
                old(state).downloaded as int
            } else {
                old(state).downloaded + len
            },
            _ => old(state).downloaded as int,
        }),
{
    match event {
        DownloadEvent::DestExists(exists) => {
            if exists {
                DownloadAction::ReturnExisting
            } else {
                DownloadAction::Fetch
            }
        },
        DownloadEvent::Chunk { len, cancelled } => {
            if cancelled {
                DownloadAction::RemoveTempAndFail
            } else {
                let downloaded = state.record_chunk(len);
                DownloadAction::Write { downloaded, total: state.total }
            }
        },
        DownloadEvent::StreamEnded => DownloadAction::RenameTempToDest,
    }
}

/// The model file is written only when the whole stream has arrived: the
/// only action that touches it is `RenameTempToDest`, taken exactly at the
/// end of the stream; a cancel is the only thing that removes the temporary
/// file; and an existing model file is returned without fetching anything.
pub proof fn lemma_model_file_written_only_at_end(downloaded: u64, total: u64, event: DownloadEvent)
    ensures
        download_reaction(downloaded, total, event) is RenameTempToDest <==> event is StreamEnded,
        download_reaction(downloaded, total, event) is RemoveTempAndFail <==> (
        event matches DownloadEvent::Chunk { cancelled, .. } && cancelled),
        download_reaction(downloaded, total, event) is ReturnExisting <==> event
            == DownloadEvent::DestExists(true),
{
}

/// The missing models are listed once each, the accurate one before the fast
/// one: a label is in the list exactly when its model is not present.
pub proof fn lemma_missing_labels_are_the_absent_models(accurate_present: bool, fast_present: bool)
    ensures
        missing_labels(accurate_present, fast_present).contains(LABEL_ACCURATE) == !accurate_present,
        missing_labels(accurate_present, fast_present).contains(LABEL_FAST) == !fast_present,
        missing_labels(accurate_present, fast_present).len() == (if accurate_present {
            0int
        } else {
            1int
        }) + (if fast_present {
            0int
        } else {
            1int
        }),
        !accurate_present ==> missing_labels(accurate_present, fast_present)[0] == LABEL_ACCURATE,
        forall|i: int|
            0 <= i < missing_labels(accurate_present, fast_present).len() ==> (#[trigger] missing_labels(
                accurate_present,
                fast_present,
            )[i] == LABEL_ACCURATE || missing_labels(accurate_present, fast_present)[i] == LABEL_FAST),
{
    let m = missing_labels(accurate_present, fast_present);
    reveal_strlit("Accurate");
    reveal_strlit("Fast");
    assert(LABEL_ACCURATE@ != LABEL_FAST@) by {
        reveal_strlit("Accurate");
        reveal_strlit("Fast");
        assert(LABEL_ACCURATE@.len() != LABEL_FAST@.len());
    }
    if !accurate_present {
        assert(m[0] == LABEL_ACCURATE);
    }
    if !fast_present {
        assert(m[m.len() - 1] == LABEL_FAST);
    }
}

/// The name a model is downloaded under is its file name with the last three
/// characters (`bin`) replaced by `tmp`.
pub proof fn lemma_temp_name_of_model(label: Seq<char>)
    ensures
        filename_for(label).len() >= 3,
        temp_filename_for(label) == filename_for(label).subrange(0, filename_for(label).len() - 3)
            + "tmp"@,
{
    reveal_strlit("ggml-small.en.bin");
    reveal_strlit("ggml-base.en.bin");
    reveal_strlit("ggml-small.en.tmp");
    reveal_strlit("ggml-base.en.tmp");
    reveal_strlit("tmp");
    assert(temp_filename_for(label) =~= filename_for(label).subrange(0, filename_for(label).len() - 3)
        + "tmp"@);
}

/// Each kept block adds exactly its length to the bytes reported, with the
/// total unchanged.
pub proof fn lemma_kept_block_adds_its_length(downloaded: u64, total: u64, len: usize)
    requires
        downloaded + len <= u64::MAX,
    ensures
        download_reaction(downloaded, total, DownloadEvent::Chunk { len, cancelled: false })
            == (DownloadAction::Write { downloaded: (downloaded + len) as u64, total }),
        download_reaction(downloaded, total, DownloadEvent::DestExists(false)) is Fetch,
{
}

/// The two labels name two different files: `Accurate` the small English
/// model, every other label the base English model.
pub proof fn lemma_labels_name_their_files(label: Seq<char>)
    ensures
        (filename_for(label) == MODEL_ACCURATE@) == (label == LABEL_ACCURATE@),
        (filename_for(label) == MODEL_FAST@) == (label != LABEL_ACCURATE@),
        MODEL_ACCURATE@ != MODEL_FAST@,
{
    reveal_strlit("ggml-small.en.bin");
    reveal_strlit("ggml-base.en.bin");
    assert(MODEL_ACCURATE@.len() != MODEL_FAST@.len());
}

} // verus!
