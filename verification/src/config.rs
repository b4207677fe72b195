//! Application constants and the configured location of the model files.

use vstd::prelude::*;

verus! {

/// Name of the application, used for its per-user data directory.
pub const APP_NAME: &'static str = "RachaelsTranscriber";

/// File name of the accurate (small.en) model.
pub const MODEL_ACCURATE: &'static str = "ggml-small.en.bin";

/// File name of the fast (base.en) model.
pub const MODEL_FAST: &'static str = "ggml-base.en.bin";

/// Sample rate that the recognizer expects, in Hz.
pub const SAMPLE_RATE: u32 = 16000;

/// Audio samples per hundredth of a second at [`SAMPLE_RATE`].
pub const SAMPLES_PER_CENTI: usize = 160;

/// Length of one chunk of file transcription, in hundredths of a second (30 s).
pub const CHUNK_CENTIS: usize = 3000;

/// Overlap between neighbouring chunks, in hundredths of a second (2 s).
pub const CHUNK_OVERLAP_CENTIS: usize = 200;

/// Capacity of the recorder's ring buffer in samples (30 s at [`SAMPLE_RATE`]).
pub const MAX_BUFFER_SAMPLES: usize = 480000;

/// Directory used for the models when none has been configured.
pub open spec fn default_models_dir() -> Seq<char> {
    seq!['m', 'o', 'd', 'e', 'l', 's']
}

/// The value of a models-directory setting after an attempt to set it to
/// `path`: the first value set stays, later attempts change nothing.
pub open spec fn after_set(setting: Option<Seq<char>>, path: Seq<char>) -> Option<Seq<char>> {
    match setting {
        Some(dir) => Some(dir),
        None => Some(path),
    }
}

/// The models directory that a setting resolves to.
pub open spec fn resolved_models_dir(setting: Option<Seq<char>>) -> Seq<char> {
    match setting {
        Some(dir) => dir,
        None => default_models_dir(),
    }
}

/// A write-once setting for the directory that holds the model files.
pub struct ModelsDirCell {
    dir: Option<String>,
}

impl View for ModelsDirCell {
    type V = Option<Seq<char>>;

    closed spec fn view(&self) -> Option<Seq<char>> {
        match self.dir {
            Some(s) => Some(s@),
            None => None,
        }
    }
}

impl ModelsDirCell {
    /// A setting that has not been given a value yet.
    pub fn new() -> (r: Self)
        ensures
            r@ is None,
    {
        ModelsDirCell { dir: None }
    }
}

/// Sets the models directory, unless it was set before (the first value wins).
pub fn set_models_dir(cell: &mut ModelsDirCell, path: String)
    ensures
        final(cell)@ == after_set(old(cell)@, path@),
{
    if cell.dir.is_none() {
        cell.dir = Some(path);
    }
}

/// The configured models directory, or `models` when none was set.
pub fn models_dir(cell: &ModelsDirCell) -> (r: String)
    ensures
        r@ == resolved_models_dir(cell@),
{
    match &cell.dir {
        Some(dir) => dir.clone(),
        None => {
            let r = String::from_str("models");
            proof {
                reveal_strlit("models");
            }
            r
        },
    }
}

/// The file extensions of the audio formats that can be transcribed.
pub open spec fn supported_extension_names() -> Seq<Seq<char>> {
    seq![
        seq!['m', 'p', '3'],
        seq!['w', 'a', 'v'],
        seq!['m', '4', 'a'],
        seq!['f', 'l', 'a', 'c'],
        seq!['o', 'g', 'g'],
        seq!['a', 'a', 'c'],
        seq!['w', 'm', 'a'],
    ]
}

/// The file extensions of the audio formats that can be transcribed.
pub fn supported_extensions() -> (r: Vec<&'static str>)
    ensures
        r@.len() == supported_extension_names().len(),
        forall|i: int| 0 <= i < r@.len() ==> #[trigger] r@[i]@ == supported_extension_names()[i],
{
    let r = vec!["mp3", "wav", "m4a", "flac", "ogg", "aac", "wma"];
    proof {
        reveal_strlit("mp3");
        reveal_strlit("wav");
        reveal_strlit("m4a");
        reveal_strlit("flac");
        reveal_strlit("ogg");
        reveal_strlit("aac");
        reveal_strlit("wma");
        assert(r@[0]@ =~= supported_extension_names()[0]);
        assert(r@[1]@ =~= supported_extension_names()[1]);
        assert(r@[2]@ =~= supported_extension_names()[2]);
        assert(r@[3]@ =~= supported_extension_names()[3]);
        assert(r@[4]@ =~= supported_extension_names()[4]);
        assert(r@[5]@ =~= supported_extension_names()[5]);
        assert(r@[6]@ =~= supported_extension_names()[6]);
    }
    r
}

/// Once set, the models directory keeps its first value: a later
/// `set_models_dir` does not change what `models_dir` returns.
pub proof fn lemma_first_models_dir_wins(setting: Option<Seq<char>>, first: Seq<char>, later: Seq<char>)
    requires
        setting is None,
    ensures
        resolved_models_dir(setting) == "models"@,
        resolved_models_dir(after_set(setting, first)) == first,
        resolved_models_dir(after_set(after_set(setting, first), later)) == first,
{
    reveal_strlit("models");
    assert(default_models_dir() =~= "models"@);
}

} // verus!
