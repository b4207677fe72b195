//! Locations of the desktop build: a per-user data directory found through
//! the platform's conventions.

use vstd::prelude::*;
use crate::platform::{project_data_local_dir, project_dirs_from, DataDirAnswer};
use crate::config::APP_NAME;
use crate::text::{join_path, joined_path};

verus! {

/// The application's data directory given what the platform offers: the
/// directory found, or the current directory `.` when there is none.
pub fn persistent_base_from(found: Option<String>) -> (r: String)
    ensures
        r@ == (match found {
            Some(dir) => dir@,
            None => "."@,
        }),
{
    match found {
        Some(dir) => dir,
        None => String::from_str("."),
    }
}

/// The identity under which the platform keeps the application's
/// directories: qualifier, organization, application.
pub open spec fn identity() -> (Seq<char>, Seq<char>, Seq<char>) {
    ("com"@, "rachaels"@, APP_NAME@)
}

/// The identity under which the platform keeps the application's
/// directories: qualifier, organization, application.
pub fn project_identity() -> (r: (&'static str, &'static str, &'static str))
    ensures
        (r.0@, r.1@, r.2@) == identity(),
{
    ("com", "rachaels", APP_NAME)
}

/// The data directory given what the platform offers, or `.`.
pub open spec fn base_of(found: Option<Seq<char>>) -> Seq<char> {
    match found {
        Some(dir) => dir,
        None => "."@,
    }
}

/// The per-user data directory of the application, as the platform answers
/// for [`identity`].
fn data_dir_answer() -> (r: DataDirAnswer)
    ensures
        r.asked() == identity(),
{
    let (qualifier, organization, application) = project_identity();
    project_data_local_dir(project_dirs_from(qualifier, organization, application))
}

/// The per-user directory for the application's data, or `.` when the
/// platform offers none, with the platform's answer for [`identity`] that it
/// comes from.
pub fn get_persistent_base() -> (r: (String, DataDirAnswer))
    ensures
        r.1.asked() == identity(),
        r.0@ == base_of(r.1.found()),
{
    let answer = data_dir_answer();
    let base = persistent_base_from(answer.dir());
    (base, answer)
}

/// The models directory given what the platform offers: `models` inside the
/// data directory found, or inside `.`.
pub fn models_dir_from(found: Option<String>) -> (r: String)
    ensures
        r@ == joined_path(
            match found {
                Some(d) => d@,
                None => "."@,
            },
            "models"@,
        ),
{
    let base = persistent_base_from(found);
    join_path(base.as_str(), "models")
}

/// The directory `models` inside the per-user data directory (or inside `.`
/// when the platform offers none), with the platform's answer for
/// [`identity`] that it comes from.
pub fn models_dir() -> (r: (String, DataDirAnswer))
    ensures
        r.1.asked() == identity(),
        r.0@ == joined_path(base_of(r.1.found()), "models"@),
{
    let answer = data_dir_answer();
    let dir = models_dir_from(answer.dir());
    (dir, answer)
}

/// The file extensions of the audio formats that can be transcribed.
pub fn supported_extensions() -> (r: Vec<&'static str>)
    ensures
        r@.len() == crate::config::supported_extension_names().len(),
        forall|i: int|
            0 <= i < r@.len() ==> #[trigger] r@[i]@ == crate::config::supported_extension_names()[i],
{
    crate::config::supported_extensions()
}

/// The data directory is the one the platform found, whatever it is, and
/// `.` only when it found none; the models directory is `models` inside it.
pub proof fn lemma_base_is_found_or_current(found: Option<Seq<char>>)
    ensures
        found matches Some(d) ==> base_of(found) == d,
        found is None ==> base_of(found) == "."@,
        joined_path(base_of(found), "models"@).subrange(
            joined_path(base_of(found), "models"@).len() - 6,
            joined_path(base_of(found), "models"@).len() as int,
        ) == "models"@,
{
    reveal_strlit("models");
    crate::text::lemma_joined_path_shape(base_of(found), "models"@);
}

} // verus!
