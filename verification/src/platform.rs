//! Answers from the platform: whether a file exists and where the per-user
//! data directory lies. Each answer carries what it was asked about, and
//! only the calls in this file can make one.

use vstd::prelude::*;
use directories::ProjectDirs;

verus! {

#[verifier::external_type_specification]
#[verifier::external_body]
pub struct ExProjectDirs(ProjectDirs);

/// Whether something exists at a path, together with that path.
pub struct Presence {
    found: bool,
    asked: Ghost<Seq<char>>,
}

impl Presence {
    /// The path that was looked up.
    pub closed spec fn asked(&self) -> Seq<char> {
        self.asked@
    }

    /// Whether something existed there.
    pub closed spec fn present(&self) -> bool {
        self.found
    }

    /// Whether something existed at the path.
    pub fn is_present(&self) -> (r: bool)
        ensures
            r == self.present(),
    {
        self.found
    }
}

/// `std::path::Path::exists` on `path` (false also when the file system
/// cannot be queried), with the path it was asked about. Whether the path
/// exists depends on the file system at the time, so nothing is stated of it.
#[verifier::external_body]
pub(crate) fn path_exists(path: &str) -> (r: Presence)
    ensures
        r.asked() == path@,
{
    Presence { found: std::path::Path::new(path).exists(), asked: Ghost(path@) }
}

/// The platform's project directories for an application identity, with
/// that identity.
pub struct DirsLookup {
    dirs: Option<ProjectDirs>,
    asked: Ghost<(Seq<char>, Seq<char>, Seq<char>)>,
}

impl DirsLookup {
    /// The (qualifier, organization, application) that was looked up.
    pub closed spec fn asked(&self) -> (Seq<char>, Seq<char>, Seq<char>) {
        self.asked@
    }
}

/// The per-user data directory of an application identity, as text, with
/// that identity.
pub struct DataDirAnswer {
    dir: Option<String>,
    asked: Ghost<(Seq<char>, Seq<char>, Seq<char>)>,
}

impl DataDirAnswer {
    /// The (qualifier, organization, application) that was looked up.
    pub closed spec fn asked(&self) -> (Seq<char>, Seq<char>, Seq<char>) {
        self.asked@
    }

    /// The directory found, if the platform offers one.
    pub closed spec fn found(&self) -> Option<Seq<char>> {
        match self.dir {
            Some(d) => Some(d@),
            None => None,
        }
    }

    /// The directory found, if the platform offers one.
    pub fn dir(&self) -> (r: Option<String>)
        ensures
            r matches Some(d) ==> self.found() == Some(d@),
            r is None ==> self.found() is None,
    {
        match &self.dir {
            Some(d) => Some(d.clone()),
            None => None,
        }
    }
}

/// `ProjectDirs::from`: the project directories of an application, `None`
/// when no home directory can be found, with the identity asked about. The
/// directories depend on the environment, so nothing is stated of them.
#[verifier::external_body]
pub(crate) fn project_dirs_from(qualifier: &str, organization: &str, application: &str) -> (r: DirsLookup)
    ensures
        r.asked() == (qualifier@, organization@, application@),
{
    DirsLookup {
        dirs: ProjectDirs::from(qualifier, organization, application),
        asked: Ghost((qualifier@, organization@, application@)),
    }
}

/// `ProjectDirs::data_local_dir` of a lookup, as text (characters that are
/// not valid Unicode are replaced), or `None` when the lookup found no
/// directories; with the identity asked about. The directory comes from the
/// environment, so nothing is stated of it.
#[verifier::external_body]
pub(crate) fn project_data_local_dir(lookup: DirsLookup) -> (r: DataDirAnswer)
    ensures
        r.asked() == lookup.asked(),
{
    let dir = match lookup.dirs {
        Some(dirs) => Some(dirs.data_local_dir().to_string_lossy().into_owned()),
        None => None,
    };
    DataDirAnswer { dir, asked: lookup.asked }
}

} // verus!
