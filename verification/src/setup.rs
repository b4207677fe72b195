//! The first-run setup dialog that downloads the missing models: what it
//! shows as the downloads proceed, and what its buttons do.

use vstd::prelude::*;

verus! {

/// Shown before the error of a failed download.
pub const DOWNLOAD_FAILED_PREFIX: &'static str = "Download failed: ";

/// Shown when every missing model has been downloaded.
pub const MODELS_DOWNLOADED: &'static str = "Models downloaded";

/// What the setup dialog shows.
pub enum SetupStatus {
    /// Nothing under way: the downloads start when models are missing.
    Idle,
    /// The model `label` is downloading; `downloaded` of `total` bytes are in.
    Downloading { label: String, downloaded: u64, total: u64 },
    /// Everything is downloaded.
    Done(String),
    /// A download failed; the rest were not tried.
    Error(String),
}

/// What happened in the setup dialog.
pub enum SetupEvent {
    /// The download of a model has started.
    LabelStarted(String),
    /// A download reported its progress.
    Progress { label: String, downloaded: u64, total: u64 },
    /// A download failed with this error.
    LabelFailed(String),
    /// Every download has finished.
    AllFinished,
    /// The user pressed "Continue".
    Continue,
    /// The user pressed "Retry"; `missing` are the models still missing now.
    Retry { missing: Vec<&'static str> },
}

/// The setup dialog: what it shows, and the models it still has to fetch
/// (the dialog is open while there are any).
pub struct SetupDialog {
    pub status: SetupStatus,
    pub pending: Vec<&'static str>,
}

impl SetupDialog {
    /// A dialog for the models `missing`, with nothing under way yet.
    pub fn new(missing: Vec<&'static str>) -> (r: Self)
        ensures
            r.status is Idle,
            r.pending@ == missing@,
    {
        SetupDialog { status: SetupStatus::Idle, pending: missing }
    }

    /// Whether the dialog is shown: some model is still to be fetched.
    pub fn is_open(&self) -> (r: bool)
        ensures
            r == (self.pending@.len() > 0),
    {
        self.pending.len() > 0
    }

    /// Whether the downloads should start now: the dialog is open and
    /// nothing is under way.
    pub fn should_start(&self) -> (r: bool)
        ensures
            r == (self.status is Idle && self.pending@.len() > 0),
    {
        match self.status {
            SetupStatus::Idle => self.pending.len() > 0,
            _ => false,
        }
    }
}

/// The dialog's answer to an event. Starting, progress, failure and the end
/// of the downloads set what is shown; "Continue" closes a finished dialog;
/// "Retry" after a failure starts over with the models still missing. A
/// button pressed where the dialog does not offer it changes nothing.
pub fn setup_step(dialog: &mut SetupDialog, event: SetupEvent)
    ensures
        match event {
            SetupEvent::LabelStarted(label) => {
                &&& final(dialog).status matches SetupStatus::Downloading { label: l, downloaded, total }
                    && l@ == label@ && downloaded == 0 && total == 0
                &&& final(dialog).pending@ == old(dialog).pending@
            },
            SetupEvent::Progress { label, downloaded, total } => {
                &&& final(dialog).status matches SetupStatus::Downloading { label: l, downloaded: d, total: t }
                    && l@ == label@ && d == downloaded && t == total
                &&& final(dialog).pending@ == old(dialog).pending@
            },
            SetupEvent::LabelFailed(error) => {
                &&& final(dialog).status matches SetupStatus::Error(m) && m@ == DOWNLOAD_FAILED_PREFIX@
                    + error@
                &&& final(dialog).pending@ == old(dialog).pending@
            },
            SetupEvent::AllFinished => {
                &&& final(dialog).status matches SetupStatus::Done(m) && m@ == MODELS_DOWNLOADED@
                &&& final(dialog).pending@ == old(dialog).pending@
            },
            SetupEvent::Continue => {
                &&& final(dialog).status == old(dialog).status
                &&& final(dialog).pending@ == (if old(dialog).status is Done {
                    Seq::<&'static str>::empty()
                } else {
                    old(dialog).pending@
                })
            },
            SetupEvent::Retry { missing } => if old(dialog).status is Error {
                &&& final(dialog).status is Idle
                &&& final(dialog).pending@ == missing@
            } else {
                &&& final(dialog).status == old(dialog).status
                &&& final(dialog).pending@ == old(dialog).pending@
            },
        },
{
    match event {
        SetupEvent::LabelStarted(label) => {
            dialog.status = SetupStatus::Downloading { label, downloaded: 0, total: 0 };
        },
        SetupEvent::Progress { label, downloaded, total } => {
            dialog.status = SetupStatus::Downloading { label, downloaded, total };
        },
        SetupEvent::LabelFailed(error) => {
            let mut m = String::from_str(DOWNLOAD_FAILED_PREFIX);
            m.append(error.as_str());
            dialog.status = SetupStatus::Error(m);
        },
        SetupEvent::AllFinished => {
            dialog.status = SetupStatus::Done(String::from_str(MODELS_DOWNLOADED));
        },
        SetupEvent::Continue => {
            if let SetupStatus::Done(_) = dialog.status {
                dialog.pending = Vec::new();
            }
        },
        SetupEvent::Retry { missing } => {
            if let SetupStatus::Error(_) = dialog.status {
                dialog.status = SetupStatus::Idle;
                dialog.pending = missing;
            }
        },
    }
}

} // verus!
