//! What the application's commands compute: which models are present, and
//! the plan and progress reports of downloading the missing ones.

use vstd::prelude::*;
use crate::download_models::{filename_for, model_presence, LABEL_ACCURATE, LABEL_FAST};
use crate::platform::Presence;
use crate::text::joined_path;

verus! {

/// Which models are present, by label (`true`: the model's file exists),
/// with the presence check that each answer comes from.
pub struct MissingModels {
    pub accurate: bool,
    pub fast: bool,
    pub accurate_check: Presence,
    pub fast_check: Presence,
}

/// Looks up which models have been downloaded into the models directory:
/// `accurate` answers for the accurate model's file and `fast` for the fast
/// model's.
pub fn check_models(models_dir: &str) -> (r: MissingModels)
    ensures
        r.accurate == r.accurate_check.present(),
        r.accurate_check.asked() == joined_path(models_dir@, filename_for(LABEL_ACCURATE@)),
        r.fast == r.fast_check.present(),
        r.fast_check.asked() == joined_path(models_dir@, filename_for(LABEL_FAST@)),
{
    let accurate_check = model_presence(models_dir, LABEL_ACCURATE);
    let fast_check = model_presence(models_dir, LABEL_FAST);
    MissingModels {
        accurate: accurate_check.is_present(),
        fast: fast_check.is_present(),
        accurate_check,
        fast_check,
    }
}

/// Progress of downloading the models, in megabytes of both together.
pub struct DownloadProgress {
    pub label: String,
    pub downloaded: u64,
    pub total: u64,
}

/// Nominal size of the fast model, in megabytes.
pub const FAST_SIZE_MB: u64 = 141;

/// Nominal size of the accurate model, in megabytes.
pub const ACCURATE_SIZE_MB: u64 = 465;

/// Nominal size of both models together, in megabytes.
pub const TOTAL_SIZE_MB: u64 = 606;

/// One model to download, with the megabytes of the models that come before
/// it in the download order (fast, then accurate), present or not.
pub struct DownloadJob {
    pub label: &'static str,
    pub size_mb: u64,
    pub offset_mb: u64,
}

/// The downloads to make: the fast model first, then the accurate one, each
/// only when it is not present yet.
pub open spec fn planned_jobs(fast_present: bool, accurate_present: bool) -> Seq<DownloadJob> {
    (if fast_present {
        Seq::<DownloadJob>::empty()
    } else {
        seq![DownloadJob { label: LABEL_FAST, size_mb: 141, offset_mb: 0 }]
    }) + (if accurate_present {
        Seq::<DownloadJob>::empty()
    } else {
        seq![DownloadJob { label: LABEL_ACCURATE, size_mb: 465, offset_mb: 141 }]
    })
}

/// The downloads to make for the models that are not present, fast first.
pub fn download_jobs(fast_present: bool, accurate_present: bool) -> (r: Vec<DownloadJob>)
    ensures
        r@ == planned_jobs(fast_present, accurate_present),
{
    let mut jobs: Vec<DownloadJob> = Vec::new();
    let mut offset: u64 = 0;
    if !fast_present {
        jobs.push(DownloadJob { label: LABEL_FAST, size_mb: FAST_SIZE_MB, offset_mb: offset });
    }
    offset = offset + FAST_SIZE_MB;
    if !accurate_present {
        jobs.push(DownloadJob { label: LABEL_ACCURATE, size_mb: ACCURATE_SIZE_MB, offset_mb: offset });
    }
    proof {
        assert(jobs@ =~= planned_jobs(fast_present, accurate_present));
    }
    jobs
}

/// The progress report of a download: `combined_mb` megabytes of both models
/// are done, out of their total.
pub fn job_progress(job: &DownloadJob, combined_mb: u64) -> (r: DownloadProgress)
    ensures
        r.label@ == job.label@,
        r.downloaded == combined_mb,
        r.total == TOTAL_SIZE_MB,
{
    DownloadProgress { label: String::from_str(job.label), downloaded: combined_mb, total: TOTAL_SIZE_MB }
}

/// Each planned download starts where the ones before it in the fixed order
/// end, and all of them fit within the total: a job's offset plus its size
/// never exceeds [`TOTAL_SIZE_MB`], and a later job starts at or after the end
/// of an earlier one.
pub proof fn lemma_jobs_within_total(fast_present: bool, accurate_present: bool)
    ensures
        forall|i: int|
            0 <= i < planned_jobs(fast_present, accurate_present).len() ==> {
                let j = #[trigger] planned_jobs(fast_present, accurate_present)[i];
                j.offset_mb + j.size_mb <= TOTAL_SIZE_MB
            },
        forall|i: int, k: int|
            0 <= i < k < planned_jobs(fast_present, accurate_present).len() ==> planned_jobs(
                fast_present,
                accurate_present,
            )[i].offset_mb + planned_jobs(fast_present, accurate_present)[i].size_mb
                <= planned_jobs(fast_present, accurate_present)[k].offset_mb,
{
}

/// Exactly the models that are not present are downloaded, each once: the
/// fast model (141 MB, counted from 0) when it is missing, then the accurate
/// one (465 MB, counted from 141 MB, after the fast model whether or not that
/// was fetched) when it is missing.
pub proof fn lemma_jobs_are_the_missing_models(fast_present: bool, accurate_present: bool)
    ensures
        planned_jobs(fast_present, accurate_present).len() == (if fast_present {
            0int
        } else {
            1int
        }) + (if accurate_present {
            0int
        } else {
            1int
        }),
        !fast_present ==> planned_jobs(fast_present, accurate_present)[0] == (DownloadJob {
            label: LABEL_FAST,
            size_mb: FAST_SIZE_MB,
            offset_mb: 0,
        }),
        !accurate_present ==> planned_jobs(fast_present, accurate_present).last() == (DownloadJob {
            label: LABEL_ACCURATE,
            size_mb: ACCURATE_SIZE_MB,
            offset_mb: FAST_SIZE_MB,
        }),
        FAST_SIZE_MB + ACCURATE_SIZE_MB == TOTAL_SIZE_MB,
{
}

} // verus!
