use rachaels_transcriber::commands::{check_models, download_jobs, job_progress, TOTAL_SIZE_MB};
use rachaels_transcriber::config::{models_dir, set_models_dir, supported_extensions, ModelsDirCell};
use rachaels_transcriber::desktop_config;
use rachaels_transcriber::download_models::{
    check_missing_models, download_total_size, is_model_downloaded, model_filename, model_info,
    model_path, missing_models, temp_path, DownloadTracker,
};
use rachaels_transcriber::text::{join_path, str_eq};

const NOWHERE: &str = "/nonexistent-dir-for-model-tests/models";

#[test]
fn str_eq_compares_characters() {
    assert!(str_eq("Accurate", "Accurate"));
    assert!(!str_eq("Accurate", "Accurat"));
    assert!(!str_eq("Fast", "fast"));
    assert!(str_eq("", ""));
}

#[test]
fn join_path_inserts_one_separator() {
    assert_eq!(join_path("models", "ggml-base.en.bin"), "models/ggml-base.en.bin");
    assert_eq!(join_path("data/", "models"), "data/models");
    assert_eq!(join_path("", "models"), "models");
    assert_eq!(join_path("data", "/abs/models"), "/abs/models");
}

#[test]
fn models_dir_defaults_to_models() {
    let cell = ModelsDirCell::new();
    assert_eq!(models_dir(&cell), "models");
}

#[test]
fn first_models_dir_setting_wins() {
    let mut cell = ModelsDirCell::new();
    set_models_dir(&mut cell, "/app/data/models".to_string());
    assert_eq!(models_dir(&cell), "/app/data/models");
    set_models_dir(&mut cell, "/elsewhere".to_string());
    assert_eq!(models_dir(&cell), "/app/data/models");
}

#[test]
fn supported_extensions_in_order() {
    assert_eq!(supported_extensions(), vec!["mp3", "wav", "m4a", "flac", "ogg", "aac", "wma"]);
    assert_eq!(desktop_config::supported_extensions(), supported_extensions());
}

#[test]
fn desktop_models_dir_ends_in_models() {
    let (dir, answer) = desktop_config::models_dir();
    assert!(dir.ends_with("models"));
    let (base, base_answer) = desktop_config::get_persistent_base();
    assert_eq!(dir, join_path(&base, "models"));
    assert_eq!(answer.dir(), base_answer.dir());
    match answer.dir() {
        Some(found) => assert_eq!(base, found),
        None => assert_eq!(base, "."),
    }
}

#[test]
fn model_filename_by_label() {
    assert_eq!(model_filename("Accurate"), "ggml-small.en.bin");
    assert_eq!(model_filename("Fast"), "ggml-base.en.bin");
    assert_eq!(model_filename("Medium"), "ggml-base.en.bin");
}

#[test]
fn model_path_joins_dir_and_file() {
    assert_eq!(model_path("/data/models", "Accurate"), "/data/models/ggml-small.en.bin");
    assert_eq!(model_path("models", "Fast"), "models/ggml-base.en.bin");
}

#[test]
fn temp_path_uses_tmp_extension() {
    assert_eq!(temp_path("/data/models", "Accurate"), "/data/models/ggml-small.en.tmp");
    assert_eq!(temp_path("models", "Fast"), "models/ggml-base.en.tmp");
}

#[test]
fn missing_models_lists_accurate_first() {
    assert_eq!(missing_models(false, false), vec!["Accurate", "Fast"]);
    assert_eq!(missing_models(true, false), vec!["Fast"]);
    assert_eq!(missing_models(false, true), vec!["Accurate"]);
    assert!(missing_models(true, true).is_empty());
}

#[test]
fn nothing_downloaded_in_missing_dir() {
    let (accurate, check) = is_model_downloaded(NOWHERE, "Accurate");
    assert!(!accurate);
    assert!(!check.is_present());
    assert!(!is_model_downloaded(NOWHERE, "Fast").0);
    let (missing, a, f) = check_missing_models(NOWHERE);
    assert_eq!(missing, vec!["Accurate", "Fast"]);
    assert!(!a.is_present() && !f.is_present());
    let m = check_models(NOWHERE);
    assert!(!m.accurate);
    assert!(!m.fast);
}

#[test]
fn model_info_known_and_unknown() {
    let a = model_info("Accurate").unwrap();
    assert_eq!(a.name, "Accurate");
    assert_eq!(a.size_mb, 465);
    assert!(a.url.ends_with("ggml-small.en.bin"));
    let f = model_info("Fast").unwrap();
    assert_eq!(f.name, "Fast");
    assert_eq!(f.size_mb, 141);
    assert!(f.url.ends_with("ggml-base.en.bin"));
    assert!(model_info("Large").is_none());
}

#[test]
fn download_size_falls_back_to_nominal() {
    assert_eq!(download_total_size(Some(1234), 141), 1234);
    assert_eq!(download_total_size(None, 141), 141 * 1024 * 1024);
}

#[test]
fn tracker_counts_bytes() {
    let mut t = DownloadTracker::new(1000);
    assert_eq!(t.record_chunk(300), 300);
    assert_eq!(t.record_chunk(250), 550);
    assert_eq!(t.downloaded, 550);
    assert_eq!(t.total, 1000);
}

#[test]
fn download_jobs_skip_present_models() {
    let jobs = download_jobs(false, false);
    assert_eq!(jobs.len(), 2);
    assert_eq!((jobs[0].label, jobs[0].size_mb, jobs[0].offset_mb), ("Fast", 141, 0));
    assert_eq!((jobs[1].label, jobs[1].size_mb, jobs[1].offset_mb), ("Accurate", 465, 141));
    let jobs = download_jobs(true, false);
    assert_eq!(jobs.len(), 1);
    assert_eq!((jobs[0].label, jobs[0].offset_mb), ("Accurate", 141));
    let jobs = download_jobs(false, true);
    assert_eq!(jobs.len(), 1);
    assert_eq!((jobs[0].label, jobs[0].offset_mb), ("Fast", 0));
    assert!(download_jobs(true, true).is_empty());
}

#[test]
fn download_jobs_fit_in_total() {
    for (f, a) in [(false, false), (true, false), (false, true)] {
        let jobs = download_jobs(f, a);
        let mut end = 0;
        for j in &jobs {
            assert!(j.offset_mb >= end);
            end = j.offset_mb + j.size_mb;
            assert!(end <= TOTAL_SIZE_MB);
        }
    }
}

#[test]
fn job_progress_reports_combined_total() {
    let jobs = download_jobs(false, false);
    let p = job_progress(&jobs[1], 300);
    assert_eq!(p.label, "Accurate");
    assert_eq!(p.downloaded, 300);
    assert_eq!(p.total, 606);
}
