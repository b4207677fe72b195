//! Core logic of an offline audio transcriber: model registry and paths,
//! chunk planning and segment merging for long recordings, the capture
//! ring buffer of the recorder, voice-activity frame counting, and the
//! decisions of the download, decoding and live-recording loops.

pub mod text;
pub mod config;
pub mod transcript;
pub mod audio;
pub mod download_models;
pub mod detector;
pub mod vad;
pub mod platform;
pub mod desktop_config;
pub mod commands;
pub mod status;
pub mod recording;
pub mod decoding;
pub mod setup;
