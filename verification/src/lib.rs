//! Verified core of a speech-to-text desktop helper.
//!
//! Two components: a model-artifact download manager (catalog lookup, path
//! resolution, progress accounting, atomic-commit bookkeeping) and a
//! transcription process event pipeline (argument construction, output
//! accumulation, terminal-outcome classification). All decisions are made by
//! verified functions on plain values; the surrounding I/O shell drives them.

pub mod catalog;
pub mod download;
pub mod errors;
pub mod numfmt;
pub mod paths;
pub mod store;
pub mod transcribe;
