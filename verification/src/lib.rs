//! Core logic for transcribing arbitrarily large audio recordings through a
//! size-constrained remote transcription endpoint.
//!
//! A payload at or below the endpoint's 25 MB ceiling is sent directly; a
//! larger payload is written to a working file, its duration is probed from
//! the media tool's diagnostic output, a chunking plan is computed, each
//! time-bounded chunk is extracted and transcribed in index order, and the
//! per-chunk transcripts are joined with single spaces.
//!
//! All quantities are modelled exactly: byte counts as `usize` and durations
//! as whole milliseconds, so every property of the plan (chunk count, clamped
//! durations, skipped tail chunks) is proved rather than approximated.

pub mod client;
pub mod duration;
pub mod errors;
pub mod fmt;
pub mod join;
pub mod machine;
pub mod planner;
pub mod prep;
pub mod router;

pub use client::{TranscriptionRequest, TranscriptionResponse};
pub use errors::{TranscribeFailure, TranscriptionError};
pub use planner::{plan, chunk_specs, ChunkPlan, ChunkSpec};
pub use router::MAX_FILE_SIZE;
