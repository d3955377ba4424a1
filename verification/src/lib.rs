//! A safety-checked binding layer around the `anomaly_grid` sequence
//! anomaly-detection engine.
//!
//! The engine itself is consumed as an opaque capability; what this crate
//! verifies is the boundary around it: validation of the incoming sequence
//! collections, the strict unfitted-to-fitted lifecycle, deterministic
//! aggregation of per-sequence anomaly evidence into scalar scores,
//! thresholding of those scores into boolean predictions, and the
//! translation of every internal failure into a small, fixed error taxonomy.

pub mod detector;
pub mod errors;
pub mod grid;
pub mod ingest;
pub mod scoring;
