//! Batch file-scanning engine: per-file security verdicts with supporting
//! metadata, aggregated into a scan session summary.
//!
//! The pipeline turns a list of filesystem paths into one `ScanResult` per
//! readable file plus one `FileScanError` per failed file, and folds the
//! results into a `ScanSession` whose counts are proved consistent. File
//! I/O and task scheduling live outside the library; the decisions they
//! follow (dispatch under a concurrency bound, per-file failure isolation,
//! aggregation) are verified here.

pub mod aggregate;
pub mod classifier;
pub mod clock;
pub mod errors;
pub mod hasher;
pub mod ids;
pub mod metadata;
pub mod model;
pub mod orchestrator;
pub mod pipeline;
pub mod session;
pub mod worker;
