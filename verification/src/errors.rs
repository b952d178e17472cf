//! Error taxonomy of the pipeline. Stage-local failures are caught at the
//! worker boundary and become one `FileScanError` per file; they
//! never abort the batch.

use vstd::prelude::*;

verus! {

/// Why a path could not be resolved to file attributes.
#[derive(Clone, Copy, Debug, PartialEq, Eq, Structural)]
pub enum FileAccessError {
    NotFound,
    PermissionDenied,
    NotARegularFile,
}

impl FileAccessError {
    /// The fixed description of this access failure.
    pub open spec fn spec_describe(self) -> Seq<char> {
        match self {
            FileAccessError::NotFound => "file not found"@,
            FileAccessError::PermissionDenied => "permission denied"@,
            FileAccessError::NotARegularFile => "not a regular file"@,
        }
    }

    /// Renders this access failure for reporting.
    pub fn describe(&self) -> (s: String)
        ensures
            s@ == self.spec_describe(),
    {
        match self {
            FileAccessError::NotFound => String::from_str("file not found"),
            FileAccessError::PermissionDenied => String::from_str("permission denied"),
            FileAccessError::NotARegularFile => String::from_str("not a regular file"),
        }
    }
}

/// A read failure while streaming a file's bytes into the hasher. A
/// partial read never yields a truncated digest: the hash for that file
/// is abandoned and this error surfaces instead.
#[derive(Debug)]
pub struct IoError {
    pub cause: String,
}

/// A classifier failure (detector unavailable, timeout), reported
/// apart from every verdict.
#[derive(Debug)]
pub struct ClassificationError {
    pub cause: String,
}

/// The pipeline stage at which a file's scan failed.
#[derive(Clone, Copy, Debug, PartialEq, Eq, Structural)]
pub enum ScanStage {
    MetadataRead,
    Hashing,
    Classification,
}

/// The one failure record for a file that did not make it through the
/// pipeline: which path, at which stage, and why.
#[derive(Debug)]
pub struct FileScanError {
    pub path: String,
    pub stage: ScanStage,
    pub cause: String,
}

/// Mathematical view of a `FileScanError`.
pub struct FileScanErrorView {
    pub path: Seq<char>,
    pub stage: ScanStage,
    pub cause: Seq<char>,
}

impl View for FileScanError {
    type V = FileScanErrorView;

    open spec fn view(&self) -> FileScanErrorView {
        FileScanErrorView { path: self.path@, stage: self.stage, cause: self.cause@ }
    }
}

impl DeepView for FileScanError {
    type V = FileScanErrorView;

    open spec fn deep_view(&self) -> FileScanErrorView {
        self.view()
    }
}

impl FileScanError {
    /// Wraps a metadata-stage failure for one path.
    pub fn from_access(path: String, e: &FileAccessError) -> (r: FileScanError)
        ensures
            r@.path == path@,
            r@.stage == ScanStage::MetadataRead,
            r@.cause == e.spec_describe(),
    {
        FileScanError { path, stage: ScanStage::MetadataRead, cause: e.describe() }
    }

    /// Wraps a hashing-stage failure for one path.
    pub fn from_io(path: String, e: IoError) -> (r: FileScanError)
        ensures
            r@.path == path@,
            r@.stage == ScanStage::Hashing,
            r@.cause == e.cause@,
    {
        FileScanError { path, stage: ScanStage::Hashing, cause: e.cause }
    }

    /// Wraps a classification-stage failure for one path.
    pub fn from_classification(path: String, e: ClassificationError) -> (r: FileScanError)
        ensures
            r@.path == path@,
            r@.stage == ScanStage::Classification,
            r@.cause == e.cause@,
    {
        FileScanError { path, stage: ScanStage::Classification, cause: e.cause }
    }
}

/// A batch-level failure: these occur only at setup time or on explicit
/// cancellation, never because one file failed.
#[derive(Clone, Copy, Debug, PartialEq, Eq, Structural)]
pub enum BatchError {
    InvalidConcurrencyBound,
    Cancelled,
}

} // verus!
