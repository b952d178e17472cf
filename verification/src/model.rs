//! Core data model: file metadata, per-file scan outcomes, and the session
//! aggregate, together with their mathematical views and well-formedness.

use vstd::prelude::*;

verus! {

/// Classification outcome for one file.
#[derive(Clone, Copy, Debug, PartialEq, Eq, Structural)]
pub enum Verdict {
    Clean,
    Suspicious,
    Threat,
}

/// Attributes of one file, read from the filesystem at scan time.
#[derive(Debug)]
pub struct FileInfo {
    pub name: String,
    pub path: String,
    pub size: u64,
    pub extension: String,
}

/// Mathematical view of a `FileInfo`.
pub struct FileInfoView {
    pub name: Seq<char>,
    pub path: Seq<char>,
    pub size: u64,
    pub extension: Seq<char>,
}

impl View for FileInfo {
    type V = FileInfoView;

    open spec fn view(&self) -> FileInfoView {
        FileInfoView {
            name: self.name@,
            path: self.path@,
            size: self.size,
            extension: self.extension@,
        }
    }
}

impl DeepView for FileInfo {
    type V = FileInfoView;

    open spec fn deep_view(&self) -> FileInfoView {
        self.view()
    }
}

/// Scan outcome for one file. Created once by a worker, immutable after.
#[derive(Debug)]
pub struct ScanResult {
    pub id: String,
    pub file_info: FileInfo,
    pub status: Verdict,
    pub threats: Vec<String>,
    pub scan_time: String,
    pub hash: String,
}

/// Mathematical view of a `ScanResult`.
pub struct ScanResultView {
    pub id: Seq<char>,
    pub file_info: FileInfoView,
    pub status: Verdict,
    pub threats: Seq<Seq<char>>,
    pub scan_time: Seq<char>,
    pub hash: Seq<char>,
}

impl View for ScanResult {
    type V = ScanResultView;

    open spec fn view(&self) -> ScanResultView {
        ScanResultView {
            id: self.id@,
            file_info: self.file_info@,
            status: self.status,
            threats: self.threats.deep_view(),
            scan_time: self.scan_time@,
            hash: self.hash@,
        }
    }
}

impl DeepView for ScanResult {
    type V = ScanResultView;

    open spec fn deep_view(&self) -> ScanResultView {
        self.view()
    }
}

impl ScanResultView {
    /// A result is well formed when its verdict and its threat list agree:
    /// a clean file carries no threat labels, a flagged file carries some.
    pub open spec fn wf(self) -> bool {
        self.status == Verdict::Clean <==> self.threats.len() == 0
    }
}

impl ScanResult {
    /// Builds the one scan outcome for a file from the already-computed
    /// pieces. The verdict and threat list must agree (`wf`), which the
    /// classifier contract guarantees for every classification it returns.
    pub fn assemble(
        id: String,
        file_info: FileInfo,
        status: Verdict,
        threats: Vec<String>,
        scan_time: String,
        hash: String,
    ) -> (r: ScanResult)
        requires
            status == Verdict::Clean <==> threats.deep_view().len() == 0,
        ensures
            r@.wf(),
            r@.id == id@,
            r@.file_info == file_info@,
            r@.status == status,
            r@.threats == threats.deep_view(),
            r@.scan_time == scan_time@,
            r@.hash == hash@,
    {
        ScanResult { id, file_info, status, threats, scan_time, hash }
    }
}

/// Every well-formed `ScanResult` reports `Clean` exactly when its threat
/// list is empty: a clean verdict never carries threat labels, and a
/// `Suspicious` or `Threat` verdict always names at least one.
pub proof fn lemma_clean_iff_no_threats(r: ScanResultView)
    requires
        r.wf(),
    ensures
        r.status == Verdict::Clean <==> r.threats.len() == 0,
{
}

} // verus!
