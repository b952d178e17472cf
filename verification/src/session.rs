//! The scan session: one batch-scan invocation and its aggregated
//! outcome. A finalized session's counters always agree with the results
//! it holds.

use vstd::prelude::*;
use crate::aggregate::{count_verdict, verdicts_of};
use crate::model::{ScanResult, ScanResultView, Verdict};

verus! {

/// The aggregate handed back for one batch scan. Files that errored out
/// of the pipeline are not in `files` and not counted; they are reported
/// in the error list alongside the session.
#[derive(Debug)]
pub struct ScanSession {
    pub id: String,
    pub files: Vec<ScanResult>,
    pub scan_type: String,
    pub start_time: String,
    pub end_time: Option<String>,
    pub total_files: usize,
    pub threats_found: usize,
    pub suspicious_files: usize,
    pub clean_files: usize,
}

/// Mathematical view of a `ScanSession`.
pub struct ScanSessionView {
    pub id: Seq<char>,
    pub files: Seq<ScanResultView>,
    pub scan_type: Seq<char>,
    pub start_time: Seq<char>,
    pub end_time: Option<Seq<char>>,
    pub total_files: nat,
    pub threats_found: nat,
    pub suspicious_files: nat,
    pub clean_files: nat,
}

impl View for ScanSession {
    type V = ScanSessionView;

    open spec fn view(&self) -> ScanSessionView {
        ScanSessionView {
            id: self.id@,
            files: self.files.deep_view(),
            scan_type: self.scan_type@,
            start_time: self.start_time@,
            end_time: match self.end_time {
                Some(t) => Some(t@),
                None => None,
            },
            total_files: self.total_files as nat,
            threats_found: self.threats_found as nat,
            suspicious_files: self.suspicious_files as nat,
            clean_files: self.clean_files as nat,
        }
    }
}

impl ScanSessionView {
    /// The session invariant: the total is the number of completed
    /// results, each counter counts exactly its verdict, the three
    /// counters partition the total, and every held result is well
    /// formed.
    pub open spec fn wf(self) -> bool {
        &&& self.total_files == self.files.len()
        &&& self.clean_files == count_verdict(verdicts_of(self.files), Verdict::Clean)
        &&& self.suspicious_files == count_verdict(verdicts_of(self.files), Verdict::Suspicious)
        &&& self.threats_found == count_verdict(verdicts_of(self.files), Verdict::Threat)
        &&& self.total_files == self.clean_files + self.suspicious_files + self.threats_found
        &&& forall|i: int| 0 <= i < self.files.len() ==> self.files[i].wf()
    }

    /// A session is finalized once its end time is set; it is immutable
    /// afterward.
    pub open spec fn is_finalized(self) -> bool {
        self.end_time is Some
    }
}

impl ScanSession {
    /// Re-correlates a result to an input by path: the session imposes
    /// no ordering on `files`, so callers that need to know what became
    /// of a particular path look it up here. Returns the first result
    /// for that path, or `None` when the path yielded no result.
    pub fn find_result(&self, path: &String) -> (r: Option<&ScanResult>)
        ensures
            r is Some ==> r->0@.file_info.path == path@,
            r is None ==> forall|i: int|
                0 <= i < self@.files.len() ==> self@.files[i].file_info.path != path@,
    {
        let mut i: usize = 0;
        while i < self.files.len()
            invariant
                i <= self.files.len(),
                forall|k: int|
                    0 <= k < i ==> self.files.deep_view()[k].file_info.path != path@,
            decreases self.files.len() - i,
        {
            if self.files[i].file_info.path == *path {
                return Some(&self.files[i]);
            }
            i = i + 1;
        }
        None
    }
}

/// Aggregate consistency: in every well-formed session the total equals
/// the number of held results, and the threat, suspicious and clean
/// counters sum to exactly that total — no completed file is dropped or
/// double-counted.
pub proof fn lemma_session_counts(s: ScanSessionView)
    requires
        s.wf(),
    ensures
        s.total_files == s.files.len(),
        s.threats_found + s.suspicious_files + s.clean_files == s.total_files,
{
}

} // verus!
