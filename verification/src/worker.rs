//! The scan worker's composition step: given a file's metadata and its
//! content digest, produce exactly one `ScanResult` or exactly one
//! `FileScanError` for that file. Failures of a stage never leak a
//! partially-filled result.

use vstd::prelude::*;
use crate::classifier::Classifier;
use crate::errors::{FileScanError, ScanStage};
use crate::ids::fresh_id;
use crate::clock::current_time_string;
use crate::model::{FileInfo, ScanResult};

verus! {

/// Runs the classification stage for one file and assembles its result:
/// a fresh id, the metadata, the classifier's verdict and threat list,
/// the current timestamp, and the digest. A classifier failure becomes
/// a `FileScanError` at the classification stage for this file's path —
/// never a verdict.
pub fn complete_scan<C: Classifier>(classifier: &C, info: FileInfo, digest: String) -> (r: Result<
    ScanResult,
    FileScanError,
>)
    requires
        classifier.wf(),
    ensures
        r is Ok <==> classifier.spec_accepts(info@, digest@),
        r is Ok ==> r->Ok_0@.wf(),
        r is Ok ==> r->Ok_0@.file_info == info@,
        r is Ok ==> r->Ok_0@.hash == digest@,
        r is Ok ==> r->Ok_0@.status == classifier.spec_verdict(info@, digest@),
        r is Ok ==> r->Ok_0@.threats == classifier.spec_threats(info@, digest@),
        r is Ok ==> r->Ok_0@.id.len() == 36,
        r is Err ==> r->Err_0@.stage == ScanStage::Classification,
        r is Err ==> r->Err_0@.path == info@.path,
{
    let path_copy = clone_string(&info.path);
    match classifier.classify(&info, &digest) {
        Ok((status, threats)) => {
            proof {
                assert(threats.deep_view().len() == threats@.len());
            }
            Ok(
                ScanResult::assemble(
                    fresh_id(),
                    info,
                    status,
                    threats,
                    current_time_string(),
                    digest,
                ),
            )
        },
        Err(e) => Err(FileScanError::from_classification(path_copy, e)),
    }
}

/// A copy of a string with the same characters.
pub fn clone_string(s: &String) -> (r: String)
    ensures
        r@ == s@,
{
    s.clone()
}

} // verus!
