//! The whole pipeline over pre-read inputs: metadata, hashing,
//! classification and aggregation for a batch, one outcome per input.
//! The filesystem reads happen outside the library and hand in one
//! `FileLoad` per path; everything after the read is verified here.

use vstd::prelude::*;
use crate::classifier::Classifier;
use crate::errors::{BatchError, FileAccessError, FileScanError, FileScanErrorView, ScanStage};
use crate::hasher::{digest_bytes, digest_of};
use crate::metadata::{file_info_from_path, spec_extension, spec_file_name};
use crate::model::{FileInfoView, ScanResultView, Verdict};
use crate::orchestrator::Orchestrator;
use crate::session::ScanSession;
use crate::worker::{clone_string, complete_scan};

verus! {

/// What reading one path produced: its size and bytes, or the access
/// error that ended its scan at the metadata stage.
pub enum FileLoad {
    Content { path: String, size: u64, bytes: Vec<u8> },
    Denied { path: String, error: FileAccessError },
}

/// Mathematical view of a `FileLoad`.
pub enum FileLoadView {
    Content { path: Seq<char>, size: u64, bytes: Seq<u8> },
    Denied { path: Seq<char>, error: FileAccessError },
}

impl View for FileLoad {
    type V = FileLoadView;

    open spec fn view(&self) -> FileLoadView {
        match self {
            FileLoad::Content { path, size, bytes } => FileLoadView::Content {
                path: path@,
                size: *size,
                bytes: bytes@,
            },
            FileLoad::Denied { path, error } => FileLoadView::Denied {
                path: path@,
                error: *error,
            },
        }
    }
}

impl DeepView for FileLoad {
    type V = FileLoadView;

    open spec fn deep_view(&self) -> FileLoadView {
        self.view()
    }
}

impl FileLoadView {
    /// The path this load was read from.
    pub open spec fn path(self) -> Seq<char> {
        match self {
            FileLoadView::Content { path, .. } => path,
            FileLoadView::Denied { path, .. } => path,
        }
    }
}

/// The paths of a load list, in order.
pub open spec fn paths_of(loads: Seq<FileLoadView>) -> Seq<Seq<char>> {
    loads.map_values(|l: FileLoadView| l.path())
}

/// The metadata the reader derives for a path of the given size.
pub open spec fn spec_load_info(path: Seq<char>, size: u64) -> FileInfoView {
    FileInfoView {
        name: spec_file_name(path),
        path: path,
        size: size,
        extension: spec_extension(spec_file_name(path)),
    }
}

/// Whether a load makes it through the whole pipeline to a result.
pub open spec fn spec_load_succeeds<C: Classifier>(c: &C, l: FileLoadView) -> bool {
    match l {
        FileLoadView::Content { path, size, bytes } => c.spec_accepts(
            spec_load_info(path, size),
            digest_of(bytes),
        ),
        FileLoadView::Denied { .. } => false,
    }
}

/// The observable content of the result a successful load yields:
/// `(path, status, threats, hash)`. Identifier and timestamp are fresh
/// per scan and deliberately not part of it.
pub open spec fn spec_result_entry<C: Classifier>(c: &C, l: FileLoadView) -> (
    Seq<char>,
    Verdict,
    Seq<Seq<char>>,
    Seq<char>,
) {
    match l {
        FileLoadView::Content { path, size, bytes } => (
            path,
            c.spec_verdict(spec_load_info(path, size), digest_of(bytes)),
            c.spec_threats(spec_load_info(path, size), digest_of(bytes)),
            digest_of(bytes),
        ),
        FileLoadView::Denied { .. } => arbitrary(),
    }
}

/// The `(path, stage)` of the error a failed load yields.
pub open spec fn spec_error_entry<C: Classifier>(c: &C, l: FileLoadView) -> (Seq<char>, ScanStage) {
    match l {
        FileLoadView::Content { path, .. } => (path, ScanStage::Classification),
        FileLoadView::Denied { path, .. } => (path, ScanStage::MetadataRead),
    }
}

/// The results the batch owes for these loads, in input order.
pub open spec fn spec_expected_results<C: Classifier>(c: &C, loads: Seq<FileLoadView>) -> Seq<
    (Seq<char>, Verdict, Seq<Seq<char>>, Seq<char>),
>
    decreases loads.len(),
{
    if loads.len() == 0 {
        Seq::empty()
    } else {
        let init = spec_expected_results(c, loads.drop_last());
        if spec_load_succeeds(c, loads.last()) {
            init.push(spec_result_entry(c, loads.last()))
        } else {
            init
        }
    }
}

/// The per-file errors the batch owes for these loads, in input order.
pub open spec fn spec_expected_errors<C: Classifier>(c: &C, loads: Seq<FileLoadView>) -> Seq<
    (Seq<char>, ScanStage),
>
    decreases loads.len(),
{
    if loads.len() == 0 {
        Seq::empty()
    } else {
        let init = spec_expected_errors(c, loads.drop_last());
        if spec_load_succeeds(c, loads.last()) {
            init
        } else {
            init.push(spec_error_entry(c, loads.last()))
        }
    }
}

/// The observable content of recorded results: `(path, status, threats, hash)` each.
pub open spec fn result_summaries(files: Seq<ScanResultView>) -> Seq<
    (Seq<char>, Verdict, Seq<Seq<char>>, Seq<char>),
> {
    files.map_values(|r: ScanResultView| (r.file_info.path, r.status, r.threats, r.hash))
}

/// The `(path, stage)` of recorded errors.
pub open spec fn error_summaries(errors: Seq<FileScanErrorView>) -> Seq<(Seq<char>, ScanStage)> {
    errors.map_values(|e: FileScanErrorView| (e.path, e.stage))
}

/// Every load yields exactly one outcome, so results and errors together
/// account for the whole batch.
pub proof fn lemma_expected_partition<C: Classifier>(c: &C, loads: Seq<FileLoadView>)
    ensures
        spec_expected_results(c, loads).len() + spec_expected_errors(c, loads).len()
            == loads.len(),
    decreases loads.len(),
{
    if loads.len() > 0 {
        lemma_expected_partition(c, loads.drop_last());
    }
}

/// Scans a batch of pre-read files: hashes each readable file's bytes,
/// classifies it, and folds the outcomes into a finalized session plus
/// the per-file error list. One slow or unreadable file never costs the
/// batch: its error is recorded and the rest proceed. A zero concurrency
/// bound is the one setup-time failure, rejected before any work.
pub fn scan_files<C: Classifier>(
    classifier: &C,
    loads: &Vec<FileLoad>,
    scan_type: String,
    bound: usize,
) -> (r: Result<(ScanSession, Vec<FileScanError>), BatchError>)
    requires
        classifier.wf(),
    ensures
        r is Err <==> bound == 0,
        r is Err ==> r->Err_0 == BatchError::InvalidConcurrencyBound,
        r is Ok ==> ({
            let (session, errors) = r->Ok_0;
            &&& session@.wf()
            &&& session@.is_finalized()
            &&& result_summaries(session@.files) == spec_expected_results(
                classifier,
                loads.deep_view(),
            )
            &&& error_summaries(errors.deep_view()) == spec_expected_errors(
                classifier,
                loads.deep_view(),
            )
            &&& session@.total_files + errors.deep_view().len() == loads.deep_view().len()
            &&& session@.scan_type == scan_type@
        }),
{
    let ghost lv: Seq<FileLoadView> = loads.deep_view();
    let ghost st: Seq<char> = scan_type@;
    let mut paths: Vec<String> = Vec::new();
    let mut i: usize = 0;
    proof {
        assert(paths.deep_view() =~= paths_of(lv).take(0));
    }
    while i < loads.len()
        invariant
            i <= loads.len(),
            lv == loads.deep_view(),
            paths.deep_view() =~= paths_of(lv).take(i as int),
            paths.len() == i,
        decreases loads.len() - i,
    {
        let p = match &loads[i] {
            FileLoad::Content { path, .. } => clone_string(path),
            FileLoad::Denied { path, .. } => clone_string(path),
        };
        paths.push(p);
        proof {
            assert(paths.deep_view() =~= paths_of(lv).take(i + 1));
        }
        i = i + 1;
    }
    proof {
        assert(paths_of(lv).take(loads.len() as int) =~= paths_of(lv));
    }

    let mut orch = match Orchestrator::new(paths, scan_type, bound) {
        Ok(o) => o,
        Err(e) => {
            return Err(e);
        },
    };
    orch.start();

    let mut k: usize = 0;
    proof {
        assert(lv.take(0) =~= Seq::<FileLoadView>::empty());
    }
    while k < loads.len()
        invariant
            k <= loads.len(),
            lv == loads.deep_view(),
            classifier.wf(),
            orch.wf(),
            orch.spec_running(),
            !orch.spec_cancelled(),
            orch.spec_bound() >= 1,
            orch.spec_in_flight() == 0,
            orch.spec_dispatched() == k,
            orch.spec_paths() == paths_of(lv),
            orch.spec_paths().len() == loads.len(),
            orch.spec_scan_type() == st,
            result_summaries(orch.spec_results()) =~= spec_expected_results(
                classifier,
                lv.take(k as int),
            ),
            error_summaries(orch.spec_errors()) =~= spec_expected_errors(
                classifier,
                lv.take(k as int),
            ),
        decreases loads.len() - k,
    {
        let ghost pre_results = orch.spec_results();
        let ghost pre_errors = orch.spec_errors();
        // a slot is always free in this sequential drive, so dispatch succeeds
        let path = match orch.try_dispatch() {
            Some(p) => p,
            None => unreached(),
        };
        proof {
            assert(lv.take(k + 1).drop_last() =~= lv.take(k as int));
            assert(lv.take(k + 1).last() == lv[k as int]);
            assert(path@ == lv[k as int].path());
        }
        match &loads[k] {
            FileLoad::Content { path: _, size, bytes } => {
                let digest = digest_bytes(bytes.as_slice());
                let info = file_info_from_path(path.as_str(), *size);
                proof {
                    assert(info@ == spec_load_info(lv[k as int].path(), *size));
                }
                match complete_scan(classifier, info, digest) {
                    Ok(result) => {
                        proof {
                            assert(spec_load_succeeds(classifier, lv[k as int]));
                        }
                        orch.record_result(result);
                        proof {
                            assert(result_summaries(pre_results.push(result@))
                                =~= result_summaries(pre_results).push(
                                (result@.file_info.path, result@.status, result@.threats,
                                result@.hash),
                            ));
                        }
                    },
                    Err(err) => {
                        proof {
                            assert(!spec_load_succeeds(classifier, lv[k as int]));
                        }
                        orch.record_error(err);
                        proof {
                            assert(error_summaries(pre_errors.push(err@)) =~= error_summaries(
                                pre_errors,
                            ).push((err@.path, err@.stage)));
                        }
                    },
                }
            },
            FileLoad::Denied { path: _, error } => {
                let err = FileScanError::from_access(path, error);
                proof {
                    assert(!spec_load_succeeds(classifier, lv[k as int]));
                }
                orch.record_error(err);
                proof {
                    assert(error_summaries(pre_errors.push(err@)) =~= error_summaries(
                        pre_errors,
                    ).push((err@.path, err@.stage)));
                }
            },
        }
        k = k + 1;
    }
    proof {
        assert(lv.take(loads.len() as int) =~= lv);
    }
    let (session, errors) = orch.finalize();
    proof {
        lemma_expected_partition(classifier, lv);
    }
    Ok((session, errors))
}

} // verus!
