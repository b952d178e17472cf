use varenizer::classifier::RuleClassifier;
use varenizer::errors::{
    BatchError, ClassificationError, FileAccessError, FileScanError, IoError, ScanStage,
};
use varenizer::hasher::digest_bytes;
use varenizer::metadata::file_info_from_path;
use varenizer::model::Verdict;
use varenizer::orchestrator::Orchestrator;
use varenizer::worker::complete_scan;

fn ten_paths() -> Vec<String> {
    (0..10).map(|i| format!("/tmp/file{}.txt", i)).collect()
}

fn clean_result_for(path: &str) -> varenizer::model::ScanResult {
    let c = RuleClassifier {
        threat_digests: Vec::new(),
        threat_labels: vec!["T".to_string()],
        suspicious_extensions: Vec::new(),
        suspicious_labels: vec!["S".to_string()],
    };
    let info = file_info_from_path(path, 4);
    complete_scan(&c, info, digest_bytes(b"data")).unwrap()
}

#[test]
fn at_most_two_workers_in_flight_with_bound_two() {
    let mut orch = Orchestrator::new(ten_paths(), "full".to_string(), 2).unwrap();
    orch.start();

    let mut outstanding: Vec<String> = Vec::new();
    let mut completed = 0;
    while completed < 10 {
        // fill the free slots: with bound 2 at most two dispatches succeed
        let mut dispatched_now = 0;
        while let Some(path) = orch.try_dispatch() {
            outstanding.push(path);
            dispatched_now += 1;
            assert!(orch.in_flight_count() <= orch.concurrency_bound());
        }
        assert!(outstanding.len() <= 2);
        assert!(dispatched_now <= 2);
        assert_eq!(orch.in_flight_count(), outstanding.len());

        // one worker finishes; a new slot opens only then
        let path = outstanding.pop().unwrap();
        orch.record_result(clean_result_for(&path));
        completed += 1;
    }

    assert!(orch.is_complete());
    let (session, errors) = orch.finalize();
    assert_eq!(session.total_files, 10);
    assert_eq!(session.clean_files, 10);
    assert!(errors.is_empty());
}

#[test]
fn dispatch_hands_out_paths_in_input_order() {
    let mut orch = Orchestrator::new(ten_paths(), "full".to_string(), 3).unwrap();
    orch.start();
    assert_eq!(orch.try_dispatch().unwrap(), "/tmp/file0.txt");
    assert_eq!(orch.try_dispatch().unwrap(), "/tmp/file1.txt");
    assert_eq!(orch.try_dispatch().unwrap(), "/tmp/file2.txt");
    assert!(orch.try_dispatch().is_none());
}

#[test]
fn cancellation_stops_dispatch_but_keeps_partial_results() {
    let mut orch = Orchestrator::new(ten_paths(), "full".to_string(), 1).unwrap();
    orch.start();

    let first = orch.try_dispatch().unwrap();
    orch.record_result(clean_result_for(&first));

    orch.cancel();
    assert!(orch.try_dispatch().is_none());
    assert!(orch.is_complete());

    let (session, errors) = orch.finalize();
    assert!(session.end_time.is_some());
    assert_eq!(session.total_files, 1);
    assert_eq!(session.clean_files, 1);
    assert!(errors.is_empty());
}

#[test]
fn errored_files_are_reported_not_counted() {
    let paths = vec!["/tmp/ok.txt".to_string(), "/tmp/locked.txt".to_string()];
    let mut orch = Orchestrator::new(paths, "full".to_string(), 2).unwrap();
    orch.start();

    let p1 = orch.try_dispatch().unwrap();
    let p2 = orch.try_dispatch().unwrap();
    orch.record_result(clean_result_for(&p1));
    orch.record_error(FileScanError::from_access(
        p2,
        &FileAccessError::PermissionDenied,
    ));

    assert!(orch.is_complete());
    let (session, errors) = orch.finalize();
    assert_eq!(session.total_files, 1);
    assert_eq!(errors.len(), 1);
    assert_eq!(errors[0].path, "/tmp/locked.txt");
    assert_eq!(errors[0].stage, ScanStage::MetadataRead);
    assert_eq!(errors[0].cause, "permission denied");
}

#[test]
fn zero_bound_never_starts() {
    match Orchestrator::new(ten_paths(), "full".to_string(), 0) {
        Ok(_) => panic!("a zero bound must be rejected"),
        Err(e) => assert_eq!(e, BatchError::InvalidConcurrencyBound),
    }
}

#[test]
fn each_stage_failure_keeps_its_stage_and_path() {
    let access = FileScanError::from_access("/a".to_string(), &FileAccessError::NotFound);
    assert_eq!(access.stage, ScanStage::MetadataRead);
    assert_eq!(access.cause, "file not found");

    let io = FileScanError::from_io(
        "/b".to_string(),
        IoError {
            cause: "read interrupted".to_string(),
        },
    );
    assert_eq!(io.stage, ScanStage::Hashing);
    assert_eq!(io.path, "/b");
    assert_eq!(io.cause, "read interrupted");

    let class = FileScanError::from_classification(
        "/c".to_string(),
        ClassificationError {
            cause: "model unavailable".to_string(),
        },
    );
    assert_eq!(class.stage, ScanStage::Classification);
    assert_eq!(class.path, "/c");
    assert_eq!(class.cause, "model unavailable");

    assert_eq!(
        FileAccessError::NotARegularFile.describe(),
        "not a regular file"
    );
}

#[test]
fn scan_results_have_fresh_full_length_ids() {
    let r = clean_result_for("/tmp/x.txt");
    assert_eq!(r.id.len(), 36);
    assert_eq!(r.status, Verdict::Clean);
    assert!(r.threats.is_empty());
    assert_eq!(r.hash, digest_bytes(b"data"));
}
