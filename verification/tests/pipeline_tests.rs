use varenizer::classifier::RuleClassifier;
use varenizer::errors::{BatchError, FileAccessError, ScanStage};
use varenizer::hasher::digest_bytes;
use varenizer::model::Verdict;
use varenizer::pipeline::{scan_files, FileLoad};

fn sample_classifier() -> RuleClassifier {
    RuleClassifier {
        threat_digests: vec![digest_bytes(b"malware-bytes")],
        threat_labels: vec!["Trojan.Generic.KD".to_string()],
        suspicious_extensions: vec!["exe".to_string()],
        suspicious_labels: vec!["Potentially Unwanted Program".to_string()],
    }
}

fn content(path: &str, bytes: &[u8]) -> FileLoad {
    FileLoad::Content {
        path: path.to_string(),
        size: bytes.len() as u64,
        bytes: bytes.to_vec(),
    }
}

#[test]
fn end_to_end_one_clean_file_one_missing() {
    let c = sample_classifier();
    let loads = vec![
        content("/tmp/a.txt", b"clean content"),
        FileLoad::Denied {
            path: "/tmp/missing.bin".to_string(),
            error: FileAccessError::NotFound,
        },
    ];
    let (session, errors) = scan_files(&c, &loads, "custom".to_string(), 4).unwrap();

    assert_eq!(session.total_files, 1);
    assert_eq!(session.clean_files, 1);
    assert_eq!(session.threats_found, 0);
    assert_eq!(session.suspicious_files, 0);
    assert_eq!(session.files.len(), 1);
    assert_eq!(session.files[0].file_info.path, "/tmp/a.txt");
    assert_eq!(session.files[0].status, Verdict::Clean);
    assert!(session.files[0].threats.is_empty());
    assert!(session.end_time.is_some());
    assert!(!session.start_time.is_empty());
    assert!(!session.end_time.as_ref().unwrap().is_empty());
    assert_eq!(session.scan_type, "custom");
    assert_eq!(session.id.len(), 36);
    assert_eq!(session.files[0].id.len(), 36);

    assert_eq!(errors.len(), 1);
    assert_eq!(errors[0].path, "/tmp/missing.bin");
    assert_eq!(errors[0].stage, ScanStage::MetadataRead);
    assert_eq!(errors[0].cause, "file not found");
}

#[test]
fn counts_partition_the_readable_batch() {
    let c = sample_classifier();
    let loads = vec![
        content("/tmp/one.txt", b"clean content"),
        content("/tmp/two.exe", b"some installer"),
        content("/tmp/three.txt", b"malware-bytes"),
        content("/tmp/four.txt", b"more clean bytes"),
    ];
    let (session, errors) = scan_files(&c, &loads, "full".to_string(), 2).unwrap();

    assert!(errors.is_empty());
    assert_eq!(session.total_files, loads.len());
    assert_eq!(session.files.len(), session.total_files);
    assert_eq!(
        session.clean_files + session.suspicious_files + session.threats_found,
        session.total_files
    );
    assert_eq!(session.clean_files, 2);
    assert_eq!(session.suspicious_files, 1);
    assert_eq!(session.threats_found, 1);
}

#[test]
fn aggregate_counts_do_not_depend_on_input_order() {
    let c = sample_classifier();
    let forward = vec![
        content("/tmp/one.txt", b"clean content"),
        content("/tmp/two.exe", b"some installer"),
        content("/tmp/three.txt", b"malware-bytes"),
        FileLoad::Denied {
            path: "/tmp/gone".to_string(),
            error: FileAccessError::PermissionDenied,
        },
    ];
    let backward = vec![
        FileLoad::Denied {
            path: "/tmp/gone".to_string(),
            error: FileAccessError::PermissionDenied,
        },
        content("/tmp/three.txt", b"malware-bytes"),
        content("/tmp/two.exe", b"some installer"),
        content("/tmp/one.txt", b"clean content"),
    ];
    let (s1, e1) = scan_files(&c, &forward, "full".to_string(), 3).unwrap();
    let (s2, e2) = scan_files(&c, &backward, "full".to_string(), 3).unwrap();

    assert_eq!(s1.total_files, s2.total_files);
    assert_eq!(s1.clean_files, s2.clean_files);
    assert_eq!(s1.suspicious_files, s2.suspicious_files);
    assert_eq!(s1.threats_found, s2.threats_found);
    assert_eq!(e1.len(), e2.len());
}

#[test]
fn every_result_respects_clean_iff_no_threats() {
    let c = sample_classifier();
    let loads = vec![
        content("/tmp/one.txt", b"clean content"),
        content("/tmp/two.exe", b"some installer"),
        content("/tmp/three.txt", b"malware-bytes"),
    ];
    let (session, _) = scan_files(&c, &loads, "full".to_string(), 1).unwrap();
    for r in &session.files {
        assert_eq!(r.status == Verdict::Clean, r.threats.is_empty());
    }
}

#[test]
fn results_carry_the_content_digest() {
    let c = sample_classifier();
    let loads = vec![content("/tmp/a.txt", b"hello world")];
    let (session, _) = scan_files(&c, &loads, "quick".to_string(), 1).unwrap();
    assert_eq!(session.files[0].hash, "fnv1a64:779a65e7023cd2e7");
    assert_eq!(session.files[0].file_info.name, "a.txt");
    assert_eq!(session.files[0].file_info.extension, "txt");
    assert_eq!(session.files[0].file_info.size, 11);
}

#[test]
fn results_re_correlate_to_inputs_by_path() {
    let c = sample_classifier();
    let loads = vec![
        content("/tmp/one.txt", b"clean content"),
        content("/tmp/two.exe", b"some installer"),
        FileLoad::Denied {
            path: "/tmp/missing.bin".to_string(),
            error: FileAccessError::NotFound,
        },
    ];
    let (session, _) = scan_files(&c, &loads, "full".to_string(), 2).unwrap();

    let two = session.find_result(&"/tmp/two.exe".to_string()).unwrap();
    assert_eq!(two.file_info.path, "/tmp/two.exe");
    assert_eq!(two.status, Verdict::Suspicious);
    assert!(session.find_result(&"/tmp/missing.bin".to_string()).is_none());
    assert!(session.find_result(&"/tmp/never-given".to_string()).is_none());
}

#[test]
fn zero_concurrency_bound_is_rejected_up_front() {
    let c = sample_classifier();
    let loads = vec![content("/tmp/a.txt", b"clean content")];
    let err = scan_files(&c, &loads, "full".to_string(), 0).unwrap_err();
    assert_eq!(err, BatchError::InvalidConcurrencyBound);
}

#[test]
fn empty_batch_finalizes_with_zero_counts() {
    let c = sample_classifier();
    let loads: Vec<FileLoad> = Vec::new();
    let (session, errors) = scan_files(&c, &loads, "full".to_string(), 8).unwrap();
    assert_eq!(session.total_files, 0);
    assert_eq!(session.clean_files, 0);
    assert_eq!(session.suspicious_files, 0);
    assert_eq!(session.threats_found, 0);
    assert!(session.files.is_empty());
    assert!(errors.is_empty());
    assert!(session.end_time.is_some());
}
