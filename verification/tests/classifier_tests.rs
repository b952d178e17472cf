use varenizer::classifier::{Classifier, RuleClassifier};
use varenizer::hasher::digest_bytes;
use varenizer::metadata::file_info_from_path;
use varenizer::model::Verdict;

fn sample_classifier() -> RuleClassifier {
    RuleClassifier {
        threat_digests: vec![digest_bytes(b"malware-bytes")],
        threat_labels: vec![
            "Trojan.Generic.KD".to_string(),
            "PUP.Optional.Bundle".to_string(),
        ],
        suspicious_extensions: vec!["exe".to_string()],
        suspicious_labels: vec!["Potentially Unwanted Program".to_string()],
    }
}

#[test]
fn known_digest_is_a_threat() {
    let c = sample_classifier();
    let info = file_info_from_path("/tmp/payload.txt", 13);
    let digest = digest_bytes(b"malware-bytes");
    let (status, threats) = c.classify(&info, &digest).unwrap();
    assert_eq!(status, Verdict::Threat);
    assert_eq!(
        threats,
        vec![
            "Trojan.Generic.KD".to_string(),
            "PUP.Optional.Bundle".to_string()
        ]
    );
}

#[test]
fn listed_extension_is_suspicious() {
    let c = sample_classifier();
    let info = file_info_from_path("/tmp/setup.exe", 99);
    let digest = digest_bytes(b"harmless");
    let (status, threats) = c.classify(&info, &digest).unwrap();
    assert_eq!(status, Verdict::Suspicious);
    assert_eq!(threats, vec!["Potentially Unwanted Program".to_string()]);
}

#[test]
fn unlisted_file_is_clean_with_no_threats() {
    let c = sample_classifier();
    let info = file_info_from_path("/tmp/notes.txt", 7);
    let digest = digest_bytes(b"clean content");
    let (status, threats) = c.classify(&info, &digest).unwrap();
    assert_eq!(status, Verdict::Clean);
    assert!(threats.is_empty());
}

#[test]
fn flagged_verdicts_always_name_a_threat() {
    let c = sample_classifier();
    for (path, bytes) in [
        ("/tmp/payload.txt", b"malware-bytes".as_slice()),
        ("/tmp/setup.exe", b"harmless".as_slice()),
        ("/tmp/notes.txt", b"clean content".as_slice()),
    ] {
        let info = file_info_from_path(path, bytes.len() as u64);
        let digest = digest_bytes(bytes);
        let (status, threats) = c.classify(&info, &digest).unwrap();
        assert_eq!(status == Verdict::Clean, threats.is_empty());
    }
}

#[test]
fn classification_is_deterministic() {
    let c = sample_classifier();
    let info = file_info_from_path("/tmp/setup.exe", 99);
    let digest = digest_bytes(b"whatever bytes");
    let first = c.classify(&info, &digest).unwrap();
    let second = c.classify(&info, &digest).unwrap();
    assert_eq!(first.0, second.0);
    assert_eq!(first.1, second.1);
}
