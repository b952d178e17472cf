//! The classifier capability: the pipeline is generic over the detector
//! that turns a file's metadata and digest into a verdict. The contract
//! pins every classification to spec-level functions of the classifier's
//! own state and the declared inputs, which is what makes classification
//! deterministic and the engine testable without a live detector.

use vstd::prelude::*;
use crate::errors::ClassificationError;
use crate::model::{FileInfo, FileInfoView, Verdict};

verus! {

/// A pluggable detector. `classify` must be pure with respect to its
/// declared inputs: its outcome, success or failure included, is a
/// spec-level function of the classifier value, the file metadata and
/// the digest — never of call order or concurrency.
pub trait Classifier: Sized {
    /// When the classifier's configuration is usable.
    spec fn wf(&self) -> bool;

    /// Whether classification succeeds on these inputs.
    spec fn spec_accepts(&self, info: FileInfoView, digest: Seq<char>) -> bool;

    /// The verdict returned on these inputs, when classification succeeds.
    spec fn spec_verdict(&self, info: FileInfoView, digest: Seq<char>) -> Verdict;

    /// The threat labels returned on these inputs, when classification
    /// succeeds.
    spec fn spec_threats(&self, info: FileInfoView, digest: Seq<char>) -> Seq<Seq<char>>;

    /// Classifies one file from its metadata and content digest. A
    /// failure is an explicit `ClassificationError`, never a verdict;
    /// and a returned verdict is `Clean` exactly when the threat list
    /// is empty.
    fn classify(&self, info: &FileInfo, digest: &String) -> (r: Result<
        (Verdict, Vec<String>),
        ClassificationError,
    >)
        requires
            self.wf(),
        ensures
            r is Ok <==> self.spec_accepts(info@, digest@),
            r is Ok ==> r->Ok_0.0 == self.spec_verdict(info@, digest@),
            r is Ok ==> r->Ok_0.1.deep_view() == self.spec_threats(info@, digest@),
            r is Ok ==> (r->Ok_0.0 == Verdict::Clean <==> r->Ok_0.1.len() == 0),
    ;
}

/// Determinism of classification: the classifier contract ties every
/// successful outcome to `spec_verdict` and `spec_threats`, so any two
/// classifications by the same classifier of the same metadata and
/// digest agree, whatever the concurrency level or call order was.
pub proof fn lemma_classification_deterministic<C: Classifier>(
    c: &C,
    info: FileInfoView,
    digest: Seq<char>,
    r1: (Verdict, Seq<Seq<char>>),
    r2: (Verdict, Seq<Seq<char>>),
)
    requires
        r1.0 == c.spec_verdict(info, digest),
        r1.1 == c.spec_threats(info, digest),
        r2.0 == c.spec_verdict(info, digest),
        r2.1 == c.spec_threats(info, digest),
    ensures
        r1 == r2,
{
}

/// A deterministic rule-based classifier: a digest on the threat list is
/// a `Threat`, otherwise an extension on the suspicious list is
/// `Suspicious`, otherwise the file is `Clean`. Serves as the test
/// double and as the reference shape a signature database plugs into.
pub struct RuleClassifier {
    pub threat_digests: Vec<String>,
    pub threat_labels: Vec<String>,
    pub suspicious_extensions: Vec<String>,
    pub suspicious_labels: Vec<String>,
}

/// Whether `items` holds a string equal to `needle`.
pub fn contains_string(items: &Vec<String>, needle: &String) -> (b: bool)
    ensures
        b == items.deep_view().contains(needle@),
{
    let mut i: usize = 0;
    while i < items.len()
        invariant
            i <= items.len(),
            forall|k: int| 0 <= k < i ==> items.deep_view()[k] != needle@,
        decreases items.len() - i,
    {
        if items[i] == *needle {
            assert(items.deep_view()[i as int] == needle@);
            return true;
        }
        i = i + 1;
    }
    false
}

impl Classifier for RuleClassifier {
    /// A flagged verdict must be able to name at least one threat.
    open spec fn wf(&self) -> bool {
        self.threat_labels.len() > 0 && self.suspicious_labels.len() > 0
    }

    /// Rule tables are always available: this classifier never fails.
    open spec fn spec_accepts(&self, info: FileInfoView, digest: Seq<char>) -> bool {
        true
    }

    open spec fn spec_verdict(&self, info: FileInfoView, digest: Seq<char>) -> Verdict {
        if self.threat_digests.deep_view().contains(digest) {
            Verdict::Threat
        } else if self.suspicious_extensions.deep_view().contains(info.extension) {
            Verdict::Suspicious
        } else {
            Verdict::Clean
        }
    }

    open spec fn spec_threats(&self, info: FileInfoView, digest: Seq<char>) -> Seq<Seq<char>> {
        match self.spec_verdict(info, digest) {
            Verdict::Threat => self.threat_labels.deep_view(),
            Verdict::Suspicious => self.suspicious_labels.deep_view(),
            Verdict::Clean => Seq::empty(),
        }
    }

    fn classify(&self, info: &FileInfo, digest: &String) -> (r: Result<
        (Verdict, Vec<String>),
        ClassificationError,
    >) {
        if contains_string(&self.threat_digests, digest) {
            let labels = self.threat_labels.clone();
            proof {
                assert(labels.deep_view() =~= self.threat_labels.deep_view());
            }
            Ok((Verdict::Threat, labels))
        } else if contains_string(&self.suspicious_extensions, &info.extension) {
            let labels = self.suspicious_labels.clone();
            proof {
                assert(labels.deep_view() =~= self.suspicious_labels.deep_view());
            }
            Ok((Verdict::Suspicious, labels))
        } else {
            Ok((Verdict::Clean, Vec::new()))
        }
    }
}

} // verus!
