//! The PII scanner agent: a thin front over the classifier that owns it.

use vstd::prelude::*;
use vstd::string::StringExecFns;

use crate::detector::scan_spec;
use crate::pii_classifier::{PiiClassifier, classifier_catalog, classifier_patterns_compile};
use crate::types::PiiDetection;

verus! {

/// Scanning agent owning one classifier.
pub struct PiiScannerAgent {
    classifier: PiiClassifier,
    agent_id: String,
}

impl PiiScannerAgent {
    /// The scanner is well formed when its classifier is.
    pub closed spec fn wf(&self) -> bool {
        self.classifier.wf()
    }

    /// The classifier's confidence floor, in basis points.
    pub closed spec fn threshold_spec(&self) -> int {
        self.classifier.threshold_spec()
    }

    /// The agent's identifier text.
    pub closed spec fn agent_id_view(&self) -> Seq<char> {
        self.agent_id@
    }

    /// Builds a scanner around a freshly compiled classifier. Succeeds
    /// exactly when the classifier's construction does; `None` is a failed
    /// built-in pattern, fatal at start-up.
    pub fn new() -> (r: Option<PiiScannerAgent>)
        ensures
            r is Some <==> classifier_patterns_compile(),
            r matches Some(a) ==> a.wf() && a.threshold_spec() == 7000 && a.agent_id_view()
                == "pii-scanner-001"@,
    {
        match PiiClassifier::new() {
            Some(classifier) => Some(
                PiiScannerAgent { classifier, agent_id: String::from_str("pii-scanner-001") },
            ),
            None => None,
        }
    }

    /// Wraps an existing classifier.
    pub fn with_classifier(classifier: PiiClassifier) -> (r: PiiScannerAgent)
        ensures
            r.wf() == classifier.wf(),
            r.threshold_spec() == classifier.threshold_spec(),
            r.agent_id_view() == "pii-scanner-001"@,
    {
        PiiScannerAgent { classifier, agent_id: String::from_str("pii-scanner-001") }
    }

    /// Scans `text` with the classifier's whole catalog; detections come
    /// ordered by start offset. Empty or non-matching text yields an empty
    /// sequence, never an error.
    pub fn scan(&self, text: &Vec<u8>) -> (r: Vec<PiiDetection>)
        requires
            self.wf(),
        ensures
            r.deep_view() == scan_spec(classifier_catalog(), self.threshold_spec(), text@),
    {
        self.classifier.detect_pii(text)
    }

    /// The agent's identifier.
    pub fn agent_id(&self) -> (r: &str)
        ensures
            r@ == self.agent_id_view(),
    {
        self.agent_id.as_str()
    }
}

} // verus!
