//! The coordinator: runs the detection, redaction and scoring steps of the
//! pipeline over one text, in that order, all over the single detection set
//! the scan produced.

use vstd::prelude::*;
use vstd::string::StringExecFns;

use crate::compliance_enforcer::ComplianceEnforcerAgent;
use crate::detector::scan_spec;
use crate::pii_classifier::classifier_catalog;
use crate::pii_scanner::PiiScannerAgent;
use crate::redaction::redact_spec;
use crate::scoring::{enforcer_recommendations_spec, lemma_score_bounds, score_spec};
use crate::types::{ComplianceResult, DetectionModel, copy_bytes};

verus! {

/// Drives one message through scan, redaction and scoring.
pub struct AgentCoordinator {
    coordinator_id: String,
}

impl AgentCoordinator {
    /// The coordinator's identifier text.
    pub closed spec fn coordinator_id_view(&self) -> Seq<char> {
        self.coordinator_id@
    }

    /// Builds the coordinator.
    pub fn new() -> (r: AgentCoordinator)
        ensures
            r.coordinator_id_view() == "coordinator-001"@,
    {
        AgentCoordinator { coordinator_id: String::from_str("coordinator-001") }
    }

    /// Runs the pipeline over one text: the scanner scans once, and the
    /// enforcer redacts and scores that same detection set — never a
    /// re-scan, which would understate the risk of the original text. The
    /// external explanation generator consumes the returned result outside
    /// the library.
    pub fn run_compliance_pipeline(
        &self,
        text: &Vec<u8>,
        scanner: &PiiScannerAgent,
        enforcer: &ComplianceEnforcerAgent,
    ) -> (r: ComplianceResult)
        requires
            scanner.wf(),
        ensures
            r.deep_view().original_text == text@,
            r.deep_view().detected_pii == scan_spec(
                classifier_catalog(),
                scanner.threshold_spec(),
                text@,
            ),
            r.deep_view().redacted_text == redact_spec(
                text@,
                scan_spec(classifier_catalog(), scanner.threshold_spec(), text@),
            ),
            r.deep_view().compliance_score == score_spec(
                scan_spec(classifier_catalog(), scanner.threshold_spec(), text@),
            ),
            r.deep_view().recommendations == enforcer_recommendations_spec(
                scan_spec(classifier_catalog(), scanner.threshold_spec(), text@),
            ),
    {
        let detections = scanner.scan(text);
        let redacted = enforcer.apply_redaction(text, &detections);
        let compliance_score = enforcer.calculate_compliance_score(&detections);
        let recommendations = enforcer.generate_recommendations(&detections);
        ComplianceResult {
            original_text: copy_bytes(text),
            redacted_text: redacted,
            detected_pii: detections,
            compliance_score,
            recommendations,
        }
    }
}

/// A text whose scan found nothing is fully compliant: the redacted text is
/// the original and the score is exactly 10000 basis points.
pub proof fn lemma_no_detections_identity(text: Seq<u8>, dets: Seq<DetectionModel>)
    requires
        dets.len() == 0,
    ensures
        redact_spec(text, dets) == text,
        score_spec(dets) == 10000,
{
    assert(dets =~= Seq::<DetectionModel>::empty());
    lemma_score_bounds(dets);
}

/// Every score the pipeline can produce lies in [0, 10000], whatever the
/// patterns matched: the scan only records confidences within range, and
/// the scoring rule keeps its result within range.
pub proof fn lemma_pipeline_score_bounds(
    catalog: Seq<(crate::types::PiiType, Seq<char>)>,
    floor: int,
    text: Seq<u8>,
)
    requires
        0 <= floor <= 10000,
    ensures
        0 <= score_spec(scan_spec(catalog, floor, text)) <= 10000,
{
    crate::detector::lemma_scan_detections_wf(catalog, floor, text);
    let dets = scan_spec(catalog, floor, text);
    assert forall|i: int| 0 <= i < dets.len() implies 0 <= (#[trigger] dets[i]).confidence
        <= 10000 by {
        assert(scan_spec(catalog, floor, text)[i].wf_for(text));
    }
    lemma_score_bounds(dets);
}

} // verus!
