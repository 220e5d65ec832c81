//! The compliance enforcer agent: applies the category redaction table to a
//! text under a detection set, scores the residual risk, and produces the
//! advisory lines.

use vstd::prelude::*;
use vstd::string::StringExecFns;

use crate::redaction::{apply_redactions, redact_spec};
use crate::scoring::{
    calculate_compliance_score, enforcer_recommendations_spec, generate_enforcer_recommendations,
    score_spec,
};
use crate::types::PiiDetection;

verus! {

/// Stateless enforcement agent; its redaction table and scoring rule are
/// fixed, so it is safe to share across any number of callers.
pub struct ComplianceEnforcerAgent {
    agent_id: String,
}

impl ComplianceEnforcerAgent {
    /// The agent's identifier text.
    pub closed spec fn agent_id_view(&self) -> Seq<char> {
        self.agent_id@
    }

    /// Builds the enforcer.
    pub fn new() -> (r: ComplianceEnforcerAgent)
        ensures
            r.agent_id_view() == "compliance-enforcer-001"@,
    {
        ComplianceEnforcerAgent { agent_id: String::from_str("compliance-enforcer-001") }
    }

    /// Replaces each detected span with its category's placeholder token,
    /// walking the detections in start order and skipping spans that no
    /// longer fit the shifted text. Tolerates overlapping, duplicate and
    /// out-of-range detections without error.
    pub fn apply_redaction(&self, text: &Vec<u8>, detections: &Vec<PiiDetection>) -> (r: Vec<u8>)
        ensures
            r@ == redact_spec(text@, detections.deep_view()),
    {
        apply_redactions(text, detections)
    }

    /// Scores the detection set: 10000 basis points for an empty set, else
    /// the average confidence minus a capped per-detection penalty, floored
    /// at zero.
    pub fn calculate_compliance_score(&self, detections: &Vec<PiiDetection>) -> (r: u32)
        ensures
            r as int == score_spec(detections.deep_view()),
    {
        calculate_compliance_score(detections)
    }

    /// Produces the advisory lines for the detection set: one affirmative
    /// line when it is empty, else one counted line per distinct category
    /// present and two fixed closing recommendations.
    pub fn generate_recommendations(&self, detections: &Vec<PiiDetection>) -> (r: Vec<String>)
        ensures
            r.deep_view() == enforcer_recommendations_spec(detections.deep_view()),
    {
        generate_enforcer_recommendations(detections)
    }

    /// The agent's identifier.
    pub fn agent_id(&self) -> (r: &str)
        ensures
            r@ == self.agent_id_view(),
    {
        self.agent_id.as_str()
    }
}

impl Default for ComplianceEnforcerAgent {
    /// Same as [`ComplianceEnforcerAgent::new`].
    fn default() -> (r: ComplianceEnforcerAgent)
        ensures
            r.agent_id_view() == "compliance-enforcer-001"@,
    {
        ComplianceEnforcerAgent::new()
    }
}

} // verus!
