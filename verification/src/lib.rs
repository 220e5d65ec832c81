//! Detection, redaction, scoring and session-risk aggregation for personally
//! identifiable information (PII) in chat text.
//!
//! Raw text enters a scanner, which produces a sequence of detections; the
//! detections flow to a redactor and a compliance scorer over the same
//! detection set, and a session store folds the result into a per-session
//! risk rating. All offsets are byte offsets into the original text.

pub mod chatbot_compliance;
pub mod chatbot_demo;
pub mod compliance_enforcer;
pub mod coordinator;
pub mod demo_data;
pub mod detector;
pub mod llm_reasoner;
pub mod ordering;
pub mod patterns;
pub mod pii_classifier;
pub mod pii_scanner;
pub mod redaction;
pub mod scoring;
pub mod session;
pub mod severity;
pub mod types;
