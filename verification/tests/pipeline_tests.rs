use pii_compliance_agent::chatbot_demo::ChatbotDemoData;
use pii_compliance_agent::compliance_enforcer::ComplianceEnforcerAgent;
use pii_compliance_agent::coordinator::AgentCoordinator;
use pii_compliance_agent::demo_data::DemoData;
use pii_compliance_agent::llm_reasoner::LlmReasonerAgent;
use pii_compliance_agent::pii_classifier::PiiClassifier;
use pii_compliance_agent::pii_scanner::PiiScannerAgent;
use pii_compliance_agent::types::{PiiType, RiskLevel};

fn pipeline_parts() -> (AgentCoordinator, PiiScannerAgent, ComplianceEnforcerAgent) {
    (
        AgentCoordinator::new(),
        PiiScannerAgent::new().expect("built-in patterns must compile"),
        ComplianceEnforcerAgent::new(),
    )
}

#[test]
fn pipeline_scans_redacts_and_scores_once() {
    let (coordinator, scanner, enforcer) = pipeline_parts();
    let text = b"Call me at 555-123-4567".to_vec();
    let result = coordinator.run_compliance_pipeline(&text, &scanner, &enforcer);
    assert_eq!(result.original_text, text);
    assert_eq!(result.redacted_text, b"Call me at [PHONE]".to_vec());
    assert_eq!(result.detected_pii.len(), 1);
    assert_eq!(result.detected_pii[0].pii_type, PiiType::PhoneNumber);
    assert_eq!(result.compliance_score, 8000);
    assert_eq!(result.recommendations.len(), 3);
    assert_eq!(
        result.recommendations[0],
        "⚠️  Found 1 phonenumber items - consider redaction or masking"
    );
    assert_eq!(
        result.recommendations[1],
        "🔒 Apply appropriate data protection measures"
    );
    assert_eq!(result.recommendations[2], "📋 Review data handling policies");
}

#[test]
fn pipeline_on_empty_input() {
    let (coordinator, scanner, enforcer) = pipeline_parts();
    let text = Vec::new();
    let result = coordinator.run_compliance_pipeline(&text, &scanner, &enforcer);
    assert!(result.detected_pii.is_empty());
    assert_eq!(result.compliance_score, 10000);
    assert_eq!(result.redacted_text, text);
    assert_eq!(result.recommendations.len(), 1);
    assert_eq!(
        result.recommendations[0],
        "✅ No PII detected - text is compliant"
    );
}

#[test]
fn pipeline_on_clean_text() {
    let (coordinator, scanner, enforcer) = pipeline_parts();
    let text = b"General information about our services".to_vec();
    let result = coordinator.run_compliance_pipeline(&text, &scanner, &enforcer);
    assert_eq!(result.compliance_score, 10000);
    assert_eq!(result.redacted_text, text);
}

#[test]
fn replacement_tokens_do_not_match_their_own_category() {
    let c = PiiClassifier::new().unwrap();
    let tokens: [(&[u8], PiiType); 9] = [
        (b"[EMAIL]", PiiType::Email),
        (b"[PHONE]", PiiType::PhoneNumber),
        (b"[SSN]", PiiType::SocialSecurityNumber),
        (b"[CC]", PiiType::CreditCardNumber),
        (b"[IP]", PiiType::IpAddress),
        (b"[DOB]", PiiType::DateOfBirth),
        (b"[ADDRESS]", PiiType::Address),
        (b"[NAME]", PiiType::Name),
        (b"[PII]", PiiType::Unknown),
    ];
    for (token, category) in tokens {
        let dets = c.detect_pii(&token.to_vec());
        assert!(
            dets.iter().all(|d| d.pii_type != category),
            "token must not match its own category"
        );
    }
}

#[test]
fn rescanning_redacted_text_finds_nothing() {
    let (coordinator, scanner, enforcer) = pipeline_parts();
    for text in [
        b"Call me at 555-123-4567".to_vec(),
        b"SSN: 123-45-6789".to_vec(),
        b"Mail me: a@b.co".to_vec(),
    ] {
        let result = coordinator.run_compliance_pipeline(&text, &scanner, &enforcer);
        let rescan = coordinator.run_compliance_pipeline(&result.redacted_text, &scanner, &enforcer);
        assert!(rescan.detected_pii.is_empty());
    }
}

#[test]
fn demo_texts_run_through_the_pipeline() {
    let (coordinator, scanner, enforcer) = pipeline_parts();
    let demo = DemoData::new();
    let texts = demo.get_demo_texts();
    assert_eq!(texts.len(), 6);
    for text in &texts {
        let bytes = text.as_bytes().to_vec();
        let result = coordinator.run_compliance_pipeline(&bytes, &scanner, &enforcer);
        assert!(result.compliance_score <= 10000);
        assert!(!result.recommendations.is_empty());
        assert_eq!(result.original_text, bytes);
    }
}

#[test]
fn training_data_has_annotated_and_clean_samples() {
    let demo = DemoData::new();
    let data = demo.get_training_data();
    assert_eq!(data.len(), 10);
    assert!(data.iter().any(|d| !d.pii_annotations.is_empty()));
    assert!(data.iter().any(|d| d.pii_annotations.is_empty()));
    for sample in &data {
        for a in &sample.pii_annotations {
            assert!(a.start_pos < a.end_pos);
            assert!(a.confidence <= 10000);
        }
    }
}

#[test]
fn chat_scenarios_cover_the_risk_range() {
    let demo = ChatbotDemoData::new();
    let scenarios = demo.get_chat_scenarios();
    assert_eq!(scenarios.len(), 4);
    assert_eq!(scenarios[0].risk_level, RiskLevel::Medium);
    assert_eq!(scenarios[1].risk_level, RiskLevel::Critical);
    assert_eq!(scenarios[2].risk_level, RiskLevel::High);
    assert_eq!(scenarios[3].risk_level, RiskLevel::Safe);
    for scenario in &scenarios {
        assert_eq!(scenario.messages.len(), 3);
        assert!(scenario.compliance_violations.is_empty());
        for m in &scenario.messages {
            assert_eq!(m.session_id, scenario.session_id);
        }
    }
}

#[test]
fn scenario_messages_trigger_expected_detections() {
    let c = PiiClassifier::new().unwrap();
    let demo = ChatbotDemoData::new();
    let scenarios = demo.get_chat_scenarios();
    let healthcare = &scenarios[1];
    let dets = c.detect_pii(&healthcare.messages[2].content);
    assert!(dets
        .iter()
        .any(|d| d.pii_type == PiiType::SocialSecurityNumber));
    let clean = &scenarios[3];
    for m in &clean.messages {
        assert!(c.detect_pii(&m.content).is_empty());
    }
}

#[test]
fn reasoner_holds_script_path() {
    let default_reasoner = LlmReasonerAgent::new();
    assert_eq!(default_reasoner.agent_id(), "llm-reasoner-001");
    assert_eq!(default_reasoner.script_path(), "langchain_reasoner_mock.py");
    let custom = LlmReasonerAgent::with_script_path("elsewhere.py".to_string());
    assert_eq!(custom.script_path(), "elsewhere.py");
}

#[test]
fn agent_identifiers() {
    let (coordinator, scanner, enforcer) = pipeline_parts();
    let _ = coordinator;
    assert_eq!(scanner.agent_id(), "pii-scanner-001");
    assert_eq!(enforcer.agent_id(), "compliance-enforcer-001");
}
