use pii_compliance_agent::compliance_enforcer::ComplianceEnforcerAgent;
use pii_compliance_agent::pii_classifier::PiiClassifier;
use pii_compliance_agent::types::{PiiDetection, PiiType};

fn det_with_confidence(pii_type: PiiType, confidence: u32) -> PiiDetection {
    PiiDetection {
        pii_type,
        confidence,
        start_pos: 0,
        end_pos: 1,
        value: b"x".to_vec(),
    }
}

#[test]
fn empty_detections_score_fully_compliant() {
    let enforcer = ComplianceEnforcerAgent::new();
    assert_eq!(enforcer.calculate_compliance_score(&Vec::new()), 10000);
}

#[test]
fn single_phone_detection_scores_point_eight() {
    let c = PiiClassifier::new().unwrap();
    let enforcer = ComplianceEnforcerAgent::new();
    let text = b"Call me at 555-123-4567".to_vec();
    let dets = c.detect_pii(&text);
    assert_eq!(enforcer.calculate_compliance_score(&dets), 8000);
}

#[test]
fn single_ssn_detection_scores_point_eight_five() {
    let c = PiiClassifier::new().unwrap();
    let enforcer = ComplianceEnforcerAgent::new();
    let text = b"SSN: 123-45-6789".to_vec();
    let dets = c.detect_pii(&text);
    assert_eq!(enforcer.calculate_compliance_score(&dets), 8500);
}

#[test]
fn penalty_caps_at_half() {
    let enforcer = ComplianceEnforcerAgent::new();
    let dets: Vec<PiiDetection> = (0..7)
        .map(|_| det_with_confidence(PiiType::Email, 9000))
        .collect();
    // average 9000, penalty capped at 5000
    assert_eq!(enforcer.calculate_compliance_score(&dets), 4000);
}

#[test]
fn score_floors_at_zero() {
    let enforcer = ComplianceEnforcerAgent::new();
    let dets: Vec<PiiDetection> = (0..6)
        .map(|_| det_with_confidence(PiiType::Email, 3000))
        .collect();
    assert_eq!(enforcer.calculate_compliance_score(&dets), 0);
}

#[test]
fn score_non_increasing_in_detection_count() {
    let enforcer = ComplianceEnforcerAgent::new();
    let mut previous = 10000u32;
    for n in 1..10usize {
        let dets: Vec<PiiDetection> = (0..n)
            .map(|_| det_with_confidence(PiiType::PhoneNumber, 9000))
            .collect();
        let score = enforcer.calculate_compliance_score(&dets);
        assert!(score <= previous);
        assert!(score <= 10000);
        previous = score;
    }
}

#[test]
fn mixed_confidences_average() {
    let enforcer = ComplianceEnforcerAgent::new();
    let dets = vec![
        det_with_confidence(PiiType::PhoneNumber, 9000),
        det_with_confidence(PiiType::SocialSecurityNumber, 9500),
    ];
    // average 9250, penalty 2000
    assert_eq!(enforcer.calculate_compliance_score(&dets), 7250);
}

#[test]
fn empty_detections_single_affirmative_recommendation() {
    let enforcer = ComplianceEnforcerAgent::new();
    let recs = enforcer.generate_recommendations(&Vec::new());
    assert_eq!(recs.len(), 1);
    assert_eq!(recs[0], "✅ No PII detected - text is compliant");
}

#[test]
fn recommendations_group_by_category_with_counts() {
    let enforcer = ComplianceEnforcerAgent::new();
    let dets = vec![
        det_with_confidence(PiiType::Email, 9000),
        det_with_confidence(PiiType::Email, 9000),
        det_with_confidence(PiiType::PhoneNumber, 9000),
    ];
    let recs = enforcer.generate_recommendations(&dets);
    // one counted line per distinct category plus two fixed closing lines
    assert_eq!(recs.len(), 4);
    assert_eq!(
        recs[0],
        "⚠️  Found 2 email items - consider redaction or masking"
    );
    assert_eq!(
        recs[1],
        "⚠️  Found 1 phonenumber items - consider redaction or masking"
    );
    assert_eq!(recs[2], "🔒 Apply appropriate data protection measures");
    assert_eq!(recs[3], "📋 Review data handling policies");
}

#[test]
fn recommendation_order_is_deterministic() {
    let enforcer = ComplianceEnforcerAgent::new();
    let dets = vec![
        det_with_confidence(PiiType::SocialSecurityNumber, 9500),
        det_with_confidence(PiiType::Email, 9000),
    ];
    let a = enforcer.generate_recommendations(&dets);
    let b = enforcer.generate_recommendations(&dets);
    assert_eq!(a, b);
    // categories surface in the fixed enumeration order, not input order
    assert_eq!(
        a[0],
        "⚠️  Found 1 email items - consider redaction or masking"
    );
    assert_eq!(
        a[1],
        "⚠️  Found 1 socialsecuritynumber items - consider redaction or masking"
    );
}

#[test]
fn counts_render_multidigit_numbers() {
    let enforcer = ComplianceEnforcerAgent::new();
    let dets: Vec<PiiDetection> = (0..12)
        .map(|_| det_with_confidence(PiiType::Email, 9000))
        .collect();
    let recs = enforcer.generate_recommendations(&dets);
    assert_eq!(
        recs[0],
        "⚠️  Found 12 email items - consider redaction or masking"
    );
}

#[test]
fn chatbot_empty_detections_single_affirmative_recommendation() {
    let agent = pii_compliance_agent::chatbot_compliance::ChatbotComplianceAgent::new()
        .expect("built-in patterns must compile");
    let recs = agent.generate_recommendations(&Vec::new());
    assert_eq!(recs.len(), 1);
    assert_eq!(recs[0], "✅ Message is compliant");
}

#[test]
fn chatbot_recommendations_group_by_category_with_severity() {
    let agent = pii_compliance_agent::chatbot_compliance::ChatbotComplianceAgent::new()
        .expect("built-in patterns must compile");
    let dets = vec![
        det_with_confidence(PiiType::SocialSecurityNumber, 9500),
        det_with_confidence(PiiType::SocialSecurityNumber, 9500),
        det_with_confidence(PiiType::Email, 9000),
    ];
    let recs = agent.generate_recommendations(&dets);
    // one line per distinct category plus the two fixed closing lines
    assert_eq!(recs.len(), 4);
    assert_eq!(
        recs[0],
        "⚠️  Email detected (Severity: Medium) - Consider redaction"
    );
    assert_eq!(
        recs[1],
        "⚠️  SocialSecurityNumber detected (Severity: Critical) - Consider redaction"
    );
    assert_eq!(recs[2], "🔒 Apply real-time redaction");
    assert_eq!(recs[3], "📋 Log compliance violation");
}
