use pii_compliance_agent::chatbot_compliance::ChatbotComplianceAgent;
use pii_compliance_agent::types::{risk_rank, ChatMessage, RiskLevel, Severity, ViolationType};

fn agent() -> ChatbotComplianceAgent {
    ChatbotComplianceAgent::new().expect("built-in patterns must compile")
}

fn message(session_id: &str, n: u64, content: &str) -> ChatMessage {
    ChatMessage {
        user_id: "user_123".to_string(),
        session_id: session_id.to_string(),
        message_id: format!("msg-{n}"),
        timestamp: 0,
        content: content.as_bytes().to_vec(),
        is_user_message: true,
    }
}

#[test]
fn ssn_message_drives_session_critical() {
    let mut a = agent();
    let result = a.process_chat_message(message("s-1", 1, "SSN: 123-45-6789"));
    assert_eq!(result.redacted_text, b"SSN: [SSN]".to_vec());
    assert_eq!(result.compliance_score, 8500);
    let session = a.get_session(&"s-1".to_string()).expect("session exists");
    assert_eq!(session.risk_level, RiskLevel::Critical);
    assert_eq!(session.messages.len(), 1);
    assert_eq!(session.compliance_violations.len(), 1);
    assert_eq!(
        session.compliance_violations[0].severity,
        Severity::Critical
    );
    assert_eq!(
        session.compliance_violations[0].violation_type,
        ViolationType::PiiExposure
    );
}

#[test]
fn high_violations_escalate_after_third() {
    let mut a = agent();
    let card = "My card number is 4111-1111-1111-1111";
    a.process_chat_message(message("s-2", 1, card));
    let after_one = a.get_session(&"s-2".to_string()).unwrap();
    assert_eq!(after_one.risk_level, RiskLevel::Medium);
    a.process_chat_message(message("s-2", 2, card));
    let after_two = a.get_session(&"s-2".to_string()).unwrap();
    assert_eq!(after_two.risk_level, RiskLevel::Medium);
    a.process_chat_message(message("s-2", 3, card));
    let after_three = a.get_session(&"s-2".to_string()).unwrap();
    assert_eq!(after_three.risk_level, RiskLevel::High);
    assert_eq!(after_three.compliance_violations.len(), 3);
    assert_eq!(after_three.messages.len(), 3);
}

#[test]
fn clean_messages_keep_session_safe() {
    let mut a = agent();
    a.process_chat_message(message("s-3", 1, "Hello there"));
    a.process_chat_message(message("s-3", 2, "Just checking in"));
    let session = a.get_session(&"s-3".to_string()).unwrap();
    assert_eq!(session.risk_level, RiskLevel::Safe);
    assert_eq!(session.messages.len(), 2);
    assert!(session.compliance_violations.is_empty());
}

#[test]
fn risk_never_decreases_across_ingests() {
    let mut a = agent();
    let contents = [
        "Nothing sensitive",
        "Mail me: a@b.co",
        "Call 555-123-4567",
        "SSN: 123-45-6789",
        "Back to harmless chatter",
    ];
    let mut previous = 0;
    for (i, content) in contents.iter().enumerate() {
        a.process_chat_message(message("s-4", i as u64, content));
        let session = a.get_session(&"s-4".to_string()).unwrap();
        let current = risk_rank(session.risk_level);
        assert!(current >= previous);
        previous = current;
    }
    assert_eq!(previous, 4);
}

#[test]
fn email_only_session_stays_low() {
    let mut a = agent();
    a.process_chat_message(message("s-5", 1, "Mail me: a@b.co"));
    let session = a.get_session(&"s-5".to_string()).unwrap();
    // one Medium-severity violation: neither Critical nor High
    assert_eq!(session.risk_level, RiskLevel::Low);
}

#[test]
fn sessions_are_isolated() {
    let mut a = agent();
    a.process_chat_message(message("s-6", 1, "SSN: 123-45-6789"));
    a.process_chat_message(message("s-7", 1, "Nothing sensitive"));
    assert_eq!(
        a.get_session(&"s-6".to_string()).unwrap().risk_level,
        RiskLevel::Critical
    );
    assert_eq!(
        a.get_session(&"s-7".to_string()).unwrap().risk_level,
        RiskLevel::Safe
    );
}

#[test]
fn unknown_session_is_absent() {
    let a = agent();
    assert!(a.get_session(&"never-seen".to_string()).is_none());
}

#[test]
fn violation_records_message_content() {
    let mut a = agent();
    a.process_chat_message(message("s-8", 1, "SSN: 123-45-6789"));
    let session = a.get_session(&"s-8".to_string()).unwrap();
    let violation = &session.compliance_violations[0];
    assert_eq!(
        violation.message,
        b"PII detected in message: SSN: 123-45-6789".to_vec()
    );
    assert_eq!(violation.pii_detected.len(), 1);
}

#[test]
fn result_preserves_original_text() {
    let mut a = agent();
    let result = a.process_chat_message(message("s-9", 1, "Call me at 555-123-4567"));
    assert_eq!(result.original_text, b"Call me at 555-123-4567".to_vec());
    assert_eq!(result.redacted_text, b"Call me at [PHONE]".to_vec());
    assert_eq!(result.detected_pii.len(), 1);
    assert_eq!(result.compliance_score, 8000);
    assert_eq!(
        result.recommendations,
        vec![
            "⚠️  PhoneNumber detected (Severity: Medium) - Consider redaction".to_string(),
            "🔒 Apply real-time redaction".to_string(),
            "📋 Log compliance violation".to_string(),
        ]
    );
    assert_eq!(a.agent_id(), "chatbot-compliance-001");
}
