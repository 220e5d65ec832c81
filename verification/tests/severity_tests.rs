use pii_compliance_agent::severity::{max_severity, severity_of_category};
use pii_compliance_agent::types::{PiiDetection, PiiType, Severity};

fn det(pii_type: PiiType) -> PiiDetection {
    PiiDetection {
        pii_type,
        confidence: 9000,
        start_pos: 0,
        end_pos: 1,
        value: b"x".to_vec(),
    }
}

#[test]
fn category_severities() {
    assert_eq!(
        severity_of_category(PiiType::SocialSecurityNumber),
        Severity::Critical
    );
    assert_eq!(
        severity_of_category(PiiType::CreditCardNumber),
        Severity::High
    );
    assert_eq!(severity_of_category(PiiType::Email), Severity::Medium);
    assert_eq!(severity_of_category(PiiType::PhoneNumber), Severity::Medium);
    assert_eq!(severity_of_category(PiiType::Address), Severity::Low);
    assert_eq!(severity_of_category(PiiType::IpAddress), Severity::Medium);
    assert_eq!(severity_of_category(PiiType::Unknown), Severity::Medium);
}

#[test]
fn max_severity_of_ssn_is_critical() {
    let dets = vec![det(PiiType::SocialSecurityNumber)];
    assert_eq!(max_severity(&dets), Severity::Critical);
}

#[test]
fn max_severity_of_email_and_phone_is_medium() {
    let dets = vec![det(PiiType::Email), det(PiiType::PhoneNumber)];
    assert_eq!(max_severity(&dets), Severity::Medium);
}

#[test]
fn max_severity_of_empty_is_low() {
    assert_eq!(max_severity(&Vec::new()), Severity::Low);
}

#[test]
fn max_severity_of_credit_card_is_high() {
    let dets = vec![det(PiiType::Email), det(PiiType::CreditCardNumber)];
    assert_eq!(max_severity(&dets), Severity::High);
}

#[test]
fn max_severity_ignores_order() {
    let forward = vec![
        det(PiiType::Address),
        det(PiiType::Email),
        det(PiiType::SocialSecurityNumber),
    ];
    let backward = vec![
        det(PiiType::SocialSecurityNumber),
        det(PiiType::Email),
        det(PiiType::Address),
    ];
    assert_eq!(max_severity(&forward), max_severity(&backward));
    assert_eq!(max_severity(&forward), Severity::Critical);
}
