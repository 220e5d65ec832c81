//! Canned annotated samples for calibrating the classifier and sample texts
//! for exercising the pipeline.

use vstd::prelude::*;
use vstd::string::StrSliceExecFns;
use vstd::string::StringExecFns;
use vstd::string::StringSliceAdditionalSpecFns;

use crate::scoring::push_line;
use crate::types::{PiiDetection, PiiType, TrainingData};

verus! {

/// Source of the canned demo samples.
pub struct DemoData;

/// Builds one annotated detection for a demo sample.
fn demo_detection(c: PiiType, confidence: u32, start_pos: usize, end_pos: usize, value: &str) -> (r:
    PiiDetection)
    ensures
        r@.pii_type == c,
        r@.confidence == confidence as int,
        r@.start_pos == start_pos as int,
        r@.end_pos == end_pos as int,
        r@.value == value.spec_bytes(),
{
    PiiDetection { pii_type: c, confidence, start_pos, end_pos, value: value.as_bytes_vec() }
}

impl DemoData {
    /// Builds the demo-data source.
    pub fn new() -> (r: DemoData)
    {
        DemoData
    }

    /// The annotated training samples: two email, two phone, one social
    /// security, one credit card, one IP address, one mixed and two clean
    /// texts.
    pub fn get_training_data(&self) -> (r: Vec<TrainingData>)
        ensures
            r@.len() == 10,
            forall|i: int| 0 <= i < 7 ==> (#[trigger] r@[i]).pii_annotations@.len() == 1,
            r@[7].pii_annotations@.len() == 3,
            r@[8].pii_annotations@.len() == 0,
            r@[9].pii_annotations@.len() == 0,
    {
        let mut samples: Vec<TrainingData> = Vec::new();
        let mut a1: Vec<PiiDetection> = Vec::new();
        a1.push(demo_detection(PiiType::Email, 9500, 13, 33, "john.doe@example.com"));
        samples.push(
            TrainingData {
                text: String::from_str("Contact us at john.doe@example.com for support"),
                pii_annotations: a1,
            },
        );
        let mut a2: Vec<PiiDetection> = Vec::new();
        a2.push(demo_detection(PiiType::Email, 9500, 12, 32, "alice.smith@gmail.com"));
        samples.push(
            TrainingData {
                text: String::from_str("My email is alice.smith@gmail.com"),
                pii_annotations: a2,
            },
        );
        let mut a3: Vec<PiiDetection> = Vec::new();
        a3.push(demo_detection(PiiType::PhoneNumber, 9000, 12, 25, "555-123-4567"));
        samples.push(
            TrainingData {
                text: String::from_str("Call me at 555-123-4567"),
                pii_annotations: a3,
            },
        );
        let mut a4: Vec<PiiDetection> = Vec::new();
        a4.push(demo_detection(PiiType::PhoneNumber, 9000, 7, 22, "(555) 987-6543"));
        samples.push(
            TrainingData {
                text: String::from_str("Phone: (555) 987-6543"),
                pii_annotations: a4,
            },
        );
        let mut a5: Vec<PiiDetection> = Vec::new();
        a5.push(demo_detection(PiiType::SocialSecurityNumber, 9500, 5, 18, "123-45-6789"));
        samples.push(
            TrainingData { text: String::from_str("SSN: 123-45-6789"), pii_annotations: a5 },
        );
        let mut a6: Vec<PiiDetection> = Vec::new();
        a6.push(demo_detection(PiiType::CreditCardNumber, 9000, 6, 27, "1234-5678-9012-3456"));
        samples.push(
            TrainingData {
                text: String::from_str("Card: 1234-5678-9012-3456"),
                pii_annotations: a6,
            },
        );
        let mut a7: Vec<PiiDetection> = Vec::new();
        a7.push(demo_detection(PiiType::IpAddress, 9000, 12, 24, "192.168.1.100"));
        samples.push(
            TrainingData {
                text: String::from_str("Server IP: 192.168.1.100"),
                pii_annotations: a7,
            },
        );
        let mut a8: Vec<PiiDetection> = Vec::new();
        a8.push(demo_detection(PiiType::Name, 8000, 8, 17, "John Doe"));
        a8.push(demo_detection(PiiType::Email, 9500, 25, 45, "john.doe@company.com"));
        a8.push(demo_detection(PiiType::PhoneNumber, 9000, 49, 62, "555-123-4567"));
        samples.push(
            TrainingData {
                text: String::from_str(
                    "Contact John Doe at john.doe@company.com or 555-123-4567",
                ),
                pii_annotations: a8,
            },
        );
        samples.push(
            TrainingData {
                text: String::from_str("This is a clean text with no PII"),
                pii_annotations: Vec::new(),
            },
        );
        samples.push(
            TrainingData {
                text: String::from_str("General information about our services"),
                pii_annotations: Vec::new(),
            },
        );
        samples
    }

    /// Six sample texts for the demo, from heavily PII-laden to clean.
    pub fn get_demo_texts(&self) -> (r: Vec<String>)
        ensures
            r.deep_view() == seq![
                "Contact Alice Johnson at alice.johnson@company.com or call 555-987-6543 for support"@,
                "Customer ID: 12345, SSN: 456-78-9012, Email: customer@example.com"@,
                "Payment details: Card 4111-1111-1111-1111, Exp: 12/25"@,
                "Server configuration: IP 10.0.0.1, Admin: admin@server.local"@,
                "This is a clean message with no personal information"@,
                "Meeting notes: Discuss project timeline with team@company.com"@,
            ],
    {
        let mut texts: Vec<String> = Vec::new();
        push_line(
            &mut texts,
            "Contact Alice Johnson at alice.johnson@company.com or call 555-987-6543 for support",
        );
        push_line(&mut texts, "Customer ID: 12345, SSN: 456-78-9012, Email: customer@example.com");
        push_line(&mut texts, "Payment details: Card 4111-1111-1111-1111, Exp: 12/25");
        push_line(&mut texts, "Server configuration: IP 10.0.0.1, Admin: admin@server.local");
        push_line(&mut texts, "This is a clean message with no personal information");
        push_line(&mut texts, "Meeting notes: Discuss project timeline with team@company.com");
        assert(texts.deep_view() =~= seq![
            "Contact Alice Johnson at alice.johnson@company.com or call 555-987-6543 for support"@,
            "Customer ID: 12345, SSN: 456-78-9012, Email: customer@example.com"@,
            "Payment details: Card 4111-1111-1111-1111, Exp: 12/25"@,
            "Server configuration: IP 10.0.0.1, Admin: admin@server.local"@,
            "This is a clean message with no personal information"@,
            "Meeting notes: Discuss project timeline with team@company.com"@,
        ]);
        texts
    }
}

} // verus!
