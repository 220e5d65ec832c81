//! The pattern catalog and classifier: owns one compiled regex per built-in
//! pattern, scans text with all of them, and keeps a confidence floor that
//! training can raise.

use vstd::prelude::*;

use crate::detector::{
    catalog_of, cc_pattern_spec, email_pattern_spec, ip_pattern_spec, phone_paren_pattern_spec,
    phone_pattern_spec, scan_spec, scan_with_patterns, ssn_pattern_spec,
};
use crate::patterns::{compile_pattern, regex_compiles};
use crate::types::{PiiDetection, PiiType, TrainingData};

verus! {

/// The classifier's fixed catalog: category and pattern text of every
/// pattern it scans with, in scan order.
pub open spec fn classifier_catalog() -> Seq<(PiiType, Seq<char>)> {
    seq![
        (PiiType::Email, email_pattern_spec()),
        (PiiType::PhoneNumber, phone_pattern_spec()),
        (PiiType::PhoneNumber, phone_paren_pattern_spec()),
        (PiiType::SocialSecurityNumber, ssn_pattern_spec()),
        (PiiType::CreditCardNumber, cc_pattern_spec()),
        (PiiType::IpAddress, ip_pattern_spec()),
    ]
}

/// Whether every built-in pattern of the classifier's catalog compiles.
/// Construction succeeds exactly when this holds; a failure is a
/// programming error in a fixed literal, fatal at start-up.
pub open spec fn classifier_patterns_compile() -> bool {
    &&& regex_compiles(email_pattern_spec())
    &&& regex_compiles(phone_pattern_spec())
    &&& regex_compiles(phone_paren_pattern_spec())
    &&& regex_compiles(ssn_pattern_spec())
    &&& regex_compiles(cc_pattern_spec())
    &&& regex_compiles(ip_pattern_spec())
}

/// Regex-based PII classifier. Stateless after construction but for a
/// confidence floor that training can raise; safe to share across readers.
pub struct PiiClassifier {
    patterns: Vec<(PiiType, regex::bytes::Regex)>,
    confidence_threshold: u32,
}

impl PiiClassifier {
    /// The classifier holds compiled forms of exactly its fixed catalog and
    /// a confidence floor within [0, 10000].
    pub closed spec fn wf(&self) -> bool {
        &&& catalog_of(self.patterns@) == classifier_catalog()
        &&& self.confidence_threshold <= 10000
    }

    /// The classifier's confidence floor, in basis points.
    pub closed spec fn threshold_spec(&self) -> int {
        self.confidence_threshold as int
    }

    /// Compiles the built-in patterns. Succeeds exactly when every built-in
    /// pattern compiles; `None` is a failed built-in pattern, which callers
    /// treat as fatal at start-up.
    pub fn new() -> (r: Option<PiiClassifier>)
        ensures
            r is Some <==> classifier_patterns_compile(),
            r matches Some(c) ==> c.wf() && c.threshold_spec() == 7000,
    {
        let re_email = match compile_pattern(r"\b[A-Za-z0-9._%+-]+@[A-Za-z0-9.-]+\.[A-Z|a-z]{2,}\b") {
            Some(re) => re,
            None => {
                return None;
            },
        };
        let re_phone = match compile_pattern(r"\b\d{3}[-.]?\d{3}[-.]?\d{4}\b") {
            Some(re) => re,
            None => {
                return None;
            },
        };
        let re_phone_paren = match compile_pattern(r"\b\(\d{3}\)\s*\d{3}[-.]?\d{4}\b") {
            Some(re) => re,
            None => {
                return None;
            },
        };
        let re_ssn = match compile_pattern(r"\b\d{3}-\d{2}-\d{4}\b") {
            Some(re) => re,
            None => {
                return None;
            },
        };
        let re_cc = match compile_pattern(r"\b\d{4}[- ]?\d{4}[- ]?\d{4}[- ]?\d{4}\b") {
            Some(re) => re,
            None => {
                return None;
            },
        };
        let re_ip = match compile_pattern(r"\b\d{1,3}\.\d{1,3}\.\d{1,3}\.\d{1,3}\b") {
            Some(re) => re,
            None => {
                return None;
            },
        };
        let mut patterns: Vec<(PiiType, regex::bytes::Regex)> = Vec::new();
        patterns.push((PiiType::Email, re_email));
        patterns.push((PiiType::PhoneNumber, re_phone));
        patterns.push((PiiType::PhoneNumber, re_phone_paren));
        patterns.push((PiiType::SocialSecurityNumber, re_ssn));
        patterns.push((PiiType::CreditCardNumber, re_cc));
        patterns.push((PiiType::IpAddress, re_ip));
        proof {
            assert(catalog_of(patterns@) =~= classifier_catalog());
        }
        Some(PiiClassifier { patterns, confidence_threshold: 7000 })
    }

    /// Scans `text` with every catalog pattern: one detection per match,
    /// ordered by start offset, each with its category's base confidence
    /// raised to the confidence floor when that is higher. Empty or
    /// non-matching text yields an empty sequence, never an error.
    pub fn detect_pii(&self, text: &Vec<u8>) -> (r: Vec<PiiDetection>)
        requires
            self.wf(),
        ensures
            r.deep_view() == scan_spec(classifier_catalog(), self.threshold_spec(), text@),
    {
        scan_with_patterns(&self.patterns, self.confidence_threshold, text)
    }

    /// Calibrates the confidence floor: when any sample carries an
    /// annotation the floor rises to 8000, otherwise it is unchanged.
    /// The patterns themselves are never altered.
    pub fn train(&mut self, training_data: &Vec<TrainingData>, _epochs: usize)
        requires
            old(self).wf(),
        ensures
            final(self).wf(),
            (exists|k: int|
                0 <= k < training_data@.len() && (#[trigger] training_data@[k]).pii_annotations@.len()
                    > 0) ==> final(self).threshold_spec() == 8000,
            !(exists|k: int|
                0 <= k < training_data@.len() && (#[trigger] training_data@[k]).pii_annotations@.len()
                    > 0) ==> final(self).threshold_spec() == old(self).threshold_spec(),
    {
        let mut any: bool = false;
        let mut i: usize = 0;
        while i < training_data.len()
            invariant
                0 <= i <= training_data@.len(),
                any == (exists|k: int|
                    0 <= k < i && (#[trigger] training_data@[k]).pii_annotations@.len() > 0),
            decreases training_data@.len() - i,
        {
            if training_data[i].pii_annotations.len() > 0 {
                any = true;
                proof {
                    assert((training_data@[i as int]).pii_annotations@.len() > 0);
                }
            }
            i = i + 1;
        }
        if any {
            self.confidence_threshold = 8000;
        }
    }

    /// Persisting the classifier is a no-op: it carries no learned state
    /// beyond the confidence floor and is rebuilt from its built-in catalog.
    pub fn save(&self, _path: &str) {
    }

    /// Loading ignores the path and rebuilds the classifier from its
    /// built-in catalog, succeeding exactly when construction does.
    pub fn load(_path: &str) -> (r: Option<PiiClassifier>)
        ensures
            r is Some <==> classifier_patterns_compile(),
            r matches Some(c) ==> c.wf() && c.threshold_spec() == 7000,
    {
        PiiClassifier::new()
    }
}

} // verus!
