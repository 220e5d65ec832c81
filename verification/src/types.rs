//! Data types shared by the whole pipeline: PII categories, detections,
//! compliance results, chat messages, sessions and violations, together with
//! their mathematical models.
//!
//! Confidences and compliance scores are fixed-point values in basis points:
//! 10000 stands for 1.0, 9000 for 0.90. Text is carried as bytes, and all
//! detection offsets are byte offsets into the original text.

use vstd::prelude::*;

verus! {

/// The closed set of PII categories a detection can fall under.
#[derive(Clone, Copy, Debug, PartialEq, Eq, Hash, Structural)]
pub enum PiiType {
    Email,
    PhoneNumber,
    SocialSecurityNumber,
    CreditCardNumber,
    IpAddress,
    DateOfBirth,
    Address,
    Name,
    Unknown,
}

/// Kind of a compliance violation recorded against a session.
#[derive(Clone, Copy, Debug, PartialEq, Eq, Hash, Structural)]
pub enum ViolationType {
    PiiExposure,
    DataRetention,
    ConsentMissing,
    UnauthorizedAccess,
    DataMinimization,
}

/// Severity of a single violation, totally ordered Low < Medium < High < Critical.
#[derive(Clone, Copy, Debug, PartialEq, Eq, Hash, Structural)]
pub enum Severity {
    Low,
    Medium,
    High,
    Critical,
}

/// Aggregate risk rating of a session, totally ordered
/// Safe < Low < Medium < High < Critical. Always derived from the recorded
/// violations, never set directly by callers.
#[derive(Clone, Copy, Debug, PartialEq, Eq, Hash, Structural)]
pub enum RiskLevel {
    Safe,
    Low,
    Medium,
    High,
    Critical,
}

/// Tags for the message envelopes the agents exchange at the transport layer.
#[derive(Clone, Copy, Debug, PartialEq, Eq, Hash, Structural)]
pub enum MessageType {
    PiiScanRequest,
    PiiScanResult,
    ComplianceEnforcementRequest,
    ComplianceEnforcementResult,
    LlmReasoningResult,
    ChatMessageReceived,
    ChatSessionUpdate,
    ComplianceViolationAlert,
    Error,
}

/// Position of `Severity` in the total order Low < Medium < High < Critical.
pub open spec fn severity_rank_spec(s: Severity) -> int {
    match s {
        Severity::Low => 0,
        Severity::Medium => 1,
        Severity::High => 2,
        Severity::Critical => 3,
    }
}

/// Executable counterpart of [`severity_rank_spec`].
pub fn severity_rank(s: Severity) -> (r: u8)
    ensures
        r as int == severity_rank_spec(s),
{
    match s {
        Severity::Low => 0,
        Severity::Medium => 1,
        Severity::High => 2,
        Severity::Critical => 3,
    }
}

/// Position of `RiskLevel` in the total order Safe < Low < Medium < High < Critical.
pub open spec fn risk_rank_spec(r: RiskLevel) -> int {
    match r {
        RiskLevel::Safe => 0,
        RiskLevel::Low => 1,
        RiskLevel::Medium => 2,
        RiskLevel::High => 3,
        RiskLevel::Critical => 4,
    }
}

/// Executable counterpart of [`risk_rank_spec`].
pub fn risk_rank(r: RiskLevel) -> (k: u8)
    ensures
        k as int == risk_rank_spec(r),
{
    match r {
        RiskLevel::Safe => 0,
        RiskLevel::Low => 1,
        RiskLevel::Medium => 2,
        RiskLevel::High => 3,
        RiskLevel::Critical => 4,
    }
}

/// One instance of matched PII: its category, a confidence in basis points,
/// the matched byte span of the original text, and the matched bytes.
pub struct PiiDetection {
    pub pii_type: PiiType,
    pub confidence: u32,
    pub start_pos: usize,
    pub end_pos: usize,
    pub value: Vec<u8>,
}

/// Mathematical model of a [`PiiDetection`].
#[verifier::ext_equal]
pub ghost struct DetectionModel {
    pub pii_type: PiiType,
    pub confidence: int,
    pub start_pos: int,
    pub end_pos: int,
    pub value: Seq<u8>,
}

impl View for PiiDetection {
    type V = DetectionModel;

    open spec fn view(&self) -> DetectionModel {
        DetectionModel {
            pii_type: self.pii_type,
            confidence: self.confidence as int,
            start_pos: self.start_pos as int,
            end_pos: self.end_pos as int,
            value: self.value@,
        }
    }
}

impl DeepView for PiiDetection {
    type V = DetectionModel;

    open spec fn deep_view(&self) -> DetectionModel {
        self.view()
    }
}

impl DetectionModel {
    /// A detection is well formed for a text of length `text_len` when its
    /// span lies strictly inside the text, covers at least one byte, records
    /// the bytes of that span, and its confidence lies in [0, 10000].
    pub open spec fn wf_for(self, text: Seq<u8>) -> bool {
        &&& 0 <= self.start_pos < self.end_pos <= text.len()
        &&& self.value == text.subrange(self.start_pos, self.end_pos)
        &&& 0 <= self.confidence <= 10000
    }
}

/// Outcome of scanning one text: the original and redacted bytes, every
/// detection, the compliance score in basis points, and advisory lines.
pub struct ComplianceResult {
    pub original_text: Vec<u8>,
    pub redacted_text: Vec<u8>,
    pub detected_pii: Vec<PiiDetection>,
    pub compliance_score: u32,
    pub recommendations: Vec<String>,
}

/// Mathematical model of a [`ComplianceResult`].
#[verifier::ext_equal]
pub ghost struct ResultModel {
    pub original_text: Seq<u8>,
    pub redacted_text: Seq<u8>,
    pub detected_pii: Seq<DetectionModel>,
    pub compliance_score: int,
    pub recommendations: Seq<Seq<char>>,
}

impl DeepView for ComplianceResult {
    type V = ResultModel;

    open spec fn deep_view(&self) -> ResultModel {
        ResultModel {
            original_text: self.original_text@,
            redacted_text: self.redacted_text@,
            detected_pii: self.detected_pii.deep_view(),
            compliance_score: self.compliance_score as int,
            recommendations: self.recommendations.deep_view(),
        }
    }
}

/// One message of a conversation. `content` holds the raw bytes of the text;
/// `timestamp` is milliseconds since the Unix epoch.
pub struct ChatMessage {
    pub user_id: String,
    pub session_id: String,
    pub message_id: String,
    pub timestamp: i64,
    pub content: Vec<u8>,
    pub is_user_message: bool,
}

/// Mathematical model of a [`ChatMessage`].
#[verifier::ext_equal]
pub ghost struct MessageModel {
    pub user_id: Seq<char>,
    pub session_id: Seq<char>,
    pub message_id: Seq<char>,
    pub timestamp: int,
    pub content: Seq<u8>,
    pub is_user_message: bool,
}

impl DeepView for ChatMessage {
    type V = MessageModel;

    open spec fn deep_view(&self) -> MessageModel {
        MessageModel {
            user_id: self.user_id@,
            session_id: self.session_id@,
            message_id: self.message_id@,
            timestamp: self.timestamp as int,
            content: self.content@,
            is_user_message: self.is_user_message,
        }
    }
}

/// A violation recorded against a session: what kind, how severe, a human
/// readable message, when it was recorded, and the detections behind it.
pub struct ComplianceViolation {
    pub violation_type: ViolationType,
    pub severity: Severity,
    pub message: Vec<u8>,
    pub timestamp: i64,
    pub pii_detected: Vec<PiiDetection>,
}

/// Mathematical model of a [`ComplianceViolation`].
#[verifier::ext_equal]
pub ghost struct ViolationModel {
    pub violation_type: ViolationType,
    pub severity: Severity,
    pub message: Seq<u8>,
    pub timestamp: int,
    pub pii_detected: Seq<DetectionModel>,
}

impl DeepView for ComplianceViolation {
    type V = ViolationModel;

    open spec fn deep_view(&self) -> ViolationModel {
        ViolationModel {
            violation_type: self.violation_type,
            severity: self.severity,
            message: self.message@,
            timestamp: self.timestamp as int,
            pii_detected: self.pii_detected.deep_view(),
        }
    }
}

/// A conversation: its identifiers, the append-only message log, the
/// append-only violation log, and the derived risk level.
pub struct ChatSession {
    pub session_id: String,
    pub user_id: String,
    pub messages: Vec<ChatMessage>,
    pub compliance_violations: Vec<ComplianceViolation>,
    pub risk_level: RiskLevel,
}

/// Mathematical model of a [`ChatSession`].
#[verifier::ext_equal]
pub ghost struct SessionModel {
    pub session_id: Seq<char>,
    pub user_id: Seq<char>,
    pub messages: Seq<MessageModel>,
    pub compliance_violations: Seq<ViolationModel>,
    pub risk_level: RiskLevel,
}

impl DeepView for ChatSession {
    type V = SessionModel;

    open spec fn deep_view(&self) -> SessionModel {
        SessionModel {
            session_id: self.session_id@,
            user_id: self.user_id@,
            messages: self.messages.deep_view(),
            compliance_violations: self.compliance_violations.deep_view(),
            risk_level: self.risk_level,
        }
    }
}

/// One annotated text used to calibrate the classifier.
pub struct TrainingData {
    pub text: String,
    pub pii_annotations: Vec<PiiDetection>,
}

/// Copies a byte vector.
pub fn copy_bytes(v: &Vec<u8>) -> (r: Vec<u8>)
    ensures
        r@ == v@,
{
    let mut r: Vec<u8> = Vec::new();
    let mut i: usize = 0;
    while i < v.len()
        invariant
            0 <= i <= v@.len(),
            r@ == v@.take(i as int),
        decreases v@.len() - i,
    {
        r.push(v[i]);
        i = i + 1;
    }
    assert(v@.take(v@.len() as int) =~= v@);
    r
}

/// Appends a detection to a vector; the vector's model grows by the
/// detection's model.
pub fn push_detection(v: &mut Vec<PiiDetection>, d: PiiDetection)
    ensures
        final(v).deep_view() == old(v).deep_view().push(d@),
{
    let ghost prev = v.deep_view();
    let ghost prev_sh = v@;
    v.push(d);
    proof {
        assert(v@ == prev_sh.push(d));
        assert(prev.len() == prev_sh.len());
        assert forall|j: int| 0 <= j < v@.len() implies v.deep_view()[j] == prev.push(d@)[j] by {
            if j < prev_sh.len() {
                assert(prev_sh.push(d)[j] == prev_sh[j]);
            } else {
                assert(prev_sh.push(d)[j] == d);
            }
        }
        assert(v.deep_view() =~= prev.push(d@));
    }
}

/// Copies a detection, field by field.
pub fn copy_detection(d: &PiiDetection) -> (r: PiiDetection)
    ensures
        r@ == d@,
{
    PiiDetection {
        pii_type: d.pii_type,
        confidence: d.confidence,
        start_pos: d.start_pos,
        end_pos: d.end_pos,
        value: copy_bytes(&d.value),
    }
}

/// Copies a whole detection list.
pub fn copy_detections(v: &Vec<PiiDetection>) -> (r: Vec<PiiDetection>)
    ensures
        r.deep_view() == v.deep_view(),
{
    let ghost m = v.deep_view();
    let mut r: Vec<PiiDetection> = Vec::new();
    let mut i: usize = 0;
    while i < v.len()
        invariant
            0 <= i <= m.len(),
            m.len() == v@.len(),
            m == v.deep_view(),
            r.deep_view() == m.take(i as int),
        decreases m.len() - i,
    {
        push_detection(&mut r, copy_detection(&v[i]));
        proof {
            assert(m[i as int] == v@[i as int]@);
            assert(m.take(i + 1) =~= m.take(i as int).push(m[i as int]));
        }
        i = i + 1;
    }
    assert(m.take(m.len() as int) =~= m);
    r
}

/// Appends a message to a log; the log's model grows by the message's model.
pub fn push_message(v: &mut Vec<ChatMessage>, m: ChatMessage)
    ensures
        final(v).deep_view() == old(v).deep_view().push(m.deep_view()),
{
    let ghost prev = v.deep_view();
    let ghost prev_sh = v@;
    let ghost md = m.deep_view();
    v.push(m);
    proof {
        assert(v@ == prev_sh.push(m));
        assert(prev.len() == prev_sh.len());
        assert forall|j: int| 0 <= j < v@.len() implies v.deep_view()[j] == prev.push(md)[j] by {
            if j < prev_sh.len() {
                assert(prev_sh.push(m)[j] == prev_sh[j]);
            } else {
                assert(prev_sh.push(m)[j] == m);
            }
        }
        assert(v.deep_view() =~= prev.push(md));
    }
}

/// Appends a violation to a log; the log's model grows by its model.
pub fn push_violation(v: &mut Vec<ComplianceViolation>, w: ComplianceViolation)
    ensures
        final(v).deep_view() == old(v).deep_view().push(w.deep_view()),
{
    let ghost prev = v.deep_view();
    let ghost prev_sh = v@;
    let ghost wd = w.deep_view();
    v.push(w);
    proof {
        assert(v@ == prev_sh.push(w));
        assert(prev.len() == prev_sh.len());
        assert forall|j: int| 0 <= j < v@.len() implies v.deep_view()[j] == prev.push(wd)[j] by {
            if j < prev_sh.len() {
                assert(prev_sh.push(w)[j] == prev_sh[j]);
            } else {
                assert(prev_sh.push(w)[j] == w);
            }
        }
        assert(v.deep_view() =~= prev.push(wd));
    }
}

/// Appends a session to a store; the store's model grows by its model.
pub fn push_session(v: &mut Vec<ChatSession>, s: ChatSession)
    ensures
        final(v).deep_view() == old(v).deep_view().push(s.deep_view()),
{
    let ghost prev = v.deep_view();
    let ghost prev_sh = v@;
    let ghost sd = s.deep_view();
    v.push(s);
    proof {
        assert(v@ == prev_sh.push(s));
        assert(prev.len() == prev_sh.len());
        assert forall|j: int| 0 <= j < v@.len() implies v.deep_view()[j] == prev.push(sd)[j] by {
            if j < prev_sh.len() {
                assert(prev_sh.push(s)[j] == prev_sh[j]);
            } else {
                assert(prev_sh.push(s)[j] == s);
            }
        }
        assert(v.deep_view() =~= prev.push(sd));
    }
}

/// Copies a message, field by field.
pub fn copy_message(m: &ChatMessage) -> (r: ChatMessage)
    ensures
        r.deep_view() == m.deep_view(),
{
    ChatMessage {
        user_id: m.user_id.clone(),
        session_id: m.session_id.clone(),
        message_id: m.message_id.clone(),
        timestamp: m.timestamp,
        content: copy_bytes(&m.content),
        is_user_message: m.is_user_message,
    }
}

/// Copies a violation, field by field.
pub fn copy_violation(w: &ComplianceViolation) -> (r: ComplianceViolation)
    ensures
        r.deep_view() == w.deep_view(),
{
    ComplianceViolation {
        violation_type: w.violation_type,
        severity: w.severity,
        message: copy_bytes(&w.message),
        timestamp: w.timestamp,
        pii_detected: copy_detections(&w.pii_detected),
    }
}

/// Copies a whole session: identifiers, message log, violation log and risk.
pub fn copy_session(s: &ChatSession) -> (r: ChatSession)
    ensures
        r.deep_view() == s.deep_view(),
{
    let ghost mm = s.messages.deep_view();
    let mut messages: Vec<ChatMessage> = Vec::new();
    let mut i: usize = 0;
    while i < s.messages.len()
        invariant
            0 <= i <= mm.len(),
            mm.len() == s.messages@.len(),
            mm == s.messages.deep_view(),
            messages.deep_view() == mm.take(i as int),
        decreases mm.len() - i,
    {
        push_message(&mut messages, copy_message(&s.messages[i]));
        proof {
            assert(mm[i as int] == s.messages@[i as int].deep_view());
            assert(mm.take(i + 1) =~= mm.take(i as int).push(mm[i as int]));
        }
        i = i + 1;
    }
    assert(mm.take(mm.len() as int) =~= mm);
    let ghost vv = s.compliance_violations.deep_view();
    let mut violations: Vec<ComplianceViolation> = Vec::new();
    let mut j: usize = 0;
    while j < s.compliance_violations.len()
        invariant
            0 <= j <= vv.len(),
            vv.len() == s.compliance_violations@.len(),
            vv == s.compliance_violations.deep_view(),
            violations.deep_view() == vv.take(j as int),
        decreases vv.len() - j,
    {
        push_violation(&mut violations, copy_violation(&s.compliance_violations[j]));
        proof {
            assert(vv[j as int] == s.compliance_violations@[j as int].deep_view());
            assert(vv.take(j + 1) =~= vv.take(j as int).push(vv[j as int]));
        }
        j = j + 1;
    }
    assert(vv.take(vv.len() as int) =~= vv);
    let r = ChatSession {
        session_id: s.session_id.clone(),
        user_id: s.user_id.clone(),
        messages,
        compliance_violations: violations,
        risk_level: s.risk_level,
    };
    assert(r.deep_view() =~= s.deep_view());
    r
}

} // verus!
