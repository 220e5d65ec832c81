//! The chatbot compliance agent: scans each chat message for PII, redacts
//! and scores it, and folds the outcome into an owned session store whose
//! per-session risk level is always the one its violation log derives.

use vstd::prelude::*;
use vstd::string::StringExecFns;

use crate::detector::{
    catalog_of, cc_pattern_spec, email_pattern_spec, phone_pattern_spec, scan_spec,
    scan_with_patterns, ssn_pattern_spec,
};
use crate::patterns::{compile_pattern, regex_compiles};
use crate::redaction::{apply_redactions, redact_spec};
use crate::scoring::{
    calculate_compliance_score, chatbot_recommendations_spec, generate_chatbot_recommendations,
    score_spec,
};
use crate::session::{
    calculate_session_risk_level, find_session, fresh_session, ingest_into_session, ingest_spec,
    lemma_find_session_at, now_millis, session_wf, violation_message,
};
use crate::severity::max_severity;
use crate::types::{
    ChatMessage, ChatSession, ComplianceResult, ComplianceViolation, DetectionModel, PiiDetection,
    PiiType, RiskLevel, SessionModel, ViolationType, copy_bytes, copy_detections, copy_message,
    copy_session, push_message, push_session, push_violation,
};

verus! {

/// The chatbot agent's fixed catalog: email, phone, social security and
/// credit card patterns, in scan order.
pub open spec fn chatbot_catalog() -> Seq<(PiiType, Seq<char>)> {
    seq![
        (PiiType::Email, email_pattern_spec()),
        (PiiType::PhoneNumber, phone_pattern_spec()),
        (PiiType::SocialSecurityNumber, ssn_pattern_spec()),
        (PiiType::CreditCardNumber, cc_pattern_spec()),
    ]
}

/// The detections the chatbot agent finds in a message's content.
pub open spec fn chatbot_scan_spec(content: Seq<u8>) -> Seq<DetectionModel> {
    scan_spec(chatbot_catalog(), 0, content)
}

/// Whether every pattern of the chatbot catalog compiles. Construction
/// succeeds exactly when this holds; a failure is a programming error in a
/// fixed literal, fatal at start-up.
pub open spec fn chatbot_patterns_compile() -> bool {
    &&& regex_compiles(email_pattern_spec())
    &&& regex_compiles(phone_pattern_spec())
    &&& regex_compiles(ssn_pattern_spec())
    &&& regex_compiles(cc_pattern_spec())
}

/// Scans chat messages and aggregates compliance violations per session.
pub struct ChatbotComplianceAgent {
    agent_id: String,
    patterns: Vec<(PiiType, regex::bytes::Regex)>,
    active_sessions: Vec<ChatSession>,
}

impl ChatbotComplianceAgent {
    /// The compiled patterns match the fixed catalog, every stored session's
    /// recorded risk is the one its log derives, and session ids are unique.
    pub closed spec fn wf(&self) -> bool {
        &&& catalog_of(self.patterns@) == chatbot_catalog()
        &&& forall|i: int|
            0 <= i < self.active_sessions.deep_view().len() ==> session_wf(
                #[trigger] self.active_sessions.deep_view()[i],
            )
        &&& forall|i: int, j: int|
            0 <= i < j < self.active_sessions.deep_view().len()
                ==> (#[trigger] self.active_sessions.deep_view()[i]).session_id != (
            #[trigger] self.active_sessions.deep_view()[j]).session_id
    }

    /// The stored sessions, as their models.
    pub closed spec fn sessions_view(&self) -> Seq<SessionModel> {
        self.active_sessions.deep_view()
    }

    /// Exports the store invariant: a well-formed agent stores only
    /// well-formed sessions with pairwise distinct ids, so the session
    /// risk laws apply to what [`Self::sessions_view`] exposes.
    pub proof fn lemma_wf_sessions(&self)
        requires
            self.wf(),
        ensures
            forall|i: int|
                0 <= i < self.sessions_view().len() ==> session_wf(
                    #[trigger] self.sessions_view()[i],
                ),
            forall|i: int, j: int|
                0 <= i < j < self.sessions_view().len() ==> (#[trigger] self.sessions_view()[i]).session_id
                    != (#[trigger] self.sessions_view()[j]).session_id,
    {
    }

    /// The agent's identifier text.
    pub closed spec fn agent_id_view(&self) -> Seq<char> {
        self.agent_id@
    }

    /// Builds the agent with an empty session store. Succeeds exactly when
    /// every catalog pattern compiles; `None` is a failed built-in pattern,
    /// which callers treat as fatal at start-up.
    pub fn new() -> (r: Option<ChatbotComplianceAgent>)
        ensures
            r is Some <==> chatbot_patterns_compile(),
            r matches Some(a) ==> a.wf() && a.sessions_view() == Seq::<SessionModel>::empty()
                && a.agent_id_view() == "chatbot-compliance-001"@,
    {
        let re_email = match compile_pattern(r"\b[A-Za-z0-9._%+-]+@[A-Za-z0-9.-]+\.[A-Z|a-z]{2,}\b") {
            Some(re) => re,
            None => {
                return None;
            },
        };
        let re_phone = match compile_pattern(r"\b\d{3}[-.]?\d{3}[-.]?\d{4}\b") {
            Some(re) => re,
            None => {
                return None;
            },
        };
        let re_ssn = match compile_pattern(r"\b\d{3}-\d{2}-\d{4}\b") {
            Some(re) => re,
            None => {
                return None;
            },
        };
        let re_cc = match compile_pattern(r"\b\d{4}[- ]?\d{4}[- ]?\d{4}[- ]?\d{4}\b") {
            Some(re) => re,
            None => {
                return None;
            },
        };
        let mut patterns: Vec<(PiiType, regex::bytes::Regex)> = Vec::new();
        patterns.push((PiiType::Email, re_email));
        patterns.push((PiiType::PhoneNumber, re_phone));
        patterns.push((PiiType::SocialSecurityNumber, re_ssn));
        patterns.push((PiiType::CreditCardNumber, re_cc));
        proof {
            assert(catalog_of(patterns@) =~= chatbot_catalog());
        }
        let agent = ChatbotComplianceAgent {
            agent_id: String::from_str("chatbot-compliance-001"),
            patterns,
            active_sessions: Vec::new(),
        };
        assert(agent.active_sessions.deep_view() =~= Seq::<SessionModel>::empty());
        Some(agent)
    }

    /// The agent's identifier.
    pub fn agent_id(&self) -> (r: &str)
        ensures
            r@ == self.agent_id_view(),
    {
        self.agent_id.as_str()
    }

    /// Scans a message's content with the chatbot catalog.
    fn detect_pii_in_message(&self, content: &Vec<u8>) -> (r: Vec<PiiDetection>)
        requires
            self.wf(),
        ensures
            r.deep_view() == chatbot_scan_spec(content@),
    {
        scan_with_patterns(&self.patterns, 0, content)
    }

    /// Replaces each detected span with its category's placeholder token.
    fn redact_pii(&self, content: &Vec<u8>, detections: &Vec<PiiDetection>) -> (r: Vec<u8>)
        ensures
            r@ == redact_spec(content@, detections.deep_view()),
    {
        apply_redactions(content, detections)
    }

    /// Produces the chatbot's advisory lines for a detection set: one
    /// affirmative line when it is empty, else one line per distinct
    /// category present, with its policy severity, and the two fixed
    /// closing recommendations.
    pub fn generate_recommendations(&self, detections: &Vec<PiiDetection>) -> (r: Vec<String>)
        ensures
            r.deep_view() == chatbot_recommendations_spec(detections.deep_view()),
    {
        generate_chatbot_recommendations(detections)
    }

    /// Scans one chat message, redacts and scores its content over the one
    /// detection set produced, folds the outcome into the message's session,
    /// and returns the assembled result.
    pub fn process_chat_message(&mut self, message: ChatMessage) -> (r: ComplianceResult)
        requires
            old(self).wf(),
        ensures
            final(self).wf(),
            r.deep_view().original_text == message.content@,
            r.deep_view().detected_pii == chatbot_scan_spec(message.content@),
            r.deep_view().redacted_text == redact_spec(
                message.content@,
                chatbot_scan_spec(message.content@),
            ),
            r.deep_view().compliance_score == score_spec(chatbot_scan_spec(message.content@)),
            r.deep_view().recommendations == chatbot_recommendations_spec(
                chatbot_scan_spec(message.content@),
            ),
            exists|t: int|
                final(self).sessions_view() == #[trigger] ingest_spec(
                    old(self).sessions_view(),
                    message.deep_view(),
                    chatbot_scan_spec(message.content@),
                    t,
                ),
    {
        let detections = self.detect_pii_in_message(&message.content);
        let redacted = self.redact_pii(&message.content, &detections);
        let score = calculate_compliance_score(&detections);
        let recommendations = generate_chatbot_recommendations(&detections);
        let result = ComplianceResult {
            original_text: copy_bytes(&message.content),
            redacted_text: redacted,
            detected_pii: detections,
            compliance_score: score,
            recommendations,
        };
        self.update_session_compliance(&message, &result);
        result
    }

    /// Folds one scanned message into the session store: fetches or creates
    /// the message's session, appends the message, and, when PII was
    /// detected, records a violation and recomputes the session's risk.
    fn update_session_compliance(&mut self, message: &ChatMessage, result: &ComplianceResult)
        requires
            old(self).wf(),
        ensures
            final(self).wf(),
            exists|t: int|
                final(self).sessions_view() == #[trigger] ingest_spec(
                    old(self).sessions_view(),
                    message.deep_view(),
                    result.detected_pii.deep_view(),
                    t,
                ),
    {
        let now = now_millis();
        let ghost sv = self.active_sessions.deep_view();
        let ghost dets = result.detected_pii.deep_view();
        let mut idx: usize = 0;
        let mut found = false;
        while idx < self.active_sessions.len() && !found
            invariant
                0 <= idx <= sv.len(),
                sv.len() == self.active_sessions@.len(),
                sv == self.active_sessions.deep_view(),
                found ==> idx < sv.len() && sv[idx as int].session_id == message.session_id@,
                !found ==> forall|k: int|
                    0 <= k < idx ==> (#[trigger] sv[k]).session_id != message.session_id@,
            decreases sv.len() - idx + if found {
                0int
            } else {
                1int
            },
        {
            proof {
                assert(sv[idx as int] == self.active_sessions@[idx as int].deep_view());
            }
            if self.active_sessions[idx].session_id == message.session_id {
                found = true;
            } else {
                idx = idx + 1;
            }
        }
        if found {
            proof {
                lemma_find_session_at(sv, message.session_id@, idx as int);
            }
            let mut sess = self.active_sessions.remove(idx);
            proof {
                assert(self.active_sessions@ =~= old(self).active_sessions@.remove(idx as int));
            }
            ingest_one(&mut sess, message, result, now);
            self.active_sessions.insert(idx, sess);
            proof {
                let target = ingest_into_session(sv[idx as int], message.deep_view(), dets, now as int);
                assert forall|j: int| 0 <= j < self.active_sessions@.len() implies self.active_sessions.deep_view()[j]
                    == sv.update(idx as int, target)[j] by {
                    if j < idx as int {
                        assert(self.active_sessions@[j] == old(self).active_sessions@[j]);
                    } else if j == idx as int {
                        assert(self.active_sessions@[j] == sess);
                    } else {
                        assert(self.active_sessions@[j] == old(self).active_sessions@[j]);
                    }
                }
                assert(self.active_sessions.deep_view() =~= sv.update(idx as int, target));
                lemma_ingest_keeps_wf(sv[idx as int], message.deep_view(), dets, now as int);
                assert(self.active_sessions.deep_view() == ingest_spec(
                    old(self).sessions_view(),
                    message.deep_view(),
                    result.detected_pii.deep_view(),
                    now as int,
                ));
            }
        } else {
            proof {
                lemma_find_session_at(sv, message.session_id@, sv.len() as int);
            }
            let mut sess = ChatSession {
                session_id: message.session_id.clone(),
                user_id: message.user_id.clone(),
                messages: Vec::new(),
                compliance_violations: Vec::new(),
                risk_level: RiskLevel::Safe,
            };
            proof {
                assert(sess.messages.deep_view() =~= Seq::<crate::types::MessageModel>::empty());
                assert(sess.compliance_violations.deep_view() =~= Seq::<
                    crate::types::ViolationModel,
                >::empty());
                assert(sess.deep_view() =~= fresh_session(message.deep_view()));
            }
            ingest_one(&mut sess, message, result, now);
            push_session(&mut self.active_sessions, sess);
            proof {
                lemma_ingest_keeps_wf(fresh_session(message.deep_view()), message.deep_view(), dets, now as int);
                assert(self.active_sessions.deep_view() == ingest_spec(
                    old(self).sessions_view(),
                    message.deep_view(),
                    result.detected_pii.deep_view(),
                    now as int,
                ));
            }
        }
    }

    /// Returns a copy of the session with the given id, or `None` when no
    /// such session exists. Never fabricates a session.
    pub fn get_session(&self, session_id: &String) -> (r: Option<ChatSession>)
        ensures
            find_session(self.sessions_view(), session_id@) >= 0 ==> (r matches Some(s)
                && s.deep_view() == self.sessions_view()[find_session(
                self.sessions_view(),
                session_id@,
            )]),
            find_session(self.sessions_view(), session_id@) < 0 ==> r is None,
    {
        let ghost sv = self.active_sessions.deep_view();
        let mut i: usize = 0;
        while i < self.active_sessions.len()
            invariant
                0 <= i <= sv.len(),
                sv.len() == self.active_sessions@.len(),
                sv == self.active_sessions.deep_view(),
                sv == self.sessions_view(),
                forall|k: int| 0 <= k < i ==> (#[trigger] sv[k]).session_id != session_id@,
            decreases sv.len() - i,
        {
            proof {
                assert(sv[i as int] == self.active_sessions@[i as int].deep_view());
            }
            if self.active_sessions[i].session_id == *session_id {
                proof {
                    lemma_find_session_at(sv, session_id@, i as int);
                }
                return Some(copy_session(&self.active_sessions[i]));
            }
            i = i + 1;
        }
        proof {
            lemma_find_session_at(sv, session_id@, sv.len() as int);
        }
        None
    }
}

/// One ingest step preserves a session's well-formedness.
proof fn lemma_ingest_keeps_wf(
    s: SessionModel,
    m: crate::types::MessageModel,
    dets: Seq<DetectionModel>,
    now: int,
)
    requires
        session_wf(s),
    ensures
        session_wf(ingest_into_session(s, m, dets, now)),
        ingest_into_session(s, m, dets, now).session_id == s.session_id,
{
    if dets.len() > 0 {
        assert(s.compliance_violations.push(
            crate::types::ViolationModel {
                violation_type: ViolationType::PiiExposure,
                severity: crate::severity::max_severity_spec(dets),
                message: crate::session::violation_message_spec(m.content),
                timestamp: now,
                pii_detected: dets,
            },
        ).len() > 0);
    }
}

/// Applies one ingest step to a session the store owns.
fn ingest_one(session: &mut ChatSession, message: &ChatMessage, result: &ComplianceResult, now: i64)
    ensures
        final(session).deep_view() == ingest_into_session(
            old(session).deep_view(),
            message.deep_view(),
            result.detected_pii.deep_view(),
            now as int,
        ),
{
    push_message(&mut session.messages, copy_message(message));
    if result.detected_pii.len() > 0 {
        let sev = max_severity(&result.detected_pii);
        let v = ComplianceViolation {
            violation_type: ViolationType::PiiExposure,
            severity: sev,
            message: violation_message(&message.content),
            timestamp: now,
            pii_detected: copy_detections(&result.detected_pii),
        };
        push_violation(&mut session.compliance_violations, v);
        let r = calculate_session_risk_level(session);
        session.risk_level = r;
        assert(session.deep_view() =~= ingest_into_session(
            old(session).deep_view(),
            message.deep_view(),
            result.detected_pii.deep_view(),
            now as int,
        ));
    } else {
        assert(session.deep_view() =~= ingest_into_session(
            old(session).deep_view(),
            message.deep_view(),
            result.detected_pii.deep_view(),
            now as int,
        ));
    }
}

} // verus!
