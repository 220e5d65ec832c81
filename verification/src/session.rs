//! Session-level risk aggregation: the derived risk rule over a violation
//! log, the ingest step that folds one scanned message into the session
//! store, and the monotonicity law that ingestion never lowers a session's
//! risk.

use vstd::prelude::*;
use vstd::string::StrSliceExecFns;
use vstd::string::StringSliceAdditionalSpecFns;

use crate::severity::max_severity_spec;
use crate::types::{
    ChatSession, ComplianceViolation, DetectionModel, MessageModel, RiskLevel, SessionModel,
    Severity, ViolationModel, ViolationType, risk_rank_spec,
};

verus! {

/// Number of violations of the log carrying severity `s`.
pub open spec fn count_severity(vs: Seq<ViolationModel>, s: Severity) -> int
    decreases vs.len(),
{
    if vs.len() == 0 {
        0
    } else {
        count_severity(vs.drop_last(), s) + if vs.last().severity == s {
            1int
        } else {
            0int
        }
    }
}

/// The risk rule over a violation log, evaluated in fixed priority order:
/// any Critical violation gives Critical; more than two High violations give
/// High; any High violation gives Medium; otherwise Low.
pub open spec fn risk_from_violations(vs: Seq<ViolationModel>) -> RiskLevel {
    if count_severity(vs, Severity::Critical) > 0 {
        RiskLevel::Critical
    } else if count_severity(vs, Severity::High) > 2 {
        RiskLevel::High
    } else if count_severity(vs, Severity::High) > 0 {
        RiskLevel::Medium
    } else {
        RiskLevel::Low
    }
}

/// A session's derived risk: Safe while it has no violations, else the risk
/// rule over its whole log.
pub open spec fn session_risk(vs: Seq<ViolationModel>) -> RiskLevel {
    if vs.len() == 0 {
        RiskLevel::Safe
    } else {
        risk_from_violations(vs)
    }
}

/// A session is well formed when its recorded risk level is exactly the one
/// its violation log derives.
pub open spec fn session_wf(s: SessionModel) -> bool {
    s.risk_level == session_risk(s.compliance_violations)
}

/// Counts the violations of the log carrying severity `s`.
fn count_severity_exec(violations: &Vec<ComplianceViolation>, s: Severity) -> (n: usize)
    ensures
        n as int == count_severity(violations.deep_view(), s),
        n <= violations@.len(),
{
    let ghost m = violations.deep_view();
    let mut n: usize = 0;
    let mut i: usize = 0;
    while i < violations.len()
        invariant
            0 <= i <= m.len(),
            m.len() == violations@.len(),
            m == violations.deep_view(),
            n as int == count_severity(m.take(i as int), s),
            n <= i,
        decreases m.len() - i,
    {
        proof {
            assert(m.take(i + 1).drop_last() =~= m.take(i as int));
            assert(m.take(i + 1).last() == m[i as int]);
            assert(m[i as int] == violations@[i as int].deep_view());
        }
        if violations[i].severity == s {
            n = n + 1;
        }
        i = i + 1;
    }
    assert(m.take(m.len() as int) =~= m);
    n
}

/// Recomputes the risk rule over a session's whole violation log.
pub fn calculate_session_risk_level(session: &ChatSession) -> (r: RiskLevel)
    ensures
        r == risk_from_violations(session.compliance_violations.deep_view()),
{
    let critical = count_severity_exec(&session.compliance_violations, Severity::Critical);
    let high = count_severity_exec(&session.compliance_violations, Severity::High);
    if critical > 0 {
        RiskLevel::Critical
    } else if high > 2 {
        RiskLevel::High
    } else if high > 0 {
        RiskLevel::Medium
    } else {
        RiskLevel::Low
    }
}

/// Appending one violation adds one to the count of its severity and leaves
/// every other count unchanged.
pub proof fn lemma_count_severity_push(vs: Seq<ViolationModel>, v: ViolationModel, s: Severity)
    ensures
        count_severity(vs.push(v), s) == count_severity(vs, s) + if v.severity == s {
            1int
        } else {
            0int
        },
{
    assert(vs.push(v).drop_last() =~= vs);
    assert(vs.push(v).last() == v);
}

/// Appending a violation never lowers a session's derived risk.
pub proof fn lemma_risk_append_monotone(vs: Seq<ViolationModel>, v: ViolationModel)
    ensures
        risk_rank_spec(session_risk(vs)) <= risk_rank_spec(session_risk(vs.push(v))),
{
    lemma_count_severity_push(vs, v, Severity::Critical);
    lemma_count_severity_push(vs, v, Severity::High);
}

/// The fixed summary followed by the flagged message's content.
pub open spec fn violation_message_spec(content: Seq<u8>) -> Seq<u8> {
    "PII detected in message: ".spec_bytes() + content
}

/// Builds the violation message recorded for a flagged message.
pub fn violation_message(content: &Vec<u8>) -> (r: Vec<u8>)
    ensures
        r@ == violation_message_spec(content@),
{
    let mut r = "PII detected in message: ".as_bytes_vec();
    let ghost prefix = r@;
    let mut i: usize = 0;
    while i < content.len()
        invariant
            0 <= i <= content@.len(),
            r@ == prefix + content@.take(i as int),
        decreases content@.len() - i,
    {
        proof {
            assert(prefix + content@.take(i + 1) =~= (prefix + content@.take(i as int)).push(
                content@[i as int],
            ));
        }
        r.push(content[i]);
        i = i + 1;
    }
    assert(content@.take(content@.len() as int) =~= content@);
    r
}

/// Relies on `chrono::Utc::now` for the wall clock, reduced to milliseconds
/// since the Unix epoch; nothing is assumed of the returned value.
#[verifier::external_body]
pub(crate) fn now_millis() -> i64 {
    chrono::Utc::now().timestamp_millis()
}

/// A fresh session for a message's identifiers: empty logs, risk Safe.
pub open spec fn fresh_session(m: MessageModel) -> SessionModel {
    SessionModel {
        session_id: m.session_id,
        user_id: m.user_id,
        messages: Seq::empty(),
        compliance_violations: Seq::empty(),
        risk_level: RiskLevel::Safe,
    }
}

/// One ingest step on a single session: the message is appended to its log;
/// when the scan found detections, a PiiExposure violation carrying their
/// maximum severity is appended and the risk recomputed over the whole log.
pub open spec fn ingest_into_session(
    s: SessionModel,
    m: MessageModel,
    dets: Seq<DetectionModel>,
    now: int,
) -> SessionModel {
    if dets.len() > 0 {
        let v = ViolationModel {
            violation_type: ViolationType::PiiExposure,
            severity: max_severity_spec(dets),
            message: violation_message_spec(m.content),
            timestamp: now,
            pii_detected: dets,
        };
        let vs = s.compliance_violations.push(v);
        SessionModel {
            messages: s.messages.push(m),
            compliance_violations: vs,
            risk_level: risk_from_violations(vs),
            ..s
        }
    } else {
        SessionModel { messages: s.messages.push(m), ..s }
    }
}

/// Index of the first session carrying `id`, or -1 when none does.
pub open spec fn find_session(sessions: Seq<SessionModel>, id: Seq<char>) -> int
    decreases sessions.len(),
{
    if sessions.len() == 0 {
        -1
    } else if sessions[0].session_id == id {
        0
    } else {
        let r = find_session(sessions.drop_first(), id);
        if r == -1 {
            -1
        } else {
            r + 1
        }
    }
}

/// When no session before `i` carries `id` and the one at `i` does (or `i`
/// is the length), the search finds exactly `i` (or nothing).
pub proof fn lemma_find_session_at(sessions: Seq<SessionModel>, id: Seq<char>, i: int)
    requires
        0 <= i <= sessions.len(),
        forall|k: int| 0 <= k < i ==> (#[trigger] sessions[k]).session_id != id,
        i == sessions.len() || sessions[i].session_id == id,
    ensures
        find_session(sessions, id) == if i == sessions.len() {
            -1int
        } else {
            i
        },
    decreases i,
{
    if sessions.len() == 0 {
    } else if i == 0 {
        if sessions[0].session_id != id {
            lemma_find_session_none(sessions.drop_first(), id);
        }
    } else {
        let t = sessions.drop_first();
        assert forall|k: int| 0 <= k < i - 1 implies (#[trigger] t[k]).session_id != id by {
            assert(t[k] == sessions[k + 1]);
        }
        if i - 1 < t.len() {
            assert(t[i - 1] == sessions[i]);
        }
        lemma_find_session_at(t, id, i - 1);
    }
}

/// A search over sessions none of which carries `id` finds nothing.
proof fn lemma_find_session_none(sessions: Seq<SessionModel>, id: Seq<char>)
    requires
        forall|k: int| 0 <= k < sessions.len() ==> (#[trigger] sessions[k]).session_id != id,
    ensures
        find_session(sessions, id) == -1,
    decreases sessions.len(),
{
    if sessions.len() > 0 {
        let t = sessions.drop_first();
        assert forall|k: int| 0 <= k < t.len() implies (#[trigger] t[k]).session_id != id by {
            assert(t[k] == sessions[k + 1]);
        }
        lemma_find_session_none(t, id);
    }
}

/// The found session carries the id that was searched.
pub proof fn lemma_find_session_found(sessions: Seq<SessionModel>, id: Seq<char>)
    ensures
        -1 <= find_session(sessions, id) < sessions.len(),
        find_session(sessions, id) >= 0 ==> sessions[find_session(sessions, id)].session_id == id,
    decreases sessions.len(),
{
    if sessions.len() > 0 && sessions[0].session_id != id {
        lemma_find_session_found(sessions.drop_first(), id);
        let r = find_session(sessions.drop_first(), id);
        if r >= 0 {
            assert(sessions.drop_first()[r] == sessions[r + 1]);
        }
    }
}

/// The search fails exactly when no session carries the id.
pub proof fn lemma_find_session_absent(sessions: Seq<SessionModel>, id: Seq<char>)
    ensures
        (find_session(sessions, id) == -1) <==> (forall|k: int|
            0 <= k < sessions.len() ==> (#[trigger] sessions[k]).session_id != id),
    decreases sessions.len(),
{
    if sessions.len() == 0 {
    } else if sessions[0].session_id == id {
        assert(sessions[0].session_id == id);
    } else {
        let t = sessions.drop_first();
        lemma_find_session_absent(t, id);
        lemma_find_session_found(t, id);
        if find_session(sessions, id) == -1 {
            assert forall|k: int| 0 <= k < sessions.len() implies (#[trigger] sessions[k]).session_id
                != id by {
                if k > 0 {
                    assert(sessions[k] == t[k - 1]);
                    assert(t[k - 1].session_id != id);
                } else {
                    assert(sessions[0].session_id != id);
                }
            }
        } else {
            lemma_find_session_found(sessions, id);
            assert(sessions[find_session(sessions, id)].session_id == id);
        }
    }
}

/// Every session before the found one differs in id.
proof fn lemma_find_session_prefix(sessions: Seq<SessionModel>, id: Seq<char>)
    requires
        find_session(sessions, id) >= 0,
    ensures
        forall|k: int|
            0 <= k < find_session(sessions, id) ==> (#[trigger] sessions[k]).session_id != id,
    decreases sessions.len(),
{
    lemma_find_session_found(sessions, id);
    if sessions.len() > 0 && sessions[0].session_id != id {
        let t = sessions.drop_first();
        assert(find_session(t, id) == find_session(sessions, id) - 1);
        lemma_find_session_prefix(t, id);
        assert forall|k: int| 0 <= k < find_session(sessions, id) implies (#[trigger] sessions[k]).session_id
            != id by {
            if k > 0 {
                assert(sessions[k] == t[k - 1]);
                assert(t[k - 1].session_id != id);
            }
        }
    }
}

/// The whole store after ingesting one scanned message: the message's
/// session is updated in place, or a fresh session is created and appended.
pub open spec fn ingest_spec(
    sessions: Seq<SessionModel>,
    m: MessageModel,
    dets: Seq<DetectionModel>,
    now: int,
) -> Seq<SessionModel> {
    let i = find_session(sessions, m.session_id);
    if i >= 0 {
        sessions.update(i, ingest_into_session(sessions[i], m, dets, now))
    } else {
        sessions.push(ingest_into_session(fresh_session(m), m, dets, now))
    }
}

/// Ingestion fetches or creates: after an ingest the message's session is
/// always present in the store, in place when it existed, at the end when
/// it was created.
pub proof fn lemma_ingest_creates_session(
    sessions: Seq<SessionModel>,
    m: MessageModel,
    dets: Seq<DetectionModel>,
    now: int,
)
    ensures
        find_session(ingest_spec(sessions, m, dets, now), m.session_id) == if find_session(
            sessions,
            m.session_id,
        ) >= 0 {
            find_session(sessions, m.session_id)
        } else {
            sessions.len() as int
        },
{
    let i = find_session(sessions, m.session_id);
    let result = ingest_spec(sessions, m, dets, now);
    if i >= 0 {
        lemma_find_session_found(sessions, m.session_id);
        lemma_find_session_prefix(sessions, m.session_id);
        assert(result[i].session_id == m.session_id);
        assert forall|k: int| 0 <= k < i implies (#[trigger] result[k]).session_id
            != m.session_id by {
            assert(result[k] == sessions[k]);
        }
        lemma_find_session_at(result, m.session_id, i);
    } else {
        lemma_find_session_found(sessions, m.session_id);
        lemma_find_session_absent(sessions, m.session_id);
        assert(result[sessions.len() as int].session_id == m.session_id);
        assert forall|k: int| 0 <= k < sessions.len() implies (#[trigger] result[k]).session_id
            != m.session_id by {
            assert(result[k] == sessions[k]);
        }
        lemma_find_session_at(result, m.session_id, sessions.len() as int);
    }
}

/// Ingesting a further message never decreases its session's risk level:
/// the risk before the ingest — Safe when the session does not yet exist —
/// ranks no higher than the risk the updated or created session records,
/// whatever the detections. Violations only accumulate, and the recompute
/// rule is monotone in the counts.
pub proof fn lemma_ingest_risk_never_decreases(
    sessions: Seq<SessionModel>,
    m: MessageModel,
    dets: Seq<DetectionModel>,
    now: int,
)
    requires
        forall|i: int| 0 <= i < sessions.len() ==> session_wf(#[trigger] sessions[i]),
    ensures
        ({
            let i = find_session(sessions, m.session_id);
            let before = if i >= 0 {
                sessions[i].risk_level
            } else {
                RiskLevel::Safe
            };
            let result = ingest_spec(sessions, m, dets, now);
            let j = find_session(result, m.session_id);
            &&& 0 <= j < result.len()
            &&& risk_rank_spec(before) <= risk_rank_spec(result[j].risk_level)
        }),
{
    lemma_find_session_found(sessions, m.session_id);
    lemma_ingest_creates_session(sessions, m, dets, now);
    let i = find_session(sessions, m.session_id);
    if i >= 0 {
        lemma_ingest_risk_monotone(sessions, m, dets, now);
    }
}

/// Ingesting a message never lowers the recorded risk of its session: when
/// the message's session exists and is well formed, its risk level after the
/// ingest ranks at least as high as before, whatever the detections.
pub proof fn lemma_ingest_risk_monotone(
    sessions: Seq<SessionModel>,
    m: MessageModel,
    dets: Seq<DetectionModel>,
    now: int,
)
    requires
        find_session(sessions, m.session_id) >= 0,
        session_wf(sessions[find_session(sessions, m.session_id)]),
    ensures
        risk_rank_spec(sessions[find_session(sessions, m.session_id)].risk_level)
            <= risk_rank_spec(
            ingest_spec(sessions, m, dets, now)[find_session(sessions, m.session_id)].risk_level,
        ),
{
    lemma_find_session_found(sessions, m.session_id);
    let i = find_session(sessions, m.session_id);
    let s = sessions[i];
    if dets.len() > 0 {
        let v = ViolationModel {
            violation_type: ViolationType::PiiExposure,
            severity: max_severity_spec(dets),
            message: violation_message_spec(m.content),
            timestamp: now,
            pii_detected: dets,
        };
        lemma_risk_append_monotone(s.compliance_violations, v);
        assert(s.compliance_violations.push(v).len() > 0);
    }
}

} // verus!
