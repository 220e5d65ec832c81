//! The severity policy: a static mapping from PII category to severity and a
//! deterministic max-severity reducer over a detection set.

use vstd::prelude::*;

use crate::types::{DetectionModel, PiiDetection, PiiType, Severity};
use crate::types::{severity_rank, severity_rank_spec};

verus! {

/// Severity assigned to each PII category: social security numbers are
/// Critical, credit cards High, addresses Low, everything else Medium.
pub open spec fn severity_of_category_spec(c: PiiType) -> Severity {
    match c {
        PiiType::SocialSecurityNumber => Severity::Critical,
        PiiType::CreditCardNumber => Severity::High,
        PiiType::Email => Severity::Medium,
        PiiType::PhoneNumber => Severity::Medium,
        PiiType::Address => Severity::Low,
        _ => Severity::Medium,
    }
}

/// Executable counterpart of [`severity_of_category_spec`].
pub fn severity_of_category(c: PiiType) -> (s: Severity)
    ensures
        s == severity_of_category_spec(c),
{
    match c {
        PiiType::SocialSecurityNumber => Severity::Critical,
        PiiType::CreditCardNumber => Severity::High,
        PiiType::Email => Severity::Medium,
        PiiType::PhoneNumber => Severity::Medium,
        PiiType::Address => Severity::Low,
        _ => Severity::Medium,
    }
}

/// The larger of two severities under the total order on `Severity`.
pub open spec fn severity_max(a: Severity, b: Severity) -> Severity {
    if severity_rank_spec(a) >= severity_rank_spec(b) {
        a
    } else {
        b
    }
}

/// Greatest severity over the categories of a detection set; Low when the
/// set is empty. A pure max over a total order, so the reduction order can
/// never change the result.
pub open spec fn max_severity_spec(dets: Seq<DetectionModel>) -> Severity
    decreases dets.len(),
{
    if dets.len() == 0 {
        Severity::Low
    } else {
        severity_max(
            max_severity_spec(dets.drop_last()),
            severity_of_category_spec(dets.last().pii_type),
        )
    }
}

/// Reduces a detection set to the greatest severity among its categories,
/// defaulting to Low on an empty set.
pub fn max_severity(detections: &Vec<PiiDetection>) -> (s: Severity)
    ensures
        s == max_severity_spec(detections.deep_view()),
{
    let ghost m = detections.deep_view();
    let mut s = Severity::Low;
    let mut i: usize = 0;
    while i < detections.len()
        invariant
            0 <= i <= m.len(),
            m.len() == detections@.len(),
            m == detections.deep_view(),
            s == max_severity_spec(m.take(i as int)),
        decreases m.len() - i,
    {
        let c = severity_of_category(detections[i].pii_type);
        if severity_rank(c) > severity_rank(s) {
            s = c;
        }
        assert(m.take(i + 1).drop_last() =~= m.take(i as int));
        assert(m.take(i + 1).last() == m[i as int]);
        i = i + 1;
    }
    assert(m.take(m.len() as int) =~= m);
    s
}

/// The reducer computes a pure maximum: on a non-empty set its result is
/// the severity of one of the set's own categories and no category's
/// severity exceeds it — so no reduction order could give another result.
pub proof fn lemma_max_severity_is_max(dets: Seq<DetectionModel>)
    ensures
        forall|i: int|
            0 <= i < dets.len() ==> severity_rank_spec(
                severity_of_category_spec(#[trigger] dets[i].pii_type),
            ) <= severity_rank_spec(max_severity_spec(dets)),
        dets.len() > 0 ==> exists|i: int|
            0 <= i < dets.len() && severity_of_category_spec(#[trigger] dets[i].pii_type)
                == max_severity_spec(dets),
    decreases dets.len(),
{
    if dets.len() > 0 {
        lemma_max_severity_is_max(dets.drop_last());
        assert forall|i: int| 0 <= i < dets.len() implies severity_rank_spec(
            severity_of_category_spec(#[trigger] dets[i].pii_type),
        ) <= severity_rank_spec(max_severity_spec(dets)) by {
            if i < dets.len() - 1 {
                assert(dets.drop_last()[i] == dets[i]);
            }
        }
        if max_severity_spec(dets) == severity_of_category_spec(dets.last().pii_type) {
            assert(dets[dets.len() - 1].pii_type == dets.last().pii_type);
        } else {
            let j = choose|j: int|
                0 <= j < dets.drop_last().len() && severity_of_category_spec(
                    #[trigger] dets.drop_last()[j].pii_type,
                ) == max_severity_spec(dets.drop_last());
            assert(dets[j].pii_type == dets.drop_last()[j].pii_type);
        }
    }
}

} // verus!
