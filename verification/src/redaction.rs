//! Offset-safe redaction: replaces each detected byte span with the fixed
//! placeholder token of its category, walking the detections in start order
//! and tracking the cumulative length delta the earlier replacements caused.
//! Out-of-range spans (possible when detections overlap) are skipped rather
//! than redacted, so the walk can never read or write outside the text.

use vstd::prelude::*;
use vstd::string::StrSliceExecFns;
use vstd::string::StringSliceAdditionalSpecFns;

use crate::ordering::{sort_by_start, sort_detections};
use crate::types::{DetectionModel, PiiDetection, PiiType, copy_bytes, copy_detection};

verus! {

/// The fixed placeholder bytes that replace a detected span of each category.
pub open spec fn replacement_token_spec(c: PiiType) -> Seq<u8> {
    match c {
        PiiType::Email => "[EMAIL]".spec_bytes(),
        PiiType::PhoneNumber => "[PHONE]".spec_bytes(),
        PiiType::SocialSecurityNumber => "[SSN]".spec_bytes(),
        PiiType::CreditCardNumber => "[CC]".spec_bytes(),
        PiiType::IpAddress => "[IP]".spec_bytes(),
        PiiType::DateOfBirth => "[DOB]".spec_bytes(),
        PiiType::Address => "[ADDRESS]".spec_bytes(),
        PiiType::Name => "[NAME]".spec_bytes(),
        PiiType::Unknown => "[PII]".spec_bytes(),
    }
}

/// Returns the placeholder token of a category. The match is exhaustive over
/// the closed enumeration, so no category is without a token.
pub fn replacement_token(c: PiiType) -> (t: Vec<u8>)
    ensures
        t@ == replacement_token_spec(c),
{
    match c {
        PiiType::Email => "[EMAIL]".as_bytes_vec(),
        PiiType::PhoneNumber => "[PHONE]".as_bytes_vec(),
        PiiType::SocialSecurityNumber => "[SSN]".as_bytes_vec(),
        PiiType::CreditCardNumber => "[CC]".as_bytes_vec(),
        PiiType::IpAddress => "[IP]".as_bytes_vec(),
        PiiType::DateOfBirth => "[DOB]".as_bytes_vec(),
        PiiType::Address => "[ADDRESS]".as_bytes_vec(),
        PiiType::Name => "[NAME]".as_bytes_vec(),
        PiiType::Unknown => "[PII]".as_bytes_vec(),
    }
}

/// Replaces the byte range `[s, e)` of `text` with `token`.
fn splice_bytes(text: &Vec<u8>, s: usize, e: usize, token: &Vec<u8>) -> (r: Vec<u8>)
    requires
        s <= e <= text@.len(),
    ensures
        r@ == text@.take(s as int) + token@ + text@.skip(e as int),
{
    let mut r: Vec<u8> = Vec::new();
    let mut i: usize = 0;
    while i < s
        invariant
            0 <= i <= s <= text@.len(),
            r@ == text@.take(i as int),
        decreases s - i,
    {
        r.push(text[i]);
        i = i + 1;
    }
    let mut j: usize = 0;
    while j < token.len()
        invariant
            0 <= j <= token@.len(),
            s <= text@.len(),
            r@ == text@.take(s as int) + token@.take(j as int),
        decreases token@.len() - j,
    {
        r.push(token[j]);
        j = j + 1;
    }
    assert(token@.take(token@.len() as int) =~= token@);
    let mut k: usize = e;
    while k < text.len()
        invariant
            e <= k <= text@.len(),
            r@ == text@.take(s as int) + token@ + text@.subrange(e as int, k as int),
        decreases text@.len() - k,
    {
        proof {
            assert(text@.subrange(e as int, k + 1) =~= text@.subrange(e as int, k as int).push(
                text@[k as int],
            ));
        }
        r.push(text[k]);
        k = k + 1;
    }
    assert(text@.subrange(e as int, text@.len() as int) == text@.skip(e as int));
    r
}

/// One left-to-right redaction pass over `text`, with `offset` the cumulative
/// length delta of the replacements already made. A detection is applied only
/// when its span is non-empty and, shifted by the offset, still lies inside
/// the current text; otherwise it is skipped. A replacement that would drive
/// the offset below zero leaves the offset at its pre-replacement value.
pub open spec fn redact_fold(text: Seq<u8>, dets: Seq<DetectionModel>, offset: int) -> Seq<u8>
    decreases dets.len(),
{
    if dets.len() == 0 {
        text
    } else {
        let d = dets[0];
        let rest = dets.drop_first();
        if d.start_pos < d.end_pos && 0 <= d.start_pos + offset && d.end_pos + offset
            <= text.len() {
            let tok = replacement_token_spec(d.pii_type);
            let spliced = text.take(d.start_pos + offset) + tok + text.skip(d.end_pos + offset);
            let span = d.end_pos - d.start_pos;
            let new_offset = if offset + tok.len() >= span {
                offset + tok.len() - span
            } else {
                offset
            };
            redact_fold(spliced, rest, new_offset)
        } else {
            redact_fold(text, rest, offset)
        }
    }
}

/// The redacted form of `text` under a detection set: the detections sorted
/// stably by start offset, then folded over the text by [`redact_fold`].
pub open spec fn redact_spec(text: Seq<u8>, dets: Seq<DetectionModel>) -> Seq<u8> {
    redact_fold(text, sort_by_start(dets), 0)
}

/// Applies every applicable detection's replacement token to `text` and
/// returns the redacted bytes.
///
/// There is no precondition: overlapping, adjacent, duplicate or out-of-range
/// detections are tolerated, and spans that no longer fit the shifted text
/// are skipped, exactly as [`redact_spec`] describes.
pub fn apply_redactions(text: &Vec<u8>, detections: &Vec<PiiDetection>) -> (r: Vec<u8>)
    ensures
        r@ == redact_spec(text@, detections.deep_view()),
{
    let ghost dm = detections.deep_view();
    let mut work: Vec<PiiDetection> = Vec::new();
    let mut i: usize = 0;
    while i < detections.len()
        invariant
            0 <= i <= dm.len(),
            dm.len() == detections@.len(),
            dm == detections.deep_view(),
            work.deep_view() == dm.take(i as int),
        decreases dm.len() - i,
    {
        let c = copy_detection(&detections[i]);
        let ghost prev = work.deep_view();
        let ghost prev_sh = work@;
        work.push(c);
        proof {
            assert(work@ == prev_sh.push(c));
            assert(prev.len() == prev_sh.len());
            assert forall|j: int| 0 <= j < work@.len() implies work.deep_view()[j] == dm.take(
                i + 1,
            )[j] by {
                if j < prev_sh.len() {
                    assert(prev_sh.push(c)[j] == prev_sh[j]);
                    assert(prev[j] == dm[j]);
                } else {
                    assert(prev_sh.push(c)[j] == c);
                    assert(dm[i as int] == detections@[i as int]@);
                }
            }
            assert(work.deep_view() =~= dm.take(i + 1));
        }
        i = i + 1;
    }
    assert(dm.take(dm.len() as int) =~= dm);
    let sorted = sort_detections(work);
    let ghost sm = sorted.deep_view();

    let mut out = copy_bytes(text);
    let mut offset: usize = 0;
    let mut k: usize = 0;
    assert(sm.skip(0) =~= sm);
    while k < sorted.len()
        invariant
            0 <= k <= sm.len(),
            sm.len() == sorted@.len(),
            sm == sorted.deep_view(),
            offset <= out@.len(),
            redact_fold(text@, sm, 0) == redact_fold(out@, sm.skip(k as int), offset as int),
        decreases sm.len() - k,
    {
        let d = &sorted[k];
        proof {
            assert(sm.skip(k as int)[0] == sm[k as int]);
            assert(sm[k as int] == sorted@[k as int]@);
            assert(sm.skip(k as int).drop_first() =~= sm.skip(k + 1));
        }
        if d.start_pos < d.end_pos && d.end_pos <= out.len() - offset {
            let s = d.start_pos + offset;
            let e = d.end_pos + offset;
            let tok = replacement_token(d.pii_type);
            let new_out = splice_bytes(&out, s, e, &tok);
            proof {
                assert(new_out@.len() == out@.len() - (d@.end_pos - d@.start_pos) + tok@.len());
            }
            let span = d.end_pos - d.start_pos;
            if tok.len() >= span {
                let grow = tok.len() - span;
                let new_len = new_out.len();
                assert(offset + grow <= new_len);
                offset = offset + grow;
            } else {
                let shrink = span - tok.len();
                if offset >= shrink {
                    offset = offset - shrink;
                }
            }
            out = new_out;
        }
        k = k + 1;
    }
    assert(sm.skip(sm.len() as int) =~= Seq::<DetectionModel>::empty());
    out
}

} // verus!
