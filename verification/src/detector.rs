//! The detector: runs every pattern of a catalog over the whole text and
//! turns each match into one detection with the category's base confidence,
//! reporting the detections ordered by start offset.

use vstd::prelude::*;

use crate::ordering::{sort_by_start, sort_detections};
use crate::patterns::{find_spans, regex_match_spans, regex_source};
use crate::types::{DetectionModel, PiiDetection, PiiType, push_detection};

verus! {

/// Pattern text for email addresses.
pub open spec fn email_pattern_spec() -> Seq<char> {
    r"\b[A-Za-z0-9._%+-]+@[A-Za-z0-9.-]+\.[A-Z|a-z]{2,}\b"@
}

/// Pattern text for phone numbers written with digits and separators.
pub open spec fn phone_pattern_spec() -> Seq<char> {
    r"\b\d{3}[-.]?\d{3}[-.]?\d{4}\b"@
}

/// Pattern text for phone numbers with a parenthesised area code.
pub open spec fn phone_paren_pattern_spec() -> Seq<char> {
    r"\b\(\d{3}\)\s*\d{3}[-.]?\d{4}\b"@
}

/// Pattern text for social security numbers.
pub open spec fn ssn_pattern_spec() -> Seq<char> {
    r"\b\d{3}-\d{2}-\d{4}\b"@
}

/// Pattern text for credit card numbers.
pub open spec fn cc_pattern_spec() -> Seq<char> {
    r"\b\d{4}[- ]?\d{4}[- ]?\d{4}[- ]?\d{4}\b"@
}

/// Pattern text for IP addresses.
pub open spec fn ip_pattern_spec() -> Seq<char> {
    r"\b\d{1,3}\.\d{1,3}\.\d{1,3}\.\d{1,3}\b"@
}

/// Base confidence of a category's patterns, in basis points: 9500 for the
/// high-specificity social security pattern, 9000 for everything else.
pub open spec fn base_confidence_spec(c: PiiType) -> int {
    if c == PiiType::SocialSecurityNumber {
        9500
    } else {
        9000
    }
}

/// Executable counterpart of [`base_confidence_spec`].
pub fn base_confidence(c: PiiType) -> (r: u32)
    ensures
        r as int == base_confidence_spec(c),
{
    match c {
        PiiType::SocialSecurityNumber => 9500,
        _ => 9000,
    }
}

/// The confidence recorded for a match: the category's base confidence,
/// raised to the scanner's confidence floor when that is higher.
pub open spec fn effective_confidence_spec(c: PiiType, floor: int) -> int {
    if base_confidence_spec(c) >= floor {
        base_confidence_spec(c)
    } else {
        floor
    }
}

/// The catalog a list of compiled patterns stands for: each entry's category
/// together with the pattern text its regex was compiled from.
pub open spec fn catalog_of(ps: Seq<(PiiType, regex::bytes::Regex)>) -> Seq<(PiiType, Seq<char>)> {
    Seq::new(ps.len(), |i: int| (ps[i].0, regex_source(ps[i].1)))
}

/// The detections that one pattern's span list yields on `text`: one per
/// span in span order, skipping spans that are empty or out of bounds.
pub open spec fn dets_of_spans(
    c: PiiType,
    conf: int,
    spans: Seq<(int, int)>,
    text: Seq<u8>,
) -> Seq<DetectionModel>
    decreases spans.len(),
{
    if spans.len() == 0 {
        Seq::empty()
    } else {
        let rest = dets_of_spans(c, conf, spans.drop_last(), text);
        let s = spans.last().0;
        let e = spans.last().1;
        if 0 <= s < e <= text.len() {
            rest.push(
                DetectionModel {
                    pii_type: c,
                    confidence: conf,
                    start_pos: s,
                    end_pos: e,
                    value: text.subrange(s, e),
                },
            )
        } else {
            rest
        }
    }
}

/// Every detection of every pattern of the catalog, in catalog order, before
/// sorting.
pub open spec fn scan_unsorted(
    catalog: Seq<(PiiType, Seq<char>)>,
    floor: int,
    text: Seq<u8>,
) -> Seq<DetectionModel>
    decreases catalog.len(),
{
    if catalog.len() == 0 {
        Seq::empty()
    } else {
        let c = catalog.last().0;
        scan_unsorted(catalog.drop_last(), floor, text) + dets_of_spans(
            c,
            effective_confidence_spec(c, floor),
            regex_match_spans(catalog.last().1, text),
            text,
        )
    }
}

/// The detections a catalog yields on `text`, ordered by start offset with
/// catalog order breaking ties.
pub open spec fn scan_spec(
    catalog: Seq<(PiiType, Seq<char>)>,
    floor: int,
    text: Seq<u8>,
) -> Seq<DetectionModel> {
    sort_by_start(scan_unsorted(catalog, floor, text))
}

/// Every detection one pattern's span list yields is well formed for the
/// text, provided the recorded confidence lies in [0, 10000].
proof fn lemma_dets_of_spans_wf(c: PiiType, conf: int, spans: Seq<(int, int)>, text: Seq<u8>)
    requires
        0 <= conf <= 10000,
    ensures
        forall|i: int|
            0 <= i < dets_of_spans(c, conf, spans, text).len() ==> (#[trigger] dets_of_spans(
                c,
                conf,
                spans,
                text,
            )[i]).wf_for(text),
    decreases spans.len(),
{
    if spans.len() > 0 {
        lemma_dets_of_spans_wf(c, conf, spans.drop_last(), text);
        let rest = dets_of_spans(c, conf, spans.drop_last(), text);
        let all = dets_of_spans(c, conf, spans, text);
        assert forall|i: int| 0 <= i < all.len() implies (#[trigger] all[i]).wf_for(text) by {
            if i < rest.len() {
                assert(all[i] == rest[i]);
                assert(rest[i].wf_for(text));
            }
        }
    }
}

/// Every detection of the unsorted scan is well formed for the text,
/// provided the confidence floor lies in [0, 10000].
proof fn lemma_scan_unsorted_wf(catalog: Seq<(PiiType, Seq<char>)>, floor: int, text: Seq<u8>)
    requires
        0 <= floor <= 10000,
    ensures
        forall|i: int|
            0 <= i < scan_unsorted(catalog, floor, text).len() ==> (#[trigger] scan_unsorted(
                catalog,
                floor,
                text,
            )[i]).wf_for(text),
    decreases catalog.len(),
{
    if catalog.len() > 0 {
        let c = catalog.last().0;
        lemma_scan_unsorted_wf(catalog.drop_last(), floor, text);
        lemma_dets_of_spans_wf(
            c,
            effective_confidence_spec(c, floor),
            regex_match_spans(catalog.last().1, text),
            text,
        );
        let left = scan_unsorted(catalog.drop_last(), floor, text);
        let right = dets_of_spans(
            c,
            effective_confidence_spec(c, floor),
            regex_match_spans(catalog.last().1, text),
            text,
        );
        let all = scan_unsorted(catalog, floor, text);
        assert forall|i: int| 0 <= i < all.len() implies (#[trigger] all[i]).wf_for(text) by {
            if i < left.len() {
                assert(all[i] == left[i]);
                assert(left[i].wf_for(text));
            } else {
                assert(all[i] == right[i - left.len()]);
                assert(right[i - left.len()].wf_for(text));
            }
        }
    }
}

/// Every detection a scan yields is well formed for the scanned text: a
/// non-empty span inside the text, the bytes of that span, and a confidence
/// in [0, 10000] — whatever the patterns matched.
pub proof fn lemma_scan_detections_wf(catalog: Seq<(PiiType, Seq<char>)>, floor: int, text: Seq<u8>)
    requires
        0 <= floor <= 10000,
    ensures
        forall|i: int|
            0 <= i < scan_spec(catalog, floor, text).len() ==> (#[trigger] scan_spec(
                catalog,
                floor,
                text,
            )[i]).wf_for(text),
{
    broadcast use vstd::seq_lib::group_to_multiset_ensures;

    let unsorted = scan_unsorted(catalog, floor, text);
    let sorted = scan_spec(catalog, floor, text);
    lemma_scan_unsorted_wf(catalog, floor, text);
    crate::ordering::lemma_sort_by_start_multiset(unsorted);
    assert forall|i: int| 0 <= i < sorted.len() implies (#[trigger] sorted[i]).wf_for(text) by {
        assert(sorted.contains(sorted[i]));
        assert(unsorted.to_multiset().count(sorted[i]) > 0);
        assert(unsorted.contains(sorted[i]));
        let j = choose|j: int| 0 <= j < unsorted.len() && unsorted[j] == sorted[i];
        assert(unsorted[j].wf_for(text));
    }
}

/// Every scan's detections come ordered by start offset, whatever the
/// patterns matched.
pub proof fn lemma_scan_ordered(catalog: Seq<(PiiType, Seq<char>)>, floor: int, text: Seq<u8>)
    ensures
        crate::ordering::sorted_by_start(scan_spec(catalog, floor, text)),
{
    crate::ordering::lemma_sort_by_start_sorted(scan_unsorted(catalog, floor, text));
}

/// Copies the byte range `[s, e)` of `v`.
pub fn subrange_vec(v: &Vec<u8>, s: usize, e: usize) -> (r: Vec<u8>)
    requires
        s <= e <= v@.len(),
    ensures
        r@ == v@.subrange(s as int, e as int),
{
    let mut r: Vec<u8> = Vec::new();
    let mut i: usize = s;
    while i < e
        invariant
            s <= i <= e <= v@.len(),
            r@ == v@.subrange(s as int, i as int),
        decreases e - i,
    {
        proof {
            assert(v@.subrange(s as int, i + 1) =~= v@.subrange(s as int, i as int).push(
                v@[i as int],
            ));
        }
        r.push(v[i]);
        i = i + 1;
    }
    r
}

/// Runs every pattern of the list over the whole text and reports one
/// detection per match, ordered by start offset.
pub fn scan_with_patterns(
    patterns: &Vec<(PiiType, regex::bytes::Regex)>,
    floor: u32,
    text: &Vec<u8>,
) -> (r: Vec<PiiDetection>)
    ensures
        r.deep_view() == scan_spec(catalog_of(patterns@), floor as int, text@),
{
    let ghost cat = catalog_of(patterns@);
    let mut dets: Vec<PiiDetection> = Vec::new();
    let mut k: usize = 0;
    while k < patterns.len()
        invariant
            0 <= k <= cat.len(),
            cat.len() == patterns@.len(),
            cat == catalog_of(patterns@),
            dets.deep_view() == scan_unsorted(cat.take(k as int), floor as int, text@),
        decreases cat.len() - k,
    {
        let c = patterns[k].0;
        let base = base_confidence(c);
        let conf = if base >= floor {
            base
        } else {
            floor
        };
        let spans = find_spans(&patterns[k].1, text.as_slice());
        let ghost sp = regex_match_spans(cat[k as int].1, text@);
        proof {
            assert(cat[k as int].1 == regex_source(patterns@[k as int].1));
            assert(sp == spans@.map_values(|p: (usize, usize)| (p.0 as int, p.1 as int)));
            assert(sp.len() == spans@.len());
        }
        let mut j: usize = 0;
        while j < spans.len()
            invariant
                0 <= j <= sp.len(),
                sp.len() == spans@.len(),
                sp == spans@.map_values(|p: (usize, usize)| (p.0 as int, p.1 as int)),
                forall|i: int|
                    0 <= i < spans@.len() ==> (#[trigger] spans@[i]).0 <= spans@[i].1
                        <= text@.len(),
                dets.deep_view() == scan_unsorted(cat.take(k as int), floor as int, text@)
                    + dets_of_spans(c, conf as int, sp.take(j as int), text@),
            decreases sp.len() - j,
        {
            let (s, e) = spans[j];
            proof {
                assert(sp.take(j + 1).drop_last() =~= sp.take(j as int));
                assert(sp.take(j + 1).last() == sp[j as int]);
                assert(sp[j as int] == (s as int, e as int));
            }
            if s < e {
                let value = subrange_vec(text, s, e);
                let d = PiiDetection {
                    pii_type: c,
                    confidence: conf,
                    start_pos: s,
                    end_pos: e,
                    value,
                };
                push_detection(&mut dets, d);
            }
            j = j + 1;
        }
        proof {
            assert(sp.take(sp.len() as int) =~= sp);
            assert(cat.take(k + 1).drop_last() =~= cat.take(k as int));
            assert(cat.take(k + 1).last() == cat[k as int]);
        }
        k = k + 1;
    }
    assert(cat.take(cat.len() as int) =~= cat);
    sort_detections(dets)
}

} // verus!
