//! Stable ordering of detections by start offset. Both the scanner (which
//! reports detections ordered by position) and the redactor (which walks the
//! text left to right) sort with the machinery here.

use vstd::prelude::*;

use crate::types::{DetectionModel, PiiDetection};

verus! {

/// Places `d` after every element of `s` whose start offset is not larger,
/// so that insertion keeps equal start offsets in arrival order.
pub open spec fn insert_by_start(d: DetectionModel, s: Seq<DetectionModel>) -> Seq<DetectionModel>
    decreases s.len(),
{
    if s.len() == 0 {
        seq![d]
    } else if s[0].start_pos <= d.start_pos {
        seq![s[0]] + insert_by_start(d, s.drop_first())
    } else {
        seq![d] + s
    }
}

/// Stable sort by start offset: elements are taken left to right and each is
/// inserted after all previously placed elements with a start offset that is
/// not larger, so elements with equal start offsets keep their input order.
pub open spec fn sort_by_start(s: Seq<DetectionModel>) -> Seq<DetectionModel>
    decreases s.len(),
{
    if s.len() == 0 {
        s
    } else {
        insert_by_start(s.last(), sort_by_start(s.drop_last()))
    }
}

/// Whether a detection sequence is ordered by start offset.
pub open spec fn sorted_by_start(s: Seq<DetectionModel>) -> bool {
    forall|i: int, j: int| 0 <= i < j < s.len() ==> s[i].start_pos <= s[j].start_pos
}

/// Inserting into an ordered sequence keeps it ordered.
proof fn lemma_insert_by_start_keeps_sorted(d: DetectionModel, s: Seq<DetectionModel>)
    requires
        sorted_by_start(s),
    ensures
        sorted_by_start(insert_by_start(d, s)),
    decreases s.len(),
{
    broadcast use vstd::seq_lib::group_to_multiset_ensures;

    if s.len() == 0 {
    } else if s[0].start_pos <= d.start_pos {
        let t = s.drop_first();
        assert(sorted_by_start(t)) by {
            assert forall|i: int, j: int| 0 <= i < j < t.len() implies t[i].start_pos
                <= t[j].start_pos by {
                assert(t[i] == s[i + 1]);
                assert(t[j] == s[j + 1]);
            }
        }
        lemma_insert_by_start_keeps_sorted(d, t);
        lemma_insert_by_start_multiset(d, t);
        let r = seq![s[0]] + insert_by_start(d, t);
        assert forall|i: int, j: int| 0 <= i < j < r.len() implies r[i].start_pos
            <= r[j].start_pos by {
            if i == 0 {
                let x = insert_by_start(d, t)[j - 1];
                assert(insert_by_start(d, t).contains(x));
                assert(insert_by_start(d, t).to_multiset().count(x) > 0);
                assert(t.to_multiset().insert(d).count(x) > 0);
                if x != d {
                    assert(t.to_multiset().count(x) > 0);
                    assert(t.contains(x));
                    let k = choose|k: int| 0 <= k < t.len() && t[k] == x;
                    assert(s[0].start_pos <= s[k + 1].start_pos);
                }
            } else {
                assert(r[i] == insert_by_start(d, t)[i - 1]);
                assert(r[j] == insert_by_start(d, t)[j - 1]);
            }
        }
    } else {
        let r = seq![d] + s;
        assert forall|i: int, j: int| 0 <= i < j < r.len() implies r[i].start_pos
            <= r[j].start_pos by {
            if i == 0 {
                if j - 1 > 0 {
                    assert(s[0].start_pos <= s[j - 1].start_pos);
                }
            } else {
                assert(r[i] == s[i - 1]);
                assert(r[j] == s[j - 1]);
            }
        }
    }
}

/// The sort's result is ordered by start offset.
pub proof fn lemma_sort_by_start_sorted(s: Seq<DetectionModel>)
    ensures
        sorted_by_start(sort_by_start(s)),
    decreases s.len(),
{
    if s.len() > 0 {
        lemma_sort_by_start_sorted(s.drop_last());
        lemma_insert_by_start_keeps_sorted(s.last(), sort_by_start(s.drop_last()));
    }
}

/// Inserting adds exactly the inserted detection, with multiplicity.
pub proof fn lemma_insert_by_start_multiset(d: DetectionModel, s: Seq<DetectionModel>)
    ensures
        insert_by_start(d, s).to_multiset() =~= s.to_multiset().insert(d),
    decreases s.len(),
{
    broadcast use vstd::seq_lib::group_to_multiset_ensures;
    broadcast use vstd::seq_lib::lemma_multiset_commutative;

    if s.len() == 0 {
        assert(insert_by_start(d, s) =~= Seq::<DetectionModel>::empty().push(d));
    } else if s[0].start_pos <= d.start_pos {
        lemma_insert_by_start_multiset(d, s.drop_first());
        assert(s =~= seq![s[0]] + s.drop_first());
        assert((seq![s[0]] + insert_by_start(d, s.drop_first())).to_multiset() =~= seq![
            s[0],
        ].to_multiset().add(insert_by_start(d, s.drop_first()).to_multiset()));
        assert(s.to_multiset() =~= seq![s[0]].to_multiset().add(s.drop_first().to_multiset()));
    } else {
        assert(insert_by_start(d, s).to_multiset() =~= seq![d].to_multiset().add(s.to_multiset()));
        assert(seq![d] =~= Seq::<DetectionModel>::empty().push(d));
    }
}

/// Sorting permutes: the sorted sequence holds exactly the input's
/// detections, with multiplicity.
pub proof fn lemma_sort_by_start_multiset(s: Seq<DetectionModel>)
    ensures
        sort_by_start(s).to_multiset() =~= s.to_multiset(),
    decreases s.len(),
{
    broadcast use vstd::seq_lib::group_to_multiset_ensures;

    if s.len() > 0 {
        lemma_sort_by_start_multiset(s.drop_last());
        lemma_insert_by_start_multiset(s.last(), sort_by_start(s.drop_last()));
        assert(s =~= s.drop_last().push(s.last()));
    }
}

/// When the first `i` elements of `s` start no later than `d` and the element
/// at `i` (if any) starts later, inserting `d` splits `s` exactly at `i`.
proof fn lemma_insert_by_start_split(d: DetectionModel, s: Seq<DetectionModel>, i: int)
    requires
        0 <= i <= s.len(),
        forall|k: int| 0 <= k < i ==> #[trigger] s[k].start_pos <= d.start_pos,
        i == s.len() || s[i].start_pos > d.start_pos,
    ensures
        insert_by_start(d, s) == s.take(i) + seq![d] + s.skip(i),
    decreases i,
{
    if i == 0 {
        if s.len() == 0 {
            assert(insert_by_start(d, s) =~= s.take(0) + seq![d] + s.skip(0));
        } else {
            assert(insert_by_start(d, s) =~= s.take(0) + seq![d] + s.skip(0));
        }
    } else {
        assert(s[0].start_pos <= d.start_pos);
        let t = s.drop_first();
        assert forall|k: int| 0 <= k < i - 1 implies #[trigger] t[k].start_pos <= d.start_pos by {
            assert(t[k] == s[k + 1]);
        }
        if i - 1 < t.len() {
            assert(t[i - 1] == s[i]);
        }
        lemma_insert_by_start_split(d, t, i - 1);
        assert(insert_by_start(d, s) =~= s.take(i) + seq![d] + s.skip(i));
    }
}

/// Inserts a detection into `out` after every element whose start offset is
/// not larger, preserving the order of everything else.
fn insert_detection(out: &mut Vec<PiiDetection>, d: PiiDetection)
    ensures
        final(out).deep_view() == insert_by_start(d@, old(out).deep_view()),
{
    let ghost m = out.deep_view();
    let mut i: usize = 0;
    while i < out.len() && out[i].start_pos <= d.start_pos
        invariant
            0 <= i <= m.len(),
            m.len() == out@.len(),
            m == out.deep_view(),
            forall|k: int| 0 <= k < i ==> #[trigger] m[k].start_pos <= d@.start_pos,
        decreases m.len() - i,
    {
        assert(m[i as int] == out@[i as int]@);
        i = i + 1;
    }
    proof {
        if (i as int) < m.len() {
            assert(m[i as int] == out@[i as int]@);
        }
        lemma_insert_by_start_split(d@, m, i as int);
    }
    out.insert(i, d);
    assert(final(out).deep_view() =~= m.take(i as int) + seq![d@] + m.skip(i as int)) by {
        assert(final(out)@ == old(out)@.insert(i as int, d));
    }
}

/// Sorts a detection vector stably by start offset; the result is exactly
/// [`sort_by_start`] of the input.
pub fn sort_detections(v: Vec<PiiDetection>) -> (r: Vec<PiiDetection>)
    ensures
        r.deep_view() == sort_by_start(v.deep_view()),
{
    let ghost orig = v.deep_view();
    let mut rest = v;
    let mut out: Vec<PiiDetection> = Vec::new();
    while rest.len() > 0
        invariant
            rest@.len() <= orig.len(),
            rest.deep_view() == orig.skip(orig.len() - rest@.len()),
            out.deep_view() == sort_by_start(orig.take(orig.len() - rest@.len())),
        decreases rest@.len(),
    {
        let ghost i = orig.len() - rest@.len();
        let ghost prev = rest@;
        let ghost prev_deep = rest.deep_view();
        let d = rest.remove(0);
        proof {
            assert(rest@ =~= prev.subrange(1, prev.len() as int));
            assert forall|k: int| 0 <= k < rest@.len() implies rest.deep_view()[k] == prev_deep[k
                + 1] by {
                assert(rest@[k] == prev[k + 1]);
            }
            assert(rest.deep_view() =~= orig.skip(i + 1)) by {
                assert(prev_deep == orig.skip(i));
                assert forall|k: int| 0 <= k < rest@.len() implies #[trigger] orig.skip(i + 1)[k]
                    == orig.skip(i)[k + 1] by {}
            }
            assert(d@ == prev_deep[0]);
            assert(orig.skip(i)[0] == orig[i]);
            assert(orig.take(i + 1).drop_last() =~= orig.take(i));
            assert(orig.take(i + 1).last() == orig[i]);
        }
        insert_detection(&mut out, d);
    }
    assert(orig.take(orig.len() as int) =~= orig);
    out
}

} // verus!
