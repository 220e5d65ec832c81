//! Compliance scoring: reduces a detection set to one normalized score in
//! basis points (10000 = fully compliant) and to a deterministic list of
//! advisory lines, one per distinct category present. The chatbot and the
//! enforcer phrase their lines differently, so each has its own renderer
//! over the same grouping.

use vstd::prelude::*;
use vstd::string::StringExecFns;

use crate::types::{DetectionModel, PiiDetection, PiiType};

verus! {

/// Sum of the confidences of a detection set, in basis points.
pub open spec fn sum_confidence(dets: Seq<DetectionModel>) -> int
    decreases dets.len(),
{
    if dets.len() == 0 {
        0
    } else {
        sum_confidence(dets.drop_last()) + dets.last().confidence
    }
}

/// The compliance score of a detection set, in basis points. An empty set
/// scores 10000. Otherwise the score is the average confidence minus a
/// penalty of 1000 per detection capped at 5000, floored at zero.
pub open spec fn score_spec(dets: Seq<DetectionModel>) -> int {
    if dets.len() == 0 {
        10000
    } else {
        let avg = sum_confidence(dets) / (dets.len() as int);
        let penalty = if dets.len() < 5 {
            1000 * dets.len() as int
        } else {
            5000
        };
        if avg >= penalty {
            avg - penalty
        } else {
            0
        }
    }
}

/// Computes the compliance score of a detection set.
pub fn calculate_compliance_score(detections: &Vec<PiiDetection>) -> (r: u32)
    ensures
        r as int == score_spec(detections.deep_view()),
{
    let ghost m = detections.deep_view();
    let n = detections.len();
    if n == 0 {
        return 10000;
    }
    let mut total: u128 = 0;
    let mut i: usize = 0;
    while i < n
        invariant
            0 <= i <= n,
            n == m.len(),
            m == detections.deep_view(),
            total == sum_confidence(m.take(i as int)),
            total <= (i as int) * 0xffff_ffff,
        decreases n - i,
    {
        proof {
            assert(m.take(i + 1).drop_last() =~= m.take(i as int));
            assert(m.take(i + 1).last() == m[i as int]);
        }
        total = total + (detections[i].confidence as u128);
        i = i + 1;
    }
    assert(m.take(n as int) =~= m);
    let avg: u128 = total / (n as u128);
    proof {
        assert(avg <= 0xffff_ffff) by (nonlinear_arith)
            requires
                total <= (n as int) * 0xffff_ffff,
                n > 0,
                avg == total / (n as u128),
        ;
    }
    let penalty: u128 = if n >= 5 {
        5000
    } else {
        (n as u128) * 1000
    };
    let score: u128 = if avg >= penalty {
        avg - penalty
    } else {
        0
    };
    score as u32
}

/// Lower and upper bounds on the confidence sum of a set whose confidences
/// all lie in [0, 10000].
proof fn lemma_sum_confidence_bounds(dets: Seq<DetectionModel>)
    requires
        forall|i: int| 0 <= i < dets.len() ==> 0 <= #[trigger] dets[i].confidence <= 10000,
    ensures
        0 <= sum_confidence(dets) <= 10000 * dets.len(),
    decreases dets.len(),
{
    if dets.len() > 0 {
        assert forall|i: int| 0 <= i < dets.drop_last().len() implies 0 <= #[trigger] dets.drop_last()[i].confidence
            <= 10000 by {
            assert(dets.drop_last()[i] == dets[i]);
        }
        lemma_sum_confidence_bounds(dets.drop_last());
    }
}

/// The confidence sum of a set whose confidences all equal `c`.
proof fn lemma_sum_confidence_const(dets: Seq<DetectionModel>, c: int)
    requires
        forall|i: int| 0 <= i < dets.len() ==> #[trigger] dets[i].confidence == c,
    ensures
        sum_confidence(dets) == dets.len() * c,
    decreases dets.len(),
{
    if dets.len() > 0 {
        assert forall|i: int| 0 <= i < dets.drop_last().len() implies #[trigger] dets.drop_last()[i].confidence
            == c by {
            assert(dets.drop_last()[i] == dets[i]);
        }
        lemma_sum_confidence_const(dets.drop_last(), c);
        assert((dets.len() - 1) * c + c == dets.len() * c) by (nonlinear_arith);
    }
}

/// The score of any detection set with confidences in [0, 10000] lies in
/// [0, 10000]; the empty set scores exactly 10000.
pub proof fn lemma_score_bounds(dets: Seq<DetectionModel>)
    requires
        forall|i: int| 0 <= i < dets.len() ==> 0 <= #[trigger] dets[i].confidence <= 10000,
    ensures
        0 <= score_spec(dets) <= 10000,
        dets.len() == 0 ==> score_spec(dets) == 10000,
{
    if dets.len() > 0 {
        lemma_sum_confidence_bounds(dets);
        let n = dets.len() as int;
        assert(sum_confidence(dets) / n <= 10000) by (nonlinear_arith)
            requires
                n > 0,
                0 <= sum_confidence(dets) <= 10000 * n,
        ;
        assert(sum_confidence(dets) / n >= 0) by (nonlinear_arith)
            requires
                n > 0,
                sum_confidence(dets) >= 0,
        ;
    }
}

/// With a fixed confidence value, the score never increases as the number of
/// detections grows: more detections of equal confidence cannot make a text
/// look more compliant.
pub proof fn lemma_score_monotone_in_count(a: Seq<DetectionModel>, b: Seq<DetectionModel>, c: int)
    requires
        0 <= c <= 10000,
        forall|i: int| 0 <= i < a.len() ==> #[trigger] a[i].confidence == c,
        forall|i: int| 0 <= i < b.len() ==> #[trigger] b[i].confidence == c,
        a.len() <= b.len(),
    ensures
        score_spec(b) <= score_spec(a),
{
    lemma_score_bounds(a);
    lemma_score_bounds(b);
    if a.len() > 0 {
        lemma_sum_confidence_const(a, c);
        lemma_sum_confidence_const(b, c);
        let na = a.len() as int;
        let nb = b.len() as int;
        assert((na * c) / na == c) by (nonlinear_arith)
            requires
                na > 0,
        ;
        assert((nb * c) / nb == c) by (nonlinear_arith)
            requires
                nb > 0,
        ;
    }
}

/// Whether some detection of the set falls under category `c`.
pub open spec fn has_category(dets: Seq<DetectionModel>, c: PiiType) -> bool {
    exists|i: int| 0 <= i < dets.len() && #[trigger] dets[i].pii_type == c
}

/// Number of detections of the set falling under category `c`.
pub open spec fn count_category(dets: Seq<DetectionModel>, c: PiiType) -> int
    decreases dets.len(),
{
    if dets.len() == 0 {
        0
    } else {
        count_category(dets.drop_last(), c) + if dets.last().pii_type == c {
            1int
        } else {
            0int
        }
    }
}

/// Every category, in the fixed order of the enumeration.
pub open spec fn all_categories() -> Seq<PiiType> {
    seq![
        PiiType::Email,
        PiiType::PhoneNumber,
        PiiType::SocialSecurityNumber,
        PiiType::CreditCardNumber,
        PiiType::IpAddress,
        PiiType::DateOfBirth,
        PiiType::Address,
        PiiType::Name,
        PiiType::Unknown,
    ]
}

/// The decimal digit character of a value in [0, 9].
pub open spec fn digit_spec(d: int) -> char {
    if d == 0 {
        '0'
    } else if d == 1 {
        '1'
    } else if d == 2 {
        '2'
    } else if d == 3 {
        '3'
    } else if d == 4 {
        '4'
    } else if d == 5 {
        '5'
    } else if d == 6 {
        '6'
    } else if d == 7 {
        '7'
    } else if d == 8 {
        '8'
    } else {
        '9'
    }
}

/// The decimal digits of a non-negative value, most significant first.
pub open spec fn decimal_spec(n: int) -> Seq<char>
    decreases n,
{
    if n < 10 {
        seq![digit_spec(n)]
    } else {
        decimal_spec(n / 10).push(digit_spec(n % 10))
    }
}

/// Appends the character of one decimal digit.
fn append_digit(s: &mut String, d: usize)
    requires
        d < 10,
    ensures
        final(s)@ == old(s)@ + seq![digit_spec(d as int)],
{
    match d {
        0 => s.append("0"),
        1 => s.append("1"),
        2 => s.append("2"),
        3 => s.append("3"),
        4 => s.append("4"),
        5 => s.append("5"),
        6 => s.append("6"),
        7 => s.append("7"),
        8 => s.append("8"),
        _ => s.append("9"),
    }
    proof {
        reveal_strlit("0");
        reveal_strlit("1");
        reveal_strlit("2");
        reveal_strlit("3");
        reveal_strlit("4");
        reveal_strlit("5");
        reveal_strlit("6");
        reveal_strlit("7");
        reveal_strlit("8");
        reveal_strlit("9");
        assert(final(s)@ =~= old(s)@ + seq![digit_spec(d as int)]);
    }
}

/// Appends the decimal form of `n`.
fn append_decimal(s: &mut String, n: usize)
    ensures
        final(s)@ == old(s)@ + decimal_spec(n as int),
    decreases n,
{
    if n >= 10 {
        append_decimal(s, n / 10);
        append_digit(s, n % 10);
        proof {
            assert(final(s)@ =~= old(s)@ + decimal_spec(n as int));
        }
    } else {
        append_digit(s, n);
    }
}

/// Counts the detections of the vector falling under category `c`.
pub fn count_category_exec(detections: &Vec<PiiDetection>, c: PiiType) -> (n: usize)
    ensures
        n as int == count_category(detections.deep_view(), c),
        n <= detections@.len(),
{
    let ghost m = detections.deep_view();
    let mut n: usize = 0;
    let mut i: usize = 0;
    while i < detections.len()
        invariant
            0 <= i <= m.len(),
            m.len() == detections@.len(),
            m == detections.deep_view(),
            n as int == count_category(m.take(i as int), c),
            n <= i,
        decreases m.len() - i,
    {
        proof {
            assert(m.take(i + 1).drop_last() =~= m.take(i as int));
            assert(m.take(i + 1).last() == m[i as int]);
            assert(m[i as int] == detections@[i as int]@);
        }
        if detections[i].pii_type == c {
            n = n + 1;
        }
        i = i + 1;
    }
    assert(m.take(m.len() as int) =~= m);
    n
}

/// Whether any detection of the vector falls under category `c`.
pub fn contains_category(detections: &Vec<PiiDetection>, c: PiiType) -> (r: bool)
    ensures
        r == has_category(detections.deep_view(), c),
{
    let ghost m = detections.deep_view();
    let mut i: usize = 0;
    while i < detections.len()
        invariant
            0 <= i <= m.len(),
            m.len() == detections@.len(),
            m == detections.deep_view(),
            forall|k: int| 0 <= k < i ==> #[trigger] m[k].pii_type != c,
        decreases m.len() - i,
    {
        if detections[i].pii_type == c {
            proof {
                assert(m[i as int].pii_type == c);
            }
            return true;
        }
        proof {
            assert(m[i as int] == detections@[i as int]@);
        }
        i = i + 1;
    }
    false
}

/// Appends one fixed line to a list of strings.
pub(crate) fn push_line(r: &mut Vec<String>, line: &str)
    ensures
        final(r).deep_view() == old(r).deep_view().push(line@),
{
    push_string(r, String::from_str(line));
}

/// Appends one built line to a list of strings.
fn push_string(r: &mut Vec<String>, s: String)
    ensures
        final(r).deep_view() == old(r).deep_view().push(s@),
{
    let ghost prev = r.deep_view();
    let ghost prev_sh = r@;
    let ghost sv = s@;
    r.push(s);
    proof {
        assert(r@ == prev_sh.push(s));
        assert(prev.len() == prev_sh.len());
        assert forall|j: int| 0 <= j < r@.len() implies r.deep_view()[j] == prev.push(sv)[j] by {
            if j < prev_sh.len() {
                assert(prev_sh.push(s)[j] == prev_sh[j]);
            } else {
                assert(prev_sh.push(s)[j] == s);
            }
        }
        assert(r.deep_view() =~= prev.push(sv));
    }
}

/// Every category as an executable vector, in the enumeration's order.
fn all_categories_vec() -> (r: Vec<PiiType>)
    ensures
        r@ == all_categories(),
{
    let mut v: Vec<PiiType> = Vec::new();
    v.push(PiiType::Email);
    v.push(PiiType::PhoneNumber);
    v.push(PiiType::SocialSecurityNumber);
    v.push(PiiType::CreditCardNumber);
    v.push(PiiType::IpAddress);
    v.push(PiiType::DateOfBirth);
    v.push(PiiType::Address);
    v.push(PiiType::Name);
    v.push(PiiType::Unknown);
    assert(v@ =~= all_categories());
    v
}

/// The chatbot's affirmative line, reported when no PII was detected.
pub open spec fn chatbot_affirmative_line_spec() -> Seq<char> {
    "✅ Message is compliant"@
}

/// The chatbot's advisory line for one detected category: the category with
/// the severity its policy assigns to it. Fixed per category.
pub open spec fn chatbot_advisory_line_spec(c: PiiType) -> Seq<char> {
    match c {
        PiiType::Email => "⚠️  Email detected (Severity: Medium) - Consider redaction"@,
        PiiType::PhoneNumber => "⚠️  PhoneNumber detected (Severity: Medium) - Consider redaction"@,
        PiiType::SocialSecurityNumber => "⚠️  SocialSecurityNumber detected (Severity: Critical) - Consider redaction"@,
        PiiType::CreditCardNumber => "⚠️  CreditCardNumber detected (Severity: High) - Consider redaction"@,
        PiiType::IpAddress => "⚠️  IpAddress detected (Severity: Medium) - Consider redaction"@,
        PiiType::DateOfBirth => "⚠️  DateOfBirth detected (Severity: Medium) - Consider redaction"@,
        PiiType::Address => "⚠️  Address detected (Severity: Low) - Consider redaction"@,
        PiiType::Name => "⚠️  Name detected (Severity: Medium) - Consider redaction"@,
        PiiType::Unknown => "⚠️  Unknown detected (Severity: Medium) - Consider redaction"@,
    }
}

/// The chatbot's first fixed closing recommendation.
pub open spec fn chatbot_closing_redact_line_spec() -> Seq<char> {
    "🔒 Apply real-time redaction"@
}

/// The chatbot's second fixed closing recommendation.
pub open spec fn chatbot_closing_log_line_spec() -> Seq<char> {
    "📋 Log compliance violation"@
}

/// The chatbot's advisory line of category `c`, once, when the set contains
/// it.
pub open spec fn chatbot_chunk(dets: Seq<DetectionModel>, c: PiiType) -> Seq<Seq<char>> {
    if has_category(dets, c) {
        seq![chatbot_advisory_line_spec(c)]
    } else {
        Seq::empty()
    }
}

/// The chatbot's advisory lines for the categories of `cats` present in the
/// set, in the order of `cats`.
pub open spec fn chatbot_lines_for(cats: Seq<PiiType>, dets: Seq<DetectionModel>) -> Seq<Seq<char>>
    decreases cats.len(),
{
    if cats.len() == 0 {
        Seq::empty()
    } else {
        chatbot_chunk(dets, cats[0]) + chatbot_lines_for(cats.drop_first(), dets)
    }
}

/// The chatbot's recommendations: one affirmative line on an empty set,
/// else one advisory line per distinct category present, in the fixed
/// category order, followed by the two fixed closing recommendations.
pub open spec fn chatbot_recommendations_spec(dets: Seq<DetectionModel>) -> Seq<Seq<char>> {
    if dets.len() == 0 {
        seq![chatbot_affirmative_line_spec()]
    } else {
        chatbot_lines_for(all_categories(), dets) + seq![
            chatbot_closing_redact_line_spec(),
            chatbot_closing_log_line_spec(),
        ]
    }
}

/// Appends the chatbot's advisory line of category `c`.
fn push_chatbot_advisory(r: &mut Vec<String>, c: PiiType)
    ensures
        final(r).deep_view() == old(r).deep_view().push(chatbot_advisory_line_spec(c)),
{
    match c {
        PiiType::Email => push_line(r, "⚠️  Email detected (Severity: Medium) - Consider redaction"),
        PiiType::PhoneNumber => push_line(
            r,
            "⚠️  PhoneNumber detected (Severity: Medium) - Consider redaction",
        ),
        PiiType::SocialSecurityNumber => push_line(
            r,
            "⚠️  SocialSecurityNumber detected (Severity: Critical) - Consider redaction",
        ),
        PiiType::CreditCardNumber => push_line(
            r,
            "⚠️  CreditCardNumber detected (Severity: High) - Consider redaction",
        ),
        PiiType::IpAddress => push_line(
            r,
            "⚠️  IpAddress detected (Severity: Medium) - Consider redaction",
        ),
        PiiType::DateOfBirth => push_line(
            r,
            "⚠️  DateOfBirth detected (Severity: Medium) - Consider redaction",
        ),
        PiiType::Address => push_line(
            r,
            "⚠️  Address detected (Severity: Low) - Consider redaction",
        ),
        PiiType::Name => push_line(r, "⚠️  Name detected (Severity: Medium) - Consider redaction"),
        PiiType::Unknown => push_line(
            r,
            "⚠️  Unknown detected (Severity: Medium) - Consider redaction",
        ),
    }
}

/// Produces the chatbot's recommendations for a detection set:
/// deterministic for a given input, grouped by distinct category, never
/// empty.
pub fn generate_chatbot_recommendations(detections: &Vec<PiiDetection>) -> (r: Vec<String>)
    ensures
        r.deep_view() == chatbot_recommendations_spec(detections.deep_view()),
{
    let ghost m = detections.deep_view();
    let mut r: Vec<String> = Vec::new();
    if detections.len() == 0 {
        push_line(&mut r, "✅ Message is compliant");
        assert(r.deep_view() =~= chatbot_recommendations_spec(m));
        return r;
    }
    let cats = all_categories_vec();
    let ghost ca = all_categories();
    let mut i: usize = 0;
    assert(ca.skip(0) =~= ca);
    while i < cats.len()
        invariant
            0 <= i <= ca.len(),
            cats@ == ca,
            m == detections.deep_view(),
            chatbot_lines_for(ca, m) == r.deep_view() + chatbot_lines_for(ca.skip(i as int), m),
        decreases ca.len() - i,
    {
        let c = cats[i];
        let ghost pre = r.deep_view();
        if contains_category(detections, c) {
            push_chatbot_advisory(&mut r, c);
        }
        proof {
            assert(ca.skip(i as int).drop_first() =~= ca.skip(i + 1));
            assert(ca.skip(i as int)[0] == ca[i as int]);
            assert(r.deep_view() + chatbot_lines_for(ca.skip(i + 1), m) =~= pre
                + chatbot_lines_for(ca.skip(i as int), m));
        }
        i = i + 1;
    }
    assert(ca.skip(ca.len() as int) =~= Seq::<PiiType>::empty());
    assert(r.deep_view() =~= chatbot_lines_for(ca, m));
    let ghost lines = r.deep_view();
    push_line(&mut r, "🔒 Apply real-time redaction");
    push_line(&mut r, "📋 Log compliance violation");
    assert(r.deep_view() =~= lines + seq![
        chatbot_closing_redact_line_spec(),
        chatbot_closing_log_line_spec(),
    ]);
    r
}

/// The enforcer's affirmative line, reported when no PII was detected.
pub open spec fn enforcer_affirmative_line_spec() -> Seq<char> {
    "✅ No PII detected - text is compliant"@
}

/// The category's name in lower case, as the enforcer's lines spell it.
pub open spec fn category_lower_name_spec(c: PiiType) -> Seq<char> {
    match c {
        PiiType::Email => "email"@,
        PiiType::PhoneNumber => "phonenumber"@,
        PiiType::SocialSecurityNumber => "socialsecuritynumber"@,
        PiiType::CreditCardNumber => "creditcardnumber"@,
        PiiType::IpAddress => "ipaddress"@,
        PiiType::DateOfBirth => "dateofbirth"@,
        PiiType::Address => "address"@,
        PiiType::Name => "name"@,
        PiiType::Unknown => "unknown"@,
    }
}

/// The enforcer's advisory line for `n` detections of category `c`.
pub open spec fn enforcer_advisory_line_spec(c: PiiType, n: int) -> Seq<char> {
    "⚠️  Found "@ + decimal_spec(n) + " "@ + category_lower_name_spec(c)
        + " items - consider redaction or masking"@
}

/// The enforcer's first fixed closing recommendation.
pub open spec fn enforcer_closing_protect_line_spec() -> Seq<char> {
    "🔒 Apply appropriate data protection measures"@
}

/// The enforcer's second fixed closing recommendation.
pub open spec fn enforcer_closing_review_line_spec() -> Seq<char> {
    "📋 Review data handling policies"@
}

/// The enforcer's advisory line of category `c` with its count, once, when
/// the set contains it.
pub open spec fn enforcer_chunk(dets: Seq<DetectionModel>, c: PiiType) -> Seq<Seq<char>> {
    if has_category(dets, c) {
        seq![enforcer_advisory_line_spec(c, count_category(dets, c))]
    } else {
        Seq::empty()
    }
}

/// The enforcer's advisory lines for the categories of `cats` present in
/// the set, in the order of `cats`.
pub open spec fn enforcer_lines_for(cats: Seq<PiiType>, dets: Seq<DetectionModel>) -> Seq<
    Seq<char>,
>
    decreases cats.len(),
{
    if cats.len() == 0 {
        Seq::empty()
    } else {
        enforcer_chunk(dets, cats[0]) + enforcer_lines_for(cats.drop_first(), dets)
    }
}

/// The enforcer's recommendations: one affirmative line on an empty set,
/// else one counted advisory line per distinct category present, in the
/// fixed category order, followed by the two fixed closing recommendations.
pub open spec fn enforcer_recommendations_spec(dets: Seq<DetectionModel>) -> Seq<Seq<char>> {
    if dets.len() == 0 {
        seq![enforcer_affirmative_line_spec()]
    } else {
        enforcer_lines_for(all_categories(), dets) + seq![
            enforcer_closing_protect_line_spec(),
            enforcer_closing_review_line_spec(),
        ]
    }
}

/// Appends the lower-case name of a category.
fn append_category_lower(s: &mut String, c: PiiType)
    ensures
        final(s)@ == old(s)@ + category_lower_name_spec(c),
{
    match c {
        PiiType::Email => s.append("email"),
        PiiType::PhoneNumber => s.append("phonenumber"),
        PiiType::SocialSecurityNumber => s.append("socialsecuritynumber"),
        PiiType::CreditCardNumber => s.append("creditcardnumber"),
        PiiType::IpAddress => s.append("ipaddress"),
        PiiType::DateOfBirth => s.append("dateofbirth"),
        PiiType::Address => s.append("address"),
        PiiType::Name => s.append("name"),
        PiiType::Unknown => s.append("unknown"),
    }
}

/// Builds the enforcer's advisory line for `n` detections of category `c`.
fn enforcer_advisory_line(c: PiiType, n: usize) -> (line: String)
    ensures
        line@ == enforcer_advisory_line_spec(c, n as int),
{
    let mut line = String::from_str("⚠️  Found ");
    append_decimal(&mut line, n);
    line.append(" ");
    append_category_lower(&mut line, c);
    line.append(" items - consider redaction or masking");
    assert(line@ =~= enforcer_advisory_line_spec(c, n as int));
    line
}

/// Produces the enforcer's recommendations for a detection set:
/// deterministic for a given input, grouped by distinct category with its
/// count, never empty.
pub fn generate_enforcer_recommendations(detections: &Vec<PiiDetection>) -> (r: Vec<String>)
    ensures
        r.deep_view() == enforcer_recommendations_spec(detections.deep_view()),
{
    let ghost m = detections.deep_view();
    let mut r: Vec<String> = Vec::new();
    if detections.len() == 0 {
        push_line(&mut r, "✅ No PII detected - text is compliant");
        assert(r.deep_view() =~= enforcer_recommendations_spec(m));
        return r;
    }
    let cats = all_categories_vec();
    let ghost ca = all_categories();
    let mut i: usize = 0;
    assert(ca.skip(0) =~= ca);
    while i < cats.len()
        invariant
            0 <= i <= ca.len(),
            cats@ == ca,
            m == detections.deep_view(),
            enforcer_lines_for(ca, m) == r.deep_view() + enforcer_lines_for(ca.skip(i as int), m),
        decreases ca.len() - i,
    {
        let c = cats[i];
        let ghost pre = r.deep_view();
        if contains_category(detections, c) {
            let n = count_category_exec(detections, c);
            push_string(&mut r, enforcer_advisory_line(c, n));
        }
        proof {
            assert(ca.skip(i as int).drop_first() =~= ca.skip(i + 1));
            assert(ca.skip(i as int)[0] == ca[i as int]);
            assert(r.deep_view() + enforcer_lines_for(ca.skip(i + 1), m) =~= pre
                + enforcer_lines_for(ca.skip(i as int), m));
        }
        i = i + 1;
    }
    assert(ca.skip(ca.len() as int) =~= Seq::<PiiType>::empty());
    assert(r.deep_view() =~= enforcer_lines_for(ca, m));
    let ghost lines = r.deep_view();
    push_line(&mut r, "🔒 Apply appropriate data protection measures");
    push_line(&mut r, "📋 Review data handling policies");
    assert(r.deep_view() =~= lines + seq![
        enforcer_closing_protect_line_spec(),
        enforcer_closing_review_line_spec(),
    ]);
    r
}

} // verus!
