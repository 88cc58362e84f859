//! Comparison of dictionary revisions and validation of index URLs.

use vstd::prelude::*;
use crate::text::{
    chars_less, chars_lt, lemma_chars_lt_asymmetric, lemma_chars_lt_irreflexive, lemma_chars_lt_total, lemma_chars_lt_transitive,
    parse_u32, parse_u32_chars, split_chars, split_on, str_to_chars,
};

verus! {

/// The pattern of a simple version string: runs of digits separated by dots.
pub const SIMPLE_VERSION_PATTERN: &'static str = r"^(\d+\.)*\d+$";

/// What `fancy_regex` reports when `pattern` is compiled and tested against
/// `text`: `Some(found)`, or `None` where compiling or searching fails.
pub uninterp spec fn regex_match_outcome(pattern: Seq<char>, text: Seq<char>) -> Option<bool>;

/// Compiles `pattern` with `fancy_regex::Regex::new` and tests it against `text`
/// with `Regex::is_match`. The contract claims only that the outcome is a
/// function of the two strings; what a pattern matches is left unsaid.
#[verifier::external_body]
fn regex_is_match(pattern: &str, text: &str) -> (r: Option<bool>)
    ensures
        r == regex_match_outcome(pattern@, text@),
{
    let re = fancy_regex::Regex::new(pattern).ok()?;
    re.is_match(text).ok()
}

/// Whether `s` is a simple version string (`None` where the test fails).
pub open spec fn simple_version(s: Seq<char>) -> Option<bool> {
    regex_match_outcome(SIMPLE_VERSION_PATTERN@, s)
}

/// Whether every dot-separated part of `s` parses as a `u32`.
pub open spec fn parts_parse(s: Seq<char>) -> bool {
    forall|i: int| 0 <= i < split_on(s, '.').len() ==> (#[trigger] parse_u32(split_on(s, '.')[i])) is Some
}

/// The numbers written by the dot-separated parts of `s`.
pub open spec fn version_numbers(s: Seq<char>) -> Seq<u32> {
    split_on(s, '.').map_values(|p: Seq<char>| parse_u32(p)->0)
}

/// Lexicographic order on number sequences of equal length: the first
/// position where they differ decides; equal sequences are not ordered.
pub open spec fn numbers_lt(a: Seq<u32>, b: Seq<u32>) -> bool
    decreases a.len(),
{
    if a.len() == 0 || b.len() == 0 {
        false
    } else if a[0] != b[0] {
        a[0] < b[0]
    } else {
        numbers_lt(a.subrange(1, a.len() as int), b.subrange(1, b.len() as int))
    }
}

/// The inputs on which a revision comparison completes: both regex tests that
/// it makes succeed, and where both strings are simple versions, all their
/// parts parse as `u32`.
pub open spec fn revisions_comparable(current: Seq<char>, latest: Seq<char>) -> bool {
    match simple_version(current) {
        None => false,
        Some(false) => true,
        Some(true) => match simple_version(latest) {
            None => false,
            Some(false) => true,
            Some(true) => parts_parse(current) && parts_parse(latest),
        },
    }
}

/// The order of two revisions, given whether both are simple versions: two
/// simple versions with the same number of parts compare part by part as
/// numbers; any other pair compares as strings.
pub open spec fn revision_order(current: Seq<char>, latest: Seq<char>, both_simple: bool) -> bool {
    if !both_simple {
        chars_lt(current, latest)
    } else if version_numbers(current).len() != version_numbers(latest).len() {
        chars_lt(current, latest)
    } else {
        numbers_lt(version_numbers(current), version_numbers(latest))
    }
}

/// Whether revision `current` is older than `latest` (see [`revision_order`]).
pub open spec fn revision_is_older(current: Seq<char>, latest: Seq<char>) -> bool {
    revision_order(
        current,
        latest,
        simple_version(current) == Some(true) && simple_version(latest) == Some(true),
    )
}

/// The numbers of the dot-separated parts of `s`, or `None` if a part does not
/// parse as a `u32`.
fn parse_version_numbers(s: &[char]) -> (r: Option<Vec<u32>>)
    ensures
        r is Some <==> parts_parse(s@),
        r matches Some(v) ==> v@ == version_numbers(s@),
{
    let parts = split_chars(s, '.');
    let ghost all = split_on(s@, '.');
    let mut out: Vec<u32> = Vec::new();
    let mut i: usize = 0;
    while i < parts.len()
        invariant
            i <= parts@.len() == all.len(),
            all == split_on(s@, '.'),
            forall|k: int| 0 <= k < parts@.len() ==> #[trigger] parts@[k]@ == all[k],
            out@.len() == i,
            forall|k: int| 0 <= k < i ==> (#[trigger] parse_u32(all[k])) is Some,
            forall|k: int| 0 <= k < i ==> out@[k] == #[trigger] parse_u32(all[k])->0,
        decreases parts.len() - i,
    {
        match parse_u32_chars(parts[i].as_slice()) {
            Some(v) => out.push(v),
            None => {
                assert(parse_u32(all[i as int]) is None);
                return None;
            },
        }
        i += 1;
    }
    assert(out@ =~= version_numbers(s@));
    Some(out)
}

fn numbers_less(a: &Vec<u32>, b: &Vec<u32>) -> (r: bool)
    requires
        a@.len() == b@.len(),
    ensures
        r == numbers_lt(a@, b@),
{
    let mut i: usize = 0;
    assert(a@.subrange(0, a@.len() as int) =~= a@);
    assert(b@.subrange(0, b@.len() as int) =~= b@);
    while i < a.len()
        invariant
            i <= a@.len() == b@.len(),
            numbers_lt(a@, b@) == numbers_lt(
                a@.subrange(i as int, a@.len() as int),
                b@.subrange(i as int, b@.len() as int),
            ),
        decreases a.len() - i,
    {
        let ghost ra = a@.subrange(i as int, a@.len() as int);
        let ghost rb = b@.subrange(i as int, b@.len() as int);
        assert(ra[0] == a@[i as int] && rb[0] == b@[i as int]);
        if a[i] != b[i] {
            return a[i] < b[i];
        }
        assert(ra.subrange(1, ra.len() as int) =~= a@.subrange(i + 1, a@.len() as int));
        assert(rb.subrange(1, rb.len() as int) =~= b@.subrange(i + 1, b@.len() as int));
        i += 1;
    }
    false
}

/// The order of two revisions, given whether both are simple versions; `None`
/// where both are simple and a part does not fit in `u32`.
pub fn compare_revision_texts(current: &str, latest: &str, both_simple: bool) -> (r: Option<bool>)
    ensures
        r is Some <==> (!both_simple || (parts_parse(current@) && parts_parse(latest@))),
        r matches Some(b) ==> b == revision_order(current@, latest@, both_simple),
{
    let current_chars = str_to_chars(current);
    let latest_chars = str_to_chars(latest);
    if !both_simple {
        return Some(chars_less(current_chars.as_slice(), latest_chars.as_slice()));
    }
    let current_parts = parse_version_numbers(current_chars.as_slice())?;
    let latest_parts = parse_version_numbers(latest_chars.as_slice())?;
    if current_parts.len() != latest_parts.len() {
        return Some(chars_less(current_chars.as_slice(), latest_chars.as_slice()));
    }
    Some(numbers_less(&current_parts, &latest_parts))
}

/// Whether revision `current` is older than `latest`, or `None` on the inputs
/// on which the comparison cannot complete (a regex test fails, or a part of a
/// simple version does not fit in `u32`). `latest` is tested only where
/// `current` is a simple version.
pub fn try_compare_revisions(current: &str, latest: &str) -> (r: Option<bool>)
    ensures
        r is Some <==> revisions_comparable(current@, latest@),
        r matches Some(b) ==> b == revision_is_older(current@, latest@),
        current@ == latest@ ==> r != Some(true),
{
    proof {
        lemma_revision_not_older_than_itself(current@);
    }
    let current_simple = regex_is_match(SIMPLE_VERSION_PATTERN, current)?;
    let both_simple = if current_simple {
        regex_is_match(SIMPLE_VERSION_PATTERN, latest)?
    } else {
        false
    };
    compare_revision_texts(current, latest, both_simple)
}

/// Whether revision `current` is older than `latest`: simple versions with the
/// same number of parts compare numerically part by part, all else compares
/// as strings.
pub fn compare_revisions(current: &str, latest: &str) -> (r: bool)
    requires
        revisions_comparable(current@, latest@),
    ensures
        r == revision_is_older(current@, latest@),
        current@ == latest@ ==> !r,
{
    proof {
        lemma_revision_not_older_than_itself(current@);
    }
    match try_compare_revisions(current, latest) {
        Some(b) => b,
        None => false,
    }
}

proof fn lemma_numbers_lt_irreflexive(a: Seq<u32>)
    ensures
        !numbers_lt(a, a),
    decreases a.len(),
{
    if a.len() > 0 {
        lemma_numbers_lt_irreflexive(a.subrange(1, a.len() as int));
    }
}

proof fn lemma_numbers_lt_asymmetric(a: Seq<u32>, b: Seq<u32>)
    ensures
        !(numbers_lt(a, b) && numbers_lt(b, a)),
    decreases a.len(),
{
    if a.len() > 0 && b.len() > 0 && a[0] == b[0] {
        lemma_numbers_lt_asymmetric(a.subrange(1, a.len() as int), b.subrange(1, b.len() as int));
    }
}

proof fn lemma_numbers_lt_transitive(a: Seq<u32>, b: Seq<u32>, c: Seq<u32>)
    requires
        numbers_lt(a, b),
        numbers_lt(b, c),
    ensures
        numbers_lt(a, c),
    decreases a.len(),
{
    if a.len() > 0 && b.len() > 0 && c.len() > 0 && a[0] == b[0] && b[0] == c[0] {
        lemma_numbers_lt_transitive(
            a.subrange(1, a.len() as int),
            b.subrange(1, b.len() as int),
            c.subrange(1, c.len() as int),
        );
    }
}

proof fn lemma_numbers_lt_total(a: Seq<u32>, b: Seq<u32>)
    requires
        a.len() == b.len(),
        a != b,
    ensures
        numbers_lt(a, b) || numbers_lt(b, a),
    decreases a.len(),
{
    if a.len() == 0 {
        assert(a =~= b);
    } else if a[0] == b[0] {
        let (x, y) = (a.subrange(1, a.len() as int), b.subrange(1, b.len() as int));
        if x == y {
            assert(a =~= seq![a[0]] + x);
            assert(b =~= seq![b[0]] + y);
        }
        lemma_numbers_lt_total(x, y);
    }
}

/// Of two different revisions, one is older than the other: two that compare
/// as numbers differ in some part, any other two differ as text.
pub proof fn lemma_revision_order_total(a: Seq<char>, b: Seq<char>)
    requires
        if compare_as_numbers(a, b) {
            version_numbers(a) != version_numbers(b)
        } else {
            a != b
        },
    ensures
        revision_is_older(a, b) || revision_is_older(b, a),
{
    if compare_as_numbers(a, b) {
        lemma_numbers_lt_total(version_numbers(a), version_numbers(b));
    } else {
        lemma_chars_lt_total(a, b);
    }
}

/// Whether two revisions compare as numbers: both are simple versions with
/// the same number of parts.
pub open spec fn compare_as_numbers(a: Seq<char>, b: Seq<char>) -> bool {
    &&& simple_version(a) == Some(true)
    &&& simple_version(b) == Some(true)
    &&& version_numbers(a).len() == version_numbers(b).len()
}

/// Revision order is transitive among revisions that compare the same way
/// pairwise: all as numbers, or all as strings.
pub proof fn lemma_revision_order_transitive(a: Seq<char>, b: Seq<char>, c: Seq<char>)
    requires
        revision_is_older(a, b),
        revision_is_older(b, c),
        compare_as_numbers(a, b) == compare_as_numbers(b, c),
        compare_as_numbers(b, c) == compare_as_numbers(a, c),
    ensures
        revision_is_older(a, c),
{
    if compare_as_numbers(a, b) {
        lemma_numbers_lt_transitive(version_numbers(a), version_numbers(b), version_numbers(c));
    } else {
        lemma_chars_lt_transitive(a, b, c);
    }
}

/// No revision is older than itself.
pub proof fn lemma_revision_not_older_than_itself(v: Seq<char>)
    ensures
        !revision_is_older(v, v),
{
    lemma_chars_lt_irreflexive(v);
    lemma_numbers_lt_irreflexive(version_numbers(v));
}

/// Of two revisions, at most one is older than the other: of the two calls
/// `compare_revisions(a, b)` and `compare_revisions(b, a)` (which give
/// [`revision_is_older`]) at most one is true.
pub proof fn lemma_revision_order_asymmetric(a: Seq<char>, b: Seq<char>)
    ensures
        !(revision_is_older(a, b) && revision_is_older(b, a)),
{
    lemma_chars_lt_asymmetric(a, b);
    lemma_numbers_lt_asymmetric(version_numbers(a), version_numbers(b));
}

/// What `url::Url::parse` reports for `input`: success, or the parse error.
pub uninterp spec fn url_parse_result(input: Seq<char>) -> Result<(), url::ParseError>;

/// Parses `input` with `url::Url::parse` and keeps only whether it succeeded
/// and, if not, its error. The contract claims that this outcome is a function
/// of the input; which strings are URLs is left unsaid.
#[verifier::external_body]
fn url_parse(input: &str) -> (r: Result<(), url::ParseError>)
    ensures
        r == url_parse_result(input@),
{
    match url::Url::parse(input) {
        Ok(_) => Ok(()),
        Err(e) => Err(e),
    }
}

/// Succeeds if `s` parses as a URL, else gives the parse error.
pub fn validate_url(s: &str) -> (r: Result<(), url::ParseError>)
    ensures
        r == url_parse_result(s@),
{
    url_parse(s)
}

} // verus!
