//! Character-level helpers shared by the rest of the library: conversions
//! between strings and character vectors, splitting on spaces, reversal and
//! Unicode white-space trimming.

use vstd::prelude::*;
use crate::errors::error_helpers::join_with;

verus! {

/// The Unicode `White_Space` property (the set that `char::is_whitespace` tests).
pub open spec fn is_white_space(c: char) -> bool {
    let u = c as u32;
    ||| 0x09 <= u <= 0x0D
    ||| u == 0x20
    ||| u == 0x85
    ||| u == 0xA0
    ||| u == 0x1680
    ||| 0x2000 <= u <= 0x200A
    ||| u == 0x2028
    ||| u == 0x2029
    ||| u == 0x202F
    ||| u == 0x205F
    ||| u == 0x3000
}

/// Executable test of [`is_white_space`].
pub fn char_is_white_space(c: char) -> (r: bool)
    ensures
        r == is_white_space(c),
{
    let u = c as u32;
    (0x09 <= u && u <= 0x0D) || u == 0x20 || u == 0x85 || u == 0xA0 || u == 0x1680 || (0x2000
        <= u && u <= 0x200A) || u == 0x2028 || u == 0x2029 || u == 0x202F || u == 0x205F || u
        == 0x3000
}

/// `s` with its leading white space removed.
pub open spec fn trim_start(s: Seq<char>) -> Seq<char>
    decreases s.len(),
{
    if s.len() > 0 && is_white_space(s[0]) {
        trim_start(s.subrange(1, s.len() as int))
    } else {
        s
    }
}

/// `s` with its trailing white space removed.
pub open spec fn trim_end(s: Seq<char>) -> Seq<char>
    decreases s.len(),
{
    if s.len() > 0 && is_white_space(s[s.len() - 1]) {
        trim_end(s.subrange(0, s.len() - 1))
    } else {
        s
    }
}

/// `s` with white space removed at both ends, as `str::trim` does.
pub open spec fn trim(s: Seq<char>) -> Seq<char> {
    trim_end(trim_start(s))
}

/// The characters of `s` in reverse order.
pub open spec fn reverse_chars(s: Seq<char>) -> Seq<char> {
    Seq::new(s.len(), |i: int| s[s.len() - 1 - i])
}

/// Appends one character to a `String` (`String::push`).
#[verifier::external_body]
fn string_push(s: &mut String, c: char)
    ensures
        final(s)@ == old(s)@.push(c),
{
    s.push(c)
}

/// The characters of a string slice, in order.
pub fn str_to_chars(s: &str) -> (r: Vec<char>)
    ensures
        r@ == s@,
{
    let mut out: Vec<char> = Vec::new();
    for c in it: s.chars()
        invariant
            out@ == it.seq().take(it.index() as int),
    {
        out.push(c);
    }
    out
}

/// Appends the characters of `s` to `buf`.
pub fn push_str_chars(buf: &mut Vec<char>, s: &str)
    ensures
        final(buf)@ == old(buf)@ + s@,
{
    let ghost start = buf@;
    for c in it: s.chars()
        invariant
            buf@ == start + it.seq().take(it.index() as int),
    {
        buf.push(c);
    }
}

/// A `String` holding the characters of `chars` in order.
pub fn chars_to_string(chars: &[char]) -> (r: String)
    ensures
        r@ == chars@,
{
    let mut out = String::new();
    let mut i: usize = 0;
    while i < chars.len()
        invariant
            i <= chars.len(),
            out@ == chars@.take(i as int),
        decreases chars.len() - i,
    {
        string_push(&mut out, chars[i]);
        i += 1;
        assert(out@ =~= chars@.take(i as int));
    }
    assert(chars@.take(i as int) =~= chars@);
    out
}

proof fn lemma_trim_start_step(s: Seq<char>, i: int)
    requires
        0 <= i < s.len(),
        is_white_space(s[i]),
    ensures
        trim_start(s.subrange(i, s.len() as int)) == trim_start(s.subrange(i + 1, s.len() as int)),
{
    assert(s.subrange(i, s.len() as int).subrange(1, s.len() - i) =~= s.subrange(
        i + 1,
        s.len() as int,
    ));
}

proof fn lemma_trim_end_step(s: Seq<char>, j: int)
    requires
        0 < j <= s.len(),
        is_white_space(s[j - 1]),
    ensures
        trim_end(s.subrange(0, j)) == trim_end(s.subrange(0, j - 1)),
{
    assert(s.subrange(0, j).subrange(0, j - 1) =~= s.subrange(0, j - 1));
}

/// `chars` with white space removed at both ends.
pub fn trim_chars(chars: &[char]) -> (r: Vec<char>)
    ensures
        r@ == trim(chars@),
{
    let n = chars.len();
    let mut i: usize = 0;
    assert(chars@.subrange(0, n as int) =~= chars@);
    while i < n && char_is_white_space(chars[i])
        invariant
            i <= n == chars@.len(),
            trim_start(chars@) == trim_start(chars@.subrange(i as int, n as int)),
        decreases n - i,
    {
        proof {
            lemma_trim_start_step(chars@, i as int);
        }
        i += 1;
    }
    let ghost start = chars@.subrange(i as int, n as int);
    assert(trim_start(chars@) == start);
    let mut j: usize = n;
    assert(start.subrange(0, (n - i) as int) =~= start);
    while j > i && char_is_white_space(chars[j - 1])
        invariant
            i <= j <= n == chars@.len(),
            start == chars@.subrange(i as int, n as int),
            trim_end(start) == trim_end(start.subrange(0, (j - i) as int)),
        decreases j,
    {
        proof {
            lemma_trim_end_step(start, (j - i) as int);
        }
        j -= 1;
    }
    let mut out: Vec<char> = Vec::new();
    let mut k: usize = i;
    while k < j
        invariant
            i <= k <= j <= n == chars@.len(),
            out@ == chars@.subrange(i as int, k as int),
        decreases j - k,
    {
        out.push(chars[k]);
        k += 1;
        assert(out@ =~= chars@.subrange(i as int, k as int));
    }
    assert(start.subrange(0, (j - i) as int) =~= chars@.subrange(i as int, j as int));
    out
}

/// A `String` holding the characters of `s` in reverse order.
pub fn reverse_str(s: &str) -> (r: String)
    ensures
        r@ == reverse_chars(s@),
{
    let chars = str_to_chars(s);
    let mut rev: Vec<char> = Vec::new();
    let mut i: usize = chars.len();
    while i > 0
        invariant
            i <= chars@.len(),
            chars@ == s@,
            rev@ == reverse_chars(s@).take((chars@.len() - i) as int),
        decreases i,
    {
        i -= 1;
        rev.push(chars[i]);
        assert(rev@ =~= reverse_chars(s@).take((chars@.len() - i) as int));
    }
    assert(rev@ =~= reverse_chars(s@));
    chars_to_string(rev.as_slice())
}


/// The views of a sequence of strings.
pub open spec fn string_views(v: Seq<String>) -> Seq<Seq<char>> {
    v.map_values(|x: String| x@)
}

/// The pieces of `s` between occurrences of `sep`, as `str::split` with a
/// character pattern gives them (empty pieces included; at least one piece).
pub open spec fn split_on(s: Seq<char>, sep: char) -> Seq<Seq<char>>
    decreases s.len(),
{
    if s.len() == 0 {
        seq![Seq::empty()]
    } else {
        let r = split_on(s.subrange(0, s.len() - 1), sep);
        if s[s.len() - 1] == sep {
            r.push(Seq::empty())
        } else {
            r.update(r.len() - 1, r[r.len() - 1].push(s[s.len() - 1]))
        }
    }
}

/// [`split_on`] has at least one piece.
pub proof fn lemma_split_on_nonempty(s: Seq<char>, sep: char)
    ensures
        split_on(s, sep).len() >= 1,
    decreases s.len(),
{
    if s.len() > 0 {
        lemma_split_on_nonempty(s.subrange(0, s.len() - 1), sep);
    }
}

/// Joining the pieces that splitting on `sep` gives, with `sep` between each
/// two of them, gives the text back.
pub proof fn lemma_split_on_join(s: Seq<char>, sep: char)
    ensures
        join_with(split_on(s, sep), seq![sep]) == s,
    decreases s.len(),
{
    if s.len() == 0 {
        assert(join_with(split_on(s, sep), seq![sep]) =~= s);
    } else {
        let init = s.subrange(0, s.len() - 1);
        let c = s[s.len() - 1];
        let r = split_on(init, sep);
        lemma_split_on_join(init, sep);
        lemma_split_on_nonempty(init, sep);
        let n = r.len();
        if c == sep {
            let u = r.push(Seq::empty());
            assert(u.subrange(0, u.len() - 1) =~= r);
            assert(join_with(u, seq![sep]) =~= s);
        } else {
            let u = r.update(n - 1, r[n - 1].push(c));
            if n == 1 {
                assert(join_with(u, seq![sep]) =~= s);
            } else {
                assert(u.subrange(0, n - 1) =~= r.subrange(0, n - 1));
                assert(join_with(u, seq![sep]) =~= join_with(r, seq![sep]).push(c));
                assert(init.push(c) =~= s);
            }
        }
    }
}

/// The test that a piece of text is non-empty.
pub open spec fn non_empty() -> spec_fn(Seq<char>) -> bool {
    |p: Seq<char>| p.len() > 0
}

/// The space-separated words of `s`: its pieces between spaces, without the
/// empty ones.
pub open spec fn words(s: Seq<char>) -> Seq<Seq<char>> {
    split_on(s, ' ').filter(non_empty())
}

/// The pieces of `s` between occurrences of `sep`, as character vectors.
pub fn split_chars(s: &[char], sep: char) -> (r: Vec<Vec<char>>)
    ensures
        r@.len() == split_on(s@, sep).len(),
        forall|k: int| 0 <= k < r@.len() ==> #[trigger] r@[k]@ == split_on(s@, sep)[k],
{
    let mut done: Vec<Vec<char>> = Vec::new();
    let mut cur: Vec<char> = Vec::new();
    let mut i: usize = 0;
    assert(s@.take(0) =~= Seq::<char>::empty());
    while i < s.len()
        invariant
            i <= s@.len(),
            split_on(s@.take(i as int), sep).len() == done@.len() + 1,
            forall|k: int|
                0 <= k < done@.len() ==> #[trigger] done@[k]@ == split_on(s@.take(i as int), sep)[k],
            cur@ == split_on(s@.take(i as int), sep)[done@.len() as int],
        decreases s.len() - i,
    {
        let ghost prev = s@.take(i as int);
        assert(s@.take(i + 1).subrange(0, i as int) =~= prev);
        proof {
            lemma_split_on_nonempty(prev, sep);
        }
        let c = s[i];
        if c == sep {
            let finished = cur;
            done.push(finished);
            cur = Vec::new();
        } else {
            cur.push(c);
        }
        i += 1;
    }
    assert(s@.take(i as int) =~= s@);
    done.push(cur);
    done
}

/// The space-separated words of `s` (runs of spaces separate; no empty words).
pub fn split_words(s: &str) -> (r: Vec<String>)
    ensures
        string_views(r@) == words(s@),
{
    let chars = str_to_chars(s);
    let pieces = split_chars(chars.as_slice(), ' ');
    let ghost all = split_on(s@, ' ');
    let mut out: Vec<String> = Vec::new();
    let mut k: usize = 0;
    assert(all.take(0) =~= Seq::<Seq<char>>::empty());
    proof {
        reveal_with_fuel(Seq::<Seq<char>>::filter, 1);
    }
    assert(string_views(out@) =~= all.take(0).filter(non_empty()));
    while k < pieces.len()
        invariant
            k <= pieces@.len() == all.len(),
            all == split_on(s@, ' '),
            forall|j: int| 0 <= j < pieces@.len() ==> #[trigger] pieces@[j]@ == all[j],
            string_views(out@) == all.take(k as int).filter(non_empty()),
        decreases pieces.len() - k,
    {
        proof {
            reveal_with_fuel(Seq::<Seq<char>>::filter, 1);
        }
        let ghost t = all.take(k + 1);
        assert(t.drop_last() =~= all.take(k as int));
        assert(t.last() == all[k as int]);
        assert(t.filter(non_empty()) == if all[k as int].len() > 0 {
            all.take(k as int).filter(non_empty()).push(all[k as int])
        } else {
            all.take(k as int).filter(non_empty())
        });
        if pieces[k].len() > 0 {
            let ghost before = out@;
            let w = chars_to_string(pieces[k].as_slice());
            out.push(w);
            assert(string_views(out@) =~= string_views(before).push(w@));
        }
        k += 1;
    }
    assert(all.take(k as int) =~= all);
    out
}


/// Whether `c` is one of the ASCII digits `0`-`9`.
pub open spec fn is_ascii_digit(c: char) -> bool {
    48 <= (c as u32) <= 57
}

/// Whether every character of `d` is an ASCII digit.
pub open spec fn all_ascii_digits(d: Seq<char>) -> bool {
    forall|i: int| 0 <= i < d.len() ==> is_ascii_digit(#[trigger] d[i])
}

/// The number that the decimal digits `d` write.
pub open spec fn decimal_value(d: Seq<char>) -> int
    decreases d.len(),
{
    if d.len() == 0 {
        0
    } else {
        decimal_value(d.subrange(0, d.len() - 1)) * 10 + ((d[d.len() - 1] as u32) - 48)
    }
}

/// What `str::parse::<u32>` gives: an optional `+`, then at least one ASCII
/// digit and nothing else, with a value that fits in `u32`.
pub open spec fn parse_u32(s: Seq<char>) -> Option<u32> {
    let digits = if s.len() > 0 && s[0] == '+' {
        s.subrange(1, s.len() as int)
    } else {
        s
    };
    if digits.len() > 0 && all_ascii_digits(digits) && decimal_value(digits) <= u32::MAX {
        Some(decimal_value(digits) as u32)
    } else {
        None
    }
}

/// The value of digits is not negative.
pub proof fn lemma_decimal_value_nonneg(d: Seq<char>)
    requires
        all_ascii_digits(d),
    ensures
        decimal_value(d) >= 0,
    decreases d.len(),
{
    if d.len() > 0 {
        let p = d.subrange(0, d.len() - 1);
        assert(all_ascii_digits(p)) by {
            assert forall|i: int| 0 <= i < p.len() implies is_ascii_digit(#[trigger] p[i]) by {
                assert(p[i] == d[i]);
            }
        }
        lemma_decimal_value_nonneg(p);
        assert(is_ascii_digit(d[d.len() - 1]));
    }
}

/// A prefix of digits writes no larger a number than the whole.
pub proof fn lemma_decimal_prefix_le(d: Seq<char>, k: int)
    requires
        all_ascii_digits(d),
        0 <= k <= d.len(),
    ensures
        decimal_value(d.subrange(0, k)) <= decimal_value(d),
    decreases d.len(),
{
    if k < d.len() {
        let p = d.subrange(0, d.len() - 1);
        assert(all_ascii_digits(p)) by {
            assert forall|i: int| 0 <= i < p.len() implies is_ascii_digit(#[trigger] p[i]) by {
                assert(p[i] == d[i]);
            }
        }
        lemma_decimal_prefix_le(p, k);
        assert(p.subrange(0, k) =~= d.subrange(0, k));
        lemma_decimal_value_nonneg(p);
        assert(is_ascii_digit(d[d.len() - 1]));
    } else {
        assert(d.subrange(0, k) =~= d);
    }
}

/// `str::parse::<u32>` on a sequence of characters.
pub fn parse_u32_chars(s: &[char]) -> (r: Option<u32>)
    ensures
        r == parse_u32(s@),
{
    let n = s.len();
    let start: usize = if n > 0 && s[0] == '+' {
        1
    } else {
        0
    };
    let ghost digits = s@.subrange(start as int, n as int);
    assert(digits == if s@.len() > 0 && s@[0] == '+' {
        s@.subrange(1, s@.len() as int)
    } else {
        s@
    }) by {
        if start == 0 {
            assert(s@.subrange(0, n as int) =~= s@);
        }
    }
    if start == n {
        return None;
    }
    let mut acc: u64 = 0;
    let mut i: usize = start;
    while i < n
        invariant
            start <= i <= n == s@.len(),
            start < n,
            digits == s@.subrange(start as int, n as int),
            digits == if s@.len() > 0 && s@[0] == '+' {
                s@.subrange(1, s@.len() as int)
            } else {
                s@
            },
            all_ascii_digits(digits.subrange(0, (i - start) as int)),
            acc as int == decimal_value(digits.subrange(0, (i - start) as int)),
            acc <= u32::MAX,
        decreases n - i,
    {
        let c = s[i];
        let u = c as u32;
        if u < 48 || u > 57 {
            assert(!is_ascii_digit(digits[(i - start) as int]));
            return None;
        }
        let ghost old_prefix = digits.subrange(0, (i - start) as int);
        let ghost new_prefix = digits.subrange(0, (i - start + 1) as int);
        assert(new_prefix.subrange(0, new_prefix.len() - 1) =~= old_prefix);
        assert(new_prefix[new_prefix.len() - 1] == c);
        acc = acc * 10 + (u - 48) as u64;
        assert(all_ascii_digits(new_prefix)) by {
            assert forall|j: int| 0 <= j < new_prefix.len() implies is_ascii_digit(
                #[trigger] new_prefix[j],
            ) by {
                if j < new_prefix.len() - 1 {
                    assert(new_prefix[j] == old_prefix[j]);
                }
            }
        }
        i += 1;
        if acc > 0xFFFF_FFFF {
            proof {
                if all_ascii_digits(digits) {
                    lemma_decimal_prefix_le(digits, (i - start) as int);
                }
            }
            return None;
        }
    }
    assert(digits.subrange(0, (i - start) as int) =~= digits);
    Some(acc as u32)
}

/// Lexicographic order on character sequences, by code point; `str`'s `<`.
pub open spec fn chars_lt(a: Seq<char>, b: Seq<char>) -> bool
    decreases a.len(),
{
    if a.len() == 0 {
        b.len() > 0
    } else if b.len() == 0 {
        false
    } else if a[0] != b[0] {
        (a[0] as u32) < (b[0] as u32)
    } else {
        chars_lt(a.subrange(1, a.len() as int), b.subrange(1, b.len() as int))
    }
}

/// Whether `a` comes before `b` in lexicographic order.
pub fn chars_less(a: &[char], b: &[char]) -> (r: bool)
    ensures
        r == chars_lt(a@, b@),
{
    let mut i: usize = 0;
    assert(a@.subrange(0, a@.len() as int) =~= a@);
    assert(b@.subrange(0, b@.len() as int) =~= b@);
    while i < a.len() && i < b.len()
        invariant
            i <= a@.len(),
            i <= b@.len(),
            chars_lt(a@, b@) == chars_lt(
                a@.subrange(i as int, a@.len() as int),
                b@.subrange(i as int, b@.len() as int),
            ),
        decreases a.len() - i,
    {
        let ghost ra = a@.subrange(i as int, a@.len() as int);
        let ghost rb = b@.subrange(i as int, b@.len() as int);
        assert(ra[0] == a@[i as int] && rb[0] == b@[i as int]);
        if a[i] != b[i] {
            return (a[i] as u32) < (b[i] as u32);
        }
        assert(ra.subrange(1, ra.len() as int) =~= a@.subrange(i + 1, a@.len() as int));
        assert(rb.subrange(1, rb.len() as int) =~= b@.subrange(i + 1, b@.len() as int));
        i += 1;
    }
    i == a.len() && i < b.len()
}

/// Whether two character sequences are equal.
pub fn chars_equal(a: &[char], b: &[char]) -> (r: bool)
    ensures
        r == (a@ == b@),
{
    if a.len() != b.len() {
        return false;
    }
    let mut i: usize = 0;
    while i < a.len()
        invariant
            i <= a@.len() == b@.len(),
            forall|j: int| 0 <= j < i ==> a@[j] == b@[j],
        decreases a.len() - i,
    {
        if a[i] != b[i] {
            return false;
        }
        i += 1;
    }
    assert(a@ =~= b@);
    true
}


/// Whether the characters `s` spell the text `lit`.
pub fn chars_are(s: &[char], lit: &str) -> (r: bool)
    ensures
        r == (s@ == lit@),
{
    let l = str_to_chars(lit);
    chars_equal(s, l.as_slice())
}

/// No sequence comes before itself.
pub proof fn lemma_chars_lt_irreflexive(a: Seq<char>)
    ensures
        !chars_lt(a, a),
    decreases a.len(),
{
    if a.len() > 0 {
        lemma_chars_lt_irreflexive(a.subrange(1, a.len() as int));
    }
}

/// Of two sequences, at most one comes before the other.
pub proof fn lemma_chars_lt_asymmetric(a: Seq<char>, b: Seq<char>)
    ensures
        !(chars_lt(a, b) && chars_lt(b, a)),
    decreases a.len(),
{
    if a.len() > 0 && b.len() > 0 && a[0] == b[0] {
        lemma_chars_lt_asymmetric(a.subrange(1, a.len() as int), b.subrange(1, b.len() as int));
    }
}


/// Lexicographic order is transitive.
pub proof fn lemma_chars_lt_transitive(a: Seq<char>, b: Seq<char>, c: Seq<char>)
    requires
        chars_lt(a, b),
        chars_lt(b, c),
    ensures
        chars_lt(a, c),
    decreases a.len(),
{
    if a.len() > 0 && b.len() > 0 && c.len() > 0 && a[0] == b[0] && b[0] == c[0] {
        lemma_chars_lt_transitive(
            a.subrange(1, a.len() as int),
            b.subrange(1, b.len() as int),
            c.subrange(1, c.len() as int),
        );
    }
}

proof fn lemma_trim_start_shape(s: Seq<char>)
    ensures
        trim_start(s).len() == 0 || !is_white_space(trim_start(s)[0]),
        exists|k: int| 0 <= k <= s.len() && trim_start(s) == #[trigger] s.subrange(k, s.len() as int),
    decreases s.len(),
{
    if s.len() > 0 && is_white_space(s[0]) {
        let rest = s.subrange(1, s.len() as int);
        lemma_trim_start_shape(rest);
        let k = choose|k: int| 0 <= k <= rest.len() && trim_start(rest) == #[trigger] rest.subrange(k, rest.len() as int);
        assert(rest.subrange(k, rest.len() as int) =~= s.subrange(k + 1, s.len() as int));
    } else {
        assert(s.subrange(0, s.len() as int) =~= s);
    }
}

proof fn lemma_trim_end_shape(s: Seq<char>)
    ensures
        trim_end(s).len() == 0 || !is_white_space(trim_end(s)[trim_end(s).len() - 1]),
        exists|k: int| 0 <= k <= s.len() && trim_end(s) == #[trigger] s.subrange(0, k),
    decreases s.len(),
{
    if s.len() > 0 && is_white_space(s[s.len() - 1]) {
        let rest = s.subrange(0, s.len() - 1);
        lemma_trim_end_shape(rest);
        let k = choose|k: int| 0 <= k <= rest.len() && trim_end(rest) == #[trigger] rest.subrange(0, k);
        assert(rest.subrange(0, k) =~= s.subrange(0, k));
    } else {
        assert(s.subrange(0, s.len() as int) =~= s);
    }
}

/// Trimmed text neither starts nor ends with white space, and is a piece of
/// the text it came from.
pub proof fn lemma_trim_edges(s: Seq<char>)
    ensures
        trim(s).len() > 0 ==> !is_white_space(trim(s)[0]) && !is_white_space(trim(s)[trim(s).len() - 1]),
        exists|i: int, j: int| 0 <= i <= j <= s.len() && trim(s) == #[trigger] s.subrange(i, j),
{
    lemma_trim_start_shape(s);
    let t = trim_start(s);
    lemma_trim_end_shape(t);
    let i = choose|k: int| 0 <= k <= s.len() && t == #[trigger] s.subrange(k, s.len() as int);
    let k = choose|k: int| 0 <= k <= t.len() && trim_end(t) == #[trigger] t.subrange(0, k);
    assert(t.subrange(0, k) =~= s.subrange(i, i + k));
    if trim(s).len() > 0 {
        assert(trim(s)[0] == t[0]);
    }
}

/// Whether every character of `s` is white space.
pub open spec fn all_white(s: Seq<char>) -> bool {
    forall|i: int| 0 <= i < s.len() ==> is_white_space(#[trigger] s[i])
}

proof fn lemma_trim_start_strips(s: Seq<char>)
    ensures
        exists|k: int|
            0 <= k <= s.len() && trim_start(s) == #[trigger] s.subrange(k, s.len() as int) && all_white(
                s.subrange(0, k),
            ),
    decreases s.len(),
{
    if s.len() > 0 && is_white_space(s[0]) {
        let rest = s.subrange(1, s.len() as int);
        lemma_trim_start_strips(rest);
        let k = choose|k: int|
            0 <= k <= rest.len() && trim_start(rest) == #[trigger] rest.subrange(k, rest.len() as int)
                && all_white(rest.subrange(0, k));
        assert(rest.subrange(k, rest.len() as int) =~= s.subrange(k + 1, s.len() as int));
        assert forall|i: int| 0 <= i < k + 1 implies is_white_space(#[trigger] s.subrange(0, k + 1)[i]) by {
            if i > 0 {
                assert(s.subrange(0, k + 1)[i] == rest.subrange(0, k)[i - 1]);
            }
        }
    } else {
        assert(s.subrange(0, s.len() as int) =~= s);
        assert(s.subrange(0, 0).len() == 0);
    }
}

proof fn lemma_trim_end_strips(s: Seq<char>)
    ensures
        exists|k: int|
            0 <= k <= s.len() && trim_end(s) == #[trigger] s.subrange(0, k) && all_white(
                s.subrange(k, s.len() as int),
            ),
    decreases s.len(),
{
    if s.len() > 0 && is_white_space(s[s.len() - 1]) {
        let rest = s.subrange(0, s.len() - 1);
        lemma_trim_end_strips(rest);
        let k = choose|k: int|
            0 <= k <= rest.len() && trim_end(rest) == #[trigger] rest.subrange(0, k) && all_white(
                rest.subrange(k, rest.len() as int),
            );
        assert(rest.subrange(0, k) =~= s.subrange(0, k));
        assert forall|i: int| 0 <= i < s.len() - k implies is_white_space(
            #[trigger] s.subrange(k, s.len() as int)[i],
        ) by {
            if i < rest.len() - k {
                assert(s.subrange(k, s.len() as int)[i] == rest.subrange(k, rest.len() as int)[i]);
            }
        }
    } else {
        assert(s.subrange(0, s.len() as int) =~= s);
        assert(s.subrange(s.len() as int, s.len() as int).len() == 0);
    }
}

/// Trimming removes white space only: the trimmed text is the piece of the
/// text between a run of white space at its start and one at its end.
pub proof fn lemma_trim_strips_white_space(s: Seq<char>)
    ensures
        exists|i: int, j: int|
            0 <= i <= j <= s.len() && trim(s) == #[trigger] s.subrange(i, j) && all_white(s.subrange(0, i))
                && all_white(s.subrange(j, s.len() as int)),
{
    lemma_trim_start_strips(s);
    let t = trim_start(s);
    let i = choose|k: int|
        0 <= k <= s.len() && t == #[trigger] s.subrange(k, s.len() as int) && all_white(s.subrange(0, k));
    lemma_trim_end_strips(t);
    let k = choose|k: int|
        0 <= k <= t.len() && trim_end(t) == #[trigger] t.subrange(0, k) && all_white(
            t.subrange(k, t.len() as int),
        );
    assert(t.subrange(0, k) =~= s.subrange(i, i + k));
    assert(t.subrange(k, t.len() as int) =~= s.subrange(i + k, s.len() as int));
    assert(trim(s) == s.subrange(i, i + k));
}

/// Reversing text that is made of two parts reverses each part and swaps
/// them; a single character is its own reversal. (Together these fix
/// reversal.)
pub proof fn lemma_reverse_chars_concat(a: Seq<char>, b: Seq<char>, c: char)
    ensures
        reverse_chars(a + b) == reverse_chars(b) + reverse_chars(a),
        reverse_chars(seq![c]) == seq![c],
        reverse_chars(a).len() == a.len(),
{
    assert(reverse_chars(a + b) =~= reverse_chars(b) + reverse_chars(a));
    assert(reverse_chars(seq![c]) =~= seq![c]);
}

/// Lexicographic order is total: of two different sequences one comes first.
pub proof fn lemma_chars_lt_total(a: Seq<char>, b: Seq<char>)
    requires
        a != b,
    ensures
        chars_lt(a, b) || chars_lt(b, a),
    decreases a.len(),
{
    if a.len() > 0 && b.len() > 0 && a[0] == b[0] {
        let (x, y) = (a.subrange(1, a.len() as int), b.subrange(1, b.len() as int));
        if x == y {
            assert(a =~= seq![a[0]] + x);
            assert(b =~= seq![b[0]] + y);
        }
        lemma_chars_lt_total(x, y);
    } else if a.len() == 0 && b.len() == 0 {
        assert(a =~= b);
    } else if a.len() > 0 && b.len() > 0 {
        vstd::utf8::char_u32_cast(a[0], a[0] as u32);
        vstd::utf8::char_u32_cast(b[0], b[0] as u32);
    }
}

/// Reversing twice gives the text back.
pub proof fn lemma_reverse_chars_involution(s: Seq<char>)
    ensures
        reverse_chars(reverse_chars(s)) == s,
{
    assert(reverse_chars(reverse_chars(s)) =~= s);
}

proof fn lemma_split_on_pieces_lack_separator(s: Seq<char>, sep: char)
    ensures
        forall|k: int, m: int|
            0 <= k < split_on(s, sep).len() && 0 <= m < split_on(s, sep)[k].len() ==> #[trigger] split_on(s, sep)[k][m] != sep,
    decreases s.len(),
{
    if s.len() > 0 {
        lemma_split_on_pieces_lack_separator(s.subrange(0, s.len() - 1), sep);
        lemma_split_on_nonempty(s.subrange(0, s.len() - 1), sep);
    }
}

/// Every word is non-empty and holds no space.
pub proof fn lemma_words_shape(s: Seq<char>)
    ensures
        forall|k: int| 0 <= k < words(s).len() ==> (#[trigger] words(s)[k]).len() > 0,
        forall|k: int, m: int| 0 <= k < words(s).len() && 0 <= m < words(s)[k].len() ==> #[trigger] words(s)[k][m] != ' ',
{
    let pieces = split_on(s, ' ');
    lemma_split_on_pieces_lack_separator(s, ' ');
    assert forall|k: int| 0 <= k < words(s).len() implies (#[trigger] words(s)[k]).len() > 0 by {
        pieces.lemma_filter_pred(non_empty(), k);
    }
    assert forall|k: int, m: int| 0 <= k < words(s).len() && 0 <= m < words(s)[k].len() implies #[trigger] words(s)[k][m] != ' ' by {
        let w = words(s)[k];
        assert(words(s).contains(w));
        pieces.lemma_filter_contains_rev(non_empty(), w);
        let j = choose|j: int| 0 <= j < pieces.len() && pieces[j] == w;
        assert(pieces[j][m] != ' ');
    }
}

} // verus!
