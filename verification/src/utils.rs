//! Utility functions and traits.

use vstd::prelude::*;
use indexmap::IndexMap;
use crate::text::{
    decimal_value, is_ascii_digit, all_ascii_digits, lemma_decimal_prefix_le, str_to_chars,
};

verus! {

/// The position of the first ASCII digit of `s` at or after `i`, or `s.len()`.
pub open spec fn first_digit_from(s: Seq<char>, i: int) -> int
    decreases s.len() - i,
{
    if i < 0 || i >= s.len() {
        s.len() as int
    } else if is_ascii_digit(s[i]) {
        i
    } else {
        first_digit_from(s, i + 1)
    }
}

/// The end of the run of ASCII digits of `s` that starts at `i`.
pub open spec fn digit_run_end(s: Seq<char>, i: int) -> int
    decreases s.len() - i,
{
    if i < 0 || i >= s.len() || !is_ascii_digit(s[i]) {
        i
    } else {
        digit_run_end(s, i + 1)
    }
}

/// The integer that a frequency string carries: its first run of ASCII
/// digits, negative where a `-` stands right before it; `0` where there is no
/// digit or the magnitude does not fit in `i128`.
pub open spec fn leading_integer(s: Seq<char>) -> i128 {
    let start = first_digit_from(s, 0);
    if start >= s.len() {
        0
    } else {
        let magnitude = decimal_value(s.subrange(start, digit_run_end(s, start)));
        if magnitude > i128::MAX {
            0
        } else if start > 0 && s[start - 1] == '-' {
            (-magnitude) as i128
        } else {
            magnitude as i128
        }
    }
}

proof fn lemma_first_digit_bounds(s: Seq<char>, i: int)
    requires
        0 <= i <= s.len(),
    ensures
        i <= first_digit_from(s, i) <= s.len(),
        first_digit_from(s, i) < s.len() ==> is_ascii_digit(s[first_digit_from(s, i)]),
    decreases s.len() - i,
{
    if i < s.len() && !is_ascii_digit(s[i]) {
        lemma_first_digit_bounds(s, i + 1);
    }
}

proof fn lemma_digit_run(s: Seq<char>, i: int)
    requires
        0 <= i <= s.len(),
    ensures
        i <= digit_run_end(s, i) <= s.len(),
        all_ascii_digits(s.subrange(i, digit_run_end(s, i))),
    decreases s.len() - i,
{
    if i < s.len() && is_ascii_digit(s[i]) {
        lemma_digit_run(s, i + 1);
        let e = digit_run_end(s, i);
        let run = s.subrange(i, e);
        assert forall|k: int| 0 <= k < run.len() implies is_ascii_digit(#[trigger] run[k]) by {
            if k > 0 {
                assert(run[k] == s.subrange(i + 1, e)[k - 1]);
            }
        }
    } else {
        assert(all_ascii_digits(s.subrange(i, i)));
    }
}

/// The integer that a frequency string carries (see [`leading_integer`]).
pub fn convert_string_to_number(s: &str) -> (r: i128)
    ensures
        r == leading_integer(s@),
{
    let chars = str_to_chars(s);
    let n = chars.len();
    let mut i: usize = 0;
    while i < n && !(48 <= (chars[i] as u32) && (chars[i] as u32) <= 57)
        invariant
            i <= n == s@.len(),
            chars@ == s@,
            first_digit_from(s@, 0) == first_digit_from(s@, i as int),
        decreases n - i,
    {
        i += 1;
    }
    if i == n {
        return 0;
    }
    let start = i;
    assert(is_ascii_digit(s@[start as int]));
    assert(first_digit_from(s@, 0) == start as int);
    proof {
        lemma_digit_run(s@, start as int);
    }
    let ghost end = digit_run_end(s@, start as int);
    let mut acc: u128 = 0;
    let mut j: usize = start;
    while j < n && 48 <= (chars[j] as u32) && (chars[j] as u32) <= 57
        invariant
            start <= j <= n == s@.len(),
            start < n,
            first_digit_from(s@, 0) == start as int,
            chars@ == s@,
            end == digit_run_end(s@, start as int),
            digit_run_end(s@, j as int) == end,
            start <= end <= n,
            all_ascii_digits(s@.subrange(start as int, end)),
            acc as int == decimal_value(s@.subrange(start as int, j as int)),
            acc <= i128::MAX,
        decreases n - j,
    {
        let d = (chars[j] as u32 - 48) as u128;
        proof {
            assert(is_ascii_digit(s@[j as int]));
            assert(digit_run_end(s@, j as int) == digit_run_end(s@, j + 1));
            lemma_digit_run(s@, j + 1);
        }
        let ghost prefix = s@.subrange(start as int, j as int);
        let ghost next = s@.subrange(start as int, j + 1);
        assert(next.subrange(0, next.len() - 1) =~= prefix);
        if acc > (0x7FFF_FFFF_FFFF_FFFF_FFFF_FFFF_FFFF_FFFFu128 - d) / 10 {
            proof {
                let big: int = 0x7FFF_FFFF_FFFF_FFFF_FFFF_FFFF_FFFF_FFFF;
                let a = acc as int;
                let dd = d as int;
                assert(a * 10 + dd > big) by (nonlinear_arith)
                    requires
                        a > (big - dd) / 10,
                        0 <= dd <= 9,
                ;
                assert(decimal_value(next) == a * 10 + dd);
                let run = s@.subrange(start as int, end);
                assert(run.subrange(0, j + 1 - start) =~= next);
                lemma_decimal_prefix_le(run, j + 1 - start);
            }
            return 0;
        }
        acc = acc * 10 + d;
        j += 1;
    }
    assert(j as int == end);
    if start > 0 && chars[start - 1] == '-' {
        -(acc as i128)
    } else {
        acc as i128
    }
}

/// Collections whose number of items is known in constant time.
pub trait CollectionExt {
    /// Whether `n` is a number of items that the collection may report; for
    /// the collections that the library models, exactly their number of items.
    spec fn has_len(&self, n: nat) -> bool;

    /// The number of items in the collection.
    fn len(&self) -> (r: usize)
        ensures
            self.has_len(r as nat),
    ;

    /// Whether the collection has no items: whether the number it reports is
    /// zero.
    fn is_empty(&self) -> (r: bool)
        ensures
            exists|n: nat| #[trigger] self.has_len(n) && r == (n == 0),
    {
        let n = self.len();
        proof {
            assert(self.has_len(n as nat));
        }
        n == 0
    }
}

impl<T> CollectionExt for Vec<T> {
    open spec fn has_len(&self, n: nat) -> bool {
        n == self@.len()
    }

    fn len(&self) -> (r: usize)
        ensures
            r == self@.len(),
    {
        Vec::len(self)
    }
}

impl<T> CollectionExt for Option<Vec<T>> {
    open spec fn has_len(&self, n: nat) -> bool {
        n == match *self {
            Some(v) => v@.len(),
            None => 0,
        }
    }

    fn len(&self) -> (r: usize)
        ensures
            r == match *self {
                Some(v) => v@.len(),
                None => 0,
            },
    {
        match self {
            Some(v) => v.len(),
            None => 0,
        }
    }
}

impl CollectionExt for String {
    open spec fn has_len(&self, n: nat) -> bool {
        n == vstd::utf8::encode_utf8(self@).len()
    }

    fn len(&self) -> (r: usize)
        ensures
            r == vstd::utf8::encode_utf8(self@).len() as usize,
    {
        self.as_str().as_bytes().len()
    }
}

impl CollectionExt for Option<String> {
    open spec fn has_len(&self, n: nat) -> bool {
        n == match *self {
            Some(s) => vstd::utf8::encode_utf8(s@).len(),
            None => 0,
        }
    }

    fn len(&self) -> (r: usize)
        ensures
            r == match *self {
                Some(s) => vstd::utf8::encode_utf8(s@).len() as usize,
                None => 0,
            },
    {
        match self {
            Some(s) => s.as_str().as_bytes().len(),
            None => 0,
        }
    }
}

/// The number of entries of an `IndexMap` (`IndexMap::len`); nothing is
/// claimed of the number.
#[verifier::external_body]
fn index_map_len<K, V>(map: &IndexMap<K, V>) -> usize {
    map.len()
}

impl<T> CollectionExt for IndexMap<T, T> {
    /// The contents of an `IndexMap` are not modelled: any number may be its
    /// count.
    open spec fn has_len(&self, n: nat) -> bool {
        true
    }

    fn len(&self) -> usize {
        index_map_len(self)
    }
}

impl<T> CollectionExt for Option<IndexMap<T, T>> {
    /// No map has no items; of a present map, what the map may report.
    open spec fn has_len(&self, n: nat) -> bool {
        match *self {
            Some(map) => map.has_len(n),
            None => n == 0,
        }
    }

    fn len(&self) -> (r: usize)
        ensures
            *self is None ==> r == 0,
    {
        match self {
            Some(map) => index_map_len(map),
            None => 0,
        }
    }
}

} // verus!
