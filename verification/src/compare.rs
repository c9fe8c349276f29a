//! The comparator: a pure decision mapping observed output, expected output
//! and a strategy to a boolean match, with pattern compilation failure as a
//! distinct, reported error.

use vstd::prelude::*;
use crate::config::Comparison;
use crate::pattern::{regex_valid, regex_match, compile_pattern, pattern_matches};

verus! {

/// `needle` occurs in `hay` as a contiguous subsequence starting at `i`.
pub open spec fn is_substring_at(hay: Seq<char>, needle: Seq<char>, i: int) -> bool {
    0 <= i && i + needle.len() <= hay.len() && hay.subrange(i, i + needle.len() as int)
        == needle
}

/// `needle` occurs somewhere in `hay` as a contiguous subsequence.
pub open spec fn contains_seq(hay: Seq<char>, needle: Seq<char>) -> bool {
    exists|i: int| is_substring_at(hay, needle, i)
}

/// The strategy can decide the pair at all: under `Regex` the expected
/// output must compile as a pattern; the other strategies always decide.
pub open spec fn comparison_defined(expected: Seq<char>, strategy: Comparison) -> bool {
    strategy is Regex ==> regex_valid(expected)
}

/// What each strategy makes of an observed/expected pair.
pub open spec fn comparison_ok(observed: Seq<char>, expected: Seq<char>, strategy: Comparison) -> bool {
    match strategy {
        Comparison::Included => contains_seq(observed, expected),
        Comparison::Exact => observed == expected,
        Comparison::Regex => regex_match(expected, observed),
    }
}

/// The expected output could not be compiled as a pattern; carries the
/// compile error's rendering.
#[derive(Clone, Debug)]
pub struct PatternError {
    pub message: String,
}

/// Whether `needle` occurs in `hay` starting at character position `i`.
fn matches_at(hay: &str, needle: &str, i: usize) -> (r: bool)
    requires
        i + needle@.len() <= hay@.len(),
    ensures
        r == (hay@.subrange(i as int, i + needle@.len()) == needle@),
{
    let hlen: usize = hay.unicode_len();
    let nlen: usize = needle.unicode_len();
    let mut k: usize = 0;
    while k < nlen
        invariant
            hlen == hay@.len(),
            nlen == needle@.len(),
            i + nlen <= hlen,
            k <= nlen,
            forall|j: int| 0 <= j < k ==> hay@[i + j] == needle@[j],
        decreases nlen - k,
    {
        if hay.get_char(i + k) != needle.get_char(k) {
            proof {
                assert(hay@.subrange(i as int, i + nlen as int)[k as int] == hay@[i + k]);
            }
            return false;
        }
        k = k + 1;
    }
    proof {
        assert(hay@.subrange(i as int, i + nlen as int) =~= needle@);
    }
    true
}

/// Whether `needle` occurs anywhere in `hay` as a contiguous substring,
/// character exact and case-sensitive.
pub fn contains_substring(hay: &str, needle: &str) -> (r: bool)
    ensures
        r == contains_seq(hay@, needle@),
{
    let hlen: usize = hay.unicode_len();
    let nlen: usize = needle.unicode_len();
    if nlen > hlen {
        proof {
            assert forall|i: int| !is_substring_at(hay@, needle@, i) by {}
        }
        return false;
    }
    let mut i: usize = 0;
    loop
        invariant
            hlen == hay@.len(),
            nlen == needle@.len(),
            nlen <= hlen,
            i <= hlen - nlen,
            forall|j: int| 0 <= j < i ==> !is_substring_at(hay@, needle@, j),
        decreases hlen - nlen - i,
    {
        if matches_at(hay, needle, i) {
            proof {
                assert(is_substring_at(hay@, needle@, i as int));
            }
            return true;
        }
        if i == hlen - nlen {
            proof {
                assert forall|j: int| !is_substring_at(hay@, needle@, j) by {
                    if i < j && j + nlen <= hlen {
                        assert(false);
                    }
                }
            }
            return false;
        }
        i = i + 1;
    }
}

/// Whether two strings hold exactly the same characters, including
/// whitespace and trailing newlines; no trimming is performed.
pub fn strings_equal(a: &str, b: &str) -> (r: bool)
    ensures
        r == (a@ == b@),
{
    let alen: usize = a.unicode_len();
    let blen: usize = b.unicode_len();
    if alen != blen {
        return false;
    }
    let eq = matches_at(a, b, 0);
    proof {
        assert(a@.subrange(0, alen as int) =~= a@);
    }
    eq
}

/// Decides whether `observed` satisfies `expected` under the given
/// strategy. Succeeds on every pair except a `Regex` strategy whose
/// expected output does not compile as a pattern, which is reported as a
/// `PatternError` rather than a test failure.
pub fn compare(observed: &String, expected: &String, strategy: Comparison) -> (r: Result<
    bool,
    PatternError,
>)
    ensures
        r is Ok <==> comparison_defined(expected@, strategy),
        r matches Ok(b) ==> b == comparison_ok(observed@, expected@, strategy),
{
    match strategy {
        Comparison::Included => Ok(contains_substring(observed.as_str(), expected.as_str())),
        Comparison::Exact => Ok(strings_equal(observed.as_str(), expected.as_str())),
        Comparison::Regex => {
            match compile_pattern(expected.as_str()) {
                Ok(pattern) => Ok(pattern_matches(&pattern, observed.as_str())),
                Err(message) => Err(PatternError { message }),
            }
        },
    }
}

/// Exact comparison is reflexive: every string matches itself exactly, and
/// no string matches itself with one more character appended.
pub proof fn lemma_exact_reflexive(s: Seq<char>, c: char)
    ensures
        comparison_ok(s, s, Comparison::Exact),
        !comparison_ok(s, s.push(c), Comparison::Exact),
{
    assert(s.push(c).len() == s.len() + 1);
}

/// The empty string is a substring of every string, so an empty expected
/// output passes under `Included` whatever was observed.
pub proof fn lemma_included_empty(s: Seq<char>)
    ensures
        comparison_ok(s, Seq::<char>::empty(), Comparison::Included),
{
    assert(s.subrange(0, 0) =~= Seq::<char>::empty());
    assert(is_substring_at(s, Seq::<char>::empty(), 0));
}

} // verus!
