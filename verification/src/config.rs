//! The test-case data model: one declarative unit of grading work, the
//! comparison strategies, and the load-time normalization passes.

use vstd::prelude::*;

verus! {

/// The policy for deciding whether observed output satisfies expected output.
#[derive(Copy, Clone, Debug, PartialEq, Eq, Structural)]
pub enum Comparison {
    /// Passes iff the observed output contains the expected output as a
    /// contiguous substring (character exact, case-sensitive).
    Included,
    /// Passes iff the observed output equals the expected output exactly,
    /// including whitespace and trailing newlines; no trimming is performed.
    Exact,
    /// Compiles the expected output as a regular expression and passes iff
    /// the pattern matches anywhere within the observed output.
    Regex,
}

/// One declarative unit of grading work.
///
/// `run` is always present; every other field is optional and each absence
/// has a well-defined fallback: no setup phase, no standard input, pass on
/// process success alone, no contribution to the score.
#[derive(Clone, Debug)]
pub struct TestCase {
    /// Display identifier; need not be unique.
    pub name: String,
    /// Optional command run before the run command; its failure
    /// short-circuits the test.
    pub setup: Option<String>,
    /// The command whose output is evaluated for correctness.
    pub run: String,
    /// Optional text delivered verbatim as standard input to the run
    /// command; absent means standard input is closed without writing.
    pub input: Option<String>,
    /// Optional expected output, interpreted under `comparison`.
    pub output: Option<String>,
    /// The matching strategy for `output`; absent means the run phase
    /// passes on process success alone.
    pub comparison: Option<Comparison>,
    /// Accepted but currently unenforced; reserved for future use.
    pub timeout: Option<u16>,
    /// Optional point value; absent means the test gates overall success
    /// but contributes nothing to the score.
    pub points: Option<u16>,
}

/// The characters of `s` with every carriage return removed, in order.
pub open spec fn strip_cr(s: Seq<char>) -> Seq<char>
    decreases s.len(),
{
    if s.len() == 0 {
        Seq::empty()
    } else if s.last() == '\r' {
        strip_cr(s.drop_last())
    } else {
        strip_cr(s.drop_last()).push(s.last())
    }
}

/// Removes every carriage-return character from the given text, keeping all
/// other characters in order.
pub fn strip_crlf(to_strip: &str) -> (out: String)
    ensures
        out@ == strip_cr(to_strip@),
{
    let len: usize = to_strip.unicode_len();
    let mut out = String::new();
    let mut i: usize = 0;
    while i < len
        invariant
            i <= len,
            len == to_strip@.len(),
            out@ == strip_cr(to_strip@.subrange(0, i as int)),
        decreases len - i,
    {
        let c = to_strip.get_char(i);
        proof {
            assert(to_strip@.subrange(0, i + 1).drop_last() =~= to_strip@.subrange(0, i as int));
            assert(to_strip@.subrange(0, i + 1).last() == c);
        }
        if c != '\r' {
            crate::text::push_char(&mut out, c);
        }
        i = i + 1;
    }
    proof {
        assert(to_strip@.subrange(0, len as int) =~= to_strip@);
    }
    out
}

/// How a normalized test case relates to the loaded one: carriage returns
/// are stripped from `input` and `output`, and every other field is kept.
pub open spec fn normalized(after: TestCase, before: TestCase) -> bool {
    &&& after.name@ == before.name@
    &&& after.setup.deep_view() == before.setup.deep_view()
    &&& after.run@ == before.run@
    &&& match before.input {
        Some(s) => after.input matches Some(t) && t@ == strip_cr(s@),
        None => after.input is None,
    }
    &&& match before.output {
        Some(s) => after.output matches Some(t) && t@ == strip_cr(s@),
        None => after.output is None,
    }
    &&& after.comparison == before.comparison
    &&& after.timeout == before.timeout
    &&& after.points == before.points
}

fn strip_optional(text: &Option<String>) -> (r: Option<String>)
    ensures
        match text {
            Some(s) => r matches Some(t) && t@ == strip_cr(s@),
            None => r is None,
        },
{
    match text {
        Some(s) => Some(strip_crlf(s.as_str())),
        None => None,
    }
}

/// Clones an optional text field, keeping its characters.
pub(crate) fn clone_optional(text: &Option<String>) -> (r: Option<String>)
    ensures
        r.deep_view() == text.deep_view(),
{
    match text {
        Some(s) => Some(s.clone()),
        None => None,
    }
}

/// The load-time normalization pass: strips every carriage return from the
/// test's `input` and `output` and keeps all other fields as they are.
pub fn normalize_test(test: &TestCase) -> (r: TestCase)
    ensures
        normalized(r, *test),
{
    TestCase {
        name: test.name.clone(),
        setup: clone_optional(&test.setup),
        run: test.run.clone(),
        input: strip_optional(&test.input),
        output: strip_optional(&test.output),
        comparison: test.comparison,
        timeout: test.timeout,
        points: test.points,
    }
}

/// Applies the normalization pass to a whole loaded test list, in order.
pub fn normalize_tests(tests: &Vec<TestCase>) -> (r: Vec<TestCase>)
    ensures
        r@.len() == tests@.len(),
        forall|i: int| 0 <= i < tests@.len() ==> normalized(#[trigger] r@[i], tests@[i]),
{
    let mut out: Vec<TestCase> = Vec::new();
    let mut i: usize = 0;
    while i < tests.len()
        invariant
            i <= tests@.len(),
            out@.len() == i,
            forall|j: int| 0 <= j < i ==> normalized(#[trigger] out@[j], tests@[j]),
        decreases tests@.len() - i,
    {
        out.push(normalize_test(&tests[i]));
        i = i + 1;
    }
    out
}

/// Turns an empty string into an absent value, so that a blank field in a
/// loaded configuration behaves exactly like a missing one.
pub fn exclude_empty(s: String) -> (r: Option<String>)
    ensures
        s@.len() == 0 ==> r is None,
        s@.len() > 0 ==> (r matches Some(t) && t@ == s@),
{
    if s.as_str().unicode_len() == 0 {
        None
    } else {
        Some(s)
    }
}

} // verus!
