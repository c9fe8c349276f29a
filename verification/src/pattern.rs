//! Trusted bridge to the `regex` crate: compiling an expected-output string
//! as a pattern and testing a pattern against observed output.
//!
//! Whether a pattern compiles, and whether it matches a given text, are
//! functions of the pattern source and the text alone; the library gives
//! each result a name and proves everything downstream against those names.

use vstd::prelude::*;

verus! {

/// Whether `regex::Regex::new` accepts `pattern` as a regular expression.
pub uninterp spec fn regex_valid(pattern: Seq<char>) -> bool;

/// Whether the regular expression compiled from `pattern` matches anywhere
/// within `text`, as `regex::Regex::is_match` decides it.
pub uninterp spec fn regex_match(pattern: Seq<char>, text: Seq<char>) -> bool;

#[verifier::external_type_specification]
#[verifier::external_body]
pub struct ExRegex(regex::Regex);

/// A compiled regular expression together with the source it was compiled
/// from. The view of a `Pattern` is its source text.
pub struct Pattern {
    compiled: regex::Regex,
    source: String,
}

impl View for Pattern {
    type V = Seq<char>;

    closed spec fn view(&self) -> Seq<char> {
        self.source@
    }
}

/// Relies on `regex::Regex::new`: compilation succeeds exactly on the
/// patterns the crate accepts, and the compiled value matches as the
/// pattern source dictates. On failure the compile error's rendering is
/// returned as the message.
#[verifier::external_body]
pub fn compile_pattern(pattern: &str) -> (r: Result<Pattern, String>)
    ensures
        r is Ok <==> regex_valid(pattern@),
        r matches Ok(p) ==> p@ == pattern@,
{
    match regex::Regex::new(pattern) {
        Ok(compiled) => Ok(Pattern { compiled, source: pattern.to_owned() }),
        Err(e) => Err(format!("{}", e)),
    }
}

/// Relies on `regex::Regex::is_match`: true if and only if there is a match
/// for the pattern anywhere in the given text.
#[verifier::external_body]
pub fn pattern_matches(pattern: &Pattern, text: &str) -> (r: bool)
    ensures
        r == regex_match(pattern@, text@),
{
    pattern.compiled.is_match(text)
}

} // verus!
