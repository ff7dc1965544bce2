//! Regular expressions used for pattern matching of invocation strings.
use vstd::prelude::*;

verus! {

#[verifier::external_type_specification]
#[verifier::external_body]
pub struct ExRegex(regex::Regex);

#[verifier::external_type_specification]
#[verifier::external_body]
pub struct ExRegexError(regex::Error);

/// Whether `regex::Regex::new` accepts the pattern.
pub uninterp spec fn pattern_compiles(pattern: Seq<char>) -> bool;

/// Whether the regular expression `pattern` matches somewhere in `haystack`.
pub uninterp spec fn pattern_matches(pattern: Seq<char>, haystack: Seq<char>) -> bool;

/// A regular expression together with the pattern it was compiled from.
///
/// Values are only made by `compile_regex`, so `regex` is always the
/// compiled form of `source`.
pub struct CompiledPattern {
    source: String,
    regex: regex::Regex,
}

impl View for CompiledPattern {
    type V = Seq<char>;

    closed spec fn view(&self) -> Seq<char> {
        self.source@
    }
}

/// Relies on `regex::Regex::new`: it returns `Ok` exactly when the pattern
/// is valid and within the default size limit, which depends on the pattern
/// alone.
#[verifier::external_body]
fn compile_regex(pattern: &str) -> (r: Result<CompiledPattern, regex::Error>)
    ensures
        r is Ok <==> pattern_compiles(pattern@),
        r matches Ok(c) ==> c@ == pattern@,
{
    regex::Regex::new(pattern).map(|regex| CompiledPattern { source: pattern.to_string(), regex })
}

/// Relies on `regex::Regex::is_match`: true exactly when the regular
/// expression matches anywhere in the haystack.
#[verifier::external_body]
fn regex_is_match(c: &CompiledPattern, haystack: &str) -> (r: bool)
    ensures
        r == pattern_matches(c@, haystack@),
{
    c.regex.is_match(haystack)
}

impl CompiledPattern {
    /// Compiles `pattern`; fails exactly when the regex engine rejects it.
    pub fn compile(pattern: &str) -> (r: Result<CompiledPattern, regex::Error>)
        ensures
            r is Ok <==> pattern_compiles(pattern@),
            r matches Ok(c) ==> c@ == pattern@,
    {
        compile_regex(pattern)
    }

    /// The pattern this regular expression was compiled from.
    pub fn source(&self) -> (r: &str)
        ensures
            r@ == self@,
    {
        self.source.as_str()
    }

    /// Whether the pattern matches anywhere in `haystack` (an unanchored
    /// search, not a whole-string match).
    pub fn is_match(&self, haystack: &str) -> (r: bool)
        ensures
            r == pattern_matches(self@, haystack@),
    {
        regex_is_match(self, haystack)
    }
}

} // verus!
