//! Compiled regular expressions.
//!
//! Matching is done by the `regex` crate. The library keeps, beside each
//! compiled expression, the pattern text it was compiled from, and states
//! every contract over that text.

use vstd::prelude::*;

verus! {

/// `regex::Regex`, carried as an opaque value.
#[verifier::external_type_specification]
#[verifier::external_body]
pub struct ExRegex(regex::Regex);

/// `regex::Error`, carried as an opaque value.
#[verifier::external_type_specification]
#[verifier::external_body]
pub struct ExRegexError(regex::Error);

/// The text that `regex::Regex::replace_all` returns when the expression
/// compiled from `pattern` is applied to `text` with the replacement string
/// `replacement`: every non-overlapping match, taken leftmost first, is
/// replaced, and the rest of `text` is kept. A `$` in `replacement` refers to
/// a capture group, as `regex` reads it.
pub uninterp spec fn regex_replace_all(
    pattern: Seq<char>,
    text: Seq<char>,
    replacement: Seq<char>,
) -> Seq<char>;

/// Whether `regex::Regex::new` accepts `pattern`: the pattern is well formed
/// and the expression compiled from it stays within the size that
/// `regex::Regex::new` allows.
pub uninterp spec fn regex_compiles(pattern: Seq<char>) -> bool;

/// `regex::Regex::new` compiles a pattern or rejects it, and which of the two
/// depends on the pattern alone. Which patterns are accepted is not described
/// here but named: they are those for which [`regex_compiles`] holds.
pub assume_specification[ regex::Regex::new ](re: &str) -> (r: Result<regex::Regex, regex::Error>)
    ensures
        r is Ok <==> regex_compiles(re@),
;

/// A regular expression together with the pattern it was compiled from.
///
/// The fields are private and [`CompiledRegex::new`] is the only way to make
/// a value, so `engine` is always what `regex::Regex::new` made of `source`.
/// A value is never changed after it was made.
#[derive(Debug)]
pub struct CompiledRegex {
    source: String,
    engine: regex::Regex,
}

impl View for CompiledRegex {
    type V = Seq<char>;

    /// The pattern text.
    closed spec fn view(&self) -> Seq<char> {
        self.source@
    }
}

/// `regex::Regex::replace_all` with a string replacement, on the expression
/// held by `re`. The result is not described here but named: it is what
/// [`regex_replace_all`] stands for, taken at the pattern that `re` was
/// compiled from, at `text` and at `replacement`.
#[verifier::external_body]
fn replace_all_matches(re: &CompiledRegex, text: &str, replacement: &str) -> (out: String)
    ensures
        out@ == regex_replace_all(re@, text@, replacement@),
{
    re.engine.replace_all(text, replacement).into_owned()
}

impl CompiledRegex {
    /// Pairs `pattern` with the outcome of compiling it: an expression where
    /// compiling succeeded, nothing where it failed.
    fn from_outcome(pattern: &str, outcome: Result<regex::Regex, regex::Error>) -> (r: Option<
        CompiledRegex,
    >)
        ensures
            r is Some <==> outcome is Ok,
            r matches Some(c) ==> c@ == pattern@,
    {
        match outcome {
            Ok(engine) => Some(CompiledRegex { source: pattern.to_owned(), engine }),
            Err(_) => None,
        }
    }

    /// Compiles `pattern`. Returns the compiled expression where `regex`
    /// accepts the pattern, and `None` where it rejects it.
    pub fn new(pattern: &str) -> (r: Option<CompiledRegex>)
        ensures
            r is Some <==> regex_compiles(pattern@),
            r matches Some(c) ==> c@ == pattern@,
    {
        CompiledRegex::from_outcome(pattern, regex::Regex::new(pattern))
    }

    /// The pattern text this expression was compiled from.
    pub fn as_str(&self) -> (s: &str)
        ensures
            s@ == self@,
    {
        self.source.as_str()
    }

    /// Replaces every non-overlapping match in `text`, taken leftmost first,
    /// by `replacement`. A `$` in `replacement` refers to a capture group of
    /// the match, as `regex` reads it; `$$` stands for a `$` itself.
    pub fn replace_all(&self, text: &str, replacement: &str) -> (out: String)
        ensures
            out@ == regex_replace_all(self@, text@, replacement@),
    {
        replace_all_matches(self, text, replacement)
    }
}

} // verus!
