//! Regular expressions, through the `regex` crate.
use vstd::prelude::*;

verus! {

#[verifier::external_type_specification]
#[verifier::external_body]
pub struct ExRegex(regex::Regex);

/// Whether `regex::Regex::new` accepts `pattern` (it is valid syntax and,
/// compiled, stays under the default size limit).
pub uninterp spec fn regex_compiles(pattern: Seq<char>) -> bool;

/// What `regex::Regex::captures` finds for `pattern` in `haystack`: `None`
/// when there is no match, otherwise the text of each capture group, in the
/// order of the groups' opening parentheses (`None` for a group that took no
/// part in the match).
pub uninterp spec fn regex_captures_of(pattern: Seq<char>, haystack: Seq<char>) -> Option<
    Seq<Option<Seq<char>>>,
>;

/// The pieces that `regex::Regex::split` cuts `haystack` into at the matches
/// of `pattern`.
pub uninterp spec fn regex_split_of(pattern: Seq<char>, haystack: Seq<char>) -> Seq<Seq<char>>;

/// A compiled regular expression together with the pattern it was compiled
/// from. Only `Pattern::compile` builds one, so `source` is always the text
/// that `re` was compiled from.
pub struct Pattern {
    re: regex::Regex,
    source: String,
}

impl Pattern {
    /// The pattern text this expression was compiled from.
    pub closed spec fn source(&self) -> Seq<char> {
        self.source@
    }

    /// Calls `regex::Regex::new`. Claims: it succeeds exactly when
    /// `regex_compiles` holds of the pattern, and the compiled expression keeps
    /// the pattern as its source. The text of a failure (the error's `Display`
    /// form) is not stated.
    #[verifier::external_body]
    pub(crate) fn compile(pattern: &str) -> (res: Result<Pattern, String>)
        ensures
            res is Ok == regex_compiles(pattern@),
            res matches Ok(p) ==> p.source() == pattern@,
    {
        regex::Regex::new(pattern).map(|re| Pattern { re, source: pattern.to_string() }).map_err(
            |e| e.to_string(),
        )
    }

    /// Calls `regex::Regex::is_match`, which, as its documentation says, is
    /// true exactly when there is a match anywhere in `haystack`, that is,
    /// when `captures` finds one.
    #[verifier::external_body]
    pub(crate) fn is_match(&self, haystack: &str) -> (res: bool)
        ensures
            res == regex_captures_of(self.source(), haystack@) is Some,
    {
        self.re.is_match(haystack)
    }

    /// Calls `regex::Regex::captures` and turns each group's match into its
    /// text. Claims: the result is `regex_captures_of` of the source and the
    /// haystack; a found match always has group 0, the whole match, as the
    /// documentation of `Captures` says.
    #[verifier::external_body]
    pub(crate) fn captures(&self, haystack: &str) -> (res: Option<Vec<Option<String>>>)
        ensures
            res.deep_view() == regex_captures_of(self.source(), haystack@),
            res matches Some(groups) ==> groups@.len() >= 1 && groups@[0] is Some,
    {
        self.re.captures(haystack).map(
            |caps| caps.iter().map(|m| m.map(|m| m.as_str().to_string())).collect(),
        )
    }

    /// Calls `regex::Regex::split` and collects the pieces. Claims: the result
    /// is `regex_split_of` of the source and the haystack.
    #[verifier::external_body]
    pub(crate) fn split(&self, haystack: &str) -> (res: Vec<String>)
        ensures
            res.deep_view() == regex_split_of(self.source(), haystack@),
    {
        self.re.split(haystack).map(|piece| piece.to_string()).collect()
    }
}

} // verus!
