//! A compiled set of regular expressions, kept together with the patterns it
//! was compiled from so that contracts can speak of what it matches.

use vstd::prelude::*;

verus! {

/// Whether `regex::RegexSet::new` accepts `patterns`: every pattern compiles
/// as a regular expression, within the library's size limits.
pub uninterp spec fn regex_patterns_ok(patterns: Seq<Seq<char>>) -> bool;

/// Whether the set compiled from `patterns` matches `text`: true exactly when
/// at least one of the patterns matches.
pub uninterp spec fn regex_set_matches(patterns: Seq<Seq<char>>, text: Seq<char>) -> bool;

#[verifier::external_type_specification]
#[verifier::external_body]
pub struct ExRegexSet(regex::RegexSet);

/// A set of regular expressions, compiled once.
pub struct PatternSet {
    set: regex::RegexSet,
    patterns: Vec<String>,
}

impl PatternSet {
    /// The patterns this set was compiled from.
    pub closed spec fn view(&self) -> Seq<Seq<char>> {
        self.patterns.deep_view()
    }

    /// Relies on `regex::RegexSet::new`: compiles the patterns, succeeding
    /// exactly when the whole set compiles; the error is rendered as text.
    #[verifier::external_body]
    pub fn new(patterns: Vec<String>) -> (r: Result<PatternSet, String>)
        ensures
            r is Ok <==> regex_patterns_ok(patterns.deep_view()),
            r matches Ok(p) ==> p@ == patterns.deep_view(),
    {
        match regex::RegexSet::new(patterns.iter()) {
            Ok(set) => Ok(PatternSet { set, patterns }),
            Err(e) => Err(format!("{}", e)),
        }
    }

    /// Relies on `regex::RegexSet::is_match`: whether any pattern in the set
    /// matches `text`.
    #[verifier::external_body]
    pub fn is_match(&self, text: &str) -> (r: bool)
        ensures
            r == regex_set_matches(self@, text@),
    {
        self.set.is_match(text)
    }
}

} // verus!
