//! The regular-expression engine as the rest of the library sees it.
//!
//! Patterns are compiled and run by the `regex` crate, on bytes. What that
//! crate computes is not proved here. Each of its results that the library
//! depends on has a name, a spec function without a body, and the functions of
//! this module that call into the crate state their results over those names.
//! A name stands for what one build of the crate answers: the same pattern and
//! the same bytes always give the same answer.

use regex::bytes::Regex;
use std::borrow::Cow;
use vstd::prelude::*;

verus! {

#[verifier::external_type_specification]
#[verifier::external_body]
pub struct ExRegex(regex::bytes::Regex);

#[verifier::external_type_specification]
#[verifier::external_body]
pub struct ExRegexError(regex::Error);

/// Whether `Regex::new` accepts `pattern`.
pub uninterp spec fn regex_compiles(pattern: Seq<char>) -> bool;

/// Whether the regex compiled from `pattern` matches anywhere in `haystack`
/// (`Regex::is_match`).
pub uninterp spec fn regex_is_match(pattern: Seq<char>, haystack: Seq<u8>) -> bool;

/// The capture groups of the leftmost match of `pattern` in `haystack`
/// (`Regex::captures`), each as the byte offsets where the group starts and
/// ends, or `None` for a group that took no part in the match.
pub uninterp spec fn regex_captures(pattern: Seq<char>, haystack: Seq<u8>) -> Option<Seq<Option<(usize, usize)>>>;

/// The names of the capture groups of `pattern`, by group index
/// (`Regex::capture_names`).
pub uninterp spec fn regex_group_names(pattern: Seq<char>) -> Seq<Option<Seq<char>>>;

/// `haystack` with the first `limit` matches of `pattern` replaced by the
/// expansion of `replacement`, or with all of them replaced when `limit` is 0
/// (`Regex::replacen`).
pub uninterp spec fn regex_replacen(pattern: Seq<char>, haystack: Seq<u8>, limit: usize, replacement: Seq<u8>) -> Seq<u8>;

/// Every span lies inside a text of `len` bytes.
pub open spec fn spans_within(spans: Seq<Option<(usize, usize)>>, len: nat) -> bool {
    forall|i: int|
        0 <= i < spans.len() ==> (#[trigger] spans[i] matches Some(span) ==> span.0 <= span.1
            <= len)
}

/// Group names as plain text.
pub open spec fn names_view(names: Seq<Option<String>>) -> Seq<Option<Seq<char>>> {
    Seq::new(
        names.len(),
        |i: int|
            match names[i] {
                Some(name) => Some(name@),
                None => None,
            },
    )
}

/// A compiled pattern together with the text it was compiled from.
///
/// The only ways to one are [`compile`] and [`Matcher::duplicate`], so the
/// regex inside is always the one that `Regex::new` built from that text.
#[derive(Debug)]
pub struct Matcher {
    source: String,
    re: Regex,
}

impl View for Matcher {
    type V = Seq<char>;

    /// The pattern text.
    closed spec fn view(&self) -> Seq<char> {
        self.source@
    }
}

impl Matcher {
    /// The pattern text this matcher was compiled from.
    pub fn pattern(&self) -> (s: &str)
        ensures
            s@ == self@,
    {
        self.source.as_str()
    }

    /// Calls `Regex::clone`, which shares the compiled program: the copy is a
    /// matcher for the same pattern.
    #[verifier::external_body]
    pub(crate) fn duplicate(&self) -> (copy: Matcher)
        ensures
            copy@ == self@,
    {
        Matcher { source: self.source.clone(), re: self.re.clone() }
    }

    /// Calls `Regex::is_match`. The answer is named, not described.
    #[verifier::external_body]
    pub(crate) fn is_match(&self, haystack: &[u8]) -> (found: bool)
        ensures
            found == regex_is_match(self@, haystack@),
    {
        self.re.is_match(haystack)
    }

    /// Calls `Regex::captures` and reads each group's offsets out of the
    /// result. Beside the name, the contract claims what the crate documents
    /// of every match: there is a result exactly when `is_match` holds, group 0
    /// is always present, and each group's offsets satisfy
    /// `start <= end <= haystack.len()`.
    #[verifier::external_body]
    pub(crate) fn captures(&self, haystack: &[u8]) -> (found: Option<Vec<Option<(usize, usize)>>>)
        ensures
            found is Some == regex_is_match(self@, haystack@),
            match found {
                Some(spans) => regex_captures(self@, haystack@) == Some(spans@),
                None => regex_captures(self@, haystack@) is None,
            },
            found matches Some(spans) ==> spans@.len() >= 1 && spans@[0] is Some && spans_within(
                spans@,
                haystack@.len(),
            ),
    {
        self.re.captures(haystack).map(
            |caps| caps.iter().map(|group| group.map(|m| (m.start(), m.end()))).collect(),
        )
    }

    /// Calls `Regex::capture_names` and copies the names out.
    #[verifier::external_body]
    pub(crate) fn group_names(&self) -> (names: Vec<Option<String>>)
        ensures
            names_view(names@) == regex_group_names(self@),
    {
        self.re.capture_names().map(|name| name.map(|n| n.to_owned())).collect()
    }

    /// Calls `Regex::replacen`. `None` stands for `Cow::Borrowed`, which the
    /// crate returns only when the result is the haystack itself. The crate
    /// also documents that a haystack without a match comes back unchanged.
    #[verifier::external_body]
    pub(crate) fn replacen(&self, haystack: &[u8], limit: usize, replacement: &[u8]) -> (replaced:
        Option<Vec<u8>>)
        ensures
            match replaced {
                Some(bytes) => bytes@ == regex_replacen(self@, haystack@, limit, replacement@),
                None => haystack@ == regex_replacen(self@, haystack@, limit, replacement@),
            },
            !regex_is_match(self@, haystack@) ==> (replaced matches Some(bytes) ==> bytes@
                == haystack@),
    {
        match self.re.replacen(haystack, limit, replacement) {
            Cow::Owned(bytes) => Some(bytes),
            Cow::Borrowed(_) => None,
        }
    }
}

/// Calls `Regex::new` and keeps the pattern text beside the regex it built.
#[verifier::external_body]
pub(crate) fn compile(pattern: &str) -> (r: Result<Matcher, regex::Error>)
    ensures
        r is Ok == regex_compiles(pattern@),
        r matches Ok(m) ==> m@ == pattern@,
{
    match Regex::new(pattern) {
        Ok(re) => Ok(Matcher { source: pattern.to_owned(), re }),
        Err(e) => Err(e),
    }
}

} // verus!
