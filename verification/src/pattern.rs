//! Compiled regular expressions, searched through the `regex` crate.
//!
//! A [`Pattern`] keeps the source text it was compiled from next to the
//! compiled automaton; its fields are private to this module and the only
//! way to build one is [`Pattern::compile`], so the automaton of every
//! `Pattern` is the one `regex::Regex::new` built from its source text. The
//! searches below are stated over that source text.
use vstd::prelude::*;
use crate::languages::cpp::EXTERNAL_REF_PATTERN;
use crate::languages::java::{CLASS_PATTERN, IMPORT_PATTERN};
use crate::text::owned;

verus! {

/// The compiled automaton of the `regex` crate; opaque here.
#[verifier::external_type_specification]
#[verifier::external_body]
pub struct ExRegex(regex::Regex);

/// The error that `regex::Regex::new` reports; opaque here.
#[verifier::external_type_specification]
#[verifier::external_body]
pub struct ExRegexError(regex::Error);

/// Whether `regex::Regex::new` accepts `pattern` (valid syntax, within the
/// default size limit).
pub uninterp spec fn regex_accepts(pattern: Seq<char>) -> bool;

/// `regex::Regex::is_match`: whether the regex compiled from `pattern` matches
/// anywhere in `haystack`.
pub uninterp spec fn regex_finds(pattern: Seq<char>, haystack: Seq<char>) -> bool;

/// `regex::Regex::captures`: the capture groups of the leftmost-first match of
/// the regex compiled from `pattern` in `haystack` (group 0 is the whole
/// match; a group that did not take part is `None`), or `None` when there is
/// no match.
pub uninterp spec fn regex_first_captures(
    pattern: Seq<char>,
    haystack: Seq<char>,
) -> Option<Seq<Option<Seq<char>>>>;

/// `regex::Regex::captures_iter`: the capture groups of each successive
/// non-overlapping match of the regex compiled from `pattern` in `haystack`,
/// in order.
pub uninterp spec fn regex_all_captures(
    pattern: Seq<char>,
    haystack: Seq<char>,
) -> Seq<Seq<Option<Seq<char>>>>;

/// The fixed patterns the engine searches with.
pub open spec fn fixed_pattern(pattern: Seq<char>) -> bool {
    pattern == EXTERNAL_REF_PATTERN@ || pattern == IMPORT_PATTERN@ || pattern == CLASS_PATTERN@
}

/// `regex::Regex::new`: compiles `pattern`. Claimed: it succeeds exactly when
/// the crate accepts the pattern, and it accepts the engine's fixed patterns
/// (each is valid syntax under the crate's documented grammar and stays far
/// within the default size limit). Nothing is claimed of the automaton itself.
#[verifier::external_body]
fn regex_new(pattern: &str) -> (r: Result<regex::Regex, regex::Error>)
    ensures
        r is Ok <==> regex_accepts(pattern@),
        fixed_pattern(pattern@) ==> r is Ok,
{
    regex::Regex::new(pattern)
}

/// A regular expression together with the text it was compiled from.
pub struct Pattern {
    source: String,
    compiled: regex::Regex,
}

impl View for Pattern {
    type V = Seq<char>;

    closed spec fn view(&self) -> Seq<char> {
        self.source@
    }
}

impl Pattern {
    /// Compiles `source`; `None` exactly when the `regex` crate refuses it.
    pub fn compile(source: &str) -> (r: Option<Pattern>)
        ensures
            r is Some <==> regex_accepts(source@),
            fixed_pattern(source@) ==> r is Some,
            r matches Some(p) ==> p@ == source@,
    {
        match regex_new(source) {
            Ok(compiled) => Some(Pattern { source: owned(source), compiled }),
            Err(_) => None,
        }
    }

    /// The source text of this pattern.
    pub fn source(&self) -> (r: &str)
        ensures
            r@ == self@,
    {
        self.source.as_str()
    }
}

/// `regex::Regex::is_match` on the automaton of `p`: whether it matches
/// anywhere in `haystack`. Claimed: the answer is `regex_finds` of the
/// pattern's source and the haystack.
#[verifier::external_body]
pub(crate) fn regex_is_match(p: &Pattern, haystack: &str) -> (r: bool)
    ensures
        r == regex_finds(p@, haystack@),
{
    p.compiled.is_match(haystack)
}

/// `regex::Regex::captures` on the automaton of `p`, each group turned into an
/// owned string. Claimed: the result is `regex_first_captures` of the
/// pattern's source and the haystack.
#[verifier::external_body]
pub(crate) fn regex_captures(p: &Pattern, haystack: &str) -> (r: Option<Vec<Option<String>>>)
    ensures
        r.deep_view() == regex_first_captures(p@, haystack@),
{
    p.compiled.captures(haystack).map(|c| c.iter().map(|g| g.map(|m| m.as_str().to_string())).collect())
}

/// `regex::Regex::captures_iter` on the automaton of `p`, collected, each group
/// turned into an owned string. Claimed: the result is `regex_all_captures`
/// of the pattern's source and the haystack.
#[verifier::external_body]
pub(crate) fn regex_captures_iter(p: &Pattern, haystack: &str) -> (r: Vec<Vec<Option<String>>>)
    ensures
        r.deep_view() == regex_all_captures(p@, haystack@),
{
    p.compiled.captures_iter(haystack).map(|c| c.iter().map(|g| g.map(|m| m.as_str().to_string())).collect()).collect()
}

} // verus!
