//! Regular expressions, through the `regex` crate.
//!
//! What a regular expression matches is not restated here: it is named by
//! `regex_is_match`, a function of the pattern text and the haystack alone.
use vstd::prelude::*;

verus! {

/// The outside type `regex::Regex`, carried opaquely.
#[verifier::external_type_specification]
#[verifier::external_body]
pub struct ExRegex(regex::Regex);

/// A compiled regular expression together with the pattern text it was
/// compiled from. Values are only built by `compile_pattern`, so `regex` is
/// always the compilation of `source`.
pub struct CompiledPattern {
    regex: regex::Regex,
    source: String,
}

impl CompiledPattern {
    /// The pattern text this expression was compiled from.
    pub closed spec fn source(&self) -> Seq<char> {
        self.source@
    }
}

/// Whether `regex::Regex::new` accepts `pattern`.
pub uninterp spec fn regex_compiles(pattern: Seq<char>) -> bool;

/// Whether the regular expression `pattern` matches somewhere in `haystack`
/// (the answer of `regex::Regex::is_match`).
pub uninterp spec fn regex_is_match(pattern: Seq<char>, haystack: Seq<char>) -> bool;

/// Calls `regex::Regex::new`. Claimed: the result is `Some` exactly when the
/// pattern compiles, and then it records the pattern text it came from.
#[verifier::external_body]
pub(crate) fn compile_pattern(pattern: &str) -> (r: Option<CompiledPattern>)
    ensures
        r is Some <==> regex_compiles(pattern@),
        r matches Some(c) ==> c.source() == pattern@,
{
    match regex::Regex::new(pattern) {
        Ok(regex) => Some(CompiledPattern { regex, source: pattern.to_string() }),
        Err(_) => None,
    }
}

/// Calls `regex::Regex::is_match`. Claimed: the answer is `regex_is_match`
/// of the compiled pattern's text and the haystack.
#[verifier::external_body]
pub(crate) fn pattern_is_match(p: &CompiledPattern, haystack: &str) -> (r: bool)
    ensures
        r == regex_is_match(p.source(), haystack@),
{
    p.regex.is_match(haystack)
}

/// A piece of a haystack cut at the matches of a regular expression: either
/// the text between matches, or a match with the text of its first group.
pub struct RegexSegment {
    pub text: String,
    pub is_match: bool,
    pub group1: Option<String>,
}

/// The view of a segment: its text, whether it is a match, and the text of
/// the match's first group.
pub open spec fn segment_view(s: RegexSegment) -> (Seq<char>, bool, Option<Seq<char>>) {
    (s.text@, s.is_match, match s.group1 {
        Some(g) => Some(g@),
        None => None,
    })
}

/// The concatenation of the segments' texts.
pub open spec fn segments_text(segs: Seq<(Seq<char>, bool, Option<Seq<char>>)>) -> Seq<char>
    decreases segs.len(),
{
    if segs.len() == 0 {
        seq![]
    } else {
        segments_text(segs.drop_last()) + segs.last().0
    }
}

/// The haystack cut at the successive non-overlapping matches of the
/// pattern, as `regex::Regex::captures_iter` finds them, gaps included.
pub uninterp spec fn regex_segments(pattern: Seq<char>, haystack: Seq<char>) -> Seq<
    (Seq<char>, bool, Option<Seq<char>>),
>;

/// Calls `regex::Regex::captures_iter` and cuts the haystack at the matches
/// it yields: the text before each match, the match with its first group,
/// and the text after the last match. Claimed: the segments are
/// `regex_segments` of the pattern text and the haystack, and their texts
/// put together give the haystack back (matches are the haystack's own
/// substrings, in order).
#[verifier::external_body]
pub(crate) fn pattern_segments(p: &CompiledPattern, haystack: &str) -> (r: Vec<RegexSegment>)
    ensures
        r@.map_values(|s: RegexSegment| segment_view(s)) == regex_segments(p.source(), haystack@),
        segments_text(r@.map_values(|s: RegexSegment| segment_view(s))) == haystack@,
{
    let mut out = Vec::new();
    let mut last: usize = 0;
    for caps in p.regex.captures_iter(haystack) {
        let m = caps.get(0).unwrap();
        out.push(RegexSegment { text: haystack[last..m.start()].to_string(), is_match: false, group1: None });
        out.push(RegexSegment {
            text: m.as_str().to_string(),
            is_match: true,
            group1: caps.get(1).map(|g| g.as_str().to_string()),
        });
        last = m.end();
    }
    out.push(RegexSegment { text: haystack[last..].to_string(), is_match: false, group1: None });
    out
}

} // verus!
