//! Trusted boundary to the `regex` crate.
//!
//! Pattern matching, rewriting and searching are delegated to `regex`; each
//! call stands behind one wrapper whose contract names the value the engine
//! computes.  What a pattern matches is not restated here: the engine's
//! results are given names (`bytes_found`, `bytes_replaced`,
//! `text_first_match`), and only facts the crate's documentation plainly
//! states are asserted about them.

use vstd::prelude::*;

verus! {

/// Whether `regex::bytes::Regex::new` accepts `pattern`.
pub uninterp spec fn bytes_pattern_ok(pattern: Seq<char>) -> bool;

/// Whether `pattern` matches anywhere in `content`: the value computed by
/// `regex::bytes::Regex::is_match`.
pub uninterp spec fn bytes_found(pattern: Seq<char>, content: Seq<u8>) -> bool;

/// `content` with every non-overlapping match of `pattern` replaced by
/// `replacement`: the value computed by `regex::bytes::Regex::replace_all`.
pub uninterp spec fn bytes_replaced(
    pattern: Seq<char>,
    content: Seq<u8>,
    replacement: Seq<u8>,
) -> Seq<u8>;

/// Whether `regex::Regex::new` accepts `pattern`.
pub uninterp spec fn text_pattern_ok(pattern: Seq<char>) -> bool;

/// The substring matched by the leftmost-first match of `pattern` in
/// `text`, if any: the value computed by `regex::Regex::find`.
pub uninterp spec fn text_first_match(pattern: Seq<char>, text: Seq<char>) -> Option<Seq<char>>;

/// Relies on `regex::bytes::Regex::new`: whether a pattern compiles is a
/// function of the pattern text alone.
#[verifier::external_body]
pub(crate) fn bytes_pattern_compiles(pattern: &str) -> (r: bool)
    ensures
        r == bytes_pattern_ok(pattern@),
{
    regex::bytes::Regex::new(pattern).is_ok()
}

/// Relies on `regex::bytes::Regex::new` (the pattern is known to compile)
/// and `regex::bytes::Regex::is_match`: whether a match exists is a
/// function of the pattern and the haystack alone.
#[verifier::external_body]
pub(crate) fn bytes_is_match(pattern: &str, content: &[u8]) -> (r: bool)
    requires
        bytes_pattern_ok(pattern@),
    ensures
        r == bytes_found(pattern@, content@),
{
    regex::bytes::Regex::new(pattern).unwrap().is_match(content)
}

/// Relies on `regex::bytes::Regex::new` (the pattern is known to compile)
/// and `regex::bytes::Regex::replace_all`: the rewritten bytes are a
/// function of pattern, haystack and replacement alone, and a haystack
/// without a match is returned unchanged.
#[verifier::external_body]
pub(crate) fn bytes_replace_all(pattern: &str, content: &[u8], replacement: &[u8]) -> (r: Vec<u8>)
    requires
        bytes_pattern_ok(pattern@),
    ensures
        r@ == bytes_replaced(pattern@, content@, replacement@),
        !bytes_found(pattern@, content@) ==> r@ == content@,
{
    regex::bytes::Regex::new(pattern).unwrap().replace_all(content, replacement).into_owned()
}

/// Relies on `regex::Regex::new`: whether a pattern compiles is a function
/// of the pattern text alone.
#[verifier::external_body]
pub(crate) fn text_pattern_compiles(pattern: &str) -> (r: bool)
    ensures
        r == text_pattern_ok(pattern@),
{
    regex::Regex::new(pattern).is_ok()
}

/// Relies on `regex::Regex::new` (the pattern is known to compile) and
/// `regex::Regex::find`: the leftmost-first match is a function of the
/// pattern and the haystack alone.
#[verifier::external_body]
pub(crate) fn text_find(pattern: &str, text: &str) -> (r: Option<String>)
    requires
        text_pattern_ok(pattern@),
    ensures
        match r {
            Some(m) => text_first_match(pattern@, text@) == Some(m@),
            None => text_first_match(pattern@, text@) is None,
        },
{
    match regex::Regex::new(pattern).unwrap().find(text) {
        Some(m) => Some(m.as_str().to_owned()),
        None => None,
    }
}

} // verus!
