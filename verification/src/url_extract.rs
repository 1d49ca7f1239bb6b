//! URL extractor: scans push-command diagnostics for a publish/PR URL.

use vstd::prelude::*;

use crate::regexes::{text_find, text_first_match, text_pattern_compiles, text_pattern_ok};
use crate::strings::{trim, trimmed};

verus! {

/// The textual pattern a publish URL is recognised by, followed by a line
/// terminator, as git hosts print it in push diagnostics.
pub struct UrlPattern {
    pattern: String,
}

impl View for UrlPattern {
    type V = Seq<char>;

    closed spec fn view(&self) -> Seq<char> {
        self.pattern@
    }
}

impl UrlPattern {
    #[verifier::type_invariant]
    spec fn wf(self) -> bool {
        text_pattern_ok(self.pattern@)
    }

    /// Accepts exactly the patterns the text-regex engine accepts.
    pub fn new(pattern: &str) -> (r: Option<UrlPattern>)
        ensures
            (r matches Some(p) && p@ == pattern@) || r is None,
            (r is Some) == text_pattern_ok(pattern@),
    {
        if text_pattern_compiles(pattern) {
            Some(UrlPattern { pattern: pattern.to_owned() })
        } else {
            None
        }
    }
}

/// The first substring of `text` matching `pattern`, trimmed of
/// surrounding whitespace; none when no match is present.  Never fails.
pub fn extract(pattern: &UrlPattern, text: &str) -> (r: Option<String>)
    ensures
        match text_first_match(pattern@, text@) {
            Some(m) => (r matches Some(u) && u@ == trimmed(m)),
            None => r is None,
        },
{
    proof {
        use_type_invariant(pattern);
    }
    match text_find(pattern.pattern.as_str(), text) {
        Some(m) => Some(trim(m.as_str())),
        None => None,
    }
}

} // verus!
