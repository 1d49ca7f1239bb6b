//! Pattern matcher: detects the defect signature in a target file's raw
//! bytes, and rewrites matched content with an ordered list of patch rules.

use vstd::prelude::*;

use crate::regexes::{
    bytes_found, bytes_is_match, bytes_pattern_compiles, bytes_pattern_ok, bytes_replace_all,
    bytes_replaced,
};

verus! {

/// The defect signature: a textual pattern whose presence in the target
/// file marks the repository as still affected.
pub struct Signature {
    pattern: String,
}

impl View for Signature {
    type V = Seq<char>;

    closed spec fn view(&self) -> Seq<char> {
        self.pattern@
    }
}

impl Signature {
    #[verifier::type_invariant]
    spec fn wf(self) -> bool {
        bytes_pattern_ok(self.pattern@)
    }

    /// Accepts exactly the patterns the byte-regex engine accepts.
    pub fn new(pattern: &str) -> (r: Option<Signature>)
        ensures
            (r matches Some(s) && s@ == pattern@) || r is None,
            (r is Some) == bytes_pattern_ok(pattern@),
    {
        if bytes_pattern_compiles(pattern) {
            Some(Signature { pattern: pattern.to_owned() })
        } else {
            None
        }
    }
}

/// True iff the defect signature is found anywhere in `content`.
pub fn matches_signature(signature: &Signature, content: &[u8]) -> (r: bool)
    ensures
        r == bytes_found(signature@, content@),
{
    proof {
        use_type_invariant(signature);
    }
    bytes_is_match(signature.pattern.as_str(), content)
}

struct PatchStep {
    pattern: String,
    replacement: Vec<u8>,
}

impl View for PatchStep {
    type V = (Seq<char>, Seq<u8>);

    closed spec fn view(&self) -> (Seq<char>, Seq<u8>) {
        (self.pattern@, self.replacement@)
    }
}

/// An ordered list of (pattern, replacement) pairs.  Application order
/// matters: each pair replaces all of its non-overlapping matches before
/// the next one runs, so earlier pairs may subsume text that later pairs
/// would otherwise also match.
pub struct PatchRule {
    steps: Vec<PatchStep>,
}

impl View for PatchRule {
    type V = Seq<(Seq<char>, Seq<u8>)>;

    closed spec fn view(&self) -> Seq<(Seq<char>, Seq<u8>)> {
        self.steps@.map_values(|s: PatchStep| s@)
    }
}

impl PatchRule {
    #[verifier::type_invariant]
    spec fn wf(self) -> bool {
        forall|i: int|
            0 <= i < self.steps@.len() ==> bytes_pattern_ok(#[trigger] self.steps@[i].pattern@)
    }

    /// Accepts the pairs exactly when the byte-regex engine accepts every
    /// pattern among them.
    pub fn new(pairs: Vec<(String, Vec<u8>)>) -> (r: Option<PatchRule>)
        ensures
            r matches Some(p) ==> p@ == pairs@.map_values(
                |t: (String, Vec<u8>)| (t.0@, t.1@),
            ),
            (r is Some) == (forall|i: int|
                0 <= i < pairs@.len() ==> bytes_pattern_ok(#[trigger] pairs@[i].0@)),
    {
        let mut steps: Vec<PatchStep> = Vec::new();
        let mut i: usize = 0;
        while i < pairs.len()
            invariant
                0 <= i <= pairs@.len(),
                steps@.len() == i,
                forall|j: int| 0 <= j < i ==> bytes_pattern_ok(#[trigger] pairs@[j].0@),
                forall|j: int|
                    0 <= j < i ==> #[trigger] steps@[j]@ == (pairs@[j].0@, pairs@[j].1@),
                forall|j: int|
                    0 <= j < i ==> bytes_pattern_ok(#[trigger] steps@[j].pattern@),
            decreases pairs@.len() - i,
        {
            if !bytes_pattern_compiles(pairs[i].0.as_str()) {
                return None;
            }
            let pattern = pairs[i].0.clone();
            let replacement = pairs[i].1.clone();
            steps.push(PatchStep { pattern, replacement });
            i = i + 1;
        }
        let r = PatchRule { steps };
        proof {
            assert(r@ =~= pairs@.map_values(|t: (String, Vec<u8>)| (t.0@, t.1@)));
        }
        Some(r)
    }
}

/// The result of applying each (pattern, replacement) pair of `rules` in
/// order to `content`, each replacing all of its non-overlapping matches
/// before the next pair runs.
pub open spec fn rewritten(rules: Seq<(Seq<char>, Seq<u8>)>, content: Seq<u8>) -> Seq<u8>
    decreases rules.len(),
{
    if rules.len() == 0 {
        content
    } else {
        rewritten(rules.drop_first(), bytes_replaced(rules[0].0, content, rules[0].1))
    }
}

/// Applies the patch rule to `content` and returns the rewritten bytes;
/// the input is never changed in place.
///
/// Content in which no pair's pattern is found is returned unchanged: this
/// is the identity law, not an error, and callers must not assume the
/// content changed.
pub fn rewrite(rules: &PatchRule, content: &[u8]) -> (r: Vec<u8>)
    ensures
        r@ == rewritten(rules@, content@),
        (forall|i: int| 0 <= i < rules@.len() ==> !bytes_found(#[trigger] rules@[i].0, content@))
            ==> r@ == content@,
{
    proof {
        use_type_invariant(rules);
    }
    let mut current: Vec<u8> = vstd::slice::slice_to_vec(content);
    let n = rules.steps.len();
    proof {
        assert(rules@.subrange(0, n as int) =~= rules@);
    }
    let mut i: usize = 0;
    while i < n
        invariant
            0 <= i <= n,
            n == rules.steps@.len(),
            rules@.len() == n,
            forall|j: int|
                0 <= j < n ==> bytes_pattern_ok(#[trigger] rules.steps@[j].pattern@),
            forall|j: int| 0 <= j < n ==> #[trigger] rules@[j] == rules.steps@[j]@,
            rewritten(rules@, content@) == rewritten(rules@.subrange(i as int, n as int), current@),
            (forall|j: int|
                0 <= j < rules@.len() ==> !bytes_found(#[trigger] rules@[j].0, content@)) ==> current@
                == content@,
        decreases n - i,
    {
        let ghost before = current@;
        let ghost suffix = rules@.subrange(i as int, n as int);
        let step = &rules.steps[i];
        let next = bytes_replace_all(step.pattern.as_str(), current.as_slice(), step.replacement.as_slice());
        proof {
            assert(suffix[0] == rules@[i as int]);
            assert(suffix.drop_first() =~= rules@.subrange(i as int + 1, n as int));
            assert(rewritten(suffix, before) == rewritten(suffix.drop_first(), next@));
        }
        current = next;
        i = i + 1;
    }
    proof {
        assert(rules@.subrange(n as int, n as int) =~= Seq::<(Seq<char>, Seq<u8>)>::empty());
    }
    current
}

} // verus!
