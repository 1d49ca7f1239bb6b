use travis_sudo::pattern::{matches_signature, rewrite, PatchRule, Signature};

fn standard_rule() -> PatchRule {
    PatchRule::new(vec![
        ("sudo: false\ndist: .*\n\n?".to_string(), Vec::new()),
        ("sudo: false\n\n?".to_string(), Vec::new()),
    ])
    .unwrap()
}

#[test]
fn signature_found_in_matching_content() {
    let sig = Signature::new("sudo: false").unwrap();
    let content = b"language: rust\nsudo: false\ndist: trusty\n";
    assert!(matches_signature(&sig, content));
}

#[test]
fn signature_absent_from_clean_content() {
    let sig = Signature::new("sudo: false").unwrap();
    let content = b"language: rust\ndist: trusty\n";
    assert!(!matches_signature(&sig, content));
}

#[test]
fn invalid_pattern_is_refused() {
    assert!(Signature::new("(").is_none());
    assert!(PatchRule::new(vec![("(".to_string(), Vec::new())]).is_none());
}

#[test]
fn rewrite_removes_option_and_dist_line() {
    let rule = standard_rule();
    let content = b"sudo: false\ndist: trusty\n\nlanguage: rust\n";
    let out = rewrite(&rule, content);
    assert_eq!(out, b"language: rust\n".to_vec());
}

#[test]
fn rewrite_removes_lone_option_line() {
    let rule = standard_rule();
    let content = b"sudo: false\n\nlanguage: rust\n";
    let out = rewrite(&rule, content);
    assert_eq!(out, b"language: rust\n".to_vec());
}

#[test]
fn rewrite_applies_rules_in_order() {
    // The first rule takes the dist line with it; were the lone-option rule
    // applied first, the dist line would survive.
    let rule = standard_rule();
    let content = b"before: true\nsudo: false\ndist: xenial\n\nafter: true\n";
    let out = rewrite(&rule, content);
    assert_eq!(out, b"before: true\nafter: true\n".to_vec());
}

#[test]
fn rewrite_without_match_returns_content_unchanged() {
    // Identity law: content no rule matches comes back unchanged.
    let rule = standard_rule();
    let content = b"language: rust\ndist: trusty\n";
    let out = rewrite(&rule, content);
    assert_eq!(out, content.to_vec());
}

#[test]
fn rewrite_of_empty_content_is_empty() {
    let rule = standard_rule();
    let out = rewrite(&rule, b"");
    assert_eq!(out, Vec::<u8>::new());
}
