use travis_sudo::url_extract::{extract, UrlPattern};

fn pattern() -> UrlPattern {
    UrlPattern::new("https://github.com/.*\n").unwrap()
}

#[test]
fn extract_finds_and_trims_the_publish_url() {
    let text = "remote:\nremote: Create a pull request by visiting:\nremote:   https://github.com/someone/repo/pull/new/travis-sudo  \nremote:\n";
    let url = extract(&pattern(), text);
    assert_eq!(
        url,
        Some("https://github.com/someone/repo/pull/new/travis-sudo".to_string())
    );
}

#[test]
fn extract_takes_the_first_match() {
    let text = "https://github.com/a/b\nhttps://github.com/c/d\n";
    let url = extract(&pattern(), text);
    assert_eq!(url, Some("https://github.com/a/b".to_string()));
}

#[test]
fn extract_returns_none_when_no_url_is_present() {
    assert_eq!(extract(&pattern(), "Everything up-to-date\n"), None);
    assert_eq!(extract(&pattern(), ""), None);
}

#[test]
fn extract_needs_the_line_terminator() {
    // A URL not followed by a line terminator is not recognised.
    assert_eq!(extract(&pattern(), "https://github.com/a/b"), None);
}

#[test]
fn invalid_url_pattern_is_refused() {
    assert!(UrlPattern::new("[").is_none());
}
