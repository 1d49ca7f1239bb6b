use travis_sudo::commands::{
    git_add_all, git_checkout, git_commit, git_create_branch, git_fetch, git_push_upstream,
    CommandOutput, FailedExecution,
};
use travis_sudo::strings::{i32_to_dec, trim, u64_to_dec};

fn output(code: Option<i32>, success: bool, stdout: &str, stderr: &str) -> CommandOutput {
    CommandOutput {
        code,
        success,
        stdout: stdout.to_string(),
        stderr: stderr.to_string(),
    }
}

#[test]
fn success_output_passes_successful_output_through() {
    let out = output(Some(0), true, "done", "");
    let r = out.success_output();
    let ok = r.unwrap();
    assert_eq!(ok.code, Some(0));
    assert_eq!(ok.stdout, "done");
}

#[test]
fn success_output_turns_nonzero_exit_into_failure() {
    let out = output(Some(2), false, "partial", "boom");
    let f = out.success_output().unwrap_err();
    assert_eq!(f.exit_code(), Some(2));
    assert_eq!(f.stdout(), "partial");
    assert_eq!(f.stderr(), "boom");
}

#[test]
fn describe_reports_exit_code_and_trimmed_streams() {
    let f = FailedExecution::from_output(output(Some(1), false, "  out text \n", ""));
    assert_eq!(
        f.describe(),
        "The command failed with exit code 1.\n\nstdout: out text"
    );
}

#[test]
fn describe_without_exit_code_or_streams() {
    let f = FailedExecution::from_output(output(None, false, "", ""));
    assert_eq!(f.describe(), "The command failed.");
}

#[test]
fn describe_reports_both_streams() {
    let f = FailedExecution::from_output(output(Some(128), false, "a", " b "));
    assert_eq!(
        f.describe(),
        "The command failed with exit code 128.\n\nstdout: a\n\nstderr: b"
    );
}

#[test]
fn git_command_builders_build_the_documented_invocations() {
    let c = git_fetch("upstream", "/repo");
    assert_eq!(c.program, "git");
    assert_eq!(c.args, vec!["fetch".to_string(), "upstream".to_string()]);
    assert_eq!(c.dir, "/repo");

    let c = git_checkout("origin", "/repo");
    assert_eq!(c.args, vec!["checkout".to_string(), "origin/master".to_string()]);

    let c = git_create_branch("travis-sudo", "/repo");
    assert_eq!(
        c.args,
        vec!["checkout".to_string(), "-b".to_string(), "travis-sudo".to_string()]
    );

    let c = git_add_all("/repo");
    assert_eq!(c.args, vec!["add".to_string(), ".".to_string()]);

    let c = git_commit("message", "/repo");
    assert_eq!(
        c.args,
        vec!["commit".to_string(), "-m".to_string(), "message".to_string()]
    );

    let c = git_push_upstream("/repo");
    assert_eq!(
        c.args,
        vec![
            "push".to_string(),
            "origin".to_string(),
            "HEAD".to_string(),
            "-u".to_string()
        ]
    );
}

#[test]
fn trim_strips_surrounding_whitespace_only() {
    assert_eq!(trim(" \t a b \r\n"), "a b");
    assert_eq!(trim("abc"), "abc");
    assert_eq!(trim(""), "");
    assert_eq!(trim(" \n\t "), "");
}

#[test]
fn trim_strips_the_unicode_whitespace_characters() {
    assert_eq!(trim("\u{B}x\u{C}"), "x");
    assert_eq!(trim("\u{A0}\u{2003}y\u{2028}"), "y");
    assert_eq!(trim("\u{3000}z"), "z");
}

#[test]
fn decimal_rendering_is_exact() {
    assert_eq!(u64_to_dec(0), "0");
    assert_eq!(u64_to_dec(7), "7");
    assert_eq!(u64_to_dec(1234567890), "1234567890");
    assert_eq!(i32_to_dec(0), "0");
    assert_eq!(i32_to_dec(-42), "-42");
    assert_eq!(i32_to_dec(i32::MIN), "-2147483648");
    assert_eq!(i32_to_dec(i32::MAX), "2147483647");
}
