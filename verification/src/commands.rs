//! Model of one external command invocation and of its failure.
//!
//! The process itself is launched by the caller; this module only decides,
//! from the captured exit status and streams, whether the invocation counts
//! as a success, and carries the captured data for diagnostics.

use vstd::prelude::*;

use crate::strings::{dec_int, i32_to_dec, trim, trimmed};

verus! {

/// Captured outcome of one external command: exit status and both streams,
/// already decoded to text (invalid bytes replaced by the caller's decoder).
#[derive(Debug)]
pub struct CommandOutput {
    /// Exit code, when the process exited normally.
    pub code: Option<i32>,
    /// Whether the exit status signalled success.
    pub success: bool,
    /// Captured standard output.
    pub stdout: String,
    /// Captured standard error.
    pub stderr: String,
}

/// A command that exited with a non-success status, or could not be
/// launched at all; carries the exit code (if any) and both captured
/// streams so that callers can format diagnostics.
#[derive(Debug)]
pub struct FailedExecution {
    code: Option<i32>,
    stdout: String,
    stderr: String,
}

/// Ghost record of a `FailedExecution`: exit code and stream contents.
pub struct FailureView {
    pub code: Option<int>,
    pub stdout: Seq<char>,
    pub stderr: Seq<char>,
}

impl View for FailedExecution {
    type V = FailureView;

    closed spec fn view(&self) -> FailureView {
        FailureView {
            code: match self.code {
                Some(c) => Some(c as int),
                None => None,
            },
            stdout: self.stdout@,
            stderr: self.stderr@,
        }
    }
}

impl FailedExecution {
    /// Record a non-success command outcome as a failure.
    pub fn from_output(output: CommandOutput) -> (r: FailedExecution)
        ensures
            r@ == (FailureView {
                code: match output.code {
                    Some(c) => Some(c as int),
                    None => None,
                },
                stdout: output.stdout@,
                stderr: output.stderr@,
            }),
    {
        FailedExecution { code: output.code, stdout: output.stdout, stderr: output.stderr }
    }

    /// The exit code of the failed command, when it exited normally.
    pub fn exit_code(&self) -> (r: Option<i32>)
        ensures
            r matches Some(c) ==> self@.code == Some(c as int),
            r is None ==> self@.code is None,
    {
        self.code
    }

    /// The captured standard output of the failed command.
    pub fn stdout(&self) -> (r: String)
        ensures
            r@ == self@.stdout,
    {
        self.stdout.clone()
    }

    /// The captured standard error of the failed command.
    pub fn stderr(&self) -> (r: String)
        ensures
            r@ == self@.stderr,
    {
        self.stderr.clone()
    }

    /// A human-readable account of the failure: the exit code when there
    /// is one, then each captured stream that is not empty, trimmed.
    pub fn describe(&self) -> (r: String)
        ensures
            r@ == described(self@),
    {
        let mut s = "The command failed".to_owned();
        match self.code {
            Some(c) => {
                s.append(" with exit code ");
                s.append(i32_to_dec(c).as_str());
            },
            None => {},
        }
        s.append(".");
        if !self.stdout.as_str().is_empty() {
            s.append("\n\nstdout: ");
            s.append(trim(self.stdout.as_str()).as_str());
        }
        if !self.stderr.as_str().is_empty() {
            s.append("\n\nstderr: ");
            s.append(trim(self.stderr.as_str()).as_str());
        }
        proof {
            assert(s@ =~= described(self@));
        }
        s
    }
}

/// The diagnostic text for a failure: exit code when present, then each
/// captured stream that is not empty, trimmed.
pub open spec fn described(f: FailureView) -> Seq<char> {
    "The command failed"@ + (match f.code {
        Some(c) => " with exit code "@ + dec_int(c),
        None => Seq::<char>::empty(),
    }) + "."@ + (if f.stdout.len() == 0 {
        Seq::<char>::empty()
    } else {
        "\n\nstdout: "@ + trimmed(f.stdout)
    }) + (if f.stderr.len() == 0 {
        Seq::<char>::empty()
    } else {
        "\n\nstderr: "@ + trimmed(f.stderr)
    })
}

impl CommandOutput {
    /// Classify a captured outcome: the output itself on success, otherwise
    /// a `FailedExecution` holding the same exit code and streams.
    pub fn success_output(self) -> (r: Result<CommandOutput, FailedExecution>)
        ensures
            self.success ==> (r matches Ok(o) && o == self),
            !self.success ==> (r matches Err(f) && f@ == (FailureView {
                code: match self.code {
                    Some(c) => Some(c as int),
                    None => None,
                },
                stdout: self.stdout@,
                stderr: self.stderr@,
            })),
    {
        if self.success {
            Ok(self)
        } else {
            Err(FailedExecution::from_output(self))
        }
    }
}

/// Description of one external command invocation: an executable name, an
/// ordered argument list, and the directory to execute in.  The caller
/// launches it and reports the captured outcome back.
pub struct CommandSpec {
    /// The executable to invoke.
    pub program: String,
    /// The ordered argument list.
    pub args: Vec<String>,
    /// The working directory of the invocation.
    pub dir: String,
}

/// True iff `c` invokes git with exactly `args` in directory `dir`.
pub open spec fn is_git_command(c: CommandSpec, args: Seq<Seq<char>>, dir: Seq<char>) -> bool {
    c.program@ == "git"@ && c.args.deep_view() == args && c.dir@ == dir
}

fn git_command_one(arg0: &str, arg1: &str, dir: &str) -> (c: CommandSpec)
    ensures
        is_git_command(c, seq![arg0@, arg1@], dir@),
{
    let mut args: Vec<String> = Vec::new();
    args.push(arg0.to_owned());
    args.push(arg1.to_owned());
    proof {
        assert(args.deep_view() =~= seq![arg0@, arg1@]);
    }
    CommandSpec { program: "git".to_owned(), args, dir: dir.to_owned() }
}

/// `git fetch <remote>`, run in the repository at `dir`.
pub fn git_fetch(remote: &str, dir: &str) -> (c: CommandSpec)
    ensures
        is_git_command(c, seq!["fetch"@, remote@], dir@),
{
    git_command_one("fetch", remote, dir)
}

/// `git checkout <remote>/master`, run in the repository at `dir`.
pub fn git_checkout(remote: &str, dir: &str) -> (c: CommandSpec)
    ensures
        is_git_command(c, seq!["checkout"@, remote@ + "/master"@], dir@),
{
    let mut target = remote.to_owned();
    target.append("/master");
    let mut args: Vec<String> = Vec::new();
    args.push("checkout".to_owned());
    args.push(target);
    proof {
        assert(args.deep_view() =~= seq!["checkout"@, remote@ + "/master"@]);
    }
    CommandSpec { program: "git".to_owned(), args, dir: dir.to_owned() }
}

/// `git checkout -b <name>`, run in the repository at `dir`.
pub fn git_create_branch(name: &str, dir: &str) -> (c: CommandSpec)
    ensures
        is_git_command(c, seq!["checkout"@, "-b"@, name@], dir@),
{
    let mut args: Vec<String> = Vec::new();
    args.push("checkout".to_owned());
    args.push("-b".to_owned());
    args.push(name.to_owned());
    proof {
        assert(args.deep_view() =~= seq!["checkout"@, "-b"@, name@]);
    }
    CommandSpec { program: "git".to_owned(), args, dir: dir.to_owned() }
}

/// `git add .`, run in the repository at `dir`.
pub fn git_add_all(dir: &str) -> (c: CommandSpec)
    ensures
        is_git_command(c, seq!["add"@, "."@], dir@),
{
    git_command_one("add", ".", dir)
}

/// `git commit -m <message>`, run in the repository at `dir`.
pub fn git_commit(message: &str, dir: &str) -> (c: CommandSpec)
    ensures
        is_git_command(c, seq!["commit"@, "-m"@, message@], dir@),
{
    let mut args: Vec<String> = Vec::new();
    args.push("commit".to_owned());
    args.push("-m".to_owned());
    args.push(message.to_owned());
    proof {
        assert(args.deep_view() =~= seq!["commit"@, "-m"@, message@]);
    }
    CommandSpec { program: "git".to_owned(), args, dir: dir.to_owned() }
}

/// `git push origin HEAD -u`, run in the repository at `dir`: pushes the
/// current branch to the canonical remote with upstream tracking.
pub fn git_push_upstream(dir: &str) -> (c: CommandSpec)
    ensures
        is_git_command(c, seq!["push"@, "origin"@, "HEAD"@, "-u"@], dir@),
{
    let mut args: Vec<String> = Vec::new();
    args.push("push".to_owned());
    args.push("origin".to_owned());
    args.push("HEAD".to_owned());
    args.push("-u".to_owned());
    proof {
        assert(args.deep_view() =~= seq!["push"@, "origin"@, "HEAD"@, "-u"@]);
    }
    CommandSpec { program: "git".to_owned(), args, dir: dir.to_owned() }
}

} // verus!
