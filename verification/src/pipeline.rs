//! The remediation pipeline: a per-repository state machine.
//!
//! The machine owns every decision of one repository's remediation run:
//! which command to run next, when to fall back to another remote, when to
//! skip, when to stop with a failure, and what the terminal record says.
//! The caller performs each requested [`Action`] (launching a process,
//! reading or writing the target file) and feeds the outcome back as an
//! [`Event`]; [`step`] is the verified transition function.
//!
//! Stages run in a fixed order — update, validate, branch, patch, commit,
//! publish — and the machine short-circuits on the first failure: a failure
//! event either retries the same git operation on the next preferred remote
//! or ends the run at once, so no later stage's side effect can follow a
//! failed stage.

use vstd::prelude::*;

use crate::commands::{
    described, git_add_all, git_checkout, git_commit, git_create_branch, git_fetch,
    git_push_upstream, is_git_command, CommandOutput, CommandSpec, FailedExecution, FailureView,
};
use crate::pattern::{matches_signature, rewrite, rewritten, PatchRule, Signature};
use crate::regexes::{bytes_found, bytes_pattern_ok, text_first_match, text_pattern_ok};
use crate::strings::trimmed;
use crate::url_extract::{extract, UrlPattern};

verus! {

/// One repository selected for remediation: its absolute path and the
/// display label it was selected under.  Consumed, never mutated.
#[derive(Debug)]
pub struct ProjectRef {
    /// Absolute filesystem path of the repository.
    pub path: String,
    /// Display label: the path relative to the scan root.
    pub label: String,
}

/// Ghost record of a `ProjectRef`.
pub struct ProjectView {
    pub path: Seq<char>,
    pub label: Seq<char>,
}

impl View for ProjectRef {
    type V = ProjectView;

    open spec fn view(&self) -> ProjectView {
        ProjectView { path: self.path@, label: self.label@ }
    }
}

impl Clone for ProjectRef {
    fn clone(&self) -> (r: Self)
        ensures
            r == *self,
    {
        ProjectRef { path: self.path.clone(), label: self.label.clone() }
    }
}

/// The pipeline stage a terminal record speaks of: the last stage that was
/// attempted (or `Done` for a run that went all the way through).
#[derive(Clone, Copy, PartialEq, Eq, Structural, Debug)]
pub enum Stage {
    Updated,
    Validated,
    Branched,
    Patched,
    Committed,
    Published,
    Done,
}

/// Terminal outcome of a stage, and so of the whole run: success, a
/// legitimate skip with its reason, or a failure with its diagnostic.
#[derive(Debug)]
pub enum Outcome {
    Success,
    Skipped(String),
    Failed(String),
}

/// The per-project record of one remediation attempt: the project, the
/// last stage attempted with its outcome, and the publish URL when one was
/// recognised in the push diagnostics.
#[derive(Debug)]
pub struct PipelineResult {
    pub project: ProjectRef,
    pub stage: Stage,
    pub outcome: Outcome,
    pub url: Option<String>,
}

/// Read-only configuration of a run, constructed once and shared by every
/// pipeline: the defect signature, the patch rule, the ordered remote
/// preference, the fix branch name, the commit message, the target file
/// name, and the publish-URL pattern.
pub struct Config {
    signature: Signature,
    rules: PatchRule,
    remotes: Vec<String>,
    branch: String,
    message: String,
    target: String,
    url: UrlPattern,
}

/// Ghost record of a `Config`.
pub struct ConfigView {
    pub signature: Seq<char>,
    pub rules: Seq<(Seq<char>, Seq<u8>)>,
    pub remotes: Seq<Seq<char>>,
    pub branch: Seq<char>,
    pub message: Seq<char>,
    pub target: Seq<char>,
    pub url: Seq<char>,
}

impl View for Config {
    type V = ConfigView;

    closed spec fn view(&self) -> ConfigView {
        ConfigView {
            signature: self.signature@,
            rules: self.rules@,
            remotes: self.remotes.deep_view(),
            branch: self.branch@,
            message: self.message@,
            target: self.target@,
            url: self.url@,
        }
    }
}

proof fn lemma_pair_patterns(pairs: Seq<(String, Vec<u8>)>, p0: Seq<char>, p1: Seq<char>)
    requires
        pairs.len() == 2,
        pairs[0].0@ == p0,
        pairs[1].0@ == p1,
    ensures
        (forall|i: int| 0 <= i < pairs.len() ==> bytes_pattern_ok(#[trigger] pairs[i].0@)) == (
        bytes_pattern_ok(p0) && bytes_pattern_ok(p1)),
{
    if bytes_pattern_ok(p0) && bytes_pattern_ok(p1) {
        assert forall|i: int| 0 <= i < pairs.len() implies bytes_pattern_ok(
            #[trigger] pairs[i].0@,
        ) by {
            if i == 0 {
                assert(pairs[0].0@ == p0);
            } else {
                assert(pairs[1].0@ == p1);
            }
        }
    } else {
        if forall|i: int| 0 <= i < pairs.len() ==> bytes_pattern_ok(#[trigger] pairs[i].0@) {
            assert(bytes_pattern_ok(pairs[0].0@));
            assert(bytes_pattern_ok(pairs[1].0@));
        }
    }
}

impl Config {
    #[verifier::type_invariant]
    spec fn wf(self) -> bool {
        self.remotes.deep_view().len() >= 1
    }

    /// A configuration from its parts; refused when the remote preference
    /// is empty.
    pub fn new(
        signature: Signature,
        rules: PatchRule,
        remotes: Vec<String>,
        branch: String,
        message: String,
        target: String,
        url: UrlPattern,
    ) -> (r: Option<Config>)
        ensures
            remotes.deep_view().len() >= 1 ==> (r matches Some(c) && c@ == (ConfigView {
                signature: signature@,
                rules: rules@,
                remotes: remotes.deep_view(),
                branch: branch@,
                message: message@,
                target: target@,
                url: url@,
            })),
            remotes.deep_view().len() == 0 ==> r is None,
    {
        if remotes.len() == 0 {
            None
        } else {
            Some(Config { signature, rules, remotes, branch, message, target, url })
        }
    }

    /// The standard configuration of the tool: the deprecated `sudo: false`
    /// option looked for in `.travis.yml`; two removal rules, applied in
    /// order so that an option line followed by a `dist:` line goes first;
    /// the preferred remote then the fallback; the fix branch; the fixed
    /// commit message with its rationale link; and the publish-URL pattern.
    /// Refused only when the regex engine refuses one of the fixed patterns.
    pub fn standard() -> (r: Option<Config>)
        ensures
            r matches Some(c) ==> c@.signature == "sudo: false"@ && c@.rules == seq![
                ("sudo: false\ndist: .*\n\n?"@, Seq::<u8>::empty()),
                ("sudo: false\n\n?"@, Seq::<u8>::empty()),
            ] && c@.remotes == seq!["upstream"@, "origin"@] && c@.branch == "travis-sudo"@
                && c@.message
                == "TravisCI: Remove deprecated `sudo: false` option\n\nsee https://blog.travis-ci.com/2018-11-19-required-linux-infrastructure-migration"@
                && c@.target == ".travis.yml"@ && c@.url == "https://github.com/.*\n"@,
            (r is Some) == (bytes_pattern_ok("sudo: false"@) && bytes_pattern_ok(
                "sudo: false\ndist: .*\n\n?"@,
            ) && bytes_pattern_ok("sudo: false\n\n?"@) && text_pattern_ok(
                "https://github.com/.*\n"@,
            )),
    {
        let signature = match Signature::new("sudo: false") {
            Some(s) => s,
            None => {
                return None;
            },
        };
        let mut pairs: Vec<(String, Vec<u8>)> = Vec::new();
        pairs.push(("sudo: false\ndist: .*\n\n?".to_owned(), Vec::new()));
        pairs.push(("sudo: false\n\n?".to_owned(), Vec::new()));
        let ghost gpairs = pairs@;
        proof {
            assert(gpairs.map_values(|t: (String, Vec<u8>)| (t.0@, t.1@)) =~= seq![
                ("sudo: false\ndist: .*\n\n?"@, Seq::<u8>::empty()),
                ("sudo: false\n\n?"@, Seq::<u8>::empty()),
            ]);
            lemma_pair_patterns(gpairs, "sudo: false\ndist: .*\n\n?"@, "sudo: false\n\n?"@);
        }
        let rules = match PatchRule::new(pairs) {
            Some(p) => p,
            None => {
                return None;
            },
        };
        let url = match UrlPattern::new("https://github.com/.*\n") {
            Some(u) => u,
            None => {
                return None;
            },
        };
        let mut remotes: Vec<String> = Vec::new();
        remotes.push("upstream".to_owned());
        remotes.push("origin".to_owned());
        proof {
            assert(remotes.deep_view() =~= seq!["upstream"@, "origin"@]);
        }
        Config::new(
            signature,
            rules,
            remotes,
            "travis-sudo".to_owned(),
            "TravisCI: Remove deprecated `sudo: false` option\n\nsee https://blog.travis-ci.com/2018-11-19-required-linux-infrastructure-migration".to_owned(),
            ".travis.yml".to_owned(),
            url,
        )
    }

    /// The defect signature shared by every pipeline of the run.
    pub fn signature(&self) -> (r: &Signature)
        ensures
            r@ == self@.signature,
    {
        &self.signature
    }

    /// The name of the file inspected and patched inside each repository.
    pub fn target(&self) -> (r: &String)
        ensures
            r@ == self@.target,
    {
        &self.target
    }
}

/// The path of the target file inside the repository at `dir`.
pub open spec fn target_path(dir: Seq<char>, target: Seq<char>) -> Seq<char> {
    dir + "/"@ + target
}

/// `dir` joined with the file name `name`.
pub fn join_path(dir: &str, name: &str) -> (r: String)
    ensures
        r@ == target_path(dir@, name@),
{
    let mut s = dir.to_owned();
    s.append("/");
    s.append(name);
    s
}

/// The machine's position: which action's outcome it is waiting for.
/// `attempt` indexes the remote preference order currently being tried.
#[derive(Clone, Copy, PartialEq, Eq, Structural, Debug)]
pub enum State {
    /// Awaiting `git fetch` of the remote at `attempt`.
    Fetching { attempt: usize },
    /// Awaiting `git checkout <remote>/master` of the remote at `attempt`.
    CheckingOut { attempt: usize },
    /// Awaiting the target file's content, to re-validate the defect.
    Validating,
    /// Awaiting creation of the fix branch.
    Branching,
    /// Awaiting the target file's content, to patch it.
    Reading,
    /// Awaiting the write of the patched content.
    Writing,
    /// Awaiting `git add .`.
    Staging,
    /// Awaiting the commit.
    Committing,
    /// Awaiting the push.
    Pushing,
    /// Terminal: the run's record has been reported.
    Done,
}

/// The outcome of the action the machine last requested.
pub enum Event {
    /// A command finished: its captured output, or its failure.
    Command(Result<CommandOutput, FailedExecution>),
    /// The target file was read: its bytes, or the I/O error text.
    FileRead(Result<Vec<u8>, String>),
    /// The target file was written, or the I/O error text.
    FileWritten(Result<(), String>),
}

/// What the caller is asked to do next.
pub enum Action {
    /// Launch the command and report the captured outcome.
    Run(CommandSpec),
    /// Read the file at the path and report its bytes.
    ReadFile(String),
    /// Write the bytes to the file at the path and report the outcome.
    WriteFile(String, Vec<u8>),
    /// The run is over: report the record; no further event follows.
    Finish(PipelineResult),
}

impl State {
    /// Remote indices in play stay inside the configured preference order.
    pub open spec fn wf(self, cfg: ConfigView) -> bool {
        match self {
            State::Fetching { attempt } => attempt < cfg.remotes.len(),
            State::CheckingOut { attempt } => attempt < cfg.remotes.len(),
            _ => true,
        }
    }

    /// Which event shape the state awaits.
    pub open spec fn awaits(self, event: Event) -> bool {
        match self {
            State::Fetching { .. } => event matches Event::Command(_),
            State::CheckingOut { .. } => event matches Event::Command(_),
            State::Branching => event matches Event::Command(_),
            State::Staging => event matches Event::Command(_),
            State::Committing => event matches Event::Command(_),
            State::Pushing => event matches Event::Command(_),
            State::Validating => event matches Event::FileRead(_),
            State::Reading => event matches Event::FileRead(_),
            State::Writing => event matches Event::FileWritten(_),
            State::Done => false,
        }
    }
}

/// True iff `action` runs git with exactly `args` in the project's
/// repository.
pub open spec fn runs_git(action: Action, args: Seq<Seq<char>>, project: ProjectView) -> bool {
    action matches Action::Run(c) && is_git_command(c, args, project.path)
}

/// True iff `action` runs a git subcommand whose first argument is `op`.
pub open spec fn runs_git_op(action: Action, op: Seq<char>) -> bool {
    action matches Action::Run(c) && c.args.deep_view().len() >= 1 && c.args.deep_view()[0] == op
}

/// True iff `action` reads the target file of `project`.
pub open spec fn reads_target(action: Action, cfg: ConfigView, project: ProjectView) -> bool {
    action matches Action::ReadFile(p) && p@ == target_path(project.path, cfg.target)
}

/// True iff `action` writes `bytes` to the target file of `project`.
pub open spec fn writes_target(
    action: Action,
    cfg: ConfigView,
    project: ProjectView,
    bytes: Seq<u8>,
) -> bool {
    action matches Action::WriteFile(p, b) && p@ == target_path(project.path, cfg.target) && b@
        == bytes
}

/// True iff `action` ends the run as `Failed` at `stage` with the
/// diagnostic of the command failure `f`.
pub open spec fn finishes_failed(
    action: Action,
    project: ProjectView,
    stage: Stage,
    f: FailureView,
) -> bool {
    action matches Action::Finish(r) && r.project@ == project && r.stage == stage
        && (r.outcome matches Outcome::Failed(c) && c@ == described(f)) && r.url is None
}

/// True iff `action` ends the run as `Failed` at `stage` with the I/O
/// error text `err`.
pub open spec fn finishes_failed_io(
    action: Action,
    project: ProjectView,
    stage: Stage,
    err: Seq<char>,
) -> bool {
    action matches Action::Finish(r) && r.project@ == project && r.stage == stage
        && (r.outcome matches Outcome::Failed(c) && c@ == err) && r.url is None
}

/// True iff `action` ends the run as `Skipped` at the validation stage,
/// because the defect signature is no longer present.
pub open spec fn finishes_skipped(action: Action, project: ProjectView) -> bool {
    action matches Action::Finish(r) && r.project@ == project && r.stage == Stage::Validated
        && (r.outcome matches Outcome::Skipped(why) && why@ == "pattern no longer present"@)
        && r.url is None
}

/// True iff `action` ends the run successfully after the push: with the
/// trimmed publish URL when the pattern is found in the push's standard
/// error, and with no URL — still not a failure — when it is not.
pub open spec fn finishes_published(
    action: Action,
    project: ProjectView,
    url_pattern: Seq<char>,
    push_stderr: Seq<char>,
) -> bool {
    action matches Action::Finish(r) && r.project@ == project && r.outcome is Success && (match
        text_first_match(url_pattern, push_stderr) {
        Some(m) => r.stage == Stage::Done && (r.url matches Some(u) && u@ == trimmed(m)),
        None => r.stage == Stage::Published && r.url is None,
    })
}

/// The transition relation of the pipeline: given the configuration, the
/// project, the current state and the event that answers it, it pins the
/// next state and the requested action.
///
/// When every remote of the preference order has failed an operation, the
/// run ends with the diagnostics of the last attempted remote alone:
/// earlier remotes' failures are deliberately discarded, so callers are
/// surfaced last-remote diagnostics only.
pub open spec fn transition(
    cfg: ConfigView,
    project: ProjectView,
    state: State,
    event: Event,
    next: State,
    action: Action,
) -> bool {
    match (state, event) {
        (State::Fetching { attempt }, Event::Command(outcome)) => match outcome {
            Ok(_) => next == (State::CheckingOut { attempt: 0 }) && runs_git(
                action,
                seq!["checkout"@, cfg.remotes[0] + "/master"@],
                project,
            ),
            Err(f) => if attempt + 1 < cfg.remotes.len() {
                next == (State::Fetching { attempt: (attempt + 1) as usize }) && runs_git(
                    action,
                    seq!["fetch"@, cfg.remotes[attempt + 1]],
                    project,
                )
            } else {
                next == State::Done && finishes_failed(action, project, Stage::Updated, f@)
            },
        },
        (State::CheckingOut { attempt }, Event::Command(outcome)) => match outcome {
            Ok(_) => next == State::Validating && reads_target(action, cfg, project),
            Err(f) => if attempt + 1 < cfg.remotes.len() {
                next == (State::CheckingOut { attempt: (attempt + 1) as usize }) && runs_git(
                    action,
                    seq!["checkout"@, cfg.remotes[attempt + 1] + "/master"@],
                    project,
                )
            } else {
                next == State::Done && finishes_failed(action, project, Stage::Updated, f@)
            },
        },
        (State::Validating, Event::FileRead(outcome)) => match outcome {
            Ok(content) => if bytes_found(cfg.signature, content@) {
                next == State::Branching && runs_git(
                    action,
                    seq!["checkout"@, "-b"@, cfg.branch],
                    project,
                )
            } else {
                next == State::Done && finishes_skipped(action, project)
            },
            Err(e) => next == State::Done && finishes_failed_io(
                action,
                project,
                Stage::Validated,
                e@,
            ),
        },
        (State::Branching, Event::Command(outcome)) => match outcome {
            Ok(_) => next == State::Reading && reads_target(action, cfg, project),
            Err(f) => next == State::Done && finishes_failed(action, project, Stage::Branched, f@),
        },
        (State::Reading, Event::FileRead(outcome)) => match outcome {
            Ok(content) => next == State::Writing && writes_target(
                action,
                cfg,
                project,
                rewritten(cfg.rules, content@),
            ),
            Err(e) => next == State::Done && finishes_failed_io(action, project, Stage::Patched, e@),
        },
        (State::Writing, Event::FileWritten(outcome)) => match outcome {
            Ok(_) => next == State::Staging && runs_git(action, seq!["add"@, "."@], project),
            Err(e) => next == State::Done && finishes_failed_io(action, project, Stage::Patched, e@),
        },
        (State::Staging, Event::Command(outcome)) => match outcome {
            Ok(_) => next == State::Committing && runs_git(
                action,
                seq!["commit"@, "-m"@, cfg.message],
                project,
            ),
            Err(f) => next == State::Done && finishes_failed(action, project, Stage::Committed, f@),
        },
        (State::Committing, Event::Command(outcome)) => match outcome {
            Ok(_) => next == State::Pushing && runs_git(
                action,
                seq!["push"@, "origin"@, "HEAD"@, "-u"@],
                project,
            ),
            Err(f) => next == State::Done && finishes_failed(action, project, Stage::Committed, f@),
        },
        (State::Pushing, Event::Command(outcome)) => match outcome {
            Ok(out) => next == State::Done && finishes_published(
                action,
                project,
                cfg.url,
                out.stderr@,
            ),
            Err(f) => next == State::Done && finishes_failed(action, project, Stage::Published, f@),
        },
        _ => true,
    }
}

/// True iff the event reports a failure of the requested action.
pub open spec fn failure_event(event: Event) -> bool {
    match event {
        Event::Command(outcome) => outcome is Err,
        Event::FileRead(outcome) => outcome is Err,
        Event::FileWritten(outcome) => outcome is Err,
    }
}

fn fail_result(project: &ProjectRef, stage: Stage, f: &FailedExecution) -> (r: PipelineResult)
    ensures
        finishes_failed(Action::Finish(r), project@, stage, f@),
{
    PipelineResult {
        project: project.clone(),
        stage,
        outcome: Outcome::Failed(f.describe()),
        url: None,
    }
}

fn fail_result_io(project: &ProjectRef, stage: Stage, err: String) -> (r: PipelineResult)
    ensures
        finishes_failed_io(Action::Finish(r), project@, stage, err@),
{
    PipelineResult { project: project.clone(), stage, outcome: Outcome::Failed(err), url: None }
}

fn skip_result(project: &ProjectRef) -> (r: PipelineResult)
    ensures
        finishes_skipped(Action::Finish(r), project@),
{
    PipelineResult {
        project: project.clone(),
        stage: Stage::Validated,
        outcome: Outcome::Skipped("pattern no longer present".to_owned()),
        url: None,
    }
}

/// One transition of the machine.  The state must still be live and the
/// event must answer the action the state awaits; the returned pair is the
/// next state and the next action.
///
/// Beyond the exact transition relation, the contract states two laws of
/// the design: once a remote operation has succeeded, no further remote of
/// the preference order is attempted for it; and a failure event never
/// advances the run — it either retries the same operation on the next
/// remote or ends the run at once with a `Finish` action, which has no side
/// effect, so no later stage's side effect can follow a failed stage.
pub fn step(cfg: &Config, project: &ProjectRef, state: State, event: Event) -> (r: (State, Action))
    requires
        !(state matches State::Done),
        state.wf(cfg@),
        state.awaits(event),
    ensures
        r.0.wf(cfg@),
        transition(cfg@, project@, state, event, r.0, r.1),
        (r.1 matches Action::Finish(_)) <==> r.0 == State::Done,
        (state matches State::Fetching { .. } && event matches Event::Command(o) && o is Ok)
            ==> !runs_git_op(r.1, "fetch"@),
        (state matches State::CheckingOut { .. } && event matches Event::Command(o) && o is Ok)
            ==> !(r.1 matches Action::Run(_)),
        failure_event(event) ==> ((r.0 == State::Done && r.1 matches Action::Finish(_)) || (
        state matches State::Fetching { .. } && r.0 matches State::Fetching { .. }) || (
        state matches State::CheckingOut { .. } && r.0 matches State::CheckingOut { .. })),
{
    proof {
        use_type_invariant(cfg);
        assert(cfg.remotes.deep_view().len() == cfg.remotes@.len());
    }
    match (state, event) {
        (State::Fetching { attempt }, Event::Command(outcome)) => match outcome {
            Ok(_) => {
                let c = git_checkout(cfg.remotes[0].as_str(), project.path.as_str());
                proof {
                    broadcast use vstd::string::group_string_axioms;

                    reveal_strlit("checkout");
                    reveal_strlit("fetch");
                    assert("checkout"@.len() == 8);
                    assert("fetch"@.len() == 5);
                    assert("checkout"@ != "fetch"@);
                }
                (State::CheckingOut { attempt: 0 }, Action::Run(c))
            },
            Err(f) => {
                let n = cfg.remotes.len();
                if attempt < n - 1 {
                    let c = git_fetch(cfg.remotes[attempt + 1].as_str(), project.path.as_str());
                    (State::Fetching { attempt: attempt + 1 }, Action::Run(c))
                } else {
                    (State::Done, Action::Finish(fail_result(project, Stage::Updated, &f)))
                }
            },
        },
        (State::CheckingOut { attempt }, Event::Command(outcome)) => match outcome {
            Ok(_) => {
                let p = join_path(project.path.as_str(), cfg.target.as_str());
                (State::Validating, Action::ReadFile(p))
            },
            Err(f) => {
                let n = cfg.remotes.len();
                if attempt < n - 1 {
                    let c = git_checkout(cfg.remotes[attempt + 1].as_str(), project.path.as_str());
                    (State::CheckingOut { attempt: attempt + 1 }, Action::Run(c))
                } else {
                    (State::Done, Action::Finish(fail_result(project, Stage::Updated, &f)))
                }
            },
        },
        (State::Validating, Event::FileRead(outcome)) => match outcome {
            Ok(content) => {
                if matches_signature(&cfg.signature, content.as_slice()) {
                    let c = git_create_branch(cfg.branch.as_str(), project.path.as_str());
                    (State::Branching, Action::Run(c))
                } else {
                    (State::Done, Action::Finish(skip_result(project)))
                }
            },
            Err(e) => (State::Done, Action::Finish(fail_result_io(project, Stage::Validated, e))),
        },
        (State::Branching, Event::Command(outcome)) => match outcome {
            Ok(_) => {
                let p = join_path(project.path.as_str(), cfg.target.as_str());
                (State::Reading, Action::ReadFile(p))
            },
            Err(f) => (State::Done, Action::Finish(fail_result(project, Stage::Branched, &f))),
        },
        (State::Reading, Event::FileRead(outcome)) => match outcome {
            Ok(content) => {
                let patched = rewrite(&cfg.rules, content.as_slice());
                let p = join_path(project.path.as_str(), cfg.target.as_str());
                (State::Writing, Action::WriteFile(p, patched))
            },
            Err(e) => (State::Done, Action::Finish(fail_result_io(project, Stage::Patched, e))),
        },
        (State::Writing, Event::FileWritten(outcome)) => match outcome {
            Ok(_) => {
                let c = git_add_all(project.path.as_str());
                (State::Staging, Action::Run(c))
            },
            Err(e) => (State::Done, Action::Finish(fail_result_io(project, Stage::Patched, e))),
        },
        (State::Staging, Event::Command(outcome)) => match outcome {
            Ok(_) => {
                let c = git_commit(cfg.message.as_str(), project.path.as_str());
                (State::Committing, Action::Run(c))
            },
            Err(f) => (State::Done, Action::Finish(fail_result(project, Stage::Committed, &f))),
        },
        (State::Committing, Event::Command(outcome)) => match outcome {
            Ok(_) => {
                let c = git_push_upstream(project.path.as_str());
                (State::Pushing, Action::Run(c))
            },
            Err(f) => (State::Done, Action::Finish(fail_result(project, Stage::Committed, &f))),
        },
        (State::Pushing, Event::Command(outcome)) => match outcome {
            Ok(out) => {
                let url = extract(&cfg.url, out.stderr.as_str());
                let result = match url {
                    Some(u) => PipelineResult {
                        project: project.clone(),
                        stage: Stage::Done,
                        outcome: Outcome::Success,
                        url: Some(u),
                    },
                    None => PipelineResult {
                        project: project.clone(),
                        stage: Stage::Published,
                        outcome: Outcome::Success,
                        url: None,
                    },
                };
                (State::Done, Action::Finish(result))
            },
            Err(f) => (State::Done, Action::Finish(fail_result(project, Stage::Published, &f))),
        },
        (_, _) => {
            proof {
                assert(false);
            }
            (State::Done, Action::Finish(skip_result(project)))
        },
    }
}

/// Begin one repository's run: the machine first fetches the preferred
/// remote.
pub fn start(cfg: &Config, project: &ProjectRef) -> (r: (State, Action))
    ensures
        r.0 == (State::Fetching { attempt: 0 }),
        r.0.wf(cfg@),
        runs_git(r.1, seq!["fetch"@, cfg@.remotes[0]], project@),
{
    proof {
        use_type_invariant(cfg);
    }
    let action = Action::Run(git_fetch(cfg.remotes[0].as_str(), project.path.as_str()));
    (State::Fetching { attempt: 0 }, action)
}

} // verus!

