//! Carrying a command out, one step at a time.
//!
//! The interpreter never touches the world itself. `Command::run` says what
//! has to happen next; the session does it and hands what came of it to
//! `Step::resume`, which says what follows, until a step ends the command.

use vstd::prelude::*;
use crate::command::{parse_line, Command, CommandView};
use crate::error::{ErrorView, ShellError};
use crate::resolver::{
    found_at, is_runnable, join_path, joined_path, probe_at, resolve, resolve_from, runnable,
    FileInfo,
};
use crate::session::{builtin_names, Shell, ShellView};
use crate::steps::{Goal, GoalView, Lookup, LookupView, Reply, ReplyView, Step, StepView};
use crate::text::{after_tilde, join, join_words, strip_tilde, trim_end, trimmed};

verus! {

/// The step that looks for `name` in the directory at place `index` of the
/// search path, or gives the search up where the path has no such place.
pub open spec fn search_step(
    search_path: Seq<Seq<char>>,
    name: Seq<char>,
    goal: GoalView,
    index: int,
) -> StepView {
    if 0 <= index < search_path.len() {
        StepView::Probe(
            LookupView { name, goal, index, path: joined_path(search_path[index], name) },
        )
    } else {
        StepView::Fail(ErrorView::NotFound(name))
    }
}

/// The step that follows when the program `name` has been found at `path`:
/// `type` tells the path, and a program that was asked for is run.
pub open spec fn found_step(name: Seq<char>, goal: GoalView, path: Seq<char>) -> StepView {
    match goal {
        GoalView::Describe => StepView::Print(name + " is "@ + path + seq!['\n']),
        GoalView::Launch { args } => StepView::Spawn { name, args },
    }
}

/// The step that follows when the file system has told what is at the
/// lookup's path: the search ends there if that can be run, and goes on
/// with the next directory if not.
pub open spec fn advance_step(
    search_path: Seq<Seq<char>>,
    lookup: LookupView,
    probe: Option<FileInfo>,
) -> StepView {
    if runnable(probe) {
        found_step(lookup.name, lookup.goal, lookup.path)
    } else {
        search_step(search_path, lookup.name, lookup.goal, lookup.index + 1)
    }
}

/// What `cd` tells the user when it cannot enter `target`.
pub open spec fn cd_failure(target: Seq<char>) -> ErrorView {
    ErrorView::ShellMessage("cd: "@ + target + ": No such file or directory"@)
}

/// The step of `cd` once the home directory is known: a leading `~` of the
/// target stands for it.
pub open spec fn home_step(target: Seq<char>, home: Seq<char>) -> StepView {
    StepView::ChangeDir {
        path: match after_tilde(target) {
            Some(rest) => home + rest,
            None => target,
        },
        failure: cd_failure(target),
    }
}

/// `echo`: the arguments on one line, a single space between them.
pub open spec fn echo_step(args: Seq<Seq<char>>) -> StepView {
    StepView::Print(join_words(args) + seq!['\n'])
}

/// `cd`: a target that begins with `~` needs the home directory first; any
/// other is taken as it stands.
pub open spec fn cd_step(target: Seq<char>) -> StepView {
    if after_tilde(target) is Some {
        StepView::Home { target }
    } else {
        StepView::ChangeDir { path: target, failure: cd_failure(target) }
    }
}

/// `type`: a built-in command is named as one, whatever the search path
/// holds; any other name is looked up there.
pub open spec fn type_step(name: Seq<char>, shell: ShellView) -> StepView {
    if shell.builtins.contains(name) {
        StepView::Print(name + " is a shell builtin\n"@)
    } else {
        search_step(shell.search_path, name, GoalView::Describe, 0)
    }
}

/// The first step of a command.
pub open spec fn run_step(command: CommandView, shell: ShellView) -> StepView {
    match command {
        CommandView::Exit => StepView::Exit,
        CommandView::Echo { args } => echo_step(args),
        CommandView::Pwd => StepView::CurrentDir,
        CommandView::Cd { target } => cd_step(target),
        CommandView::Type { name } => type_step(name, shell),
        CommandView::External { name, args } => search_step(
            shell.search_path,
            name,
            GoalView::Launch { args },
            0,
        ),
    }
}

/// `pwd`: the current directory on a line of its own, or the system's
/// failure.
pub open spec fn pwd_step(answer: Result<Seq<char>, Seq<char>>) -> StepView {
    match answer {
        Ok(dir) => StepView::Print(dir + seq!['\n']),
        Err(message) => StepView::Fail(ErrorView::Io(message)),
    }
}

/// What a program wrote is passed on as it is; that it could not be run is
/// the system's failure.
pub open spec fn spawn_step(answer: Result<Seq<u8>, Seq<char>>) -> StepView {
    match answer {
        Ok(output) => StepView::Write(output),
        Err(message) => StepView::Fail(ErrorView::Io(message)),
    }
}

/// The step that follows `step` once the session has answered it with
/// `reply`. A reply that does not answer the step leaves it as it is.
pub open spec fn resume_step(
    step: StepView,
    search_path: Seq<Seq<char>>,
    reply: ReplyView,
) -> StepView {
    match (step, reply) {
        (StepView::CurrentDir, ReplyView::CurrentDir(answer)) => pwd_step(answer),
        (StepView::Home { target }, ReplyView::Home(home)) => home_step(target, home),
        (StepView::ChangeDir { path, failure }, ReplyView::Changed(entered)) => if entered {
            StepView::Done
        } else {
            StepView::Fail(failure)
        },
        (StepView::Probe(lookup), ReplyView::Probed(probe)) => advance_step(
            search_path,
            lookup,
            probe,
        ),
        (StepView::Spawn { name, args }, ReplyView::Spawned(answer)) => spawn_step(answer),
        _ => step,
    }
}

/// What `cd` tells the user when it cannot enter `target`.
fn cd_error(target: &str) -> (error: ShellError)
    ensures
        error@ == cd_failure(target@),
{
    let mut text = String::from_str("cd: ");
    text.append(target);
    text.append(": No such file or directory");
    ShellError::ShellMessage(text)
}

/// Looks for `name` from the directory at place `index` of the search path
/// on.
fn search(shell: &Shell, name: String, goal: Goal, index: usize) -> (step: Step)
    ensures
        step@ == search_step(shell@.search_path, name@, goal@, index as int),
{
    let dirs = shell.search_path();
    if index < dirs.len() {
        let path = join_path(dirs[index].as_str(), name.as_str());
        Step::Probe(Lookup { name, goal, index, path })
    } else {
        Step::Fail(ShellError::NotFound(name))
    }
}

/// The step of `echo`.
fn echo(args: &Vec<String>) -> (step: Step)
    ensures
        step@ == echo_step(args.deep_view()),
{
    let mut line = join(args);
    line.push('\n');
    assert(line@ == join_words(args.deep_view()) + seq!['\n']);
    Step::Print(line)
}

/// The first step of `cd`.
fn change_dir(target: String) -> (step: Step)
    ensures
        step@ == cd_step(target@),
{
    match strip_tilde(target.as_str()) {
        Some(_) => Step::Home { target },
        None => {
            let failure = cd_error(target.as_str());
            Step::ChangeDir { path: target, failure }
        },
    }
}

/// The first step of `type`.
fn describe(name: String, shell: &Shell) -> (step: Step)
    ensures
        step@ == type_step(name@, shell@),
{
    if shell.is_builtin(name.as_str()) {
        let mut line = name;
        line.append(" is a shell builtin\n");
        Step::Print(line)
    } else {
        search(shell, name, Goal::Describe, 0)
    }
}

impl Command {
    /// The first step of the command in the session `shell`.
    pub fn run(self, shell: &Shell) -> (step: Step)
        ensures
            step@ == run_step(self@, shell@),
    {
        match self {
            Command::Exit => Step::Exit,
            Command::Echo { args } => echo(&args),
            Command::Pwd => Step::CurrentDir,
            Command::Cd { target } => change_dir(target),
            Command::Type { name } => describe(name, shell),
            Command::External { name, args } => search(shell, name, Goal::Launch { args }, 0),
        }
    }
}

impl Shell {
    /// Runs a line of input as far as the first step of the command that it
    /// spells. The line is taken as it was read: whitespace at its end, the
    /// line end too, is no part of the command.
    pub fn run(&self, line: &str) -> (step: Step)
        ensures
            step@ == run_step(parse_line(trimmed(line@)), self@),
    {
        let line = trim_end(line);
        Command::parse(line.as_str()).run(self)
    }
}

impl Lookup {
    /// The step that follows when the file system has told what is at
    /// `self.path`; `None` says that it found nothing there.
    pub fn advance(self, shell: &Shell, probe: Option<FileInfo>) -> (step: Step)
        ensures
            step@ == advance_step(shell@.search_path, self@, probe),
    {
        if is_runnable(&probe) {
            match self.goal {
                Goal::Describe => {
                    let mut line = self.name;
                    line.append(" is ");
                    line.append(self.path.as_str());
                    line.push('\n');
                    assert(line@ == self.name@ + " is "@ + self.path@ + seq!['\n']);
                    Step::Print(line)
                },
                Goal::Launch { args } => Step::Spawn { name: self.name, args },
            }
        } else if self.index < shell.search_path().len() {
            search(shell, self.name, self.goal, self.index + 1)
        } else {
            Step::Fail(ShellError::NotFound(self.name))
        }
    }
}

/// The step of `cd` once the home directory is known.
pub fn enter_home(target: String, home: &str) -> (step: Step)
    ensures
        step@ == home_step(target@, home@),
{
    let failure = cd_error(target.as_str());
    match strip_tilde(target.as_str()) {
        Some(rest) => {
            let mut path = String::from_str(home);
            path.append(rest.as_str());
            Step::ChangeDir { path, failure }
        },
        None => Step::ChangeDir { path: target, failure },
    }
}

/// The step of `pwd` once the system has answered.
fn print_dir(answer: Result<String, String>) -> (step: Step)
    ensures
        step@ == pwd_step(
            match answer {
                Ok(dir) => Ok(dir@),
                Err(message) => Err(message@),
            },
        ),
{
    match answer {
        Ok(dir) => {
            let ghost shown = dir@;
            let mut line = dir;
            line.push('\n');
            assert(line@ == shown + seq!['\n']);
            Step::Print(line)
        },
        Err(message) => Step::Fail(ShellError::Io(message)),
    }
}

impl Step {
    /// The step that follows once the session has done what `self` asked
    /// for and found `reply`.
    pub fn resume(self, shell: &Shell, reply: Reply) -> (step: Step)
        ensures
            step@ == resume_step(self@, shell@.search_path, reply@),
    {
        match self {
            Step::CurrentDir => match reply {
                Reply::CurrentDir(answer) => print_dir(answer),
                _ => Step::CurrentDir,
            },
            Step::Home { target } => match reply {
                Reply::Home(home) => enter_home(target, home.as_str()),
                _ => Step::Home { target },
            },
            Step::ChangeDir { path, failure } => match reply {
                Reply::Changed(entered) => if entered {
                    Step::Done
                } else {
                    Step::Fail(failure)
                },
                _ => Step::ChangeDir { path, failure },
            },
            Step::Probe(lookup) => match reply {
                Reply::Probed(probe) => lookup.advance(shell, probe),
                _ => Step::Probe(lookup),
            },
            Step::Spawn { name, args } => match reply {
                Reply::Spawned(Ok(output)) => Step::Write(output),
                Reply::Spawned(Err(message)) => Step::Fail(ShellError::Io(message)),
                _ => Step::Spawn { name, args },
            },
            done => done,
        }
    }
}

/// The step in which a search for `name` ends that has this result.
pub open spec fn resolved_step(
    name: Seq<char>,
    goal: GoalView,
    result: Option<Seq<char>>,
) -> StepView {
    match result {
        Some(path) => found_step(name, goal, path),
        None => StepView::Fail(ErrorView::NotFound(name)),
    }
}

/// The number of directories that a step may still have to look at.
pub open spec fn probes_left(step: StepView, search_path: Seq<Seq<char>>) -> nat {
    match step {
        StepView::Probe(lookup) => if 0 <= lookup.index < search_path.len() {
            (search_path.len() - lookup.index) as nat
        } else {
            0
        },
        _ => 0,
    }
}

/// The step at which a search ends when the session answers every probe
/// from a file system that holds `files`.
pub open spec fn settle(
    step: StepView,
    search_path: Seq<Seq<char>>,
    files: Map<Seq<char>, FileInfo>,
) -> StepView
    decreases probes_left(step, search_path),
{
    match step {
        StepView::Probe(lookup) => if 0 <= lookup.index < search_path.len() {
            settle(
                resume_step(step, search_path, ReplyView::Probed(probe_at(files, lookup.path))),
                search_path,
                files,
            )
        } else {
            step
        },
        _ => step,
    }
}

/// A search that has come to place `index` ends with what `resolve_from`
/// finds from there on.
proof fn lemma_settle_from(
    search_path: Seq<Seq<char>>,
    name: Seq<char>,
    goal: GoalView,
    files: Map<Seq<char>, FileInfo>,
    index: int,
)
    requires
        0 <= index,
    ensures
        settle(search_step(search_path, name, goal, index), search_path, files) == resolved_step(
            name,
            goal,
            resolve_from(search_path, name, files, index),
        ),
    decreases search_path.len() - index,
{
    if index < search_path.len() {
        if found_at(search_path, name, files, index) {
            reveal_with_fuel(settle, 2);
        } else {
            lemma_settle_from(search_path, name, goal, files, index + 1);
        }
    }
}

/// A search for a program, step by step, ends with what `resolve` says of
/// the file system: the program is found where `resolve` finds it, and its
/// name is not found where `resolve` finds nothing.
pub proof fn lemma_search_resolves(
    search_path: Seq<Seq<char>>,
    name: Seq<char>,
    goal: GoalView,
    files: Map<Seq<char>, FileInfo>,
)
    ensures
        settle(search_step(search_path, name, goal, 0), search_path, files) == resolved_step(
            name,
            goal,
            resolve(search_path, name, files),
        ),
{
    lemma_settle_from(search_path, name, goal, files, 0);
}

/// A built-in command is named as one by `type` whatever the search path
/// and the file system hold: no directory is looked at. So it is with
/// `echo`.
pub proof fn lemma_builtin_first(name: Seq<char>, shell: ShellView)
    requires
        shell.builtins == builtin_names(),
    ensures
        builtin_names().contains(name) ==> run_step(CommandView::Type { name }, shell)
            == StepView::Print(name + " is a shell builtin\n"@),
        run_step(CommandView::Type { name: "echo"@ }, shell) == StepView::Print(
            "echo is a shell builtin\n"@,
        ),
{
    assert("echo"@ + " is a shell builtin\n"@ == "echo is a shell builtin\n"@) by {
        reveal_strlit("echo");
        reveal_strlit(" is a shell builtin\n");
        reveal_strlit("echo is a shell builtin\n");
    }
}

} // verus!
