//! The steps of a command and the answers to them.

use vstd::prelude::*;
use crate::error::{ErrorView, ShellError};
use crate::resolver::FileInfo;

verus! {

/// What a program is looked up for.
#[derive(Debug, PartialEq, Eq)]
pub enum Goal {
    /// To say where it is.
    Describe,
    /// To run it with these arguments.
    Launch { args: Vec<String> },
}

/// A search for the program `name` that has come to the directory at place
/// `index` of the search path, where the program would be at `path`.
#[derive(Debug, PartialEq, Eq)]
pub struct Lookup {
    pub name: String,
    pub goal: Goal,
    pub index: usize,
    pub path: String,
}

/// What the session has to do next for a command.
#[derive(Debug, PartialEq, Eq)]
pub enum Step {
    /// End the process with status 0.
    Exit,
    /// Nothing is left to do: the command is done.
    Done,
    /// Write the text to standard output; the command is done.
    Print(String),
    /// Write the bytes to standard output as they are; the command is done.
    Write(Vec<u8>),
    /// Tell the user of the error; the command is done and the session
    /// goes on.
    Fail(ShellError),
    /// Ask the system for the current directory; answer with
    /// `Reply::CurrentDir`.
    CurrentDir,
    /// Read the user's home directory; answer with `Reply::Home`. A user
    /// without one cannot be answered for: the session gives up there.
    Home { target: String },
    /// Make `path` the current directory; answer with `Reply::Changed`.
    /// `failure` is what the user is told if the system refuses.
    ChangeDir { path: String, failure: ShellError },
    /// Ask the file system what is at the lookup's path; answer with
    /// `Reply::Probed`.
    Probe(Lookup),
    /// Run the program `name` with `args` and wait for its end; answer with
    /// `Reply::Spawned`.
    Spawn { name: String, args: Vec<String> },
}

/// What the session found when it did what a step asked for.
#[derive(Debug, PartialEq, Eq)]
pub enum Reply {
    /// The current directory, or the system's message where it could not
    /// tell it.
    CurrentDir(Result<String, String>),
    /// The user's home directory.
    Home(String),
    /// Whether the system entered the directory.
    Changed(bool),
    /// What is at the path; `None` where nothing could be found there.
    Probed(Option<FileInfo>),
    /// What the program wrote to its standard output, or the system's
    /// message where it could not be run.
    Spawned(Result<Vec<u8>, String>),
}

/// A `Goal` with its texts as sequences of characters.
pub enum GoalView {
    Describe,
    Launch { args: Seq<Seq<char>> },
}

/// A `Lookup` with its texts as sequences of characters.
pub struct LookupView {
    pub name: Seq<char>,
    pub goal: GoalView,
    pub index: int,
    pub path: Seq<char>,
}

/// A `Step` with its texts as sequences of characters.
pub enum StepView {
    Exit,
    Done,
    Print(Seq<char>),
    Write(Seq<u8>),
    Fail(ErrorView),
    CurrentDir,
    Home { target: Seq<char> },
    ChangeDir { path: Seq<char>, failure: ErrorView },
    Probe(LookupView),
    Spawn { name: Seq<char>, args: Seq<Seq<char>> },
}

/// A `Reply` with its texts as sequences of characters.
pub enum ReplyView {
    CurrentDir(Result<Seq<char>, Seq<char>>),
    Home(Seq<char>),
    Changed(bool),
    Probed(Option<FileInfo>),
    Spawned(Result<Seq<u8>, Seq<char>>),
}

impl View for Goal {
    type V = GoalView;

    open spec fn view(&self) -> GoalView {
        match self {
            Goal::Describe => GoalView::Describe,
            Goal::Launch { args } => GoalView::Launch { args: args.deep_view() },
        }
    }
}

impl View for Lookup {
    type V = LookupView;

    open spec fn view(&self) -> LookupView {
        LookupView {
            name: self.name@,
            goal: self.goal@,
            index: self.index as int,
            path: self.path@,
        }
    }
}

impl View for Step {
    type V = StepView;

    open spec fn view(&self) -> StepView {
        match self {
            Step::Exit => StepView::Exit,
            Step::Done => StepView::Done,
            Step::Print(text) => StepView::Print(text@),
            Step::Write(bytes) => StepView::Write(bytes@),
            Step::Fail(error) => StepView::Fail(error@),
            Step::CurrentDir => StepView::CurrentDir,
            Step::Home { target } => StepView::Home { target: target@ },
            Step::ChangeDir { path, failure } => StepView::ChangeDir {
                path: path@,
                failure: failure@,
            },
            Step::Probe(lookup) => StepView::Probe(lookup@),
            Step::Spawn { name, args } => StepView::Spawn { name: name@, args: args.deep_view() },
        }
    }
}

impl View for Reply {
    type V = ReplyView;

    open spec fn view(&self) -> ReplyView {
        match self {
            Reply::CurrentDir(Ok(dir)) => ReplyView::CurrentDir(Ok(dir@)),
            Reply::CurrentDir(Err(message)) => ReplyView::CurrentDir(Err(message@)),
            Reply::Home(home) => ReplyView::Home(home@),
            Reply::Changed(entered) => ReplyView::Changed(*entered),
            Reply::Probed(probe) => ReplyView::Probed(*probe),
            Reply::Spawned(Ok(output)) => ReplyView::Spawned(Ok(output@)),
            Reply::Spawned(Err(message)) => ReplyView::Spawned(Err(message@)),
        }
    }
}

} // verus!
