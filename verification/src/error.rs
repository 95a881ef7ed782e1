//! What can go wrong with a command, and how it is told to the user.

use vstd::prelude::*;

verus! {

/// Why a command failed.
#[derive(Debug, PartialEq, Eq)]
pub enum ShellError {
    /// A call to the operating system failed; the text is the system's own.
    Io(String),
    /// A message that a built-in command wrote for the user.
    ShellMessage(String),
    /// A built-in command that is not known. Nothing reports it yet.
    CommandNotFound(String),
    /// A name that is neither a built-in command nor a program on the
    /// search path.
    NotFound(String),
}

/// A `ShellError` with its texts as sequences of characters.
pub enum ErrorView {
    Io(Seq<char>),
    ShellMessage(Seq<char>),
    CommandNotFound(Seq<char>),
    NotFound(Seq<char>),
}

/// Where a message is written.
#[derive(Clone, Copy, Debug, PartialEq, Eq, Structural)]
pub enum Stream {
    Stdout,
    Stderr,
}

impl View for ShellError {
    type V = ErrorView;

    open spec fn view(&self) -> ErrorView {
        match self {
            ShellError::Io(text) => ErrorView::Io(text@),
            ShellError::ShellMessage(text) => ErrorView::ShellMessage(text@),
            ShellError::CommandNotFound(name) => ErrorView::CommandNotFound(name@),
            ShellError::NotFound(name) => ErrorView::NotFound(name@),
        }
    }
}

impl ErrorView {
    /// The line that tells the user of the error, without its line end.
    pub open spec fn message(self) -> Seq<char> {
        match self {
            ErrorView::Io(text) => "I/O error: "@ + text,
            ErrorView::ShellMessage(text) => text,
            ErrorView::CommandNotFound(name) => name + ": command not found"@,
            ErrorView::NotFound(name) => name + ": command not found"@,
        }
    }

    /// A name that was not found is told on standard output, as shells do;
    /// every other error is a diagnostic for standard error.
    pub open spec fn stream(self) -> Stream {
        match self {
            ErrorView::CommandNotFound(_) | ErrorView::NotFound(_) => Stream::Stdout,
            _ => Stream::Stderr,
        }
    }
}

impl ShellError {
    /// The line that tells the user of the error, without its line end.
    pub fn message(&self) -> (text: String)
        ensures
            text@ == self@.message(),
    {
        match self {
            ShellError::Io(error) => {
                let mut text = String::from_str("I/O error: ");
                text.append(error.as_str());
                text
            },
            ShellError::ShellMessage(message) => message.clone(),
            ShellError::CommandNotFound(name) => {
                let mut text = name.clone();
                text.append(": command not found");
                text
            },
            ShellError::NotFound(name) => {
                let mut text = name.clone();
                text.append(": command not found");
                text
            },
        }
    }

    /// The stream on which the error is told.
    pub fn stream(&self) -> (stream: Stream)
        ensures
            stream == self@.stream(),
    {
        match self {
            ShellError::CommandNotFound(_) | ShellError::NotFound(_) => Stream::Stdout,
            _ => Stream::Stderr,
        }
    }
}

} // verus!
