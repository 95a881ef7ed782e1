//! A line of input as a command.

use vstd::prelude::*;
use crate::text::{is_whitespace, join, join_words, white_space};
use crate::tokenizer::{parse_args, tokenize};

verus! {

/// A command, as one line of input spells it.
#[derive(Debug, PartialEq, Eq)]
pub enum Command {
    /// Leave the session.
    Exit,
    /// Write the arguments.
    Echo { args: Vec<String> },
    /// Write the directory the session is in.
    Pwd,
    /// Go to another directory.
    Cd { target: String },
    /// Say what a name stands for.
    Type { name: String },
    /// Run a program with arguments.
    External { name: String, args: Vec<String> },
}

/// A `Command` with its texts as sequences of characters.
pub enum CommandView {
    Exit,
    Echo { args: Seq<Seq<char>> },
    Pwd,
    Cd { target: Seq<char> },
    Type { name: Seq<char> },
    External { name: Seq<char>, args: Seq<Seq<char>> },
}

impl View for Command {
    type V = CommandView;

    open spec fn view(&self) -> CommandView {
        match self {
            Command::Exit => CommandView::Exit,
            Command::Echo { args } => CommandView::Echo { args: args.deep_view() },
            Command::Pwd => CommandView::Pwd,
            Command::Cd { target } => CommandView::Cd { target: target@ },
            Command::Type { name } => CommandView::Type { name: name@ },
            Command::External { name, args } => CommandView::External {
                name: name@,
                args: args.deep_view(),
            },
        }
    }
}

/// The number of characters of `line` before its first whitespace
/// character: all of them where it has none.
pub open spec fn name_len(line: Seq<char>) -> int
    decreases line.len(),
{
    if line.len() == 0 || white_space(line[0]) {
        0
    } else {
        1 + name_len(line.drop_first())
    }
}

/// The command's name: what stands before the first whitespace character.
pub open spec fn command_name(line: Seq<char>) -> Seq<char> {
    line.take(name_len(line))
}

/// The command's arguments as they were typed: what follows the first
/// whitespace character.
pub open spec fn command_rest(line: Seq<char>) -> Seq<char> {
    if name_len(line) < line.len() {
        line.skip(name_len(line) + 1)
    } else {
        Seq::empty()
    }
}

/// `name_len(line)` is the first place that holds a whitespace character,
/// or the end of the line.
pub proof fn lemma_name_len(line: Seq<char>, n: int)
    requires
        0 <= n <= line.len(),
        forall|j: int| 0 <= j < n ==> !white_space(#[trigger] line[j]),
        n < line.len() ==> white_space(line[n]),
    ensures
        name_len(line) == n,
    decreases n,
{
    if n > 0 {
        lemma_name_len(line.drop_first(), n - 1);
    }
}

/// The command that `line` spells. The name decides the kind, letter for
/// letter; the words after it are the arguments, which `type` and `cd` take
/// as one text, joined by single spaces.
pub open spec fn parse_line(line: Seq<char>) -> CommandView {
    let name = command_name(line);
    let args = tokenize(command_rest(line));
    if name == "exit"@ {
        CommandView::Exit
    } else if name == "echo"@ {
        CommandView::Echo { args }
    } else if name == "type"@ {
        CommandView::Type { name: join_words(args) }
    } else if name == "pwd"@ {
        CommandView::Pwd
    } else if name == "cd"@ {
        CommandView::Cd { target: join_words(args) }
    } else {
        CommandView::External { name, args }
    }
}

/// Splits `line` at its first whitespace character into the command's name
/// and the rest, without that character.
pub fn split_line(line: &str) -> (parts: (String, String))
    ensures
        parts.0@ == command_name(line@),
        parts.1@ == command_rest(line@),
{
    let mut name = String::new();
    let mut rest = String::new();
    let mut in_rest = false;
    let ghost mut gap: int = 0;
    for c in iter: line.chars()
        invariant
            iter.seq() == line@,
            !in_rest ==> {
                &&& name@ == line@.take(iter.index())
                &&& rest@.len() == 0
                &&& forall|j: int| 0 <= j < iter.index() ==> !white_space(#[trigger] line@[j])
            },
            in_rest ==> {
                &&& 0 <= gap < iter.index()
                &&& white_space(line@[gap])
                &&& forall|j: int| 0 <= j < gap ==> !white_space(#[trigger] line@[j])
                &&& name@ == line@.take(gap)
                &&& rest@ == line@.subrange(gap + 1, iter.index())
            },
    {
        if in_rest {
            rest.push(c);
        } else if is_whitespace(c) {
            in_rest = true;
            proof {
                gap = iter.index();
            }
        } else {
            name.push(c);
        }
    }
    proof {
        if in_rest {
            lemma_name_len(line@, gap);
        } else {
            lemma_name_len(line@, line@.len() as int);
        }
    }
    (name, rest)
}

/// Tells whether `text` spells `word`.
fn spells(text: &String, word: &str) -> (same: bool)
    ensures
        same == (text@ == word@),
{
    let word = String::from_str(word);
    *text == word
}

impl Command {
    /// Reads a line as a command. Every line is one: a name that is not
    /// that of a built-in command is taken as a program's.
    pub fn parse(input: &str) -> (command: Command)
        ensures
            command@ == parse_line(input@),
    {
        let (name, rest) = split_line(input);
        let args = parse_args(rest.as_str());
        if spells(&name, "exit") {
            Command::Exit
        } else if spells(&name, "echo") {
            Command::Echo { args }
        } else if spells(&name, "type") {
            Command::Type { name: join(&args) }
        } else if spells(&name, "pwd") {
            Command::Pwd
        } else if spells(&name, "cd") {
            Command::Cd { target: join(&args) }
        } else {
            Command::External { name, args }
        }
    }
}

} // verus!
