//! What a session keeps from one command to the next.

use vstd::prelude::*;

verus! {

/// The names of the built-in commands.
pub open spec fn builtin_names() -> Seq<Seq<char>> {
    seq!["exit"@, "echo"@, "type"@, "pwd"@, "cd"@]
}

/// The directories that `list` names: the stretches between its colons,
/// empty ones too.
pub open spec fn listed_dirs(list: Seq<char>) -> Seq<Seq<char>>
    decreases list.len(),
{
    if list.len() == 0 {
        seq![Seq::empty()]
    } else {
        let front = listed_dirs(list.drop_last());
        if list.last() == ':' {
            front.push(Seq::empty())
        } else {
            front.drop_last().push(front.last().push(list.last()))
        }
    }
}

/// The search path that the variable `PATH` asks for: the directories that
/// its value lists, and none where it is not set or empty.
pub open spec fn search_dirs(path: Option<Seq<char>>) -> Seq<Seq<char>> {
    match path {
        Some(list) => if list.len() > 0 {
            listed_dirs(list)
        } else {
            Seq::empty()
        },
        None => Seq::empty(),
    }
}

/// Splits a list of directories at its colons.
pub fn split_dirs(list: &str) -> (dirs: Vec<String>)
    ensures
        dirs.deep_view() == listed_dirs(list@),
{
    let mut dirs: Vec<String> = Vec::new();
    let mut current = String::new();
    for c in iter: list.chars()
        invariant
            iter.seq() == list@,
            listed_dirs(list@.take(iter.index())) == dirs.deep_view().push(current@),
    {
        assert(list@.take(iter.index() + 1).drop_last() == list@.take(iter.index()));
        if c == ':' {
            dirs.push(current);
            current = String::new();
        } else {
            current.push(c);
        }
    }
    assert(list@.take(list@.len() as int) == list@);
    dirs.push(current);
    dirs
}

/// The state of a session: the names of the built-in commands and the
/// directories in which programs are looked for, in the order of the search.
/// Both are fixed when the session starts.
#[derive(Debug)]
pub struct Shell {
    builtins: Vec<String>,
    search_path: Vec<String>,
}

/// A `Shell` with its texts as sequences of characters.
pub struct ShellView {
    pub builtins: Seq<Seq<char>>,
    pub search_path: Seq<Seq<char>>,
}

impl View for Shell {
    type V = ShellView;

    closed spec fn view(&self) -> ShellView {
        ShellView {
            builtins: self.builtins.deep_view(),
            search_path: self.search_path.deep_view(),
        }
    }
}

impl Shell {
    #[verifier::type_invariant]
    spec fn well_formed(self) -> bool {
        self.builtins.deep_view() == builtin_names()
    }

    /// A session whose search path is taken from `path`, the value of the
    /// variable `PATH`, or `None` where the variable is not set.
    pub fn new(path: Option<&str>) -> (shell: Shell)
        ensures
            shell@.builtins == builtin_names(),
            shell@.search_path == search_dirs(
                match path {
                    Some(list) => Some(list@),
                    None => None,
                },
            ),
    {
        let search_path = match path {
            Some(list) => if list.is_empty() {
                Vec::new()
            } else {
                split_dirs(list)
            },
            None => Vec::new(),
        };
        Shell::with_search_path(search_path)
    }

    /// A session that looks for programs in the directories of
    /// `search_path`, first to last.
    pub fn with_search_path(search_path: Vec<String>) -> (shell: Shell)
        ensures
            shell@.builtins == builtin_names(),
            shell@.search_path == search_path.deep_view(),
    {
        let mut builtins: Vec<String> = Vec::new();
        builtins.push(String::from_str("exit"));
        builtins.push(String::from_str("echo"));
        builtins.push(String::from_str("type"));
        builtins.push(String::from_str("pwd"));
        builtins.push(String::from_str("cd"));
        assert(builtins.deep_view() == builtin_names());
        Shell { builtins, search_path }
    }

    /// Tells whether `name` is a built-in command.
    pub fn is_builtin(&self, name: &str) -> (found: bool)
        ensures
            found == self@.builtins.contains(name@),
            self@.builtins == builtin_names(),
    {
        proof {
            use_type_invariant(self);
        }
        let wanted = String::from_str(name);
        let mut i: usize = 0;
        while i < self.builtins.len()
            invariant
                i <= self.builtins.len(),
                wanted@ == name@,
                self.builtins.deep_view() == builtin_names(),
                forall|j: int| 0 <= j < i ==> self.builtins.deep_view()[j] != name@,
            decreases self.builtins.len() - i,
        {
            if self.builtins[i] == wanted {
                return true;
            }
            i += 1;
        }
        false
    }

    /// The directories in which programs are looked for, first to last.
    pub fn search_path(&self) -> (dirs: &Vec<String>)
        ensures
            dirs.deep_view() == self@.search_path,
    {
        &self.search_path
    }
}

} // verus!
