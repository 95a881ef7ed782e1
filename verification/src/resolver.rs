//! Looking a program up on the search path.

use vstd::prelude::*;

verus! {

/// What the file system tells of an entry that exists.
#[derive(Clone, Copy, Debug, PartialEq, Eq)]
pub struct FileInfo {
    /// Whether the entry is a regular file.
    pub is_file: bool,
    /// Its permission bits.
    pub mode: u32,
}

/// Whether `mode` lets anyone execute the file: its owner, its group or
/// the others.
pub open spec fn executable(mode: u32) -> bool {
    mode & 0o111 != 0
}

/// Whether what was found at a path can be run: there is an entry, it is a
/// regular file, and somebody may execute it. `None` stands for a path at
/// which nothing could be found.
pub open spec fn runnable(probe: Option<FileInfo>) -> bool {
    match probe {
        Some(info) => info.is_file && executable(info.mode),
        None => false,
    }
}

/// Tells whether the permission bits of `info` let anyone execute the file.
pub fn is_executable(info: &FileInfo) -> (yes: bool)
    ensures
        yes == executable(info.mode),
{
    info.mode & 0o111 != 0
}

/// Tells whether what was found at a path can be run.
pub fn is_runnable(probe: &Option<FileInfo>) -> (yes: bool)
    ensures
        yes == runnable(*probe),
{
    match probe {
        Some(info) => info.is_file && is_executable(info),
        None => false,
    }
}

/// The path of the entry `name` of the directory `dir`. A name that
/// begins at the root stands for itself. Any other follows the directory,
/// after a `/` unless the directory is empty or ends in one. This is how
/// `std::path::Path::join` joins the two on Unix.
pub open spec fn joined_path(dir: Seq<char>, name: Seq<char>) -> Seq<char> {
    if name.len() > 0 && name[0] == '/' {
        name
    } else if dir.len() == 0 || dir.last() == '/' {
        dir + name
    } else {
        dir + seq!['/'] + name
    }
}

/// The first and the last character of `text`, if it has any.
fn ends(text: &str) -> (ends: Option<(char, char)>)
    ensures
        ends == if text@.len() > 0 {
            Some((text@[0], text@.last()))
        } else {
            None
        },
{
    let mut ends: Option<(char, char)> = None;
    for c in iter: text.chars()
        invariant
            iter.seq() == text@,
            ends == if iter.index() > 0 {
                Some((text@[0], text@[iter.index() - 1]))
            } else {
                None
            },
    {
        ends = match ends {
            Some((first, _)) => Some((first, c)),
            None => Some((c, c)),
        };
    }
    ends
}

/// Makes the path of the entry `name` of the directory `dir`.
pub fn join_path(dir: &str, name: &str) -> (path: String)
    ensures
        path@ == joined_path(dir@, name@),
{
    let rooted = match ends(name) {
        Some((first, _)) => first == '/',
        None => false,
    };
    if rooted {
        return String::from_str(name);
    }
    let mut path = String::from_str(dir);
    let open = match ends(dir) {
        Some((_, last)) => last != '/',
        None => false,
    };
    if open {
        path.push('/');
    }
    path.append(name);
    path
}

/// What a file system that holds `files` tells of `path`.
pub open spec fn probe_at(files: Map<Seq<char>, FileInfo>, path: Seq<char>) -> Option<FileInfo> {
    if files.dom().contains(path) {
        Some(files[path])
    } else {
        None
    }
}

/// Whether the directory at place `index` of the search path holds a
/// program called `name`.
pub open spec fn found_at(
    search_path: Seq<Seq<char>>,
    name: Seq<char>,
    files: Map<Seq<char>, FileInfo>,
    index: int,
) -> bool {
    runnable(probe_at(files, joined_path(search_path[index], name)))
}

/// The path of the program `name` in the first directory, from place
/// `index` of the search path on, that holds one.
pub open spec fn resolve_from(
    search_path: Seq<Seq<char>>,
    name: Seq<char>,
    files: Map<Seq<char>, FileInfo>,
    index: int,
) -> Option<Seq<char>>
    decreases search_path.len() - index,
{
    if index < 0 || index >= search_path.len() {
        None
    } else if found_at(search_path, name, files, index) {
        Some(joined_path(search_path[index], name))
    } else {
        resolve_from(search_path, name, files, index + 1)
    }
}

/// The path of the program `name`: where it is in the first directory of
/// the search path that holds it, if any does.
pub open spec fn resolve(
    search_path: Seq<Seq<char>>,
    name: Seq<char>,
    files: Map<Seq<char>, FileInfo>,
) -> Option<Seq<char>> {
    resolve_from(search_path, name, files, 0)
}

/// Directories that do not hold the program are passed over.
proof fn lemma_resolve_skips(
    search_path: Seq<Seq<char>>,
    name: Seq<char>,
    files: Map<Seq<char>, FileInfo>,
    index: int,
    next: int,
)
    requires
        0 <= index <= next <= search_path.len(),
        forall|j: int| index <= j < next ==> !found_at(search_path, name, files, j),
    ensures
        resolve_from(search_path, name, files, index) == resolve_from(
            search_path,
            name,
            files,
            next,
        ),
    decreases next - index,
{
    if index < next {
        assert(!found_at(search_path, name, files, index));
        lemma_resolve_skips(search_path, name, files, index + 1, next);
    }
}

/// The search path decides by its order: a program is found in the first
/// directory that holds it, whatever the later ones hold.
pub proof fn lemma_first_match_wins(
    search_path: Seq<Seq<char>>,
    name: Seq<char>,
    files: Map<Seq<char>, FileInfo>,
    first: int,
)
    requires
        0 <= first < search_path.len(),
        found_at(search_path, name, files, first),
        forall|j: int| 0 <= j < first ==> !found_at(search_path, name, files, j),
    ensures
        resolve(search_path, name, files) == Some(joined_path(search_path[first], name)),
{
    lemma_resolve_skips(search_path, name, files, 0, first);
}

/// Where no directory of the search path holds the program, and so where
/// the path is empty, nothing is found.
pub proof fn lemma_no_match_fails(
    search_path: Seq<Seq<char>>,
    name: Seq<char>,
    files: Map<Seq<char>, FileInfo>,
)
    requires
        forall|j: int| 0 <= j < search_path.len() ==> !found_at(search_path, name, files, j),
    ensures
        resolve(search_path, name, files) is None,
{
    lemma_resolve_skips(search_path, name, files, 0, search_path.len() as int);
}

} // verus!
