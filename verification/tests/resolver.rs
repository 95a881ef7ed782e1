use std::path::Path;

use shell::{is_executable, is_runnable, join_path, FileInfo};

fn file(mode: u32) -> FileInfo {
    FileInfo { is_file: true, mode }
}

#[test]
fn any_execute_bit_makes_a_file_executable() {
    assert!(is_executable(&file(0o100)));
    assert!(is_executable(&file(0o010)));
    assert!(is_executable(&file(0o001)));
    assert!(is_executable(&file(0o755)));
    assert!(is_executable(&file(0o100755)));
}

#[test]
fn without_an_execute_bit_a_file_is_not_executable() {
    assert!(!is_executable(&file(0)));
    assert!(!is_executable(&file(0o644)));
    assert!(!is_executable(&file(0o666)));
    assert!(!is_executable(&file(0o100644)));
}

#[test]
fn only_an_executable_regular_file_can_be_run() {
    assert!(is_runnable(&Some(file(0o755))));
    assert!(!is_runnable(&Some(file(0o644))));
    assert!(!is_runnable(&Some(FileInfo { is_file: false, mode: 0o755 })));
    assert!(!is_runnable(&None));
}

#[test]
fn join_path_puts_the_name_after_the_directory() {
    assert_eq!(join_path("/usr/bin", "ls"), "/usr/bin/ls");
    assert_eq!(join_path("/dirA", "tool"), "/dirA/tool");
    assert_eq!(join_path("bin", "a/b"), "bin/a/b");
}

#[test]
fn join_path_adds_no_second_separator() {
    assert_eq!(join_path("/usr/bin/", "ls"), "/usr/bin/ls");
    assert_eq!(join_path("/", "ls"), "/ls");
    assert_eq!(join_path("", "ls"), "ls");
}

#[test]
fn join_path_lets_a_rooted_name_stand_for_itself() {
    assert_eq!(join_path("/usr/bin", "/bin/ls"), "/bin/ls");
    assert_eq!(join_path("", "/"), "/");
}

#[test]
fn join_path_joins_as_the_standard_library() {
    let dirs =
        ["", "/", "/usr/bin", "/usr/bin/", "rel", "rel/", "a//", ".", "/caf\u{e9}", "\u{2215}"];
    let names = ["", "ls", "/bin/ls", "a/b", "./x", "//x", "x/", "\u{e9}t\u{e9}", "\u{2215}x"];
    for dir in dirs {
        for name in names {
            let expected = Path::new(dir).join(name);
            let joined = join_path(dir, name);
            assert_eq!(Some(joined.as_str()), expected.to_str(), "{:?} {:?}", dir, name);
        }
    }
}
