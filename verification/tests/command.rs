use shell::command::split_line;
use shell::session::split_dirs;
use shell::text::{join, strip_tilde, trim_end};
use shell::Command;

fn texts(items: &[&str]) -> Vec<String> {
    items.iter().map(|item| item.to_string()).collect()
}

#[test]
fn exit_is_read() {
    assert_eq!(Command::parse("exit"), Command::Exit);
    assert_eq!(Command::parse("exit 0"), Command::Exit);
}

#[test]
fn pwd_is_read() {
    assert_eq!(Command::parse("pwd"), Command::Pwd);
    assert_eq!(Command::parse("pwd ignored words"), Command::Pwd);
}

#[test]
fn echo_keeps_its_words() {
    assert_eq!(
        Command::parse("echo  hello   'big  world'"),
        Command::Echo { args: texts(&["hello", "big  world"]) }
    );
    assert_eq!(Command::parse("echo"), Command::Echo { args: vec![] });
}

#[test]
fn type_takes_its_words_as_one_name() {
    assert_eq!(Command::parse("type echo"), Command::Type { name: "echo".to_string() });
    assert_eq!(Command::parse("type  a   b"), Command::Type { name: "a b".to_string() });
    assert_eq!(Command::parse("type"), Command::Type { name: String::new() });
}

#[test]
fn cd_takes_its_words_as_one_target() {
    assert_eq!(Command::parse("cd /tmp"), Command::Cd { target: "/tmp".to_string() });
    assert_eq!(Command::parse("cd my   dir"), Command::Cd { target: "my dir".to_string() });
    assert_eq!(Command::parse("cd 'my   dir'"), Command::Cd { target: "my   dir".to_string() });
}

#[test]
fn any_other_name_is_a_program() {
    assert_eq!(
        Command::parse("ls -l 'my file'"),
        Command::External { name: "ls".to_string(), args: texts(&["-l", "my file"]) }
    );
    assert_eq!(
        Command::parse("nonexistent_cmd_xyz"),
        Command::External { name: "nonexistent_cmd_xyz".to_string(), args: vec![] }
    );
}

#[test]
fn names_are_matched_letter_for_letter() {
    assert_eq!(Command::parse("Echo hi"), Command::External {
        name: "Echo".to_string(),
        args: texts(&["hi"]),
    });
    assert_eq!(Command::parse("exit2"), Command::External {
        name: "exit2".to_string(),
        args: vec![],
    });
    assert_eq!(Command::parse("'echo' hi"), Command::External {
        name: "'echo'".to_string(),
        args: texts(&["hi"]),
    });
}

#[test]
fn the_first_whitespace_character_ends_the_name() {
    assert_eq!(Command::parse("echo\thi"), Command::Echo { args: texts(&["hi"]) });
    assert_eq!(Command::parse("cd\u{a0}/tmp"), Command::Cd { target: "/tmp".to_string() });
}

#[test]
fn an_empty_line_names_an_empty_program() {
    assert_eq!(Command::parse(""), Command::External { name: String::new(), args: vec![] });
    assert_eq!(Command::parse(" echo hi"), Command::External {
        name: String::new(),
        args: texts(&["echo", "hi"]),
    });
}

#[test]
fn split_line_cuts_at_the_first_whitespace() {
    assert_eq!(split_line("echo a b"), ("echo".to_string(), "a b".to_string()));
    assert_eq!(split_line("echo  a"), ("echo".to_string(), " a".to_string()));
    assert_eq!(split_line("echo"), ("echo".to_string(), String::new()));
    assert_eq!(split_line("echo "), ("echo".to_string(), String::new()));
    assert_eq!(split_line(""), (String::new(), String::new()));
    assert_eq!(split_line("\tx"), (String::new(), "x".to_string()));
}

#[test]
fn join_puts_one_space_between_words() {
    assert_eq!(join(&texts(&[])), "");
    assert_eq!(join(&texts(&["a"])), "a");
    assert_eq!(join(&texts(&["a", "b c", "d"])), "a b c d");
    assert_eq!(join(&texts(&["", ""])), " ");
}

#[test]
fn strip_tilde_takes_one_leading_tilde() {
    assert_eq!(strip_tilde("~"), Some(String::new()));
    assert_eq!(strip_tilde("~/src"), Some("/src".to_string()));
    assert_eq!(strip_tilde("~~"), Some("~".to_string()));
    assert_eq!(strip_tilde("/tmp/~"), None);
    assert_eq!(strip_tilde(""), None);
}

#[test]
fn trim_end_drops_trailing_whitespace_only() {
    assert_eq!(trim_end("echo hi\n"), "echo hi");
    assert_eq!(trim_end("  a  b \t\r\n"), "  a  b");
    assert_eq!(trim_end("a\u{a0}\u{3000}"), "a");
    assert_eq!(trim_end(" \n"), "");
    assert_eq!(trim_end(""), "");
    assert_eq!(trim_end("abc"), "abc");
}

#[test]
fn trim_end_trims_as_the_standard_library() {
    let lines = ["", "\n", "a\n", " a b  ", "\u{2003}x\u{2003}", "x\u{85}", "tab\t", "a\u{200b}"];
    for line in lines {
        assert_eq!(trim_end(line), line.trim_end(), "{:?}", line);
    }
}

#[test]
fn split_dirs_cuts_at_every_colon() {
    assert_eq!(split_dirs("/usr/bin:/bin"), texts(&["/usr/bin", "/bin"]));
    assert_eq!(split_dirs("/bin"), texts(&["/bin"]));
    assert_eq!(split_dirs(""), texts(&[""]));
    assert_eq!(split_dirs(":"), texts(&["", ""]));
    assert_eq!(split_dirs("a::b"), texts(&["a", "", "b"]));
    assert_eq!(split_dirs("/my dir:/x"), texts(&["/my dir", "/x"]));
}
