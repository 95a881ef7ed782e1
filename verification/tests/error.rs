use shell::{ShellError, Stream};

#[test]
fn system_errors_are_marked_as_such() {
    let error = ShellError::Io("No such file or directory (os error 2)".to_string());
    assert_eq!(error.message(), "I/O error: No such file or directory (os error 2)");
    assert_eq!(error.stream(), Stream::Stderr);
}

#[test]
fn shell_messages_are_told_as_they_are() {
    let error = ShellError::ShellMessage("cd: /nowhere: No such file or directory".to_string());
    assert_eq!(error.message(), "cd: /nowhere: No such file or directory");
    assert_eq!(error.stream(), Stream::Stderr);
}

#[test]
fn unknown_command_goes_to_standard_output() {
    let error = ShellError::CommandNotFound("frob".to_string());
    assert_eq!(error.message(), "frob: command not found");
    assert_eq!(error.stream(), Stream::Stdout);
}

#[test]
fn unknown_name_goes_to_standard_output() {
    let error = ShellError::NotFound("nonexistent_cmd_xyz".to_string());
    assert_eq!(error.message(), "nonexistent_cmd_xyz: command not found");
    assert_eq!(error.stream(), Stream::Stdout);
}
