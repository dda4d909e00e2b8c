use tella::command_executor::{command_outcome, launch_failure, shell_call};

#[test]
fn each_system_has_its_shell() {
    let w = shell_call("windows");
    assert_eq!((w.program, w.flag), ("powershell", "-Command"));
    let l = shell_call("linux");
    assert_eq!((l.program, l.flag), ("bash", "-c"));
    let m = shell_call("macos");
    assert_eq!((m.program, m.flag), ("sh", "-c"));
}

#[test]
fn a_failure_with_diagnostics_is_an_error() {
    assert_eq!(
        command_outcome(false, "partial", "ls: no such file\n"),
        Err("Error: ls: no such file\n".to_string())
    );
}

#[test]
fn every_other_command_gives_its_output() {
    assert_eq!(command_outcome(true, "a\nb\n", ""), Ok("a\nb\n".to_string()));
    assert_eq!(command_outcome(false, "out", ""), Ok("out".to_string()));
    assert_eq!(command_outcome(true, "out", "warn"), Ok("out\nwarn".to_string()));
    assert_eq!(command_outcome(true, "", ""), Ok(String::new()));
    assert_eq!(launch_failure("not found"), "Failed to execute command: not found");
}
