//! Running the suggested command.
//!
//! Starting the process is the caller's work. This module says which shell
//! takes the command on which system, and what the finished process means
//! for the session.

use crate::text::same_text;
use vstd::prelude::*;

verus! {

/// The program that takes a command line, and the flag that goes before it.
#[derive(Clone, Copy, Debug, PartialEq, Eq)]
pub struct ShellCall {
    pub program: &'static str,
    pub flag: &'static str,
}

/// The shell program of an operating system.
pub open spec fn shell_program(os: Seq<char>) -> Seq<char> {
    if os == "windows"@ {
        "powershell"@
    } else if os == "linux"@ {
        "bash"@
    } else {
        "sh"@
    }
}

/// The flag that goes before the command line.
pub open spec fn shell_flag(os: Seq<char>) -> Seq<char> {
    if os == "windows"@ {
        "-Command"@
    } else {
        "-c"@
    }
}

/// The shell that takes a command on the operating system `os`:
/// `powershell -Command` on Windows, `bash -c` on Linux, `sh -c` elsewhere.
pub fn shell_call(os: &str) -> (r: ShellCall)
    ensures
        r.program@ == shell_program(os@),
        r.flag@ == shell_flag(os@),
{
    if same_text(os, "windows") {
        ShellCall { program: "powershell", flag: "-Command" }
    } else if same_text(os, "linux") {
        ShellCall { program: "bash", flag: "-c" }
    } else {
        ShellCall { program: "sh", flag: "-c" }
    }
}

/// What a finished command means.
///
/// A command that failed and wrote to its error stream is an error, told
/// with what it wrote. Every other command gives its output: the output
/// stream alone where the error stream is empty, else both, the output
/// stream first and a line end between them.
pub open spec fn outcome_of(success: bool, stdout: Seq<char>, stderr: Seq<char>) -> Result<
    Seq<char>,
    Seq<char>,
> {
    if !success && stderr.len() > 0 {
        Err("Error: "@ + stderr)
    } else if stderr.len() == 0 {
        Ok(stdout)
    } else {
        Ok(stdout + "\n"@ + stderr)
    }
}

/// What a finished command means: its output, or the error that it
/// reported.
pub fn command_outcome(success: bool, stdout: &str, stderr: &str) -> (r: Result<String, String>)
    ensures
        match r {
            Ok(output) => outcome_of(success, stdout@, stderr@) == Ok::<Seq<char>, Seq<char>>(
                output@,
            ),
            Err(error) => outcome_of(success, stdout@, stderr@) == Err::<Seq<char>, Seq<char>>(
                error@,
            ),
        },
{
    if !success && !stderr.is_empty() {
        Err(String::from_str("Error: ").concat(stderr))
    } else if stderr.is_empty() {
        Ok(stdout.to_owned())
    } else {
        Ok(stdout.to_owned().concat("\n").concat(stderr))
    }
}

/// The error for a command that could not be started.
pub fn launch_failure(reason: &str) -> (r: String)
    ensures
        r@ == "Failed to execute command: "@ + reason@,
{
    String::from_str("Failed to execute command: ").concat(reason)
}

} // verus!
