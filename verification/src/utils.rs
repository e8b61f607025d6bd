//! Judging how a child process ended.
use vstd::prelude::*;
use crate::error::AppError;
use crate::text::trim_text;
use crate::text::trimmed;
use crate::text::join2;

verus! {

/// What is reported as the cause when a process fails: what it wrote, its
/// error stream first, or a fixed sentence if it wrote nothing but white
/// space.
pub open spec fn failure_text(title: Seq<char>, stdout: Seq<char>, stderr: Seq<char>) -> Seq<char> {
    if trimmed(stderr + stdout).len() == 0 {
        title + " process failed"@
    } else {
        stderr + stdout
    }
}

/// Judges a process that has exited: its output is handed back if it
/// succeeded, else the failure names the command and carries what the
/// process wrote.
pub fn run_command(
    title: &'static str,
    command: String,
    argument_list: Vec<String>,
    success: bool,
    stdout: String,
    stderr: String,
) -> (result: Result<(String, String), AppError>)
    ensures
        success ==> result == Ok::<(String, String), AppError>((stdout, stderr)),
        !success ==> (result matches Err(
            AppError::ProcessFailed { title: t, command: c, argument_list: a, source },
        ) && t == title && c == command && a == argument_list && source@ == failure_text(
            title@,
            stdout@,
            stderr@,
        )),
{
    if success {
        Ok((stdout, stderr))
    } else {
        let output = join2(stderr.as_str(), stdout.as_str());
        let source = if trim_text(output.as_str()).is_empty() {
            join2(title, " process failed")
        } else {
            output
        };
        Err(AppError::ProcessFailed { title, command, argument_list, source })
    }
}

} // verus!
