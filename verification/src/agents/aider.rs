//! The command line of an `aider` run: the configured command split into
//! words, then the session's chat history file, the files to edit, the
//! message, and the test command when there is one.
use crate::error::{Error, ErrorKind};
use crate::text::{split_whitespace, split_ws, views};
use vstd::prelude::*;

verus! {

/// A wrapper for executing the `aider` command-line tool.
#[derive(Debug, Clone, Copy)]
pub struct AiderWrapper;

/// The result of an `aider` execution.
#[derive(Debug, Clone)]
pub struct AiderRunResult {
    pub success: bool,
    pub stdout: String,
    pub stderr: String,
}

/// The arguments of an aider run (the program is the first word of the
/// command): the command's other words, the chat history file, the files,
/// the message, and the test command when there is one.
pub open spec fn aider_args_spec(
    base_command: Seq<char>,
    chat_history: Seq<char>,
    files: Seq<Seq<char>>,
    message: Seq<char>,
    validate_cmd: Option<Seq<char>>,
) -> Seq<Seq<char>> {
    let rest = split_ws(base_command).drop_first();
    let base = rest + seq!["--chat-history-file"@, chat_history] + files + seq![
        "--message"@,
        message,
    ];
    match validate_cmd {
        Some(c) => base + seq!["--test-cmd"@, c],
        None => base,
    }
}

/// The program and arguments of an aider run. The command must hold a word.
pub fn aider_invocation(
    base_command: &str,
    chat_history: &str,
    files: Vec<String>,
    message: &str,
    validate_cmd: Option<String>,
) -> (r: (String, Vec<String>))
    requires
        split_ws(base_command@).len() > 0,
    ensures
        r.0@ == split_ws(base_command@)[0],
        views(r.1@) == aider_args_spec(
            base_command@,
            chat_history@,
            views(files@),
            message@,
            match validate_cmd {
                Some(c) => Some(c@),
                None => None,
            },
        ),
{
    let mut args = split_whitespace(base_command);
    let ghost words = views(args@);
    let command_name = args.remove(0);
    proof {
        assert(views(args@) =~= words.drop_first());
    }
    let ghost rest = views(args@);
    args.push(crate::text::owned("--chat-history-file"));
    args.push(crate::text::owned(chat_history));
    let ghost head = views(args@);
    let mut files = files;
    let ghost fv = views(files@);
    args.append(&mut files);
    args.push(crate::text::owned("--message"));
    args.push(crate::text::owned(message));
    let ghost base = views(args@);
    proof {
        assert(head =~= rest + seq!["--chat-history-file"@, chat_history@]);
        assert(base =~= head + fv + seq!["--message"@, message@]);
    }
    match validate_cmd {
        Some(cmd) => {
            args.push(crate::text::owned("--test-cmd"));
            args.push(cmd);
            proof {
                assert(views(args@) =~= base + seq!["--test-cmd"@, cmd@]);
            }
        },
        None => {},
    }
    (command_name, args)
}

/// The aider command, from the value of `AIDER_COMMAND`, which must be set.
pub fn aider_command(value: Option<String>) -> (r: Result<String, Error>)
    ensures
        value is None ==> (r matches Err(e) && e@ == (
            ErrorKind::Config,
            "AIDER_COMMAND environment variable not set."@,
        )),
        value matches Some(v) ==> (r matches Ok(c) && c@ == v@),
{
    match value {
        Some(v) => Ok(v),
        None => Err(
            Error::Config(crate::text::owned("AIDER_COMMAND environment variable not set.")),
        ),
    }
}

/// What an aider run gives: in auto mode its exit and captured output; an
/// interactive session (attached to the terminal, nothing captured) succeeds
/// when it exits well and is an error otherwise, with its status as
/// displayed.
pub fn aider_outcome(auto: bool, success: bool, status: &str, stdout: String, stderr: String) -> (r:
    Result<AiderRunResult, Error>)
    ensures
        auto ==> (r matches Ok(res) && res.success == success && res.stdout@ == stdout@
            && res.stderr@ == stderr@),
        (!auto && success) ==> (r matches Ok(res) && res.success && res.stdout@.len() == 0
            && res.stderr@.len() == 0),
        (!auto && !success) ==> (r matches Err(e) && e@ == (
            ErrorKind::ToolFailed,
            "aider exited with non-zero status: "@ + status@,
        )),
{
    if auto {
        Ok(AiderRunResult { success, stdout, stderr })
    } else if success {
        Ok(AiderRunResult { success: true, stdout: String::new(), stderr: String::new() })
    } else {
        Err(interactive_failure(status))
    }
}

/// The error of an interactive aider session that ended with a failure
/// status, from the status as displayed.
pub fn interactive_failure(status: &str) -> (e: Error)
    ensures
        e@ == (ErrorKind::ToolFailed, "aider exited with non-zero status: "@ + status@),
{
    Error::ToolFailed(crate::text::cat("aider exited with non-zero status: ", status))
}

} // verus!
