use vstd::prelude::*;
use vstd::string::StringExecFns;
use crate::errors::{CmdError, ErrorKind};

verus! {

/// What a completed child process left behind, decoded to text by the
/// shell: its two output streams and its exit code (`None` when the
/// process was ended by a signal).
pub struct CapturedOutput {
    pub stdout: String,
    pub stderr: String,
    pub exit_code: Option<i32>,
}

/// The single success payload of both tool operations: standard
/// output, a newline, standard error.
pub open spec fn combined_output(out: Seq<char>, err: Seq<char>) -> Seq<char> {
    out + seq!['\n'] + err
}

/// Concatenates the two captured streams with a separating newline.
pub fn combine_output(stdout: String, stderr: &str) -> (r: String)
    ensures
        r@ == combined_output(stdout@, stderr@),
{
    proof {
        reveal_strlit("\n");
        assert("\n"@ =~= seq!['\n']);
    }
    let r = stdout.concat("\n").concat(stderr);
    proof {
        assert(r@ =~= combined_output(stdout@, stderr@));
    }
    r
}

pub open spec fn verbose_flag() -> Seq<char> {
    seq!['-', 'v']
}

/// The exact argument list the test runner is invoked with: the test
/// file's path, then the verbosity flag, nothing else.
pub fn test_runner_args(test_file: &str) -> (r: Vec<String>)
    ensures
        r@.len() == 2,
        r@[0]@ == test_file@,
        r@[1]@ == verbose_flag(),
{
    proof {
        reveal_strlit("-v");
        assert("-v"@ =~= verbose_flag());
    }
    let mut args: Vec<String> = Vec::new();
    args.push(test_file.to_owned());
    args.push("-v".to_owned());
    args
}

/// The test runner's executable name.
pub fn test_runner_program() -> (r: String)
    ensures
        r@ == "pytest"@,
{
    "pytest".to_owned()
}

/// The CLI tool's executable name.
pub fn cli_tool_program() -> (r: String)
    ensures
        r@ == "aptcli"@,
{
    "aptcli".to_owned()
}

/// Turns what the shell observed of a spawn attempt into the
/// operation's result. A completed run is a success whose payload is
/// the combined output, whatever the exit code was — a failing test
/// run reports as ordinary text. Only a spawn that never happened
/// (tool missing, permission denied) is an error, and its kind is
/// always `ProcessError`, carrying the OS error text.
pub fn run_tool_result(outcome: Result<CapturedOutput, String>) -> (r: Result<String, CmdError>)
    ensures
        (outcome matches Ok(c) ==> (r matches Ok(s) && s@ == combined_output(
            c.stdout@,
            c.stderr@,
        ))),
        (outcome matches Err(m) ==> (r matches Err(e) && e.kind == ErrorKind::ProcessError
            && e.message == m)),
{
    match outcome {
        Ok(c) => Ok(combine_output(c.stdout, c.stderr.as_str())),
        Err(m) => Err(CmdError::process_error(m)),
    }
}

} // verus!
