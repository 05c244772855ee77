use vstd::prelude::*;
use crate::text::str_eq;

verus! {

/// The five operations the dispatcher can be asked for.
#[derive(Clone, Copy, Debug, PartialEq, Eq, Structural)]
pub enum Command {
    RunTestFile,
    RunCliTool,
    ListYamlFiles,
    ReadFile,
    WriteFile,
}

/// Maps an invocation's command name to its operation: each of the
/// five registered names to its command, exactly and case-sensitively,
/// and every other name to nothing.
pub fn parse_command(name: &str) -> (r: Option<Command>)
    ensures
        (r == Some(Command::RunTestFile)) == (name@ == "run_pytest"@),
        (r == Some(Command::RunCliTool)) == (name@ == "run_aptcli"@),
        (r == Some(Command::ListYamlFiles)) == (name@ == "get_test_files"@),
        (r == Some(Command::ReadFile)) == (name@ == "read_yaml_file"@),
        (r == Some(Command::WriteFile)) == (name@ == "write_yaml_file"@),
        (r is None) == (name@ != "run_pytest"@ && name@ != "run_aptcli"@ && name@
            != "get_test_files"@ && name@ != "read_yaml_file"@ && name@ != "write_yaml_file"@),
{
    proof {
        reveal_strlit("run_pytest");
        reveal_strlit("run_aptcli");
        reveal_strlit("get_test_files");
        reveal_strlit("read_yaml_file");
        reveal_strlit("write_yaml_file");
        assert("run_pytest"@[4] != "run_aptcli"@[4]);
        assert("get_test_files"@[0] != "read_yaml_file"@[0]);
    }
    if str_eq(name, "run_pytest") {
        Some(Command::RunTestFile)
    } else if str_eq(name, "run_aptcli") {
        Some(Command::RunCliTool)
    } else if str_eq(name, "get_test_files") {
        Some(Command::ListYamlFiles)
    } else if str_eq(name, "read_yaml_file") {
        Some(Command::ReadFile)
    } else if str_eq(name, "write_yaml_file") {
        Some(Command::WriteFile)
    } else {
        None
    }
}

} // verus!
