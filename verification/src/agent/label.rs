//! What a call of a tool is called, and what is said where it comes to nothing.

use vstd::prelude::*;

use crate::agent::call::{named_call, CallView, ToolCall};
use crate::text::cat2;

verus! {

/// The tool that a call is for, as its results name it.
pub open spec fn tool_called(call: CallView) -> Seq<char> {
    match call {
        CallView::ListFiles { .. } => "list_files"@,
        CallView::GlobFiles { .. } => "glob_files"@,
        CallView::GrepFiles { .. } => "grep_files"@,
        CallView::ReadFile { .. } => "read_file"@,
        CallView::WriteFile { .. } => "write_file"@,
        CallView::AppendFile { .. } => "append_file"@,
        CallView::Bash { .. } => "bash"@,
        CallView::Mkdir { .. } => "mkdir"@,
        CallView::MovePath { .. } => "move_path"@,
        CallView::DeletePath { .. } => "delete_path"@,
        CallView::ApplyPatch { .. } => "apply_patch"@,
        CallView::RunTest { .. } => "run_test"@,
        CallView::RunLint { .. } => "run_lint"@,
        CallView::BashSessionStart { .. } => "bash_session_start"@,
        CallView::BashSessionRun { .. } => "bash_session_run"@,
        CallView::BashSessionOutput { .. } => "bash_session_output"@,
        CallView::BashSessionKill { .. } => "bash_session_kill"@,
        CallView::GitStatus { .. } => "git_status"@,
        CallView::GitDiff { .. } => "git_diff"@,
        CallView::GitAdd { .. } => "git_add"@,
        CallView::GitCommit { .. } => "git_commit"@,
        CallView::Unknown { .. } => "unknown"@,
    }
}

/// The summary of a call that came to nothing.
pub open spec fn came_to_nothing(call: CallView) -> Seq<char> {
    match call {
        CallView::ListFiles { .. } => "failed to list files"@,
        CallView::GlobFiles { .. } => "failed to glob files"@,
        CallView::GrepFiles { .. } => "failed to grep files"@,
        CallView::ReadFile { .. } => "failed to read file"@,
        CallView::WriteFile { .. } => "failed to write file"@,
        CallView::AppendFile { .. } => "failed to append file"@,
        CallView::Bash { .. } => "failed to run bash"@,
        CallView::Mkdir { .. } => "failed to create directory"@,
        CallView::MovePath { .. } => "failed to move path"@,
        CallView::DeletePath { .. } => "failed to delete path"@,
        CallView::ApplyPatch { .. } => "failed to apply patch"@,
        CallView::RunTest { .. } => "failed to choose test command"@,
        CallView::RunLint { .. } => "failed to choose lint command"@,
        CallView::BashSessionStart { .. } => "failed to start shell session"@,
        CallView::BashSessionRun { .. } => "failed to run session command"@,
        CallView::BashSessionOutput { .. } => "failed to get session output"@,
        CallView::BashSessionKill { .. } => "failed to kill session"@,
        CallView::GitStatus { .. } => "failed to run git command"@,
        CallView::GitDiff { .. } => "failed to run git command"@,
        CallView::GitAdd { .. } => "failed to run git command"@,
        CallView::GitCommit { .. } => "failed to run git command"@,
        CallView::Unknown { requested } => "unknown tool requested: "@ + requested,
    }
}

/// The tool that a call is for.
pub fn tool_name(call: &ToolCall) -> (r: &'static str)
    ensures
        r@ == tool_called(call@),
{
    match call {
        ToolCall::ListFiles { .. } => "list_files",
        ToolCall::GlobFiles { .. } => "glob_files",
        ToolCall::GrepFiles { .. } => "grep_files",
        ToolCall::ReadFile { .. } => "read_file",
        ToolCall::WriteFile { .. } => "write_file",
        ToolCall::AppendFile { .. } => "append_file",
        ToolCall::Bash { .. } => "bash",
        ToolCall::Mkdir { .. } => "mkdir",
        ToolCall::MovePath { .. } => "move_path",
        ToolCall::DeletePath { .. } => "delete_path",
        ToolCall::ApplyPatch { .. } => "apply_patch",
        ToolCall::RunTest { .. } => "run_test",
        ToolCall::RunLint { .. } => "run_lint",
        ToolCall::BashSessionStart { .. } => "bash_session_start",
        ToolCall::BashSessionRun { .. } => "bash_session_run",
        ToolCall::BashSessionOutput { .. } => "bash_session_output",
        ToolCall::BashSessionKill { .. } => "bash_session_kill",
        ToolCall::GitStatus { .. } => "git_status",
        ToolCall::GitDiff { .. } => "git_diff",
        ToolCall::GitAdd { .. } => "git_add",
        ToolCall::GitCommit { .. } => "git_commit",
        ToolCall::Unknown { .. } => "unknown",
    }
}

/// The summary of a call that came to nothing.
pub fn failed_summary(call: &ToolCall) -> (r: String)
    ensures
        r@ == came_to_nothing(call@),
{
    match call {
        ToolCall::ListFiles { .. } => "failed to list files".to_owned(),
        ToolCall::GlobFiles { .. } => "failed to glob files".to_owned(),
        ToolCall::GrepFiles { .. } => "failed to grep files".to_owned(),
        ToolCall::ReadFile { .. } => "failed to read file".to_owned(),
        ToolCall::WriteFile { .. } => "failed to write file".to_owned(),
        ToolCall::AppendFile { .. } => "failed to append file".to_owned(),
        ToolCall::Bash { .. } => "failed to run bash".to_owned(),
        ToolCall::Mkdir { .. } => "failed to create directory".to_owned(),
        ToolCall::MovePath { .. } => "failed to move path".to_owned(),
        ToolCall::DeletePath { .. } => "failed to delete path".to_owned(),
        ToolCall::ApplyPatch { .. } => "failed to apply patch".to_owned(),
        ToolCall::RunTest { .. } => "failed to choose test command".to_owned(),
        ToolCall::RunLint { .. } => "failed to choose lint command".to_owned(),
        ToolCall::BashSessionStart { .. } => "failed to start shell session".to_owned(),
        ToolCall::BashSessionRun { .. } => "failed to run session command".to_owned(),
        ToolCall::BashSessionOutput { .. } => "failed to get session output".to_owned(),
        ToolCall::BashSessionKill { .. } => "failed to kill session".to_owned(),
        ToolCall::GitStatus { .. } => "failed to run git command".to_owned(),
        ToolCall::GitDiff { .. } => "failed to run git command".to_owned(),
        ToolCall::GitAdd { .. } => "failed to run git command".to_owned(),
        ToolCall::GitCommit { .. } => "failed to run git command".to_owned(),
        ToolCall::Unknown { requested } => cat2("unknown tool requested: ", requested.as_str()),
    }
}

/// The results of a call bear the name under which its tool was called.
pub proof fn law_results_bear_the_name(name: Seq<char>, block: Seq<char>)
    ensures
        named_call(name, block) is Unknown || tool_called(named_call(name, block)) == name,
{
}

} // verus!
