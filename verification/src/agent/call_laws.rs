//! How the calls in what a model says are found, and what they carry.

use vstd::prelude::*;

use crate::agent::call::{call_in, calls_in, named_call, says_yes, CallView};
use crate::agent::xml::{call_blocks, tag_value};
use crate::letter::lower;
use crate::number::parsed_unsigned;
use crate::search::{contains, find, lemma_find, lemma_find_at, occurs_at, split_at_first};
use crate::text::{blank, trimmed};

verus! {

/// Whether an argument is the text that was given, or `default` where none was.
pub open spec fn given_text(given: Option<Seq<char>>, default: Seq<char>, argument: Seq<char>) -> bool {
    (given matches Some(text) ==> argument == text) && (given is None ==> argument == default)
}

/// Whether an argument is the text that was given, where it is more than spaces.
pub open spec fn given_if_filled(given: Option<Seq<char>>, argument: Option<Seq<char>>) -> bool {
    if given is Some && !blank(given.unwrap()) {
        argument == given
    } else {
        argument is None
    }
}

/// Whether an argument is what was said of it: `default` where nothing was, else whether it was yes.
pub open spec fn given_flag(given: Option<Seq<char>>, default: bool, argument: bool) -> bool {
    &&& given is None ==> argument == default
    &&& given matches Some(text) ==> {
        let word = lower(trimmed(text));
        argument <==> if blank(text) {
            default
        } else {
            word == "true"@ || word == "1"@ || word == "yes"@ || word == "y"@ || word == "on"@
        }
    }
}

/// Whether an argument is the number that was given, brought into its range, or `default` where none
/// was that is not above `max`.
pub open spec fn given_count(
    given: Option<Seq<char>>,
    max: nat,
    default: nat,
    low: nat,
    high: nat,
    argument: nat,
) -> bool {
    let number = match given {
        Some(text) => match parsed_unsigned(trimmed(text), max) {
            Some(n) => n,
            None => default,
        },
        None => default,
    };
    &&& low <= number <= high ==> argument == number
    &&& number < low ==> argument == low
    &&& number > high ==> argument == high
}

/// Whether an argument is the number that was given, where one was.
pub open spec fn given_number(given: Option<Seq<char>>, argument: Option<nat>) -> bool {
    argument == match given {
        Some(text) => parsed_unsigned(trimmed(text), usize::MAX as nat),
        None => None,
    }
}

proof fn lemma_flags(given: Option<Seq<char>>, default: bool)
    ensures
        given_flag(given, default, says_yes(given, default)),
{
}

/// A call of a tool for listing, matching, searching and reading carries each argument that was given
/// under its own tag, and what is taken for granted where none was.
#[verifier::rlimit(50)]
pub proof fn law_looking_calls_carry_their_arguments(block: Seq<char>)
    ensures
        named_call("list_files"@, block) matches CallView::ListFiles { path, recursive, max_entries }
            && given_text(tag_value(block, "path"@), "."@, path)
            && given_flag(tag_value(block, "recursive"@), true, recursive)
            && given_count(tag_value(block, "max_entries"@), usize::MAX as nat, 400, 1, 2000, max_entries),
        named_call("glob_files"@, block) matches CallView::GlobFiles { pattern, base_path, max_results }
            && given_text(tag_value(block, "pattern"@), Seq::empty(), pattern)
            && given_text(tag_value(block, "base_path"@), "."@, base_path)
            && given_count(tag_value(block, "max_results"@), usize::MAX as nat, 800, 1, 10000, max_results),
        named_call("grep_files"@, block) matches CallView::GrepFiles { query, base_path, include_glob, case_sensitive, max_results }
            && given_text(tag_value(block, "query"@), Seq::empty(), query)
            && given_text(tag_value(block, "base_path"@), "."@, base_path)
            && given_if_filled(tag_value(block, "include_glob"@), include_glob)
            && given_flag(tag_value(block, "case_sensitive"@), false, case_sensitive)
            && given_count(tag_value(block, "max_results"@), usize::MAX as nat, 400, 1, 5000, max_results),
        named_call("read_file"@, block) matches CallView::ReadFile { path, start_line, end_line }
            && given_text(tag_value(block, "path"@), Seq::empty(), path)
            && given_number(tag_value(block, "start_line"@), start_line)
            && given_number(tag_value(block, "end_line"@), end_line),
{
    reveal_strlit("list_files");
    reveal_strlit("glob_files");
    reveal_strlit("grep_files");
    reveal_strlit("read_file");
    reveal_strlit("write_file");
    reveal_strlit("append_file");
    reveal_strlit("mkdir");
    reveal_strlit("move_path");
    reveal_strlit("delete_path");
    reveal_strlit("apply_patch");
    reveal_strlit("bash");
    reveal_strlit("run_test");
    reveal_strlit("run_lint");
    reveal_strlit("bash_session_start");
    reveal_strlit("bash_session_run");
    reveal_strlit("bash_session_output");
    reveal_strlit("bash_session_kill");
    reveal_strlit("git_status");
    reveal_strlit("git_diff");
    reveal_strlit("git_add");
    reveal_strlit("git_commit");
    assert("list_files"@.len() == 10);
    assert("glob_files"@.len() == 10);
    assert("grep_files"@.len() == 10);
    assert("read_file"@.len() == 9);
    assert("write_file"@.len() == 10);
    assert("append_file"@.len() == 11);
    assert("mkdir"@.len() == 5);
    assert("move_path"@.len() == 9);
    assert("delete_path"@.len() == 11);
    assert("apply_patch"@.len() == 11);
    assert("bash"@.len() == 4);
    assert("run_test"@.len() == 8);
    assert("run_lint"@.len() == 8);
    assert("bash_session_start"@.len() == 18);
    assert("bash_session_run"@.len() == 16);
    assert("bash_session_output"@.len() == 19);
    assert("bash_session_kill"@.len() == 17);
    assert("git_status"@.len() == 10);
    assert("git_diff"@.len() == 8);
    assert("git_add"@.len() == 7);
    assert("git_commit"@.len() == 10);
    assert("list_files"@[0] != "glob_files"@[0]);
    assert("list_files"@[0] != "grep_files"@[0]);
    assert("list_files"@[0] != "write_file"@[0]);
    assert("list_files"@[0] != "git_status"@[0]);
    assert("list_files"@[0] != "git_commit"@[0]);
    assert("glob_files"@[1] != "grep_files"@[1]);
    assert("glob_files"@[0] != "write_file"@[0]);
    assert("glob_files"@[1] != "git_status"@[1]);
    assert("glob_files"@[1] != "git_commit"@[1]);
    assert("grep_files"@[0] != "write_file"@[0]);
    assert("grep_files"@[1] != "git_status"@[1]);
    assert("grep_files"@[1] != "git_commit"@[1]);
    assert("read_file"@[0] != "move_path"@[0]);
    assert("write_file"@[0] != "git_status"@[0]);
    assert("write_file"@[0] != "git_commit"@[0]);
    assert("append_file"@[0] != "delete_path"@[0]);
    assert("append_file"@[3] != "apply_patch"@[3]);
    assert("delete_path"@[0] != "apply_patch"@[0]);
    assert("run_test"@[4] != "run_lint"@[4]);
    assert("run_test"@[0] != "git_diff"@[0]);
    assert("run_lint"@[0] != "git_diff"@[0]);
    assert("git_status"@[4] != "git_commit"@[4]);
    lemma_flags(tag_value(block, "recursive"@), true);
    lemma_flags(tag_value(block, "case_sensitive"@), false);
}

/// A call of a tool for writing, moving, deleting and patching carries each argument that was given
/// under its own tag, and what is taken for granted where none was.
#[verifier::rlimit(50)]
pub proof fn law_changing_calls_carry_their_arguments(block: Seq<char>)
    ensures
        named_call("write_file"@, block) matches CallView::WriteFile { path, content }
            && given_text(tag_value(block, "path"@), Seq::empty(), path)
            && given_text(tag_value(block, "content"@), Seq::empty(), content),
        named_call("append_file"@, block) matches CallView::AppendFile { path, content }
            && given_text(tag_value(block, "path"@), Seq::empty(), path)
            && given_text(tag_value(block, "content"@), Seq::empty(), content),
        named_call("mkdir"@, block) matches CallView::Mkdir { path }
            && given_text(tag_value(block, "path"@), Seq::empty(), path),
        named_call("move_path"@, block) matches CallView::MovePath { from, to }
            && given_text(tag_value(block, "from"@), Seq::empty(), from)
            && given_text(tag_value(block, "to"@), Seq::empty(), to),
        named_call("delete_path"@, block) matches CallView::DeletePath { path, recursive }
            && given_text(tag_value(block, "path"@), Seq::empty(), path)
            && given_flag(tag_value(block, "recursive"@), false, recursive),
        named_call("apply_patch"@, block) matches CallView::ApplyPatch { path, search, replace, all }
            && given_text(tag_value(block, "path"@), Seq::empty(), path)
            && given_text(tag_value(block, "search"@), Seq::empty(), search)
            && given_text(tag_value(block, "replace"@), Seq::empty(), replace)
            && given_flag(tag_value(block, "all"@), false, all),
{
    reveal_strlit("list_files");
    reveal_strlit("glob_files");
    reveal_strlit("grep_files");
    reveal_strlit("read_file");
    reveal_strlit("write_file");
    reveal_strlit("append_file");
    reveal_strlit("mkdir");
    reveal_strlit("move_path");
    reveal_strlit("delete_path");
    reveal_strlit("apply_patch");
    reveal_strlit("bash");
    reveal_strlit("run_test");
    reveal_strlit("run_lint");
    reveal_strlit("bash_session_start");
    reveal_strlit("bash_session_run");
    reveal_strlit("bash_session_output");
    reveal_strlit("bash_session_kill");
    reveal_strlit("git_status");
    reveal_strlit("git_diff");
    reveal_strlit("git_add");
    reveal_strlit("git_commit");
    assert("list_files"@.len() == 10);
    assert("glob_files"@.len() == 10);
    assert("grep_files"@.len() == 10);
    assert("read_file"@.len() == 9);
    assert("write_file"@.len() == 10);
    assert("append_file"@.len() == 11);
    assert("mkdir"@.len() == 5);
    assert("move_path"@.len() == 9);
    assert("delete_path"@.len() == 11);
    assert("apply_patch"@.len() == 11);
    assert("bash"@.len() == 4);
    assert("run_test"@.len() == 8);
    assert("run_lint"@.len() == 8);
    assert("bash_session_start"@.len() == 18);
    assert("bash_session_run"@.len() == 16);
    assert("bash_session_output"@.len() == 19);
    assert("bash_session_kill"@.len() == 17);
    assert("git_status"@.len() == 10);
    assert("git_diff"@.len() == 8);
    assert("git_add"@.len() == 7);
    assert("git_commit"@.len() == 10);
    assert("list_files"@[0] != "glob_files"@[0]);
    assert("list_files"@[0] != "grep_files"@[0]);
    assert("list_files"@[0] != "write_file"@[0]);
    assert("list_files"@[0] != "git_status"@[0]);
    assert("list_files"@[0] != "git_commit"@[0]);
    assert("glob_files"@[1] != "grep_files"@[1]);
    assert("glob_files"@[0] != "write_file"@[0]);
    assert("glob_files"@[1] != "git_status"@[1]);
    assert("glob_files"@[1] != "git_commit"@[1]);
    assert("grep_files"@[0] != "write_file"@[0]);
    assert("grep_files"@[1] != "git_status"@[1]);
    assert("grep_files"@[1] != "git_commit"@[1]);
    assert("read_file"@[0] != "move_path"@[0]);
    assert("write_file"@[0] != "git_status"@[0]);
    assert("write_file"@[0] != "git_commit"@[0]);
    assert("append_file"@[0] != "delete_path"@[0]);
    assert("append_file"@[3] != "apply_patch"@[3]);
    assert("delete_path"@[0] != "apply_patch"@[0]);
    assert("run_test"@[4] != "run_lint"@[4]);
    assert("run_test"@[0] != "git_diff"@[0]);
    assert("run_lint"@[0] != "git_diff"@[0]);
    assert("git_status"@[4] != "git_commit"@[4]);
    lemma_flags(tag_value(block, "recursive"@), false);
    lemma_flags(tag_value(block, "all"@), false);
}

/// A call of a tool for commands and shell sessions carries each argument that was given under its own
/// tag, and what is taken for granted where none was.
#[verifier::rlimit(50)]
pub proof fn law_running_calls_carry_their_arguments(block: Seq<char>)
    ensures
        named_call("bash"@, block) matches CallView::Bash { command, timeout_secs }
            && given_text(tag_value(block, "command"@), Seq::empty(), command)
            && given_count(tag_value(block, "timeout_secs"@), u64::MAX as nat, 20, 1, 120, timeout_secs),
        named_call("run_test"@, block) matches CallView::RunTest { command, timeout_secs }
            && given_if_filled(tag_value(block, "command"@), command)
            && given_count(tag_value(block, "timeout_secs"@), u64::MAX as nat, 20, 1, 120, timeout_secs),
        named_call("run_lint"@, block) matches CallView::RunLint { command, timeout_secs }
            && given_if_filled(tag_value(block, "command"@), command)
            && given_count(tag_value(block, "timeout_secs"@), u64::MAX as nat, 20, 1, 120, timeout_secs),
        named_call("bash_session_start"@, block) matches CallView::BashSessionStart { path, shell }
            && given_text(tag_value(block, "path"@), "."@, path)
            && given_text(tag_value(block, "shell"@), "bash"@, shell),
        named_call("bash_session_run"@, block) matches CallView::BashSessionRun { session_id, command, timeout_secs }
            && given_count(tag_value(block, "session_id"@), u64::MAX as nat, 0, 0, u64::MAX as nat, session_id)
            && given_text(tag_value(block, "command"@), Seq::empty(), command)
            && given_count(tag_value(block, "timeout_secs"@), u64::MAX as nat, 20, 1, 120, timeout_secs),
        named_call("bash_session_output"@, block) matches CallView::BashSessionOutput { session_id, max_chars }
            && given_count(tag_value(block, "session_id"@), u64::MAX as nat, 0, 0, u64::MAX as nat, session_id)
            && given_count(tag_value(block, "max_chars"@), usize::MAX as nat, 12000, 100, 100000, max_chars),
        named_call("bash_session_kill"@, block) matches CallView::BashSessionKill { session_id }
            && given_count(tag_value(block, "session_id"@), u64::MAX as nat, 0, 0, u64::MAX as nat, session_id),
{
    reveal_strlit("list_files");
    reveal_strlit("glob_files");
    reveal_strlit("grep_files");
    reveal_strlit("read_file");
    reveal_strlit("write_file");
    reveal_strlit("append_file");
    reveal_strlit("mkdir");
    reveal_strlit("move_path");
    reveal_strlit("delete_path");
    reveal_strlit("apply_patch");
    reveal_strlit("bash");
    reveal_strlit("run_test");
    reveal_strlit("run_lint");
    reveal_strlit("bash_session_start");
    reveal_strlit("bash_session_run");
    reveal_strlit("bash_session_output");
    reveal_strlit("bash_session_kill");
    reveal_strlit("git_status");
    reveal_strlit("git_diff");
    reveal_strlit("git_add");
    reveal_strlit("git_commit");
    assert("list_files"@.len() == 10);
    assert("glob_files"@.len() == 10);
    assert("grep_files"@.len() == 10);
    assert("read_file"@.len() == 9);
    assert("write_file"@.len() == 10);
    assert("append_file"@.len() == 11);
    assert("mkdir"@.len() == 5);
    assert("move_path"@.len() == 9);
    assert("delete_path"@.len() == 11);
    assert("apply_patch"@.len() == 11);
    assert("bash"@.len() == 4);
    assert("run_test"@.len() == 8);
    assert("run_lint"@.len() == 8);
    assert("bash_session_start"@.len() == 18);
    assert("bash_session_run"@.len() == 16);
    assert("bash_session_output"@.len() == 19);
    assert("bash_session_kill"@.len() == 17);
    assert("git_status"@.len() == 10);
    assert("git_diff"@.len() == 8);
    assert("git_add"@.len() == 7);
    assert("git_commit"@.len() == 10);
    assert("list_files"@[0] != "glob_files"@[0]);
    assert("list_files"@[0] != "grep_files"@[0]);
    assert("list_files"@[0] != "write_file"@[0]);
    assert("list_files"@[0] != "git_status"@[0]);
    assert("list_files"@[0] != "git_commit"@[0]);
    assert("glob_files"@[1] != "grep_files"@[1]);
    assert("glob_files"@[0] != "write_file"@[0]);
    assert("glob_files"@[1] != "git_status"@[1]);
    assert("glob_files"@[1] != "git_commit"@[1]);
    assert("grep_files"@[0] != "write_file"@[0]);
    assert("grep_files"@[1] != "git_status"@[1]);
    assert("grep_files"@[1] != "git_commit"@[1]);
    assert("read_file"@[0] != "move_path"@[0]);
    assert("write_file"@[0] != "git_status"@[0]);
    assert("write_file"@[0] != "git_commit"@[0]);
    assert("append_file"@[0] != "delete_path"@[0]);
    assert("append_file"@[3] != "apply_patch"@[3]);
    assert("delete_path"@[0] != "apply_patch"@[0]);
    assert("run_test"@[4] != "run_lint"@[4]);
    assert("run_test"@[0] != "git_diff"@[0]);
    assert("run_lint"@[0] != "git_diff"@[0]);
    assert("git_status"@[4] != "git_commit"@[4]);
}

/// A call of a tool for the repository carries each argument that was given under its own tag, and
/// what is taken for granted where none was.
#[verifier::rlimit(50)]
pub proof fn law_git_calls_carry_their_arguments(block: Seq<char>)
    ensures
        named_call("git_status"@, block) matches CallView::GitStatus { short }
            && given_flag(tag_value(block, "short"@), true, short),
        named_call("git_diff"@, block) matches CallView::GitDiff { staged, path }
            && given_flag(tag_value(block, "staged"@), false, staged)
            && given_if_filled(tag_value(block, "path"@), path),
        named_call("git_add"@, block) matches CallView::GitAdd { path, all }
            && given_if_filled(tag_value(block, "path"@), path)
            && given_flag(tag_value(block, "all"@), false, all),
        named_call("git_commit"@, block) matches CallView::GitCommit { message }
            && given_text(tag_value(block, "message"@), Seq::empty(), message),
{
    reveal_strlit("list_files");
    reveal_strlit("glob_files");
    reveal_strlit("grep_files");
    reveal_strlit("read_file");
    reveal_strlit("write_file");
    reveal_strlit("append_file");
    reveal_strlit("mkdir");
    reveal_strlit("move_path");
    reveal_strlit("delete_path");
    reveal_strlit("apply_patch");
    reveal_strlit("bash");
    reveal_strlit("run_test");
    reveal_strlit("run_lint");
    reveal_strlit("bash_session_start");
    reveal_strlit("bash_session_run");
    reveal_strlit("bash_session_output");
    reveal_strlit("bash_session_kill");
    reveal_strlit("git_status");
    reveal_strlit("git_diff");
    reveal_strlit("git_add");
    reveal_strlit("git_commit");
    assert("list_files"@.len() == 10);
    assert("glob_files"@.len() == 10);
    assert("grep_files"@.len() == 10);
    assert("read_file"@.len() == 9);
    assert("write_file"@.len() == 10);
    assert("append_file"@.len() == 11);
    assert("mkdir"@.len() == 5);
    assert("move_path"@.len() == 9);
    assert("delete_path"@.len() == 11);
    assert("apply_patch"@.len() == 11);
    assert("bash"@.len() == 4);
    assert("run_test"@.len() == 8);
    assert("run_lint"@.len() == 8);
    assert("bash_session_start"@.len() == 18);
    assert("bash_session_run"@.len() == 16);
    assert("bash_session_output"@.len() == 19);
    assert("bash_session_kill"@.len() == 17);
    assert("git_status"@.len() == 10);
    assert("git_diff"@.len() == 8);
    assert("git_add"@.len() == 7);
    assert("git_commit"@.len() == 10);
    assert("list_files"@[0] != "glob_files"@[0]);
    assert("list_files"@[0] != "grep_files"@[0]);
    assert("list_files"@[0] != "write_file"@[0]);
    assert("list_files"@[0] != "git_status"@[0]);
    assert("list_files"@[0] != "git_commit"@[0]);
    assert("glob_files"@[1] != "grep_files"@[1]);
    assert("glob_files"@[0] != "write_file"@[0]);
    assert("glob_files"@[1] != "git_status"@[1]);
    assert("glob_files"@[1] != "git_commit"@[1]);
    assert("grep_files"@[0] != "write_file"@[0]);
    assert("grep_files"@[1] != "git_status"@[1]);
    assert("grep_files"@[1] != "git_commit"@[1]);
    assert("read_file"@[0] != "move_path"@[0]);
    assert("write_file"@[0] != "git_status"@[0]);
    assert("write_file"@[0] != "git_commit"@[0]);
    assert("append_file"@[0] != "delete_path"@[0]);
    assert("append_file"@[3] != "apply_patch"@[3]);
    assert("delete_path"@[0] != "apply_patch"@[0]);
    assert("run_test"@[4] != "run_lint"@[4]);
    assert("run_test"@[0] != "git_diff"@[0]);
    assert("run_lint"@[0] != "git_diff"@[0]);
    assert("git_status"@[4] != "git_commit"@[4]);
    lemma_flags(tag_value(block, "short"@), true);
    lemma_flags(tag_value(block, "staged"@), false);
    lemma_flags(tag_value(block, "all"@), false);
}

/// The tool that a call asks for is named under `tool`, or else under `name`; spaces around the name
/// and the case of its letters do not matter.
pub proof fn law_tool_is_named(block: Seq<char>, name: Seq<char>)
    ensures
        tag_value(block, "tool"@) == Some(name) ==> call_in(block) == named_call(
            lower(trimmed(name)),
            block,
        ),
        tag_value(block, "tool"@) is None && tag_value(block, "name"@) == Some(name) ==> call_in(block)
            == named_call(lower(trimmed(name)), block),
{
}

/// A tool that there is not is told by the name that was asked for.
#[verifier::rlimit(50)]
pub proof fn law_other_tools_are_unknown(name: Seq<char>, block: Seq<char>)
    ensures
        named_call(name, block) is Unknown <==> name != "list_files"@ && name != "glob_files"@
            && name != "grep_files"@ && name != "read_file"@ && name != "write_file"@
            && name != "append_file"@ && name != "mkdir"@ && name != "move_path"@
            && name != "delete_path"@ && name != "apply_patch"@ && name != "bash"@
            && name != "run_test"@ && name != "run_lint"@ && name != "bash_session_start"@
            && name != "bash_session_run"@ && name != "bash_session_output"@
            && name != "bash_session_kill"@ && name != "git_status"@ && name != "git_diff"@
            && name != "git_add"@ && name != "git_commit"@,
        named_call(name, block) matches CallView::Unknown { requested } ==> name.len() > 0 ==> requested
            == name,
{
}

proof fn lemma_found_behind(front: Seq<char>, pat: Seq<char>, back: Seq<char>)
    requires
        pat.len() > 0,
        find(front, pat) is None,
        forall|k: int| 0 < k < pat.len() ==> (#[trigger] pat[k]) != pat[0],
    ensures
        split_at_first(front + pat + back, pat) == Some((front, back)),
{
    let s = front + pat + back;
    let n = front.len() as int;
    lemma_find(front, pat);
    assert(s.subrange(n, n + pat.len()) =~= pat);
    assert forall|j: int| 0 <= j < n implies !occurs_at(s, pat, j) by {
        if occurs_at(s, pat, j) {
            if j + pat.len() <= n {
                assert(front.subrange(j, j + pat.len()) =~= s.subrange(j, j + pat.len()));
                assert(occurs_at(front, pat, j));
            } else {
                assert(s.subrange(j, j + pat.len())[n - j] == s[n]);
                assert(s[n] == pat[0]);
            }
        }
    }
    lemma_find_at(s, pat, n);
    assert(s.take(n) =~= front);
    assert(s.skip(n + pat.len()) =~= back);
}

/// A call is what stands between its tags, whatever stands before it, and the calls behind it are
/// found too; where no call begins there is none.
pub proof fn law_calls_are_found(
    before: Seq<char>,
    attributes: Seq<char>,
    inside: Seq<char>,
    behind: Seq<char>,
)
    requires
        !contains(before, "<tool_call"@),
        !contains(attributes, ">"@),
        !contains(inside, "</tool_call>"@),
    ensures
        call_blocks(
            before + "<tool_call"@ + (attributes + ">"@ + (inside + "</tool_call>"@ + behind)),
        ) == seq![inside] + call_blocks(behind),
        call_blocks(before).len() == 0,
{
    reveal_strlit("<tool_call");
    reveal_strlit(">");
    reveal_strlit("</tool_call>");
    lemma_found_behind(inside, "</tool_call>"@, behind);
    lemma_found_behind(attributes, ">"@, inside + "</tool_call>"@ + behind);
    lemma_found_behind(
        before,
        "<tool_call"@,
        attributes + ">"@ + (inside + "</tool_call>"@ + behind),
    );
}

/// The calls in some blocks are those of each block, in their order.
pub proof fn law_calls_stay_in_order(blocks: Seq<Seq<char>>, i: int)
    requires
        0 <= i < blocks.len(),
    ensures
        calls_in(blocks).len() == blocks.len(),
        calls_in(blocks)[i] == call_in(blocks[i]),
{
}

} // verus!
