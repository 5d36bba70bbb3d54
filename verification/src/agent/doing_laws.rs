//! What changing files, running commands and telling the model of it come to.

use vstd::prelude::*;

use crate::agent::call::{call_views, calls_in, CallView};
use crate::agent::changing::{
    bytes_note, changed, deletion, deletion_outcome, file_parent, mkdir_complaint, move_complaint,
    move_note, move_target, patch_complaint, patched_text, patching, places_patched, Deletion,
};
use crate::agent::looking::{
    files_wanted, is_wanted, list_next, list_started, needle_of, pattern_meant,
};
use crate::agent::entries::{in_order, EntryView};
use crate::agent::looking::{
    dirs_in, entry_hits, glob_hits, glob_is_pattern, grep_complaint, hit_lines, matched, matching,
    slashed, walk_fed, walk_next, walk_started, ListView, WalkView,
};
use crate::agent::label::came_to_nothing;
use crate::agent::outcome::{
    cut, error_view, ok_view, prompt_parts, result_block, result_blocks, results_prompt,
    streams_merged, tail, ResultView,
};
use crate::agent::path::{parent_of, path_text, shown_path, PathView, Workspace};
use crate::agent::running::{
    add_plan, bash_plan, bash_view, check_view, chosen_command, code_text, commit_plan, diff_args,
    fitting_command, git_view, git_word, lint_command, no_command_view, outcome_view, status_plan,
    test_command, waiting, Check, OutcomeView, ProjectFiles,
};
use crate::agent::sessions::{
    end_mark, is_session_command, opt_code_text, session_complaint, session_output_view,
    session_reply, session_run_view, session_script, session_shell, session_state, session_step,
    shell_named, since, start_mark, started_view, SessionCommand, SessionEndView,
};
use crate::agent::turn::{
    asked_again, calls_to_run, first_ask, is_step_after, may_ask, AgentTurnRequest, TurnStep,
};
use crate::agent::xml::{call_blocks, cdata_escaped, escaped};
use crate::json::opt_json;
use crate::letter::lower;
use crate::lines::joined;
use crate::number::{decimal, parsed_i32, signed_decimal};
use crate::search::{contains, find, lemma_find, lemma_find_at, occurs_at, starts};
use crate::text::{blank, opt_view, trimmed};
use crate::text_laws::{is_first_at, is_free_of};

verus! {

proof fn lemma_is_contained(front: Seq<char>, part: Seq<char>, back: Seq<char>)
    ensures
        contains(front + part + back, part),
{
    let s = front + part + back;
    let n = front.len() as int;
    assert(s.subrange(n, n + part.len()) =~= part);
    assert(occurs_at(s, part, n));
    lemma_find(s, part);
}

// ---------------------------------------------------------------------------
// Changing
// ---------------------------------------------------------------------------

/// A patch is refused exactly where the text that it looks for is not in the file.
pub proof fn law_patch_needs_its_text(
    shown: Seq<char>,
    content: Seq<char>,
    search: Seq<char>,
    with: Seq<char>,
    all: bool,
)
    requires
        search.len() > 0,
    ensures
        patching(shown, content, search, with, all) is Ok <==> contains(content, search),
        patching(shown, content, search, with, all) matches Ok(done) ==> starts(
            done.1,
            "applied patch to "@ + shown,
        ),
{
    lemma_find(content, search);
    if let Ok(done) = patching(shown, content, search, with, all) {
        let front = "applied patch to "@ + shown;
        assert(done.1.take(front.len() as int) =~= front);
    }
}

/// A patch of one place changes the first place where its text stands: what stands before and behind
/// it stays.
pub proof fn law_first_place_is_patched(
    shown: Seq<char>,
    before: Seq<char>,
    search: Seq<char>,
    behind: Seq<char>,
    with: Seq<char>,
)
    requires
        search.len() > 0,
        forall|j: int| 0 <= j < before.len() ==> !occurs_at(before + search + behind, search, j),
    ensures
        patching(shown, before + search + behind, search, with, false) matches Ok(done) && done.0
            == before + with + behind,
{
    let s = before + search + behind;
    let n = before.len() as int;
    assert(s.subrange(n, n + search.len()) =~= search);
    lemma_find_at(s, search, n);
    assert(s.take(n) =~= before);
    assert(s.skip(n + search.len()) =~= behind);
}

/// A patch of every place changes the first one and then those behind it; where the text no longer
/// stands, nothing changes.
pub proof fn law_every_place_is_patched(
    before: Seq<char>,
    search: Seq<char>,
    behind: Seq<char>,
    with: Seq<char>,
)
    requires
        search.len() > 0,
        forall|j: int| 0 <= j < before.len() ==> !occurs_at(before + search + behind, search, j),
    ensures
        patched_text(before + search + behind, search, with, true) == before + with + patched_text(
            behind,
            search,
            with,
            true,
        ),
        places_patched(before + search + behind, search, true) == 1 + places_patched(
            behind,
            search,
            true,
        ),
        !contains(behind, search) ==> patched_text(behind, search, with, true) == behind
            && places_patched(behind, search, true) == 0,
{
    let s = before + search + behind;
    let n = before.len() as int;
    assert(s.subrange(n, n + search.len()) =~= search);
    lemma_find_at(s, search, n);
    assert(s.take(n) =~= before);
    assert(s.skip(n + search.len()) =~= behind);
}

/// A directory is never patched, and neither is anything for nothing; every other file may be.
pub proof fn law_what_may_be_patched(path: PathView, root: PathView, is_dir: bool, search: Seq<char>)
    ensures
        patch_complaint(path, root, is_dir, search) is None <==> !is_dir && search.len() > 0,
{
}

/// A file is written into the directory that it lies in; a directory is not written to.
pub proof fn law_files_lie_in_directories(path: PathView, root: PathView, is_dir: bool)
    ensures
        is_dir ==> file_parent(path, root, is_dir) is Err,
        !is_dir && path.segments.len() > 0 ==> (file_parent(path, root, is_dir) matches Ok(parent)
            && parent.absolute == path.absolute && parent.segments == path.segments.drop_last()),
        path.segments.len() == 0 ==> file_parent(path, root, is_dir) is Err,
{
}

/// A directory is created unless something else is there; the workspace itself is not moved, and
/// nothing is moved to where something is.
pub proof fn law_what_may_be_created_and_moved(
    path: PathView,
    root: PathView,
    exists_there: bool,
    is_dir: bool,
)
    ensures
        mkdir_complaint(path, exists_there, is_dir) is Some <==> exists_there && !is_dir,
        move_complaint(path, root) is Some <==> path == root,
        exists_there ==> move_target(path, exists_there) is Err,
        !exists_there && path.segments.len() > 0 ==> (move_target(path, exists_there) matches Ok(parent)
            && Some(parent) == parent_of(path)),
{
}

/// The workspace itself is never deleted; a file is deleted as one, and a directory with what lies in
/// it only where that was asked for.
pub proof fn law_what_may_be_deleted(
    target: PathView,
    root: PathView,
    is_file: bool,
    is_dir: bool,
    recursive: bool,
)
    ensures
        target == root ==> deletion(target, root, is_file, is_dir, recursive) is Err,
        deletion(target, root, is_file, is_dir, recursive) matches Ok(how) ==> {
            &&& how is File <==> is_file
            &&& how is WholeDirectory ==> is_dir && recursive
            &&& how is EmptyDirectory ==> is_dir && !recursive
        },
        target != root && (is_file || is_dir) ==> deletion(target, root, is_file, is_dir, recursive)
            is Ok,
        !is_file && !is_dir ==> deletion(target, root, is_file, is_dir, recursive) is Err,
{
}

/// A deletion is told as done exactly where it was, with the path that it was done to.
pub proof fn law_deletion_is_told(target: PathView, root: PathView, how: Deletion, done: bool)
    ensures
        deletion_outcome(target, root, how, done) is Ok <==> done,
        done && how is File ==> deletion_outcome(target, root, how, done) == Ok::<
            Seq<char>,
            Seq<char>,
        >("deleted file "@ + shown_path(target, root)),
        done && !(how is File) ==> deletion_outcome(target, root, how, done) == Ok::<
            Seq<char>,
            Seq<char>,
        >("deleted directory "@ + shown_path(target, root)),
{
}

/// What was done to a file is told with its number of bytes, and a move with both its ends.
pub proof fn law_changes_are_told(content: Seq<char>, from: Seq<char>, to: Seq<char>)
    requires
        vstd::utf8::encode_utf8(content).len() <= usize::MAX,
    ensures
        bytes_note("wrote "@, content, to) == "wrote "@ + decimal(
            vstd::utf8::encode_utf8(content).len(),
        ) + " bytes to "@ + to,
        bytes_note("appended "@, content, to) == "appended "@ + decimal(
            vstd::utf8::encode_utf8(content).len(),
        ) + " bytes to "@ + to,
        move_note(from, to) == "moved "@ + from + " -> "@ + to,
{
}

/// A change that was made is given back as such, and what stopped it as an error.
pub proof fn law_changes_are_given_back(
    tool: Seq<char>,
    failed: Seq<char>,
    summary: Seq<char>,
    message: Seq<char>,
)
    requires
        message.len() <= 24_000,
    ensures
        changed(tool, failed, Ok(summary)).tool == tool,
        changed(tool, failed, Ok(summary)).status == "ok"@,
        changed(tool, failed, Ok(summary)).summary == summary,
        changed(tool, failed, Err(message)).tool == tool,
        changed(tool, failed, Err(message)).status == "error"@,
        changed(tool, failed, Err(message)).summary == failed,
        changed(tool, failed, Err(message)).output == message,
{
}

// ---------------------------------------------------------------------------
// Looking
// ---------------------------------------------------------------------------

/// A search that minds case looks for what was asked for, without the spaces around it; another one
/// looks for it in small letters. It goes through the files that the pattern matches, or all.
pub proof fn law_search_looks_for_the_query(query: Seq<char>, only_in: Seq<char>, shown: Seq<char>)
    ensures
        needle_of(query, true) == trimmed(query),
        needle_of(query, false) == lower(trimmed(query)),
        files_wanted(None) is None,
        blank(only_in) ==> files_wanted(Some(only_in)) is None,
        !blank(only_in) ==> files_wanted(Some(only_in)) == Some(trimmed(only_in)),
        is_wanted(None, shown),
        is_wanted(Some(only_in), shown) <==> glob_hits(only_in, slashed(shown)),
{
}

/// A pattern is taken without the spaces around it, and refused where it is none.
pub proof fn law_patterns_are_checked(pattern: Seq<char>)
    ensures
        pattern_meant(pattern) is Ok <==> !blank(pattern) && glob_is_pattern(trimmed(pattern)),
        pattern_meant(pattern) matches Ok(meant) ==> meant == trimmed(pattern),
{
}

/// A listing reads the directory that was asked for first, and then those that it found, in the order
/// in which it found them; it stops where it is full.
pub proof fn law_listing_reads_in_order(state: ListView, dir: PathView, recursive: bool, max: nat)
    ensures
        list_next(list_started(dir, recursive, max)).0 == Some(dir),
        list_next(list_next(list_started(dir, recursive, max)).1).0 is None,
        state.truncated ==> list_next(state) == (None::<PathView>, state),
        !state.truncated && state.queue.len() > 0 ==> list_next(state).0 == Some(state.queue[0])
            && list_next(state).1.queue.len() == state.queue.len() - 1 && list_next(state).1.lines
            == state.lines,
        !state.truncated && state.queue.len() > 1 ==> list_next(list_next(state).1).0 == Some(
            state.queue[1],
        ),
        list_started(dir, recursive, max).recursive == recursive,
        list_started(dir, recursive, max).max_entries == max,
        list_started(dir, recursive, max).lines.len() == 0,
{
}

// ---------------------------------------------------------------------------
// Running
// ---------------------------------------------------------------------------

/// A command runs until it ends by itself or its time is up, which is between one second and two
/// minutes.
pub proof fn law_commands_end_in_time(elapsed: nat, timeout: nat)
    ensures
        waiting(true, elapsed, timeout) is Ended,
        1 <= timeout <= 120 ==> (waiting(false, elapsed, timeout) is Stop <==> elapsed >= timeout),
        elapsed >= 120 ==> waiting(false, elapsed, timeout) is Stop,
        elapsed == 0 ==> waiting(false, elapsed, timeout) is Again,
        !(waiting(false, elapsed, timeout) is Ended),
{
}

/// A command has succeeded exactly where it ended in time with code 0; its output is that of its two
/// streams.
pub proof fn law_success_is_code_zero(
    timed_out: bool,
    code: Option<i32>,
    stdout: Seq<char>,
    stderr: Seq<char>,
)
    ensures
        outcome_view(timed_out, code, stdout, stderr).success <==> !timed_out && code == Some(0i32),
        outcome_view(timed_out, code, stdout, stderr).timed_out == timed_out,
        outcome_view(timed_out, code, stdout, stderr).exit_code == code,
        outcome_view(timed_out, code, stdout, stderr).output == streams_merged(stdout, stderr),
{
}

/// Both streams of a command are shown, each under its name and the standard output first; a stream of
/// spaces is left out.
pub proof fn law_both_streams_are_shown(stdout: Seq<char>, stderr: Seq<char>)
    ensures
        blank(stdout) && blank(stderr) ==> streams_merged(stdout, stderr) == "(no output)"@,
        !blank(stdout) ==> starts(streams_merged(stdout, stderr), "stdout:\n"@ + stdout),
        blank(stdout) && !blank(stderr) ==> starts(
            streams_merged(stdout, stderr),
            "stderr:\n"@ + stderr,
        ),
        !blank(stderr) ==> contains(streams_merged(stdout, stderr), "stderr:\n"@ + stderr),
        !blank(stdout) && blank(stderr) && stdout.last() == '\n' ==> streams_merged(stdout, stderr)
            == "stdout:\n"@ + stdout,
        !blank(stdout) && blank(stderr) && stdout.last() != '\n' ==> streams_merged(stdout, stderr)
            == "stdout:\n"@ + stdout + "\n"@,
{
    reveal_strlit("");
    let all = streams_merged(stdout, stderr);
    let out = "stdout:\n"@ + stdout;
    let err = "stderr:\n"@ + stderr;
    if !blank(stdout) {
        assert(all.take(out.len() as int) =~= out);
    }
    if blank(stdout) && !blank(stderr) {
        assert(all.take(err.len() as int) =~= err);
    }
    if !blank(stderr) {
        let front = if blank(stdout) {
            Seq::<char>::empty()
        } else {
            crate::agent::outcome::stream_part("stdout:\n"@, stdout) + "\n"@
        };
        let back = if stderr.last() == '\n' {
            Seq::<char>::empty()
        } else {
            "\n"@
        };
        assert(all =~= front + err + back);
        lemma_is_contained(front, err, back);
    }
}

/// A line for the shell is run by `bash`, as it was given but for the spaces around it, and no longer
/// than it may.
pub proof fn law_shell_runs_the_line(command: Seq<char>, timeout: nat)
    ensures
        bash_plan(command, timeout) is None <==> blank(command),
        bash_plan(command, timeout) matches Some(plan) ==> {
            &&& plan.program == "bash"@
            &&& plan.args.len() == 2
            &&& plan.args[0] == "-lc"@
            &&& plan.args[1] == trimmed(command)
            &&& 1 <= timeout <= 120 ==> plan.timeout_secs == timeout
            &&& 1 <= plan.timeout_secs <= 120
        },
{
}

/// What the shell tool gives back is an error exactly where its command did not succeed, and holds
/// what the command wrote.
pub proof fn law_shell_tells_how_it_went(outcome: OutcomeView, timeout: nat, message: Seq<char>)
    requires
        outcome.output.len() <= 24_000,
        message.len() <= 24_000,
        outcome.success ==> !outcome.timed_out,
    ensures
        bash_view(Ok(outcome), timeout).tool == "bash"@,
        bash_view(Ok(outcome), timeout).output == outcome.output,
        outcome.success ==> bash_view(Ok(outcome), timeout).status == "ok"@ && bash_view(
            Ok(outcome),
            timeout,
        ).summary == "bash exited with code "@ + code_text(outcome.exit_code),
        !outcome.success ==> bash_view(Ok(outcome), timeout).status == "error"@,
        outcome.timed_out && 1 <= timeout <= 120 ==> bash_view(Ok(outcome), timeout).summary
            == "bash timed out after "@ + decimal(timeout) + "s"@,
        !outcome.success && !outcome.timed_out ==> bash_view(Ok(outcome), timeout).summary
            == "bash failed with code "@ + code_text(outcome.exit_code),
        bash_view(Err(message), timeout).status == "error"@,
        bash_view(Err(message), timeout).output == message,
{
}

/// A git tool tells the same under its own name.
pub proof fn law_git_tells_how_it_went(
    call: CallView,
    outcome: OutcomeView,
    timeout: nat,
    message: Seq<char>,
)
    requires
        outcome.output.len() <= 24_000,
        message.len() <= 24_000,
        outcome.success ==> !outcome.timed_out,
    ensures
        git_view(call, Ok(outcome), timeout).output == outcome.output,
        outcome.success ==> git_view(call, Ok(outcome), timeout).status == "ok"@,
        !outcome.success ==> git_view(call, Ok(outcome), timeout).status == "error"@,
        git_view(call, Err(message), timeout).status == "error"@,
        git_view(call, Err(message), timeout).output == message,
        call is GitStatus ==> git_view(call, Ok(outcome), timeout).tool == "git_status"@,
        call is GitDiff ==> git_view(call, Ok(outcome), timeout).tool == "git_diff"@,
        call is GitAdd ==> git_view(call, Ok(outcome), timeout).tool == "git_add"@,
        call is GitCommit ==> git_view(call, Ok(outcome), timeout).tool == "git_commit"@,
        outcome.timed_out ==> git_view(call, Ok(outcome), timeout).summary
            == "git command timed out after "@ + decimal(timeout) + "s"@,
{
}

/// The command that was given goes before the one that fits the project; one of spaces counts as none.
pub proof fn law_given_command_goes_first(given: Seq<char>, fits: Option<Seq<char>>)
    ensures
        !blank(given) ==> chosen_command(Some(given), fits) == Some(trimmed(given)),
        blank(given) ==> chosen_command(Some(given), fits) == fits,
        chosen_command(None, fits) == fits,
{
}

/// Each kind of project has its own commands to test it and to lint it; a Rust project goes before a
/// JavaScript project, and that before a Python project.
pub proof fn law_projects_have_their_commands(files: ProjectFiles)
    ensures
        fitting_command(Check::Test, files) == test_command(files),
        fitting_command(Check::Lint, files) == lint_command(files),
        files.cargo_toml ==> test_command(files) == Some("cargo test -q"@) && lint_command(files)
            == Some("cargo clippy --all-targets --all-features -- -D warnings"@),
        !files.cargo_toml && files.package_json ==> test_command(files) == Some(
            "npm test --silent"@,
        ) && lint_command(files) == Some("npm run lint --silent"@),
        !files.cargo_toml && !files.package_json && files.pyproject_toml ==> test_command(files)
            == Some("pytest -q"@) && lint_command(files) == Some("ruff check ."@),
        !files.cargo_toml && !files.package_json && !files.pyproject_toml && files.pytest_ini
            ==> test_command(files) == Some("pytest -q"@) && lint_command(files) is None,
        !files.cargo_toml && !files.package_json && !files.pyproject_toml && !files.pytest_ini
            ==> test_command(files) is None && lint_command(files) is None,
{
}

/// A check gives back what the shell gave, under its own name, and tells whether its command
/// succeeded.
pub proof fn law_check_tells_how_it_went(check: Check, command: Seq<char>, result: ResultView)
    ensures
        check_view(check, command, result).status == result.status,
        check_view(check, command, result).output == result.output,
        check is Test ==> check_view(check, command, result).tool == "run_test"@,
        check is Lint ==> check_view(check, command, result).tool == "run_lint"@,
        check is Test && result.status == "ok"@ ==> check_view(check, command, result).summary
            == "test"@ + " command succeeded: "@ + command,
        check is Test && result.status != "ok"@ ==> check_view(check, command, result).summary
            == "test"@ + " command failed: "@ + command,
        check is Lint && result.status == "ok"@ ==> check_view(check, command, result).summary
            == "lint"@ + " command succeeded: "@ + command,
        check is Lint && result.status != "ok"@ ==> check_view(check, command, result).summary
            == "lint"@ + " command failed: "@ + command,
{
}

/// The arguments of a command are exactly these.
pub open spec fn has_args(args: Seq<Seq<char>>, wanted: Seq<Seq<char>>) -> bool {
    args.len() == wanted.len() && forall|i: int| 0 <= i < args.len() ==> #[trigger] args[i] == wanted[i]
}

/// Each git tool runs its own git command: the state in short or in full, the differences that are
/// staged or not and of a path or all, what is added, and a commit with its message.
pub proof fn law_git_runs_what_was_asked(path: Seq<char>, message: Seq<char>)
    ensures
        status_plan(true).program == "git"@,
        has_args(status_plan(true).args, seq!["status"@, "--short"@, "--branch"@]),
        has_args(status_plan(false).args, seq!["status"@]),
        has_args(diff_args(false, None), seq!["diff"@]),
        has_args(diff_args(true, None), seq!["diff"@, "--staged"@]),
        has_args(diff_args(false, Some(path)), seq!["diff"@, "--"@, path]),
        has_args(diff_args(true, Some(path)), seq!["diff"@, "--staged"@, "--"@, path]),
        add_plan(Some(path), true) matches Ok(plan) && has_args(plan.args, seq!["add"@, "-A"@]),
        add_plan(Some(path), false) matches Ok(plan) && has_args(plan.args, seq!["add"@, path])
            && plan.program == "git"@,
        add_plan(None, true) is Ok,
        add_plan(None, false) is Err,
        blank(message) ==> commit_plan(message) is Err,
        !blank(message) ==> (commit_plan(message) matches Ok(plan) && has_args(
            plan.args,
            seq!["commit"@, "-m"@, trimmed(message)],
        ) && plan.program == "git"@),
{
}

// ---------------------------------------------------------------------------
// Sessions
// ---------------------------------------------------------------------------

/// A session runs the shell that was asked for, or `bash` where none was.
pub proof fn law_session_runs_its_shell(shell: Seq<char>)
    ensures
        blank(shell) ==> shell_named(shell) == "bash"@,
        !blank(shell) ==> shell_named(shell) == trimmed(shell),
{
}

/// A command in a session is put between its markers, which differ from each other and carry the same
/// stamp; the exit code stands behind the second one.
pub proof fn law_session_marks_its_command(command: Seq<char>, marker: Seq<char>)
    ensures
        start_mark(marker) == "__NANOGPT_START_"@ + marker + "__"@,
        end_mark(marker) == "__NANOGPT_END_"@ + marker + "__:"@,
        session_script(command, marker) == "printf '%s\\n' '"@ + start_mark(marker) + "'\n"@ + trimmed(
            command,
        ) + "\n__ec=$?\nprintf '%s%s\\n' '"@ + end_mark(marker) + "' \"$__ec\"\n"@,
{
}

/// A session must be named, and a command must be given, before it runs.
pub proof fn law_session_calls_are_checked(id: nat, command: Seq<char>)
    ensures
        session_complaint(id, command) is None <==> id != 0 && !blank(command),
{
}

/// What came in since a point is what stands behind it.
pub proof fn law_only_new_output_counts(before: Seq<char>, new: Seq<char>, n: nat)
    ensures
        since(before + new, before.len()) == new,
        n > before.len() ==> since(before, n).len() == 0,
{
    assert((before + new).skip(before.len() as int) =~= new);
}

/// A command in a session ends as it went: out of time, with its session, or with its own code; until
/// then it runs.
pub proof fn law_session_tells_how_it_went(
    c: SessionCommand,
    elapsed: nat,
    code: Option<i32>,
    stdout: Seq<char>,
    exit: int,
    stderr: Seq<char>,
)
    ensures
        elapsed >= c.timeout_secs ==> (session_step(c, elapsed, None, None, stderr) matches Some(end)
            && end.failed && end.stop && end.summary == "session "@ + decimal(c.session_id as nat)
            + " command timed out after "@ + decimal(c.timeout_secs as nat) + "s"@),
        elapsed < c.timeout_secs ==> session_step(c, elapsed, None, None, stderr) is None,
        elapsed < c.timeout_secs ==> (session_step(c, elapsed, Some(code), None, stderr) matches Some(
            end,
        ) && end.failed && !end.stop),
        elapsed < c.timeout_secs ==> (session_step(c, elapsed, None, Some((stdout, exit)), stderr) matches Some(
            end,
        ) && (end.failed <==> exit != 0) && !end.stop && end.output == streams_merged(stdout, stderr)
            && end.summary == "session "@ + decimal(c.session_id as nat) + " exited with code "@
            + signed_decimal(exit)),
{
}

/// What a session's tool gives back is an error exactly where its command failed.
pub proof fn law_session_result_is_told(end: SessionEndView, message: Seq<char>)
    requires
        end.output.len() <= 24_000,
        message.len() <= 24_000,
    ensures
        session_run_view(Ok(end)).tool == "bash_session_run"@,
        session_run_view(Ok(end)).status == (if end.failed {
            "error"@
        } else {
            "ok"@
        }),
        session_run_view(Ok(end)).summary == end.summary,
        session_run_view(Ok(end)).output == end.output,
        session_run_view(Err(message)).status == "error"@,
        session_run_view(Err(message)).output == message,
{
}

/// The output of a session is shown from its end, and whether it still runs.
pub proof fn law_session_output_is_shown(
    id: nat,
    exited: Option<Option<i32>>,
    stdout: Seq<char>,
    stderr: Seq<char>,
    max: nat,
)
    ensures
        session_output_view(id, exited, stdout, stderr, max).summary == "session "@ + decimal(id)
            + " output ("@ + session_state(exited) + ")"@,
        exited is None <==> session_state(exited) == "running"@,
        max >= 100 && streams_merged(stdout, stderr).len() <= max && !blank(
            streams_merged(stdout, stderr),
        ) ==> session_output_view(id, exited, stdout, stderr, max).output == streams_merged(
            stdout,
            stderr,
        ),
{
    reveal_strlit("running");
    reveal_strlit("exited(");
    if let Some(code) = exited {
        assert(session_state(exited)[0] == 'e');
        assert("running"@[0] == 'r');
    }
}

/// A text that is too long is cut at its end, or at its front where only its end is wanted; one that
/// is not stays.
pub proof fn law_long_texts_are_cut(s: Seq<char>, max: nat, mark: Seq<char>)
    ensures
        s.len() <= max ==> cut(s, max, mark) == s && tail(s, max) == s,
        s.len() > max ==> cut(s, max, mark) == s.take(max as int) + mark && tail(s, max)
            == "...[truncated]\n"@ + s.skip(s.len() - max),
{
}

// ---------------------------------------------------------------------------
// Telling the model
// ---------------------------------------------------------------------------

/// Each result is told by its tool, its status, its summary and its output, each in its own tag.
pub proof fn law_result_is_told(result: ResultView)
    ensures
        contains(result_block(result), "    <tool>"@ + escaped(result.tool) + "</tool>\n"@),
        contains(result_block(result), "    <status>"@ + escaped(result.status) + "</status>\n"@),
        contains(result_block(result), "    <summary>"@ + escaped(result.summary) + "</summary>\n"@),
        contains(
            result_block(result),
            "    <output><![CDATA["@ + cdata_escaped(result.output) + "]]></output>\n"@,
        ),
{
    let a = "    <tool>"@ + escaped(result.tool) + "</tool>\n"@;
    let b = "    <status>"@ + escaped(result.status) + "</status>\n"@;
    let c = "    <summary>"@ + escaped(result.summary) + "</summary>\n"@;
    let d = "    <output><![CDATA["@ + cdata_escaped(result.output) + "]]></output>\n"@;
    let head = "  <tool_result>\n"@;
    let foot = "  </tool_result>\n"@;
    let whole = result_block(result);
    assert(whole == head + a + b + c + (d + foot));
    lemma_part_of_five(head, a, b, c, d, foot);
}

proof fn lemma_part_of_five(
    head: Seq<char>,
    a: Seq<char>,
    b: Seq<char>,
    c: Seq<char>,
    d: Seq<char>,
    foot: Seq<char>,
)
    ensures
        contains(head + a + b + c + (d + foot), a),
        contains(head + a + b + c + (d + foot), b),
        contains(head + a + b + c + (d + foot), c),
        contains(head + a + b + c + (d + foot), d),
{
    let whole = head + a + b + c + (d + foot);
    assert(whole =~= head + a + (b + c + (d + foot)));
    lemma_is_contained(head, a, b + c + (d + foot));
    assert(whole =~= (head + a) + b + (c + (d + foot)));
    lemma_is_contained(head + a, b, c + (d + foot));
    lemma_is_contained(head + a + b, c, d + foot);
    assert(whole =~= (head + a + b + c) + d + foot);
    lemma_is_contained(head + a + b + c, d, foot);
}

/// The model is told of every result, in order.
pub proof fn law_every_result_is_told(results: Seq<ResultView>, result: ResultView)
    ensures
        result_blocks(Seq::empty()).len() == 0,
        result_blocks(results.push(result)) == result_blocks(results) + result_block(result),
        contains(results_prompt(results), result_blocks(results)),
{
    assert(results.push(result).drop_last() =~= results);
    assert(results.push(result).last() == result);
    let blocks = result_blocks(results);
    let said = results_prompt(results);
    let open = "<tool_results>\n"@;
    assert(said.subrange(open.len() as int, open.len() as int + blocks.len()) =~= blocks);
    assert(occurs_at(said, blocks, open.len() as int));
    lemma_find(said, blocks);
}

/// A turn begins with everything that was said so far, in its order, and what the user says now; the
/// settings are those that were asked for.
pub proof fn law_turn_begins_with_what_was_said(
    request: AgentTurnRequest,
    workspace: Workspace,
    i: int,
)
    ensures
        first_ask(request, workspace).messages.len() == request.messages@.len() + 1,
        0 <= i < request.messages@.len() ==> first_ask(request, workspace).messages[i].role
            == request.messages@[i].role@ && first_ask(request, workspace).messages[i].content
            == request.messages@[i].content@,
        first_ask(request, workspace).messages.last().role == "user"@,
        first_ask(request, workspace).messages.last().content == request.user_input@,
        first_ask(request, workspace).model == request.model@,
        first_ask(request, workspace).temperature == opt_json(request.temperature),
        first_ask(request, workspace).top_p == opt_json(request.top_p),
        first_ask(request, workspace).max_tokens == request.max_tokens,
        first_ask(request, workspace).service_tier == opt_view(request.service_tier),
        first_ask(request, workspace).reasoning_effort == opt_view(request.reasoning_effort),
        first_ask(request, workspace).billing_mode == opt_view(request.billing_mode),
        first_ask(request, workspace).provider == opt_view(request.provider),
{
}

/// The agent is told what the user has to say first, where that is more than spaces, and where it
/// works.
pub proof fn law_agent_knows_its_workspace(system: Seq<char>, root: Seq<char>)
    ensures
        prompt_parts(None, root)[0] == "You are an agentic coding assistant. Workspace root: "@ + root
            + "."@,
        !blank(system) ==> prompt_parts(Some(system), root)[0] == trimmed(system) && prompt_parts(
            Some(system),
            root,
        )[1] == "You are an agentic coding assistant. Workspace root: "@ + root + "."@,
        !blank(system) ==> prompt_parts(Some(system), root).skip(1) == prompt_parts(None, root),
        blank(system) ==> prompt_parts(Some(system), root) == prompt_parts(None, root),
{
    if !blank(system) {
        assert(prompt_parts(Some(system), root).skip(1) =~= prompt_parts(None, root));
    }
}

/// The tools that run are the first eight that were called, in their order.
pub proof fn law_first_calls_are_run(answer: Seq<char>, i: int)
    ensures
        calls_in(call_blocks(answer)).len() <= 8 ==> calls_to_run(answer) == calls_in(
            call_blocks(answer),
        ),
        calls_in(call_blocks(answer)).len() > 8 ==> calls_to_run(answer).len() == 8,
        0 <= i < calls_to_run(answer).len() ==> calls_to_run(answer)[i] == calls_in(
            call_blocks(answer),
        )[i],
{
}

/// Once its tools have run, the model is asked again with all that it was asked before, what it
/// answered, and the results; its settings stay. It is asked eight times at most.
pub proof fn law_model_is_asked_again(
    ask: crate::client::ChatRequestView,
    answer: Seq<char>,
    results: Seq<ResultView>,
    step: nat,
)
    ensures
        asked_again(ask, answer, results).messages.len() == ask.messages.len() + 2,
        asked_again(ask, answer, results).messages.take(ask.messages.len() as int) == ask.messages,
        asked_again(ask, answer, results).messages[ask.messages.len() as int].role == "assistant"@,
        asked_again(ask, answer, results).messages[ask.messages.len() as int].content == answer,
        asked_again(ask, answer, results).messages.last().role == "user"@,
        asked_again(ask, answer, results).messages.last().content == results_prompt(results),
        asked_again(ask, answer, results).model == ask.model,
        asked_again(ask, answer, results).system_prompt == ask.system_prompt,
        asked_again(ask, answer, results).temperature == ask.temperature,
        asked_again(ask, answer, results).provider == ask.provider,
        may_ask(step) <==> step < 8,
{
    assert(asked_again(ask, answer, results).messages.take(ask.messages.len() as int)
        =~= ask.messages);
}

/// A turn is over exactly where an answer calls no tool, and the answer is what it comes to; else the
/// tools that are called are run.
pub proof fn law_turn_ends_without_calls(step: TurnStep, answer: Seq<char>, ran: nat)
    requires
        is_step_after(step, answer, ran),
    ensures
        step is Done <==> calls_in(call_blocks(answer)).len() == 0,
        step matches TurnStep::Done(result) ==> result.assistant_message@ == answer
            && result.tool_call_count == ran,
        step matches TurnStep::Run(calls) ==> call_views(calls@) == calls_to_run(answer),
{
}

/// A session is started in a directory only, and is told with its number, its shell and its directory.
pub proof fn law_sessions_start_in_directories(id: nat, shown: Seq<char>, shell: Seq<char>)
    ensures
        session_shell(shown, false, shell) is Err,
        session_shell(shown, true, shell) == Ok::<Seq<char>, Seq<char>>(shell_named(shell)),
        started_view(id, shown, shell).summary == "started shell session "@ + decimal(id) + " in "@
            + shown,
        started_view(id, shown, shell).output == "session_id: "@ + decimal(id) + "\nshell: "@ + shell
            + "\ncwd: "@ + shown,
{
}

/// A walk from a file finds that file and reads nothing; one from a directory reads it, and then every
/// directory that it finds, in the order in which it finds them, and finds all that they hold.
pub proof fn law_walk_finds_everything(
    w: WalkView,
    path: PathView,
    entries: Seq<EntryView>,
    last: EntryView,
)
    ensures
        walk_started(path, true).found.len() == 1 && walk_started(path, true).found[0].path == path,
        walk_next(walk_started(path, true)).0 is None,
        walk_next(walk_started(path, false)).0 == Some(path),
        walk_started(path, false).found.len() == 0,
        w.queue.len() > 0 ==> walk_next(w).0 == Some(w.queue[0]) && walk_next(w).1.queue
            == w.queue.skip(1) && walk_next(w).1.found == w.found,
        w.queue.len() == 0 ==> walk_next(w) == (None::<PathView>, w),
        walk_fed(w, entries).found == w.found + entries,
        walk_fed(w, Seq::empty()).queue == w.queue,
        last.is_dir ==> walk_fed(w, entries.push(last)).queue == walk_fed(w, entries).queue.push(
            last.path,
        ),
        !last.is_dir ==> walk_fed(w, entries.push(last)).queue == walk_fed(w, entries).queue,
{
    assert(entries.push(last).drop_last() =~= entries);
    if last.is_dir {
        assert(w.queue + dirs_in(entries).push(last.path) =~= (w.queue + dirs_in(entries)).push(
            last.path,
        ));
    }
    assert(w.queue + dirs_in(Seq::empty()) =~= w.queue);
    if w.queue.len() > 0 {
        assert(w.queue.drop_first() =~= w.queue.skip(1));
    }
}

/// A command in a session keeps to its session, its time and its markers.
pub proof fn law_session_command_is_kept(
    c: SessionCommand,
    id: nat,
    command: Seq<char>,
    timeout: nat,
    marker: Seq<char>,
)
    requires
        is_session_command(c, id, command, timeout, marker),
    ensures
        c.session_id == id,
        1 <= timeout <= 120 ==> c.timeout_secs == timeout,
        1 <= c.timeout_secs <= 120,
        c.script@ == session_script(command, marker),
        c.start_marker@ == start_mark(marker),
        c.end_prefix@ == end_mark(marker),
{
}

/// A pattern is matched with what was found in its order, whatever the order in which it was found.
pub proof fn law_matches_are_in_order(
    found: Seq<EntryView>,
    pattern: Seq<char>,
    root: PathView,
    max: nat,
)
    ensures
        matched(found, pattern, root, max) == matching(
            hit_lines(in_order(found), entry_hits(in_order(found), pattern, root), root, max),
            pattern,
        ),
{
}

/// A search needs something to look for, and a pattern of files that is one where it is given any.
pub proof fn law_searches_are_checked(query: Seq<char>, only_in: Seq<char>)
    ensures
        grep_complaint(query, None) is Some <==> blank(query),
        grep_complaint(query, Some(only_in)) is Some <==> blank(query) || (!blank(only_in)
            && !glob_is_pattern(trimmed(only_in))),
{
}

/// A check without a command fails under its own name.
pub proof fn law_checks_need_a_command(check: Check)
    ensures
        check is Test ==> no_command_view(check).tool == "run_test"@,
        check is Lint ==> no_command_view(check).tool == "run_lint"@,
        no_command_view(check).status == "error"@,
{
}

/// Each git tool is named by its git command.
pub proof fn law_git_tools_are_named(call: CallView)
    ensures
        call is GitStatus ==> git_word(call) == "status"@,
        call is GitDiff ==> git_word(call) == "diff"@,
        call is GitAdd ==> git_word(call) == "add"@,
        call is GitCommit ==> git_word(call) == "commit"@,
{
}

/// What a tool gives back bears its name and how it went; up to 24,000 characters of its output are
/// kept, and where there are more, that is said behind them.
pub proof fn law_outputs_are_kept(tool: Seq<char>, summary: Seq<char>, output: Seq<char>)
    ensures
        ok_view(tool, summary, output).tool == tool,
        ok_view(tool, summary, output).status == "ok"@,
        ok_view(tool, summary, output).summary == summary,
        error_view(tool, summary, output).tool == tool,
        error_view(tool, summary, output).status == "error"@,
        error_view(tool, summary, output).summary == summary,
        output.len() <= 24_000 ==> ok_view(tool, summary, output).output == output,
        output.len() > 24_000 ==> ok_view(tool, summary, output).output == output.take(24_000)
            + "\n...[truncated]"@,
        error_view(tool, summary, output).output == ok_view(tool, summary, output).output,
{
}

/// The exit code of a command is told as a number; one that was stopped by a signal has none.
pub proof fn law_exit_codes_are_told(code: i32)
    ensures
        code_text(Some(code)) == signed_decimal(code as int),
        code_text(None) == "signal"@,
        opt_code_text(Some(code)) == "Some("@ + signed_decimal(code as int) + ")"@,
        opt_code_text(None) == "None"@,
{
}

/// Looking and adding take half a minute at most, and a commit a minute.
pub proof fn law_git_commands_end_in_time(short: bool, path: Seq<char>, message: Seq<char>, all: bool)
    ensures
        status_plan(short).timeout_secs == 30,
        add_plan(Some(path), all) matches Ok(plan) && plan.timeout_secs == 30,
        !blank(message) ==> (commit_plan(message) matches Ok(plan) && plan.timeout_secs == 60),
{
}

/// A reply is there once its end marker is; without a code that can be read it has failed.
pub proof fn law_replies_end_with_their_marker(
    delta: Seq<char>,
    start: Seq<char>,
    end: Seq<char>,
    front: Seq<char>,
    line: Seq<char>,
)
    requires
        is_first_at(front + end + line, end, front.len() as int),
        is_free_of(line, '\n'),
    ensures
        session_reply(delta, start, end) is Some <==> contains(delta, end),
        session_reply(front + end + line, start, end) matches Some(reply) && {
            &&& parsed_i32(trimmed(line)) matches Some(code) ==> reply.1 == code
            &&& parsed_i32(trimmed(line)) is None ==> reply.1 == 1
        },
{
    let s = front + end + line;
    let n = front.len() as int;
    assert(s.subrange(n, n + end.len()) =~= end);
    lemma_find_at(s, end, n);
    assert(s.skip(n + end.len()) =~= line);
    reveal_strlit("\n");
    lemma_find(line, "\n"@);
    if let Some(k) = find(line, "\n"@) {
        assert(line.subrange(k, k + 1)[0] == "\n"@[0]);
        assert(line[k] == '\n');
    }
}

proof fn lemma_joined_starts(parts: Seq<Seq<char>>, sep: Seq<char>)
    requires
        parts.len() > 0,
    ensures
        starts(joined(parts, sep), parts[0]),
    decreases parts.len(),
{
    if parts.len() > 1 {
        let front = parts.drop_last();
        lemma_joined_starts(front, sep);
        let a = joined(front, sep);
        let all = a + sep + parts.last();
        assert(all.take(parts[0].len() as int) =~= a.take(parts[0].len() as int));
    } else {
        assert(parts[0].take(parts[0].len() as int) =~= parts[0]);
    }
}

/// The agent is told first what the user has to say of it, where that is more than spaces, and else
/// where it works.
pub proof fn law_agent_is_told_first(request: AgentTurnRequest, workspace: Workspace)
    ensures
        request.system_prompt is Some && !blank(request.system_prompt.unwrap()@) ==> (first_ask(
            request,
            workspace,
        ).system_prompt matches Some(prompt) && starts(
            prompt,
            trimmed(request.system_prompt.unwrap()@),
        )),
        request.system_prompt is None ==> (first_ask(request, workspace).system_prompt matches Some(
            prompt,
        ) && starts(
            prompt,
            "You are an agentic coding assistant. Workspace root: "@ + path_text(workspace.root@) + "."@,
        )),
{
    let parts = prompt_parts(opt_view(request.system_prompt), path_text(workspace.root@));
    lemma_joined_starts(parts, "\n\n"@);
}

/// A tool that fails says what it failed to do.
pub proof fn law_failures_are_named(call: CallView)
    ensures
        call is ListFiles ==> came_to_nothing(call) == "failed to list files"@,
        call is GlobFiles ==> came_to_nothing(call) == "failed to glob files"@,
        call is GrepFiles ==> came_to_nothing(call) == "failed to grep files"@,
        call is ReadFile ==> came_to_nothing(call) == "failed to read file"@,
        call is WriteFile ==> came_to_nothing(call) == "failed to write file"@,
        call is AppendFile ==> came_to_nothing(call) == "failed to append file"@,
        call is Bash ==> came_to_nothing(call) == "failed to run bash"@,
        call is Mkdir ==> came_to_nothing(call) == "failed to create directory"@,
        call is MovePath ==> came_to_nothing(call) == "failed to move path"@,
        call is DeletePath ==> came_to_nothing(call) == "failed to delete path"@,
        call is ApplyPatch ==> came_to_nothing(call) == "failed to apply patch"@,
        call is BashSessionStart ==> came_to_nothing(call) == "failed to start shell session"@,
        call is BashSessionRun ==> came_to_nothing(call) == "failed to run session command"@,
        call is BashSessionOutput ==> came_to_nothing(call) == "failed to get session output"@,
        call is BashSessionKill ==> came_to_nothing(call) == "failed to kill session"@,
        call is GitStatus || call is GitDiff || call is GitAdd || call is GitCommit ==> came_to_nothing(
            call,
        ) == "failed to run git command"@,
        call matches CallView::Unknown { requested } ==> came_to_nothing(call)
            == "unknown tool requested: "@ + requested,
{
}

} // verus!
