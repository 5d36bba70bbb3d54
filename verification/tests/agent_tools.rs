use nanogpt_cli::agent::call::{read_named_call, ToolCall};
use nanogpt_cli::agent::changing::{
    appended, apply_patch, check_mkdir, check_move_source, check_move_target, check_patch,
    created_directory, failure, move_failure, moved, plan_deletion, report_deletion, settle_change,
    target_parent, wrote, Deletion,
};
use nanogpt_cli::agent::entries::{sort_entries, Entry};
use nanogpt_cli::agent::label::{failed_summary, tool_name};
use nanogpt_cli::agent::looking::{
    collect_workspace_files, glob_pattern, grep_done, list_done, list_file, read_lines,
    settle_findings, start_grep, tool_glob_files, tool_read_file, write_searching, ListWalk, Walk,
};
use nanogpt_cli::agent::path::{nearest_existing_ancestor, LexPath, Workspace};
use nanogpt_cli::agent::running::{
    bash_result, capture_names, check_result, clamp_timeout, git_add, git_commit, git_diff,
    git_result, git_status, infer_lint_command, infer_test_command, invalid_git_path, plan_bash,
    plan_check, run_outcome, spawn_failure, wait_step, Check, ProjectFiles, WaitStep,
};
use nanogpt_cli::agent::sessions::{
    check_markers, check_session_id, plan_session, poll_session, read_reply, session_command, session_command_marked,
    session_has_exited, session_killed, session_output, session_run_result, session_started,
    text_since, unknown_session, wants_reply,
};

fn workspace() -> Workspace {
    Workspace::new("w", Some("/w"), true).unwrap()
}

fn entry(path: &str, is_dir: bool) -> Entry {
    Entry { path: LexPath::read(path), is_dir, is_file: !is_dir }
}

fn files(cargo: bool, package: bool, pyproject: bool, pytest: bool) -> ProjectFiles {
    ProjectFiles {
        cargo_toml: cargo,
        package_json: package,
        pyproject_toml: pyproject,
        pytest_ini: pytest,
    }
}

#[test]
fn a_workspace_is_a_directory() {
    assert_eq!(
        Workspace::new("w", None, false).err().unwrap(),
        "failed to resolve workspace root w"
    );
    assert_eq!(
        Workspace::new("w", Some("/w"), false).err().unwrap(),
        "workspace root is not a directory: /w"
    );
}

#[test]
fn paths_are_made_plain() {
    let ws = workspace();
    let meant = |p: &str| ws.normalize_user_path(p).unwrap().text();
    assert_eq!(meant(" a/./b/../c "), "/w/a/c");
    assert_eq!(meant("/x//y/"), "/x/y");
    assert_eq!(meant("../../../etc"), "/etc");
    assert_eq!(meant("/"), "/");
    assert_eq!(ws.normalize_user_path("  ").err().unwrap(), "path is required");
    assert_eq!(ws.relative_display(&LexPath::read("/w")), ".");
    assert_eq!(ws.relative_display(&LexPath::read("/w/a/b")), "a/b");
    assert_eq!(ws.relative_display(&LexPath::read("/elsewhere")), "/elsewhere");
}

#[test]
fn nothing_outside_the_workspace_is_read() {
    let ws = workspace();
    let a = LexPath::read("/w/a");
    assert_eq!(
        ws.resolve_for_read(&a, false, None).err().unwrap(),
        "path does not exist: /w/a"
    );
    assert_eq!(ws.resolve_for_read(&a, true, None).err().unwrap(), "failed to resolve /w/a");
    assert_eq!(
        ws.resolve_for_read(&a, true, Some("/etc/passwd")).err().unwrap(),
        "path is outside workspace root /w"
    );
    assert_eq!(ws.resolve_for_read(&a, true, Some("/w/real")).unwrap().text(), "/w/real");
    assert!(ws.ensure_within_root(&LexPath::read("/w2")).is_err());
    assert!(ws.ensure_within_root(&LexPath::read("/w")).is_ok());
}

#[test]
fn nothing_outside_the_workspace_is_written() {
    let ws = workspace();
    let path = LexPath::read("/w/a/b");
    let ancestor = nearest_existing_ancestor(&path, &vec![true, true, false, false]).unwrap();
    assert_eq!(ancestor.path.text(), "/w");
    assert_eq!(ancestor.tail, ["a", "b"]);
    assert_eq!(ws.resolve_for_write(&ancestor, Some("/w")).unwrap().text(), "/w/a/b");
    assert_eq!(
        ws.resolve_for_write(&ancestor, Some("/tmp")).err().unwrap(),
        "path is outside workspace root /w"
    );
    assert_eq!(ws.resolve_for_write(&ancestor, None).err().unwrap(), "failed to resolve /w");
    assert_eq!(
        nearest_existing_ancestor(&path, &vec![false, false, false, false]).err().unwrap(),
        "invalid path /w/a/b"
    );
}

#[test]
fn entries_are_sorted_by_path() {
    let sorted = sort_entries(&vec![entry("/w/b", false), entry("/w/a-b", false), entry("/w/a/z", true)]);
    let paths: Vec<String> = sorted.iter().map(|e| e.path.text()).collect();
    assert_eq!(paths, ["/w/a/z", "/w/a-b", "/w/b"]);
}

#[test]
fn directories_are_listed() {
    let ws = workspace();
    let dir = LexPath::read("/w");
    let mut walk = ListWalk::start(&dir, true, 10);
    assert_eq!(walk.next().unwrap().text(), "/w");
    walk.feed(&ws, &vec![entry("/w/src", true), entry("/w/a.txt", false)]);
    assert_eq!(walk.next().unwrap().text(), "/w/src");
    walk.feed(&ws, &vec![entry("/w/src/m.rs", false)]);
    assert!(walk.next().is_none());
    let found = list_done(&ws, &dir, walk);
    assert_eq!(found.summary, "listed 3 entries from .");
    assert_eq!(found.output, "a.txt\nsrc/\nsrc/m.rs");
    let mut walk = ListWalk::start(&dir, false, 1);
    walk.next();
    walk.feed(&ws, &vec![entry("/w/src", true), entry("/w/a.txt", false)]);
    assert!(walk.next().is_none());
    let found = list_done(&ws, &dir, walk);
    assert_eq!(found.output, "a.txt\n...truncated at 1 entries");
    let empty = list_done(&ws, &dir, ListWalk::start(&dir, true, 5));
    assert_eq!(empty.output, "(no entries)");
    assert_eq!(list_file(&ws, &LexPath::read("/w/a.txt")).output, "a.txt");
}

#[test]
fn files_are_matched_by_pattern() {
    let ws = workspace();
    assert_eq!(glob_pattern("  ").err().unwrap(), "pattern is required");
    assert_eq!(glob_pattern("[").err().unwrap(), "invalid glob pattern: [");
    assert_eq!(glob_pattern(" *.rs ").unwrap(), "*.rs");
    let mut walk = Walk::start(&LexPath::read("/w"), false);
    walk.next();
    walk.feed(&vec![entry("/w/b.rs", false), entry("/w/src", true)]);
    assert_eq!(walk.next().unwrap().text(), "/w/src");
    walk.feed(&vec![entry("/w/src/a.rs", false)]);
    let found = tool_glob_files(&ws, "**/*.rs", &walk.found, 10);
    assert_eq!(found.summary, "matched 2 path(s) for pattern **/*.rs");
    assert_eq!(found.output, "b.rs\nsrc/a.rs");
    let found = tool_glob_files(&ws, "s*", &walk.found, 1);
    assert_eq!(found.output, "src/");
    let none = tool_glob_files(&ws, "*.py", &walk.found, 10);
    assert_eq!((none.summary.as_str(), none.output.as_str()), ("no matches for pattern *.py", "(no matches)"));
    assert_eq!(collect_workspace_files(&walk.found).len(), 2);
    assert_eq!(Walk::start(&LexPath::read("/w/b.rs"), true).found.len(), 1);
}

#[test]
fn files_are_searched() {
    assert_eq!(start_grep(" ", None, false, 5).err().unwrap(), "query is required");
    assert_eq!(
        start_grep("x", Some("["), false, 5).err().unwrap(),
        "invalid include_glob pattern: ["
    );
    let grep = start_grep(" FoO ", Some(" *.rs "), false, 2).unwrap();
    assert!(grep.wants("a.rs"));
    assert!(!grep.wants("a.py"));
    let mut hits = vec![];
    grep.search(&mut hits, "a.rs", "one\nfoo bar\nFOO");
    assert!(grep.is_full(&hits));
    assert_eq!(hits, ["a.rs:2: foo bar", "a.rs:3: FOO"]);
    let exact = start_grep("FoO", None, true, 9).unwrap();
    assert!(exact.wants("anything"));
    let mut none = vec![];
    exact.search(&mut none, "a.rs", "foo");
    assert!(none.is_empty());
    let found = grep_done(" say \"hi\" ", &hits);
    assert_eq!(found.summary, "found 2 match(es) for query \"say \\\"hi\\\"\"");
    assert_eq!(write_searching(&none, "\"q\"").summary, "no matches for query \"q\"");
    assert_eq!(write_searching(&none, "\"q\"").output, "(no matches)");
}

#[test]
fn lines_of_a_file_are_read() {
    let read = |start, end| read_lines("f", "a\nb\nc\n", start, end);
    let all = read(None, None).unwrap();
    assert_eq!(all.summary, "read f (lines 1-3 of 3)");
    assert_eq!(all.output, "    1 | a\n    2 | b\n    3 | c\n");
    assert_eq!(read(Some(2), Some(99)).unwrap().output, "    2 | b\n    3 | c\n");
    assert_eq!(read(Some(0), Some(1)).unwrap().output, "    1 | a\n");
    assert_eq!(read(Some(3), Some(1)).unwrap().summary, "read f (lines 3-3 of 3)");
    assert_eq!(read(Some(4), None).err().unwrap(), "start_line 4 exceeds total lines 3");
    let empty = read_lines("f", "", None, None).unwrap();
    assert_eq!((empty.summary.as_str(), empty.output.as_str()), ("read f (empty file)", "(empty file)\n"));
    let ws = workspace();
    let path = LexPath::read("/w/f");
    assert_eq!(
        tool_read_file(&ws, &path, true, None, None, None).err().unwrap(),
        "f is a directory"
    );
    assert_eq!(
        tool_read_file(&ws, &path, false, None, None, None).err().unwrap(),
        "failed to read /w/f as UTF-8 text"
    );
    let settled = settle_findings(&read_named_call("read_file", ""), Err("why".to_string()));
    assert_eq!((settled.status, settled.summary.as_str(), settled.output.as_str()), ("error", "failed to read file", "why"));
}

#[test]
fn files_are_changed() {
    let ws = workspace();
    let f = LexPath::read("/w/d/f");
    assert_eq!(target_parent(&ws, &f, false).unwrap().text(), "/w/d");
    assert_eq!(target_parent(&ws, &f, true).err().unwrap(), "d/f is a directory");
    assert_eq!(target_parent(&ws, &LexPath::read("/"), false).err().unwrap(), "invalid path /");
    assert_eq!(wrote(&ws, &f, "é"), "wrote 2 bytes to d/f");
    assert_eq!(appended(&ws, &f, "ab"), "appended 2 bytes to d/f");
    assert_eq!(failure("failed to write ", &f), "failed to write /w/d/f");
    assert_eq!(check_mkdir(&f, true, false).unwrap_err(), "/w/d/f exists and is not a directory");
    assert!(check_mkdir(&f, false, false).is_ok());
    assert_eq!(created_directory(&ws, &f), "created directory d/f");
    assert_eq!(
        check_move_source(&ws, &LexPath::read("/w")).unwrap_err(),
        "cannot move workspace root"
    );
    assert_eq!(check_move_target(&f, true).err().unwrap(), "destination already exists: /w/d/f");
    assert_eq!(check_move_target(&f, false).unwrap().text(), "/w/d");
    assert_eq!(move_failure(&f, &LexPath::read("/w/g")), "failed to move /w/d/f -> /w/g");
    assert_eq!(moved(&ws, &f, &LexPath::read("/w/g")), "moved d/f -> g");
    let done = settle_change(&ToolCall::Mkdir { path: "d".to_string() }, Ok("made".to_string()));
    assert_eq!((done.status, done.summary.as_str(), done.output.as_str()), ("ok", "made", "ok"));
}

#[test]
fn deletions_are_planned() {
    let ws = workspace();
    let f = LexPath::read("/w/f");
    assert_eq!(
        plan_deletion(&ws, &LexPath::read("/w"), false, true, true).err().unwrap(),
        "cannot delete workspace root"
    );
    assert_eq!(plan_deletion(&ws, &f, true, false, true).unwrap(), Deletion::File);
    assert_eq!(plan_deletion(&ws, &f, false, true, true).unwrap(), Deletion::WholeDirectory);
    assert_eq!(plan_deletion(&ws, &f, false, true, false).unwrap(), Deletion::EmptyDirectory);
    assert_eq!(
        plan_deletion(&ws, &f, false, false, false).err().unwrap(),
        "unsupported path type: /w/f"
    );
    assert_eq!(report_deletion(&ws, &f, Deletion::File, true).unwrap(), "deleted file f");
    assert_eq!(
        report_deletion(&ws, &f, Deletion::WholeDirectory, true).unwrap(),
        "deleted directory f"
    );
    assert_eq!(
        report_deletion(&ws, &f, Deletion::EmptyDirectory, false).unwrap_err(),
        "failed to delete directory /w/f (set recursive=true if non-empty)"
    );
}

#[test]
fn patches_are_applied() {
    let ws = workspace();
    let f = LexPath::read("/w/f");
    assert_eq!(check_patch(&ws, &f, true, "x").unwrap_err(), "f is a directory");
    assert_eq!(check_patch(&ws, &f, false, "").unwrap_err(), "search content is required");
    assert!(check_patch(&ws, &f, false, "x").is_ok());
    let one = apply_patch(&ws, &f, "axbx", "x", "yy", false).ok().unwrap();
    assert_eq!(one.updated, "ayybx");
    assert_eq!(one.summary, "applied patch to f (1 replacement)");
    let all = apply_patch(&ws, &f, "axbx", "x", "", true).ok().unwrap();
    assert_eq!(all.updated, "ab");
    assert_eq!(all.summary, "applied patch to f (2 replacements)");
    assert_eq!(
        apply_patch(&ws, &f, "abc", "x", "y", true).err().unwrap(),
        "search text not found in f"
    );
}

#[test]
fn commands_are_planned_and_reported() {
    assert_eq!(plan_bash("  ", 5).err().unwrap(), "command cannot be empty");
    let plan = plan_bash(" ls -l ", 500).unwrap();
    assert_eq!(plan.program, "bash");
    assert_eq!(plan.args, ["-lc", "ls -l"]);
    assert_eq!(plan.timeout_secs, 120);
    assert_eq!(clamp_timeout(0), 1);
    assert_eq!(spawn_failure(&plan), "failed to spawn command: bash [\"-lc\", \"ls -l\"]");
    assert_eq!(wait_step(true, 999, 1), WaitStep::Ended);
    assert_eq!(wait_step(false, 5, 5), WaitStep::Stop);
    assert_eq!(wait_step(false, 4, 5), WaitStep::Again);
    let (out, err) = capture_names();
    assert!(out.starts_with("nanogpt-cli-agent-") && out.ends_with(".out"));
    assert_eq!(out.trim_end_matches(".out"), err.trim_end_matches(".err"));
    let ok = bash_result(Ok(run_outcome(false, Some(0), "hi", "")), 5);
    assert_eq!((ok.status, ok.summary.as_str(), ok.output.as_str()), ("ok", "bash exited with code 0", "stdout:\nhi\n"));
    let bad = bash_result(Ok(run_outcome(false, Some(-3), "", "")), 5);
    assert_eq!((bad.status, bad.summary.as_str()), ("error", "bash failed with code -3"));
    let late = bash_result(Ok(run_outcome(true, None, "", "")), 500);
    assert_eq!((late.status, late.summary.as_str()), ("error", "bash timed out after 120s"));
    let killed = bash_result(Ok(run_outcome(false, None, "", "")), 5);
    assert_eq!(killed.summary, "bash failed with code signal");
    let none = bash_result(Err("why".to_string()), 5);
    assert_eq!((none.summary.as_str(), none.output.as_str()), ("failed to run bash", "why"));
}

#[test]
fn tests_and_lints_are_chosen_by_project() {
    assert_eq!(infer_test_command(files(true, true, true, true)).as_deref(), Some("cargo test -q"));
    assert_eq!(infer_test_command(files(false, true, true, true)).as_deref(), Some("npm test --silent"));
    assert_eq!(infer_test_command(files(false, false, false, true)).as_deref(), Some("pytest -q"));
    assert_eq!(infer_test_command(files(false, false, false, false)), None);
    assert_eq!(
        infer_lint_command(files(true, false, false, false)).as_deref(),
        Some("cargo clippy --all-targets --all-features -- -D warnings")
    );
    assert_eq!(infer_lint_command(files(false, true, false, false)).as_deref(), Some("npm run lint --silent"));
    assert_eq!(infer_lint_command(files(false, false, true, false)).as_deref(), Some("ruff check ."));
    assert_eq!(infer_lint_command(files(false, false, false, true)), None);
    assert_eq!(plan_check(Check::Lint, Some(" mine "), files(true, true, true, true)).ok().unwrap(), "mine");
    let none = plan_check(Check::Test, Some(" "), files(false, false, false, false)).err().unwrap();
    assert_eq!((none.tool.as_str(), none.summary.as_str()), ("run_test", "failed to choose test command"));
    let ran = bash_result(Ok(run_outcome(false, Some(1), "", "")), 5);
    let told = check_result(Check::Lint, "ruff", ran);
    assert_eq!((told.tool.as_str(), told.summary.as_str()), ("run_lint", "lint command failed: ruff"));
}

#[test]
fn git_is_called() {
    assert_eq!(git_status(true).args, ["status", "--short", "--branch"]);
    assert_eq!(git_status(false).args, ["status"]);
    assert_eq!(git_diff(true, Some("a")).args, ["diff", "--staged", "--", "a"]);
    assert_eq!(git_diff(false, None).args, ["diff"]);
    assert_eq!(git_add(Some("a"), true).ok().unwrap().args, ["add", "-A"]);
    assert_eq!(git_add(Some("a"), false).ok().unwrap().args, ["add", "a"]);
    let bad = git_add(None, false).err().unwrap();
    assert_eq!(bad.summary, "invalid git add arguments");
    let plan = git_commit(" m ").ok().unwrap();
    assert_eq!((plan.program.as_str(), plan.timeout_secs), ("git", 60));
    assert_eq!(plan.args, ["commit", "-m", "m"]);
    assert_eq!(git_commit(" ").err().unwrap().output, "message cannot be empty");
    let diff = ToolCall::GitDiff { staged: false, path: None };
    let add = ToolCall::GitAdd { path: None, all: true };
    assert_eq!(invalid_git_path(&add, "why").tool, "git_add");
    assert_eq!(invalid_git_path(&diff, "why").summary, "invalid git diff path");
    let ok = git_result(&add, Ok(run_outcome(false, Some(0), "", "")), 30);
    assert_eq!(ok.summary, "git command succeeded (code 0)");
    let late = git_result(&add, Ok(run_outcome(true, None, "", "")), 30);
    assert_eq!(late.summary, "git command timed out after 30s");
    let failed = git_result(&add, Err("why".to_string()), 30);
    assert_eq!(failed.summary, "failed to run git command");
}

#[test]
fn sessions_are_started() {
    let ws = workspace();
    let dir = LexPath::read("/w/d");
    assert_eq!(plan_session(&ws, &dir, false, "sh").unwrap_err(), "d is not a directory");
    assert_eq!(plan_session(&ws, &dir, true, " ").unwrap(), "bash");
    assert_eq!(plan_session(&ws, &dir, true, " zsh ").unwrap(), "zsh");
    let started = session_started(&ws, &dir, 3, "zsh");
    assert_eq!(started.summary, "started shell session 3 in d");
    assert_eq!(started.output, "session_id: 3\nshell: zsh\ncwd: d");
    assert_eq!(session_killed(3), "killed session 3");
    assert_eq!(check_session_id(0).unwrap_err(), "session_id is required");
    assert!(check_session_id(3).is_ok());
    assert_eq!(unknown_session(4), "unknown session_id: 4");
    assert_eq!(session_has_exited(4, Some(1)), "session 4 has exited (code: Some(1))");
}

#[test]
fn a_session_runs_a_command() {
    assert_eq!(session_command(0, "ls", 5).err().unwrap(), "session_id is required");
    assert_eq!(session_command(1, " ", 5).err().unwrap(), "command cannot be empty");
    let c = session_command_marked(1, " ls ", 500, "MM").unwrap();
    assert_eq!(c.timeout_secs, 120);
    assert_eq!(
        c.script,
        "printf '%s\\n' '__NANOGPT_START_MM__'\nls\n__ec=$?\nprintf '%s%s\\n' '__NANOGPT_END_MM__:' \"$__ec\"\n"
    );
    let other = session_command(1, "ls", 5).unwrap();
    assert_eq!(other.start_marker.len(), "__NANOGPT_START_".len() + 32 + "__".len());
    let delta = "noise__NANOGPT_START_MM__\nout\n__NANOGPT_END_MM__:3\nmore";
    assert!(check_markers(delta, &c.start_marker, &c.end_prefix));
    let reply = read_reply(delta, &c.start_marker, &c.end_prefix).unwrap();
    assert_eq!((reply.stdout.as_str(), reply.exit_code), ("out\n", 3));
    assert!(read_reply("nothing yet", &c.start_marker, &c.end_prefix).is_none());
    assert!(!check_markers("__NANOGPT_END_MM__:0 __NANOGPT_START_MM__", &c.start_marker, &c.end_prefix));
    assert_eq!(text_since("añb", 2), "b");
    assert_eq!(text_since("a", 5), "");
}

#[test]
fn a_session_is_waited_for() {
    let c = session_command_marked(1, "ls", 5, "MM").unwrap();
    assert!(poll_session(&c, 4, None, None, "").is_none());
    let late = poll_session(&c, 5, None, None, "").unwrap();
    assert_eq!(late.summary, "session 1 command timed out after 5s");
    assert!(late.stop && late.failed);
    assert!(wants_reply(&c, 4, false) && !wants_reply(&c, 5, false) && !wants_reply(&c, 0, true));
    let gone = poll_session(&c, 0, Some(None), None, "").unwrap();
    assert!(!gone.stop);
    assert_eq!(gone.summary, "session 1 exited while running command (code: None)");
    let reply = read_reply("x__NANOGPT_END_MM__:0", &c.start_marker, &c.end_prefix);
    let end = poll_session(&c, 0, None, reply, "warn").unwrap();
    assert_eq!(end.summary, "session 1 exited with code 0");
    assert_eq!(end.output, "stdout:\nx\n\nstderr:\nwarn\n");
    let told = session_run_result(Ok(end));
    assert_eq!(told.status, "ok");
    assert_eq!(session_run_result(Ok(late)).status, "error");
    assert_eq!(session_run_result(Err("why".to_string())).summary, "failed to run session command");
    let shown = session_output(1, Some(Some(0)), "abc", "", 100);
    assert_eq!(shown.summary, "session 1 output (exited(Some(0)))");
    assert_eq!(shown.output, "stdout:\nabc\n");
    assert_eq!(session_output(1, None, "", "", 100).output, "(no output)");
    assert_eq!(session_output(1, None, "", "", 100).summary, "session 1 output (running)");
}

#[test]
fn results_bear_the_name_of_their_tool() {
    for (name, failed) in [
        ("list_files", "failed to list files"),
        ("glob_files", "failed to glob files"),
        ("grep_files", "failed to grep files"),
        ("read_file", "failed to read file"),
        ("write_file", "failed to write file"),
        ("append_file", "failed to append file"),
        ("mkdir", "failed to create directory"),
        ("move_path", "failed to move path"),
        ("delete_path", "failed to delete path"),
        ("apply_patch", "failed to apply patch"),
        ("bash", "failed to run bash"),
        ("run_test", "failed to choose test command"),
        ("run_lint", "failed to choose lint command"),
        ("bash_session_start", "failed to start shell session"),
        ("bash_session_run", "failed to run session command"),
        ("bash_session_output", "failed to get session output"),
        ("bash_session_kill", "failed to kill session"),
        ("git_status", "failed to run git command"),
        ("git_diff", "failed to run git command"),
        ("git_add", "failed to run git command"),
        ("git_commit", "failed to run git command"),
    ] {
        let call = read_named_call(name, "");
        assert_eq!((tool_name(&call), failed_summary(&call).as_str()), (name, failed));
    }
    let call = read_named_call("fly", "");
    assert_eq!(tool_name(&call), "unknown");
    assert_eq!(failed_summary(&call), "unknown tool requested: fly");
}

#[test]
fn a_path_reads_back_from_its_text() {
    for text in ["", "/", ".", "a/../b//c/.", "/x/./y/../..", "../up", "a/b/"] {
        let path = LexPath::read(text);
        assert!(LexPath::read(&path.text()).is_same(&path), "{}", text);
    }
}
