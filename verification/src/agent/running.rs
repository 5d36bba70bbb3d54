//! The tools that run commands: the shell, the project's tests and lints, and git.

use vstd::prelude::*;

use crate::agent::call::{within, CallView, ToolCall, MAX_BASH_TIMEOUT_SECS};
use crate::agent::label::{came_to_nothing, failed_summary, tool_called, tool_name};
use crate::agent::outcome::{error_view, merge_stdio, ok_view, streams_merged, ResultView, ToolResult};
use crate::number::{decimal, signed_decimal, write_decimal, write_signed};
use crate::text::{
    blank, cat2, cat3, cat4, is_blank, opt_str_view, opt_view, same, trim, trimmed, views,
};

verus! {

/// A command to run.
#[derive(Debug)]
pub struct CommandPlan {
    pub program: String,
    pub args: Vec<String>,
    pub timeout_secs: u64,
}

/// The view of a [`CommandPlan`].
pub struct PlanView {
    pub program: Seq<char>,
    pub args: Seq<Seq<char>>,
    pub timeout_secs: nat,
}

impl View for CommandPlan {
    type V = PlanView;

    open spec fn view(&self) -> PlanView {
        PlanView {
            program: self.program@,
            args: views(self.args@),
            timeout_secs: self.timeout_secs as nat,
        }
    }
}

/// How a command ended.
#[derive(Debug)]
pub struct CommandOutcome {
    pub timed_out: bool,
    pub success: bool,
    /// The exit code; none where a signal ended it.
    pub exit_code: Option<i32>,
    pub output: String,
}

/// The view of a [`CommandOutcome`].
pub struct OutcomeView {
    pub timed_out: bool,
    pub success: bool,
    pub exit_code: Option<i32>,
    pub output: Seq<char>,
}

impl View for CommandOutcome {
    type V = OutcomeView;

    open spec fn view(&self) -> OutcomeView {
        OutcomeView {
            timed_out: self.timed_out,
            success: self.success,
            exit_code: self.exit_code,
            output: self.output@,
        }
    }
}

/// A time limit brought into its range.
pub fn clamp_timeout(secs: u64) -> (r: u64)
    ensures
        r == within(secs as nat, 1, MAX_BASH_TIMEOUT_SECS as nat),
{
    if secs < 1 {
        1
    } else if secs > MAX_BASH_TIMEOUT_SECS {
        MAX_BASH_TIMEOUT_SECS
    } else {
        secs
    }
}

/// What to do about a running command.
#[derive(Debug, Clone, Copy, PartialEq, Eq, Structural)]
pub enum WaitStep {
    /// It has ended by itself.
    Ended,
    /// It has run for too long and is to be stopped.
    Stop,
    /// Look again a little later.
    Again,
}

/// What to do about a command that has run for some seconds.
pub open spec fn waiting(ended: bool, elapsed_secs: nat, timeout_secs: nat) -> WaitStep {
    if ended {
        WaitStep::Ended
    } else if elapsed_secs >= within(timeout_secs, 1, MAX_BASH_TIMEOUT_SECS as nat) {
        WaitStep::Stop
    } else {
        WaitStep::Again
    }
}

/// What to do about a command that has run for some seconds.
pub fn wait_step(ended: bool, elapsed_secs: u64, timeout_secs: u64) -> (r: WaitStep)
    ensures
        r == waiting(ended, elapsed_secs as nat, timeout_secs as nat),
{
    if ended {
        WaitStep::Ended
    } else if elapsed_secs >= clamp_timeout(timeout_secs) {
        WaitStep::Stop
    } else {
        WaitStep::Again
    }
}

/// How a command ended, from what it left behind.
pub open spec fn outcome_view(
    timed_out: bool,
    exit_code: Option<i32>,
    stdout: Seq<char>,
    stderr: Seq<char>,
) -> OutcomeView {
    OutcomeView {
        timed_out,
        success: !timed_out && exit_code == Some(0i32),
        exit_code,
        output: streams_merged(stdout, stderr),
    }
}

/// How a command ended, from what it left behind.
pub fn run_outcome(timed_out: bool, exit_code: Option<i32>, stdout: &str, stderr: &str) -> (r:
    CommandOutcome)
    ensures
        r@ == outcome_view(timed_out, exit_code, stdout@, stderr@),
{
    let zero: bool = match exit_code {
        Some(code) => code == 0,
        None => false,
    };
    CommandOutcome {
        timed_out,
        success: !timed_out && zero,
        exit_code,
        output: merge_stdio(stdout, stderr),
    }
}

/// The names of the files that take what a command writes: one stamp stands in both.
pub open spec fn are_capture_names(out: Seq<char>, err: Seq<char>, stamp: Seq<char>) -> bool {
    out == "nanogpt-cli-agent-"@ + stamp + ".out"@ && err == "nanogpt-cli-agent-"@ + stamp + ".err"@
}

/// The names of the files that take what a command writes, for a stamp.
pub fn capture_names_for(stamp: &str) -> (r: (String, String))
    ensures
        are_capture_names(r.0@, r.1@, stamp@),
{
    (cat3("nanogpt-cli-agent-", stamp, ".out"), cat3("nanogpt-cli-agent-", stamp, ".err"))
}

/// The names of the files that take what a command writes, with a fresh stamp.
pub fn capture_names() -> (r: (String, String))
    ensures
        exists|stamp: Seq<char>| #[trigger]
            crate::ident::uuid_text(stamp) && are_capture_names(r.0@, r.1@, stamp),
{
    let stamp: String = crate::ident::new_uuid();
    let names: (String, String) = capture_names_for(stamp.as_str());
    assert(crate::ident::uuid_text(stamp@) && are_capture_names(names.0@, names.1@, stamp@));
    names
}

/// What Rust's `{:?}` writes for a list of texts.
pub uninterp spec fn quoted_list(list: Seq<Seq<char>>) -> Seq<char>;

/// `format!` with `{:?}` for a list of texts: it depends on the texts alone.
#[verifier::external_body]
fn quote_list(list: &Vec<String>) -> (r: String)
    ensures
        r@ == quoted_list(views(list@)),
{
    format!("{:?}", list)
}

/// What is said of a command that could not be started.
pub fn spawn_failure(plan: &CommandPlan) -> (r: String)
    ensures
        r@ == "failed to spawn command: "@ + plan@.program + " "@ + quoted_list(plan@.args),
{
    let args: String = quote_list(&plan.args);
    cat4("failed to spawn command: ", plan.program.as_str(), " ", args.as_str())
}

/// The command that runs a line in the shell; nothing where the line is empty.
pub open spec fn bash_plan(command: Seq<char>, timeout_secs: nat) -> Option<PlanView> {
    if blank(command) {
        None
    } else {
        Some(
            PlanView {
                program: "bash"@,
                args: Seq::empty().push("-lc"@).push(trimmed(command)),
                timeout_secs: within(timeout_secs, 1, MAX_BASH_TIMEOUT_SECS as nat),
            },
        )
    }
}

/// The command that runs a line in the shell.
pub fn plan_bash(command: &str, timeout_secs: u64) -> (r: Result<CommandPlan, String>)
    ensures
        match bash_plan(command@, timeout_secs as nat) {
            Some(plan) => r matches Ok(p) && p@ == plan,
            None => r matches Err(e) && e@ == "command cannot be empty"@,
        },
{
    if is_blank(command) {
        return Err("command cannot be empty".to_owned());
    }
    let mut args: Vec<String> = Vec::new();
    args.push("-lc".to_owned());
    args.push(trim(command).to_owned());
    assert(views(args@) =~= Seq::empty().push("-lc"@).push(trimmed(command@)));
    Ok(CommandPlan { program: "bash".to_owned(), args, timeout_secs: clamp_timeout(timeout_secs) })
}

/// An exit code as it is shown.
pub open spec fn code_text(exit_code: Option<i32>) -> Seq<char> {
    match exit_code {
        Some(code) => signed_decimal(code as int),
        None => "signal"@,
    }
}

fn write_code(exit_code: Option<i32>) -> (r: String)
    ensures
        r@ == code_text(exit_code),
{
    match exit_code {
        Some(code) => write_signed(code),
        None => "signal".to_owned(),
    }
}

/// What the shell tool gives back.
pub open spec fn bash_view(
    outcome: Result<OutcomeView, Seq<char>>,
    timeout_secs: nat,
) -> ResultView {
    match outcome {
        Ok(o) => {
            let summary = if o.timed_out {
                "bash timed out after "@ + decimal(
                    within(timeout_secs, 1, MAX_BASH_TIMEOUT_SECS as nat),
                ) + "s"@
            } else if o.success {
                "bash exited with code "@ + code_text(o.exit_code)
            } else {
                "bash failed with code "@ + code_text(o.exit_code)
            };
            if o.success {
                ok_view("bash"@, summary, o.output)
            } else {
                error_view("bash"@, summary, o.output)
            }
        },
        Err(e) => error_view("bash"@, "failed to run bash"@, e),
    }
}

/// The view of how a command ended, or of why it could not run.
pub open spec fn run_view(outcome: Result<CommandOutcome, String>) -> Result<OutcomeView, Seq<char>> {
    match outcome {
        Ok(o) => Ok(o@),
        Err(e) => Err(e@),
    }
}

/// What the shell tool gives back.
pub fn bash_result(outcome: Result<CommandOutcome, String>, timeout_secs: u64) -> (r: ToolResult)
    ensures
        r@ == bash_view(run_view(outcome), timeout_secs as nat),
{
    match outcome {
        Ok(o) => {
            let code: String = write_code(o.exit_code);
            let summary: String = if o.timed_out {
                let n: String = write_decimal(clamp_timeout(timeout_secs));
                cat3("bash timed out after ", n.as_str(), "s")
            } else if o.success {
                cat2("bash exited with code ", code.as_str())
            } else {
                cat2("bash failed with code ", code.as_str())
            };
            if o.success {
                ToolResult::ok("bash", summary, o.output.as_str())
            } else {
                ToolResult::error("bash", summary, o.output.as_str())
            }
        },
        Err(e) => ToolResult::error("bash", "failed to run bash".to_owned(), e.as_str()),
    }
}

/// What a project has in its root directory.
#[derive(Debug, Clone, Copy, PartialEq, Eq, Structural)]
pub struct ProjectFiles {
    /// There is a file `Cargo.toml`.
    pub cargo_toml: bool,
    /// There is a file `package.json`.
    pub package_json: bool,
    /// There is a file `pyproject.toml`.
    pub pyproject_toml: bool,
    /// There is something named `pytest.ini`.
    pub pytest_ini: bool,
}

/// The command that tests a project.
pub open spec fn test_command(files: ProjectFiles) -> Option<Seq<char>> {
    if files.cargo_toml {
        Some("cargo test -q"@)
    } else if files.package_json {
        Some("npm test --silent"@)
    } else if files.pyproject_toml || files.pytest_ini {
        Some("pytest -q"@)
    } else {
        None
    }
}

/// The command that lints a project.
pub open spec fn lint_command(files: ProjectFiles) -> Option<Seq<char>> {
    if files.cargo_toml {
        Some("cargo clippy --all-targets --all-features -- -D warnings"@)
    } else if files.package_json {
        Some("npm run lint --silent"@)
    } else if files.pyproject_toml {
        Some("ruff check ."@)
    } else {
        None
    }
}

/// The command that tests a project.
pub fn infer_test_command(files: ProjectFiles) -> (r: Option<String>)
    ensures
        opt_view(r) == test_command(files),
{
    if files.cargo_toml {
        return Some("cargo test -q".to_owned());
    }
    if files.package_json {
        return Some("npm test --silent".to_owned());
    }
    if files.pyproject_toml || files.pytest_ini {
        return Some("pytest -q".to_owned());
    }
    None
}

/// The command that lints a project.
pub fn infer_lint_command(files: ProjectFiles) -> (r: Option<String>)
    ensures
        opt_view(r) == lint_command(files),
{
    if files.cargo_toml {
        return Some("cargo clippy --all-targets --all-features -- -D warnings".to_owned());
    }
    if files.package_json {
        return Some("npm run lint --silent".to_owned());
    }
    if files.pyproject_toml {
        return Some("ruff check .".to_owned());
    }
    None
}

/// The command to run: the given one where it is more than spaces, else the one that fits the
/// project.
pub open spec fn chosen_command(given: Option<Seq<char>>, fits: Option<Seq<char>>) -> Option<Seq<char>> {
    match given {
        Some(command) => if blank(command) {
            fits
        } else {
            Some(trimmed(command))
        },
        None => fits,
    }
}

/// Which of a project's checks.
#[derive(Debug, Clone, Copy, PartialEq, Eq, Structural)]
pub enum Check {
    Test,
    Lint,
}

/// The tool that runs a check.
pub open spec fn check_tool(check: Check) -> Seq<char> {
    match check {
        Check::Test => "run_test"@,
        Check::Lint => "run_lint"@,
    }
}

/// What a check is called.
pub open spec fn check_word(check: Check) -> Seq<char> {
    match check {
        Check::Test => "test"@,
        Check::Lint => "lint"@,
    }
}

fn tool_of(check: Check) -> (r: &'static str)
    ensures
        r@ == check_tool(check),
{
    match check {
        Check::Test => "run_test",
        Check::Lint => "run_lint",
    }
}

fn word_of(check: Check) -> (r: &'static str)
    ensures
        r@ == check_word(check),
{
    match check {
        Check::Test => "test",
        Check::Lint => "lint",
    }
}

/// The command that fits a project.
pub open spec fn fitting_command(check: Check, files: ProjectFiles) -> Option<Seq<char>> {
    match check {
        Check::Test => test_command(files),
        Check::Lint => lint_command(files),
    }
}

/// What a check gives back where there is no command to run.
pub open spec fn no_command_view(check: Check) -> ResultView {
    error_view(
        check_tool(check),
        "failed to choose "@ + check_word(check) + " command"@,
        "no "@ + check_word(check)
            + " command provided and no known project type found; provide <command> explicitly"@,
    )
}

/// The command that a check runs, or what it gives back where there is none.
pub fn plan_check(check: Check, given: Option<&str>, files: ProjectFiles) -> (r: Result<
    String,
    ToolResult,
>)
    ensures
        match chosen_command(opt_str_view(given), fitting_command(check, files)) {
            Some(command) => r matches Ok(c) && c@ == command,
            None => r matches Err(result) && result@ == no_command_view(check),
        },
{
    if let Some(command) = given {
        if !is_blank(command) {
            return Ok(trim(command).to_owned());
        }
    }
    let fits: Option<String> = match check {
        Check::Test => infer_test_command(files),
        Check::Lint => infer_lint_command(files),
    };
    match fits {
        Some(command) => Ok(command),
        None => {
            let word: &str = word_of(check);
            let text: String = cat3(
                "no ",
                word,
                " command provided and no known project type found; provide <command> explicitly",
            );
            Err(
                ToolResult::error(
                    tool_of(check),
                    cat3("failed to choose ", word, " command"),
                    text.as_str(),
                ),
            )
        },
    }
}

/// What a check gives back: what the shell gave, under its own name.
pub open spec fn check_view(check: Check, command: Seq<char>, result: ResultView) -> ResultView {
    ResultView {
        tool: check_tool(check),
        summary: check_word(check) + (if result.status == "ok"@ {
            " command succeeded: "@
        } else {
            " command failed: "@
        }) + command,
        ..result
    }
}

/// What a check gives back, from what the shell gave for its command.
pub fn check_result(check: Check, command: &str, result: ToolResult) -> (r: ToolResult)
    ensures
        r@ == check_view(check, command@, result@),
{
    let went: &str = if same(result.status, "ok") {
        " command succeeded: "
    } else {
        " command failed: "
    };
    ToolResult {
        tool: tool_of(check).to_owned(),
        status: result.status,
        summary: cat3(word_of(check), went, command),
        output: result.output,
    }
}

/// A git command.
pub open spec fn git_plan(args: Seq<Seq<char>>, timeout_secs: nat) -> PlanView {
    PlanView { program: "git"@, args, timeout_secs }
}

fn plan_git(args: Vec<String>, timeout_secs: u64) -> (r: CommandPlan)
    ensures
        r@ == git_plan(views(args@), timeout_secs as nat),
{
    CommandPlan { program: "git".to_owned(), args, timeout_secs }
}

fn add_arg(args: &mut Vec<String>, arg: &str)
    ensures
        views(final(args)@) == views(old(args)@).push(arg@),
{
    let ghost before = args@;
    args.push(arg.to_owned());
    assert(views(args@) =~= views(before).push(arg@));
}

fn first_arg(arg: &str) -> (r: Vec<String>)
    ensures
        views(r@) == Seq::empty().push(arg@),
{
    let mut args: Vec<String> = Vec::new();
    assert(views(args@) =~= Seq::empty());
    add_arg(&mut args, arg);
    args
}

/// The command that shows what has changed in the repository.
pub open spec fn status_plan(short: bool) -> PlanView {
    git_plan(
        if short {
            Seq::empty().push("status"@).push("--short"@).push("--branch"@)
        } else {
            Seq::empty().push("status"@)
        },
        30,
    )
}

/// Shows what has changed in the repository.
pub fn git_status(short: bool) -> (r: CommandPlan)
    ensures
        r@ == status_plan(short),
{
    let mut args: Vec<String> = first_arg("status");
    if short {
        add_arg(&mut args, "--short");
        add_arg(&mut args, "--branch");
    }
    plan_git(args, 30)
}

/// The arguments of a git command that shows differences.
pub open spec fn diff_args(staged: bool, path: Option<Seq<char>>) -> Seq<Seq<char>> {
    let a = Seq::empty().push("diff"@);
    let a = if staged {
        a.push("--staged"@)
    } else {
        a
    };
    match path {
        Some(p) => a.push("--"@).push(p),
        None => a,
    }
}

/// Shows the differences in the repository; `path` is taken from the workspace's root.
pub fn git_diff(staged: bool, path: Option<&str>) -> (r: CommandPlan)
    ensures
        r@ == git_plan(diff_args(staged, opt_str_view(path)), 30),
{
    let mut args: Vec<String> = first_arg("diff");
    if staged {
        add_arg(&mut args, "--staged");
    }
    if let Some(p) = path {
        add_arg(&mut args, "--");
        add_arg(&mut args, p);
    }
    plan_git(args, 30)
}

/// The command that puts changes into the next commit, or what is wrong with the call.
pub open spec fn add_plan(path: Option<Seq<char>>, all: bool) -> Result<PlanView, ResultView> {
    if all {
        Ok(git_plan(Seq::empty().push("add"@).push("-A"@), 30))
    } else {
        match path {
            Some(text) => Ok(git_plan(Seq::empty().push("add"@).push(text), 30)),
            None => Err(
                error_view(
                    "git_add"@,
                    "invalid git add arguments"@,
                    "provide <path> or set <all>true</all>"@,
                ),
            ),
        }
    }
}

/// Puts changes into the next commit: all of them, or those of a path.
pub fn git_add(path: Option<&str>, all: bool) -> (r: Result<CommandPlan, ToolResult>)
    ensures
        match add_plan(opt_str_view(path), all) {
            Ok(plan) => r matches Ok(p) && p@ == plan,
            Err(view) => r matches Err(result) && result@ == view,
        },
{
    let mut args: Vec<String> = first_arg("add");
    if all {
        add_arg(&mut args, "-A");
        return Ok(plan_git(args, 30));
    }
    match path {
        Some(text) => {
            add_arg(&mut args, text);
            Ok(plan_git(args, 30))
        },
        None => Err(
            ToolResult::error(
                "git_add",
                "invalid git add arguments".to_owned(),
                "provide <path> or set <all>true</all>",
            ),
        ),
    }
}

/// The command that commits changes, or what is wrong with the call.
pub open spec fn commit_plan(message: Seq<char>) -> Result<PlanView, ResultView> {
    if blank(message) {
        Err(error_view("git_commit"@, "invalid commit message"@, "message cannot be empty"@))
    } else {
        Ok(git_plan(Seq::empty().push("commit"@).push("-m"@).push(trimmed(message)), 60))
    }
}

/// Commits changes.
pub fn git_commit(message: &str) -> (r: Result<CommandPlan, ToolResult>)
    ensures
        match commit_plan(message@) {
            Ok(plan) => r matches Ok(p) && p@ == plan,
            Err(view) => r matches Err(result) && result@ == view,
        },
{
    if is_blank(message) {
        return Err(
            ToolResult::error(
                "git_commit",
                "invalid commit message".to_owned(),
                "message cannot be empty",
            ),
        );
    }
    let mut args: Vec<String> = first_arg("commit");
    add_arg(&mut args, "-m");
    add_arg(&mut args, trim(message));
    Ok(plan_git(args, 60))
}

/// The git command that a call asks for.
pub open spec fn git_word(call: CallView) -> Seq<char> {
    match call {
        CallView::GitStatus { .. } => "status"@,
        CallView::GitAdd { .. } => "add"@,
        CallView::GitCommit { .. } => "commit"@,
        _ => "diff"@,
    }
}

/// What a call gives back for a path that git cannot be given.
pub fn invalid_git_path(call: &ToolCall, complaint: &str) -> (r: ToolResult)
    ensures
        r@ == error_view(
            tool_called(call@),
            "invalid git "@ + git_word(call@) + " path"@,
            complaint@,
        ),
{
    let word: &str = match call {
        ToolCall::GitStatus { .. } => "status",
        ToolCall::GitAdd { .. } => "add",
        ToolCall::GitCommit { .. } => "commit",
        _ => "diff",
    };
    ToolResult::error(tool_name(call), cat3("invalid git ", word, " path"), complaint)
}

/// What a git tool gives back.
pub open spec fn git_view(
    call: CallView,
    outcome: Result<OutcomeView, Seq<char>>,
    timeout_secs: nat,
) -> ResultView {
    match outcome {
        Ok(o) => {
            let summary = if o.timed_out {
                "git command timed out after "@ + decimal(timeout_secs) + "s"@
            } else if o.success {
                "git command succeeded (code "@ + code_text(o.exit_code) + ")"@
            } else {
                "git command failed (code "@ + code_text(o.exit_code) + ")"@
            };
            if o.success {
                ok_view(tool_called(call), summary, o.output)
            } else {
                error_view(tool_called(call), summary, o.output)
            }
        },
        Err(e) => error_view(tool_called(call), came_to_nothing(call), e),
    }
}

/// What a git tool gives back.
pub fn git_result(
    call: &ToolCall,
    outcome: Result<CommandOutcome, String>,
    timeout_secs: u64,
) -> (r: ToolResult)
    ensures
        r@ == git_view(call@, run_view(outcome), timeout_secs as nat),
{
    let tool: &str = tool_name(call);
    match outcome {
        Ok(o) => {
            let code: String = write_code(o.exit_code);
            let summary: String = if o.timed_out {
                let n: String = write_decimal(timeout_secs);
                cat3("git command timed out after ", n.as_str(), "s")
            } else if o.success {
                cat3("git command succeeded (code ", code.as_str(), ")")
            } else {
                cat3("git command failed (code ", code.as_str(), ")")
            };
            if o.success {
                ToolResult::ok(tool, summary, o.output.as_str())
            } else {
                ToolResult::error(tool, summary, o.output.as_str())
            }
        },
        Err(e) => ToolResult::error(tool, failed_summary(call), e.as_str()),
    }
}

/// A command that ran out of time never counts as done, whatever code it ended with.
pub proof fn law_a_stopped_command_failed(exit_code: Option<i32>, stdout: Seq<char>, stderr: Seq<char>)
    ensures
        !outcome_view(true, exit_code, stdout, stderr).success,
        outcome_view(false, exit_code, stdout, stderr).success <==> exit_code == Some(0i32),
{
}

} // verus!
