//! The tools that a model may call, and how its calls are read.

use vstd::prelude::*;

use crate::agent::xml::{call_blocks, extract_tag_value, extract_tool_call_blocks, tag_value};
use crate::letter::{lower, to_lowercase};
use crate::number::{parsed_unsigned, read_unsigned};
use crate::text::{blank, is_blank, opt_or_empty, opt_view, same, trim, trimmed, views};

verus! {

/// The longest time that a command may take, in seconds.
pub const MAX_BASH_TIMEOUT_SECS: u64 = 120;

/// The time that a command may take where the call says nothing, in seconds.
pub const DEFAULT_BASH_TIMEOUT_SECS: u64 = 20;

/// A call of a tool.
#[derive(Debug)]
pub enum ToolCall {
    ListFiles { path: String, recursive: bool, max_entries: usize },
    GlobFiles { pattern: String, base_path: String, max_results: usize },
    GrepFiles {
        query: String,
        base_path: String,
        include_glob: Option<String>,
        case_sensitive: bool,
        max_results: usize,
    },
    ReadFile { path: String, start_line: Option<usize>, end_line: Option<usize> },
    WriteFile { path: String, content: String },
    AppendFile { path: String, content: String },
    Bash { command: String, timeout_secs: u64 },
    Mkdir { path: String },
    MovePath { from: String, to: String },
    DeletePath { path: String, recursive: bool },
    ApplyPatch { path: String, search: String, replace: String, all: bool },
    RunTest { command: Option<String>, timeout_secs: u64 },
    RunLint { command: Option<String>, timeout_secs: u64 },
    BashSessionStart { path: String, shell: String },
    BashSessionRun { session_id: u64, command: String, timeout_secs: u64 },
    BashSessionOutput { session_id: u64, max_chars: usize },
    BashSessionKill { session_id: u64 },
    GitStatus { short: bool },
    GitDiff { staged: bool, path: Option<String> },
    GitAdd { path: Option<String>, all: bool },
    GitCommit { message: String },
    Unknown { requested: String },
}

/// The view of a [`ToolCall`].
pub enum CallView {
    ListFiles { path: Seq<char>, recursive: bool, max_entries: nat },
    GlobFiles { pattern: Seq<char>, base_path: Seq<char>, max_results: nat },
    GrepFiles {
        query: Seq<char>,
        base_path: Seq<char>,
        include_glob: Option<Seq<char>>,
        case_sensitive: bool,
        max_results: nat,
    },
    ReadFile { path: Seq<char>, start_line: Option<nat>, end_line: Option<nat> },
    WriteFile { path: Seq<char>, content: Seq<char> },
    AppendFile { path: Seq<char>, content: Seq<char> },
    Bash { command: Seq<char>, timeout_secs: nat },
    Mkdir { path: Seq<char> },
    MovePath { from: Seq<char>, to: Seq<char> },
    DeletePath { path: Seq<char>, recursive: bool },
    ApplyPatch { path: Seq<char>, search: Seq<char>, replace: Seq<char>, all: bool },
    RunTest { command: Option<Seq<char>>, timeout_secs: nat },
    RunLint { command: Option<Seq<char>>, timeout_secs: nat },
    BashSessionStart { path: Seq<char>, shell: Seq<char> },
    BashSessionRun { session_id: nat, command: Seq<char>, timeout_secs: nat },
    BashSessionOutput { session_id: nat, max_chars: nat },
    BashSessionKill { session_id: nat },
    GitStatus { short: bool },
    GitDiff { staged: bool, path: Option<Seq<char>> },
    GitAdd { path: Option<Seq<char>>, all: bool },
    GitCommit { message: Seq<char> },
    Unknown { requested: Seq<char> },
}

/// The view of an optional number.
pub open spec fn opt_nat(value: Option<usize>) -> Option<nat> {
    match value {
        Some(n) => Some(n as nat),
        None => None,
    }
}

impl View for ToolCall {
    type V = CallView;

    open spec fn view(&self) -> CallView {
        match self {
            ToolCall::ListFiles { path, recursive, max_entries } => CallView::ListFiles {
                path: path@,
                recursive: *recursive,
                max_entries: *max_entries as nat,
            },
            ToolCall::GlobFiles { pattern, base_path, max_results } => CallView::GlobFiles {
                pattern: pattern@,
                base_path: base_path@,
                max_results: *max_results as nat,
            },
            ToolCall::GrepFiles { query, base_path, include_glob, case_sensitive, max_results } => {
                CallView::GrepFiles {
                    query: query@,
                    base_path: base_path@,
                    include_glob: opt_view(*include_glob),
                    case_sensitive: *case_sensitive,
                    max_results: *max_results as nat,
                }
            },
            ToolCall::ReadFile { path, start_line, end_line } => CallView::ReadFile {
                path: path@,
                start_line: opt_nat(*start_line),
                end_line: opt_nat(*end_line),
            },
            ToolCall::WriteFile { path, content } => CallView::WriteFile {
                path: path@,
                content: content@,
            },
            ToolCall::AppendFile { path, content } => CallView::AppendFile {
                path: path@,
                content: content@,
            },
            ToolCall::Bash { command, timeout_secs } => CallView::Bash {
                command: command@,
                timeout_secs: *timeout_secs as nat,
            },
            ToolCall::Mkdir { path } => CallView::Mkdir { path: path@ },
            ToolCall::MovePath { from, to } => CallView::MovePath { from: from@, to: to@ },
            ToolCall::DeletePath { path, recursive } => CallView::DeletePath {
                path: path@,
                recursive: *recursive,
            },
            ToolCall::ApplyPatch { path, search, replace, all } => CallView::ApplyPatch {
                path: path@,
                search: search@,
                replace: replace@,
                all: *all,
            },
            ToolCall::RunTest { command, timeout_secs } => CallView::RunTest {
                command: opt_view(*command),
                timeout_secs: *timeout_secs as nat,
            },
            ToolCall::RunLint { command, timeout_secs } => CallView::RunLint {
                command: opt_view(*command),
                timeout_secs: *timeout_secs as nat,
            },
            ToolCall::BashSessionStart { path, shell } => CallView::BashSessionStart {
                path: path@,
                shell: shell@,
            },
            ToolCall::BashSessionRun { session_id, command, timeout_secs } => {
                CallView::BashSessionRun {
                    session_id: *session_id as nat,
                    command: command@,
                    timeout_secs: *timeout_secs as nat,
                }
            },
            ToolCall::BashSessionOutput { session_id, max_chars } => CallView::BashSessionOutput {
                session_id: *session_id as nat,
                max_chars: *max_chars as nat,
            },
            ToolCall::BashSessionKill { session_id } => CallView::BashSessionKill {
                session_id: *session_id as nat,
            },
            ToolCall::GitStatus { short } => CallView::GitStatus { short: *short },
            ToolCall::GitDiff { staged, path } => CallView::GitDiff {
                staged: *staged,
                path: opt_view(*path),
            },
            ToolCall::GitAdd { path, all } => CallView::GitAdd { path: opt_view(*path), all: *all },
            ToolCall::GitCommit { message } => CallView::GitCommit { message: message@ },
            ToolCall::Unknown { requested } => CallView::Unknown { requested: requested@ },
        }
    }
}

/// The views of a list of calls.
pub open spec fn call_views(calls: Seq<ToolCall>) -> Seq<CallView> {
    Seq::new(calls.len(), |i: int| calls[i]@)
}

/// Whether a text says yes; `default` where it says nothing.
pub open spec fn says_yes(value: Option<Seq<char>>, default: bool) -> bool {
    match value {
        Some(raw) => if blank(raw) {
            default
        } else {
            let word = lower(trimmed(raw));
            word == "true"@ || word == "1"@ || word == "yes"@ || word == "y"@ || word == "on"@
        },
        None => default,
    }
}

/// Whether a text says yes; `default` where it says nothing.
pub fn parse_bool(value: Option<&str>, default: bool) -> (r: bool)
    ensures
        r == says_yes(crate::text::opt_str_view(value), default),
{
    match value {
        Some(raw) => {
            if is_blank(raw) {
                return default;
            }
            let word: String = to_lowercase(trim(raw));
            let w: &str = word.as_str();
            same(w, "true") || same(w, "1") || same(w, "yes") || same(w, "y") || same(w, "on")
        },
        None => default,
    }
}

/// The number that a text stands for, up to `max`.
pub open spec fn opt_number(value: Option<Seq<char>>, max: nat) -> Option<nat> {
    match value {
        Some(raw) => parsed_unsigned(trimmed(raw), max),
        None => None,
    }
}

/// The number that a text stands for, or `default`.
pub open spec fn number_or(value: Option<Seq<char>>, max: nat, default: nat) -> nat {
    match opt_number(value, max) {
        Some(n) => n,
        None => default,
    }
}

/// The number that a text stands for.
pub fn parse_optional_u64(value: Option<&str>) -> (r: Option<u64>)
    ensures
        match (r, opt_number(crate::text::opt_str_view(value), u64::MAX as nat)) {
            (Some(n), Some(m)) => n == m,
            (None, None) => true,
            _ => false,
        },
{
    match value {
        Some(raw) => read_unsigned(trim(raw), u64::MAX),
        None => None,
    }
}

/// The number that a text stands for, or `default`.
pub fn parse_u64(value: Option<&str>, default: u64) -> (r: u64)
    ensures
        r == number_or(crate::text::opt_str_view(value), u64::MAX as nat, default as nat),
{
    match parse_optional_u64(value) {
        Some(n) => n,
        None => default,
    }
}

/// The number that a text stands for.
pub fn parse_optional_usize(value: Option<&str>) -> (r: Option<usize>)
    ensures
        opt_nat(r) == opt_number(crate::text::opt_str_view(value), usize::MAX as nat),
{
    match value {
        Some(raw) => match read_unsigned(trim(raw), usize::MAX as u64) {
            Some(n) => Some(n as usize),
            None => None,
        },
        None => None,
    }
}

/// The number that a text stands for, or `default`.
pub fn parse_usize(value: Option<&str>, default: usize) -> (r: usize)
    ensures
        r == number_or(crate::text::opt_str_view(value), usize::MAX as nat, default as nat),
{
    match parse_optional_usize(value) {
        Some(n) => n,
        None => default,
    }
}

/// A number brought into a range.
pub open spec fn within(n: nat, low: nat, high: nat) -> nat {
    if n < low {
        low
    } else if n > high {
        high
    } else {
        n
    }
}

/// An argument of a call, or `default`.
pub open spec fn arg_or(block: Seq<char>, tag: Seq<char>, default: Seq<char>) -> Seq<char> {
    match tag_value(block, tag) {
        Some(value) => value,
        None => default,
    }
}

/// An argument of a call, where it is more than spaces.
pub open spec fn arg_filled(block: Seq<char>, tag: Seq<char>) -> Option<Seq<char>> {
    match tag_value(block, tag) {
        Some(value) => if blank(value) {
            None
        } else {
            Some(value)
        },
        None => None,
    }
}

/// A count among the arguments of a call, brought into a range.
pub open spec fn arg_count(block: Seq<char>, tag: Seq<char>, default: nat, low: nat, high: nat) -> nat {
    within(number_or(tag_value(block, tag), usize::MAX as nat, default), low, high)
}

/// The time that a called command may take.
pub open spec fn arg_timeout(block: Seq<char>) -> nat {
    within(
        number_or(
            tag_value(block, "timeout_secs"@),
            u64::MAX as nat,
            DEFAULT_BASH_TIMEOUT_SECS as nat,
        ),
        1,
        MAX_BASH_TIMEOUT_SECS as nat,
    )
}

/// The shell session that a call speaks of; 0 is none.
pub open spec fn arg_session(block: Seq<char>) -> nat {
    number_or(tag_value(block, "session_id"@), u64::MAX as nat, 0)
}

/// The name of the tool that a call asks for.
pub open spec fn tool_asked(block: Seq<char>) -> Seq<char> {
    lower(
        trimmed(
            opt_or_empty(
                match tag_value(block, "tool"@) {
                    Some(name) => Some(name),
                    None => tag_value(block, "name"@),
                },
            ),
        ),
    )
}

/// The call that a tool of this name is asked for in a block; nothing where there is no such tool.
pub open spec fn file_call(name: Seq<char>, block: Seq<char>) -> Option<CallView> {
    if name == "list_files"@ {
        Some(
            CallView::ListFiles {
                path: arg_or(block, "path"@, "."@),
                recursive: says_yes(tag_value(block, "recursive"@), true),
                max_entries: arg_count(block, "max_entries"@, 400, 1, 2000),
            },
        )
    } else if name == "glob_files"@ {
        Some(
            CallView::GlobFiles {
                pattern: arg_or(block, "pattern"@, Seq::empty()),
                base_path: arg_or(block, "base_path"@, "."@),
                max_results: arg_count(block, "max_results"@, 800, 1, 10_000),
            },
        )
    } else if name == "grep_files"@ {
        Some(
            CallView::GrepFiles {
                query: arg_or(block, "query"@, Seq::empty()),
                base_path: arg_or(block, "base_path"@, "."@),
                include_glob: arg_filled(block, "include_glob"@),
                case_sensitive: says_yes(tag_value(block, "case_sensitive"@), false),
                max_results: arg_count(block, "max_results"@, 400, 1, 5_000),
            },
        )
    } else if name == "read_file"@ {
        Some(
            CallView::ReadFile {
                path: arg_or(block, "path"@, Seq::empty()),
                start_line: opt_number(tag_value(block, "start_line"@), usize::MAX as nat),
                end_line: opt_number(tag_value(block, "end_line"@), usize::MAX as nat),
            },
        )
    } else if name == "write_file"@ {
        Some(
            CallView::WriteFile {
                path: arg_or(block, "path"@, Seq::empty()),
                content: arg_or(block, "content"@, Seq::empty()),
            },
        )
    } else if name == "append_file"@ {
        Some(
            CallView::AppendFile {
                path: arg_or(block, "path"@, Seq::empty()),
                content: arg_or(block, "content"@, Seq::empty()),
            },
        )
    } else if name == "mkdir"@ {
        Some(CallView::Mkdir { path: arg_or(block, "path"@, Seq::empty()) })
    } else if name == "move_path"@ {
        Some(
            CallView::MovePath {
                from: arg_or(block, "from"@, Seq::empty()),
                to: arg_or(block, "to"@, Seq::empty()),
            },
        )
    } else if name == "delete_path"@ {
        Some(
            CallView::DeletePath {
                path: arg_or(block, "path"@, Seq::empty()),
                recursive: says_yes(tag_value(block, "recursive"@), false),
            },
        )
    } else if name == "apply_patch"@ {
        Some(
            CallView::ApplyPatch {
                path: arg_or(block, "path"@, Seq::empty()),
                search: arg_or(block, "search"@, Seq::empty()),
                replace: arg_or(block, "replace"@, Seq::empty()),
                all: says_yes(tag_value(block, "all"@), false),
            },
        )
    } else {
        None
    }
}

/// The call of a tool that runs commands.
pub open spec fn command_call(name: Seq<char>, block: Seq<char>) -> Option<CallView> {
    if name == "bash"@ {
        Some(
            CallView::Bash {
                command: arg_or(block, "command"@, Seq::empty()),
                timeout_secs: arg_timeout(block),
            },
        )
    } else if name == "run_test"@ {
        Some(
            CallView::RunTest {
                command: arg_filled(block, "command"@),
                timeout_secs: arg_timeout(block),
            },
        )
    } else if name == "run_lint"@ {
        Some(
            CallView::RunLint {
                command: arg_filled(block, "command"@),
                timeout_secs: arg_timeout(block),
            },
        )
    } else if name == "bash_session_start"@ {
        Some(
            CallView::BashSessionStart {
                path: arg_or(block, "path"@, "."@),
                shell: arg_or(block, "shell"@, "bash"@),
            },
        )
    } else if name == "bash_session_run"@ {
        Some(
            CallView::BashSessionRun {
                session_id: arg_session(block),
                command: arg_or(block, "command"@, Seq::empty()),
                timeout_secs: arg_timeout(block),
            },
        )
    } else if name == "bash_session_output"@ {
        Some(
            CallView::BashSessionOutput {
                session_id: arg_session(block),
                max_chars: arg_count(block, "max_chars"@, 12_000, 100, 100_000),
            },
        )
    } else if name == "bash_session_kill"@ {
        Some(CallView::BashSessionKill { session_id: arg_session(block) })
    } else {
        None
    }
}

/// The call of a tool that works on the repository.
pub open spec fn git_call(name: Seq<char>, block: Seq<char>) -> Option<CallView> {
    if name == "git_status"@ {
        Some(CallView::GitStatus { short: says_yes(tag_value(block, "short"@), true) })
    } else if name == "git_diff"@ {
        Some(
            CallView::GitDiff {
                staged: says_yes(tag_value(block, "staged"@), false),
                path: arg_filled(block, "path"@),
            },
        )
    } else if name == "git_add"@ {
        Some(
            CallView::GitAdd {
                path: arg_filled(block, "path"@),
                all: says_yes(tag_value(block, "all"@), false),
            },
        )
    } else if name == "git_commit"@ {
        Some(CallView::GitCommit { message: arg_or(block, "message"@, Seq::empty()) })
    } else {
        None
    }
}

/// The call that a tool of this name is asked for in a block. The names of the tools all differ, so
/// the order in which they are tried does not matter.
pub open spec fn named_call(name: Seq<char>, block: Seq<char>) -> CallView {
    match file_call(name, block) {
        Some(call) => call,
        None => match command_call(name, block) {
            Some(call) => call,
            None => match git_call(name, block) {
                Some(call) => call,
                None => CallView::Unknown {
                    requested: if name.len() == 0 {
                        "<missing>"@
                    } else {
                        name
                    },
                },
            },
        },
    }
}

/// The call in a block.
pub open spec fn call_in(block: Seq<char>) -> CallView {
    named_call(tool_asked(block), block)
}

fn take_or(block: &str, tag: &str, default: &str) -> (r: String)
    ensures
        r@ == arg_or(block@, tag@, default@),
{
    match extract_tag_value(block, tag) {
        Some(value) => value,
        None => default.to_owned(),
    }
}

fn take(block: &str, tag: &str) -> (r: String)
    ensures
        r@ == arg_or(block@, tag@, Seq::empty()),
{
    match extract_tag_value(block, tag) {
        Some(value) => value,
        None => String::new(),
    }
}

fn take_filled(block: &str, tag: &str) -> (r: Option<String>)
    ensures
        opt_view(r) == arg_filled(block@, tag@),
{
    match extract_tag_value(block, tag) {
        Some(value) => if is_blank(value.as_str()) {
            None
        } else {
            Some(value)
        },
        None => None,
    }
}

fn take_bool(block: &str, tag: &str, default: bool) -> (r: bool)
    ensures
        r == says_yes(tag_value(block@, tag@), default),
{
    match extract_tag_value(block, tag) {
        Some(value) => parse_bool(Some(value.as_str()), default),
        None => parse_bool(None, default),
    }
}

fn take_line(block: &str, tag: &str) -> (r: Option<usize>)
    ensures
        opt_nat(r) == opt_number(tag_value(block@, tag@), usize::MAX as nat),
{
    match extract_tag_value(block, tag) {
        Some(value) => parse_optional_usize(Some(value.as_str())),
        None => parse_optional_usize(None),
    }
}

fn take_count(block: &str, tag: &str, default: usize, low: usize, high: usize) -> (r: usize)
    ensures
        r == arg_count(block@, tag@, default as nat, low as nat, high as nat),
{
    let n: usize = match extract_tag_value(block, tag) {
        Some(value) => parse_usize(Some(value.as_str()), default),
        None => parse_usize(None, default),
    };
    if n < low {
        low
    } else if n > high {
        high
    } else {
        n
    }
}

fn take_timeout(block: &str) -> (r: u64)
    ensures
        r == arg_timeout(block@),
{
    let n: u64 = match extract_tag_value(block, "timeout_secs") {
        Some(value) => parse_u64(Some(value.as_str()), DEFAULT_BASH_TIMEOUT_SECS),
        None => parse_u64(None, DEFAULT_BASH_TIMEOUT_SECS),
    };
    if n < 1 {
        1
    } else if n > MAX_BASH_TIMEOUT_SECS {
        MAX_BASH_TIMEOUT_SECS
    } else {
        n
    }
}

fn take_session(block: &str) -> (r: u64)
    ensures
        r == arg_session(block@),
{
    match extract_tag_value(block, "session_id") {
        Some(value) => parse_u64(Some(value.as_str()), 0),
        None => parse_u64(None, 0),
    }
}

fn read_file_call(name: &str, block: &str) -> (r: Option<ToolCall>)
    ensures
        match (r, file_call(name@, block@)) {
            (Some(call), Some(want)) => call@ == want,
            (None, None) => true,
            _ => false,
        },
{
    if same(name, "list_files") {
        Some(
            ToolCall::ListFiles {
                path: take_or(block, "path", "."),
                recursive: take_bool(block, "recursive", true),
                max_entries: take_count(block, "max_entries", 400, 1, 2000),
            },
        )
    } else if same(name, "glob_files") {
        Some(
            ToolCall::GlobFiles {
                pattern: take(block, "pattern"),
                base_path: take_or(block, "base_path", "."),
                max_results: take_count(block, "max_results", 800, 1, 10_000),
            },
        )
    } else if same(name, "grep_files") {
        Some(
            ToolCall::GrepFiles {
                query: take(block, "query"),
                base_path: take_or(block, "base_path", "."),
                include_glob: take_filled(block, "include_glob"),
                case_sensitive: take_bool(block, "case_sensitive", false),
                max_results: take_count(block, "max_results", 400, 1, 5_000),
            },
        )
    } else if same(name, "read_file") {
        Some(
            ToolCall::ReadFile {
                path: take(block, "path"),
                start_line: take_line(block, "start_line"),
                end_line: take_line(block, "end_line"),
            },
        )
    } else if same(name, "write_file") {
        Some(ToolCall::WriteFile { path: take(block, "path"), content: take(block, "content") })
    } else if same(name, "append_file") {
        Some(ToolCall::AppendFile { path: take(block, "path"), content: take(block, "content") })
    } else if same(name, "mkdir") {
        Some(ToolCall::Mkdir { path: take(block, "path") })
    } else if same(name, "move_path") {
        Some(ToolCall::MovePath { from: take(block, "from"), to: take(block, "to") })
    } else if same(name, "delete_path") {
        Some(
            ToolCall::DeletePath {
                path: take(block, "path"),
                recursive: take_bool(block, "recursive", false),
            },
        )
    } else if same(name, "apply_patch") {
        Some(
            ToolCall::ApplyPatch {
                path: take(block, "path"),
                search: take(block, "search"),
                replace: take(block, "replace"),
                all: take_bool(block, "all", false),
            },
        )
    } else {
        None
    }
}

fn read_command_call(name: &str, block: &str) -> (r: Option<ToolCall>)
    ensures
        match (r, command_call(name@, block@)) {
            (Some(call), Some(want)) => call@ == want,
            (None, None) => true,
            _ => false,
        },
{
    if same(name, "bash") {
        Some(ToolCall::Bash { command: take(block, "command"), timeout_secs: take_timeout(block) })
    } else if same(name, "run_test") {
        Some(
            ToolCall::RunTest {
                command: take_filled(block, "command"),
                timeout_secs: take_timeout(block),
            },
        )
    } else if same(name, "run_lint") {
        Some(
            ToolCall::RunLint {
                command: take_filled(block, "command"),
                timeout_secs: take_timeout(block),
            },
        )
    } else if same(name, "bash_session_start") {
        Some(
            ToolCall::BashSessionStart {
                path: take_or(block, "path", "."),
                shell: take_or(block, "shell", "bash"),
            },
        )
    } else if same(name, "bash_session_run") {
        Some(
            ToolCall::BashSessionRun {
                session_id: take_session(block),
                command: take(block, "command"),
                timeout_secs: take_timeout(block),
            },
        )
    } else if same(name, "bash_session_output") {
        Some(
            ToolCall::BashSessionOutput {
                session_id: take_session(block),
                max_chars: take_count(block, "max_chars", 12_000, 100, 100_000),
            },
        )
    } else if same(name, "bash_session_kill") {
        Some(ToolCall::BashSessionKill { session_id: take_session(block) })
    } else {
        None
    }
}

fn read_git_call(name: &str, block: &str) -> (r: Option<ToolCall>)
    ensures
        match (r, git_call(name@, block@)) {
            (Some(call), Some(want)) => call@ == want,
            (None, None) => true,
            _ => false,
        },
{
    if same(name, "git_status") {
        Some(ToolCall::GitStatus { short: take_bool(block, "short", true) })
    } else if same(name, "git_diff") {
        Some(
            ToolCall::GitDiff {
                staged: take_bool(block, "staged", false),
                path: take_filled(block, "path"),
            },
        )
    } else if same(name, "git_add") {
        Some(
            ToolCall::GitAdd {
                path: take_filled(block, "path"),
                all: take_bool(block, "all", false),
            },
        )
    } else if same(name, "git_commit") {
        Some(ToolCall::GitCommit { message: take(block, "message") })
    } else {
        None
    }
}

/// The call that a tool of this name is asked for in a block.
pub fn read_named_call(name: &str, block: &str) -> (r: ToolCall)
    ensures
        r@ == named_call(name@, block@),
{
    match read_file_call(name, block) {
        Some(call) => return call,
        None => {},
    }
    match read_command_call(name, block) {
        Some(call) => return call,
        None => {},
    }
    match read_git_call(name, block) {
        Some(call) => return call,
        None => {},
    }
    ToolCall::Unknown {
        requested: if name.is_empty() {
            "<missing>".to_owned()
        } else {
            name.to_owned()
        },
    }
}

/// The call in a block.
pub fn read_call(block: &str) -> (r: ToolCall)
    ensures
        r@ == call_in(block@),
{
    let name: String = match extract_tag_value(block, "tool") {
        Some(name) => name,
        None => match extract_tag_value(block, "name") {
            Some(name) => name,
            None => String::new(),
        },
    };
    let asked: String = to_lowercase(trim(name.as_str()));
    read_named_call(asked.as_str(), block)
}

/// The calls in some blocks.
pub open spec fn calls_in(blocks: Seq<Seq<char>>) -> Seq<CallView> {
    Seq::new(blocks.len(), |i: int| call_in(blocks[i]))
}

/// The calls of tools in what a model says.
pub fn parse_tool_calls(response: &str) -> (r: Vec<ToolCall>)
    ensures
        call_views(r@) == calls_in(call_blocks(response@)),
{
    let blocks: Vec<String> = extract_tool_call_blocks(response);
    let mut calls: Vec<ToolCall> = Vec::new();
    let ghost all = call_blocks(response@);
    let mut i: usize = 0;
    while i < blocks.len()
        invariant
            i <= blocks@.len(),
            views(blocks@) == all,
            call_views(calls@) =~= calls_in(all.take(i as int)),
        decreases blocks@.len() - i,
    {
        let ghost before = calls@;
        assert(all[i as int] == blocks@[i as int]@);
        calls.push(read_call(blocks[i].as_str()));
        assert(call_views(calls@) =~= call_views(before).push(call_in(all[i as int])));
        assert(calls_in(all.take(i + 1)) =~= calls_in(all.take(i as int)).push(
            call_in(all[i as int]),
        ));
        i += 1;
    }
    assert(all.take(i as int) =~= all);
    calls
}

/// The limits of a call: a count lies in its range, and a command has between one second and two
/// minutes.
pub open spec fn limits_kept(call: CallView) -> bool {
    match call {
        CallView::ListFiles { max_entries, .. } => 1 <= max_entries <= 2000,
        CallView::GlobFiles { max_results, .. } => 1 <= max_results <= 10_000,
        CallView::GrepFiles { max_results, .. } => 1 <= max_results <= 5_000,
        CallView::Bash { timeout_secs, .. } => 1 <= timeout_secs <= 120,
        CallView::RunTest { timeout_secs, .. } => 1 <= timeout_secs <= 120,
        CallView::RunLint { timeout_secs, .. } => 1 <= timeout_secs <= 120,
        CallView::BashSessionRun { timeout_secs, .. } => 1 <= timeout_secs <= 120,
        CallView::BashSessionOutput { max_chars, .. } => 100 <= max_chars <= 100_000,
        _ => true,
    }
}

proof fn lemma_limits(name: Seq<char>, block: Seq<char>)
    ensures
        file_call(name, block) matches Some(call) ==> limits_kept(call),
        command_call(name, block) matches Some(call) ==> limits_kept(call),
        git_call(name, block) matches Some(call) ==> limits_kept(call),
{
}

/// Whatever a model writes, the limits of its calls are kept.
pub proof fn law_call_limits(block: Seq<char>)
    ensures
        limits_kept(call_in(block)),
{
    lemma_limits(tool_asked(block), block);
}

} // verus!
