//! Shell sessions that stay open between calls.
//!
//! The commands of a session run between two markers in its output; how far a command has come is
//! read from what stands between them.

use vstd::prelude::*;

use crate::agent::call::{within, MAX_BASH_TIMEOUT_SECS};
use crate::agent::looking::{Findings, FindingsView};
use crate::agent::outcome::{
    error_view, merge_stdio, ok_view, streams_merged, tail, tail_text, ResultView, ToolResult,
};
use crate::agent::path::{shown_path, LexPath, Workspace};
use crate::agent::running::clamp_timeout;
use crate::ident::{new_uuid_simple, uuid_simple_text};
use crate::number::{
    decimal, parsed_i32, read_i32, signed_decimal, write_decimal, write_signed,
};
use crate::search::{find, lemma_find, one, split_once, starts, find_from};
use crate::text::{
    blank, cat2, cat3, cat4, cat5, chars_of, is_blank, string_range, trim, trimmed,
};

verus! {

/// The shell to start: the given one where it is more than spaces.
pub open spec fn shell_named(shell: Seq<char>) -> Seq<char> {
    if blank(shell) {
        "bash"@
    } else {
        trimmed(shell)
    }
}

/// The shell to start in a directory, or why none can be.
pub open spec fn session_shell(shown: Seq<char>, is_dir: bool, shell: Seq<char>) -> Result<
    Seq<char>,
    Seq<char>,
> {
    if is_dir {
        Ok(shell_named(shell))
    } else {
        Err(shown + " is not a directory"@)
    }
}

/// The shell to start in a directory, or why none can be.
pub fn plan_session(workspace: &Workspace, dir: &LexPath, is_dir: bool, shell: &str) -> (r: Result<
    String,
    String,
>)
    ensures
        match session_shell(shown_path(dir@, workspace.root@), is_dir, shell@) {
            Ok(named) => r matches Ok(s) && s@ == named,
            Err(message) => r matches Err(e) && e@ == message,
        },
{
    if !is_dir {
        let shown: String = workspace.relative_display(dir);
        return Err(cat2(shown.as_str(), " is not a directory"));
    }
    if is_blank(shell) {
        Ok("bash".to_owned())
    } else {
        Ok(trim(shell).to_owned())
    }
}

/// What starting a session found.
pub open spec fn started_view(id: nat, shown: Seq<char>, shell: Seq<char>) -> FindingsView {
    FindingsView {
        summary: "started shell session "@ + decimal(id) + " in "@ + shown,
        output: ("session_id: "@ + decimal(id) + "\nshell: "@ + shell) + "\ncwd: "@ + shown,
    }
}

/// What starting a session found.
pub fn session_started(workspace: &Workspace, dir: &LexPath, id: u64, shell: &str) -> (r: Findings)
    ensures
        r@ == started_view(id as nat, shown_path(dir@, workspace.root@), shell@),
{
    let n: String = write_decimal(id);
    let shown: String = workspace.relative_display(dir);
    let head: String = cat4("session_id: ", n.as_str(), "\nshell: ", shell);
    Findings {
        summary: cat4("started shell session ", n.as_str(), " in ", shown.as_str()),
        output: cat3(head.as_str(), "\ncwd: ", shown.as_str()),
    }
}

/// A command to run in a session.
#[derive(Debug)]
pub struct SessionCommand {
    pub session_id: u64,
    pub timeout_secs: u64,
    /// What the session writes before the command runs.
    pub start_marker: String,
    /// What the session writes after it, in front of its exit code.
    pub end_prefix: String,
    /// What the session is given to run.
    pub script: String,
}

/// The marker before a command.
pub open spec fn start_mark(marker: Seq<char>) -> Seq<char> {
    "__NANOGPT_START_"@ + marker + "__"@
}

/// The marker behind a command.
pub open spec fn end_mark(marker: Seq<char>) -> Seq<char> {
    "__NANOGPT_END_"@ + marker + "__:"@
}

/// What a session is given to run a command between its markers.
pub open spec fn session_script(command: Seq<char>, marker: Seq<char>) -> Seq<char> {
    ("printf '%s\\n' '"@ + start_mark(marker) + "'\n"@ + trimmed(command)
        + "\n__ec=$?\nprintf '%s%s\\n' '"@) + end_mark(marker) + "' \"$__ec\"\n"@
}

/// What is wrong with a call that runs a command in a session.
pub open spec fn session_complaint(session_id: nat, command: Seq<char>) -> Option<Seq<char>> {
    if session_id == 0 {
        Some("session_id is required"@)
    } else if blank(command) {
        Some("command cannot be empty"@)
    } else {
        None
    }
}

/// Whether a session's command is put together from its parts.
pub open spec fn is_session_command(
    c: SessionCommand,
    session_id: nat,
    command: Seq<char>,
    timeout_secs: nat,
    marker: Seq<char>,
) -> bool {
    &&& c.session_id == session_id
    &&& c.timeout_secs == within(timeout_secs, 1, MAX_BASH_TIMEOUT_SECS as nat)
    &&& c.start_marker@ == start_mark(marker)
    &&& c.end_prefix@ == end_mark(marker)
    &&& c.script@ == session_script(command, marker)
}

/// Puts together a command to run in a session, with a given marker.
pub fn session_command_marked(session_id: u64, command: &str, timeout_secs: u64, marker: &str) -> (r:
    Result<SessionCommand, String>)
    ensures
        match session_complaint(session_id as nat, command@) {
            Some(message) => r matches Err(e) && e@ == message,
            None => r matches Ok(c) && is_session_command(
                c,
                session_id as nat,
                command@,
                timeout_secs as nat,
                marker@,
            ),
        },
{
    if session_id == 0 {
        return Err("session_id is required".to_owned());
    }
    if is_blank(command) {
        return Err("command cannot be empty".to_owned());
    }
    let start_marker: String = cat3("__NANOGPT_START_", marker, "__");
    let end_prefix: String = cat3("__NANOGPT_END_", marker, "__:");
    let head: String = cat5(
        "printf '%s\\n' '",
        start_marker.as_str(),
        "'\n",
        trim(command),
        "\n__ec=$?\nprintf '%s%s\\n' '",
    );
    let script: String = cat3(head.as_str(), end_prefix.as_str(), "' \"$__ec\"\n");
    Ok(
        SessionCommand {
            session_id,
            timeout_secs: clamp_timeout(timeout_secs),
            start_marker,
            end_prefix,
            script,
        },
    )
}

/// Puts together a command to run in a session, with a fresh marker.
pub fn session_command(session_id: u64, command: &str, timeout_secs: u64) -> (r: Result<
    SessionCommand,
    String,
>)
    ensures
        match session_complaint(session_id as nat, command@) {
            Some(message) => r matches Err(e) && e@ == message,
            None => r matches Ok(c) && exists|marker: Seq<char>| #[trigger]
                uuid_simple_text(marker) && is_session_command(
                    c,
                    session_id as nat,
                    command@,
                    timeout_secs as nat,
                    marker,
                ),
        },
{
    let marker: String = new_uuid_simple();
    assert(uuid_simple_text(marker@));
    session_command_marked(session_id, command, timeout_secs, marker.as_str())
}

/// An optional exit code as Rust's `{:?}` writes it.
pub open spec fn opt_code_text(code: Option<i32>) -> Seq<char> {
    match code {
        Some(n) => "Some("@ + signed_decimal(n as int) + ")"@,
        None => "None"@,
    }
}

fn write_opt_code(code: Option<i32>) -> (r: String)
    ensures
        r@ == opt_code_text(code),
{
    match code {
        Some(n) => {
            let text: String = write_signed(n);
            cat3("Some(", text.as_str(), ")")
        },
        None => "None".to_owned(),
    }
}

/// Checks that a session was named.
pub fn check_session_id(session_id: u64) -> (r: Result<(), String>)
    ensures
        session_id == 0 ==> (r matches Err(e) && e@ == "session_id is required"@),
        session_id != 0 ==> r is Ok,
{
    if session_id == 0 {
        Err("session_id is required".to_owned())
    } else {
        Ok(())
    }
}

/// What is said of a session that is not there.
pub fn unknown_session(session_id: u64) -> (r: String)
    ensures
        r@ == "unknown session_id: "@ + decimal(session_id as nat),
{
    let n: String = write_decimal(session_id);
    cat2("unknown session_id: ", n.as_str())
}

/// What is said of a session that has ended before a command could run in it.
pub fn session_has_exited(session_id: u64, code: Option<i32>) -> (r: String)
    ensures
        r@ == ("session "@ + decimal(session_id as nat) + " has exited (code: "@ + opt_code_text(
            code,
        )) + ")"@,
{
    let n: String = write_decimal(session_id);
    let c: String = write_opt_code(code);
    let head: String = cat4("session ", n.as_str(), " has exited (code: ", c.as_str());
    cat2(head.as_str(), ")")
}

/// Where the output of a command begins: behind its start marker and the newline after it, or at the
/// very front where there is no start marker.
pub open spec fn payload_start(delta: Seq<char>, start_marker: Seq<char>) -> int {
    match find(delta, start_marker) {
        Some(i) => {
            let after = i + start_marker.len();
            if starts(delta.skip(after), "\n"@) {
                after + 1
            } else {
                after
            }
        },
        None => 0,
    }
}

/// Whether what a session wrote is in order: the start marker does not come behind the end marker.
pub open spec fn markers_in_order(delta: Seq<char>, start_marker: Seq<char>, end_prefix: Seq<char>) -> bool {
    match find(delta, end_prefix) {
        Some(end) => payload_start(delta, start_marker) <= end,
        None => true,
    }
}

/// What a command wrote and its exit code, once its end marker is there; a code that cannot be read
/// counts as 1.
pub open spec fn session_reply(
    delta: Seq<char>,
    start_marker: Seq<char>,
    end_prefix: Seq<char>,
) -> Option<(Seq<char>, int)> {
    match find(delta, end_prefix) {
        None => None,
        Some(end) => {
            let rest = delta.skip(end + end_prefix.len());
            let line = match find(rest, "\n"@) {
                Some(k) => rest.take(k),
                None => rest,
            };
            Some(
                (
                    delta.subrange(payload_start(delta, start_marker), end),
                    match parsed_i32(trimmed(line)) {
                        Some(code) => code,
                        None => 1,
                    },
                ),
            )
        },
    }
}

/// What a command wrote to its standard output, and its exit code.
pub struct SessionReply {
    pub stdout: String,
    pub exit_code: i32,
}

fn find_payload_start(delta: &Vec<char>, start_marker: &Vec<char>) -> (r: usize)
    ensures
        r == payload_start(delta@, start_marker@),
        r <= delta@.len(),
{
    assert(delta@.skip(0) =~= delta@);
    proof {
        lemma_find(delta@, start_marker@);
        reveal_strlit("\n");
    }
    match find_from(delta, start_marker, 0) {
        Some(i) => {
            let after: usize = i + start_marker.len();
            proof {
                let rest = delta@.skip(after as int);
                if rest.len() > 0 {
                    assert(rest.take(1) =~= one(rest[0]));
                }
                assert("\n"@ =~= one('\n'));
                assert(starts(rest, "\n"@) <==> rest.len() > 0 && rest[0] == '\n') by {
                    if rest.len() > 0 && rest[0] == '\n' {
                        assert(rest.take(1) =~= "\n"@);
                    }
                    if starts(rest, "\n"@) {
                        assert(rest.take(1)[0] == "\n"@[0]);
                    }
                }
            }
            if after < delta.len() && delta[after] == '\n' {
                after + 1
            } else {
                after
            }
        },
        None => 0,
    }
}

/// Whether what a session wrote is in order.
pub fn check_markers(delta: &str, start_marker: &str, end_prefix: &str) -> (r: bool)
    ensures
        r == markers_in_order(delta@, start_marker@, end_prefix@),
{
    let chars: Vec<char> = chars_of(delta);
    let start: Vec<char> = chars_of(start_marker);
    let end: Vec<char> = chars_of(end_prefix);
    assert(chars@.skip(0) =~= chars@);
    match find_from(&chars, &end, 0) {
        Some(k) => find_payload_start(&chars, &start) <= k,
        None => true,
    }
}

/// Reads what a command wrote and its exit code.
pub fn read_reply(delta: &str, start_marker: &str, end_prefix: &str) -> (r: Option<SessionReply>)
    requires
        markers_in_order(delta@, start_marker@, end_prefix@),
    ensures
        match session_reply(delta@, start_marker@, end_prefix@) {
            Some((stdout, code)) => r matches Some(reply) && reply.stdout@ == stdout
                && reply.exit_code == code,
            None => r is None,
        },
{
    let chars: Vec<char> = chars_of(delta);
    let start: Vec<char> = chars_of(start_marker);
    let end: Vec<char> = chars_of(end_prefix);
    assert(chars@.skip(0) =~= chars@);
    proof {
        lemma_find(delta@, end_prefix@);
    }
    match find_from(&chars, &end, 0) {
        Some(k) => {
            let from: usize = find_payload_start(&chars, &start);
            let stdout: String = string_range(&chars, from, k);
            let rest: &str = delta.substring_char(k + end.len(), chars.len());
            assert(rest@ =~= delta@.skip(k + end@.len()));
            let line: &str = match split_once(rest, "\n") {
                Some((line, _)) => line,
                None => rest,
            };
            let exit_code: i32 = match read_i32(trim(line)) {
                Some(code) => code,
                None => 1,
            };
            Some(SessionReply { stdout, exit_code })
        },
        None => None,
    }
}

/// What came in since some point: the characters behind the first `before`; nothing where there are
/// fewer.
pub open spec fn since(full: Seq<char>, before: nat) -> Seq<char> {
    if before <= full.len() {
        full.skip(before as int)
    } else {
        Seq::empty()
    }
}

/// What came in since some point.
pub fn text_since(full: &str, before: usize) -> (r: String)
    ensures
        r@ == since(full@, before as nat),
{
    let chars: Vec<char> = chars_of(full);
    if before <= chars.len() {
        let part: String = string_range(&chars, before, chars.len());
        assert(part@ =~= full@.skip(before as int));
        part
    } else {
        String::new()
    }
}

/// How a command in a session ended: a summary, its output, whether it failed, and whether the
/// session is to be stopped.
pub struct SessionEnd {
    pub summary: String,
    pub output: String,
    pub failed: bool,
    pub stop: bool,
}

/// The view of a [`SessionEnd`].
pub struct SessionEndView {
    pub summary: Seq<char>,
    pub output: Seq<char>,
    pub failed: bool,
    pub stop: bool,
}

impl View for SessionEnd {
    type V = SessionEndView;

    open spec fn view(&self) -> SessionEndView {
        SessionEndView {
            summary: self.summary@,
            output: self.output@,
            failed: self.failed,
            stop: self.stop,
        }
    }
}

/// How far a command in a session has come: it may have run out of time, its session may have ended,
/// it may have ended itself, or it still runs. Time is looked at first, then the session.
pub open spec fn session_step(
    c: SessionCommand,
    elapsed_secs: nat,
    exited: Option<Option<i32>>,
    reply: Option<(Seq<char>, int)>,
    stderr: Seq<char>,
) -> Option<SessionEndView> {
    let name = "session "@ + decimal(c.session_id as nat);
    if elapsed_secs >= c.timeout_secs {
        Some(
            SessionEndView {
                summary: name + " command timed out after "@ + decimal(c.timeout_secs as nat) + "s"@,
                output: "session terminated due to timeout"@,
                failed: true,
                stop: true,
            },
        )
    } else {
        match exited {
            Some(code) => Some(
                SessionEndView {
                    summary: name + " exited while running command (code: "@ + opt_code_text(code)
                        + ")"@,
                    output: "(session exited)"@,
                    failed: true,
                    stop: false,
                },
            ),
            None => match reply {
                Some((stdout, code)) => Some(
                    SessionEndView {
                        summary: name + " exited with code "@ + signed_decimal(code),
                        output: streams_merged(stdout, stderr),
                        failed: code != 0,
                        stop: false,
                    },
                ),
                None => None,
            },
        }
    }
}

/// Whether what the session wrote decides how far a command has come: there is still time, and the
/// session has not ended.
pub open spec fn reply_decides(c: SessionCommand, elapsed_secs: nat, has_exited: bool) -> bool {
    elapsed_secs < c.timeout_secs && !has_exited
}

/// Whether what the session wrote has to be read.
pub fn wants_reply(c: &SessionCommand, elapsed_secs: u64, has_exited: bool) -> (r: bool)
    ensures
        r == reply_decides(*c, elapsed_secs as nat, has_exited),
{
    elapsed_secs < c.timeout_secs && !has_exited
}

/// Looks how far a command in a session has come; `reply` is what was read from the session's
/// output.
pub fn poll_session(
    c: &SessionCommand,
    elapsed_secs: u64,
    exited: Option<Option<i32>>,
    reply: Option<SessionReply>,
    stderr: &str,
) -> (r: Option<SessionEnd>)
    ensures
        match session_step(
            *c,
            elapsed_secs as nat,
            exited,
            match reply {
                Some(p) => Some((p.stdout@, p.exit_code as int)),
                None => None,
            },
            stderr@,
        ) {
            Some(end) => r matches Some(e) && e@ == end,
            None => r is None,
        },
{
    let n: String = write_decimal(c.session_id);
    let name: String = cat2("session ", n.as_str());
    if elapsed_secs >= c.timeout_secs {
        let limit: String = write_decimal(c.timeout_secs);
        return Some(
            SessionEnd {
                summary: cat4(name.as_str(), " command timed out after ", limit.as_str(), "s"),
                output: "session terminated due to timeout".to_owned(),
                failed: true,
                stop: true,
            },
        );
    }
    match exited {
        Some(code) => {
            let text: String = write_opt_code(code);
            Some(
                SessionEnd {
                    summary: cat4(
                        name.as_str(),
                        " exited while running command (code: ",
                        text.as_str(),
                        ")",
                    ),
                    output: "(session exited)".to_owned(),
                    failed: true,
                    stop: false,
                },
            )
        },
        None => match reply {
            Some(p) => {
                let code: String = write_signed(p.exit_code);
                Some(
                    SessionEnd {
                        summary: cat3(name.as_str(), " exited with code ", code.as_str()),
                        output: merge_stdio(p.stdout.as_str(), stderr),
                        failed: p.exit_code != 0,
                        stop: false,
                    },
                )
            },
            None => None,
        },
    }
}

/// A session is stopped exactly where its command ran out of time, which is then a failure; what the
/// session wrote matters only where it decides.
pub proof fn law_late_sessions_are_stopped(
    c: SessionCommand,
    elapsed_secs: nat,
    exited: Option<Option<i32>>,
    reply: Option<(Seq<char>, int)>,
    stderr: Seq<char>,
)
    ensures
        (session_step(c, elapsed_secs, exited, reply, stderr) matches Some(end) && end.stop)
            <==> elapsed_secs >= c.timeout_secs,
        session_step(c, elapsed_secs, exited, reply, stderr) matches Some(end) ==> end.stop
            ==> end.failed,
        !reply_decides(c, elapsed_secs, exited is Some) ==> session_step(
            c,
            elapsed_secs,
            exited,
            reply,
            stderr,
        ) == session_step(c, elapsed_secs, exited, None, stderr),
{
}

/// What the tool that runs a command in a session gives back.
pub open spec fn session_run_view(end: Result<SessionEndView, Seq<char>>) -> ResultView {
    match end {
        Ok(e) => if e.failed {
            error_view("bash_session_run"@, e.summary, e.output)
        } else {
            ok_view("bash_session_run"@, e.summary, e.output)
        },
        Err(message) => error_view("bash_session_run"@, "failed to run session command"@, message),
    }
}

/// What the tool that runs a command in a session gives back.
pub fn session_run_result(end: Result<SessionEnd, String>) -> (r: ToolResult)
    ensures
        r@ == session_run_view(
            match end {
                Ok(e) => Ok(e@),
                Err(message) => Err(message@),
            },
        ),
{
    match end {
        Ok(e) => if e.failed {
            ToolResult::error("bash_session_run", e.summary, e.output.as_str())
        } else {
            ToolResult::ok("bash_session_run", e.summary, e.output.as_str())
        },
        Err(message) => ToolResult::error(
            "bash_session_run",
            "failed to run session command".to_owned(),
            message.as_str(),
        ),
    }
}

/// The state of a session as it is shown.
pub open spec fn session_state(exited: Option<Option<i32>>) -> Seq<char> {
    match exited {
        Some(code) => "exited("@ + opt_code_text(code) + ")"@,
        None => "running"@,
    }
}

/// What is shown of a session's output: its end, up to `max_chars` characters, but never less than a
/// hundred.
pub open spec fn session_output_view(
    session_id: nat,
    exited: Option<Option<i32>>,
    stdout: Seq<char>,
    stderr: Seq<char>,
    max_chars: nat,
) -> FindingsView {
    let shown = tail(
        streams_merged(stdout, stderr),
        if max_chars < 100 {
            100
        } else {
            max_chars
        },
    );
    FindingsView {
        summary: "session "@ + decimal(session_id) + " output ("@ + session_state(exited) + ")"@,
        output: if blank(shown) {
            "(no output)"@
        } else {
            shown
        },
    }
}

/// Shows a session's output.
pub fn session_output(
    session_id: u64,
    exited: Option<Option<i32>>,
    stdout: &str,
    stderr: &str,
    max_chars: usize,
) -> (r: Findings)
    ensures
        r@ == session_output_view(session_id as nat, exited, stdout@, stderr@, max_chars as nat),
{
    let n: String = write_decimal(session_id);
    let state: String = match exited {
        Some(code) => {
            let text: String = write_opt_code(code);
            cat3("exited(", text.as_str(), ")")
        },
        None => "running".to_owned(),
    };
    let merged: String = merge_stdio(stdout, stderr);
    let kept: usize = if max_chars < 100 {
        100
    } else {
        max_chars
    };
    let shown: String = tail_text(merged.as_str(), kept);
    Findings {
        summary: cat5("session ", n.as_str(), " output (", state.as_str(), ")"),
        output: if is_blank(shown.as_str()) {
            "(no output)".to_owned()
        } else {
            shown
        },
    }
}

/// What was done when a session was ended.
pub fn session_killed(session_id: u64) -> (r: String)
    ensures
        r@ == "killed session "@ + decimal(session_id as nat),
{
    let n: String = write_decimal(session_id);
    cat2("killed session ", n.as_str())
}

proof fn lemma_signed_is_a_word(code: i32)
    ensures
        trimmed(signed_decimal(code as int)) == signed_decimal(code as int),
        find(signed_decimal(code as int) + "\n"@, "\n"@) == Some(
            signed_decimal(code as int).len() as int,
        ),
{
    let text = signed_decimal(code as int);
    let magnitude = if code < 0 {
        decimal((-code) as nat)
    } else {
        decimal(code as nat)
    };
    crate::number::lemma_decimal_digits((if code < 0 { -code } else { code as int }) as nat);
    assert forall|i: int| 0 <= i < text.len() implies crate::number::is_digit(#[trigger] text[i])
        || text[i] == '-' by {
        if code < 0 && i > 0 {
            assert(text[i] == magnitude[i - 1]);
        } else if code >= 0 {
            assert(text[i] == magnitude[i]);
        }
    }
    assert(text.len() > 0);
    assert(text.last() == text[text.len() - 1]);
    crate::text::lemma_trimmed_is_same(text);
    reveal_strlit("\n");
    let line = text + "\n"@;
    let k = text.len() as int;
    assert(line.subrange(k, k + 1) =~= "\n"@);
    assert forall|j: int| 0 <= j < k implies !crate::search::occurs_at(line, "\n"@, j) by {
        if crate::search::occurs_at(line, "\n"@, j) {
            assert(line.subrange(j, j + 1)[0] == text[j]);
        }
    }
    crate::search::lemma_find_at(line, "\n"@, k);
}

/// What a session writes for a command: the start marker, what the command writes, and the end
/// marker with its exit code.
pub open spec fn session_writes(
    start_marker: Seq<char>,
    end_prefix: Seq<char>,
    stdout: Seq<char>,
    code: i32,
) -> Seq<char> {
    start_marker + "\n"@ + stdout + end_prefix + signed_decimal(code as int) + "\n"@
}

/// What a command wrote between its markers reads back, with its exit code, where the end marker
/// does not begin before its place.
pub proof fn law_reply_reads_back(
    start_marker: Seq<char>,
    end_prefix: Seq<char>,
    stdout: Seq<char>,
    code: i32,
)
    requires
        forall|j: int|
            0 <= j < start_marker.len() + 1 + stdout.len() ==> !crate::search::occurs_at(
                session_writes(start_marker, end_prefix, stdout, code),
                end_prefix,
                j,
            ),
    ensures
        session_reply(
            session_writes(start_marker, end_prefix, stdout, code),
            start_marker,
            end_prefix,
        ) == Some((stdout, code as int)),
{
    let text = signed_decimal(code as int);
    let delta = session_writes(start_marker, end_prefix, stdout, code);
    reveal_strlit("\n");
    assert(delta.subrange(0, start_marker.len() as int) =~= start_marker);
    crate::search::lemma_find_at(delta, start_marker, 0);
    let after = start_marker.len() as int;
    assert(delta.skip(after).take(1) =~= "\n"@);
    let end = start_marker.len() as int + 1 + stdout.len();
    assert(delta.subrange(end, end + end_prefix.len()) =~= end_prefix);
    crate::search::lemma_find_at(delta, end_prefix, end);
    assert(delta.skip(end + end_prefix.len()) =~= text + "\n"@);
    assert((text + "\n"@).take(text.len() as int) =~= text);
    assert(delta.subrange(after + 1, end) =~= stdout);
    lemma_signed_is_a_word(code);
    crate::number::law_signed_reads_back(code);
}

} // verus!
