//! What the tools give back, and what the agent is told.

use vstd::prelude::*;

use crate::agent::xml::{cdata_escaped, escape_cdata, escape_xml, escaped};
use crate::lines::{join, joined};
use crate::text::{
    blank, cat2, cat3, cat4, cat5, chars_of, is_blank, opt_str_view, string_range, trim, trimmed, views,
};

verus! {

/// How many characters of a tool's output are kept.
pub const MAX_TOOL_OUTPUT_CHARS: usize = 24_000;

/// What a tool gives back.
#[derive(Debug)]
pub struct ToolResult {
    pub tool: String,
    pub status: &'static str,
    pub summary: String,
    pub output: String,
}

/// The view of a [`ToolResult`].
pub struct ResultView {
    pub tool: Seq<char>,
    pub status: Seq<char>,
    pub summary: Seq<char>,
    pub output: Seq<char>,
}

impl View for ToolResult {
    type V = ResultView;

    open spec fn view(&self) -> ResultView {
        ResultView {
            tool: self.tool@,
            status: self.status@,
            summary: self.summary@,
            output: self.output@,
        }
    }
}

/// The views of a list of results.
pub open spec fn result_views(results: Seq<ToolResult>) -> Seq<ResultView> {
    Seq::new(results.len(), |i: int| results[i]@)
}

/// A text cut to `max` characters, with a mark behind it where something was cut off.
pub open spec fn cut(s: Seq<char>, max: nat, mark: Seq<char>) -> Seq<char> {
    if s.len() <= max {
        s
    } else {
        s.take(max as int) + mark
    }
}

/// The last `max` characters of a text, with a mark in front where something was cut off.
pub open spec fn tail(s: Seq<char>, max: nat) -> Seq<char> {
    if s.len() <= max {
        s
    } else {
        "...[truncated]\n"@ + s.skip(s.len() - max)
    }
}

fn cut_text(input: &str, max_chars: usize, mark: &str) -> (r: String)
    ensures
        r@ == cut(input@, max_chars as nat, mark@),
{
    let chars: Vec<char> = chars_of(input);
    if chars.len() <= max_chars {
        return input.to_owned();
    }
    let kept: String = string_range(&chars, 0, max_chars);
    assert(kept@ =~= input@.take(max_chars as int));
    cat2(kept.as_str(), mark)
}

/// Cuts a text to `max_chars` characters.
pub fn truncate_text(input: &str, max_chars: usize) -> (r: String)
    ensures
        r@ == cut(input@, max_chars as nat, "\n...[truncated]"@),
{
    cut_text(input, max_chars, "\n...[truncated]")
}

/// Cuts a line to `max_chars` characters.
pub fn truncate_line(line: &str, max_chars: usize) -> (r: String)
    ensures
        r@ == cut(line@, max_chars as nat, "..."@),
{
    cut_text(line, max_chars, "...")
}

/// The last `max_chars` characters of a text.
pub fn tail_text(input: &str, max_chars: usize) -> (r: String)
    ensures
        r@ == tail(input@, max_chars as nat),
{
    let chars: Vec<char> = chars_of(input);
    if chars.len() <= max_chars {
        return input.to_owned();
    }
    let kept: String = string_range(&chars, chars.len() - max_chars, chars.len());
    assert(kept@ =~= input@.skip(input@.len() - max_chars));
    cat2("...[truncated]\n", kept.as_str())
}

/// What a tool gives back when it did its work.
pub open spec fn ok_view(tool: Seq<char>, summary: Seq<char>, output: Seq<char>) -> ResultView {
    ResultView {
        tool,
        status: "ok"@,
        summary,
        output: cut(output, MAX_TOOL_OUTPUT_CHARS as nat, "\n...[truncated]"@),
    }
}

/// What a tool gives back when it could not do its work.
pub open spec fn error_view(tool: Seq<char>, summary: Seq<char>, output: Seq<char>) -> ResultView {
    ResultView {
        tool,
        status: "error"@,
        summary,
        output: cut(output, MAX_TOOL_OUTPUT_CHARS as nat, "\n...[truncated]"@),
    }
}

impl ToolResult {
    /// What a tool gives back when it did its work.
    pub fn ok(tool: &str, summary: String, output: &str) -> (r: ToolResult)
        ensures
            r@ == ok_view(tool@, summary@, output@),
    {
        ToolResult {
            tool: tool.to_owned(),
            status: "ok",
            summary,
            output: truncate_text(output, MAX_TOOL_OUTPUT_CHARS),
        }
    }

    /// What a tool gives back when it could not do its work.
    pub fn error(tool: &str, summary: String, output: &str) -> (r: ToolResult)
        ensures
            r@ == error_view(tool@, summary@, output@),
    {
        ToolResult {
            tool: tool.to_owned(),
            status: "error",
            summary,
            output: truncate_text(output, MAX_TOOL_OUTPUT_CHARS),
        }
    }
}

/// What a command wrote to one of its streams, under a heading; nothing where it wrote no more than
/// spaces.
pub open spec fn stream_part(heading: Seq<char>, s: Seq<char>) -> Seq<char> {
    if blank(s) {
        Seq::empty()
    } else if s.last() == '\n' {
        heading + s
    } else {
        heading + s + "\n"@
    }
}

/// What a command wrote to its two streams.
pub open spec fn streams_merged(stdout: Seq<char>, stderr: Seq<char>) -> Seq<char> {
    if blank(stdout) && blank(stderr) {
        "(no output)"@
    } else if blank(stdout) {
        stream_part("stderr:\n"@, stderr)
    } else if blank(stderr) {
        stream_part("stdout:\n"@, stdout)
    } else {
        stream_part("stdout:\n"@, stdout) + "\n"@ + stream_part("stderr:\n"@, stderr)
    }
}

fn write_part(heading: &str, s: &str) -> (r: String)
    ensures
        r@ == stream_part(heading@, s@),
{
    if is_blank(s) {
        return String::new();
    }
    let chars: Vec<char> = chars_of(s);
    proof {
        if chars@.len() == 0 {
            assert(crate::text::trimmed_start(s@) == s@);
        }
    }
    if chars[chars.len() - 1] == '\n' {
        cat2(heading, s)
    } else {
        cat3(heading, s, "\n")
    }
}

/// Puts together what a command wrote to its two streams.
pub fn merge_stdio(stdout: &str, stderr: &str) -> (r: String)
    ensures
        r@ == streams_merged(stdout@, stderr@),
{
    let out: String = write_part("stdout:\n", stdout);
    let err: String = write_part("stderr:\n", stderr);
    if is_blank(stdout) {
        if is_blank(stderr) {
            "(no output)".to_owned()
        } else {
            err
        }
    } else if is_blank(stderr) {
        out
    } else {
        cat3(out.as_str(), "\n", err.as_str())
    }
}

/// A line with a text between two tags.
pub open spec fn tag_line(open: Seq<char>, text: Seq<char>, close: Seq<char>) -> Seq<char> {
    open + text + close
}

/// One result, as the model reads it.
pub open spec fn result_block(result: ResultView) -> Seq<char> {
    "  <tool_result>\n"@ + tag_line("    <tool>"@, escaped(result.tool), "</tool>\n"@) + tag_line(
        "    <status>"@,
        escaped(result.status),
        "</status>\n"@,
    ) + tag_line("    <summary>"@, escaped(result.summary), "</summary>\n"@) + (tag_line(
        "    <output><![CDATA["@,
        cdata_escaped(result.output),
        "]]></output>\n"@,
    ) + "  </tool_result>\n"@)
}

/// Results, as the model reads them, one behind the other.
pub open spec fn result_blocks(results: Seq<ResultView>) -> Seq<char>
    decreases results.len(),
{
    if results.len() == 0 {
        Seq::empty()
    } else {
        result_blocks(results.drop_last()) + result_block(results.last())
    }
}

/// What the model is told of the results of its calls.
pub open spec fn results_prompt(results: Seq<ResultView>) -> Seq<char> {
    "<tool_results>\n"@ + result_blocks(results) + "</tool_results>\n\n"@
        + "If you need more tools, respond with <tool_call> blocks only. If done, answer the user normally."@
}

fn write_result(result: &ToolResult) -> (r: String)
    ensures
        r@ == result_block(result@),
{
    let tool: String = escape_xml(result.tool.as_str());
    let status: String = escape_xml(result.status);
    let summary: String = escape_xml(result.summary.as_str());
    let output: String = escape_cdata(result.output.as_str());
    let a: String = cat3("    <tool>", tool.as_str(), "</tool>\n");
    let b: String = cat3("    <status>", status.as_str(), "</status>\n");
    let c: String = cat3("    <summary>", summary.as_str(), "</summary>\n");
    let d: String = cat3("    <output><![CDATA[", output.as_str(), "]]></output>\n");
    let e: String = cat2(d.as_str(), "  </tool_result>\n");
    cat5("  <tool_result>\n", a.as_str(), b.as_str(), c.as_str(), e.as_str())
}

/// Writes what the model is told of the results of its calls.
pub fn render_tool_results_prompt(results: &Vec<ToolResult>) -> (r: String)
    ensures
        r@ == results_prompt(result_views(results@)),
{
    let mut blocks: String = String::new();
    let ghost all = result_views(results@);
    let mut i: usize = 0;
    while i < results.len()
        invariant
            i <= results@.len(),
            all == result_views(results@),
            blocks@ == result_blocks(all.take(i as int)),
        decreases results@.len() - i,
    {
        assert(all.take(i + 1).drop_last() =~= all.take(i as int));
        assert(all.take(i + 1).last() == results@[i as int]@);
        let block: String = write_result(&results[i]);
        blocks = cat2(blocks.as_str(), block.as_str());
        i += 1;
    }
    assert(all.take(i as int) =~= all);
    cat4(
        "<tool_results>\n",
        blocks.as_str(),
        "</tool_results>\n\n",
        "If you need more tools, respond with <tool_call> blocks only. If done, answer the user normally.",
    )
}

/// The paragraphs that the agent is told: what the user has to say, where that is more than spaces,
/// then where it works, its tools and how to call them.
pub open spec fn prompt_parts(system: Option<Seq<char>>, root: Seq<char>) -> Seq<Seq<char>> {
    let p: Seq<Seq<char>> = match system {
        Some(text) => if blank(text) {
            Seq::empty()
        } else {
            Seq::empty().push(trimmed(text))
        },
        None => Seq::empty(),
    };
    let p = p.push("You are an agentic coding assistant. Workspace root: "@ + root + "."@);
    let p = p.push("Only read/write files inside the workspace root. Never use paths outside it."@);
    let p = p.push("When you need tools, respond with one or more XML blocks and no extra text."@);
    let p = p.push("Tool call schema:\n<tool_call>\n  <tool>TOOL_NAME</tool>\n  ...args...\n</tool_call>"@);
    let p = p.push("Available tools:"@);
    let p = p.push("1) list_files: <path>relative-or-absolute</path> optional <recursive>true|false</recursive> optional <max_entries>400</max_entries>"@);
    let p = p.push("2) glob_files: <pattern>src/**/*.rs</pattern> optional <base_path>.</base_path> optional <max_results>800</max_results>"@);
    let p = p.push("3) grep_files: <query>needle</query> optional <base_path>.</base_path> optional <include_glob>src/**/*.rs</include_glob> optional <case_sensitive>false</case_sensitive> optional <max_results>400</max_results>"@);
    let p = p.push("4) read_file: <path>...</path> optional <start_line>1</start_line> optional <end_line>200</end_line>"@);
    let p = p.push("5) write_file: <path>...</path> <content><![CDATA[...]]></content> (overwrite/create)"@);
    let p = p.push("6) append_file: <path>...</path> <content><![CDATA[...]]></content>"@);
    let p = p.push("7) mkdir: <path>relative-or-absolute</path>"@);
    let p = p.push("8) move_path: <from>old/path</from> <to>new/path</to>"@);
    let p = p.push("9) delete_path: <path>...</path> optional <recursive>true|false</recursive>"@);
    let p = p.push("10) bash: <command><![CDATA[...]]></command> optional <timeout_secs>20</timeout_secs>"@);
    let p = p.push("11) apply_patch: <path>...</path> <search><![CDATA[...]]></search> <replace><![CDATA[...]]></replace> optional <all>true|false</all>"@);
    let p = p.push("12) run_test: optional <command><![CDATA[...]]></command> optional <timeout_secs>20</timeout_secs>"@);
    let p = p.push("13) run_lint: optional <command><![CDATA[...]]></command> optional <timeout_secs>20</timeout_secs>"@);
    let p = p.push("14) bash_session_start: optional <path>.</path> optional <shell>bash</shell>"@);
    let p = p.push("15) bash_session_run: <session_id>1</session_id> <command><![CDATA[pwd]]></command> optional <timeout_secs>20</timeout_secs>"@);
    let p = p.push("16) bash_session_output: <session_id>1</session_id> optional <max_chars>12000</max_chars>"@);
    let p = p.push("17) bash_session_kill: <session_id>1</session_id>"@);
    let p = p.push("18) git_status: optional <short>true|false</short>"@);
    let p = p.push("19) git_diff: optional <staged>true|false</staged> optional <path>src/main.rs</path>"@);
    let p = p.push("20) git_add: optional <path>src/main.rs</path> optional <all>true|false</all>"@);
    let p = p.push("21) git_commit: <message>your commit message</message>"@);
    let p = p.push("Use relative paths when possible. Keep tool arguments minimal and valid XML."@);
    p.push("After tool results arrive, either call more tools or provide the final user-facing answer (normal text, no XML)."@)
}

fn add_part(parts: &mut Vec<String>, text: &str)
    ensures
        views(final(parts)@) == views(old(parts)@).push(text@),
{
    let ghost before = parts@;
    parts.push(text.to_owned());
    assert(views(parts@) =~= views(before).push(text@));
}

/// What the agent is told before the conversation.
pub fn build_agent_system_prompt(system: Option<&str>, root: &str) -> (r: String)
    ensures
        r@ == joined(prompt_parts(opt_str_view(system), root@), "\n\n"@),
{
    let mut parts: Vec<String> = Vec::new();
    assert(views(parts@) =~= Seq::empty());
    if let Some(text) = system {
        if !is_blank(text) {
            add_part(&mut parts, trim(text));
        }
    }
    let place: String = cat3(
        "You are an agentic coding assistant. Workspace root: ",
        root,
        ".",
    );
    add_part(&mut parts, place.as_str());
    add_part(&mut parts, "Only read/write files inside the workspace root. Never use paths outside it.");
    add_part(&mut parts, "When you need tools, respond with one or more XML blocks and no extra text.");
    add_part(&mut parts, "Tool call schema:\n<tool_call>\n  <tool>TOOL_NAME</tool>\n  ...args...\n</tool_call>");
    add_part(&mut parts, "Available tools:");
    add_part(&mut parts, "1) list_files: <path>relative-or-absolute</path> optional <recursive>true|false</recursive> optional <max_entries>400</max_entries>");
    add_part(&mut parts, "2) glob_files: <pattern>src/**/*.rs</pattern> optional <base_path>.</base_path> optional <max_results>800</max_results>");
    add_part(&mut parts, "3) grep_files: <query>needle</query> optional <base_path>.</base_path> optional <include_glob>src/**/*.rs</include_glob> optional <case_sensitive>false</case_sensitive> optional <max_results>400</max_results>");
    add_part(&mut parts, "4) read_file: <path>...</path> optional <start_line>1</start_line> optional <end_line>200</end_line>");
    add_part(&mut parts, "5) write_file: <path>...</path> <content><![CDATA[...]]></content> (overwrite/create)");
    add_part(&mut parts, "6) append_file: <path>...</path> <content><![CDATA[...]]></content>");
    add_part(&mut parts, "7) mkdir: <path>relative-or-absolute</path>");
    add_part(&mut parts, "8) move_path: <from>old/path</from> <to>new/path</to>");
    add_part(&mut parts, "9) delete_path: <path>...</path> optional <recursive>true|false</recursive>");
    add_part(&mut parts, "10) bash: <command><![CDATA[...]]></command> optional <timeout_secs>20</timeout_secs>");
    add_part(&mut parts, "11) apply_patch: <path>...</path> <search><![CDATA[...]]></search> <replace><![CDATA[...]]></replace> optional <all>true|false</all>");
    add_part(&mut parts, "12) run_test: optional <command><![CDATA[...]]></command> optional <timeout_secs>20</timeout_secs>");
    add_part(&mut parts, "13) run_lint: optional <command><![CDATA[...]]></command> optional <timeout_secs>20</timeout_secs>");
    add_part(&mut parts, "14) bash_session_start: optional <path>.</path> optional <shell>bash</shell>");
    add_part(&mut parts, "15) bash_session_run: <session_id>1</session_id> <command><![CDATA[pwd]]></command> optional <timeout_secs>20</timeout_secs>");
    add_part(&mut parts, "16) bash_session_output: <session_id>1</session_id> optional <max_chars>12000</max_chars>");
    add_part(&mut parts, "17) bash_session_kill: <session_id>1</session_id>");
    add_part(&mut parts, "18) git_status: optional <short>true|false</short>");
    add_part(&mut parts, "19) git_diff: optional <staged>true|false</staged> optional <path>src/main.rs</path>");
    add_part(&mut parts, "20) git_add: optional <path>src/main.rs</path> optional <all>true|false</all>");
    add_part(&mut parts, "21) git_commit: <message>your commit message</message>");
    add_part(&mut parts, "Use relative paths when possible. Keep tool arguments minimal and valid XML.");
    add_part(&mut parts, "After tool results arrive, either call more tools or provide the final user-facing answer (normal text, no XML).");
    join(&parts, "\n\n")
}

/// No more of a tool's output reaches the model than is kept of it, and the mark that it was cut.
pub proof fn law_output_is_bounded(tool: Seq<char>, summary: Seq<char>, output: Seq<char>)
    ensures
        ok_view(tool, summary, output).output.len() <= MAX_TOOL_OUTPUT_CHARS + 15,
        error_view(tool, summary, output).output.len() <= MAX_TOOL_OUTPUT_CHARS + 15,
        output.len() <= MAX_TOOL_OUTPUT_CHARS ==> ok_view(tool, summary, output).output == output,
{
    reveal_strlit("\n...[truncated]");
}

} // verus!
