use nanogpt_cli::agent::call::{
    parse_bool, parse_optional_u64, parse_optional_usize, parse_tool_calls, parse_u64, parse_usize,
    ToolCall,
};
use nanogpt_cli::agent::outcome::{
    build_agent_system_prompt, merge_stdio, render_tool_results_prompt, tail_text, truncate_line,
    truncate_text, ToolResult,
};
use nanogpt_cli::agent::path::Workspace;
use nanogpt_cli::agent::turn::{unknown_tool, AgentTurn, AgentTurnRequest, TurnStep};
use nanogpt_cli::agent::xml::{
    escape_cdata, escape_xml, extract_tag_value, extract_tool_call_blocks, unescape_xml,
};

fn one(inner: &str) -> ToolCall {
    let mut calls = parse_tool_calls(&format!("text <tool_call id=\"1\">{}</tool_call> more", inner));
    assert_eq!(calls.len(), 1);
    calls.remove(0)
}

fn shown(inner: &str) -> String {
    format!("{:?}", one(inner))
}

#[test]
fn xml_is_escaped_and_back() {
    let s = "a<b>&\"c'&amp;lt;";
    assert_eq!(escape_xml(s), "a&lt;b&gt;&amp;&quot;c&apos;&amp;amp;lt;");
    assert_eq!(unescape_xml(&escape_xml(s)), s);
    assert_eq!(unescape_xml("&amp;lt;"), "&lt;");
    assert_eq!(escape_cdata("a]]>b"), "a]]]]><![CDATA[>b");
}

#[test]
fn blocks_and_values_are_cut_out() {
    assert_eq!(
        extract_tool_call_blocks("<tool_call>a</tool_call> x <tool_call y=1>b</tool_call><tool_call>c"),
        ["a", "b"]
    );
    assert!(extract_tool_call_blocks("nothing").is_empty());
    assert_eq!(extract_tag_value("<p> a&lt;b </p>", "p").as_deref(), Some("a<b"));
    assert_eq!(
        extract_tag_value("<p> <![CDATA[ x &lt; ]]> </p>", "p").as_deref(),
        Some(" x &lt; ")
    );
    assert_eq!(extract_tag_value("<p>a", "p"), None);
    assert_eq!(extract_tag_value("<q>a</q>", "p"), None);
    let value = "5 < 6 && 'x'";
    let block = format!("<v>{}</v>", escape_xml(value));
    assert_eq!(extract_tag_value(&block, "v").as_deref(), Some(value));
}

#[test]
fn arguments_are_read() {
    assert!(parse_bool(Some(" YES "), false));
    assert!(!parse_bool(Some("nope"), true));
    assert!(parse_bool(Some("  "), true));
    assert!(parse_bool(None, true));
    assert_eq!(parse_usize(Some(" 7 "), 1), 7);
    assert_eq!(parse_usize(Some("-7"), 1), 1);
    assert_eq!(parse_u64(None, 3), 3);
    assert_eq!(parse_optional_u64(Some("")), None);
    assert_eq!(parse_optional_u64(Some("12")), Some(12));
    assert_eq!(parse_optional_usize(Some("x")), None);
}

#[test]
fn calls_are_read_with_their_defaults() {
    assert_eq!(
        shown("<tool>list_files</tool>"),
        "ListFiles { path: \".\", recursive: true, max_entries: 400 }"
    );
    assert_eq!(
        shown("<name> Glob_Files </name><pattern>*.rs</pattern><max_results>0</max_results>"),
        "GlobFiles { pattern: \"*.rs\", base_path: \".\", max_results: 1 }"
    );
    assert_eq!(
        shown("<tool>grep_files</tool><query>x</query><include_glob> </include_glob><max_results>99999</max_results>"),
        "GrepFiles { query: \"x\", base_path: \".\", include_glob: None, case_sensitive: false, max_results: 5000 }"
    );
    assert_eq!(
        shown("<tool>read_file</tool><path>a</path><start_line>2</start_line>"),
        "ReadFile { path: \"a\", start_line: Some(2), end_line: None }"
    );
    assert_eq!(
        shown("<tool>write_file</tool><path>a</path><content><![CDATA[x]]></content>"),
        "WriteFile { path: \"a\", content: \"x\" }"
    );
    assert_eq!(
        shown("<tool>append_file</tool>"),
        "AppendFile { path: \"\", content: \"\" }"
    );
    assert_eq!(
        shown("<tool>bash</tool><command>ls</command><timeout_secs>500</timeout_secs>"),
        "Bash { command: \"ls\", timeout_secs: 120 }"
    );
    assert_eq!(shown("<tool>mkdir</tool><path>d</path>"), "Mkdir { path: \"d\" }");
    assert_eq!(
        shown("<tool>move_path</tool><from>a</from><to>b</to>"),
        "MovePath { from: \"a\", to: \"b\" }"
    );
    assert_eq!(
        shown("<tool>delete_path</tool><path>a</path>"),
        "DeletePath { path: \"a\", recursive: false }"
    );
    assert_eq!(
        shown("<tool>apply_patch</tool><path>a</path><search>x</search><replace>y</replace><all>1</all>"),
        "ApplyPatch { path: \"a\", search: \"x\", replace: \"y\", all: true }"
    );
    assert_eq!(
        shown("<tool>run_test</tool><timeout_secs>0</timeout_secs>"),
        "RunTest { command: None, timeout_secs: 1 }"
    );
    assert_eq!(
        shown("<tool>run_lint</tool><command>l</command>"),
        "RunLint { command: Some(\"l\"), timeout_secs: 20 }"
    );
    assert_eq!(
        shown("<tool>bash_session_start</tool>"),
        "BashSessionStart { path: \".\", shell: \"bash\" }"
    );
    assert_eq!(
        shown("<tool>bash_session_run</tool><session_id>4</session_id><command>pwd</command>"),
        "BashSessionRun { session_id: 4, command: \"pwd\", timeout_secs: 20 }"
    );
    assert_eq!(
        shown("<tool>bash_session_output</tool><max_chars>1</max_chars>"),
        "BashSessionOutput { session_id: 0, max_chars: 100 }"
    );
    assert_eq!(
        shown("<tool>bash_session_kill</tool><session_id>x</session_id>"),
        "BashSessionKill { session_id: 0 }"
    );
    assert_eq!(shown("<tool>git_status</tool>"), "GitStatus { short: true }");
    assert_eq!(
        shown("<tool>git_diff</tool><path> </path>"),
        "GitDiff { staged: false, path: None }"
    );
    assert_eq!(
        shown("<tool>git_add</tool><all>on</all>"),
        "GitAdd { path: None, all: true }"
    );
    assert_eq!(
        shown("<tool>git_commit</tool><message>m</message>"),
        "GitCommit { message: \"m\" }"
    );
    assert_eq!(shown("<tool>Fly</tool>"), "Unknown { requested: \"fly\" }");
    assert_eq!(shown(""), "Unknown { requested: \"<missing>\" }");
}

#[test]
fn long_outputs_are_cut() {
    assert_eq!(truncate_text("abc", 3), "abc");
    assert_eq!(truncate_text("abcd", 3), "abc\n...[truncated]");
    assert_eq!(truncate_line("éééé", 2), "éé...");
    assert_eq!(tail_text("abcd", 2), "...[truncated]\ncd");
    assert_eq!(tail_text("ab", 2), "ab");
    let long = "x".repeat(24_001);
    let result = ToolResult::ok("t", "s".to_string(), &long);
    assert_eq!(result.output.len(), 24_000 + "\n...[truncated]".len());
    assert_eq!(result.status, "ok");
    assert_eq!(ToolResult::error("t", "s".to_string(), "").status, "error");
}

#[test]
fn both_outputs_are_merged() {
    assert_eq!(merge_stdio("a", "b\n"), "stdout:\na\n\nstderr:\nb\n");
    assert_eq!(merge_stdio("  ", "b"), "stderr:\nb\n");
    assert_eq!(merge_stdio("a\n", ""), "stdout:\na\n");
    assert_eq!(merge_stdio("", " \n"), "(no output)");
}

#[test]
fn results_are_told_to_the_model() {
    let results = vec![ToolResult::ok("a&b", "<s>".to_string(), "o]]>p")];
    assert_eq!(
        render_tool_results_prompt(&results),
        "<tool_results>\n  <tool_result>\n    <tool>a&amp;b</tool>\n    <status>ok</status>\n    \
         <summary>&lt;s&gt;</summary>\n    <output><![CDATA[o]]]]><![CDATA[>p]]></output>\n  \
         </tool_result>\n</tool_results>\n\nIf you need more tools, respond with <tool_call> blocks \
         only. If done, answer the user normally."
    );
    let prompt = build_agent_system_prompt(Some("  be kind "), "/w");
    assert!(prompt.starts_with(
        "be kind\n\nYou are an agentic coding assistant. Workspace root: /w.\n\nOnly read/write"
    ));
    assert!(build_agent_system_prompt(Some(" "), "/w").starts_with("You are an agentic"));
    assert!(prompt.contains("\n\n21) git_commit: <message>your commit message</message>\n\n"));
    let unknown = unknown_tool("fly");
    assert_eq!(unknown.summary, "unknown tool requested: fly");
    assert!(unknown.output.starts_with("supported tools: list_files, glob_files"));
}

#[test]
fn a_turn_ends() {
    let workspace = Workspace::new("/w", Some("/w"), true).unwrap();
    let request = AgentTurnRequest {
        model: "m".to_string(),
        system_prompt: None,
        messages: vec![],
        user_input: "do it".to_string(),
        temperature: None,
        max_tokens: None,
        top_p: None,
        service_tier: None,
        reasoning_effort: None,
        billing_mode: None,
        provider: None,
        workspace_root: "/w".to_string(),
    };
    let mut turn = AgentTurn::start(request, &workspace);
    let call = "<tool_call><tool>git_status</tool></tool_call>";
    let many = call.repeat(9);
    for step in 0..8 {
        let ask = turn.next_request().unwrap();
        assert_eq!(ask.messages.len(), 1 + 2 * step);
        match turn.take_answer(&many) {
            TurnStep::Run(calls) => assert_eq!(calls.len(), 8),
            TurnStep::Done(_) => panic!("tools were expected"),
        }
        turn.take_results(many.clone(), &vec![]);
    }
    assert_eq!(turn.tool_call_count, 64);
    assert_eq!(
        turn.next_request().err().unwrap(),
        "agent exceeded max tool iterations (8); ask for a narrower task"
    );
}

#[test]
fn a_plain_answer_ends_the_turn() {
    let workspace = Workspace::new("/w", Some("/w"), true).unwrap();
    let request = AgentTurnRequest {
        model: "m".to_string(),
        system_prompt: Some("s".to_string()),
        messages: vec![],
        user_input: "hi".to_string(),
        temperature: None,
        max_tokens: None,
        top_p: None,
        service_tier: None,
        reasoning_effort: None,
        billing_mode: None,
        provider: None,
        workspace_root: "/w".to_string(),
    };
    let mut turn = AgentTurn::start(request, &workspace);
    match turn.take_answer("done") {
        TurnStep::Done(result) => {
            assert_eq!(result.assistant_message, "done");
            assert_eq!(result.tool_call_count, 0);
        }
        TurnStep::Run(_) => panic!("no tools were expected"),
    }
}

#[test]
fn tagged_values_read_back() {
    for value in ["", " a<b & \"c\" ", "\n'>'\t", "plain", "</t>", "<![CDATA[x]]>"] {
        let block = format!("<t>{}</t>", escape_xml(value));
        assert_eq!(extract_tag_value(&block, "t").unwrap(), value.trim());
    }
    for value in ["", "  a < b &amp; c\n", "]]>", "<t>"] {
        let block = format!("<t><![CDATA[{}]]></t>", value);
        assert_eq!(extract_tag_value(&block, "t").unwrap(), value);
    }
}

fn sections(mut text: &str) -> String {
    let mut out = String::new();
    while !text.is_empty() {
        let (held, rest) = text.strip_prefix("<![CDATA[").unwrap().split_once("]]>").unwrap();
        out.push_str(held);
        text = rest;
    }
    out
}

#[test]
fn escaped_sections_read_back() {
    for text in ["", "]]>", "a]]>b]]>", "]", "]]", "]]]>", "]]]]>>", "<![CDATA[x]]>"] {
        assert_eq!(sections(&format!("<![CDATA[{}]]>", escape_cdata(text))), text);
    }
}
