//! One turn of the agent: asking the model, running the tools that it calls, and asking again.

use vstd::prelude::*;

use crate::agent::call::{call_views, calls_in, parse_tool_calls, CallView, ToolCall};
use crate::agent::outcome::{
    build_agent_system_prompt, error_view, prompt_parts, render_tool_results_prompt, result_views,
    results_prompt, ResultView, ToolResult,
};
use crate::agent::path::{path_text, Workspace};
use crate::agent::xml::call_blocks;
use crate::client::{ChatRequest, ChatRequestView};
use crate::conversation::{
    assistant_says, copy_messages, message_views, push_message, user_says, ConversationMessage,
};
use crate::json::{copy_opt_json, opt_json, Json};
use crate::lines::joined;
use crate::text::{cat2, copy_opt, opt_view};

verus! {

/// How often the model may be asked in one turn.
pub const MAX_AGENT_STEPS: usize = 8;

/// How many of the tools that it calls at once are run.
pub const MAX_TOOL_CALLS_PER_STEP: usize = 8;

/// What the agent is to do.
pub struct AgentTurnRequest {
    pub model: String,
    pub system_prompt: Option<String>,
    pub messages: Vec<ConversationMessage>,
    pub user_input: String,
    pub temperature: Option<Json>,
    pub max_tokens: Option<u32>,
    pub top_p: Option<Json>,
    pub service_tier: Option<String>,
    pub reasoning_effort: Option<String>,
    pub billing_mode: Option<String>,
    pub provider: Option<String>,
    /// The directory that the tools work in.
    pub workspace_root: String,
}

/// What the agent did.
#[derive(Debug, Clone)]
pub struct AgentTurnResult {
    pub assistant_message: String,
    pub tool_call_count: usize,
}

/// A turn under way.
pub struct AgentTurn {
    /// What the model is asked next.
    pub ask: ChatRequest,
    /// How often it was asked and called tools.
    pub step: usize,
    pub tool_call_count: usize,
}

/// What comes next in a turn.
pub enum TurnStep {
    /// The turn is over.
    Done(AgentTurnResult),
    /// These tools are to be run.
    Run(Vec<ToolCall>),
}

/// What the agent is told before the conversation.
pub open spec fn agent_prompt(request: AgentTurnRequest, workspace: Workspace) -> Seq<char> {
    joined(prompt_parts(opt_view(request.system_prompt), path_text(workspace.root@)), "\n\n"@)
}

/// What the model is asked first.
pub open spec fn first_ask(request: AgentTurnRequest, workspace: Workspace) -> ChatRequestView {
    ChatRequestView {
        model: request.model@,
        system_prompt: Some(agent_prompt(request, workspace)),
        messages: message_views(request.messages@).push(user_says(request.user_input@)),
        temperature: opt_json(request.temperature),
        max_tokens: request.max_tokens,
        top_p: opt_json(request.top_p),
        service_tier: opt_view(request.service_tier),
        reasoning_effort: opt_view(request.reasoning_effort),
        billing_mode: opt_view(request.billing_mode),
        provider: opt_view(request.provider),
    }
}

/// The tools that are run of those that an answer calls.
pub open spec fn calls_to_run(answer: Seq<char>) -> Seq<CallView> {
    let calls = calls_in(call_blocks(answer));
    if calls.len() > MAX_TOOL_CALLS_PER_STEP {
        calls.take(MAX_TOOL_CALLS_PER_STEP as int)
    } else {
        calls
    }
}

/// What the model is asked once the tools that it called have run.
pub open spec fn asked_again(
    ask: ChatRequestView,
    answer: Seq<char>,
    results: Seq<ResultView>,
) -> ChatRequestView {
    ChatRequestView {
        messages: ask.messages.push(assistant_says(answer)).push(user_says(results_prompt(results))),
        ..ask
    }
}

/// Whether the model may be asked once more.
pub open spec fn may_ask(step: nat) -> bool {
    step < MAX_AGENT_STEPS
}

/// Whether a step is what comes behind an answer, where so many tools have run before: the turn is over
/// where the answer calls no tool, and else those that it calls are run.
pub open spec fn is_step_after(step: TurnStep, answer: Seq<char>, ran: nat) -> bool {
    if calls_to_run(answer).len() == 0 {
        step matches TurnStep::Done(result) && result.assistant_message@ == answer
            && result.tool_call_count == ran
    } else {
        step matches TurnStep::Run(calls) && call_views(calls@) == calls_to_run(answer)
    }
}

/// What is said when a turn takes too long.
pub open spec fn too_many_steps() -> Seq<char> {
    "agent exceeded max tool iterations (8); ask for a narrower task"@
}

fn copy_request(req: &ChatRequest) -> (r: ChatRequest)
    ensures
        r@ == req@,
{
    ChatRequest {
        model: req.model.clone(),
        system_prompt: copy_opt(&req.system_prompt),
        messages: copy_messages(&req.messages),
        temperature: copy_opt_json(&req.temperature),
        max_tokens: req.max_tokens,
        top_p: copy_opt_json(&req.top_p),
        service_tier: copy_opt(&req.service_tier),
        reasoning_effort: copy_opt(&req.reasoning_effort),
        billing_mode: copy_opt(&req.billing_mode),
        provider: copy_opt(&req.provider),
    }
}

impl AgentTurn {
    /// The bounds of a turn: no step asks for more tools than may be run at once.
    pub open spec fn well_formed(self) -> bool {
        self.step <= MAX_AGENT_STEPS && self.tool_call_count <= MAX_TOOL_CALLS_PER_STEP * self.step
    }

    /// A turn before the model is asked.
    pub fn start(request: AgentTurnRequest, workspace: &Workspace) -> (r: AgentTurn)
        ensures
            r.well_formed(),
            r.ask@ == first_ask(request, *workspace),
            r.step == 0,
            r.tool_call_count == 0,
    {
        let root: String = workspace.root.text();
        let prompt: String = match &request.system_prompt {
            Some(text) => build_agent_system_prompt(Some(text.as_str()), root.as_str()),
            None => build_agent_system_prompt(None, root.as_str()),
        };
        let mut messages: Vec<ConversationMessage> = request.messages;
        push_message(&mut messages, "user", request.user_input);
        AgentTurn {
            ask: ChatRequest {
                model: request.model,
                system_prompt: Some(prompt),
                messages,
                temperature: request.temperature,
                max_tokens: request.max_tokens,
                top_p: request.top_p,
                service_tier: request.service_tier,
                reasoning_effort: request.reasoning_effort,
                billing_mode: request.billing_mode,
                provider: request.provider,
            },
            step: 0,
            tool_call_count: 0,
        }
    }

    /// What to ask the model next; an error once it was asked often enough.
    pub fn next_request(&self) -> (r: Result<ChatRequest, String>)
        ensures
            may_ask(self.step as nat) ==> (r matches Ok(req) && req@ == self.ask@),
            !may_ask(self.step as nat) ==> (r matches Err(e) && e@ == too_many_steps()),
    {
        if self.step < MAX_AGENT_STEPS {
            Ok(copy_request(&self.ask))
        } else {
            Err("agent exceeded max tool iterations (8); ask for a narrower task".to_owned())
        }
    }

    /// Takes the model's answer: the turn is over where it calls no tool.
    pub fn take_answer(&mut self, answer: &str) -> (r: TurnStep)
        requires
            old(self).well_formed(),
            old(self).step < MAX_AGENT_STEPS,
        ensures
            final(self).ask == old(self).ask,
            final(self).step == old(self).step,
            final(self).tool_call_count == old(self).tool_call_count + calls_to_run(answer@).len(),
            final(self).tool_call_count <= MAX_TOOL_CALLS_PER_STEP * (old(self).step + 1),
            is_step_after(r, answer@, old(self).tool_call_count as nat),
    {
        let mut calls: Vec<ToolCall> = parse_tool_calls(answer);
        let ghost all = calls_in(call_blocks(answer@));
        assert(call_views(calls@).len() == all.len());
        if calls.len() == 0 {
            return TurnStep::Done(
                AgentTurnResult {
                    assistant_message: answer.to_owned(),
                    tool_call_count: self.tool_call_count,
                },
            );
        }
        if calls.len() > MAX_TOOL_CALLS_PER_STEP {
            let ghost before = calls@;
            calls.truncate(MAX_TOOL_CALLS_PER_STEP);
            assert(call_views(calls@) =~= call_views(before).take(MAX_TOOL_CALLS_PER_STEP as int));
        }
        assert(call_views(calls@).len() == calls@.len());
        self.tool_call_count = self.tool_call_count + calls.len();
        TurnStep::Run(calls)
    }

    /// Takes the results of the tools that an answer called.
    pub fn take_results(&mut self, answer: String, results: &Vec<ToolResult>)
        requires
            old(self).step < MAX_AGENT_STEPS,
            old(self).tool_call_count <= MAX_TOOL_CALLS_PER_STEP * (old(self).step + 1),
        ensures
            final(self).well_formed(),
            final(self).step == old(self).step + 1,
            final(self).tool_call_count == old(self).tool_call_count,
            final(self).ask@ == asked_again(old(self).ask@, answer@, result_views(results@)),
    {
        let told: String = render_tool_results_prompt(results);
        push_message(&mut self.ask.messages, "assistant", answer);
        push_message(&mut self.ask.messages, "user", told);
        self.step = self.step + 1;
    }
}

/// What is given back for a tool that there is not.
pub fn unknown_tool(requested: &str) -> (r: ToolResult)
    ensures
        r@ == error_view(
            "unknown"@,
            "unknown tool requested: "@ + requested@,
            "supported tools: list_files, glob_files, grep_files, read_file, write_file, append_file, mkdir, move_path, delete_path, apply_patch, bash, run_test, run_lint, bash_session_start, bash_session_run, bash_session_output, bash_session_kill, git_status, git_diff, git_add, git_commit"@,
        ),
{
    ToolResult::error(
        "unknown",
        cat2("unknown tool requested: ", requested),
        "supported tools: list_files, glob_files, grep_files, read_file, write_file, append_file, mkdir, move_path, delete_path, apply_patch, bash, run_test, run_lint, bash_session_start, bash_session_run, bash_session_output, bash_session_kill, git_status, git_diff, git_add, git_commit",
    )
}

/// A turn never runs more than 64 tools, and never more than eight at once.
pub proof fn law_turn_is_bounded(turn: AgentTurn, answer: Seq<char>)
    requires
        turn.well_formed(),
    ensures
        turn.tool_call_count <= 64,
        calls_to_run(answer).len() <= 8,
{
    assert(MAX_TOOL_CALLS_PER_STEP * turn.step <= 8 * 8) by (nonlinear_arith)
        requires
            turn.step <= 8,
            MAX_TOOL_CALLS_PER_STEP == 8,
    ;
}

} // verus!
