//! The chat line by line: what each line that the user types does.

use vstd::prelude::*;

use crate::cli::ChatArgs;
use crate::client::{ChatRequest, ChatRequestView};
use crate::conversation::{
    assistant_says, copy_messages, message_views, push_message, user_says, Conversation,
    ConversationMessage, ConversationView, MessageView,
};
use crate::json::{copy_opt_json, opt_json};
use crate::letter::{eq_ignore_case, same_ignoring_case};
use crate::model_mode::{
    apply_web_mode, infer_from_flags, infer_from_model, mode_of_arg, mode_of_flags, mode_of_model,
    mode_text, model_by_flags, parse_web_mode_arg, route_by_flags, web_mode_display, with_mode,
    ModeView, WebMode,
};
use crate::number::{decimal, write_decimal};
use crate::search::{split_at_first, split_once, starts, starts_with};
use crate::text::{cat2, cat3, copy_opt, opt_view, same, trim, trimmed, views};

verus! {

/// A chat under way.
pub struct Repl {
    pub conversation: Conversation,
    pub current_model: String,
    pub web_mode: WebMode,
}

/// The view of a [`Repl`].
pub struct ReplView {
    pub conversation: ConversationView,
    pub model: Seq<char>,
    pub mode: ModeView,
}

impl View for Repl {
    type V = ReplView;

    open spec fn view(&self) -> ReplView {
        ReplView {
            conversation: self.conversation@,
            model: self.current_model@,
            mode: self.web_mode@,
        }
    }
}

/// What a line does outside the chat.
pub enum ReplAction {
    /// Nothing.
    Nothing,
    /// The chat ends.
    Exit,
    /// These lines are printed.
    Print(Vec<String>),
    /// The conversation is saved, and then this line is printed.
    Save(String),
    /// The model is asked.
    Ask(ChatRequest),
}

/// The view of a [`ReplAction`].
pub enum ActionView {
    Nothing,
    Exit,
    Print(Seq<Seq<char>>),
    Save(Seq<char>),
    Ask(ChatRequestView),
}

impl View for ReplAction {
    type V = ActionView;

    open spec fn view(&self) -> ActionView {
        match self {
            ReplAction::Nothing => ActionView::Nothing,
            ReplAction::Exit => ActionView::Exit,
            ReplAction::Print(lines) => ActionView::Print(views(lines@)),
            ReplAction::Save(line) => ActionView::Save(line@),
            ReplAction::Ask(req) => ActionView::Ask(req@),
        }
    }
}

/// The model to begin with: the given one, with the web routing that was asked for.
pub open spec fn model_to_begin(args: ChatArgs) -> Seq<char> {
    model_by_flags(args.model@, args.web, args.deep_web)
}

/// The model to begin with.
pub fn initial_model(args: &ChatArgs) -> (r: String)
    ensures
        r@ == model_to_begin(*args),
{
    route_by_flags(args.model.as_str(), args.web, args.deep_web)
}

/// A conversation to begin with: one that was not asked for by name, and in which nothing was said,
/// takes over the model and the system prompt that were given.
pub open spec fn conversation_to_begin(c: ConversationView, args: ChatArgs) -> ConversationView {
    if args.conversation is None && c.messages.len() == 0 {
        ConversationView {
            model: model_to_begin(args),
            system_prompt: match args.system {
                Some(text) => Some(text@),
                None => c.system_prompt,
            },
            ..c
        }
    } else {
        c
    }
}

/// A chat before its first line.
pub open spec fn repl_to_begin(c: ConversationView, args: ChatArgs) -> ReplView {
    let conversation = conversation_to_begin(c, args);
    let model = if conversation.model.len() == 0 {
        model_to_begin(args)
    } else {
        conversation.model
    };
    ReplView {
        conversation,
        model,
        mode: match mode_of_model(model) {
            Some(mode) => mode,
            None => mode_of_flags(args.web, args.deep_web),
        },
    }
}

/// The one line `line`.
pub open spec fn line(line: Seq<char>) -> ActionView {
    ActionView::Print(Seq::empty().push(line))
}

/// The help, line by line.
pub open spec fn help_lines() -> Seq<Seq<char>> {
    Seq::empty().push("Commands:"@).push("  /help                Show this help"@).push(
        "  /exit                Exit chat"@,
    ).push("  /model <id>          Switch model"@).push(
        "  /webmode <mode>      Set web mode (off/on/deep/exa-neural/...)"@,
    ).push("  /system <prompt>     Set or show system prompt"@).push(
        "  /system off          Clear system prompt"@,
    ).push("  /system-reset        Restore initial --system value"@).push(
        "  /clear               Clear conversation messages"@,
    ).push("  /history             Print conversation messages"@).push(
        "  /save                Persist conversation now"@,
    )
}

/// What was said, line by line.
pub open spec fn history_lines(messages: Seq<MessageView>) -> Seq<Seq<char>> {
    Seq::new(
        messages.len(),
        |i: int|
            decimal((i + 1) as nat) + (" ["@ + messages[i].role) + ("] "@ + messages[i].content),
    )
}

/// A chat with another system prompt.
pub open spec fn with_prompt(state: ReplView, prompt: Option<Seq<char>>) -> ReplView {
    ReplView {
        conversation: ConversationView { system_prompt: prompt, ..state.conversation },
        ..state
    }
}

/// A chat with another model.
pub open spec fn with_model(state: ReplView, model: Seq<char>) -> ReplView {
    ReplView {
        conversation: ConversationView { model, ..state.conversation },
        model,
        ..state
    }
}

/// What a command does: the chat afterwards, and what is done outside it.
pub open spec fn command_effect(
    state: ReplView,
    cmd: Seq<char>,
    arg: Seq<char>,
    initial_system: Option<Seq<char>>,
) -> (ReplView, ActionView) {
    if cmd == "/exit"@ || cmd == "/quit"@ {
        (state, ActionView::Exit)
    } else if cmd == "/help"@ {
        (state, ActionView::Print(help_lines()))
    } else if cmd == "/model"@ {
        if arg.len() == 0 {
            (state, line("Current model: "@ + state.model))
        } else {
            let model = with_mode(arg, state.mode);
            (with_model(state, model), line("Model set to "@ + model))
        }
    } else if cmd == "/system"@ {
        if same_ignoring_case(arg, "off"@) {
            (with_prompt(state, None), line("System prompt cleared"@))
        } else if arg.len() == 0 {
            match state.conversation.system_prompt {
                Some(prompt) => (state, line("System prompt: "@ + prompt)),
                None => (state, line("System prompt is empty"@)),
            }
        } else {
            (with_prompt(state, Some(arg)), line("System prompt updated"@))
        }
    } else if cmd == "/system-reset"@ {
        (with_prompt(state, initial_system), line("System prompt reset"@))
    } else if cmd == "/webmode"@ {
        if arg.len() == 0 {
            (state, line("Web mode: "@ + mode_text(state.mode)))
        } else {
            match mode_of_arg(arg) {
                None => (state, line("Usage: /webmode <off|on|deep|provider-mode>"@)),
                Some(mode) => {
                    let model = with_mode(state.model, mode);
                    (
                        ReplView { mode, ..with_model(state, model) },
                        line("Web mode: "@ + mode_text(mode) + (" (model: "@ + model + ")"@)),
                    )
                },
            }
        }
    } else if cmd == "/clear"@ {
        (
            ReplView {
                conversation: ConversationView { messages: Seq::empty(), ..state.conversation },
                ..state
            },
            line("Conversation history cleared"@),
        )
    } else if cmd == "/history"@ {
        (state, ActionView::Print(history_lines(state.conversation.messages)))
    } else if cmd == "/save"@ {
        (state, ActionView::Save("Conversation saved: "@ + state.conversation.id))
    } else {
        (state, line("Unknown command: "@ + cmd + ". Type /help"@))
    }
}

/// The command in a line: what stands before its first space.
pub open spec fn command_of(input: Seq<char>) -> Seq<char> {
    match split_at_first(input, " "@) {
        Some((cmd, _)) => cmd,
        None => input,
    }
}

/// The argument of the command in a line.
pub open spec fn argument_of(input: Seq<char>) -> Seq<char> {
    match split_at_first(input, " "@) {
        Some((_, arg)) => trimmed(arg),
        None => Seq::empty(),
    }
}

/// What the model is asked when the user says something.
pub open spec fn ask_of(state: ReplView, args: ChatArgs, input: Seq<char>) -> ChatRequestView {
    ChatRequestView {
        model: state.model,
        system_prompt: state.conversation.system_prompt,
        messages: state.conversation.messages.push(user_says(input)),
        temperature: opt_json(args.temperature),
        max_tokens: args.max_tokens,
        top_p: opt_json(args.top_p),
        service_tier: opt_view(args.service_tier),
        reasoning_effort: opt_view(args.reasoning_effort),
        billing_mode: opt_view(args.billing_mode),
        provider: opt_view(args.provider),
    }
}

/// What a line does: the chat afterwards, and what is done outside it.
pub open spec fn line_effect(state: ReplView, args: ChatArgs, typed: Seq<char>) -> (ReplView, ActionView) {
    let input = trimmed(typed);
    if input.len() == 0 {
        (state, ActionView::Nothing)
    } else if starts(input, "/"@) {
        command_effect(state, command_of(input), argument_of(input), opt_view(args.system))
    } else {
        (state, ActionView::Ask(ask_of(state, args, input)))
    }
}

/// A chat after the model has answered.
pub open spec fn answered(state: ReplView, typed: Seq<char>, answer: Seq<char>) -> ReplView {
    ReplView {
        conversation: ConversationView {
            model: state.model,
            messages: state.conversation.messages.push(user_says(trimmed(typed))).push(
                assistant_says(answer),
            ),
            ..state.conversation
        },
        ..state
    }
}

fn add_line(lines: &mut Vec<String>, text: &str)
    ensures
        views(final(lines)@) == views(old(lines)@).push(text@),
{
    let ghost before = lines@;
    lines.push(text.to_owned());
    assert(views(lines@) =~= views(before).push(text@));
}

fn print_one(text: &str) -> (r: ReplAction)
    ensures
        r@ == line(text@),
{
    let mut lines: Vec<String> = Vec::new();
    assert(views(lines@) =~= Seq::empty());
    add_line(&mut lines, text);
    ReplAction::Print(lines)
}

/// The help, line by line.
pub fn print_help() -> (r: Vec<String>)
    ensures
        views(r@) == help_lines(),
{
    let mut lines: Vec<String> = Vec::new();
    assert(views(lines@) =~= Seq::empty());
    add_line(&mut lines, "Commands:");
    add_line(&mut lines, "  /help                Show this help");
    add_line(&mut lines, "  /exit                Exit chat");
    add_line(&mut lines, "  /model <id>          Switch model");
    add_line(&mut lines, "  /webmode <mode>      Set web mode (off/on/deep/exa-neural/...)");
    add_line(&mut lines, "  /system <prompt>     Set or show system prompt");
    add_line(&mut lines, "  /system off          Clear system prompt");
    add_line(&mut lines, "  /system-reset        Restore initial --system value");
    add_line(&mut lines, "  /clear               Clear conversation messages");
    add_line(&mut lines, "  /history             Print conversation messages");
    add_line(&mut lines, "  /save                Persist conversation now");
    lines
}

fn print_history(messages: &Vec<ConversationMessage>) -> (r: Vec<String>)
    ensures
        views(r@) == history_lines(message_views(messages@)),
{
    let mut lines: Vec<String> = Vec::new();
    let ghost all = history_lines(message_views(messages@));
    let mut i: usize = 0;
    assert(views(lines@) =~= all.take(0));
    while i < messages.len()
        invariant
            i <= messages@.len(),
            all == history_lines(message_views(messages@)),
            views(lines@) == all.take(i as int),
        decreases messages@.len() - i,
    {
        let n: String = write_decimal(i as u64 + 1);
        let role: String = cat2(" [", messages[i].role.as_str());
        let content: String = cat2("] ", messages[i].content.as_str());
        let text: String = cat3(n.as_str(), role.as_str(), content.as_str());
        add_line(&mut lines, text.as_str());
        assert(all.take(i + 1) =~= all.take(i as int).push(all[i as int]));
        i += 1;
    }
    assert(all.take(i as int) =~= all);
    lines
}

/// What is printed before the first line.
pub open spec fn banner_lines(state: ReplView) -> Seq<Seq<char>> {
    let lines = Seq::empty().push("NanoGPT CLI chat"@).push(
        "Conversation: "@ + state.conversation.id,
    ).push("Model: "@ + state.model);
    let lines = match state.conversation.system_prompt {
        Some(prompt) => lines.push("System prompt: "@ + prompt),
        None => lines,
    };
    lines.push("Type /help for commands.\n"@)
}

impl Repl {
    /// A chat before its first line.
    pub fn start(conversation: Conversation, args: &ChatArgs) -> (r: Repl)
        ensures
            r@ == repl_to_begin(conversation@, *args),
    {
        let mut conversation: Conversation = conversation;
        let first: String = initial_model(args);
        if args.conversation.is_none() && conversation.messages.len() == 0 {
            assert(message_views(conversation.messages@) =~= Seq::empty());
            conversation.model = first.clone();
            if let Some(text) = &args.system {
                conversation.system_prompt = Some(text.clone());
            }
        }
        let current_model: String = if conversation.model.as_str().is_empty() {
            first
        } else {
            conversation.model.clone()
        };
        let web_mode: WebMode = match infer_from_model(current_model.as_str()) {
            Some(mode) => mode,
            None => infer_from_flags(args.web, args.deep_web),
        };
        Repl { conversation, current_model, web_mode }
    }

    /// What is printed before the first line.
    pub fn banner(&self) -> (r: Vec<String>)
        ensures
            views(r@) == banner_lines(self@),
    {
        let mut lines: Vec<String> = Vec::new();
        assert(views(lines@) =~= Seq::empty());
        add_line(&mut lines, "NanoGPT CLI chat");
        let name: String = cat2("Conversation: ", self.conversation.id.as_str());
        add_line(&mut lines, name.as_str());
        let model: String = cat2("Model: ", self.current_model.as_str());
        add_line(&mut lines, model.as_str());
        if let Some(prompt) = &self.conversation.system_prompt {
            let text: String = cat2("System prompt: ", prompt.as_str());
            add_line(&mut lines, text.as_str());
        }
        add_line(&mut lines, "Type /help for commands.\n");
        lines
    }

    /// Does what a command asks for.
    pub fn handle_command(&mut self, cmd: &str, arg: &str, initial_system: &Option<String>) -> (r:
        ReplAction)
        ensures
            (final(self)@, r@) == command_effect(
                old(self)@,
                cmd@,
                arg@,
                opt_view(*initial_system),
            ),
    {
        if same(cmd, "/exit") || same(cmd, "/quit") {
            ReplAction::Exit
        } else if same(cmd, "/help") {
            ReplAction::Print(print_help())
        } else if same(cmd, "/model") {
            if arg.is_empty() {
                let text: String = cat2("Current model: ", self.current_model.as_str());
                print_one(text.as_str())
            } else {
                let model: String = apply_web_mode(arg, &self.web_mode);
                let text: String = cat2("Model set to ", model.as_str());
                self.conversation.model = model.clone();
                self.current_model = model;
                print_one(text.as_str())
            }
        } else if same(cmd, "/system") {
            if eq_ignore_case(arg, "off") {
                self.conversation.system_prompt = None;
                print_one("System prompt cleared")
            } else if arg.is_empty() {
                match &self.conversation.system_prompt {
                    Some(prompt) => {
                        let text: String = cat2("System prompt: ", prompt.as_str());
                        print_one(text.as_str())
                    },
                    None => print_one("System prompt is empty"),
                }
            } else {
                self.conversation.system_prompt = Some(arg.to_owned());
                print_one("System prompt updated")
            }
        } else if same(cmd, "/system-reset") {
            self.conversation.system_prompt = copy_opt(initial_system);
            print_one("System prompt reset")
        } else if same(cmd, "/webmode") {
            if arg.is_empty() {
                let mode: String = web_mode_display(&self.web_mode);
                let text: String = cat2("Web mode: ", mode.as_str());
                return print_one(text.as_str());
            }
            match parse_web_mode_arg(arg) {
                Ok(next) => {
                    let model: String = apply_web_mode(self.current_model.as_str(), &next);
                    let mode: String = web_mode_display(&next);
                    let place: String = cat3(" (model: ", model.as_str(), ")");
                    let text: String = cat3("Web mode: ", mode.as_str(), place.as_str());
                    self.web_mode = next;
                    self.conversation.model = model.clone();
                    self.current_model = model;
                    print_one(text.as_str())
                },
                Err(usage) => print_one(usage.as_str()),
            }
        } else if same(cmd, "/clear") {
            self.conversation.clear_history();
            print_one("Conversation history cleared")
        } else if same(cmd, "/history") {
            ReplAction::Print(print_history(&self.conversation.messages))
        } else if same(cmd, "/save") {
            ReplAction::Save(cat2("Conversation saved: ", self.conversation.id.as_str()))
        } else {
            let text: String = cat3("Unknown command: ", cmd, ". Type /help");
            print_one(text.as_str())
        }
    }

    /// Does what a typed line asks for.
    pub fn take_line(&mut self, args: &ChatArgs, typed: &str) -> (r: ReplAction)
        ensures
            (final(self)@, r@) == line_effect(old(self)@, *args, typed@),
    {
        let input: &str = trim(typed);
        if input.is_empty() {
            return ReplAction::Nothing;
        }
        if starts_with(input, "/") {
            let (cmd, arg): (&str, &str) = match split_once(input, " ") {
                Some((cmd, rest)) => (cmd, trim(rest)),
                None => (input, ""),
            };
            proof {
                reveal_strlit("");
                assert(""@ =~= Seq::empty());
            }
            return self.handle_command(cmd, arg, &args.system);
        }
        let mut messages: Vec<ConversationMessage> = copy_messages(&self.conversation.messages);
        push_message(&mut messages, "user", input.to_owned());
        ReplAction::Ask(
            ChatRequest {
                model: self.current_model.clone(),
                system_prompt: copy_opt(&self.conversation.system_prompt),
                messages,
                temperature: copy_opt_json(&args.temperature),
                max_tokens: args.max_tokens,
                top_p: copy_opt_json(&args.top_p),
                service_tier: copy_opt(&args.service_tier),
                reasoning_effort: copy_opt(&args.reasoning_effort),
                billing_mode: copy_opt(&args.billing_mode),
                provider: copy_opt(&args.provider),
            },
        )
    }

    /// Takes the model's answer to a typed line.
    pub fn take_answer(&mut self, typed: &str, answer: String)
        ensures
            final(self)@ == answered(old(self)@, typed@, answer@),
    {
        self.conversation.model = self.current_model.clone();
        self.conversation.push_user_message(trim(typed).to_owned());
        self.conversation.push_assistant_message(answer);
    }
}

/// What is printed when the model could not be asked.
pub fn error_line(message: &str) -> (r: String)
    ensures
        r@ == "[error] "@ + message@,
{
    cat2("[error] ", message)
}

/// What was asked and could not be answered is not kept: the conversation stays as it was.
pub proof fn law_asking_changes_nothing(state: ReplView, args: ChatArgs, typed: Seq<char>)
    ensures
        line_effect(state, args, typed).1 is Ask ==> line_effect(state, args, typed).0 == state,
{
    let input = trimmed(typed);
    if input.len() > 0 && starts(input, "/"@) {
        lemma_commands_do_not_ask(
            state,
            command_of(input),
            argument_of(input),
            opt_view(args.system),
        );
    }
}

proof fn lemma_commands_do_not_ask(
    state: ReplView,
    cmd: Seq<char>,
    arg: Seq<char>,
    initial_system: Option<Seq<char>>,
)
    ensures
        !(command_effect(state, cmd, arg, initial_system).1 is Ask),
{
}

/// Whatever command is given, the conversation keeps its name, and its messages are kept or all
/// forgotten.
pub proof fn law_commands_keep_what_was_said(
    state: ReplView,
    cmd: Seq<char>,
    arg: Seq<char>,
    initial_system: Option<Seq<char>>,
)
    ensures
        command_effect(state, cmd, arg, initial_system).0.conversation.id == state.conversation.id,
        command_effect(state, cmd, arg, initial_system).0.conversation.messages
            == state.conversation.messages || command_effect(
            state,
            cmd,
            arg,
            initial_system,
        ).0.conversation.messages.len() == 0,
{
}

} // verus!
