//! What the chat line by line makes of what is typed and of what is answered.

use vstd::prelude::*;

use crate::chat::{
    answered, argument_of, ask_of, banner_lines, command_effect, command_of, conversation_to_begin,
    history_lines, line_effect, repl_to_begin, ActionView, Repl, ReplView,
};
use crate::cli::ChatArgs;
use crate::conversation::{ConversationView, MessageView};
use crate::json::opt_json;
use crate::letter::same_ignoring_case;
use crate::model_mode::{mode_of_arg, mode_of_flags, mode_of_model, model_by_flags, with_mode};
use crate::number::decimal;
use crate::search::{find, lemma_find, lemma_find_at, occurs_at, starts};
use crate::text::{blank, opt_view, trimmed};
use crate::text_laws::{is_free_of, law_trimming_takes_the_margins};

verus! {

/// When the user says something, the model is asked with every message of the conversation, in order,
/// and then with what the user said; what was asked for on the command line goes with it.
pub proof fn law_whole_conversation_is_sent(repl: Repl, args: ChatArgs, input: Seq<char>, i: int)
    ensures
        ask_of(repl@, args, input).messages.len() == repl.conversation.messages@.len() + 1,
        0 <= i < repl.conversation.messages@.len() ==> ask_of(repl@, args, input).messages[i].role
            == repl.conversation.messages@[i].role@ && ask_of(repl@, args, input).messages[i].content
            == repl.conversation.messages@[i].content@,
        ask_of(repl@, args, input).messages.last().role == "user"@,
        ask_of(repl@, args, input).messages.last().content == input,
        ask_of(repl@, args, input).model == repl.current_model@,
        ask_of(repl@, args, input).system_prompt == opt_view(repl.conversation.system_prompt),
        ask_of(repl@, args, input).temperature == opt_json(args.temperature),
        ask_of(repl@, args, input).top_p == opt_json(args.top_p),
        ask_of(repl@, args, input).max_tokens == args.max_tokens,
        ask_of(repl@, args, input).service_tier == opt_view(args.service_tier),
        ask_of(repl@, args, input).reasoning_effort == opt_view(args.reasoning_effort),
        ask_of(repl@, args, input).billing_mode == opt_view(args.billing_mode),
        ask_of(repl@, args, input).provider == opt_view(args.provider),
{
}

/// A line of spaces does nothing; one that begins with `/` is a command; any other is said to the
/// model, without the spaces around it.
pub proof fn law_lines_are_told_apart(s: ReplView, args: ChatArgs, typed: Seq<char>)
    ensures
        blank(typed) ==> line_effect(s, args, typed) == (s, ActionView::Nothing),
        !blank(typed) && trimmed(typed)[0] != '/' ==> line_effect(s, args, typed) == (
            s,
            ActionView::Ask(ask_of(s, args, trimmed(typed))),
        ),
        !blank(typed) && trimmed(typed)[0] == '/' ==> line_effect(s, args, typed) == command_effect(
            s,
            command_of(trimmed(typed)),
            argument_of(trimmed(typed)),
            opt_view(args.system),
        ),
{
    let t = trimmed(typed);
    reveal_strlit("/");
    if t.len() > 0 {
        if t[0] == '/' {
            assert(t.take(1) =~= "/"@);
        }
        if starts(t, "/"@) {
            assert(t.take(1)[0] == "/"@[0]);
        }
    }
}

/// The word up to the first space names a command, and what stands behind it is its argument.
pub proof fn law_commands_have_arguments(cmd: Seq<char>, gap: Seq<char>, arg: Seq<char>)
    requires
        is_free_of(cmd, ' '),
        crate::text_laws::is_all_space(gap),
        arg.len() > 0,
        !crate::text::space(arg[0]),
        !crate::text::space(arg.last()),
    ensures
        command_of(cmd + seq![' '] + gap + arg) == cmd,
        argument_of(cmd + seq![' '] + gap + arg) == arg,
        command_of(cmd) == cmd,
        argument_of(cmd).len() == 0,
{
    reveal_strlit(" ");
    assert(" "@ =~= seq![' ']);
    let s = cmd + seq![' '] + gap + arg;
    let n = cmd.len() as int;
    assert(s.subrange(n, n + 1) =~= " "@);
    assert forall|j: int| 0 <= j < n implies !occurs_at(s, " "@, j) by {
        assert(s[j] == cmd[j]);
        if occurs_at(s, " "@, j) {
            assert(s.subrange(j, j + 1)[0] == " "@[0]);
        }
    }
    lemma_find_at(s, " "@, n);
    assert(s.take(n) =~= cmd);
    assert(s.skip(n + 1) =~= gap + arg + Seq::empty());
    law_trimming_takes_the_margins(gap, arg, Seq::empty());
    lemma_find(cmd, " "@);
    if let Some(i) = find(cmd, " "@) {
        assert(cmd.subrange(i, i + 1)[0] == " "@[0]);
        assert(cmd[i] == ' ');
    }
}

/// `/model` sets the model, for the chat and its conversation, with the web routing that is set;
/// without an argument nothing changes.
pub proof fn law_model_command(s: ReplView, arg: Seq<char>, first: Option<Seq<char>>)
    ensures
        arg.len() > 0 ==> command_effect(s, "/model"@, arg, first).0 == (ReplView {
            conversation: ConversationView { model: with_mode(arg, s.mode), ..s.conversation },
            model: with_mode(arg, s.mode),
            mode: s.mode,
        }),
        arg.len() == 0 ==> command_effect(s, "/model"@, arg, first).0 == s,
        arg.len() == 0 ==> command_effect(s, "/model"@, arg, first).1 == ActionView::Print(
            seq!["Current model: "@ + s.model],
        ),
{
    lemma_commands_differ();
    assert(Seq::empty().push("Current model: "@ + s.model) =~= seq!["Current model: "@ + s.model]);
}

/// `/system` sets the system prompt to its argument, `off` takes it away, and without an argument it
/// stays; `/system-reset` brings back the one that the chat was begun with.
pub proof fn law_system_commands(s: ReplView, arg: Seq<char>, first: Option<Seq<char>>)
    ensures
        same_ignoring_case(arg, "off"@) ==> command_effect(
            s,
            "/system"@,
            arg,
            first,
        ).0.conversation.system_prompt is None,
        arg.len() > 0 && !same_ignoring_case(arg, "off"@) ==> command_effect(
            s,
            "/system"@,
            arg,
            first,
        ).0.conversation.system_prompt == Some(arg),
        arg.len() == 0 && !same_ignoring_case(arg, "off"@) ==> command_effect(
            s,
            "/system"@,
            arg,
            first,
        ).0 == s,
        command_effect(s, "/system-reset"@, arg, first).0.conversation.system_prompt == first,
        command_effect(s, "/system"@, arg, first).0.conversation.messages == s.conversation.messages,
        command_effect(s, "/system-reset"@, arg, first).0.conversation.messages
            == s.conversation.messages,
        command_effect(s, "/system"@, arg, first).0.model == s.model,
{
    lemma_commands_differ();
}

/// `/webmode` sets the web mode that its argument names, and routes the model by it; where it names
/// none, nothing changes.
pub proof fn law_webmode_command(s: ReplView, arg: Seq<char>, first: Option<Seq<char>>)
    ensures
        arg.len() == 0 || mode_of_arg(arg) is None ==> command_effect(s, "/webmode"@, arg, first).0 == s,
        arg.len() > 0 && mode_of_arg(arg) is Some ==> {
            &&& command_effect(s, "/webmode"@, arg, first).0.mode == mode_of_arg(arg).unwrap()
            &&& command_effect(s, "/webmode"@, arg, first).0.model == with_mode(
                s.model,
                mode_of_arg(arg).unwrap(),
            )
            &&& command_effect(s, "/webmode"@, arg, first).0.conversation == (ConversationView {
                model: with_mode(s.model, mode_of_arg(arg).unwrap()),
                ..s.conversation
            })
        },
{
    lemma_commands_differ();
}

/// `/clear` forgets every message and nothing else, `/save` saves, `/history` prints what was said,
/// and `/exit` and `/quit` end the chat; none but the first changes anything.
pub proof fn law_other_commands(s: ReplView, arg: Seq<char>, first: Option<Seq<char>>)
    ensures
        command_effect(s, "/clear"@, arg, first).0.conversation == (ConversationView {
            messages: Seq::empty(),
            ..s.conversation
        }),
        command_effect(s, "/clear"@, arg, first).0.model == s.model,
        command_effect(s, "/save"@, arg, first).0 == s,
        command_effect(s, "/save"@, arg, first).1 is Save,
        command_effect(s, "/history"@, arg, first) == (
            s,
            ActionView::Print(history_lines(s.conversation.messages)),
        ),
        command_effect(s, "/exit"@, arg, first) == (s, ActionView::Exit),
        command_effect(s, "/quit"@, arg, first) == (s, ActionView::Exit),
        command_effect(s, "/help"@, arg, first).0 == s,
        command_effect(s, "/help"@, arg, first).1 is Print,
{
    lemma_commands_differ();
}

proof fn lemma_commands_differ()
    ensures
        "/exit"@ != "/quit"@,
        "/exit"@ != "/help"@,
        "/exit"@ != "/model"@,
        "/exit"@ != "/system"@,
        "/exit"@ != "/system-reset"@,
        "/exit"@ != "/webmode"@,
        "/exit"@ != "/clear"@,
        "/exit"@ != "/history"@,
        "/exit"@ != "/save"@,
        "/quit"@ != "/help"@,
        "/quit"@ != "/model"@,
        "/quit"@ != "/system"@,
        "/quit"@ != "/system-reset"@,
        "/quit"@ != "/webmode"@,
        "/quit"@ != "/clear"@,
        "/quit"@ != "/history"@,
        "/quit"@ != "/save"@,
        "/help"@ != "/model"@,
        "/help"@ != "/system"@,
        "/help"@ != "/system-reset"@,
        "/help"@ != "/webmode"@,
        "/help"@ != "/clear"@,
        "/help"@ != "/history"@,
        "/help"@ != "/save"@,
        "/model"@ != "/system"@,
        "/model"@ != "/system-reset"@,
        "/model"@ != "/webmode"@,
        "/model"@ != "/clear"@,
        "/model"@ != "/history"@,
        "/model"@ != "/save"@,
        "/system"@ != "/system-reset"@,
        "/system"@ != "/webmode"@,
        "/system"@ != "/clear"@,
        "/system"@ != "/history"@,
        "/system"@ != "/save"@,
        "/system-reset"@ != "/webmode"@,
        "/system-reset"@ != "/clear"@,
        "/system-reset"@ != "/history"@,
        "/system-reset"@ != "/save"@,
        "/webmode"@ != "/clear"@,
        "/webmode"@ != "/history"@,
        "/webmode"@ != "/save"@,
        "/clear"@ != "/history"@,
        "/clear"@ != "/save"@,
        "/history"@ != "/save"@,
{
    reveal_strlit("/exit");
    reveal_strlit("/quit");
    reveal_strlit("/help");
    reveal_strlit("/model");
    reveal_strlit("/system");
    reveal_strlit("/system-reset");
    reveal_strlit("/webmode");
    reveal_strlit("/clear");
    reveal_strlit("/history");
    reveal_strlit("/save");
    assert("/exit"@.len() == 5);
    assert("/quit"@.len() == 5);
    assert("/help"@.len() == 5);
    assert("/model"@.len() == 6);
    assert("/system"@.len() == 7);
    assert("/system-reset"@.len() == 13);
    assert("/webmode"@.len() == 8);
    assert("/clear"@.len() == 6);
    assert("/history"@.len() == 8);
    assert("/save"@.len() == 5);
    assert("/exit"@[1] != "/quit"@[1]);
    assert("/exit"@[1] != "/help"@[1]);
    assert("/exit"@[1] != "/save"@[1]);
    assert("/quit"@[1] != "/help"@[1]);
    assert("/quit"@[1] != "/save"@[1]);
    assert("/help"@[1] != "/save"@[1]);
    assert("/model"@[1] != "/clear"@[1]);
    assert("/webmode"@[1] != "/history"@[1]);
}

/// A command that is none of these changes nothing.
pub proof fn law_unknown_commands(
    s: ReplView,
    cmd: Seq<char>,
    arg: Seq<char>,
    first: Option<Seq<char>>,
)
    requires
        cmd != "/exit"@,
        cmd != "/quit"@,
        cmd != "/help"@,
        cmd != "/model"@,
        cmd != "/system"@,
        cmd != "/system-reset"@,
        cmd != "/webmode"@,
        cmd != "/clear"@,
        cmd != "/history"@,
        cmd != "/save"@,
    ensures
        command_effect(s, cmd, arg, first).0 == s,
        command_effect(s, cmd, arg, first).1 is Print,
{
}

/// The history tells every message, in order: its number, who said it, and what was said.
pub proof fn law_history_tells_every_message(messages: Seq<MessageView>, i: int)
    requires
        0 <= i < messages.len(),
    ensures
        history_lines(messages).len() == messages.len(),
        history_lines(messages)[i] == decimal((i + 1) as nat) + " ["@ + messages[i].role + "] "@
            + messages[i].content,
{
    assert(history_lines(messages)[i] =~= decimal((i + 1) as nat) + " ["@ + messages[i].role + "] "@
        + messages[i].content);
}

/// An answer is kept behind what the user said, and the conversation keeps all it held.
pub proof fn law_answers_are_kept(s: ReplView, typed: Seq<char>, answer: Seq<char>)
    ensures
        answered(s, typed, answer).conversation.messages.len() == s.conversation.messages.len() + 2,
        answered(s, typed, answer).conversation.messages.take(s.conversation.messages.len() as int)
            == s.conversation.messages,
        answered(s, typed, answer).conversation.messages[s.conversation.messages.len() as int].role
            == "user"@,
        answered(s, typed, answer).conversation.messages[s.conversation.messages.len() as int].content
            == trimmed(typed),
        answered(s, typed, answer).conversation.messages.last().role == "assistant"@,
        answered(s, typed, answer).conversation.messages.last().content == answer,
        answered(s, typed, answer).conversation.id == s.conversation.id,
        answered(s, typed, answer).conversation.system_prompt == s.conversation.system_prompt,
        answered(s, typed, answer).conversation.model == s.model,
        answered(s, typed, answer).model == s.model,
        answered(s, typed, answer).mode == s.mode,
{
    assert(answered(s, typed, answer).conversation.messages.take(
        s.conversation.messages.len() as int,
    ) =~= s.conversation.messages);
}

/// The chat begins with the conversation that it is given: a new one takes over the model and the
/// system prompt that were asked for, and another stays as it is. The model is the conversation's, and
/// the web mode is the one that the model carries.
pub proof fn law_chat_begins_as_asked(c: ConversationView, args: ChatArgs)
    ensures
        args.conversation is Some || c.messages.len() > 0 ==> conversation_to_begin(c, args) == c,
        args.conversation is None && c.messages.len() == 0 ==> {
            &&& conversation_to_begin(c, args).model == model_by_flags(
                args.model@,
                args.web,
                args.deep_web,
            )
            &&& args.system is Some ==> conversation_to_begin(c, args).system_prompt == Some(
                args.system.unwrap()@,
            )
            &&& args.system is None ==> conversation_to_begin(c, args).system_prompt
                == c.system_prompt
            &&& conversation_to_begin(c, args).id == c.id
        },
        repl_to_begin(c, args).conversation == conversation_to_begin(c, args),
        conversation_to_begin(c, args).model.len() > 0 ==> repl_to_begin(c, args).model
            == conversation_to_begin(c, args).model,
        conversation_to_begin(c, args).model.len() == 0 ==> repl_to_begin(c, args).model
            == model_by_flags(args.model@, args.web, args.deep_web),
        mode_of_model(repl_to_begin(c, args).model) matches Some(mode) ==> repl_to_begin(c, args).mode
            == mode,
        mode_of_model(repl_to_begin(c, args).model) is None ==> repl_to_begin(c, args).mode
            == mode_of_flags(args.web, args.deep_web),
{
}

/// What is printed first tells the conversation and the model, and the system prompt where there is
/// one.
pub proof fn law_banner_tells_the_chat(s: ReplView)
    ensures
        banner_lines(s)[1] == "Conversation: "@ + s.conversation.id,
        banner_lines(s)[2] == "Model: "@ + s.model,
        s.conversation.system_prompt matches Some(prompt) ==> banner_lines(s)[3] == "System prompt: "@
            + prompt && banner_lines(s).len() == 5,
        s.conversation.system_prompt is None ==> banner_lines(s).len() == 4,
{
}

} // verus!
