//! What the full-screen chat asks the model, and what it makes of commands and answers.

use vstd::prelude::*;

use crate::chat::{argument_of, command_of};
use crate::cli::{ModelScope, TuiArgs};
use crate::conversation::{ConversationView, SummaryView};
use crate::json::{opt_json, JsonView};
use crate::letter::same_ignoring_case;
use crate::model_mode::{mode_of_arg, mode_of_model, model_base, model_by_flags, with_mode};
use crate::number::decimal;
use crate::search::starts;
use crate::text::{blank, opt_view, space, trimmed};
use crate::text_laws::law_trimming_keeps_the_first;
use crate::tui::app::{
    active_provider, catalog_shown, chat_ask, conversation_to_open, deleted, disconnected, entered,
    is_begun_from, key_given, mode_position, models_opened, modes_opened, opened, providers_opened,
    reloaded, responded, search_shown, switched, App, AppView, Focus, ModalView,
};
use crate::tui::editor::EditorView;
use crate::tui::keys::{EffectView, Key, KeyCode};
use crate::tui::pickers::{provider_picker, ModelPickerView, ModelView, SearchView};
use crate::tui::slash::can_complete;
use crate::tui::typing::{key_effect, offers_completion, slash_effect};

verus! {

// ---------------------------------------------------------------------------
// Asking
// ---------------------------------------------------------------------------

/// When the user says something, the model is asked with every message of the conversation, in order,
/// and then with what the user said.
pub proof fn law_whole_conversation_is_sent(app: App, input: Seq<char>, i: int)
    ensures
        chat_ask(app@, input).messages.len() == app.conversation.messages@.len() + 1,
        0 <= i < app.conversation.messages@.len() ==> chat_ask(app@, input).messages[i].role
            == app.conversation.messages@[i].role@ && chat_ask(app@, input).messages[i].content
            == app.conversation.messages@[i].content@,
        chat_ask(app@, input).messages[app.conversation.messages@.len() as int].role == "user"@,
        chat_ask(app@, input).messages[app.conversation.messages@.len() as int].content == input,
{
}

/// The model is asked under the settings of the chat: its model, its system prompt, what it was begun
/// with, and the provider that was picked for its model.
pub proof fn law_settings_are_sent(app: App, input: Seq<char>)
    ensures
        chat_ask(app@, input).model == app.current_model@,
        chat_ask(app@, input).system_prompt == opt_view(app.conversation.system_prompt),
        chat_ask(app@, input).temperature == opt_json(app.args.temperature),
        chat_ask(app@, input).top_p == opt_json(app.args.top_p),
        chat_ask(app@, input).max_tokens == app.args.max_tokens,
        chat_ask(app@, input).service_tier == opt_view(app.args.service_tier),
        chat_ask(app@, input).reasoning_effort == opt_view(app.args.reasoning_effort),
        chat_ask(app@, input).billing_mode == opt_view(app.args.billing_mode),
        app.provider_overrides@.contains_key(model_base(app.current_model@)) ==> chat_ask(
            app@,
            input,
        ).provider == Some(app.provider_overrides@[model_base(app.current_model@)]),
        !app.provider_overrides@.contains_key(model_base(app.current_model@)) ==> chat_ask(
            app@,
            input,
        ).provider is None,
{
}

/// Enter sends what was typed, without the spaces around it: the model is asked with the whole
/// conversation and that behind it, and the input line is empty again. The conversation itself stays
/// as it is until the model has answered.
#[verifier::rlimit(40)]
pub proof fn law_enter_sends_what_was_typed(s: AppView, ctrl: bool)
    requires
        s.modal is None,
        s.focus == Focus::Input,
        !s.pending,
        key_given(s.api_key),
        !blank(s.input.text),
        trimmed(s.input.text)[0] != '/',
    ensures
        key_effect(s, Key { code: KeyCode::Enter, ctrl }).1 matches EffectView::Ask(ask) && {
            &&& ask.messages.len() == s.conversation.messages.len() + 1
            &&& ask.messages.take(s.conversation.messages.len() as int) == s.conversation.messages
            &&& ask.messages.last().role == "user"@
            &&& ask.messages.last().content == trimmed(s.input.text)
            &&& ask.model == s.model
            &&& ask.system_prompt == s.conversation.system_prompt
            &&& ask.provider == active_provider(s)
        },
        key_effect(s, Key { code: KeyCode::Enter, ctrl }).0.input.text.len() == 0,
        key_effect(s, Key { code: KeyCode::Enter, ctrl }).0.input.cursor == 0,
        key_effect(s, Key { code: KeyCode::Enter, ctrl }).0.pending,
        key_effect(s, Key { code: KeyCode::Enter, ctrl }).0.pending_user == Some(
            trimmed(s.input.text),
        ),
        key_effect(s, Key { code: KeyCode::Enter, ctrl }).0.conversation == s.conversation,
{
    let text = s.input.text;
    reveal_strlit("/");
    if can_complete(text) {
        assert(text.take(1)[0] == "/"@[0]);
        law_trimming_keeps_the_first(text);
    }
    let t = trimmed(text);
    if starts(t, "/"@) {
        assert(t.take(1)[0] == "/"@[0]);
    }
    if let EffectView::Ask(ask) = key_effect(s, Key { code: KeyCode::Enter, ctrl }).1 {
        assert(ask.messages.take(s.conversation.messages.len() as int) =~= s.conversation.messages);
    }
}

/// Without an API key, what was typed is not sent: the chat asks for a key instead.
#[verifier::rlimit(40)]
pub proof fn law_enter_asks_for_a_key(s: AppView, ctrl: bool)
    requires
        s.modal is None,
        s.focus == Focus::Input,
        !s.pending,
        !key_given(s.api_key),
        !blank(s.input.text),
        trimmed(s.input.text)[0] != '/',
    ensures
        key_effect(s, Key { code: KeyCode::Enter, ctrl }).1 is Nothing,
        key_effect(s, Key { code: KeyCode::Enter, ctrl }).0.modal matches Some(
            ModalView::ApiKey(m),
        ) && m.value.text.len() == 0 && !m.reveal,
        !key_effect(s, Key { code: KeyCode::Enter, ctrl }).0.pending,
{
    let text = s.input.text;
    reveal_strlit("/");
    if can_complete(text) {
        assert(text.take(1)[0] == "/"@[0]);
        law_trimming_keeps_the_first(text);
    }
    let t = trimmed(text);
    if starts(t, "/"@) {
        assert(t.take(1)[0] == "/"@[0]);
    }
}

/// While the model is being asked, Enter sends nothing and what was typed stays.
#[verifier::rlimit(40)]
pub proof fn law_enter_waits(s: AppView, ctrl: bool)
    requires
        s.modal is None,
        s.focus == Focus::Input,
        s.pending,
    ensures
        key_effect(s, Key { code: KeyCode::Enter, ctrl }).1 is Nothing,
        key_effect(s, Key { code: KeyCode::Enter, ctrl }).0 == (AppView {
            status: "Request in progress"@,
            ..s
        }),
{
}

/// A line that begins with `/` is a command: the word up to the first space names it, and what stands
/// behind that is its argument.
#[verifier::rlimit(40)]
pub proof fn law_commands_are_carried_out(s: AppView, ctrl: bool)
    requires
        s.modal is None,
        s.focus == Focus::Input,
        !s.pending,
        !offers_completion(s),
        !blank(s.input.text),
        trimmed(s.input.text)[0] == '/',
    ensures
        key_effect(s, Key { code: KeyCode::Enter, ctrl }) == slash_effect(
            AppView { input: EditorView { text: Seq::empty(), cursor: 0 }, suggestion: 0, ..s },
            command_of(trimmed(s.input.text)),
            argument_of(trimmed(s.input.text)),
        ),
{
    let t = trimmed(s.input.text);
    reveal_strlit("/");
    assert(t.take(1) =~= "/"@);
}

// ---------------------------------------------------------------------------
// Commands
// ---------------------------------------------------------------------------

/// `/model` sets the model, for the chat and its conversation, with the web routing that is set;
/// without an argument it only tells the model.
pub proof fn law_model_command(s: AppView, arg: Seq<char>)
    ensures
        arg.len() > 0 ==> slash_effect(s, "/model"@, arg).0.model == with_mode(arg, s.mode),
        arg.len() > 0 ==> slash_effect(s, "/model"@, arg).0.conversation == (ConversationView {
            model: with_mode(arg, s.mode),
            ..s.conversation
        }),
        arg.len() == 0 ==> slash_effect(s, "/model"@, arg).0 == (AppView {
            status: "Current model: "@ + s.model,
            ..s
        }),
        slash_effect(s, "/model"@, arg).0.mode == s.mode,
        slash_effect(s, "/model"@, arg).1 is Nothing,
{
    lemma_commands_differ();
}

/// `/webmode` sets the web mode that its argument names, and routes the model by it; without an
/// argument it opens the picker, and where the argument names no mode it only says so.
pub proof fn law_webmode_command(s: AppView, arg: Seq<char>)
    ensures
        arg.len() == 0 ==> slash_effect(s, "/webmode"@, arg).0.modal matches Some(
            ModalView::WebModePicker(_),
        ),
        arg.len() == 0 || mode_of_arg(arg) is None ==> slash_effect(s, "/webmode"@, arg).0.model
            == s.model && slash_effect(s, "/webmode"@, arg).0.mode == s.mode && slash_effect(
            s,
            "/webmode"@,
            arg,
        ).0.conversation == s.conversation,
        arg.len() > 0 && mode_of_arg(arg) is Some ==> {
            &&& Some(slash_effect(s, "/webmode"@, arg).0.mode) == mode_of_arg(arg)
            &&& slash_effect(s, "/webmode"@, arg).0.model == with_mode(
                model_base(s.model),
                mode_of_arg(arg).unwrap(),
            )
            &&& slash_effect(s, "/webmode"@, arg).0.conversation.model == slash_effect(
                s,
                "/webmode"@,
                arg,
            ).0.model
            &&& slash_effect(s, "/webmode"@, arg).0.conversation.messages == s.conversation.messages
        },
        slash_effect(s, "/webmode"@, arg).1 is Nothing,
{
    lemma_commands_differ();
}

/// `/system` sets the system prompt to its argument; `off` takes it away, and without an argument it
/// is only told.
pub proof fn law_system_command(s: AppView, arg: Seq<char>)
    ensures
        same_ignoring_case(arg, "off"@) ==> slash_effect(s, "/system"@, arg).0.conversation
            == (ConversationView { system_prompt: None, ..s.conversation }),
        arg.len() > 0 && !same_ignoring_case(arg, "off"@) ==> slash_effect(
            s,
            "/system"@,
            arg,
        ).0.conversation == (ConversationView { system_prompt: Some(arg), ..s.conversation }),
        arg.len() == 0 && !same_ignoring_case(arg, "off"@) ==> slash_effect(
            s,
            "/system"@,
            arg,
        ).0.conversation == s.conversation,
        slash_effect(s, "/system"@, arg).0.model == s.model,
        slash_effect(s, "/system"@, arg).1 is Nothing,
{
    lemma_commands_differ();
}

/// `/clear` forgets every message, and nothing else of the conversation.
pub proof fn law_clear_command(s: AppView, arg: Seq<char>)
    ensures
        slash_effect(s, "/clear"@, arg).0.conversation.messages.len() == 0,
        slash_effect(s, "/clear"@, arg).0.conversation.id == s.conversation.id,
        slash_effect(s, "/clear"@, arg).0.conversation.model == s.conversation.model,
        slash_effect(s, "/clear"@, arg).0.conversation.system_prompt == s.conversation.system_prompt,
        slash_effect(s, "/clear"@, arg).0.model == s.model,
        slash_effect(s, "/clear"@, arg).1 is Nothing,
{
    lemma_commands_differ();
}

/// `/help` shows the help, `/save` saves, `/history` counts the messages, `/models` fetches the models
/// and `/providers` the providers of the current model; none of them changes the conversation.
pub proof fn law_other_commands(s: AppView, arg: Seq<char>)
    ensures
        slash_effect(s, "/help"@, arg) == (
            AppView { modal: Some(ModalView::Help), ..s },
            EffectView::Nothing,
        ),
        slash_effect(s, "/save"@, arg) == (
            AppView { status: "Saved "@ + s.conversation.id, ..s },
            EffectView::SaveAndReload,
        ),
        slash_effect(s, "/history"@, arg) == (
            AppView {
                status: "History messages: "@ + decimal(s.conversation.messages.len()),
                ..s
            },
            EffectView::Nothing,
        ),
        slash_effect(s, "/models"@, arg) == (s, EffectView::OpenModels),
        slash_effect(s, "/providers"@, arg) == (s, EffectView::FetchProviders(model_base(s.model))),
{
    lemma_commands_differ();
}

proof fn lemma_commands_differ()
    ensures
        "/help"@ != "/model"@,
        "/help"@ != "/webmode"@,
        "/help"@ != "/system"@,
        "/help"@ != "/clear"@,
        "/help"@ != "/save"@,
        "/help"@ != "/history"@,
        "/help"@ != "/models"@,
        "/help"@ != "/providers"@,
        "/model"@ != "/webmode"@,
        "/model"@ != "/system"@,
        "/model"@ != "/clear"@,
        "/model"@ != "/save"@,
        "/model"@ != "/history"@,
        "/model"@ != "/models"@,
        "/model"@ != "/providers"@,
        "/webmode"@ != "/system"@,
        "/webmode"@ != "/clear"@,
        "/webmode"@ != "/save"@,
        "/webmode"@ != "/history"@,
        "/webmode"@ != "/models"@,
        "/webmode"@ != "/providers"@,
        "/system"@ != "/clear"@,
        "/system"@ != "/save"@,
        "/system"@ != "/history"@,
        "/system"@ != "/models"@,
        "/system"@ != "/providers"@,
        "/clear"@ != "/save"@,
        "/clear"@ != "/history"@,
        "/clear"@ != "/models"@,
        "/clear"@ != "/providers"@,
        "/save"@ != "/history"@,
        "/save"@ != "/models"@,
        "/save"@ != "/providers"@,
        "/history"@ != "/models"@,
        "/history"@ != "/providers"@,
        "/models"@ != "/providers"@,
{
    reveal_strlit("/help");
    reveal_strlit("/model");
    reveal_strlit("/webmode");
    reveal_strlit("/system");
    reveal_strlit("/clear");
    reveal_strlit("/save");
    reveal_strlit("/history");
    reveal_strlit("/models");
    reveal_strlit("/providers");
    assert("/help"@.len() == 5);
    assert("/model"@.len() == 6);
    assert("/webmode"@.len() == 8);
    assert("/system"@.len() == 7);
    assert("/clear"@.len() == 6);
    assert("/save"@.len() == 5);
    assert("/history"@.len() == 8);
    assert("/models"@.len() == 7);
    assert("/providers"@.len() == 10);
    assert("/help"@[1] != "/save"@[1]);
    assert("/model"@[1] != "/clear"@[1]);
    assert("/webmode"@[1] != "/history"@[1]);
    assert("/system"@[1] != "/models"@[1]);
}

/// A command that is none of these changes nothing but what is told.
pub proof fn law_unknown_commands(s: AppView, cmd: Seq<char>, arg: Seq<char>)
    requires
        cmd != "/help"@,
        cmd != "/model"@,
        cmd != "/webmode"@,
        cmd != "/system"@,
        cmd != "/clear"@,
        cmd != "/save"@,
        cmd != "/history"@,
        cmd != "/models"@,
        cmd != "/providers"@,
    ensures
        slash_effect(s, cmd, arg) == (
            AppView { status: "Unknown command: "@ + cmd, ..s },
            EffectView::Nothing,
        ),
{
}

// ---------------------------------------------------------------------------
// Answers and conversations
// ---------------------------------------------------------------------------

/// An answer is kept behind what the user said, and the conversation keeps all it held; a failure
/// keeps the conversation, and tells why.
pub proof fn law_answers_are_kept(s: AppView, said: Seq<char>, answer: Seq<char>, why: Seq<char>)
    requires
        s.pending_user == Some(said),
    ensures
        responded(s, Ok(answer)).conversation.messages.len() == s.conversation.messages.len() + 2,
        responded(s, Ok(answer)).conversation.messages.take(s.conversation.messages.len() as int)
            == s.conversation.messages,
        responded(s, Ok(answer)).conversation.messages[s.conversation.messages.len() as int].role
            == "user"@,
        responded(s, Ok(answer)).conversation.messages[s.conversation.messages.len() as int].content
            == said,
        responded(s, Ok(answer)).conversation.messages.last().role == "assistant"@,
        responded(s, Ok(answer)).conversation.messages.last().content == answer,
        responded(s, Ok(answer)).conversation.id == s.conversation.id,
        responded(s, Ok(answer)).conversation.system_prompt == s.conversation.system_prompt,
        responded(s, Ok(answer)).conversation.model == s.model,
        responded(s, Ok(answer)).pending_user is None,
        responded(s, Err(why)) == (AppView {
            pending: false,
            pending_user: None,
            status: "Request failed: "@ + why,
            ..s
        }),
        disconnected(s).conversation == s.conversation,
        !disconnected(s).pending,
        disconnected(s).pending_user is None,
{
    assert(responded(s, Ok(answer)).conversation.messages.take(
        s.conversation.messages.len() as int,
    ) =~= s.conversation.messages);
}

/// A conversation that is opened is shown as it is, and asks the model that it was held with, under
/// the routing that its model carries; one without a model keeps the current one.
pub proof fn law_opened_conversation_is_shown(s: AppView, c: ConversationView)
    ensures
        switched(s, c).conversation == c,
        c.model.len() > 0 ==> switched(s, c).model == c.model,
        c.model.len() == 0 ==> switched(s, c).model == s.model,
        mode_of_model(switched(s, c).model) matches Some(mode) ==> switched(s, c).mode == mode,
        mode_of_model(switched(s, c).model) is None ==> switched(s, c).mode == s.mode,
        switched(s, c).overrides == s.overrides,
        switched(s, c).api_key == s.api_key,
        entered(s, c).conversation == c,
        entered(s, c).focus == Focus::Input,
        entered(s, c).model == s.model,
{
}

/// The list of conversations is shown as it was read, with the open one selected: it is the first of
/// its name. Where it is not listed, the first one is selected.
pub proof fn law_list_is_shown_as_read(s: AppView, list: Seq<SummaryView>, i: int)
    requires
        0 <= i < list.len(),
        list[i].id == s.conversation.id,
        forall|k: int| 0 <= k < i ==> (#[trigger] list[k]).id != s.conversation.id,
    ensures
        reloaded(s, list).conversations == list,
        reloaded(s, list).selected == i,
        reloaded(s, list).conversation == s.conversation,
{
    crate::tui::app::lemma_position(list, s.conversation.id, i);
}

/// The chat opens with the conversation, the key and the providers that it is given; without a key it
/// asks for one. The model is the conversation's, or the one that was asked for where that has none.
pub proof fn law_chat_opens_as_asked(
    base_url: Seq<char>,
    timeout_secs: u64,
    key: Option<Seq<char>>,
    args: TuiArgs,
    c: ConversationView,
    overrides: Map<Seq<char>, Seq<char>>,
)
    ensures
        opened(base_url, timeout_secs, key, args, c, overrides).conversation == c,
        opened(base_url, timeout_secs, key, args, c, overrides).api_key == key,
        opened(base_url, timeout_secs, key, args, c, overrides).base_url == base_url,
        opened(base_url, timeout_secs, key, args, c, overrides).timeout_secs == timeout_secs,
        opened(base_url, timeout_secs, key, args, c, overrides).args == args,
        key_given(key) <==> opened(base_url, timeout_secs, key, args, c, overrides).modal is None,
        !key_given(key) ==> opened(base_url, timeout_secs, key, args, c, overrides).modal matches Some(
            ModalView::ApiKey(_),
        ),
        c.model.len() > 0 ==> opened(base_url, timeout_secs, key, args, c, overrides).model == c.model,
        c.model.len() == 0 ==> opened(base_url, timeout_secs, key, args, c, overrides).model
            == model_by_flags(args.model@, args.web, args.deep_web),
        args.provider is None ==> opened(base_url, timeout_secs, key, args, c, overrides).overrides
            == overrides,
        args.provider is Some ==> active_provider(
            opened(base_url, timeout_secs, key, args, c, overrides),
        ) == Some(args.provider.unwrap()@),
        opened(base_url, timeout_secs, key, args, c, overrides).input.text.len() == 0,
        opened(base_url, timeout_secs, key, args, c, overrides).focus == Focus::Input,
        !opened(base_url, timeout_secs, key, args, c, overrides).pending,
        key_given(key) <==> (key matches Some(text) && !blank(text)),
{
}

/// A new conversation takes over the model and the system prompt that were asked for; one that was
/// asked for by name, or in which something was said, stays as it is.
pub proof fn law_new_conversation_takes_settings(c: ConversationView, args: TuiArgs)
    ensures
        args.conversation is Some || c.messages.len() > 0 ==> conversation_to_open(c, args) == c,
        args.conversation is None && c.messages.len() == 0 ==> {
            &&& conversation_to_open(c, args).model == model_by_flags(
                args.model@,
                args.web,
                args.deep_web,
            )
            &&& args.system is Some ==> conversation_to_open(c, args).system_prompt == Some(
                args.system.unwrap()@,
            )
            &&& args.system is None ==> conversation_to_open(c, args).system_prompt
                == c.system_prompt
            &&& conversation_to_open(c, args).id == c.id
            &&& conversation_to_open(c, args).messages == c.messages
        },
{
}

/// What a search gave is shown in the dialog that asked for it, from its first line, and so is why it
/// failed; where the dialog is closed, nothing changes.
pub proof fn law_search_result_is_shown(
    s: AppView,
    m: SearchView,
    text: Seq<char>,
    why: Seq<char>,
)
    ensures
        s.modal == Some(ModalView::WebSearch(m)) ==> {
            &&& search_shown(s, Ok(text)).modal == Some(
                ModalView::WebSearch(SearchView { result: text, result_scroll: 0, ..m }),
            )
            &&& search_shown(s, Err(why)).modal == Some(
                ModalView::WebSearch(SearchView { result: "Error: "@ + why, ..m }),
            )
            &&& search_shown(s, Ok(text)).conversation == s.conversation
        },
        !(s.modal matches Some(ModalView::WebSearch(_))) ==> search_shown(s, Ok(text)) == s
            && search_shown(s, Err(why)) == s,
{
}

/// Where the open conversation was deleted, a fresh one takes its place; another one stays open.
pub proof fn law_deleted_conversation_is_replaced(
    s: AppView,
    id: Seq<char>,
    fresh: ConversationView,
)
    ensures
        s.conversation.id == id ==> deleted(s, id, fresh).0.conversation == fresh && deleted(
            s,
            id,
            fresh,
        ).1,
        s.conversation.id != id ==> deleted(s, id, fresh).0.conversation == s.conversation && !deleted(
            s,
            id,
            fresh,
        ).1,
        deleted(s, id, fresh).0.status == "Deleted "@ + id,
        deleted(s, id, fresh).0.model == s.model,
        deleted(s, id, fresh).0.overrides == s.overrides,
        deleted(s, id, fresh).0.input == s.input,
{
}

/// The pickers open on what was fetched: the models of the first catalog with nothing searched for,
/// the providers of a model with the picked one marked, and the web modes on the one that is set.
pub proof fn law_pickers_open(
    s: AppView,
    models: Seq<ModelView>,
    model: Seq<char>,
    value: JsonView,
    scope: ModelScope,
    m: ModelPickerView,
)
    ensures
        models_opened(s, models).modal matches Some(ModalView::ModelPicker(p)) && p.models == models
            && p.scope == ModelScope::Canonical && p.search.text.len() == 0 && p.search.cursor == 0
            && p.selected == 0,
        models_opened(s, models).conversation == s.conversation,
        s.modal == Some(ModalView::ModelPicker(m)) ==> catalog_shown(s, scope, models).modal == Some(
            ModalView::ModelPicker(
                ModelPickerView { scope, search: m.search, selected: 0, models },
            ),
        ),
        s.modal is None ==> catalog_shown(s, scope, models) == s,
        s.overrides.contains_key(model) ==> providers_opened(s, model, value).modal == Some(
            ModalView::ProviderPicker(provider_picker(model, value, Some(s.overrides[model]))),
        ),
        !s.overrides.contains_key(model) ==> providers_opened(s, model, value).modal == Some(
            ModalView::ProviderPicker(provider_picker(model, value, None)),
        ),
        providers_opened(s, model, value).conversation == s.conversation,
        modes_opened(s).modal == Some(ModalView::WebModePicker(mode_position(s.mode))),
        modes_opened(s).mode == s.mode,
{
}

/// A new conversation goes on with the model and the system prompt of the chat; nothing was said in
/// it.
pub proof fn law_new_conversation_goes_on(c: ConversationView, s: AppView)
    requires
        is_begun_from(c, s),
    ensures
        c.model == s.model,
        c.system_prompt == s.conversation.system_prompt,
        c.messages.len() == 0,
        crate::ident::fresh_id(c.id),
{
}

/// What was done is told in the status line.
pub proof fn law_what_was_done_is_told(
    s: AppView,
    c: ConversationView,
    m: SearchView,
    text: Seq<char>,
)
    ensures
        responded(s, Ok(text)).status == "Response received"@,
        responded(s, Err(text)).status == "Request failed: "@ + text,
        disconnected(s).status == "Request channel disconnected"@,
        switched(s, c).status == "Switched to "@ + c.id,
        entered(s, c).status == "Created "@ + c.id,
        s.modal == Some(ModalView::WebSearch(m)) ==> search_shown(s, Ok(text)).status
            == "Web search completed"@ && search_shown(s, Err(text)).status == "Web search failed"@,
        slash_effect(s, "/clear"@, text).0.status == "Conversation history cleared"@,
{
    lemma_commands_differ();
}

} // verus!
