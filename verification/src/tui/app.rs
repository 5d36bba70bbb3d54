//! The state of the full-screen chat, and what happens to it apart from keys.

use vstd::prelude::*;

use crate::app_config::Overrides;
use crate::cli::{ModelScope, TuiArgs};
use crate::client::{ChatRequest, ChatRequestView, NanoGptClient};
use crate::conversation::{
    assistant_says, blank_conversation, copy_messages, message_views, new_conversation,
    push_message, summary_views, user_says, Conversation, ConversationMessage, ConversationSummary,
    ConversationView, SummaryView,
};
use crate::ident::{fresh_id, new_id};
use crate::json::{copy_opt_json, json_pretty, opt_json, pretty_json, Json, JsonView};
use crate::model_mode::{
    current_model_base, infer_from_flags, infer_from_model, key_of_mode, mode_of_flags,
    mode_of_model, model_base, model_by_flags, presets, route_by_flags, web_mode_key,
    web_mode_presets, ModeView, WebMode, WebModePreset,
};
use crate::text::{blank, cat2, copy_opt, opt_or_empty, opt_str_view, opt_view, same};
use crate::tui::editor::{empty_line, EditorView, LineEditor};
use crate::tui::pickers::{
    model_views, picked_for, provider_picker, read_provider_picker, ModelEntry, ModelPickerModal,
    ModelPickerView, ModelView, ProviderPickerModal, ProviderPickerView, SearchView, WebSearchModal,
};

verus! {

/// Where typed keys go.
#[derive(Debug, Clone, Copy, PartialEq, Eq, Structural)]
pub enum Focus {
    Input,
    Conversations,
}

/// The dialog that asks for an API key.
#[derive(Debug)]
pub struct ApiKeyModal {
    pub value: LineEditor,
    pub reveal: bool,
}

/// The view of an [`ApiKeyModal`].
pub struct ApiKeyView {
    pub value: EditorView,
    pub reveal: bool,
}

/// The web mode picker.
#[derive(Debug)]
pub struct WebModePickerModal {
    pub selected: usize,
}

/// A dialog in front of the chat.
#[derive(Debug)]
pub enum Modal {
    ApiKey(ApiKeyModal),
    ModelPicker(ModelPickerModal),
    ProviderPicker(ProviderPickerModal),
    WebModePicker(WebModePickerModal),
    WebSearch(WebSearchModal),
    Help,
}

/// The view of a [`Modal`].
pub enum ModalView {
    ApiKey(ApiKeyView),
    ModelPicker(ModelPickerView),
    ProviderPicker(ProviderPickerView),
    WebModePicker(nat),
    WebSearch(SearchView),
    Help,
}

impl View for Modal {
    type V = ModalView;

    open spec fn view(&self) -> ModalView {
        match self {
            Modal::ApiKey(m) => ModalView::ApiKey(
                ApiKeyView { value: m.value@, reveal: m.reveal },
            ),
            Modal::ModelPicker(m) => ModalView::ModelPicker(m@),
            Modal::ProviderPicker(m) => ModalView::ProviderPicker(m@),
            Modal::WebModePicker(m) => ModalView::WebModePicker(m.selected as nat),
            Modal::WebSearch(m) => ModalView::WebSearch(m@),
            Modal::Help => ModalView::Help,
        }
    }
}

impl Modal {
    /// What is edited in the dialog can be edited, and its choices are choices that there are.
    pub open spec fn well_formed(self) -> bool {
        match self {
            Modal::ApiKey(m) => m.value.well_formed(),
            Modal::ModelPicker(m) => m.search.well_formed(),
            Modal::ProviderPicker(_) => true,
            Modal::WebModePicker(_) => true,
            Modal::WebSearch(m) => m.well_formed(),
            Modal::Help => true,
        }
    }
}

/// The view of an optional dialog.
pub open spec fn opt_modal(modal: Option<Modal>) -> Option<ModalView> {
    match modal {
        Some(m) => Some(m@),
        None => None,
    }
}

/// The full-screen chat.
pub struct App {
    pub client: NanoGptClient,
    pub args: TuiArgs,
    pub conversation: Conversation,
    pub conversations: Vec<ConversationSummary>,
    pub selected_conversation_idx: usize,
    pub focus: Focus,
    pub modal: Option<Modal>,
    pub current_model: String,
    pub web_mode: WebMode,
    pub provider_overrides: Overrides,
    pub input: LineEditor,
    pub slash_suggestion_idx: usize,
    pub chat_scroll: u16,
    pub status: String,
    /// The model was asked and has not answered yet.
    pub pending: bool,
    pub pending_user: Option<String>,
}

/// The view of an [`App`].
pub struct AppView {
    pub base_url: Seq<char>,
    pub timeout_secs: u64,
    pub api_key: Option<Seq<char>>,
    pub args: TuiArgs,
    pub conversation: ConversationView,
    pub conversations: Seq<SummaryView>,
    pub selected: nat,
    pub focus: Focus,
    pub modal: Option<ModalView>,
    pub model: Seq<char>,
    pub mode: ModeView,
    pub overrides: Map<Seq<char>, Seq<char>>,
    pub input: EditorView,
    pub suggestion: nat,
    pub chat_scroll: u16,
    pub status: Seq<char>,
    pub pending: bool,
    pub pending_user: Option<Seq<char>>,
}

impl View for App {
    type V = AppView;

    open spec fn view(&self) -> AppView {
        AppView {
            base_url: self.client.cfg.base_url@,
            timeout_secs: self.client.cfg.timeout_secs,
            api_key: opt_view(self.client.cfg.api_key),
            args: self.args,
            conversation: self.conversation@,
            conversations: summary_views(self.conversations@),
            selected: self.selected_conversation_idx as nat,
            focus: self.focus,
            modal: opt_modal(self.modal),
            model: self.current_model@,
            mode: self.web_mode@,
            overrides: self.provider_overrides@,
            input: self.input@,
            suggestion: self.slash_suggestion_idx as nat,
            chat_scroll: self.chat_scroll,
            status: self.status@,
            pending: self.pending,
            pending_user: opt_view(self.pending_user),
        }
    }
}

/// The dialog that asks for an API key, before anything was typed.
pub open spec fn fresh_key_dialog() -> ModalView {
    ModalView::ApiKey(ApiKeyView { value: empty_line(), reveal: false })
}

/// Whether there is an API key that is more than spaces.
pub open spec fn key_given(api_key: Option<Seq<char>>) -> bool {
    match api_key {
        Some(key) => !blank(key),
        None => false,
    }
}

/// A conversation for the full-screen chat to begin with: one that was not asked for by name, and in
/// which nothing was said, takes over the model and the system prompt that were given.
pub open spec fn conversation_to_open(c: ConversationView, args: TuiArgs) -> ConversationView {
    if args.conversation is None && c.messages.len() == 0 {
        ConversationView {
            model: model_by_flags(args.model@, args.web, args.deep_web),
            system_prompt: match args.system {
                Some(text) => Some(text@),
                None => c.system_prompt,
            },
            ..c
        }
    } else {
        c
    }
}

/// The model of the full-screen chat at its beginning.
pub open spec fn model_to_open(c: ConversationView, args: TuiArgs) -> Seq<char> {
    if c.model.len() == 0 {
        model_by_flags(args.model@, args.web, args.deep_web)
    } else {
        c.model
    }
}

/// The position of the conversation of a name in a list; the first one where it is not there.
pub open spec fn position_of(list: Seq<SummaryView>, id: Seq<char>) -> nat
    decreases list.len(),
{
    if list.len() == 0 {
        0
    } else if list[0].id == id {
        0
    } else if is_listed(list.drop_first(), id) {
        position_of(list.drop_first(), id) + 1
    } else {
        0
    }
}

/// Whether a conversation of a name stands in a list.
pub open spec fn is_listed(list: Seq<SummaryView>, id: Seq<char>) -> bool {
    exists|i: int| 0 <= i < list.len() && (#[trigger] list[i]).id == id
}

/// A chat after the list of conversations was read: the open one is selected.
pub open spec fn reloaded(s: AppView, list: Seq<SummaryView>) -> AppView {
    AppView { conversations: list, selected: position_of(list, s.conversation.id), ..s }
}

/// The full-screen chat at its beginning, before the list of conversations was read.
pub open spec fn opened(
    base_url: Seq<char>,
    timeout_secs: u64,
    api_key: Option<Seq<char>>,
    args: TuiArgs,
    conversation: ConversationView,
    overrides: Map<Seq<char>, Seq<char>>,
) -> AppView {
    let model = model_to_open(conversation, args);
    AppView {
        base_url,
        timeout_secs,
        api_key,
        args,
        conversation,
        conversations: Seq::empty(),
        selected: 0,
        focus: Focus::Input,
        modal: if key_given(api_key) {
            None
        } else {
            Some(fresh_key_dialog())
        },
        model,
        mode: match mode_of_model(model) {
            Some(mode) => mode,
            None => mode_of_flags(args.web, args.deep_web),
        },
        overrides: match args.provider {
            Some(provider) => overrides.insert(model_base(model), provider@),
            None => overrides,
        },
        input: empty_line(),
        suggestion: 0,
        chat_scroll: 0,
        status: if key_given(api_key) {
            "Ready"@
        } else {
            "NanoGPT API key required"@
        },
        pending: false,
        pending_user: None,
    }
}

/// The provider that was picked for the current model.
pub open spec fn active_provider(s: AppView) -> Option<Seq<char>> {
    if s.overrides.contains_key(model_base(s.model)) {
        Some(s.overrides[model_base(s.model)])
    } else {
        None
    }
}

/// What the model is asked when the user says something.
pub open spec fn chat_ask(s: AppView, input: Seq<char>) -> ChatRequestView {
    ChatRequestView {
        model: s.model,
        system_prompt: s.conversation.system_prompt,
        messages: s.conversation.messages.push(user_says(input)),
        temperature: opt_json(s.args.temperature),
        max_tokens: s.args.max_tokens,
        top_p: opt_json(s.args.top_p),
        service_tier: opt_view(s.args.service_tier),
        reasoning_effort: opt_view(s.args.reasoning_effort),
        billing_mode: opt_view(s.args.billing_mode),
        provider: active_provider(s),
    }
}

/// A chat after the model has answered, or could not.
pub open spec fn responded(s: AppView, answer: Result<Seq<char>, Seq<char>>) -> AppView {
    match answer {
        Ok(content) => AppView {
            pending: false,
            pending_user: None,
            conversation: ConversationView {
                model: s.model,
                messages: s.conversation.messages.push(user_says(opt_or_empty(s.pending_user))).push(
                    assistant_says(content),
                ),
                ..s.conversation
            },
            status: "Response received"@,
            ..s
        },
        Err(e) => AppView {
            pending: false,
            pending_user: None,
            status: "Request failed: "@ + e,
            ..s
        },
    }
}

/// A chat whose request was lost.
pub open spec fn disconnected(s: AppView) -> AppView {
    AppView {
        pending: false,
        pending_user: None,
        status: "Request channel disconnected"@,
        ..s
    }
}

/// A chat after another conversation was opened.
pub open spec fn switched(s: AppView, c: ConversationView) -> AppView {
    let model = if c.model.len() == 0 {
        s.model
    } else {
        c.model
    };
    AppView {
        model,
        mode: match mode_of_model(model) {
            Some(mode) => mode,
            None => s.mode,
        },
        conversation: c,
        status: "Switched to "@ + c.id,
        ..s
    }
}

/// A chat after a new conversation was begun.
pub open spec fn entered(s: AppView, c: ConversationView) -> AppView {
    AppView { conversation: c, focus: Focus::Input, status: "Created "@ + c.id, ..s }
}

/// Whether a conversation is a new one with the model and the system prompt of a chat.
pub open spec fn is_begun_from(c: ConversationView, s: AppView) -> bool {
    &&& fresh_id(c.id)
    &&& c == blank_conversation(c.id, s.model, s.conversation.system_prompt, c.created_at)
    &&& crate::stamp::clock_reading(c.created_at)
}

/// A chat after a conversation was deleted, and whether that was the open one, whose place `fresh` takes.
pub open spec fn deleted(s: AppView, id: Seq<char>, fresh: ConversationView) -> (AppView, bool) {
    let replaced = s.conversation.id == id;
    (
        AppView {
            conversation: if replaced {
                fresh
            } else {
                s.conversation
            },
            status: "Deleted "@ + id,
            ..s
        },
        replaced,
    )
}

/// A chat with the web mode picker open on its mode.
pub open spec fn modes_opened(s: AppView) -> AppView {
    AppView { modal: Some(ModalView::WebModePicker(mode_position(s.mode))), ..s }
}

/// A chat with the model picker open on the models of the first catalog.
pub open spec fn models_opened(s: AppView, models: Seq<ModelView>) -> AppView {
    AppView {
        modal: Some(
            ModalView::ModelPicker(
                ModelPickerView {
                    scope: ModelScope::Canonical,
                    search: empty_line(),
                    selected: 0,
                    models,
                },
            ),
        ),
        ..s
    }
}

/// A chat whose model picker went on to another catalog.
pub open spec fn catalog_shown(s: AppView, scope: ModelScope, models: Seq<ModelView>) -> AppView {
    AppView {
        modal: match s.modal {
            Some(ModalView::ModelPicker(m)) => Some(
                ModalView::ModelPicker(ModelPickerView { scope, selected: 0, models, ..m }),
            ),
            other => other,
        },
        ..s
    }
}

/// A chat with the provider picker open for a model.
pub open spec fn providers_opened(s: AppView, model_id: Seq<char>, value: JsonView) -> AppView {
    AppView {
        modal: Some(
            ModalView::ProviderPicker(
                provider_picker(model_id, value, picked_for(s.overrides, model_id)),
            ),
        ),
        ..s
    }
}

/// The position of the preset that a mode is, counted from 1; 0 is no mode, and 1 a mode that is none
/// of the presets.
pub open spec fn mode_position(mode: ModeView) -> nat {
    match key_of_mode(mode) {
        None => 0,
        Some(key) => preset_position(key, 0),
    }
}

/// The position of a preset, counted from 1, from some place on; 1 where it is not there.
pub open spec fn preset_position(key: Seq<char>, from: nat) -> nat
    decreases presets().len() - from,
{
    if from >= presets().len() {
        1
    } else if presets()[from as int].key == key {
        from + 1
    } else {
        preset_position(key, from + 1)
    }
}

/// The position of the preset that a mode is.
pub fn web_mode_position(mode: &WebMode) -> (r: usize)
    ensures
        r == mode_position(mode@),
{
    match web_mode_key(mode) {
        None => 0,
        Some(key) => {
            let all: &'static [WebModePreset] = web_mode_presets();
            let mut i: usize = 0;
            while i < all.len()
                invariant
                    i <= all@.len() == presets().len(),
                    key_of_mode(mode@) == Some(key@),
                    forall|k: int| 0 <= k < all@.len() ==> (#[trigger] all@[k])@ == presets()[k],
                    preset_position(key@, 0) == preset_position(key@, i as nat),
                decreases all@.len() - i,
            {
                assert(all@[i as int]@ == presets()[i as int]);
                if same(all[i].key, key) {
                    return i + 1;
                }
                i += 1;
            }
            1
        },
    }
}

fn find_listed(list: &Vec<ConversationSummary>, id: &str) -> (r: usize)
    ensures
        r == position_of(summary_views(list@), id@),
{
    let ghost all = summary_views(list@);
    let mut i: usize = 0;
    assert(all.skip(0) =~= all);
    while i < list.len()
        invariant
            i <= list@.len(),
            all == summary_views(list@),
            forall|k: int| 0 <= k < i ==> (#[trigger] all[k]).id != id@,
        decreases list@.len() - i,
    {
        assert(all[i as int].id == list@[i as int].id@);
        if same(list[i].id.as_str(), id) {
            proof {
                lemma_position(all, id@, i as int);
            }
            return i;
        }
        i += 1;
    }
    proof {
        lemma_no_position(all, id@);
    }
    0
}

/// The first entry of a name is at its position.
pub proof fn lemma_position(list: Seq<SummaryView>, id: Seq<char>, i: int)
    requires
        0 <= i < list.len(),
        list[i].id == id,
        forall|k: int| 0 <= k < i ==> (#[trigger] list[k]).id != id,
    ensures
        position_of(list, id) == i,
    decreases list.len(),
{
    if i > 0 {
        let rest = list.drop_first();
        assert(list[0].id != id);
        assert(rest[i - 1].id == id);
        assert(is_listed(rest, id));
        assert forall|k: int| 0 <= k < i - 1 implies (#[trigger] rest[k]).id != id by {
            assert(rest[k] == list[k + 1]);
        }
        lemma_position(rest, id, i - 1);
    }
}

proof fn lemma_no_position(list: Seq<SummaryView>, id: Seq<char>)
    requires
        forall|k: int| 0 <= k < list.len() ==> (#[trigger] list[k]).id != id,
    ensures
        position_of(list, id) == 0,
{
    if list.len() > 0 {
        let rest = list.drop_first();
        assert(list[0].id != id);
        if is_listed(rest, id) {
            let k = choose|k: int| 0 <= k < rest.len() && (#[trigger] rest[k]).id == id;
            assert(list[k + 1].id == id);
        }
    }
}

impl App {
    /// What is edited can be edited, and no model has two providers.
    pub open spec fn well_formed(self) -> bool {
        &&& self.input.well_formed()
        &&& self.provider_overrides.well_formed()
        &&& self.modal matches Some(m) ==> m.well_formed()
    }

    /// The full-screen chat at its beginning; the list of conversations is still to be read.
    pub fn new(
        client: NanoGptClient,
        args: TuiArgs,
        conversation: Conversation,
        stored: Overrides,
    ) -> (r: App)
        requires
            stored.well_formed(),
        ensures
            r.well_formed(),
            r@ == opened(
                client.cfg.base_url@,
                client.cfg.timeout_secs,
                opt_view(client.cfg.api_key),
                args,
                conversation@,
                stored@,
            ),
    {
        let first: WebMode = infer_from_flags(args.web, args.deep_web);
        let current_model: String = if conversation.model.as_str().is_empty() {
            route_by_flags(args.model.as_str(), args.web, args.deep_web)
        } else {
            conversation.model.clone()
        };
        let web_mode: WebMode = match infer_from_model(current_model.as_str()) {
            Some(mode) => mode,
            None => first,
        };
        let mut overrides: Overrides = stored;
        if let Some(provider) = &args.provider {
            let base: String = current_model_base(current_model.as_str()).to_owned();
            overrides.insert(base, provider.clone());
        }
        let has_key: bool = client.has_api_key();
        let conversations: Vec<ConversationSummary> = Vec::new();
        assert(summary_views(conversations@) =~= Seq::empty());
        App {
            client,
            args,
            conversation,
            conversations,
            selected_conversation_idx: 0,
            focus: Focus::Input,
            modal: if has_key {
                None
            } else {
                Some(Modal::ApiKey(ApiKeyModal { value: LineEditor::new(), reveal: false }))
            },
            current_model,
            web_mode,
            provider_overrides: overrides,
            input: LineEditor::new(),
            slash_suggestion_idx: 0,
            chat_scroll: 0,
            status: if has_key {
                "Ready".to_owned()
            } else {
                "NanoGPT API key required".to_owned()
            },
            pending: false,
            pending_user: None,
        }
    }

    /// Takes the list of conversations, newest first.
    pub fn reload_conversations(&mut self, list: Vec<ConversationSummary>)
        requires
            old(self).well_formed(),
        ensures
            final(self).well_formed(),
            final(self)@ == reloaded(old(self)@, summary_views(list@)),
    {
        let at: usize = find_listed(&list, self.conversation.id.as_str());
        self.conversations = list;
        self.selected_conversation_idx = at;
    }

    /// The provider that was picked for the current model.
    pub fn active_provider_for_current_model(&self) -> (r: Option<&str>)
        requires
            self.well_formed(),
        ensures
            opt_str_view(r) == active_provider(self@),
    {
        self.provider_overrides.get(self.current_model_base())
    }

    /// The current model without its web routing.
    pub fn current_model_base(&self) -> (r: &str)
        ensures
            r@ == model_base(self@.model),
    {
        current_model_base(self.current_model.as_str())
    }

    /// What the model is asked when the user says something.
    pub fn chat_request(&self, input: &str) -> (r: ChatRequest)
        requires
            self.well_formed(),
        ensures
            r@ == chat_ask(self@, input@),
    {
        let mut messages: Vec<ConversationMessage> = copy_messages(&self.conversation.messages);
        push_message(&mut messages, "user", input.to_owned());
        let provider: Option<String> = match self.active_provider_for_current_model() {
            Some(name) => Some(name.to_owned()),
            None => None,
        };
        ChatRequest {
            model: self.current_model.clone(),
            system_prompt: copy_opt(&self.conversation.system_prompt),
            messages,
            temperature: copy_opt_json(&self.args.temperature),
            max_tokens: self.args.max_tokens,
            top_p: copy_opt_json(&self.args.top_p),
            service_tier: copy_opt(&self.args.service_tier),
            reasoning_effort: copy_opt(&self.args.reasoning_effort),
            billing_mode: copy_opt(&self.args.billing_mode),
            provider,
        }
    }

    /// Takes the model's answer, or why there is none.
    pub fn take_response(&mut self, answer: Result<String, String>)
        requires
            old(self).well_formed(),
        ensures
            final(self).well_formed(),
            final(self)@ == responded(
                old(self)@,
                match answer {
                    Ok(content) => Ok(content@),
                    Err(e) => Err(e@),
                },
            ),
    {
        let user: String = match &self.pending_user {
            Some(text) => text.clone(),
            None => String::new(),
        };
        self.pending = false;
        self.pending_user = None;
        match answer {
            Ok(content) => {
                self.conversation.push_user_message(user);
                self.conversation.push_assistant_message(content);
                self.conversation.model = self.current_model.clone();
                self.status = "Response received".to_owned();
            },
            Err(e) => {
                self.status = cat2("Request failed: ", e.as_str());
            },
        }
    }

    /// Notes that a request was lost.
    pub fn lose_response(&mut self)
        requires
            old(self).well_formed(),
        ensures
            final(self).well_formed(),
            final(self)@ == disconnected(old(self)@),
    {
        self.pending = false;
        self.pending_user = None;
        self.status = "Request channel disconnected".to_owned();
    }

    /// Opens another conversation.
    pub fn switch_to(&mut self, conversation: Conversation)
        requires
            old(self).well_formed(),
        ensures
            final(self).well_formed(),
            final(self)@ == switched(old(self)@, conversation@),
    {
        if !conversation.model.as_str().is_empty() {
            self.current_model = conversation.model.clone();
        }
        if let Some(mode) = infer_from_model(self.current_model.as_str()) {
            self.web_mode = mode;
        }
        self.status = cat2("Switched to ", conversation.id.as_str());
        self.conversation = conversation;
    }

    /// A new conversation with the current model and system prompt.
    pub fn fresh_conversation(&self) -> (r: Conversation)
        ensures
            is_begun_from(r@, self@),
    {
        let id: String = new_id();
        new_conversation(
            id,
            self.current_model.clone(),
            copy_opt(&self.conversation.system_prompt),
        )
    }

    /// Begins a conversation that was just made.
    pub fn enter(&mut self, conversation: Conversation)
        requires
            old(self).well_formed(),
        ensures
            final(self).well_formed(),
            final(self)@ == entered(old(self)@, conversation@),
    {
        self.status = cat2("Created ", conversation.id.as_str());
        self.conversation = conversation;
        self.focus = Focus::Input;
    }

    /// Notes that a conversation was deleted; where it was the open one, `fresh` takes its place.
    pub fn after_delete(&mut self, id: &str, fresh: Conversation) -> (replaced: bool)
        requires
            old(self).well_formed(),
        ensures
            final(self).well_formed(),
            (final(self)@, replaced) == deleted(old(self)@, id@, fresh@),
    {
        let replaced: bool = same(self.conversation.id.as_str(), id);
        if replaced {
            self.conversation = fresh;
        }
        self.status = cat2("Deleted ", id);
        replaced
    }

    /// Opens the web mode picker on the current mode.
    pub fn open_web_mode_picker(&mut self)
        requires
            old(self).well_formed(),
        ensures
            final(self).well_formed(),
            final(self)@ == modes_opened(old(self)@),
    {
        let selected: usize = web_mode_position(&self.web_mode);
        self.modal = Some(Modal::WebModePicker(WebModePickerModal { selected }));
    }

    /// Opens the model picker on the models of the first catalog.
    pub fn open_model_picker(&mut self, models: Vec<ModelEntry>)
        requires
            old(self).well_formed(),
        ensures
            final(self).well_formed(),
            final(self)@ == models_opened(old(self)@, model_views(models@)),
    {
        self.modal = Some(
            Modal::ModelPicker(
                ModelPickerModal {
                    scope: ModelScope::Canonical,
                    search: LineEditor::new(),
                    selected: 0,
                    models,
                },
            ),
        );
    }

    /// Goes on to another catalog in the model picker, with its models.
    pub fn show_catalog(&mut self, scope: ModelScope, models: Vec<ModelEntry>)
        requires
            old(self).well_formed(),
        ensures
            final(self).well_formed(),
            final(self)@ == catalog_shown(old(self)@, scope, model_views(models@)),
    {
        let modal: Option<Modal> = self.modal.take();
        self.modal = match modal {
            Some(Modal::ModelPicker(m)) => Some(
                Modal::ModelPicker(
                    ModelPickerModal { scope, search: m.search, selected: 0, models },
                ),
            ),
            other => other,
        };
    }

    /// Opens the provider picker for a model, from the API's answer.
    pub fn open_provider_picker(&mut self, model_id: &str, value: &Json)
        requires
            old(self).well_formed(),
        ensures
            final(self).well_formed(),
            final(self)@ == providers_opened(old(self)@, model_id@, value@),
    {
        let picker: ProviderPickerModal = read_provider_picker(
            model_id,
            value,
            &self.provider_overrides,
        );
        self.modal = Some(Modal::ProviderPicker(picker));
    }

    /// Takes what a web search gave, as it is shown; an error where it gave nothing.
    pub fn show_search(&mut self, shown: Result<String, String>)
        requires
            old(self).well_formed(),
        ensures
            final(self).well_formed(),
            final(self)@ == search_shown(
                old(self)@,
                match shown {
                    Ok(text) => Ok(text@),
                    Err(e) => Err(e@),
                },
            ),
    {
        let modal: Option<Modal> = self.modal.take();
        match modal {
            Some(Modal::WebSearch(m)) => {
                let mut m: WebSearchModal = m;
                match shown {
                    Ok(text) => {
                        m.result = text;
                        m.result_scroll = 0;
                        self.status = "Web search completed".to_owned();
                    },
                    Err(e) => {
                        m.result = cat2("Error: ", e.as_str());
                        self.status = "Web search failed".to_owned();
                    },
                }
                self.modal = Some(Modal::WebSearch(m));
            },
            other => {
                self.modal = other;
            },
        }
    }

    /// Takes the API's answer to a web search.
    pub fn take_search(&mut self, answer: Result<Json, String>)
        requires
            old(self).well_formed(),
        ensures
            final(self).well_formed(),
            final(self)@ == search_shown(
                old(self)@,
                match answer {
                    Ok(value) => Ok(json_pretty(value@)),
                    Err(e) => Err(e@),
                },
            ),
    {
        let shown: Result<String, String> = match answer {
            Ok(value) => Ok(pretty_json(&value)),
            Err(e) => Err(e),
        };
        self.show_search(shown);
    }
}

/// A chat after a web search gave something to show, or failed.
pub open spec fn search_shown(s: AppView, shown: Result<Seq<char>, Seq<char>>) -> AppView {
    match s.modal {
        Some(ModalView::WebSearch(m)) => match shown {
            Ok(text) => AppView {
                modal: Some(
                    ModalView::WebSearch(SearchView { result: text, result_scroll: 0, ..m }),
                ),
                status: "Web search completed"@,
                ..s
            },
            Err(e) => AppView {
                modal: Some(ModalView::WebSearch(SearchView { result: "Error: "@ + e, ..m })),
                status: "Web search failed"@,
                ..s
            },
        },
        _ => s,
    }
}

/// The conversation that the full-screen chat begins with.
pub fn open_conversation(conversation: Conversation, args: &TuiArgs) -> (r: Conversation)
    ensures
        r@ == conversation_to_open(conversation@, *args),
{
    let mut conversation: Conversation = conversation;
    if args.conversation.is_none() && conversation.messages.len() == 0 {
        assert(message_views(conversation.messages@) =~= Seq::empty());
        conversation.model = route_by_flags(args.model.as_str(), args.web, args.deep_web);
        if let Some(text) = &args.system {
            conversation.system_prompt = Some(text.clone());
        }
    }
    conversation
}

/// The model that a conversation is begun with.
pub fn initial_model(args: &TuiArgs) -> (r: String)
    ensures
        r@ == model_by_flags(args.model@, args.web, args.deep_web),
{
    route_by_flags(args.model.as_str(), args.web, args.deep_web)
}

/// The open conversation is selected where it is in the list.
pub proof fn law_open_conversation_is_selected(s: AppView, list: Seq<SummaryView>)
    requires
        is_listed(list, s.conversation.id),
    ensures
        reloaded(s, list).selected < list.len(),
        list[reloaded(s, list).selected as int].id == s.conversation.id,
    decreases list.len(),
{
    let id = s.conversation.id;
    if list[0].id != id {
        let rest = list.drop_first();
        let k = choose|k: int| 0 <= k < list.len() && (#[trigger] list[k]).id == id;
        assert(rest[k - 1].id == id);
        assert(is_listed(rest, id));
        law_open_conversation_is_selected(s, rest);
    }
}

/// The picker of web modes opens on the mode that is set, where that is a preset's.
pub proof fn law_picker_opens_on_its_mode(i: int)
    requires
        0 <= i < presets().len(),
    ensures
        mode_position(crate::model_mode::mode_of_key(presets()[i].key)) == i + 1,
{
    crate::model_mode_laws::law_key_reads_back(presets()[i].key);
    assert forall|j: int| 0 <= j < i implies (#[trigger] presets()[j]).key != presets()[i].key by {
        crate::model_mode_laws::law_preset_keys_differ(j, i);
    }
    lemma_preset_position(presets()[i].key, 0, i);
}

proof fn lemma_preset_position(key: Seq<char>, from: nat, i: int)
    requires
        from <= i < presets().len(),
        presets()[i].key == key,
        forall|j: int| from <= j < i ==> (#[trigger] presets()[j]).key != key,
    ensures
        preset_position(key, from) == i + 1,
    decreases i - from,
{
    if from < i {
        assert(presets()[from as int].key != key);
        lemma_preset_position(key, from + 1, i);
    }
}

} // verus!
