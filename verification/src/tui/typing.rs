//! What is typed into the full-screen chat: messages, slash commands, and keys outside dialogs.

use vstd::prelude::*;

use crate::chat::{argument_of, command_of};
use crate::client::ChatRequest;
use crate::conversation::ConversationView;
use crate::letter::{eq_ignore_case, same_ignoring_case};
use crate::model_mode::{
    apply_web_mode, mode_of_arg, mode_text, model_base, parse_web_mode_arg, web_mode_display,
    with_mode,
};
use crate::number::{decimal, write_decimal};
use crate::search::{split_once, starts, starts_with};
use crate::text::{cat2, opt_view, same, trim, trimmed};
use crate::tui::app::{
    chat_ask, fresh_key_dialog, key_given, mode_position, ApiKeyModal, App, AppView, Focus, Modal,
    ModalView,
};
use crate::tui::editor::{byte_len, edited, empty_line, EditorView, LineEditor};
use crate::tui::keys::{
    changes_text, down_in, edit_of, is_shortcut, modal_effect, scrolled_down, scrolled_up, takes, up,
    with_chat_model, with_modal, with_status, with_web_mode, Effect, EffectView, Key, KeyCode,
};
use crate::tui::pickers::{fresh_search, WebSearchModal};
use crate::tui::slash::{
    can_autocomplete_slash, can_complete, has_active_slash_suggestions, is_typed_out,
    move_slash_suggestion, moved_index, slash_suggestion_is_typed, suggestion_taken, suggestions,
    sync_slash_suggestion_index, synced, take_suggestion,
};

verus! {

/// What a command that begins with a slash does.
pub open spec fn slash_effect(s: AppView, cmd: Seq<char>, arg: Seq<char>) -> (AppView, EffectView) {
    if cmd == "/help"@ {
        (with_modal(s, Some(ModalView::Help)), EffectView::Nothing)
    } else if cmd == "/model"@ {
        if arg.len() == 0 {
            (with_status(s, "Current model: "@ + s.model), EffectView::Nothing)
        } else {
            let model = with_mode(arg, s.mode);
            (
                with_status(with_chat_model(s, model), "Model set: "@ + model),
                EffectView::Nothing,
            )
        }
    } else if cmd == "/webmode"@ {
        if arg.len() == 0 {
            (
                with_modal(s, Some(ModalView::WebModePicker(mode_position(s.mode)))),
                EffectView::Nothing,
            )
        } else {
            match mode_of_arg(arg) {
                Some(mode) => (
                    with_status(with_web_mode(s, mode), "Web mode set: "@ + mode_text(mode)),
                    EffectView::Nothing,
                ),
                None => (
                    with_status(s, "Usage: /webmode <off|on|deep|provider-mode>"@),
                    EffectView::Nothing,
                ),
            }
        }
    } else if cmd == "/system"@ {
        if same_ignoring_case(arg, "off"@) {
            (with_status(with_system(s, None), "System prompt cleared"@), EffectView::Nothing)
        } else if arg.len() == 0 {
            (
                with_status(
                    s,
                    match s.conversation.system_prompt {
                        Some(prompt) => "System prompt: "@ + prompt,
                        None => "System prompt is empty"@,
                    },
                ),
                EffectView::Nothing,
            )
        } else {
            (with_status(with_system(s, Some(arg)), "System prompt updated"@), EffectView::Nothing)
        }
    } else if cmd == "/clear"@ {
        (
            AppView {
                conversation: ConversationView { messages: Seq::empty(), ..s.conversation },
                status: "Conversation history cleared"@,
                ..s
            },
            EffectView::Nothing,
        )
    } else if cmd == "/save"@ {
        (with_status(s, "Saved "@ + s.conversation.id), EffectView::SaveAndReload)
    } else if cmd == "/history"@ {
        (
            with_status(s, "History messages: "@ + decimal(s.conversation.messages.len())),
            EffectView::Nothing,
        )
    } else if cmd == "/models"@ {
        (s, EffectView::OpenModels)
    } else if cmd == "/providers"@ {
        (s, EffectView::FetchProviders(model_base(s.model)))
    } else {
        (with_status(s, "Unknown command: "@ + cmd), EffectView::Nothing)
    }
}

/// A chat with another system prompt, or none.
pub open spec fn with_system(s: AppView, prompt: Option<Seq<char>>) -> AppView {
    AppView { conversation: ConversationView { system_prompt: prompt, ..s.conversation }, ..s }
}

/// What happens when the user says something: the model is asked, unless there is no API key.
pub open spec fn said(s: AppView, input: Seq<char>) -> (AppView, EffectView) {
    if key_given(s.api_key) {
        (
            AppView {
                pending: true,
                status: "Waiting for model response..."@,
                pending_user: Some(input),
                ..s
            },
            EffectView::Ask(chat_ask(s, input)),
        )
    } else {
        (
            AppView { modal: Some(fresh_key_dialog()), status: "API key required"@, ..s },
            EffectView::Nothing,
        )
    }
}

/// A chat in which a suggestion was taken.
pub open spec fn with_completion(s: AppView, text: Seq<char>) -> AppView {
    AppView {
        input: EditorView { text, cursor: byte_len(text) },
        suggestion: 0,
        status: "Slash command autocompleted"@,
        ..s
    }
}

/// Whether there is a suggestion that can be taken.
pub open spec fn offers_completion(s: AppView) -> bool {
    suggestions(s.input.text).len() > 0 && can_complete(s.input.text)
}

/// The text that taking the chosen suggestion leaves.
pub open spec fn completion(s: AppView) -> Seq<char> {
    suggestion_taken(s.input.text, s.suggestion).unwrap()
}

/// A chat whose input line was emptied.
pub open spec fn with_input_taken(s: AppView) -> AppView {
    AppView { input: empty_line(), suggestion: 0, ..s }
}

/// What Enter does in the input line: it takes the chosen suggestion, where that is not typed out yet,
/// and carries out what was typed otherwise.
pub open spec fn enter_effect(s: AppView) -> (AppView, EffectView) {
    let input = trimmed(s.input.text);
    if s.pending {
        (with_status(s, "Request in progress"@), EffectView::Nothing)
    } else if offers_completion(s) && !is_typed_out(s.input.text, s.suggestion) {
        (with_completion(s, completion(s)), EffectView::Nothing)
    } else if input.len() == 0 {
        (with_input_taken(s), EffectView::Nothing)
    } else if starts(input, "/"@) {
        slash_effect(with_input_taken(s), command_of(input), argument_of(input))
    } else {
        said(with_input_taken(s), input)
    }
}

/// What a key does in the input line.
pub open spec fn input_effect(s: AppView, key: Key) -> (AppView, EffectView) {
    if key.code == KeyCode::Enter {
        enter_effect(s)
    } else if key.code == KeyCode::Up || key.code == KeyCode::Down {
        let n = suggestions(s.input.text).len();
        if n > 0 {
            (
                AppView {
                    suggestion: moved_index(s.suggestion, key.code == KeyCode::Down, n),
                    ..s
                },
                EffectView::Nothing,
            )
        } else if key.code == KeyCode::Up {
            (AppView { chat_scroll: scrolled_up(s.chat_scroll), ..s }, EffectView::Nothing)
        } else {
            (AppView { chat_scroll: scrolled_down(s.chat_scroll), ..s }, EffectView::Nothing)
        }
    } else {
        match edit_of(key.code) {
            Some(edit) => {
                let input = edited(s.input, edit);
                (
                    AppView {
                        input,
                        suggestion: if changes_text(s.input, edit) {
                            synced(s.suggestion, suggestions(input.text).len())
                        } else {
                            s.suggestion
                        },
                        ..s
                    },
                    EffectView::Nothing,
                )
            },
            None => (s, EffectView::Nothing),
        }
    }
}

/// What a key does in the list of conversations.
pub open spec fn conversations_effect(s: AppView, key: Key) -> (AppView, EffectView) {
    if key.code == KeyCode::Up {
        (AppView { selected: up(s.selected), ..s }, EffectView::Nothing)
    } else if key.code == KeyCode::Down {
        (
            AppView { selected: down_in(s.selected, s.conversations.len()), ..s },
            EffectView::Nothing,
        )
    } else if key.code == KeyCode::Enter {
        if s.pending {
            (with_status(s, "Wait for current request to finish"@), EffectView::Nothing)
        } else if s.selected < s.conversations.len() && s.conversations[s.selected as int].id
            != s.conversation.id {
            (s, EffectView::LoadConversation(s.conversations[s.selected as int].id))
        } else {
            (s, EffectView::Nothing)
        }
    } else if key.code == KeyCode::Char('d') || key.code == KeyCode::Delete {
        if s.selected < s.conversations.len() {
            (s, EffectView::DeleteConversation(s.conversations[s.selected as int].id))
        } else {
            (s, EffectView::Nothing)
        }
    } else {
        (s, EffectView::Nothing)
    }
}

/// What a shortcut does.
pub open spec fn shortcut_effect(s: AppView, code: KeyCode) -> (AppView, EffectView) {
    if code == KeyCode::Char('n') {
        if s.pending {
            (with_status(s, "Wait for current request to finish"@), EffectView::Nothing)
        } else {
            (s, EffectView::NewConversation)
        }
    } else if code == KeyCode::Char('r') {
        (with_status(s, "Conversations reloaded"@), EffectView::Reload)
    } else if code == KeyCode::Char('s') {
        (with_status(s, "Saved "@ + s.conversation.id), EffectView::SaveAndReload)
    } else if code == KeyCode::Char('m') {
        (s, EffectView::OpenModels)
    } else if code == KeyCode::Char('p') {
        (s, EffectView::FetchProviders(model_base(s.model)))
    } else if code == KeyCode::Char('g') {
        (
            with_modal(s, Some(ModalView::WebModePicker(mode_position(s.mode)))),
            EffectView::Nothing,
        )
    } else if code == KeyCode::Char('w') {
        (with_modal(s, Some(ModalView::WebSearch(fresh_search()))), EffectView::Nothing)
    } else {
        (with_modal(s, Some(ModalView::Help)), EffectView::Nothing)
    }
}

/// What a key does.
pub open spec fn key_effect(s: AppView, key: Key) -> (AppView, EffectView) {
    if key.ctrl && key.code == KeyCode::Char('c') {
        (s, EffectView::Quit)
    } else if s.modal is Some {
        modal_effect(s, s.modal.unwrap(), key)
    } else if key.ctrl && is_shortcut(key.code) {
        shortcut_effect(s, key.code)
    } else if key.code == KeyCode::Tab && s.focus == Focus::Input && offers_completion(s) {
        (with_completion(s, completion(s)), EffectView::Nothing)
    } else if key.code == KeyCode::Esc {
        (s, EffectView::Quit)
    } else if key.code == KeyCode::Tab {
        (
            AppView {
                focus: match s.focus {
                    Focus::Input => Focus::Conversations,
                    Focus::Conversations => Focus::Input,
                },
                ..s
            },
            EffectView::Nothing,
        )
    } else {
        match s.focus {
            Focus::Conversations => conversations_effect(s, key),
            Focus::Input => input_effect(s, key),
        }
    }
}

impl App {
    /// Does what a command that begins with a slash asks for.
    pub fn handle_command(&mut self, input: &str) -> (r: Effect)
        requires
            old(self).well_formed(),
        ensures
            final(self).well_formed(),
            (final(self)@, r@) == slash_effect(
                old(self)@,
                command_of(input@),
                argument_of(input@),
            ),
    {
        let (cmd, arg): (&str, &str) = match split_once(input, " ") {
            Some((cmd, rest)) => (cmd, trim(rest)),
            None => (input, ""),
        };
        proof {
            reveal_strlit("");
            assert(""@ =~= Seq::empty());
        }
        if same(cmd, "/help") {
            self.modal = Some(Modal::Help);
        } else if same(cmd, "/model") {
            if arg.is_empty() {
                self.status = cat2("Current model: ", self.current_model.as_str());
            } else {
                let model: String = apply_web_mode(arg, &self.web_mode);
                self.status = cat2("Model set: ", model.as_str());
                self.conversation.model = model.clone();
                self.current_model = model;
            }
        } else if same(cmd, "/webmode") {
            if arg.is_empty() {
                self.open_web_mode_picker();
            } else {
                match parse_web_mode_arg(arg) {
                    Ok(next) => {
                        let shown: String = web_mode_display(&next);
                        self.set_web_mode(next);
                        self.status = cat2("Web mode set: ", shown.as_str());
                    },
                    Err(usage) => {
                        self.status = usage;
                    },
                }
            }
        } else if same(cmd, "/system") {
            if eq_ignore_case(arg, "off") {
                self.conversation.system_prompt = None;
                self.status = "System prompt cleared".to_owned();
            } else if arg.is_empty() {
                self.status = match &self.conversation.system_prompt {
                    Some(prompt) => cat2("System prompt: ", prompt.as_str()),
                    None => "System prompt is empty".to_owned(),
                };
            } else {
                self.conversation.system_prompt = Some(arg.to_owned());
                self.status = "System prompt updated".to_owned();
            }
        } else if same(cmd, "/clear") {
            self.conversation.clear_history();
            self.status = "Conversation history cleared".to_owned();
        } else if same(cmd, "/save") {
            self.status = cat2("Saved ", self.conversation.id.as_str());
            return Effect::SaveAndReload;
        } else if same(cmd, "/history") {
            let count: String = write_decimal(self.conversation.messages.len() as u64);
            self.status = cat2("History messages: ", count.as_str());
        } else if same(cmd, "/models") {
            return Effect::OpenModels;
        } else if same(cmd, "/providers") {
            let model: String = self.current_model_base().to_owned();
            return Effect::FetchProviders(model);
        } else {
            self.status = cat2("Unknown command: ", cmd);
        }
        Effect::Nothing
    }

    /// Sends what the user says to the model.
    pub fn send_message(&mut self, input: String) -> (r: Effect)
        requires
            old(self).well_formed(),
        ensures
            final(self).well_formed(),
            (final(self)@, r@) == said(old(self)@, input@),
    {
        if !self.client.has_api_key() {
            self.modal = Some(
                Modal::ApiKey(ApiKeyModal { value: LineEditor::new(), reveal: false }),
            );
            self.status = "API key required".to_owned();
            return Effect::Nothing;
        }
        let request: ChatRequest = self.chat_request(input.as_str());
        self.pending = true;
        self.status = "Waiting for model response...".to_owned();
        self.pending_user = Some(input);
        Effect::Ask(request)
    }

    fn complete_input(&mut self)
        requires
            old(self).well_formed(),
            offers_completion(old(self)@),
        ensures
            final(self).well_formed(),
            final(self)@ == with_completion(old(self)@, completion(old(self)@)),
    {
        if let Some(text) = take_suggestion(self.input.text.as_str(), self.slash_suggestion_idx) {
            self.input = LineEditor::at_end(text);
            self.slash_suggestion_idx = 0;
            self.status = "Slash command autocompleted".to_owned();
        }
    }

    fn can_complete_input(&self) -> (r: bool)
        ensures
            r == offers_completion(self@),
    {
        let text: &str = self.input.text.as_str();
        has_active_slash_suggestions(text) && can_autocomplete_slash(text)
    }

    fn enter_input(&mut self) -> (r: Effect)
        requires
            old(self).well_formed(),
        ensures
            final(self).well_formed(),
            (final(self)@, r@) == enter_effect(old(self)@),
    {
        if self.pending {
            self.status = "Request in progress".to_owned();
            return Effect::Nothing;
        }
        let typed_out: bool = slash_suggestion_is_typed(
            self.input.text.as_str(),
            self.slash_suggestion_idx,
        );
        if self.can_complete_input() && !typed_out {
            self.complete_input();
            return Effect::Nothing;
        }
        let input: String = trim(self.input.text.as_str()).to_owned();
        self.input.clear();
        self.slash_suggestion_idx = 0;
        if input.as_str().is_empty() {
            return Effect::Nothing;
        }
        if starts_with(input.as_str(), "/") {
            self.handle_command(input.as_str())
        } else {
            self.send_message(input)
        }
    }

    /// Takes a key in the input line.
    pub fn handle_input_key(&mut self, key: Key) -> (r: Effect)
        requires
            old(self).well_formed(),
            crate::tui::keys::can_edit(old(self)@.input, key.code),
        ensures
            final(self).well_formed(),
            (final(self)@, r@) == input_effect(old(self)@, key),
    {
        match key.code {
            KeyCode::Enter => self.enter_input(),
            KeyCode::Up => {
                if has_active_slash_suggestions(self.input.text.as_str()) {
                    self.slash_suggestion_idx = move_slash_suggestion(
                        self.input.text.as_str(),
                        self.slash_suggestion_idx,
                        false,
                    );
                } else {
                    self.chat_scroll = crate::tui::keys::scroll_up(self.chat_scroll);
                }
                Effect::Nothing
            },
            KeyCode::Down => {
                if has_active_slash_suggestions(self.input.text.as_str()) {
                    self.slash_suggestion_idx = move_slash_suggestion(
                        self.input.text.as_str(),
                        self.slash_suggestion_idx,
                        true,
                    );
                } else {
                    self.chat_scroll = crate::tui::keys::scroll_down(self.chat_scroll);
                }
                Effect::Nothing
            },
            _ => {
                if let Some(edit) = crate::tui::keys::as_edit(key.code) {
                    let changes: bool = crate::tui::keys::edit_changes(&self.input, edit);
                    self.input.edit(edit);
                    if changes {
                        self.slash_suggestion_idx = sync_slash_suggestion_index(
                            self.input.text.as_str(),
                            self.slash_suggestion_idx,
                        );
                    }
                }
                Effect::Nothing
            },
        }
    }

    fn selected_id(&self) -> (r: Option<String>)
        ensures
            opt_view(r) == (if self@.selected < self@.conversations.len() {
                Some(self@.conversations[self@.selected as int].id)
            } else {
                None
            }),
    {
        if self.selected_conversation_idx < self.conversations.len() {
            Some(self.conversations[self.selected_conversation_idx].id.clone())
        } else {
            None
        }
    }

    /// Takes a key in the list of conversations.
    pub fn handle_conversations_key(&mut self, key: Key) -> (r: Effect)
        requires
            old(self).well_formed(),
        ensures
            final(self).well_formed(),
            (final(self)@, r@) == conversations_effect(old(self)@, key),
    {
        match key.code {
            KeyCode::Up => {
                self.selected_conversation_idx = crate::tui::keys::go_up(
                    self.selected_conversation_idx,
                );
                Effect::Nothing
            },
            KeyCode::Down => {
                self.selected_conversation_idx = crate::tui::keys::go_down_in(
                    self.selected_conversation_idx,
                    self.conversations.len(),
                );
                Effect::Nothing
            },
            KeyCode::Enter => {
                if self.pending {
                    self.status = "Wait for current request to finish".to_owned();
                    return Effect::Nothing;
                }
                match self.selected_id() {
                    Some(id) => if same(id.as_str(), self.conversation.id.as_str()) {
                        Effect::Nothing
                    } else {
                        Effect::LoadConversation(id)
                    },
                    None => Effect::Nothing,
                }
            },
            KeyCode::Delete => self.delete_selected_conversation(),
            KeyCode::Char(c) => if c == 'd' {
                self.delete_selected_conversation()
            } else {
                Effect::Nothing
            },
            _ => Effect::Nothing,
        }
    }

    fn delete_selected_conversation(&self) -> (r: Effect)
        ensures
            r@ == (if self@.selected < self@.conversations.len() {
                EffectView::DeleteConversation(self@.conversations[self@.selected as int].id)
            } else {
                EffectView::Nothing
            }),
    {
        match self.selected_id() {
            Some(id) => Effect::DeleteConversation(id),
            None => Effect::Nothing,
        }
    }

    fn take_shortcut(&mut self, c: char) -> (r: Effect)
        requires
            old(self).well_formed(),
            is_shortcut(KeyCode::Char(c)),
        ensures
            final(self).well_formed(),
            (final(self)@, r@) == shortcut_effect(old(self)@, KeyCode::Char(c)),
    {
        if c == 'n' {
            if self.pending {
                self.status = "Wait for current request to finish".to_owned();
                Effect::Nothing
            } else {
                Effect::NewConversation
            }
        } else if c == 'r' {
            self.status = "Conversations reloaded".to_owned();
            Effect::Reload
        } else if c == 's' {
            self.status = cat2("Saved ", self.conversation.id.as_str());
            Effect::SaveAndReload
        } else if c == 'm' {
            Effect::OpenModels
        } else if c == 'p' {
            let model: String = self.current_model_base().to_owned();
            Effect::FetchProviders(model)
        } else if c == 'g' {
            self.open_web_mode_picker();
            Effect::Nothing
        } else if c == 'w' {
            self.modal = Some(Modal::WebSearch(WebSearchModal::new()));
            Effect::Nothing
        } else {
            self.modal = Some(Modal::Help);
            Effect::Nothing
        }
    }

    /// Takes a key. One that edits a line must find its cursor between two characters.
    pub fn handle_key(&mut self, key: Key) -> (r: Effect)
        requires
            old(self).well_formed(),
            takes(old(self)@, key),
        ensures
            final(self).well_formed(),
            (final(self)@, r@) == key_effect(old(self)@, key),
    {
        if key.ctrl && crate::tui::keys::is_char(key.code, 'c') {
            return Effect::Quit;
        }
        if self.modal.is_some() {
            return self.handle_modal_key(key);
        }
        if key.ctrl && crate::tui::keys::key_is_shortcut(key.code) {
            if let KeyCode::Char(c) = key.code {
                return self.take_shortcut(c);
            }
        }
        let typing: bool = match self.focus {
            Focus::Input => true,
            Focus::Conversations => false,
        };
        match key.code {
            KeyCode::Esc => Effect::Quit,
            KeyCode::Tab => {
                if typing && self.can_complete_input() {
                    self.complete_input();
                } else {
                    self.focus = if typing {
                        Focus::Conversations
                    } else {
                        Focus::Input
                    };
                }
                Effect::Nothing
            },
            _ => if typing {
                self.handle_input_key(key)
            } else {
                self.handle_conversations_key(key)
            },
        }
    }
}

/// While the model is being asked, no key opens another conversation, begins one, or asks again.
#[verifier::rlimit(50)]
pub proof fn law_one_request_at_a_time(s: AppView, key: Key)
    requires
        s.pending,
    ensures
        key_effect(s, key).0.pending,
        key_effect(s, key).0.pending_user == s.pending_user,
        !(key_effect(s, key).1 is Ask),
        !(key_effect(s, key).1 is LoadConversation),
        !(key_effect(s, key).1 is NewConversation),
{
}

/// Without an API key the model is never asked.
#[verifier::rlimit(50)]
pub proof fn law_no_key_no_request(s: AppView, key: Key)
    requires
        !key_given(s.api_key),
    ensures
        !(key_effect(s, key).1 is Ask),
{
}

/// The dialog that asks for an API key stays open until a key was given or the chat ends.
#[verifier::rlimit(50)]
pub proof fn law_key_dialog_stays(s: AppView, key: Key)
    requires
        s.modal matches Some(ModalView::ApiKey(_)),
    ensures
        key_effect(s, key).0.modal matches Some(ModalView::ApiKey(_)) || key_given(
            key_effect(s, key).0.api_key,
        ),
{
    if let Some(ModalView::ApiKey(m)) = s.modal {
        if key.code == KeyCode::Enter {
            crate::text::law_trimming_is_done_once(m.value.text);
        }
    }
}

/// Whatever key is pressed, the conversation's model stays the one that is asked.
#[verifier::rlimit(50)]
pub proof fn law_models_stay_together(s: AppView, key: Key)
    requires
        s.conversation.model == s.model,
    ensures
        key_effect(s, key).0.conversation.model == key_effect(s, key).0.model,
{
}

} // verus!
