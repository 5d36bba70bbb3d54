//! What each key does to the full-screen chat.

use vstd::prelude::*;

use crate::cli::ModelScope;
use crate::client::{ChatRequest, ChatRequestView};
use crate::commands::provider_text;
use crate::conversation::ConversationView;
use crate::json::{Json, JsonView};
use crate::model_mode::{
    apply_web_mode, mode_of_key, mode_text, model_base, presets, web_mode_display,
    web_mode_from_key, web_mode_presets, with_mode, ModeView, WebMode, WebModePreset,
};
use crate::text::{blank, cat2, cat4, cat5, is_blank, trim, trimmed};
use crate::tui::app::{
    ApiKeyModal, ApiKeyView, App, AppView, Focus, Modal, ModalView, WebModePickerModal,
};
use crate::tui::editor::{accepts, byte_len, edited, Edit, EditorView, LineEditor};
use crate::tui::pickers::{
    chosen_depth, depth_cycled, models_found, next_scope, output_cycled, provider_at,
    provider_cycled, scope_after, search_members, ModelEntry, ModelPickerModal, ModelPickerView,
    ProviderPickerModal, ProviderPickerView, SearchView, WebSearchModal,
};

verus! {

/// A key.
#[derive(Debug, Clone, Copy, PartialEq, Eq, Structural)]
pub enum KeyCode {
    Char(char),
    Enter,
    Esc,
    Tab,
    Backspace,
    Delete,
    Left,
    Right,
    Up,
    Down,
    Other,
}

/// A key that was pressed, with the control key or without.
#[derive(Debug, Clone, Copy, PartialEq, Eq, Structural)]
pub struct Key {
    pub code: KeyCode,
    pub ctrl: bool,
}

/// What a key does outside the chat's state.
pub enum Effect {
    Nothing,
    /// The chat ends.
    Quit,
    /// The list of conversations is read again.
    Reload,
    /// The conversation is saved, and the list is read again.
    SaveAndReload,
    /// The conversation is saved, and a new one is begun.
    NewConversation,
    /// The conversation of this name is opened.
    LoadConversation(String),
    /// The conversation of this name is deleted.
    DeleteConversation(String),
    /// The models of the first catalog are fetched for the picker to open.
    OpenModels,
    /// The models of this catalog are fetched for the picker.
    FetchModels(ModelScope),
    /// The providers of this model are fetched for the picker to open.
    FetchProviders(String),
    /// The API key is stored.
    StoreApiKey(String),
    /// The model is stored as the one to begin with.
    StoreModel(String),
    /// The picked providers are stored.
    StoreOverrides,
    /// The web is searched.
    Search(Json),
    /// The model is asked.
    Ask(ChatRequest),
}

/// The view of an [`Effect`].
pub enum EffectView {
    Nothing,
    Quit,
    Reload,
    SaveAndReload,
    NewConversation,
    LoadConversation(Seq<char>),
    DeleteConversation(Seq<char>),
    OpenModels,
    FetchModels(ModelScope),
    FetchProviders(Seq<char>),
    StoreApiKey(Seq<char>),
    StoreModel(Seq<char>),
    StoreOverrides,
    Search(JsonView),
    Ask(ChatRequestView),
}

impl View for Effect {
    type V = EffectView;

    open spec fn view(&self) -> EffectView {
        match self {
            Effect::Nothing => EffectView::Nothing,
            Effect::Quit => EffectView::Quit,
            Effect::Reload => EffectView::Reload,
            Effect::SaveAndReload => EffectView::SaveAndReload,
            Effect::NewConversation => EffectView::NewConversation,
            Effect::LoadConversation(id) => EffectView::LoadConversation(id@),
            Effect::DeleteConversation(id) => EffectView::DeleteConversation(id@),
            Effect::OpenModels => EffectView::OpenModels,
            Effect::FetchModels(scope) => EffectView::FetchModels(*scope),
            Effect::FetchProviders(model) => EffectView::FetchProviders(model@),
            Effect::StoreApiKey(key) => EffectView::StoreApiKey(key@),
            Effect::StoreModel(model) => EffectView::StoreModel(model@),
            Effect::StoreOverrides => EffectView::StoreOverrides,
            Effect::Search(body) => EffectView::Search(body@),
            Effect::Ask(req) => EffectView::Ask(req@),
        }
    }
}

/// A chat with another status.
pub open spec fn with_status(s: AppView, status: Seq<char>) -> AppView {
    AppView { status, ..s }
}

/// A chat with another dialog, or none.
pub open spec fn with_modal(s: AppView, modal: Option<ModalView>) -> AppView {
    AppView { modal, ..s }
}

/// A chat with another model.
pub open spec fn with_chat_model(s: AppView, model: Seq<char>) -> AppView {
    AppView {
        model,
        conversation: ConversationView { model, ..s.conversation },
        ..s
    }
}

/// A chat with another web mode; its model is routed accordingly.
pub open spec fn with_web_mode(s: AppView, mode: ModeView) -> AppView {
    AppView { mode, ..with_chat_model(s, with_mode(model_base(s.model), mode)) }
}

/// What a key does to a line of text that has the focus.
pub open spec fn edit_of(code: KeyCode) -> Option<Edit> {
    match code {
        KeyCode::Char(c) => Some(Edit::Insert(c)),
        KeyCode::Backspace => Some(Edit::Backspace),
        KeyCode::Delete => Some(Edit::Delete),
        KeyCode::Left => Some(Edit::Left),
        KeyCode::Right => Some(Edit::Right),
        _ => None,
    }
}

/// Whether a line can be edited as a key asks, if it asks for that.
pub open spec fn can_edit(line: EditorView, code: KeyCode) -> bool {
    match edit_of(code) {
        Some(edit) => accepts(line, edit),
        None => true,
    }
}

/// Whether a key is one of two letters.
pub open spec fn is_letter(code: KeyCode, small: char, capital: char) -> bool {
    code == KeyCode::Char(small) || code == KeyCode::Char(capital)
}

/// One up in a list.
pub open spec fn up(selected: nat) -> nat {
    if selected == 0 {
        0
    } else {
        (selected - 1) as nat
    }
}

/// One down in a list whose last element has the number `last`.
pub open spec fn down(selected: nat, last: nat) -> nat {
    if selected + 1 <= last {
        selected + 1
    } else {
        last
    }
}

/// One down in a list of `len` elements; nothing changes where it is empty.
pub open spec fn down_in(selected: nat, len: nat) -> nat {
    if len == 0 {
        selected
    } else {
        down(selected, (len - 1) as nat)
    }
}

fn go_down(selected: usize, last: usize) -> (r: usize)
    ensures
        r == down(selected as nat, last as nat),
{
    if selected >= last {
        last
    } else {
        selected + 1
    }
}

pub(crate) fn go_up(selected: usize) -> (r: usize)
    ensures
        r == up(selected as nat),
{
    if selected == 0 {
        0
    } else {
        selected - 1
    }
}

pub(crate) fn go_down_in(selected: usize, len: usize) -> (r: usize)
    ensures
        r == down_in(selected as nat, len as nat),
{
    if len == 0 {
        selected
    } else {
        go_down(selected, len - 1)
    }
}

pub(crate) fn as_edit(code: KeyCode) -> (r: Option<Edit>)
    ensures
        r == edit_of(code),
{
    match code {
        KeyCode::Char(c) => Some(Edit::Insert(c)),
        KeyCode::Backspace => Some(Edit::Backspace),
        KeyCode::Delete => Some(Edit::Delete),
        KeyCode::Left => Some(Edit::Left),
        KeyCode::Right => Some(Edit::Right),
        _ => None,
    }
}

fn is_key(code: KeyCode, small: char, capital: char) -> (r: bool)
    ensures
        r == is_letter(code, small, capital),
{
    match code {
        KeyCode::Char(c) => c == small || c == capital,
        _ => false,
    }
}

// ---------------------------------------------------------------------------
// Which keys can be taken
// ---------------------------------------------------------------------------

/// The line that a key edits, and how; none where it does something else.
pub open spec fn edit_asked(s: AppView, key: Key) -> Option<(EditorView, Edit)> {
    let edit = edit_of(key.code);
    if edit is None || (key.ctrl && key.code == KeyCode::Char('c')) {
        None
    } else {
        match s.modal {
            Some(ModalView::ApiKey(m)) => if key.ctrl && key.code == KeyCode::Char('r') {
                None
            } else {
                Some((m.value, edit.unwrap()))
            },
            Some(ModalView::ModelPicker(m)) => if is_letter(key.code, 'p', 'P') {
                None
            } else {
                Some((m.search, edit.unwrap()))
            },
            Some(ModalView::WebSearch(m)) => if is_letter(key.code, 'd', 'D') || is_letter(
                key.code,
                'o',
                'O',
            ) || is_letter(key.code, 'i', 'I') {
                None
            } else {
                Some((m.query, edit.unwrap()))
            },
            Some(_) => None,
            None => if (key.ctrl && is_shortcut(key.code)) || s.focus == Focus::Conversations {
                None
            } else {
                Some((s.input, edit.unwrap()))
            },
        }
    }
}

/// Whether a key with the control key is a shortcut.
pub open spec fn is_shortcut(code: KeyCode) -> bool {
    code == KeyCode::Char('n') || code == KeyCode::Char('r') || code == KeyCode::Char('s') || code
        == KeyCode::Char('m') || code == KeyCode::Char('p') || code == KeyCode::Char('g') || code
        == KeyCode::Char('w') || code == KeyCode::Char('h')
}

/// Whether a key can be taken: where it edits a line, the edit must be possible there.
pub open spec fn takes(s: AppView, key: Key) -> bool {
    match edit_asked(s, key) {
        Some((line, edit)) => accepts(line, edit),
        None => true,
    }
}

pub(crate) fn key_is_shortcut(code: KeyCode) -> (r: bool)
    ensures
        r == is_shortcut(code),
{
    match code {
        KeyCode::Char(c) => c == 'n' || c == 'r' || c == 's' || c == 'm' || c == 'p' || c == 'g' || c
            == 'w' || c == 'h',
        _ => false,
    }
}

pub(crate) fn is_char(code: KeyCode, want: char) -> (r: bool)
    ensures
        r == (code == KeyCode::Char(want)),
{
    match code {
        KeyCode::Char(c) => c == want,
        _ => false,
    }
}

impl App {
    /// Whether a key can be taken.
    pub fn can_take(&self, key: Key) -> (r: bool)
        ensures
            r == takes(self@, key),
    {
        let edit: Edit = match as_edit(key.code) {
            Some(edit) => edit,
            None => return true,
        };
        if key.ctrl && is_char(key.code, 'c') {
            return true;
        }
        match &self.modal {
            Some(Modal::ApiKey(m)) => if key.ctrl && is_char(key.code, 'r') {
                true
            } else {
                m.value.can(edit)
            },
            Some(Modal::ModelPicker(m)) => if is_key(key.code, 'p', 'P') {
                true
            } else {
                m.search.can(edit)
            },
            Some(Modal::WebSearch(m)) => if is_key(key.code, 'd', 'D') || is_key(key.code, 'o', 'O')
                || is_key(key.code, 'i', 'I') {
                true
            } else {
                m.query.can(edit)
            },
            Some(_) => true,
            None => {
                let elsewhere: bool = match self.focus {
                    Focus::Conversations => true,
                    Focus::Input => false,
                };
                if (key.ctrl && key_is_shortcut(key.code)) || elsewhere {
                    true
                } else {
                    self.input.can(edit)
                }
            },
        }
    }
}

// ---------------------------------------------------------------------------
// Keys in dialogs
// ---------------------------------------------------------------------------

/// What a key does in the dialog that asks for an API key.
pub open spec fn api_key_effect(s: AppView, m: ApiKeyView, key: Key) -> (AppView, EffectView) {
    if key.ctrl && key.code == KeyCode::Char('r') {
        (
            with_modal(s, Some(ModalView::ApiKey(ApiKeyView { reveal: !m.reveal, ..m }))),
            EffectView::Nothing,
        )
    } else if key.code == KeyCode::Enter {
        if blank(m.value.text) {
            (with_status(s, "API key cannot be empty"@), EffectView::Nothing)
        } else {
            (
                AppView {
                    api_key: Some(trimmed(m.value.text)),
                    modal: None,
                    status: "API key saved"@,
                    ..s
                },
                EffectView::StoreApiKey(trimmed(m.value.text)),
            )
        }
    } else if key.code == KeyCode::Esc {
        (with_status(s, "API key required to continue"@), EffectView::Nothing)
    } else {
        match edit_of(key.code) {
            Some(edit) => (
                with_modal(
                    s,
                    Some(ModalView::ApiKey(ApiKeyView { value: edited(m.value, edit), ..m })),
                ),
                EffectView::Nothing,
            ),
            None => (s, EffectView::Nothing),
        }
    }
}

/// What a key does in the model picker.
pub open spec fn model_picker_effect(s: AppView, m: ModelPickerView, key: Key) -> (AppView, EffectView) {
    let found = models_found(m.models, m.search.text);
    match key.code {
        KeyCode::Esc => (with_modal(s, None), EffectView::Nothing),
        KeyCode::Tab => (s, EffectView::FetchModels(next_scope(m.scope))),
        KeyCode::Up => (
            with_modal(
                s,
                Some(ModalView::ModelPicker(ModelPickerView { selected: up(m.selected), ..m })),
            ),
            EffectView::Nothing,
        ),
        KeyCode::Down => (
            with_modal(
                s,
                Some(
                    ModalView::ModelPicker(
                        ModelPickerView { selected: down_in(m.selected, found.len()), ..m },
                    ),
                ),
            ),
            EffectView::Nothing,
        ),
        KeyCode::Enter => if m.selected < found.len() {
            let id = found[m.selected as int].id;
            let model = with_mode(id, s.mode);
            (
                AppView { modal: None, status: "Model set: "@ + model, ..with_chat_model(s, model) },
                EffectView::StoreModel(id),
            )
        } else {
            (s, EffectView::Nothing)
        },
        _ => if is_letter(key.code, 'p', 'P') {
            if m.selected < found.len() {
                (s, EffectView::FetchProviders(found[m.selected as int].id))
            } else {
                (s, EffectView::Nothing)
            }
        } else {
            match edit_of(key.code) {
                Some(edit) => (
                    with_modal(
                        s,
                        Some(
                            ModalView::ModelPicker(
                                ModelPickerView {
                                    search: edited(m.search, edit),
                                    selected: if changes_text(m.search, edit) {
                                        0
                                    } else {
                                        m.selected
                                    },
                                    ..m
                                },
                            ),
                        ),
                    ),
                    EffectView::Nothing,
                ),
                None => (s, EffectView::Nothing),
            }
        },
    }
}

/// Whether an edit changes the text of a line.
pub open spec fn changes_text(line: EditorView, edit: Edit) -> bool {
    match edit {
        Edit::Insert(_) => true,
        Edit::Backspace => line.cursor > 0,
        Edit::Delete => line.cursor < byte_len(line.text),
        _ => false,
    }
}

/// What a key does in the provider picker.
pub open spec fn provider_picker_effect(s: AppView, m: ProviderPickerView, key: Key) -> (
    AppView,
    EffectView,
) {
    if key.code == KeyCode::Esc {
        (with_modal(s, None), EffectView::Nothing)
    } else if is_letter(key.code, 'c', 'C') {
        (
            AppView {
                overrides: s.overrides.remove(m.model_id),
                modal: None,
                status: "Provider override cleared for "@ + m.model_id,
                ..s
            },
            EffectView::StoreOverrides,
        )
    } else if key.code == KeyCode::Up {
        (
            with_modal(
                s,
                Some(
                    ModalView::ProviderPicker(ProviderPickerView { selected: up(m.selected), ..m }),
                ),
            ),
            EffectView::Nothing,
        )
    } else if key.code == KeyCode::Down {
        (
            with_modal(
                s,
                Some(
                    ModalView::ProviderPicker(
                        ProviderPickerView {
                            selected: down_in(m.selected, m.providers.len()),
                            ..m
                        },
                    ),
                ),
            ),
            EffectView::Nothing,
        )
    } else if key.code == KeyCode::Enter && m.selected < m.providers.len() {
        let provider = m.providers[m.selected as int].provider;
        (
            AppView {
                overrides: s.overrides.insert(m.model_id, provider),
                modal: None,
                status: "Provider override for "@ + m.model_id + ": "@ + provider,
                ..s
            },
            EffectView::StoreOverrides,
        )
    } else {
        (s, EffectView::Nothing)
    }
}

/// The mode at a place of the web mode picker: none at the top, then the presets.
pub open spec fn mode_at(selected: nat) -> ModeView {
    if selected == 0 {
        ModeView::Off
    } else if selected <= presets().len() {
        mode_of_key(presets()[selected - 1].key)
    } else {
        mode_of_key(presets()[0].key)
    }
}

/// What a key does in the web mode picker.
pub open spec fn web_mode_effect(s: AppView, selected: nat, key: Key) -> (AppView, EffectView) {
    if key.code == KeyCode::Esc {
        (with_modal(s, None), EffectView::Nothing)
    } else if is_letter(key.code, 'c', 'C') {
        (
            AppView {
                modal: None,
                status: "Web mode set: off"@,
                ..with_web_mode(s, ModeView::Off)
            },
            EffectView::Nothing,
        )
    } else if key.code == KeyCode::Up {
        (with_modal(s, Some(ModalView::WebModePicker(up(selected)))), EffectView::Nothing)
    } else if key.code == KeyCode::Down {
        (
            with_modal(
                s,
                Some(ModalView::WebModePicker(down(selected, presets().len()))),
            ),
            EffectView::Nothing,
        )
    } else if key.code == KeyCode::Enter {
        (
            AppView {
                modal: None,
                status: "Web mode set: "@ + mode_text(mode_at(selected)),
                ..with_web_mode(s, mode_at(selected))
            },
            EffectView::Nothing,
        )
    } else {
        (s, EffectView::Nothing)
    }
}

/// What a key does in the dialog of web searches.
pub open spec fn web_search_effect(s: AppView, m: SearchView, key: Key) -> (AppView, EffectView) {
    if key.code == KeyCode::Esc {
        (with_modal(s, None), EffectView::Nothing)
    } else if key.code == KeyCode::Enter {
        if blank(m.query.text) {
            (with_status(s, "Web search query cannot be empty"@), EffectView::Nothing)
        } else {
            (
                with_status(
                    s,
                    "Searching with provider="@ + provider_text(provider_at(m.provider_idx))
                        + " depth="@ + chosen_depth(m) + "..."@,
                ),
                EffectView::Search(JsonView::Object(search_members(m))),
            )
        }
    } else {
        (with_modal(s, Some(ModalView::WebSearch(searched(m, key)))), EffectView::Nothing)
    }
}

/// The dialog of web searches after a key that neither closes it nor searches.
pub open spec fn searched(m: SearchView, key: Key) -> SearchView {
    if key.code == KeyCode::Tab {
        provider_cycled(m)
    } else if is_letter(key.code, 'd', 'D') {
        depth_cycled(m)
    } else if is_letter(key.code, 'o', 'O') {
        output_cycled(m)
    } else if is_letter(key.code, 'i', 'I') {
        SearchView { include_images: !m.include_images, ..m }
    } else if key.code == KeyCode::Up {
        SearchView { result_scroll: scrolled_up(m.result_scroll), ..m }
    } else if key.code == KeyCode::Down {
        SearchView { result_scroll: scrolled_down(m.result_scroll), ..m }
    } else {
        match edit_of(key.code) {
            Some(edit) => SearchView { query: edited(m.query, edit), ..m },
            None => m,
        }
    }
}

/// One line up.
pub open spec fn scrolled_up(n: u16) -> u16 {
    if n == 0 {
        0
    } else {
        (n - 1) as u16
    }
}

/// One line down.
pub open spec fn scrolled_down(n: u16) -> u16 {
    if n == u16::MAX {
        n
    } else {
        (n + 1) as u16
    }
}

pub(crate) fn scroll_up(n: u16) -> (r: u16)
    ensures
        r == scrolled_up(n),
{
    if n == 0 {
        0
    } else {
        n - 1
    }
}

pub(crate) fn scroll_down(n: u16) -> (r: u16)
    ensures
        r == scrolled_down(n),
{
    if n == u16::MAX {
        n
    } else {
        n + 1
    }
}

/// What a key does in a dialog.
pub open spec fn modal_effect(s: AppView, modal: ModalView, key: Key) -> (AppView, EffectView) {
    match modal {
        ModalView::ApiKey(m) => api_key_effect(s, m, key),
        ModalView::ModelPicker(m) => model_picker_effect(s, m, key),
        ModalView::ProviderPicker(m) => provider_picker_effect(s, m, key),
        ModalView::WebModePicker(selected) => web_mode_effect(s, selected, key),
        ModalView::WebSearch(m) => web_search_effect(s, m, key),
        ModalView::Help => if key.code == KeyCode::Esc {
            (with_modal(s, None), EffectView::Nothing)
        } else {
            (s, EffectView::Nothing)
        },
    }
}

impl App {
    pub(crate) fn set_web_mode(&mut self, mode: WebMode)
        requires
            old(self).well_formed(),
        ensures
            final(self).well_formed(),
            final(self)@ == with_web_mode(old(self)@, mode@),
    {
        let base: String = self.current_model_base().to_owned();
        let model: String = apply_web_mode(base.as_str(), &mode);
        self.web_mode = mode;
        self.conversation.model = model.clone();
        self.current_model = model;
    }

    fn key_in_api_key(&mut self, m: ApiKeyModal, key: Key) -> (r: Effect)
        requires
            old(self).well_formed(),
            old(self).modal is None,
            m.value.well_formed(),
            !(key.ctrl && key.code == KeyCode::Char('c')),
            !(key.ctrl && key.code == KeyCode::Char('r')) ==> can_edit(m.value@, key.code),
        ensures
            final(self).well_formed(),
            (final(self)@, r@) == api_key_effect(
                with_modal(
                    old(self)@,
                    Some(ModalView::ApiKey(ApiKeyView { value: m.value@, reveal: m.reveal })),
                ),
                ApiKeyView { value: m.value@, reveal: m.reveal },
                key,
            ),
    {
        let mut m: ApiKeyModal = m;
        if key.ctrl && is_char(key.code, 'r') {
            m.reveal = !m.reveal;
            self.modal = Some(Modal::ApiKey(m));
            return Effect::Nothing;
        }
        match key.code {
            KeyCode::Enter => {
                if is_blank(m.value.text.as_str()) {
                    self.status = "API key cannot be empty".to_owned();
                    self.modal = Some(Modal::ApiKey(m));
                    Effect::Nothing
                } else {
                    let value: String = trim(m.value.text.as_str()).to_owned();
                    self.client.set_api_key(value.clone());
                    self.status = "API key saved".to_owned();
                    Effect::StoreApiKey(value)
                }
            },
            KeyCode::Esc => {
                self.status = "API key required to continue".to_owned();
                self.modal = Some(Modal::ApiKey(m));
                Effect::Nothing
            },
            _ => {
                if let Some(edit) = as_edit(key.code) {
                    m.value.edit(edit);
                }
                self.modal = Some(Modal::ApiKey(m));
                Effect::Nothing
            },
        }
    }

    fn key_in_model_picker(&mut self, m: ModelPickerModal, key: Key) -> (r: Effect)
        requires
            old(self).well_formed(),
            old(self).modal is None,
            m.search.well_formed(),
            !is_letter(key.code, 'p', 'P') ==> can_edit(m.search@, key.code),
        ensures
            final(self).well_formed(),
            (final(self)@, r@) == model_picker_effect(
                with_modal(old(self)@, Some(ModalView::ModelPicker(m@))),
                m@,
                key,
            ),
    {
        let mut m: ModelPickerModal = m;
        match key.code {
            KeyCode::Esc => Effect::Nothing,
            KeyCode::Tab => {
                let next: ModelScope = scope_after(m.scope);
                self.modal = Some(Modal::ModelPicker(m));
                Effect::FetchModels(next)
            },
            KeyCode::Up => {
                m.selected = go_up(m.selected);
                self.modal = Some(Modal::ModelPicker(m));
                Effect::Nothing
            },
            KeyCode::Down => {
                let found: Vec<ModelEntry> = m.filtered_models();
                assert(crate::tui::pickers::model_views(found@).len() == found@.len());
                m.selected = go_down_in(m.selected, found.len());
                self.modal = Some(Modal::ModelPicker(m));
                Effect::Nothing
            },
            KeyCode::Enter => {
                let found: Vec<ModelEntry> = m.filtered_models();
                assert(crate::tui::pickers::model_views(found@).len() == found@.len());
                if m.selected < found.len() {
                    assert(crate::tui::pickers::model_views(found@)[m.selected as int]
                        == found@[m.selected as int]@);
                    let id: String = found[m.selected].id.clone();
                    let model: String = apply_web_mode(id.as_str(), &self.web_mode);
                    self.status = cat2("Model set: ", model.as_str());
                    self.conversation.model = model.clone();
                    self.current_model = model;
                    Effect::StoreModel(id)
                } else {
                    self.modal = Some(Modal::ModelPicker(m));
                    Effect::Nothing
                }
            },
            _ => {
                if is_key(key.code, 'p', 'P') {
                    let found: Vec<ModelEntry> = m.filtered_models();
                    assert(crate::tui::pickers::model_views(found@).len() == found@.len());
                    if m.selected < found.len() {
                        assert(crate::tui::pickers::model_views(found@)[m.selected as int]
                            == found@[m.selected as int]@);
                        let id: String = found[m.selected].id.clone();
                        self.modal = Some(Modal::ModelPicker(m));
                        return Effect::FetchProviders(id);
                    }
                    self.modal = Some(Modal::ModelPicker(m));
                    return Effect::Nothing;
                }
                if let Some(edit) = as_edit(key.code) {
                    let changes: bool = edit_changes(&m.search, edit);
                    m.search.edit(edit);
                    if changes {
                        m.selected = 0;
                    }
                }
                self.modal = Some(Modal::ModelPicker(m));
                Effect::Nothing
            },
        }
    }

    fn key_in_provider_picker(&mut self, m: ProviderPickerModal, key: Key) -> (r: Effect)
        requires
            old(self).well_formed(),
            old(self).modal is None,
        ensures
            final(self).well_formed(),
            (final(self)@, r@) == provider_picker_effect(
                with_modal(old(self)@, Some(ModalView::ProviderPicker(m@))),
                m@,
                key,
            ),
    {
        let mut m: ProviderPickerModal = m;
        let ghost providers = crate::tui::pickers::provider_views(m.providers@);
        assert(providers.len() == m.providers@.len());
        if is_key(key.code, 'c', 'C') {
            self.provider_overrides.remove(m.model_id.as_str());
            self.status = cat2("Provider override cleared for ", m.model_id.as_str());
            return Effect::StoreOverrides;
        }
        match key.code {
            KeyCode::Esc => Effect::Nothing,
            KeyCode::Up => {
                m.selected = go_up(m.selected);
                self.modal = Some(Modal::ProviderPicker(m));
                Effect::Nothing
            },
            KeyCode::Down => {
                m.selected = go_down_in(m.selected, m.providers.len());
                self.modal = Some(Modal::ProviderPicker(m));
                Effect::Nothing
            },
            KeyCode::Enter => {
                if m.selected < m.providers.len() {
                    assert(providers[m.selected as int] == m.providers@[m.selected as int]@);
                    let provider: String = m.providers[m.selected].provider.clone();
                    self.status = cat4(
                        "Provider override for ",
                        m.model_id.as_str(),
                        ": ",
                        provider.as_str(),
                    );
                    self.provider_overrides.insert(m.model_id, provider);
                    Effect::StoreOverrides
                } else {
                    self.modal = Some(Modal::ProviderPicker(m));
                    Effect::Nothing
                }
            },
            _ => {
                self.modal = Some(Modal::ProviderPicker(m));
                Effect::Nothing
            },
        }
    }

    fn key_in_web_mode_picker(&mut self, selected: usize, key: Key) -> (r: Effect)
        requires
            old(self).well_formed(),
            old(self).modal is None,
        ensures
            final(self).well_formed(),
            (final(self)@, r@) == web_mode_effect(
                with_modal(old(self)@, Some(ModalView::WebModePicker(selected as nat))),
                selected as nat,
                key,
            ),
    {
        let all: &'static [WebModePreset] = web_mode_presets();
        if is_key(key.code, 'c', 'C') {
            self.set_web_mode(WebMode::Off);
            self.status = "Web mode set: off".to_owned();
            return Effect::Nothing;
        }
        match key.code {
            KeyCode::Esc => {},
            KeyCode::Up => {
                self.modal = Some(
                    Modal::WebModePicker(WebModePickerModal { selected: go_up(selected) }),
                );
            },
            KeyCode::Down => {
                self.modal = Some(
                    Modal::WebModePicker(
                        WebModePickerModal { selected: go_down(selected, all.len()) },
                    ),
                );
            },
            KeyCode::Enter => {
                let mode: WebMode = if selected == 0 {
                    WebMode::Off
                } else if selected <= all.len() {
                    assert(all@[selected - 1]@ == presets()[selected - 1]);
                    web_mode_from_key(all[selected - 1].key)
                } else {
                    assert(all@[0]@ == presets()[0]);
                    web_mode_from_key(all[0].key)
                };
                let shown: String = web_mode_display(&mode);
                self.status = cat2("Web mode set: ", shown.as_str());
                self.set_web_mode(mode);
            },
            _ => {
                self.modal = Some(Modal::WebModePicker(WebModePickerModal { selected }));
            },
        }
        Effect::Nothing
    }

    fn key_in_web_search(&mut self, m: WebSearchModal, key: Key) -> (r: Effect)
        requires
            old(self).well_formed(),
            old(self).modal is None,
            m.well_formed(),
            !is_letter(key.code, 'd', 'D') && !is_letter(key.code, 'o', 'O') && !is_letter(
                key.code,
                'i',
                'I',
            ) ==> can_edit(m.query@, key.code),
        ensures
            final(self).well_formed(),
            (final(self)@, r@) == web_search_effect(
                with_modal(old(self)@, Some(ModalView::WebSearch(m@))),
                m@,
                key,
            ),
    {
        let mut m: WebSearchModal = m;
        match key.code {
            KeyCode::Esc => {
                return Effect::Nothing;
            },
            KeyCode::Enter => {
                if is_blank(m.query.text.as_str()) {
                    self.status = "Web search query cannot be empty".to_owned();
                    self.modal = Some(Modal::WebSearch(m));
                    return Effect::Nothing;
                }
                let body: Json = m.body();
                self.status = cat5(
                    "Searching with provider=",
                    crate::commands::provider_name(m.provider()),
                    " depth=",
                    m.depth(),
                    "...",
                );
                self.modal = Some(Modal::WebSearch(m));
                return Effect::Search(body);
            },
            KeyCode::Tab => {
                m.cycle_provider();
            },
            KeyCode::Up => {
                m.result_scroll = scroll_up(m.result_scroll);
            },
            KeyCode::Down => {
                m.result_scroll = scroll_down(m.result_scroll);
            },
            _ => {
                if is_key(key.code, 'd', 'D') {
                    m.cycle_depth();
                } else if is_key(key.code, 'o', 'O') {
                    m.cycle_output();
                } else if is_key(key.code, 'i', 'I') {
                    m.include_images = !m.include_images;
                } else if let Some(edit) = as_edit(key.code) {
                    m.query.edit(edit);
                }
            },
        }
        self.modal = Some(Modal::WebSearch(m));
        Effect::Nothing
    }

    /// Takes a key in a dialog.
    pub fn handle_modal_key(&mut self, key: Key) -> (r: Effect)
        requires
            old(self).well_formed(),
            old(self).modal is Some,
            !(key.ctrl && key.code == KeyCode::Char('c')),
            takes(old(self)@, key),
        ensures
            final(self).well_formed(),
            (final(self)@, r@) == modal_effect(old(self)@, old(self)@.modal.unwrap(), key),
    {
        let modal: Option<Modal> = self.modal.take();
        match modal {
            Some(Modal::ApiKey(m)) => self.key_in_api_key(m, key),
            Some(Modal::ModelPicker(m)) => self.key_in_model_picker(m, key),
            Some(Modal::ProviderPicker(m)) => self.key_in_provider_picker(m, key),
            Some(Modal::WebModePicker(m)) => self.key_in_web_mode_picker(m.selected, key),
            Some(Modal::WebSearch(m)) => self.key_in_web_search(m, key),
            Some(Modal::Help) => {
                match key.code {
                    KeyCode::Esc => {},
                    _ => {
                        self.modal = Some(Modal::Help);
                    },
                }
                Effect::Nothing
            },
            None => Effect::Nothing,
        }
    }
}

pub(crate) fn edit_changes(line: &LineEditor, edit: Edit) -> (r: bool)
    ensures
        r == changes_text(line@, edit),
{
    match edit {
        Edit::Insert(_) => true,
        Edit::Backspace => line.cursor > 0,
        Edit::Delete => {
            let bytes: &[u8] = line.text.as_str().as_bytes();
            line.cursor < bytes.len()
        },
        _ => false,
    }
}

} // verus!
