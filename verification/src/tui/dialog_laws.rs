//! What the dialogs, the pickers and the input line make of keys and of answers.

use vstd::prelude::*;

use crate::cli::{ModelScope, WebProvider};
use crate::commands::provider_text;
use crate::json::{array_of, member, no_members, number_of, then_member, with_member, JsonView};
use crate::json_laws::{held, law_nothing_is_held_by_none, law_set_member_is_held};
use crate::letter::lower;
use crate::model_mode::{mode_of_key, model_base, presets, with_mode, ModeView};
use crate::order::text_order;
use crate::search::{contains, starts};
use crate::text::{blank, space, trimmed, trimmed_start};
use crate::text_laws::law_words_end_at_spaces;
use crate::tui::app::{ApiKeyView, AppView, Focus, ModalView};
use crate::tui::editor::{
    byte_len, edited, index_at, is_ascii_text, lemma_ascii_index, lemma_byte_len,
    lemma_byte_len_adds, Edit, EditorView,
};
use crate::tui::keys::{EffectView, Key, KeyCode};
use crate::tui::pickers::{
    chosen_depth, chosen_output, depths, model_of, models_found, models_in, models_read, next_scope,
    outputs, provider_at, provider_picker, provider_position, providers_in, search_members,
    ModelPickerView, ModelView, ProviderPickerView, ProviderView, SearchView,
};
use crate::tui::slash::{completions, slash_commands, suggestions, synced, typed_token, SlashView};
use crate::tui::typing::{key_effect, offers_completion};

verus! {

/// A key without Ctrl.
pub open spec fn pressed(code: KeyCode) -> Key {
    Key { code, ctrl: false }
}

// ---------------------------------------------------------------------------
// The input line
// ---------------------------------------------------------------------------

/// A character that is typed stands where the cursor was, and the cursor behind it; Backspace takes
/// the character before the cursor, Delete the one at it, and the arrows move it by one within the
/// line.
pub proof fn law_lines_are_edited(e: EditorView, c: char)
    requires
        is_ascii_text(e.text),
        e.cursor <= e.text.len(),
        c as u32 <= 0x7f,
    ensures
        edited(e, Edit::Insert(c)).text == e.text.take(e.cursor as int).push(c) + e.text.skip(
            e.cursor as int,
        ),
        edited(e, Edit::Insert(c)).cursor == e.cursor + 1,
        e.cursor > 0 ==> edited(e, Edit::Backspace).text == e.text.take(e.cursor - 1) + e.text.skip(
            e.cursor as int,
        ) && edited(e, Edit::Backspace).cursor == e.cursor - 1,
        e.cursor == 0 ==> edited(e, Edit::Backspace) == e,
        e.cursor < e.text.len() ==> edited(e, Edit::Delete).text == e.text.take(e.cursor as int)
            + e.text.skip(e.cursor as int + 1) && edited(e, Edit::Delete).cursor == e.cursor,
        e.cursor == e.text.len() ==> edited(e, Edit::Delete) == e,
        edited(e, Edit::Left).text == e.text,
        e.cursor > 0 ==> edited(e, Edit::Left).cursor == e.cursor - 1,
        e.cursor == 0 ==> edited(e, Edit::Left).cursor == 0,
        edited(e, Edit::Right).text == e.text,
        e.cursor < e.text.len() ==> edited(e, Edit::Right).cursor == e.cursor + 1,
        e.cursor == e.text.len() ==> edited(e, Edit::Right).cursor == e.cursor,
{
    lemma_ascii_index(e.text, e.cursor);
    if e.cursor > 0 {
        lemma_ascii_index(e.text, (e.cursor - 1) as nat);
        assert(e.text.remove(e.cursor - 1) =~= e.text.take(e.cursor - 1) + e.text.skip(
            e.cursor as int,
        ));
    }
    if e.cursor < e.text.len() {
        assert(e.text.remove(e.cursor as int) =~= e.text.take(e.cursor as int) + e.text.skip(
            e.cursor as int + 1,
        ));
    }
    assert(e.text.insert(e.cursor as int, c) =~= e.text.take(e.cursor as int).push(c) + e.text.skip(
        e.cursor as int,
    ));
}

/// What is typed goes into the input line, and into the line of a dialog where one is open; nothing
/// else of the chat changes.
#[verifier::rlimit(40)]
pub proof fn law_typed_keys_go_into_the_line(s: AppView, c: char)
    requires
        s.modal is None,
        s.focus == Focus::Input,
    ensures
        key_effect(s, pressed(KeyCode::Char(c))).0.input == edited(s.input, Edit::Insert(c)),
        key_effect(s, pressed(KeyCode::Backspace)).0.input == edited(s.input, Edit::Backspace),
        key_effect(s, pressed(KeyCode::Delete)).0.input == edited(s.input, Edit::Delete),
        key_effect(s, pressed(KeyCode::Left)).0.input == edited(s.input, Edit::Left),
        key_effect(s, pressed(KeyCode::Right)).0.input == edited(s.input, Edit::Right),
        key_effect(s, pressed(KeyCode::Char(c))).0.conversation == s.conversation,
        key_effect(s, pressed(KeyCode::Char(c))).1 is Nothing,
        s.suggestion < suggestions(edited(s.input, Edit::Insert(c)).text).len() ==> key_effect(
            s,
            pressed(KeyCode::Char(c)),
        ).0.suggestion == s.suggestion,
        key_effect(s, pressed(KeyCode::Left)).0.suggestion == s.suggestion,
{
}

/// Without suggestions the arrows scroll the chat, by one line; with them they move among these.
#[verifier::rlimit(40)]
pub proof fn law_arrows_scroll(s: AppView)
    requires
        s.modal is None,
        s.focus == Focus::Input,
    ensures
        suggestions(s.input.text).len() == 0 && s.chat_scroll > 0 ==> key_effect(
            s,
            pressed(KeyCode::Up),
        ).0.chat_scroll == s.chat_scroll - 1,
        suggestions(s.input.text).len() == 0 && s.chat_scroll < u16::MAX ==> key_effect(
            s,
            pressed(KeyCode::Down),
        ).0.chat_scroll == s.chat_scroll + 1,
        suggestions(s.input.text).len() > 0 ==> key_effect(s, pressed(KeyCode::Up)).0.chat_scroll
            == s.chat_scroll,
        s.suggestion + 1 < suggestions(s.input.text).len() ==> key_effect(
            s,
            pressed(KeyCode::Down),
        ).0.suggestion == s.suggestion + 1,
        0 < s.suggestion < suggestions(s.input.text).len() ==> key_effect(
            s,
            pressed(KeyCode::Up),
        ).0.suggestion == s.suggestion - 1,
{
}

/// The commands that are suggested are those that begin with what was typed, in the order in which
/// they are listed; for a bare `/` they are all of them, and once a space was typed there are none.
pub proof fn law_suggestions_are_the_fitting(list: Seq<SlashView>, last: SlashView, token: Seq<char>)
    ensures
        completions(Seq::empty(), token).len() == 0,
        starts(last.command, token) ==> completions(list.push(last), token) == completions(
            list,
            token,
        ).push(last),
        !starts(last.command, token) ==> completions(list.push(last), token) == completions(
            list,
            token,
        ),
        typed_token(token) == Some("/"@) && !contains(token, " "@) ==> suggestions(token)
            == slash_commands(),
        contains(token, " "@) ==> suggestions(token).len() == 0,
        typed_token(token) is None ==> suggestions(token).len() == 0,
{
    assert(list.push(last).drop_last() =~= list);
}

/// A command that is taken stands in the line, with a space behind it where it takes an argument, and
/// the cursor at its end.
#[verifier::rlimit(40)]
pub proof fn law_taken_command_stands_in_the_line(s: AppView)
    requires
        s.modal is None,
        s.focus == Focus::Input,
        offers_completion(s),
        s.suggestion < suggestions(s.input.text).len(),
    ensures
        suggestions(s.input.text)[s.suggestion as int].takes_argument ==> key_effect(
            s,
            pressed(KeyCode::Tab),
        ).0.input.text == suggestions(s.input.text)[s.suggestion as int].command + seq![' '],
        !suggestions(s.input.text)[s.suggestion as int].takes_argument ==> key_effect(
            s,
            pressed(KeyCode::Tab),
        ).0.input.text == suggestions(s.input.text)[s.suggestion as int].command,
        key_effect(s, pressed(KeyCode::Tab)).0.input.cursor == crate::tui::editor::byte_len(
            key_effect(s, pressed(KeyCode::Tab)).0.input.text,
        ),
{
    reveal_strlit(" ");
    reveal_strlit("");
    let c = suggestions(s.input.text)[s.suggestion as int].command;
    assert(c + " "@ =~= c + seq![' ']);
    assert(c + ""@ =~= c);
}

// ---------------------------------------------------------------------------
// Conversations and shortcuts
// ---------------------------------------------------------------------------

/// In the list of conversations the arrows move the selection, Enter opens what is selected unless it
/// is open, and `d` deletes it.
#[verifier::rlimit(40)]
pub proof fn law_conversations_are_chosen(s: AppView, ctrl: bool)
    requires
        s.modal is None,
        s.focus == Focus::Conversations,
        s.selected < s.conversations.len(),
    ensures
        s.selected > 0 ==> key_effect(s, pressed(KeyCode::Up)).0.selected == s.selected - 1,
        s.selected == 0 ==> key_effect(s, pressed(KeyCode::Up)).0.selected == 0,
        s.selected + 1 < s.conversations.len() ==> key_effect(s, pressed(KeyCode::Down)).0.selected
            == s.selected + 1,
        s.selected + 1 == s.conversations.len() ==> key_effect(s, pressed(KeyCode::Down)).0.selected
            == s.selected,
        !s.pending && s.conversations[s.selected as int].id != s.conversation.id ==> key_effect(
            s,
            Key { code: KeyCode::Enter, ctrl },
        ).1 == EffectView::LoadConversation(s.conversations[s.selected as int].id),
        s.conversations[s.selected as int].id == s.conversation.id ==> key_effect(
            s,
            Key { code: KeyCode::Enter, ctrl },
        ).1 is Nothing,
        key_effect(s, pressed(KeyCode::Char('d'))).1 == EffectView::DeleteConversation(
            s.conversations[s.selected as int].id,
        ),
        key_effect(s, pressed(KeyCode::Delete)).1 == EffectView::DeleteConversation(
            s.conversations[s.selected as int].id,
        ),
        key_effect(s, pressed(KeyCode::Char('d'))).0 == s,
{
}

/// Each shortcut does what it is for.
#[verifier::rlimit(40)]
pub proof fn law_shortcuts(s: AppView)
    requires
        s.modal is None,
    ensures
        !s.pending ==> key_effect(s, Key { code: KeyCode::Char('n'), ctrl: true }).1 is NewConversation,
        key_effect(s, Key { code: KeyCode::Char('r'), ctrl: true }).1 is Reload,
        key_effect(s, Key { code: KeyCode::Char('s'), ctrl: true }).1 is SaveAndReload,
        key_effect(s, Key { code: KeyCode::Char('m'), ctrl: true }).1 is OpenModels,
        key_effect(s, Key { code: KeyCode::Char('p'), ctrl: true }).1 == EffectView::FetchProviders(
            model_base(s.model),
        ),
        key_effect(s, Key { code: KeyCode::Char('g'), ctrl: true }).0.modal matches Some(
            ModalView::WebModePicker(_),
        ),
        key_effect(s, Key { code: KeyCode::Char('w'), ctrl: true }).0.modal matches Some(
            ModalView::WebSearch(m),
        ) && m.query.text.len() == 0 && m.result.len() == 0,
        key_effect(s, Key { code: KeyCode::Char('h'), ctrl: true }).0.modal matches Some(
            ModalView::Help,
        ),
        forall|c: char| #[trigger]
            key_effect(s, Key { code: KeyCode::Char(c), ctrl: true }).0.conversation
                == s.conversation,
{
}

// ---------------------------------------------------------------------------
// The API key
// ---------------------------------------------------------------------------

/// A key that was typed is used and stored, without the spaces around it, and the dialog closes;
/// spaces alone are none. Ctrl+R shows and hides what was typed and changes nothing of it.
#[verifier::rlimit(40)]
pub proof fn law_api_key_is_taken(s: AppView, m: ApiKeyView, c: char)
    requires
        s.modal == Some(ModalView::ApiKey(m)),
    ensures
        !blank(m.value.text) ==> {
            &&& key_effect(s, pressed(KeyCode::Enter)).0.api_key == Some(trimmed(m.value.text))
            &&& key_effect(s, pressed(KeyCode::Enter)).1 == EffectView::StoreApiKey(
                trimmed(m.value.text),
            )
            &&& key_effect(s, pressed(KeyCode::Enter)).0.modal is None
        },
        blank(m.value.text) ==> {
            &&& key_effect(s, pressed(KeyCode::Enter)).0.api_key == s.api_key
            &&& key_effect(s, pressed(KeyCode::Enter)).1 is Nothing
            &&& key_effect(s, pressed(KeyCode::Enter)).0.modal == s.modal
        },
        key_effect(s, Key { code: KeyCode::Char('r'), ctrl: true }).0.modal == Some(
            ModalView::ApiKey(ApiKeyView { value: m.value, reveal: !m.reveal }),
        ),
        key_effect(s, pressed(KeyCode::Char(c))).0.modal == Some(
            ModalView::ApiKey(ApiKeyView { value: edited(m.value, Edit::Insert(c)), ..m }),
        ),
        key_effect(s, pressed(KeyCode::Char(c))).0.input == s.input,
{
}

// ---------------------------------------------------------------------------
// Models
// ---------------------------------------------------------------------------

/// Whether a model is found by a text: it stands in its id, its name, its owner or its category,
/// whatever the case of the letters.
pub open spec fn is_found_by(m: ModelView, search: Seq<char>) -> bool {
    let q = lower(trimmed(search));
    ||| q.len() == 0
    ||| contains(lower(m.id), q)
    ||| contains(lower(m.name), q)
    ||| contains(lower(m.owned_by), q)
    ||| (m.category is Some && contains(lower(m.category.unwrap()), q))
}

/// The models that are shown are those that the search finds, in their order.
pub proof fn law_found_models_are_shown(models: Seq<ModelView>, last: ModelView, search: Seq<char>)
    ensures
        models_found(Seq::empty(), search).len() == 0,
        is_found_by(last, search) ==> models_found(models.push(last), search) == models_found(
            models,
            search,
        ).push(last),
        !is_found_by(last, search) ==> models_found(models.push(last), search) == models_found(
            models,
            search,
        ),
        blank(search) && lower(Seq::empty()).len() == 0 ==> models_found(models, search) == models,
{
    assert(models.push(last).drop_last() =~= models);
    if blank(search) {
        assert(trimmed(search) =~= Seq::empty());
    }
}

/// Enter takes the model that is marked, for the chat and its conversation, under the web mode that is
/// set; it is stored as the one to begin with, without the mode. `p` fetches its providers.
#[verifier::rlimit(40)]
pub proof fn law_marked_model_is_taken(s: AppView, m: ModelPickerView)
    requires
        s.modal == Some(ModalView::ModelPicker(m)),
        m.selected < models_found(m.models, m.search.text).len(),
    ensures
        key_effect(s, pressed(KeyCode::Enter)).0.model == with_mode(
            models_found(m.models, m.search.text)[m.selected as int].id,
            s.mode,
        ),
        key_effect(s, pressed(KeyCode::Enter)).0.conversation.model == key_effect(
            s,
            pressed(KeyCode::Enter),
        ).0.model,
        key_effect(s, pressed(KeyCode::Enter)).0.conversation.messages == s.conversation.messages,
        key_effect(s, pressed(KeyCode::Enter)).0.mode == s.mode,
        key_effect(s, pressed(KeyCode::Enter)).0.modal is None,
        key_effect(s, pressed(KeyCode::Enter)).1 == EffectView::StoreModel(
            models_found(m.models, m.search.text)[m.selected as int].id,
        ),
        key_effect(s, pressed(KeyCode::Char('p'))).1 == EffectView::FetchProviders(
            models_found(m.models, m.search.text)[m.selected as int].id,
        ),
{
}

/// The arrows move the mark by one within the models that are shown, Tab fetches the next catalog, and
/// what is typed narrows the search and moves the mark to the first.
#[verifier::rlimit(40)]
pub proof fn law_models_are_looked_through(s: AppView, m: ModelPickerView, c: char)
    requires
        s.modal == Some(ModalView::ModelPicker(m)),
        m.selected < models_found(m.models, m.search.text).len(),
        c != 'p' && c != 'P',
    ensures
        m.selected > 0 ==> key_effect(s, pressed(KeyCode::Up)).0.modal == Some(
            ModalView::ModelPicker(ModelPickerView { selected: (m.selected - 1) as nat, ..m }),
        ),
        m.selected + 1 < models_found(m.models, m.search.text).len() ==> key_effect(
            s,
            pressed(KeyCode::Down),
        ).0.modal == Some(ModalView::ModelPicker(ModelPickerView { selected: m.selected + 1, ..m })),
        m.selected + 1 == models_found(m.models, m.search.text).len() ==> key_effect(
            s,
            pressed(KeyCode::Down),
        ).0.modal == s.modal,
        key_effect(s, pressed(KeyCode::Tab)).1 == EffectView::FetchModels(next_scope(m.scope)),
        key_effect(s, pressed(KeyCode::Char(c))).0.modal == Some(
            ModalView::ModelPicker(
                ModelPickerView { search: edited(m.search, Edit::Insert(c)), selected: 0, ..m },
            ),
        ),
        key_effect(s, pressed(KeyCode::Down)).0.model == s.model,
{
}

/// The three catalogs follow on each other.
pub proof fn law_catalogs_go_round(scope: ModelScope)
    ensures
        next_scope(next_scope(next_scope(scope))) == scope,
        next_scope(scope) != scope,
        next_scope(ModelScope::Canonical) == ModelScope::Subscription,
{
}

/// A model is read from its own members of an answer.
pub proof fn law_models_are_read(items: Seq<JsonView>, i: int, id: Seq<char>, name: Seq<char>)
    requires
        0 <= i < items.len(),
    ensures
        models_in(items).len() == items.len(),
        models_in(items)[i] == model_of(items[i]),
        member(items[i], "id"@) == Some(JsonView::Text(id)) ==> model_of(items[i]).id == id,
        member(items[i], "id"@) is None ==> model_of(items[i]).id.len() == 0,
        member(items[i], "name"@) == Some(JsonView::Text(name)) ==> model_of(items[i]).name == name,
        member(items[i], "owned_by"@) == Some(JsonView::Text(name)) ==> model_of(items[i]).owned_by
            == name,
        member(items[i], "category"@) == Some(JsonView::Text(name)) ==> model_of(items[i]).category
            == Some(name),
        member(items[i], "category"@) is None ==> model_of(items[i]).category is None,
        member(items[i], "subscription"@) is None ==> model_of(items[i]).subscription_included is None,
{
}

/// Whether a model is in the subscription is what its member of that name says.
pub proof fn law_subscription_is_read(item: JsonView, sub: JsonView, yes: bool)
    requires
        member(item, "subscription"@) == Some(sub),
        member(sub, "included"@) == Some(JsonView::Bool(yes)),
    ensures
        model_of(item).subscription_included == Some(yes),
{
}

// ---------------------------------------------------------------------------
// Providers
// ---------------------------------------------------------------------------

/// A provider is read from its own members of an answer, with its two prices told apart.
pub proof fn law_providers_are_read(
    value: JsonView,
    items: Seq<JsonView>,
    i: int,
    name: Seq<char>,
    yes: bool,
)
    requires
        member(value, "providers"@) == Some(JsonView::Array(items)),
        0 <= i < items.len(),
    ensures
        providers_in(value).len() == items.len(),
        member(items[i], "provider"@) == Some(JsonView::Text(name)) ==> providers_in(value)[i].provider
            == name,
        member(items[i], "available"@) == Some(JsonView::Bool(yes)) ==> providers_in(value)[i].available
            == yes,
        member(items[i], "available"@) is None ==> !providers_in(value)[i].available,
        providers_in(value)[i].input_per_1k == number_of(
            then_member(member(items[i], "pricing"@), "inputPer1kTokens"@),
        ),
        providers_in(value)[i].output_per_1k == number_of(
            then_member(member(items[i], "pricing"@), "outputPer1kTokens"@),
        ),
{
}

proof fn lemma_provider_position(list: Seq<ProviderView>, name: Seq<char>, i: int)
    requires
        0 <= i < list.len(),
        list[i].provider == name,
        forall|k: int| 0 <= k < i ==> (#[trigger] list[k]).provider != name,
    ensures
        provider_position(list, name) == Some(i),
    decreases list.len(),
{
    let front = list.drop_last();
    if i < list.len() - 1 {
        assert(front[i] == list[i]);
        assert forall|k: int| 0 <= k < i implies (#[trigger] front[k]).provider != name by {
            assert(front[k] == list[k]);
        }
        lemma_provider_position(front, name, i);
    } else {
        assert forall|k: int| 0 <= k < front.len() implies (#[trigger] front[k]).provider != name by {
            assert(front[k] == list[k]);
        }
        lemma_provider_nowhere(front, name);
    }
}

proof fn lemma_provider_nowhere(list: Seq<ProviderView>, name: Seq<char>)
    requires
        forall|k: int| 0 <= k < list.len() ==> (#[trigger] list[k]).provider != name,
    ensures
        provider_position(list, name) is None,
    decreases list.len(),
{
    if list.len() > 0 {
        let front = list.drop_last();
        assert forall|k: int| 0 <= k < front.len() implies (#[trigger] front[k]).provider != name by {
            assert(front[k] == list[k]);
        }
        assert(list[list.len() - 1].provider != name);
        lemma_provider_nowhere(front, name);
    }
}

/// The picker of providers opens on the one that is picked, where it is listed.
pub proof fn law_picked_provider_is_marked(
    model: Seq<char>,
    value: JsonView,
    name: Seq<char>,
    i: int,
)
    requires
        0 <= i < providers_in(value).len(),
        providers_in(value)[i].provider == name,
        forall|k: int| 0 <= k < i ==> (#[trigger] providers_in(value)[k]).provider != name,
    ensures
        provider_picker(model, value, Some(name)).selected == i,
        provider_picker(model, value, None).selected == 0,
        provider_picker(model, value, Some(name)).model_id == model,
        provider_picker(model, value, Some(name)).providers == providers_in(value),
{
    lemma_provider_position(providers_in(value), name, i);
}

/// What the answer says of the choice itself is kept.
pub proof fn law_picker_tells_of_the_choice(
    model: Seq<char>,
    value: JsonView,
    picked: Option<Seq<char>>,
    yes: bool,
    text: Seq<char>,
)
    ensures
        member(value, "supportsProviderSelection"@) == Some(JsonView::Bool(yes)) ==> provider_picker(
            model,
            value,
            picked,
        ).supports_provider_selection == yes,
        member(value, "supportsProviderSelection"@) is None ==> !provider_picker(
            model,
            value,
            picked,
        ).supports_provider_selection,
        member(value, "message"@) == Some(JsonView::Text(text)) ==> provider_picker(
            model,
            value,
            picked,
        ).message == Some(text),
        member(value, "message"@) is None ==> provider_picker(model, value, picked).message is None,
{
}

/// Picking a provider, or taking the pick back, leaves the providers of other models as they are; both
/// are stored.
#[verifier::rlimit(40)]
pub proof fn law_other_picks_stay(s: AppView, m: ProviderPickerView, other: Seq<char>)
    requires
        s.modal == Some(ModalView::ProviderPicker(m)),
        m.selected < m.providers.len(),
        other != m.model_id,
    ensures
        key_effect(s, pressed(KeyCode::Enter)).0.overrides[m.model_id] == m.providers[m.selected as int].provider,
        key_effect(s, pressed(KeyCode::Enter)).0.overrides.contains_key(m.model_id),
        key_effect(s, pressed(KeyCode::Enter)).0.overrides.contains_key(other)
            <==> s.overrides.contains_key(other),
        s.overrides.contains_key(other) ==> key_effect(s, pressed(KeyCode::Enter)).0.overrides[other]
            == s.overrides[other],
        !key_effect(s, pressed(KeyCode::Char('c'))).0.overrides.contains_key(m.model_id),
        key_effect(s, pressed(KeyCode::Char('c'))).0.overrides.contains_key(other)
            <==> s.overrides.contains_key(other),
        s.overrides.contains_key(other) ==> key_effect(s, pressed(KeyCode::Char('c'))).0.overrides[other]
            == s.overrides[other],
        key_effect(s, pressed(KeyCode::Enter)).1 is StoreOverrides,
        key_effect(s, pressed(KeyCode::Char('c'))).1 is StoreOverrides,
        key_effect(s, pressed(KeyCode::Enter)).0.modal is None,
        m.selected > 0 ==> key_effect(s, pressed(KeyCode::Up)).0.modal == Some(
            ModalView::ProviderPicker(ProviderPickerView { selected: (m.selected - 1) as nat, ..m }),
        ),
        m.selected + 1 < m.providers.len() ==> key_effect(s, pressed(KeyCode::Down)).0.modal == Some(
            ModalView::ProviderPicker(ProviderPickerView { selected: m.selected + 1, ..m }),
        ),
{
}

// ---------------------------------------------------------------------------
// Web modes
// ---------------------------------------------------------------------------

/// The picker of web modes sets the mode that is marked, the first one being none, and routes the
/// model by it; `c` switches it off.
#[verifier::rlimit(40)]
pub proof fn law_marked_mode_is_set(s: AppView, selected: nat)
    requires
        s.modal == Some(ModalView::WebModePicker(selected)),
        selected <= presets().len(),
    ensures
        selected == 0 ==> key_effect(s, pressed(KeyCode::Enter)).0.mode == ModeView::Off,
        selected > 0 ==> key_effect(s, pressed(KeyCode::Enter)).0.mode == mode_of_key(
            presets()[selected - 1].key,
        ),
        key_effect(s, pressed(KeyCode::Enter)).0.model == with_mode(
            model_base(s.model),
            key_effect(s, pressed(KeyCode::Enter)).0.mode,
        ),
        key_effect(s, pressed(KeyCode::Enter)).0.conversation.model == key_effect(
            s,
            pressed(KeyCode::Enter),
        ).0.model,
        key_effect(s, pressed(KeyCode::Enter)).0.modal is None,
        key_effect(s, pressed(KeyCode::Char('c'))).0.mode == ModeView::Off,
        key_effect(s, pressed(KeyCode::Char('c'))).0.model == with_mode(
            model_base(s.model),
            ModeView::Off,
        ),
        selected > 0 ==> key_effect(s, pressed(KeyCode::Up)).0.modal == Some(
            ModalView::WebModePicker((selected - 1) as nat),
        ),
        selected < presets().len() ==> key_effect(s, pressed(KeyCode::Down)).0.modal == Some(
            ModalView::WebModePicker(selected + 1),
        ),
{
}

// ---------------------------------------------------------------------------
// Web searches
// ---------------------------------------------------------------------------

/// A search is sent with what was typed and with what is chosen in the dialog, each under its own key;
/// the shape of the answer is sent only for a structured one.
#[verifier::rlimit(50)]
pub proof fn law_search_is_sent_as_chosen(s: SearchView, key: Seq<char>)
    ensures
        held(search_members(s), "query"@) == Some(JsonView::Text(trimmed(s.query.text))),
        held(search_members(s), "provider"@) == Some(
            JsonView::Text(provider_text(provider_at(s.provider_idx))),
        ),
        held(search_members(s), "depth"@) == Some(JsonView::Text(chosen_depth(s))),
        held(search_members(s), "outputType"@) == Some(JsonView::Text(chosen_output(s))),
        held(search_members(s), "includeImages"@) == Some(JsonView::Bool(s.include_images)),
        held(search_members(s), "structuredOutputSchema"@) is Some <==> chosen_output(s)
            == "structured"@,
        key != "query"@ && key != "provider"@ && key != "depth"@ && key != "outputType"@
            && key != "includeImages"@ && key != "structuredOutputSchema"@ ==> held(
            search_members(s),
            key,
        ) is None,
{
    reveal_strlit("query");
    reveal_strlit("provider");
    reveal_strlit("depth");
    reveal_strlit("outputType");
    reveal_strlit("includeImages");
    reveal_strlit("structuredOutputSchema");
    assert("query"@.len() == 5);
    assert("provider"@.len() == 8);
    assert("depth"@.len() == 5);
    assert("outputType"@.len() == 10);
    assert("includeImages"@.len() == 13);
    assert("structuredOutputSchema"@.len() == 22);
    assert("query"@[0] != "depth"@[0]);
    let m0 = no_members();
    let m1 = with_member(m0, "query"@, JsonView::Text(trimmed(s.query.text)));
    law_set_member_is_held(m0, "query"@, JsonView::Text(trimmed(s.query.text)));
    let m2 = with_member(m1, "provider"@, JsonView::Text(provider_text(provider_at(s.provider_idx))));
    law_set_member_is_held(m1, "provider"@, JsonView::Text(provider_text(provider_at(s.provider_idx))));
    let m3 = with_member(m2, "depth"@, JsonView::Text(chosen_depth(s)));
    law_set_member_is_held(m2, "depth"@, JsonView::Text(chosen_depth(s)));
    let m4 = with_member(m3, "outputType"@, JsonView::Text(chosen_output(s)));
    law_set_member_is_held(m3, "outputType"@, JsonView::Text(chosen_output(s)));
    let m5 = with_member(m4, "includeImages"@, JsonView::Bool(s.include_images));
    law_set_member_is_held(m4, "includeImages"@, JsonView::Bool(s.include_images));
    if chosen_output(s) == "structured"@ {
        law_set_member_is_held(
            m5,
            "structuredOutputSchema"@,
            JsonView::Text(crate::tui::pickers::default_schema()),
        );
    }
    law_nothing_is_held_by_none("structuredOutputSchema"@);
    law_nothing_is_held_by_none(key);
}

/// Enter searches for what was typed, unless that is only spaces; the dialog stays.
#[verifier::rlimit(40)]
pub proof fn law_enter_searches(s: AppView, m: SearchView)
    requires
        s.modal == Some(ModalView::WebSearch(m)),
    ensures
        !blank(m.query.text) ==> key_effect(s, pressed(KeyCode::Enter)).1 == EffectView::Search(
            JsonView::Object(search_members(m)),
        ),
        blank(m.query.text) ==> key_effect(s, pressed(KeyCode::Enter)).1 is Nothing,
        key_effect(s, pressed(KeyCode::Enter)).0.modal == s.modal,
{
}

/// In the dialog of a search, Tab takes the next provider, `d` its next depth, `o` its next kind of
/// answer and `i` images or none; each leaves the others as they are as far as the provider has them.
#[verifier::rlimit(40)]
pub proof fn law_search_is_set_up(s: AppView, m: SearchView, c: char)
    requires
        s.modal == Some(ModalView::WebSearch(m)),
        m.provider_idx < 7,
        m.depth_idx < depths(provider_at(m.provider_idx)).len(),
        m.output_idx < outputs(provider_at(m.provider_idx)).len(),
        c != 'd' && c != 'D' && c != 'o' && c != 'O' && c != 'i' && c != 'I',
    ensures
        key_effect(s, pressed(KeyCode::Tab)).0.modal matches Some(ModalView::WebSearch(n)) && {
            &&& m.provider_idx < 6 ==> n.provider_idx == m.provider_idx + 1
            &&& m.provider_idx == 6 ==> n.provider_idx == 0
            &&& m.depth_idx < depths(provider_at(n.provider_idx)).len() ==> n.depth_idx
                == m.depth_idx
            &&& m.output_idx < outputs(provider_at(n.provider_idx)).len() ==> n.output_idx
                == m.output_idx
            &&& n.query == m.query
            &&& n.include_images == m.include_images
        },
        key_effect(s, pressed(KeyCode::Char('d'))).0.modal matches Some(ModalView::WebSearch(n)) && {
            &&& m.depth_idx + 1 < depths(provider_at(m.provider_idx)).len() ==> n == (SearchView {
                depth_idx: m.depth_idx + 1,
                ..m
            })
            &&& m.depth_idx + 1 == depths(provider_at(m.provider_idx)).len() ==> n == (SearchView {
                depth_idx: 0,
                ..m
            })
        },
        key_effect(s, pressed(KeyCode::Char('o'))).0.modal matches Some(ModalView::WebSearch(n)) && {
            &&& m.output_idx + 1 < outputs(provider_at(m.provider_idx)).len() ==> n == (SearchView {
                output_idx: m.output_idx + 1,
                ..m
            })
            &&& m.output_idx + 1 == outputs(provider_at(m.provider_idx)).len() ==> n == (SearchView {
                output_idx: 0,
                ..m
            })
        },
        key_effect(s, pressed(KeyCode::Char('i'))).0.modal == Some(
            ModalView::WebSearch(SearchView { include_images: !m.include_images, ..m }),
        ),
        key_effect(s, pressed(KeyCode::Char(c))).0.modal == Some(
            ModalView::WebSearch(SearchView { query: edited(m.query, Edit::Insert(c)), ..m }),
        ),
        m.result_scroll < u16::MAX ==> key_effect(s, pressed(KeyCode::Down)).0.modal == Some(
            ModalView::WebSearch(
                SearchView { result_scroll: (m.result_scroll + 1) as u16, ..m },
            ),
        ),
{
}

/// What is chosen is one of the provider's choices: the one at its place.
pub proof fn law_choices_are_the_provider_s(s: SearchView)
    requires
        s.depth_idx < depths(provider_at(s.provider_idx)).len(),
        s.output_idx < outputs(provider_at(s.provider_idx)).len(),
    ensures
        chosen_depth(s) == depths(provider_at(s.provider_idx))[s.depth_idx as int],
        chosen_output(s) == outputs(provider_at(s.provider_idx))[s.output_idx as int],
{
}

/// Each provider can be chosen, at one place, and has at least one depth and one kind of answer; only
/// `linkup` answers in other ways than by results.
pub proof fn law_every_provider_can_be_chosen(i: nat, j: nat, provider: WebProvider)
    requires
        i < 7,
        j < 7,
    ensures
        provider_at(i) == provider_at(j) ==> i == j,
        depths(provider).len() >= 2,
        outputs(provider)[0] == "searchResults"@,
        outputs(provider).len() > 1 <==> provider == WebProvider::Linkup,
        depths(provider).last() == "deep"@,
        provider == WebProvider::Exa ==> depths(provider) == seq![
            "fast"@,
            "auto"@,
            "neural"@,
            "deep"@,
        ],
        provider != WebProvider::Exa ==> depths(provider) == seq!["standard"@, "deep"@],
        outputs(WebProvider::Linkup) == seq![
            "searchResults"@,
            "sourcedAnswer"@,
            "structured"@,
        ],
{
}

/// The picker lists every model of an answer, by their ids; an answer without a list is refused.
pub proof fn law_answered_models_are_listed(value: JsonView, items: Seq<JsonView>)
    ensures
        member(value, "data"@) == Some(JsonView::Array(items)) ==> (models_read(value) matches Ok(list)
            && list.to_multiset() == models_in(items).to_multiset() && forall|i: int, j: int|
            0 <= i < j < list.len() ==> text_order()((#[trigger] list[i]).id, (#[trigger] list[j]).id)),
        member(value, "data"@) is None ==> models_read(value) is Err,
        models_read(value) is Ok <==> array_of(member(value, "data"@)) is Some,
{
    crate::tui::pickers::law_models_are_sorted(models_in(items));
}

/// The cursor stands behind as many characters as the bytes before it make up; where it stands within
/// one, there is none.
pub proof fn law_cursor_counts_bytes(s: Seq<char>, k: int)
    requires
        0 <= k <= s.len(),
    ensures
        index_at(s, byte_len(s.take(k))) == Some(k),
    decreases s.len(),
{
    if k > 0 {
        let rest = s.drop_first();
        law_cursor_counts_bytes(rest, k - 1);
        assert(s.take(k) =~= seq![s[0]] + rest.take(k - 1));
        lemma_byte_len_adds(seq![s[0]], rest.take(k - 1));
        lemma_byte_len_adds(seq![s[0]], Seq::empty());
        assert(seq![s[0]] + Seq::<char>::empty() =~= seq![s[0]]);
        lemma_byte_len(seq![s[0]]);
        assert(seq![s[0]].drop_first() =~= Seq::<char>::empty());
        assert(s.take(k).len() > 0);
    } else {
        assert(s.take(0) =~= Seq::<char>::empty());
    }
}

/// A choice stays where it is as long as there are as many; else it is the last.
pub proof fn law_choice_follows_the_list(idx: nat, len: nat)
    requires
        len > 0,
    ensures
        idx < len ==> synced(idx, len) == idx,
        idx >= len ==> synced(idx, len) == len - 1,
{
}

/// A capital letter does in a picker what the small one does.
#[verifier::rlimit(40)]
pub proof fn law_capitals_do_the_same(
    s: AppView,
    p: ProviderPickerView,
    m: SearchView,
    l: ModelPickerView,
    selected: nat,
)
    ensures
        s.modal == Some(ModalView::ProviderPicker(p)) || s.modal == Some(
            ModalView::WebModePicker(selected),
        ) ==> key_effect(s, pressed(KeyCode::Char('C'))) == key_effect(s, pressed(KeyCode::Char('c'))),
        s.modal == Some(ModalView::ModelPicker(l)) ==> key_effect(s, pressed(KeyCode::Char('P')))
            == key_effect(s, pressed(KeyCode::Char('p'))),
        s.modal == Some(ModalView::WebSearch(m)) ==> {
            &&& key_effect(s, pressed(KeyCode::Char('D'))) == key_effect(s, pressed(KeyCode::Char('d')))
            &&& key_effect(s, pressed(KeyCode::Char('O'))) == key_effect(s, pressed(KeyCode::Char('o')))
            &&& key_effect(s, pressed(KeyCode::Char('I'))) == key_effect(s, pressed(KeyCode::Char('i')))
        },
{
}

/// What a command is looked up by is its first word, in small letters; a line that does not begin with
/// `/` names none.
pub proof fn law_commands_are_looked_up(word: Seq<char>, rest: Seq<char>)
    requires
        word.len() > 0,
        forall|i: int| 0 <= i < word.len() ==> !space(#[trigger] word[i]),
        rest.len() > 0 ==> space(rest[0]),
    ensures
        word[0] == '/' ==> typed_token(word + rest) == Some(lower(word)),
        word[0] != '/' ==> typed_token(word + rest) is None,
{
    let s = word + rest;
    assert(!space(word[0]));
    assert(s[0] == word[0]);
    assert(trimmed_start(s) == s);
    law_words_end_at_spaces(word, rest);
    reveal_strlit("/");
    if word[0] == '/' {
        assert(s.take(1) =~= "/"@);
    }
    if starts(s, "/"@) {
        assert(s.take(1)[0] == "/"@[0]);
    }
}

} // verus!
