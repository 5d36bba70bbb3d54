//! What holds of the full-screen chat whatever is pressed.

use vstd::prelude::*;

use crate::conversation::{assistant_says, user_says};
use crate::letter::{all_ascii, ascii_lower, lower};
use crate::lines::{first_word, leading_word};
use crate::model_mode::{mode_of_arg, mode_of_key, mode_of_model, model_base, presets, ModeView};
use crate::model_mode_laws::{carried, law_modes_are_carried, law_routing_reads_back};
use crate::search::starts;
use crate::text::{space, trimmed_start};
use crate::tui::app::{active_provider, key_given, responded, AppView, Focus, ModalView};
use crate::tui::dialogs::{model_list, provider_list};
use crate::tui::keys::{provider_picker_effect, Key, KeyCode};
use crate::tui::paint::WidgetView;
use crate::tui::pickers::{models_found, ModelPickerView, ProviderPickerView};
use crate::tui::slash::{
    completed, is_typed_out, is_whole_command, slash_commands, suggestion_taken, suggestions,
    synced, typed_token,
};
use crate::tui::typing::{key_effect, offers_completion, said};

verus! {

/// Only Ctrl+C ends the chat, and Esc where no dialog is open.
#[verifier::rlimit(40)]
pub proof fn law_when_the_chat_ends(s: AppView, key: Key)
    ensures
        key_effect(s, key).1 is Quit <==> ((key.ctrl && key.code == KeyCode::Char('c')) || (s.modal
            is None && key.code == KeyCode::Esc)),
{
}

/// Esc closes every dialog but the one that asks for an API key, and changes nothing else.
#[verifier::rlimit(40)]
pub proof fn law_escape_closes_dialogs(s: AppView, ctrl: bool)
    requires
        s.modal is Some,
        !(s.modal.unwrap() is ApiKey),
    ensures
        key_effect(s, Key { code: KeyCode::Esc, ctrl }).0 == (AppView { modal: None, ..s }),
        key_effect(s, Key { code: KeyCode::Esc, ctrl }).1 is Nothing,
{
}

/// Tab, pressed twice, comes back to where it was, where there is nothing to complete.
#[verifier::rlimit(40)]
pub proof fn law_tab_goes_back(s: AppView)
    requires
        s.modal is None,
        !offers_completion(s),
    ensures
        key_effect(
            key_effect(s, Key { code: KeyCode::Tab, ctrl: false }).0,
            Key { code: KeyCode::Tab, ctrl: false },
        ).0 == s,
{
}

/// Where a suggestion is chosen that is not typed out yet, Enter takes it just as Tab does, unless the
/// model is being asked; it carries out a command only where the chosen one stands in the line.
#[verifier::rlimit(40)]
pub proof fn law_enter_takes_the_chosen(s: AppView)
    requires
        s.modal is None,
        s.focus == Focus::Input,
        !s.pending,
        offers_completion(s),
    ensures
        !is_typed_out(s.input.text, s.suggestion) ==> key_effect(
            s,
            Key { code: KeyCode::Enter, ctrl: false },
        ) == key_effect(s, Key { code: KeyCode::Tab, ctrl: false }),
        !is_typed_out(s.input.text, s.suggestion) ==> key_effect(
            s,
            Key { code: KeyCode::Enter, ctrl: false },
        ).0.input.text == completed(
            suggestions(s.input.text)[synced(s.suggestion, suggestions(s.input.text).len()) as int],
        ),
        is_typed_out(s.input.text, s.suggestion) ==> key_effect(
            s,
            Key { code: KeyCode::Enter, ctrl: false },
        ).0.input.text.len() == 0,
{
}

/// What the user said and what the model answered are both kept, in this order, behind what was said
/// before; what could not be answered leaves the conversation as it was.
pub proof fn law_an_answered_question_is_kept(s: AppView, input: Seq<char>, answer: Seq<char>)
    requires
        key_given(s.api_key),
    ensures
        responded(said(s, input).0, Ok(answer)).conversation.messages
            == s.conversation.messages.push(user_says(input)).push(assistant_says(answer)),
        responded(said(s, input).0, Err(answer)).conversation == s.conversation,
        !responded(said(s, input).0, Ok(answer)).pending,
        !responded(said(s, input).0, Err(answer)).pending,
{
}

/// The provider that was picked for the current model is the one that is asked; clearing it leaves
/// none.
pub proof fn law_picked_provider_is_used(s: AppView, m: ProviderPickerView, ctrl: bool)
    requires
        model_base(s.model) == m.model_id,
        m.selected < m.providers.len(),
    ensures
        active_provider(
            provider_picker_effect(s, m, Key { code: KeyCode::Enter, ctrl }).0,
        ) == Some(m.providers[m.selected as int].provider),
        active_provider(
            provider_picker_effect(s, m, Key { code: KeyCode::Char('c'), ctrl }).0,
        ) is None,
{
}

/// Whether the model that is asked is routed as the web mode says.
pub open spec fn routed_as_set(s: AppView) -> bool {
    match s.mode {
        ModeView::Off => mode_of_model(s.model) is None,
        ModeView::Enabled(_) => mode_of_model(s.model) == Some(s.mode),
    }
}

/// Whatever key is pressed, the model stays routed as the web mode says.
#[verifier::rlimit(40)]
pub proof fn law_routing_stays_in_step(s: AppView, key: Key)
    requires
        carried(s.mode),
        routed_as_set(s),
    ensures
        carried(key_effect(s, key).0.mode),
        routed_as_set(key_effect(s, key).0),
{
    let t = key_effect(s, key).0;
    law_routing_reads_back(model_base(s.model), ModeView::Off);
    if t.mode != s.mode || t.model != s.model {
        let input = crate::text::trimmed(s.input.text);
        let arg = crate::chat::argument_of(input);
        law_modes_are_carried(presets()[0].key, s.model, arg, false, false);
        law_routing_reads_back(arg, s.mode);
        if let Some(mode) = mode_of_arg(arg) {
            law_routing_reads_back(model_base(s.model), mode);
        }
        law_routing_reads_back(model_base(s.model), mode_of_key(presets()[0].key));
        if let Some(ModalView::WebModePicker(selected)) = s.modal {
            let mode = crate::tui::keys::mode_at(selected);
            if 0 < selected <= presets().len() {
                law_modes_are_carried(presets()[selected - 1].key, s.model, arg, false, false);
            }
            law_routing_reads_back(model_base(s.model), mode);
        }
        if let Some(ModalView::ModelPicker(m)) = s.modal {
            let found = models_found(m.models, m.search.text);
            law_routing_reads_back(found[m.selected as int].id, s.mode);
        }
    }
}

/// The selected conversation stays one that there is.
#[verifier::rlimit(40)]
pub proof fn law_selection_stays_in_range(s: AppView, key: Key)
    requires
        s.selected < s.conversations.len(),
    ensures
        key_effect(s, key).0.selected < key_effect(s, key).0.conversations.len(),
        key_effect(s, key).0.conversations == s.conversations,
{
}

/// The item that a picker marks is one that it shows.
pub proof fn law_marked_item_is_shown(m: ModelPickerView, p: ProviderPickerView)
    ensures
        model_list(m) matches WidgetView::List { items, selected, .. } && selected < items.len(),
        provider_list(p) matches WidgetView::List { items, selected, .. } && selected < items.len(),
{
}

/// A text of small letters behind a slash.
spec fn command_like(s: Seq<char>) -> bool {
    s.len() > 1 && s[0] == '/' && forall|i: int|
        0 < i < s.len() ==> 'a' <= #[trigger] s[i] <= 'z'
}

proof fn lemma_commands_are_like(i: int)
    requires
        0 <= i < slash_commands().len(),
    ensures
        command_like(slash_commands()[i].command),
{
    reveal_strlit("/help");
    reveal_strlit("/model");
    reveal_strlit("/webmode");
    reveal_strlit("/system");
    reveal_strlit("/clear");
    reveal_strlit("/save");
    reveal_strlit("/history");
    reveal_strlit("/models");
    reveal_strlit("/providers");
}

proof fn lemma_word_of(s: Seq<char>, rest: Seq<char>)
    requires
        forall|i: int| 0 <= i < s.len() ==> !space(#[trigger] s[i]),
        rest.len() > 0 ==> space(rest[0]),
    ensures
        leading_word(s + rest) == s,
    decreases s.len(),
{
    if s.len() == 0 {
        assert(s + rest =~= rest);
        assert(leading_word(rest) =~= Seq::<char>::empty());
        assert(s =~= Seq::<char>::empty());
    } else {
        let tail = s.drop_first();
        assert forall|i: int| 0 <= i < tail.len() implies !space(#[trigger] tail[i]) by {
            assert(tail[i] == s[i + 1]);
        }
        lemma_word_of(tail, rest);
        assert((s + rest).drop_first() =~= tail + rest);
        assert((s + rest)[0] == s[0]);
        assert(!space(s[0]));
        assert(seq![s[0]] + tail =~= s);
    }
}

/// Taking a suggestion leaves a whole command in the input line.
pub proof fn law_completion_is_a_command(input: Seq<char>, idx: nat)
    requires
        suggestions(input).len() > 0,
    ensures
        suggestion_taken(input, idx) matches Some(text) && is_whole_command(text),
{
    let list = suggestions(input);
    let at = synced(idx, list.len()) as int;
    let taken = list[at];
    lemma_suggested_is_command(input, at);
    let i = choose|i: int| 0 <= i < slash_commands().len() && slash_commands()[i] == taken;
    lemma_commands_are_like(i);
    let c = taken.command;
    let text = completed(taken);
    reveal_strlit(" ");
    reveal_strlit("");
    reveal_strlit("/");
    let rest = if taken.takes_argument {
        " "@
    } else {
        ""@
    };
    assert(text == c + rest);
    assert forall|k: int| 0 <= k < c.len() implies !space(#[trigger] c[k]) by {
        if k > 0 {
            assert('a' <= c[k] <= 'z');
        }
    }
    assert(text[0] == c[0]);
    assert(trimmed_start(text) == text);
    lemma_word_of(c, rest);
    assert(first_word(text) == c);
    assert forall|k: int| 0 <= k < c.len() implies (#[trigger] c[k] as u32) < 128 by {
        if k > 0 {
            assert('a' <= c[k] <= 'z');
        }
    }
    assert(all_ascii(c));
    assert(ascii_lower(c) =~= c) by {
        assert forall|k: int| 0 <= k < c.len() implies ascii_lower(c)[k] == c[k] by {
            if k > 0 {
                assert('a' <= c[k] <= 'z');
            }
        }
    }
    assert(lower(c) == c);
    assert(text.take(1) =~= "/"@);
    assert(starts(text, "/"@));
    assert(typed_token(text) == Some(c));
    assert(slash_commands()[i].command == c);
}

proof fn lemma_suggested_is_command(input: Seq<char>, at: int)
    requires
        0 <= at < suggestions(input).len(),
    ensures
        exists|i: int|
            0 <= i < slash_commands().len() && #[trigger] slash_commands()[i] == suggestions(
                input,
            )[at],
{
    if let Some(token) = typed_token(input) {
        if token == "/"@ {
            assert(slash_commands()[at] == suggestions(input)[at]);
        } else {
            lemma_completion_is_listed(slash_commands(), token, at);
        }
    }
}

proof fn lemma_completion_is_listed(
    list: Seq<crate::tui::slash::SlashView>,
    token: Seq<char>,
    at: int,
)
    requires
        0 <= at < crate::tui::slash::completions(list, token).len(),
    ensures
        exists|i: int|
            0 <= i < list.len() && #[trigger] list[i] == crate::tui::slash::completions(
                list,
                token,
            )[at],
    decreases list.len(),
{
    let all = crate::tui::slash::completions(list, token);
    let before = crate::tui::slash::completions(list.drop_last(), token);
    if at < before.len() {
        lemma_completion_is_listed(list.drop_last(), token, at);
        let i = choose|i: int| 0 <= i < list.len() - 1 && list.drop_last()[i] == before[at];
        assert(list[i] == all[at]);
    } else {
        assert(list[list.len() - 1] == all[at]);
    }
}

} // verus!
