//! What is seen of the full-screen chat.

use vstd::prelude::*;

use crate::cli::ModelScope;
use crate::conversation::{MessageView, SummaryView};
use crate::json::price_shown;
use crate::letter::lower;
use crate::lines::lines_of;
use crate::model_mode::{mode_text, presets};
use crate::number::decimal;
use crate::search::contains;
use crate::stamp::short_stamp;
use crate::text::opt_or_empty;
use crate::tui::app::{active_provider, ApiKeyView, AppView, Focus, ModalView};
use crate::tui::dialogs::{
    help_text, api_key_view, key_shown, mode_header, mode_items, mode_list, model_header,
    model_item, model_list, padded, preset_item, preset_suffix, price_or_dash, provider_header,
    provider_item, provider_list, providers_disabled, scope_text, search_header, search_query,
    search_result,
};
use crate::tui::editor::byte_len;
use crate::tui::layout::{around, centered, cursor_column, cut, wanted_by, Area};
use crate::tui::markdown::block_lines;
use crate::tui::paint::{PictureView, WidgetView};
use crate::tui::pickers::{
    chosen_depth, chosen_output, models_found, provider_at, ModelPickerView, ModelView,
    ProviderPickerView, ProviderView, SearchView,
};
use crate::tui::render::{dialog_area, screen_drawn};
use crate::tui::screen::{
    chat_view, conversation_item, conversations_view, footer_view, header_conversation,
    header_model, header_view, hint_line, indented_block, input_drawn, input_line, input_view,
    message_lines, messages_lines, pending_lines, status_tone, suggestion_item, suggestions_area,
    suggestions_drawn, suggestions_view, system_lines, two_digits, writer,
};
use crate::tui::slash::{suggestions, SlashView};
use crate::tui::style::{shortened, LineView, SpanView, Style, Tone};

verus! {

/// Somewhere in a line a text stands directly behind a label.
pub open spec fn tells(line: LineView, label: Seq<char>, value: Seq<char>) -> bool {
    exists|i: int|
        0 <= i && i + 1 < line.len() && (#[trigger] line[i]).text == label && line[i + 1].text
            == value
}

/// Somewhere in a line a text stands.
pub open spec fn shows(line: LineView, text: Seq<char>) -> bool {
    exists|i: int| 0 <= i < line.len() && (#[trigger] line[i]).text == text
}

// ---------------------------------------------------------------------------
// Around the chat
// ---------------------------------------------------------------------------

/// The header tells the conversation, how many messages it holds and where typed keys go; the model,
/// its provider, the web mode, and whether the model is being asked.
pub proof fn law_header_tells_the_chat(s: AppView)
    ensures
        header_view(s) matches WidgetView::Text { lines, .. } && lines.len() == 2 && lines[0]
            == header_conversation(s) && lines[1] == header_model(s),
        tells(header_conversation(s), "Conversation "@, shortened(s.conversation.id, 42)),
        tells(header_conversation(s), "  |  Messages "@, decimal(s.conversation.messages.len())),
        s.focus == Focus::Input ==> tells(header_conversation(s), "  |  Focus "@, "composer"@),
        s.focus == Focus::Conversations ==> tells(
            header_conversation(s),
            "  |  Focus "@,
            "conversations"@,
        ),
        tells(header_model(s), "Model "@, shortened(s.model, 40)),
        active_provider(s) matches Some(provider) ==> tells(
            header_model(s),
            "  |  Provider "@,
            provider,
        ),
        active_provider(s) is None ==> tells(header_model(s), "  |  Provider "@, "auto"@),
        tells(header_model(s), "  |  Web "@, mode_text(s.mode)),
        s.pending ==> tells(header_model(s), "  |  Status "@, "thinking"@),
        !s.pending ==> tells(header_model(s), "  |  Status "@, "ready"@),
{
    let a = header_conversation(s);
    assert(a[0].text == "Conversation "@);
    assert(a[2].text == "  |  Messages "@);
    assert(a[4].text == "  |  Focus "@);
    assert(a.len() == 6);
    let b = header_model(s);
    assert(b[0].text == "Model "@);
    assert(b[2].text == "  |  Provider "@);
    assert(b[4].text == "  |  Web "@);
    assert(b[6].text == "  |  Status "@);
    assert(b.len() == 8);
}

/// Every conversation of the list is shown, in its order, and the selected one is marked; where there
/// is none, that is said.
pub proof fn law_conversations_are_listed(s: AppView, i: int)
    ensures
        conversations_view(s) matches WidgetView::List { items, selected, .. } && {
            &&& selected == s.selected
            &&& s.conversations.len() > 0 ==> items.len() == s.conversations.len()
            &&& s.conversations.len() == 0 ==> items.len() == 1 && items[0].len() == 1 && shows(
                items[0][0],
                "No conversations yet"@,
            )
            &&& 0 <= i < s.conversations.len() ==> items[i] == conversation_item(
                s.conversations[i],
                s.conversation.id,
            )
        },
{
    if s.conversations.len() == 0 {
        if let WidgetView::List { items, .. } = conversations_view(s) {
            assert(items[0][0][0].text == "No conversations yet"@);
        }
    }
}

/// A conversation is listed by its name, how many messages it holds, its model and when it was
/// changed; the open one has a full mark in front.
pub proof fn law_conversation_is_told(c: SummaryView, open_id: Seq<char>)
    ensures
        conversation_item(c, open_id).len() == 2,
        c.id == open_id ==> tells(conversation_item(c, open_id)[0], "●"@ + " "@, shortened(c.id, 34)),
        c.id != open_id ==> tells(conversation_item(c, open_id)[0], "○"@ + " "@, shortened(c.id, 34)),
        shows(conversation_item(c, open_id)[1], decimal(c.message_count) + " msgs"@),
        tells(conversation_item(c, open_id)[1], "  •  "@, shortened(c.model, 18)),
        short_stamp(c.updated_at.secs, c.updated_at.nanos) matches Some(stamp) ==> tells(
            conversation_item(c, open_id)[1],
            "  •  "@,
            stamp,
        ),
{
    let a = conversation_item(c, open_id)[0];
    let b = conversation_item(c, open_id)[1];
    assert(a.len() == 2);
    assert(a[0].text == if c.id == open_id {
        "●"@ + " "@
    } else {
        "○"@ + " "@
    });
    assert(b.len() == 5);
    assert(b[0].text == decimal(c.message_count) + " msgs"@);
    assert(b[1].text == "  •  "@);
    assert(b[3].text == "  •  "@);
}

/// The footer tells the status: in red where something failed, in green where something was done.
pub proof fn law_footer_tells_the_status(s: AppView)
    ensures
        footer_view(s) matches WidgetView::Text { lines, .. } && lines.len() == 2 && tells(
            lines[1],
            "STATUS  "@,
            s.status,
        ) && lines[1].last().style.fg == Some(status_tone(s.status)),
        contains(lower(s.status), "fail"@) || contains(lower(s.status), "error"@) || contains(
            lower(s.status),
            "invalid"@,
        ) <==> status_tone(s.status) == Tone::Danger,
        (contains(lower(s.status), "saved"@) || contains(lower(s.status), "completed"@) || contains(
            lower(s.status),
            "received"@,
        )) && status_tone(s.status) != Tone::Danger <==> status_tone(s.status) == Tone::Success,
{
    if let WidgetView::Text { lines, .. } = footer_view(s) {
        assert(lines[1][0].text == "STATUS  "@);
        assert(lines[1].len() == 2);
    }
}

// ---------------------------------------------------------------------------
// The chat
// ---------------------------------------------------------------------------

/// The chat shows the system prompt, then every message, then what is being asked, from the line that
/// was scrolled to.
pub proof fn law_chat_shows_everything_said(s: AppView)
    ensures
        chat_view(s) matches WidgetView::Text { lines, wrap, scroll, .. } && {
            &&& lines == system_lines(s.conversation.system_prompt) + messages_lines(
                s.conversation.messages,
            ) + pending_lines(s)
            &&& wrap
            &&& scroll == s.chat_scroll
        },
{
}

/// Messages are shown one behind the other, in order, each with its number.
pub proof fn law_messages_are_shown_in_order(messages: Seq<MessageView>, last: MessageView)
    ensures
        messages_lines(Seq::empty()).len() == 0,
        messages_lines(messages.push(last)) == messages_lines(messages) + message_lines(
            last,
            messages.len() + 1,
        ),
{
    assert(messages.push(last).drop_last() =~= messages);
}

/// A message is shown under the name of its writer, with its number; its content stands below, drawn
/// as markdown and indented, and an empty line behind it. An empty message is said to be one.
pub proof fn law_message_is_shown(m: MessageView, number: nat, i: int)
    ensures
        m.role == "user"@
            && m.role != "assistant"@ ==> shows(message_lines(m, number)[0], " "@ + "YOU"@ + " "@),
        m.role == "assistant"@ ==> shows(message_lines(m, number)[0], " "@ + "ASSISTANT"@ + " "@),
        m.role != "user"@ && m.role != "assistant"@ ==> shows(
            message_lines(m, number)[0],
            " "@ + "SYSTEM"@ + " "@,
        ),
        number >= 10 ==> shows(message_lines(m, number)[0], "  message #"@ + decimal(number)),
        0 <= i < block_lines(m.content, content_style()).len() ==> message_lines(m, number)[i + 1]
            == seq![SpanView { text: "  "@, style: muted_style() }] + block_lines(
            m.content,
            content_style(),
        )[i],
        m.content.len() > 0 ==> message_lines(m, number).len() == block_lines(
            m.content,
            content_style(),
        ).len() + 2,
        m.content.len() == 0 ==> message_lines(m, number).len() == 3 && shows(
            message_lines(m, number)[1],
            "  (empty)"@,
        ),
        message_lines(m, number).last().len() == 0,
{
    let lines = message_lines(m, number);
    assert(lines[0].len() == 2);
    assert(lines[0][0].text == " "@ + writer(m.role).0 + " "@);
    assert(lines[0][1].text == "  message #"@ + two_digits(number));
    let block = block_lines(m.content, content_style());
    if 0 <= i < block.len() {
        assert(lines[i + 1] == indented_block(m.content)[i]);
        assert(Seq::<SpanView>::empty().push(SpanView { text: "  "@, style: muted_style() }) =~= seq![
            SpanView { text: "  "@, style: muted_style() },
        ]);
    }
    if m.content.len() == 0 {
        assert(block.len() == 0);
        assert(lines[1][0].text == "  (empty)"@);
    }
}

/// The style of what was said.
pub open spec fn content_style() -> Style {
    Style {
        fg: Some(Tone::Text),
        bg: None,
        bold: false,
        italic: false,
        crossed_out: false,
        underlined: false,
    }
}

/// The style of what stands around it.
pub open spec fn muted_style() -> Style {
    Style { fg: Some(Tone::Muted), ..content_style() }
}

/// The system prompt is shown where there is one, and nothing for it where there is none; what the
/// user said last is shown while the model is being asked.
pub proof fn law_prompt_and_question_are_shown(s: AppView, prompt: Seq<char>, i: int)
    ensures
        system_lines(None).len() == 0,
        system_lines(Some(prompt)).len() == block_lines(prompt, content_style()).len() + 2,
        0 <= i < block_lines(prompt, content_style()).len() ==> system_lines(Some(prompt))[i + 1]
            == seq![SpanView { text: "  "@, style: muted_style() }] + block_lines(
            prompt,
            content_style(),
        )[i],
        !s.pending ==> pending_lines(s).len() == 0,
        s.pending && s.pending_user is Some ==> pending_lines(s).len() == 3 && tells(
            pending_lines(s)[0],
            " YOU "@,
            "  "@ + s.pending_user.unwrap(),
        ),
        s.pending ==> tells(pending_lines(s).last(), " ASSISTANT "@, "  composing response..."@),
{
    let block = block_lines(prompt, content_style());
    if 0 <= i < block.len() {
        assert(system_lines(Some(prompt))[i + 1] == indented_block(prompt)[i]);
        assert(Seq::<SpanView>::empty().push(SpanView { text: "  "@, style: muted_style() }) =~= seq![
            SpanView { text: "  "@, style: muted_style() },
        ]);
    }
    if s.pending {
        assert(pending_lines(s).last()[0].text == " ASSISTANT "@);
        assert(pending_lines(s).last().len() == 2);
        if s.pending_user is Some {
            assert(pending_lines(s)[0][0].text == " YOU "@);
            assert(pending_lines(s)[0].len() == 2);
        }
    }
}

// ---------------------------------------------------------------------------
// The input line
// ---------------------------------------------------------------------------

/// What was typed is shown as it is, and how many characters it has; where nothing was typed, that is
/// said. The cursor stands in the line where no dialog is open.
pub proof fn law_input_is_shown(p: PictureView, s: AppView, area: Area)
    ensures
        input_view(s) matches WidgetView::Text { lines, .. } && lines.len() == 3 && lines[0]
            == input_line(s.input.text) && shows(lines[2], decimal(s.input.text.len()) + " chars"@),
        s.input.text.len() > 0 ==> input_line(s.input.text) == seq![
            SpanView { text: s.input.text, style: content_style() },
        ],
        s.input.text.len() == 0 ==> input_line(s.input.text).len() == 1 && input_line(
            s.input.text,
        )[0].style == muted_style(),
        input_drawn(p, s, area).strokes == p.strokes.push(
            crate::tui::paint::StrokeView { widget: input_view(s), area },
        ),
        s.focus == Focus::Input && s.modal is None ==> input_drawn(p, s, area).cursor == Some(
            (cursor_column(area, 0, s.input.cursor) as u16, (area.y + 1) as u16),
        ),
        s.focus != Focus::Input || s.modal is Some ==> input_drawn(p, s, area).cursor == p.cursor,
{
    let hints = hint_line(s.input.text.len());
    assert(hints[8].text == decimal(s.input.text.len()) + " chars"@);
    assert(input_line(s.input.text) =~= seq![input_line(s.input.text)[0]]);
}

/// The cursor stands where the next character goes, as long as that is within the area.
pub proof fn law_cursor_stands_at_the_place(area: Area, before: nat, cursor: nat)
    requires
        before + cursor + 3 <= area.width,
    ensures
        cursor_column(area, before, cursor) == area.x + 1 + before + cursor,
{
}

/// At most five suggestions are shown, the first ones in their order, directly above the input line;
/// the chosen one is marked. They are shown only while a line is being typed.
pub proof fn law_suggestions_are_shown(p: PictureView, s: AppView, area: Area, i: int)
    requires
        suggestions(s.input.text).len() > 0,
    ensures
        suggestions_view(s) matches WidgetView::List { items, selected, .. } && {
            &&& items.len() <= 5
            &&& suggestions(s.input.text).len() <= 5 ==> items.len() == suggestions(s.input.text).len()
            &&& suggestions(s.input.text).len() > 5 ==> items.len() == 5
            &&& 0 <= i < items.len() ==> items[i] == suggestion_item(suggestions(s.input.text)[i])
            &&& s.suggestion < items.len() ==> selected == s.suggestion
            &&& selected < items.len()
        },
        s.modal is Some || s.focus != Focus::Input ==> suggestions_drawn(p, s, area) == p,
        s.modal is None && s.focus == Focus::Input ==> suggestions_drawn(p, s, area).strokes.len()
            == p.strokes.len() + 2 && suggestions_drawn(p, s, area).strokes.last().widget
            == suggestions_view(s),
{
}

/// The suggestions are laid out so that they end where the input line begins, where there is room.
pub proof fn law_suggestions_stand_above(input: Area, shown: nat)
    requires
        1 <= shown <= 5,
        input.y >= shown + 1,
    ensures
        suggestions_area(input, shown).y + shown + 1 == input.y,
        suggestions_area(input, shown).height == shown + 2,
        suggestions_area(input, shown).x == input.x,
        suggestions_area(input, shown).width <= input.width,
        suggestions_area(input, shown).width <= 72,
{
}

/// A suggestion is shown by its command, with a mark where that takes an argument, and what it is for.
pub proof fn law_suggestion_is_told(c: SlashView)
    ensures
        suggestion_item(c).len() == 1,
        c.takes_argument ==> shows(suggestion_item(c)[0], c.command + "…"@),
        !c.takes_argument ==> shows(suggestion_item(c)[0], c.command),
        shows(suggestion_item(c)[0], c.description),
{
    reveal_strlit("");
    assert(c.command + ""@ =~= c.command);
    let line = suggestion_item(c)[0];
    assert(line[0].text == c.command + (if c.takes_argument {
        "…"@
    } else {
        ""@
    }));
    assert(line[2].text == c.description);
}

// ---------------------------------------------------------------------------
// Dialogs
// ---------------------------------------------------------------------------

/// A hidden key is shown as stars, and a revealed one as it was typed.
pub proof fn law_key_is_shown_or_hidden(m: ApiKeyView, i: int)
    ensures
        m.reveal ==> key_shown(m) == m.value.text,
        !m.reveal ==> key_shown(m).len() == byte_len(m.value.text),
        !m.reveal && 0 <= i < key_shown(m).len() ==> key_shown(m)[i] == '*',
        api_key_view(m) matches WidgetView::Text { lines, .. } && tells(
            lines.last(),
            "API Key  "@,
            key_shown(m),
        ),
{
    if let WidgetView::Text { lines, .. } = api_key_view(m) {
        assert(lines.last()[0].text == "API Key  "@);
        assert(lines.last().len() == 2);
    }
}

/// The picker of models tells its catalog, how many models it shows and what is searched for, and
/// shows each model in its order.
pub proof fn law_models_are_shown(m: ModelPickerView, i: int)
    ensures
        model_header(m) matches WidgetView::Text { lines, .. } && tells(
            lines[0],
            "Scope  "@,
            scope_text(m.scope),
        ) && tells(
            lines[0],
            "  •  Models  "@,
            decimal(models_found(m.models, m.search.text).len()),
        ) && tells(lines[1], "Search  "@, m.search.text),
        model_list(m) matches WidgetView::List { items, selected, .. } && {
            &&& models_found(m.models, m.search.text).len() > 0 ==> items.len() == models_found(
                m.models,
                m.search.text,
            ).len()
            &&& 0 <= i < models_found(m.models, m.search.text).len() ==> items[i] == model_item(
                models_found(m.models, m.search.text)[i],
            )
            &&& m.selected < models_found(m.models, m.search.text).len() ==> selected == m.selected
        },
{
    if let WidgetView::Text { lines, .. } = model_header(m) {
        assert(lines[0][0].text == "Scope  "@);
        assert(lines[0][2].text == "  •  Models  "@);
        assert(lines[0].len() == 5);
        assert(lines[1][0].text == "Search  "@);
        assert(lines[1].len() == 2);
    }
}

/// A model is shown by its id, whether the subscription pays for it, its owner and its category.
pub proof fn law_model_is_told(m: ModelView)
    ensures
        model_item(m).len() == 2,
        shows(model_item(m)[0], shortened(m.id, 62)),
        m.subscription_included == Some(true) ==> shows(
            model_item(m)[0],
            "["@ + "subscription"@ + "]"@,
        ),
        m.subscription_included == Some(false) ==> shows(model_item(m)[0], "["@ + "paygo"@ + "]"@),
        m.subscription_included is None ==> shows(model_item(m)[0], "["@ + "sub=?"@ + "]"@),
        shows(model_item(m)[1], m.owned_by),
        m.category matches Some(category) ==> shows(model_item(m)[1], category),
{
    let a = model_item(m)[0];
    let b = model_item(m)[1];
    assert(a[0].text == shortened(m.id, 62));
    assert(a[2].text == "["@ + (match m.subscription_included {
        Some(true) => "subscription"@,
        Some(false) => "paygo"@,
        None => "sub=?"@,
    }) + "]"@);
    assert(b[0].text == m.owned_by);
    assert(b[2].text == opt_or_empty(m.category));
}

/// The picker of providers tells its model, and shows each provider in its order; where none may be
/// chosen, it says why.
pub proof fn law_providers_are_shown(m: ProviderPickerView, i: int)
    ensures
        provider_header(m) matches WidgetView::Text { lines, .. } && tells(
            lines[0],
            "Model  "@,
            shortened(m.model_id, 72),
        ),
        provider_list(m) matches WidgetView::List { items, selected, .. } && {
            &&& m.providers.len() > 0 ==> items.len() == m.providers.len()
            &&& 0 <= i < m.providers.len() ==> items[i] == provider_item(
                m.providers[i],
                price_or_dash(m.providers[i].input_per_1k),
                price_or_dash(m.providers[i].output_per_1k),
            )
            &&& m.selected < m.providers.len() ==> selected == m.selected
        },
        m.message matches Some(text) ==> (providers_disabled(m) matches WidgetView::Text { lines, .. }
            && lines.last().len() == lines_of(text).len() && (0 <= i < lines_of(text).len()
            ==> lines.last()[i].text == lines_of(text)[i])),
{
    if let WidgetView::Text { lines, .. } = provider_header(m) {
        assert(lines[0][0].text == "Model  "@);
        assert(lines[0].len() == 2);
    }
}

/// A provider is shown by its name, whether it is available, and what it asks for input and for
/// output; a price that is not known is a dash.
pub proof fn law_provider_is_told(p: ProviderView, input: Seq<char>, output: Seq<char>)
    ensures
        provider_item(p, input, output).len() == 2,
        shows(provider_item(p, input, output)[0], p.provider),
        p.available ==> shows(provider_item(p, input, output)[0], "available"@),
        !p.available ==> shows(provider_item(p, input, output)[0], "unavailable"@),
        tells(provider_item(p, input, output)[1], "input/1k "@, input),
        tells(provider_item(p, input, output)[1], "  output/1k "@, output),
        price_or_dash(None) == "-"@,
        price_shown(input) matches Some(text) ==> price_or_dash(Some(input)) == text,
        price_shown(input) is None ==> price_or_dash(Some(input)) == "-"@,
{
    let a = provider_item(p, input, output)[0];
    let b = provider_item(p, input, output)[1];
    assert(a[0].text == p.provider);
    assert(a[2].text == if p.available {
        "available"@
    } else {
        "unavailable"@
    });
    assert(b[0].text == "input/1k "@);
    assert(b[2].text == "  output/1k "@);
    assert(b.len() == 4);
}

/// The picker of web modes shows one item for none and one for each preset, in their order, and the
/// mode that is set.
pub proof fn law_web_modes_are_shown(current: Seq<char>, selected: nat, i: int)
    ensures
        mode_items().len() == presets().len() + 1,
        shows(mode_items()[0][0], "off"@),
        0 <= i < presets().len() ==> mode_items()[i + 1] == preset_item(presets()[i]),
        mode_header(current) matches WidgetView::Text { lines, .. } && tells(
            lines[0],
            "Current  "@,
            current,
        ),
        selected <= presets().len() ==> (mode_list(selected) matches WidgetView::List {
            items,
            selected: marked,
            ..
        } && marked == selected && items == mode_items()),
        0 <= i < presets().len() ==> {
            &&& shows(preset_item(presets()[i])[0], padded(presets()[i].provider, 12))
            &&& shows(preset_item(presets()[i])[0], presets()[i].mode)
            &&& shows(preset_item(presets()[i])[0], preset_suffix(presets()[i].key))
            &&& shows(preset_item(presets()[i])[1], presets()[i].description)
        },
{
    assert(mode_items()[0][0][0].text == "off"@);
    if let WidgetView::Text { lines, .. } = mode_header(current) {
        assert(lines[0][0].text == "Current  "@);
        assert(lines[0].len() == 2);
    }
    if 0 <= i < presets().len() {
        let item = preset_item(presets()[i]);
        assert(item[0][0].text == padded(presets()[i].provider, 12));
        assert(item[0][2].text == presets()[i].mode);
        assert(item[0][4].text == preset_suffix(presets()[i].key));
        assert(item[1][0].text == presets()[i].description);
    }
}

/// Padding keeps a text, and puts spaces behind it up to a width.
pub proof fn law_padding_adds_spaces(s: Seq<char>, width: nat, i: int)
    ensures
        s.len() >= width ==> padded(s, width) == s,
        s.len() < width ==> padded(s, width).len() == width && padded(s, width).take(s.len() as int)
            == s,
        s.len() <= i < width ==> padded(s, width)[i] == ' ',
{
    if s.len() < width {
        assert(padded(s, width).take(s.len() as int) =~= s);
    }
}

/// The dialog of a search tells what is chosen, shows what was typed, and what the search gave from
/// the line that was scrolled to.
pub proof fn law_search_is_shown(m: SearchView)
    ensures
        search_header(m) matches WidgetView::Text { lines, .. } && {
            &&& tells(
                lines[0],
                "Provider  "@,
                crate::commands::provider_text(provider_at(m.provider_idx)),
            )
            &&& tells(lines[0], "  |  Depth  "@, chosen_depth(m))
            &&& tells(lines[1], "Output  "@, chosen_output(m))
            &&& m.include_images ==> tells(lines[1], "  |  Include images  "@, "yes"@)
            &&& !m.include_images ==> tells(lines[1], "  |  Include images  "@, "no"@)
        },
        m.query.text.len() > 0 ==> (search_query(m) matches WidgetView::Text { lines, .. } && shows(
            lines[0],
            m.query.text,
        )),
        search_result(m) matches WidgetView::Plain { text, scroll, .. } && text == m.result && scroll
            == m.result_scroll,
{
    if let WidgetView::Text { lines, .. } = search_header(m) {
        assert(lines[0][0].text == "Provider  "@);
        assert(lines[0][2].text == "  |  Depth  "@);
        assert(lines[0].len() == 4);
        assert(lines[1][0].text == "Output  "@);
        assert(lines[1][2].text == "  |  Include images  "@);
        assert(lines[1].len() == 4);
    }
    if m.query.text.len() > 0 {
        if let WidgetView::Text { lines, .. } = search_query(m) {
            assert(lines[0][0].text == m.query.text);
        }
    }
}

// ---------------------------------------------------------------------------
// The screen
// ---------------------------------------------------------------------------

/// The screen is drawn from the back to the front: its colour, the header, the conversations, the
/// chat, the input line and the footer, each in its own area; a dialog and the suggestions go over
/// them.
pub proof fn law_screen_is_drawn_in_order(
    s: AppView,
    screen: Area,
    root: Seq<Area>,
    body: Seq<Area>,
    dialog: Area,
    parts: Seq<Area>,
)
    ensures
        screen_drawn(s, screen, root, body, dialog, parts).strokes.len() >= 6,
        screen_drawn(s, screen, root, body, dialog, parts).strokes[0].widget == WidgetView::Fill(
            Tone::Canvas,
        ),
        screen_drawn(s, screen, root, body, dialog, parts).strokes[0].area == screen,
        screen_drawn(s, screen, root, body, dialog, parts).strokes[1].widget == header_view(s),
        screen_drawn(s, screen, root, body, dialog, parts).strokes[1].area == root[0],
        screen_drawn(s, screen, root, body, dialog, parts).strokes[2].widget == conversations_view(s),
        screen_drawn(s, screen, root, body, dialog, parts).strokes[2].area == body[0],
        screen_drawn(s, screen, root, body, dialog, parts).strokes[3].widget == chat_view(s),
        screen_drawn(s, screen, root, body, dialog, parts).strokes[3].area == body[1],
        screen_drawn(s, screen, root, body, dialog, parts).strokes[4].widget == input_view(s),
        screen_drawn(s, screen, root, body, dialog, parts).strokes[4].area == root[2],
        screen_drawn(s, screen, root, body, dialog, parts).strokes[5].widget == footer_view(s),
        screen_drawn(s, screen, root, body, dialog, parts).strokes[5].area == root[3],
        s.modal is None && suggestions(s.input.text).len() == 0 ==> screen_drawn(
            s,
            screen,
            root,
            body,
            dialog,
            parts,
        ).strokes.len() == 6,
        s.modal is Some ==> {
            &&& screen_drawn(s, screen, root, body, dialog, parts).strokes.len() >= 8
            &&& screen_drawn(s, screen, root, body, dialog, parts).strokes[6].widget
                == WidgetView::Clear
            &&& screen_drawn(s, screen, root, body, dialog, parts).strokes[6].area == dialog
        },
{
}

/// The dialog that is open is the one that is drawn, each of its parts in its own area.
pub proof fn law_open_dialog_is_drawn(
    s: AppView,
    screen: Area,
    root: Seq<Area>,
    body: Seq<Area>,
    dialog: Area,
    parts: Seq<Area>,
)
    ensures
        s.modal matches Some(ModalView::ApiKey(m)) ==> screen_drawn(
            s,
            screen,
            root,
            body,
            dialog,
            parts,
        ).strokes[7].widget == api_key_view(m),
        s.modal matches Some(ModalView::ModelPicker(m)) ==> {
            let p = screen_drawn(s, screen, root, body, dialog, parts);
            &&& p.strokes.len() == 9
            &&& p.strokes[7].widget == model_header(m) && p.strokes[7].area == parts[0]
            &&& p.strokes[8].widget == model_list(m) && p.strokes[8].area == parts[1]
        },
        s.modal matches Some(ModalView::ProviderPicker(m)) ==> {
            let p = screen_drawn(s, screen, root, body, dialog, parts);
            &&& m.supports_provider_selection ==> p.strokes[7].widget == provider_header(m)
                && p.strokes[7].area == parts[0] && p.strokes[8].widget == provider_list(m)
                && p.strokes[8].area == parts[1]
            &&& !m.supports_provider_selection ==> p.strokes[7].widget == providers_disabled(m)
                && p.strokes.len() == 8
        },
        s.modal matches Some(ModalView::WebModePicker(selected)) ==> {
            let p = screen_drawn(s, screen, root, body, dialog, parts);
            &&& p.strokes[7].widget == mode_header(mode_text(s.mode)) && p.strokes[7].area == parts[0]
            &&& p.strokes[8].widget == mode_list(selected) && p.strokes[8].area == parts[1]
        },
        s.modal matches Some(ModalView::WebSearch(m)) ==> {
            let p = screen_drawn(s, screen, root, body, dialog, parts);
            &&& p.strokes[7].widget == search_header(m) && p.strokes[7].area == parts[0]
            &&& p.strokes[8].widget == search_query(m) && p.strokes[8].area == parts[1]
            &&& p.strokes[9].widget == search_result(m) && p.strokes[9].area == parts[2]
        },
{
}

proof fn lemma_cuts(start: nat, extent: nat, percent: u16)
    requires
        percent <= 100,
    ensures
        ({
            let (a, b) = (
                cut(start, extent, around(percent), 1),
                cut(start, extent, around(percent), 2),
            );
            &&& start <= a <= b <= start + extent
            &&& -100 <= 100 * (b - a) - percent * extent <= 100
            &&& -50 <= 100 * (a - start) - ((100 - percent) / 2) * extent <= 50
        }),
{
    let parts = around(percent);
    reveal_with_fuel(wanted_by, 4);
    reveal_with_fuel(crate::tui::layout::growing, 4);
    let beside = ((100 - percent) / 2) as int;
    let (b, p) = (beside * extent, percent * extent);
    assert(wanted_by(parts, extent, 1) == b);
    assert(wanted_by(parts, extent, 2) == b + p);
    assert(0 <= b && 0 <= p && b + p <= 100 * extent) by (nonlinear_arith)
        requires
            b == beside * extent,
            p == percent * extent,
            0 <= beside,
            0 <= percent,
            beside + percent <= 100,
            0 <= extent,
    ;
}

/// A dialog takes the share of the screen that it is given, within a cell, and lies in its middle:
/// what is left stands on both sides of it.
pub proof fn law_dialogs_are_centered(area: Area, width: u16, height: u16)
    requires
        area.fits(),
        width <= 100,
        height <= 100,
    ensures
        centered(area, width, height).lies_in(area),
        -100 <= 100 * centered(area, width, height).width - width * area.width <= 100,
        -100 <= 100 * centered(area, width, height).height - height * area.height <= 100,
        -50 <= 100 * (centered(area, width, height).x - area.x) - ((100 - width) / 2) * area.width <= 50,
        -50 <= 100 * (centered(area, width, height).y - area.y) - ((100 - height) / 2) * area.height
            <= 50,
{
    lemma_cuts(area.x as nat, area.width as nat, width);
    lemma_cuts(area.y as nat, area.height as nat, height);
}

/// Each dialog has its own share of the screen.
pub proof fn law_dialogs_have_their_shares(screen: Area, modal: Option<ModalView>)
    ensures
        modal is None ==> dialog_area(screen, modal) == screen,
        modal matches Some(ModalView::ApiKey(_)) ==> dialog_area(screen, modal) == centered(
            screen,
            70,
            30,
        ),
        modal matches Some(ModalView::ModelPicker(_)) ==> dialog_area(screen, modal) == centered(
            screen,
            85,
            80,
        ),
        modal matches Some(ModalView::ProviderPicker(_)) ==> dialog_area(screen, modal) == centered(
            screen,
            80,
            70,
        ),
        modal matches Some(ModalView::WebModePicker(_)) ==> dialog_area(screen, modal) == centered(
            screen,
            86,
            78,
        ),
        modal matches Some(ModalView::WebSearch(_)) ==> dialog_area(screen, modal) == centered(
            screen,
            90,
            85,
        ),
        modal matches Some(ModalView::Help) ==> dialog_area(screen, modal) == centered(screen, 75, 60),
{
}

/// A long text is shown by its two ends, as far as they fit, with dots between them.
pub proof fn law_long_texts_keep_their_ends(s: Seq<char>, max: nat)
    requires
        max > 3,
        s.len() > max,
    ensures
        ({
            let left = (max - 3) / 2;
            let right = max - 3 - left;
            &&& shortened(s, max) == s.take(left) + "..."@ + s.skip(s.len() - right)
            &&& left <= right <= left + 1
        }),
{
}

/// A number is shown with two digits at least.
pub proof fn law_numbers_have_two_digits(n: nat)
    ensures
        n < 10 ==> two_digits(n) == "0"@ + decimal(n),
        n >= 10 ==> two_digits(n) == decimal(n),
{
}

/// Where typed keys go is seen by its frame and its title; the other one is muted.
pub proof fn law_focus_is_seen(s: AppView)
    ensures
        conversations_view(s) matches WidgetView::List { panel, .. } && {
            &&& s.focus == Focus::Conversations <==> panel.border == Tone::BorderFocus
            &&& s.focus == Focus::Conversations ==> tells(panel.title, " Conversations "@, " ACTIVE "@)
            &&& s.focus != Focus::Conversations ==> tells(
                panel.title,
                " Conversations "@,
                " BROWSE "@,
            )
        },
        input_view(s) matches WidgetView::Text { panel, .. } && {
            &&& s.focus == Focus::Input <==> panel.border == Tone::BorderFocus
            &&& s.focus == Focus::Input ==> tells(panel.title, " Composer "@, " ACTIVE "@)
            &&& s.focus != Focus::Input ==> tells(panel.title, " Composer "@, " READY "@)
        },
{
    if let WidgetView::List { panel, .. } = conversations_view(s) {
        assert(panel.title[0].text == " Conversations "@);
        assert(panel.title.len() == 2);
    }
    if let WidgetView::Text { panel, .. } = input_view(s) {
        assert(panel.title[0].text == " Composer "@);
        assert(panel.title.len() == 2);
    }
}

/// Each catalog is told by its name; where a picker has nothing to show, or nothing may be chosen,
/// that is said.
pub proof fn law_pickers_say_what_they_lack(m: ModelPickerView, p: ProviderPickerView)
    ensures
        m.scope == ModelScope::Canonical ==> scope_text(m.scope) == "canonical"@,
        m.scope == ModelScope::Subscription ==> scope_text(m.scope) == "subscription"@,
        m.scope == ModelScope::Paid ==> scope_text(m.scope) == "paid"@,
        models_found(m.models, m.search.text).len() == 0 ==> (model_list(m) matches WidgetView::List {
            items,
            ..
        } && items.len() == 1 && shows(items[0][0], "No models matched your search"@)),
        p.providers.len() == 0 ==> (provider_list(p) matches WidgetView::List { items, .. }
            && items.len() == 1 && shows(items[0][0], "No providers returned"@)),
{
    if models_found(m.models, m.search.text).len() == 0 {
        if let WidgetView::List { items, .. } = model_list(m) {
            assert(items[0][0][0].text == "No models matched your search"@);
        }
    }
    if p.providers.len() == 0 {
        if let WidgetView::List { items, .. } = provider_list(p) {
            assert(items[0][0][0].text == "No providers returned"@);
        }
    }
}

/// The help is shown as a whole, in the area of the dialog.
pub proof fn law_help_is_shown(
    s: AppView,
    screen: Area,
    root: Seq<Area>,
    body: Seq<Area>,
    dialog: Area,
    parts: Seq<Area>,
)
    requires
        s.modal == Some(ModalView::Help),
    ensures
        screen_drawn(s, screen, root, body, dialog, parts).strokes.len() == 8,
        screen_drawn(s, screen, root, body, dialog, parts).strokes[7].area == dialog,
        screen_drawn(s, screen, root, body, dialog, parts).strokes[7].widget matches WidgetView::Plain {
            text,
            scroll,
            ..
        } && text == help_text() && scroll == 0,
{
}

} // verus!
